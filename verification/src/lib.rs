//! Data-refresh and state-synchronisation core of a terminal dashboard.

pub mod binary64;
pub mod config;
pub mod dashboard;
pub mod format;
pub mod github;
pub mod system;
pub mod text;
pub mod time;
