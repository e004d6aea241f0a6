//! The source-control side: its data, one refresh cycle, the cache and the
//! schedule of refreshes.

pub mod cache;
pub mod client;
pub mod cycle;
pub mod events;
pub mod models;
pub mod poller;
pub mod ranking;
