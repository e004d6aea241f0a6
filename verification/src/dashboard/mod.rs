//! The dashboard's own state: what the user asks for, what is shown, and
//! what one frame of the event loop changes.

pub mod actions;
pub mod events;
pub mod frame;
pub mod logs;
pub mod state;
pub mod view;
