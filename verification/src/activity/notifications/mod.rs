//! Notifications from other programs.

pub mod close_reason;
pub mod engine;
pub mod model;
pub mod persistence;
pub mod policy;
pub mod server;
pub mod swaync;
pub mod table;
