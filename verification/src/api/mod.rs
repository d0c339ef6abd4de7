//! Requests of clients.

pub mod battery;
pub mod dispatch;
pub mod effects;
pub mod error;
pub mod notifications;
pub mod operation;
