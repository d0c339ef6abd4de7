//! The protocol that clients of the daemon speak.

pub mod registry;
pub mod stream;
