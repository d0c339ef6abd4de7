//! Battery monitoring, policy, and control.

pub mod config;
pub mod decorate;
pub mod helper;
pub mod history;
pub mod native;
pub mod policy;
pub mod reconcile;
pub mod sysfs;
pub mod upower;
