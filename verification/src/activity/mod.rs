//! Calendars, tasks, world clocks, weather, and notifications.

pub mod calendar;
pub mod config;
pub mod ics;
pub mod model;
pub mod notifications;
pub mod provider;
pub mod range;
pub mod service;
pub mod summary;
pub mod todos;
pub mod weather;
