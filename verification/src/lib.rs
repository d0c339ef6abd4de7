//! Session integration, policy, and action logic for a desktop bar.

pub mod activity;
pub mod api;
pub mod audio;
pub mod battery;
pub mod brightness;
pub mod hyprland;
pub mod media;
pub mod model;
pub mod osd_hardware;
pub mod power;
pub mod properties;
pub mod protocol;
pub mod record;
pub mod sleep;
pub mod sorting;
pub mod state;
pub mod subscriptions;
pub mod text;
pub mod time;
pub mod timezone;
pub mod updates;
