//! Verified core of the HyteDeck side-panel daemon.

pub mod text;
pub mod interval;
pub mod day;
pub mod model;
pub mod usage;
pub mod config;
pub mod settings_text;
pub mod watcher;
pub mod availability;
pub mod metrics;
pub mod lhm;
pub mod hub;
pub mod client;
pub mod weather;
pub mod qweather_fetch;
pub mod weather_loop;
pub mod usage_loop;
pub mod supervisor;
pub mod instance;
pub mod paths;
pub mod panel;
