//! The modules of the bar, one per data source.

pub mod battery;
pub mod brightness;
pub mod cpu_usage;
pub mod cpu_freq;
pub mod date_time;
pub mod memory;
pub mod mic;
pub mod sound;
pub mod temperature;
pub mod weather;
pub mod wired;
pub mod wireless;
