//! What the sound server reports, and how it is asked.

use crate::Config;
use vstd::prelude::*;

verus! {

/// The time between two readings of the sound server, in nanoseconds.
pub const PULSE_RATE: u32 = 50_000_000;

/// A volume in percent, and whether the device is muted.
#[derive(Copy, Clone, Debug)]
pub struct PulseData(pub u32, pub bool);

/// How the sound server is asked: the time between two readings in
/// nanoseconds, and the names of the output and of the input to watch
/// (the default ones where no name is given).
#[derive(Debug, Clone)]
pub struct PulseSettings {
    pub tick: u32,
    pub sink_name: Option<String>,
    pub source_name: Option<String>,
}

/// The time between two readings in nanoseconds: the configured
/// number of milliseconds, or the default.
pub open spec fn tick_of(config: &Config) -> int {
    match config.pulse_tick {
        Some(ms) => ms * 1_000_000,
        None => PULSE_RATE as int,
    }
}

/// The name of the output to watch, if the configuration names one.
pub open spec fn sink_of(config: &Config) -> Option<String> {
    match config.sound {
        Some(c) => c.sink_name,
        None => None,
    }
}

/// The name of the input to watch, if the configuration names one.
pub open spec fn source_of(config: &Config) -> Option<String> {
    match config.mic {
        Some(c) => c.source_name,
        None => None,
    }
}

/// How the sound server is asked under `config`.
pub fn pulse_settings(config: &Config) -> (r: PulseSettings)
    requires
        tick_of(config) <= u32::MAX,
    ensures
        r.tick == tick_of(config),
        r.sink_name == sink_of(config),
        r.source_name == source_of(config),
{
    let tick = match config.pulse_tick {
        Some(ms) => ms * 1_000_000,
        None => PULSE_RATE,
    };
    let mut sink_name = None;
    let mut source_name = None;
    if let Some(c) = &config.sound {
        sink_name = c.sink_name.clone();
    }
    if let Some(c) = &config.mic {
        source_name = c.source_name.clone();
    }
    PulseSettings { tick, sink_name, source_name }
}

/// Tells whether the configured time between two readings fits the
/// sound server's unit.
pub fn tick_fits(config: &Config) -> (b: bool)
    ensures
        b == (tick_of(config) <= u32::MAX),
{
    match config.pulse_tick {
        Some(ms) => ms <= 4294,
        None => true,
    }
}

} // verus!
