//! Status-bar content generator: independent modules report short text
//! fragments, and the bar substitutes them into a format template.

pub mod bar;
pub mod error;
pub mod laws;
pub mod markup;
pub mod module;
pub mod modules;
pub mod netlink;
pub mod number;
pub mod pattern;
pub mod pulse;
pub mod render;
pub mod text;
pub mod util;

pub use bar::Baru;
pub use markup::{parse_format, MarkupMatch};

use modules::battery::Config as BatteryConfig;
use modules::brightness::Config as BrightnessConfig;
use modules::cpu_freq::Config as CpuFreqConfig;
use modules::cpu_usage::Config as CpuUsageConfig;
use modules::date_time::Config as DateTimeConfig;
use modules::memory::Config as MemoryConfig;
use modules::mic::Config as MicConfig;
use modules::sound::Config as SoundConfig;
use modules::temperature::Config as TemperatureConfig;
use modules::weather::Config as WeatherConfig;
use modules::wired::Config as WiredConfig;
use modules::wireless::Config as WirelessConfig;
use vstd::prelude::*;

verus! {

/// Message sent by modules.
/// `0`: module key,
/// `1`: value,
/// `2`: label
#[derive(Debug)]
pub struct ModuleMsg(pub char, pub Option<String>, pub Option<String>);

/// A message as text: the key of the module that sent it, and the
/// value and the label as far as the message has them.
pub struct MsgView {
    pub key: char,
    pub value: Option<Seq<char>>,
    pub label: Option<Seq<char>>,
}

impl View for ModuleMsg {
    type V = MsgView;

    open spec fn view(&self) -> MsgView {
        MsgView { key: self.0, value: text::opt_text(self.1), label: text::opt_text(self.2) }
    }
}

/// The value of `o`, or `default` where there is none.
pub open spec fn value_or<T>(o: Option<T>, default: T) -> T {
    match o {
        Some(v) => v,
        None => default,
    }
}

#[derive(Debug, Clone)]
pub struct Config {
    pub format: String,
    pub tick: Option<u32>,
    pub failed_icon: Option<String>,
    pub pulse_tick: Option<u32>,
    pub battery: Option<BatteryConfig>,
    pub brightness: Option<BrightnessConfig>,
    pub cpu_usage: Option<CpuUsageConfig>,
    pub cpu_freq: Option<CpuFreqConfig>,
    pub date_time: Option<DateTimeConfig>,
    pub memory: Option<MemoryConfig>,
    pub mic: Option<MicConfig>,
    pub sound: Option<SoundConfig>,
    pub temperature: Option<TemperatureConfig>,
    pub weather: Option<WeatherConfig>,
    pub wired: Option<WiredConfig>,
    pub wireless: Option<WirelessConfig>,
}

} // verus!
