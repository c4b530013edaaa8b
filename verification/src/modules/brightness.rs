//! The brightness module: backlight level.

use crate::module::Bar;
use crate::number::{divide, percent, percent_text, quotient};
use crate::text::{str_or, text_or};
use crate::{Config as MainConfig, ModuleMsg, MsgView};
use vstd::prelude::*;
use vstd::string::StringExecFns;

verus! {

broadcast use vstd::seq::group_seq_axioms;

pub const PLACEHOLDER: &'static str = "-";

pub const SYS_PATH: &'static str =
    "/sys/devices/pci0000:00/0000:00:02.0/drm/card0/card0-eDP-1/intel_backlight";

/// The time between two readings, in milliseconds.
pub const TICK_RATE: u64 = 50;

pub const LABEL: &'static str = "bri";

pub const FORMAT: &'static str = "%l:%v";

#[derive(Debug, Clone)]
pub struct Config {
    pub placeholder: Option<String>,
    pub sys_path: Option<String>,
    pub tick: Option<u32>,
    pub label: Option<String>,
    pub format: Option<String>,
}

/// The placeholder that `config` gives this module.
pub open spec fn placeholder_of(config: &MainConfig) -> Seq<char> {
    match config.brightness {
        Some(c) => text_or(c.placeholder, PLACEHOLDER@),
        None => PLACEHOLDER@,
    }
}

/// The output format that `config` gives this module.
pub open spec fn format_of(config: &MainConfig) -> Seq<char> {
    match config.brightness {
        Some(c) => text_or(c.format, FORMAT@),
        None => FORMAT@,
    }
}

#[derive(Debug)]
pub struct Brightness<'a> {
    placeholder: &'a str,
    format: &'a str,
}

impl<'a> Brightness<'a> {
    /// The module as `config` describes it: its own placeholder and
    /// format where the configuration gives them, the defaults elsewhere.
    pub fn with_config(config: &'a MainConfig) -> (r: Self)
        ensures
            r.placeholder_text() == placeholder_of(config),
            r.format_text() == format_of(config),
    {
        let mut placeholder = PLACEHOLDER;
        let mut format = FORMAT;
        if let Some(c) = &config.brightness {
            placeholder = str_or(&c.placeholder, PLACEHOLDER);
            format = str_or(&c.format, FORMAT);
        }
        Brightness { placeholder, format }
    }
}

impl<'a> Bar for Brightness<'a> {
    open spec fn name_text(&self) -> Seq<char> {
        "brightness"@
    }

    closed spec fn placeholder_text(&self) -> Seq<char> {
        self.placeholder@
    }

    closed spec fn format_text(&self) -> Seq<char> {
        self.format@
    }

    fn name(&self) -> (r: &str)
        ensures
            r@ == "brightness"@,
    {
        "brightness"
    }

    fn placeholder(&self) -> (r: &str)
        ensures
            r@ == self.placeholder_text(),
    {
        self.placeholder
    }

    fn format(&self) -> (r: &str)
        ensures
            r@ == self.format_text(),
    {
        self.format
    }
}

/// What the module works with: the configuration with its gaps filled
/// by the defaults.
#[derive(Debug, Clone)]
pub struct InternalConfig<'a> {
    pub sys_path: &'a str,
    /// The time between two readings, in milliseconds.
    pub tick: u64,
    pub label: &'a str,
}

impl<'a> InternalConfig<'a> {
    /// What the module works with, from the configuration.
    pub fn from(config: &'a MainConfig) -> (r: Self)
        ensures
            match config.brightness {
                Some(c) => {
                    &&& r.sys_path@ == text_or(c.sys_path, SYS_PATH@)
                    &&& r.tick == match c.tick {
                        Some(t) => t as u64,
                        None => TICK_RATE,
                    }
                    &&& r.label@ == text_or(c.label, LABEL@)
                },
                None => r.sys_path@ == SYS_PATH@ && r.tick == TICK_RATE && r.label@ == LABEL@,
            },
    {
        let mut sys_path = SYS_PATH;
        let mut tick = TICK_RATE;
        let mut label = LABEL;
        if let Some(c) = &config.brightness {
            sys_path = str_or(&c.sys_path, SYS_PATH);
            if let Some(t) = c.tick {
                tick = t as u64;
            }
            label = str_or(&c.label, LABEL);
        }
        InternalConfig { sys_path, tick, label }
    }

    /// The path of the file that holds the present brightness.
    pub fn actual_brightness_path(&self) -> (r: String)
        ensures
            r@ == self.sys_path@ + "/actual_brightness"@,
    {
        let mut path = String::from_str(self.sys_path);
        path.append("/actual_brightness");
        path
    }

    /// The path of the file that holds the greatest brightness.
    pub fn max_brightness_path(&self) -> (r: String)
        ensures
            r@ == self.sys_path@ + "/max_brightness"@,
    {
        let mut path = String::from_str(self.sys_path);
        path.append("/max_brightness");
        path
    }
}

/// The brightness in percent of the greatest brightness.
pub open spec fn percentage_of(brightness: int, max_brightness: int) -> int {
    quotient(100 * brightness, max_brightness)
}

/// The message that the module sends for a reading of the brightness:
/// the brightness as a percentage of the greatest, and the label.
pub fn message(key: char, brightness: i32, max_brightness: i32, config: &InternalConfig) -> (r:
    ModuleMsg)
    requires
        max_brightness != 0,
        i32::MIN <= 100 * brightness <= i32::MAX,
    ensures
        r@ == (MsgView {
            key,
            value: Some(percent_text(percentage_of(brightness as int, max_brightness as int))),
            label: Some(config.label@),
        }),
{
    let percentage = divide(100 * brightness, max_brightness);
    ModuleMsg(key, Some(percent(percentage as i64)), Some(String::from_str(config.label)))
}

} // verus!
