//! The microphone module: input volume and mute state.

use crate::module::Bar;
use crate::number::{percent, percent_text};
use crate::pulse::PulseData;
use crate::text::{str_or, text_or};
use crate::{Config as MainConfig, ModuleMsg, MsgView};
use vstd::prelude::*;
use vstd::string::StringExecFns;

verus! {

broadcast use vstd::seq::group_seq_axioms;

pub const PLACEHOLDER: &'static str = "-";

/// The time between two readings, in milliseconds.
pub const TICK_RATE: u64 = 50;

pub const MUTE_LABEL: &'static str = ".mi";

pub const LABEL: &'static str = "mic";

pub const FORMAT: &'static str = "%l:%v";

#[derive(Debug, Clone)]
pub struct Config {
    pub source_name: Option<String>,
    pub tick: Option<u32>,
    pub placeholder: Option<String>,
    pub label: Option<String>,
    pub mute_label: Option<String>,
    pub format: Option<String>,
}

/// The placeholder that `config` gives this module.
pub open spec fn placeholder_of(config: &MainConfig) -> Seq<char> {
    match config.mic {
        Some(c) => text_or(c.placeholder, PLACEHOLDER@),
        None => PLACEHOLDER@,
    }
}

/// The output format that `config` gives this module.
pub open spec fn format_of(config: &MainConfig) -> Seq<char> {
    match config.mic {
        Some(c) => text_or(c.format, FORMAT@),
        None => FORMAT@,
    }
}

#[derive(Debug)]
pub struct Mic<'a> {
    placeholder: &'a str,
    format: &'a str,
}

impl<'a> Mic<'a> {
    /// The module as `config` describes it: its own placeholder and
    /// format where the configuration gives them, the defaults elsewhere.
    pub fn with_config(config: &'a MainConfig) -> (r: Self)
        ensures
            r.placeholder_text() == placeholder_of(config),
            r.format_text() == format_of(config),
    {
        let mut placeholder = PLACEHOLDER;
        let mut format = FORMAT;
        if let Some(c) = &config.mic {
            placeholder = str_or(&c.placeholder, PLACEHOLDER);
            format = str_or(&c.format, FORMAT);
        }
        Mic { placeholder, format }
    }
}

impl<'a> Bar for Mic<'a> {
    open spec fn name_text(&self) -> Seq<char> {
        "mic"@
    }

    closed spec fn placeholder_text(&self) -> Seq<char> {
        self.placeholder@
    }

    closed spec fn format_text(&self) -> Seq<char> {
        self.format@
    }

    fn name(&self) -> (r: &str)
        ensures
            r@ == "mic"@,
    {
        "mic"
    }

    fn placeholder(&self) -> (r: &str)
        ensures
            r@ == self.placeholder_text(),
    {
        self.placeholder
    }

    fn format(&self) -> (r: &str)
        ensures
            r@ == self.format_text(),
    {
        self.format
    }
}

/// What the module works with: the configuration with its gaps filled
/// by the defaults.
#[derive(Debug)]
pub struct InternalConfig<'a> {
    /// The time between two readings, in milliseconds.
    pub tick: u64,
    pub label: &'a str,
    pub mute_label: &'a str,
}

impl<'a> InternalConfig<'a> {
    /// What the module works with, from the configuration.
    pub fn from(config: &'a MainConfig) -> (r: Self)
        ensures
            match config.mic {
                Some(c) => {
                    &&& r.tick == match c.tick {
                        Some(t) => t as u64,
                        None => TICK_RATE,
                    }
                    &&& r.label@ == text_or(c.label, LABEL@)
                    &&& r.mute_label@ == text_or(c.mute_label, MUTE_LABEL@)
                },
                None => r.tick == TICK_RATE && r.label@ == LABEL@ && r.mute_label@ == MUTE_LABEL@,
            },
    {
        let mut tick = TICK_RATE;
        let mut label = LABEL;
        let mut mute_label = MUTE_LABEL;
        if let Some(c) = &config.mic {
            if let Some(t) = c.tick {
                tick = t as u64;
            }
            label = str_or(&c.label, LABEL);
            mute_label = str_or(&c.mute_label, MUTE_LABEL);
        }
        InternalConfig { tick, label, mute_label }
    }
}

/// The message that the module sends for a reading of the input: the
/// volume as a percentage, and the mute label where the input is muted.
pub fn message(key: char, data: PulseData, config: &InternalConfig) -> (r: ModuleMsg)
    ensures
        r@ == (MsgView {
            key,
            value: Some(percent_text(data.0 as int)),
            label: Some(
                if data.1 {
                    config.mute_label@
                } else {
                    config.label@
                },
            ),
        }),
{
    let label = if data.1 {
        config.mute_label
    } else {
        config.label
    };
    ModuleMsg(key, Some(percent(data.0 as i64)), Some(String::from_str(label)))
}

} // verus!
