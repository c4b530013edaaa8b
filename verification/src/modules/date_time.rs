//! The date and time module.

use crate::module::Bar;
use crate::text::{opt_text, str_or, text_or};
use crate::{Config as MainConfig, ModuleMsg, MsgView};
use vstd::prelude::*;
use vstd::string::StringExecFns;

verus! {

broadcast use vstd::seq::group_seq_axioms;

pub const PLACEHOLDER: &'static str = "-";

pub const DATE_FORMAT: &'static str = "%a. %-e %B %Y, %-kh%M";

/// The time between two readings, in milliseconds.
pub const TICK_RATE: u64 = 500;

pub const FORMAT: &'static str = "%v";

#[derive(Debug, Clone)]
pub struct Config {
    pub date_format: Option<String>,
    pub tick: Option<u32>,
    pub placeholder: Option<String>,
    pub label: Option<String>,
    pub format: Option<String>,
}

/// The placeholder that `config` gives this module.
pub open spec fn placeholder_of(config: &MainConfig) -> Seq<char> {
    match config.date_time {
        Some(c) => text_or(c.placeholder, PLACEHOLDER@),
        None => PLACEHOLDER@,
    }
}

/// The output format that `config` gives this module.
pub open spec fn format_of(config: &MainConfig) -> Seq<char> {
    match config.date_time {
        Some(c) => text_or(c.format, FORMAT@),
        None => FORMAT@,
    }
}

#[derive(Debug)]
pub struct DateTime<'a> {
    placeholder: &'a str,
    format: &'a str,
}

impl<'a> DateTime<'a> {
    /// The module as `config` describes it: its own placeholder and
    /// format where the configuration gives them, the defaults elsewhere.
    pub fn with_config(config: &'a MainConfig) -> (r: Self)
        ensures
            r.placeholder_text() == placeholder_of(config),
            r.format_text() == format_of(config),
    {
        let mut placeholder = PLACEHOLDER;
        let mut format = FORMAT;
        if let Some(c) = &config.date_time {
            placeholder = str_or(&c.placeholder, PLACEHOLDER);
            format = str_or(&c.format, FORMAT);
        }
        DateTime { placeholder, format }
    }
}

impl<'a> Bar for DateTime<'a> {
    open spec fn name_text(&self) -> Seq<char> {
        "date_time"@
    }

    closed spec fn placeholder_text(&self) -> Seq<char> {
        self.placeholder@
    }

    closed spec fn format_text(&self) -> Seq<char> {
        self.format@
    }

    fn name(&self) -> (r: &str)
        ensures
            r@ == "date_time"@,
    {
        "date_time"
    }

    fn placeholder(&self) -> (r: &str)
        ensures
            r@ == self.placeholder_text(),
    {
        self.placeholder
    }

    fn format(&self) -> (r: &str)
        ensures
            r@ == self.format_text(),
    {
        self.format
    }
}

/// What the module works with: the configuration with its gaps filled
/// by the defaults.
#[derive(Debug)]
pub struct InternalConfig<'a> {
    pub date_format: &'a str,
    /// The time between two readings, in milliseconds.
    pub tick: u64,
    pub label: Option<&'a str>,
}

/// The label that `config` gives the module, if it gives one.
pub open spec fn label_of(config: &MainConfig) -> Option<Seq<char>> {
    match config.date_time {
        Some(c) => opt_text(c.label),
        None => None,
    }
}

impl<'a> InternalConfig<'a> {
    /// The label of the module, if it has one.
    pub open spec fn label_text(&self) -> Option<Seq<char>> {
        match self.label {
            Some(l) => Some(l@),
            None => None,
        }
    }

    /// What the module works with, from the configuration.
    pub fn from(config: &'a MainConfig) -> (r: Self)
        ensures
            r.label_text() == label_of(config),
            match config.date_time {
                Some(c) => {
                    &&& r.date_format@ == text_or(c.date_format, DATE_FORMAT@)
                    &&& r.tick == match c.tick {
                        Some(t) => t as u64,
                        None => TICK_RATE,
                    }
                },
                None => r.date_format@ == DATE_FORMAT@ && r.tick == TICK_RATE,
            },
    {
        let mut tick = TICK_RATE;
        let mut date_format = DATE_FORMAT;
        let mut label = None;
        if let Some(c) = &config.date_time {
            date_format = str_or(&c.date_format, DATE_FORMAT);
            if let Some(t) = c.tick {
                tick = t as u64;
            }
            label = match &c.label {
                Some(l) => Some(l.as_str()),
                None => None,
            };
        }
        InternalConfig { date_format, tick, label }
    }
}

/// The message that the module sends for the present time, written
/// in the configured date format: the time is the value.
pub fn message(key: char, now: String, config: &InternalConfig) -> (r: ModuleMsg)
    ensures
        r@ == (MsgView { key, value: Some(now@), label: config.label_text() }),
{
    let label = match config.label {
        Some(l) => Some(String::from_str(l)),
        None => None,
    };
    ModuleMsg(key, Some(now), label)
}

} // verus!
