//! The wired network module: link state.

use crate::module::Bar;
use crate::netlink::WiredState;
use crate::text::{str_or, text_or};
use crate::{value_or, Config as MainConfig, ModuleMsg, MsgView};
use vstd::prelude::*;
use vstd::string::StringExecFns;

verus! {

broadcast use vstd::seq::group_seq_axioms;

pub const PLACEHOLDER: &'static str = "-";

/// The time between two readings, in milliseconds.
pub const TICK_RATE: u64 = 1000;

pub const INTERFACE: &'static str = "enp0s31f6";

pub const DISCRETE: bool = false;

pub const LABEL: &'static str = "eth";

pub const DISCONNECTED_LABEL: &'static str = ".et";

pub const FORMAT: &'static str = "%l";

#[derive(Debug, Clone)]
pub struct Config {
    pub tick: Option<u32>,
    pub interface: Option<String>,
    pub discrete: Option<bool>,
    pub placeholder: Option<String>,
    pub label: Option<String>,
    pub disconnected_label: Option<String>,
    pub format: Option<String>,
}

/// The placeholder that `config` gives this module.
pub open spec fn placeholder_of(config: &MainConfig) -> Seq<char> {
    match config.wired {
        Some(c) => text_or(c.placeholder, PLACEHOLDER@),
        None => PLACEHOLDER@,
    }
}

/// The output format that `config` gives this module.
pub open spec fn format_of(config: &MainConfig) -> Seq<char> {
    match config.wired {
        Some(c) => text_or(c.format, FORMAT@),
        None => FORMAT@,
    }
}

#[derive(Debug)]
pub struct Wired<'a> {
    placeholder: &'a str,
    format: &'a str,
}

impl<'a> Wired<'a> {
    /// The module as `config` describes it: its own placeholder and
    /// format where the configuration gives them, the defaults elsewhere.
    pub fn with_config(config: &'a MainConfig) -> (r: Self)
        ensures
            r.placeholder_text() == placeholder_of(config),
            r.format_text() == format_of(config),
    {
        let mut placeholder = PLACEHOLDER;
        let mut format = FORMAT;
        if let Some(c) = &config.wired {
            placeholder = str_or(&c.placeholder, PLACEHOLDER);
            format = str_or(&c.format, FORMAT);
        }
        Wired { placeholder, format }
    }
}

impl<'a> Bar for Wired<'a> {
    open spec fn name_text(&self) -> Seq<char> {
        "wired"@
    }

    closed spec fn placeholder_text(&self) -> Seq<char> {
        self.placeholder@
    }

    closed spec fn format_text(&self) -> Seq<char> {
        self.format@
    }

    fn name(&self) -> (r: &str)
        ensures
            r@ == "wired"@,
    {
        "wired"
    }

    fn placeholder(&self) -> (r: &str)
        ensures
            r@ == self.placeholder_text(),
    {
        self.placeholder
    }

    fn format(&self) -> (r: &str)
        ensures
            r@ == self.format_text(),
    {
        self.format
    }
}

/// What the module works with: the configuration with its gaps filled
/// by the defaults.
#[derive(Debug)]
pub struct InternalConfig<'a> {
    pub interface: &'a str,
    /// Whether the module shows nothing while the link is down.
    pub discrete: bool,
    /// The time between two readings, in milliseconds.
    pub tick: u64,
    pub label: &'a str,
    pub disconnected_label: &'a str,
}

impl<'a> InternalConfig<'a> {
    /// What the module works with, from the configuration.
    pub fn from(config: &'a MainConfig) -> (r: Self)
        ensures
            match config.wired {
                Some(c) => {
                    &&& r.tick == match c.tick {
                        Some(t) => t as u64,
                        None => TICK_RATE,
                    }
                    &&& r.interface@ == text_or(c.interface, INTERFACE@)
                    &&& r.discrete == value_or(c.discrete, DISCRETE)
                    &&& r.label@ == text_or(c.label, LABEL@)
                    &&& r.disconnected_label@ == text_or(c.disconnected_label, DISCONNECTED_LABEL@)
                },
                None => {
                    &&& r.tick == TICK_RATE
                    &&& r.interface@ == INTERFACE@
                    &&& r.discrete == DISCRETE
                    &&& r.label@ == LABEL@
                    &&& r.disconnected_label@ == DISCONNECTED_LABEL@
                },
            },
    {
        let mut tick = TICK_RATE;
        let mut interface = INTERFACE;
        let mut discrete = DISCRETE;
        let mut label = LABEL;
        let mut disconnected_label = DISCONNECTED_LABEL;
        if let Some(c) = &config.wired {
            if let Some(t) = c.tick {
                tick = t as u64;
            }
            interface = str_or(&c.interface, INTERFACE);
            if let Some(b) = c.discrete {
                discrete = b;
            }
            label = str_or(&c.label, LABEL);
            disconnected_label = str_or(&c.disconnected_label, DISCONNECTED_LABEL);
        }
        InternalConfig { interface, discrete, tick, label, disconnected_label }
    }
}

/// The label for the state of the link: the label where the link is
/// connected; else the disconnected label, or none for a discrete
/// module. An unknown state counts as not connected.
pub open spec fn label_for(state: Option<WiredState>, config: InternalConfig) -> Option<Seq<char>> {
    if state == Some(WiredState::Connected) {
        Some(config.label@)
    } else if config.discrete {
        None
    } else {
        Some(config.disconnected_label@)
    }
}

/// The message that the module sends for the state of the link: it
/// has a label and no value.
pub fn message(key: char, state: Option<WiredState>, config: &InternalConfig) -> (r: ModuleMsg)
    ensures
        r@ == (MsgView { key, value: None, label: label_for(state, *config) }),
{
    match state {
        Some(WiredState::Connected) => ModuleMsg(key, None, Some(String::from_str(config.label))),
        _ => {
            if config.discrete {
                ModuleMsg(key, None, None)
            } else {
                ModuleMsg(key, None, Some(String::from_str(config.disconnected_label)))
            }
        },
    }
}

} // verus!
