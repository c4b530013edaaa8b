//! The wireless network module: link state, network name and signal.

use crate::module::Bar;
use crate::netlink::WirelessState;
use crate::number::{percent, percent_text};
use crate::text::{chars_of, str_or, substring, text_or};
use crate::{value_or, Config as MainConfig, ModuleMsg, MsgView};
use vstd::prelude::*;
use vstd::string::StringExecFns;

verus! {

broadcast use vstd::seq::group_seq_axioms;

pub const PLACEHOLDER: &'static str = "-";

/// The time between two readings, in milliseconds.
pub const TICK_RATE: u64 = 500;

pub const DISPLAY: Display = Display::Signal;

pub const MAX_ESSID_LEN: usize = 10;

pub const INTERFACE: &'static str = "wlan0";

pub const LABEL: &'static str = "wle";

pub const DISCONNECTED_LABEL: &'static str = ".wl";

pub const FORMAT: &'static str = "%l:%v";

#[derive(Debug, Clone, Copy)]
pub enum Display {
    Essid,
    Signal,
}

#[derive(Debug, Clone)]
pub struct Config {
    pub tick: Option<u32>,
    pub display: Option<Display>,
    pub max_essid_len: Option<usize>,
    pub interface: Option<String>,
    pub placeholder: Option<String>,
    pub label: Option<String>,
    pub disconnected_label: Option<String>,
    pub format: Option<String>,
}

/// The placeholder that `config` gives this module.
pub open spec fn placeholder_of(config: &MainConfig) -> Seq<char> {
    match config.wireless {
        Some(c) => text_or(c.placeholder, PLACEHOLDER@),
        None => PLACEHOLDER@,
    }
}

/// The output format that `config` gives this module.
pub open spec fn format_of(config: &MainConfig) -> Seq<char> {
    match config.wireless {
        Some(c) => text_or(c.format, FORMAT@),
        None => FORMAT@,
    }
}

#[derive(Debug)]
pub struct Wireless<'a> {
    placeholder: &'a str,
    format: &'a str,
}

impl<'a> Wireless<'a> {
    /// The module as `config` describes it: its own placeholder and
    /// format where the configuration gives them, the defaults elsewhere.
    pub fn with_config(config: &'a MainConfig) -> (r: Self)
        ensures
            r.placeholder_text() == placeholder_of(config),
            r.format_text() == format_of(config),
    {
        let mut placeholder = PLACEHOLDER;
        let mut format = FORMAT;
        if let Some(c) = &config.wireless {
            placeholder = str_or(&c.placeholder, PLACEHOLDER);
            format = str_or(&c.format, FORMAT);
        }
        Wireless { placeholder, format }
    }
}

impl<'a> Bar for Wireless<'a> {
    open spec fn name_text(&self) -> Seq<char> {
        "wireless"@
    }

    closed spec fn placeholder_text(&self) -> Seq<char> {
        self.placeholder@
    }

    closed spec fn format_text(&self) -> Seq<char> {
        self.format@
    }

    fn name(&self) -> (r: &str)
        ensures
            r@ == "wireless"@,
    {
        "wireless"
    }

    fn placeholder(&self) -> (r: &str)
        ensures
            r@ == self.placeholder_text(),
    {
        self.placeholder
    }

    fn format(&self) -> (r: &str)
        ensures
            r@ == self.format_text(),
    {
        self.format
    }
}

/// What the module works with: the configuration with its gaps filled
/// by the defaults.
#[derive(Debug)]
pub struct InternalConfig<'a> {
    pub display: Display,
    pub max_essid_len: usize,
    pub interface: &'a str,
    /// The time between two readings, in milliseconds.
    pub tick: u64,
    pub label: &'a str,
    pub disconnected_label: &'a str,
}

impl<'a> InternalConfig<'a> {
    /// What the module works with, from the configuration.
    pub fn from(config: &'a MainConfig) -> (r: Self)
        ensures
            match config.wireless {
                Some(c) => {
                    &&& r.tick == match c.tick {
                        Some(t) => t as u64,
                        None => TICK_RATE,
                    }
                    &&& r.display == value_or(c.display, DISPLAY)
                    &&& r.max_essid_len == value_or(c.max_essid_len, MAX_ESSID_LEN)
                    &&& r.interface@ == text_or(c.interface, INTERFACE@)
                    &&& r.label@ == text_or(c.label, LABEL@)
                    &&& r.disconnected_label@ == text_or(c.disconnected_label, DISCONNECTED_LABEL@)
                },
                None => {
                    &&& r.tick == TICK_RATE
                    &&& r.display == DISPLAY
                    &&& r.max_essid_len == MAX_ESSID_LEN
                    &&& r.interface@ == INTERFACE@
                    &&& r.label@ == LABEL@
                    &&& r.disconnected_label@ == DISCONNECTED_LABEL@
                },
            },
    {
        let mut tick = TICK_RATE;
        let mut display = DISPLAY;
        let mut max_essid_len = MAX_ESSID_LEN;
        let mut interface = INTERFACE;
        let mut label = LABEL;
        let mut disconnected_label = DISCONNECTED_LABEL;
        if let Some(c) = &config.wireless {
            if let Some(t) = c.tick {
                tick = t as u64;
            }
            if let Some(d) = c.display {
                display = d;
            }
            if let Some(m) = c.max_essid_len {
                max_essid_len = m;
            }
            interface = str_or(&c.interface, INTERFACE);
            label = str_or(&c.label, LABEL);
            disconnected_label = str_or(&c.disconnected_label, DISCONNECTED_LABEL);
        }
        InternalConfig { display, max_essid_len, interface, tick, label, disconnected_label }
    }
}

/// The name of a network, cut to at most `max` characters.
pub open spec fn cut(essid: Seq<char>, max: int) -> Seq<char> {
    if essid.len() > max {
        essid.take(max)
    } else {
        essid
    }
}

/// The name of a network, cut to at most `max` characters.
pub fn cut_essid(essid: &str, max: usize) -> (r: String)
    ensures
        r@ == cut(essid@, max as int),
{
    let chars = chars_of(essid);
    if chars.len() > max {
        substring(&chars, 0, max)
    } else {
        let whole = substring(&chars, 0, chars.len());
        assert(chars@.subrange(0, chars@.len() as int) =~= chars@);
        whole
    }
}

/// The label for the state of the link.
pub open spec fn label_for(state: WirelessState, config: InternalConfig) -> Seq<char> {
    match state {
        WirelessState::Connected(_) => config.label@,
        WirelessState::Disconnected => config.disconnected_label@,
    }
}

/// The value for the state of the link: the name of the network, cut
/// to the greatest length (empty where there is none), or the signal
/// strength as a percentage (a question mark where there is none).
pub open spec fn value_for(state: WirelessState, config: InternalConfig) -> Seq<char> {
    match config.display {
        Display::Essid => match state {
            WirelessState::Connected(data) => match data.essid {
                Some(essid) => cut(essid@, config.max_essid_len as int),
                None => Seq::empty(),
            },
            WirelessState::Disconnected => Seq::empty(),
        },
        Display::Signal => match state {
            WirelessState::Connected(data) => match data.signal {
                Some(s) => percent_text(s as int),
                None => "  ?%"@,
            },
            WirelessState::Disconnected => "  ?%"@,
        },
    }
}

/// The message that the module sends for the state of the link. No
/// message where the state is unknown.
pub fn message(key: char, state: Option<WirelessState>, config: &InternalConfig) -> (r: Option<
    ModuleMsg,
>)
    ensures
        r is Some <==> state is Some,
        r matches Some(m) ==> m@ == (MsgView {
            key,
            value: Some(value_for(state->0, *config)),
            label: Some(label_for(state->0, *config)),
        }),
{
    let state = match state {
        Some(state) => state,
        None => {
            return None;
        },
    };
    let label;
    let mut essid = String::new();
    let mut signal = None;
    match &state {
        WirelessState::Connected(data) => {
            label = config.label;
            signal = data.signal;
            if let Some(val) = &data.essid {
                essid = cut_essid(val.as_str(), config.max_essid_len);
            }
        },
        WirelessState::Disconnected => {
            label = config.disconnected_label;
        },
    }
    let value = match config.display {
        Display::Essid => essid,
        Display::Signal => match signal {
            Some(s) => percent(s as i64),
            None => String::from_str("  ?%"),
        },
    };
    Some(ModuleMsg(key, Some(value), Some(String::from_str(label))))
}

} // verus!
