//! The CPU frequency module: average core frequency.

use crate::error::Error;
use crate::module::Bar;
use crate::number::{as_unsigned, to_unsigned};
use crate::text::{has_prefix, same_text, split_words, starts_with, str_or, text_or, texts, words};
use crate::{value_or, Config as MainConfig, ModuleMsg, MsgView};
use vstd::prelude::*;
use vstd::string::StringExecFns;

verus! {

broadcast use vstd::seq::group_seq_axioms;

pub const PLACEHOLDER: &'static str = "-";

/// The time between two readings, in milliseconds.
pub const TICK_RATE: u64 = 100;

pub const HIGH_LEVEL: u32 = 80;

pub const LABEL: &'static str = "fre";

pub const HIGH_LABEL: &'static str = "!fr";

pub const SYSFS_CPUFREQ: &'static str = "/sys/devices/system/cpu/cpufreq";

pub const CPUINFO_MAX_FREQ: &'static str = "cpuinfo_max_freq";

pub const SCALING_MAX_FREQ: &'static str = "scaling_max_freq";

pub const CPUINFO_CUR_FREQ: &'static str = "cpuinfo_cur_freq";

pub const SCALING_CUR_FREQ: &'static str = "scaling_cur_freq";

pub const CPU_INFO: &'static str = "/proc/cpuinfo";

pub const MHZ_KEY: &'static str = "cpu MHz";

pub const UNIT: Unit = Unit::Smart;

pub const MAX_FREQ: bool = false;

pub const FORMAT: &'static str = "%l:%v";

#[derive(Debug, Clone, Copy)]
pub enum Unit {
    MHz,
    GHz,
    Smart,
}

#[derive(Debug, Clone)]
pub struct Config {
    pub tick: Option<u32>,
    pub cpufreq_path: Option<String>,
    pub unit: Option<Unit>,
    pub max_freq: Option<bool>,
    pub high_level: Option<u32>,
    pub placeholder: Option<String>,
    pub label: Option<String>,
    pub high_label: Option<String>,
    pub format: Option<String>,
}

/// The placeholder that `config` gives this module.
pub open spec fn placeholder_of(config: &MainConfig) -> Seq<char> {
    match config.cpu_freq {
        Some(c) => text_or(c.placeholder, PLACEHOLDER@),
        None => PLACEHOLDER@,
    }
}

/// The output format that `config` gives this module.
pub open spec fn format_of(config: &MainConfig) -> Seq<char> {
    match config.cpu_freq {
        Some(c) => text_or(c.format, FORMAT@),
        None => FORMAT@,
    }
}

#[derive(Debug)]
pub struct CpuFreq<'a> {
    placeholder: &'a str,
    format: &'a str,
}

impl<'a> CpuFreq<'a> {
    /// The module as `config` describes it: its own placeholder and
    /// format where the configuration gives them, the defaults elsewhere.
    pub fn with_config(config: &'a MainConfig) -> (r: Self)
        ensures
            r.placeholder_text() == placeholder_of(config),
            r.format_text() == format_of(config),
    {
        let mut placeholder = PLACEHOLDER;
        let mut format = FORMAT;
        if let Some(c) = &config.cpu_freq {
            placeholder = str_or(&c.placeholder, PLACEHOLDER);
            format = str_or(&c.format, FORMAT);
        }
        CpuFreq { placeholder, format }
    }
}

impl<'a> Bar for CpuFreq<'a> {
    open spec fn name_text(&self) -> Seq<char> {
        "cpu_freq"@
    }

    closed spec fn placeholder_text(&self) -> Seq<char> {
        self.placeholder@
    }

    closed spec fn format_text(&self) -> Seq<char> {
        self.format@
    }

    fn name(&self) -> (r: &str)
        ensures
            r@ == "cpu_freq"@,
    {
        "cpu_freq"
    }

    fn placeholder(&self) -> (r: &str)
        ensures
            r@ == self.placeholder_text(),
    {
        self.placeholder
    }

    fn format(&self) -> (r: &str)
        ensures
            r@ == self.format_text(),
    {
        self.format
    }
}

/// The file that holds the greatest frequency.
#[derive(Debug, Clone, Copy, PartialEq, Eq)]
pub enum MaxFreqFile {
    Scaling,
    CpuInfo,
}

/// Where the frequencies are read: whether the present frequency is
/// the scaling one, and the file of the greatest frequency.
#[derive(Debug, Clone, Copy, PartialEq, Eq)]
pub struct Sources {
    pub use_scaling_freq: bool,
    pub max_freq: MaxFreqFile,
}

/// What the module works with: the configuration with its gaps filled
/// by the defaults, and what was found of the processor.
#[derive(Debug)]
pub struct InternalConfig<'a> {
    pub high_level: u32,
    /// The time between two readings, in milliseconds.
    pub tick: u64,
    /// The greatest frequency, in megahertz.
    pub max_freq: u32,
    pub unit: Unit,
    pub show_max_freq: bool,
    pub label: &'a str,
    pub high_label: &'a str,
    pub use_scaling_freq: bool,
}

/// Whether one of the names is `name`.
pub open spec fn has_name(names: Seq<String>, name: Seq<char>) -> bool {
    exists|i: int| 0 <= i < names.len() && (#[trigger] names[i])@ == name
}

/// Where the frequencies are read, from the names of the files of the
/// first frequency policy: the scaling files come before the others.
/// An error where no file holds the present or the greatest frequency.
pub open spec fn sources_of(names: Seq<String>) -> Result<Sources, Seq<char>> {
    if !has_name(names, CPUINFO_CUR_FREQ@) && !has_name(names, SCALING_CUR_FREQ@) {
        Err("fail to find current cpu freq"@)
    } else if has_name(names, SCALING_MAX_FREQ@) {
        Ok(
            Sources {
                use_scaling_freq: has_name(names, SCALING_CUR_FREQ@),
                max_freq: MaxFreqFile::Scaling,
            },
        )
    } else if has_name(names, CPUINFO_MAX_FREQ@) {
        Ok(
            Sources {
                use_scaling_freq: has_name(names, SCALING_CUR_FREQ@),
                max_freq: MaxFreqFile::CpuInfo,
            },
        )
    } else {
        Err("fail to find max cpu freq"@)
    }
}

/// Tells whether one of the names is `name`.
pub fn find_name(names: &Vec<String>, name: &str) -> (r: bool)
    ensures
        r == has_name(names@, name@),
{
    let n = names.len();
    let mut i: usize = 0;
    while i < n
        invariant
            i <= n,
            n == names@.len(),
            forall|j: int| 0 <= j < i ==> (#[trigger] names@[j])@ != name@,
        decreases n - i,
    {
        if same_text(names[i].as_str(), name) {
            return true;
        }
        i += 1;
    }
    false
}

/// The directory of the first frequency policy.
pub fn policy_path() -> (r: String)
    ensures
        r@ == SYSFS_CPUFREQ@ + "/policy0"@,
{
    let mut path = String::from_str(SYSFS_CPUFREQ);
    path.append("/policy0");
    path
}

/// Finds where the frequencies are read, from the names of the files
/// of the first frequency policy.
pub fn sources(names: &Vec<String>) -> (r: Result<Sources, Error>)
    ensures
        match r {
            Ok(s) => sources_of(names@) == Ok::<Sources, Seq<char>>(s),
            Err(e) => sources_of(names@) == Err::<Sources, Seq<char>>(e@),
        },
{
    let cpuinfo_max_freq = find_name(names, CPUINFO_MAX_FREQ);
    let scaling_max_freq = find_name(names, SCALING_MAX_FREQ);
    let cpuinfo_cur_freq = find_name(names, CPUINFO_CUR_FREQ);
    let scaling_cur_freq = find_name(names, SCALING_CUR_FREQ);
    if !cpuinfo_cur_freq && !scaling_cur_freq {
        return Err(Error::new(String::from_str("fail to find current cpu freq")));
    }
    if scaling_max_freq {
        Ok(Sources { use_scaling_freq: scaling_cur_freq, max_freq: MaxFreqFile::Scaling })
    } else if cpuinfo_max_freq {
        Ok(Sources { use_scaling_freq: scaling_cur_freq, max_freq: MaxFreqFile::CpuInfo })
    } else {
        Err(Error::new(String::from_str("fail to find max cpu freq")))
    }
}

/// The name of the file that holds the greatest frequency.
pub fn max_freq_name(file: MaxFreqFile) -> (r: &'static str)
    ensures
        r@ == match file {
            MaxFreqFile::Scaling => SCALING_MAX_FREQ@,
            MaxFreqFile::CpuInfo => CPUINFO_MAX_FREQ@,
        },
{
    match file {
        MaxFreqFile::Scaling => SCALING_MAX_FREQ,
        MaxFreqFile::CpuInfo => CPUINFO_MAX_FREQ,
    }
}

impl<'a> InternalConfig<'a> {
    /// What the module works with, from the configuration, from where
    /// the frequencies are read, and from the greatest frequency in
    /// kilohertz as its file holds it.
    pub fn new(config: &'a MainConfig, sources: Sources, max_freq_khz: i32) -> (r: Self)
        ensures
            r.use_scaling_freq == sources.use_scaling_freq,
            r.max_freq == as_unsigned(max_freq_khz) / 1000,
            match config.cpu_freq {
                Some(c) => {
                    &&& r.tick == match c.tick {
                        Some(t) => t as u64,
                        None => TICK_RATE,
                    }
                    &&& r.high_level == value_or(c.high_level, HIGH_LEVEL)
                    &&& r.show_max_freq == value_or(c.max_freq, MAX_FREQ)
                    &&& r.unit == value_or(c.unit, UNIT)
                    &&& r.label@ == text_or(c.label, LABEL@)
                    &&& r.high_label@ == text_or(c.high_label, HIGH_LABEL@)
                },
                None => {
                    &&& r.tick == TICK_RATE
                    &&& r.high_level == HIGH_LEVEL
                    &&& r.show_max_freq == MAX_FREQ
                    &&& r.unit == UNIT
                    &&& r.label@ == LABEL@
                    &&& r.high_label@ == HIGH_LABEL@
                },
            },
    {
        let mut tick = TICK_RATE;
        let mut show_max_freq = MAX_FREQ;
        let mut unit = UNIT;
        let mut high_level = HIGH_LEVEL;
        let mut label = LABEL;
        let mut high_label = HIGH_LABEL;
        if let Some(c) = &config.cpu_freq {
            if let Some(t) = c.tick {
                tick = t as u64;
            }
            if let Some(h) = c.high_level {
                high_level = h;
            }
            if let Some(v) = c.max_freq {
                show_max_freq = v;
            }
            if let Some(v) = c.unit {
                unit = v;
            }
            label = str_or(&c.label, LABEL);
            high_label = str_or(&c.high_label, HIGH_LABEL);
        }
        InternalConfig {
            high_level,
            tick,
            show_max_freq,
            max_freq: to_unsigned(max_freq_khz) / 1000,
            unit,
            label,
            high_label,
            use_scaling_freq: sources.use_scaling_freq,
        }
    }
}

/// The frequency that a line of the processor file gives: the last
/// word of a line that starts with the key of the frequency.
pub open spec fn mhz_in(line: Seq<char>) -> Option<Seq<char>> {
    if starts_with(line, MHZ_KEY@) && words(line, true).len() > 0 {
        Some(words(line, true).last())
    } else {
        None
    }
}

/// Finds the frequency that a line of the processor file gives.
pub fn mhz_field(line: &str) -> (r: Option<String>)
    ensures
        crate::text::opt_text(r) == mhz_in(line@),
{
    if has_prefix(line, MHZ_KEY) {
        let mut fields = split_words(line, true);
        let ghost all = fields@;
        match fields.pop() {
            Some(last) => {
                assert(texts(all).last() == last@);
                Some(last)
            },
            None => None,
        }
    } else {
        None
    }
}

/// The label for a frequency in percent of the greatest: the high
/// label from the high level on.
pub open spec fn label_for(percentage: u32, config: InternalConfig) -> Seq<char> {
    if percentage >= config.high_level {
        config.high_label@
    } else {
        config.label@
    }
}

/// The message that the module sends for a reading of the frequency:
/// `value` is the frequency as it is to be shown, `percentage` is the
/// frequency in percent of the greatest.
pub fn message(key: char, value: String, percentage: u32, config: &InternalConfig) -> (r: ModuleMsg)
    ensures
        r@ == (MsgView {
            key,
            value: Some(value@),
            label: Some(label_for(percentage, *config)),
        }),
{
    let label = if percentage >= config.high_level {
        config.high_label
    } else {
        config.label
    };
    ModuleMsg(key, Some(value), Some(String::from_str(label)))
}

} // verus!
