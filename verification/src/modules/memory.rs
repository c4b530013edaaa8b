//! The memory module: used memory.

use crate::error::Error;
use crate::module::Bar;
use crate::number::{as_signed, int_error_text, parse_i32, parsed_i32, percent, percent_text, to_signed};
use crate::pattern::{captures, first_match, group, group_at, groups_text};
use crate::text::{str_or, text_or};
use crate::{value_or, Config as MainConfig, ModuleMsg, MsgView};
use vstd::prelude::*;
use vstd::string::StringExecFns;

verus! {

broadcast use vstd::seq::group_seq_axioms;

pub const PLACEHOLDER: &'static str = "-";

pub const MEMINFO: &'static str = "/proc/meminfo";

pub const DISPLAY: Display = Display::GiB;

pub const HIGH_LEVEL: u32 = 90;

/// The time between two readings, in milliseconds.
pub const TICK_RATE: u64 = 500;

pub const LABEL: &'static str = "mem";

pub const HIGH_LABEL: &'static str = "!me";

/// The line of the memory file that holds the total memory.
pub const TOTAL_PATTERN: &'static str = "(?m)^MemTotal:\\s*(\\d+)\\s*kB$";

/// The line of the memory file that holds the free memory.
pub const FREE_PATTERN: &'static str = "(?m)^MemFree:\\s*(\\d+)\\s*kB$";

/// The line of the memory file that holds the buffers.
pub const BUFFERS_PATTERN: &'static str = "(?m)^Buffers:\\s*(\\d+)\\s*kB$";

/// The line of the memory file that holds the cache.
pub const CACHED_PATTERN: &'static str = "(?m)^Cached:\\s*(\\d+)\\s*kB$";

/// The line of the memory file that holds the reclaimable memory.
pub const S_RECLAIMABLE_PATTERN: &'static str = "(?m)^SReclaimable:\\s*(\\d+)\\s*kB$";

pub const FORMAT: &'static str = "%l:%v";

#[derive(Debug, Clone, Copy)]
pub enum Display {
    GB,
    GiB,
    Percentage,
}

#[derive(Debug, Clone)]
pub struct Config {
    pub high_level: Option<u32>,
    pub display: Option<Display>,
    pub tick: Option<u32>,
    pub placeholder: Option<String>,
    pub label: Option<String>,
    pub high_label: Option<String>,
    pub format: Option<String>,
}

/// The placeholder that `config` gives this module.
pub open spec fn placeholder_of(config: &MainConfig) -> Seq<char> {
    match config.memory {
        Some(c) => text_or(c.placeholder, PLACEHOLDER@),
        None => PLACEHOLDER@,
    }
}

/// The output format that `config` gives this module.
pub open spec fn format_of(config: &MainConfig) -> Seq<char> {
    match config.memory {
        Some(c) => text_or(c.format, FORMAT@),
        None => FORMAT@,
    }
}

#[derive(Debug)]
pub struct Memory<'a> {
    placeholder: &'a str,
    format: &'a str,
}

impl<'a> Memory<'a> {
    /// The module as `config` describes it: its own placeholder and
    /// format where the configuration gives them, the defaults elsewhere.
    pub fn with_config(config: &'a MainConfig) -> (r: Self)
        ensures
            r.placeholder_text() == placeholder_of(config),
            r.format_text() == format_of(config),
    {
        let mut placeholder = PLACEHOLDER;
        let mut format = FORMAT;
        if let Some(c) = &config.memory {
            placeholder = str_or(&c.placeholder, PLACEHOLDER);
            format = str_or(&c.format, FORMAT);
        }
        Memory { placeholder, format }
    }
}

impl<'a> Bar for Memory<'a> {
    open spec fn name_text(&self) -> Seq<char> {
        "memory"@
    }

    closed spec fn placeholder_text(&self) -> Seq<char> {
        self.placeholder@
    }

    closed spec fn format_text(&self) -> Seq<char> {
        self.format@
    }

    fn name(&self) -> (r: &str)
        ensures
            r@ == "memory"@,
    {
        "memory"
    }

    fn placeholder(&self) -> (r: &str)
        ensures
            r@ == self.placeholder_text(),
    {
        self.placeholder
    }

    fn format(&self) -> (r: &str)
        ensures
            r@ == self.format_text(),
    {
        self.format
    }
}

/// What the module works with: the configuration with its gaps filled
/// by the defaults.
#[derive(Debug)]
pub struct InternalConfig<'a> {
    pub meminfo: &'a str,
    pub high_level: u32,
    pub display: Display,
    /// The time between two readings, in milliseconds.
    pub tick: u64,
    pub label: &'a str,
    pub high_label: &'a str,
}

impl<'a> InternalConfig<'a> {
    /// What the module works with, from the configuration.
    pub fn from(config: &'a MainConfig) -> (r: Self)
        ensures
            r.meminfo@ == MEMINFO@,
            match config.memory {
                Some(c) => {
                    &&& r.high_level == value_or(c.high_level, HIGH_LEVEL)
                    &&& r.display == value_or(c.display, DISPLAY)
                    &&& r.tick == match c.tick {
                        Some(t) => t as u64,
                        None => TICK_RATE,
                    }
                    &&& r.label@ == text_or(c.label, LABEL@)
                    &&& r.high_label@ == text_or(c.high_label, HIGH_LABEL@)
                },
                None => {
                    &&& r.high_level == HIGH_LEVEL
                    &&& r.display == DISPLAY
                    &&& r.tick == TICK_RATE
                    &&& r.label@ == LABEL@
                    &&& r.high_label@ == HIGH_LABEL@
                },
            },
    {
        let mut high_level = HIGH_LEVEL;
        let mut display = DISPLAY;
        let mut tick = TICK_RATE;
        let mut label = LABEL;
        let mut high_label = HIGH_LABEL;
        if let Some(c) = &config.memory {
            if let Some(v) = c.high_level {
                high_level = v;
            }
            if let Some(v) = c.display {
                display = v;
            }
            if let Some(t) = c.tick {
                tick = t as u64;
            }
            label = str_or(&c.label, LABEL);
            high_label = str_or(&c.high_label, HIGH_LABEL);
        }
        InternalConfig { meminfo: MEMINFO, high_level, display, tick, label, high_label }
    }
}

/// The message of the error for a number that cannot be read.
pub open spec fn meminfo_not_parsed(e: crate::number::IntError) -> Seq<char> {
    "error while parsing meminfo: "@ + int_error_text(e)
}

/// The number in the first group of a match of a line of the memory
/// file: the error `error` where there is no match or no such group,
/// and an error that says so where the group holds no `i32`.
pub open spec fn value_of(
    captured: Option<Seq<Option<Seq<char>>>>,
    error: Seq<char>,
) -> Result<int, Seq<char>> {
    match group_at(captured, 1) {
        None => Err(error),
        Some(digits) => match parsed_i32(digits) {
            Ok(v) => Ok(v),
            Err(e) => Err(meminfo_not_parsed(e)),
        },
    }
}

/// Reads the number in the first group of a match of a line of the
/// memory file.
pub fn meminfo_value(captured: &Option<Vec<Option<String>>>, error: &str) -> (r: Result<
    i32,
    Error,
>)
    ensures
        match r {
            Ok(v) => value_of(groups_text(*captured), error@) == Ok::<int, Seq<char>>(v as int),
            Err(e) => value_of(groups_text(*captured), error@) == Err::<int, Seq<char>>(e@),
        },
{
    match group(captured, 1) {
        None => Err(Error::new(String::from_str(error))),
        Some(digits) => match parse_i32(digits) {
            Ok(v) => Ok(v),
            Err(e) => {
                let mut message = String::from_str("error while parsing meminfo: ");
                message.append(e.message());
                Err(Error::new(message))
            },
        },
    }
}

/// Finds in the memory file `meminfo` the line that `pattern`
/// describes, and reads its number. The error is `error` where no line
/// matches.
pub fn find_meminfo(pattern: &str, meminfo: &str, error: &str) -> (r: Result<i32, Error>)
    ensures
        match r {
            Ok(v) => value_of(first_match(pattern@, meminfo@), error@) == Ok::<int, Seq<char>>(
                v as int,
            ),
            Err(e) => value_of(first_match(pattern@, meminfo@), error@) == Err::<int, Seq<char>>(
                e@,
            ),
        },
{
    let captured = captures(pattern, meminfo);
    meminfo_value(&captured, error)
}

/// What the memory file says, in kibibytes.
#[derive(Debug, Clone, Copy, PartialEq, Eq)]
pub struct MemInfo {
    pub total: i32,
    pub free: i32,
    pub buffers: i32,
    pub cached: i32,
    pub s_reclaimable: i32,
}

/// The message of the error for a memory file without the line of `name`.
pub open spec fn not_found(name: Seq<char>, path: Seq<char>) -> Seq<char> {
    name + " not found in \""@ + path + "\""@
}

/// The message of the error for a memory file without the line of `name`.
pub fn not_found_message(name: &str, path: &str) -> (r: String)
    ensures
        r@ == not_found(name@, path@),
{
    let mut message = String::from_str(name);
    message.append(" not found in \"");
    message.append(path);
    message.append("\"");
    message
}

/// What the memory file with the content `meminfo`, read from `path`,
/// says: the first of the five numbers that is not there or cannot be
/// read is the error.
pub open spec fn meminfo_of(meminfo: Seq<char>, path: Seq<char>) -> Result<MemInfo, Seq<char>> {
    match value_of(first_match(TOTAL_PATTERN@, meminfo), not_found("MemTotal"@, path)) {
        Err(e) => Err(e),
        Ok(total) => match value_of(
            first_match(FREE_PATTERN@, meminfo),
            not_found("MemFree"@, path),
        ) {
            Err(e) => Err(e),
            Ok(free) => match value_of(
                first_match(BUFFERS_PATTERN@, meminfo),
                not_found("Buffers"@, path),
            ) {
                Err(e) => Err(e),
                Ok(buffers) => match value_of(
                    first_match(CACHED_PATTERN@, meminfo),
                    not_found("Cached"@, path),
                ) {
                    Err(e) => Err(e),
                    Ok(cached) => match value_of(
                        first_match(S_RECLAIMABLE_PATTERN@, meminfo),
                        not_found("SReclaimable"@, path),
                    ) {
                        Err(e) => Err(e),
                        Ok(s_reclaimable) => Ok(
                            MemInfo {
                                total: total as i32,
                                free: free as i32,
                                buffers: buffers as i32,
                                cached: cached as i32,
                                s_reclaimable: s_reclaimable as i32,
                            },
                        ),
                    },
                },
            },
        },
    }
}

/// Reads the five numbers of the memory file with the content
/// `meminfo`, read from `path`.
pub fn read_meminfo(meminfo: &str, path: &str) -> (r: Result<MemInfo, Error>)
    ensures
        match r {
            Ok(info) => meminfo_of(meminfo@, path@) == Ok::<MemInfo, Seq<char>>(info),
            Err(e) => meminfo_of(meminfo@, path@) == Err::<MemInfo, Seq<char>>(e@),
        },
{
    let total = match find_meminfo(
        TOTAL_PATTERN,
        meminfo,
        not_found_message("MemTotal", path).as_str(),
    ) {
        Ok(v) => v,
        Err(e) => {
            return Err(e);
        },
    };
    let free = match find_meminfo(
        FREE_PATTERN,
        meminfo,
        not_found_message("MemFree", path).as_str(),
    ) {
        Ok(v) => v,
        Err(e) => {
            return Err(e);
        },
    };
    let buffers = match find_meminfo(
        BUFFERS_PATTERN,
        meminfo,
        not_found_message("Buffers", path).as_str(),
    ) {
        Ok(v) => v,
        Err(e) => {
            return Err(e);
        },
    };
    let cached = match find_meminfo(
        CACHED_PATTERN,
        meminfo,
        not_found_message("Cached", path).as_str(),
    ) {
        Ok(v) => v,
        Err(e) => {
            return Err(e);
        },
    };
    let s_reclaimable = match find_meminfo(
        S_RECLAIMABLE_PATTERN,
        meminfo,
        not_found_message("SReclaimable", path).as_str(),
    ) {
        Ok(v) => v,
        Err(e) => {
            return Err(e);
        },
    };
    Ok(MemInfo { total, free, buffers, cached, s_reclaimable })
}

/// The memory in use: the total without what is free, in buffers, in
/// the cache or reclaimable.
pub open spec fn used_of(info: MemInfo) -> int {
    info.total - info.free - info.buffers - info.cached - info.s_reclaimable
}

/// Whether the memory in use can be computed step by step in `i32`.
pub open spec fn used_fits(info: MemInfo) -> bool {
    &&& i32::MIN <= info.total - info.free <= i32::MAX
    &&& i32::MIN <= info.total - info.free - info.buffers <= i32::MAX
    &&& i32::MIN <= info.total - info.free - info.buffers - info.cached <= i32::MAX
    &&& i32::MIN <= used_of(info) <= i32::MAX
}

/// The memory in use, in kibibytes, where it can be computed step by
/// step in `i32`.
pub fn used_kib(info: &MemInfo) -> (r: Option<i32>)
    ensures
        r is Some <==> used_fits(*info),
        r matches Some(used) ==> used == used_of(*info),
{
    let a = match info.total.checked_sub(info.free) {
        Some(v) => v,
        None => {
            return None;
        },
    };
    let b = match a.checked_sub(info.buffers) {
        Some(v) => v,
        None => {
            return None;
        },
    };
    let c = match b.checked_sub(info.cached) {
        Some(v) => v,
        None => {
            return None;
        },
    };
    c.checked_sub(info.s_reclaimable)
}

/// The label for a percentage of memory in use: the high label above
/// the high level.
pub open spec fn label_for(percentage: i32, config: InternalConfig) -> Seq<char> {
    if percentage > as_signed(config.high_level) {
        config.high_label@
    } else {
        config.label@
    }
}

/// The value for a reading of the memory: the memory in use and the
/// total memory, or the percentage in use.
pub open spec fn value_for(
    percentage: i32,
    used: Seq<char>,
    total: Seq<char>,
    config: InternalConfig,
) -> Seq<char> {
    match config.display {
        Display::Percentage => percent_text(percentage as int),
        _ => used + "/"@ + total,
    }
}

/// The message that the module sends for a reading of the memory:
/// `percentage` is the memory in use in percent, `used` and `total`
/// are the memory in use and the total memory as they are to be shown.
pub fn message(key: char, percentage: i32, used: &str, total: &str, config: &InternalConfig) -> (r:
    ModuleMsg)
    ensures
        r@ == (MsgView {
            key,
            value: Some(value_for(percentage, used@, total@, *config)),
            label: Some(label_for(percentage, *config)),
        }),
{
    let mut label = config.label;
    if percentage > to_signed(config.high_level) {
        label = config.high_label;
    }
    let value = match config.display {
        Display::Percentage => percent(percentage as i64),
        _ => {
            let mut value = String::from_str(used);
            value.append("/");
            value.append(total);
            value
        },
    };
    ModuleMsg(key, Some(value), Some(String::from_str(label)))
}

} // verus!
