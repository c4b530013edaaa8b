//! The CPU usage module: load over the last interval.

use crate::error::Error;
use crate::module::Bar;
use crate::number::{
    as_signed, checked_sum, parse_i32, parsed_i32, percent, percent_text, sum, sums_fit, to_signed,
};
use crate::text::{split_words, str_or, text_or, texts, words};
use crate::{value_or, Config as MainConfig, ModuleMsg, MsgView};
use vstd::prelude::*;
use vstd::string::StringExecFns;

verus! {

broadcast use vstd::seq::group_seq_axioms;

pub const PLACEHOLDER: &'static str = "-";

pub const PROC_STAT: &'static str = "/proc/stat";

/// The time between two readings, in milliseconds.
pub const TICK_RATE: u64 = 500;

pub const HIGH_LEVEL: u32 = 90;

pub const LABEL: &'static str = "cpu";

pub const HIGH_LABEL: &'static str = "!cp";

pub const FORMAT: &'static str = "%l:%v";

#[derive(Debug, Clone)]
pub struct Config {
    pub tick: Option<u32>,
    pub high_level: Option<u32>,
    pub placeholder: Option<String>,
    pub label: Option<String>,
    pub high_label: Option<String>,
    pub format: Option<String>,
}

/// The placeholder that `config` gives this module.
pub open spec fn placeholder_of(config: &MainConfig) -> Seq<char> {
    match config.cpu_usage {
        Some(c) => text_or(c.placeholder, PLACEHOLDER@),
        None => PLACEHOLDER@,
    }
}

/// The output format that `config` gives this module.
pub open spec fn format_of(config: &MainConfig) -> Seq<char> {
    match config.cpu_usage {
        Some(c) => text_or(c.format, FORMAT@),
        None => FORMAT@,
    }
}

#[derive(Debug)]
pub struct CpuUsage<'a> {
    placeholder: &'a str,
    format: &'a str,
}

impl<'a> CpuUsage<'a> {
    /// The module as `config` describes it: its own placeholder and
    /// format where the configuration gives them, the defaults elsewhere.
    pub fn with_config(config: &'a MainConfig) -> (r: Self)
        ensures
            r.placeholder_text() == placeholder_of(config),
            r.format_text() == format_of(config),
    {
        let mut placeholder = PLACEHOLDER;
        let mut format = FORMAT;
        if let Some(c) = &config.cpu_usage {
            placeholder = str_or(&c.placeholder, PLACEHOLDER);
            format = str_or(&c.format, FORMAT);
        }
        CpuUsage { placeholder, format }
    }
}

impl<'a> Bar for CpuUsage<'a> {
    open spec fn name_text(&self) -> Seq<char> {
        "cpu_usage"@
    }

    closed spec fn placeholder_text(&self) -> Seq<char> {
        self.placeholder@
    }

    closed spec fn format_text(&self) -> Seq<char> {
        self.format@
    }

    fn name(&self) -> (r: &str)
        ensures
            r@ == "cpu_usage"@,
    {
        "cpu_usage"
    }

    fn placeholder(&self) -> (r: &str)
        ensures
            r@ == self.placeholder_text(),
    {
        self.placeholder
    }

    fn format(&self) -> (r: &str)
        ensures
            r@ == self.format_text(),
    {
        self.format
    }
}

/// What the module works with: the configuration with its gaps filled
/// by the defaults.
#[derive(Debug)]
pub struct InternalConfig<'a> {
    pub proc_stat: &'a str,
    pub high_level: u32,
    /// The time between two readings, in milliseconds.
    pub tick: u64,
    pub label: &'a str,
    pub high_label: &'a str,
}

impl<'a> InternalConfig<'a> {
    /// What the module works with, from the configuration.
    pub fn from(config: &'a MainConfig) -> (r: Self)
        ensures
            r.proc_stat@ == PROC_STAT@,
            match config.cpu_usage {
                Some(c) => {
                    &&& r.tick == match c.tick {
                        Some(t) => t as u64,
                        None => TICK_RATE,
                    }
                    &&& r.high_level == value_or(c.high_level, HIGH_LEVEL)
                    &&& r.label@ == text_or(c.label, LABEL@)
                    &&& r.high_label@ == text_or(c.high_label, HIGH_LABEL@)
                },
                None => {
                    &&& r.tick == TICK_RATE
                    &&& r.high_level == HIGH_LEVEL
                    &&& r.label@ == LABEL@
                    &&& r.high_label@ == HIGH_LABEL@
                },
            },
    {
        let mut tick = TICK_RATE;
        let mut high_level = HIGH_LEVEL;
        let mut label = LABEL;
        let mut high_label = HIGH_LABEL;
        if let Some(c) = &config.cpu_usage {
            if let Some(t) = c.tick {
                tick = t as u64;
            }
            if let Some(h) = c.high_level {
                high_level = h;
            }
            label = str_or(&c.label, LABEL);
            high_label = str_or(&c.high_label, HIGH_LABEL);
        }
        InternalConfig { high_level, proc_stat: PROC_STAT, tick, label, high_label }
    }
}

/// The idle time and the total time of a reading of the processor's
/// times: the idle time is the fourth and the fifth of the times, the
/// total time is all of them.
pub open spec fn idle_and_total_of(times: Seq<i32>) -> Option<(i32, i32)> {
    if times.len() >= 5 && i32::MIN <= times[3] + times[4] <= i32::MAX && sums_fit(times) {
        Some(((times[3] + times[4]) as i32, sum(times) as i32))
    } else {
        None
    }
}

/// The idle time and the total time of a reading of the processor's
/// times, where there are at least five times and the sums fit.
pub fn idle_and_total(times: &Vec<i32>) -> (r: Option<(i32, i32)>)
    ensures
        r == idle_and_total_of(times@),
{
    if times.len() < 5 {
        return None;
    }
    let idle = match times[3].checked_add(times[4]) {
        Some(idle) => idle,
        None => {
            return None;
        },
    };
    match checked_sum(times) {
        Some(total) => Some((idle, total)),
        None => None,
    }
}

/// The message of the error for a line of times that cannot be read.
pub open spec fn times_not_parsed(path: Seq<char>) -> Seq<char> {
    "error while parsing the file \""@ + path + "\""@
}

/// The numbers that the words denote, if each of them denotes an `i32`.
pub open spec fn numbers_of(fields: Seq<Seq<char>>) -> Option<Seq<i32>>
    decreases fields.len(),
{
    if fields.len() == 0 {
        Some(Seq::empty())
    } else {
        match (numbers_of(fields.drop_last()), parsed_i32(fields.last())) {
            (Some(numbers), Ok(v)) => Some(numbers.push(v as i32)),
            _ => None,
        }
    }
}

/// The times in the first line of the file of the processor's times:
/// the words of the line but the first, each read as a number.
pub open spec fn times_of(line: Seq<char>) -> Option<Seq<i32>> {
    if words(line, false).len() == 0 {
        Some(Seq::empty())
    } else {
        numbers_of(words(line, false).skip(1))
    }
}

/// Reads the times in the first line of the file of the processor's
/// times, read from `path`. An error where a word after the first is
/// no number.
pub fn parse_times(line: &str, path: &str) -> (r: Result<Vec<i32>, Error>)
    ensures
        r is Ok <==> times_of(line@) is Some,
        r matches Ok(times) ==> Some(times@) == times_of(line@),
        r matches Err(e) ==> e@ == times_not_parsed(path@),
{
    let fields = split_words(line, false);
    let n = fields.len();
    let mut times: Vec<i32> = Vec::new();
    if n == 0 {
        return Ok(times);
    }
    let ghost rest = words(line@, false).skip(1);
    let mut i: usize = 1;
    assert(rest.take(0) =~= Seq::<Seq<char>>::empty());
    while i < n
        invariant
            1 <= i <= n,
            n == fields@.len(),
            texts(fields@) == words(line@, false),
            rest == words(line@, false).skip(1),
            numbers_of(rest.take(i - 1)) == Some(times@),
        decreases n - i,
    {
        assert(rest.take(i as int).drop_last() =~= rest.take(i - 1));
        assert(rest.take(i as int).last() == fields@[i as int]@) by {
            assert(texts(fields@)[i as int] == fields@[i as int]@);
        }
        match parse_i32(fields[i].as_str()) {
            Ok(v) => times.push(v),
            Err(_) => {
                proof {
                    lemma_numbers_of_prefix(rest, i as int);
                }
                let mut message = String::from_str("error while parsing the file \"");
                message.append(path);
                message.append("\"");
                return Err(Error::new(message));
            },
        }
        i += 1;
    }
    assert(rest.take(n - 1) =~= rest);
    Ok(times)
}

/// Where the first `k` of the words do not all denote numbers, the
/// words do not either.
pub proof fn lemma_numbers_of_prefix(fields: Seq<Seq<char>>, k: int)
    requires
        0 <= k <= fields.len(),
        numbers_of(fields.take(k)) is None,
    ensures
        numbers_of(fields) is None,
    decreases fields.len() - k,
{
    if k < fields.len() {
        assert(fields.take(k + 1).drop_last() =~= fields.take(k));
        lemma_numbers_of_prefix(fields, k + 1);
    } else {
        assert(fields.take(k) =~= fields);
    }
}

/// The label for a usage: the high label from the high level on.
pub open spec fn label_for(usage: i32, config: InternalConfig) -> Seq<char> {
    if usage >= as_signed(config.high_level) {
        config.high_label@
    } else {
        config.label@
    }
}

/// The message that the module sends for a usage in percent.
pub fn message(key: char, usage: i32, config: &InternalConfig) -> (r: ModuleMsg)
    ensures
        r@ == (MsgView {
            key,
            value: Some(percent_text(usage as int)),
            label: Some(label_for(usage, *config)),
        }),
{
    let mut label = config.label;
    if usage >= to_signed(config.high_level) {
        label = config.high_label;
    }
    ModuleMsg(key, Some(percent(usage as i64)), Some(String::from_str(label)))
}

} // verus!
