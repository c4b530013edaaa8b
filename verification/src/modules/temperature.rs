//! The temperature module: average core temperature.

use crate::error::Error;
use crate::module::Bar;
use crate::number::{
    as_signed, decimal, int_error_text, padded, padded_decimal, parse_u32, parsed_u32,
    push_decimal, signed_decimal, to_signed, IntError,
};
use crate::pattern::{captures, first_match, group, group_at, groups_text};
use crate::text::{str_or, text_or};
use crate::{value_or, Config as MainConfig, ModuleMsg, MsgView};
use vstd::prelude::*;
use vstd::string::StringExecFns;

verus! {

broadcast use vstd::seq::group_seq_axioms;

pub const PLACEHOLDER: &'static str = "-";

pub const CORETEMP: &'static str = "/sys/devices/platform/coretemp.0/hwmon";

pub const HIGH_LEVEL: u32 = 75;

pub const INPUT: u32 = 1;

/// The time between two readings, in milliseconds.
pub const TICK_RATE: u64 = 50;

pub const LABEL: &'static str = "tem";

pub const HIGH_LABEL: &'static str = "!te";

/// A range of inputs: the first, two dots, and the last.
pub const RANGE_PATTERN: &'static str = "^(\\d+)\\.\\.(\\d+)$";

pub const FORMAT: &'static str = "%l:%v";

/// The temperature inputs to average: one, an inclusive range written
/// `first..last`, or a list.
#[derive(Debug, Clone)]
pub enum CoreInputs {
    Single(u32),
    Range(String),
    List(Vec<u32>),
}

#[derive(Debug, Clone)]
pub struct Config {
    pub coretemp: Option<String>,
    pub high_level: Option<u32>,
    pub core_inputs: Option<CoreInputs>,
    pub tick: Option<u32>,
    pub placeholder: Option<String>,
    pub label: Option<String>,
    pub high_label: Option<String>,
    pub format: Option<String>,
}

/// The placeholder that `config` gives this module.
pub open spec fn placeholder_of(config: &MainConfig) -> Seq<char> {
    match config.temperature {
        Some(c) => text_or(c.placeholder, PLACEHOLDER@),
        None => PLACEHOLDER@,
    }
}

/// The output format that `config` gives this module.
pub open spec fn format_of(config: &MainConfig) -> Seq<char> {
    match config.temperature {
        Some(c) => text_or(c.format, FORMAT@),
        None => FORMAT@,
    }
}

#[derive(Debug)]
pub struct Temperature<'a> {
    placeholder: &'a str,
    format: &'a str,
}

impl<'a> Temperature<'a> {
    /// The module as `config` describes it: its own placeholder and
    /// format where the configuration gives them, the defaults elsewhere.
    pub fn with_config(config: &'a MainConfig) -> (r: Self)
        ensures
            r.placeholder_text() == placeholder_of(config),
            r.format_text() == format_of(config),
    {
        let mut placeholder = PLACEHOLDER;
        let mut format = FORMAT;
        if let Some(c) = &config.temperature {
            placeholder = str_or(&c.placeholder, PLACEHOLDER);
            format = str_or(&c.format, FORMAT);
        }
        Temperature { placeholder, format }
    }
}

impl<'a> Bar for Temperature<'a> {
    open spec fn name_text(&self) -> Seq<char> {
        "temperature"@
    }

    closed spec fn placeholder_text(&self) -> Seq<char> {
        self.placeholder@
    }

    closed spec fn format_text(&self) -> Seq<char> {
        self.format@
    }

    fn name(&self) -> (r: &str)
        ensures
            r@ == "temperature"@,
    {
        "temperature"
    }

    fn placeholder(&self) -> (r: &str)
        ensures
            r@ == self.placeholder_text(),
    {
        self.placeholder
    }

    fn format(&self) -> (r: &str)
        ensures
            r@ == self.format_text(),
    {
        self.format
    }
}

/// What the module works with: the configuration with its gaps filled
/// by the defaults, and the inputs to read.
#[derive(Debug)]
pub struct InternalConfig<'a> {
    pub coretemp: &'a str,
    pub high_level: u32,
    /// The time between two readings, in milliseconds.
    pub tick: u64,
    pub inputs: Vec<u32>,
    pub label: &'a str,
    pub high_label: &'a str,
}

/// The directory of the temperature sensors that `config` names.
pub open spec fn coretemp_of(config: &MainConfig) -> Seq<char> {
    match config.temperature {
        Some(c) => text_or(c.coretemp, CORETEMP@),
        None => CORETEMP@,
    }
}

/// The directory of the temperature sensors that `config` names.
pub fn coretemp_path<'a>(config: &'a MainConfig) -> (r: &'a str)
    ensures
        r@ == coretemp_of(config),
{
    match &config.temperature {
        Some(c) => str_or(&c.coretemp, CORETEMP),
        None => CORETEMP,
    }
}

/// The inputs that a configuration asks for, before it is known which
/// of them exist: a list, or all from a first to a last.
#[derive(Debug)]
pub enum Candidates {
    List(Vec<u32>),
    Range(u32, u32),
}

/// The message of the error for a range whose bounds cannot be read.
pub open spec fn range_not_parsed(e: IntError) -> Seq<char> {
    "error while parsing the range of inputs: "@ + int_error_text(e)
}

/// The message of the error for a range without its two bounds.
pub open spec fn range_without_bounds() -> Seq<char> {
    "error while parsing the range of inputs: a bound is missing"@
}

/// The bounds of a range, from the match of the range's pattern: none
/// where there is no match or the first is not less than the last. An
/// error where a bound is missing or fits no `u32`.
pub open spec fn bounds_of(captured: Option<Seq<Option<Seq<char>>>>) -> Result<
    Option<(u32, u32)>,
    Seq<char>,
> {
    if captured is None {
        Ok(None)
    } else {
        match (group_at(captured, 1), group_at(captured, 2)) {
            (Some(first), Some(last)) => match parsed_u32(first) {
                Err(e) => Err(range_not_parsed(e)),
                Ok(start) => match parsed_u32(last) {
                    Err(e) => Err(range_not_parsed(e)),
                    Ok(end) => if start >= end {
                        Ok(None)
                    } else {
                        Ok(Some((start as u32, end as u32)))
                    },
                },
            },
            _ => Err(range_without_bounds()),
        }
    }
}

/// Reads the bounds of a range from the match of the range's pattern.
pub fn range_bounds(captured: &Option<Vec<Option<String>>>) -> (r: Result<
    Option<(u32, u32)>,
    Error,
>)
    ensures
        r matches Ok(Some(bounds)) ==> bounds.0 < bounds.1,
        match r {
            Ok(b) => bounds_of(groups_text(*captured)) == Ok::<Option<(u32, u32)>, Seq<char>>(b),
            Err(e) => bounds_of(groups_text(*captured)) == Err::<Option<(u32, u32)>, Seq<char>>(
                e@,
            ),
        },
{
    if captured.is_none() {
        return Ok(None);
    }
    match (group(captured, 1), group(captured, 2)) {
        (Some(first), Some(last)) => {
            let start = match parse_u32(first) {
                Ok(v) => v,
                Err(e) => {
                    return Err(range_error(e));
                },
            };
            let end = match parse_u32(last) {
                Ok(v) => v,
                Err(e) => {
                    return Err(range_error(e));
                },
            };
            if start >= end {
                Ok(None)
            } else {
                Ok(Some((start, end)))
            }
        },
        _ => Err(
            Error::new(
                String::from_str("error while parsing the range of inputs: a bound is missing"),
            ),
        ),
    }
}

/// The error for a range whose bounds cannot be read.
fn range_error(e: IntError) -> (r: Error)
    ensures
        r@ == range_not_parsed(e),
{
    let mut message = String::from_str("error while parsing the range of inputs: ");
    message.append(e.message());
    Error::new(message)
}

impl Candidates {
    /// The inputs, in order.
    pub open spec fn inputs(self) -> Seq<u32> {
        match self {
            Candidates::List(list) => list@,
            Candidates::Range(first, last) => Seq::new(
                (last - first + 1) as nat,
                |i: int| (first + i) as u32,
            ),
        }
    }
}

/// The inputs that `core_inputs` asks for: the one input, the inputs
/// of the range from its first to its last (none where the text is no
/// range, or its first is not less than its last), or the inputs of
/// the list.
pub open spec fn candidates_of(core_inputs: CoreInputs) -> Result<Option<Seq<u32>>, Seq<char>> {
    match core_inputs {
        CoreInputs::Single(n) => Ok(Some(seq![n])),
        CoreInputs::Range(range) => match bounds_of(first_match(RANGE_PATTERN@, range@)) {
            Err(e) => Err(e),
            Ok(None) => Ok(None),
            Ok(Some(bounds)) => Ok(Some(Candidates::Range(bounds.0, bounds.1).inputs())),
        },
        CoreInputs::List(list) => Ok(Some(list@)),
    }
}

/// The inputs of an optional set of candidates.
pub open spec fn inputs_of(candidates: Option<Candidates>) -> Option<Seq<u32>> {
    match candidates {
        Some(c) => Some(c.inputs()),
        None => None,
    }
}

/// A copy of the list.
fn copy_of(list: &Vec<u32>) -> (r: Vec<u32>)
    ensures
        r@ == list@,
{
    let mut out: Vec<u32> = Vec::new();
    let mut i: usize = 0;
    while i < list.len()
        invariant
            i <= list@.len(),
            out@ == list@.take(i as int),
        decreases list.len() - i,
    {
        out.push(list[i]);
        assert(out@ =~= list@.take(i + 1));
        i += 1;
    }
    assert(list@.take(list@.len() as int) =~= list@);
    out
}

/// Finds the inputs that `core_inputs` asks for, before it is known
/// which of them exist.
pub fn candidates(core_inputs: &CoreInputs) -> (r: Result<Option<Candidates>, Error>)
    ensures
        r matches Ok(Some(Candidates::Range(first, last))) ==> first < last,
        match r {
            Ok(c) => candidates_of(*core_inputs) == Ok::<Option<Seq<u32>>, Seq<char>>(
                inputs_of(c),
            ),
            Err(e) => candidates_of(*core_inputs) == Err::<Option<Seq<u32>>, Seq<char>>(e@),
        },
{
    match core_inputs {
        CoreInputs::Single(n) => {
            let mut list: Vec<u32> = Vec::new();
            list.push(*n);
            assert(list@ =~= seq![*n]);
            Ok(Some(Candidates::List(list)))
        },
        CoreInputs::Range(range) => {
            let captured = captures(RANGE_PATTERN, range.as_str());
            match range_bounds(&captured) {
                Err(e) => Err(e),
                Ok(None) => Ok(None),
                Ok(Some(bounds)) => Ok(Some(Candidates::Range(bounds.0, bounds.1))),
            }
        },
        CoreInputs::List(list) => Ok(Some(Candidates::List(copy_of(list)))),
    }
}

/// Those of the candidates that are among the existing inputs, in the
/// order of the candidates.
pub open spec fn existing_of(candidates: Seq<u32>, existing: Seq<u32>) -> Seq<u32> {
    candidates.filter(|n: u32| existing.contains(n))
}

/// The inputs to read, from what the configuration asks for and from
/// those of its candidates that exist: none where a single input was
/// asked for and does not exist.
pub open spec fn inputs_found(core_inputs: CoreInputs, found: Seq<u32>) -> Option<Seq<u32>> {
    match core_inputs {
        CoreInputs::Single(_) => if found.len() == 0 {
            None
        } else {
            Some(found)
        },
        _ => Some(found),
    }
}

/// Tells whether `n` is among the numbers.
pub fn has_input(numbers: &Vec<u32>, n: u32) -> (b: bool)
    ensures
        b == numbers@.contains(n),
{
    let len = numbers.len();
    let mut i: usize = 0;
    while i < len
        invariant
            i <= len,
            len == numbers@.len(),
            forall|j: int| 0 <= j < i ==> numbers@[j] != n,
        decreases len - i,
    {
        if numbers[i] == n {
            return true;
        }
        i += 1;
    }
    false
}

/// Those of the candidates that are among the existing inputs.
pub fn keep_existing(candidates: &Candidates, existing: &Vec<u32>) -> (r: Vec<u32>)
    requires
        candidates matches Candidates::Range(first, last) ==> *first <= *last,
    ensures
        r@ == existing_of(candidates.inputs(), existing@),
{
    let ghost all = candidates.inputs();
    let ghost pred = |n: u32| existing@.contains(n);
    let mut out: Vec<u32> = Vec::new();
    proof {
        reveal(Seq::filter);
        assert(all.take(0) =~= Seq::<u32>::empty());
    }
    match candidates {
        Candidates::List(list) => {
            let len = list.len();
            let mut i: usize = 0;
            while i < len
                invariant
                    i <= len,
                    len == list@.len(),
                    all == list@,
                    pred == |n: u32| existing@.contains(n),
                    out@ == all.take(i as int).filter(pred),
                decreases len - i,
            {
                proof {
                    reveal(Seq::filter);
                    assert(all.take(i + 1).drop_last() =~= all.take(i as int));
                    assert(all.take(i + 1).last() == list@[i as int]);
                }
                if has_input(existing, list[i]) {
                    out.push(list[i]);
                }
                i += 1;
            }
            assert(all.take(len as int) =~= all);
        },
        Candidates::Range(first, last) => {
            let first: u32 = *first;
            let last: u32 = *last;
            let count: u64 = (last as u64) - (first as u64) + 1;
            let mut i: u64 = 0;
            while i < count
                invariant
                    i <= count,
                    count == last - first + 1,
                    first <= last,
                    all == Candidates::Range(first, last).inputs(),
                    all.len() == count,
                    pred == |n: u32| existing@.contains(n),
                    out@ == all.take(i as int).filter(pred),
                decreases count - i,
            {
                let n: u32 = ((first as u64) + i) as u32;
                proof {
                    reveal(Seq::filter);
                    assert(all.take(i + 1).drop_last() =~= all.take(i as int));
                    assert(all.take(i + 1).last() == n);
                }
                if has_input(existing, n) {
                    out.push(n);
                }
                i += 1;
            }
            assert(all.take(count as int) =~= all);
        },
    }
    out
}

/// The inputs to read, from what the configuration asks for and from
/// the inputs whose files exist. None where a range gives no bounds:
/// its text is no range, or its first is not less than its last. None
/// too where a single input was asked for and does not exist. An error
/// where a bound of a range is missing or fits no `u32`.
pub fn get_inputs(core_inputs: &CoreInputs, existing: &Vec<u32>) -> (r: Result<
    Option<Vec<u32>>,
    Error,
>)
    ensures
        candidates_of(*core_inputs) matches Err(e) ==> r matches Err(x) && x@ == e,
        candidates_of(*core_inputs) == Ok::<Option<Seq<u32>>, Seq<char>>(None) ==> r matches Ok(
            None,
        ),
        candidates_of(*core_inputs) matches Ok(Some(c)) ==> r matches Ok(o) && list_view(o)
            == inputs_found(*core_inputs, existing_of(c, existing@)),
{
    let candidates = match candidates(core_inputs) {
        Err(e) => {
            return Err(e);
        },
        Ok(None) => {
            return Ok(None);
        },
        Ok(Some(c)) => c,
    };
    let found = keep_existing(&candidates, existing);
    match core_inputs {
        CoreInputs::Single(_) => {
            if found.len() == 0 {
                Ok(None)
            } else {
                Ok(Some(found))
            }
        },
        _ => Ok(Some(found)),
    }
}

/// The inputs that the module reads: those found, or the first input
/// where none was found or none was asked for.
pub open spec fn inputs_or_default(inputs: Option<Seq<u32>>) -> Seq<u32> {
    match inputs {
        Some(i) => if i.len() == 0 {
            seq![INPUT]
        } else {
            i
        },
        None => seq![INPUT],
    }
}

/// The list that holds the first input only.
fn default_inputs() -> (r: Vec<u32>)
    ensures
        r@ == seq![INPUT],
{
    let mut inputs: Vec<u32> = Vec::new();
    inputs.push(INPUT);
    assert(inputs@ =~= seq![INPUT]);
    inputs
}

/// The texts of an optional list of inputs.
pub open spec fn list_view(inputs: Option<Vec<u32>>) -> Option<Seq<u32>> {
    match inputs {
        Some(i) => Some(i@),
        None => None,
    }
}

impl<'a> InternalConfig<'a> {
    /// What the module works with, from the configuration and from
    /// the inputs found. A configuration without a section for the
    /// module gives the defaults, and the first input.
    pub fn new(config: &'a MainConfig, inputs: Option<Vec<u32>>) -> (r: Self)
        ensures
            match config.temperature {
                Some(c) => {
                    &&& r.coretemp@ == text_or(c.coretemp, CORETEMP@)
                    &&& r.high_level == value_or(c.high_level, HIGH_LEVEL)
                    &&& r.tick == match c.tick {
                        Some(t) => t as u64,
                        None => TICK_RATE,
                    }
                    &&& r.inputs@ == inputs_or_default(
                        if c.core_inputs is Some {
                            list_view(inputs)
                        } else {
                            None
                        },
                    )
                    &&& r.label@ == text_or(c.label, LABEL@)
                    &&& r.high_label@ == text_or(c.high_label, HIGH_LABEL@)
                },
                None => {
                    &&& r.coretemp@ == CORETEMP@
                    &&& r.high_level == HIGH_LEVEL
                    &&& r.tick == TICK_RATE
                    &&& r.inputs@ == seq![INPUT]
                    &&& r.label@ == LABEL@
                    &&& r.high_label@ == HIGH_LABEL@
                },
            },
    {
        match &config.temperature {
            Some(c) => {
                let inputs = match (&c.core_inputs, inputs) {
                    (Some(_), Some(found)) => {
                        if found.len() == 0 {
                            default_inputs()
                        } else {
                            found
                        }
                    },
                    _ => default_inputs(),
                };
                InternalConfig {
                    coretemp: str_or(&c.coretemp, CORETEMP),
                    high_level: match c.high_level {
                        Some(h) => h,
                        None => HIGH_LEVEL,
                    },
                    tick: match c.tick {
                        Some(t) => t as u64,
                        None => TICK_RATE,
                    },
                    inputs,
                    label: str_or(&c.label, LABEL),
                    high_label: str_or(&c.high_label, HIGH_LABEL),
                }
            },
            None => InternalConfig {
                coretemp: CORETEMP,
                high_level: HIGH_LEVEL,
                tick: TICK_RATE,
                inputs: default_inputs(),
                label: LABEL,
                high_label: HIGH_LABEL,
            },
        }
    }
}

/// The path of the file of an input in the directory of a sensor.
pub open spec fn input_path_of(temp_dir: Seq<char>, input: u32) -> Seq<char> {
    temp_dir + "/temp"@ + decimal(input as nat) + "_input"@
}

/// The path of the file of an input in the directory of a sensor.
pub fn input_path(temp_dir: &str, input: u32) -> (r: String)
    ensures
        r@ == input_path_of(temp_dir@, input),
{
    let mut path = String::from_str(temp_dir);
    path.append("/temp");
    push_decimal(&mut path, input as u64);
    path.append("_input");
    assert(path@ =~= input_path_of(temp_dir@, input));
    path
}

/// The label for a temperature: the high label from the high level on.
pub open spec fn label_for(average: i32, config: InternalConfig) -> Seq<char> {
    if average >= as_signed(config.high_level) {
        config.high_label@
    } else {
        config.label@
    }
}

/// A temperature as text: at least three characters wide, and then
/// the sign of the degree.
pub open spec fn degrees_text(average: int) -> Seq<char> {
    padded(signed_decimal(average), 3).push('°')
}

/// The message that the module sends for an average temperature in
/// degrees.
pub fn message(key: char, average: i32, config: &InternalConfig) -> (r: ModuleMsg)
    ensures
        r@ == (MsgView {
            key,
            value: Some(degrees_text(average as int)),
            label: Some(label_for(average, *config)),
        }),
{
    let mut label = config.label;
    if average >= to_signed(config.high_level) {
        label = config.high_label;
    }
    let mut value = padded_decimal(average as i64, 3);
    value.push('°');
    ModuleMsg(key, Some(value), Some(String::from_str(label)))
}

} // verus!
