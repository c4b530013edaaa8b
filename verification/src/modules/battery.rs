//! The battery module: charge level and charging status.

use crate::error::Error;
use crate::module::Bar;
use crate::number::{parse_i32, parsed_i32, percent, percent_text};
use crate::text::{
    chars_of, contains, contains_text, find_from, first_index, has_prefix, same_text, starts_with,
    str_or, substring, text_or,
};
use crate::{value_or, Config as MainConfig, ModuleMsg, MsgView};
use vstd::prelude::*;
use vstd::string::StringExecFns;

verus! {

broadcast use vstd::seq::group_seq_axioms;

pub const PLACEHOLDER: &'static str = "-";

pub const SYS_PATH: &'static str = "/sys/class/power_supply/";

pub const BATTERY_NAME: &'static str = "BAT0";

pub const UEVENT: &'static str = "uevent";

pub const FULL_DESIGN: bool = false;

pub const STATUS_ATTRIBUTE: &'static str = "POWER_SUPPLY_STATUS";

pub const FULL_LABEL: &'static str = "*ba";

pub const CHARGING_LABEL: &'static str = "^ba";

pub const DISCHARGING_LABEL: &'static str = "bat";

pub const LOW_LABEL: &'static str = "!ba";

pub const UNKNOWN_LABEL: &'static str = ".ba";

pub const LOW_LEVEL: u32 = 10;

/// The time between two readings, in milliseconds.
pub const TICK_RATE: u64 = 500;

pub const FORMAT: &'static str = "%l:%v";

#[derive(Debug, Clone)]
pub struct Config {
    pub name: Option<String>,
    pub low_level: Option<u32>,
    pub full_design: Option<bool>,
    pub tick: Option<u32>,
    pub placeholder: Option<String>,
    pub full_label: Option<String>,
    pub charging_label: Option<String>,
    pub discharging_label: Option<String>,
    pub low_label: Option<String>,
    pub unknown_label: Option<String>,
    pub format: Option<String>,
}

/// The placeholder that `config` gives this module.
pub open spec fn placeholder_of(config: &MainConfig) -> Seq<char> {
    match config.battery {
        Some(c) => text_or(c.placeholder, PLACEHOLDER@),
        None => PLACEHOLDER@,
    }
}

/// The output format that `config` gives this module.
pub open spec fn format_of(config: &MainConfig) -> Seq<char> {
    match config.battery {
        Some(c) => text_or(c.format, FORMAT@),
        None => FORMAT@,
    }
}

#[derive(Debug)]
pub struct Battery<'a> {
    placeholder: &'a str,
    format: &'a str,
}

impl<'a> Battery<'a> {
    /// The module as `config` describes it: its own placeholder and
    /// format where the configuration gives them, the defaults elsewhere.
    pub fn with_config(config: &'a MainConfig) -> (r: Self)
        ensures
            r.placeholder_text() == placeholder_of(config),
            r.format_text() == format_of(config),
    {
        let mut placeholder = PLACEHOLDER;
        let mut format = FORMAT;
        if let Some(c) = &config.battery {
            placeholder = str_or(&c.placeholder, PLACEHOLDER);
            format = str_or(&c.format, FORMAT);
        }
        Battery { placeholder, format }
    }
}

impl<'a> Bar for Battery<'a> {
    open spec fn name_text(&self) -> Seq<char> {
        "battery"@
    }

    closed spec fn placeholder_text(&self) -> Seq<char> {
        self.placeholder@
    }

    closed spec fn format_text(&self) -> Seq<char> {
        self.format@
    }

    fn name(&self) -> (r: &str)
        ensures
            r@ == "battery"@,
    {
        "battery"
    }

    fn placeholder(&self) -> (r: &str)
        ensures
            r@ == self.placeholder_text(),
    {
        self.placeholder
    }

    fn format(&self) -> (r: &str)
        ensures
            r@ == self.format_text(),
    {
        self.format
    }
}

/// Whether the battery reports its state in units of energy or of
/// charge.
#[derive(Debug, Clone, Copy, PartialEq, Eq)]
pub enum Unit {
    Energy,
    Charge,
}

/// What the module works with: the configuration with its gaps filled
/// by the defaults, and the names of the attributes to read.
#[derive(Debug)]
pub struct InternalConfig<'a> {
    pub low_level: u32,
    /// The time between two readings, in milliseconds.
    pub tick: u64,
    pub uevent: String,
    pub now_attribute: String,
    pub full_attribute: String,
    pub full_label: &'a str,
    pub charging_label: &'a str,
    pub discharging_label: &'a str,
    pub low_label: &'a str,
    pub unknown_label: &'a str,
}

/// The path of the file that describes the battery of `config`.
pub open spec fn uevent_of(config: &MainConfig) -> Seq<char> {
    SYS_PATH@ + match config.battery {
        Some(c) => text_or(c.name, BATTERY_NAME@),
        None => BATTERY_NAME@,
    } + "/"@ + UEVENT@
}

/// The unit in which the battery file `content` reports: energy where
/// it holds the three energy attributes, else charge where it holds
/// the three charge attributes.
pub open spec fn unit_in(content: Seq<char>) -> Option<Unit> {
    if contains_text(content, "POWER_SUPPLY_ENERGY_FULL_DESIGN="@) && contains_text(
        content,
        "POWER_SUPPLY_ENERGY_FULL="@,
    ) && contains_text(content, "POWER_SUPPLY_ENERGY_NOW="@) {
        Some(Unit::Energy)
    } else if contains_text(content, "POWER_SUPPLY_CHARGE_FULL_DESIGN="@) && contains_text(
        content,
        "POWER_SUPPLY_CHARGE_FULL="@,
    ) && contains_text(content, "POWER_SUPPLY_CHARGE_NOW="@) {
        Some(Unit::Charge)
    } else {
        None
    }
}

/// The name of the attribute that holds the present level.
pub open spec fn now_attribute_of(unit: Unit) -> Seq<char> {
    match unit {
        Unit::Energy => "POWER_SUPPLY_ENERGY_NOW"@,
        Unit::Charge => "POWER_SUPPLY_CHARGE_NOW"@,
    }
}

/// The name of the attribute that holds the full level: the one
/// measured, or the one the battery was designed for.
pub open spec fn full_attribute_of(unit: Unit, full_design: bool) -> Seq<char> {
    match unit {
        Unit::Energy => if full_design {
            "POWER_SUPPLY_ENERGY_FULL_DESIGN"@
        } else {
            "POWER_SUPPLY_ENERGY_FULL"@
        },
        Unit::Charge => if full_design {
            "POWER_SUPPLY_CHARGE_FULL_DESIGN"@
        } else {
            "POWER_SUPPLY_CHARGE_FULL"@
        },
    }
}

/// The message of the error for a battery file without the attributes.
pub open spec fn attributes_not_found(path: Seq<char>) -> Seq<char> {
    "unable to find the required attributes in "@ + path
}

/// The message of the error for a battery file whose attributes
/// cannot be read.
pub open spec fn attributes_not_parsed(path: Seq<char>) -> Seq<char> {
    "unable to parse the required attributes in "@ + path
}

/// The path of the file that describes the battery of `config`.
pub fn uevent_path(config: &MainConfig) -> (r: String)
    ensures
        r@ == uevent_of(config),
{
    let mut name = BATTERY_NAME;
    if let Some(c) = &config.battery {
        name = str_or(&c.name, BATTERY_NAME);
    }
    let mut path = String::from_str(SYS_PATH);
    path.append(name);
    path.append("/");
    path.append(UEVENT);
    assert(path@ =~= uevent_of(config));
    path
}

/// Finds the unit in which the battery file `content`, read from
/// `path`, reports. An error where neither the energy nor the charge
/// attributes are all there.
pub fn find_attribute_prefix(content: &str, path: &str) -> (r: Result<Unit, Error>)
    ensures
        r is Ok <==> unit_in(content@) is Some,
        r matches Ok(unit) ==> Some(unit) == unit_in(content@),
        r matches Err(e) ==> e@ == attributes_not_found(path@),
{
    if contains(content, "POWER_SUPPLY_ENERGY_FULL_DESIGN=") && contains(
        content,
        "POWER_SUPPLY_ENERGY_FULL=",
    ) && contains(content, "POWER_SUPPLY_ENERGY_NOW=") {
        Ok(Unit::Energy)
    } else if contains(content, "POWER_SUPPLY_CHARGE_FULL_DESIGN=") && contains(
        content,
        "POWER_SUPPLY_CHARGE_FULL=",
    ) && contains(content, "POWER_SUPPLY_CHARGE_NOW=") {
        Ok(Unit::Charge)
    } else {
        let mut message = String::from_str("unable to find the required attributes in ");
        message.append(path);
        Err(Error::new(message))
    }
}

impl<'a> InternalConfig<'a> {
    /// What the module works with, from the configuration and from
    /// the content of the battery file at `uevent_path(config)`. An
    /// error where the file lacks the attributes.
    pub fn try_from(config: &'a MainConfig, content: &str) -> (r: Result<Self, Error>)
        ensures
            r is Ok <==> unit_in(content@) is Some,
            r matches Err(e) ==> e@ == attributes_not_found(uevent_of(config)),
            r matches Ok(c) ==> {
                let unit = unit_in(content@)->0;
                match config.battery {
                    Some(b) => {
                        &&& c.low_level == value_or(b.low_level, LOW_LEVEL)
                        &&& c.tick == match b.tick {
                            Some(t) => t as u64,
                            None => TICK_RATE,
                        }
                        &&& c.full_attribute@ == full_attribute_of(
                            unit,
                            value_or(b.full_design, FULL_DESIGN),
                        )
                        &&& c.full_label@ == text_or(b.full_label, FULL_LABEL@)
                        &&& c.charging_label@ == text_or(b.charging_label, CHARGING_LABEL@)
                        &&& c.discharging_label@ == text_or(b.discharging_label, DISCHARGING_LABEL@)
                        &&& c.low_label@ == text_or(b.low_label, LOW_LABEL@)
                        &&& c.unknown_label@ == text_or(b.unknown_label, UNKNOWN_LABEL@)
                    },
                    None => {
                        &&& c.low_level == LOW_LEVEL
                        &&& c.tick == TICK_RATE
                        &&& c.full_attribute@ == full_attribute_of(unit, FULL_DESIGN)
                        &&& c.full_label@ == FULL_LABEL@
                        &&& c.charging_label@ == CHARGING_LABEL@
                        &&& c.discharging_label@ == DISCHARGING_LABEL@
                        &&& c.low_label@ == LOW_LABEL@
                        &&& c.unknown_label@ == UNKNOWN_LABEL@
                    },
                }
            },
            r matches Ok(c) ==> c.uevent@ == uevent_of(config) && c.now_attribute@
                == now_attribute_of(unit_in(content@)->0),
    {
        let mut low_level = LOW_LEVEL;
        let mut full_design = FULL_DESIGN;
        let mut tick = TICK_RATE;
        let mut full_label = FULL_LABEL;
        let mut charging_label = CHARGING_LABEL;
        let mut discharging_label = DISCHARGING_LABEL;
        let mut low_label = LOW_LABEL;
        let mut unknown_label = UNKNOWN_LABEL;
        if let Some(c) = &config.battery {
            if let Some(v) = c.low_level {
                low_level = v;
            }
            if let Some(b) = c.full_design {
                full_design = b;
            }
            if let Some(t) = c.tick {
                tick = t as u64;
            }
            full_label = str_or(&c.full_label, FULL_LABEL);
            charging_label = str_or(&c.charging_label, CHARGING_LABEL);
            discharging_label = str_or(&c.discharging_label, DISCHARGING_LABEL);
            low_label = str_or(&c.low_label, LOW_LABEL);
            unknown_label = str_or(&c.unknown_label, UNKNOWN_LABEL);
        }
        let uevent = uevent_path(config);
        let unit = match find_attribute_prefix(content, uevent.as_str()) {
            Ok(unit) => unit,
            Err(e) => {
                return Err(e);
            },
        };
        let now_attribute = match unit {
            Unit::Energy => String::from_str("POWER_SUPPLY_ENERGY_NOW"),
            Unit::Charge => String::from_str("POWER_SUPPLY_CHARGE_NOW"),
        };
        let full_attribute = match unit {
            Unit::Energy => if full_design {
                String::from_str("POWER_SUPPLY_ENERGY_FULL_DESIGN")
            } else {
                String::from_str("POWER_SUPPLY_ENERGY_FULL")
            },
            Unit::Charge => if full_design {
                String::from_str("POWER_SUPPLY_CHARGE_FULL_DESIGN")
            } else {
                String::from_str("POWER_SUPPLY_CHARGE_FULL")
            },
        };
        Ok(
            InternalConfig {
                low_level,
                tick,
                uevent,
                now_attribute,
                full_attribute,
                full_label,
                charging_label,
                discharging_label,
                low_label,
                unknown_label,
            },
        )
    }
}

/// What stands in `line` between the first equals sign and the next
/// one (or the end), if the line has an equals sign.
pub open spec fn second_field(line: Seq<char>) -> Option<Seq<char>> {
    let first = first_index(line, '=');
    if first == line.len() {
        None
    } else {
        let rest = line.skip(first + 1);
        Some(rest.take(first_index(rest, '=')))
    }
}

/// The number that `line` gives to `attribute`: the line starts with
/// the attribute's name, and what follows its first equals sign is a
/// number.
pub open spec fn attribute_in(line: Seq<char>, attribute: Seq<char>) -> Option<int> {
    if starts_with(line, attribute) {
        match second_field(line) {
            Some(field) => match parsed_i32(field) {
                Ok(v) => Some(v),
                Err(_) => None,
            },
            None => None,
        }
    } else {
        None
    }
}

/// The status that `line` gives, if it is the line of the status.
pub open spec fn status_in(line: Seq<char>) -> Option<Seq<char>> {
    if starts_with(line, STATUS_ATTRIBUTE@) {
        second_field(line)
    } else {
        None
    }
}

/// What stands in `line` between the first equals sign and the next.
pub fn field_after_equals(line: &str) -> (r: Option<String>)
    ensures
        crate::text::opt_text(r) == second_field(line@),
{
    let chars = chars_of(line);
    let first = find_from(&chars, 0, '=');
    assert(chars@.skip(0) =~= chars@);
    if first == chars.len() {
        return None;
    }
    let second = find_from(&chars, first + 1, '=');
    let field = substring(&chars, first + 1, second);
    assert(chars@.subrange(first + 1, second as int) =~= chars@.skip(first + 1).take(
        second - (first + 1),
    ));
    Some(field)
}

/// Reads the number that `line` gives to `attribute`.
pub fn parse_attribute(line: &str, attribute: &str) -> (r: Option<i32>)
    ensures
        r is Some <==> attribute_in(line@, attribute@) is Some,
        r matches Some(v) ==> attribute_in(line@, attribute@) == Some(v as int),
{
    if has_prefix(line, attribute) {
        if let Some(field) = field_after_equals(line) {
            return match parse_i32(field.as_str()) {
                Ok(v) => Some(v),
                Err(_) => None,
            };
        }
    }
    None
}

/// Reads the status that `line` gives.
pub fn parse_status(line: &str) -> (r: Option<String>)
    ensures
        crate::text::opt_text(r) == status_in(line@),
{
    if has_prefix(line, STATUS_ATTRIBUTE) {
        return field_after_equals(line);
    }
    None
}

/// The number that the first of the lines with a number for
/// `attribute` gives it.
pub open spec fn first_attribute(lines: Seq<String>, attribute: Seq<char>) -> Option<int>
    decreases lines.len(),
{
    if lines.len() == 0 {
        None
    } else {
        match attribute_in(lines[0]@, attribute) {
            Some(v) => Some(v),
            None => first_attribute(lines.skip(1), attribute),
        }
    }
}

/// The status that the first of the lines with a status gives.
pub open spec fn first_status(lines: Seq<String>) -> Option<Seq<char>>
    decreases lines.len(),
{
    if lines.len() == 0 {
        None
    } else {
        match status_in(lines[0]@) {
            Some(s) => Some(s),
            None => first_status(lines.skip(1)),
        }
    }
}

/// Reads the present level, the full level and the status from the
/// lines of the battery file `uevent`. An error where one of them is
/// not there.
pub fn parse_attributes(
    lines: &Vec<String>,
    uevent: &str,
    now_attribute: &str,
    full_attribute: &str,
) -> (r: Result<(i32, i32, String), Error>)
    ensures
        r is Ok <==> first_attribute(lines@, now_attribute@) is Some && first_attribute(
            lines@,
            full_attribute@,
        ) is Some && first_status(lines@) is Some,
        r matches Ok(found) ==> {
            &&& Some(found.0 as int) == first_attribute(lines@, now_attribute@)
            &&& Some(found.1 as int) == first_attribute(lines@, full_attribute@)
            &&& Some(found.2@) == first_status(lines@)
        },
        r matches Err(e) ==> e@ == attributes_not_parsed(uevent@),
{
    let mut now: Option<i32> = None;
    let mut full: Option<i32> = None;
    let mut status: Option<String> = None;
    let n = lines.len();
    let mut i: usize = 0;
    assert(lines@.skip(0) =~= lines@);
    while i < n
        invariant
            i <= n,
            n == lines@.len(),
            match now {
                Some(v) => first_attribute(lines@, now_attribute@) == Some(v as int),
                None => first_attribute(lines@, now_attribute@) == first_attribute(
                    lines@.skip(i as int),
                    now_attribute@,
                ),
            },
            match full {
                Some(v) => first_attribute(lines@, full_attribute@) == Some(v as int),
                None => first_attribute(lines@, full_attribute@) == first_attribute(
                    lines@.skip(i as int),
                    full_attribute@,
                ),
            },
            match status {
                Some(s) => first_status(lines@) == Some(s@),
                None => first_status(lines@) == first_status(lines@.skip(i as int)),
            },
        decreases n - i,
    {
        assert(lines@.skip(i as int)[0] == lines@[i as int]);
        assert(lines@.skip(i as int).skip(1) =~= lines@.skip(i + 1));
        let line = lines[i].as_str();
        if now.is_none() {
            now = parse_attribute(line, now_attribute);
        }
        if full.is_none() {
            full = parse_attribute(line, full_attribute);
        }
        if status.is_none() {
            status = parse_status(line);
        }
        i += 1;
    }
    assert(lines@.skip(n as int).len() == 0);
    match (now, full, status) {
        (Some(now), Some(full), Some(status)) => Ok((now, full, status)),
        _ => {
            let mut message = String::from_str("unable to parse the required attributes in ");
            message.append(uevent);
            Err(Error::new(message))
        },
    }
}

/// The level of the battery in percent. A negative capacity counts as
/// larger than any energy.
pub open spec fn level_of(energy: int, capacity: int) -> int {
    if capacity < 0 {
        0
    } else {
        100 * energy / capacity
    }
}

/// The message of the error for a level that is out of range.
pub open spec fn level_out_of_range() -> Seq<char> {
    "out of range integral type conversion attempted"@
}

/// The level of the battery in percent. An error where it does not
/// fit the type.
pub fn battery_level(energy: i32, capacity: i32) -> (r: Result<u32, Error>)
    requires
        energy >= 0,
        capacity != 0,
    ensures
        r is Ok <==> level_of(energy as int, capacity as int) <= u32::MAX,
        r matches Ok(level) ==> level == level_of(energy as int, capacity as int),
        r matches Err(e) ==> e@ == level_out_of_range(),
{
    if capacity < 0 {
        return Ok(0);
    }
    let level: u64 = 100 * (energy as u64) / (capacity as u64);
    if level > 0xffff_ffff {
        Err(Error::new(String::from_str("out of range integral type conversion attempted")))
    } else {
        Ok(level as u32)
    }
}

/// The label for a status and a level: the label of a full or a
/// charging battery, of a discharging one (the low label where the
/// level is at most the low level), or of an unknown status.
pub open spec fn label_for(status: Seq<char>, level: u32, config: InternalConfig) -> Seq<char> {
    if status == "Full"@ {
        config.full_label@
    } else if status == "Discharging"@ {
        if level <= config.low_level {
            config.low_label@
        } else {
            config.discharging_label@
        }
    } else if status == "Charging"@ {
        config.charging_label@
    } else {
        config.unknown_label@
    }
}

/// The message that the module sends for a reading of the battery:
/// the level as a percentage, and the label of the status.
pub fn message(key: char, energy: i32, capacity: i32, status: &str, config: &InternalConfig) -> (r:
    Result<ModuleMsg, Error>)
    requires
        energy >= 0,
        capacity != 0,
    ensures
        r is Ok <==> level_of(energy as int, capacity as int) <= u32::MAX,
        r matches Ok(m) ==> m@ == (MsgView {
            key,
            value: Some(percent_text(level_of(energy as int, capacity as int))),
            label: Some(
                label_for(status@, level_of(energy as int, capacity as int) as u32, *config),
            ),
        }),
        r matches Err(e) ==> e@ == level_out_of_range(),
{
    let level = match battery_level(energy, capacity) {
        Ok(level) => level,
        Err(e) => {
            return Err(e);
        },
    };
    let label = if same_text(status, "Full") {
        config.full_label
    } else if same_text(status, "Discharging") {
        if level <= config.low_level {
            config.low_label
        } else {
            config.discharging_label
        }
    } else if same_text(status, "Charging") {
        config.charging_label
    } else {
        config.unknown_label
    };
    Ok(ModuleMsg(key, Some(percent(level as i64)), Some(String::from_str(label))))
}

} // verus!
