//! The weather module: current conditions at a location.

use crate::error::Error;
use crate::module::Bar;
use crate::number::{decimal, parse_u32, parsed_u32, push_decimal};
use crate::text::{chars_of, opt_text, str_or, substring, text_or};
use crate::{Config as MainConfig, ModuleMsg, MsgView};
use vstd::prelude::*;
use vstd::string::StringExecFns;

verus! {

broadcast use vstd::seq::group_seq_axioms;

pub const PLACEHOLDER: &'static str = "-";

/// The time between two readings, in milliseconds.
pub const TICK_RATE: u64 = 120_000;

pub const OPENWEATHER_API: &'static str = "https://api.openweathermap.org/data/2.5/weather";

pub const LABEL: &'static str = "wtr";

pub const DEFAULT_W_ICON: &'static str = "*";

/// The latitude of the default location.
pub const DEFAULT_LAT: &'static str = "42.38";

/// The longitude of the default location.
pub const DEFAULT_LON: &'static str = "8.94";

/// The code that stands for a condition that cannot be read.
pub const UNKNOWN_CODE: u32 = 99;

pub const FORMAT: &'static str = "%v";

/// The icon of one weather condition: one for day and night, or one
/// for each.
#[derive(Debug, Clone)]
pub enum IconSet {
    DayOnly(String),
    DayAndNight(String, String),
}

#[derive(Debug, Clone)]
pub struct WeatherIcons {
    pub clear_sky: Option<IconSet>,
    pub partly_cloudy: Option<IconSet>,
    pub cloudy: Option<IconSet>,
    pub very_cloudy: Option<IconSet>,
    pub shower_rain: Option<IconSet>,
    pub rain: Option<IconSet>,
    pub thunderstorm: Option<IconSet>,
    pub snow: Option<IconSet>,
    pub mist: Option<IconSet>,
    pub default: Option<String>,
}

#[derive(Debug, Clone, Copy, PartialEq, Eq)]
pub enum Unit {
    Standard,
    Metric,
    Imperial,
}

/// A latitude and a longitude, each in the decimal notation in which it
/// is sent to the weather service.
#[derive(Debug, Clone)]
pub struct Coord {
    pub lat: String,
    pub lon: String,
}

#[derive(Debug, Clone)]
pub enum Location {
    /// A city name, zip code or city identifier.
    City(String),
    /// Latitude and longitude.
    Coordinates(Coord),
}

#[derive(Debug, Clone)]
pub struct Config {
    pub location: Location,
    pub api_key: String,
    pub unit: Option<Unit>,
    /// Two-letter language code.
    pub lang: Option<String>,
    pub icons: Option<WeatherIcons>,
    pub text_mode: Option<bool>,
    /// Update interval in seconds.
    pub tick: Option<u32>,
    pub placeholder: Option<String>,
    pub label: Option<String>,
    pub format: Option<String>,
}

/// The placeholder that `config` gives this module.
pub open spec fn placeholder_of(config: &MainConfig) -> Seq<char> {
    match config.weather {
        Some(c) => text_or(c.placeholder, PLACEHOLDER@),
        None => PLACEHOLDER@,
    }
}

/// The output format that `config` gives this module.
pub open spec fn format_of(config: &MainConfig) -> Seq<char> {
    match config.weather {
        Some(c) => text_or(c.format, FORMAT@),
        None => FORMAT@,
    }
}

#[derive(Debug)]
pub struct Weather<'a> {
    placeholder: &'a str,
    format: &'a str,
}

impl<'a> Weather<'a> {
    /// The module as `config` describes it: its own placeholder and
    /// format where the configuration gives them, the defaults elsewhere.
    pub fn with_config(config: &'a MainConfig) -> (r: Self)
        ensures
            r.placeholder_text() == placeholder_of(config),
            r.format_text() == format_of(config),
    {
        let mut placeholder = PLACEHOLDER;
        let mut format = FORMAT;
        if let Some(c) = &config.weather {
            placeholder = str_or(&c.placeholder, PLACEHOLDER);
            format = str_or(&c.format, FORMAT);
        }
        Weather { placeholder, format }
    }
}

impl<'a> Bar for Weather<'a> {
    open spec fn name_text(&self) -> Seq<char> {
        "weather"@
    }

    closed spec fn placeholder_text(&self) -> Seq<char> {
        self.placeholder@
    }

    closed spec fn format_text(&self) -> Seq<char> {
        self.format@
    }

    fn name(&self) -> (r: &str)
        ensures
            r@ == "weather"@,
    {
        "weather"
    }

    fn placeholder(&self) -> (r: &str)
        ensures
            r@ == self.placeholder_text(),
    {
        self.placeholder
    }

    fn format(&self) -> (r: &str)
        ensures
            r@ == self.format_text(),
    {
        self.format
    }
}

impl WeatherIcons {
    /// The icons of the condition with this code: those of a clear sky
    /// for a code that stands for no condition.
    pub open spec fn icon_of(self, code: u32) -> Option<IconSet> {
        if code == 2 {
            self.partly_cloudy
        } else if code == 3 {
            self.cloudy
        } else if code == 4 {
            self.very_cloudy
        } else if code == 9 {
            self.shower_rain
        } else if code == 10 {
            self.rain
        } else if code == 11 {
            self.thunderstorm
        } else if code == 13 {
            self.snow
        } else if code == 50 {
            self.mist
        } else {
            self.clear_sky
        }
    }

    /// The icons of the condition with this code.
    pub fn icon(&self, code: u32) -> (r: &Option<IconSet>)
        ensures
            *r == self.icon_of(code),
    {
        match code {
            1 => &self.clear_sky,
            2 => &self.partly_cloudy,
            3 => &self.cloudy,
            4 => &self.very_cloudy,
            9 => &self.shower_rain,
            10 => &self.rain,
            11 => &self.thunderstorm,
            13 => &self.snow,
            50 => &self.mist,
            _ => &self.clear_sky,
        }
    }
}

impl Unit {
    /// The name of the unit in a request to the weather service.
    pub open spec fn api_text(self) -> Seq<char> {
        match self {
            Unit::Standard => "standard"@,
            Unit::Metric => "metric"@,
            Unit::Imperial => "imperial"@,
        }
    }

    /// The sign that follows a temperature in the unit.
    pub open spec fn symbol_text(self) -> Seq<char> {
        match self {
            Unit::Standard => "K"@,
            Unit::Metric => "°"@,
            Unit::Imperial => "°"@,
        }
    }

    /// The name of the unit in a request to the weather service.
    pub fn to_api(&self) -> (r: &'static str)
        ensures
            r@ == self.api_text(),
    {
        match self {
            Unit::Standard => "standard",
            Unit::Metric => "metric",
            Unit::Imperial => "imperial",
        }
    }

    /// The sign that follows a temperature in the unit.
    pub fn temp_symbol(&self) -> (r: &'static str)
        ensures
            r@ == self.symbol_text(),
    {
        match self {
            Unit::Standard => "K",
            Unit::Metric => "°",
            Unit::Imperial => "°",
        }
    }
}

/// What the module works with: the configuration with its gaps filled
/// by the defaults.
#[derive(Debug)]
pub struct InternalConfig<'a> {
    pub location: Location,
    pub api_key: String,
    pub unit: Unit,
    pub lang: Option<&'a str>,
    pub icons: Option<&'a WeatherIcons>,
    /// Whether the condition is shown as text, not as an icon.
    pub text_mode: bool,
    /// The time between two readings, in milliseconds.
    pub tick: u64,
    pub label: &'a str,
}

/// A location as the weather service is asked for it.
pub open spec fn location_text(location: Location) -> Seq<char> {
    match location {
        Location::City(city) => "q="@ + city@,
        Location::Coordinates(coord) => "lat="@ + coord.lat@ + "&lon="@ + coord.lon@,
    }
}

/// A copy of the location.
fn copy_location(location: &Location) -> (r: Location)
    ensures
        r == *location,
{
    match location {
        Location::City(city) => Location::City(city.clone()),
        Location::Coordinates(coord) => Location::Coordinates(
            Coord { lat: coord.lat.clone(), lon: coord.lon.clone() },
        ),
    }
}

impl<'a> InternalConfig<'a> {
    /// The language of the module, if it has one.
    pub open spec fn lang_text(&self) -> Option<Seq<char>> {
        match self.lang {
            Some(l) => Some(l@),
            None => None,
        }
    }

    /// The icons of the module, if it has them.
    pub open spec fn icons_of(&self) -> Option<WeatherIcons> {
        match self.icons {
            Some(i) => Some(*i),
            None => None,
        }
    }

    /// What the module works with, from the configuration. A
    /// configuration without a section for the module gives the
    /// defaults: the default location, no key, and the condition as
    /// text. The condition is shown as text where the configuration has
    /// no icons or asks for text.
    pub fn try_from(config: &'a MainConfig) -> (r: Result<Self, Error>)
        ensures
            r is Ok,
            match config.weather {
                Some(c) => {
                    &&& r->Ok_0.location == c.location
                    &&& r->Ok_0.api_key == c.api_key
                    &&& r->Ok_0.unit == match c.unit {
                        Some(u) => u,
                        None => Unit::Metric,
                    }
                    &&& r->Ok_0.lang_text() == opt_text(c.lang)
                    &&& r->Ok_0.icons_of() == c.icons
                    &&& r->Ok_0.text_mode == (c.icons is None || c.text_mode == Some(true))
                    &&& r->Ok_0.tick == match c.tick {
                        Some(t) => t * 1000,
                        None => TICK_RATE as int,
                    }
                    &&& r->Ok_0.label@ == text_or(c.label, LABEL@)
                },
                None => {
                    &&& location_text(r->Ok_0.location) == "lat="@ + DEFAULT_LAT@ + "&lon="@
                        + DEFAULT_LON@
                    &&& r->Ok_0.api_key@ == Seq::<char>::empty()
                    &&& r->Ok_0.unit == Unit::Metric
                    &&& r->Ok_0.lang is None
                    &&& r->Ok_0.icons is None
                    &&& r->Ok_0.text_mode
                    &&& r->Ok_0.tick == TICK_RATE
                    &&& r->Ok_0.label@ == LABEL@
                },
            },
    {
        match &config.weather {
            Some(c) => Ok(
                InternalConfig {
                    location: copy_location(&c.location),
                    api_key: c.api_key.clone(),
                    unit: match c.unit {
                        Some(u) => u,
                        None => Unit::Metric,
                    },
                    lang: match &c.lang {
                        Some(l) => Some(l.as_str()),
                        None => None,
                    },
                    icons: match &c.icons {
                        Some(i) => Some(i),
                        None => None,
                    },
                    text_mode: c.icons.is_none() || match c.text_mode {
                        Some(b) => b,
                        None => false,
                    },
                    tick: match c.tick {
                        Some(t) => (t as u64) * 1000,
                        None => TICK_RATE,
                    },
                    label: str_or(&c.label, LABEL),
                },
            ),
            None => Ok(
                InternalConfig {
                    location: Location::Coordinates(
                        Coord {
                            lat: String::from_str(DEFAULT_LAT),
                            lon: String::from_str(DEFAULT_LON),
                        },
                    ),
                    api_key: String::new(),
                    unit: Unit::Metric,
                    lang: None,
                    icons: None,
                    text_mode: true,
                    tick: TICK_RATE,
                    label: LABEL,
                },
            ),
        }
    }
}

/// The address at which the weather service is asked: the location,
/// the unit and the key, and the language where there is one.
pub open spec fn url_of(config: InternalConfig) -> Seq<char> {
    OPENWEATHER_API@ + "?"@ + location_text(config.location) + "&units="@
        + config.unit.api_text() + "&appid="@ + config.api_key@ + match config.lang {
        Some(lang) => "&lang="@ + lang@,
        None => Seq::empty(),
    }
}

/// The address at which the weather service is asked.
pub fn build_url(config: &InternalConfig) -> (r: String)
    ensures
        r@ == url_of(*config),
{
    let mut url = String::from_str(OPENWEATHER_API);
    url.append("?");
    match &config.location {
        Location::City(city) => {
            url.append("q=");
            url.append(city.as_str());
        },
        Location::Coordinates(coord) => {
            url.append("lat=");
            url.append(coord.lat.as_str());
            url.append("&lon=");
            url.append(coord.lon.as_str());
        },
    }
    url.append("&units=");
    url.append(config.unit.to_api());
    url.append("&appid=");
    url.append(config.api_key.as_str());
    if let Some(lang) = config.lang {
        url.append("&lang=");
        url.append(lang);
    }
    assert(url@ =~= url_of(*config));
    url
}

/// The code of the condition in the name of an icon: the number that
/// the first two characters of the name denote, or the unknown code
/// where they denote none.
pub open spec fn code_of(icon: Seq<char>) -> u32 {
    let head = if icon.len() >= 2 {
        icon.take(2)
    } else {
        icon
    };
    match parsed_u32(head) {
        Ok(v) => v as u32,
        Err(_) => UNKNOWN_CODE,
    }
}

/// Reads the code of the condition in the name of an icon.
pub fn icon_code(icon: &str) -> (r: u32)
    ensures
        r == code_of(icon@),
{
    let chars = chars_of(icon);
    let end = if chars.len() >= 2 {
        2
    } else {
        chars.len()
    };
    let head = substring(&chars, 0, end);
    assert(chars@.subrange(0, end as int) =~= if icon@.len() >= 2 {
        icon@.take(2)
    } else {
        icon@
    });
    match parse_u32(head.as_str()) {
        Ok(v) => v,
        Err(_) => UNKNOWN_CODE,
    }
}

/// Whether the name of an icon is that of a day: it ends in `d`.
pub open spec fn is_day(icon: Seq<char>) -> bool {
    icon.len() > 0 && icon.last() == 'd'
}

/// The icon shown for the icon name that the weather service gives:
/// the configured icon of the name's condition, by day or by night
/// where the configuration has both, or the default icon where the
/// configuration has none for the condition.
pub open spec fn icon_for(icon: Seq<char>, icons: WeatherIcons) -> Seq<char> {
    match icons.icon_of(code_of(icon)) {
        None => text_or(icons.default, DEFAULT_W_ICON@),
        Some(IconSet::DayOnly(i)) => i@,
        Some(IconSet::DayAndNight(day, night)) => if is_day(icon) {
            day@
        } else {
            night@
        },
    }
}

/// The icon shown for the icon name that the weather service gives.
pub fn get_icon<'i>(icon: &str, icons: &'i WeatherIcons) -> (r: &'i str)
    ensures
        r@ == icon_for(icon@, *icons),
{
    let default = str_or(&icons.default, DEFAULT_W_ICON);
    let code = icon_code(icon);
    match icons.icon(code) {
        None => default,
        Some(IconSet::DayOnly(i)) => i.as_str(),
        Some(IconSet::DayAndNight(day, night)) => {
            let chars = chars_of(icon);
            if chars.len() > 0 && chars[chars.len() - 1] == 'd' {
                day.as_str()
            } else {
                night.as_str()
            }
        },
    }
}

/// The condition that the weather service reports.
#[derive(Debug, Clone)]
pub struct WeatherData {
    pub description: String,
    pub icon: String,
}

/// The text shown for a report of the weather service: the condition,
/// a space, the temperature and the sign of its unit. The condition is
/// its description (`N/A` where the report has none) in text mode, and
/// else its icon.
pub open spec fn output_of(temp: u32, data: Option<WeatherData>, config: InternalConfig) -> Seq<
    char,
> {
    let condition = if config.text_mode {
        match data {
            Some(w) => w.description@,
            None => "N/A"@,
        }
    } else {
        match config.icons {
            Some(icons) => icon_for(
                match data {
                    Some(w) => w.icon@,
                    None => DEFAULT_W_ICON@,
                },
                *icons,
            ),
            None => DEFAULT_W_ICON@,
        }
    };
    condition + " "@ + decimal(temp as nat) + config.unit.symbol_text()
}

/// The text shown for a report of the weather service: `temp` is the
/// temperature, rounded, and `data` is the first condition of the
/// report, if it has one.
pub fn get_output(temp: u32, data: Option<&WeatherData>, config: &InternalConfig) -> (r: String)
    ensures
        r@ == output_of(
            temp,
            match data {
                Some(w) => Some(*w),
                None => None,
            },
            *config,
        ),
{
    let condition = if config.text_mode {
        match data {
            Some(w) => w.description.as_str(),
            None => "N/A",
        }
    } else {
        let icon_code = match data {
            Some(w) => w.icon.as_str(),
            None => DEFAULT_W_ICON,
        };
        match config.icons {
            Some(icons) => get_icon(icon_code, icons),
            None => DEFAULT_W_ICON,
        }
    };
    let mut out = String::from_str(condition);
    out.append(" ");
    push_decimal(&mut out, temp as u64);
    out.append(config.unit.temp_symbol());
    out
}

/// The message that the module sends for a report of the weather
/// service: the text of the report is the value.
pub fn message(key: char, text: String, config: &InternalConfig) -> (r: ModuleMsg)
    ensures
        r@ == (MsgView { key, value: Some(text@), label: Some(config.label@) }),
{
    ModuleMsg(key, Some(text), Some(String::from_str(config.label)))
}

} // verus!
