//! Modules as the bar sees them: what every module offers, the
//! registry that maps a key to its module, and the cell in which the
//! bar keeps the latest output and the lifecycle state of one module.

use crate::error::Error;
use crate::modules::battery::Battery;
use crate::modules::brightness::Brightness;
use crate::modules::cpu_freq::CpuFreq;
use crate::modules::cpu_usage::CpuUsage;
use crate::modules::date_time::DateTime;
use crate::modules::memory::Memory;
use crate::modules::mic::Mic;
use crate::modules::sound::Sound;
use crate::modules::temperature::Temperature;
use crate::modules::weather::Weather;
use crate::modules::wired::Wired;
use crate::modules::wireless::Wireless;
use crate::modules::{
    battery, brightness, cpu_freq, cpu_usage, date_time, memory, mic, sound, temperature, weather,
    wired, wireless,
};
use crate::text::{chars_of, text_or};
use crate::Config;
use vstd::prelude::*;
use vstd::string::StringExecFns;

verus! {

/// The icon shown for a failed module where the configuration names none.
pub const MODULE_FAILED_ICON: &'static str = "✗";

/// What every module offers to the bar.
pub trait Bar {
    /// The name of the module.
    spec fn name_text(&self) -> Seq<char>;

    /// The text shown until the module has sent its first message.
    spec fn placeholder_text(&self) -> Seq<char>;

    /// The output format, in which `%v` stands for the value and `%l`
    /// for the label of a message.
    spec fn format_text(&self) -> Seq<char>;

    fn name(&self) -> (r: &str)
        ensures
            r@ == self.name_text(),
    ;

    fn placeholder(&self) -> (r: &str)
        ensures
            r@ == self.placeholder_text(),
    ;

    fn format(&self) -> (r: &str)
        ensures
            r@ == self.format_text(),
    ;
}

#[derive(Debug)]
pub enum Module<'a> {
    Battery(Battery<'a>),
    Brightness(Brightness<'a>),
    Cpu(CpuUsage<'a>),
    CpuFreq(CpuFreq<'a>),
    DateTime(DateTime<'a>),
    Memory(Memory<'a>),
    Mic(Mic<'a>),
    Wired(Wired<'a>),
    Sound(Sound<'a>),
    Temperature(Temperature<'a>),
    Wireless(Wireless<'a>),
    Weather(Weather<'a>),
}

/// Whether `key` is the key of a module.
pub open spec fn is_module_key(key: char) -> bool {
    key == 'a' || key == 'b' || key == 'c' || key == 'd' || key == 'e' || key == 'f' || key == 'i'
        || key == 'm' || key == 'r' || key == 's' || key == 't' || key == 'w'
}

/// Tells whether `key` is the key of a module.
pub fn is_key(key: char) -> (b: bool)
    ensures
        b == is_module_key(key),
{
    key == 'a' || key == 'b' || key == 'c' || key == 'd' || key == 'e' || key == 'f' || key == 'i'
        || key == 'm' || key == 'r' || key == 's' || key == 't' || key == 'w'
}

/// Whether `module` is the module that `key` stands for.
pub open spec fn is_module_of(key: char, module: Module) -> bool {
    if key == 'a' {
        module is Battery
    } else if key == 'b' {
        module is Brightness
    } else if key == 'c' {
        module is Cpu
    } else if key == 'd' {
        module is DateTime
    } else if key == 'e' {
        module is Wired
    } else if key == 'f' {
        module is CpuFreq
    } else if key == 'i' {
        module is Mic
    } else if key == 'm' {
        module is Memory
    } else if key == 'r' {
        module is Weather
    } else if key == 's' {
        module is Sound
    } else if key == 't' {
        module is Temperature
    } else if key == 'w' {
        module is Wireless
    } else {
        false
    }
}

/// The name of the module that `key` stands for.
pub open spec fn name_for(key: char) -> Seq<char> {
    if key == 'a' {
        "battery"@
    } else if key == 'b' {
        "brightness"@
    } else if key == 'c' {
        "cpu_usage"@
    } else if key == 'd' {
        "date_time"@
    } else if key == 'e' {
        "wired"@
    } else if key == 'f' {
        "cpu_freq"@
    } else if key == 'i' {
        "mic"@
    } else if key == 'm' {
        "memory"@
    } else if key == 'r' {
        "weather"@
    } else if key == 's' {
        "sound"@
    } else if key == 't' {
        "temperature"@
    } else {
        "wireless"@
    }
}

/// The placeholder that `config` gives the module that `key` stands for.
pub open spec fn placeholder_for(key: char, config: &Config) -> Seq<char> {
    if key == 'a' {
        battery::placeholder_of(config)
    } else if key == 'b' {
        brightness::placeholder_of(config)
    } else if key == 'c' {
        cpu_usage::placeholder_of(config)
    } else if key == 'd' {
        date_time::placeholder_of(config)
    } else if key == 'e' {
        wired::placeholder_of(config)
    } else if key == 'f' {
        cpu_freq::placeholder_of(config)
    } else if key == 'i' {
        mic::placeholder_of(config)
    } else if key == 'm' {
        memory::placeholder_of(config)
    } else if key == 'r' {
        weather::placeholder_of(config)
    } else if key == 's' {
        sound::placeholder_of(config)
    } else if key == 't' {
        temperature::placeholder_of(config)
    } else {
        wireless::placeholder_of(config)
    }
}

/// The output format that `config` gives the module that `key` stands for.
pub open spec fn format_for(key: char, config: &Config) -> Seq<char> {
    if key == 'a' {
        battery::format_of(config)
    } else if key == 'b' {
        brightness::format_of(config)
    } else if key == 'c' {
        cpu_usage::format_of(config)
    } else if key == 'd' {
        date_time::format_of(config)
    } else if key == 'e' {
        wired::format_of(config)
    } else if key == 'f' {
        cpu_freq::format_of(config)
    } else if key == 'i' {
        mic::format_of(config)
    } else if key == 'm' {
        memory::format_of(config)
    } else if key == 'r' {
        weather::format_of(config)
    } else if key == 's' {
        sound::format_of(config)
    } else if key == 't' {
        temperature::format_of(config)
    } else {
        wireless::format_of(config)
    }
}

/// The message of the error for a key that stands for no module.
pub open spec fn unknown_markup(key: char) -> Seq<char> {
    "unknown markup \""@ + seq![key, '"']
}

impl<'a> Module<'a> {
    /// The module that `key` stands for, as `config` describes it. A
    /// key that stands for no module is an error that names the key.
    pub fn try_from(key: char, config: &'a Config) -> (r: Result<Module<'a>, Error>)
        ensures
            r is Ok <==> is_module_key(key),
            r matches Ok(m) ==> {
                &&& is_module_of(key, m)
                &&& m.name_text() == name_for(key)
                &&& m.placeholder_text() == placeholder_for(key, config)
                &&& m.format_text() == format_for(key, config)
            },
            r matches Err(e) ==> e@ == unknown_markup(key),
    {
        match key {
            'a' => Ok(Module::Battery(Battery::with_config(config))),
            'b' => Ok(Module::Brightness(Brightness::with_config(config))),
            'c' => Ok(Module::Cpu(CpuUsage::with_config(config))),
            'd' => Ok(Module::DateTime(DateTime::with_config(config))),
            'e' => Ok(Module::Wired(Wired::with_config(config))),
            'f' => Ok(Module::CpuFreq(CpuFreq::with_config(config))),
            'i' => Ok(Module::Mic(Mic::with_config(config))),
            'm' => Ok(Module::Memory(Memory::with_config(config))),
            'r' => Ok(Module::Weather(Weather::with_config(config))),
            's' => Ok(Module::Sound(Sound::with_config(config))),
            't' => Ok(Module::Temperature(Temperature::with_config(config))),
            'w' => Ok(Module::Wireless(Wireless::with_config(config))),
            _ => {
                let mut message = String::from_str("unknown markup \"");
                message.push(key);
                message.push('"');
                assert(message@ =~= unknown_markup(key));
                Err(Error::new(message))
            },
        }
    }
}

impl<'a> Bar for Module<'a> {
    open spec fn name_text(&self) -> Seq<char> {
        match self {
            Module::Battery(m) => m.name_text(),
            Module::Brightness(m) => m.name_text(),
            Module::Cpu(m) => m.name_text(),
            Module::CpuFreq(m) => m.name_text(),
            Module::DateTime(m) => m.name_text(),
            Module::Memory(m) => m.name_text(),
            Module::Mic(m) => m.name_text(),
            Module::Wired(m) => m.name_text(),
            Module::Sound(m) => m.name_text(),
            Module::Temperature(m) => m.name_text(),
            Module::Weather(m) => m.name_text(),
            Module::Wireless(m) => m.name_text(),
        }
    }

    open spec fn placeholder_text(&self) -> Seq<char> {
        match self {
            Module::Battery(m) => m.placeholder_text(),
            Module::Brightness(m) => m.placeholder_text(),
            Module::Cpu(m) => m.placeholder_text(),
            Module::CpuFreq(m) => m.placeholder_text(),
            Module::DateTime(m) => m.placeholder_text(),
            Module::Memory(m) => m.placeholder_text(),
            Module::Wired(m) => m.placeholder_text(),
            Module::Mic(m) => m.placeholder_text(),
            Module::Sound(m) => m.placeholder_text(),
            Module::Temperature(m) => m.placeholder_text(),
            Module::Weather(m) => m.placeholder_text(),
            Module::Wireless(m) => m.placeholder_text(),
        }
    }

    open spec fn format_text(&self) -> Seq<char> {
        match self {
            Module::Battery(m) => m.format_text(),
            Module::Brightness(m) => m.format_text(),
            Module::Cpu(m) => m.format_text(),
            Module::CpuFreq(m) => m.format_text(),
            Module::DateTime(m) => m.format_text(),
            Module::Memory(m) => m.format_text(),
            Module::Wired(m) => m.format_text(),
            Module::Mic(m) => m.format_text(),
            Module::Sound(m) => m.format_text(),
            Module::Temperature(m) => m.format_text(),
            Module::Weather(m) => m.format_text(),
            Module::Wireless(m) => m.format_text(),
        }
    }

    fn name(&self) -> (r: &str)
        ensures
            r@ == self.name_text(),
    {
        match self {
            Module::Battery(m) => m.name(),
            Module::Brightness(m) => m.name(),
            Module::Cpu(m) => m.name(),
            Module::CpuFreq(m) => m.name(),
            Module::DateTime(m) => m.name(),
            Module::Memory(m) => m.name(),
            Module::Mic(m) => m.name(),
            Module::Wired(m) => m.name(),
            Module::Sound(m) => m.name(),
            Module::Temperature(m) => m.name(),
            Module::Weather(m) => m.name(),
            Module::Wireless(m) => m.name(),
        }
    }

    fn placeholder(&self) -> (r: &str)
        ensures
            r@ == self.placeholder_text(),
    {
        match self {
            Module::Battery(m) => m.placeholder(),
            Module::Brightness(m) => m.placeholder(),
            Module::Cpu(m) => m.placeholder(),
            Module::CpuFreq(m) => m.placeholder(),
            Module::DateTime(m) => m.placeholder(),
            Module::Memory(m) => m.placeholder(),
            Module::Wired(m) => m.placeholder(),
            Module::Mic(m) => m.placeholder(),
            Module::Sound(m) => m.placeholder(),
            Module::Temperature(m) => m.placeholder(),
            Module::Weather(m) => m.placeholder(),
            Module::Wireless(m) => m.placeholder(),
        }
    }

    fn format(&self) -> (r: &str)
        ensures
            r@ == self.format_text(),
    {
        match self {
            Module::Battery(m) => m.format(),
            Module::Brightness(m) => m.format(),
            Module::Cpu(m) => m.format(),
            Module::CpuFreq(m) => m.format(),
            Module::DateTime(m) => m.format(),
            Module::Memory(m) => m.format(),
            Module::Wired(m) => m.format(),
            Module::Mic(m) => m.format(),
            Module::Sound(m) => m.format(),
            Module::Temperature(m) => m.format(),
            Module::Weather(m) => m.format(),
            Module::Wireless(m) => m.format(),
        }
    }
}

/// Where a module stands in its life. `Finished` and `Failed` are final.
#[derive(Debug, Clone, Copy, PartialEq, Eq)]
pub enum ModuleState {
    NotStarted,
    Running,
    /// The module's run function returned without errors.
    Finished,
    /// The module's run function returned an error or panicked.
    Failed,
}

/// How the thread of a module ended.
#[derive(Debug, Clone, Copy, PartialEq, Eq)]
pub enum ModuleExit {
    /// The run function returned without errors.
    Returned,
    /// The run function returned an error.
    Failed,
    /// The run function panicked.
    Panicked,
}

/// What the bar knows of one module.
pub struct CellView {
    pub key: char,
    pub name: Seq<char>,
    pub placeholder: Seq<char>,
    pub format: Seq<char>,
    /// The text made from the latest message, if one has arrived.
    pub data: Option<Seq<char>>,
    pub state: ModuleState,
    /// The text shown once the module has failed.
    pub failed_placeholder: Seq<char>,
}

/// The text of an optional part of a message: empty where it is absent.
pub open spec fn part(text: Option<Seq<char>>) -> Seq<char> {
    match text {
        Some(t) => t,
        None => Seq::empty(),
    }
}

/// Whether the two characters `%` and `mark` stand at the start of
/// `format`.
pub open spec fn starts_with_mark(format: Seq<char>, mark: char) -> bool {
    format.len() >= 2 && format[0] == '%' && format[1] == mark
}

/// The output made from a message: `format` read from left to right,
/// with each `%v` replaced by the value and each `%l` by the label.
/// What is put in is not read again: a `%l` inside the value stays as
/// it is.
pub open spec fn fragment(
    format: Seq<char>,
    value: Option<Seq<char>>,
    label: Option<Seq<char>>,
) -> Seq<char>
    decreases format.len(),
{
    if format.len() == 0 {
        Seq::empty()
    } else if starts_with_mark(format, 'v') {
        part(value) + fragment(format.skip(2), value, label)
    } else if starts_with_mark(format, 'l') {
        part(label) + fragment(format.skip(2), value, label)
    } else {
        seq![format[0]] + fragment(format.skip(1), value, label)
    }
}

/// Fills a value and a label into a format.
pub fn fill(format: &str, value: Option<&str>, label: Option<&str>) -> (r: String)
    ensures
        r@ == fragment(
            format@,
            match value {
                Some(v) => Some(v@),
                None => None,
            },
            match label {
                Some(l) => Some(l@),
                None => None,
            },
        ),
{
    let ghost v = match value {
        Some(v) => Some(v@),
        None => None,
    };
    let ghost l = match label {
        Some(l) => Some(l@),
        None => None,
    };
    let chars = chars_of(format);
    let n = chars.len();
    let mut out = String::new();
    let mut i: usize = 0;
    assert(format@.skip(0) =~= format@);
    assert(out@ + fragment(format@, v, l) =~= fragment(format@, v, l));
    while i < n
        invariant
            i <= n,
            n == chars@.len(),
            chars@ == format@,
            v == match value {
                Some(v) => Some(v@),
                None => None,
            },
            l == match label {
                Some(l) => Some(l@),
                None => None,
            },
            out@ + fragment(format@.skip(i as int), v, l) == fragment(format@, v, l),
        decreases n - i,
    {
        let ghost rest = format@.skip(i as int);
        let ghost before = out@;
        assert(rest[0] == chars@[i as int]);
        if chars[i] == '%' && i + 1 < n && chars[i + 1] == 'v' {
            assert(rest[1] == chars@[i + 1]);
            if let Some(text) = value {
                out.append(text);
            }
            assert(rest.skip(2) =~= format@.skip(i + 2));
            assert(out@ + fragment(rest.skip(2), v, l) =~= before + fragment(rest, v, l));
            i += 2;
        } else if chars[i] == '%' && i + 1 < n && chars[i + 1] == 'l' {
            assert(rest[1] == chars@[i + 1]);
            if let Some(text) = label {
                out.append(text);
            }
            assert(rest.skip(2) =~= format@.skip(i + 2));
            assert(out@ + fragment(rest.skip(2), v, l) =~= before + fragment(rest, v, l));
            i += 2;
        } else {
            if i + 1 < n {
                assert(rest[1] == chars@[i + 1]);
            }
            out.push(chars[i]);
            assert(rest.skip(1) =~= format@.skip(i + 1));
            assert(out@ + fragment(rest.skip(1), v, l) =~= before + fragment(rest, v, l));
            i += 1;
        }
    }
    assert(format@.skip(n as int).len() == 0);
    assert(out@ =~= fragment(format@, v, l));
    out
}

/// The text shown for a failed module: its key, a colon and the icon.
pub open spec fn failed_text(key: char, icon: Seq<char>) -> Seq<char> {
    seq![key, ':'] + icon
}

impl CellView {
    /// The cell of the module that `key` stands for in `config`, before
    /// the module has started.
    pub open spec fn fresh(key: char, config: &Config) -> CellView {
        CellView {
            key,
            name: name_for(key),
            placeholder: placeholder_for(key, config),
            format: format_for(key, config),
            data: None,
            state: ModuleState::NotStarted,
            failed_placeholder: failed_text(key, text_or(config.failed_icon, MODULE_FAILED_ICON@)),
        }
    }

    /// What the cell shows: the failure text once the module has
    /// failed, else the latest output, else the placeholder.
    pub open spec fn output(self) -> Seq<char> {
        if self.state is Failed {
            self.failed_placeholder
        } else {
            match self.data {
                Some(d) => d,
                None => self.placeholder,
            }
        }
    }

    /// The cell after a message with this value and label.
    pub open spec fn with_message(
        self,
        value: Option<Seq<char>>,
        label: Option<Seq<char>>,
    ) -> CellView {
        CellView { data: Some(fragment(self.format, value, label)), ..self }
    }

    /// The cell once its module's thread has been started: a cell not
    /// yet started is running, and a cell that was started before is
    /// as it was. A finished or failed cell stays so.
    pub open spec fn started(self) -> CellView {
        if self.state is NotStarted {
            CellView { state: ModuleState::Running, ..self }
        } else {
            self
        }
    }

    /// The cell after its module's thread has been polled: a running
    /// module whose thread has ended is finished or failed, and nothing
    /// else changes.
    pub open spec fn polled(self, exit: Option<ModuleExit>) -> CellView {
        if self.state is Running {
            match exit {
                Some(ModuleExit::Returned) => CellView { state: ModuleState::Finished, ..self },
                Some(_) => CellView { state: ModuleState::Failed, ..self },
                None => self,
            }
        } else {
            self
        }
    }
}

/// The state that the bar keeps for one module.
#[derive(Debug)]
pub struct ModuleData<'a> {
    key: char,
    module: Module<'a>,
    data: Option<String>,
    state: ModuleState,
    failed_placeholder: String,
}

impl<'a> View for ModuleData<'a> {
    type V = CellView;

    closed spec fn view(&self) -> CellView {
        CellView {
            key: self.key,
            name: self.module.name_text(),
            placeholder: self.module.placeholder_text(),
            format: self.module.format_text(),
            data: match self.data {
                Some(d) => Some(d@),
                None => None,
            },
            state: self.state,
            failed_placeholder: self.failed_placeholder@,
        }
    }
}

impl<'a> ModuleData<'a> {
    /// The cell of the module that `key` stands for: not started, and
    /// with no output yet. A key that stands for no module is an error.
    pub fn new(key: char, config: &'a Config) -> (r: Result<ModuleData<'a>, Error>)
        ensures
            r is Ok <==> is_module_key(key),
            r matches Ok(cell) ==> cell@ == CellView::fresh(key, config),
            r matches Err(e) ==> e@ == unknown_markup(key),
    {
        let module = match Module::try_from(key, config) {
            Ok(m) => m,
            Err(e) => {
                return Err(e);
            },
        };
        let mut failed_placeholder = String::new();
        failed_placeholder.push(key);
        failed_placeholder.push(':');
        match &config.failed_icon {
            Some(icon) => failed_placeholder.append(icon.as_str()),
            None => failed_placeholder.append(MODULE_FAILED_ICON),
        }
        assert(failed_placeholder@ =~= failed_text(
            key,
            text_or(config.failed_icon, MODULE_FAILED_ICON@),
        ));
        Ok(
            ModuleData {
                key,
                module,
                data: None,
                state: ModuleState::NotStarted,
                failed_placeholder,
            },
        )
    }

    /// Takes a message of the module: the output becomes the module's
    /// format with the value put in place of each `%v` and the label in
    /// place of each `%l`. An absent value or label counts as empty.
    /// The earlier output is dropped.
    pub fn new_data(&mut self, value: Option<&str>, label: Option<&str>)
        ensures
            final(self)@ == old(self)@.with_message(
                match value {
                    Some(v) => Some(v@),
                    None => None,
                },
                match label {
                    Some(l) => Some(l@),
                    None => None,
                },
            ),
    {
        self.data = Some(fill(self.module.format(), value, label));
    }

    /// What the cell shows.
    pub fn output(&self) -> (r: &str)
        ensures
            r@ == self@.output(),
    {
        match self.state {
            ModuleState::Failed => self.failed_placeholder.as_str(),
            _ => match &self.data {
                Some(data) => data.as_str(),
                None => self.module.placeholder(),
            },
        }
    }

    /// Records that the module's thread has been started. Nothing
    /// changes in a cell that was started before.
    pub fn start(&mut self)
        ensures
            final(self)@ == old(self)@.started(),
    {
        match self.state {
            ModuleState::NotStarted => {
                self.state = ModuleState::Running;
            },
            _ => {},
        }
    }

    /// Takes the result of polling the module's thread: `None` while
    /// the thread runs, and how it ended once it has.
    pub fn update_state(&mut self, exit: Option<ModuleExit>)
        ensures
            final(self)@ == old(self)@.polled(exit),
    {
        match self.state {
            ModuleState::Running => match exit {
                Some(ModuleExit::Returned) => {
                    self.state = ModuleState::Finished;
                },
                Some(_) => {
                    self.state = ModuleState::Failed;
                },
                None => {},
            },
            _ => {},
        }
    }

    /// The key of the cell's module.
    pub fn key(&self) -> (k: char)
        ensures
            k == self@.key,
    {
        self.key
    }

    /// The cell's module.
    pub fn module(&self) -> (r: &Module<'a>)
        ensures
            r.name_text() == self@.name,
            r.placeholder_text() == self@.placeholder,
            r.format_text() == self@.format,
    {
        &self.module
    }

    /// The name of the cell's module.
    pub fn name(&self) -> (r: &str)
        ensures
            r@ == self@.name,
    {
        self.module.name()
    }

    /// The output format of the cell's module.
    pub fn format(&self) -> (r: &str)
        ensures
            r@ == self@.format,
    {
        self.module.format()
    }

    /// The placeholder of the cell's module.
    pub fn placeholder(&self) -> (r: &str)
        ensures
            r@ == self@.placeholder,
    {
        self.module.placeholder()
    }

    /// The text that the cell shows once its module has failed.
    pub fn failed_placeholder(&self) -> (r: &str)
        ensures
            r@ == self@.failed_placeholder,
    {
        self.failed_placeholder.as_str()
    }

    /// Where the module stands in its life.
    pub fn state(&self) -> (s: ModuleState)
        ensures
            s == self@.state,
    {
        self.state
    }
}

} // verus!
