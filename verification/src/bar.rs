//! The bar: the cells of the template's markers, the messages that
//! reach them, and the line that they make.

use crate::error::Error;
use crate::markup::{markers, scan_format, Marker};
use crate::module::{
    is_key, is_module_key, unknown_markup, CellView, ModuleData, ModuleExit,
};
use crate::render::{
    last_missing, lemma_markers_well_placed, module_not_found, render, rendered, shown_at, views,
    well_placed,
};
use crate::text::opt_text;
use crate::{Config, ModuleMsg};
use vstd::prelude::*;
use vstd::string::StringExecFns;

verus! {

broadcast use vstd::seq::group_seq_axioms;

/// The latest of the messages with this key, if there is one.
pub open spec fn latest_for(messages: Seq<ModuleMsg>, key: char) -> Option<ModuleMsg>
    decreases messages.len(),
{
    if messages.len() == 0 {
        None
    } else if messages.last().0 == key {
        Some(messages.last())
    } else {
        latest_for(messages.drop_last(), key)
    }
}

/// How the thread of the cell at position `i` ended, if it has ended
/// and `exits` says so.
pub open spec fn exit_at(exits: Seq<Option<ModuleExit>>, i: int) -> Option<ModuleExit> {
    if 0 <= i < exits.len() {
        exits[i]
    } else {
        None
    }
}

/// A cell after one tick of the bar: its thread has been polled, and
/// the latest of the messages with its key, if there is one, has been
/// taken. Earlier messages with its key have no effect.
pub open spec fn stepped(
    cell: CellView,
    exit: Option<ModuleExit>,
    messages: Seq<ModuleMsg>,
) -> CellView {
    let polled = cell.polled(exit);
    match latest_for(messages, cell.key) {
        Some(m) => polled.with_message(opt_text(m.1), opt_text(m.2)),
        None => polled,
    }
}

/// Whether one of the cells has this key.
pub open spec fn has_cell(cells: Seq<CellView>, key: char) -> bool {
    exists|i: int| 0 <= i < cells.len() && (#[trigger] cells[i]).key == key
}

/// The key of the first of the messages whose key no cell has, if
/// there is such a message.
pub open spec fn first_stray(messages: Seq<ModuleMsg>, cells: Seq<CellView>) -> Option<char>
    decreases messages.len(),
{
    if messages.len() == 0 {
        None
    } else if !has_cell(cells, messages[0].0) {
        Some(messages[0].0)
    } else {
        first_stray(messages.skip(1), cells)
    }
}

/// The first of the keys that stands for no module, if there is one.
pub open spec fn first_unknown(matches: Seq<Marker>) -> Option<char>
    decreases matches.len(),
{
    if matches.len() == 0 {
        None
    } else if !is_module_key(matches[0].0) {
        Some(matches[0].0)
    } else {
        first_unknown(matches.skip(1))
    }
}

/// What the bar holds: its template, the template's markers, and one
/// cell for each marker.
pub struct BarView {
    pub format: Seq<char>,
    pub matches: Seq<Marker>,
    pub cells: Seq<CellView>,
}

impl BarView {
    /// The bar of a configuration, before any module has started.
    pub open spec fn fresh(config: &Config) -> BarView {
        let matches = markers(config.format@);
        BarView {
            format: config.format@,
            matches,
            cells: Seq::new(matches.len(), |i: int| CellView::fresh(matches[i].0, config)),
        }
    }

    /// The markers are those of the template, and each has its cell:
    /// the cell at a marker's position has the marker's key, which
    /// stands for a module.
    pub open spec fn wf(self) -> bool {
        &&& self.format.len() <= usize::MAX
        &&& self.matches == markers(self.format)
        &&& self.cells.len() == self.matches.len()
        &&& forall|i: int|
            0 <= i < self.cells.len() ==> (#[trigger] self.cells[i]).key == self.matches[i].0
                && is_module_key(self.matches[i].0)
    }

    /// The bar once every module's thread has been started.
    pub open spec fn started(self) -> BarView {
        BarView {
            cells: Seq::new(self.cells.len(), |i: int| self.cells[i].started()),
            ..self
        }
    }

    /// The bar after one tick.
    pub open spec fn stepped(
        self,
        exits: Seq<Option<ModuleExit>>,
        messages: Seq<ModuleMsg>,
    ) -> BarView {
        BarView {
            cells: Seq::new(
                self.cells.len(),
                |i: int| stepped(self.cells[i], exit_at(exits, i), messages),
            ),
            ..self
        }
    }

    /// The line that the bar shows.
    pub open spec fn line(self) -> Seq<char> {
        rendered(self.format, self.matches, self.cells)
    }

    /// Whether a module of the bar needs the sound server: the sound
    /// and the microphone modules do.
    pub open spec fn needs_pulse(self) -> bool {
        exists|i: int| 0 <= i < self.cells.len() && is_pulse_key((#[trigger] self.cells[i]).key)
    }
}

/// Whether `key` stands for a module that needs the sound server.
pub open spec fn is_pulse_key(key: char) -> bool {
    key == 's' || key == 'i'
}

pub struct Baru<'a> {
    config: &'a Config,
    modules: Vec<ModuleData<'a>>,
    format: &'a str,
    markup_matches: Vec<Marker>,
}

impl<'a> View for Baru<'a> {
    type V = BarView;

    closed spec fn view(&self) -> BarView {
        BarView {
            format: self.format@,
            matches: self.markup_matches@,
            cells: views(self.modules@),
        }
    }
}

/// The index of the latest of the messages with this key, if there is one.
pub fn find_latest(messages: &Vec<ModuleMsg>, key: char) -> (r: Option<usize>)
    ensures
        r is Some <==> latest_for(messages@, key) is Some,
        r matches Some(i) ==> i < messages@.len() && latest_for(messages@, key) == Some(
            messages@[i as int],
        ),
{
    let mut i: usize = messages.len();
    assert(messages@.take(i as int) =~= messages@);
    while i > 0
        invariant
            i <= messages@.len(),
            latest_for(messages@, key) == latest_for(messages@.take(i as int), key),
        decreases i,
    {
        let ghost upto = messages@.take(i as int);
        i -= 1;
        assert(upto.last() == messages@[i as int]);
        assert(upto.drop_last() =~= messages@.take(i as int));
        if messages[i].0 == key {
            return Some(i);
        }
    }
    None
}

/// Tells whether one of the cells has this key.
pub fn has_key(cells: &Vec<ModuleData>, key: char) -> (b: bool)
    ensures
        b == has_cell(views(cells@), key),
{
    let n = cells.len();
    let mut i: usize = 0;
    while i < n
        invariant
            i <= n,
            n == cells@.len(),
            forall|j: int| 0 <= j < i ==> (#[trigger] views(cells@)[j]).key != key,
        decreases n - i,
    {
        assert(views(cells@)[i as int] == cells@[i as int]@);
        if cells[i].key() == key {
            return true;
        }
        i += 1;
    }
    false
}

/// The key of the first of the messages whose key no cell has.
pub fn find_stray(messages: &Vec<ModuleMsg>, cells: &Vec<ModuleData>) -> (r: Option<char>)
    ensures
        r == first_stray(messages@, views(cells@)),
{
    let n = messages.len();
    let mut i: usize = 0;
    assert(messages@.skip(0) =~= messages@);
    while i < n
        invariant
            i <= n,
            n == messages@.len(),
            first_stray(messages@, views(cells@)) == first_stray(
                messages@.skip(i as int),
                views(cells@),
            ),
        decreases n - i,
    {
        assert(messages@.skip(i as int)[0] == messages@[i as int]);
        assert(messages@.skip(i as int).skip(1) =~= messages@.skip(i + 1));
        if !has_key(cells, messages[i].0) {
            return Some(messages[i].0);
        }
        i += 1;
    }
    assert(messages@.skip(n as int).len() == 0);
    None
}

/// The string in `o`, borrowed.
fn as_deref(o: &Option<String>) -> (r: Option<&str>)
    ensures
        r is Some <==> o is Some,
        r matches Some(s) ==> s@ == o->0@,
{
    match o {
        Some(s) => Some(s.as_str()),
        None => None,
    }
}

impl<'a> Baru<'a> {
    /// Whether the bar is well formed: see `BarView::wf`.
    pub open spec fn wf(&self) -> bool {
        self@.wf()
    }

    /// The bar of a configuration: one cell for each marker of the
    /// configuration's template, in the template's order. Where a
    /// marker's key stands for no module, the error names the first
    /// such key.
    pub fn with_config(config: &'a Config) -> (r: Result<Baru<'a>, Error>)
        ensures
            r is Ok <==> first_unknown(markers(config.format@)) is None,
            r matches Ok(bar) ==> bar.wf() && bar@ == BarView::fresh(config) && bar.config_of()
                == config,
            r matches Err(e) ==> e@ == unknown_markup(first_unknown(markers(config.format@))->0),
    {
        let mut modules: Vec<ModuleData<'a>> = Vec::new();
        let markup_matches = scan_format(config.format.as_str());
        let n = markup_matches.len();
        let mut i: usize = 0;
        assert(markup_matches@.skip(0) =~= markup_matches@);
        while i < n
            invariant
                i <= n,
                n == markup_matches@.len(),
                markup_matches@ == markers(config.format@),
                modules@.len() == i,
                forall|j: int|
                    0 <= j < i ==> (#[trigger] modules@[j])@ == CellView::fresh(
                        markup_matches@[j].0,
                        config,
                    ) && is_module_key(markup_matches@[j].0),
                first_unknown(markup_matches@) == first_unknown(markup_matches@.skip(i as int)),
            decreases n - i,
        {
            assert(markup_matches@.skip(i as int)[0] == markup_matches@[i as int]);
            assert(markup_matches@.skip(i as int).skip(1) =~= markup_matches@.skip(i + 1));
            match ModuleData::new(markup_matches[i].0, config) {
                Ok(cell) => modules.push(cell),
                Err(e) => {
                    return Err(e);
                },
            }
            i += 1;
        }
        assert(markup_matches@.skip(n as int).len() == 0);
        let bar = Baru { config, modules, format: config.format.as_str(), markup_matches };
        assert(bar@.cells =~= BarView::fresh(config).cells);
        assert(bar@ == BarView::fresh(config));
        Ok(bar)
    }

    /// Tells whether the bar is well formed. Every bar that
    /// `with_config` has made is, and stays so.
    pub fn is_wf(&self) -> (b: bool)
        ensures
            b == self.wf(),
    {
        let matches = scan_format(self.format);
        let n = matches.len();
        if self.markup_matches.len() != n || self.modules.len() != n {
            return false;
        }
        let mut i: usize = 0;
        while i < n
            invariant
                i <= n,
                n == matches@.len(),
                n == self.markup_matches@.len(),
                n == self.modules@.len(),
                matches@ == markers(self.format@),
                self.format@.len() <= usize::MAX,
                forall|j: int|
                    0 <= j < i ==> {
                        &&& self.markup_matches@[j] == #[trigger] matches@[j]
                        &&& self@.cells[j].key == matches@[j].0
                        &&& is_module_key(matches@[j].0)
                    },
            decreases n - i,
        {
            assert(self@.cells[i as int] == self.modules@[i as int]@);
            let found = &self.markup_matches[i];
            let key = self.modules[i].key();
            if found.0 != matches[i].0 || found.1 != matches[i].1 || key != found.0 || !is_key(key) {
                return false;
            }
            i += 1;
        }
        assert(self.markup_matches@ =~= matches@);
        true
    }

    /// Whether a module of the bar needs the sound server.
    pub fn needs_pulse(&self) -> (b: bool)
        ensures
            b == self@.needs_pulse(),
    {
        let n = self.modules.len();
        let mut i: usize = 0;
        while i < n
            invariant
                i <= n,
                n == self.modules@.len(),
                forall|j: int| 0 <= j < i ==> !is_pulse_key((#[trigger] self@.cells[j]).key),
            decreases n - i,
        {
            let key = self.modules[i].key();
            assert(self@.cells[i as int] == self.modules@[i as int]@);
            if key == 's' || key == 'i' {
                return true;
            }
            i += 1;
        }
        false
    }

    /// Records that the thread of every module has been started. A
    /// cell that was started before stays as it is.
    pub fn start(&mut self)
        ensures
            final(self)@ == old(self)@.started(),
            old(self).wf() ==> final(self).wf(),
            final(self).config_of() == old(self).config_of(),
    {
        let n = self.modules.len();
        let mut i: usize = 0;
        while i < n
            invariant
                i <= n,
                n == self.modules@.len(),
                n == old(self).modules@.len(),
                self.format == old(self).format,
                self.config == old(self).config,
                self.markup_matches == old(self).markup_matches,
                forall|j: int|
                    0 <= j < i ==> (#[trigger] self.modules@[j])@ == old(
                        self,
                    ).modules@[j]@.started(),
                forall|j: int| i <= j < n ==> (#[trigger] self.modules@[j]) == old(self).modules@[j],
            decreases n - i,
        {
            self.modules[i].start();
            i += 1;
        }
        assert(self@.cells =~= old(self)@.started().cells);
    }

    /// One tick of the bar. `exits` tells for each cell, by position,
    /// how its thread ended if it has (a cell with no entry counts as
    /// running), and `messages` holds the messages that have arrived
    /// since the last tick, oldest first. Every cell takes the result of
    /// its poll and the latest message with its key; then the line is
    /// rendered from the cells, each marker from its own cell. A
    /// message whose key no cell has is an error that names the key of
    /// the first such message, and leaves the bar as it was.
    pub fn update(&mut self, exits: &Vec<Option<ModuleExit>>, messages: &Vec<ModuleMsg>) -> (r:
        Result<String, Error>)
        requires
            old(self).wf(),
        ensures
            final(self).wf(),
            final(self).config_of() == old(self).config_of(),
            r is Ok <==> first_stray(messages@, old(self)@.cells) is None,
            r matches Ok(line) ==> final(self)@ == old(self)@.stepped(exits@, messages@) && line@
                == final(self)@.line(),
            r matches Err(e) ==> final(self)@ == old(self)@ && e@ == module_not_found(
                first_stray(messages@, old(self)@.cells)->0,
            ),
    {
        if let Some(key) = find_stray(messages, &self.modules) {
            let mut message = String::from_str("module for key \"");
            message.push(key);
            message.append("\" not found");
            assert(message@ =~= module_not_found(key));
            return Err(Error::new(message));
        }
        let n = self.modules.len();
        let mut i: usize = 0;
        while i < n
            invariant
                i <= n,
                n == self.modules@.len(),
                n == old(self).modules@.len(),
                self.format == old(self).format,
                self.config == old(self).config,
                self.markup_matches == old(self).markup_matches,
                forall|j: int|
                    0 <= j < i ==> (#[trigger] self.modules@[j])@ == stepped(
                        old(self).modules@[j]@,
                        exit_at(exits@, j),
                        messages@,
                    ),
                forall|j: int| i <= j < n ==> (#[trigger] self.modules@[j]) == old(self).modules@[j],
            decreases n - i,
        {
            let exit = if i < exits.len() {
                exits[i]
            } else {
                None
            };
            self.modules[i].update_state(exit);
            let key = self.modules[i].key();
            match find_latest(messages, key) {
                Some(j) => {
                    let message = &messages[j];
                    self.modules[i].new_data(as_deref(&message.1), as_deref(&message.2));
                },
                None => {},
            }
            i += 1;
        }
        assert(self@.cells =~= old(self)@.stepped(exits@, messages@).cells);
        proof {
            lemma_wf_renders(self@);
        }
        render(self.format, &self.markup_matches, &self.modules)
    }

    /// The names of the bar's modules, in the order of their markers.
    pub fn modules(&self) -> (names: Vec<&str>)
        ensures
            names@.len() == self@.cells.len(),
            forall|i: int| 0 <= i < names@.len() ==> (#[trigger] names@[i])@ == self@.cells[i].name,
    {
        let mut names: Vec<&str> = Vec::new();
        let n = self.modules.len();
        let mut i: usize = 0;
        while i < n
            invariant
                i <= n,
                n == self.modules@.len(),
                names@.len() == i,
                forall|j: int| 0 <= j < i ==> (#[trigger] names@[j])@ == self@.cells[j].name,
            decreases n - i,
        {
            assert(self@.cells[i as int] == self.modules@[i as int]@);
            names.push(self.modules[i].name());
            i += 1;
        }
        names
    }

    /// The cell at position `i`.
    pub fn cell(&self, i: usize) -> (r: Option<&ModuleData<'a>>)
        ensures
            r is Some <==> i < self@.cells.len(),
            r matches Some(c) ==> c@ == self@.cells[i as int],
    {
        if i < self.modules.len() {
            Some(&self.modules[i])
        } else {
            None
        }
    }

    /// The configuration of the bar.
    pub fn config(&self) -> (r: &'a Config)
        ensures
            r == self.config_of(),
    {
        self.config
    }

    /// The configuration that the bar was made from.
    pub closed spec fn config_of(&self) -> &'a Config {
        self.config
    }
}

/// In a well-formed bar the markers do not overlap, and each shows
/// the output of its own cell.
pub proof fn lemma_wf_renders(bar: BarView)
    requires
        bar.wf(),
    ensures
        well_placed(bar.matches, bar.format.len() as int),
        last_missing(bar.matches, bar.cells) is None,
        forall|k: int|
            0 <= k < bar.matches.len() ==> #[trigger] shown_at(bar.matches, bar.cells, k) == Some(
                bar.cells[k].output(),
            ),
{
    assert forall|k: int| 0 <= k < markers(bar.format).len() implies (#[trigger] markers(
        bar.format,
    )[k]).0 != '%' by {
        assert(bar.cells[k].key == bar.matches[k].0);
    }
    lemma_markers_well_placed(bar.format);
    assert forall|k: int| 0 <= k < bar.matches.len() implies #[trigger] shown_at(
        bar.matches,
        bar.cells,
        k,
    ) == Some(bar.cells[k].output()) by {
        assert(bar.cells[k].key == bar.matches[k].0);
    }
    lemma_none_missing(bar.matches, bar.cells, bar.matches.len() as int);
    assert(bar.matches.take(bar.matches.len() as int) =~= bar.matches);
}

/// Where each of the first `n` markers has its cell, none of them is
/// missing.
pub proof fn lemma_none_missing(matches: Seq<Marker>, cells: Seq<CellView>, n: int)
    requires
        0 <= n <= matches.len(),
        forall|k: int| 0 <= k < n ==> #[trigger] shown_at(matches, cells, k) is Some,
    ensures
        last_missing(matches.take(n), cells) is None,
    decreases n,
{
    if n > 0 {
        let upto = matches.take(n);
        assert(upto.drop_last() =~= matches.take(n - 1));
        assert(upto[n - 1] == matches[n - 1]);
        assert(shown_at(matches, cells, n - 1) is Some);
        assert(shown_at(upto, cells, n - 1) == shown_at(matches, cells, n - 1));
        lemma_none_missing(matches, cells, n - 1);
    }
}

} // verus!
