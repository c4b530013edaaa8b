//! What holds of the cells and of the bar, whatever the modules send
//! and however their threads end.

use crate::bar::{exit_at, latest_for, lemma_wf_renders, stepped, BarView};
use crate::render::{expanded, shown_at};
use crate::text::replaced;
use crate::module::{fragment, part, placeholder_for, CellView, ModuleExit};
use crate::{Config, ModuleMsg};
use vstd::prelude::*;

verus! {

broadcast use vstd::seq::group_seq_axioms;

/// A message taken twice leaves the cell as the message taken once:
/// the output is made from the message alone, not added to what was
/// there.
pub proof fn lemma_message_idempotent(
    cell: CellView,
    value: Option<Seq<char>>,
    label: Option<Seq<char>>,
)
    ensures
        cell.with_message(value, label).with_message(value, label) == cell.with_message(
            value,
            label,
        ),
        cell.with_message(value, label).with_message(value, label).output() == cell.with_message(
            value,
            label,
        ).output(),
{
}

/// A message replaces whatever message the cell took before.
pub proof fn lemma_message_overwrites(
    cell: CellView,
    value1: Option<Seq<char>>,
    label1: Option<Seq<char>>,
    value2: Option<Seq<char>>,
    label2: Option<Seq<char>>,
)
    ensures
        cell.with_message(value1, label1).with_message(value2, label2) == cell.with_message(
            value2,
            label2,
        ),
{
}

/// Where all the messages of a tick have the cell's key, the cell
/// after the tick is what the last of them alone would have made it.
pub proof fn lemma_last_message_wins(
    cell: CellView,
    exit: Option<ModuleExit>,
    messages: Seq<ModuleMsg>,
)
    requires
        messages.len() > 0,
        forall|i: int| 0 <= i < messages.len() ==> (#[trigger] messages[i]).0 == cell.key,
    ensures
        stepped(cell, exit, messages) == stepped(cell, exit, seq![messages.last()]),
        stepped(cell, exit, messages).output() == stepped(
            cell,
            exit,
            seq![messages.last()],
        ).output(),
{
    assert(seq![messages.last()].last() == messages.last());
}

/// Among the messages of a tick only the latest with the cell's key
/// counts: the cell after the tick is what that message alone would
/// have made it, whatever other messages came before or after it.
pub proof fn lemma_latest_message_wins(
    cell: CellView,
    exit: Option<ModuleExit>,
    messages: Seq<ModuleMsg>,
)
    requires
        latest_for(messages, cell.key) is Some,
    ensures
        latest_for(messages, cell.key).unwrap().0 == cell.key,
        stepped(cell, exit, messages) == stepped(
            cell,
            exit,
            seq![latest_for(messages, cell.key)->0],
        ),
{
    lemma_latest_has_key(messages, cell.key);
    let m = latest_for(messages, cell.key)->0;
    assert(seq![m].last() == m);
}

/// The latest message with a key has that key, and is one of the messages.
pub proof fn lemma_latest_has_key(messages: Seq<ModuleMsg>, key: char)
    requires
        latest_for(messages, key) is Some,
    ensures
        latest_for(messages, key).unwrap().0 == key,
        messages.contains(latest_for(messages, key)->0),
    decreases messages.len(),
{
    if messages.last().0 == key {
        assert(messages[messages.len() - 1] == messages.last());
    } else {
        lemma_latest_has_key(messages.drop_last(), key);
        let m = latest_for(messages, key)->0;
        let i = choose|i: int| 0 <= i < messages.drop_last().len() && messages.drop_last()[i] == m;
        assert(messages[i] == m);
    }
}

/// A tick in which no message has the cell's key leaves the cell's
/// output untouched, unless the cell's module fails in that tick.
pub proof fn lemma_no_message_keeps_output(
    cell: CellView,
    exit: Option<ModuleExit>,
    messages: Seq<ModuleMsg>,
)
    requires
        latest_for(messages, cell.key) is None,
    ensures
        stepped(cell, exit, messages).data == cell.data,
        !(stepped(cell, exit, messages).state is Failed) ==> stepped(
            cell,
            exit,
            messages,
        ).output() == cell.output(),
{
}

/// Where all the messages of a tick have one key, the bar after the
/// tick is what the last of them alone would have made it.
pub proof fn lemma_bar_last_message_wins(
    bar: BarView,
    exits: Seq<Option<ModuleExit>>,
    messages: Seq<ModuleMsg>,
    key: char,
)
    requires
        messages.len() > 0,
        forall|i: int| 0 <= i < messages.len() ==> (#[trigger] messages[i]).0 == key,
    ensures
        bar.stepped(exits, messages) == bar.stepped(exits, seq![messages.last()]),
        bar.stepped(exits, messages).line() == bar.stepped(exits, seq![messages.last()]).line(),
{
    let last = seq![messages.last()];
    assert(last.last() == messages.last());
    assert forall|i: int| 0 <= i < bar.cells.len() implies stepped(
        bar.cells[i],
        exit_at(exits, i),
        messages,
    ) == stepped(bar.cells[i], exit_at(exits, i), last) by {
        if bar.cells[i].key != key {
            lemma_no_message_with_other_key(messages, key, bar.cells[i].key);
            lemma_no_message_with_other_key(last, key, bar.cells[i].key);
        }
    }
    assert(bar.stepped(exits, messages).cells =~= bar.stepped(exits, last).cells);
}

/// Where all the messages have one key, none is the latest for another key.
pub proof fn lemma_no_message_with_other_key(messages: Seq<ModuleMsg>, key: char, other: char)
    requires
        forall|i: int| 0 <= i < messages.len() ==> (#[trigger] messages[i]).0 == key,
        other != key,
    ensures
        latest_for(messages, other) is None,
    decreases messages.len(),
{
    if messages.len() > 0 {
        assert(messages[messages.len() - 1].0 == key);
        assert forall|i: int| 0 <= i < messages.drop_last().len() implies (
        #[trigger] messages.drop_last()[i]).0 == key by {
            assert(messages.drop_last()[i] == messages[i]);
        }
        lemma_no_message_with_other_key(messages.drop_last(), key, other);
    }
}

/// How the thread of one module ended has no effect on any other
/// cell: two ticks that differ only in what is reported of the cell at
/// position `j` leave every other cell in the same state and with the
/// same output.
pub proof fn lemma_cells_are_isolated(
    bar: BarView,
    exits1: Seq<Option<ModuleExit>>,
    exits2: Seq<Option<ModuleExit>>,
    messages: Seq<ModuleMsg>,
    j: int,
)
    requires
        forall|i: int| i != j ==> exit_at(exits1, i) == exit_at(exits2, i),
    ensures
        forall|i: int|
            0 <= i < bar.cells.len() && i != j ==> {
                &&& (#[trigger] bar.stepped(exits1, messages).cells[i]) == bar.stepped(
                    exits2,
                    messages,
                ).cells[i]
                &&& bar.stepped(exits1, messages).cells[i].state == bar.stepped(
                    exits2,
                    messages,
                ).cells[i].state
                &&& bar.stepped(exits1, messages).cells[i].output() == bar.stepped(
                    exits2,
                    messages,
                ).cells[i].output()
            },
{
}

/// A module that fails changes nothing in a cell with another key
/// beyond what the tick does to that cell anyway: the cell after the
/// tick depends on its own poll and on the messages alone.
pub proof fn lemma_step_is_per_cell(
    bar: BarView,
    exits: Seq<Option<ModuleExit>>,
    messages: Seq<ModuleMsg>,
    i: int,
)
    requires
        0 <= i < bar.cells.len(),
    ensures
        bar.stepped(exits, messages).cells[i] == stepped(
            bar.cells[i],
            exit_at(exits, i),
            messages,
        ),
{
}

/// A tick keeps a well-formed bar well formed, whatever is reported of
/// the modules' threads: after a failure the next tick can be made.
pub proof fn lemma_step_keeps_wf(
    bar: BarView,
    exits: Seq<Option<ModuleExit>>,
    messages: Seq<ModuleMsg>,
)
    requires
        bar.wf(),
    ensures
        bar.stepped(exits, messages).wf(),
{
    let after = bar.stepped(exits, messages);
    assert forall|i: int| 0 <= i < after.cells.len() implies (#[trigger] after.cells[i]).key
        == bar.cells[i].key by {}
}

/// A cell that has taken no message and has not failed shows its
/// placeholder.
pub proof fn lemma_shows_placeholder(cell: CellView)
    requires
        cell.data is None,
        !(cell.state is Failed),
    ensures
        cell.output() == cell.placeholder,
{
}

/// A cell just made shows the placeholder that the configuration gives
/// its module, and still does so once it has been started and polled,
/// as long as its thread has not failed.
pub proof fn lemma_fresh_cell_shows_placeholder(
    key: char,
    config: &Config,
    exit: Option<ModuleExit>,
)
    ensures
        CellView::fresh(key, config).output() == placeholder_for(key, config),
        CellView::fresh(key, config).started().output() == placeholder_for(key, config),
        (exit is None || exit == Some(ModuleExit::Returned)) ==> CellView::fresh(
            key,
            config,
        ).started().polled(exit).output() == placeholder_for(key, config),
{
}

/// A failed cell stays failed: no poll and no message changes its
/// state or what it shows, which is the failure text.
pub proof fn lemma_failed_is_frozen(
    cell: CellView,
    exit: Option<ModuleExit>,
    messages: Seq<ModuleMsg>,
)
    requires
        cell.state is Failed,
    ensures
        stepped(cell, exit, messages).state is Failed,
        stepped(cell, exit, messages).output() == cell.output(),
        cell.output() == cell.failed_placeholder,
{
}

/// A message leaves the output of a failed cell as it was.
pub proof fn lemma_failed_ignores_message(
    cell: CellView,
    value: Option<Seq<char>>,
    label: Option<Seq<char>>,
)
    requires
        cell.state is Failed,
    ensures
        cell.with_message(value, label).output() == cell.output(),
{
}

/// A finished cell stays finished and keeps showing its latest output.
pub proof fn lemma_finished_is_final(cell: CellView, exit: Option<ModuleExit>)
    requires
        cell.state is Finished,
    ensures
        cell.polled(exit) == cell,
{
}

/// A running cell whose thread returned an error or panicked is failed
/// after the poll, and shows the failure text.
pub proof fn lemma_failure_shows(cell: CellView, exit: ModuleExit)
    requires
        cell.state is Running,
        exit != ModuleExit::Returned,
    ensures
        cell.polled(Some(exit)).state is Failed,
        cell.polled(Some(exit)).output() == cell.failed_placeholder,
{
}

/// The line of a well-formed bar is its template read from left to
/// right, with each marker replaced by what its own cell shows, and
/// then every `\%` turned into `%`.
pub proof fn lemma_line_reads_left_to_right(bar: BarView)
    requires
        bar.wf(),
    ensures
        bar.line() == replaced(expanded(bar.format, bar.matches, bar.cells), "\\%"@, "%"@),
{
}

/// In a well-formed bar every marker shows the output of its own
/// cell, whatever the cells of other markers with the same key hold:
/// markers of one key share no state.
pub proof fn lemma_marker_shows_its_cell(bar: BarView, k: int)
    requires
        bar.wf(),
        0 <= k < bar.matches.len(),
    ensures
        shown_at(bar.matches, bar.cells, k) == Some(bar.cells[k].output()),
{
    lemma_wf_renders(bar);
}

/// The marker of a failed cell shows the failure text after every
/// tick, whatever messages arrive and whatever the other cells hold,
/// those with the same key too.
pub proof fn lemma_failed_marker_is_frozen(
    bar: BarView,
    exits: Seq<Option<ModuleExit>>,
    messages: Seq<ModuleMsg>,
    k: int,
)
    requires
        bar.wf(),
        0 <= k < bar.matches.len(),
        bar.cells[k].state is Failed,
    ensures
        shown_at(
            bar.stepped(exits, messages).matches,
            bar.stepped(exits, messages).cells,
            k,
        ) == Some(bar.cells[k].failed_placeholder),
{
    lemma_step_keeps_wf(bar, exits, messages);
    lemma_wf_renders(bar.stepped(exits, messages));
    lemma_failed_is_frozen(bar.cells[k], exit_at(exits, k), messages);
}

/// Starting leaves a finished or a failed cell as it is.
pub proof fn lemma_start_keeps_final_states(cell: CellView)
    requires
        cell.state is Finished || cell.state is Failed,
    ensures
        cell.started() == cell,
{
}

/// A format without a percent sign is its own output, whatever the
/// message holds.
pub proof fn lemma_plain_format_is_kept(
    format: Seq<char>,
    value: Option<Seq<char>>,
    label: Option<Seq<char>>,
)
    requires
        forall|i: int| 0 <= i < format.len() ==> format[i] != '%',
    ensures
        fragment(format, value, label) == format,
    decreases format.len(),
{
    if format.len() > 0 {
        assert(format[0] != '%');
        assert forall|i: int| 0 <= i < format.skip(1).len() implies format.skip(1)[i] != '%' by {
            assert(format.skip(1)[i] == format[i + 1]);
        }
        lemma_plain_format_is_kept(format.skip(1), value, label);
        assert(seq![format[0]] + format.skip(1) =~= format);
    } else {
        assert(format =~= Seq::<char>::empty());
    }
}

/// What is filled in is not read again: behind a `%v` the output goes
/// on with the value as it came, and behind a `%l` with the label,
/// whatever markers they hold.
pub proof fn lemma_filled_in_text_is_kept(
    rest: Seq<char>,
    value: Option<Seq<char>>,
    label: Option<Seq<char>>,
)
    ensures
        fragment(seq!['%', 'v'] + rest, value, label) == part(value) + fragment(
            rest,
            value,
            label,
        ),
        fragment(seq!['%', 'l'] + rest, value, label) == part(label) + fragment(
            rest,
            value,
            label,
        ),
{
    assert((seq!['%', 'v'] + rest).skip(2) =~= rest);
    assert((seq!['%', 'l'] + rest).skip(2) =~= rest);
}

} // verus!
