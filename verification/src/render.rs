//! Rendering of the bar's line: the output of each marker's module is
//! put in the marker's place, and escaped percent signs are unescaped.

use crate::error::Error;
use crate::markup::{lemma_markers_sound, markers, starts_marker, Marker};
use crate::module::{part, CellView, ModuleData};
use crate::text::{chars_of, replace, replaced, string_of};
use vstd::prelude::*;
use vstd::string::StringExecFns;

verus! {

broadcast use vstd::seq::group_seq_axioms;

/// `text` with the characters from `start` up to `end` replaced by `with`.
pub open spec fn spliced(text: Seq<char>, start: int, end: int, with: Seq<char>) -> Seq<char> {
    text.subrange(0, start) + with + text.subrange(end, text.len() as int)
}

/// What the marker at position `k` shows: the output of its own cell,
/// which is the cell at the same position. None where there is no cell
/// at that position, or the cell there has another key.
pub open spec fn shown_at(matches: Seq<Marker>, cells: Seq<CellView>, k: int) -> Option<
    Seq<char>,
> {
    if 0 <= k < matches.len() && k < cells.len() && cells[k].key == matches[k].0 {
        Some(cells[k].output())
    } else {
        None
    }
}

/// `template` with the two characters of each marker replaced by what
/// the marker's cell shows. The markers are taken from the last to
/// the first, so that a replacement leaves the positions of the markers
/// still to come as they were.
pub open spec fn substituted(
    template: Seq<char>,
    matches: Seq<Marker>,
    cells: Seq<CellView>,
) -> Seq<char>
    decreases matches.len(),
{
    if matches.len() == 0 {
        template
    } else {
        let m = matches.last();
        substituted(
            spliced(template, m.1 - 1, m.1 + 1, part(shown_at(matches, cells, matches.len() - 1))),
            matches.drop_last(),
            cells,
        )
    }
}

/// Whether the markers lie inside a text of `len` characters, each
/// behind the one before it, and no two overlap.
pub open spec fn well_placed(matches: Seq<Marker>, len: int) -> bool {
    &&& forall|k: int| 0 <= k < matches.len() ==> 1 <= (#[trigger] matches[k]).1 < len
    &&& forall|j: int, k: int|
        0 <= j < k < matches.len() ==> (#[trigger] matches[j]).1 + 1 < (#[trigger] matches[k]).1
}

/// The key of the last marker that has no cell, if there is one.
pub open spec fn last_missing(matches: Seq<Marker>, cells: Seq<CellView>) -> Option<char>
    decreases matches.len(),
{
    if matches.len() == 0 {
        None
    } else if shown_at(matches, cells, matches.len() - 1) is None {
        Some(matches.last().0)
    } else {
        last_missing(matches.drop_last(), cells)
    }
}

/// The message of the error for a key without a cell.
pub open spec fn module_not_found(key: char) -> Seq<char> {
    "module for key \""@ + seq![key] + "\" not found"@
}

/// The views of the cells, in order.
pub open spec fn views(cells: Seq<ModuleData>) -> Seq<CellView> {
    Seq::new(cells.len(), |i: int| cells[i]@)
}

/// The markers of a template lie inside it, and where no key is a
/// percent sign, no two of them overlap.
pub proof fn lemma_markers_well_placed(template: Seq<char>)
    requires
        template.len() <= usize::MAX,
        forall|k: int| 0 <= k < markers(template).len() ==> (#[trigger] markers(template)[k]).0 != '%',
    ensures
        well_placed(markers(template), template.len() as int),
{
    let n = template.len() as int;
    let ms = markers(template);
    lemma_markers_sound(template, n);
    assert forall|k: int| 0 <= k < ms.len() implies 1 <= (#[trigger] ms[k]).1 < n by {
        assert(starts_marker(template, ms[k].1 - 1));
    }
    assert forall|j: int, k: int| 0 <= j < k < ms.len() implies (#[trigger] ms[j]).1 + 1 < (
    #[trigger] ms[k]).1 by {
        assert(starts_marker(template, ms[k].1 - 1));
        assert(ms[j].1 < ms[k].1);
        assert(ms[j].0 == template[ms[j].1 as int]);
        if ms[j].1 + 1 == ms[k].1 {
            assert(template[ms[k].1 - 1] == '%');
        }
    }
}

/// The text of `template` from position `from` on, with the markers
/// from the `k`-th on replaced by what their cells show: the text up
/// to the marker, the output of the marker's cell in place of the
/// marker's two characters, and so on behind the marker.
pub open spec fn expanded_from(
    template: Seq<char>,
    matches: Seq<Marker>,
    cells: Seq<CellView>,
    k: int,
    from: int,
) -> Seq<char>
    decreases matches.len() - k,
{
    if k < 0 || k >= matches.len() {
        template.subrange(from, template.len() as int)
    } else {
        template.subrange(from, matches[k].1 - 1) + part(shown_at(matches, cells, k))
            + expanded_from(template, matches, cells, k + 1, matches[k].1 + 1)
    }
}

/// `template` read from left to right, with each marker replaced by
/// what its own cell shows: the marker at position `k` by the output
/// of the cell at position `k`.
pub open spec fn expanded(
    template: Seq<char>,
    matches: Seq<Marker>,
    cells: Seq<CellView>,
) -> Seq<char> {
    expanded_from(template, matches, cells, 0, 0)
}

/// The line of the bar: the template with each marker replaced by
/// what its own cell shows, and then every `\%` turned into `%`.
pub open spec fn rendered(
    template: Seq<char>,
    matches: Seq<Marker>,
    cells: Seq<CellView>,
) -> Seq<char> {
    replaced(expanded(template, matches, cells), "\\%"@, "%"@)
}

/// Replacing the last marker leaves the text before it, and with it
/// the reading of the markers before it, as they were.
proof fn lemma_expanded_after_splice(
    template: Seq<char>,
    matches: Seq<Marker>,
    cells: Seq<CellView>,
    k: int,
    from: int,
)
    requires
        matches.len() > 0,
        well_placed(matches, template.len() as int),
        0 <= k < matches.len(),
        0 <= from <= matches[k].1 - 1,
    ensures
        expanded_from(
            spliced(
                template,
                matches.last().1 - 1,
                matches.last().1 + 1,
                part(shown_at(matches, cells, matches.len() - 1)),
            ),
            matches.drop_last(),
            cells,
            k,
            from,
        ) == expanded_from(template, matches, cells, k, from),
    decreases matches.len() - k,
{
    let last = matches.last();
    let output = part(shown_at(matches, cells, matches.len() - 1));
    let after = spliced(template, last.1 - 1, last.1 + 1, output);
    let before = matches.drop_last();
    if k == matches.len() - 1 {
        assert(matches[k] == last);
        assert(expanded_from(template, matches, cells, k + 1, last.1 + 1) == template.subrange(
            last.1 + 1,
            template.len() as int,
        ));
        assert(after.subrange(from, after.len() as int) =~= template.subrange(from, last.1 - 1)
            + output + template.subrange(last.1 + 1, template.len() as int));
    } else {
        assert(before[k] == matches[k]);
        assert(shown_at(before, cells, k) == shown_at(matches, cells, k));
        assert(matches[k].1 + 1 < matches[matches.len() - 1].1);
        assert(matches[k].1 + 1 < matches[k + 1].1);
        lemma_expanded_after_splice(template, matches, cells, k + 1, matches[k].1 + 1);
        assert(after.subrange(from, matches[k].1 - 1) =~= template.subrange(
            from,
            matches[k].1 - 1,
        ));
    }
}

/// Replacing the markers one by one, from the last to the first,
/// gives the template read from left to right with each marker
/// replaced: the order of the replacements does not show.
pub proof fn lemma_substituted_is_expanded(
    template: Seq<char>,
    matches: Seq<Marker>,
    cells: Seq<CellView>,
)
    requires
        well_placed(matches, template.len() as int),
    ensures
        substituted(template, matches, cells) == expanded(template, matches, cells),
    decreases matches.len(),
{
    if matches.len() == 0 {
        assert(template.subrange(0, template.len() as int) =~= template);
    } else {
        let last = matches.last();
        let output = part(shown_at(matches, cells, matches.len() - 1));
        let after = spliced(template, last.1 - 1, last.1 + 1, output);
        let before = matches.drop_last();
        assert(matches[matches.len() - 1] == last);
        assert forall|k: int| 0 <= k < before.len() implies 1 <= (#[trigger] before[k]).1
            < after.len() by {
            assert(before[k] == matches[k]);
            assert(matches[k].1 + 1 < matches[matches.len() - 1].1);
        }
        assert forall|j: int, k: int| 0 <= j < k < before.len() implies (#[trigger] before[j]).1
            + 1 < (#[trigger] before[k]).1 by {
            assert(before[j] == matches[j]);
            assert(before[k] == matches[k]);
        }
        lemma_substituted_is_expanded(after, before, cells);
        if before.len() == 0 {
            assert(after.subrange(0, after.len() as int) =~= after);
            assert(expanded_from(template, matches, cells, 1, last.1 + 1) == template.subrange(
                last.1 + 1,
                template.len() as int,
            ));
        } else {
            lemma_expanded_after_splice(template, matches, cells, 0, 0);
        }
    }
}

/// What the marker at position `k` shows: the output of the cell at
/// the same position. An error that names the marker's key where the
/// marker has no cell.
pub fn marker_output<'c>(matches: &Vec<Marker>, cells: &'c Vec<ModuleData>, k: usize) -> (r:
    Result<&'c str, Error>)
    requires
        k < matches@.len(),
    ensures
        r is Ok <==> shown_at(matches@, views(cells@), k as int) is Some,
        r matches Ok(s) ==> Some(s@) == shown_at(matches@, views(cells@), k as int),
        r matches Err(e) ==> e@ == module_not_found(matches@[k as int].0),
{
    let key = matches[k].0;
    if k < cells.len() {
        assert(views(cells@)[k as int] == cells@[k as int]@);
        if cells[k].key() == key {
            return Ok(cells[k].output());
        }
    }
    let mut message = String::from_str("module for key \"");
    message.push(key);
    message.append("\" not found");
    assert(message@ =~= module_not_found(key));
    Err(Error::new(message))
}

/// `text` with the characters from `start` up to `end` replaced by `with`.
pub fn splice(text: &Vec<char>, start: usize, end: usize, with: &str) -> (r: Vec<char>)
    requires
        start <= end <= text@.len(),
    ensures
        r@ == spliced(text@, start as int, end as int, with@),
{
    let mut out: Vec<char> = Vec::new();
    let mut i: usize = 0;
    while i < start
        invariant
            i <= start <= text@.len(),
            out@ == text@.subrange(0, i as int),
        decreases start - i,
    {
        out.push(text[i]);
        assert(out@ =~= text@.subrange(0, i + 1));
        i += 1;
    }
    let middle = chars_of(with);
    let mut j: usize = 0;
    while j < middle.len()
        invariant
            j <= middle@.len(),
            middle@ == with@,
            out@ == text@.subrange(0, start as int) + with@.subrange(0, j as int),
        decreases middle.len() - j,
    {
        out.push(middle[j]);
        assert(out@ =~= text@.subrange(0, start as int) + with@.subrange(0, j + 1));
        j += 1;
    }
    assert(with@.subrange(0, j as int) =~= with@);
    let n = text.len();
    let mut k: usize = end;
    while k < n
        invariant
            end <= k <= n,
            n == text@.len(),
            out@ == text@.subrange(0, start as int) + with@ + text@.subrange(end as int, k as int),
        decreases n - k,
    {
        out.push(text[k]);
        assert(out@ =~= text@.subrange(0, start as int) + with@ + text@.subrange(
            end as int,
            k + 1,
        ));
        k += 1;
    }
    out
}

/// Renders the line of the bar from its template, the template's
/// markers and the cells: each marker is replaced by what the cell at
/// its position shows. An error where a marker has no cell: it names
/// the key of the last such marker.
pub fn render(format: &str, matches: &Vec<Marker>, cells: &Vec<ModuleData>) -> (r: Result<
    String,
    Error,
>)
    requires
        well_placed(matches@, format@.len() as int),
    ensures
        r is Ok <==> last_missing(matches@, views(cells@)) is None,
        r matches Ok(line) ==> line@ == rendered(format@, matches@, views(cells@)),
        r matches Err(e) ==> e@ == module_not_found(last_missing(matches@, views(cells@))->0),
{
    let mut current = chars_of(format);
    let mut k: usize = matches.len();
    assert(matches@.take(k as int) =~= matches@);
    while k > 0
        invariant
            k <= matches@.len(),
            format@.len() <= usize::MAX,
            well_placed(matches@, format@.len() as int),
            k == matches@.len() ==> current@.len() == format@.len(),
            k < matches@.len() ==> current@.len() >= matches@[k as int].1 - 1,
            substituted(format@, matches@, views(cells@)) == substituted(
                current@,
                matches@.take(k as int),
                views(cells@),
            ),
            last_missing(matches@, views(cells@)) == last_missing(
                matches@.take(k as int),
                views(cells@),
            ),
        decreases k,
    {
        let ghost upto = matches@.take(k as int);
        k -= 1;
        assert(upto.last() == matches@[k as int]);
        assert(upto.drop_last() =~= matches@.take(k as int));
        let m = &matches[k];
        assert(shown_at(upto, views(cells@), k as int) == shown_at(
            matches@,
            views(cells@),
            k as int,
        ));
        let output = match marker_output(matches, cells, k) {
            Ok(s) => s,
            Err(e) => {
                return Err(e);
            },
        };
        assert(output@ == part(shown_at(matches@, views(cells@), k as int)));
        current = splice(&current, m.1 - 1, m.1 + 1, output);
    }
    assert(matches@.take(0) =~= Seq::<Marker>::empty());
    proof {
        lemma_substituted_is_expanded(format@, matches@, views(cells@));
    }
    let text = string_of(&current);
    Ok(replace(text.as_str(), "\\%", "%"))
}

} // verus!
