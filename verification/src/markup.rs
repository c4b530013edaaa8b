//! The markup of a format template: an unescaped `%` followed by one
//! character marks the place where a module's output goes.

use crate::text::{byte_len, byte_offsets, char_at, chars_of};
use vstd::prelude::*;

verus! {

broadcast use vstd::seq::group_seq_axioms;

/// One marker of a template.
/// `0`: the key that follows the `%`,
/// `1`: the position of the key in the template, counted in characters.
#[derive(Debug)]
pub struct Marker(pub char, pub usize);

/// One marker found in a template.
/// `0`: the key that follows the `%`,
/// `1`: the offset of the key in the template, counted in the bytes of
/// its UTF-8 text, as a `str` is indexed.
#[derive(Debug)]
pub struct MarkupMatch(pub char, pub usize);

/// Whether a marker starts at position `i` of `template`: a `%` stands
/// there, the character before it (if any) is not a backslash, and a
/// character follows.
pub open spec fn starts_marker(template: Seq<char>, i: int) -> bool {
    &&& 0 <= i
    &&& i + 1 < template.len()
    &&& template[i] == '%'
    &&& (i == 0 || template[i - 1] != '\\')
}

/// The markers that start among the first `n` characters of `template`,
/// from left to right.
pub open spec fn markers_before(template: Seq<char>, n: int) -> Seq<Marker>
    decreases n,
{
    if n <= 0 {
        Seq::empty()
    } else if starts_marker(template, n - 1) {
        markers_before(template, n - 1).push(Marker(char_at(template, n), n as usize))
    } else {
        markers_before(template, n - 1)
    }
}

/// All the markers of `template`, from left to right.
pub open spec fn markers(template: Seq<char>) -> Seq<Marker> {
    markers_before(template, template.len() as int)
}

/// Unfolds `markers_before` by one character.
proof fn lemma_markers_step(template: Seq<char>, n: int)
    requires
        0 < n,
    ensures
        starts_marker(template, n - 1) ==> markers_before(template, n) == markers_before(
            template,
            n - 1,
        ).push(Marker(char_at(template, n), n as usize)),
        !starts_marker(template, n - 1) ==> markers_before(template, n) == markers_before(
            template,
            n - 1,
        ),
{
}

/// Every marker found lies behind a `%` that starts a marker, carries
/// the character at its position, and lies at or before position `n`;
/// the markers come in strictly increasing order of position.
pub proof fn lemma_markers_sound(template: Seq<char>, n: int)
    requires
        n <= template.len() <= usize::MAX,
    ensures
        forall|k: int|
            0 <= k < markers_before(template, n).len() ==> {
                let m = #[trigger] markers_before(template, n)[k];
                &&& starts_marker(template, m.1 - 1)
                &&& m.1 <= n
                &&& m.0 == template[m.1 as int]
            },
        forall|j: int, k: int|
            0 <= j < k < markers_before(template, n).len() ==> markers_before(template, n)[j].1
                < markers_before(template, n)[k].1,
    decreases n,
{
    if n > 0 {
        lemma_markers_sound(template, n - 1);
        lemma_markers_step(template, n);
        let prev = markers_before(template, n - 1);
        let all = markers_before(template, n);
        if starts_marker(template, n - 1) {
            assert forall|k: int| 0 <= k < all.len() implies {
                let m = #[trigger] all[k];
                &&& starts_marker(template, m.1 - 1)
                &&& m.1 <= n
                &&& m.0 == template[m.1 as int]
            } by {
                if k < prev.len() {
                    assert(all[k] == prev[k]);
                }
            }
            assert forall|j: int, k: int| 0 <= j < k < all.len() implies all[j].1 < all[k].1 by {
                assert(all[j] == prev[j]);
                if k < prev.len() {
                    assert(all[k] == prev[k]);
                }
            }
        }
    }
}

/// Every place before position `n` at which a marker starts is found.
pub proof fn lemma_markers_complete(template: Seq<char>, n: int, i: int)
    requires
        n <= template.len() <= usize::MAX,
        starts_marker(template, i),
        i < n,
    ensures
        exists|k: int|
            0 <= k < markers_before(template, n).len() && #[trigger] markers_before(
                template,
                n,
            )[k] == Marker(template[i + 1], (i + 1) as usize),
    decreases n,
{
    lemma_markers_step(template, n);
    let prev = markers_before(template, n - 1);
    let all = markers_before(template, n);
    if i == n - 1 {
        assert(all[prev.len() as int] == Marker(template[i + 1], (i + 1) as usize));
    } else {
        lemma_markers_complete(template, n - 1, i);
        let k = choose|k: int|
            0 <= k < prev.len() && #[trigger] prev[k] == Marker(
                template[i + 1],
                (i + 1) as usize,
            );
        if starts_marker(template, n - 1) {
            assert(all[k] == prev[k]);
        } else {
            assert(all[k] == prev[k]);
        }
    }
}

/// Whether `matches` are the markers of `template`: each lies one
/// past a `%` that starts a marker and carries the character at its
/// position, they come from left to right, and every `%` that starts a
/// marker has its match.
pub open spec fn are_markers(matches: Seq<Marker>, template: Seq<char>) -> bool {
    &&& forall|k: int|
        0 <= k < matches.len() ==> starts_marker(template, (#[trigger] matches[k]).1 - 1)
            && matches[k].0 == template[matches[k].1 as int]
    &&& forall|j: int, k: int|
        0 <= j < k < matches.len() ==> (#[trigger] matches[j]).1 < (#[trigger] matches[k]).1
    &&& forall|i: int|
        starts_marker(template, i) ==> exists|k: int|
            0 <= k < matches.len() && (#[trigger] matches[k]).1 == i + 1
}

/// The markers of a template are its markers in the sense of
/// `are_markers`.
pub proof fn lemma_markers_are_markers(template: Seq<char>)
    requires
        template.len() <= usize::MAX,
    ensures
        are_markers(markers(template), template),
{
    let n = template.len() as int;
    let ms = markers(template);
    lemma_markers_sound(template, n);
    assert forall|i: int| starts_marker(template, i) implies exists|k: int|
        0 <= k < ms.len() && (#[trigger] ms[k]).1 == i + 1 by {
        lemma_markers_complete(template, n, i);
        let k = choose|k: int|
            0 <= k < ms.len() && #[trigger] ms[k] == Marker(
                template[i + 1],
                (i + 1) as usize,
            );
        assert(ms[k].1 == i + 1);
    }
}

/// Finds the markers of a format template, from left to right: for
/// each unescaped `%` that a character follows, the character and its
/// position.
pub fn scan_format(format: &str) -> (matches: Vec<Marker>)
    ensures
        matches@ == markers(format@),
        are_markers(matches@, format@),
        format@.len() <= usize::MAX,
{
    let chars = chars_of(format);
    let n = chars.len();
    let mut matches: Vec<Marker> = Vec::new();
    let mut i: usize = 0;
    while i < n
        invariant
            i <= n,
            n == chars@.len(),
            chars@ == format@,
            matches@ == markers_before(format@, i as int),
        decreases n - i,
    {
        if chars[i] == '%' && (i == 0 || chars[i - 1] != '\\') && i + 1 < n {
            matches.push(Marker(chars[i + 1], i + 1));
        }
        i += 1;
    }
    proof {
        lemma_markers_are_markers(format@);
    }
    matches
}

/// The match of a marker: its key, and the offset in bytes of the
/// position at which the key stands.
pub open spec fn match_of(template: Seq<char>, marker: Marker) -> MarkupMatch {
    MarkupMatch(marker.0, byte_len(template.take(marker.1 as int)) as usize)
}

/// The matches of the markers of `template`, from left to right.
pub open spec fn matches_of(template: Seq<char>) -> Seq<MarkupMatch> {
    Seq::new(markers(template).len(), |k: int| match_of(template, markers(template)[k]))
}

/// A text of ASCII characters takes one byte for each character.
pub proof fn lemma_ascii_byte_len(text: Seq<char>)
    requires
        forall|i: int| 0 <= i < text.len() ==> (#[trigger] char_at(text, i) as u32) <= 0x7F,
    ensures
        byte_len(text) == text.len(),
    decreases text.len(),
{
    if text.len() > 0 {
        assert(char_at(text, 0) as u32 <= 0x7F);
        assert forall|i: int| 0 <= i < text.drop_first().len() implies (#[trigger] char_at(
            text.drop_first(),
            i,
        ) as u32) <= 0x7F by {
            assert(char_at(text.drop_first(), i) == char_at(text, i + 1));
        }
        lemma_ascii_byte_len(text.drop_first());
    }
}

/// On a template of ASCII characters the offset of every match is the
/// position of its marker.
pub proof fn lemma_ascii_offsets(template: Seq<char>, k: int)
    requires
        template.len() <= usize::MAX,
        forall|i: int| 0 <= i < template.len() ==> (#[trigger] char_at(template, i) as u32) <= 0x7F,
        0 <= k < markers(template).len(),
    ensures
        matches_of(template)[k].0 == markers(template)[k].0,
        matches_of(template)[k].1 == markers(template)[k].1,
{
    lemma_markers_sound(template, template.len() as int);
    let position = markers(template)[k].1 as int;
    assert(position <= template.len());
    assert forall|i: int| 0 <= i < template.take(position).len() implies (#[trigger] char_at(
        template.take(position),
        i,
    ) as u32) <= 0x7F by {
        assert(char_at(template.take(position), i) == char_at(template, i));
    }
    lemma_ascii_byte_len(template.take(position));
}

/// Finds the markers of a format template, from left to right: for
/// each unescaped `%` that a character follows, the character and its
/// offset in the template. On a template of ASCII characters the
/// offset is the position of the character.
pub fn parse_format(format: &str) -> (matches: Vec<MarkupMatch>)
    ensures
        matches@ == matches_of(format@),
{
    let found = scan_format(format);
    let offsets = byte_offsets(format);
    let n = found.len();
    let mut matches: Vec<MarkupMatch> = Vec::new();
    let mut k: usize = 0;
    proof {
        lemma_markers_sound(format@, format@.len() as int);
    }
    while k < n
        invariant
            k <= n,
            n == found@.len(),
            found@ == markers(format@),
            offsets@.len() == format@.len() + 1,
            forall|i: int|
                0 <= i <= format@.len() ==> #[trigger] offsets@[i] == byte_len(format@.take(i)),
            forall|j: int|
                0 <= j < n ==> (#[trigger] markers_before(format@, format@.len() as int)[j]).1
                    <= format@.len(),
            matches@.len() == k,
            forall|j: int| 0 <= j < k ==> #[trigger] matches@[j] == match_of(format@, found@[j]),
        decreases n - k,
    {
        let marker = &found[k];
        assert(found@[k as int] == markers_before(format@, format@.len() as int)[k as int]);
        matches.push(MarkupMatch(marker.0, offsets[marker.1]));
        k += 1;
    }
    assert(matches@ =~= matches_of(format@));
    matches
}

} // verus!
