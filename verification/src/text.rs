//! Operations on text, stated over sequences of characters.

use vstd::prelude::*;
use vstd::string::StringExecFns;

verus! {

/// `String::push` appends one character to the end of the string.
pub assume_specification[ String::push ](s: &mut String, c: char)
    ensures
        final(s)@ == old(s)@.push(c),
;

/// The character of `s` at position `i`.
pub open spec fn char_at(s: Seq<char>, i: int) -> char {
    s[i]
}

/// The text of `o`, or `default` where there is none.
pub open spec fn text_or(o: Option<String>, default: Seq<char>) -> Seq<char> {
    match o {
        Some(s) => s@,
        None => default,
    }
}

/// The text of `o` where there is one.
pub open spec fn opt_text(o: Option<String>) -> Option<Seq<char>> {
    match o {
        Some(s) => Some(s@),
        None => None,
    }
}

/// The string in `o`, or `default` where there is none.
pub fn str_or<'a>(o: &'a Option<String>, default: &'a str) -> (r: &'a str)
    ensures
        r@ == text_or(*o, default@),
{
    match o {
        Some(s) => s.as_str(),
        None => default,
    }
}

/// The characters of `s`, in order.
pub fn chars_of(s: &str) -> (v: Vec<char>)
    ensures
        v@ == s@,
        s@.len() <= usize::MAX,
{
    let mut v: Vec<char> = Vec::new();
    for c in it: s.chars()
        invariant
            it.seq() == s@,
            v@ == it.seq().take(it.index()),
    {
        v.push(c);
    }
    let count = v.len();
    assert(s@.len() == count);
    v
}

/// The string made of the characters of `v`, in order.
pub fn string_of(v: &Vec<char>) -> (s: String)
    ensures
        s@ == v@,
{
    let mut s = String::new();
    let mut i: usize = 0;
    while i < v.len()
        invariant
            i <= v.len(),
            s@ == v@.take(i as int),
        decreases v.len() - i,
    {
        s.push(v[i]);
        i += 1;
    }
    s
}

/// Whether `pat` occurs in `s` at position `i`.
pub open spec fn occurs_at(s: Seq<char>, i: int, pat: Seq<char>) -> bool {
    &&& 0 <= i
    &&& i + pat.len() <= s.len()
    &&& s.subrange(i, i + pat.len()) == pat
}

/// `s` with every occurrence of `from` replaced by `to`. Occurrences are
/// found from left to right and do not overlap. An empty `from` occurs
/// before every character and at the end.
pub open spec fn replaced(s: Seq<char>, from: Seq<char>, to: Seq<char>) -> Seq<char>
    decreases s.len(),
{
    if s.len() == 0 {
        if from.len() == 0 {
            to
        } else {
            s
        }
    } else if from.len() == 0 {
        to + seq![s[0]] + replaced(s.skip(1), from, to)
    } else if occurs_at(s, 0, from) {
        to + replaced(s.skip(from.len() as int), from, to)
    } else {
        seq![s[0]] + replaced(s.skip(1), from, to)
    }
}

/// Tells whether `pat` occurs in `s` at position `i`.
pub fn has_at(s: &Vec<char>, i: usize, pat: &Vec<char>) -> (b: bool)
    ensures
        b == occurs_at(s@, i as int, pat@),
{
    let n = s.len();
    let m = pat.len();
    if i > n || m > n - i {
        return false;
    }
    let mut j: usize = 0;
    while j < m
        invariant
            i + m <= n,
            n == s@.len(),
            m == pat@.len(),
            j <= m,
            forall|k: int| 0 <= k < j ==> s@[i + k] == pat@[k],
        decreases m - j,
    {
        if s[i + j] != pat[j] {
            assert(s@.subrange(i as int, i + m)[j as int] != pat@[j as int]);
            return false;
        }
        j += 1;
    }
    assert(s@.subrange(i as int, i + m) =~= pat@);
    true
}

/// Replaces every occurrence of `from` in `s` by `to`.
pub fn replace(s: &str, from: &str, to: &str) -> (r: String)
    ensures
        r@ == replaced(s@, from@, to@),
{
    let sv = chars_of(s);
    let fv = chars_of(from);
    let n = sv.len();
    let m = fv.len();
    let mut out = String::new();
    let mut i: usize = 0;
    assert(s@.skip(0) =~= s@);
    assert(out@ + replaced(s@, from@, to@) =~= replaced(s@, from@, to@));
    while i < n
        invariant
            i <= n,
            n == sv@.len(),
            m == fv@.len(),
            sv@ == s@,
            fv@ == from@,
            out@ + replaced(s@.skip(i as int), from@, to@) == replaced(s@, from@, to@),
        decreases n - i,
    {
        let ghost rest = s@.skip(i as int);
        let ghost before = out@;
        if m == 0 {
            out.append(to);
            out.push(sv[i]);
            assert(rest.skip(1) =~= s@.skip(i + 1));
            assert(out@ + replaced(rest.skip(1), from@, to@) =~= before + replaced(
                rest,
                from@,
                to@,
            ));
            i += 1;
        } else if has_at(&sv, i, &fv) {
            out.append(to);
            assert(rest.subrange(0, m as int) =~= s@.subrange(i as int, i + m));
            assert(rest.skip(m as int) =~= s@.skip(i + m));
            assert(out@ + replaced(rest.skip(m as int), from@, to@) =~= before + replaced(
                rest,
                from@,
                to@,
            ));
            i += m;
        } else {
            out.push(sv[i]);
            assert(i + m <= n ==> rest.subrange(0, m as int) =~= s@.subrange(i as int, i + m));
            assert(rest.skip(1) =~= s@.skip(i + 1));
            assert(out@ + replaced(rest.skip(1), from@, to@) =~= before + replaced(
                rest,
                from@,
                to@,
            ));
            i += 1;
        }
    }
    assert(s@.skip(n as int).len() == 0);
    if m == 0 {
        out.append(to);
    }
    assert(out@ =~= replaced(s@, from@, to@));
    out
}

/// Tells whether two texts hold the same characters.
pub fn same_text(a: &str, b: &str) -> (r: bool)
    ensures
        r == (a@ == b@),
{
    let av = chars_of(a);
    let bv = chars_of(b);
    if av.len() != bv.len() {
        return false;
    }
    let r = has_at(&av, 0, &bv);
    assert(a@.subrange(0, a@.len() as int) =~= a@);
    r
}

/// Whether `s` starts with `prefix`.
pub open spec fn starts_with(s: Seq<char>, prefix: Seq<char>) -> bool {
    occurs_at(s, 0, prefix)
}

/// Tells whether `s` starts with `prefix`.
pub fn has_prefix(s: &str, prefix: &str) -> (r: bool)
    ensures
        r == starts_with(s@, prefix@),
{
    let sv = chars_of(s);
    let pv = chars_of(prefix);
    has_at(&sv, 0, &pv)
}

/// Whether `pat` occurs somewhere in `s`.
pub open spec fn contains_text(s: Seq<char>, pat: Seq<char>) -> bool {
    exists|i: int| occurs_at(s, i, pat)
}

/// Tells whether `pat` occurs somewhere in `s`.
pub fn contains(s: &str, pat: &str) -> (r: bool)
    ensures
        r == contains_text(s@, pat@),
{
    let sv = chars_of(s);
    let pv = chars_of(pat);
    let n = sv.len();
    let m = pv.len();
    if m > n {
        return false;
    }
    let last = n - m;
    let mut i: usize = 0;
    while i < last
        invariant
            last == n - m,
            n == sv@.len(),
            m == pv@.len(),
            sv@ == s@,
            pv@ == pat@,
            i <= last,
            forall|k: int| 0 <= k < i ==> !occurs_at(s@, k, pat@),
        decreases last - i,
    {
        if has_at(&sv, i, &pv) {
            return true;
        }
        i += 1;
    }
    has_at(&sv, last, &pv)
}

/// The position of the first `c` in `s`, or the length of `s` where
/// there is none.
pub open spec fn first_index(s: Seq<char>, c: char) -> int
    decreases s.len(),
{
    if s.len() == 0 || s[0] == c {
        0
    } else {
        1 + first_index(s.skip(1), c)
    }
}

/// The first index lies inside the text or at its end; no `c` stands
/// before it, and where it lies inside, a `c` stands at it.
pub proof fn lemma_first_index(s: Seq<char>, c: char)
    ensures
        0 <= first_index(s, c) <= s.len(),
        forall|j: int| 0 <= j < first_index(s, c) ==> #[trigger] s[j] != c,
        first_index(s, c) < s.len() ==> s[first_index(s, c)] == c,
    decreases s.len(),
{
    if s.len() > 0 && s[0] != c {
        lemma_first_index(s.skip(1), c);
        assert forall|j: int| 0 <= j < first_index(s, c) implies #[trigger] s[j] != c by {
            if j > 0 {
                assert(s.skip(1)[j - 1] == s[j]);
            }
        }
        if first_index(s, c) < s.len() {
            assert(s.skip(1)[first_index(s.skip(1), c)] == s[first_index(s, c)]);
        }
    }
}

/// The first position from `from` on at which `c` stands in `s`, or
/// the length of `s` where there is none.
pub fn find_from(s: &Vec<char>, from: usize, c: char) -> (r: usize)
    requires
        from <= s@.len(),
    ensures
        r == from + first_index(s@.skip(from as int), c),
        from <= r <= s@.len(),
{
    let n = s.len();
    let mut i: usize = from;
    while i < n && s[i] != c
        invariant
            from <= i <= n,
            n == s@.len(),
            forall|j: int| from <= j < i ==> s@[j] != c,
        decreases n - i,
    {
        i += 1;
    }
    proof {
        let rest = s@.skip(from as int);
        lemma_first_index(rest, c);
        let f = first_index(rest, c);
        if f < i - from {
            assert(rest[f] == s@[from + f]);
        }
        if f > i - from {
            assert(rest[i - from] == s@[i as int]);
        }
    }
    i
}

/// The characters of `s` from `start` up to `end`, as a string.
pub fn substring(s: &Vec<char>, start: usize, end: usize) -> (r: String)
    requires
        start <= end <= s@.len(),
    ensures
        r@ == s@.subrange(start as int, end as int),
{
    let mut out = String::new();
    let mut i: usize = start;
    while i < end
        invariant
            start <= i <= end <= s@.len(),
            out@ == s@.subrange(start as int, i as int),
        decreases end - i,
    {
        out.push(s[i]);
        assert(out@ =~= s@.subrange(start as int, i + 1));
        i += 1;
    }
    out
}

/// Whether `c` is white space: among all characters, or among the
/// ASCII characters only.
pub open spec fn is_blank(c: char, ascii: bool) -> bool {
    if ascii {
        c == ' ' || c == '\t' || c == '\n' || c == '\x0c' || c == '\r'
    } else {
        ('\t' <= c && c <= '\r') || c == ' ' || c == '\u{85}' || c == '\u{a0}' || c == '\u{1680}'
            || ('\u{2000}' <= c && c <= '\u{200a}') || c == '\u{2028}' || c == '\u{2029}' || c
            == '\u{202f}' || c == '\u{205f}' || c == '\u{3000}'
    }
}

/// The word `current`, if it has a character.
pub open spec fn word(current: Seq<char>) -> Seq<Seq<char>> {
    if current.len() > 0 {
        seq![current]
    } else {
        Seq::empty()
    }
}

/// The words of `s` when `current` has been read of the first of them:
/// white space ends a word.
pub open spec fn words_after(s: Seq<char>, current: Seq<char>, ascii: bool) -> Seq<Seq<char>>
    decreases s.len(),
{
    if s.len() == 0 {
        word(current)
    } else if is_blank(s[0], ascii) {
        word(current) + words_after(s.skip(1), Seq::empty(), ascii)
    } else {
        words_after(s.skip(1), current.push(s[0]), ascii)
    }
}

/// The words of `s`: the longest runs of characters that are not
/// white space, from left to right.
pub open spec fn words(s: Seq<char>, ascii: bool) -> Seq<Seq<char>> {
    words_after(s, Seq::empty(), ascii)
}

/// The texts of the strings.
pub open spec fn texts(strings: Seq<String>) -> Seq<Seq<char>> {
    Seq::new(strings.len(), |i: int| strings[i]@)
}

/// Tells whether `c` is white space.
pub fn blank(c: char, ascii: bool) -> (r: bool)
    ensures
        r == is_blank(c, ascii),
{
    if ascii {
        c == ' ' || c == '\t' || c == '\n' || c == '\x0c' || c == '\r'
    } else {
        ('\t' <= c && c <= '\r') || c == ' ' || c == '\u{85}' || c == '\u{a0}' || c == '\u{1680}'
            || ('\u{2000}' <= c && c <= '\u{200a}') || c == '\u{2028}' || c == '\u{2029}' || c
            == '\u{202f}' || c == '\u{205f}' || c == '\u{3000}'
    }
}

/// Splits `s` into its words.
pub fn split_words(s: &str, ascii: bool) -> (r: Vec<String>)
    ensures
        texts(r@) == words(s@, ascii),
{
    let chars = chars_of(s);
    let n = chars.len();
    let mut out: Vec<String> = Vec::new();
    let mut current = String::new();
    let mut filled = false;
    let mut i: usize = 0;
    assert(s@.skip(0) =~= s@);
    assert(texts(out@) + words_after(s@, current@, ascii) =~= words(s@, ascii));
    while i < n
        invariant
            i <= n,
            n == chars@.len(),
            chars@ == s@,
            filled == (current@.len() > 0),
            texts(out@) + words_after(s@.skip(i as int), current@, ascii) == words(s@, ascii),
        decreases n - i,
    {
        let ghost rest = s@.skip(i as int);
        let ghost before = texts(out@);
        let ghost unfinished = current@;
        assert(rest[0] == chars@[i as int]);
        assert(rest.skip(1) =~= s@.skip(i + 1));
        let c = chars[i];
        if blank(c, ascii) {
            if filled {
                out.push(current);
                assert(texts(out@) =~= before + word(unfinished));
            }
            current = String::new();
            filled = false;
            assert(texts(out@) + words_after(rest.skip(1), current@, ascii) =~= before
                + words_after(rest, unfinished, ascii));
        } else {
            current.push(c);
            filled = true;
        }
        i += 1;
    }
    assert(s@.skip(n as int).len() == 0);
    let ghost before = texts(out@);
    let ghost unfinished = current@;
    if filled {
        out.push(current);
        assert(texts(out@) =~= before + word(unfinished));
    }
    out
}

/// How many white-space characters `s` starts with.
pub open spec fn leading_blanks(s: Seq<char>) -> nat
    decreases s.len(),
{
    if s.len() == 0 || !is_blank(s[0], false) {
        0
    } else {
        1 + leading_blanks(s.skip(1))
    }
}

/// How many white-space characters `s` ends with.
pub open spec fn trailing_blanks(s: Seq<char>) -> nat
    decreases s.len(),
{
    if s.len() == 0 || !is_blank(s.last(), false) {
        0
    } else {
        1 + trailing_blanks(s.drop_last())
    }
}

/// `s` without the white space at its start and at its end.
pub open spec fn trimmed(s: Seq<char>) -> Seq<char> {
    let rest = s.skip(leading_blanks(s) as int);
    rest.take(rest.len() - trailing_blanks(rest))
}

/// A text that starts with `i` white-space characters, followed by the
/// end or by another character, has `i` leading blanks.
proof fn lemma_leading_blanks(s: Seq<char>, i: int)
    requires
        0 <= i <= s.len(),
        forall|j: int| 0 <= j < i ==> is_blank(#[trigger] s[j], false),
        i == s.len() || !is_blank(s[i], false),
    ensures
        leading_blanks(s) == i,
    decreases i,
{
    if i > 0 {
        assert(is_blank(s[0], false));
        assert forall|j: int| 0 <= j < i - 1 implies is_blank(#[trigger] s.skip(1)[j], false) by {
            assert(s.skip(1)[j] == s[j + 1]);
        }
        lemma_leading_blanks(s.skip(1), i - 1);
    }
}

/// A text that ends with `k` white-space characters, preceded by the
/// start or by another character, has `k` trailing blanks.
proof fn lemma_trailing_blanks(s: Seq<char>, k: int)
    requires
        0 <= k <= s.len(),
        forall|j: int| s.len() - k <= j < s.len() ==> is_blank(#[trigger] s[j], false),
        k == s.len() || !is_blank(s[s.len() - k - 1], false),
    ensures
        trailing_blanks(s) == k,
    decreases k,
{
    if k > 0 {
        assert(is_blank(s[s.len() - 1], false));
        assert forall|j: int| s.drop_last().len() - (k - 1) <= j < s.drop_last().len() implies is_blank(
            #[trigger] s.drop_last()[j],
            false,
        ) by {
            assert(s.drop_last()[j] == s[j]);
        }
        if k - 1 < s.drop_last().len() {
            assert(s.drop_last()[s.drop_last().len() - (k - 1) - 1] == s[s.len() - k - 1]);
        }
        lemma_trailing_blanks(s.drop_last(), k - 1);
    }
}

/// `s` without the white space at its start and at its end.
pub fn trim(s: &str) -> (r: String)
    ensures
        r@ == trimmed(s@),
{
    let chars = chars_of(s);
    let n = chars.len();
    let mut start: usize = 0;
    while start < n && blank(chars[start], false)
        invariant
            start <= n,
            n == chars@.len(),
            forall|j: int| 0 <= j < start ==> is_blank(#[trigger] chars@[j], false),
        decreases n - start,
    {
        start += 1;
    }
    let mut end: usize = n;
    while end > start && blank(chars[end - 1], false)
        invariant
            start <= end <= n,
            n == chars@.len(),
            forall|j: int| end <= j < n ==> is_blank(#[trigger] chars@[j], false),
        decreases end,
    {
        end -= 1;
    }
    proof {
        lemma_leading_blanks(chars@, start as int);
        let rest = chars@.skip(start as int);
        assert forall|j: int| rest.len() - (n - end) <= j < rest.len() implies is_blank(
            #[trigger] rest[j],
            false,
        ) by {
            assert(rest[j] == chars@[j + start]);
        }
        if n - end < rest.len() {
            assert(rest[rest.len() - (n - end) - 1] == chars@[end - 1]);
        }
        lemma_trailing_blanks(rest, n - end);
        assert(rest.take(rest.len() - (n - end)) =~= chars@.subrange(start as int, end as int));
    }
    substring(&chars, start, end)
}

/// The number of bytes that `c` takes in UTF-8.
pub open spec fn utf8_len(c: char) -> nat {
    if (c as u32) <= 0x7F {
        1
    } else if (c as u32) <= 0x7FF {
        2
    } else if (c as u32) <= 0xFFFF {
        3
    } else {
        4
    }
}

/// The number of bytes that `s` takes in UTF-8.
pub open spec fn byte_len(s: Seq<char>) -> nat
    decreases s.len(),
{
    if s.len() == 0 {
        0
    } else {
        utf8_len(s[0]) + byte_len(s.drop_first())
    }
}

/// The number of bytes of a text is the length of its UTF-8 encoding.
pub proof fn lemma_byte_len_is_encoded_len(s: Seq<char>)
    ensures
        byte_len(s) == vstd::utf8::encode_utf8(s).len(),
    decreases s.len(),
{
    if s.len() > 0 {
        lemma_byte_len_is_encoded_len(s.drop_first());
        lemma_utf8_len_is_encoded_len(char_at(s, 0));
    }
}

/// The number of bytes of a character is the length of its UTF-8
/// encoding.
pub proof fn lemma_utf8_len_is_encoded_len(c: char)
    ensures
        utf8_len(c) == vstd::utf8::encode_scalar(c as u32).len(),
{
}

/// One more character adds its bytes to those of the text before it.
pub proof fn lemma_byte_len_step(s: Seq<char>, i: int)
    requires
        0 <= i < s.len(),
    ensures
        byte_len(s.take(i + 1)) == byte_len(s.take(i)) + utf8_len(s[i]),
    decreases i,
{
    if i == 0 {
        assert(s.take(1).drop_first() =~= Seq::<char>::empty());
        assert(s.take(0) =~= Seq::<char>::empty());
        assert(s.take(1)[0] == s[0]);
    } else {
        let rest = s.drop_first();
        lemma_byte_len_step(rest, i - 1);
        assert(s.take(i + 1).drop_first() =~= rest.take(i));
        assert(s.take(i).drop_first() =~= rest.take(i - 1));
        assert(s.take(i + 1)[0] == s[0]);
        assert(s.take(i)[0] == s[0]);
        assert(rest[i - 1] == s[i]);
    }
}

/// A part of a text from its start takes no more bytes than the text.
pub proof fn lemma_byte_len_grows(s: Seq<char>, i: int)
    requires
        0 <= i <= s.len(),
    ensures
        byte_len(s.take(i)) <= byte_len(s),
    decreases s.len() - i,
{
    if i < s.len() {
        lemma_byte_len_step(s, i);
        lemma_byte_len_grows(s, i + 1);
    } else {
        assert(s.take(i) =~= s);
    }
}

/// The number of bytes that `c` takes in UTF-8.
pub fn char_len(c: char) -> (r: usize)
    ensures
        r == utf8_len(c),
{
    if c <= '\u{7f}' {
        1
    } else if c <= '\u{7ff}' {
        2
    } else if c <= '\u{ffff}' {
        3
    } else {
        4
    }
}

/// For each position in `s`, from its start to its end, the number of
/// bytes that the characters before the position take in UTF-8.
pub fn byte_offsets(s: &str) -> (r: Vec<usize>)
    ensures
        r@.len() == s@.len() + 1,
        forall|i: int| 0 <= i <= s@.len() ==> #[trigger] r@[i] == byte_len(s@.take(i)),
{
    let chars = chars_of(s);
    let total = s.as_bytes().len();
    proof {
        lemma_byte_len_is_encoded_len(s@);
    }
    let n = chars.len();
    let mut offsets: Vec<usize> = Vec::new();
    offsets.push(0);
    assert(s@.take(0) =~= Seq::<char>::empty());
    let mut i: usize = 0;
    while i < n
        invariant
            i <= n,
            n == chars@.len(),
            chars@ == s@,
            byte_len(s@) == total,
            offsets@.len() == i + 1,
            forall|j: int| 0 <= j <= i ==> #[trigger] offsets@[j] == byte_len(s@.take(j)),
        decreases n - i,
    {
        proof {
            lemma_byte_len_step(s@, i as int);
            lemma_byte_len_grows(s@, i + 1);
        }
        let next = offsets[i] + char_len(chars[i]);
        offsets.push(next);
        i += 1;
    }
    offsets
}

} // verus!
