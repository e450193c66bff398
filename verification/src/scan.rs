//! Splitting at a separator and trimming, as `str::split`, `str::trim` and
//! `str::trim_start_matches` do for a single character.
//!
//! The executable scanners work on the characters of a string held in a
//! `Vec<char>` and describe each piece by a [`Span`] of indices into it.

use vstd::prelude::*;
use crate::text::{char_is_whitespace, is_whitespace, to_chars};

verus! {

/// The pieces of `s` between occurrences of `sep`. There is always at least
/// one piece; two separators in a row enclose an empty piece.
pub open spec fn split(s: Seq<char>, sep: char) -> Seq<Seq<char>>
    decreases s.len(),
{
    if s.len() == 0 {
        seq![Seq::<char>::empty()]
    } else {
        let init = split(s.drop_last(), sep);
        if s.last() == sep {
            init.push(Seq::<char>::empty())
        } else {
            init.drop_last().push(init.last().push(s.last()))
        }
    }
}

/// The pieces written one after another with `sep` between neighbours.
pub open spec fn join(pieces: Seq<Seq<char>>, sep: char) -> Seq<char>
    decreases pieces.len(),
{
    if pieces.len() == 0 {
        Seq::<char>::empty()
    } else if pieces.len() == 1 {
        pieces[0]
    } else {
        join(pieces.drop_last(), sep).push(sep) + pieces.last()
    }
}

/// `s` without its leading occurrences of `c`.
pub open spec fn strip_leading(s: Seq<char>, c: char) -> Seq<char>
    decreases s.len(),
{
    if s.len() > 0 && s[0] == c {
        strip_leading(s.drop_first(), c)
    } else {
        s
    }
}

/// `s` without its leading whitespace.
pub open spec fn trim_start(s: Seq<char>) -> Seq<char>
    decreases s.len(),
{
    if s.len() > 0 && is_whitespace(s[0]) {
        trim_start(s.drop_first())
    } else {
        s
    }
}

/// `s` without its trailing whitespace.
pub open spec fn trim_end(s: Seq<char>) -> Seq<char>
    decreases s.len(),
{
    if s.len() > 0 && is_whitespace(s.last()) {
        trim_end(s.drop_last())
    } else {
        s
    }
}

/// `s` without leading and trailing whitespace.
pub open spec fn trim(s: Seq<char>) -> Seq<char> {
    trim_end(trim_start(s))
}

/// There is always a first piece.
pub proof fn lemma_split_first(s: Seq<char>, sep: char)
    ensures
        split(s, sep).len() >= 1,
    decreases s.len(),
{
    if s.len() > 0 {
        lemma_split_first(s.drop_last(), sep);
    }
}

/// Splitting loses nothing: no piece holds the separator, and joining the
/// pieces with the separator gives the string back.
pub proof fn lemma_split_join(s: Seq<char>, sep: char)
    ensures
        split(s, sep).len() >= 1,
        forall|k: int, j: int|
            0 <= k < split(s, sep).len() && 0 <= j < split(s, sep)[k].len() ==> split(
                s,
                sep,
            )[k][j] != sep,
        join(split(s, sep), sep) == s,
    decreases s.len(),
{
    let parts = split(s, sep);
    if s.len() == 0 {
        assert(join(parts, sep) =~= s);
    } else {
        let init = split(s.drop_last(), sep);
        lemma_split_join(s.drop_last(), sep);
        if s.last() == sep {
            assert(parts.drop_last() =~= init);
            assert(join(parts, sep) =~= s);
        } else {
            let grown = init.last().push(s.last());
            assert(parts.drop_last() =~= init.drop_last());
            assert(parts.last() == grown);
            if init.len() == 1 {
                assert(init[0] == init.last());
                assert(join(init, sep) == init[0]);
                assert(parts.len() == 1);
                assert(parts[0] == grown);
                assert(s =~= s.drop_last().push(s.last()));
                assert(join(parts, sep) =~= s);
            } else {
                assert(join(init, sep) == join(init.drop_last(), sep).push(sep) + init.last());
                assert(join(parts, sep) == join(init.drop_last(), sep).push(sep) + grown);
                assert(join(parts, sep) =~= s);
            }
            assert forall|k: int, j: int|
                0 <= k < parts.len() && 0 <= j < parts[k].len() implies parts[k][j] != sep by {
                if k < parts.len() - 1 {
                    assert(parts[k] == init[k]);
                } else if j < init.last().len() {
                    assert(parts[k][j] == init.last()[j]);
                }
            }
        }
    }
}

/// A string without the separator is its own single piece.
pub proof fn lemma_split_no_separator(s: Seq<char>, sep: char)
    requires
        forall|i: int| 0 <= i < s.len() ==> s[i] != sep,
    ensures
        split(s, sep) == seq![s],
    decreases s.len(),
{
    if s.len() == 0 {
        assert(s =~= Seq::<char>::empty());
    } else {
        lemma_split_no_separator(s.drop_last(), sep);
        let init = split(s.drop_last(), sep);
        assert(init.last().push(s.last()) =~= s);
        assert(split(s, sep) =~= seq![s]);
    }
}

/// Splitting two strings written with a separator between them gives the
/// pieces of the first followed by the pieces of the second.
pub proof fn lemma_split_concat(a: Seq<char>, b: Seq<char>, sep: char)
    ensures
        split(a.push(sep) + b, sep) == split(a, sep) + split(b, sep),
    decreases b.len(),
{
    let s = a.push(sep) + b;
    if b.len() == 0 {
        assert(s.drop_last() =~= a);
        assert(split(s, sep) =~= split(a, sep) + split(b, sep));
    } else {
        let shorter = b.drop_last();
        lemma_split_concat(a, shorter, sep);
        lemma_split_first(shorter, sep);
        assert(s.drop_last() =~= a.push(sep) + shorter);
        assert(s.last() == b.last());
        assert(split(s, sep) =~= split(a, sep) + split(b, sep));
    }
}

/// Every character is whitespace.
pub open spec fn all_whitespace(s: Seq<char>) -> bool {
    forall|i: int| 0 <= i < s.len() ==> is_whitespace(#[trigger] s[i])
}

/// Trimming removes whitespace from both ends and nothing else: the result
/// is the part of the string between a run of whitespace at the start and a
/// run of whitespace at the end, and has no whitespace at either end.
pub proof fn lemma_trim_ends(s: Seq<char>)
    ensures
        exists|a: int, b: int|
            {
                &&& 0 <= a <= b <= s.len()
                &&& #[trigger] s.subrange(a, b) == trim(s)
                &&& all_whitespace(s.subrange(0, a))
                &&& all_whitespace(s.subrange(b, s.len() as int))
                &&& a < b ==> !is_whitespace(s[a]) && !is_whitespace(s[b - 1])
            },
{
    let a = lemma_trim_start_suffix(s);
    let t = trim_start(s);
    let b = lemma_trim_end_prefix(t);
    assert(s.subrange(a, a + b) =~= trim(s));
    assert forall|i: int| 0 <= i < s.len() - (a + b) implies is_whitespace(
        #[trigger] s.subrange(a + b, s.len() as int)[i],
    ) by {
        assert(s.subrange(a + b, s.len() as int)[i] == t.subrange(b, t.len() as int)[i]);
    }
    if a < a + b {
        assert(t[0] == s[a]);
        assert(trim(s).last() == s[a + b - 1]);
    }
}

/// A string that neither begins nor ends with whitespace is left as it is.
pub proof fn lemma_trim_identity(s: Seq<char>)
    requires
        s.len() > 0 ==> !is_whitespace(s[0]) && !is_whitespace(s.last()),
    ensures
        trim(s) == s,
{
}

proof fn lemma_trim_start_suffix(s: Seq<char>) -> (a: int)
    ensures
        0 <= a <= s.len(),
        trim_start(s) == s.subrange(a, s.len() as int),
        all_whitespace(s.subrange(0, a)),
        a < s.len() ==> !is_whitespace(s[a]),
    decreases s.len(),
{
    if s.len() > 0 && is_whitespace(s[0]) {
        let rest = s.drop_first();
        let a = lemma_trim_start_suffix(rest);
        assert(rest.subrange(a, rest.len() as int) =~= s.subrange(a + 1, s.len() as int));
        assert forall|i: int| 0 <= i < a + 1 implies is_whitespace(
            #[trigger] s.subrange(0, a + 1)[i],
        ) by {
            if i > 0 {
                assert(s.subrange(0, a + 1)[i] == rest.subrange(0, a)[i - 1]);
            }
        }
        a + 1
    } else {
        assert(s =~= s.subrange(0, s.len() as int));
        0
    }
}

proof fn lemma_trim_end_prefix(s: Seq<char>) -> (b: int)
    ensures
        0 <= b <= s.len(),
        trim_end(s) == s.subrange(0, b),
        all_whitespace(s.subrange(b, s.len() as int)),
        0 < b ==> !is_whitespace(s[b - 1]),
    decreases s.len(),
{
    if s.len() > 0 && is_whitespace(s.last()) {
        let init = s.drop_last();
        let b = lemma_trim_end_prefix(init);
        assert(init.subrange(0, b) =~= s.subrange(0, b));
        assert forall|i: int| 0 <= i < s.len() - b implies is_whitespace(
            #[trigger] s.subrange(b, s.len() as int)[i],
        ) by {
            if i < init.len() - b {
                assert(s.subrange(b, s.len() as int)[i] == init.subrange(b, init.len() as int)[i]);
            }
        }
        b
    } else {
        assert(s =~= s.subrange(0, s.len() as int));
        s.len() as int
    }
}

/// A range of character positions, `start` included and `end` excluded.
#[derive(Clone, Copy)]
pub struct Span {
    pub start: usize,
    pub end: usize,
}

impl Span {
    /// The span lies between `from` and `to` and is not reversed.
    pub open spec fn within(self, from: int, to: int) -> bool {
        from <= self.start <= self.end <= to
    }

    /// The characters of `chars` that the span covers.
    pub open spec fn of(self, chars: Seq<char>) -> Seq<char> {
        chars.subrange(self.start as int, self.end as int)
    }
}

/// The character sequences that a list of spans covers.
pub open spec fn pieces(chars: Seq<char>, spans: Seq<Span>) -> Seq<Seq<char>> {
    Seq::new(spans.len(), |k: int| spans[k].of(chars))
}

/// The span of a whole character vector.
pub fn whole(chars: &Vec<char>) -> (span: Span)
    ensures
        span.start == 0,
        span.end == chars.len(),
        span.of(chars@) == chars@,
{
    let span = Span { start: 0, end: chars.len() };
    assert(span.of(chars@) =~= chars@);
    span
}

/// Splits the characters under `span` at each `sep`.
pub fn split_span(chars: &Vec<char>, span: Span, sep: char) -> (spans: Vec<Span>)
    requires
        span.within(0, chars.len() as int),
    ensures
        forall|k: int|
            0 <= k < spans.len() ==> (#[trigger] spans[k]).within(
                span.start as int,
                span.end as int,
            ),
        spans.len() >= 1,
        pieces(chars@, spans@) == split(span.of(chars@), sep),
{
    let mut spans: Vec<Span> = Vec::new();
    let mut start: usize = span.start;
    let mut i: usize = span.start;
    proof {
        let nothing = chars@.subrange(span.start as int, span.start as int);
        assert(nothing =~= Seq::<char>::empty());
        assert(split(nothing, sep) == seq![Seq::<char>::empty()]);
        assert(pieces(chars@, spans@).push(nothing) =~= split(nothing, sep));
    }
    while i < span.end
        invariant
            span.within(0, chars.len() as int),
            span.start <= start <= i <= span.end,
            forall|k: int|
                0 <= k < spans.len() ==> (#[trigger] spans[k]).within(
                    span.start as int,
                    span.end as int,
                ),
            pieces(chars@, spans@).push(chars@.subrange(start as int, i as int)) == split(
                chars@.subrange(span.start as int, i as int),
                sep,
            ),
        decreases span.end - i,
    {
        let ghost seen = chars@.subrange(span.start as int, i as int);
        let ghost next = chars@.subrange(span.start as int, i + 1);
        let ghost done = pieces(chars@, spans@);
        proof {
            assert(next.drop_last() =~= seen);
            assert(next.last() == chars@[i as int]);
            assert(done.push(chars@.subrange(start as int, i as int)).drop_last() =~= done);
        }
        if chars[i] == sep {
            let ghost piece = chars@.subrange(start as int, i as int);
            spans.push(Span { start, end: i });
            start = i + 1;
            proof {
                assert(pieces(chars@, spans@) =~= done.push(piece));
                assert(chars@.subrange(start as int, i + 1) =~= Seq::<char>::empty());
            }
        } else {
            proof {
                assert(chars@.subrange(start as int, i + 1) =~= chars@.subrange(
                    start as int,
                    i as int,
                ).push(chars@[i as int]));
            }
        }
        i = i + 1;
    }
    spans.push(Span { start, end: i });
    proof {
        let all = pieces(chars@, spans@);
        assert(all =~= pieces(chars@, spans@.drop_last()).push(
            chars@.subrange(start as int, i as int),
        ));
        assert(pieces(chars@, spans@.drop_last()) =~= pieces(chars@, spans@).drop_last());
    }
    spans
}

/// Narrows `span` past leading and trailing whitespace.
pub fn trim_span(chars: &Vec<char>, span: Span) -> (t: Span)
    requires
        span.within(0, chars.len() as int),
    ensures
        t.within(span.start as int, span.end as int),
        t.of(chars@) == trim(span.of(chars@)),
{
    let mut a: usize = span.start;
    while a < span.end && char_is_whitespace(chars[a])
        invariant
            span.within(0, chars.len() as int),
            span.start <= a <= span.end,
            trim_start(span.of(chars@)) == trim_start(chars@.subrange(a as int, span.end as int)),
        decreases span.end - a,
    {
        proof {
            let cur = chars@.subrange(a as int, span.end as int);
            assert(cur[0] == chars@[a as int]);
            assert(cur.drop_first() =~= chars@.subrange(a + 1, span.end as int));
        }
        a = a + 1;
    }
    proof {
        let cur = chars@.subrange(a as int, span.end as int);
        if a < span.end {
            assert(cur[0] == chars@[a as int]);
        }
        assert(trim_start(cur) == cur);
    }
    let mut b: usize = span.end;
    while b > a && char_is_whitespace(chars[b - 1])
        invariant
            span.within(0, chars.len() as int),
            span.start <= a <= b <= span.end,
            trim(span.of(chars@)) == trim_end(chars@.subrange(a as int, b as int)),
        decreases b - a,
    {
        proof {
            let cur = chars@.subrange(a as int, b as int);
            assert(cur.last() == chars@[b - 1]);
            assert(cur.drop_last() =~= chars@.subrange(a as int, b - 1));
        }
        b = b - 1;
    }
    proof {
        let cur = chars@.subrange(a as int, b as int);
        if b > a {
            assert(cur.last() == chars@[b - 1]);
        }
        assert(trim_end(cur) == cur);
    }
    Span { start: a, end: b }
}

/// Narrows `span` past leading occurrences of `c`.
pub fn strip_leading_span(chars: &Vec<char>, span: Span, c: char) -> (t: Span)
    requires
        span.within(0, chars.len() as int),
    ensures
        t.within(span.start as int, span.end as int),
        t.end == span.end,
        t.of(chars@) == strip_leading(span.of(chars@), c),
{
    let mut a: usize = span.start;
    while a < span.end && chars[a] == c
        invariant
            span.within(0, chars.len() as int),
            span.start <= a <= span.end,
            strip_leading(span.of(chars@), c) == strip_leading(
                chars@.subrange(a as int, span.end as int),
                c,
            ),
        decreases span.end - a,
    {
        proof {
            let cur = chars@.subrange(a as int, span.end as int);
            assert(cur[0] == chars@[a as int]);
            assert(cur.drop_first() =~= chars@.subrange(a + 1, span.end as int));
        }
        a = a + 1;
    }
    proof {
        let cur = chars@.subrange(a as int, span.end as int);
        if a < span.end {
            assert(cur[0] == chars@[a as int]);
        }
        assert(strip_leading(cur, c) == cur);
    }
    Span { start: a, end: span.end }
}

/// Whether the characters under `span` spell `expected`.
pub fn span_equals(chars: &Vec<char>, span: Span, expected: &str) -> (same: bool)
    requires
        span.within(0, chars.len() as int),
    ensures
        same == (span.of(chars@) == expected@),
{
    let want = to_chars(expected);
    if want.len() != span.end - span.start {
        return false;
    }
    let mut i: usize = 0;
    while i < want.len()
        invariant
            span.within(0, chars.len() as int),
            want@ == expected@,
            want.len() == span.end - span.start,
            i <= want.len(),
            forall|j: int| 0 <= j < i ==> chars@[span.start + j] == want@[j],
        decreases want.len() - i,
    {
        if chars[span.start + i] != want[i] {
            assert(span.of(chars@)[i as int] != expected@[i as int]);
            return false;
        }
        i = i + 1;
    }
    assert(span.of(chars@) =~= expected@);
    true
}

/// The characters under `span` as an owned string. `source` is the string
/// that `chars` was taken from.
pub fn span_to_string(source: &str, chars: &Vec<char>, span: Span) -> (s: String)
    requires
        chars@ == source@,
        span.within(0, chars.len() as int),
    ensures
        s@ == span.of(chars@),
{
    source.substring_char(span.start, span.end).to_owned()
}

} // verus!
