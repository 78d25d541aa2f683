//! Reading lines and fields out of a text, by position.
//!
//! A text is a sequence of characters; a piece of it is named by the
//! positions where it starts and ends. Nothing is copied until a piece is
//! kept.

use itertools::Itertools;
use vstd::prelude::*;

verus! {

/// The piece of a text from `start` up to, not including, `end`.
#[derive(Clone, Copy, Debug, PartialEq, Eq, Structural)]
pub struct Span {
    pub start: usize,
    pub end: usize,
}

/// White space: the characters that have the Unicode property of that name.
pub open spec fn is_space(c: char) -> bool {
    ||| '\u{9}' <= c <= '\u{d}'
    ||| c == ' '
    ||| c == '\u{85}'
    ||| c == '\u{a0}'
    ||| c == '\u{1680}'
    ||| '\u{2000}' <= c <= '\u{200a}'
    ||| c == '\u{2028}'
    ||| c == '\u{2029}'
    ||| c == '\u{202f}'
    ||| c == '\u{205f}'
    ||| c == '\u{3000}'
}

/// The first position in `from..to` that holds no white space, or `to`.
pub open spec fn trim_start(s: Seq<char>, from: int, to: int) -> int
    decreases to - from,
{
    if from >= to {
        to
    } else if is_space(s[from]) {
        trim_start(s, from + 1, to)
    } else {
        from
    }
}

/// The end of `from..to` once the white space at its end is left off.
pub open spec fn trim_end(s: Seq<char>, from: int, to: int) -> int
    decreases to - from,
{
    if to <= from {
        from
    } else if is_space(s[to - 1]) {
        trim_end(s, from, to - 1)
    } else {
        to
    }
}

/// The piece without the white space at either end.
pub open spec fn trimmed(s: Seq<char>, span: Span) -> Span {
    let start = trim_start(s, span.start as int, span.end as int);
    Span { start: start as usize, end: trim_end(s, start, span.end as int) as usize }
}

/// The pieces that the bars `|` cut `start..to` into, where `start..at` has
/// been seen to hold no bar. There is always one piece more than bars.
pub open spec fn fields_from(s: Seq<char>, start: int, at: int, to: int) -> Seq<Span>
    decreases to - at,
{
    if at >= to {
        seq![Span { start: start as usize, end: to as usize }]
    } else if s[at] == '|' {
        seq![Span { start: start as usize, end: at as usize }] + fields_from(s, at + 1, at + 1, to)
    } else {
        fields_from(s, start, at + 1, to)
    }
}

/// The pieces that the bars `|` cut `span` into.
pub open spec fn fields(s: Seq<char>, span: Span) -> Seq<Span> {
    fields_from(s, span.start as int, span.start as int, span.end as int)
}

impl Span {
    /// The piece lies within a text of `len` characters.
    pub open spec fn fits(self, len: nat) -> bool {
        self.start <= self.end <= len
    }

    /// The piece lies within `outer`.
    pub open spec fn within(self, outer: Span) -> bool {
        outer.start <= self.start <= self.end <= outer.end
    }

    /// The characters of the piece.
    pub open spec fn of(self, s: Seq<char>) -> Seq<char> {
        s.subrange(self.start as int, self.end as int)
    }

    /// The piece holds no character.
    pub open spec fn is_empty(self) -> bool {
        self.start == self.end
    }
}

/// The characters of `text`, one by one.
pub fn chars_of(text: &str) -> (chars: Vec<char>)
    ensures
        chars@ == text@,
{
    let mut chars: Vec<char> = Vec::new();
    for c in it: text.chars()
        invariant
            chars@ == it.seq().take(it.index()),
            it.seq() == text@,
    {
        chars.push(c);
    }
    chars
}

/// Whether `c` is white space.
pub fn is_whitespace(c: char) -> (space: bool)
    ensures
        space == is_space(c),
{
    (c >= '\u{9}' && c <= '\u{d}') || c == ' ' || c == '\u{85}' || c == '\u{a0}' || c == '\u{1680}' || (c
        >= '\u{2000}' && c <= '\u{200a}') || c == '\u{2028}' || c == '\u{2029}' || c == '\u{202f}' || c
        == '\u{205f}' || c == '\u{3000}'
}

/// The piece without the white space at either end.
pub fn trim(s: &Vec<char>, span: Span) -> (inner: Span)
    requires
        span.fits(s@.len()),
    ensures
        inner == trimmed(s@, span),
        inner.within(span),
        !inner.is_empty() ==> !is_space(s@[inner.start as int]),
{
    let mut start = span.start;
    while start < span.end && is_whitespace(s[start])
        invariant
            span.start <= start <= span.end <= s@.len(),
            trim_start(s@, span.start as int, span.end as int) == trim_start(
                s@,
                start as int,
                span.end as int,
            ),
        decreases span.end - start,
    {
        start += 1;
    }
    let mut end = span.end;
    while start < end && is_whitespace(s[end - 1])
        invariant
            start <= end <= span.end <= s@.len(),
            trim_end(s@, start as int, span.end as int) == trim_end(s@, start as int, end as int),
            start < span.end ==> !is_space(s@[start as int]),
        decreases end - start,
    {
        end -= 1;
    }
    Span { start, end }
}

/// The pieces that the bars `|` cut `span` into, in order.
pub fn split_fields(s: &Vec<char>, span: Span) -> (pieces: Vec<Span>)
    requires
        span.fits(s@.len()),
    ensures
        pieces@ == fields(s@, span),
        forall|i: int| 0 <= i < pieces@.len() ==> (#[trigger] pieces@[i]).within(span),
{
    let mut pieces: Vec<Span> = Vec::new();
    let mut start = span.start;
    let mut at = span.start;
    while at < span.end
        invariant
            span.start <= start <= at <= span.end <= s@.len(),
            fields(s@, span) == pieces@ + fields_from(s@, start as int, at as int, span.end as int),
            forall|i: int| 0 <= i < pieces@.len() ==> (#[trigger] pieces@[i]).within(span),
        decreases span.end - at,
    {
        if s[at] == '|' {
            let ghost rest = fields_from(s@, at + 1, at + 1, span.end as int);
            let ghost piece = Span { start, end: at };
            assert(pieces@ + (seq![piece] + rest) =~= pieces@.push(piece) + rest);
            pieces.push(Span { start, end: at });
            start = at + 1;
        }
        at += 1;
    }
    assert(pieces@ + seq![Span { start, end: span.end }] =~= pieces@.push(
        Span { start, end: span.end },
    ));
    pieces.push(Span { start, end: span.end });
    pieces
}

/// Three pieces as a triple, and nothing for any other number of pieces.
///
/// Calls `Itertools::collect_tuple` of the `itertools` crate for a tuple of
/// three on the iterator that owns the pieces. `collect_tuple` takes as many
/// items as the tuple has places and returns them exactly if the iterator
/// had that many and is then exhausted.
#[verifier::external_body]
pub(crate) fn collect_triple(pieces: Vec<Span>) -> (triple: Option<(Span, Span, Span)>)
    ensures
        triple == if pieces@.len() == 3 {
            Some((pieces@[0], pieces@[1], pieces@[2]))
        } else {
            None
        },
{
    pieces.into_iter().collect_tuple()
}

} // verus!
