//! Searching and splitting character sequences.

use vstd::prelude::*;

verus! {

/// `pattern` stands in `s` at offset `at`.
pub open spec fn occurs_at(s: Seq<char>, pattern: Seq<char>, at: int) -> bool {
    &&& 0 <= at
    &&& at + pattern.len() <= s.len()
    &&& s.subrange(at, at + pattern.len()) == pattern
}

/// `s` begins with `prefix`.
pub open spec fn starts_with(s: Seq<char>, prefix: Seq<char>) -> bool {
    occurs_at(s, prefix, 0)
}

/// The part of `s` before the first `stop`, or all of `s` where there is none.
pub open spec fn until(s: Seq<char>, stop: char) -> Seq<char> {
    match s.index_of_first(stop) {
        Some(at) => s.take(at),
        None => s,
    }
}

/// The pieces of `s` between occurrences of `sep`, in order. There is always
/// one piece more than there are separators, so the empty sequence has one
/// empty piece. The definition walks `s` from the left: a separator opens a new
/// piece, any other character lengthens the piece that is open.
pub open spec fn segments(s: Seq<char>, sep: char) -> Seq<Seq<char>>
    decreases s.len(),
{
    if s.len() == 0 {
        seq![Seq::empty()]
    } else {
        let before = segments(s.drop_last(), sep);
        if s.last() == sep {
            before.push(Seq::empty())
        } else {
            before.drop_last().push(before.last().push(s.last()))
        }
    }
}

/// The pieces of `text` that a list of half-open index ranges cuts out.
pub open spec fn spans(text: Seq<char>, ranges: Seq<(usize, usize)>) -> Seq<Seq<char>> {
    Seq::new(ranges.len(), |k: int| text.subrange(ranges[k].0 as int, ranges[k].1 as int))
}

/// Every range lies inside a text of `len` characters.
pub open spec fn spans_within(ranges: Seq<(usize, usize)>, len: nat) -> bool {
    forall|k: int| 0 <= k < ranges.len() ==> (#[trigger] ranges[k]).0 <= ranges[k].1 <= len
}

/// The first piece of a text is the text up to its first separator, and it is
/// the only piece exactly where the text holds no separator.
pub proof fn lemma_first_segment(s: Seq<char>, sep: char)
    ensures
        segments(s, sep).len() >= 1,
        segments(s, sep)[0] == until(s, sep),
        segments(s, sep).len() == 1 <==> !s.contains(sep),
    decreases s.len(),
{
    s.index_of_first_ensures(sep);
    if s.len() > 0 {
        let front = s.drop_last();
        lemma_first_segment(front, sep);
        front.index_of_first_ensures(sep);
        assert(s == front.push(s.last()));
        match front.index_of_first(sep) {
            Some(at) => {
                assert(s[at] == sep);
                lemma_until_is(s, sep, at);
                assert(s.take(at) == front.take(at));
            },
            None => {
                assert forall|j: int| 0 <= j < front.len() implies s[j] != sep by {
                    assert(front[j] == s[j]);
                    if s[j] == sep {
                        assert(front.contains(sep));
                    }
                }
                if s.last() == sep {
                    assert(s[front.len() as int] == sep);
                    lemma_until_is(s, sep, front.len() as int);
                    assert(s.take(front.len() as int) == front);
                } else {
                    lemma_until_is(s, sep, s.len() as int);
                    assert(s.take(s.len() as int) == s);
                    if s.contains(sep) {
                        let j = choose|j: int| 0 <= j < s.len() && s[j] == sep;
                        assert(s[j] != sep);
                    }
                }
            },
        }
    }
}

/// A text that begins with a piece without separator and a separator is cut
/// behind that piece: the piece comes first, and the pieces of what follows
/// the separator come after it.
pub proof fn lemma_segments_cut(head: Seq<char>, tail: Seq<char>, sep: char)
    requires
        !head.contains(sep),
    ensures
        segments(head + seq![sep] + tail, sep) == seq![head] + segments(tail, sep),
    decreases tail.len(),
{
    let whole = head + seq![sep] + tail;
    if tail.len() == 0 {
        lemma_first_segment(head, sep);
        assert(whole.drop_last() == head);
        assert(segments(head, sep) == seq![head]) by {
            head.index_of_first_ensures(sep);
            assert(segments(head, sep)[0] == head);
        }
        assert(segments(whole, sep) == seq![head].push(Seq::<char>::empty()));
        assert(segments(tail, sep) == seq![Seq::<char>::empty()]);
    } else {
        let front = tail.drop_last();
        lemma_segments_cut(head, front, sep);
        lemma_first_segment(front, sep);
        assert(whole.drop_last() == head + seq![sep] + front);
        assert(whole.last() == tail.last());
        let before = segments(front, sep);
        assert((seq![head] + before).last() == before.last());
        assert((seq![head] + before).drop_last() == seq![head] + before.drop_last());
    }
}

/// The first `stop` in `s` is at `at`; `at == s.len()` says that there is none.
pub proof fn lemma_until_is(s: Seq<char>, stop: char, at: int)
    requires
        0 <= at <= s.len(),
        at < s.len() ==> s[at] == stop,
        forall|j: int| 0 <= j < at ==> s[j] != stop,
    ensures
        until(s, stop) == s.take(at),
{
    s.index_of_first_ensures(stop);
}

/// The characters of a string slice, in order.
pub fn chars_of(s: &str) -> (chars: Vec<char>)
    ensures
        chars@ == s@,
{
    broadcast use vstd::string::group_string_axioms;

    let mut chars: Vec<char> = Vec::new();
    for c in it: s.chars()
        invariant
            it.seq() == s@,
            chars@ == it.seq().take(it.index()),
    {
        chars.push(c);
    }
    chars
}

/// Whether `pattern` stands in `text` at offset `at`.
pub fn matches_at(text: &Vec<char>, at: usize, pattern: &Vec<char>) -> (hit: bool)
    ensures
        hit == occurs_at(text@, pattern@, at as int),
{
    let n: usize = pattern.len();
    if n > text.len() || at > text.len() - n {
        return false;
    }
    let mut k: usize = 0;
    while k < n
        invariant
            n == pattern.len(),
            at + n <= text.len(),
            k <= n,
            forall|j: int| 0 <= j < k ==> text@[at + j] == pattern@[j],
        decreases n - k,
    {
        if text[at + k] != pattern[k] {
            return false;
        }
        k += 1;
    }
    assert(text@.subrange(at as int, at + n) =~= pattern@);
    true
}

/// Whether the piece of `text` in the range `span` begins with `prefix`.
pub fn span_starts_with(text: &Vec<char>, span: (usize, usize), prefix: &Vec<char>) -> (hit: bool)
    requires
        span.0 <= span.1 <= text.len(),
    ensures
        hit == starts_with(text@.subrange(span.0 as int, span.1 as int), prefix@),
{
    let n: usize = prefix.len();
    let ghost piece = text@.subrange(span.0 as int, span.1 as int);
    if span.1 - span.0 < n {
        return false;
    }
    assert(piece.subrange(0, n as int) == text@.subrange(span.0 as int, span.0 + n));
    matches_at(text, span.0, prefix)
}

/// The offset of the first `stop` inside the range `span` of `text`, or the
/// end of the range where it holds none.
pub fn find_in_span(text: &Vec<char>, span: (usize, usize), stop: char) -> (at: usize)
    requires
        span.0 <= span.1 <= text.len(),
    ensures
        span.0 <= at <= span.1,
        text@.subrange(span.0 as int, at as int) == until(
            text@.subrange(span.0 as int, span.1 as int),
            stop,
        ),
{
    let ghost piece = text@.subrange(span.0 as int, span.1 as int);
    let mut at: usize = span.0;
    while at < span.1 && text[at] != stop
        invariant
            span.0 <= at <= span.1 <= text.len(),
            piece == text@.subrange(span.0 as int, span.1 as int),
            forall|j: int| 0 <= j < at - span.0 ==> piece[j] != stop,
        decreases span.1 - at,
    {
        at += 1;
    }
    proof {
        lemma_until_is(piece, stop, at - span.0);
    }
    at
}

/// Cuts `text` from offset `from` on into the pieces between occurrences of
/// `sep`, each given as a half-open range of offsets into `text`.
pub fn split(text: &Vec<char>, from: usize, sep: char) -> (ranges: Vec<(usize, usize)>)
    requires
        from <= text.len(),
    ensures
        ranges@.len() >= 1,
        spans(text@, ranges@) == segments(text@.skip(from as int), sep),
        spans_within(ranges@, text@.len()),
{
    let len: usize = text.len();
    let mut ranges: Vec<(usize, usize)> = Vec::new();
    let mut start: usize = from;
    let mut i: usize = from;
    assert(text@.subrange(from as int, from as int) == Seq::<char>::empty());
    while i < len
        invariant
            len == text.len(),
            from <= start <= i <= len,
            spans_within(ranges@, text@.len()),
            segments(text@.subrange(from as int, i as int), sep) == spans(text@, ranges@).push(
                text@.subrange(start as int, i as int),
            ),
        decreases len - i,
    {
        let ghost open = text@.subrange(start as int, i as int);
        assert(text@.subrange(from as int, i + 1).drop_last() == text@.subrange(
            from as int,
            i as int,
        ));
        if text[i] == sep {
            ranges.push((start, i));
            start = i + 1;
            assert(text@.subrange(start as int, i + 1) == Seq::<char>::empty());
        } else {
            assert(text@.subrange(start as int, i + 1) == open.push(text@[i as int]));
        }
        i += 1;
    }
    ranges.push((start, len));
    ranges
}

} // verus!
