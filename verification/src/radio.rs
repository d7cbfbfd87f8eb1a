//! Reading the answer of the radio service.
//!
//! The service answers a seed track with text. Whatever the layout of that
//! text, the identifiers that it names stand in it as words: runs of letters,
//! digits and colons that begin with the scheme of canonical identifiers.

use crate::resolve::texts;
use crate::text::{chars_of, span_starts_with, spans, spans_within, starts_with};
use crate::uri::scheme;
use vstd::prelude::*;
use vstd::string::*;

verus! {

/// The character can stand in an identifier: a letter or a digit of ASCII, or
/// a colon.
pub open spec fn is_identifier_char(c: char) -> bool {
    ||| 'a' <= c <= 'z'
    ||| 'A' <= c <= 'Z'
    ||| '0' <= c <= '9'
    ||| c == ':'
}

/// Whether the character can stand in an identifier.
pub fn identifier_char(c: char) -> (yes: bool)
    ensures
        yes == is_identifier_char(c),
{
    ('a' <= c && c <= 'z') || ('A' <= c && c <= 'Z') || ('0' <= c && c <= '9') || c == ':'
}

/// The words of a text: its longest runs of identifier characters, in order,
/// with an empty word wherever two other characters meet and at either end
/// where the text does not end in a word. The definition walks the text from
/// the left: an identifier character lengthens the word that is open, any
/// other character closes it and opens a new one.
pub open spec fn words(s: Seq<char>) -> Seq<Seq<char>>
    decreases s.len(),
{
    if s.len() == 0 {
        seq![Seq::empty()]
    } else {
        let before = words(s.drop_last());
        if is_identifier_char(s.last()) {
            before.drop_last().push(before.last().push(s.last()))
        } else {
            before.push(Seq::empty())
        }
    }
}

/// The word is an identifier by its beginning.
pub open spec fn begins_as_identifier(word: Seq<char>) -> bool {
    starts_with(word, scheme())
}

/// The identifiers that a text names: its words that begin with the scheme
/// of canonical identifiers, in their order.
pub open spec fn identifiers(s: Seq<char>) -> Seq<Seq<char>> {
    words(s).filter(|word: Seq<char>| begins_as_identifier(word))
}

/// Cuts `text` into its words, each given as a half-open range of offsets.
fn split_words(text: &Vec<char>) -> (ranges: Vec<(usize, usize)>)
    ensures
        spans(text@, ranges@) == words(text@),
        spans_within(ranges@, text@.len()),
{
    let len: usize = text.len();
    let mut ranges: Vec<(usize, usize)> = Vec::new();
    let mut start: usize = 0;
    let mut i: usize = 0;
    assert(text@.subrange(0, 0) == Seq::<char>::empty());
    while i < len
        invariant
            len == text.len(),
            start <= i <= len,
            spans_within(ranges@, text@.len()),
            words(text@.subrange(0, i as int)) == spans(text@, ranges@).push(
                text@.subrange(start as int, i as int),
            ),
        decreases len - i,
    {
        let ghost open = text@.subrange(start as int, i as int);
        assert(text@.subrange(0, i + 1).drop_last() == text@.subrange(0, i as int));
        if identifier_char(text[i]) {
            assert(text@.subrange(start as int, i + 1) == open.push(text@[i as int]));
        } else {
            ranges.push((start, i));
            start = i + 1;
            assert(text@.subrange(start as int, i + 1) == Seq::<char>::empty());
        }
        i += 1;
    }
    assert(text@.subrange(0, len as int) == text@);
    ranges.push((start, len));
    ranges
}

/// The identifiers that the answer of the radio service names, in the order
/// in which they stand in it.
pub fn identifiers_in(answer: &str) -> (found: Vec<String>)
    ensures
        texts(found@) == identifiers(answer@),
{
    let text = chars_of(answer);
    let ranges = split_words(&text);
    let prefix = chars_of("spotify:");
    let ghost all = spans(text@, ranges@);
    let ghost keep = |word: Seq<char>| begins_as_identifier(word);
    let mut found: Vec<String> = Vec::new();
    let mut k: usize = 0;
    assert(texts(found@) == all.take(0).filter(keep)) by {
        reveal(Seq::filter);
    }
    while k < ranges.len()
        invariant
            k <= ranges.len(),
            text@ == answer@,
            prefix@ == scheme(),
            all == spans(text@, ranges@),
            keep == |word: Seq<char>| begins_as_identifier(word),
            spans_within(ranges@, text@.len()),
            texts(found@) == all.take(k as int).filter(keep),
        decreases ranges.len() - k,
    {
        let span = ranges[k];
        assert(all.take(k + 1).drop_last() == all.take(k as int));
        reveal(Seq::filter);
        if span_starts_with(&text, span, &prefix) {
            let mut word = String::new();
            word.append(answer.substring_char(span.0, span.1));
            found.push(word);
        }
        k += 1;
    }
    assert(all.take(k as int) == all);
    found
}

} // verus!
