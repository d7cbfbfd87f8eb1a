use spotifly::text::{chars_of, find_in_span, matches_at, span_starts_with, split};

fn chars(s: &str) -> Vec<char> {
    s.chars().collect()
}

fn pieces(text: &str, from: usize, sep: char) -> Vec<String> {
    let text = chars(text);
    split(&text, from, sep).into_iter().map(|(a, b)| text[a..b].iter().collect()).collect()
}

#[test]
fn chars_of_lists_every_character() {
    assert_eq!(chars_of(""), Vec::<char>::new());
    assert_eq!(chars_of("a→b"), vec!['a', '→', 'b']);
}

#[test]
fn matches_at_compares_in_place() {
    let text = chars("hello world");
    assert!(matches_at(&text, 0, &chars("hello")));
    assert!(matches_at(&text, 6, &chars("world")));
    assert!(!matches_at(&text, 7, &chars("world")));
    assert!(!matches_at(&text, 1, &chars("hello")));
    assert!(matches_at(&text, 11, &chars("")));
    assert!(!matches_at(&text, 12, &chars("")));
    assert!(!matches_at(&text, usize::MAX, &chars("h")));
    assert!(!matches_at(&chars("ab"), 0, &chars("abc")));
}

#[test]
fn split_cuts_at_every_separator() {
    assert_eq!(pieces("a/b/c", 0, '/'), vec!["a", "b", "c"]);
    assert_eq!(pieces("", 0, '/'), vec![""]);
    assert_eq!(pieces("/", 0, '/'), vec!["", ""]);
    assert_eq!(pieces("a//b/", 0, '/'), vec!["a", "", "b", ""]);
    assert_eq!(pieces("abc", 0, '/'), vec!["abc"]);
    assert_eq!(pieces("x/a/b", 2, '/'), vec!["a", "b"]);
    assert_eq!(pieces("x/a/b", 5, '/'), vec![""]);
    assert_eq!(pieces("ä/ö", 0, '/'), vec!["ä", "ö"]);
}

#[test]
fn span_prefix_stays_inside_the_span() {
    let text = chars("intl-de/track");
    assert!(span_starts_with(&text, (0, 7), &chars("intl-")));
    assert!(span_starts_with(&text, (0, 5), &chars("intl-")));
    assert!(!span_starts_with(&text, (0, 4), &chars("intl-")));
    assert!(!span_starts_with(&text, (8, 13), &chars("intl-")));
    assert!(span_starts_with(&text, (8, 13), &chars("")));
    assert!(span_starts_with(&text, (13, 13), &chars("")));
    assert!(!span_starts_with(&text, (13, 13), &chars("i")));
}

#[test]
fn find_in_span_stops_at_the_first_stop() {
    let text = chars("ab?cd?e");
    assert_eq!(find_in_span(&text, (0, 7), '?'), 2);
    assert_eq!(find_in_span(&text, (3, 7), '?'), 5);
    assert_eq!(find_in_span(&text, (3, 5), '?'), 5);
    assert_eq!(find_in_span(&text, (2, 7), '?'), 2);
    assert_eq!(find_in_span(&text, (6, 7), '?'), 7);
    assert_eq!(find_in_span(&text, (4, 4), '?'), 4);
}
