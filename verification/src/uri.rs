//! Canonical identifiers: rewriting web links and classifying identifiers.

use crate::text::{
    chars_of, find_in_span, matches_at, segments, span_starts_with, split, starts_with, until,
};
use librespot_core::SpotifyUri;
use vstd::prelude::*;
use vstd::string::*;

verus! {

/// What an identifier refers to.
#[derive(Clone, Copy, Debug, PartialEq, Eq, Structural)]
pub enum UriKind {
    Track,
    Album,
    Playlist,
    Artist,
    Episode,
    Show,
    Local,
    Unknown,
}

/// The prefix of every canonical identifier.
pub open spec fn scheme() -> Seq<char> {
    "spotify:"@
}

/// What stands between the kind and the id of a canonical identifier.
pub open spec fn kind_separator() -> Seq<char> {
    ":"@
}

/// How a web link to the service begins: the host directly behind the
/// scheme, with the slash that ends it.
pub open spec fn secure_link_prefix() -> Seq<char> {
    "https://open.spotify.com/"@
}

/// The same without transport security.
pub open spec fn plain_link_prefix() -> Seq<char> {
    "http://open.spotify.com/"@
}

/// How a path segment that names a locale begins.
pub open spec fn locale_prefix() -> Seq<char> {
    "intl-"@
}

/// The path of a web link to the service: what follows the slash behind the
/// host. Text that does not begin as such a link has none; a link to any other
/// host is such text, whatever its path holds.
pub open spec fn link_path(input: Seq<char>) -> Option<Seq<char>> {
    if starts_with(input, secure_link_prefix()) {
        Some(input.skip(secure_link_prefix().len() as int))
    } else if starts_with(input, plain_link_prefix()) {
        Some(input.skip(plain_link_prefix().len() as int))
    } else {
        None
    }
}

/// The segments of a path that say what the link names: the path cut at its
/// slashes, without its first segment where that one names a locale. Only the
/// segment directly behind the host can name a locale; a later segment that
/// begins in the same way is kept. (A path always has a first segment.)
pub open spec fn path_parts(path: Seq<char>) -> Seq<Seq<char>> {
    let all = segments(path, '/');
    if starts_with(all[0], locale_prefix()) {
        all.drop_first()
    } else {
        all
    }
}

/// The canonical form of an identifier.
///
/// A web link to the service whose path, without a leading locale, has two
/// segments or more stands for the identifier made of the first segment as
/// kind and the second, up to its query, as id. Every other text stands for
/// itself: a canonical identifier, a link with a shorter path, a link to
/// another host, and anything else.
pub open spec fn canonical(input: Seq<char>) -> Seq<char> {
    match link_path(input) {
        None => input,
        Some(path) => {
            let parts = path_parts(path);
            if parts.len() >= 2 {
                scheme() + parts[0] + kind_separator() + until(parts[1], '?')
            } else {
                input
            }
        },
    }
}

/// Rewrites a web link to the canonical identifier it stands for; any other
/// text is returned as it is.
pub fn url_to_uri(input: &str) -> (uri: String)
    ensures
        uri@ == canonical(input@),
{
    let text = chars_of(input);
    let secure = chars_of("https://open.spotify.com/");
    let plain = chars_of("http://open.spotify.com/");
    let from: usize = if matches_at(&text, 0, &secure) {
        secure.len()
    } else if matches_at(&text, 0, &plain) {
        plain.len()
    } else {
        return String::from_str(input);
    };
    let ranges = split(&text, from, '/');
    let locale = chars_of("intl-");
    let first: usize = if span_starts_with(&text, ranges[0], &locale) {
        1
    } else {
        0
    };
    if ranges.len() - first < 2 {
        return String::from_str(input);
    }
    let kind = ranges[first];
    let id = ranges[first + 1];
    let id_end = find_in_span(&text, id, '?');
    let mut uri = String::from_str("spotify:");
    uri.append(input.substring_char(kind.0, kind.1));
    uri.append(":");
    uri.append(input.substring_char(id.0, id_end));
    uri
}

/// The kind that `librespot_core::SpotifyUri::from_uri` finds in an identifier,
/// or `None` where it rejects the text.
pub uninterp spec fn spotify_uri_kind(uri: Seq<char>) -> Option<UriKind>;

/// Calls `librespot_core::SpotifyUri::from_uri` and keeps only the variant of
/// what it returns. The parser reads nothing but its argument, so the result
/// is `spotify_uri_kind` of the text; on text that it cannot read it returns
/// an error and does not panic.
#[verifier::external_body]
pub(crate) fn parse_spotify_uri(uri: &str) -> (kind: Option<UriKind>)
    ensures
        kind == spotify_uri_kind(uri@),
{
    match SpotifyUri::from_uri(uri) {
        Ok(SpotifyUri::Track { .. }) => Some(UriKind::Track),
        Ok(SpotifyUri::Album { .. }) => Some(UriKind::Album),
        Ok(SpotifyUri::Playlist { .. }) => Some(UriKind::Playlist),
        Ok(SpotifyUri::Artist { .. }) => Some(UriKind::Artist),
        Ok(SpotifyUri::Episode { .. }) => Some(UriKind::Episode),
        Ok(SpotifyUri::Show { .. }) => Some(UriKind::Show),
        Ok(SpotifyUri::Local { .. }) => Some(UriKind::Local),
        Ok(SpotifyUri::Unknown { .. }) => Some(UriKind::Unknown),
        Err(_) => None,
    }
}

} // verus!
