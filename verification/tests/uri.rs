use spotifly::error::PlayerError;
use spotifly::resolve::{
    classify_request, request_for, track_list_for, track_only, track_request_for, ResolveRequest,
    ResolveTarget,
};
use spotifly::uri::{url_to_uri, UriKind};

const TRACK: &str = "spotify:track:5sWHDYs0csV6RS48xBl0tH";
const ALBUM: &str = "spotify:album:4GNcXTGWmnZ3ySrqvol3o4";
const PLAYLIST: &str = "spotify:playlist:4GNcXTGWmnZ3ySrqvol3o4";
const ARTIST: &str = "spotify:artist:5sWHDYs0csV6RS48xBl0tH";

#[test]
fn canonical_identifier_passes_through() {
    assert_eq!(url_to_uri("spotify:track:abc123"), "spotify:track:abc123");
    assert_eq!(url_to_uri("spotify:"), "spotify:");
    assert_eq!(
        url_to_uri("spotify:https://open.spotify.com/track/abc"),
        "spotify:https://open.spotify.com/track/abc"
    );
}

#[test]
fn web_link_with_locale_and_query_is_normalized() {
    assert_eq!(
        url_to_uri("https://open.spotify.com/intl-de/track/abc123?si=xyz"),
        "spotify:track:abc123"
    );
}

#[test]
fn plain_web_links_are_normalized() {
    assert_eq!(url_to_uri("https://open.spotify.com/track/abc123"), "spotify:track:abc123");
    assert_eq!(url_to_uri("http://open.spotify.com/album/xyz?foo"), "spotify:album:xyz");
    assert_eq!(
        url_to_uri("https://open.spotify.com/playlist/37i9dQZF1DXcBWIGoYBM5M"),
        "spotify:playlist:37i9dQZF1DXcBWIGoYBM5M"
    );
    assert_eq!(url_to_uri("https://open.spotify.com/artist/a1/extra/more"), "spotify:artist:a1");
}

#[test]
fn query_is_cut_at_the_first_question_mark() {
    assert_eq!(url_to_uri("https://open.spotify.com/track/abc?si=1?x=2"), "spotify:track:abc");
    assert_eq!(url_to_uri("https://open.spotify.com/track/?si=1"), "spotify:track:");
    assert_eq!(url_to_uri("https://open.spotify.com/tr?ack/abc"), "spotify:tr?ack:abc");
}

#[test]
fn only_the_segment_behind_the_host_can_name_a_locale() {
    assert_eq!(url_to_uri("https://open.spotify.com/intl-de/track/abc"), "spotify:track:abc");
    assert_eq!(url_to_uri("https://open.spotify.com/intl-/track/abc"), "spotify:track:abc");
    assert_eq!(url_to_uri("https://open.spotify.com/track/intl-xyz"), "spotify:track:intl-xyz");
    assert_eq!(url_to_uri("https://open.spotify.com/track/intl-de/abc"), "spotify:track:intl-de");
    assert_eq!(
        url_to_uri("https://open.spotify.com/intl-de/intl-fr/track/abc/rest"),
        "spotify:intl-fr:track"
    );
    assert_eq!(
        url_to_uri("https://open.spotify.com/intl-de/track/intl-xyz?si=1"),
        "spotify:track:intl-xyz"
    );
    assert_eq!(url_to_uri("https://open.spotify.com/intl/track/abc"), "spotify:intl:track");
}

#[test]
fn links_with_fewer_than_two_segments_pass_through() {
    assert_eq!(url_to_uri("https://open.spotify.com/track"), "https://open.spotify.com/track");
    assert_eq!(url_to_uri("https://open.spotify.com/"), "https://open.spotify.com/");
    assert_eq!(
        url_to_uri("https://open.spotify.com/intl-de/track"),
        "https://open.spotify.com/intl-de/track"
    );
    assert_eq!(
        url_to_uri("https://open.spotify.com/intl-de/intl-en"),
        "https://open.spotify.com/intl-de/intl-en"
    );
}

#[test]
fn empty_segments_count_as_segments() {
    assert_eq!(url_to_uri("https://open.spotify.com/track/"), "spotify:track:");
    assert_eq!(url_to_uri("https://open.spotify.com//track/abc"), "spotify::track");
    assert_eq!(url_to_uri("https://open.spotify.com//"), "spotify::");
}

#[test]
fn unrecognized_text_passes_through() {
    assert_eq!(url_to_uri(""), "");
    assert_eq!(url_to_uri("hello"), "hello");
    assert_eq!(url_to_uri("https://example.com/track/abc"), "https://example.com/track/abc");
    assert_eq!(url_to_uri("https://open.spotify.com"), "https://open.spotify.com");
    assert_eq!(url_to_uri("ftp://open.spotify.com/track/abc"), "ftp://open.spotify.com/track/abc");
    assert_eq!(url_to_uri("open.spotify.com/track/abc"), "open.spotify.com/track/abc");
    assert_eq!(
        url_to_uri("HTTPS://open.spotify.com/track/abc"),
        "HTTPS://open.spotify.com/track/abc"
    );
    assert_eq!(url_to_uri(" https://open.spotify.com/track/abc"), " https://open.spotify.com/track/abc");
}

#[test]
fn links_to_other_hosts_pass_through() {
    assert_eq!(
        url_to_uri("https://example.com/open.spotify.com/track/abc123"),
        "https://example.com/open.spotify.com/track/abc123"
    );
    assert_eq!(
        url_to_uri("https://example.com/?to=open.spotify.com/playlist/p1"),
        "https://example.com/?to=open.spotify.com/playlist/p1"
    );
    assert_eq!(
        url_to_uri("https://example.com/?to=https://open.spotify.com/playlist/p1"),
        "https://example.com/?to=https://open.spotify.com/playlist/p1"
    );
    assert_eq!(
        url_to_uri("https://xopen.spotify.com/track/abc"),
        "https://xopen.spotify.com/track/abc"
    );
    assert_eq!(
        url_to_uri("https://www.open.spotify.com/track/abc"),
        "https://www.open.spotify.com/track/abc"
    );
    assert_eq!(
        url_to_uri("https://open.spotify.com.example.com/track/abc"),
        "https://open.spotify.com.example.com/track/abc"
    );
}

#[test]
fn the_host_is_read_once() {
    assert_eq!(
        url_to_uri("https://open.spotify.com/a/open.spotify.com/b"),
        "spotify:a:open.spotify.com"
    );
    assert_eq!(
        url_to_uri("http://open.spotify.com/track/https:?x"),
        "spotify:track:https:"
    );
}

#[test]
fn characters_beyond_ascii_are_kept() {
    assert_eq!(
        url_to_uri("https://open.spotify.com/intl-dé/träck/äbc→1?si=ü"),
        "spotify:träck:äbc→1"
    );
    assert_eq!(url_to_uri("https://öpen.spotify.com/track/abc"), "https://öpen.spotify.com/track/abc");
}

#[test]
fn playable_kinds_are_classified() {
    assert_eq!(
        request_for(TRACK),
        Ok(ResolveRequest { target: ResolveTarget::Track, uri: TRACK.to_string() })
    );
    assert_eq!(
        request_for(ALBUM),
        Ok(ResolveRequest { target: ResolveTarget::Album, uri: ALBUM.to_string() })
    );
    assert_eq!(
        request_for(PLAYLIST),
        Ok(ResolveRequest { target: ResolveTarget::Playlist, uri: PLAYLIST.to_string() })
    );
    assert_eq!(
        request_for(ARTIST),
        Ok(ResolveRequest { target: ResolveTarget::Artist, uri: ARTIST.to_string() })
    );
    assert_eq!(
        request_for("spotify:user:alice:playlist:4GNcXTGWmnZ3ySrqvol3o4"),
        Ok(ResolveRequest {
            target: ResolveTarget::Playlist,
            uri: "spotify:user:alice:playlist:4GNcXTGWmnZ3ySrqvol3o4".to_string()
        })
    );
}

#[test]
fn web_links_are_classified_by_their_canonical_form() {
    assert_eq!(
        request_for("https://open.spotify.com/intl-de/track/5sWHDYs0csV6RS48xBl0tH?si=xyz"),
        Ok(ResolveRequest { target: ResolveTarget::Track, uri: TRACK.to_string() })
    );
    assert_eq!(
        request_for("https://open.spotify.com/album/4GNcXTGWmnZ3ySrqvol3o4"),
        Ok(ResolveRequest { target: ResolveTarget::Album, uri: ALBUM.to_string() })
    );
}

#[test]
fn other_kinds_are_not_supported() {
    assert_eq!(
        request_for("spotify:episode:4GNcXTGWmnZ3ySrqvol3o4"),
        Err(PlayerError::UnsupportedUriKind)
    );
    assert_eq!(
        request_for("spotify:show:4GNcXTGWmnZ3ySrqvol3o4"),
        Err(PlayerError::UnsupportedUriKind)
    );
    assert_eq!(request_for("spotify:user:alice"), Err(PlayerError::UnsupportedUriKind));
    assert_eq!(
        request_for("spotify:local:artist:album:title:120"),
        Err(PlayerError::UnsupportedUriKind)
    );
    assert_eq!(request_for("spotify:genre:rock"), Err(PlayerError::UnsupportedUriKind));
}

#[test]
fn malformed_identifiers_are_not_supported() {
    assert_eq!(request_for(""), Err(PlayerError::UnsupportedUriKind));
    assert_eq!(request_for("hello"), Err(PlayerError::UnsupportedUriKind));
    assert_eq!(request_for("spotify:track:abc123"), Err(PlayerError::UnsupportedUriKind));
    assert_eq!(request_for("spotify:track"), Err(PlayerError::UnsupportedUriKind));
    assert_eq!(
        request_for("spotify:track:5sWHDYs0csV6RS48xBl0t!"),
        Err(PlayerError::UnsupportedUriKind)
    );
    assert_eq!(
        request_for("https://open.spotify.com/intl-de/track/abc123?si=xyz"),
        Err(PlayerError::UnsupportedUriKind)
    );
    assert_eq!(
        request_for("https://example.com/track/5sWHDYs0csV6RS48xBl0tH"),
        Err(PlayerError::UnsupportedUriKind)
    );
}

#[test]
fn classify_request_goes_by_the_kind() {
    let uri = || "some text".to_string();
    assert_eq!(
        classify_request(uri(), Some(UriKind::Track)),
        Ok(ResolveRequest { target: ResolveTarget::Track, uri: uri() })
    );
    assert_eq!(
        classify_request(uri(), Some(UriKind::Album)),
        Ok(ResolveRequest { target: ResolveTarget::Album, uri: uri() })
    );
    assert_eq!(
        classify_request(uri(), Some(UriKind::Playlist)),
        Ok(ResolveRequest { target: ResolveTarget::Playlist, uri: uri() })
    );
    assert_eq!(
        classify_request(uri(), Some(UriKind::Artist)),
        Ok(ResolveRequest { target: ResolveTarget::Artist, uri: uri() })
    );
    for kind in [UriKind::Episode, UriKind::Show, UriKind::Local, UriKind::Unknown] {
        assert_eq!(classify_request(uri(), Some(kind)), Err(PlayerError::UnsupportedUriKind));
    }
    assert_eq!(classify_request(uri(), None), Err(PlayerError::UnsupportedUriKind));
}

#[test]
fn track_only_takes_tracks_alone() {
    assert_eq!(track_only("t".to_string(), Some(UriKind::Track)), Ok("t".to_string()));
    assert_eq!(
        track_only("t".to_string(), Some(UriKind::Album)),
        Err(PlayerError::UnsupportedUriKind)
    );
    assert_eq!(track_only("t".to_string(), None), Err(PlayerError::UnsupportedUriKind));
    assert_eq!(track_request_for(TRACK), Ok(TRACK.to_string()));
    assert_eq!(
        track_request_for("https://open.spotify.com/track/5sWHDYs0csV6RS48xBl0tH?si=1"),
        Ok(TRACK.to_string())
    );
    assert_eq!(track_request_for(ALBUM), Err(PlayerError::UnsupportedUriKind));
    assert_eq!(track_request_for("nothing"), Err(PlayerError::UnsupportedUriKind));
}

#[test]
fn track_list_needs_every_entry_to_be_a_track() {
    let other = "https://open.spotify.com/intl-fr/track/4GNcXTGWmnZ3ySrqvol3o4";
    assert_eq!(
        track_list_for(&vec![TRACK.to_string(), other.to_string()]),
        Ok(vec![TRACK.to_string(), "spotify:track:4GNcXTGWmnZ3ySrqvol3o4".to_string()])
    );
    assert_eq!(track_list_for(&Vec::new()), Ok(Vec::new()));
    assert_eq!(
        track_list_for(&vec![TRACK.to_string(), ALBUM.to_string()]),
        Err(PlayerError::UnsupportedUriKind)
    );
    assert_eq!(
        track_list_for(&vec!["junk".to_string(), TRACK.to_string()]),
        Err(PlayerError::UnsupportedUriKind)
    );
}
