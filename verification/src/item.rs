//! Playable items and the track descriptions they are made from.

use vstd::prelude::*;
use vstd::string::*;

verus! {

/// The characters of an optional text.
pub open spec fn text_of(text: Option<String>) -> Option<Seq<char>> {
    match text {
        Some(t) => Some(t@),
        None => None,
    }
}

/// A copy of an optional text.
pub fn copy_text(text: &Option<String>) -> (copy: Option<String>)
    ensures
        text_of(copy) == text_of(*text),
{
    match text {
        Some(t) => Some(t.clone()),
        None => None,
    }
}

/// What a queue item is, as plain values.
pub struct ItemModel {
    pub uri: Seq<char>,
    pub track_name: Seq<char>,
    pub artist_name: Seq<char>,
    pub album_art_url: Seq<char>,
    pub duration_ms: nat,
    pub album_id: Option<Seq<char>>,
    pub artist_id: Option<Seq<char>>,
    pub external_url: Option<Seq<char>>,
}

/// One playable unit of the queue. It does not change once it is made.
#[derive(Debug, PartialEq, Eq)]
pub struct QueueItem {
    pub uri: String,
    pub track_name: String,
    pub artist_name: String,
    pub album_art_url: String,
    pub duration_ms: u32,
    pub album_id: Option<String>,
    pub artist_id: Option<String>,
    pub external_url: Option<String>,
}

impl View for QueueItem {
    type V = ItemModel;

    open spec fn view(&self) -> ItemModel {
        ItemModel {
            uri: self.uri@,
            track_name: self.track_name@,
            artist_name: self.artist_name@,
            album_art_url: self.album_art_url@,
            duration_ms: self.duration_ms as nat,
            album_id: text_of(self.album_id),
            artist_id: text_of(self.artist_id),
            external_url: text_of(self.external_url),
        }
    }
}

impl Clone for QueueItem {
    fn clone(&self) -> (copy: Self)
        ensures
            copy@ == self@,
    {
        QueueItem {
            uri: self.uri.clone(),
            track_name: self.track_name.clone(),
            artist_name: self.artist_name.clone(),
            album_art_url: self.album_art_url.clone(),
            duration_ms: self.duration_ms,
            album_id: copy_text(&self.album_id),
            artist_id: copy_text(&self.artist_id),
            external_url: copy_text(&self.external_url),
        }
    }
}

/// The models of a sequence of items, in order.
pub open spec fn item_models(items: Seq<QueueItem>) -> Seq<ItemModel> {
    Seq::new(items.len(), |i: int| items[i]@)
}

/// A copy of a list of items.
pub fn copy_items(items: &Vec<QueueItem>) -> (copy: Vec<QueueItem>)
    ensures
        item_models(copy@) == item_models(items@),
{
    let mut copy: Vec<QueueItem> = Vec::new();
    let mut i: usize = 0;
    while i < items.len()
        invariant
            i <= items.len(),
            item_models(copy@) == item_models(items@).take(i as int),
        decreases items.len() - i,
    {
        let ghost before = item_models(copy@);
        let item = items[i].clone();
        copy.push(item);
        assert(item_models(copy@) == before.push(items@[i as int]@));
        i += 1;
    }
    copy
}

/// An artist as the metadata service names one.
#[derive(Debug, PartialEq, Eq)]
pub struct ArtistRef {
    pub id: String,
    pub name: String,
}

/// What an artist reference is, as plain values.
pub struct ArtistModel {
    pub id: Seq<char>,
    pub name: Seq<char>,
}

impl View for ArtistRef {
    type V = ArtistModel;

    open spec fn view(&self) -> ArtistModel {
        ArtistModel { id: self.id@, name: self.name@ }
    }
}

/// The models of a sequence of artists, in order.
pub open spec fn artist_models(artists: Seq<ArtistRef>) -> Seq<ArtistModel> {
    Seq::new(artists.len(), |i: int| artists[i]@)
}

/// What the metadata service tells of one track. The identifier is not part
/// of it: an item carries the identifier under which its track was looked up.
#[derive(Debug, PartialEq, Eq)]
pub struct TrackDescriptor {
    pub name: String,
    pub artists: Vec<ArtistRef>,
    /// The length as the service reports it; it may be negative.
    pub duration_ms: i32,
    pub album_id: Option<String>,
    pub external_url: Option<String>,
}

/// What a track description is, as plain values.
pub struct TrackModel {
    pub name: Seq<char>,
    pub artists: Seq<ArtistModel>,
    pub duration_ms: int,
    pub album_id: Option<Seq<char>>,
    pub external_url: Option<Seq<char>>,
}

impl View for TrackDescriptor {
    type V = TrackModel;

    open spec fn view(&self) -> TrackModel {
        TrackModel {
            name: self.name@,
            artists: artist_models(self.artists@),
            duration_ms: self.duration_ms as int,
            album_id: text_of(self.album_id),
            external_url: text_of(self.external_url),
        }
    }
}

/// What stands between two artist names in a joined list.
pub open spec fn name_separator() -> Seq<char> {
    ", "@
}

/// The names of all artists in order, with the separator between each two.
pub open spec fn joined_names(artists: Seq<ArtistModel>) -> Seq<char>
    decreases artists.len(),
{
    if artists.len() == 0 {
        Seq::empty()
    } else if artists.len() == 1 {
        artists[0].name
    } else {
        joined_names(artists.drop_last()) + name_separator() + artists.last().name
    }
}

/// The name of the first artist, or the empty text where there is none.
pub open spec fn first_name(artists: Seq<ArtistModel>) -> Seq<char> {
    if artists.len() == 0 {
        Seq::empty()
    } else {
        artists[0].name
    }
}

/// The id of the first artist, if there is one.
pub open spec fn first_id(artists: Seq<ArtistModel>) -> Option<Seq<char>> {
    if artists.len() == 0 {
        None
    } else {
        Some(artists[0].id)
    }
}

/// A reported length as a length: a negative report counts as zero.
pub open spec fn length_of(reported: int) -> nat {
    if reported < 0 {
        0
    } else {
        reported as nat
    }
}

/// The item that stands for a track of a collection that was listed under
/// `uri`: it carries that identifier and the names of all artists of the
/// track.
pub open spec fn collection_item(uri: Seq<char>, track: TrackModel) -> ItemModel {
    ItemModel {
        uri,
        track_name: track.name,
        artist_name: joined_names(track.artists),
        album_art_url: Seq::empty(),
        duration_ms: length_of(track.duration_ms),
        album_id: track.album_id,
        artist_id: first_id(track.artists),
        external_url: track.external_url,
    }
}

/// The item that stands for a track that was asked for by `uri`: it carries
/// that identifier and the name of the track's first artist.
pub open spec fn requested_item(uri: Seq<char>, track: TrackModel) -> ItemModel {
    ItemModel { artist_name: first_name(track.artists), ..collection_item(uri, track) }
}

/// The names of all artists, joined.
pub fn join_artist_names(artists: &Vec<ArtistRef>) -> (joined: String)
    ensures
        joined@ == joined_names(artist_models(artists@)),
{
    let ghost all = artist_models(artists@);
    let mut joined = String::new();
    let mut i: usize = 0;
    while i < artists.len()
        invariant
            i <= artists.len(),
            all == artist_models(artists@),
            joined@ == joined_names(all.take(i as int)),
        decreases artists.len() - i,
    {
        assert(all.take(i + 1).drop_last() == all.take(i as int));
        if i > 0 {
            joined.append(", ");
        }
        joined.append(artists[i].name.as_str());
        i += 1;
    }
    assert(all.take(i as int) == all);
    joined
}

/// The name of the first artist, or the empty text.
pub fn first_artist_name(artists: &Vec<ArtistRef>) -> (name: String)
    ensures
        name@ == first_name(artist_models(artists@)),
{
    if artists.len() == 0 {
        String::new()
    } else {
        artists[0].name.clone()
    }
}

/// The id of the first artist, if there is one.
pub fn first_artist_id(artists: &Vec<ArtistRef>) -> (id: Option<String>)
    ensures
        text_of(id) == first_id(artist_models(artists@)),
{
    if artists.len() == 0 {
        None
    } else {
        Some(artists[0].id.clone())
    }
}

/// The address of a track's cover. The metadata service carries none, so the
/// address is empty.
pub fn get_album_art_url(track: &TrackDescriptor) -> (url: String)
    ensures
        url@ == Seq::<char>::empty(),
{
    String::new()
}

/// A reported length as a length.
pub fn track_length(reported: i32) -> (length: u32)
    ensures
        length == length_of(reported as int),
{
    if reported < 0 {
        0
    } else {
        reported as u32
    }
}

impl QueueItem {
    /// The item for a track of an album, a playlist or an artist that the
    /// collection lists under `uri`.
    pub fn from_collection_track(uri: String, track: &TrackDescriptor) -> (item: QueueItem)
        ensures
            item@ == collection_item(uri@, track@),
    {
        QueueItem {
            uri,
            track_name: track.name.clone(),
            artist_name: join_artist_names(&track.artists),
            album_art_url: get_album_art_url(track),
            duration_ms: track_length(track.duration_ms),
            album_id: copy_text(&track.album_id),
            artist_id: first_artist_id(&track.artists),
            external_url: copy_text(&track.external_url),
        }
    }

    /// The item for a single track that was asked for by `uri`.
    pub fn from_requested_track(uri: String, track: &TrackDescriptor) -> (item: QueueItem)
        ensures
            item@ == requested_item(uri@, track@),
    {
        QueueItem {
            uri,
            track_name: track.name.clone(),
            artist_name: first_artist_name(&track.artists),
            album_art_url: get_album_art_url(track),
            duration_ms: track_length(track.duration_ms),
            album_id: copy_text(&track.album_id),
            artist_id: first_artist_id(&track.artists),
            external_url: copy_text(&track.external_url),
        }
    }
}

} // verus!
