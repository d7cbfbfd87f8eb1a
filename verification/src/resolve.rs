//! From an identifier to the items that it stands for.
//!
//! The metadata service is not called from here. The player says what has to
//! be looked up, its caller looks it up, and the functions of this module turn
//! what came back into queue items.

use crate::error::PlayerError;
use crate::item::{
    collection_item, item_models, requested_item, ItemModel, QueueItem, TrackDescriptor,
    TrackModel,
};
use crate::uri::{canonical, parse_spotify_uri, spotify_uri_kind, url_to_uri, UriKind};
use vstd::prelude::*;

verus! {

/// The kinds of identifier that can be played.
#[derive(Clone, Copy, Debug, PartialEq, Eq, Structural)]
pub enum ResolveTarget {
    Track,
    Album,
    Playlist,
    Artist,
}

/// What has to be looked up before an identifier can be played.
#[derive(Debug, PartialEq, Eq)]
pub struct ResolveRequest {
    pub target: ResolveTarget,
    /// The identifier, in canonical form.
    pub uri: String,
}

/// The target that an identifier of this kind names, if it can be played.
pub open spec fn target_of(kind: Option<UriKind>) -> Option<ResolveTarget> {
    match kind {
        Some(UriKind::Track) => Some(ResolveTarget::Track),
        Some(UriKind::Album) => Some(ResolveTarget::Album),
        Some(UriKind::Playlist) => Some(ResolveTarget::Playlist),
        Some(UriKind::Artist) => Some(ResolveTarget::Artist),
        _ => None,
    }
}

/// The views of a sequence of texts, in order.
pub open spec fn texts(list: Seq<String>) -> Seq<Seq<char>> {
    Seq::new(list.len(), |i: int| list[i]@)
}

/// The request for an identifier of whose text the engine's parser makes
/// `kind`. Only tracks, albums, playlists and artists can be played.
pub fn classify_request(uri: String, kind: Option<UriKind>) -> (request: Result<
    ResolveRequest,
    PlayerError,
>)
    ensures
        match target_of(kind) {
            Some(target) => request == Ok::<ResolveRequest, PlayerError>(
                ResolveRequest { target, uri },
            ),
            None => request == Err::<ResolveRequest, PlayerError>(PlayerError::UnsupportedUriKind),
        },
{
    let target = match kind {
        Some(UriKind::Track) => ResolveTarget::Track,
        Some(UriKind::Album) => ResolveTarget::Album,
        Some(UriKind::Playlist) => ResolveTarget::Playlist,
        Some(UriKind::Artist) => ResolveTarget::Artist,
        _ => {
            return Err(PlayerError::UnsupportedUriKind);
        },
    };
    Ok(ResolveRequest { target, uri })
}

/// `request` is the answer to `input`: the text is brought into canonical
/// form, and what the engine's parser makes of that form decides. A track, an
/// album, a playlist or an artist is to be looked up under the canonical
/// form; anything else, and a text that the parser rejects, is not supported.
pub open spec fn is_request_for(request: Result<ResolveRequest, PlayerError>, input: Seq<char>) -> bool {
    match target_of(spotify_uri_kind(canonical(input))) {
        Some(target) => request matches Ok(found) && found.target == target && found.uri@
            == canonical(input),
        None => request == Err::<ResolveRequest, PlayerError>(PlayerError::UnsupportedUriKind),
    }
}

/// `input` names a track.
pub open spec fn names_track(input: Seq<char>) -> bool {
    spotify_uri_kind(canonical(input)) == Some(UriKind::Track)
}

/// `track` is the answer to `input` where only a track will do: the
/// canonical form of a text that names a track, and no support for any other.
pub open spec fn is_track_request_for(track: Result<String, PlayerError>, input: Seq<char>) -> bool {
    if names_track(input) {
        track matches Ok(uri) && uri@ == canonical(input)
    } else {
        track == Err::<String, PlayerError>(PlayerError::UnsupportedUriKind)
    }
}

/// The canonical forms of a list of texts, in order.
pub open spec fn canonical_all(inputs: Seq<Seq<char>>) -> Seq<Seq<char>> {
    Seq::new(inputs.len(), |i: int| canonical(inputs[i]))
}

/// `tracks` is the answer to a list of texts that must all name tracks: their
/// canonical forms in order, and no support for a list in which one text
/// names anything else.
pub open spec fn is_track_list_for(
    tracks: Result<Vec<String>, PlayerError>,
    inputs: Seq<Seq<char>>,
) -> bool {
    if forall|i: int| 0 <= i < inputs.len() ==> names_track(#[trigger] inputs[i]) {
        tracks matches Ok(uris) && texts(uris@) == canonical_all(inputs)
    } else {
        tracks == Err::<Vec<String>, PlayerError>(PlayerError::UnsupportedUriKind)
    }
}

/// The request for what the host asked to play: an identifier or a web link.
pub fn request_for(input: &str) -> (request: Result<ResolveRequest, PlayerError>)
    ensures
        is_request_for(request, input@),
{
    let uri = url_to_uri(input);
    let kind = parse_spotify_uri(uri.as_str());
    classify_request(uri, kind)
}

/// The canonical identifier of a track, given what the engine's parser makes
/// of it. Anything but a track is not supported.
pub fn track_only(uri: String, kind: Option<UriKind>) -> (track: Result<String, PlayerError>)
    ensures
        kind == Some(UriKind::Track) ==> track == Ok::<String, PlayerError>(uri),
        kind != Some(UriKind::Track) ==> track == Err::<String, PlayerError>(
            PlayerError::UnsupportedUriKind,
        ),
{
    match kind {
        Some(UriKind::Track) => Ok(uri),
        _ => Err(PlayerError::UnsupportedUriKind),
    }
}

/// The canonical identifier of the track that the host named.
pub fn track_request_for(input: &str) -> (track: Result<String, PlayerError>)
    ensures
        is_track_request_for(track, input@),
{
    let uri = url_to_uri(input);
    let kind = parse_spotify_uri(uri.as_str());
    track_only(uri, kind)
}

/// The canonical identifiers of the tracks that the host named, in order.
pub fn track_list_for(inputs: &Vec<String>) -> (tracks: Result<Vec<String>, PlayerError>)
    ensures
        is_track_list_for(tracks, texts(inputs@)),
{
    let ghost all = texts(inputs@);
    let mut uris: Vec<String> = Vec::new();
    let mut i: usize = 0;
    while i < inputs.len()
        invariant
            i <= inputs.len(),
            all == texts(inputs@),
            forall|k: int| 0 <= k < i ==> names_track(#[trigger] all[k]),
            texts(uris@) == canonical_all(all).take(i as int),
        decreases inputs.len() - i,
    {
        let ghost before = texts(uris@);
        match track_request_for(inputs[i].as_str()) {
            Ok(uri) => {
                uris.push(uri);
                assert(texts(uris@) == before.push(canonical(all[i as int])));
            },
            Err(error) => {
                return Err(error);
            },
        }
        i += 1;
    }
    assert(canonical_all(all).take(i as int) == canonical_all(all));
    Ok(uris)
}

/// One entry of a playlist: its identifier, and what the engine's parser
/// makes of it.
#[derive(Debug, PartialEq, Eq)]
pub struct CollectionEntry {
    pub uri: String,
    pub kind: Option<UriKind>,
}

/// What an entry is, as plain values.
pub struct EntryModel {
    pub uri: Seq<char>,
    pub kind: Option<UriKind>,
}

impl View for CollectionEntry {
    type V = EntryModel;

    open spec fn view(&self) -> EntryModel {
        EntryModel { uri: self.uri@, kind: self.kind }
    }
}

/// The models of a sequence of entries, in order.
pub open spec fn entry_models(entries: Seq<CollectionEntry>) -> Seq<EntryModel> {
    Seq::new(entries.len(), |i: int| entries[i]@)
}

/// Each identifier with what the engine's parser makes of it.
pub open spec fn classified(uris: Seq<Seq<char>>) -> Seq<EntryModel> {
    Seq::new(uris.len(), |i: int| EntryModel { uri: uris[i], kind: spotify_uri_kind(uris[i]) })
}

/// The identifier of an entry that is a track.
pub open spec fn track_of(entry: EntryModel) -> Option<Seq<char>> {
    if entry.kind == Some(UriKind::Track) {
        Some(entry.uri)
    } else {
        None
    }
}

/// The identifiers of the entries that are tracks, in their order. Episodes
/// and whatever else a playlist may hold are left out.
pub open spec fn tracks_among(entries: Seq<EntryModel>) -> Seq<Seq<char>> {
    entries.filter_map(|entry: EntryModel| track_of(entry))
}

/// Asks the engine's parser about every identifier of a playlist.
pub fn classify_entries(uris: &Vec<String>) -> (entries: Vec<CollectionEntry>)
    ensures
        entry_models(entries@) == classified(texts(uris@)),
{
    let mut entries: Vec<CollectionEntry> = Vec::new();
    let mut i: usize = 0;
    while i < uris.len()
        invariant
            i <= uris.len(),
            entry_models(entries@) == classified(texts(uris@)).take(i as int),
        decreases uris.len() - i,
    {
        let ghost before = entry_models(entries@);
        let kind = parse_spotify_uri(uris[i].as_str());
        let entry = CollectionEntry { uri: uris[i].clone(), kind };
        entries.push(entry);
        assert(entry_models(entries@) == before.push(entry@));
        i += 1;
    }
    entries
}

/// The identifiers of the entries that are tracks, in their order.
pub fn select_tracks(entries: &Vec<CollectionEntry>) -> (tracks: Vec<String>)
    ensures
        texts(tracks@) == tracks_among(entry_models(entries@)),
{
    let ghost all = entry_models(entries@);
    let ghost pick = |entry: EntryModel| track_of(entry);
    let mut tracks: Vec<String> = Vec::new();
    let mut i: usize = 0;
    while i < entries.len()
        invariant
            i <= entries.len(),
            all == entry_models(entries@),
            pick == |entry: EntryModel| track_of(entry),
            texts(tracks@) == all.take(i as int).filter_map(pick),
        decreases entries.len() - i,
    {
        assert(all.take(i + 1).drop_last() == all.take(i as int));
        match entries[i].kind {
            Some(UriKind::Track) => {
                tracks.push(entries[i].uri.clone());
            },
            _ => {},
        }
        i += 1;
    }
    assert(all.take(i as int) == all);
    tracks
}

/// The identifiers of a playlist that are tracks, in their order.
pub fn playlist_tracks(uris: &Vec<String>) -> (tracks: Vec<String>)
    ensures
        texts(tracks@) == tracks_among(classified(texts(uris@))),
{
    let entries = classify_entries(uris);
    select_tracks(&entries)
}

/// The views of a sequence of lists of texts, in order.
pub open spec fn nested_texts(groups: Seq<Vec<String>>) -> Seq<Seq<Seq<char>>> {
    Seq::new(groups.len(), |i: int| texts(groups[i]@))
}

/// The top tracks of an artist: the lists that the service keeps per country,
/// one after the other.
pub fn flatten_top_tracks(groups: &Vec<Vec<String>>) -> (tracks: Vec<String>)
    ensures
        texts(tracks@) == nested_texts(groups@).flatten(),
{
    let ghost all = nested_texts(groups@);
    let mut tracks: Vec<String> = Vec::new();
    let mut g: usize = 0;
    while g < groups.len()
        invariant
            g <= groups.len(),
            all == nested_texts(groups@),
            texts(tracks@) == all.take(g as int).flatten(),
        decreases groups.len() - g,
    {
        let group = &groups[g];
        let ghost done = texts(tracks@);
        let mut j: usize = 0;
        while j < group.len()
            invariant
                j <= group.len(),
                texts(tracks@) == done + texts(group@).take(j as int),
            decreases group.len() - j,
        {
            let ghost before = texts(tracks@);
            tracks.push(group[j].clone());
            assert(texts(tracks@) == before.push(group@[j as int]@));
            j += 1;
        }
        assert(all.take(g + 1) == all.take(g as int).push(texts(group@)));
        proof {
            all.take(g as int).lemma_flatten_push(texts(group@));
        }
        g += 1;
    }
    assert(all.take(g as int) == all);
    tracks
}

/// One track that was looked up under `uri`, with what the metadata service
/// found for it or the cause of its failure.
#[derive(Debug, PartialEq, Eq)]
pub struct TrackLookup {
    pub uri: String,
    pub found: Result<TrackDescriptor, String>,
}

/// The lookup at `index` failed.
pub open spec fn failed_at(lookups: Seq<TrackLookup>, index: int) -> bool {
    0 <= index < lookups.len() && lookups[index].found is Err
}

/// The lookup at `index` is the first that failed.
pub open spec fn first_failure_at(lookups: Seq<TrackLookup>, index: int) -> bool {
    failed_at(lookups, index) && forall|j: int| 0 <= j < index ==> !failed_at(lookups, j)
}

/// The item for a track that was found under `uri`: with the names of all its
/// artists where it is a track of a collection, with the name of the first
/// where it was asked for alone.
pub open spec fn lookup_item(uri: Seq<char>, track: TrackModel, of_collection: bool) -> ItemModel {
    if of_collection {
        collection_item(uri, track)
    } else {
        requested_item(uri, track)
    }
}

/// The items for lookups that all succeeded, in order. Each carries the
/// identifier under which its track was looked up.
pub open spec fn lookup_items(lookups: Seq<TrackLookup>, of_collection: bool) -> Seq<ItemModel> {
    Seq::new(
        lookups.len(),
        |i: int| lookup_item(lookups[i].uri@, lookups[i].found->Ok_0@, of_collection),
    )
}

/// `outcome` is what the lookups came to: an item for each where all
/// succeeded, and the cause of the first failure where one failed. One failure
/// fails them all.
pub open spec fn is_outcome_of(
    outcome: Result<Vec<QueueItem>, String>,
    lookups: Seq<TrackLookup>,
    of_collection: bool,
) -> bool {
    match outcome {
        Ok(items) => {
            &&& forall|k: int| !failed_at(lookups, k)
            &&& item_models(items@) == lookup_items(lookups, of_collection)
        },
        Err(cause) => exists|k: int|
            first_failure_at(lookups, k) && lookups[k].found == Err::<TrackDescriptor, String>(
                cause,
            ),
    }
}

/// What a list of lookups came to.
fn items_or_failure(lookups: &Vec<TrackLookup>, of_collection: bool) -> (outcome: Result<
    Vec<QueueItem>,
    String,
>)
    ensures
        is_outcome_of(outcome, lookups@, of_collection),
{
    let mut items: Vec<QueueItem> = Vec::new();
    let mut i: usize = 0;
    while i < lookups.len()
        invariant
            i <= lookups.len(),
            forall|k: int| 0 <= k < i ==> !failed_at(lookups@, k),
            item_models(items@) == lookup_items(lookups@, of_collection).take(i as int),
        decreases lookups.len() - i,
    {
        let ghost before = item_models(items@);
        match &lookups[i].found {
            Ok(track) => {
                let uri = lookups[i].uri.clone();
                let item = if of_collection {
                    QueueItem::from_collection_track(uri, track)
                } else {
                    QueueItem::from_requested_track(uri, track)
                };
                items.push(item);
                assert(item_models(items@) == before.push(
                    lookup_items(lookups@, of_collection)[i as int],
                ));
            },
            Err(cause) => {
                assert(first_failure_at(lookups@, i as int));
                return Err(cause.clone());
            },
        }
        i += 1;
    }
    assert(lookup_items(lookups@, of_collection).take(i as int) == lookup_items(
        lookups@,
        of_collection,
    ));
    Ok(items)
}

/// The items of a collection, from the lookups of the tracks that it lists:
/// an item for each in the listed order, or the cause of the first lookup that
/// failed. A collection is played whole or not at all.
pub fn collect_items(lookups: &Vec<TrackLookup>) -> (outcome: Result<Vec<QueueItem>, String>)
    ensures
        is_outcome_of(outcome, lookups@, true),
{
    items_or_failure(lookups, true)
}

/// What looking up a list of tracks that the host named came to: an item for
/// each, or the cause of the first failure.
pub fn many_outcome(lookups: &Vec<TrackLookup>) -> (outcome: Result<Vec<QueueItem>, String>)
    ensures
        is_outcome_of(outcome, lookups@, false),
{
    items_or_failure(lookups, false)
}

/// What looking up a single track came to: the items to play, or the cause
/// that the metadata service gave for its failure.
pub fn track_outcome(uri: String, found: Result<TrackDescriptor, String>) -> (outcome: Result<
    Vec<QueueItem>,
    String,
>)
    ensures
        match found {
            Ok(track) => outcome matches Ok(items) && item_models(items@) == seq![
                requested_item(uri@, track@),
            ],
            Err(cause) => outcome == Err::<Vec<QueueItem>, String>(cause),
        },
{
    match found {
        Ok(track) => {
            let item = QueueItem::from_requested_track(uri, &track);
            let mut items: Vec<QueueItem> = Vec::new();
            items.push(item);
            Ok(items)
        },
        Err(cause) => Err(cause),
    }
}

/// What looking up a collection came to: the items of its tracks, or the
/// cause for which the collection itself, or the first of its tracks that
/// failed, was not resolved.
pub fn collection_outcome(found: Result<Vec<TrackLookup>, String>) -> (outcome: Result<
    Vec<QueueItem>,
    String,
>)
    ensures
        match found {
            Ok(lookups) => is_outcome_of(outcome, lookups@, true),
            Err(cause) => outcome == Err::<Vec<QueueItem>, String>(cause),
        },
{
    match found {
        Ok(lookups) => collect_items(&lookups),
        Err(cause) => Err(cause),
    }
}

} // verus!
