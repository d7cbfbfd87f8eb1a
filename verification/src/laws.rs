//! What holds of the player whatever state it is in.

use crate::engine::{load_and_play, CommandModel, EngineEvent};
use crate::error::PlayerError;
use crate::item::{item_models, ItemModel, QueueItem, TrackDescriptor};
use crate::lifecycle::{InitFailure, InitStep, LifecycleModel};
use crate::player::{first_kind_of, outcome_of, CoreModel};
use crate::position::{PositionModel, MAX_EXTRAPOLATION_MS};
use crate::queue::QueueModel;
use crate::resolve::{failed_at, is_outcome_of, lookup_items, TrackLookup};
use crate::text::{lemma_first_segment, lemma_segments_cut, segments, starts_with, until};
use crate::uri::{
    canonical, kind_separator, link_path, locale_prefix, path_parts, plain_link_prefix, scheme,
    secure_link_prefix, UriKind,
};
use vstd::prelude::*;

verus! {

/// A text that begins with the scheme of canonical identifiers is no web link,
/// so it stands for itself.
pub proof fn canonical_identifier_stands_for_itself(input: Seq<char>)
    requires
        starts_with(input, scheme()),
    ensures
        canonical(input) == input,
{
    reveal_strlit("spotify:");
    reveal_strlit("https://open.spotify.com/");
    reveal_strlit("http://open.spotify.com/");
    assert(input.subrange(0, scheme().len() as int)[0] == 's');
    if starts_with(input, "https://open.spotify.com/"@) {
        assert(input.subrange(0, "https://open.spotify.com/"@.len() as int)[0] == 'h');
    }
    if starts_with(input, "http://open.spotify.com/"@) {
        assert(input.subrange(0, "http://open.spotify.com/"@.len() as int)[0] == 'h');
    }
}

/// The text of a web link to the service: the host behind the scheme, with or
/// without transport security, then a locale segment if one is given, then
/// the kind, a slash, and the rest of the link.
pub open spec fn web_link(
    secure: bool,
    locale: Option<Seq<char>>,
    kind: Seq<char>,
    rest: Seq<char>,
) -> Seq<char> {
    let named = kind + seq!['/'] + rest;
    let path = match locale {
        Some(segment) => segment + seq!['/'] + named,
        None => named,
    };
    if secure {
        secure_link_prefix() + path
    } else {
        plain_link_prefix() + path
    }
}

/// A web link to the service stands for the identifier made of its kind and
/// its id, where the id is the rest of the link up to the next slash and up to
/// the query. A locale segment directly behind the host is passed over; an id
/// that begins like a locale is an id all the same.
pub proof fn web_link_is_rewritten(
    secure: bool,
    locale: Option<Seq<char>>,
    kind: Seq<char>,
    rest: Seq<char>,
)
    requires
        !kind.contains('/'),
        locale matches Some(segment) ==> starts_with(segment, locale_prefix())
            && !segment.contains('/'),
        locale is None ==> !starts_with(kind, locale_prefix()),
    ensures
        canonical(web_link(secure, locale, kind, rest)) == scheme() + kind + kind_separator()
            + until(until(rest, '/'), '?'),
{
    let named = kind + seq!['/'] + rest;
    let path = match locale {
        Some(segment) => segment + seq!['/'] + named,
        None => named,
    };
    let link = web_link(secure, locale, kind, rest);
    assert(link_path(link) == Some(path)) by {
        reveal_strlit("https://open.spotify.com/");
        reveal_strlit("http://open.spotify.com/");
        if secure {
            assert(link.subrange(0, secure_link_prefix().len() as int) == secure_link_prefix());
            assert(link.skip(secure_link_prefix().len() as int) == path);
        } else {
            assert(link.subrange(0, plain_link_prefix().len() as int) == plain_link_prefix());
            assert(link.skip(plain_link_prefix().len() as int) == path);
            assert(link[4] == ':');
            if starts_with(link, secure_link_prefix()) {
                assert(link.subrange(0, secure_link_prefix().len() as int)[4] == 's');
            }
        }
    }
    lemma_first_segment(rest, '/');
    lemma_segments_cut(kind, rest, '/');
    let named_parts = seq![kind] + segments(rest, '/');
    assert(segments(named, '/') == named_parts);
    match locale {
        Some(segment) => {
            lemma_segments_cut(segment, named, '/');
            assert(segments(path, '/') == seq![segment] + named_parts);
            assert((seq![segment] + named_parts).drop_first() == named_parts);
            assert(path_parts(path) == named_parts);
        },
        None => {
            assert(path_parts(path) == named_parts);
        },
    }
    assert(named_parts[0] == kind);
    assert(named_parts[1] == segments(rest, '/')[0]);
}

/// A web link to another host stands for itself, whatever its path holds:
/// the host of the service counts only where it stands directly behind the
/// scheme of the link.
pub proof fn link_to_another_host_stands_for_itself(secure: bool, rest: Seq<char>)
    requires
        !starts_with(rest, "open.spotify.com/"@),
    ensures
        secure ==> canonical("https://"@ + rest) == "https://"@ + rest,
        !secure ==> canonical("http://"@ + rest) == "http://"@ + rest,
{
    reveal_strlit("open.spotify.com/");
    reveal_strlit("https://");
    reveal_strlit("http://");
    reveal_strlit("https://open.spotify.com/");
    reveal_strlit("http://open.spotify.com/");
    let host = "open.spotify.com/"@;
    assert(secure_link_prefix() == "https://"@ + host);
    assert(plain_link_prefix() == "http://"@ + host);
    if secure {
        let link = "https://"@ + rest;
        assert(link[4] == 's');
        if starts_with(link, plain_link_prefix()) {
            assert(link.subrange(0, plain_link_prefix().len() as int)[4] == ':');
        }
        if starts_with(link, secure_link_prefix()) {
            assert(rest.subrange(0, host.len() as int) == link.subrange(
                0,
                secure_link_prefix().len() as int,
            ).skip(8));
            assert(secure_link_prefix().skip(8) == host);
        }
    } else {
        let link = "http://"@ + rest;
        assert(link[4] == ':');
        if starts_with(link, secure_link_prefix()) {
            assert(link.subrange(0, secure_link_prefix().len() as int)[4] == 's');
        }
        if starts_with(link, plain_link_prefix()) {
            assert(rest.subrange(0, host.len() as int) == link.subrange(
                0,
                plain_link_prefix().len() as int,
            ).skip(7));
            assert(plain_link_prefix().skip(7) == host);
        }
    }
}

/// Whatever a queue held, after it has been replaced it holds the new items
/// and nothing else, and its cursor stands on the first of them.
pub proof fn replace_resets_cursor(queue: QueueModel, items: Seq<ItemModel>)
    ensures
        queue.replaced(items).wf(),
        queue.replaced(items).cursor == 0,
        queue.replaced(items).items.len() == items.len(),
        queue.replaced(items).items == items,
{
}

/// An item that is queued next lands at index 0 in an empty queue and
/// directly behind the current item in any other. The cursor stays, the items
/// up to the cursor stay, and the items behind it move one place on.
pub proof fn insert_next_lands_behind_cursor(queue: QueueModel, item: ItemModel)
    requires
        queue.wf(),
    ensures
        queue.inserted_next(item).wf(),
        queue.inserted_next(item).cursor == queue.cursor,
        queue.inserted_next(item).items.len() == queue.items.len() + 1,
        queue.items.len() == 0 ==> queue.inserted_next(item).items[0] == item,
        queue.items.len() > 0 ==> queue.inserted_next(item).items[queue.next_index()] == item,
        forall|i: int|
            0 <= i < queue.settled() ==> queue.inserted_next(item).items[i] == queue.items[i],
        forall|i: int|
            queue.settled() <= i < queue.items.len() ==> queue.inserted_next(item).items[i + 1]
                == queue.items[i],
{
}

/// An item that is appended lands behind all others, and nothing else moves.
pub proof fn append_lands_last(queue: QueueModel, item: ItemModel)
    requires
        queue.wf(),
    ensures
        queue.appended(item).wf(),
        queue.appended(item).cursor == queue.cursor,
        queue.appended(item).items.len() == queue.items.len() + 1,
        queue.appended(item).items.last() == item,
        forall|i: int| 0 <= i < queue.items.len() ==> queue.appended(item).items[i] == queue.items[i],
{
}

/// Removing an upcoming item leaves the cursor and every item up to the
/// cursor where they are, and makes the queue one item shorter.
pub proof fn remove_spares_settled_items(queue: QueueModel, index: int)
    requires
        queue.wf(),
        queue.is_upcoming(index),
    ensures
        queue.removed(index).wf(),
        queue.removed(index).cursor == queue.cursor,
        queue.removed(index).items.len() == queue.items.len() - 1,
        forall|i: int| 0 <= i < index ==> queue.removed(index).items[i] == queue.items[i],
        forall|i: int|
            index <= i < queue.items.len() - 1 ==> queue.removed(index).items[i] == queue.items[i
                + 1],
{
}

/// Moving an upcoming item to the place of another relocates that one item:
/// it stands at the new place, the queue keeps its length and its cursor,
/// every item up to the cursor stays where it is, and the queue holds the same
/// items as before. Moving an item to its own place changes nothing.
pub proof fn move_relocates_one_item(queue: QueueModel, from: int, to: int)
    requires
        queue.wf(),
        queue.is_upcoming(from),
        queue.is_upcoming(to),
    ensures
        queue.moved(from, to).wf(),
        queue.moved(from, to).cursor == queue.cursor,
        queue.moved(from, to).items.len() == queue.items.len(),
        queue.moved(from, to).items[to] == queue.items[from],
        forall|i: int| 0 <= i <= queue.cursor ==> queue.moved(from, to).items[i] == queue.items[i],
        queue.moved(from, to).items.to_multiset() == queue.items.to_multiset(),
        from == to ==> queue.moved(from, to) == queue,
{
    let taken = queue.items.remove(from);
    let item = queue.items[from];
    let moved = taken.insert(to, item);
    assert(moved.remove(to) == taken);
    vstd::seq_lib::to_multiset_remove(queue.items, from);
    vstd::seq_lib::to_multiset_remove(moved, to);
    queue.items.to_multiset_ensures();
    moved.to_multiset_ensures();
    assert(moved.to_multiset() =~= queue.items.to_multiset()) by {
        assert forall|v: ItemModel|
            moved.to_multiset().count(v) == queue.items.to_multiset().count(v) by {
            assert(moved.to_multiset().remove(item).count(v) == queue.items.to_multiset().remove(
                item,
            ).count(v));
        }
    }
    if from == to {
        assert(moved == queue.items);
    }
}

/// Dropping the upcoming items leaves exactly the items up to the cursor, and
/// doing it again changes nothing more.
pub proof fn truncate_keeps_settled_items(queue: QueueModel)
    requires
        queue.wf(),
    ensures
        queue.truncated().wf(),
        queue.truncated().cursor == queue.cursor,
        queue.truncated().items.len() == queue.settled(),
        forall|i: int| 0 <= i < queue.settled() ==> queue.truncated().items[i] == queue.items[i],
        !queue.truncated().has_next(),
        queue.truncated().truncated() == queue.truncated(),
{
    assert(queue.truncated().truncated().items == queue.truncated().items);
}

/// Moving the cursor on and back again, or back and on again, leaves the
/// queue as it was.
pub proof fn advance_and_retreat_cancel(queue: QueueModel)
    requires
        queue.wf(),
    ensures
        queue.has_next() ==> queue.advanced().wf() && queue.advanced().has_previous()
            && queue.advanced().retreated() == queue,
        queue.has_previous() ==> queue.retreated().wf() && queue.retreated().has_next()
            && queue.retreated().advanced() == queue,
{
}

/// The estimate never falls below the observed position and never runs ahead
/// of it by more than the limit of extrapolation; it grows with the clock;
/// and while playback is halted, or before the first observation, it is the
/// observed position.
pub proof fn estimate_is_bounded(position: PositionModel, now: nat, later: nat)
    requires
        position.position_ms <= u32::MAX,
        now <= later,
    ensures
        position.position_ms <= position.estimate(now) <= position.position_ms
            + MAX_EXTRAPOLATION_MS,
        position.estimate(now) <= u32::MAX,
        position.estimate(now) <= position.estimate(later),
        !position.playing ==> position.estimate(now) == position.position_ms,
        position.observed_at is None ==> position.estimate(now) == position.position_ms,
{
}

/// While playback runs, the estimate is the observed position plus the time
/// that has passed since the observation, up to the limit of extrapolation;
/// from then on it stands still.
pub proof fn estimate_follows_the_clock(position_ms: nat, then: nat, now: nat)
    requires
        position_ms + MAX_EXTRAPOLATION_MS <= u32::MAX,
        then <= now,
    ensures
        now - then <= MAX_EXTRAPOLATION_MS ==> PositionModel::initial().recorded(
            position_ms,
            true,
            then,
        ).estimate(now) == position_ms + (now - then),
        now - then >= MAX_EXTRAPOLATION_MS ==> PositionModel::initial().recorded(
            position_ms,
            true,
            then,
        ).estimate(now) == position_ms + MAX_EXTRAPOLATION_MS,
{
}

/// What was recorded is what is read back at the same clock reading.
pub proof fn record_then_read(position: PositionModel, position_ms: nat, playing: bool, now: nat)
    requires
        position_ms <= u32::MAX,
    ensures
        position.recorded(position_ms, playing, now).estimate(now) == position_ms,
        position.recorded(position_ms, playing, now).playing == playing,
        position.reset(now) == position.recorded(0, false, now),
{
}

/// When a track runs to its end and no item follows, the player is stopped:
/// it does not play, every later reading of the position is zero, the queue
/// is as it was, and no command goes out.
pub proof fn end_of_last_track_stops(
    core: CoreModel,
    successor: Option<UriKind>,
    now: nat,
    later: nat,
)
    requires
        core.wf(),
        !core.queue.has_next(),
    ensures
        core.end_of_track(successor, now).core.wf(),
        !core.end_of_track(successor, now).core.position.playing,
        core.end_of_track(successor, now).core.position.estimate(later) == 0,
        core.end_of_track(successor, now).core.queue == core.queue,
        core.end_of_track(successor, now).command is None,
        core.after_event(EngineEvent::EndOfTrack, now) == core.end_of_track(successor, now),
{
}

/// When a track runs to its end and an item follows, the cursor moves on by
/// exactly one and the queue keeps its items. If the engine's parser accepts
/// the identifier of the item that follows, that item is loaded from its start
/// and the player plays; if not, no command goes out and the player stays
/// stopped.
pub proof fn end_of_track_advances(core: CoreModel, successor: Option<UriKind>, now: nat)
    requires
        core.wf(),
        core.queue.has_next(),
    ensures
        core.end_of_track(successor, now).core.wf(),
        core.end_of_track(successor, now).core.queue.cursor == core.queue.cursor + 1,
        core.end_of_track(successor, now).core.queue.items == core.queue.items,
        core.end_of_track(successor, now).core.position.position_ms == 0,
        successor is Some ==> core.end_of_track(successor, now).core.position.playing
            && core.end_of_track(successor, now).command == Some(
            load_and_play(core.queue.items[core.queue.next_index()].uri),
        ),
        successor is None ==> !core.end_of_track(successor, now).core.position.playing
            && core.end_of_track(successor, now).command is None,
{
}

/// While a session is open, starting to open one is answered with
/// `AlreadyReady` as often as it is tried, and changes nothing: there is one
/// reader of the event stream before and after, and nothing asks for
/// a second.
pub proof fn initialize_twice_is_idle(core: CoreModel)
    requires
        core.wf(),
        core.ready(),
    ensures
        core.lifecycle.first_step(core.settings) == InitStep::AlreadyReady,
        core.begun() == core,
        core.begun().lifecycle.first_step(core.begun().settings) == InitStep::AlreadyReady,
        core.begun().begun() == core,
        core.begun().lifecycle.readers() == 1,
{
}

/// The number of readers of the event stream goes up in one step only: when
/// the opening of a session succeeds, and then from none. Starting to open a
/// session leaves the number as it is; the end of the event stream and a
/// teardown leave no reader.
pub proof fn only_a_successful_open_starts_a_reader(
    lifecycle: LifecycleModel,
    outcome: Result<bool, InitFailure>,
)
    requires
        lifecycle.wf(),
    ensures
        lifecycle.begun().wf() && lifecycle.begun().readers() == lifecycle.readers(),
        lifecycle.completed(outcome).wf(),
        lifecycle.completed(outcome).readers() > lifecycle.readers() ==> lifecycle.state
            is Initializing && outcome is Ok && lifecycle.readers() == 0,
        lifecycle.stream_ended().wf() && lifecycle.stream_ended().readers() == 0,
        lifecycle.torn_down().wf() && lifecycle.torn_down().readers() == 0,
{
}

/// Opening a session that fails leaves no session behind and reports the
/// cause that it was given; opening one that succeeds leaves a session open.
pub proof fn initialize_leaves_nothing_half_done(
    lifecycle: LifecycleModel,
    outcome: Result<bool, InitFailure>,
)
    requires
        lifecycle.wf(),
        !lifecycle.ready(),
    ensures
        lifecycle.begun().state is Initializing,
        outcome matches Err(cause) ==> lifecycle.begun().completed(outcome)
            == LifecycleModel::initial() && lifecycle.begun().completion(outcome) == Err::<
            (),
            InitFailure,
        >(cause),
        outcome matches Ok(remote_control) ==> lifecycle.begun().completed(outcome).ready()
            && lifecycle.begun().completed(outcome).remote_control == remote_control
            && lifecycle.begun().completion(outcome) is Ok,
{
}

/// A teardown leaves no session, a player that does not play and a position
/// of zero, and keeps the queue and the settings. A second teardown finds
/// nothing to stop and leaves the player as a single one at that time would.
pub proof fn teardown_is_idempotent(core: CoreModel, now: nat, again: nat, later: nat)
    requires
        core.wf(),
    ensures
        core.torn_down(now).wf(),
        core.torn_down(now).lifecycle == LifecycleModel::initial(),
        !core.torn_down(now).position.playing,
        core.torn_down(now).position.estimate(later) == 0,
        core.torn_down(now).queue == core.queue,
        core.torn_down(now).settings == core.settings,
        !core.torn_down(now).ready(),
        core.torn_down(now).torn_down(again) == core.torn_down(again),
        core.torn_down(now).torn_down(now) == core.torn_down(now),
{
}

/// Without an open session every operation that needs the engine fails with
/// `NotInitialized` and changes nothing.
pub proof fn engine_operations_need_a_session(
    core: CoreModel,
    now: nat,
    position_ms: nat,
    volume: nat,
    index: int,
    items: Seq<ItemModel>,
    first: Option<UriKind>,
)
    requires
        core.wf(),
        !core.ready(),
    ensures
        core.pause(now) == core.refused(PlayerError::NotInitialized),
        core.resume(now) == core.refused(PlayerError::NotInitialized),
        core.stop(now) == core.refused(PlayerError::NotInitialized),
        core.seek(position_ms) == core.refused(PlayerError::NotInitialized),
        core.set_volume(volume) == core.refused(PlayerError::NotInitialized),
        core.next() == core.refused(PlayerError::NotInitialized),
        core.previous() == core.refused(PlayerError::NotInitialized),
        core.jump_to_index(index) == core.refused(PlayerError::NotInitialized),
        core.commit_play(items, first) == core.refused(PlayerError::NotInitialized),
        forall|uri: Seq<char>, found: Result<TrackDescriptor, String>, next: bool|
            #![auto]
            core.enqueue(uri, found, next).core == core && core.enqueue(uri, found, next).done
                == Err::<(), PlayerError>(PlayerError::NotInitialized),
{
}

/// An operation that fails leaves the player as it was; one that succeeds in
/// moving through the queue leaves the cursor on the item that it loads.
pub proof fn navigation_is_all_or_nothing(core: CoreModel, index: int, kind: Option<UriKind>)
    requires
        core.wf(),
    ensures
        core.load_at(index, kind).answer is Err ==> core.load_at(index, kind).core == core,
        core.load_at(index, kind).answer is Ok <==> 0 <= index < core.queue.items.len() && kind
            is Some,
        core.load_at(index, kind).answer is Ok ==> core.load_at(index, kind).core.wf()
            && core.load_at(index, kind).core.queue.cursor == index && core.load_at(
            index,
            kind,
        ).core.position.playing && core.load_at(index, kind).answer == Ok::<
            CommandModel,
            PlayerError,
        >(load_and_play(core.queue.items[index].uri)),
        core.next().answer is Err ==> core.next().core == core,
        core.previous().answer is Err ==> core.previous().core == core,
        core.jump_to_index(index).answer is Err ==> core.jump_to_index(index).core == core,
{
}

/// Playing a list of items replaces the queue only once everything is in
/// order: with a session open, at least one item, and a first item that the
/// engine can take. Then the cursor stands on the first item and the player
/// plays; in every other case the player is as it was.
pub proof fn play_commits_all_or_nothing(
    core: CoreModel,
    items: Seq<ItemModel>,
    first: Option<UriKind>,
)
    requires
        core.wf(),
    ensures
        core.commit_play(items, first).answer is Ok <==> core.ready() && items.len() > 0 && first
            is Some,
        core.commit_play(items, first).answer is Err ==> core.commit_play(items, first).core
            == core,
        core.commit_play(items, first).answer is Ok ==> core.commit_play(items, first).core.wf()
            && core.commit_play(items, first).core.queue.items == items && core.commit_play(
            items,
            first,
        ).core.queue.cursor == 0 && core.commit_play(items, first).core.position.playing,
{
}

/// A list of tracks, and a collection alike, is played whole or not at all.
/// Where the lookup of one track failed, the lookups come to a failure, the
/// play fails with `ResolutionFailed` and the cause of the first failure, and
/// the player is as it was. Where all succeeded they come to one item for
/// each track, in the listed order.
pub proof fn one_failed_lookup_fails_the_play(
    core: CoreModel,
    lookups: Seq<TrackLookup>,
    of_collection: bool,
    outcome: Result<Vec<QueueItem>, String>,
)
    requires
        core.wf(),
        core.ready(),
        is_outcome_of(outcome, lookups, of_collection),
    ensures
        outcome is Err <==> exists|k: int| failed_at(lookups, k),
        outcome matches Err(cause) ==> core.finish_play(
            outcome_of(outcome),
            first_kind_of(outcome_of(outcome)),
        ) == core.refused(PlayerError::ResolutionFailed(cause)),
        outcome matches Ok(items) ==> item_models(items@) == lookup_items(lookups, of_collection)
            && items@.len() == lookups.len(),
{
    if let Ok(items) = outcome {
        assert(item_models(items@).len() == lookup_items(lookups, of_collection).len());
    }
}

} // verus!
