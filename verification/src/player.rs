//! The player: one owner of the queue, the position, the session's lifecycle
//! and the settings, with the operations that the host calls and the events
//! that the engine sends.
//!
//! An operation changes the state and answers with the command for the engine;
//! its caller hands that command on. Where an operation fails, the state is as
//! it was.

use crate::engine::{load_and_play, CommandModel, EngineCommand, EngineEvent};
use crate::error::PlayerError;
use crate::item::{item_models, requested_item, ItemModel, QueueItem, TrackDescriptor};
use crate::lifecycle::{InitFailure, InitStep, Lifecycle, LifecycleModel, LifecycleState};
use crate::position::{PositionModel, PositionTracker};
use crate::queue::{Queue, QueueModel};
use crate::resolve::{
    is_request_for, is_track_list_for, is_track_request_for, request_for, texts, track_list_for,
    track_request_for, ResolveRequest,
};
use crate::settings::{Bitrate, Settings};
use crate::uri::{parse_spotify_uri, spotify_uri_kind, UriKind};
use vstd::prelude::*;

verus! {

/// What an operation answers, as plain values.
pub open spec fn answer_of(answer: Result<EngineCommand, PlayerError>) -> Result<
    CommandModel,
    PlayerError,
> {
    match answer {
        Ok(command) => Ok(command@),
        Err(error) => Err(error),
    }
}

/// What the player holds.
pub struct CoreModel {
    pub lifecycle: LifecycleModel,
    pub queue: QueueModel,
    pub position: PositionModel,
    pub settings: Settings,
}

/// The state after an operation, and what the operation answers.
pub struct Step {
    pub core: CoreModel,
    pub answer: Result<CommandModel, PlayerError>,
}

/// The state after an edit of the queue, and whether the edit was made.
pub struct Edit {
    pub core: CoreModel,
    pub done: Result<(), PlayerError>,
}

/// The state after an event, and the command that the event calls for.
pub struct Reaction {
    pub core: CoreModel,
    pub command: Option<CommandModel>,
}

/// What a lookup came to, as plain values.
pub open spec fn outcome_of(outcome: Result<Vec<QueueItem>, String>) -> Result<
    Seq<ItemModel>,
    String,
> {
    match outcome {
        Ok(items) => Ok(item_models(items@)),
        Err(cause) => Err(cause),
    }
}

/// What the engine's parser makes of the identifier of the first of `items`.
pub open spec fn first_kind(items: Seq<ItemModel>) -> Option<UriKind> {
    spotify_uri_kind(items[0].uri)
}

/// What the engine's parser makes of the identifier of the first item that a
/// lookup came to.
pub open spec fn first_kind_of(outcome: Result<Seq<ItemModel>, String>) -> Option<UriKind> {
    match outcome {
        Ok(items) => first_kind(items),
        Err(_) => None,
    }
}

/// The state `core` with the answer `answer`.
pub open spec fn step(core: CoreModel, answer: Result<EngineCommand, PlayerError>) -> Step {
    Step { core, answer: answer_of(answer) }
}

/// The state `core` with the command `command`.
pub open spec fn reaction(core: CoreModel, command: Option<EngineCommand>) -> Reaction {
    Reaction {
        core,
        command: match command {
            Some(c) => Some(c@),
            None => None,
        },
    }
}

impl CoreModel {
    /// The queue and the lifecycle are in order.
    pub open spec fn wf(self) -> bool {
        self.queue.wf() && self.lifecycle.wf()
    }

    /// The player at its start: no session, an empty queue, nothing observed.
    pub open spec fn initial() -> CoreModel {
        CoreModel {
            lifecycle: LifecycleModel::initial(),
            queue: QueueModel::empty(),
            position: PositionModel::initial(),
            settings: Settings::initial(),
        }
    }

    /// A session is open.
    pub open spec fn ready(self) -> bool {
        self.lifecycle.ready()
    }

    /// The operation fails with `error` and changes nothing.
    pub open spec fn refused(self, error: PlayerError) -> Step {
        Step { core: self, answer: Err(error) }
    }

    /// The operation hands out `command` and leaves the player as `core`.
    pub open spec fn done(core: CoreModel, command: CommandModel) -> Step {
        Step { core, answer: Ok(command) }
    }

    /// The player with another position tracker.
    pub open spec fn with_position(self, position: PositionModel) -> CoreModel {
        CoreModel { position, ..self }
    }

    /// The player with another queue.
    pub open spec fn with_queue(self, queue: QueueModel) -> CoreModel {
        CoreModel { queue, ..self }
    }

    /// What the engine's parser makes of the identifier of the item at
    /// `index`.
    pub open spec fn kind_at(self, index: int) -> Option<UriKind> {
        spotify_uri_kind(self.queue.items[index].uri)
    }

    /// The player after it has loaded the item at `index`: the cursor stands
    /// there and playback is on.
    pub open spec fn loaded(self, index: int) -> CoreModel {
        CoreModel {
            queue: self.queue.at(index),
            position: self.position.with_playing(true),
            ..self
        }
    }

    /// Load the item at `index`, of whose identifier the engine's parser
    /// makes `kind`. An identifier that the parser rejects cannot be handed to
    /// the engine.
    pub open spec fn load_at(self, index: int, kind: Option<UriKind>) -> Step {
        if !(0 <= index < self.queue.items.len()) {
            self.refused(PlayerError::InvalidIndex)
        } else if kind is None {
            self.refused(PlayerError::EngineCommandFailed)
        } else {
            CoreModel::done(self.loaded(index), load_and_play(self.queue.items[index].uri))
        }
    }

    /// Go to the item behind the current one and play it.
    pub open spec fn next(self) -> Step {
        if !self.ready() {
            self.refused(PlayerError::NotInitialized)
        } else if !self.queue.has_next() {
            self.refused(PlayerError::AtBoundary)
        } else {
            self.load_at(self.queue.next_index(), self.kind_at(self.queue.next_index()))
        }
    }

    /// Go to the item before the current one and play it.
    pub open spec fn previous(self) -> Step {
        if !self.ready() {
            self.refused(PlayerError::NotInitialized)
        } else if !self.queue.has_previous() {
            self.refused(PlayerError::AtBoundary)
        } else {
            self.load_at(self.queue.previous_index(), self.kind_at(self.queue.previous_index()))
        }
    }

    /// Go to the item at `index` and play it.
    pub open spec fn jump_to_index(self, index: int) -> Step {
        if !self.ready() {
            self.refused(PlayerError::NotInitialized)
        } else {
            self.load_at(index, self.kind_at(index))
        }
    }

    /// Put `items` in the place of the queue and play the first of them, of
    /// whose identifier the engine's parser makes `first`.
    pub open spec fn commit_play(self, items: Seq<ItemModel>, first: Option<UriKind>) -> Step {
        if !self.ready() {
            self.refused(PlayerError::NotInitialized)
        } else if items.len() == 0 {
            self.refused(PlayerError::EmptyResult)
        } else if first is None {
            self.refused(PlayerError::EngineCommandFailed)
        } else {
            CoreModel::done(
                CoreModel {
                    queue: self.queue.replaced(items),
                    position: self.position.with_playing(true),
                    ..self
                },
                load_and_play(items[0].uri),
            )
        }
    }

    /// Play what a lookup came to: its items, or nothing where it failed.
    pub open spec fn finish_play(
        self,
        outcome: Result<Seq<ItemModel>, String>,
        first: Option<UriKind>,
    ) -> Step {
        if !self.ready() {
            self.refused(PlayerError::NotInitialized)
        } else {
            match outcome {
                Ok(items) => self.commit_play(items, first),
                Err(cause) => self.refused(PlayerError::ResolutionFailed(cause)),
            }
        }
    }

    /// Queue the track that was looked up under `uri`, directly behind the
    /// current item if `next` is set and behind the last item if not. Without
    /// a session the edit fails with `NotInitialized`, and where the lookup
    /// failed it fails with the cause that was given; the player is then as
    /// it was.
    pub open spec fn enqueue(
        self,
        uri: Seq<char>,
        found: Result<TrackDescriptor, String>,
        next: bool,
    ) -> Edit {
        if !self.ready() {
            Edit { core: self, done: Err(PlayerError::NotInitialized) }
        } else {
            match found {
                Ok(track) => {
                    let item = requested_item(uri, track@);
                    let queue = if next {
                        self.queue.inserted_next(item)
                    } else {
                        self.queue.appended(item)
                    };
                    Edit { core: self.with_queue(queue), done: Ok(()) }
                },
                Err(cause) => Edit { core: self, done: Err(PlayerError::ResolutionFailed(cause)) },
            }
        }
    }

    /// The current track has run to its end at clock reading `now`: playback
    /// is stopped, and where an item follows the cursor moves on to it. If
    /// the engine's parser accepts the identifier of that item, of which it
    /// makes `successor`, the item is loaded and playback is on again.
    pub open spec fn end_of_track(self, successor: Option<UriKind>, now: nat) -> Reaction {
        let stopped = self.with_position(self.position.reset(now));
        if !self.queue.has_next() {
            Reaction { core: stopped, command: None }
        } else {
            let moved = stopped.with_queue(self.queue.advanced());
            if successor is Some {
                Reaction {
                    core: moved.with_position(moved.position.with_playing(true)),
                    command: Some(load_and_play(self.queue.items[self.queue.next_index()].uri)),
                }
            } else {
                Reaction { core: moved, command: None }
            }
        }
    }

    /// The player after `event`, which arrived at clock reading `now`, and
    /// the command that the event calls for.
    pub open spec fn after_event(self, event: EngineEvent, now: nat) -> Reaction {
        match event {
            EngineEvent::Playing { position_ms } => Reaction {
                core: self.with_position(self.position.recorded(position_ms as nat, true, now)),
                command: None,
            },
            EngineEvent::Paused { position_ms } => Reaction {
                core: self.with_position(self.position.recorded(position_ms as nat, false, now)),
                command: None,
            },
            EngineEvent::PositionChanged { position_ms } => Reaction {
                core: self.with_position(
                    self.position.recorded(position_ms as nat, self.position.playing, now),
                ),
                command: None,
            },
            EngineEvent::Seeked { position_ms } => Reaction {
                core: self.with_position(
                    self.position.recorded(position_ms as nat, self.position.playing, now),
                ),
                command: None,
            },
            EngineEvent::Stopped => Reaction {
                core: self.with_position(self.position.reset(now)),
                command: None,
            },
            EngineEvent::EndOfTrack => self.end_of_track(
                self.kind_at(self.queue.next_index()),
                now,
            ),
            EngineEvent::Other => Reaction { core: self, command: None },
        }
    }

    /// The player after `begin_initialize`.
    pub open spec fn begun(self) -> CoreModel {
        CoreModel { lifecycle: self.lifecycle.begun(), ..self }
    }

    /// The player after `complete_initialize`.
    pub open spec fn completed(self, outcome: Result<bool, InitFailure>) -> CoreModel {
        CoreModel { lifecycle: self.lifecycle.completed(outcome), ..self }
    }

    /// The player after the event stream has ended.
    pub open spec fn stream_ended(self) -> CoreModel {
        CoreModel { lifecycle: self.lifecycle.stream_ended(), ..self }
    }

    /// The player after a teardown at clock reading `now`: no session, not
    /// playing, position zero. The queue stays.
    pub open spec fn torn_down(self, now: nat) -> CoreModel {
        CoreModel {
            lifecycle: self.lifecycle.torn_down(),
            position: self.position.reset(now),
            ..self
        }
    }

    /// Pause at clock reading `now`: the position is held where it is
    /// estimated to be.
    pub open spec fn pause(self, now: nat) -> Step {
        if !self.ready() {
            self.refused(PlayerError::NotInitialized)
        } else {
            CoreModel::done(
                self.with_position(self.position.recorded(self.position.estimate(now), false, now)),
                CommandModel::Pause,
            )
        }
    }

    /// Resume at clock reading `now`: the position runs on from where it is
    /// estimated to be.
    pub open spec fn resume(self, now: nat) -> Step {
        if !self.ready() {
            self.refused(PlayerError::NotInitialized)
        } else {
            CoreModel::done(
                self.with_position(self.position.recorded(self.position.estimate(now), true, now)),
                CommandModel::Play,
            )
        }
    }

    /// Stop at clock reading `now`: the position goes back to zero.
    pub open spec fn stop(self, now: nat) -> Step {
        if !self.ready() {
            self.refused(PlayerError::NotInitialized)
        } else {
            CoreModel::done(self.with_position(self.position.reset(now)), CommandModel::Stop)
        }
    }

    /// Seek: the command goes out and the position waits for the engine's
    /// report.
    pub open spec fn seek(self, position_ms: nat) -> Step {
        if !self.ready() {
            self.refused(PlayerError::NotInitialized)
        } else {
            CoreModel::done(self, CommandModel::Seek { position_ms })
        }
    }

    /// Set the volume: the command goes out, the player keeps nothing.
    pub open spec fn set_volume(self, volume: nat) -> Step {
        if !self.ready() {
            self.refused(PlayerError::NotInitialized)
        } else {
            CoreModel::done(self, CommandModel::SetVolume { volume })
        }
    }
}

/// The player.
pub struct PlayerCore {
    lifecycle: Lifecycle,
    queue: Queue,
    position: PositionTracker,
    settings: Settings,
}

impl View for PlayerCore {
    type V = CoreModel;

    closed spec fn view(&self) -> CoreModel {
        CoreModel {
            lifecycle: self.lifecycle@,
            queue: self.queue@,
            position: self.position@,
            settings: self.settings,
        }
    }
}

impl PlayerCore {
    /// The invariant of the player.
    pub open spec fn wf(&self) -> bool {
        self@.wf()
    }

    /// A player at its start.
    pub fn new() -> (core: PlayerCore)
        ensures
            core.wf(),
            core@ == CoreModel::initial(),
    {
        PlayerCore {
            lifecycle: Lifecycle::new(),
            queue: Queue::new(),
            position: PositionTracker::new(),
            settings: Settings::new(),
        }
    }

    /// Starts to open a session, unless one is open. The step says what the
    /// caller has to do; it carries the settings that the session is to be
    /// opened with.
    pub fn begin_initialize(&mut self) -> (first: InitStep)
        requires
            old(self).wf(),
        ensures
            final(self).wf(),
            final(self)@ == old(self)@.begun(),
            first == old(self)@.lifecycle.first_step(old(self)@.settings),
    {
        self.lifecycle.begin_initialize(self.settings)
    }

    /// Takes the outcome of opening a session: `Ok` with whether remote
    /// control could be attached, or the cause of the failure. After a
    /// failure no session is open and nothing of the attempt is kept.
    pub fn complete_initialize(&mut self, outcome: Result<bool, InitFailure>) -> (done: Result<
        (),
        InitFailure,
    >)
        requires
            old(self).wf(),
        ensures
            final(self).wf(),
            final(self)@ == old(self)@.completed(outcome),
            done == old(self)@.lifecycle.completion(outcome),
    {
        self.lifecycle.complete_initialize(outcome)
    }

    /// Takes note that the engine's event stream has ended.
    pub fn event_stream_ended(&mut self)
        requires
            old(self).wf(),
        ensures
            final(self).wf(),
            final(self)@ == old(self)@.stream_ended(),
    {
        self.lifecycle.end_stream();
    }

    /// Gives the session up and resets the position. The answer says whether
    /// a reader of the event stream was running and has to be told to stop.
    pub fn teardown(&mut self, now_ms: u64) -> (stop_reader: bool)
        requires
            old(self).wf(),
        ensures
            final(self).wf(),
            final(self)@ == old(self)@.torn_down(now_ms as nat),
            stop_reader == old(self)@.ready(),
    {
        let stop_reader = self.lifecycle.teardown();
        self.position.reset(now_ms);
        stop_reader
    }

    /// Where the session stands.
    pub fn lifecycle_state(&self) -> (state: LifecycleState)
        ensures
            state == self@.lifecycle.state,
    {
        self.lifecycle.state()
    }

    /// Whether remote control is attached to the session.
    pub fn has_remote_control(&self) -> (attached: bool)
        ensures
            attached == self@.lifecycle.remote_control,
    {
        self.lifecycle.has_remote_control()
    }

    /// Moves the cursor to `index` and answers with the command that loads
    /// the item there, given what the engine's parser makes of the item's
    /// identifier.
    pub fn load_at(&mut self, index: usize, kind: Option<UriKind>) -> (answer: Result<
        EngineCommand,
        PlayerError,
    >)
        requires
            old(self).wf(),
        ensures
            final(self).wf(),
            step(final(self)@, answer) == old(self)@.load_at(index as int, kind),
    {
        if index >= self.queue.len() {
            return Err(PlayerError::InvalidIndex);
        }
        if kind.is_none() {
            return Err(PlayerError::EngineCommandFailed);
        }
        match self.queue.jump(index) {
            Ok(item) => {
                self.position.set_playing(true);
                Ok(EngineCommand::Load { uri: item.uri, autoplay: true, position_ms: 0 })
            },
            Err(error) => Err(error),
        }
    }

    /// Skips to the item behind the current one.
    pub fn next(&mut self) -> (answer: Result<EngineCommand, PlayerError>)
        requires
            old(self).wf(),
        ensures
            final(self).wf(),
            step(final(self)@, answer) == old(self)@.next(),
    {
        if !self.lifecycle.is_ready() {
            return Err(PlayerError::NotInitialized);
        }
        let current = self.queue.current_index();
        if self.queue.len() == 0 || current >= self.queue.len() - 1 {
            return Err(PlayerError::AtBoundary);
        }
        let kind = self.parsed_kind_at(current + 1);
        self.load_at(current + 1, kind)
    }

    /// Skips to the item before the current one.
    pub fn previous(&mut self) -> (answer: Result<EngineCommand, PlayerError>)
        requires
            old(self).wf(),
        ensures
            final(self).wf(),
            step(final(self)@, answer) == old(self)@.previous(),
    {
        if !self.lifecycle.is_ready() {
            return Err(PlayerError::NotInitialized);
        }
        let current = self.queue.current_index();
        if current == 0 {
            return Err(PlayerError::AtBoundary);
        }
        let kind = self.parsed_kind_at(current - 1);
        self.load_at(current - 1, kind)
    }

    /// Skips to the item at `index`.
    pub fn jump_to_index(&mut self, index: usize) -> (answer: Result<EngineCommand, PlayerError>)
        requires
            old(self).wf(),
        ensures
            final(self).wf(),
            step(final(self)@, answer) == old(self)@.jump_to_index(index as int),
    {
        if !self.lifecycle.is_ready() {
            return Err(PlayerError::NotInitialized);
        }
        let kind = self.parsed_kind_at(index);
        self.load_at(index, kind)
    }

    /// What the engine's parser makes of the identifier of the item at
    /// `index`; `None` also where there is no such item.
    fn parsed_kind_at(&self, index: usize) -> (kind: Option<UriKind>)
        ensures
            index < self@.queue.items.len() ==> kind == self@.kind_at(index as int),
    {
        match self.queue.uri_at(index) {
            Some(uri) => parse_spotify_uri(uri.as_str()),
            None => None,
        }
    }

    /// Says what has to be looked up before `input`, an identifier or a web
    /// link, can be played.
    pub fn plan_play(&self, input: &str) -> (request: Result<ResolveRequest, PlayerError>)
        ensures
            !self@.ready() ==> request == Err::<ResolveRequest, PlayerError>(
                PlayerError::NotInitialized,
            ),
            self@.ready() ==> is_request_for(request, input@),
    {
        if !self.lifecycle.is_ready() {
            return Err(PlayerError::NotInitialized);
        }
        request_for(input)
    }

    /// The canonical identifier of the track that `input` names: what has to
    /// be looked up before the track can be queued.
    pub fn plan_track(&self, input: &str) -> (track: Result<String, PlayerError>)
        ensures
            !self@.ready() ==> track == Err::<String, PlayerError>(PlayerError::NotInitialized),
            self@.ready() ==> is_track_request_for(track, input@),
    {
        if !self.lifecycle.is_ready() {
            return Err(PlayerError::NotInitialized);
        }
        track_request_for(input)
    }

    /// The canonical identifiers of the tracks that `inputs` name: what has to
    /// be looked up before the list can be played.
    pub fn plan_play_many(&self, inputs: &Vec<String>) -> (tracks: Result<Vec<String>, PlayerError>)
        ensures
            !self@.ready() ==> tracks == Err::<Vec<String>, PlayerError>(
                PlayerError::NotInitialized,
            ),
            self@.ready() ==> is_track_list_for(tracks, texts(inputs@)),
    {
        if !self.lifecycle.is_ready() {
            return Err(PlayerError::NotInitialized);
        }
        track_list_for(inputs)
    }

    /// Puts `items` in the place of the queue and answers with the command
    /// that loads the first of them, given what the engine's parser makes of
    /// that item's identifier.
    pub fn commit_play_as(&mut self, items: Vec<QueueItem>, first: Option<UriKind>) -> (answer:
        Result<EngineCommand, PlayerError>)
        requires
            old(self).wf(),
        ensures
            final(self).wf(),
            step(final(self)@, answer) == old(self)@.commit_play(item_models(items@), first),
    {
        if !self.lifecycle.is_ready() {
            return Err(PlayerError::NotInitialized);
        }
        if items.len() == 0 {
            return Err(PlayerError::EmptyResult);
        }
        if first.is_none() {
            return Err(PlayerError::EngineCommandFailed);
        }
        let uri = items[0].uri.clone();
        self.queue.replace(items);
        self.position.set_playing(true);
        Ok(EngineCommand::Load { uri, autoplay: true, position_ms: 0 })
    }

    /// Puts `items` in the place of the queue and answers with the command
    /// that loads the first of them.
    pub fn commit_play(&mut self, items: Vec<QueueItem>) -> (answer: Result<
        EngineCommand,
        PlayerError,
    >)
        requires
            old(self).wf(),
        ensures
            final(self).wf(),
            step(final(self)@, answer) == old(self)@.commit_play(
                item_models(items@),
                first_kind(item_models(items@)),
            ),
    {
        let first = if items.len() == 0 {
            None
        } else {
            parse_spotify_uri(items[0].uri.as_str())
        };
        self.commit_play_as(items, first)
    }

    /// Plays what a lookup came to: the queue is replaced by its items, or
    /// stays as it is where the lookup failed or found nothing to play.
    pub fn finish_play(&mut self, outcome: Result<Vec<QueueItem>, String>) -> (answer: Result<
        EngineCommand,
        PlayerError,
    >)
        requires
            old(self).wf(),
        ensures
            final(self).wf(),
            step(final(self)@, answer) == old(self)@.finish_play(
                outcome_of(outcome),
                first_kind_of(outcome_of(outcome)),
            ),
    {
        if !self.lifecycle.is_ready() {
            return Err(PlayerError::NotInitialized);
        }
        match outcome {
            Ok(items) => self.commit_play(items),
            Err(cause) => Err(PlayerError::ResolutionFailed(cause)),
        }
    }

    /// Takes in that the current track has run to its end, given what the
    /// engine's parser makes of the identifier of the item that follows.
    pub fn end_of_track(&mut self, successor: Option<UriKind>, now_ms: u64) -> (command: Option<
        EngineCommand,
    >)
        requires
            old(self).wf(),
        ensures
            final(self).wf(),
            reaction(final(self)@, command) == old(self)@.end_of_track(successor, now_ms as nat),
    {
        self.position.reset(now_ms);
        let current = self.queue.current_index();
        if self.queue.len() == 0 || current >= self.queue.len() - 1 {
            return None;
        }
        let _ = self.queue.advance();
        if successor.is_none() {
            return None;
        }
        match self.queue.uri_at(current + 1) {
            Some(uri) => {
                self.position.set_playing(true);
                Some(EngineCommand::Load { uri, autoplay: true, position_ms: 0 })
            },
            None => None,
        }
    }

    /// Takes in an event of the engine that arrived at clock reading
    /// `now_ms`, and answers with the command that the event calls for.
    pub fn apply_event(&mut self, event: EngineEvent, now_ms: u64) -> (command: Option<
        EngineCommand,
    >)
        requires
            old(self).wf(),
        ensures
            final(self).wf(),
            reaction(final(self)@, command) == old(self)@.after_event(event, now_ms as nat),
    {
        match event {
            EngineEvent::Playing { position_ms } => {
                self.position.record(position_ms, true, now_ms);
                None
            },
            EngineEvent::Paused { position_ms } => {
                self.position.record(position_ms, false, now_ms);
                None
            },
            EngineEvent::PositionChanged { position_ms } => {
                let playing = self.position.is_playing();
                self.position.record(position_ms, playing, now_ms);
                None
            },
            EngineEvent::Seeked { position_ms } => {
                let playing = self.position.is_playing();
                self.position.record(position_ms, playing, now_ms);
                None
            },
            EngineEvent::Stopped => {
                self.position.reset(now_ms);
                None
            },
            EngineEvent::EndOfTrack => {
                let current = self.queue.current_index();
                let successor = if current < self.queue.len() && current + 1 < self.queue.len() {
                    self.parsed_kind_at(current + 1)
                } else {
                    None
                };
                self.end_of_track(successor, now_ms)
            },
            EngineEvent::Other => None,
        }
    }

    /// Queues the track that was looked up under `uri` behind the last item.
    /// Without a session, and where the lookup failed, the queue stays as it
    /// is.
    pub fn append_to_queue(&mut self, uri: String, found: Result<TrackDescriptor, String>) -> (done:
        Result<(), PlayerError>)
        requires
            old(self).wf(),
        ensures
            final(self).wf(),
            (Edit { core: final(self)@, done }) == old(self)@.enqueue(uri@, found, false),
    {
        if !self.lifecycle.is_ready() {
            return Err(PlayerError::NotInitialized);
        }
        match found {
            Ok(track) => {
                self.queue.append(QueueItem::from_requested_track(uri, &track));
                Ok(())
            },
            Err(cause) => Err(PlayerError::ResolutionFailed(cause)),
        }
    }

    /// Queues the track that was looked up under `uri` directly behind the
    /// current item. Without a session, and where the lookup failed, the queue
    /// stays as it is.
    pub fn insert_next(&mut self, uri: String, found: Result<TrackDescriptor, String>) -> (done:
        Result<(), PlayerError>)
        requires
            old(self).wf(),
        ensures
            final(self).wf(),
            (Edit { core: final(self)@, done }) == old(self)@.enqueue(uri@, found, true),
    {
        if !self.lifecycle.is_ready() {
            return Err(PlayerError::NotInitialized);
        }
        match found {
            Ok(track) => {
                self.queue.insert_next(QueueItem::from_requested_track(uri, &track));
                Ok(())
            },
            Err(cause) => Err(PlayerError::ResolutionFailed(cause)),
        }
    }

    /// Takes the upcoming item at `index` out of the queue.
    pub fn remove_at(&mut self, index: usize) -> (done: Result<(), PlayerError>)
        requires
            old(self).wf(),
        ensures
            final(self).wf(),
            old(self)@.queue.is_upcoming(index as int) ==> done is Ok && final(self)@ == old(
                self,
            )@.with_queue(old(self)@.queue.removed(index as int)),
            !old(self)@.queue.is_upcoming(index as int) ==> done == Err::<(), PlayerError>(
                PlayerError::InvalidIndex,
            ) && final(self)@ == old(self)@,
    {
        self.queue.remove(index)
    }

    /// Takes the upcoming item at `from` out and puts it back at `to`.
    pub fn move_item(&mut self, from: usize, to: usize) -> (done: Result<(), PlayerError>)
        requires
            old(self).wf(),
        ensures
            final(self).wf(),
            old(self)@.queue.is_upcoming(from as int) && old(self)@.queue.is_upcoming(to as int)
                ==> done is Ok && final(self)@ == old(self)@.with_queue(
                old(self)@.queue.moved(from as int, to as int),
            ),
            !(old(self)@.queue.is_upcoming(from as int) && old(self)@.queue.is_upcoming(to as int))
                ==> done == Err::<(), PlayerError>(PlayerError::InvalidIndex) && final(self)@
                == old(self)@,
    {
        self.queue.move_item(from, to)
    }

    /// Drops every upcoming item.
    pub fn clear_upcoming(&mut self)
        requires
            old(self).wf(),
        ensures
            final(self).wf(),
            final(self)@ == old(self)@.with_queue(old(self)@.queue.truncated()),
    {
        self.queue.truncate_upcoming();
    }

    /// Whether playback is running.
    pub fn is_playing(&self) -> (playing: bool)
        ensures
            playing == self@.position.playing,
    {
        self.position.is_playing()
    }

    /// The playback position at clock reading `now_ms`, in milliseconds.
    pub fn position_ms(&self, now_ms: u64) -> (position_ms: u32)
        ensures
            position_ms == self@.position.estimate(now_ms as nat),
    {
        self.position.read(now_ms)
    }

    /// The number of items in the queue.
    pub fn queue_length(&self) -> (len: usize)
        ensures
            len == self@.queue.items.len(),
    {
        self.queue.len()
    }

    /// The index of the current item; zero where the queue is empty.
    pub fn current_index(&self) -> (index: usize)
        ensures
            index == self@.queue.cursor,
    {
        self.queue.current_index()
    }

    /// A copy of the item at `index`, if there is one.
    pub fn queue_item_at(&self, index: usize) -> (found: Option<QueueItem>)
        ensures
            index < self@.queue.items.len() ==> (found matches Some(item) && item@
                == self@.queue.items[index as int]),
            index >= self@.queue.items.len() ==> found is None,
    {
        self.queue.item_at(index)
    }

    /// Copies of all items of the queue, in order.
    pub fn all_queue_items(&self) -> (all: Vec<QueueItem>)
        ensures
            item_models(all@) == self@.queue.items,
    {
        self.queue.items()
    }

    /// The identifier of the item at `index`, if there is one.
    pub fn get_queue_uri(&self, index: usize) -> (found: Option<String>)
        ensures
            index < self@.queue.items.len() ==> (found matches Some(text) && text@
                == self@.queue.items[index as int].uri),
            index >= self@.queue.items.len() ==> found is None,
    {
        self.queue.uri_at(index)
    }

    /// The track name of the item at `index`, if there is one.
    pub fn get_queue_track_name(&self, index: usize) -> (found: Option<String>)
        ensures
            index < self@.queue.items.len() ==> (found matches Some(text) && text@
                == self@.queue.items[index as int].track_name),
            index >= self@.queue.items.len() ==> found is None,
    {
        self.queue.track_name_at(index)
    }

    /// The artist name of the item at `index`, if there is one.
    pub fn get_queue_artist_name(&self, index: usize) -> (found: Option<String>)
        ensures
            index < self@.queue.items.len() ==> (found matches Some(text) && text@
                == self@.queue.items[index as int].artist_name),
            index >= self@.queue.items.len() ==> found is None,
    {
        self.queue.artist_name_at(index)
    }

    /// The cover address of the item at `index`, if there is one.
    pub fn get_queue_album_art_url(&self, index: usize) -> (found: Option<String>)
        ensures
            index < self@.queue.items.len() ==> (found matches Some(text) && text@
                == self@.queue.items[index as int].album_art_url),
            index >= self@.queue.items.len() ==> found is None,
    {
        self.queue.album_art_url_at(index)
    }

    /// Sets the bitrate tier that `level` names: 0, 1 or 2. It takes effect
    /// when the next session is opened. Any other number changes nothing and
    /// is answered with `false`.
    pub fn set_bitrate(&mut self, level: u8) -> (accepted: bool)
        requires
            old(self).wf(),
        ensures
            final(self).wf(),
            accepted == (level <= 2),
            accepted ==> final(self)@ == (CoreModel {
                settings: Settings {
                    bitrate: Bitrate::of_level(level).unwrap(),
                    ..old(self)@.settings
                },
                ..old(self)@
            }),
            !accepted ==> final(self)@ == old(self)@,
    {
        self.settings.set_bitrate(level)
    }

    /// The number of the bitrate tier that is set.
    pub fn get_bitrate(&self) -> (level: u8)
        ensures
            level == self@.settings.bitrate.level_of(),
    {
        self.settings.get_bitrate()
    }

    /// Switches gapless playback on or off. It takes effect when the next
    /// session is opened.
    pub fn set_gapless(&mut self, gapless: bool)
        requires
            old(self).wf(),
        ensures
            final(self).wf(),
            final(self)@ == (CoreModel {
                settings: Settings { gapless, ..old(self)@.settings },
                ..old(self)@
            }),
    {
        self.settings.set_gapless(gapless);
    }

    /// Whether gapless playback is on.
    pub fn get_gapless(&self) -> (gapless: bool)
        ensures
            gapless == self@.settings.gapless,
    {
        self.settings.get_gapless()
    }

    /// Halts playback and holds the position.
    pub fn pause(&mut self, now_ms: u64) -> (answer: Result<EngineCommand, PlayerError>)
        requires
            old(self).wf(),
        ensures
            final(self).wf(),
            step(final(self)@, answer) == old(self)@.pause(now_ms as nat),
    {
        if !self.lifecycle.is_ready() {
            return Err(PlayerError::NotInitialized);
        }
        let held = self.position.read(now_ms);
        self.position.record(held, false, now_ms);
        Ok(EngineCommand::Pause)
    }

    /// Goes on playing from the position that was held.
    pub fn resume(&mut self, now_ms: u64) -> (answer: Result<EngineCommand, PlayerError>)
        requires
            old(self).wf(),
        ensures
            final(self).wf(),
            step(final(self)@, answer) == old(self)@.resume(now_ms as nat),
    {
        if !self.lifecycle.is_ready() {
            return Err(PlayerError::NotInitialized);
        }
        let held = self.position.read(now_ms);
        self.position.record(held, true, now_ms);
        Ok(EngineCommand::Play)
    }

    /// Halts playback and gives the position up.
    pub fn stop(&mut self, now_ms: u64) -> (answer: Result<EngineCommand, PlayerError>)
        requires
            old(self).wf(),
        ensures
            final(self).wf(),
            step(final(self)@, answer) == old(self)@.stop(now_ms as nat),
    {
        if !self.lifecycle.is_ready() {
            return Err(PlayerError::NotInitialized);
        }
        self.position.reset(now_ms);
        Ok(EngineCommand::Stop)
    }

    /// Asks the engine to go to `position_ms`. The position tracker follows
    /// when the engine reports that it has arrived.
    pub fn seek(&self, position_ms: u32) -> (answer: Result<EngineCommand, PlayerError>)
        ensures
            step(self@, answer) == self@.seek(position_ms as nat),
    {
        if !self.lifecycle.is_ready() {
            return Err(PlayerError::NotInitialized);
        }
        Ok(EngineCommand::Seek { position_ms })
    }

    /// Asks the engine's mixer for the volume `volume`.
    pub fn set_volume(&self, volume: u16) -> (answer: Result<EngineCommand, PlayerError>)
        ensures
            step(self@, answer) == self@.set_volume(volume as nat),
    {
        if !self.lifecycle.is_ready() {
            return Err(PlayerError::NotInitialized);
        }
        Ok(EngineCommand::SetVolume { volume })
    }
}

} // verus!
