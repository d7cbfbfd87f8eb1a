//! The last position that the engine reported, and what follows from it for
//! the position now.

use vstd::prelude::*;

verus! {

/// The longest time, in milliseconds, over which a reported position is
/// carried forward. Beyond it the estimate stands still, so that a stalled
/// event stream cannot make it run away.
pub const MAX_EXTRAPOLATION_MS: u64 = 5000;

/// What the tracker holds.
pub struct PositionModel {
    /// The position of the last observation, in milliseconds.
    pub position_ms: nat,
    /// The clock reading at the last observation; `None` before the first.
    pub observed_at: Option<nat>,
    /// Whether playback is running.
    pub playing: bool,
}

impl PositionModel {
    /// The tracker before anything was observed.
    pub open spec fn initial() -> PositionModel {
        PositionModel { position_ms: 0, observed_at: None, playing: false }
    }

    /// The tracker after the observation of `position_ms` at clock reading
    /// `now`.
    pub open spec fn recorded(self, position_ms: nat, playing: bool, now: nat) -> PositionModel {
        PositionModel { position_ms, observed_at: Some(now), playing }
    }

    /// The tracker after a stop at clock reading `now`.
    pub open spec fn reset(self, now: nat) -> PositionModel {
        self.recorded(0, false, now)
    }

    /// The tracker with another playing flag and the same observation.
    pub open spec fn with_playing(self, playing: bool) -> PositionModel {
        PositionModel { playing, ..self }
    }

    /// The time by which the estimate at `now` runs ahead of the observation:
    /// the time that has passed since, but never more than the limit, and
    /// nothing while playback is halted or before the first observation. A
    /// clock reading before the observation counts as no time passed.
    pub open spec fn lead(self, now: nat) -> nat {
        match self.observed_at {
            Some(then) if self.playing && now > then => {
                if now - then < MAX_EXTRAPOLATION_MS {
                    (now - then) as nat
                } else {
                    MAX_EXTRAPOLATION_MS as nat
                }
            },
            _ => 0,
        }
    }

    /// The position at clock reading `now`: the observed one plus the lead,
    /// held to what 32 bits can carry.
    pub open spec fn estimate(self, now: nat) -> nat {
        if self.position_ms + self.lead(now) > u32::MAX {
            u32::MAX as nat
        } else {
            self.position_ms + self.lead(now)
        }
    }
}

/// Holds the last observation of the playback position.
pub struct PositionTracker {
    position_ms: u32,
    observed_at: Option<u64>,
    playing: bool,
}

impl View for PositionTracker {
    type V = PositionModel;

    closed spec fn view(&self) -> PositionModel {
        PositionModel {
            position_ms: self.position_ms as nat,
            observed_at: match self.observed_at {
                Some(then) => Some(then as nat),
                None => None,
            },
            playing: self.playing,
        }
    }
}

impl PositionTracker {
    /// A tracker that has observed nothing.
    pub fn new() -> (tracker: PositionTracker)
        ensures
            tracker@ == PositionModel::initial(),
    {
        PositionTracker { position_ms: 0, observed_at: None, playing: false }
    }

    /// Takes down the position `position_ms` as observed at clock reading
    /// `now_ms`, with the playing flag that goes with it.
    pub fn record(&mut self, position_ms: u32, is_playing: bool, now_ms: u64)
        ensures
            final(self)@ == old(self)@.recorded(position_ms as nat, is_playing, now_ms as nat),
    {
        self.position_ms = position_ms;
        self.observed_at = Some(now_ms);
        self.playing = is_playing;
    }

    /// Takes down a stop: position zero, not playing.
    pub fn reset(&mut self, now_ms: u64)
        ensures
            final(self)@ == old(self)@.reset(now_ms as nat),
    {
        self.record(0, false, now_ms);
    }

    /// Changes the playing flag and leaves the observation as it is.
    pub fn set_playing(&mut self, is_playing: bool)
        ensures
            final(self)@ == old(self)@.with_playing(is_playing),
    {
        self.playing = is_playing;
    }

    /// The position at clock reading `now_ms`.
    pub fn read(&self, now_ms: u64) -> (position_ms: u32)
        ensures
            position_ms == self@.estimate(now_ms as nat),
    {
        let then: u64 = match self.observed_at {
            Some(then) => then,
            None => {
                return self.position_ms;
            },
        };
        if !self.playing || now_ms <= then {
            return self.position_ms;
        }
        let passed: u64 = now_ms - then;
        let lead: u64 = if passed >= MAX_EXTRAPOLATION_MS {
            MAX_EXTRAPOLATION_MS
        } else {
            passed
        };
        let sum: u64 = self.position_ms as u64 + lead;
        if sum > u32::MAX as u64 {
            u32::MAX
        } else {
            sum as u32
        }
    }

    /// Whether playback is running.
    pub fn is_playing(&self) -> (playing: bool)
        ensures
            playing == self@.playing,
    {
        self.playing
    }
}

} // verus!
