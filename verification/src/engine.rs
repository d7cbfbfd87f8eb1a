//! What passes between the player and the streaming engine: the commands that
//! the player hands out, and the events that it takes in.

use vstd::prelude::*;

verus! {

/// A command for the streaming engine. The player never performs one itself:
/// it hands the command to its caller, who does.
#[derive(Debug, PartialEq, Eq)]
pub enum EngineCommand {
    /// Load the item with this identifier, from `position_ms` on, and start
    /// to play it at once if `autoplay` is set.
    Load { uri: String, autoplay: bool, position_ms: u32 },
    /// Go on playing.
    Play,
    /// Halt, and keep the position.
    Pause,
    /// Halt, and give the position up.
    Stop,
    /// Go to this position.
    Seek { position_ms: u32 },
    /// Set the volume of the mixer.
    SetVolume { volume: u16 },
}

/// What a command is, as plain values.
pub enum CommandModel {
    Load { uri: Seq<char>, autoplay: bool, position_ms: nat },
    Play,
    Pause,
    Stop,
    Seek { position_ms: nat },
    SetVolume { volume: nat },
}

impl View for EngineCommand {
    type V = CommandModel;

    open spec fn view(&self) -> CommandModel {
        match self {
            EngineCommand::Load { uri, autoplay, position_ms } => CommandModel::Load {
                uri: uri@,
                autoplay: *autoplay,
                position_ms: *position_ms as nat,
            },
            EngineCommand::Play => CommandModel::Play,
            EngineCommand::Pause => CommandModel::Pause,
            EngineCommand::Stop => CommandModel::Stop,
            EngineCommand::Seek { position_ms } => CommandModel::Seek {
                position_ms: *position_ms as nat,
            },
            EngineCommand::SetVolume { volume } => CommandModel::SetVolume {
                volume: *volume as nat,
            },
        }
    }
}

/// The command that loads `uri` from its start and plays it at once.
pub open spec fn load_and_play(uri: Seq<char>) -> CommandModel {
    CommandModel::Load { uri, autoplay: true, position_ms: 0 }
}

/// What the streaming engine reports.
#[derive(Clone, Copy, Debug, PartialEq, Eq, Structural)]
pub enum EngineEvent {
    /// Playback runs, from this position on.
    Playing { position_ms: u32 },
    /// Playback is halted at this position.
    Paused { position_ms: u32 },
    /// The periodic report of the position.
    PositionChanged { position_ms: u32 },
    /// A seek has arrived at this position.
    Seeked { position_ms: u32 },
    /// Playback was stopped.
    Stopped,
    /// The current track has run to its end.
    EndOfTrack,
    /// Anything else; it changes nothing.
    Other,
}

} // verus!
