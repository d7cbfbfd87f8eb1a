//! The ways in which an operation of the player can fail.

use vstd::prelude::*;

verus! {

/// Why an operation did not take place.
#[derive(Debug, PartialEq, Eq)]
pub enum PlayerError {
    /// The operation needs a session and none is open.
    NotInitialized,
    /// The index does not name an item that the operation may touch.
    InvalidIndex,
    /// The cursor stands at the end of the queue that the step leads beyond.
    AtBoundary,
    /// The identifier names nothing that can be queued.
    UnsupportedUriKind,
    /// The metadata service could not resolve an identifier; the text is the
    /// cause that it gave.
    ResolutionFailed(String),
    /// The engine cannot take the command.
    EngineCommandFailed,
    /// A collection holds no playable track.
    EmptyResult,
}

impl Clone for PlayerError {
    fn clone(&self) -> (copy: Self)
        ensures
            copy == *self,
    {
        match self {
            PlayerError::NotInitialized => PlayerError::NotInitialized,
            PlayerError::InvalidIndex => PlayerError::InvalidIndex,
            PlayerError::AtBoundary => PlayerError::AtBoundary,
            PlayerError::UnsupportedUriKind => PlayerError::UnsupportedUriKind,
            PlayerError::ResolutionFailed(cause) => PlayerError::ResolutionFailed(cause.clone()),
            PlayerError::EngineCommandFailed => PlayerError::EngineCommandFailed,
            PlayerError::EmptyResult => PlayerError::EmptyResult,
        }
    }
}

} // verus!
