//! Playback queue and state synchronisation for a streaming player.
//!
//! The crate keeps a consistent picture of what is playing, at which position,
//! and what comes next. It never talks to the streaming engine itself: every
//! operation returns the command that its caller has to hand to the engine, and
//! every engine event is fed back in as a plain value.

pub mod engine;
pub mod error;
pub mod item;
pub mod laws;
pub mod lifecycle;
pub mod player;
pub mod position;
pub mod queue;
pub mod radio;
pub mod resolve;
pub mod settings;
pub mod text;
pub mod token;
pub mod uri;
