//! The command and event protocol between the controller and the engine,
//! and the transport states of both sides.

use vstd::prelude::*;

verus! {

/// A transport intent sent from the controlling context to the engine.
///
/// Source paths travel as plain `String` values; volume travels in
/// hundredths of full scale, so `100` is unity gain.
#[derive(Debug, Clone, PartialEq)]
pub enum AudioCommand {
    Stop,
    Play,
    Pause,
    /// Seek to an absolute position, in seconds.
    Seek(u64),
    /// Tear down the current session and start playing this source.
    LoadFile(String),
    /// Prefer this track index on the next load.
    Select(usize),
    /// Set the output gain, in hundredths of full scale.
    SetVolume(u32),
}

/// An engine-observed fact reported back to the controlling context.
#[derive(Debug, Clone, Copy, PartialEq, Eq, Structural)]
pub enum UiCommand {
    /// The stream ended; emitted exactly once per finished session.
    AudioFinished,
    /// The total duration of the loaded track, in time-base ticks.
    TotalTrackDuration(u64),
    /// The presentation time of the packet just read, in time-base ticks.
    CurrentTimestamp(u64),
}

/// The engine's transport state. Exactly one value is live at any instant,
/// owned by the engine; it changes only in response to a command or to a
/// completion or error event inside the engine.
#[derive(Debug, Clone, PartialEq)]
pub enum PlayerState {
    Unstarted,
    Stopped,
    Playing,
    Paused,
    /// A load of this source is pending.
    LoadFile(String),
    /// A seek to this position (in seconds) is pending.
    SeekTo(u64),
}

/// The controller-side transport state mirrored by [`crate::player::Player`].
#[derive(Debug, Clone, Copy, PartialEq, Eq, Structural)]
pub enum TrackState {
    Unstarted,
    Stopped,
    Playing,
    Paused,
}

impl TrackState {
    /// The display name of the state.
    pub fn label(&self) -> (r: String)
        ensures
            *self is Unstarted ==> r@ == "Unstarted"@,
            *self is Stopped ==> r@ == "Stopped"@,
            *self is Playing ==> r@ == "Playing"@,
            *self is Paused ==> r@ == "Paused"@,
    {
        match self {
            TrackState::Unstarted => "Unstarted".to_owned(),
            TrackState::Stopped => "Stopped".to_owned(),
            TrackState::Playing => "Playing".to_owned(),
            TrackState::Paused => "Paused".to_owned(),
        }
    }
}

} // verus!
