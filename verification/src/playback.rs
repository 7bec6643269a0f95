//! What the play button does.

use vstd::prelude::*;

verus! {

/// Where the playback of a sound stands.
#[derive(Clone, Copy, PartialEq, Eq, Structural, Debug)]
pub enum PlaybackState {
    Playing,
    Pausing,
    Paused,
    Stopping,
    Stopped,
}

/// What is done to the playback.
#[derive(Clone, Copy, PartialEq, Eq, Structural, Debug)]
pub enum PlaybackAction {
    Pause,
    Resume,
    /// Stop what is playing and play the song from its start.
    Start,
}

/// What the play button does: a sound that plays is paused, one that is paused
/// or pausing goes on, and without a sound, or with one that has stopped or is
/// stopping, the song is played from its start.
pub open spec fn toggled(state: Option<PlaybackState>) -> PlaybackAction {
    match state {
        Some(PlaybackState::Playing) => PlaybackAction::Pause,
        Some(PlaybackState::Pausing) => PlaybackAction::Resume,
        Some(PlaybackState::Paused) => PlaybackAction::Resume,
        _ => PlaybackAction::Start,
    }
}

/// What the play button does, given where the playback of the song stands;
/// `None` where no sound was started yet.
pub fn toggle_song_playback(state: Option<PlaybackState>) -> (action: PlaybackAction)
    ensures
        action == toggled(state),
{
    match state {
        Some(PlaybackState::Playing) => PlaybackAction::Pause,
        Some(PlaybackState::Pausing) => PlaybackAction::Resume,
        Some(PlaybackState::Paused) => PlaybackAction::Resume,
        Some(PlaybackState::Stopping) => PlaybackAction::Start,
        Some(PlaybackState::Stopped) => PlaybackAction::Start,
        None => PlaybackAction::Start,
    }
}

} // verus!
