use vstd::prelude::*;

verus! {

/// A snapshot of the track being played: its catalog id, its length and the
/// position reached, both in milliseconds, as the engine reported them when
/// the snapshot was taken.
#[derive(Clone, Copy, Debug, PartialEq, Eq, Structural)]
pub struct CurrentMedia {
    pub id: u64,
    pub length: i64,
    pub progress: i64,
}

impl CurrentMedia {
    /// Builds a snapshot of track `media_id` from the engine's readings; a
    /// position the engine could not report counts as zero.
    pub fn new(media_id: u64, length: i64, progress: Option<i64>) -> (r: Self)
        ensures
            r == (CurrentMedia { id: media_id, length, progress: progress_or_zero(progress) }),
    {
        let p: i64 = match progress {
            Some(p) => p,
            None => 0,
        };
        CurrentMedia { id: media_id, length, progress: p }
    }
}

/// The position to record when the engine may fail to report one.
pub open spec fn progress_or_zero(progress: Option<i64>) -> i64 {
    match progress {
        Some(p) => p,
        None => 0,
    }
}

/// What the media engine says it is doing.
#[derive(Clone, Copy, Debug, PartialEq, Eq, Structural)]
pub enum EngineStatus {
    Playing,
    Paused,
    Stopped,
    /// Opening, buffering, ended, failed: any state that is none of the above.
    Other,
}

/// The authoritative playback state.
#[derive(Clone, Copy, Debug, PartialEq, Eq, Structural)]
pub enum PlaybackState {
    Playing { current_media: CurrentMedia },
    Paused { current_media: CurrentMedia },
    Stopped,
}

impl PlaybackState {
    /// Reads the playback state off the engine: a playing or paused engine
    /// gives a fresh snapshot of track `media_id`, any other status gives
    /// `Stopped`.
    pub fn new(media_id: u64, status: EngineStatus, length: i64, progress: Option<i64>) -> (r:
        Self)
        ensures
            r == state_from_engine(media_id, status, length, progress),
    {
        match status {
            EngineStatus::Playing => PlaybackState::Playing {
                current_media: CurrentMedia::new(media_id, length, progress),
            },
            EngineStatus::Paused => PlaybackState::Paused {
                current_media: CurrentMedia::new(media_id, length, progress),
            },
            _ => PlaybackState::Stopped,
        }
    }
}

/// The state that `PlaybackState::new` reads off the engine.
pub open spec fn state_from_engine(
    media_id: u64,
    status: EngineStatus,
    length: i64,
    progress: Option<i64>,
) -> PlaybackState {
    let snapshot = CurrentMedia { id: media_id, length, progress: progress_or_zero(progress) };
    match status {
        EngineStatus::Playing => PlaybackState::Playing { current_media: snapshot },
        EngineStatus::Paused => PlaybackState::Paused { current_media: snapshot },
        _ => PlaybackState::Stopped,
    }
}

} // verus!
