use vstd::prelude::*;

use crate::catalog::MediaCatalog;
use crate::playback::PlaybackState;

verus! {

/// A message a client sends.
#[derive(Clone, Copy, Debug, PartialEq, Eq, Structural)]
pub enum IncomingMsg {
    VolumeChange { volume: u64 },
    Play { track_id: u64 },
    Pause,
    Stop,
    Resume,
}

/// A message sent to clients.
#[derive(Debug)]
pub enum OutgoingMsg {
    FsChange,
    PlaybackChange { playback_state: PlaybackState },
    PlayerState { playback_state: PlaybackState, media: MediaCatalog },
    RegisterSuccess,
    Error,
    VolumeChange { volume: u64 },
}

/// The content of an outgoing message, with the catalog as its entries.
pub enum MsgView {
    FsChange,
    PlaybackChange { playback_state: PlaybackState },
    PlayerState { playback_state: PlaybackState, media: Seq<(u64, Seq<char>)> },
    RegisterSuccess,
    Error,
    VolumeChange { volume: u64 },
}

impl View for OutgoingMsg {
    type V = MsgView;

    open spec fn view(&self) -> MsgView {
        match self {
            OutgoingMsg::FsChange => MsgView::FsChange,
            OutgoingMsg::PlaybackChange { playback_state } => MsgView::PlaybackChange {
                playback_state: *playback_state,
            },
            OutgoingMsg::PlayerState { playback_state, media } => MsgView::PlayerState {
                playback_state: *playback_state,
                media: media@,
            },
            OutgoingMsg::RegisterSuccess => MsgView::RegisterSuccess,
            OutgoingMsg::Error => MsgView::Error,
            OutgoingMsg::VolumeChange { volume } => MsgView::VolumeChange { volume: *volume },
        }
    }
}

/// Descriptive data of a track.
#[derive(Debug)]
pub struct MediaMetadata {
    pub title: String,
    pub artist: String,
    pub album: String,
}

/// A command for the playback worker. Connections are named by the id their
/// session was given.
#[derive(Clone, Copy, Debug, PartialEq, Eq, Structural)]
pub enum PlayerMsg {
    Play(u64),
    Pause,
    Resume,
    Stop,
    Register(u64),
    Unregister(u64),
    VolumeChange(u64),
}

/// The command that a client's message asks for.
pub open spec fn command_of(msg: IncomingMsg) -> PlayerMsg {
    match msg {
        IncomingMsg::VolumeChange { volume } => PlayerMsg::VolumeChange(volume),
        IncomingMsg::Play { track_id } => PlayerMsg::Play(track_id),
        IncomingMsg::Pause => PlayerMsg::Pause,
        IncomingMsg::Stop => PlayerMsg::Stop,
        IncomingMsg::Resume => PlayerMsg::Resume,
    }
}

impl IncomingMsg {
    /// The command to forward to the playback worker for this message.
    pub fn command(&self) -> (r: PlayerMsg)
        ensures
            r == command_of(*self),
    {
        match *self {
            IncomingMsg::VolumeChange { volume } => PlayerMsg::VolumeChange(volume),
            IncomingMsg::Play { track_id } => PlayerMsg::Play(track_id),
            IncomingMsg::Pause => PlayerMsg::Pause,
            IncomingMsg::Stop => PlayerMsg::Stop,
            IncomingMsg::Resume => PlayerMsg::Resume,
        }
    }
}

} // verus!
