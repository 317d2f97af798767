use vstd::prelude::*;

use crate::catalog::{path_of, MediaCatalog};
use crate::messages::{MsgView, OutgoingMsg, PlayerMsg};
use crate::playback::{progress_or_zero, CurrentMedia, PlaybackState};
use crate::registry::ConnectionRegistry;

verus! {

/// What the engine said after the call that `Player::plan` asked for: whether
/// the call succeeded, and the track length and position read right after it.
#[derive(Clone, Copy, Debug, PartialEq, Eq, Structural)]
pub struct EngineReport {
    pub succeeded: bool,
    pub length: i64,
    pub progress: Option<i64>,
}

/// The media engine call that a command needs before its effect is decided.
#[derive(Debug)]
pub enum EngineCall {
    Nothing,
    /// Load the file at `path` and start playing it.
    Load { path: String },
    Pause,
    Play,
    Stop,
    SetVolume { volume: u64 },
    /// Only read the track length and position.
    Sample,
}

pub enum CallView {
    Nothing,
    Load { path: Seq<char> },
    Pause,
    Play,
    Stop,
    SetVolume { volume: u64 },
    Sample,
}

impl View for EngineCall {
    type V = CallView;

    open spec fn view(&self) -> CallView {
        match self {
            EngineCall::Nothing => CallView::Nothing,
            EngineCall::Load { path } => CallView::Load { path: path@ },
            EngineCall::Pause => CallView::Pause,
            EngineCall::Play => CallView::Play,
            EngineCall::Stop => CallView::Stop,
            EngineCall::SetVolume { volume } => CallView::SetVolume { volume: *volume },
            EngineCall::Sample => CallView::Sample,
        }
    }
}

/// One message and the connections it is for, each named once.
#[derive(Debug)]
pub struct Delivery {
    pub recipients: Vec<u64>,
    pub message: OutgoingMsg,
}

pub struct Dispatch {
    pub audience: Set<u64>,
    pub message: MsgView,
}

impl View for Delivery {
    type V = Dispatch;

    open spec fn view(&self) -> Dispatch {
        Dispatch { audience: self.recipients@.to_set(), message: self.message@ }
    }
}

impl Delivery {
    pub open spec fn wf(&self) -> bool {
        self.recipients@.no_duplicates()
    }
}

/// The playback worker: the one owner of the playback state, the catalog and
/// the registry of subscribed connections.
#[derive(Debug)]
pub struct Player {
    state: PlaybackState,
    catalog: MediaCatalog,
    registry: ConnectionRegistry,
}

pub struct PlayerView {
    pub state: PlaybackState,
    pub catalog: Seq<(u64, Seq<char>)>,
    pub members: Set<u64>,
}

impl View for Player {
    type V = PlayerView;

    closed spec fn view(&self) -> PlayerView {
        PlayerView { state: self.state, catalog: self.catalog@, members: self.registry@ }
    }
}

/// A playing or paused track is one of the catalog's.
pub open spec fn state_in_catalog(state: PlaybackState, catalog: Seq<(u64, Seq<char>)>) -> bool {
    match state {
        PlaybackState::Playing { current_media } => path_of(catalog, current_media.id) is Some,
        PlaybackState::Paused { current_media } => path_of(catalog, current_media.id) is Some,
        PlaybackState::Stopped => true,
    }
}

/// The worker's state after the deliveries to the connections of `failed`
/// failed.
pub open spec fn evicted(v: PlayerView, failed: Set<u64>) -> PlayerView {
    PlayerView { members: v.members.difference(failed), ..v }
}

/// A fresh snapshot of track `id` from the engine's readings.
pub open spec fn snapshot(id: u64, report: EngineReport) -> CurrentMedia {
    CurrentMedia { id, length: report.length, progress: progress_or_zero(report.progress) }
}

/// The playback state after `cmd`, given what the engine reported: the
/// transition table of the worker. A known track that the engine starts
/// replaces any state; pausing needs a playing track and resuming a paused
/// one; stopping a playing or a paused track stops it; everything else leaves
/// the state as it is.
pub open spec fn next_state(
    state: PlaybackState,
    catalog: Seq<(u64, Seq<char>)>,
    cmd: PlayerMsg,
    report: EngineReport,
) -> PlaybackState {
    match cmd {
        PlayerMsg::Play(id) => if path_of(catalog, id) is Some && report.succeeded {
            PlaybackState::Playing { current_media: snapshot(id, report) }
        } else {
            state
        },
        PlayerMsg::Pause => match state {
            PlaybackState::Playing { current_media } => PlaybackState::Paused {
                current_media: snapshot(current_media.id, report),
            },
            _ => state,
        },
        PlayerMsg::Resume => match state {
            PlaybackState::Paused { current_media } => if report.succeeded {
                PlaybackState::Playing { current_media: snapshot(current_media.id, report) }
            } else {
                state
            },
            _ => state,
        },
        PlayerMsg::Stop => PlaybackState::Stopped,
        _ => state,
    }
}

/// The subscribed connections after `cmd`.
pub open spec fn next_members(members: Set<u64>, cmd: PlayerMsg) -> Set<u64> {
    match cmd {
        PlayerMsg::Register(conn) => members.insert(conn),
        PlayerMsg::Unregister(conn) => members.remove(conn),
        _ => members,
    }
}

pub open spec fn next_view(v: PlayerView, cmd: PlayerMsg, report: EngineReport) -> PlayerView {
    PlayerView {
        state: next_state(v.state, v.catalog, cmd, report),
        catalog: v.catalog,
        members: next_members(v.members, cmd),
    }
}

/// The state shown to a connection that joins: the current state, with the
/// position of a playing track read again.
pub open spec fn joined_view(state: PlaybackState, report: EngineReport) -> PlaybackState {
    match state {
        PlaybackState::Playing { current_media } => PlaybackState::Playing {
            current_media: snapshot(current_media.id, report),
        },
        _ => state,
    }
}

/// The engine call that `cmd` needs in the worker's state `v`.
pub open spec fn planned_call(v: PlayerView, cmd: PlayerMsg) -> CallView {
    match cmd {
        PlayerMsg::Play(id) => match path_of(v.catalog, id) {
            Some(path) => CallView::Load { path },
            None => CallView::Nothing,
        },
        PlayerMsg::Pause => if v.state is Playing {
            CallView::Pause
        } else {
            CallView::Nothing
        },
        PlayerMsg::Resume => if v.state is Paused {
            CallView::Play
        } else {
            CallView::Nothing
        },
        PlayerMsg::Stop => if v.state is Stopped {
            CallView::Nothing
        } else {
            CallView::Stop
        },
        PlayerMsg::VolumeChange(volume) => CallView::SetVolume { volume },
        PlayerMsg::Register(_) => if v.state is Playing {
            CallView::Sample
        } else {
            CallView::Nothing
        },
        PlayerMsg::Unregister(_) => CallView::Nothing,
    }
}

/// What the worker sends after `cmd` in state `v`, and to whom: every change
/// of state, stopping a paused track included, goes to every subscriber; so
/// do a volume change the engine made and an `Error` when the engine refused
/// to play; the full player state goes only to a joining connection.
pub open spec fn dispatch_of(v: PlayerView, cmd: PlayerMsg, report: EngineReport) -> Option<
    Dispatch,
> {
    let changed = Dispatch {
        audience: v.members,
        message: MsgView::PlaybackChange {
            playback_state: next_state(v.state, v.catalog, cmd, report),
        },
    };
    let failed = Dispatch { audience: v.members, message: MsgView::Error };
    match cmd {
        PlayerMsg::Play(id) => if path_of(v.catalog, id) is None {
            None
        } else if report.succeeded {
            Some(changed)
        } else {
            Some(failed)
        },
        PlayerMsg::Pause => if v.state is Playing {
            Some(changed)
        } else {
            None
        },
        PlayerMsg::Resume => if !(v.state is Paused) {
            None
        } else if report.succeeded {
            Some(changed)
        } else {
            Some(failed)
        },
        PlayerMsg::Stop => if v.state is Stopped {
            None
        } else {
            Some(changed)
        },
        PlayerMsg::VolumeChange(volume) => if report.succeeded {
            Some(Dispatch { audience: v.members, message: MsgView::VolumeChange { volume } })
        } else {
            None
        },
        PlayerMsg::Register(conn) => Some(
            Dispatch {
                audience: set![conn],
                message: MsgView::PlayerState {
                    playback_state: joined_view(v.state, report),
                    media: v.catalog,
                },
            },
        ),
        PlayerMsg::Unregister(_) => None,
    }
}

/// The message `msg` addressed to every connection of `connections`.
pub fn broadcast(connections: &ConnectionRegistry, msg: OutgoingMsg) -> (r: Delivery)
    requires
        connections.wf(),
    ensures
        r.wf(),
        r@ == (Dispatch { audience: connections@, message: msg@ }),
{
    Delivery { recipients: connections.members(), message: msg }
}

impl Player {
    pub closed spec fn wf(&self) -> bool {
        &&& self.catalog.wf()
        &&& self.registry.wf()
        &&& state_in_catalog(self.state, self.catalog@)
    }

    /// A stopped worker over `catalog`, with no connection subscribed.
    pub fn new(catalog: MediaCatalog) -> (r: Self)
        requires
            catalog.wf(),
        ensures
            r.wf(),
            r@ == (PlayerView {
                state: PlaybackState::Stopped,
                catalog: catalog@,
                members: Set::empty(),
            }),
    {
        Player { state: PlaybackState::Stopped, catalog, registry: ConnectionRegistry::new() }
    }

    /// The current playback state.
    pub fn state(&self) -> (r: PlaybackState)
        ensures
            r == self@.state,
    {
        self.state
    }

    /// The catalog.
    pub fn catalog(&self) -> (r: &MediaCatalog)
        ensures
            r@ == self@.catalog,
    {
        &self.catalog
    }

    /// Whether connection `conn` is subscribed.
    pub fn is_subscribed(&self, conn: u64) -> (r: bool)
        ensures
            r == self@.members.contains(conn),
    {
        self.registry.contains(conn)
    }

    /// The engine call to make for `cmd` before handing its report to
    /// `apply`.
    pub fn plan(&self, cmd: PlayerMsg) -> (r: EngineCall)
        requires
            self.wf(),
        ensures
            r@ == planned_call(self@, cmd),
    {
        match cmd {
            PlayerMsg::Play(id) => match self.catalog.lookup(id) {
                Some(path) => EngineCall::Load { path },
                None => EngineCall::Nothing,
            },
            PlayerMsg::Pause => match self.state {
                PlaybackState::Playing { .. } => EngineCall::Pause,
                _ => EngineCall::Nothing,
            },
            PlayerMsg::Resume => match self.state {
                PlaybackState::Paused { .. } => EngineCall::Play,
                _ => EngineCall::Nothing,
            },
            PlayerMsg::Stop => match self.state {
                PlaybackState::Stopped => EngineCall::Nothing,
                _ => EngineCall::Stop,
            },
            PlayerMsg::VolumeChange(volume) => EngineCall::SetVolume { volume },
            PlayerMsg::Register(_) => match self.state {
                PlaybackState::Playing { .. } => EngineCall::Sample,
                _ => EngineCall::Nothing,
            },
            PlayerMsg::Unregister(_) => EngineCall::Nothing,
        }
    }

    /// Applies `cmd`, given the engine's report on the call that `plan` asked
    /// for, and returns what to send.
    pub fn apply(&mut self, cmd: PlayerMsg, report: EngineReport) -> (r: Option<Delivery>)
        requires
            old(self).wf(),
        ensures
            final(self).wf(),
            final(self)@ == next_view(old(self)@, cmd, report),
            match r {
                Some(d) => d.wf() && dispatch_of(old(self)@, cmd, report) == Some(d@),
                None => dispatch_of(old(self)@, cmd, report) is None,
            },
    {
        match cmd {
            PlayerMsg::Play(id) => {
                if self.catalog.lookup(id).is_none() {
                    return None;
                }
                if report.succeeded {
                    self.state = PlaybackState::Playing {
                        current_media: CurrentMedia::new(id, report.length, report.progress),
                    };
                    Some(self.announce_state())
                } else {
                    Some(broadcast(&self.registry, OutgoingMsg::Error))
                }
            },
            PlayerMsg::Pause => match self.state {
                PlaybackState::Playing { current_media } => {
                    self.state = PlaybackState::Paused {
                        current_media: CurrentMedia::new(
                            current_media.id,
                            report.length,
                            report.progress,
                        ),
                    };
                    Some(self.announce_state())
                },
                _ => None,
            },
            PlayerMsg::Resume => match self.state {
                PlaybackState::Paused { current_media } => {
                    if report.succeeded {
                        self.state = PlaybackState::Playing {
                            current_media: CurrentMedia::new(
                                current_media.id,
                                report.length,
                                report.progress,
                            ),
                        };
                        Some(self.announce_state())
                    } else {
                        Some(broadcast(&self.registry, OutgoingMsg::Error))
                    }
                },
                _ => None,
            },
            PlayerMsg::Stop => match self.state {
                PlaybackState::Stopped => None,
                _ => {
                    self.state = PlaybackState::Stopped;
                    Some(self.announce_state())
                },
            },
            PlayerMsg::VolumeChange(volume) => {
                if report.succeeded {
                    Some(broadcast(&self.registry, OutgoingMsg::VolumeChange { volume }))
                } else {
                    None
                }
            },
            PlayerMsg::Register(conn) => {
                self.registry.insert(conn);
                let shown = match self.state {
                    PlaybackState::Playing { current_media } => PlaybackState::Playing {
                        current_media: CurrentMedia::new(
                            current_media.id,
                            report.length,
                            report.progress,
                        ),
                    },
                    other => other,
                };
                let mut recipients: Vec<u64> = Vec::new();
                recipients.push(conn);
                let d = Delivery {
                    recipients,
                    message: OutgoingMsg::PlayerState {
                        playback_state: shown,
                        media: self.catalog.copy(),
                    },
                };
                proof {
                    assert(d.recipients@.len() == 1 && d.recipients@[0] == conn);
                    assert forall|x: u64| d.recipients@.contains(x) <==> x == conn by {
                        if x == conn {
                            assert(d.recipients@[0] == x);
                        }
                    }
                    assert(d.recipients@.to_set() =~= set![conn]);
                }
                Some(d)
            },
            PlayerMsg::Unregister(conn) => {
                self.registry.remove(conn);
                None
            },
        }
    }

    /// The current state, addressed to every subscriber.
    fn announce_state(&self) -> (r: Delivery)
        requires
            self.wf(),
        ensures
            r.wf(),
            r@ == (Dispatch {
                audience: self@.members,
                message: MsgView::PlaybackChange { playback_state: self@.state },
            }),
    {
        broadcast(&self.registry, OutgoingMsg::PlaybackChange { playback_state: self.state })
    }

    /// Unsubscribes the connections to which a delivery failed.
    pub fn evict(&mut self, failed: &Vec<u64>)
        requires
            old(self).wf(),
        ensures
            final(self).wf(),
            final(self)@ == evicted(old(self)@, failed@.to_set()),
    {
        self.registry.evict(failed);
    }
}

} // verus!
