//! Properties of the playback worker that span several commands or hold of
//! every state, proved over the model its operations are specified by.
use vstd::prelude::*;

use crate::catalog::path_of;
use crate::messages::{MsgView, PlayerMsg};
use crate::playback::PlaybackState;
use crate::player::{
    dispatch_of, evicted, joined_view, next_state, next_view, state_in_catalog, Dispatch,
    EngineReport, PlayerView,
};

verus! {

/// The worker's state after each command of `steps` in turn, each with the
/// engine's report on it.
pub open spec fn run(v: PlayerView, steps: Seq<(PlayerMsg, EngineReport)>) -> PlayerView
    decreases steps.len(),
{
    if steps.len() == 0 {
        v
    } else {
        run(next_view(v, steps[0].0, steps[0].1), steps.drop_first())
    }
}

/// The playback state that the transition table alone gives for `steps`,
/// with no connections in view.
pub open spec fn table_run(
    state: PlaybackState,
    catalog: Seq<(u64, Seq<char>)>,
    steps: Seq<(PlayerMsg, EngineReport)>,
) -> PlaybackState
    decreases steps.len(),
{
    if steps.len() == 0 {
        state
    } else {
        table_run(next_state(state, catalog, steps[0].0, steps[0].1), catalog, steps.drop_first())
    }
}

/// After any sequence of commands the playback state is the one the
/// transition table gives step by step, however many connections are
/// subscribed, and the catalog is unchanged.
pub proof fn law_playback_follows_table(v: PlayerView, steps: Seq<(PlayerMsg, EngineReport)>)
    ensures
        run(v, steps).state == table_run(v.state, v.catalog, steps),
        run(v, steps).catalog == v.catalog,
    decreases steps.len(),
{
    if steps.len() > 0 {
        law_playback_follows_table(next_view(v, steps[0].0, steps[0].1), steps.drop_first());
    }
}

/// Every command keeps a playing or paused track one of the catalog's.
pub proof fn law_state_stays_in_catalog(
    state: PlaybackState,
    catalog: Seq<(u64, Seq<char>)>,
    cmd: PlayerMsg,
    report: EngineReport,
)
    requires
        state_in_catalog(state, catalog),
    ensures
        state_in_catalog(next_state(state, catalog, cmd, report), catalog),
{
}

/// A joining connection leaves the playback state as it is and is sent one
/// message, the full player state with the whole catalog, addressed to it
/// alone; the state it is shown is the current one, with the track and the
/// variant unchanged.
pub proof fn law_join_sends_player_state(v: PlayerView, conn: u64, report: EngineReport)
    ensures
        next_view(v, PlayerMsg::Register(conn), report).state == v.state,
        next_view(v, PlayerMsg::Register(conn), report).members == v.members.insert(conn),
        dispatch_of(v, PlayerMsg::Register(conn), report) == Some(
            Dispatch {
                audience: set![conn],
                message: MsgView::PlayerState {
                    playback_state: joined_view(v.state, report),
                    media: v.catalog,
                },
            },
        ),
        match v.state {
            PlaybackState::Playing { current_media } => joined_view(v.state, report) is Playing
                && joined_view(v.state, report)->Playing_current_media.id == current_media.id,
            _ => joined_view(v.state, report) == v.state,
        },
{
}

/// The rows of the transition table that leave the state as it is: an
/// unknown track, a command that does not fit the state, a volume change,
/// and an engine that refused to play.
pub open spec fn unchanged_row(
    state: PlaybackState,
    catalog: Seq<(u64, Seq<char>)>,
    cmd: PlayerMsg,
    report: EngineReport,
) -> bool {
    match cmd {
        PlayerMsg::Play(id) => path_of(catalog, id) is None || !report.succeeded,
        PlayerMsg::Pause => !(state is Playing),
        PlayerMsg::Resume => !(state is Paused) || !report.succeeded,
        PlayerMsg::Stop => state is Stopped,
        PlayerMsg::VolumeChange(_) => true,
        _ => false,
    }
}

/// A command on a row that leaves the state unchanged never causes a
/// playback change to be broadcast.
pub proof fn law_no_playback_change_when_unchanged(
    v: PlayerView,
    cmd: PlayerMsg,
    report: EngineReport,
)
    requires
        unchanged_row(v.state, v.catalog, cmd, report),
    ensures
        next_state(v.state, v.catalog, cmd, report) == v.state,
        match dispatch_of(v, cmd, report) {
            Some(d) => !(d.message is PlaybackChange),
            None => true,
        },
{
}

/// Unsubscribing a connection twice leaves the worker as unsubscribing it
/// once does, whatever the engine reported.
pub proof fn law_unsubscribe_idempotent(
    v: PlayerView,
    conn: u64,
    first: EngineReport,
    second: EngineReport,
)
    ensures
        next_view(next_view(v, PlayerMsg::Unregister(conn), first), PlayerMsg::Unregister(conn), second)
            == next_view(v, PlayerMsg::Unregister(conn), first),
{
    assert(v.members.remove(conn).remove(conn) =~= v.members.remove(conn));
}

/// Evicting the same failed connections twice leaves the worker as evicting
/// them once does, and unsubscribing an evicted connection changes nothing.
pub proof fn law_evict_idempotent(v: PlayerView, failed: Set<u64>, report: EngineReport)
    ensures
        evicted(evicted(v, failed), failed) == evicted(v, failed),
        forall|conn: u64|
            failed.contains(conn) ==> next_view(evicted(v, failed), PlayerMsg::Unregister(conn), report)
                == evicted(v, failed),
{
    assert(v.members.difference(failed).difference(failed) =~= v.members.difference(failed));
    assert forall|conn: u64| failed.contains(conn) implies next_view(
        evicted(v, failed),
        PlayerMsg::Unregister(conn),
        report,
    ) == evicted(v, failed) by {
        assert(v.members.difference(failed).remove(conn) =~= v.members.difference(failed));
    }
}

} // verus!
