use fidelitas::{
    broadcast, parse_media_dir, ConnectionRegistry, CurrentMedia, Delivery, EngineCall,
    EngineReport, MediaFile, OutgoingMsg, ParseMediaConfig, PlaybackState, Player, PlayerMsg,
};

fn file(path: &str, name: &str) -> MediaFile {
    MediaFile { path: path.to_string(), file_name: name.to_string(), readable: true }
}

/// A worker over the catalog {0: "a.mp3", 1: "b/c.mp3"}.
fn two_track_player() -> Player {
    let config = ParseMediaConfig::new(&vec!["mp3".to_string()]);
    let files = vec![file("a.mp3", "a.mp3"), file("b/c.mp3", "c.mp3")];
    let (next, catalog) = parse_media_dir(0, &files, &config);
    assert_eq!(next, 2);
    Player::new(catalog)
}

fn ok(length: i64, progress: i64) -> EngineReport {
    EngineReport { succeeded: true, length, progress: Some(progress) }
}

fn failed() -> EngineReport {
    EngineReport { succeeded: false, length: 0, progress: None }
}

fn sorted(mut v: Vec<u64>) -> Vec<u64> {
    v.sort();
    v
}

fn playing(id: u64, length: i64, progress: i64) -> PlaybackState {
    PlaybackState::Playing { current_media: CurrentMedia { id, length, progress } }
}

fn paused(id: u64, length: i64, progress: i64) -> PlaybackState {
    PlaybackState::Paused { current_media: CurrentMedia { id, length, progress } }
}

fn changed_to(d: &Delivery) -> PlaybackState {
    match &d.message {
        OutgoingMsg::PlaybackChange { playback_state } => *playback_state,
        other => panic!("expected a playback change, got {:?}", other),
    }
}

/// Subscribes connections 1, 2 and 3 and drops the snapshots they are sent.
fn with_three_clients(p: &mut Player) {
    for conn in 1..=3u64 {
        assert!(p.apply(PlayerMsg::Register(conn), ok(0, 0)).is_some());
    }
}

#[test]
fn play_known_track_broadcasts_to_all() {
    let mut p = two_track_player();
    with_three_clients(&mut p);
    match p.plan(PlayerMsg::Play(1)) {
        EngineCall::Load { path } => assert_eq!(path, "b/c.mp3"),
        other => panic!("unexpected call {:?}", other),
    }
    let d = p.apply(PlayerMsg::Play(1), ok(180000, 0)).expect("a broadcast");
    assert_eq!(p.state(), playing(1, 180000, 0));
    assert_eq!(changed_to(&d), playing(1, 180000, 0));
    assert_eq!(sorted(d.recipients.clone()), vec![1, 2, 3]);
}

#[test]
fn play_unknown_track_changes_nothing() {
    let mut p = two_track_player();
    with_three_clients(&mut p);
    assert!(matches!(p.plan(PlayerMsg::Play(99)), EngineCall::Nothing));
    assert!(p.apply(PlayerMsg::Play(99), ok(1, 1)).is_none());
    assert_eq!(p.state(), PlaybackState::Stopped);
}

#[test]
fn play_refused_by_engine_broadcasts_error() {
    let mut p = two_track_player();
    with_three_clients(&mut p);
    let d = p.apply(PlayerMsg::Play(0), failed()).expect("an error broadcast");
    assert!(matches!(d.message, OutgoingMsg::Error));
    assert_eq!(sorted(d.recipients.clone()), vec![1, 2, 3]);
    assert_eq!(p.state(), PlaybackState::Stopped);
}

#[test]
fn pause_then_resume_keeps_track() {
    let mut p = two_track_player();
    with_three_clients(&mut p);
    p.apply(PlayerMsg::Play(1), ok(1000, 0));
    assert!(matches!(p.plan(PlayerMsg::Pause), EngineCall::Pause));
    let d = p.apply(PlayerMsg::Pause, ok(1000, 400)).expect("a broadcast");
    assert_eq!(changed_to(&d), paused(1, 1000, 400));
    assert!(matches!(p.plan(PlayerMsg::Resume), EngineCall::Play));
    let d = p.apply(PlayerMsg::Resume, ok(1000, 410)).expect("a broadcast");
    assert_eq!(changed_to(&d), playing(1, 1000, 410));
    assert_eq!(p.state(), playing(1, 1000, 410));
}

#[test]
fn resume_while_playing_is_a_no_op() {
    let mut p = two_track_player();
    with_three_clients(&mut p);
    p.apply(PlayerMsg::Play(0), ok(1000, 0));
    assert!(matches!(p.plan(PlayerMsg::Resume), EngineCall::Nothing));
    assert!(p.apply(PlayerMsg::Resume, ok(1000, 5)).is_none());
    assert_eq!(p.state(), playing(0, 1000, 0));
}

#[test]
fn resume_refused_by_engine_stays_paused() {
    let mut p = two_track_player();
    with_three_clients(&mut p);
    p.apply(PlayerMsg::Play(0), ok(1000, 0));
    p.apply(PlayerMsg::Pause, ok(1000, 300));
    let d = p.apply(PlayerMsg::Resume, failed()).expect("an error broadcast");
    assert!(matches!(d.message, OutgoingMsg::Error));
    assert_eq!(p.state(), paused(0, 1000, 300));
}

#[test]
fn pause_and_stop_that_do_not_fit_the_state() {
    let mut p = two_track_player();
    with_three_clients(&mut p);
    assert!(matches!(p.plan(PlayerMsg::Pause), EngineCall::Nothing));
    assert!(p.apply(PlayerMsg::Pause, ok(0, 0)).is_none());
    assert!(matches!(p.plan(PlayerMsg::Stop), EngineCall::Nothing));
    assert!(p.apply(PlayerMsg::Stop, ok(0, 0)).is_none());
    assert!(p.apply(PlayerMsg::Resume, ok(0, 0)).is_none());
    assert_eq!(p.state(), PlaybackState::Stopped);
    p.apply(PlayerMsg::Play(0), ok(1000, 0));
    p.apply(PlayerMsg::Pause, ok(1000, 10));
    assert!(p.apply(PlayerMsg::Pause, ok(1000, 10)).is_none());
    assert_eq!(p.state(), paused(0, 1000, 10));
}

#[test]
fn stop_from_playing_and_from_paused_broadcasts() {
    let mut p = two_track_player();
    with_three_clients(&mut p);
    p.apply(PlayerMsg::Play(0), ok(1000, 0));
    assert!(matches!(p.plan(PlayerMsg::Stop), EngineCall::Stop));
    let d = p.apply(PlayerMsg::Stop, ok(0, 0)).expect("a broadcast");
    assert_eq!(changed_to(&d), PlaybackState::Stopped);
    p.apply(PlayerMsg::Play(1), ok(1000, 0));
    p.apply(PlayerMsg::Pause, ok(1000, 20));
    let d = p.apply(PlayerMsg::Stop, ok(0, 0)).expect("a broadcast");
    assert_eq!(changed_to(&d), PlaybackState::Stopped);
    assert_eq!(p.state(), PlaybackState::Stopped);
}

#[test]
fn volume_change_failing_sends_nothing() {
    let mut p = two_track_player();
    with_three_clients(&mut p);
    match p.plan(PlayerMsg::VolumeChange(50)) {
        EngineCall::SetVolume { volume } => assert_eq!(volume, 50),
        other => panic!("unexpected call {:?}", other),
    }
    assert!(p.apply(PlayerMsg::VolumeChange(50), failed()).is_none());
    assert_eq!(p.state(), PlaybackState::Stopped);
}

#[test]
fn volume_change_succeeding_broadcasts_once() {
    let mut p = two_track_player();
    with_three_clients(&mut p);
    let d = p.apply(PlayerMsg::VolumeChange(50), ok(0, 0)).expect("a broadcast");
    assert!(matches!(d.message, OutgoingMsg::VolumeChange { volume: 50 }));
    assert_eq!(sorted(d.recipients.clone()), vec![1, 2, 3]);
}

#[test]
fn joining_client_gets_player_state_alone() {
    let mut p = two_track_player();
    p.apply(PlayerMsg::Register(7), ok(0, 0));
    p.apply(PlayerMsg::Play(1), ok(5000, 0));
    assert!(matches!(p.plan(PlayerMsg::Register(8)), EngineCall::Sample));
    let d = p.apply(PlayerMsg::Register(8), ok(5000, 1200)).expect("a snapshot");
    assert_eq!(d.recipients, vec![8]);
    match &d.message {
        OutgoingMsg::PlayerState { playback_state, media } => {
            assert_eq!(*playback_state, playing(1, 5000, 1200));
            let items: Vec<(u64, String)> =
                media.items().iter().map(|i| (i.id, i.path.clone())).collect();
            assert_eq!(items, vec![(0, "a.mp3".to_string()), (1, "b/c.mp3".to_string())]);
        }
        other => panic!("expected the player state, got {:?}", other),
    }
    assert_eq!(p.state(), playing(1, 5000, 0));
    assert!(p.is_subscribed(7) && p.is_subscribed(8));
}

#[test]
fn joining_while_stopped_needs_no_engine_call() {
    let mut p = two_track_player();
    assert!(matches!(p.plan(PlayerMsg::Register(1)), EngineCall::Nothing));
    let d = p.apply(PlayerMsg::Register(1), failed()).expect("a snapshot");
    assert!(matches!(
        d.message,
        OutgoingMsg::PlayerState { playback_state: PlaybackState::Stopped, .. }
    ));
    assert_eq!(p.state(), PlaybackState::Stopped);
}

#[test]
fn unsubscribing_twice_is_like_once() {
    let mut p = two_track_player();
    with_three_clients(&mut p);
    assert!(p.apply(PlayerMsg::Unregister(2), ok(0, 0)).is_none());
    assert!(p.apply(PlayerMsg::Unregister(2), ok(0, 0)).is_none());
    assert!(!p.is_subscribed(2));
    let d = p.apply(PlayerMsg::VolumeChange(10), ok(0, 0)).unwrap();
    assert_eq!(sorted(d.recipients.clone()), vec![1, 3]);
}

#[test]
fn evicted_connection_gets_no_more_broadcasts() {
    let mut p = two_track_player();
    with_three_clients(&mut p);
    p.evict(&vec![3]);
    p.evict(&vec![3]);
    p.apply(PlayerMsg::Unregister(3), ok(0, 0));
    assert!(!p.is_subscribed(3));
    let d = p.apply(PlayerMsg::Play(0), ok(10, 0)).unwrap();
    assert_eq!(sorted(d.recipients.clone()), vec![1, 2]);
}

#[test]
fn state_does_not_depend_on_clients() {
    let cmds = [
        PlayerMsg::Play(0),
        PlayerMsg::Pause,
        PlayerMsg::Resume,
        PlayerMsg::Stop,
        PlayerMsg::Play(99),
        PlayerMsg::Play(1),
        PlayerMsg::Resume,
        PlayerMsg::Pause,
    ];
    let mut alone = two_track_player();
    let mut crowded = two_track_player();
    with_three_clients(&mut crowded);
    for (i, cmd) in cmds.iter().enumerate() {
        let report = ok(100, i as i64);
        alone.apply(*cmd, report);
        crowded.apply(*cmd, report);
        assert_eq!(alone.state(), crowded.state());
    }
    assert_eq!(alone.state(), paused(1, 100, 7));
}

#[test]
fn registry_insert_remove_and_broadcast() {
    let mut r = ConnectionRegistry::new();
    r.insert(4);
    r.insert(4);
    r.insert(5);
    assert_eq!(r.len(), 2);
    assert!(r.contains(4));
    let d = broadcast(&r, OutgoingMsg::Error);
    assert_eq!(sorted(d.recipients), vec![4, 5]);
    r.remove(4);
    r.remove(4);
    assert!(!r.contains(4));
    assert_eq!(r.members(), vec![5]);
}
