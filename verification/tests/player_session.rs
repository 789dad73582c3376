use vi_tg::player::{AudioPlayer, LaunchOutcome, OpenStep, RestartStep, SeekStep};

fn assert_idle(p: &AudioPlayer) {
    assert!(!p.is_playing);
    assert_eq!(p.current_position_ms, 0);
    assert_eq!(p.total_duration_ms, None);
    assert_eq!(p.current_track_id, None);
    assert_eq!(p.process_id, None);
    assert!(p.current_file_path.is_none());
    assert_eq!(p.session_start_ms, None);
}

/// Start playback of `track` at wall-clock `now_ms`, simulating a launcher
/// that spawned a process with id `pid`.
fn open_started(p: &mut AudioPlayer, track: i32, total_ms: Option<u64>, pid: u32, now_ms: u64) {
    let step = p.open_begin(track, true);
    assert!(matches!(step, OpenStep::Launch { .. }));
    let r = p.open_finish(track, String::from("/tmp/a.ogg"), total_ms, LaunchOutcome::Started(pid), now_ms);
    assert!(r.is_ok());
}

#[test]
fn new_session_is_idle() {
    let p = AudioPlayer::new();
    assert_idle(&p);
}

#[test]
fn stop_on_idle_changes_nothing() {
    // P3: stopping an already-idle session leaves every field unchanged.
    let mut p = AudioPlayer::new();
    let killed = p.stop();
    assert_eq!(killed, None);
    assert_idle(&p);
}

#[test]
fn stop_kills_and_resets() {
    let mut p = AudioPlayer::new();
    open_started(&mut p, 7, Some(10_000), 4242, 1_000_000);
    assert!(p.is_playing);
    let killed = p.stop();
    assert_eq!(killed, Some(4242));
    assert_idle(&p);
}

#[test]
fn stop_playback_variants_behave_like_stop() {
    let mut p = AudioPlayer::new();
    open_started(&mut p, 7, None, 11, 5_000);
    assert_eq!(p.stop_playback(), Some(11));
    assert_idle(&p);
    open_started(&mut p, 8, None, 12, 6_000);
    assert_eq!(p.stop_playback_with_timestamp(), Some(12));
    assert_idle(&p);
}

#[test]
fn is_current_message_tracks_the_open_track() {
    let mut p = AudioPlayer::new();
    assert!(!p.is_current_message(42));
    open_started(&mut p, 42, None, 1, 0);
    assert!(p.is_current_message(42));
    assert!(!p.is_current_message(41));
}

#[test]
fn tick_advances_position_monotonically() {
    // P1 on concrete values: increasing ticks, nondecreasing position,
    // never beyond the known duration.
    let mut p = AudioPlayer::new();
    open_started(&mut p, 1, Some(60_000), 9, 1_000_000);
    let mut last = 0u64;
    for step in [1_000_500u64, 1_002_000, 1_002_000, 1_030_000, 1_059_999] {
        let killed = p.tick(step);
        assert_eq!(killed, None);
        assert!(p.is_playing);
        assert!(p.current_position_ms >= last);
        assert!(p.current_position_ms <= 60_000);
        last = p.current_position_ms;
    }
}

#[test]
fn tick_detects_natural_end() {
    // P7: elapsed time reaching the total duration stops the session and
    // clears the track.
    let mut p = AudioPlayer::new();
    open_started(&mut p, 2, Some(5_000), 77, 1_000_000);
    let killed = p.tick(1_005_000);
    assert_eq!(killed, Some(77));
    assert_eq!(p.current_track_id, None);
    assert_idle(&p);
}

#[test]
fn tick_without_total_duration_never_ends() {
    let mut p = AudioPlayer::new();
    open_started(&mut p, 2, None, 77, 0);
    let killed = p.tick(86_400_000);
    assert_eq!(killed, None);
    assert!(p.is_playing);
    assert_eq!(p.current_position_ms, 86_400_000);
}

#[test]
fn tick_repairs_playing_without_start_instant() {
    // A playing flag without a start instant is state corruption: the tick
    // stops the session defensively instead of panicking.
    let mut p = AudioPlayer::new();
    open_started(&mut p, 3, Some(10_000), 13, 1_000);
    p.session_start_ms = None;
    let killed = p.tick(2_000);
    assert_eq!(killed, Some(13));
    assert_idle(&p);
}

#[test]
fn seek_clamps_to_duration_and_zero() {
    // P2 on concrete values: the post-seek position stays in
    // [0, total_duration].
    let mut p = AudioPlayer::new();
    open_started(&mut p, 4, Some(10_000), 5, 1_000_000);
    p.tick(1_003_000);
    assert_eq!(p.current_position_ms, 3_000);
    let step = p.seek(i64::MAX, 1_003_000);
    assert!(matches!(step, SeekStep::Deliver { pid: 5 }));
    assert_eq!(p.current_position_ms, 10_000);
    let step = p.seek(i64::MIN, 1_003_000);
    assert!(matches!(step, SeekStep::Deliver { pid: 5 }));
    assert_eq!(p.current_position_ms, 0);
    let step = p.seek(-1, 1_003_000);
    assert!(matches!(step, SeekStep::Deliver { pid: 5 }));
    assert_eq!(p.current_position_ms, 0);
}

#[test]
fn seek_without_total_duration_is_unclamped_above() {
    let mut p = AudioPlayer::new();
    open_started(&mut p, 4, None, 5, 1_000_000);
    p.seek(100, 1_000_000);
    assert_eq!(p.current_position_ms, 100_000);
}

#[test]
fn seek_on_idle_is_a_no_op() {
    let mut p = AudioPlayer::new();
    let step = p.seek(30, 55_000);
    assert!(matches!(step, SeekStep::Ignored));
    assert_idle(&p);
}

#[test]
fn seek_without_process_asks_for_restart() {
    let mut p = AudioPlayer::new();
    open_started(&mut p, 4, Some(10_000), 5, 0);
    p.process_id = None;
    let step = p.seek(2, 1_000);
    assert!(matches!(step, SeekStep::RestartNeeded));
}

#[test]
fn open_same_playing_track_toggles_to_idle() {
    // P5: selecting the track that is already playing acts as a stop, not a
    // restart.
    let mut p = AudioPlayer::new();
    open_started(&mut p, 10, Some(9_000), 31, 500);
    let step = p.open_begin(10, true);
    match step {
        OpenStep::ToggledOff { kill } => assert_eq!(kill, Some(31)),
        _ => panic!("expected a toggle"),
    }
    assert_idle(&p);
}

#[test]
fn open_different_track_replaces_the_session() {
    // P4: after opening track A and then track B, exactly B's process is
    // tracked.
    let mut p = AudioPlayer::new();
    open_started(&mut p, 1, Some(9_000), 100, 500);
    let step = p.open_begin(2, true);
    match step {
        OpenStep::Launch { kill } => assert_eq!(kill, Some(100)),
        _ => panic!("expected a launch"),
    }
    let r = p.open_finish(2, String::from("/tmp/b.ogg"), Some(4_000), LaunchOutcome::Started(200), 800);
    assert!(r.is_ok());
    assert_eq!(p.current_track_id, Some(2));
    assert_eq!(p.process_id, Some(200));
    assert_eq!(p.total_duration_ms, Some(4_000));
    assert_eq!(p.current_position_ms, 0);
    assert_eq!(p.session_start_ms, Some(800));
    assert_eq!(p.current_file_path.as_deref(), Some("/tmp/b.ogg"));
}

#[test]
fn open_missing_file_is_rejected_before_launch() {
    let mut p = AudioPlayer::new();
    let step = p.open_begin(3, false);
    assert!(matches!(step, OpenStep::Rejected { kill: None }));
    assert_idle(&p);
}

#[test]
fn open_exhausted_launch_leaves_idle_with_error() {
    // P9, session side: launch exhaustion is surfaced as the "no backend"
    // error and the session stays idle.
    let mut p = AudioPlayer::new();
    let step = p.open_begin(3, true);
    assert!(matches!(step, OpenStep::Launch { kill: None }));
    let attempted = vec![String::from("ffplay"), String::from("mpv")];
    let r = p.open_finish(3, String::from("/tmp/c.ogg"), None, LaunchOutcome::Exhausted(attempted), 0);
    match r {
        Err(e) => {
            assert_eq!(
                e.message(),
                "no media player could be started; install one of: ffplay, mpv"
            );
        }
        Ok(()) => panic!("expected the launch-exhaustion error"),
    }
    assert_idle(&p);
}

#[test]
fn restart_preserves_position() {
    // P6: a session relaunched at 37s reports ~38s one second later, not 1s.
    let mut p = AudioPlayer::new();
    open_started(&mut p, 5, Some(120_000), 40, 1_000_000);
    p.tick(1_037_000);
    assert_eq!(p.current_position_ms, 37_000);
    let step = p.restart_begin();
    match step {
        RestartStep::Relaunch { kill, file_path, position_secs } => {
            assert_eq!(kill, Some(40));
            assert_eq!(file_path, "/tmp/a.ogg");
            assert_eq!(position_secs, 37);
        }
        RestartStep::NoSession => panic!("expected a relaunch"),
    }
    let r = p.restart_finish(LaunchOutcome::Started(41), 1_037_200);
    assert!(r.is_ok());
    assert_eq!(p.process_id, Some(41));
    p.tick(1_038_200);
    assert_eq!(p.current_position_ms, 38_000);
    assert!(p.is_playing);
}

#[test]
fn restart_begin_without_file_path_reports_no_session() {
    let p = AudioPlayer::new();
    assert!(matches!(p.restart_begin(), RestartStep::NoSession));
}

#[test]
fn restart_exhausted_resets_the_session() {
    let mut p = AudioPlayer::new();
    open_started(&mut p, 5, Some(120_000), 40, 0);
    let r = p.restart_finish(LaunchOutcome::Exhausted(vec![]), 100);
    assert!(r.is_err());
    assert_idle(&p);
}

#[test]
fn scenario_open_tick_seek_natural_end() {
    // Track 42, 10s long: tick at +3s shows 3s playing; seek(+5) jumps to
    // 8s; a tick 1s later continues from the new basis (9s, within the
    // clamp); seek(+5) clamps to 10s and the next tick is the natural end.
    let t0 = 1_000_000u64;
    let mut p = AudioPlayer::new();
    open_started(&mut p, 42, Some(10_000), 900, t0);
    p.tick(t0 + 3_000);
    assert_eq!(p.current_position_ms, 3_000);
    assert!(p.is_playing);
    p.seek(5, t0 + 3_000);
    assert_eq!(p.current_position_ms, 8_000);
    p.tick(t0 + 4_000);
    assert_eq!(p.current_position_ms, 9_000);
    assert!(p.current_position_ms <= 10_000);
    p.seek(5, t0 + 4_000);
    assert_eq!(p.current_position_ms, 10_000);
    let killed = p.tick(t0 + 4_100);
    assert_eq!(killed, Some(900));
    assert_eq!(p.current_track_id, None);
    assert!(!p.is_playing);
}

#[test]
fn format_time_renders_minutes_and_padded_seconds() {
    let p = AudioPlayer::new();
    assert_eq!(p.format_time(0), "0:00");
    assert_eq!(p.format_time(65_000), "1:05");
    assert_eq!(p.format_time(59_999), "0:59");
    assert_eq!(p.format_time(3_600_000), "60:00");
}

#[test]
fn time_display_shows_total_when_known() {
    let mut p = AudioPlayer::new();
    assert_eq!(p.get_current_time_display(), "0:00");
    open_started(&mut p, 6, Some(10_000), 50, 1_000_000);
    p.tick(1_003_000);
    assert_eq!(p.get_current_time_display(), "0:03 / 0:10");
    p.total_duration_ms = None;
    assert_eq!(p.get_current_time_display(), "0:03");
}
