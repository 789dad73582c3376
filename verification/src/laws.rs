//! Session-level laws.
//!
//! The session transitions are given as spec functions in [`crate::player`],
//! and every exec method relates its result to one of them. The proofs here
//! state the global guarantees of the state machine over those same
//! functions: position monotonicity, the seek clamp, idempotent stop, the
//! single active session, toggle-on-reopen, position-preserving restart and
//! the natural end of a track.

use vstd::prelude::*;
use crate::player::{
    spec_idle, spec_open_toggles, spec_restarted, spec_seek, spec_started, spec_stop, spec_tick,
    wf, LaunchOutcome, PlayerModel,
};

verus! {

/// The session after a whole `open` exchange: `open_begin` tears the old
/// session down (and on a toggle or a missing file that is all that happens),
/// then `open_finish` records the launch outcome.
pub open spec fn spec_open(
    m: PlayerModel,
    track_id: i32,
    path: Seq<char>,
    total_duration_ms: Option<u64>,
    file_exists: bool,
    outcome: LaunchOutcome,
    now_ms: u64,
) -> PlayerModel {
    if spec_open_toggles(m, track_id) || !file_exists {
        spec_idle()
    } else {
        match outcome {
            LaunchOutcome::Started(pid) => spec_started(
                track_id,
                path,
                total_duration_ms,
                pid,
                now_ms,
            ),
            LaunchOutcome::Exhausted(_) => spec_idle(),
        }
    }
}

/// The session after a whole run of ticks, in order.
pub open spec fn spec_ticks(m: PlayerModel, times: Seq<u64>) -> PlayerModel
    decreases times.len(),
{
    if times.len() == 0 {
        m
    } else {
        spec_ticks(spec_tick(m, times[0]), times.skip(1))
    }
}

/// A run of ticks is one more tick after the shorter run.
proof fn lemma_ticks_snoc(m: PlayerModel, times: Seq<u64>, t: u64)
    ensures
        spec_ticks(m, times.push(t)) == spec_tick(spec_ticks(m, times), t),
    decreases times.len(),
{
    if times.len() == 0 {
        assert(times.push(t)[0] == t);
        assert(times.push(t).skip(1) =~= Seq::<u64>::empty());
        assert(spec_ticks(m, times.push(t)) == spec_ticks(spec_tick(m, t), Seq::<u64>::empty()));
    } else {
        assert(times.push(t)[0] == times[0]);
        assert(times.push(t).skip(1) =~= times.skip(1).push(t));
        lemma_ticks_snoc(spec_tick(m, times[0]), times.skip(1), t);
        assert(spec_ticks(m, times.push(t)) == spec_ticks(
            spec_tick(m, times[0]),
            times.skip(1).push(t),
        ));
        assert(spec_ticks(m, times) == spec_ticks(spec_tick(m, times[0]), times.skip(1)));
    }
}

/// Ticks keep a session well-formed, however many there are.
pub proof fn lemma_ticks_wf(m: PlayerModel, times: Seq<u64>)
    requires
        wf(m),
    ensures
        wf(spec_ticks(m, times)),
    decreases times.len(),
{
    if times.len() > 0 {
        lemma_ticks_wf(spec_tick(m, times[0]), times.skip(1));
    }
}

/// Position monotonicity, step form: across two ticks at nondecreasing
/// wall-clock times, with no seek in between, the modelled position never
/// moves backwards while the session stays live, and well-formedness (in
/// particular the bound by the known duration) is kept at every step.
pub proof fn lemma_tick_monotonic(m: PlayerModel, n1: u64, n2: u64)
    requires
        wf(m),
        n1 <= n2,
    ensures
        ({
            let m1 = spec_tick(m, n1);
            let m2 = spec_tick(m1, n2);
            &&& (m2.is_playing ==> m2.current_position_ms >= m1.current_position_ms)
            &&& wf(m1)
            &&& wf(m2)
        }),
{
}

/// Position monotonicity: for every sequence of ticks at nondecreasing
/// wall-clock times, with no seek in between, each tick leaves the modelled
/// position no smaller than the tick before it left it (while the session
/// stays live), and every intermediate session is well-formed — so the
/// position never exceeds the known duration.
pub proof fn lemma_tick_sequence_monotonic(m: PlayerModel, times: Seq<u64>, i: int)
    requires
        wf(m),
        forall|j: int| 0 <= j < times.len() - 1 ==> (#[trigger] times[j]) <= times[j + 1],
        0 <= i,
        i + 2 <= times.len(),
    ensures
        ({
            let before = spec_ticks(m, times.take(i + 1));
            let after = spec_ticks(m, times.take(i + 2));
            &&& (after.is_playing ==> after.current_position_ms >= before.current_position_ms)
            &&& wf(before)
            &&& wf(after)
        }),
{
    let prev = spec_ticks(m, times.take(i));
    lemma_ticks_wf(m, times.take(i));
    assert(times.take(i + 1) =~= times.take(i).push(times[i]));
    assert(times.take(i + 2) =~= times.take(i + 1).push(times[i + 1]));
    lemma_ticks_snoc(m, times.take(i), times[i]);
    lemma_ticks_snoc(m, times.take(i + 1), times[i + 1]);
    assert(times[i] <= times[i + 1]);
    lemma_tick_monotonic(prev, times[i], times[i + 1]);
}

/// Seek clamp: after any seek, the position lies within the known duration
/// (it is a `u64`, so it is never below zero), and the duration itself is
/// untouched.
pub proof fn lemma_seek_clamp(m: PlayerModel, delta_secs: i64, now_ms: u64)
    requires
        wf(m),
    ensures
        ({
            let s = spec_seek(m, delta_secs, now_ms);
            &&& s.total_duration_ms == m.total_duration_ms
            &&& (match s.total_duration_ms {
                Some(t) => s.current_position_ms <= t,
                None => true,
            })
            &&& wf(s)
        }),
{
}

/// Idempotent stop: stopping an already-idle session leaves every field
/// unchanged.
pub proof fn lemma_stop_idempotent(m: PlayerModel)
    requires
        m == spec_idle(),
    ensures
        spec_stop(m) == m,
{
}

/// Single active session: opening one track and then another leaves exactly
/// the second track current, tracking exactly the process its launch
/// produced.
pub proof fn lemma_single_active_session(
    m: PlayerModel,
    track_a: i32,
    track_b: i32,
    path_a: Seq<char>,
    path_b: Seq<char>,
    total_a: Option<u64>,
    total_b: Option<u64>,
    pid_a: u32,
    pid_b: u32,
    n1: u64,
    n2: u64,
)
    requires
        track_a != track_b,
    ensures
        ({
            let m1 = spec_open(m, track_a, path_a, total_a, true, LaunchOutcome::Started(pid_a), n1);
            let m2 = spec_open(
                m1,
                track_b,
                path_b,
                total_b,
                true,
                LaunchOutcome::Started(pid_b),
                n2,
            );
            &&& m2.current_track_id == Some(track_b)
            &&& m2.process_id == Some(pid_b)
        }),
{
}

/// Toggle semantics: opening the track that is already playing acts as a
/// stop, whatever else the caller would have handed to the launch, and the
/// session ends up idle rather than restarted.
pub proof fn lemma_open_toggle(
    m: PlayerModel,
    track_id: i32,
    path2: Seq<char>,
    total2: Option<u64>,
    file_exists2: bool,
    outcome2: LaunchOutcome,
    n2: u64,
)
    requires
        m.is_playing,
        m.current_track_id == Some(track_id),
    ensures
        spec_open(m, track_id, path2, total2, file_exists2, outcome2, n2) == spec_idle(),
{
}

/// Restart preserves position: after a successful relaunch at the modelled
/// position, a later tick reports the old position plus the newly elapsed
/// time — not the time since the relaunch.
pub proof fn lemma_restart_preserves_position(m: PlayerModel, pid: u32, now_ms: u64, later_ms: u64)
    requires
        wf(m),
        m.is_playing,
        now_ms >= m.current_position_ms,
        later_ms >= now_ms,
        (match m.total_duration_ms {
            Some(t) => m.current_position_ms + (later_ms - now_ms) < t,
            None => true,
        }),
    ensures
        ({
            let m1 = spec_restarted(m, pid, now_ms);
            let m2 = spec_tick(m1, later_ms);
            &&& m2.is_playing
            &&& m2.current_position_ms == m.current_position_ms + (later_ms - now_ms)
        }),
{
}

/// Natural end: once the elapsed wall-clock time reaches the known total
/// duration, a tick resets the whole session; in particular the current
/// track is cleared.
pub proof fn lemma_natural_end(m: PlayerModel, now_ms: u64)
    requires
        m.is_playing,
        m.session_start_ms is Some,
        m.total_duration_ms is Some,
        now_ms >= m.session_start_ms->0 + m.total_duration_ms->0,
    ensures
        spec_tick(m, now_ms) == spec_idle(),
        spec_tick(m, now_ms).current_track_id is None,
{
}

} // verus!
