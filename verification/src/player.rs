//! The playback session state machine.
//!
//! A session binds a track (a message id), a spawned external player process
//! and a modelled playback clock. The player offers no position query, so the
//! position is derived from wall-clock time: a start instant is recorded when
//! the process is (re)started, and every tick sets the position to the time
//! elapsed since then. Seeking moves the modelled position first and informs
//! the process best-effort afterwards; when that fails, the process is killed
//! and relaunched at the modelled position.
//!
//! All operating-system work (spawning, killing, socket writes, file probes)
//! is the embedding program's: the methods here decide what to do, hand the
//! decision out as a step value, and take the outcome back in. Instants and
//! durations are whole milliseconds.

use vstd::prelude::*;
use crate::timefmt::{format_clock, spec_clock};
use vstd::string::StringExecFns;

verus! {

/// `a + b`, stopping at the largest representable value.
pub open spec fn sat_add(a: u64, b: u64) -> u64 {
    if a + b > u64::MAX {
        u64::MAX
    } else {
        (a + b) as u64
    }
}

/// `a - b`, stopping at zero.
pub open spec fn sat_sub(a: u64, b: u64) -> u64 {
    if a >= b {
        (a - b) as u64
    } else {
        0
    }
}

/// The mutable state of the playback subsystem.
///
/// `is_playing` is an inference, not an observation: it says a player process
/// is believed to be advancing. The position is clamped to
/// `[0, total_duration_ms]` whenever the total duration is known; an unknown
/// duration disables clamping and end-of-track detection. `current_file_path`
/// is retained solely so a failed seek can relaunch the player at the
/// modelled position.
#[derive(Debug, Clone)]
pub struct AudioPlayer {
    pub is_playing: bool,
    pub current_position_ms: u64,
    pub total_duration_ms: Option<u64>,
    pub current_track_id: Option<i32>,
    pub process_id: Option<u32>,
    pub current_file_path: Option<String>,
    pub session_start_ms: Option<u64>,
}

/// The mathematical value of an [`AudioPlayer`].
#[verifier::ext_equal]
pub struct PlayerModel {
    pub is_playing: bool,
    pub current_position_ms: u64,
    pub total_duration_ms: Option<u64>,
    pub current_track_id: Option<i32>,
    pub process_id: Option<u32>,
    pub current_file_path: Option<Seq<char>>,
    pub session_start_ms: Option<u64>,
}

impl View for AudioPlayer {
    type V = PlayerModel;

    open spec fn view(&self) -> PlayerModel {
        PlayerModel {
            is_playing: self.is_playing,
            current_position_ms: self.current_position_ms,
            total_duration_ms: self.total_duration_ms,
            current_track_id: self.current_track_id,
            process_id: self.process_id,
            current_file_path: match self.current_file_path {
                Some(ref p) => Some(p@),
                None => None,
            },
            session_start_ms: self.session_start_ms,
        }
    }
}

/// The idle session: no track, no process, everything cleared.
pub open spec fn spec_idle() -> PlayerModel {
    PlayerModel {
        is_playing: false,
        current_position_ms: 0,
        total_duration_ms: None,
        current_track_id: None,
        process_id: None,
        current_file_path: None,
        session_start_ms: None,
    }
}

/// Well-formedness of a session value: an idle session carries nothing, a
/// playing session has a start instant, and a known duration bounds the
/// position.
pub open spec fn wf(m: PlayerModel) -> bool {
    &&& (m.current_track_id is None ==> m =~= spec_idle())
    &&& (m.is_playing ==> m.session_start_ms is Some)
    &&& (match m.total_duration_ms {
        Some(t) => m.current_position_ms <= t,
        None => true,
    })
}

/// Stopping resets every field.
pub open spec fn spec_stop(m: PlayerModel) -> PlayerModel {
    spec_idle()
}

/// The wall-clock time elapsed since `start`, zero if the clock reads
/// earlier than the start.
pub open spec fn spec_elapsed(start: u64, now: u64) -> u64 {
    sat_sub(now, start)
}

/// Whether a tick at `now_ms` tears the session down: either the playing flag
/// is set without a start instant (corruption, repaired by a defensive stop)
/// or the elapsed time has reached the known duration (natural end).
pub open spec fn spec_tick_ends(m: PlayerModel, now_ms: u64) -> bool {
    m.is_playing && match m.session_start_ms {
        None => true,
        Some(s) => match m.total_duration_ms {
            Some(t) => spec_elapsed(s, now_ms) >= t,
            None => false,
        },
    }
}

/// The session after a tick at `now_ms`: a no-op unless playing; otherwise
/// the position becomes the elapsed time, and reaching the known duration
/// (or finding no start instant) stops the session.
pub open spec fn spec_tick(m: PlayerModel, now_ms: u64) -> PlayerModel {
    if !m.is_playing {
        m
    } else {
        match m.session_start_ms {
            None => spec_idle(),
            Some(s) => {
                let e = spec_elapsed(s, now_ms);
                match m.total_duration_ms {
                    Some(t) => if e >= t {
                        spec_idle()
                    } else {
                        PlayerModel { current_position_ms: e, ..m }
                    },
                    None => PlayerModel { current_position_ms: e, ..m },
                }
            },
        }
    }
}

/// A seek delta of whole seconds, as a saturating magnitude in milliseconds.
pub open spec fn spec_seek_delta_ms(delta_secs: i64) -> u64 {
    let mag = if delta_secs >= 0 {
        delta_secs as int
    } else {
        -(delta_secs as int)
    };
    if mag * 1000 > u64::MAX {
        u64::MAX
    } else {
        (mag * 1000) as u64
    }
}

/// The session after a seek by `delta_secs` at wall-clock `now_ms`: a no-op
/// when idle; otherwise the position moves by the delta, saturating at zero
/// and at the largest representable value, then is clamped to the known
/// duration — and while playing, the start instant is set back by the new
/// position, so later ticks continue from it instead of overwriting it.
pub open spec fn spec_seek(m: PlayerModel, delta_secs: i64, now_ms: u64) -> PlayerModel {
    if m.current_track_id is None {
        m
    } else {
        let d = spec_seek_delta_ms(delta_secs);
        let p = if delta_secs >= 0 {
            sat_add(m.current_position_ms, d)
        } else {
            sat_sub(m.current_position_ms, d)
        };
        let clamped = match m.total_duration_ms {
            Some(t) => if p > t {
                t
            } else {
                p
            },
            None => p,
        };
        if m.is_playing {
            PlayerModel {
                current_position_ms: clamped,
                session_start_ms: Some(sat_sub(now_ms, clamped)),
                ..m
            }
        } else {
            PlayerModel { current_position_ms: clamped, ..m }
        }
    }
}

/// Whether opening `track_id` acts as a stop toggle: the same track is
/// already playing, so selecting it again stops it.
pub open spec fn spec_open_toggles(m: PlayerModel, track_id: i32) -> bool {
    m.is_playing && m.current_track_id == Some(track_id)
}

/// The session right after a successful launch for `track_id`.
pub open spec fn spec_started(
    track_id: i32,
    path: Seq<char>,
    total_duration_ms: Option<u64>,
    pid: u32,
    now_ms: u64,
) -> PlayerModel {
    PlayerModel {
        is_playing: true,
        current_position_ms: 0,
        total_duration_ms,
        current_track_id: Some(track_id),
        process_id: Some(pid),
        current_file_path: Some(path),
        session_start_ms: Some(now_ms),
    }
}

/// The session after a successful relaunch at the current position: only the
/// process and the start instant change, and the start instant is set back by
/// the position so the elapsed-time math keeps reporting it.
pub open spec fn spec_restarted(m: PlayerModel, pid: u32, now_ms: u64) -> PlayerModel {
    PlayerModel {
        process_id: Some(pid),
        session_start_ms: Some(sat_sub(now_ms, m.current_position_ms)),
        ..m
    }
}

/// What came of driving a launch plan: the process id of the first candidate
/// that spawned, or the names of every player that was attempted in vain.
pub enum LaunchOutcome {
    Started(u32),
    Exhausted(Vec<String>),
}

/// The only user-visible playback failure: no candidate player could be
/// started. Carries the names of the players that were attempted.
pub enum PlaybackError {
    NoPlayerFound(Vec<String>),
}

/// What `open_begin` asks the embedding program to do. Every variant carries
/// the process id of the torn-down session, to be killed best-effort.
pub enum OpenStep {
    /// The selected track was already playing: the open acted as a stop.
    ToggledOff { kill: Option<u32> },
    /// The media file does not exist: report it, launch nothing.
    Rejected { kill: Option<u32> },
    /// Go ahead: try the launch candidates and report the outcome
    /// to `open_finish`.
    Launch { kill: Option<u32> },
}

/// What `seek` asks the embedding program to do next.
pub enum SeekStep {
    /// No session: nothing to deliver.
    Ignored,
    /// Attempt command delivery to this process.
    Deliver { pid: u32 },
    /// No process is attached: go straight to a restart.
    RestartNeeded,
}

/// What `restart_begin` asks the embedding program to do.
pub enum RestartStep {
    /// No file path is retained: nothing can be relaunched.
    NoSession,
    /// Kill the old process, then launch `file_path` at `position_secs` and
    /// report the outcome to `restart_finish`.
    Relaunch { kill: Option<u32>, file_path: String, position_secs: u64 },
}

impl Default for AudioPlayer {
    /// The idle session.
    fn default() -> (r: AudioPlayer)
        ensures
            r@ == spec_idle(),
    {
        AudioPlayer::new()
    }
}

impl AudioPlayer {
    /// A fresh, idle session.
    pub fn new() -> (r: AudioPlayer)
        ensures
            r@ == spec_idle(),
    {
        let r = AudioPlayer {
            is_playing: false,
            current_position_ms: 0,
            total_duration_ms: None,
            current_track_id: None,
            process_id: None,
            current_file_path: None,
            session_start_ms: None,
        };
        proof {
            assert(r@ =~= spec_idle());
        }
        r
    }

    /// Reset every field; the returned process id is to be killed
    /// best-effort by the caller. Stopping an already-idle session changes
    /// nothing.
    pub fn stop(&mut self) -> (kill: Option<u32>)
        ensures
            final(self)@ == spec_stop(old(self)@),
            kill == old(self)@.process_id,
            old(self)@ == spec_idle() ==> final(self)@ == old(self)@,
    {
        let kill = self.process_id;
        *self = AudioPlayer::new();
        kill
    }

    /// Same as [`AudioPlayer::stop`].
    pub fn stop_playback(&mut self) -> (kill: Option<u32>)
        ensures
            final(self)@ == spec_stop(old(self)@),
            kill == old(self)@.process_id,
    {
        self.stop()
    }

    /// Same as [`AudioPlayer::stop`]; the start instant is a session field
    /// here, so it is cleared along with the rest.
    pub fn stop_playback_with_timestamp(&mut self) -> (kill: Option<u32>)
        ensures
            final(self)@ == spec_stop(old(self)@),
            kill == old(self)@.process_id,
    {
        self.stop()
    }

    /// Whether `message_id` is the current track.
    pub fn is_current_message(&self, message_id: i32) -> (r: bool)
        ensures
            r == (self@.current_track_id == Some(message_id)),
    {
        match self.current_track_id {
            Some(id) => id == message_id,
            None => false,
        }
    }

    /// `M:SS` readout of a duration in milliseconds.
    pub fn format_time(&self, duration_ms: u64) -> (r: String)
        ensures
            r@ == spec_clock((duration_ms / 1000) as nat),
    {
        format_clock(duration_ms)
    }

    /// The position readout for display: `M:SS`, or `M:SS / M:SS` when the
    /// total duration is known.
    pub fn get_current_time_display(&self) -> (r: String)
        ensures
            r@ == spec_time_display(self@),
    {
        let mut r = format_clock(self.current_position_ms);
        match self.total_duration_ms {
            Some(t) => {
                r.append(" / ");
                let total = format_clock(t);
                r.append(total.as_str());
                proof {
                    reveal_strlit(" / ");
                    assert(r@ =~= spec_time_display(self@));
                }
                r
            },
            None => r,
        }
    }

    /// Advance the modelled clock to `now_ms`. A no-op unless playing.
    /// Reaching the known duration is the natural end: the session resets and
    /// the returned process id is to be killed. A playing flag without a
    /// start instant is repaired the same way (defensive stop).
    pub fn tick(&mut self, now_ms: u64) -> (kill: Option<u32>)
        ensures
            final(self)@ == spec_tick(old(self)@, now_ms),
            kill == (if spec_tick_ends(old(self)@, now_ms) {
                old(self)@.process_id
            } else {
                None
            }),
            wf(old(self)@) ==> wf(final(self)@),
    {
        if !self.is_playing {
            return None;
        }
        match self.session_start_ms {
            None => {
                // playing without a start instant: repair by stopping
                self.stop()
            },
            Some(start) => {
                let elapsed = if now_ms >= start {
                    now_ms - start
                } else {
                    0
                };
                let ended = match self.total_duration_ms {
                    Some(t) => elapsed >= t,
                    None => false,
                };
                if ended {
                    self.stop()
                } else {
                    self.current_position_ms = elapsed;
                    proof {
                        assert(self@ =~= spec_tick(old(self)@, now_ms));
                    }
                    None
                }
            },
        }
    }

    /// Move the modelled position by `delta_secs` (saturating, clamped to
    /// the known duration) and rebase the clock on it, so later ticks carry
    /// the sought position forward. The in-memory estimate is authoritative
    /// for display; the returned step says how to chase the external
    /// process: deliver a command to the live process, restart when none is
    /// attached, or nothing when the session is idle.
    pub fn seek(&mut self, delta_secs: i64, now_ms: u64) -> (step: SeekStep)
        ensures
            final(self)@ == spec_seek(old(self)@, delta_secs, now_ms),
            (match step {
                SeekStep::Ignored => old(self)@.current_track_id is None,
                SeekStep::Deliver { pid } => old(self)@.current_track_id is Some
                    && old(self)@.process_id == Some(pid),
                SeekStep::RestartNeeded => old(self)@.current_track_id is Some
                    && old(self)@.process_id is None,
            }),
            wf(old(self)@) ==> wf(final(self)@),
    {
        if self.current_track_id.is_none() {
            return SeekStep::Ignored;
        }
        let mag: u64 = if delta_secs >= 0 {
            delta_secs as u64
        } else {
            ((-(delta_secs + 1)) as u64) + 1
        };
        let delta_ms: u64 = if mag > u64::MAX / 1000 {
            u64::MAX
        } else {
            proof {
                assert(mag * 1000 <= u64::MAX) by (nonlinear_arith)
                    requires mag <= u64::MAX / 1000;
            }
            mag * 1000
        };
        proof {
            assert(delta_ms == spec_seek_delta_ms(delta_secs)) by {
                if mag > u64::MAX / 1000 {
                    assert(mag * 1000 > u64::MAX) by (nonlinear_arith)
                        requires mag > u64::MAX / 1000;
                }
            }
        }
        let moved: u64 = if delta_secs >= 0 {
            if self.current_position_ms > u64::MAX - delta_ms {
                u64::MAX
            } else {
                self.current_position_ms + delta_ms
            }
        } else {
            if self.current_position_ms >= delta_ms {
                self.current_position_ms - delta_ms
            } else {
                0
            }
        };
        let clamped: u64 = match self.total_duration_ms {
            Some(t) => if moved > t {
                t
            } else {
                moved
            },
            None => moved,
        };
        self.current_position_ms = clamped;
        if self.is_playing {
            self.session_start_ms = Some(
                if now_ms >= clamped {
                    now_ms - clamped
                } else {
                    0
                },
            );
        }
        proof {
            assert(self@ =~= spec_seek(old(self)@, delta_secs, now_ms));
        }
        match self.process_id {
            Some(pid) => SeekStep::Deliver { pid },
            None => SeekStep::RestartNeeded,
        }
    }

    /// Open `track_id`: tear down whatever session exists, then say what to
    /// do next. Selecting the track that is already playing acts as a stop
    /// (toggle); a missing file is rejected before any launch attempt;
    /// otherwise the caller is to try the launch candidates and hand the
    /// outcome to `open_finish`.
    pub fn open_begin(&mut self, track_id: i32, file_exists: bool) -> (step: OpenStep)
        ensures
            final(self)@ == spec_idle(),
            (match step {
                OpenStep::ToggledOff { kill } => spec_open_toggles(old(self)@, track_id)
                    && kill == old(self)@.process_id,
                OpenStep::Rejected { kill } => !spec_open_toggles(old(self)@, track_id)
                    && !file_exists && kill == old(self)@.process_id,
                OpenStep::Launch { kill } => !spec_open_toggles(old(self)@, track_id)
                    && file_exists && kill == old(self)@.process_id,
            }),
    {
        let toggled = self.is_playing && self.is_current_message(track_id);
        let kill = self.stop();
        if toggled {
            OpenStep::ToggledOff { kill }
        } else if !file_exists {
            OpenStep::Rejected { kill }
        } else {
            OpenStep::Launch { kill }
        }
    }

    /// Record the outcome of the launch that `open_begin` asked for: on
    /// success the session enters playing state at position zero with the
    /// start instant `now_ms`; on exhaustion it stays idle and the error
    /// names every attempted player.
    pub fn open_finish(
        &mut self,
        track_id: i32,
        file_path: String,
        total_duration_ms: Option<u64>,
        outcome: LaunchOutcome,
        now_ms: u64,
    ) -> (r: Result<(), PlaybackError>)
        requires
            old(self)@ == spec_idle(),
        ensures
            (match outcome {
                LaunchOutcome::Started(pid) => final(self)@ == spec_started(
                    track_id,
                    file_path@,
                    total_duration_ms,
                    pid,
                    now_ms,
                ) && r is Ok,
                LaunchOutcome::Exhausted(names) => final(self)@ == spec_idle() && (r matches Err(
                    PlaybackError::NoPlayerFound(n),
                ) && n == names),
            }),
            wf(final(self)@),
    {
        match outcome {
            LaunchOutcome::Started(pid) => {
                self.is_playing = true;
                self.current_position_ms = 0;
                self.total_duration_ms = total_duration_ms;
                self.current_track_id = Some(track_id);
                self.process_id = Some(pid);
                self.current_file_path = Some(file_path);
                self.session_start_ms = Some(now_ms);
                proof {
                    assert(self@ =~= spec_started(
                        track_id,
                        file_path@,
                        total_duration_ms,
                        pid,
                        now_ms,
                    ));
                }
                Ok(())
            },
            LaunchOutcome::Exhausted(names) => Err(PlaybackError::NoPlayerFound(names)),
        }
    }

    /// Prepare a position-preserving restart: hand back the retained file
    /// path, the position in whole seconds to relaunch at, and the old
    /// process id to kill. Changes nothing; the outcome goes to
    /// `restart_finish`.
    pub fn restart_begin(&self) -> (step: RestartStep)
        ensures
            (match step {
                RestartStep::NoSession => self@.current_file_path is None,
                RestartStep::Relaunch { kill, file_path, position_secs } => {
                    &&& self@.current_file_path == Some(file_path@)
                    &&& kill == self@.process_id
                    &&& position_secs == self@.current_position_ms / 1000
                },
            }),
    {
        match &self.current_file_path {
            None => RestartStep::NoSession,
            Some(path) => RestartStep::Relaunch {
                kill: self.process_id,
                file_path: path.clone(),
                position_secs: self.current_position_ms / 1000,
            },
        }
    }

    /// Record the outcome of the relaunch that `restart_begin` asked for: on
    /// success the new process is adopted and the start instant is set back
    /// by the current position, so the elapsed-time math keeps reporting it;
    /// on exhaustion the session resets and the error names every attempted
    /// player.
    pub fn restart_finish(&mut self, outcome: LaunchOutcome, now_ms: u64) -> (r: Result<
        (),
        PlaybackError,
    >)
        requires
            old(self)@.current_track_id is Some,
        ensures
            (match outcome {
                LaunchOutcome::Started(pid) => final(self)@ == spec_restarted(
                    old(self)@,
                    pid,
                    now_ms,
                ) && r is Ok,
                LaunchOutcome::Exhausted(names) => final(self)@ == spec_idle() && (r matches Err(
                    PlaybackError::NoPlayerFound(n),
                ) && n == names),
            }),
            wf(old(self)@) ==> wf(final(self)@),
    {
        match outcome {
            LaunchOutcome::Started(pid) => {
                self.process_id = Some(pid);
                self.session_start_ms = Some(
                    if now_ms >= self.current_position_ms {
                        now_ms - self.current_position_ms
                    } else {
                        0
                    },
                );
                proof {
                    assert(self@ =~= spec_restarted(old(self)@, pid, now_ms));
                }
                Ok(())
            },
            LaunchOutcome::Exhausted(names) => {
                let _ = self.stop();
                Err(PlaybackError::NoPlayerFound(names))
            },
        }
    }
}

/// The display readout: the position, then ` / ` and the total when known.
pub open spec fn spec_time_display(m: PlayerModel) -> Seq<char> {
    match m.total_duration_ms {
        Some(t) => spec_clock((m.current_position_ms / 1000) as nat) + " / "@ + spec_clock(
            (t / 1000) as nat,
        ),
        None => spec_clock((m.current_position_ms / 1000) as nat),
    }
}

} // verus!
