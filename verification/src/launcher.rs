//! Launch candidate lists for the external players.
//!
//! Starting playback means trying an ordered list of (player binary,
//! argument set) pairs until one spawns; which player is installed varies by
//! machine, so the redundancy is the point. The lists here are fixed data:
//! the embedding program walks a list in order, spawns the first candidate
//! that works (stdout and stderr suppressed), and stops there. When every
//! candidate fails, the aggregated error names the full set of attempted
//! players so the user knows what to install.
//!
//! A restart carries the resume position as each player's native seek-start
//! flag rather than a post-launch command, so the seek cannot race the
//! player's socket setup.

use vstd::prelude::*;
use vstd::string::StringExecFns;
use crate::timefmt::{spec_dec, u64_to_dec};
use crate::player::PlaybackError;

verus! {

/// One player program to try: its binary name and the full argument list,
/// media file path included.
pub struct LaunchCandidate {
    pub player: String,
    pub args: Vec<String>,
}

/// The mathematical value of a [`LaunchCandidate`].
#[verifier::ext_equal]
pub struct CandidateModel {
    pub player: Seq<char>,
    pub args: Seq<Seq<char>>,
}

impl View for LaunchCandidate {
    type V = CandidateModel;

    open spec fn view(&self) -> CandidateModel {
        CandidateModel { player: self.player@, args: self.args.deep_view() }
    }
}

/// The audio candidates for a fresh start, in priority order: ffplay first
/// (reliable), mpv second (controllable over its socket), then players of
/// decreasing feature richness.
pub open spec fn spec_audio_candidates(path: Seq<char>) -> Seq<CandidateModel> {
    seq![
        CandidateModel {
            player: "ffplay"@,
            args: seq!["-nodisp"@, "-autoexit"@, "-af"@, "volume=10"@, path],
        },
        CandidateModel {
            player: "mpv"@,
            args: seq![
                "--volume=200"@,
                "--input-ipc-server=/tmp/mpv-socket"@,
                "--input-ipc-server=/tmp/mpv-socket:rw"@,
                path,
            ],
        },
        CandidateModel {
            player: "mplayer"@,
            args: seq!["-really-quiet"@, "-noconsolecontrols"@, "-af"@, "volume=10"@, path],
        },
        CandidateModel { player: "play"@, args: seq!["-v"@, "10"@, path] },
        CandidateModel { player: "paplay"@, args: seq![path] },
    ]
}

/// The audio candidates for a position-preserving restart: the same leading
/// players, each with its own seek-start flag carrying `pos_secs`.
pub open spec fn spec_audio_restart_candidates(path: Seq<char>, pos_secs: nat) -> Seq<
    CandidateModel,
> {
    seq![
        CandidateModel {
            player: "ffplay"@,
            args: seq![
                "-nodisp"@,
                "-autoexit"@,
                "-af"@,
                "volume=10"@,
                "-ss"@,
                spec_dec(pos_secs),
                path,
            ],
        },
        CandidateModel {
            player: "mpv"@,
            args: seq![
                "--volume=200"@,
                "--input-ipc-server=/tmp/mpv-socket"@,
                "--start="@ + spec_dec(pos_secs),
                path,
            ],
        },
        CandidateModel {
            player: "mplayer"@,
            args: seq![
                "-really-quiet"@,
                "-noconsolecontrols"@,
                "-af"@,
                "volume=10"@,
                "-ss "@ + spec_dec(pos_secs),
                path,
            ],
        },
    ]
}

/// The video candidates, in priority order: three mpv strategies (a floating
/// window for tiling window managers, an audio-only fallback for headless
/// runs, a minimal-config window), then alternative players, then mpv once
/// more with nothing but `--no-config`.
pub open spec fn spec_video_candidates(path: Seq<char>) -> Seq<CandidateModel> {
    seq![
        CandidateModel {
            player: "mpv"@,
            args: seq![
                "--no-terminal"@,
                "--input-ipc-server=/tmp/mpv-socket"@,
                "--force-window=yes"@,
                "--keep-open=no"@,
                "--geometry=800x600+100+100"@,
                path,
            ],
        },
        CandidateModel {
            player: "mpv"@,
            args: seq![
                "--no-terminal"@,
                "--input-ipc-server=/tmp/mpv-socket"@,
                "--force-window=no"@,
                "--audio-device=alsa"@,
                "--keep-open=no"@,
                "--no-video"@,
                path,
            ],
        },
        CandidateModel {
            player: "mpv"@,
            args: seq![
                "--no-config"@,
                "--no-terminal"@,
                "--force-window=yes"@,
                "--keep-open=no"@,
                "--geometry=50%x50%"@,
                path,
            ],
        },
        CandidateModel { player: "vlc"@, args: seq!["--no-video-title"@, "--play-and-exit"@, path] },
        CandidateModel { player: "ffplay"@, args: seq!["-autoexit"@, "-fs"@, path] },
        CandidateModel { player: "mplayer"@, args: seq!["-fs"@, "-really-quiet"@, path] },
        CandidateModel { player: "xine"@, args: seq!["-f"@, "-q"@, path] },
        CandidateModel { player: "mpv"@, args: seq!["--no-config"@, "--no-terminal"@, path] },
    ]
}

/// The ordered audio candidates for starting `file_path` from the beginning.
pub fn audio_candidates(file_path: &str) -> (r: Vec<LaunchCandidate>)
    ensures
        r@.len() == spec_audio_candidates(file_path@).len(),
        forall|i: int|
            0 <= i < r@.len() ==> (#[trigger] r@[i]@) == spec_audio_candidates(file_path@)[i],
{
    let r = vec![
        LaunchCandidate {
            player: "ffplay".to_owned(),
            args: vec![
                "-nodisp".to_owned(),
                "-autoexit".to_owned(),
                "-af".to_owned(),
                "volume=10".to_owned(),
                file_path.to_owned(),
            ],
        },
        LaunchCandidate {
            player: "mpv".to_owned(),
            args: vec![
                "--volume=200".to_owned(),
                "--input-ipc-server=/tmp/mpv-socket".to_owned(),
                "--input-ipc-server=/tmp/mpv-socket:rw".to_owned(),
                file_path.to_owned(),
            ],
        },
        LaunchCandidate {
            player: "mplayer".to_owned(),
            args: vec![
                "-really-quiet".to_owned(),
                "-noconsolecontrols".to_owned(),
                "-af".to_owned(),
                "volume=10".to_owned(),
                file_path.to_owned(),
            ],
        },
        LaunchCandidate {
            player: "play".to_owned(),
            args: vec!["-v".to_owned(), "10".to_owned(), file_path.to_owned()],
        },
        LaunchCandidate { player: "paplay".to_owned(), args: vec![file_path.to_owned()] },
    ];
    proof {
        assert forall|i: int| 0 <= i < r@.len() implies (#[trigger] r@[i]@) == spec_audio_candidates(
            file_path@,
        )[i] by {
            assert(r@[i]@ =~= spec_audio_candidates(file_path@)[i]);
        }
    }
    r
}

/// The ordered audio candidates for restarting `file_path` at
/// `position_secs`, each carrying its player's native seek-start flag.
pub fn audio_restart_candidates(file_path: &str, position_secs: u64) -> (r: Vec<LaunchCandidate>)
    ensures
        r@.len() == spec_audio_restart_candidates(file_path@, position_secs as nat).len(),
        forall|i: int|
            0 <= i < r@.len() ==> (#[trigger] r@[i]@) == spec_audio_restart_candidates(
                file_path@,
                position_secs as nat,
            )[i],
{
    let pos = u64_to_dec(position_secs);
    let mut mpv_start = "--start=".to_owned();
    mpv_start.append(pos.as_str());
    let mut mplayer_ss = "-ss ".to_owned();
    mplayer_ss.append(pos.as_str());
    let r = vec![
        LaunchCandidate {
            player: "ffplay".to_owned(),
            args: vec![
                "-nodisp".to_owned(),
                "-autoexit".to_owned(),
                "-af".to_owned(),
                "volume=10".to_owned(),
                "-ss".to_owned(),
                pos.clone(),
                file_path.to_owned(),
            ],
        },
        LaunchCandidate {
            player: "mpv".to_owned(),
            args: vec![
                "--volume=200".to_owned(),
                "--input-ipc-server=/tmp/mpv-socket".to_owned(),
                mpv_start,
                file_path.to_owned(),
            ],
        },
        LaunchCandidate {
            player: "mplayer".to_owned(),
            args: vec![
                "-really-quiet".to_owned(),
                "-noconsolecontrols".to_owned(),
                "-af".to_owned(),
                "volume=10".to_owned(),
                mplayer_ss,
                file_path.to_owned(),
            ],
        },
    ];
    proof {
        assert forall|i: int|
            0 <= i < r@.len() implies (#[trigger] r@[i]@) == spec_audio_restart_candidates(
            file_path@,
            position_secs as nat,
        )[i] by {
            assert(r@[i]@ =~= spec_audio_restart_candidates(file_path@, position_secs as nat)[i]);
        }
    }
    r
}

/// The ordered video candidates for playing `file_path`.
pub fn video_candidates(file_path: &str) -> (r: Vec<LaunchCandidate>)
    ensures
        r@.len() == spec_video_candidates(file_path@).len(),
        forall|i: int|
            0 <= i < r@.len() ==> (#[trigger] r@[i]@) == spec_video_candidates(file_path@)[i],
{
    let r = vec![
        LaunchCandidate {
            player: "mpv".to_owned(),
            args: vec![
                "--no-terminal".to_owned(),
                "--input-ipc-server=/tmp/mpv-socket".to_owned(),
                "--force-window=yes".to_owned(),
                "--keep-open=no".to_owned(),
                "--geometry=800x600+100+100".to_owned(),
                file_path.to_owned(),
            ],
        },
        LaunchCandidate {
            player: "mpv".to_owned(),
            args: vec![
                "--no-terminal".to_owned(),
                "--input-ipc-server=/tmp/mpv-socket".to_owned(),
                "--force-window=no".to_owned(),
                "--audio-device=alsa".to_owned(),
                "--keep-open=no".to_owned(),
                "--no-video".to_owned(),
                file_path.to_owned(),
            ],
        },
        LaunchCandidate {
            player: "mpv".to_owned(),
            args: vec![
                "--no-config".to_owned(),
                "--no-terminal".to_owned(),
                "--force-window=yes".to_owned(),
                "--keep-open=no".to_owned(),
                "--geometry=50%x50%".to_owned(),
                file_path.to_owned(),
            ],
        },
        LaunchCandidate {
            player: "vlc".to_owned(),
            args: vec![
                "--no-video-title".to_owned(),
                "--play-and-exit".to_owned(),
                file_path.to_owned(),
            ],
        },
        LaunchCandidate {
            player: "ffplay".to_owned(),
            args: vec!["-autoexit".to_owned(), "-fs".to_owned(), file_path.to_owned()],
        },
        LaunchCandidate {
            player: "mplayer".to_owned(),
            args: vec!["-fs".to_owned(), "-really-quiet".to_owned(), file_path.to_owned()],
        },
        LaunchCandidate {
            player: "xine".to_owned(),
            args: vec!["-f".to_owned(), "-q".to_owned(), file_path.to_owned()],
        },
        LaunchCandidate {
            player: "mpv".to_owned(),
            args: vec!["--no-config".to_owned(), "--no-terminal".to_owned(), file_path.to_owned()],
        },
    ];
    proof {
        assert forall|i: int| 0 <= i < r@.len() implies (#[trigger] r@[i]@) == spec_video_candidates(
            file_path@,
        )[i] by {
            assert(r@[i]@ =~= spec_video_candidates(file_path@)[i]);
        }
    }
    r
}

/// The player names of a candidate list, in order.
pub fn attempted_players(candidates: &Vec<LaunchCandidate>) -> (r: Vec<String>)
    ensures
        r@.len() == candidates@.len(),
        forall|i: int| 0 <= i < r@.len() ==> (#[trigger] r@[i]@) == candidates@[i]@.player,
{
    let mut r: Vec<String> = Vec::new();
    let mut i: usize = 0;
    while i < candidates.len()
        invariant
            i <= candidates@.len(),
            r@.len() == i,
            forall|j: int| 0 <= j < i ==> (#[trigger] r@[j]@) == candidates@[j]@.player,
        decreases candidates@.len() - i,
    {
        r.push(candidates[i].player.clone());
        i = i + 1;
    }
    r
}

/// `parts` joined by `sep`.
pub open spec fn spec_join(parts: Seq<Seq<char>>, sep: Seq<char>) -> Seq<char>
    decreases parts.len(),
{
    if parts.len() == 0 {
        Seq::empty()
    } else if parts.len() == 1 {
        parts[0]
    } else {
        spec_join(parts.drop_last(), sep) + sep + parts.last()
    }
}

/// Join a list of names with `", "`.
pub fn join_comma(parts: &Vec<String>) -> (r: String)
    ensures
        r@ == spec_join(parts.deep_view(), ", "@),
{
    let mut r = String::new();
    let mut i: usize = 0;
    while i < parts.len()
        invariant
            i <= parts@.len(),
            r@ == spec_join(parts.deep_view().take(i as int), ", "@),
        decreases parts@.len() - i,
    {
        if i > 0 {
            r.append(", ");
        }
        r.append(parts[i].as_str());
        proof {
            assert(parts.deep_view().take(i + 1 as int).drop_last() =~= parts.deep_view().take(
                i as int,
            ));
            assert(r@ == spec_join(parts.deep_view().take(i + 1 as int), ", "@));
        }
        i = i + 1;
    }
    proof {
        assert(parts.deep_view().take(parts@.len() as int) =~= parts.deep_view());
    }
    r
}

/// The message of the aggregated launch failure: a fixed preface, then the
/// attempted player names joined by `", "`.
pub open spec fn spec_no_player_message(attempted: Seq<Seq<char>>) -> Seq<char> {
    "no media player could be started; install one of: "@ + spec_join(attempted, ", "@)
}

impl PlaybackError {
    /// The user-visible text of the failure.
    pub fn message(&self) -> (r: String)
        ensures
            (match self {
                PlaybackError::NoPlayerFound(names) => r@ == spec_no_player_message(
                    names.deep_view(),
                ),
            }),
    {
        match self {
            PlaybackError::NoPlayerFound(names) => {
                let mut r = "no media player could be started; install one of: ".to_owned();
                let joined = join_comma(names);
                r.append(joined.as_str());
                r
            },
        }
    }
}

} // verus!
