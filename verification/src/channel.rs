//! The best-effort command channel to a running player.
//!
//! The player listens (at best) on a Unix socket at the well-known path
//! `/tmp/mpv-socket`; there is no reply channel. A command is delivered by
//! trying an ordered list of shell one-liners — which relay utility is
//! installed varies by machine — and the first attempt that reports success
//! short-circuits the rest. Nothing here is fatal: when a live process cannot
//! be reached at all, the caller falls back to a restart at the modelled
//! position.
//!
//! The plan is data; the embedding program runs the shell lines and the
//! signal. A zero delta doubles as the pause toggle: when every transport
//! fails for it, the last resort is `SIGUSR1` straight to the process, a
//! convention some players honor.

use vstd::prelude::*;
use vstd::string::StringExecFns;
use crate::timefmt::{i64_to_dec, spec_dec_signed};

verus! {

/// The text command for a seek by `delta_secs` whole seconds.
pub open spec fn spec_seek_command(delta_secs: int) -> Seq<char> {
    "seek "@ + spec_dec_signed(delta_secs)
}

/// Build the seek command, e.g. `seek -5`.
pub fn seek_command(delta_secs: i64) -> (r: String)
    ensures
        r@ == spec_seek_command(delta_secs as int),
{
    let mut r = "seek ".to_owned();
    let num = i64_to_dec(delta_secs);
    r.append(num.as_str());
    r
}

/// The transport mechanisms, in the order they are tried.
#[derive(Clone, Copy, PartialEq, Eq, Structural, Debug)]
pub enum TransportKind {
    /// A generic socket-relay utility.
    Socat,
    /// A raw netcat-style Unix-socket write.
    Netcat,
    /// Plain shell redirection into the socket path.
    ShellRedirect,
    /// A buffered write through `printf`.
    BufferedWrite,
    /// A block-oriented write through `dd`.
    BlockWrite,
}

/// One delivery attempt: the mechanism and the shell line that performs it.
pub struct TransportAttempt {
    pub kind: TransportKind,
    pub shell: String,
}

/// The shell line relaying `command` through socat.
pub open spec fn spec_socat_line(command: Seq<char>) -> Seq<char> {
    "echo '"@ + command + "' | socat - UNIX-CONNECT:/tmp/mpv-socket 2>/dev/null"@
}

/// The shell line relaying `command` through netcat.
pub open spec fn spec_netcat_line(command: Seq<char>) -> Seq<char> {
    "echo '"@ + command + "' | nc -U /tmp/mpv-socket 2>/dev/null"@
}

/// The shell line writing `command` by redirection.
pub open spec fn spec_redirect_line(command: Seq<char>) -> Seq<char> {
    "echo '"@ + command + "' > /tmp/mpv-socket 2>/dev/null"@
}

/// The shell line writing `command` through printf.
pub open spec fn spec_printf_line(command: Seq<char>) -> Seq<char> {
    "printf '%s\\n' '"@ + command + "' > /tmp/mpv-socket 2>/dev/null"@
}

/// The shell line writing `command` through dd.
pub open spec fn spec_dd_line(command: Seq<char>) -> Seq<char> {
    "echo '"@ + command + "' | dd of=/tmp/mpv-socket 2>/dev/null"@
}

fn wrap_command(prefix: &str, command: &str, suffix: &str) -> (r: String)
    ensures
        r@ == prefix@ + command@ + suffix@,
{
    let mut r = prefix.to_owned();
    r.append(command);
    r.append(suffix);
    r
}

/// The ordered transport attempts for delivering `command`: socat, netcat,
/// shell redirection, a buffered write, a block-oriented write.
pub fn transport_attempts(command: &str) -> (r: Vec<TransportAttempt>)
    ensures
        r@.len() == 5,
        r@[0].kind == TransportKind::Socat && r@[0].shell@ == spec_socat_line(command@),
        r@[1].kind == TransportKind::Netcat && r@[1].shell@ == spec_netcat_line(command@),
        r@[2].kind == TransportKind::ShellRedirect && r@[2].shell@ == spec_redirect_line(command@),
        r@[3].kind == TransportKind::BufferedWrite && r@[3].shell@ == spec_printf_line(command@),
        r@[4].kind == TransportKind::BlockWrite && r@[4].shell@ == spec_dd_line(command@),
{
    let r = vec![
        TransportAttempt {
            kind: TransportKind::Socat,
            shell: wrap_command(
                "echo '",
                command,
                "' | socat - UNIX-CONNECT:/tmp/mpv-socket 2>/dev/null",
            ),
        },
        TransportAttempt {
            kind: TransportKind::Netcat,
            shell: wrap_command("echo '", command, "' | nc -U /tmp/mpv-socket 2>/dev/null"),
        },
        TransportAttempt {
            kind: TransportKind::ShellRedirect,
            shell: wrap_command("echo '", command, "' > /tmp/mpv-socket 2>/dev/null"),
        },
        TransportAttempt {
            kind: TransportKind::BufferedWrite,
            shell: wrap_command("printf '%s\\n' '", command, "' > /tmp/mpv-socket 2>/dev/null"),
        },
        TransportAttempt {
            kind: TransportKind::BlockWrite,
            shell: wrap_command("echo '", command, "' | dd of=/tmp/mpv-socket 2>/dev/null"),
        },
    ];
    r
}

/// The whole delivery plan for one seek (or pause-toggle, a zero delta).
pub enum DeliveryPlan {
    /// No process, or the liveness probe failed: report unconditional
    /// failure without attempting any transport.
    Skip,
    /// Run the shell lines in order until one succeeds. When all fail and
    /// `pause_signal` carries a process id, send it `SIGUSR1` as the last
    /// resort (the command was the zero-delta pause toggle).
    Attempt { attempts: Vec<TransportAttempt>, pause_signal: Option<u32> },
}

/// Plan the delivery of a seek by `delta_secs` to the player process:
/// nothing without a live process; otherwise the five transports in order,
/// with the pause-toggle signal as last resort exactly when the delta is
/// zero.
pub fn plan_delivery(process_id: Option<u32>, process_alive: bool, delta_secs: i64) -> (r:
    DeliveryPlan)
    ensures
        (match r {
            DeliveryPlan::Skip => process_id is None || !process_alive,
            DeliveryPlan::Attempt { attempts, pause_signal } => {
                &&& process_id is Some
                &&& process_alive
                &&& attempts@.len() == 5
                &&& attempts@[0].kind == TransportKind::Socat && attempts@[0].shell@
                    == spec_socat_line(spec_seek_command(delta_secs as int))
                &&& attempts@[1].kind == TransportKind::Netcat && attempts@[1].shell@
                    == spec_netcat_line(spec_seek_command(delta_secs as int))
                &&& attempts@[2].kind == TransportKind::ShellRedirect && attempts@[2].shell@
                    == spec_redirect_line(spec_seek_command(delta_secs as int))
                &&& attempts@[3].kind == TransportKind::BufferedWrite && attempts@[3].shell@
                    == spec_printf_line(spec_seek_command(delta_secs as int))
                &&& attempts@[4].kind == TransportKind::BlockWrite && attempts@[4].shell@
                    == spec_dd_line(spec_seek_command(delta_secs as int))
                &&& pause_signal == (if delta_secs == 0 {
                    process_id
                } else {
                    None
                })
            },
        }),
{
    match process_id {
        None => DeliveryPlan::Skip,
        Some(pid) => {
            if !process_alive {
                DeliveryPlan::Skip
            } else {
                let command = seek_command(delta_secs);
                let attempts = transport_attempts(command.as_str());
                let pause_signal = if delta_secs == 0 {
                    Some(pid)
                } else {
                    None
                };
                DeliveryPlan::Attempt { attempts, pause_signal }
            }
        },
    }
}

} // verus!
