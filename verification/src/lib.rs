//! Playback tracking and control for an external, unmanaged media-player
//! process.
//!
//! A terminal chat client plays voice notes, music and video by shelling out
//! to whatever player is installed (mpv, ffplay, mplayer, ...). The player
//! exposes no reliable control or query channel, so everything interesting
//! happens on this side: the playback position is modelled from wall-clock
//! time rather than observed, seek and pause commands are delivered
//! best-effort over a well-known socket path with a chain of transport
//! fallbacks, and when delivery fails the player is killed and relaunched at
//! the modelled position.
//!
//! This crate holds that logic: the session state machine
//! ([`player::AudioPlayer`]) and its global guarantees ([`laws`]), the
//! launch candidate lists ([`launcher`]), the command-channel fallback plan
//! ([`channel`]), the window-id parsers ([`winid`]), the message dispatch
//! ([`resolver`]), the clock readouts ([`timefmt`]), and the client's
//! supporting flows: authorization ([`auth_flow`]), list selection
//! ([`selection`]), configuration defaults ([`config`]) and the
//! preview-file rules ([`imgsniff`]). Everything that touches the operating
//! system — spawning, killing, probing, socket writes, files, HTTP — is
//! left to the embedding program, which performs the actions these
//! functions decide on and feeds the outcomes back in.

pub mod auth_flow;
pub mod channel;
pub mod config;
pub mod imgsniff;
pub mod laws;
pub mod launcher;
pub mod player;
pub mod resolver;
pub mod selection;
pub mod timefmt;
pub mod winid;
