//! Mapping a selected message to the action it calls for.
//!
//! A message carries a media kind and whatever local file paths the backend
//! has already fetched. Opening it either shows an image, shows a video (via
//! its preview image when one exists), starts audio playback, or builds the
//! map-preview request for a location; a message whose file has not arrived
//! yet resolves to nothing. This is a pure lookup — no state of its own.

use vstd::prelude::*;
use vstd::string::{StrSliceExecFns, StringExecFns};
use crate::timefmt::{i64_to_dec, spec_dec_signed};

verus! {

/// Compare two strings by contents.
pub fn str_eq(a: &str, b: &str) -> (r: bool)
    ensures
        r == (a@ == b@),
{
    let na = a.unicode_len();
    let nb = b.unicode_len();
    if na != nb {
        return false;
    }
    let mut i: usize = 0;
    while i < na
        invariant
            na == a@.len(),
            na == b@.len(),
            i <= na,
            forall|j: int| 0 <= j < i ==> a@[j] == b@[j],
        decreases na - i,
    {
        let ca = a.get_char(i);
        let cb = b.get_char(i);
        if ca != cb {
            return false;
        }
        i = i + 1;
    }
    proof {
        assert(a@ =~= b@);
    }
    true
}

/// Whether `c` occurs in `s`.
pub fn contains_char(s: &str, c: char) -> (r: bool)
    ensures
        r == s@.contains(c),
{
    let n = s.unicode_len();
    let mut i: usize = 0;
    while i < n
        invariant
            n == s@.len(),
            i <= n,
            forall|j: int| 0 <= j < i ==> s@[j] != c,
        decreases n - i,
    {
        if s.get_char(i) == c {
            return true;
        }
        i = i + 1;
    }
    proof {
        assert(!s@.contains(c)) by {
            if s@.contains(c) {
                let j = choose|j: int| 0 <= j < s@.len() && s@[j] == c;
                assert(s@[j] != c);
            }
        }
    }
    false
}

/// The media kinds a message can carry.
#[derive(Clone, Copy, PartialEq, Eq, Structural, Debug)]
pub enum MediaKind {
    Text,
    Photo,
    Video,
    Sticker,
    Voice,
    Audio,
    Location,
    Other,
}

/// The kind named by a message's type string.
pub open spec fn spec_media_kind(t: Seq<char>) -> MediaKind {
    if t == "text"@ {
        MediaKind::Text
    } else if t == "photo"@ {
        MediaKind::Photo
    } else if t == "video"@ {
        MediaKind::Video
    } else if t == "sticker"@ {
        MediaKind::Sticker
    } else if t == "voice"@ {
        MediaKind::Voice
    } else if t == "audio"@ {
        MediaKind::Audio
    } else if t == "location"@ {
        MediaKind::Location
    } else {
        MediaKind::Other
    }
}

/// Classify a message's type string.
pub fn media_kind(t: &str) -> (r: MediaKind)
    ensures
        r == spec_media_kind(t@),
{
    if str_eq(t, "text") {
        MediaKind::Text
    } else if str_eq(t, "photo") {
        MediaKind::Photo
    } else if str_eq(t, "video") {
        MediaKind::Video
    } else if str_eq(t, "sticker") {
        MediaKind::Sticker
    } else if str_eq(t, "voice") {
        MediaKind::Voice
    } else if str_eq(t, "audio") {
        MediaKind::Audio
    } else if str_eq(t, "location") {
        MediaKind::Location
    } else {
        MediaKind::Other
    }
}

/// What the playback and preview logic reads of a message: its id, its kind,
/// and the backend-provided local paths and metadata, each absent until
/// fetched.
pub struct MediaMessage {
    pub id: i32,
    pub kind: MediaKind,
    pub image_path: Option<String>,
    pub sticker_path: Option<String>,
    pub video_path: Option<String>,
    pub video_preview_path: Option<String>,
    pub voice_path: Option<String>,
    pub voice_duration_secs: Option<u32>,
    pub audio_path: Option<String>,
    pub audio_duration_secs: Option<u32>,
    pub location_map_path: Option<String>,
    pub has_location_coords: bool,
    pub location_id: Option<i64>,
}

/// What opening a message calls for.
pub enum MediaAction {
    /// Show this image (photo or sticker) full screen.
    ShowImage { path: String },
    /// Show the video's preview image, keeping the video path at hand for
    /// playback on confirmation (empty when the backend gave none).
    ShowVideoWithPreview { preview_path: String, video_path: String },
    /// No preview image: go straight to the video.
    ShowVideoDirect { video_path: String },
    /// Start voice playback.
    PlayVoice { path: String, duration_ms: Option<u64> },
    /// Start audio playback.
    PlayAudio { path: String, duration_ms: Option<u64> },
    /// Fetch and show the location's map preview; the embedding program
    /// appends `lat=..&lng=..` (after `separator`) to `base_url`, downloads,
    /// and writes the image to `temp_path`.
    ShowLocationWithCoords { base_url: String, separator: char, temp_path: String },
    /// A location without usable coordinates: fetch the backend-provided map
    /// path as it stands.
    ShowLocationPlain { map_path: String, temp_path: String },
    /// Nothing can be done (no file yet, or an unhandled kind).
    Unavailable,
}

/// A duration in whole seconds, as milliseconds.
pub open spec fn spec_secs_to_ms(d: Option<u32>) -> Option<u64> {
    match d {
        Some(x) => Some((x * 1000) as u64),
        None => None,
    }
}

/// The location id used in the fallback map route: the location's own id
/// when present, the message id otherwise.
pub open spec fn spec_location_route_id(m: MediaMessage) -> int {
    match m.location_id {
        Some(l) => l as int,
        None => m.id as int,
    }
}

/// The base URL for a location's map: the backend-provided path, or the
/// generic map route for the location id.
pub open spec fn spec_location_base(m: MediaMessage) -> Seq<char> {
    match m.location_map_path {
        Some(p) => p@,
        None => "/api/locations/"@ + spec_dec_signed(spec_location_route_id(m)) + "/map"@,
    }
}

/// The well-known temp path for a message's downloaded map preview.
pub open spec fn spec_preview_temp_path(id: int) -> Seq<char> {
    "/tmp/vi-tg_location_preview_"@ + spec_dec_signed(id) + ".png"@
}

/// Build the well-known temp path for a message's downloaded map preview.
pub fn map_preview_path(message_id: i32) -> (r: String)
    ensures
        r@ == spec_preview_temp_path(message_id as int),
{
    let mut r = "/tmp/vi-tg_location_preview_".to_owned();
    let id = i64_to_dec(message_id as i64);
    r.append(id.as_str());
    r.append(".png");
    r
}

/// Resolve a message to the action opening it calls for.
pub fn resolve(msg: &MediaMessage) -> (r: MediaAction)
    ensures
        (match msg.kind {
            MediaKind::Photo => (match msg.image_path {
                Some(ref p) => r matches MediaAction::ShowImage { path } && path@ == p@,
                None => r is Unavailable,
            }),
            MediaKind::Sticker => (match msg.sticker_path {
                Some(ref p) => r matches MediaAction::ShowImage { path } && path@ == p@,
                None => r is Unavailable,
            }),
            MediaKind::Video => (match msg.video_preview_path {
                Some(ref pp) => r matches MediaAction::ShowVideoWithPreview {
                    preview_path,
                    video_path,
                } && preview_path@ == pp@ && video_path@ == (match msg.video_path {
                    Some(ref v) => v@,
                    None => Seq::<char>::empty(),
                }),
                None => (match msg.video_path {
                    Some(ref v) => r matches MediaAction::ShowVideoDirect { video_path }
                        && video_path@ == v@,
                    None => r is Unavailable,
                }),
            }),
            MediaKind::Voice => (match msg.voice_path {
                Some(ref p) => r matches MediaAction::PlayVoice { path, duration_ms } && path@
                    == p@ && duration_ms == spec_secs_to_ms(msg.voice_duration_secs),
                None => r is Unavailable,
            }),
            MediaKind::Audio => (match msg.audio_path {
                Some(ref p) => r matches MediaAction::PlayAudio { path, duration_ms } && path@
                    == p@ && duration_ms == spec_secs_to_ms(msg.audio_duration_secs),
                None => r is Unavailable,
            }),
            MediaKind::Location => (if msg.has_location_coords {
                r matches MediaAction::ShowLocationWithCoords { base_url, separator, temp_path }
                    && base_url@ == spec_location_base(*msg) && separator == (
                if spec_location_base(*msg).contains('?') {
                    '&'
                } else {
                    '?'
                }) && temp_path@ == spec_preview_temp_path(msg.id as int)
            } else {
                (match msg.location_map_path {
                    Some(ref mp) => r matches MediaAction::ShowLocationPlain {
                        map_path,
                        temp_path,
                    } && map_path@ == mp@ && temp_path@ == spec_preview_temp_path(msg.id as int),
                    None => r is Unavailable,
                })
            }),
            MediaKind::Text => r is Unavailable,
            MediaKind::Other => r is Unavailable,
        }),
{
    match msg.kind {
        MediaKind::Photo => match &msg.image_path {
            Some(p) => MediaAction::ShowImage { path: p.clone() },
            None => MediaAction::Unavailable,
        },
        MediaKind::Sticker => match &msg.sticker_path {
            Some(p) => MediaAction::ShowImage { path: p.clone() },
            None => MediaAction::Unavailable,
        },
        MediaKind::Video => match &msg.video_preview_path {
            Some(pp) => {
                let video_path = match &msg.video_path {
                    Some(v) => v.clone(),
                    None => String::new(),
                };
                MediaAction::ShowVideoWithPreview { preview_path: pp.clone(), video_path }
            },
            None => match &msg.video_path {
                Some(v) => MediaAction::ShowVideoDirect { video_path: v.clone() },
                None => MediaAction::Unavailable,
            },
        },
        MediaKind::Voice => match &msg.voice_path {
            Some(p) => MediaAction::PlayVoice {
                path: p.clone(),
                duration_ms: match msg.voice_duration_secs {
                    Some(d) => Some((d as u64) * 1000),
                    None => None,
                },
            },
            None => MediaAction::Unavailable,
        },
        MediaKind::Audio => match &msg.audio_path {
            Some(p) => MediaAction::PlayAudio {
                path: p.clone(),
                duration_ms: match msg.audio_duration_secs {
                    Some(d) => Some((d as u64) * 1000),
                    None => None,
                },
            },
            None => MediaAction::Unavailable,
        },
        MediaKind::Location => {
            let temp_path = map_preview_path(msg.id);
            if msg.has_location_coords {
                let base_url: String = match &msg.location_map_path {
                    Some(p) => p.clone(),
                    None => {
                        let route_id: i64 = match msg.location_id {
                            Some(l) => l,
                            None => msg.id as i64,
                        };
                        let mut b = "/api/locations/".to_owned();
                        let id = i64_to_dec(route_id);
                        b.append(id.as_str());
                        b.append("/map");
                        b
                    },
                };
                let separator = if contains_char(base_url.as_str(), '?') {
                    '&'
                } else {
                    '?'
                };
                MediaAction::ShowLocationWithCoords { base_url, separator, temp_path }
            } else {
                match &msg.location_map_path {
                    Some(mp) => MediaAction::ShowLocationPlain { map_path: mp.clone(), temp_path },
                    None => MediaAction::Unavailable,
                }
            }
        },
        MediaKind::Text => MediaAction::Unavailable,
        MediaKind::Other => MediaAction::Unavailable,
    }
}

} // verus!
