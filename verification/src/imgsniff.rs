//! Image-format sniffing and the preview-file cleanup rule.
//!
//! Downloaded previews land under well-known names in the temp directory; on
//! startup, leftovers that are too small or are not actually images are
//! removed. The embedding program lists the directory and reads the first
//! twelve bytes of a file; the decisions live here.

use vstd::prelude::*;
use vstd::string::StrSliceExecFns;

verus! {

/// A JPEG header: `FF D8`.
pub open spec fn spec_is_jpeg(h: Seq<u8>) -> bool {
    h.len() >= 2 && h[0] == 0xff && h[1] == 0xd8
}

/// A PNG header: `89 50 4E 47 0D 0A 1A 0A`.
pub open spec fn spec_is_png(h: Seq<u8>) -> bool {
    h.len() >= 8 && h[0] == 0x89 && h[1] == 0x50 && h[2] == 0x4e && h[3] == 0x47 && h[4] == 0x0d
        && h[5] == 0x0a && h[6] == 0x1a && h[7] == 0x0a
}

/// A GIF header: `GIF8`.
pub open spec fn spec_is_gif(h: Seq<u8>) -> bool {
    h.len() >= 4 && h[0] == 0x47 && h[1] == 0x49 && h[2] == 0x46 && h[3] == 0x38
}

/// A WebP header: `RIFF` then `WEBP` at offset eight.
pub open spec fn spec_is_webp(h: Seq<u8>) -> bool {
    h.len() >= 12 && h[0] == 0x52 && h[1] == 0x49 && h[2] == 0x46 && h[3] == 0x46 && h[8] == 0x57
        && h[9] == 0x45 && h[10] == 0x42 && h[11] == 0x50
}

/// Whether the leading bytes of a file mark a supported image format.
pub fn is_valid_image_header(header: &Vec<u8>) -> (r: bool)
    ensures
        r == (spec_is_jpeg(header@) || spec_is_png(header@) || spec_is_gif(header@)
            || spec_is_webp(header@)),
{
    let n = header.len();
    if n >= 2 && header[0] == 0xff && header[1] == 0xd8 {
        return true;
    }
    if n >= 8 && header[0] == 0x89 && header[1] == 0x50 && header[2] == 0x4e && header[3] == 0x47
        && header[4] == 0x0d && header[5] == 0x0a && header[6] == 0x1a && header[7] == 0x0a {
        return true;
    }
    if n >= 4 && header[0] == 0x47 && header[1] == 0x49 && header[2] == 0x46 && header[3] == 0x38 {
        return true;
    }
    if n >= 12 && header[0] == 0x52 && header[1] == 0x49 && header[2] == 0x46 && header[3] == 0x46
        && header[8] == 0x57 && header[9] == 0x45 && header[10] == 0x42 && header[11] == 0x50 {
        return true;
    }
    false
}

/// Whether `s` starts with `p`.
pub fn str_has_prefix(s: &str, p: &str) -> (r: bool)
    ensures
        r == (s@.len() >= p@.len() && s@.take(p@.len() as int) == p@),
{
    let ns = s.unicode_len();
    let np = p.unicode_len();
    if ns < np {
        return false;
    }
    let mut i: usize = 0;
    while i < np
        invariant
            ns == s@.len(),
            np == p@.len(),
            np <= ns,
            i <= np,
            forall|j: int| 0 <= j < i ==> s@[j] == p@[j],
        decreases np - i,
    {
        let cs = s.get_char(i);
        let cp = p.get_char(i);
        if cs != cp {
            proof {
                assert(s@.take(np as int)[i as int] != p@[i as int]);
            }
            return false;
        }
        i = i + 1;
    }
    proof {
        assert(s@.take(np as int) =~= p@);
    }
    true
}

/// Whether `s` ends with `p`.
pub fn str_has_suffix(s: &str, p: &str) -> (r: bool)
    ensures
        r == (s@.len() >= p@.len() && s@.skip(s@.len() - p@.len()) == p@),
{
    let ns = s.unicode_len();
    let np = p.unicode_len();
    if ns < np {
        return false;
    }
    let base = ns - np;
    let mut i: usize = 0;
    while i < np
        invariant
            ns == s@.len(),
            np == p@.len(),
            np <= ns,
            base == ns - np,
            i <= np,
            forall|j: int| 0 <= j < i ==> s@[base + j] == p@[j],
        decreases np - i,
    {
        let cs = s.get_char(base + i);
        let cp = p.get_char(i);
        if cs != cp {
            proof {
                assert(s@.skip(base as int)[i as int] != p@[i as int]);
            }
            return false;
        }
        i = i + 1;
    }
    proof {
        assert(s@.skip(base as int) =~= p@);
    }
    true
}

/// Whether a file name belongs to a downloaded image preview: the well-known
/// prefix and one of the image extensions.
pub open spec fn spec_is_preview_image_name(name: Seq<char>) -> bool {
    &&& name.len() >= "vi-tg_image_"@.len()
    &&& name.take("vi-tg_image_"@.len() as int) == "vi-tg_image_"@
    &&& (spec_has_suffix(name, ".png"@) || spec_has_suffix(name, ".jpg"@) || spec_has_suffix(
        name,
        ".jpeg"@,
    ) || spec_has_suffix(name, ".webp"@) || spec_has_suffix(name, ".gif"@))
}

/// Whether `s` ends with `p`.
pub open spec fn spec_has_suffix(s: Seq<char>, p: Seq<char>) -> bool {
    s.len() >= p.len() && s.skip(s.len() - p.len()) == p
}

/// What to do with a leftover file found at startup.
#[derive(Clone, Copy, PartialEq, Eq, Structural, Debug)]
pub enum CleanupDecision {
    /// Not a downloaded preview: leave it alone.
    Ignore,
    /// A preview too small to be a real image: remove it.
    RemoveSmall,
    /// A preview of plausible size: read its header and remove it unless
    /// [`is_valid_image_header`] accepts it.
    Inspect,
}

/// Decide what to do with a file of the given name and size: only files with
/// the preview prefix and an image extension are touched; below a hundred
/// bytes they are removed outright, otherwise the header decides.
pub fn cleanup_decision(name: &str, size_bytes: u64) -> (r: CleanupDecision)
    ensures
        !spec_is_preview_image_name(name@) ==> r == CleanupDecision::Ignore,
        spec_is_preview_image_name(name@) && size_bytes < 100 ==> r == CleanupDecision::RemoveSmall,
        spec_is_preview_image_name(name@) && size_bytes >= 100 ==> r == CleanupDecision::Inspect,
{
    if !str_has_prefix(name, "vi-tg_image_") {
        return CleanupDecision::Ignore;
    }
    let has_ext = str_has_suffix(name, ".png") || str_has_suffix(name, ".jpg") || str_has_suffix(
        name,
        ".jpeg",
    ) || str_has_suffix(name, ".webp") || str_has_suffix(name, ".gif");
    if !has_ext {
        return CleanupDecision::Ignore;
    }
    if size_bytes < 100 {
        CleanupDecision::RemoveSmall
    } else {
        CleanupDecision::Inspect
    }
}

} // verus!
