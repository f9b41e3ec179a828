use vstd::prelude::*;

use crate::strutil::str_eq;

verus! {

/// Relies on `std::time::SystemTime`: seconds since the Unix epoch. A
/// clock set before the epoch reads as zero rather than failing.
#[verifier::external_body]
pub fn unix_secs() -> (r: i64)
    ensures
        0 <= r,
{
    let secs = match std::time::SystemTime::now().duration_since(std::time::UNIX_EPOCH) {
        Ok(d) => d.as_secs(),
        Err(_) => 0,
    };
    i64::try_from(secs).unwrap_or(i64::MAX)
}

/// True when the sequence starts with the five characters of "video".
pub open spec fn spec_is_video(s: Seq<char>) -> bool {
    s.len() >= 5 && s[0] == 'v' && s[1] == 'i' && s[2] == 'd' && s[3] == 'e' && s[4] == 'o'
}

/// Whether a MIME type names a video format.
pub fn is_video(mime_type: &str) -> (r: bool)
    ensures
        r == spec_is_video(mime_type@),
{
    let n = mime_type.unicode_len();
    if n < 5 {
        return false;
    }
    mime_type.get_char(0) == 'v' && mime_type.get_char(1) == 'i' && mime_type.get_char(2) == 'd'
        && mime_type.get_char(3) == 'e' && mime_type.get_char(4) == 'o'
}

/// The file extension associated with a recognised video MIME type.
pub open spec fn spec_ext_from_mime_type(s: Seq<char>) -> Option<Seq<char>> {
    if s == "video/mp4"@ {
        Some("mp4"@)
    } else if s == "video/quicktime"@ {
        Some("mov"@)
    } else if s == "video/x-msvideo"@ {
        Some("avi"@)
    } else if s == "video/x-flv"@ {
        Some("flv"@)
    } else if s == "video/x-matroska"@ {
        Some("mkv"@)
    } else if s == "video/x-ms-wmv"@ {
        Some("wmv"@)
    } else if s == "video/x-ms-asf"@ {
        Some("asf"@)
    } else if s == "video/x-m4v"@ {
        Some("m4v"@)
    } else if s == "video/3gpp"@ {
        Some("3gp"@)
    } else if s == "video/3gpp2"@ {
        Some("3g2"@)
    } else if s == "video/webm"@ {
        Some("webm"@)
    } else if s == "video/ogg"@ {
        Some("ogv"@)
    } else if s == "video/avi"@ {
        Some("avi"@)
    } else {
        None
    }
}

/// Maps a video MIME type to its conventional file extension.
pub fn ext_from_mime_type(mime_type: &str) -> (r: Option<&str>)
    ensures
        match r {
            Some(e) => spec_ext_from_mime_type(mime_type@) == Some(e@),
            None => spec_ext_from_mime_type(mime_type@) is None,
        },
{
    if str_eq(mime_type, "video/mp4") {
        Some("mp4")
    } else if str_eq(mime_type, "video/quicktime") {
        Some("mov")
    } else if str_eq(mime_type, "video/x-msvideo") {
        Some("avi")
    } else if str_eq(mime_type, "video/x-flv") {
        Some("flv")
    } else if str_eq(mime_type, "video/x-matroska") {
        Some("mkv")
    } else if str_eq(mime_type, "video/x-ms-wmv") {
        Some("wmv")
    } else if str_eq(mime_type, "video/x-ms-asf") {
        Some("asf")
    } else if str_eq(mime_type, "video/x-m4v") {
        Some("m4v")
    } else if str_eq(mime_type, "video/3gpp") {
        Some("3gp")
    } else if str_eq(mime_type, "video/3gpp2") {
        Some("3g2")
    } else if str_eq(mime_type, "video/webm") {
        Some("webm")
    } else if str_eq(mime_type, "video/ogg") {
        Some("ogv")
    } else if str_eq(mime_type, "video/avi") {
        Some("avi")
    } else {
        None
    }
}

/// Error for a slice whose length does not match the requested array size.
#[derive(Debug)]
pub struct TryFromSliceError(());

} // verus!
