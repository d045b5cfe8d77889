use vstd::prelude::*;

verus! {

/// A privacy status under which a playlist entry can be mirrored.
pub open spec fn is_available_status(status: Option<Seq<char>>) -> bool {
    match status {
        Some(s) => s == "public"@ || s == "unlisted"@,
        None => false,
    }
}

/// Lifts an optional string to its optional character sequence.
pub open spec fn opt_view(s: Option<String>) -> Option<Seq<char>> {
    match s {
        Some(v) => Some(v@),
        None => None,
    }
}

/// Whether an entry with this privacy status is kept: exactly when the
/// status is `"public"` or `"unlisted"`; absent or any other value is not.
pub fn is_video_available(privacy_status: &Option<String>) -> (r: bool)
    ensures
        r == is_available_status(opt_view(*privacy_status)),
{
    match privacy_status {
        Some(s) => {
            let public = String::from_str("public");
            let unlisted = String::from_str("unlisted");
            *s == public || *s == unlisted
        },
        None => false,
    }
}

} // verus!
