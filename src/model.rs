use vstd::prelude::*;

verus! {

/// One thumbnail image of a video: where it is served and its size, when known.
#[derive(Clone, Debug, PartialEq, Eq)]
pub struct Thumbnail {
    pub url: String,
    pub width: Option<u32>,
    pub height: Option<u32>,
}

/// The thumbnail variants of a video. The first three are always present for
/// an available video; the larger two depend on the source resolution.
#[derive(Clone, Debug, PartialEq, Eq)]
pub struct Thumbnails {
    pub default: Thumbnail,
    pub high: Thumbnail,
    pub medium: Thumbnail,
    pub standard: Option<Thumbnail>,
    pub maxres: Option<Thumbnail>,
}

/// The durable metadata of one playlist entry, keyed by `video_id`.
/// Timestamps are kept as the RFC 3339 text the listing service reports.
#[derive(Clone, Debug, PartialEq, Eq)]
pub struct Video {
    pub video_id: String,
    pub title: String,
    pub description: String,
    pub published_at: String,
    pub video_published_at: Option<String>,
    pub start_at: Option<String>,
    pub end_at: Option<String>,
    pub thumbnails: Thumbnails,
}

} // verus!
