use vstd::prelude::*;

verus! {

/// A field that a listing response must carry and may lack.
#[derive(Clone, Copy, Debug, PartialEq, Eq, Structural)]
pub enum ResponseField {
    Items,
    Title,
    Description,
    PublishedAt,
    Thumbnails,
    DefaultThumbnail,
    HighThumbnail,
    MediumThumbnail,
    ThumbnailUrl,
    VideoId,
}

/// Why a sync, or one step of it, failed.
#[derive(Clone, Copy, Debug, PartialEq, Eq, Structural)]
pub enum SyncError {
    /// A listing request or an image fetch failed.
    Transport,
    /// A listing response lacks a field that every kept entry must have.
    MalformedResponse(ResponseField),
    /// A thumbnail URL has no file name after its last `/`.
    MalformedUrl,
    /// A directory could not be created or a file could not be written.
    Io,
}

} // verus!
