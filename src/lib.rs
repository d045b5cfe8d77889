//! Mirrors remote video playlists to local storage.
//!
//! The library holds the verified decisions of a playlist sync: which listed
//! items are kept, how a listing item becomes a `Video` record, when paging
//! stops, and where each record and thumbnail is written. Talking to the
//! listing service, fetching images and touching the disk are left to the
//! caller, which hands the results back as plain values.
pub mod availability;
pub mod enumerator;
pub mod error;
pub mod listing;
pub mod model;
pub mod paths;
pub mod run;

pub use availability::{is_available_status, is_video_available};
pub use enumerator::{Enumerator, PageRequest, PAGE_SIZE};
pub use error::{ResponseField, SyncError};
pub use listing::{map_item, page_items_to_videos, RawItem, RawPage, RawThumbnail, RawThumbnails};
pub use model::{Thumbnail, Thumbnails, Video};
pub use paths::{
    join_path, record_path, thumbnail_file_name, thumbnail_plan, Download, ThumbnailPlan,
};
pub use run::SyncRun;
