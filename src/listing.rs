use vstd::prelude::*;

use crate::availability::{is_available_status, is_video_available, opt_view};
use crate::error::{ResponseField, SyncError};
use crate::model::{Thumbnail, Thumbnails, Video};

verus! {

/// A thumbnail as the listing service reports it.
#[derive(Clone, Debug, PartialEq, Eq)]
pub struct RawThumbnail {
    pub url: Option<String>,
    pub width: Option<u32>,
    pub height: Option<u32>,
}

/// The thumbnail variants as the listing service reports them.
#[derive(Clone, Debug, PartialEq, Eq)]
pub struct RawThumbnails {
    pub default: Option<RawThumbnail>,
    pub high: Option<RawThumbnail>,
    pub medium: Option<RawThumbnail>,
    pub standard: Option<RawThumbnail>,
    pub maxres: Option<RawThumbnail>,
}

/// One playlist entry as the listing service reports it: its privacy status,
/// its snippet fields and its content-details fields, each possibly absent.
#[derive(Clone, Debug, PartialEq, Eq)]
pub struct RawItem {
    pub privacy_status: Option<String>,
    pub title: Option<String>,
    pub description: Option<String>,
    pub published_at: Option<String>,
    pub thumbnails: Option<RawThumbnails>,
    pub video_id: Option<String>,
    pub video_published_at: Option<String>,
    pub start_at: Option<String>,
    pub end_at: Option<String>,
}

/// One page of a playlist listing and the cursor that continues it.
#[derive(Clone, Debug, PartialEq, Eq)]
pub struct RawPage {
    pub items: Option<Vec<RawItem>>,
    pub next_page_token: Option<String>,
}

pub open spec fn item_is_available(item: RawItem) -> bool {
    is_available_status(opt_view(item.privacy_status))
}

/// A reported thumbnail lacks its URL.
pub open spec fn lacks_url(t: Option<RawThumbnail>) -> bool {
    t is Some && t->0.url is None
}

/// The first field, in a fixed order, that keeps `item` from becoming a
/// `Video`; `None` when the item is complete.
pub open spec fn missing_field(item: RawItem) -> Option<ResponseField> {
    if item.title is None {
        Some(ResponseField::Title)
    } else if item.description is None {
        Some(ResponseField::Description)
    } else if item.published_at is None {
        Some(ResponseField::PublishedAt)
    } else if item.thumbnails is None {
        Some(ResponseField::Thumbnails)
    } else if item.thumbnails->0.default is None {
        Some(ResponseField::DefaultThumbnail)
    } else if item.thumbnails->0.high is None {
        Some(ResponseField::HighThumbnail)
    } else if item.thumbnails->0.medium is None {
        Some(ResponseField::MediumThumbnail)
    } else if lacks_url(item.thumbnails->0.default) || lacks_url(item.thumbnails->0.high)
        || lacks_url(item.thumbnails->0.medium) || lacks_url(item.thumbnails->0.standard)
        || lacks_url(item.thumbnails->0.maxres) {
        Some(ResponseField::ThumbnailUrl)
    } else if item.video_id is None {
        Some(ResponseField::VideoId)
    } else {
        None
    }
}

pub open spec fn thumbnail_of(t: RawThumbnail) -> Thumbnail {
    Thumbnail { url: t.url->0, width: t.width, height: t.height }
}

pub open spec fn opt_thumbnail_of(t: Option<RawThumbnail>) -> Option<Thumbnail> {
    match t {
        Some(t) => Some(thumbnail_of(t)),
        None => None,
    }
}

/// The record of a complete item: snippet fields and thumbnails from the
/// snippet, id and timing fields from the content details.
pub open spec fn video_of(item: RawItem) -> Video {
    let t = item.thumbnails->0;
    Video {
        video_id: item.video_id->0,
        title: item.title->0,
        description: item.description->0,
        published_at: item.published_at->0,
        video_published_at: item.video_published_at,
        start_at: item.start_at,
        end_at: item.end_at,
        thumbnails: Thumbnails {
            default: thumbnail_of(t.default->0),
            high: thumbnail_of(t.high->0),
            medium: thumbnail_of(t.medium->0),
            standard: opt_thumbnail_of(t.standard),
            maxres: opt_thumbnail_of(t.maxres),
        },
    }
}

/// What mapping one item gives: its record, or the first field it lacks.
pub open spec fn mapped(item: RawItem) -> Result<Video, SyncError> {
    match missing_field(item) {
        Some(f) => Err(SyncError::MalformedResponse(f)),
        None => Ok(video_of(item)),
    }
}

/// The records of a page's items: the available items mapped in order,
/// or the error of the first available item that cannot be mapped.
pub open spec fn page_videos(items: Seq<RawItem>) -> Result<Seq<Video>, SyncError>
    decreases items.len(),
{
    if items.len() == 0 {
        Ok(Seq::empty())
    } else {
        match page_videos(items.drop_last()) {
            Err(e) => Err(e),
            Ok(vs) => if item_is_available(items.last()) {
                match mapped(items.last()) {
                    Ok(v) => Ok(vs.push(v)),
                    Err(e) => Err(e),
                }
            } else {
                Ok(vs)
            },
        }
    }
}

fn copy_text(s: &Option<String>) -> (r: Option<String>)
    ensures
        r == *s,
{
    match s {
        Some(v) => Some(v.clone()),
        None => None,
    }
}

fn url_missing(t: &Option<RawThumbnail>) -> (r: bool)
    ensures
        r == lacks_url(*t),
{
    match t {
        Some(t) => t.url.is_none(),
        None => false,
    }
}

fn convert_thumbnail(t: &RawThumbnail) -> (r: Thumbnail)
    requires
        t.url is Some,
    ensures
        r == thumbnail_of(*t),
{
    Thumbnail { url: copy_text(&t.url).unwrap(), width: t.width, height: t.height }
}

fn convert_opt_thumbnail(t: &Option<RawThumbnail>) -> (r: Option<Thumbnail>)
    requires
        !lacks_url(*t),
    ensures
        r == opt_thumbnail_of(*t),
{
    match t {
        Some(t) => Some(convert_thumbnail(t)),
        None => None,
    }
}

/// Maps one listing item to its record, or names the first field it lacks.
pub fn map_item(item: &RawItem) -> (r: Result<Video, SyncError>)
    ensures
        r == mapped(*item),
{
    if item.title.is_none() {
        return Err(SyncError::MalformedResponse(ResponseField::Title));
    }
    if item.description.is_none() {
        return Err(SyncError::MalformedResponse(ResponseField::Description));
    }
    if item.published_at.is_none() {
        return Err(SyncError::MalformedResponse(ResponseField::PublishedAt));
    }
    let t = match &item.thumbnails {
        Some(t) => t,
        None => {
            return Err(SyncError::MalformedResponse(ResponseField::Thumbnails));
        },
    };
    if t.default.is_none() {
        return Err(SyncError::MalformedResponse(ResponseField::DefaultThumbnail));
    }
    if t.high.is_none() {
        return Err(SyncError::MalformedResponse(ResponseField::HighThumbnail));
    }
    if t.medium.is_none() {
        return Err(SyncError::MalformedResponse(ResponseField::MediumThumbnail));
    }
    if url_missing(&t.default) || url_missing(&t.high) || url_missing(&t.medium) || url_missing(
        &t.standard,
    ) || url_missing(&t.maxres) {
        return Err(SyncError::MalformedResponse(ResponseField::ThumbnailUrl));
    }
    if item.video_id.is_none() {
        return Err(SyncError::MalformedResponse(ResponseField::VideoId));
    }
    let thumbnails = Thumbnails {
        default: convert_opt_thumbnail(&t.default).unwrap(),
        high: convert_opt_thumbnail(&t.high).unwrap(),
        medium: convert_opt_thumbnail(&t.medium).unwrap(),
        standard: convert_opt_thumbnail(&t.standard),
        maxres: convert_opt_thumbnail(&t.maxres),
    };
    Ok(
        Video {
            video_id: copy_text(&item.video_id).unwrap(),
            title: copy_text(&item.title).unwrap(),
            description: copy_text(&item.description).unwrap(),
            published_at: copy_text(&item.published_at).unwrap(),
            video_published_at: copy_text(&item.video_published_at),
            start_at: copy_text(&item.start_at),
            end_at: copy_text(&item.end_at),
            thumbnails,
        },
    )
}

/// Keeps the available items of a page, in order, and maps each to its
/// record; fails on the first available item that cannot be mapped.
/// Items that are not available are dropped without being looked at.
pub fn page_items_to_videos(items: &Vec<RawItem>) -> (r: Result<Vec<Video>, SyncError>)
    ensures
        match r {
            Ok(vs) => page_videos(items@) == Ok::<Seq<Video>, SyncError>(vs@),
            Err(e) => page_videos(items@) == Err::<Seq<Video>, SyncError>(e),
        },
{
    let mut out: Vec<Video> = Vec::new();
    let n = items.len();
    let mut i: usize = 0;
    while i < n
        invariant
            n == items@.len(),
            i <= n,
            page_videos(items@.take(i as int)) == Ok::<Seq<Video>, SyncError>(out@),
        decreases n - i,
    {
        let item = &items[i];
        assert(items@.take(i as int + 1).drop_last() =~= items@.take(i as int));
        assert(items@.take(i as int + 1).last() == items@[i as int]);
        if is_video_available(&item.privacy_status) {
            match map_item(item) {
                Ok(v) => out.push(v),
                Err(e) => {
                    proof {
                        lemma_page_error_persists(items@, i as int + 1);
                    }
                    return Err(e);
                },
            }
        }
        i = i + 1;
    }
    assert(items@.take(n as int) =~= items@);
    Ok(out)
}

/// Once a prefix of a page fails, the whole page fails with the same error.
proof fn lemma_page_error_persists(items: Seq<RawItem>, k: int)
    requires
        0 <= k <= items.len(),
        page_videos(items.take(k)) is Err,
    ensures
        page_videos(items) == page_videos(items.take(k)),
    decreases items.len() - k,
{
    if k < items.len() {
        assert(items.take(k + 1).drop_last() =~= items.take(k));
        lemma_page_error_persists(items, k + 1);
    } else {
        assert(items.take(k) =~= items);
    }
}

/// Filtering keeps exactly the available entries of a page, in their
/// relative order: when a page maps without error, its records are the
/// available items, filtered in order, each mapped to its record.
pub proof fn lemma_page_keeps_available_in_order(items: Seq<RawItem>)
    requires
        page_videos(items) is Ok,
    ensures
        page_videos(items)->Ok_0 == items.filter(|it: RawItem| item_is_available(it)).map_values(
            |it: RawItem| video_of(it),
        ),
    decreases items.len(),
{
    let avail = |it: RawItem| item_is_available(it);
    let rec = |it: RawItem| video_of(it);
    if items.len() > 0 {
        lemma_page_keeps_available_in_order(items.drop_last());
        let kept = items.drop_last().filter(avail);
        reveal(Seq::filter);
        assert(items.filter(avail) == (if avail(items.last()) {
            kept.push(items.last())
        } else {
            kept
        }));
        if avail(items.last()) {
            assert(mapped(items.last()) == Ok::<Video, SyncError>(video_of(items.last())));
            assert(kept.push(items.last()).map_values(rec) =~= kept.map_values(rec).push(
                rec(items.last()),
            ));
        }
    } else {
        reveal(Seq::filter);
        assert(items.filter(avail).map_values(rec) =~= Seq::<Video>::empty());
    }
}

} // verus!
