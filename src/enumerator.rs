use vstd::prelude::*;

use crate::error::{ResponseField, SyncError};
use crate::listing::{page_items_to_videos, page_videos, RawPage};
use crate::model::Video;

verus! {

/// Entries requested per listing page: the most the service hands out.
pub const PAGE_SIZE: u32 = 50;

/// One listing request for the caller to perform: the page of `playlist_id`
/// that `page_token` designates (the first page when it is `None`), holding
/// at most `max_results` entries with their snippet, content details, id
/// and status.
#[derive(Clone, Debug, PartialEq, Eq)]
pub struct PageRequest {
    pub playlist_id: String,
    pub page_token: Option<String>,
    pub max_results: u32,
}

/// The records that a run of accepted pages yields, page after page.
pub open spec fn all_videos(pages: Seq<RawPage>) -> Seq<Video>
    decreases pages.len(),
{
    if pages.len() == 0 {
        Seq::empty()
    } else {
        all_videos(pages.drop_last()) + page_videos(pages.last().items->0@)->Ok_0
    }
}

/// The cursor to send next after a run of accepted pages.
pub open spec fn cursor_after(pages: Seq<RawPage>) -> Option<String> {
    if pages.len() == 0 {
        None
    } else {
        pages.last().next_page_token
    }
}

/// A page that lists its items and maps without error.
pub open spec fn page_accepted(page: RawPage) -> bool {
    page.items is Some && page_videos(page.items->0@) is Ok
}

/// Walks a playlist listing page by page. The caller asks it for the next
/// request, performs that request, and hands the page back, until no
/// request is left. The records come out in playlist order.
pub struct Enumerator {
    pub playlist_id: String,
    pub next_page_token: Option<String>,
    pub finished: bool,
    pub failed: bool,
    pub videos: Vec<Video>,
    /// The pages accepted so far, in the order they came.
    pub pages: Ghost<Seq<RawPage>>,
}

impl Enumerator {
    pub open spec fn wf(&self) -> bool {
        &&& forall|k: int| 0 <= k < self.pages@.len() ==> page_accepted(#[trigger] self.pages@[k])
        &&& forall|k: int|
            0 <= k < self.pages@.len() - 1 ==> (#[trigger] self.pages@[k]).next_page_token is Some
        &&& self.videos@ == all_videos(self.pages@)
        &&& self.next_page_token == cursor_after(self.pages@)
        &&& self.finished == (self.failed || (self.pages@.len() > 0
            && self.pages@.last().next_page_token is None))
    }

    /// Starts the listing of `playlist_id`, before its first page.
    pub fn new(playlist_id: String) -> (r: Enumerator)
        ensures
            r.wf(),
            r.playlist_id == playlist_id,
            r.pages@ == Seq::<RawPage>::empty(),
            !r.finished,
            !r.failed,
    {
        Enumerator {
            playlist_id,
            next_page_token: None,
            finished: false,
            failed: false,
            videos: Vec::new(),
            pages: Ghost(Seq::empty()),
        }
    }

    /// The request to perform next: `None` once the listing is over, else the
    /// playlist's page at the cursor of the last accepted page (the first
    /// page at the start), at most `PAGE_SIZE` entries.
    pub fn next_request(&self) -> (r: Option<PageRequest>)
        requires
            self.wf(),
        ensures
            r is None <==> self.finished,
            r matches Some(q) ==> q.playlist_id == self.playlist_id && q.page_token == cursor_after(
                self.pages@,
            ) && q.max_results == PAGE_SIZE,
    {
        if self.finished {
            None
        } else {
            let page_token = match &self.next_page_token {
                Some(t) => Some(t.clone()),
                None => None,
            };
            Some(PageRequest { playlist_id: self.playlist_id.clone(), page_token, max_results: PAGE_SIZE })
        }
    }

    /// Takes in the page that the last request returned. A page that lists
    /// its items and maps without error is accepted: its records follow the
    /// earlier ones and its cursor decides whether another page is asked
    /// for. Otherwise the listing fails with the page's error and stops.
    pub fn on_page(&mut self, page: RawPage) -> (r: Result<(), SyncError>)
        requires
            old(self).wf(),
            !old(self).finished,
        ensures
            final(self).wf(),
            final(self).playlist_id == old(self).playlist_id,
            r is Ok <==> page_accepted(page),
            r is Ok ==> final(self).pages@ == old(self).pages@.push(page) && final(self).videos@
                == old(self).videos@ + page_videos(page.items->0@)->Ok_0 && final(self).finished
                == page.next_page_token is None && !final(self).failed,
            r is Err ==> final(self).pages@ == old(self).pages@ && final(self).videos@ == old(
                self,
            ).videos@ && final(self).finished && final(self).failed,
            page.items is None ==> r == Err::<(), SyncError>(
                SyncError::MalformedResponse(ResponseField::Items),
            ),
            page.items is Some && page_videos(page.items->0@) is Err ==> r == Err::<(), SyncError>(
                page_videos(page.items->0@)->Err_0,
            ),
    {
        let ghost whole = page;
        let RawPage { items, next_page_token } = page;
        let items = match items {
            Some(items) => items,
            None => {
                self.finished = true;
                self.failed = true;
                return Err(SyncError::MalformedResponse(ResponseField::Items));
            },
        };
        match page_items_to_videos(&items) {
            Err(e) => {
                self.finished = true;
                self.failed = true;
                Err(e)
            },
            Ok(mut vs) => {
                let ghost before = self.pages@;
                self.videos.append(&mut vs);
                self.finished = next_page_token.is_none();
                self.next_page_token = next_page_token;
                self.pages = Ghost(before.push(whole));
                assert(self.pages@.drop_last() =~= before);
                assert forall|k: int| 0 <= k < self.pages@.len() - 1 implies (
                #[trigger] self.pages@[k]).next_page_token is Some by {
                    assert(self.pages@[k] == before[k]);
                }
                Ok(())
            },
        }
    }

    /// The records gathered so far.
    pub fn videos(&self) -> (r: &Vec<Video>)
        ensures
            r@ == self.videos@,
    {
        &self.videos
    }

    /// Hands over the records gathered.
    pub fn into_videos(self) -> (r: Vec<Video>)
        ensures
            r@ == self.videos@,
    {
        self.videos
    }
}

/// Listing the same playlist twice over the same pages gives the same
/// records and the same next request: a re-run recreates what the first run
/// produced, nothing more.
pub proof fn lemma_same_pages_same_result(a: Enumerator, b: Enumerator)
    requires
        a.wf(),
        b.wf(),
        a.playlist_id == b.playlist_id,
        a.pages@ == b.pages@,
        !a.failed,
        !b.failed,
    ensures
        a.videos@ == b.videos@,
        a.next_page_token == b.next_page_token,
        a.finished == b.finished,
{
}

} // verus!
