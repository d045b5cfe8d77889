use vstd::prelude::*;

use crate::error::SyncError;
use crate::model::{Thumbnail, Thumbnails, Video};

verus! {

/// `dir` and `name` joined by one `/`.
pub open spec fn joined(dir: Seq<char>, name: Seq<char>) -> Seq<char> {
    dir + seq!['/'] + name
}

/// `i` is the position of the last `/` in `url`.
pub open spec fn is_last_slash(url: Seq<char>, i: int) -> bool {
    &&& 0 <= i < url.len()
    &&& url[i] == '/'
    &&& forall|j: int| i < j < url.len() ==> url[j] != '/'
}

/// The file name a thumbnail is stored under: what follows the last `/` of
/// its URL; `None` when the URL has no `/` or ends with one.
pub open spec fn file_name_of(url: Seq<char>) -> Option<Seq<char>> {
    if exists|i: int| is_last_slash(url, i) {
        let i = choose|i: int| is_last_slash(url, i);
        if i + 1 < url.len() {
            Some(url.subrange(i + 1, url.len() as int))
        } else {
            None
        }
    } else {
        None
    }
}

/// Where the record of the video `video_id` is written under `videos_root`.
pub open spec fn record_path_of(videos_root: Seq<char>, video_id: Seq<char>) -> Seq<char> {
    joined(videos_root, video_id + seq!['.', 'j', 's', 'o', 'n'])
}

/// The thumbnail variants a video has, in a fixed order: default, high and
/// medium, then standard and maxres where present.
pub open spec fn present_thumbnails(t: Thumbnails) -> Seq<Thumbnail> {
    seq![t.default, t.high, t.medium] + match t.standard {
        Some(s) => seq![s],
        None => Seq::empty(),
    } + match t.maxres {
        Some(m) => seq![m],
        None => Seq::empty(),
    }
}

/// Every present variant's URL names a file.
pub open spec fn all_named(t: Thumbnails) -> bool {
    forall|k: int|
        0 <= k < present_thumbnails(t).len() ==> (#[trigger] file_name_of(
            present_thumbnails(t)[k].url@,
        )) is Some
}

/// One thumbnail to fetch and the file to write it to.
#[derive(Clone, Debug, PartialEq, Eq)]
pub struct Download {
    pub url: String,
    pub path: String,
}

/// What materializing a video's thumbnails takes: the directory to create,
/// then one download per present variant.
#[derive(Clone, Debug, PartialEq, Eq)]
pub struct ThumbnailPlan {
    pub dir: String,
    pub downloads: Vec<Download>,
}

/// The download of `t` into `dir`.
pub open spec fn download_matches(d: Download, dir: Seq<char>, t: Thumbnail) -> bool {
    d.url@ == t.url@ && d.path@ == joined(dir, file_name_of(t.url@)->0)
}

proof fn lemma_last_slash_unique(url: Seq<char>, i: int, k: int)
    requires
        is_last_slash(url, i),
        is_last_slash(url, k),
    ensures
        i == k,
{
}

/// The file name of a thumbnail URL: the text after its last `/`. Fails with
/// `MalformedUrl` when the URL has no `/`, or nothing after the last one.
pub fn thumbnail_file_name(url: &str) -> (r: Result<String, SyncError>)
    ensures
        match r {
            Ok(name) => file_name_of(url@) == Some(name@),
            Err(e) => file_name_of(url@) is None && e == SyncError::MalformedUrl,
        },
{
    let n = url.unicode_len();
    let mut i: usize = n;
    while i > 0
        invariant
            i <= n,
            n == url@.len(),
            forall|j: int| i <= j < n ==> url@[j] != '/',
        decreases i,
    {
        if url.get_char(i - 1) == '/' {
            let ghost k = i - 1;
            assert(is_last_slash(url@, k));
            proof {
                let c = choose|c: int| is_last_slash(url@, c);
                lemma_last_slash_unique(url@, k, c);
            }
            if i == n {
                return Err(SyncError::MalformedUrl);
            }
            return Ok(String::from_str(url.substring_char(i, n)));
        }
        i = i - 1;
    }
    assert(!exists|k: int| is_last_slash(url@, k));
    Err(SyncError::MalformedUrl)
}

/// `dir` and `name` joined by one `/`.
pub fn join_path(dir: &str, name: &str) -> (r: String)
    ensures
        r@ == joined(dir@, name@),
{
    let mut p = String::from_str(dir);
    let slash = "/";
    proof {
        reveal_strlit("/");
    }
    p.append(slash);
    p.append(name);
    p
}

/// Where the record of `video_id` is written: `<videos_root>/<video_id>.json`.
pub fn record_path(videos_root: &str, video_id: &str) -> (r: String)
    ensures
        r@ == record_path_of(videos_root@, video_id@),
{
    let mut file = String::from_str(video_id);
    let ext = ".json";
    proof {
        reveal_strlit(".json");
    }
    file.append(ext);
    join_path(videos_root, file.as_str())
}

fn push_download(downloads: &mut Vec<Download>, dir: &String, t: &Thumbnail) -> (r: Result<
    (),
    SyncError,
>)
    ensures
        r is Ok <==> file_name_of(t.url@) is Some,
        r is Ok ==> final(downloads)@.len() == old(downloads)@.len() + 1 && final(downloads)@.drop_last()
            == old(downloads)@ && download_matches(final(downloads)@.last(), dir@, *t),
        r is Err ==> r == Err::<(), SyncError>(SyncError::MalformedUrl) && final(downloads)@ == old(
            downloads,
        )@,
{
    let name = thumbnail_file_name(t.url.as_str())?;
    let path = join_path(dir.as_str(), name.as_str());
    downloads.push(Download { url: t.url.clone(), path });
    assert(final(downloads)@.drop_last() =~= old(downloads)@);
    Ok(())
}

/// The thumbnails of `video` to fetch, each with its file under
/// `<thumbnails_root>/<video_id>/`, named by the URL's last path segment.
/// Fails with `MalformedUrl` exactly when some present variant's URL names
/// no file.
pub fn thumbnail_plan(thumbnails_root: &str, video: &Video) -> (r: Result<ThumbnailPlan, SyncError>)
    ensures
        r is Ok <==> all_named(video.thumbnails),
        r is Err ==> r->Err_0 == SyncError::MalformedUrl,
        r matches Ok(plan) ==> {
            &&& plan.dir@ == joined(thumbnails_root@, video.video_id@)
            &&& plan.downloads@.len() == present_thumbnails(video.thumbnails).len()
            &&& forall|k: int|
                0 <= k < plan.downloads@.len() ==> download_matches(
                    #[trigger] plan.downloads@[k],
                    plan.dir@,
                    present_thumbnails(video.thumbnails)[k],
                )
        },
{
    let dir = join_path(thumbnails_root, video.video_id.as_str());
    let t = &video.thumbnails;
    let ghost present = present_thumbnails(*t);
    let mut downloads: Vec<Download> = Vec::new();
    let r0 = push_download(&mut downloads, &dir, &t.default);
    if r0.is_err() {
        assert(file_name_of(present[0].url@) is None);
        return Err(SyncError::MalformedUrl);
    }
    let ghost d0 = downloads@;
    let r1 = push_download(&mut downloads, &dir, &t.high);
    if r1.is_err() {
        assert(file_name_of(present[1].url@) is None);
        return Err(SyncError::MalformedUrl);
    }
    let ghost d1 = downloads@;
    let r2 = push_download(&mut downloads, &dir, &t.medium);
    if r2.is_err() {
        assert(file_name_of(present[2].url@) is None);
        return Err(SyncError::MalformedUrl);
    }
    let ghost d2 = downloads@;
    assert(d2[0] == d1[0] && d1[0] == d0[0]);
    assert(d2[1] == d1[1]);
    let ghost mut extra: int = 0;
    if let Some(s) = &t.standard {
        let rs = push_download(&mut downloads, &dir, s);
        if rs.is_err() {
            assert(file_name_of(present[3].url@) is None);
            return Err(SyncError::MalformedUrl);
        }
        proof {
            extra = 1;
        }
    }
    let ghost d3 = downloads@;
    assert(forall|k: int| 0 <= k < 3 ==> d3[k] == d2[k]);
    if let Some(m) = &t.maxres {
        let rm = push_download(&mut downloads, &dir, m);
        if rm.is_err() {
            assert(file_name_of(present[3 + extra].url@) is None);
            return Err(SyncError::MalformedUrl);
        }
    }
    let ghost d4 = downloads@;
    assert(forall|k: int| 0 <= k < d3.len() ==> d4[k] == d3[k]);
    assert(present.len() == downloads@.len());
    assert forall|k: int| 0 <= k < present.len() implies (#[trigger] file_name_of(
        present[k].url@,
    )) is Some by {
        assert(download_matches(downloads@[k], dir@, present[k]));
    }
    Ok(ThumbnailPlan { dir, downloads })
}

} // verus!
