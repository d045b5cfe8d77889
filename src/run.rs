use vstd::prelude::*;

use crate::model::Video;

verus! {

/// The records of several playlists, one after the other.
pub open spec fn concat_all(parts: Seq<Seq<Video>>) -> Seq<Video>
    decreases parts.len(),
{
    if parts.len() == 0 {
        Seq::empty()
    } else {
        concat_all(parts.drop_last()) + parts.last()
    }
}

/// A sync of several playlists, taken one at a time in the order given.
/// The caller asks for the next playlist, syncs it, and hands its records
/// back; the run's records are those of each playlist in turn.
pub struct SyncRun {
    pub playlist_ids: Vec<String>,
    pub next: usize,
    pub videos: Vec<Video>,
    /// The records of each playlist synced so far, in order.
    pub synced: Ghost<Seq<Seq<Video>>>,
}

impl SyncRun {
    pub open spec fn wf(&self) -> bool {
        &&& self.next <= self.playlist_ids@.len()
        &&& self.synced@.len() == self.next
        &&& self.videos@ == concat_all(self.synced@)
    }

    /// A run over `playlist_ids` that has synced none of them yet.
    pub fn new(playlist_ids: Vec<String>) -> (r: SyncRun)
        ensures
            r.wf(),
            r.playlist_ids@ == playlist_ids@,
            r.next == 0,
            r.videos@ == Seq::<Video>::empty(),
    {
        SyncRun { playlist_ids, next: 0, videos: Vec::new(), synced: Ghost(Seq::empty()) }
    }

    /// The playlist to sync next, in the order given; `None` once all are done.
    pub fn next_playlist(&self) -> (r: Option<String>)
        requires
            self.wf(),
        ensures
            r is None <==> self.next == self.playlist_ids@.len(),
            r matches Some(id) ==> id == self.playlist_ids@[self.next as int],
    {
        if self.next < self.playlist_ids.len() {
            Some(self.playlist_ids[self.next].clone())
        } else {
            None
        }
    }

    /// Records the result of the playlist that `next_playlist` named: its
    /// records follow those of the playlists before it.
    pub fn finish_playlist(&mut self, videos: Vec<Video>)
        requires
            old(self).wf(),
            old(self).next < old(self).playlist_ids@.len(),
        ensures
            final(self).wf(),
            final(self).playlist_ids == old(self).playlist_ids,
            final(self).next == old(self).next + 1,
            final(self).synced@ == old(self).synced@.push(videos@),
            final(self).videos@ == old(self).videos@ + videos@,
    {
        let ghost before = self.synced@;
        let mut videos = videos;
        let ghost added = videos@;
        self.videos.append(&mut videos);
        let n = self.playlist_ids.len();
        assert(self.next < n);
        self.next = self.next + 1;
        self.synced = Ghost(before.push(added));
        assert(self.synced@.drop_last() =~= before);
    }

    /// Hands over the records of all playlists synced.
    pub fn into_videos(self) -> (r: Vec<Video>)
        ensures
            r@ == self.videos@,
    {
        self.videos
    }
}

/// A run over two playlists yields the records of the first, then those of
/// the second, whatever their sizes.
pub proof fn lemma_two_playlists_in_order(a: Seq<Video>, b: Seq<Video>)
    ensures
        concat_all(seq![a, b]) == a + b,
{
    let parts = seq![a, b];
    let first = seq![a];
    assert(parts.drop_last() =~= first);
    assert(first.drop_last() =~= Seq::<Seq<Video>>::empty());
    assert(concat_all(first) == concat_all(Seq::<Seq<Video>>::empty()) + a);
    assert(Seq::<Video>::empty() + a =~= a);
    assert(concat_all(parts) == concat_all(first) + b);
}

/// Splitting the playlists of a run in two: the records of the whole run
/// are those of the first part followed by those of the second.
pub proof fn lemma_runs_concatenate(first: Seq<Seq<Video>>, second: Seq<Seq<Video>>)
    ensures
        concat_all(first + second) == concat_all(first) + concat_all(second),
    decreases second.len(),
{
    if second.len() == 0 {
        assert(first + second =~= first);
        assert(concat_all(first) + Seq::<Video>::empty() =~= concat_all(first));
    } else {
        lemma_runs_concatenate(first, second.drop_last());
        assert((first + second).drop_last() =~= first + second.drop_last());
        assert((first + second).last() == second.last());
        assert(concat_all(first) + concat_all(second.drop_last()) + second.last() =~= concat_all(
            first,
        ) + (concat_all(second.drop_last()) + second.last()));
    }
}

} // verus!
