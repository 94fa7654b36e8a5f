use vstd::prelude::*;
use std::collections::VecDeque;
use crate::strutil::str_eq;

verus! {

/// One entry of a status snapshot: a URL together with its state label,
/// `"active"` or `"queued"`.
pub struct DownloadItem {
    pub url: String,
    pub status: String,
}

/// Read-only point-in-time view of the queue and the active set: the counts
/// and one entry per URL, active entries first, then queued entries in FIFO
/// order.
pub struct DownloadStatus {
    pub active: usize,
    pub queued: usize,
    pub downloads: Vec<DownloadItem>,
}

/// The job queue and admission controller: pending URLs in FIFO order, and
/// the set of URLs currently executing. No URL ever appears twice across the
/// two containers.
pub struct DownloadQueue {
    pub queue: VecDeque<String>,
    pub active: Vec<String>,
}

impl DownloadQueue {
    /// The pending URLs, head (next to be admitted) first.
    pub open spec fn queue_urls(self) -> Seq<Seq<char>> {
        self.queue@.map_values(|s: String| s@)
    }

    /// The URLs of the jobs currently executing.
    pub open spec fn active_urls(self) -> Seq<Seq<char>> {
        self.active@.map_values(|s: String| s@)
    }

    /// A URL is pending or executing.
    pub open spec fn holds_url(self, url: Seq<char>) -> bool {
        self.queue_urls().contains(url) || self.active_urls().contains(url)
    }

    /// Well-formedness: no URL appears more than once across the queue and
    /// the active set.
    pub open spec fn wf(self) -> bool {
        &&& self.queue_urls().no_duplicates()
        &&& self.active_urls().no_duplicates()
        &&& self.queue_urls().disjoint(self.active_urls())
    }

    /// An empty queue and an empty active set.
    pub fn new() -> (q: Self)
        ensures
            q.queue_urls() == Seq::<Seq<char>>::empty(),
            q.active_urls() == Seq::<Seq<char>>::empty(),
            q.wf(),
    {
        let q = DownloadQueue { queue: VecDeque::new(), active: Vec::new() };
        proof {
            assert(q.queue_urls() =~= Seq::<Seq<char>>::empty());
            assert(q.active_urls() =~= Seq::<Seq<char>>::empty());
        }
        q
    }

    /// Whether `url` is currently pending in the queue.
    fn queue_contains(&self, url: &String) -> (r: bool)
        ensures
            r == self.queue_urls().contains(url@),
    {
        let n = self.queue.len();
        let mut i: usize = 0;
        while i < n
            invariant
                n == self.queue@.len(),
                0 <= i <= n,
                forall|j: int| 0 <= j < i ==> self.queue_urls()[j] != url@,
            decreases n - i,
        {
            if self.queue[i] == *url {
                proof {
                    assert(self.queue_urls()[i as int] == url@);
                }
                return true;
            }
            i = i + 1;
        }
        false
    }

    /// Whether `url` is currently in the active set.
    fn active_contains(&self, url: &String) -> (r: bool)
        ensures
            r == self.active_urls().contains(url@),
    {
        let n = self.active.len();
        let mut i: usize = 0;
        while i < n
            invariant
                n == self.active@.len(),
                0 <= i <= n,
                forall|j: int| 0 <= j < i ==> self.active_urls()[j] != url@,
            decreases n - i,
        {
            if self.active[i] == *url {
                proof {
                    assert(self.active_urls()[i as int] == url@);
                }
                return true;
            }
            i = i + 1;
        }
        false
    }

    /// Appends `url` to the tail of the queue unless it is already pending
    /// or executing; returns whether it was added.
    pub fn add(&mut self, url: String) -> (added: bool)
        requires
            old(self).wf(),
        ensures
            final(self).wf(),
            added == !old(self).holds_url(url@),
            added ==> final(self).queue_urls() == old(self).queue_urls().push(url@)
                && final(self).active_urls() == old(self).active_urls(),
            !added ==> *final(self) == *old(self),
    {
        if self.queue_contains(&url) || self.active_contains(&url) {
            return false;
        }
        let ghost pre = *self;
        let ghost u = url@;
        self.queue.push_back(url);
        proof {
            assert(self.queue_urls() =~= pre.queue_urls().push(u));
            assert(self.active_urls() =~= pre.active_urls());
            assert forall|i: int, j: int|
                0 <= i < self.queue_urls().len() && 0 <= j < self.queue_urls().len() && i != j
                implies self.queue_urls()[i] != self.queue_urls()[j] by {
                if i < pre.queue_urls().len() && j < pre.queue_urls().len() {
                    assert(pre.queue_urls()[i] != pre.queue_urls()[j]);
                } else if i < pre.queue_urls().len() {
                    assert(pre.queue_urls().contains(pre.queue_urls()[i]));
                } else if j < pre.queue_urls().len() {
                    assert(pre.queue_urls().contains(pre.queue_urls()[j]));
                }
            }
            assert forall|i: int, j: int|
                0 <= i < self.queue_urls().len() && 0 <= j < self.active_urls().len()
                implies self.queue_urls()[i] != self.active_urls()[j] by {
                if i < pre.queue_urls().len() {
                    assert(pre.queue_urls()[i] != pre.active_urls()[j]);
                } else {
                    assert(pre.active_urls().contains(pre.active_urls()[j]));
                }
            }
        }
        true
    }

    /// Pops the head of the queue, if any. The popped URL is in neither
    /// container afterwards; the caller marks it active.
    pub fn get_next(&mut self) -> (r: Option<String>)
        requires
            old(self).wf(),
        ensures
            final(self).wf(),
            final(self).active_urls() == old(self).active_urls(),
            old(self).queue_urls().len() == 0 ==> r is None
                && final(self).queue_urls() == old(self).queue_urls(),
            old(self).queue_urls().len() > 0 ==> (r matches Some(u)
                && u@ == old(self).queue_urls()[0]
                && final(self).queue_urls() == old(self).queue_urls().drop_first()
                && !final(self).holds_url(u@)),
    {
        let ghost pre = *self;
        let r = self.queue.pop_front();
        proof {
            assert(self.active_urls() =~= pre.active_urls());
            if pre.queue_urls().len() > 0 {
                assert(self.queue_urls() =~= pre.queue_urls().drop_first());
                let u = pre.queue_urls()[0];
                assert forall|j: int| 0 <= j < self.queue_urls().len()
                    implies self.queue_urls()[j] != u by {
                    assert(pre.queue_urls()[j + 1] != pre.queue_urls()[0]);
                }
                assert(!self.queue_urls().contains(u));
                assert forall|j: int| 0 <= j < self.active_urls().len()
                    implies self.active_urls()[j] != u by {
                    assert(pre.queue_urls()[0] != pre.active_urls()[j]);
                }
                assert(!self.active_urls().contains(u));
                assert forall|i: int, j: int|
                    0 <= i < self.queue_urls().len() && 0 <= j < self.active_urls().len()
                    implies self.queue_urls()[i] != self.active_urls()[j] by {
                    assert(pre.queue_urls()[i + 1] != pre.active_urls()[j]);
                }
            }
        }
        r
    }

    /// Whether one more job may start under the given concurrency limit.
    pub fn can_start(&self, max_concurrent: usize) -> (r: bool)
        ensures
            r == (self.active_urls().len() < max_concurrent),
    {
        self.active.len() < max_concurrent
    }

    /// Records `url` as executing. The caller must have taken it out of the
    /// queue first (or otherwise know it is in neither container).
    pub fn mark_active(&mut self, url: String)
        requires
            old(self).wf(),
            !old(self).holds_url(url@),
        ensures
            final(self).wf(),
            final(self).queue_urls() == old(self).queue_urls(),
            final(self).active_urls() == old(self).active_urls().push(url@),
    {
        let ghost pre = *self;
        let ghost u = url@;
        self.active.push(url);
        proof {
            assert(self.queue_urls() =~= pre.queue_urls());
            assert(self.active_urls() =~= pre.active_urls().push(u));
            assert forall|i: int, j: int|
                0 <= i < self.active_urls().len() && 0 <= j < self.active_urls().len() && i != j
                implies self.active_urls()[i] != self.active_urls()[j] by {
                if i < pre.active_urls().len() && j < pre.active_urls().len() {
                    assert(pre.active_urls()[i] != pre.active_urls()[j]);
                } else if i < pre.active_urls().len() {
                    assert(pre.active_urls().contains(pre.active_urls()[i]));
                } else if j < pre.active_urls().len() {
                    assert(pre.active_urls().contains(pre.active_urls()[j]));
                }
            }
            assert forall|i: int, j: int|
                0 <= i < self.queue_urls().len() && 0 <= j < self.active_urls().len()
                implies self.queue_urls()[i] != self.active_urls()[j] by {
                if j < pre.active_urls().len() {
                    assert(pre.queue_urls()[i] != pre.active_urls()[j]);
                } else {
                    assert(pre.queue_urls().contains(pre.queue_urls()[i]));
                }
            }
        }
    }

    /// Removes `url` from the active set; does nothing if it is not there.
    pub fn remove_active(&mut self, url: &str)
        requires
            old(self).wf(),
        ensures
            final(self).wf(),
            final(self).queue_urls() == old(self).queue_urls(),
            !final(self).active_urls().contains(url@),
            old(self).active_urls().contains(url@) ==> final(self).active_urls()
                == old(self).active_urls().remove(old(self).active_urls().index_of(url@)),
            !old(self).active_urls().contains(url@) ==> *final(self) == *old(self),
    {
        let ghost pre = *self;
        let n = self.active.len();
        let mut i: usize = 0;
        while i < n
            invariant
                *self == pre,
                pre == *old(self),
                pre.wf(),
                n == self.active@.len(),
                0 <= i <= n,
                forall|j: int| 0 <= j < i ==> self.active_urls()[j] != url@,
            decreases n - i,
        {
            if str_eq(self.active[i].as_str(), url) {
                proof {
                    assert(pre.active_urls()[i as int] == url@);
                    assert(pre.active_urls().contains(url@));
                }
                self.active.remove(i);
                proof {
                    assert(self.active_urls() =~= pre.active_urls().remove(i as int));
                    assert(self.queue_urls() =~= pre.queue_urls());
                    // The scan stopped at the first (and, with no duplicates,
                    // the only) occurrence, so the removed index is the one
                    // `index_of` denotes.
                    assert(pre.active_urls().no_duplicates());
                    let k = pre.active_urls().index_of(url@);
                    assert(0 <= k < pre.active_urls().len() && pre.active_urls()[k] == url@);
                    assert(k == i as int) by {
                        if k != i as int {
                            assert(pre.active_urls()[k] != pre.active_urls()[i as int]);
                        }
                    }
                    assert forall|j: int| 0 <= j < self.active_urls().len()
                        implies self.active_urls()[j] != url@ by {
                        if j < i as int {
                            assert(pre.active_urls()[j] != url@);
                        } else {
                            assert(pre.active_urls()[j + 1] != pre.active_urls()[i as int]);
                        }
                    }
                    assert(!self.active_urls().contains(url@));
                    assert forall|a: int, b: int|
                        0 <= a < self.active_urls().len() && 0 <= b < self.active_urls().len()
                            && a != b
                        implies self.active_urls()[a] != self.active_urls()[b] by {
                        let a0 = if a < i as int { a } else { a + 1 };
                        let b0 = if b < i as int { b } else { b + 1 };
                        assert(pre.active_urls()[a0] != pre.active_urls()[b0]);
                    }
                    assert forall|a: int, b: int|
                        0 <= a < self.queue_urls().len() && 0 <= b < self.active_urls().len()
                        implies self.queue_urls()[a] != self.active_urls()[b] by {
                        let b0 = if b < i as int { b } else { b + 1 };
                        assert(pre.queue_urls()[a] != pre.active_urls()[b0]);
                    }
                }
                return;
            }
            i = i + 1;
        }
        proof {
            assert(!pre.active_urls().contains(url@));
        }
    }

    /// Atomic admission step: if the queue is non-empty and the active count
    /// is below the limit, moves the head of the queue into the active set
    /// and returns it; otherwise changes nothing.
    pub fn try_admit(&mut self, max_concurrent: usize) -> (r: Option<String>)
        requires
            old(self).wf(),
        ensures
            final(self).wf(),
            r is Some <==> (old(self).active_urls().len() < max_concurrent
                && old(self).queue_urls().len() > 0),
            r matches Some(u) ==> u@ == old(self).queue_urls()[0]
                && final(self).queue_urls() == old(self).queue_urls().drop_first()
                && final(self).active_urls() == old(self).active_urls().push(u@)
                && final(self).active_urls().len() <= max_concurrent,
            r is None ==> final(self).queue_urls() == old(self).queue_urls()
                && final(self).active_urls() == old(self).active_urls(),
            old(self).active_urls().len() <= max_concurrent
                ==> final(self).active_urls().len() <= max_concurrent,
    {
        if !self.can_start(max_concurrent) {
            return None;
        }
        match self.get_next() {
            None => None,
            Some(url) => {
                let out = url.clone();
                self.mark_active(url);
                Some(out)
            },
        }
    }

    /// Builds a consistent snapshot: counts, plus one labelled entry per URL,
    /// active entries first (label `"active"`), then queued entries in FIFO
    /// order (label `"queued"`).
    pub fn get_status(&self) -> (st: DownloadStatus)
        ensures
            st.active == self.active_urls().len(),
            st.queued == self.queue_urls().len(),
            st.downloads@.len() == self.active_urls().len() + self.queue_urls().len(),
            forall|i: int| #![trigger st.downloads@[i]]
                0 <= i < self.active_urls().len()
                ==> st.downloads@[i].url@ == self.active_urls()[i]
                    && st.downloads@[i].status@ == "active"@,
            forall|i: int| #![trigger st.downloads@[self.active_urls().len() + i]]
                0 <= i < self.queue_urls().len()
                ==> st.downloads@[self.active_urls().len() + i].url@ == self.queue_urls()[i]
                    && st.downloads@[self.active_urls().len() + i].status@ == "queued"@,
    {
        let mut downloads: Vec<DownloadItem> = Vec::new();
        let n_active = self.active.len();
        let mut i: usize = 0;
        while i < n_active
            invariant
                n_active == self.active@.len(),
                0 <= i <= n_active,
                downloads@.len() == i,
                forall|j: int| #![trigger downloads@[j]]
                    0 <= j < i ==> downloads@[j].url@ == self.active_urls()[j]
                        && downloads@[j].status@ == "active"@,
            decreases n_active - i,
        {
            downloads.push(DownloadItem {
                url: self.active[i].clone(),
                status: "active".to_owned(),
            });
            i = i + 1;
        }
        let n_queued = self.queue.len();
        let mut k: usize = 0;
        while k < n_queued
            invariant
                n_active == self.active@.len(),
                n_queued == self.queue@.len(),
                0 <= k <= n_queued,
                downloads@.len() == n_active + k,
                forall|j: int| #![trigger downloads@[j]]
                    0 <= j < n_active ==> downloads@[j].url@ == self.active_urls()[j]
                        && downloads@[j].status@ == "active"@,
                forall|j: int| #![trigger downloads@[n_active + j]]
                    0 <= j < k ==> downloads@[n_active + j].url@ == self.queue_urls()[j]
                        && downloads@[n_active + j].status@ == "queued"@,
            decreases n_queued - k,
        {
            downloads.push(DownloadItem {
                url: self.queue[k].clone(),
                status: "queued".to_owned(),
            });
            k = k + 1;
        }
        DownloadStatus { active: n_active, queued: n_queued, downloads }
    }
}

} // verus!
