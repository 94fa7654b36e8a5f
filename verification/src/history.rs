use vstd::prelude::*;

verus! {

/// Seconds since the Unix epoch, read from the system clock.
///
/// Relies on chrono's `From<std::time::SystemTime>` conversion to
/// `DateTime<Utc>` followed by `DateTime::timestamp`. The conversion turns a
/// clock standing before the epoch into a negative timestamp instead of
/// aborting; the value depends on the moment of the call, so nothing is
/// promised of it.
#[verifier::external_body]
fn now_timestamp() -> i64 {
    chrono::DateTime::<chrono::Utc>::from(std::time::SystemTime::now()).timestamp()
}

/// The deduplication ledger: the set of URLs whose downloads completed
/// successfully, together with the time of the last change. Membership is the
/// only thing the core reads from it.
pub struct DownloadHistory {
    pub urls: Vec<String>,
    pub last_updated: i64,
}

impl DownloadHistory {
    /// The recorded URLs, in recording order.
    pub open spec fn url_seq(self) -> Seq<Seq<char>> {
        self.urls@.map_values(|s: String| s@)
    }

    /// Whether `url` is recorded as already downloaded.
    pub open spec fn contains_url(self, url: Seq<char>) -> bool {
        self.url_seq().contains(url)
    }

    /// Well-formedness: each URL is recorded once.
    pub open spec fn wf(self) -> bool {
        self.url_seq().no_duplicates()
    }

    /// An empty ledger, stamped with the current time.
    pub fn new() -> (h: Self)
        ensures
            h.wf(),
            h.url_seq() == Seq::<Seq<char>>::empty(),
            forall|u: Seq<char>| !h.contains_url(u),
    {
        let h = DownloadHistory { urls: Vec::new(), last_updated: now_timestamp() };
        proof {
            assert(h.url_seq() =~= Seq::<Seq<char>>::empty());
        }
        h
    }

    /// Rebuilds a ledger from a stored list of URLs and its stored timestamp,
    /// keeping each listed URL exactly once whatever the list holds.
    pub fn from_urls(urls: Vec<String>, last_updated: i64) -> (h: Self)
        ensures
            h.wf(),
            h.last_updated == last_updated,
            forall|u: Seq<char>| h.contains_url(u)
                <==> urls@.map_values(|s: String| s@).contains(u),
    {
        let ghost m = urls@.map_values(|s: String| s@);
        let mut h = DownloadHistory { urls: Vec::new(), last_updated };
        proof {
            assert(h.url_seq() =~= Seq::<Seq<char>>::empty());
        }
        let n = urls.len();
        let mut i: usize = 0;
        while i < n
            invariant
                h.wf(),
                h.last_updated == last_updated,
                n == urls@.len(),
                m == urls@.map_values(|s: String| s@),
                0 <= i <= n,
                forall|u: Seq<char>| h.contains_url(u)
                    <==> (exists|j: int| 0 <= j < i && m[j] == u),
            decreases n - i,
        {
            let ghost pre = h;
            let candidate = urls[i].clone();
            let already = h.contains(candidate.as_str());
            if !already {
                h.urls.push(candidate);
            }
            proof {
                if !already {
                    assert(h.url_seq() =~= pre.url_seq().push(m[i as int]));
                    assert forall|a: int, b: int|
                        0 <= a < h.url_seq().len() && 0 <= b < h.url_seq().len() && a != b
                        implies h.url_seq()[a] != h.url_seq()[b] by {
                        let p = pre.url_seq();
                        if a < p.len() && b < p.len() {
                            assert(p[a] != p[b]);
                        } else if a < p.len() {
                            assert(p.contains(p[a]));
                        } else if b < p.len() {
                            assert(p.contains(p[b]));
                        }
                    }
                }
                assert forall|u: Seq<char>| h.contains_url(u)
                    <==> (exists|j: int| 0 <= j < i + 1 && m[j] == u) by {
                    if h.contains_url(u) {
                        let k = choose|k: int|
                            0 <= k < h.url_seq().len() && h.url_seq()[k] == u;
                        if k < pre.url_seq().len() {
                            assert(pre.url_seq()[k] == u);
                            assert(pre.contains_url(u));
                            let j = choose|j: int| 0 <= j < i && m[j] == u;
                            assert(0 <= j < i + 1 && m[j] == u);
                        } else {
                            assert(u == m[i as int]);
                        }
                    }
                    if exists|j: int| 0 <= j < i + 1 && m[j] == u {
                        let j = choose|j: int| 0 <= j < i + 1 && m[j] == u;
                        if j < i {
                            assert(pre.contains_url(u));
                            let k = choose|k: int|
                                0 <= k < pre.url_seq().len() && pre.url_seq()[k] == u;
                            assert(h.url_seq()[k] == u);
                        } else {
                            assert(u == m[i as int]);
                            if already {
                                assert(pre.contains_url(u));
                                let k = choose|k: int|
                                    0 <= k < pre.url_seq().len() && pre.url_seq()[k] == u;
                                assert(h.url_seq()[k] == u);
                            } else {
                                assert(h.url_seq()[pre.url_seq().len() as int] == u);
                            }
                        }
                    }
                }
            }
            i = i + 1;
        }
        h
    }

    /// Records `url` as downloaded; recording an already-present URL changes
    /// nothing but the timestamp.
    pub fn add(&mut self, url: String)
        requires
            old(self).wf(),
        ensures
            final(self).wf(),
            forall|u: Seq<char>| final(self).contains_url(u)
                <==> (old(self).contains_url(u) || u == url@),
    {
        let ghost pre = *self;
        let already = self.contains(url.as_str());
        if !already {
            self.urls.push(url);
        }
        self.last_updated = now_timestamp();
        proof {
            let ghost u = url@;
            if already {
                assert(self.urls@ == pre.urls@);
            } else {
                assert(self.url_seq() =~= pre.url_seq().push(u));
                assert forall|a: int, b: int|
                    0 <= a < self.url_seq().len()
                        && 0 <= b < self.url_seq().len() && a != b
                    implies self.url_seq()[a] != self.url_seq()[b] by {
                    let m = pre.url_seq();
                    if a < m.len() && b < m.len() {
                        assert(m[a] != m[b]);
                    } else if a < m.len() {
                        assert(m.contains(m[a]));
                    } else if b < m.len() {
                        assert(m.contains(m[b]));
                    }
                }
            }
            assert forall|u0: Seq<char>| self.contains_url(u0)
                <==> (pre.contains_url(u0) || u0 == u) by {
                let m = pre.url_seq();
                if pre.contains_url(u0) {
                    let i = choose|i: int| 0 <= i < m.len() && m[i] == u0;
                    assert(self.url_seq()[i] == u0);
                }
                if u0 == u && !already {
                    assert(self.url_seq()[m.len() as int] == u);
                }
                if self.contains_url(u0) {
                    let i = choose|i: int|
                        0 <= i < self.url_seq().len() && self.url_seq()[i] == u0;
                    if i < m.len() {
                        assert(m[i] == u0);
                    }
                }
            }
        }
    }

    /// Membership test against the ledger.
    pub fn contains(&self, url: &str) -> (r: bool)
        ensures
            r == self.contains_url(url@),
    {
        let n = self.urls.len();
        let mut i: usize = 0;
        while i < n
            invariant
                n == self.urls@.len(),
                0 <= i <= n,
                forall|j: int| 0 <= j < i ==> self.url_seq()[j] != url@,
            decreases n - i,
        {
            if crate::strutil::str_eq(self.urls[i].as_str(), url) {
                proof {
                    assert(self.url_seq()[i as int] == url@);
                }
                return true;
            }
            i = i + 1;
        }
        false
    }
}

} // verus!
