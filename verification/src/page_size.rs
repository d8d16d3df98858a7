use vstd::prelude::*;

verus! {

/// Thread-confined cache of the OS virtual-memory granularity.
///
/// The page size is fixed at boot, so the first successfully recorded
/// answer stays valid for the life of the process.  Zero stands for "not
/// yet queried": no supported OS reports a zero granularity, so zero is
/// free to serve as the sentinel.  Recording zero therefore leaves the
/// cache empty and the next lookup queries the OS again, which is
/// harmless duplicate work.
#[derive(Clone, Copy, Debug, PartialEq, Eq)]
pub struct PageSizeCache {
    /// The cached granularity; zero until a first non-zero record.
    pub cached: usize,
}

/// What one `record(fresh)` call does: the first non-zero answer wins,
/// and every later call returns it and leaves the cache unchanged.
pub open spec fn spec_record(c: PageSizeCache, fresh: usize) -> (PageSizeCache, usize) {
    if c.cached == 0 {
        (PageSizeCache { cached: fresh }, fresh)
    } else {
        (c, c.cached)
    }
}

impl PageSizeCache {
    /// An empty cache: the next lookup needs one OS query.
    pub fn new() -> (r: Self)
        ensures
            r.cached == 0,
    {
        PageSizeCache { cached: 0 }
    }

    /// The cached page size, if a query already filled the cache; `None`
    /// asks the caller to perform one OS query and `record` the answer.
    pub fn lookup(&self) -> (r: Option<usize>)
        ensures
            self.cached != 0 ==> r == Some(self.cached),
            self.cached == 0 ==> r is None,
    {
        if self.cached == 0 {
            None
        } else {
            Some(self.cached)
        }
    }

    /// Folds one freshly queried granularity into the cache and returns
    /// the value the caller should report.
    pub fn record(&mut self, fresh: usize) -> (r: usize)
        ensures
            (*final(self), r) == spec_record(*old(self), fresh),
    {
        if self.cached == 0 {
            self.cached = fresh;
            fresh
        } else {
            self.cached
        }
    }
}

/// Law: the oracle is stable.  Once a first query has recorded the OS's
/// (non-zero) answer, every later record returns that same value and
/// leaves the cache unchanged, whatever the later query reported.
pub proof fn lemma_page_size_stable(c: PageSizeCache, first: usize, later: usize)
    requires
        c.cached == 0,
        first != 0,
    ensures
        ({
            let (c1, v1) = spec_record(c, first);
            let (c2, v2) = spec_record(c1, later);
            v1 == first && v2 == v1 && c2 == c1
        }),
{
}

} // verus!
