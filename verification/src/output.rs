//! Bookkeeping of the audio output that needs no audio: where in the track
//! playback is, which spectrum bands feed a visualizer bar, and which tracks
//! wait for, run or keep a spectrum analysis.

use vstd::prelude::*;

verus! {

/// How many spectrum bands an analysis has.
pub const ANALYSIS_BANDS: usize = 36;

/// How many analyses are kept.
pub const MAX_ANALYSIS_CACHE_ITEMS: usize = 24;

/// How many analyses run at once.
pub const MAX_CONCURRENT_ANALYSIS_JOBS: usize = 2;

/// How many analyses may wait.
pub const MAX_QUEUED_ANALYSIS_JOBS: usize = 32;

/// The playback position: the saved one while paused or not started,
/// otherwise the saved one plus the time since starting; never negative.
pub open spec fn position(paused: bool, elapsed_secs: Option<i64>, base_secs: i64) -> int {
    let p = match elapsed_secs {
        Some(e) if !paused => base_secs + e,
        _ => base_secs as int,
    };
    if p < 0 {
        0
    } else {
        p
    }
}

/// Where playback is, in seconds. `elapsed_secs` is the time since the
/// output started, when it did.
pub fn position_secs(paused: bool, elapsed_secs: Option<i64>, base_secs: i64) -> (p: i64)
    requires
        elapsed_secs matches Some(e) ==> i64::MIN <= base_secs + e <= i64::MAX,
    ensures
        p == position(paused, elapsed_secs, base_secs),
{
    let p = match elapsed_secs {
        Some(e) => if !paused {
            base_secs + e
        } else {
            base_secs
        },
        None => base_secs,
    };
    if p < 0 {
        0
    } else {
        p
    }
}

/// Where a relative seek lands: never before the start.
pub fn seek_target(current_secs: i64, delta_secs: i64) -> (t: i64)
    requires
        i64::MIN <= current_secs + delta_secs <= i64::MAX,
    ensures
        t == (if current_secs + delta_secs < 0 {
            0
        } else {
            current_secs + delta_secs
        }),
{
    let t = current_secs + delta_secs;
    if t < 0 {
        0
    } else {
        t
    }
}

/// The bands `[start, end)` a visualizer bar averages, for `bars` bars:
/// at least one band each, never past the last.
pub open spec fn band_range(bar: int, bars: int) -> (int, int) {
    let b = if bars < 1 {
        1
    } else {
        bars
    };
    let start = bar * 36 / b;
    let e = (bar + 1) * 36 / b;
    let end = if e > start + 1 {
        e
    } else {
        start + 1
    };
    (start, if end < 36 {
        end
    } else {
        36
    })
}

/// The bands a visualizer bar averages.
pub fn bar_bands(bar: usize, bars: usize) -> (r: (usize, usize))
    requires
        bar < bars,
        bars * 36 <= usize::MAX,
    ensures
        (r.0 as int, r.1 as int) == band_range(bar as int, bars as int),
{
    assert((bar + 1) * 36 <= bars * 36) by (nonlinear_arith)
        requires
            bar < bars,
    ;
    let start = bar * ANALYSIS_BANDS / bars;
    let e = (bar + 1) * ANALYSIS_BANDS / bars;
    let end = if e > start + 1 {
        e
    } else {
        start + 1
    };
    (start, if end < ANALYSIS_BANDS {
        end
    } else {
        ANALYSIS_BANDS
    })
}

/// A track's analysis is identified by its path and modification time.
pub type AnalysisKey = (String, i64);

/// Two keys name the same analysis.
pub open spec fn same_key(a: AnalysisKey, b: AnalysisKey) -> bool {
    a.0@ == b.0@ && a.1 == b.1
}

/// Whether a list holds a key.
pub open spec fn has_key(v: Seq<AnalysisKey>, k: AnalysisKey) -> bool {
    exists|i: int| 0 <= i < v.len() && same_key(#[trigger] v[i], k)
}

/// The first position of a key in a list, if there.
pub open spec fn first_key(v: Seq<AnalysisKey>, k: AnalysisKey) -> Option<int>
    decreases v.len(),
{
    if v.len() == 0 {
        None
    } else if same_key(v[0], k) {
        Some(0)
    } else {
        match first_key(v.drop_first(), k) {
            Some(i) => Some(i + 1),
            None => None,
        }
    }
}

/// The list without the first occurrence of a key.
pub open spec fn without_key(v: Seq<AnalysisKey>, k: AnalysisKey) -> Seq<AnalysisKey> {
    match first_key(v, k) {
        Some(i) => v.remove(i),
        None => v,
    }
}

fn key_eq(a: &AnalysisKey, b: &AnalysisKey) -> (r: bool)
    ensures
        r == same_key(*a, *b),
{
    a.1 == b.1 && a.0 == b.0
}

fn find_key(v: &Vec<AnalysisKey>, k: &AnalysisKey) -> (r: Option<usize>)
    ensures
        match r {
            Some(i) => first_key(v@, *k) == Some(i as int) && i < v@.len(),
            None => first_key(v@, *k) is None,
        },
{
    let mut i: usize = 0;
    assert(v@.skip(0) =~= v@);
    while i < v.len()
        invariant
            i <= v.len(),
            first_key(v@, *k) == match first_key(v@.skip(i as int), *k) {
                Some(j) => Some(j + i),
                None => None::<int>,
            },
        decreases v.len() - i,
    {
        assert(v@.skip(i as int).drop_first() =~= v@.skip(i + 1));
        assert(v@.skip(i as int)[0] == v@[i as int]);
        if key_eq(&v[i], k) {
            return Some(i);
        }
        i = i + 1;
    }
    None
}

proof fn lemma_first_key_has(v: Seq<AnalysisKey>, k: AnalysisKey)
    ensures
        first_key(v, k) is Some <==> has_key(v, k),
        first_key(v, k) matches Some(i) ==> 0 <= i < v.len() && same_key(v[i], k),
    decreases v.len(),
{
    if v.len() > 0 {
        lemma_first_key_has(v.drop_first(), k);
        if has_key(v, k) && !same_key(v[0], k) {
            let i = choose|i: int| 0 <= i < v.len() && same_key(#[trigger] v[i], k);
            assert(v.drop_first()[i - 1] == v[i]);
        }
        if has_key(v.drop_first(), k) {
            let i = choose|i: int| 0 <= i < v.len() - 1 && same_key(#[trigger] v.drop_first()[i], k);
            assert(v[i + 1] == v.drop_first()[i]);
        }
        if same_key(v[0], k) {
            assert(same_key(v[0], k));
        }
    }
}

/// What happens to the analysis cache when an analysis arrives.
#[derive(Debug)]
pub enum CacheInsert {
    /// The key is cached already: replace its value.
    Replace,
    /// Store it as a new entry, after dropping this oldest one if the cache
    /// was full.
    Add { evicted: Option<AnalysisKey> },
}

/// How many waiting jobs start when `active` run and `waiting` wait.
pub open spec fn jobs_to_start(active: int, waiting: int) -> int {
    if active >= MAX_CONCURRENT_ANALYSIS_JOBS {
        0
    } else if waiting < MAX_CONCURRENT_ANALYSIS_JOBS - active {
        waiting
    } else {
        MAX_CONCURRENT_ANALYSIS_JOBS - active
    }
}

/// The bookkeeping of analyses: the cached keys in insertion order, the
/// keys waiting or running, the queue of waiting jobs (path and key) and how
/// many jobs run.
pub struct AnalysisBook {
    pub cache_order: Vec<AnalysisKey>,
    pub pending: Vec<AnalysisKey>,
    pub queue: Vec<(String, AnalysisKey)>,
    pub active_jobs: usize,
}

impl AnalysisBook {
    /// At most the cache's and the queue's capacity is kept.
    pub open spec fn wf(&self) -> bool {
        &&& self.cache_order@.len() <= MAX_ANALYSIS_CACHE_ITEMS
        &&& self.queue@.len() <= MAX_QUEUED_ANALYSIS_JOBS
        &&& self.active_jobs <= MAX_CONCURRENT_ANALYSIS_JOBS + 1
    }

    pub fn new() -> (b: AnalysisBook)
        ensures
            b.wf(),
            b.cache_order@.len() == 0,
            b.pending@.len() == 0,
            b.queue@.len() == 0,
            b.active_jobs == 0,
    {
        AnalysisBook { cache_order: Vec::new(), pending: Vec::new(), queue: Vec::new(), active_jobs: 0 }
    }

    /// Whether an analysis is cached.
    pub fn is_cached(&self, key: &AnalysisKey) -> (r: bool)
        ensures
            r == has_key(self.cache_order@, *key),
    {
        proof {
            lemma_first_key_has(self.cache_order@, *key);
        }
        find_key(&self.cache_order, key).is_some()
    }

    /// An analysis arrived for `key`: a cached key is replaced in place;
    /// otherwise it is added last, the oldest entry leaving a full cache.
    pub fn cache_insert(&mut self, key: AnalysisKey) -> (r: CacheInsert)
        requires
            old(self).wf(),
        ensures
            final(self).wf(),
            final(self).pending == old(self).pending,
            final(self).queue == old(self).queue,
            final(self).active_jobs == old(self).active_jobs,
            has_key(old(self).cache_order@, key) ==> r is Replace && final(self).cache_order
                == old(self).cache_order,
            !has_key(old(self).cache_order@, key) ==> match r {
                CacheInsert::Add { evicted: None } => old(self).cache_order@.len()
                    < MAX_ANALYSIS_CACHE_ITEMS && final(self).cache_order@ == old(self).cache_order@.push(key),
                CacheInsert::Add { evicted: Some(e) } => old(self).cache_order@.len()
                    >= MAX_ANALYSIS_CACHE_ITEMS && e == old(self).cache_order@[0]
                    && final(self).cache_order@ == old(self).cache_order@.drop_first().push(key),
                CacheInsert::Replace => false,
            },
    {
        proof {
            lemma_first_key_has(self.cache_order@, key);
        }
        if find_key(&self.cache_order, &key).is_some() {
            return CacheInsert::Replace;
        }
        let mut evicted: Option<AnalysisKey> = None;
        if self.cache_order.len() >= MAX_ANALYSIS_CACHE_ITEMS {
            let oldest = self.cache_order.remove(0);
            evicted = Some(oldest);
        }
        self.cache_order.push(key);
        proof {
            if evicted is Some {
                assert(self.cache_order@ =~= old(self).cache_order@.drop_first().push(key));
            }
        }
        CacheInsert::Add { evicted }
    }

    /// Takes waiting jobs, oldest first, while fewer than two run; returns
    /// them (the caller starts them).
    pub fn start_jobs(&mut self) -> (started: Vec<(String, AnalysisKey)>)
        requires
            old(self).wf(),
        ensures
            final(self).wf(),
            final(self).cache_order == old(self).cache_order,
            final(self).pending == old(self).pending,
            ({
                let n = jobs_to_start(old(self).active_jobs as int, old(self).queue@.len() as int);
                &&& started@ == old(self).queue@.take(n)
                &&& final(self).queue@ == old(self).queue@.skip(n)
                &&& final(self).active_jobs == old(self).active_jobs + n
            }),
    {
        let mut started: Vec<(String, AnalysisKey)> = Vec::new();
        let ghost q0 = self.queue@;
        let ghost a0 = self.active_jobs;
        assert(q0.skip(0) =~= q0);
        while self.active_jobs < MAX_CONCURRENT_ANALYSIS_JOBS && self.queue.len() > 0
            invariant_except_break
                self.wf(),
                self.cache_order == old(self).cache_order,
                self.pending == old(self).pending,
                q0 == old(self).queue@,
                a0 == old(self).active_jobs,
                a0 <= self.active_jobs,
                self.active_jobs - a0 == started@.len(),
                started@.len() <= q0.len(),
                started@ == q0.take(started@.len() as int),
                self.queue@ == q0.skip(started@.len() as int),
                a0 >= MAX_CONCURRENT_ANALYSIS_JOBS ==> started@.len() == 0,
                a0 < MAX_CONCURRENT_ANALYSIS_JOBS ==> self.active_jobs <= MAX_CONCURRENT_ANALYSIS_JOBS,
            ensures
                self.wf(),
                self.cache_order == old(self).cache_order,
                self.pending == old(self).pending,
                started@ == q0.take(jobs_to_start(a0 as int, q0.len() as int)),
                self.queue@ == q0.skip(jobs_to_start(a0 as int, q0.len() as int)),
                self.active_jobs == a0 + jobs_to_start(a0 as int, q0.len() as int),
            decreases self.queue@.len(),
        {
            let job = self.queue.remove(0);
            let ghost k = started@.len() as int;
            assert(job == q0[k]);
            started.push(job);
            self.active_jobs = self.active_jobs + 1;
            assert(started@ =~= q0.take(k + 1));
            assert(self.queue@ =~= q0.skip(k + 1));
        }
        started
    }

    /// Asks for an analysis of the file at `path`: unless it is waiting or
    /// running already, it joins the queue and waits; a queue grown past its
    /// capacity drops its oldest job, which stops waiting. Then jobs start as
    /// `start_jobs` says; they are returned.
    pub fn request(&mut self, path: String, key: AnalysisKey) -> (started: Vec<(String, AnalysisKey)>)
        requires
            old(self).wf(),
        ensures
            final(self).wf(),
            final(self).cache_order == old(self).cache_order,
            has_key(old(self).pending@, key) ==> started@.len() == 0 && final(self).pending
                == old(self).pending && final(self).queue == old(self).queue && final(self).active_jobs == old(self).active_jobs,
            !has_key(old(self).pending@, key) ==> ({
                let q1 = old(self).queue@.push((path, key));
                let p1 = old(self).pending@.push(key);
                let dropped = q1.len() > MAX_QUEUED_ANALYSIS_JOBS;
                let q2 = if dropped {
                    q1.drop_first()
                } else {
                    q1
                };
                let n = jobs_to_start(old(self).active_jobs as int, q2.len() as int);
                &&& final(self).pending@ == if dropped {
                    without_key(p1, q1[0].1)
                } else {
                    p1
                }
                &&& started@ == q2.take(n)
                &&& final(self).queue@ == q2.skip(n)
                &&& final(self).active_jobs == old(self).active_jobs + n
            }),
    {
        proof {
            lemma_first_key_has(self.pending@, key);
        }
        if find_key(&self.pending, &key).is_some() {
            return Vec::new();
        }
        let k2 = (key.0.clone(), key.1);
        self.pending.push(k2);
        self.queue.push((path, key));
        if self.queue.len() > MAX_QUEUED_ANALYSIS_JOBS {
            let ghost q1 = self.queue@;
            let (_p, dropped) = self.queue.remove(0);
            assert(self.queue@ =~= q1.drop_first());
            match find_key(&self.pending, &dropped) {
                Some(i) => {
                    self.pending.remove(i);
                },
                None => {},
            }
        }
        self.start_jobs()
    }

    /// A job finished: its key stops waiting, the running count drops
    /// (saturating), and waiting jobs start; they are returned.
    pub fn job_finished(&mut self, key: &AnalysisKey) -> (started: Vec<(String, AnalysisKey)>)
        requires
            old(self).wf(),
        ensures
            final(self).wf(),
            final(self).cache_order == old(self).cache_order,
            final(self).pending@ == without_key(old(self).pending@, *key),
            ({
                let a = if old(self).active_jobs > 0 {
                    old(self).active_jobs - 1
                } else {
                    0
                };
                let n = jobs_to_start(a, old(self).queue@.len() as int);
                &&& started@ == old(self).queue@.take(n)
                &&& final(self).queue@ == old(self).queue@.skip(n)
                &&& final(self).active_jobs == a + n
            }),
    {
        match find_key(&self.pending, key) {
            Some(i) => {
                self.pending.remove(i);
            },
            None => {},
        }
        self.active_jobs = if self.active_jobs > 0 {
            self.active_jobs - 1
        } else {
            0
        };
        self.start_jobs()
    }
}


/// The playback clock: while playing, the position is the saved one plus the
/// time played since starting (never below zero) and so advances with that
/// time; while paused, or before the output started, it stays at the saved
/// one (never below zero) however much time passes.
pub proof fn law_position_clock(base_secs: i64, e1: i64, e2: i64)
    ensures
        position(false, Some(e1), base_secs) == (if base_secs + e1 < 0 { 0 } else { base_secs + e1 }),
        position(true, Some(e1), base_secs) == (if base_secs < 0 { 0 } else { base_secs as int }),
        position(true, Some(e1), base_secs) == position(true, Some(e2), base_secs),
        position(true, Some(e1), base_secs) == position(false, None, base_secs),
        e1 <= e2 ==> position(false, Some(e1), base_secs) <= position(false, Some(e2), base_secs),
        base_secs >= 0 && e1 >= 0 ==> position(false, Some(e1), base_secs) == base_secs + e1,
{
}

} // verus!
