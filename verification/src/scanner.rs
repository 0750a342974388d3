//! Library scanning: which files count as music, warnings gathered during a
//! scan, change detection between two snapshots of the music directory, the
//! debouncing of watcher events, and the scheduling of rescans.

use vstd::prelude::*;
use crate::model::TrackInput;
use crate::text::{
    chars_of, concat, dec, extend_chars, lower_seq, string_of, text_eq_ignore_case, u64_text,
    views,
};

verus! {

// ---------------------------------------------------------------------------
// Music files
// ---------------------------------------------------------------------------

/// Position of the last `c` in `s`.
pub open spec fn last_index_of(s: Seq<char>, c: char) -> Option<int>
    decreases s.len(),
{
    if s.len() == 0 {
        None
    } else if s.last() == c {
        Some(s.len() - 1)
    } else {
        last_index_of(s.drop_last(), c)
    }
}

/// `s` without trailing `/` characters.
pub open spec fn strip_trailing_slashes(s: Seq<char>) -> Seq<char>
    decreases s.len(),
{
    if s.len() > 0 && s.last() == '/' {
        strip_trailing_slashes(s.drop_last())
    } else {
        s
    }
}

/// The last component of a `/`-separated path.
pub open spec fn file_name(path: Seq<char>) -> Seq<char> {
    let p = strip_trailing_slashes(path);
    match last_index_of(p, '/') {
        Some(i) => p.skip(i + 1),
        None => p,
    }
}

/// The extension of a file name: what follows its last `.`, unless that dot
/// starts the name.
pub open spec fn extension(name: Seq<char>) -> Option<Seq<char>> {
    match last_index_of(name, '.') {
        Some(i) => if i > 0 {
            Some(name.skip(i + 1))
        } else {
            None
        },
        None => None,
    }
}

/// Whether a path names an MP3 file: its extension is `mp3`, ASCII case
/// ignored.
pub open spec fn mp3_path(path: Seq<char>) -> bool {
    match extension(file_name(path)) {
        Some(e) => lower_seq(e) == lower_seq("mp3"@),
        None => false,
    }
}

fn last_index_exec(v: &Vec<char>, end: usize, c: char) -> (r: Option<usize>)
    requires
        end <= v.len(),
    ensures
        match r {
            Some(i) => last_index_of(v@.take(end as int), c) == Some(i as int) && i < end,
            None => last_index_of(v@.take(end as int), c) is None,
        },
{
    let mut j = end;
    while j > 0
        invariant
            j <= end <= v.len(),
            last_index_of(v@.take(end as int), c) == last_index_of(v@.take(j as int), c),
        decreases j,
    {
        assert(v@.take(j as int).drop_last() =~= v@.take(j - 1));
        if v[j - 1] == c {
            return Some(j - 1);
        }
        j = j - 1;
    }
    None
}

/// Whether the path names an MP3 file (extension `mp3`, any ASCII case).
pub fn is_mp3(path: &str) -> (r: bool)
    ensures
        r == mp3_path(path@),
{
    let v = chars_of(path);
    let mut end = v.len();
    assert(v@.take(end as int) =~= v@);
    while end > 0 && v[end - 1] == '/'
        invariant
            end <= v.len(),
            strip_trailing_slashes(v@) == strip_trailing_slashes(v@.take(end as int)),
        decreases end,
    {
        assert(v@.take(end as int).drop_last() =~= v@.take(end - 1));
        end = end - 1;
    }
    let ghost p = v@.take(end as int);
    assert(strip_trailing_slashes(v@) == p);
    let start = match last_index_exec(&v, end, '/') {
        Some(i) => i + 1,
        None => 0,
    };
    let mut name: Vec<char> = Vec::new();
    let mut k = start;
    while k < end
        invariant
            start <= k <= end <= v.len(),
            name@ == v@.subrange(start as int, k as int),
        decreases end - k,
    {
        name.push(v[k]);
        k = k + 1;
        assert(name@ =~= v@.subrange(start as int, k as int));
    }
    assert(name@ =~= file_name(path@));
    let nlen = name.len();
    assert(name@.take(nlen as int) =~= name@);
    match last_index_exec(&name, nlen, '.') {
        None => false,
        Some(d) => {
            if d == 0 {
                return false;
            }
            let mut e: Vec<char> = Vec::new();
            let mut m = d + 1;
            while m < nlen
                invariant
                    d + 1 <= m <= nlen,
                    nlen == name@.len(),
                    e@ == name@.subrange(d + 1, m as int),
                decreases nlen - m,
            {
                e.push(name[m]);
                m = m + 1;
                assert(e@ =~= name@.subrange(d + 1, m as int));
            }
            assert(e@ =~= name@.skip(d + 1));
            let es = string_of(&e);
            text_eq_ignore_case(es.as_str(), "mp3")
        },
    }
}

// ---------------------------------------------------------------------------
// Scan results
// ---------------------------------------------------------------------------

/// How many files could not be read during a scan, with a few examples.
#[derive(Debug, Default, Clone)]
pub struct ScanWarningAggregate {
    pub failed_files: usize,
    pub failed_paths_sample: Vec<String>,
}

/// How many failed paths a scan keeps as examples.
pub const FAILED_PATHS_SAMPLE_LIMIT: usize = 5;

impl ScanWarningAggregate {
    pub fn new() -> (w: ScanWarningAggregate)
        ensures
            w.failed_files == 0,
            w.failed_paths_sample@.len() == 0,
    {
        ScanWarningAggregate { failed_files: 0, failed_paths_sample: Vec::new() }
    }

    /// Counts a file that could not be read (the count saturates) and keeps
    /// `path: error` as an example while fewer than five are kept.
    pub fn record_failure(&mut self, path: &str, error: &str)
        ensures
            final(self).failed_files == if old(self).failed_files == usize::MAX {
                usize::MAX as int
            } else {
                old(self).failed_files + 1
            },
            old(self).failed_paths_sample@.len() < FAILED_PATHS_SAMPLE_LIMIT ==> views(
                final(self).failed_paths_sample@,
            ) == views(old(self).failed_paths_sample@).push(path@ + ": "@ + error@),
            old(self).failed_paths_sample@.len() >= FAILED_PATHS_SAMPLE_LIMIT
                ==> final(self).failed_paths_sample@ == old(self).failed_paths_sample@,
    {
        self.failed_files = self.failed_files.saturating_add(1);
        if self.failed_paths_sample.len() < FAILED_PATHS_SAMPLE_LIMIT {
            let mut v = chars_of(path);
            extend_chars(&mut v, ": ");
            extend_chars(&mut v, error);
            let line = string_of(&v);
            let ghost before = views(self.failed_paths_sample@);
            self.failed_paths_sample.push(line);
            assert(views(self.failed_paths_sample@) =~= before.push(path@ + ": "@ + error@));
        }
    }
}

/// What a scan of the music directory found.
#[derive(Debug)]
pub struct ScanResult {
    pub upserts: Vec<TrackInput>,
    pub seen_paths: Vec<String>,
    pub warnings: ScanWarningAggregate,
}

/// One MP3 file met while walking the music directory: its path text and
/// either the track read from it or the error met reading it.
#[derive(Debug)]
pub struct ScannedFile {
    pub path: String,
    pub outcome: Result<TrackInput, String>,
}

/// Whether a walked entry is read: a regular file with an MP3 name.
pub fn wants_entry(is_file: bool, path: &str) -> (r: bool)
    ensures
        r == (is_file && mp3_path(path@)),
{
    is_file && is_mp3(path)
}

/// The tracks read successfully, in walk order.
pub open spec fn ok_inputs(files: Seq<ScannedFile>) -> Seq<TrackInput>
    decreases files.len(),
{
    if files.len() == 0 {
        Seq::empty()
    } else {
        match files.last().outcome {
            Ok(t) => ok_inputs(files.drop_last()).push(t),
            Err(_) => ok_inputs(files.drop_last()),
        }
    }
}

/// One `path: error` line per file that could not be read, in walk order.
pub open spec fn failure_lines(files: Seq<ScannedFile>) -> Seq<Seq<char>>
    decreases files.len(),
{
    if files.len() == 0 {
        Seq::empty()
    } else {
        match files.last().outcome {
            Ok(_) => failure_lines(files.drop_last()),
            Err(e) => failure_lines(files.drop_last()).push(files.last().path@ + ": "@ + e@),
        }
    }
}

/// The path texts of the files walked.
pub open spec fn file_paths(files: Seq<ScannedFile>) -> Set<Seq<char>> {
    Set::new(|p: Seq<char>| exists|k: int| 0 <= k < files.len() && (#[trigger] files[k]).path@ == p)
}

/// The smaller of two numbers.
pub open spec fn min_int(a: int, b: int) -> int {
    if a <= b {
        a
    } else {
        b
    }
}

/// Assembles the result of a scan. A directory that cannot be scanned gives
/// an empty result; otherwise every walked file is seen, each track read is
/// an upsert and each failure is counted (saturating), the first five kept
/// as examples.
pub fn scan_music_dir(scannable: bool, files: Vec<ScannedFile>) -> (r: ScanResult)
    requires
        forall|k: int| 0 <= k < files@.len() ==> mp3_path((#[trigger] files@[k]).path@),
        forall|k: int|
            0 <= k < files@.len() ==> ((#[trigger] files@[k]).outcome matches Ok(t) ==> t.path@
                == files@[k].path@),
    ensures
        distinct_texts(r.seen_paths@),
        forall|j: int| 0 <= j < r.seen_paths@.len() ==> mp3_path((#[trigger] r.seen_paths@[j])@),
        forall|j: int|
            0 <= j < r.upserts@.len() ==> mp3_path((#[trigger] r.upserts@[j]).path@) && text_set(
                r.seen_paths@,
            ).contains(r.upserts@[j].path@),
        !scannable ==> r.upserts@.len() == 0 && r.seen_paths@.len() == 0
            && r.warnings.failed_files == 0 && r.warnings.failed_paths_sample@.len() == 0,
        scannable ==> {
            &&& r.upserts@ == ok_inputs(files@)
            &&& text_set(r.seen_paths@) == file_paths(files@)
            &&& r.warnings.failed_files == min_int(failure_lines(files@).len() as int, usize::MAX as int)
            &&& views(r.warnings.failed_paths_sample@) == failure_lines(files@).take(
                min_int(failure_lines(files@).len() as int, FAILED_PATHS_SAMPLE_LIMIT as int),
            )
        },
{
    let mut r = ScanResult {
        upserts: Vec::new(),
        seen_paths: Vec::new(),
        warnings: ScanWarningAggregate::new(),
    };
    if !scannable {
        return r;
    }
    let ghost all = files@;
    let n_all: usize = files.len();
    let mut pending = files;
    let mut rest: Vec<ScannedFile> = Vec::new();
    while pending.len() > 0
        invariant
            pending@.len() + rest@.len() == all.len(),
            pending@ == all.take(pending@.len() as int),
            forall|k: int| 0 <= k < rest@.len() ==> rest@[k] == all[all.len() - 1 - k],
        decreases pending@.len(),
    {
        let ghost n = pending@.len();
        let x = pending.pop().unwrap();
        assert(x == all[n - 1]);
        assert(pending@ =~= all.take(n - 1));
        rest.push(x);
    }
    assert(views(r.warnings.failed_paths_sample@) =~= Seq::<Seq<char>>::empty());
    assert(text_set(r.seen_paths@) =~= file_paths(all.take(0)));
    let mut i: usize = 0;
    while rest.len() > 0
        invariant
            i + rest@.len() == all.len(),
            all.len() == n_all,
            forall|k: int| 0 <= k < rest@.len() ==> rest@[k] == all[all.len() - 1 - k],
            distinct_texts(r.seen_paths@),
            r.upserts@ == ok_inputs(all.take(i as int)),
            text_set(r.seen_paths@) == file_paths(all.take(i as int)),
            r.warnings.failed_files == min_int(
                failure_lines(all.take(i as int)).len() as int,
                usize::MAX as int,
            ),
            views(r.warnings.failed_paths_sample@) == failure_lines(all.take(i as int)).take(
                min_int(failure_lines(all.take(i as int)).len() as int, FAILED_PATHS_SAMPLE_LIMIT as int),
            ),
        decreases rest@.len(),
    {
        let ghost pre = all.take(i as int);
        let ghost lines = failure_lines(pre);
        let f = rest.pop().unwrap();
        assert(f == all[i as int]);
        assert(all.take(i + 1).drop_last() =~= pre);
        assert(all.take(i + 1).last() == f);
        let ghost seen_before = text_set(r.seen_paths@);
        push_unique(&mut r.seen_paths, &f.path);
        assert(text_set(r.seen_paths@) =~= file_paths(all.take(i + 1))) by {
            assert forall|p: Seq<char>| file_paths(all.take(i + 1)).contains(p) implies text_set(
                r.seen_paths@,
            ).contains(p) by {
                let k = choose|k: int| 0 <= k < i + 1 && (#[trigger] all.take(i + 1)[k]).path@ == p;
                if k < i {
                    assert(pre[k] == all.take(i + 1)[k]);
                    assert(file_paths(pre).contains(p));
                }
            }
            assert forall|p: Seq<char>| text_set(r.seen_paths@).contains(p) implies file_paths(
                all.take(i + 1),
            ).contains(p) by {
                if p == f.path@ {
                    assert(all.take(i + 1)[i as int] == f);
                } else {
                    assert(seen_before.contains(p));
                    let k = choose|k: int| 0 <= k < pre.len() && (#[trigger] pre[k]).path@ == p;
                    assert(all.take(i + 1)[k] == pre[k]);
                }
            }
        }
        let ScannedFile { path, outcome } = f;
        match outcome {
            Ok(t) => {
                r.upserts.push(t);
            },
            Err(e) => {
                let ghost before = views(r.warnings.failed_paths_sample@);
                r.warnings.record_failure(path.as_str(), e.as_str());
                proof {
                    let nl = lines.push(path@ + ": "@ + e@);
                    assert(failure_lines(all.take(i + 1)) == nl);
                    if lines.len() < FAILED_PATHS_SAMPLE_LIMIT {
                        assert(nl.take(nl.len() as int) =~= lines.take(lines.len() as int).push(
                            path@ + ": "@ + e@,
                        ));
                    } else {
                        assert(nl.take(FAILED_PATHS_SAMPLE_LIMIT as int) =~= lines.take(
                            FAILED_PATHS_SAMPLE_LIMIT as int,
                        ));
                    }
                }
            },
        }
        i = i + 1;
    }
    assert(all.take(i as int) =~= all);
    proof {
        lemma_ok_inputs_from_files(all);
        assert forall|j: int| 0 <= j < r.seen_paths@.len() implies mp3_path(
            (#[trigger] r.seen_paths@[j])@,
        ) by {
            assert(text_set(r.seen_paths@).contains(r.seen_paths@[j]@));
            assert(file_paths(all).contains(r.seen_paths@[j]@));
            let k = choose|k: int| 0 <= k < all.len() && (#[trigger] all[k]).path@ == r.seen_paths@[j]@;
        }
        assert forall|j: int| 0 <= j < r.upserts@.len() implies mp3_path(
            (#[trigger] r.upserts@[j]).path@,
        ) && text_set(r.seen_paths@).contains(r.upserts@[j].path@) by {
            let k = choose|k: int|
                0 <= k < all.len() && (#[trigger] all[k]).outcome == Ok::<TrackInput, String>(
                    r.upserts@[j],
                );
            assert(file_paths(all).contains(all[k].path@));
        }
    }
    r
}

proof fn lemma_ok_inputs_from_files(files: Seq<ScannedFile>)
    ensures
        forall|j: int|
            #![trigger ok_inputs(files)[j]]
            0 <= j < ok_inputs(files).len() ==> exists|k: int|
                0 <= k < files.len() && (#[trigger] files[k]).outcome == Ok::<TrackInput, String>(
                    ok_inputs(files)[j],
                ),
    decreases files.len(),
{
    if files.len() > 0 {
        let p = files.drop_last();
        lemma_ok_inputs_from_files(p);
        assert forall|j: int| #![trigger ok_inputs(files)[j]]
            0 <= j < ok_inputs(files).len() implies exists|k: int|
            0 <= k < files.len() && (#[trigger] files[k]).outcome == Ok::<TrackInput, String>(
                ok_inputs(files)[j],
            ) by {
            if j < ok_inputs(p).len() {
                let k = choose|k: int|
                    0 <= k < p.len() && (#[trigger] p[k]).outcome == Ok::<TrackInput, String>(
                        ok_inputs(p)[j],
                    );
                assert(files[k] == p[k]);
                assert(ok_inputs(files)[j] == ok_inputs(p)[j]);
            } else {
                assert(files[files.len() - 1] == files.last());
            }
        }
    }
}

// ---------------------------------------------------------------------------
// Change detection
// ---------------------------------------------------------------------------

/// The paths of a snapshot, as a set.
pub open spec fn snapshot_keys(s: Seq<(String, i64)>) -> Set<Seq<char>> {
    Set::new(|p: Seq<char>| exists|k: int| 0 <= k < s.len() && (#[trigger] s[k]).0@ == p)
}

/// The modification time a snapshot records for a path.
pub open spec fn snapshot_get(s: Seq<(String, i64)>, p: Seq<char>) -> Option<i64> {
    if exists|k: int| 0 <= k < s.len() && (#[trigger] s[k]).0@ == p {
        Some(s[choose|k: int| 0 <= k < s.len() && (#[trigger] s[k]).0@ == p].1)
    } else {
        None
    }
}

/// No path occurs twice in a snapshot.
pub open spec fn distinct_keys(s: Seq<(String, i64)>) -> bool {
    forall|a: int, b: int| 0 <= a < b < s.len() ==> (#[trigger] s[a]).0@ != (#[trigger] s[b]).0@
}

/// The paths that were created, modified or deleted between two snapshots.
pub open spec fn changed_paths(prev: Seq<(String, i64)>, cur: Seq<(String, i64)>) -> Set<Seq<char>> {
    Set::new(
        |p: Seq<char>|
            (snapshot_keys(cur).contains(p) && snapshot_get(prev, p) != snapshot_get(cur, p)) || (
            snapshot_keys(prev).contains(p) && !snapshot_keys(cur).contains(p)),
    )
}

/// A list of texts without repeats.
pub open spec fn distinct_texts(v: Seq<String>) -> bool {
    forall|a: int, b: int| 0 <= a < b < v.len() ==> (#[trigger] v[a])@ != (#[trigger] v[b])@
}

/// The set of texts of a list.
pub open spec fn text_set(v: Seq<String>) -> Set<Seq<char>> {
    Set::new(|p: Seq<char>| exists|k: int| 0 <= k < v.len() && (#[trigger] v[k])@ == p)
}

fn lookup(s: &Vec<(String, i64)>, p: &String) -> (r: Option<i64>)
    requires
        distinct_keys(s@),
    ensures
        r == snapshot_get(s@, p@),
{
    let mut i: usize = 0;
    while i < s.len()
        invariant
            i <= s.len(),
            distinct_keys(s@),
            forall|k: int| 0 <= k < i ==> (#[trigger] s@[k]).0@ != p@,
        decreases s.len() - i,
    {
        if s[i].0 == *p {
            proof {
                let k = choose|k: int| 0 <= k < s@.len() && (#[trigger] s@[k]).0@ == p@;
                if k != i {
                    assert(s@[k].0@ != s@[i as int].0@);
                }
            }
            return Some(s[i].1);
        }
        i = i + 1;
    }
    None
}

fn push_unique(out: &mut Vec<String>, p: &String)
    requires
        distinct_texts(old(out)@),
    ensures
        distinct_texts(final(out)@),
        text_set(final(out)@) == text_set(old(out)@).insert(p@),
{
    let mut i: usize = 0;
    while i < out.len()
        invariant
            i <= out.len(),
            out@ == old(out)@,
            distinct_texts(out@),
            forall|k: int| 0 <= k < i ==> (#[trigger] out@[k])@ != p@,
        decreases out.len() - i,
    {
        if out[i] == *p {
            assert(text_set(out@) =~= text_set(out@).insert(p@));
            return;
        }
        i = i + 1;
    }
    let ghost before = out@;
    out.push(p.clone());
    assert forall|q: Seq<char>| text_set(out@).contains(q) == text_set(before).insert(p@).contains(
        q,
    ) by {
        if text_set(out@).contains(q) {
            let k = choose|k: int| 0 <= k < out@.len() && (#[trigger] out@[k])@ == q;
            if k < before.len() {
                assert(before[k]@ == q);
            }
        }
        if text_set(before).contains(q) {
            let k = choose|k: int| 0 <= k < before.len() && (#[trigger] before[k])@ == q;
            assert(out@[k]@ == q);
        }
        if q == p@ {
            assert(out@[before.len() as int]@ == q);
        }
    }
    assert(text_set(out@) =~= text_set(before).insert(p@));
}

/// The paths that were created, modified or deleted between two snapshots
/// (path and modification time per file), each once.
pub fn detect_changed_paths(previous: &Vec<(String, i64)>, current: &Vec<(String, i64)>) -> (r: Vec<
    String,
>)
    requires
        distinct_keys(previous@),
        distinct_keys(current@),
    ensures
        distinct_texts(r@),
        text_set(r@) == changed_paths(previous@, current@),
{
    let mut out: Vec<String> = Vec::new();
    let ghost mut acc: Set<Seq<char>> = Set::empty();
    assert(text_set(out@) =~= acc);
    let mut i: usize = 0;
    while i < current.len()
        invariant
            i <= current.len(),
            distinct_keys(previous@),
            distinct_keys(current@),
            distinct_texts(out@),
            text_set(out@) == Set::new(
                |p: Seq<char>|
                    exists|k: int|
                        0 <= k < i && (#[trigger] current@[k]).0@ == p && snapshot_get(previous@, p)
                            != Some(current@[k].1),
            ),
        decreases current.len() - i,
    {
        let (path, mtime) = (&current[i].0, current[i].1);
        let ghost before = text_set(out@);
        let old_mtime = lookup(previous, path);
        let differs = match old_mtime {
            Some(m) => m != mtime,
            None => true,
        };
        if differs {
            push_unique(&mut out, path);
        }
        assert(text_set(out@) =~= Set::new(
            |p: Seq<char>|
                exists|k: int|
                    0 <= k < i + 1 && (#[trigger] current@[k]).0@ == p && snapshot_get(previous@, p)
                        != Some(current@[k].1),
        )) by {
            assert forall|p: Seq<char>|
                (exists|k: int|
                    0 <= k < i + 1 && (#[trigger] current@[k]).0@ == p && snapshot_get(previous@, p)
                        != Some(current@[k].1)) implies text_set(out@).contains(p) by {
                let k = choose|k: int|
                    0 <= k < i + 1 && (#[trigger] current@[k]).0@ == p && snapshot_get(previous@, p)
                        != Some(current@[k].1);
                if k < i {
                    assert(before.contains(p));
                }
            }
        }
        i = i + 1;
    }
    let ghost first_part = text_set(out@);
    let mut j: usize = 0;
    while j < previous.len()
        invariant
            j <= previous.len(),
            distinct_keys(previous@),
            distinct_keys(current@),
            distinct_texts(out@),
            text_set(out@) == first_part.union(
                Set::new(
                    |p: Seq<char>|
                        exists|k: int|
                            0 <= k < j && (#[trigger] previous@[k]).0@ == p && snapshot_get(
                                current@,
                                p,
                            ) is None,
                ),
            ),
        decreases previous.len() - j,
    {
        let path = &previous[j].0;
        let ghost before = text_set(out@);
        let in_current = lookup(current, path);
        if in_current.is_none() {
            push_unique(&mut out, path);
        }
        assert(text_set(out@) =~= first_part.union(
            Set::new(
                |p: Seq<char>|
                    exists|k: int|
                        0 <= k < j + 1 && (#[trigger] previous@[k]).0@ == p && snapshot_get(
                            current@,
                            p,
                        ) is None,
            ),
        )) by {
            assert forall|p: Seq<char>|
                (exists|k: int|
                    0 <= k < j + 1 && (#[trigger] previous@[k]).0@ == p && snapshot_get(
                        current@,
                        p,
                    ) is None) implies text_set(out@).contains(p) by {
                let k = choose|k: int|
                    0 <= k < j + 1 && (#[trigger] previous@[k]).0@ == p && snapshot_get(
                        current@,
                        p,
                    ) is None;
                if k < j {
                    assert(before.contains(p));
                }
            }
        }
        j = j + 1;
    }
    assert forall|p: Seq<char>| text_set(out@).contains(p) == changed_paths(
        previous@,
        current@,
    ).contains(p) by {
        if snapshot_keys(current@).contains(p) {
            let k = choose|k: int| 0 <= k < current@.len() && (#[trigger] current@[k]).0@ == p;
            assert(snapshot_get(current@, p) == Some(current@[k].1)) by {
                let c = choose|c: int| 0 <= c < current@.len() && (#[trigger] current@[c]).0@ == p;
                if c != k {
                    assert(current@[c].0@ != current@[k].0@);
                }
            }
        }
        if snapshot_keys(previous@).contains(p) {
            let k = choose|k: int| 0 <= k < previous@.len() && (#[trigger] previous@[k]).0@ == p;
            assert(snapshot_keys(previous@).contains(previous@[k].0@));
        }
    }
    assert(text_set(out@) =~= changed_paths(previous@, current@));
    out
}

// ---------------------------------------------------------------------------
// Debouncing watcher events
// ---------------------------------------------------------------------------

/// Changed paths reported together by the watcher.
#[derive(Debug, Clone)]
pub struct WatcherEventBatch {
    pub generation: u64,
    pub dirty_paths: Vec<String>,
    pub window_elapsed_ms: u128,
}

/// Gathers bursts of file-system changes and releases them as one batch once
/// no change has arrived for a full debounce window. Times are monotonic
/// clock readings in nanoseconds.
#[derive(Debug)]
pub struct DebounceCoordinator {
    pub debounce_window_ns: u64,
    pub dirty_paths: Vec<String>,
    pub first_event_at: Option<u64>,
    pub last_event_at: Option<u64>,
    pub next_generation: u64,
}

impl DebounceCoordinator {
    /// The coordinator's paths are held without repeats.
    pub open spec fn wf(&self) -> bool {
        distinct_texts(self.dirty_paths@)
    }

    pub fn new(debounce_window_ns: u64) -> (d: DebounceCoordinator)
        ensures
            d.wf(),
            d.debounce_window_ns == debounce_window_ns,
            d.dirty_paths@.len() == 0,
            d.first_event_at is None,
            d.last_event_at is None,
            d.next_generation == 1,
    {
        DebounceCoordinator {
            debounce_window_ns,
            dirty_paths: Vec::new(),
            first_event_at: None,
            last_event_at: None,
            next_generation: 1,
        }
    }

    /// What `ingest` does: from `pre`, recording `paths` at time `at`, to
    /// `post`.
    pub open spec fn ingest_post(
        pre: DebounceCoordinator,
        paths: Seq<String>,
        at: u64,
        post: DebounceCoordinator,
    ) -> bool {
        &&& post.debounce_window_ns == pre.debounce_window_ns
        &&& post.next_generation == pre.next_generation
        &&& post.first_event_at == (match pre.first_event_at {
            Some(t) => Some(t),
            None => Some(at),
        })
        &&& post.last_event_at == Some(at)
        &&& text_set(post.dirty_paths@) == text_set(pre.dirty_paths@).union(text_set(paths))
    }

    /// Records changed paths seen at time `at`.
    pub fn ingest(&mut self, dirty_paths: Vec<String>, at: u64)
        requires
            old(self).wf(),
        ensures
            final(self).wf(),
            Self::ingest_post(*old(self), dirty_paths@, at, *final(self)),
    {
        if self.first_event_at.is_none() {
            self.first_event_at = Some(at);
        }
        self.last_event_at = Some(at);
        let ghost start = text_set(self.dirty_paths@);
        let mut i: usize = 0;
        while i < dirty_paths.len()
            invariant
                i <= dirty_paths.len(),
                self.debounce_window_ns == old(self).debounce_window_ns,
                self.next_generation == old(self).next_generation,
                self.first_event_at == (match old(self).first_event_at {
                    Some(t) => Some(t),
                    None => Some(at),
                }),
                self.last_event_at == Some(at),
                distinct_texts(self.dirty_paths@),
                text_set(self.dirty_paths@) == start.union(text_set(dirty_paths@.take(i as int))),
            decreases dirty_paths.len() - i,
        {
            let ghost before = text_set(self.dirty_paths@);
            push_unique(&mut self.dirty_paths, &dirty_paths[i]);
            proof {
                let t = dirty_paths@.take(i + 1);
                assert(text_set(t) =~= text_set(dirty_paths@.take(i as int)).insert(
                    dirty_paths@[i as int]@,
                )) by {
                    assert forall|q: Seq<char>| text_set(t).contains(q) implies text_set(
                        dirty_paths@.take(i as int),
                    ).insert(dirty_paths@[i as int]@).contains(q) by {
                        let k = choose|k: int| 0 <= k < t.len() && (#[trigger] t[k])@ == q;
                        if k < i {
                            assert(dirty_paths@.take(i as int)[k] == t[k]);
                        }
                    }
                    assert forall|q: Seq<char>| text_set(dirty_paths@.take(i as int)).contains(q)
                        implies text_set(t).contains(q) by {
                        let k = choose|k: int|
                            0 <= k < i && (#[trigger] dirty_paths@.take(i as int)[k])@ == q;
                        assert(t[k] == dirty_paths@.take(i as int)[k]);
                    }
                    assert(t[i as int] == dirty_paths@[i as int]);
                }
                assert(text_set(self.dirty_paths@) =~= start.union(text_set(t)));
            }
            i = i + 1;
        }
        assert(dirty_paths@.take(dirty_paths.len() as int) =~= dirty_paths@);
    }

    /// What `try_emit` does: from `pre` at time `now` to `post`, returning `b`.
    pub open spec fn try_emit_post(
        pre: DebounceCoordinator,
        now: u64,
        post: DebounceCoordinator,
        b: Option<WatcherEventBatch>,
    ) -> bool {
        &&& post.debounce_window_ns == pre.debounce_window_ns
        &&& match pre.last_event_at {
            None => b is None && post == pre,
            Some(last) => if (if now >= last {
                now - last
            } else {
                0
            }) < pre.debounce_window_ns {
                b is None && post == pre
            } else if pre.dirty_paths@.len() == 0 {
                &&& b is None
                &&& post.first_event_at is None
                &&& post.last_event_at is None
                &&& post.dirty_paths@ == pre.dirty_paths@
                &&& post.next_generation == pre.next_generation
            } else {
                &&& b matches Some(batch)
                &&& batch.generation == pre.next_generation
                &&& batch.dirty_paths@ == pre.dirty_paths@
                &&& batch.window_elapsed_ms == match pre.first_event_at {
                    Some(start) => (if now >= start {
                        now - start
                    } else {
                        0
                    }) / 1_000_000,
                    None => 0,
                }
                &&& post.next_generation == if pre.next_generation == u64::MAX {
                    u64::MAX
                } else {
                    (pre.next_generation + 1) as u64
                }
                &&& post.dirty_paths@.len() == 0
                &&& post.first_event_at is None
                &&& post.last_event_at is None
            }
        }
    }

    /// Releases the gathered paths as a batch once a full window has passed
    /// since the last change; a quiet window with nothing gathered just
    /// resets the timers. Each batch gets the next generation number.
    /// Over a whole run of calls from `new`, `law_debounce_run` states what
    /// each call returns.
    pub fn try_emit(&mut self, now: u64) -> (b: Option<WatcherEventBatch>)
        requires
            old(self).wf(),
        ensures
            final(self).wf(),
            final(self).debounce_window_ns == old(self).debounce_window_ns,
            Self::try_emit_post(*old(self), now, *final(self), b),
    {
        let last = match self.last_event_at {
            Some(t) => t,
            None => return None,
        };
        if now.saturating_sub(last) < self.debounce_window_ns {
            return None;
        }
        if self.dirty_paths.len() == 0 {
            self.first_event_at = None;
            self.last_event_at = None;
            return None;
        }
        let generation = self.next_generation;
        self.next_generation = self.next_generation.saturating_add(1);
        let window_elapsed_ms: u128 = match self.first_event_at {
            Some(start) => (now.saturating_sub(start) / 1_000_000) as u128,
            None => 0,
        };
        let mut dirty_paths: Vec<String> = Vec::new();
        std::mem::swap(&mut dirty_paths, &mut self.dirty_paths);
        self.first_event_at = None;
        self.last_event_at = None;
        Some(WatcherEventBatch { generation, dirty_paths, window_elapsed_ms })
    }
}

/// Two batches released one after the other, with changes recorded in
/// between, carry increasing generation numbers (until the counter
/// saturates), and a released batch holds exactly the paths gathered since
/// the previous release.
pub proof fn law_debounce_generations_increase(
    d0: DebounceCoordinator,
    t1: u64,
    d1: DebounceCoordinator,
    b1: WatcherEventBatch,
    paths: Seq<String>,
    at: u64,
    d2: DebounceCoordinator,
    t2: u64,
    d3: DebounceCoordinator,
    b2: WatcherEventBatch,
)
    requires
        DebounceCoordinator::try_emit_post(d0, t1, d1, Some(b1)),
        DebounceCoordinator::ingest_post(d1, paths, at, d2),
        DebounceCoordinator::try_emit_post(d2, t2, d3, Some(b2)),
        d0.next_generation < u64::MAX,
    ensures
        b1.generation < b2.generation,
        b2.generation == b1.generation + 1,
        text_set(b2.dirty_paths@) == text_set(paths),
{
    assert(text_set(d1.dirty_paths@) =~= Set::<Seq<char>>::empty());
}

/// One call on a debounce coordinator: `ingest(paths, time)` when the flag
/// is set, otherwise `try_emit(time)` (its paths are then unused).
pub type WatchCall = (bool, Seq<String>, u64);

/// Whether `ds` and `outs` are the states and results of making `calls` one
/// after the other, starting from `ds[0]`.
pub open spec fn debounce_run(
    calls: Seq<WatchCall>,
    ds: Seq<DebounceCoordinator>,
    outs: Seq<Option<WatcherEventBatch>>,
) -> bool {
    &&& ds.len() == calls.len() + 1
    &&& outs.len() == calls.len()
    &&& forall|i: int|
        0 <= i < calls.len() ==> if (#[trigger] calls[i]).0 {
            DebounceCoordinator::ingest_post(ds[i], calls[i].1, calls[i].2, ds[i + 1])
                && outs[i] is None
        } else {
            DebounceCoordinator::try_emit_post(ds[i], calls[i].2, ds[i + 1], outs[i])
        }
}

/// The paths the first `n` calls gathered since the last batch.
pub open spec fn gathered(
    calls: Seq<WatchCall>,
    outs: Seq<Option<WatcherEventBatch>>,
    n: nat,
) -> Set<Seq<char>>
    decreases n,
{
    if n == 0 {
        Set::empty()
    } else if outs[n - 1] is Some {
        Set::empty()
    } else if calls[n - 1].0 {
        gathered(calls, outs, (n - 1) as nat).union(text_set(calls[n - 1].1))
    } else {
        gathered(calls, outs, (n - 1) as nat)
    }
}

/// The time of the first change among the first `n` calls since the last
/// batch.
pub open spec fn first_change(
    calls: Seq<WatchCall>,
    outs: Seq<Option<WatcherEventBatch>>,
    n: nat,
) -> Option<u64>
    decreases n,
{
    if n == 0 {
        None
    } else if outs[n - 1] is Some {
        None
    } else if calls[n - 1].0 {
        match first_change(calls, outs, (n - 1) as nat) {
            Some(t) => Some(t),
            None => Some(calls[n - 1].2),
        }
    } else {
        first_change(calls, outs, (n - 1) as nat)
    }
}

/// The time of the latest change among the first `n` calls since the last
/// batch.
pub open spec fn last_change(
    calls: Seq<WatchCall>,
    outs: Seq<Option<WatcherEventBatch>>,
    n: nat,
) -> Option<u64>
    decreases n,
{
    if n == 0 {
        None
    } else if outs[n - 1] is Some {
        None
    } else if calls[n - 1].0 {
        Some(calls[n - 1].2)
    } else {
        last_change(calls, outs, (n - 1) as nat)
    }
}

/// How many of the first `n` calls returned a batch.
pub open spec fn batches_released(outs: Seq<Option<WatcherEventBatch>>, n: nat) -> nat
    decreases n,
{
    if n == 0 {
        0
    } else if outs[n - 1] is Some {
        batches_released(outs, (n - 1) as nat) + 1
    } else {
        batches_released(outs, (n - 1) as nat)
    }
}

/// The generation number after `k` batches, stopping at the largest value.
pub open spec fn generation_after(k: nat) -> u64 {
    if k + 1 <= u64::MAX {
        (k + 1) as u64
    } else {
        u64::MAX
    }
}

/// Time passed from `from` to `now`, zero when the clock went back.
pub open spec fn elapsed_since(now: u64, from: u64) -> int {
    if now >= from {
        now - from
    } else {
        0
    }
}

/// Whether a coordinator is as `new` leaves it.
pub open spec fn fresh_coordinator(d: DebounceCoordinator) -> bool {
    &&& d.dirty_paths@.len() == 0
    &&& d.first_event_at is None
    &&& d.last_event_at is None
    &&& d.next_generation == 1
}

/// What the `i`-th call, a `try_emit`, returns in a run.
pub open spec fn emit_outcome(
    calls: Seq<WatchCall>,
    ds: Seq<DebounceCoordinator>,
    outs: Seq<Option<WatcherEventBatch>>,
    i: int,
) -> bool {
    match last_change(calls, outs, i as nat) {
        None => outs[i] is None && ds[i + 1] == ds[i],
        Some(l) => if elapsed_since(calls[i].2, l) < ds[0].debounce_window_ns {
            outs[i] is None && ds[i + 1] == ds[i]
        } else {
            &&& outs[i] matches Some(b)
            &&& b.generation == generation_after(batches_released(outs, i as nat))
            &&& b.dirty_paths@.len() > 0
            &&& text_set(b.dirty_paths@) == gathered(calls, outs, i as nat)
            &&& b.window_elapsed_ms == elapsed_since(
                calls[i].2,
                first_change(calls, outs, i as nat)->0,
            ) / 1_000_000
            &&& last_change(calls, outs, (i + 1) as nat) is None
        },
    }
}

proof fn lemma_debounce_run(
    calls: Seq<WatchCall>,
    ds: Seq<DebounceCoordinator>,
    outs: Seq<Option<WatcherEventBatch>>,
    n: nat,
)
    requires
        debounce_run(calls, ds, outs),
        fresh_coordinator(ds[0]),
        forall|i: int| 0 <= i < calls.len() && (#[trigger] calls[i]).0 ==> calls[i].1.len() > 0,
        n <= calls.len(),
    ensures
        text_set(ds[n as int].dirty_paths@) == gathered(calls, outs, n),
        ds[n as int].first_event_at == first_change(calls, outs, n),
        ds[n as int].last_event_at == last_change(calls, outs, n),
        ds[n as int].next_generation == generation_after(batches_released(outs, n)),
        ds[n as int].debounce_window_ns == ds[0].debounce_window_ns,
        (ds[n as int].dirty_paths@.len() == 0) == (last_change(calls, outs, n) is None),
        (first_change(calls, outs, n) is None) == (last_change(calls, outs, n) is None),
    decreases n,
{
    if n == 0 {
        assert(text_set(ds[0].dirty_paths@) =~= Set::<Seq<char>>::empty());
    } else {
        let m = (n - 1) as nat;
        lemma_debounce_run(calls, ds, outs, m);
        let c = calls[m as int];
        let pre = ds[m as int];
        let post = ds[n as int];
        if c.0 {
            assert(DebounceCoordinator::ingest_post(pre, c.1, c.2, post));
            assert(text_set(c.1).contains(c.1[0]@));
            assert(text_set(post.dirty_paths@).contains(c.1[0]@));
            assert(post.dirty_paths@.len() > 0);
        } else {
            assert(DebounceCoordinator::try_emit_post(pre, c.2, post, outs[m as int]));
            if outs[m as int] is Some {
                assert(text_set(post.dirty_paths@) =~= Set::<Seq<char>>::empty());
            }
        }
    }
}

/// Running a fresh coordinator through `ingest` and `try_emit` calls, each
/// `ingest` with at least one path: a `try_emit` returns a batch exactly when
/// something was gathered since the last batch and no change came for a full
/// window. The batch holds exactly the paths gathered since the last batch,
/// carries the next generation number (1 for the first, counting up) and the
/// time since the first of those changes, and afterwards nothing is
/// gathered, so a `try_emit` right after returns nothing. A `try_emit` that
/// returns nothing leaves the coordinator as it was.
pub proof fn law_debounce_run(
    calls: Seq<WatchCall>,
    ds: Seq<DebounceCoordinator>,
    outs: Seq<Option<WatcherEventBatch>>,
)
    requires
        debounce_run(calls, ds, outs),
        fresh_coordinator(ds[0]),
        forall|i: int| 0 <= i < calls.len() && (#[trigger] calls[i]).0 ==> calls[i].1.len() > 0,
    ensures
        forall|i: int|
            0 <= i < calls.len() && !(#[trigger] calls[i]).0 ==> emit_outcome(calls, ds, outs, i),
{
    assert forall|i: int| 0 <= i < calls.len() && !(#[trigger] calls[i]).0 implies emit_outcome(
        calls,
        ds,
        outs,
        i,
    ) by {
        lemma_debounce_run(calls, ds, outs, i as nat);
        let pre = ds[i];
        let post = ds[i + 1];
        assert(DebounceCoordinator::try_emit_post(pre, calls[i].2, post, outs[i]));
        if outs[i] is Some {
            let b = outs[i]->0;
            assert(text_set(b.dirty_paths@) =~= text_set(pre.dirty_paths@));
            assert(last_change(calls, outs, (i + 1) as nat) is None);
        }
    }
}

// ---------------------------------------------------------------------------
// Scheduling rescans
// ---------------------------------------------------------------------------

/// Bookkeeping of background rescans: at most one runs at a time, requests
/// made meanwhile are remembered and answered by a follow-up scan.
#[derive(Debug)]
pub struct ScanScheduler {
    pub scan_in_progress: bool,
    pub scan_pending_rescan: bool,
    pub scan_pending_dirty_paths: Vec<String>,
    pub scan_generation: u64,
    pub scan_last_completed_generation: u64,
}

/// `g + 1`, stopping at the largest value.
pub open spec fn next_generation_of(g: u64) -> u64 {
    if g == u64::MAX {
        u64::MAX
    } else {
        (g + 1) as u64
    }
}

/// The scan generation once a watcher batch of generation `batch_gen` has
/// been seen: at least one below the batch's.
pub open spec fn watcher_floor(current: u64, batch_gen: u64) -> u64 {
    let f = if batch_gen == 0 {
        0
    } else {
        (batch_gen - 1) as u64
    };
    if current >= f {
        current
    } else {
        f
    }
}

fn sat_inc(x: u64) -> (r: u64)
    ensures
        r == if x == u64::MAX {
            u64::MAX
        } else {
            (x + 1) as u64
        },
{
    x.saturating_add(1)
}

impl ScanScheduler {
    pub open spec fn wf(&self) -> bool {
        distinct_texts(self.scan_pending_dirty_paths@)
    }

    pub fn new() -> (s: ScanScheduler)
        ensures
            s.wf(),
            !s.scan_in_progress,
            !s.scan_pending_rescan,
            s.scan_pending_dirty_paths@.len() == 0,
            s.scan_generation == 0,
            s.scan_last_completed_generation == 0,
    {
        ScanScheduler {
            scan_in_progress: false,
            scan_pending_rescan: false,
            scan_pending_dirty_paths: Vec::new(),
            scan_generation: 0,
            scan_last_completed_generation: 0,
        }
    }

    /// What `request_scan` does: from `pre`, asked to scan `dirty_paths`, to
    /// `post`, returning `started`.
    pub open spec fn request_post(
        pre: ScanScheduler,
        dirty_paths: Seq<String>,
        post: ScanScheduler,
        started: bool,
    ) -> bool {
        &&& post.scan_in_progress
        &&& post.scan_last_completed_generation == pre.scan_last_completed_generation
        &&& started == !pre.scan_in_progress
        &&& started ==> {
            &&& post.scan_generation == if pre.scan_generation == u64::MAX {
                u64::MAX
            } else {
                (pre.scan_generation + 1) as u64
            }
            &&& !post.scan_pending_rescan
            &&& post.scan_pending_dirty_paths@.len() == 0
        }
        &&& !started ==> {
            &&& post.scan_generation == pre.scan_generation
            &&& post.scan_pending_rescan
            &&& text_set(post.scan_pending_dirty_paths@) == text_set(
                pre.scan_pending_dirty_paths@,
            ).union(text_set(dirty_paths))
        }
    }

    /// Asks for a rescan. When none runs, one starts (the caller launches the
    /// worker) with the next generation number and nothing left pending;
    /// otherwise the request is remembered for a follow-up. Returns whether a
    /// scan started.
    pub fn request_scan(&mut self, dirty_paths: Vec<String>) -> (started: bool)
        requires
            old(self).wf(),
        ensures
            final(self).wf(),
            Self::request_post(*old(self), dirty_paths@, *final(self), started),
    {
        let ghost start = text_set(self.scan_pending_dirty_paths@);
        let mut i: usize = 0;
        while i < dirty_paths.len()
            invariant
                i <= dirty_paths.len(),
                self.scan_in_progress == old(self).scan_in_progress,
                self.scan_pending_rescan == old(self).scan_pending_rescan,
                self.scan_generation == old(self).scan_generation,
                self.scan_last_completed_generation == old(self).scan_last_completed_generation,
                distinct_texts(self.scan_pending_dirty_paths@),
                text_set(self.scan_pending_dirty_paths@) == start.union(
                    text_set(dirty_paths@.take(i as int)),
                ),
            decreases dirty_paths.len() - i,
        {
            push_unique(&mut self.scan_pending_dirty_paths, &dirty_paths[i]);
            proof {
                let t = dirty_paths@.take(i + 1);
                assert(text_set(t) =~= text_set(dirty_paths@.take(i as int)).insert(
                    dirty_paths@[i as int]@,
                )) by {
                    assert forall|q: Seq<char>| text_set(t).contains(q) implies text_set(
                        dirty_paths@.take(i as int),
                    ).insert(dirty_paths@[i as int]@).contains(q) by {
                        let k = choose|k: int| 0 <= k < t.len() && (#[trigger] t[k])@ == q;
                        if k < i {
                            assert(dirty_paths@.take(i as int)[k] == t[k]);
                        }
                    }
                    assert forall|q: Seq<char>| text_set(dirty_paths@.take(i as int)).contains(q)
                        implies text_set(t).contains(q) by {
                        let k = choose|k: int|
                            0 <= k < i && (#[trigger] dirty_paths@.take(i as int)[k])@ == q;
                        assert(t[k] == dirty_paths@.take(i as int)[k]);
                    }
                    assert(t[i as int] == dirty_paths@[i as int]);
                }
                assert(text_set(self.scan_pending_dirty_paths@) =~= start.union(text_set(t)));
            }
            i = i + 1;
        }
        assert(dirty_paths@.take(dirty_paths.len() as int) =~= dirty_paths@);
        if self.scan_in_progress {
            self.scan_pending_rescan = true;
            return false;
        }
        self.scan_in_progress = true;
        self.scan_generation = sat_inc(self.scan_generation);
        self.scan_pending_rescan = false;
        self.scan_pending_dirty_paths = Vec::new();
        true
    }

    /// Takes the pending follow-up work, if any: returns how many paths were
    /// pending and starts the follow-up scan.
    fn start_follow_up(&mut self) -> (r: Option<(usize, bool)>)
        requires
            old(self).wf(),
            !old(self).scan_in_progress,
        ensures
            final(self).wf(),
            final(self).scan_last_completed_generation == old(self).scan_last_completed_generation,
            (old(self).scan_pending_rescan || old(self).scan_pending_dirty_paths@.len() > 0) ==> {
                &&& r matches Some((n, st)) && n as int == old(self).scan_pending_dirty_paths@.len()
                    && st
                &&& final(self).scan_in_progress
                &&& !final(self).scan_pending_rescan
                &&& final(self).scan_pending_dirty_paths@.len() == 0
                &&& final(self).scan_generation == if old(self).scan_generation == u64::MAX {
                    u64::MAX
                } else {
                    (old(self).scan_generation + 1) as u64
                }
            },
            !(old(self).scan_pending_rescan || old(self).scan_pending_dirty_paths@.len() > 0) ==> r
                is None && *final(self) == *old(self),
    {
        if self.scan_pending_rescan || self.scan_pending_dirty_paths.len() > 0 {
            let pending = self.scan_pending_dirty_paths.len();
            let mut next_dirty: Vec<String> = Vec::new();
            std::mem::swap(&mut next_dirty, &mut self.scan_pending_dirty_paths);
            self.scan_pending_rescan = false;
            let started = self.request_scan(next_dirty);
            Some((pending, started))
        } else {
            None
        }
    }

    /// What `on_scan_applied` does: from `pre`, told what the finished scan
    /// did, to `post`, returning the status line and whether a follow-up scan
    /// started.
    pub open spec fn applied_post(
        pre: ScanScheduler,
        scanned: usize,
        removed: usize,
        warnings: usize,
        post: ScanScheduler,
        r: (String, bool),
    ) -> bool {
        &&& post.scan_last_completed_generation == pre.scan_generation
        &&& r.1 == (pre.scan_pending_rescan || pre.scan_pending_dirty_paths@.len() > 0)
        &&& r.1 ==> post.scan_in_progress && !post.scan_pending_rescan
            && post.scan_pending_dirty_paths@.len() == 0
        &&& r.1 ==> post.scan_generation == next_generation_of(pre.scan_generation)
        &&& !r.1 ==> !post.scan_in_progress && post.scan_generation == pre.scan_generation
            && post.scan_pending_rescan == pre.scan_pending_rescan
            && post.scan_pending_dirty_paths@ == pre.scan_pending_dirty_paths@
        &&& r.0@ == scan_complete_text(scanned as nat, removed as nat, warnings as nat) + if r.1 {
            "; follow-up scan queued ("@ + dec(pre.scan_pending_dirty_paths@.len())
                + " pending paths)"@
        } else {
            Seq::empty()
        }
    }

    /// A scan finished and its result was applied: records the completed
    /// generation, launches a follow-up scan when work is pending, and
    /// returns the status line.
    pub fn on_scan_applied(&mut self, scanned: usize, removed: usize, warnings: usize) -> (r: (
        String,
        bool,
    ))
        requires
            old(self).wf(),
        ensures
            final(self).wf(),
            Self::applied_post(*old(self), scanned, removed, warnings, *final(self), r),
    {
        self.scan_in_progress = false;
        self.scan_last_completed_generation = self.scan_generation;
        let mut v = chars_of(scan_complete_message(scanned, removed, warnings).as_str());
        let follow = self.start_follow_up();
        match follow {
            Some((pending, _)) => {
                let ghost base = v@;
                extend_chars(&mut v, "; follow-up scan queued (");
                let n = u64_text(pending as u64);
                extend_chars(&mut v, n.as_str());
                extend_chars(&mut v, " pending paths)");
                assert(v@ =~= base + ("; follow-up scan queued ("@ + n@ + " pending paths)"@));
                (string_of(&v), true)
            },
            None => {
                assert(v@ =~= v@ + Seq::<char>::empty());
                (string_of(&v), false)
            },
        }
    }

    /// Applying a finished scan failed: the scan is over, nothing else
    /// changes.
    pub fn on_apply_failed(&mut self, error: &str) -> (msg: String)
        ensures
            !final(self).scan_in_progress,
            final(self).scan_pending_rescan == old(self).scan_pending_rescan,
            final(self).scan_pending_dirty_paths@ == old(self).scan_pending_dirty_paths@,
            final(self).scan_generation == old(self).scan_generation,
            final(self).scan_last_completed_generation == old(self).scan_last_completed_generation,
            msg@ == "Rescan failed: "@ + error@,
    {
        self.scan_in_progress = false;
        concat("Rescan failed: ", error)
    }

    /// The scan worker reported an error: the scan is over, and a retry
    /// starts when work is pending.
    pub fn on_scan_error(&mut self, error: &str) -> (r: (String, bool))
        requires
            old(self).wf(),
        ensures
            final(self).wf(),
            final(self).scan_last_completed_generation == old(self).scan_last_completed_generation,
            r.1 == (old(self).scan_pending_rescan || old(self).scan_pending_dirty_paths@.len() > 0),
            r.1 ==> final(self).scan_in_progress && !final(self).scan_pending_rescan
                && final(self).scan_pending_dirty_paths@.len() == 0 && final(self).scan_generation
                == next_generation_of(old(self).scan_generation),
            !r.1 ==> !final(self).scan_in_progress && final(self).scan_generation == old(
                self,
            ).scan_generation && final(self).scan_pending_rescan == old(self).scan_pending_rescan
                && final(self).scan_pending_dirty_paths@ == old(self).scan_pending_dirty_paths@,
            r.0@ == "Rescan failed: "@ + error@ + if r.1 {
                "; retry scan queued ("@ + dec(old(self).scan_pending_dirty_paths@.len())
                    + " pending paths)"@
            } else {
                Seq::empty()
            },
    {
        self.scan_in_progress = false;
        let mut v = chars_of("Rescan failed: ");
        extend_chars(&mut v, error);
        match self.start_follow_up() {
            Some((pending, _)) => {
                let ghost base = v@;
                extend_chars(&mut v, "; retry scan queued (");
                let n = u64_text(pending as u64);
                extend_chars(&mut v, n.as_str());
                extend_chars(&mut v, " pending paths)");
                assert(v@ =~= base + ("; retry scan queued ("@ + n@ + " pending paths)"@));
                (string_of(&v), true)
            },
            None => {
                assert(v@ =~= v@ + Seq::<char>::empty());
                (string_of(&v), false)
            },
        }
    }

    /// The scan worker went away without an answer.
    pub fn on_worker_disconnected(&mut self) -> (msg: String)
        ensures
            !final(self).scan_in_progress,
            final(self).scan_pending_rescan == old(self).scan_pending_rescan,
            final(self).scan_pending_dirty_paths@ == old(self).scan_pending_dirty_paths@,
            final(self).scan_generation == old(self).scan_generation,
            final(self).scan_last_completed_generation == old(self).scan_last_completed_generation,
            msg@ == "Rescan failed: worker disconnected"@,
    {
        self.scan_in_progress = false;
        crate::text::owned("Rescan failed: worker disconnected")
    }

    /// What `on_watcher_batch` does to the scheduler: the generation counter
    /// is raised to one below the batch's when it is lower, and then the
    /// batch's paths are requested as `request_scan` does, which queues them
    /// for a follow-up scan while a scan runs.
    pub open spec fn watcher_post(
        pre: ScanScheduler,
        batch: WatcherEventBatch,
        post: ScanScheduler,
        started: bool,
    ) -> bool {
        Self::request_post(
            ScanScheduler {
                scan_generation: watcher_floor(pre.scan_generation, batch.generation),
                ..pre
            },
            batch.dirty_paths@,
            post,
            started,
        )
    }

    /// The watcher reported a batch of changes: the generation counter catches
    /// up with the watcher's, a scan of the changed paths is requested, and
    /// the status line says whether it started or was queued.
    pub fn on_watcher_batch(&mut self, batch: WatcherEventBatch) -> (r: (String, bool))
        requires
            old(self).wf(),
        ensures
            final(self).wf(),
            Self::watcher_post(*old(self), batch, *final(self), r.1),
            r.1 ==> r.0@ == "Watcher refresh scheduled (gen "@ + dec(batch.generation as nat)
                + ", "@ + dec(batch.dirty_paths@.len()) + " changes, "@ + dec(
                batch.window_elapsed_ms as nat,
            ) + "ms window)"@,
            !r.1 ==> r.0@ == "Watcher changes queued (gen "@ + dec(batch.generation as nat)
                + ", "@ + dec(batch.dirty_paths@.len()) + " changes)"@,
    {
        let floor = batch.generation.saturating_sub(1);
        if floor > self.scan_generation {
            self.scan_generation = floor;
        }
        let count = batch.dirty_paths.len();
        let generation = batch.generation;
        let window = batch.window_elapsed_ms;
        let started = self.request_scan(batch.dirty_paths);
        let mut v: Vec<char>;
        if started {
            v = chars_of("Watcher refresh scheduled (gen ");
            extend_chars(&mut v, u64_text(generation).as_str());
            extend_chars(&mut v, ", ");
            extend_chars(&mut v, u64_text(count as u64).as_str());
            extend_chars(&mut v, " changes, ");
            extend_chars(&mut v, u128_text(window).as_str());
            extend_chars(&mut v, "ms window)");
        } else {
            v = chars_of("Watcher changes queued (gen ");
            extend_chars(&mut v, u64_text(generation).as_str());
            extend_chars(&mut v, ", ");
            extend_chars(&mut v, u64_text(count as u64).as_str());
            extend_chars(&mut v, " changes)");
        }
        (string_of(&v), started)
    }

    /// The watcher reported an error.
    pub fn on_watcher_error(error: &str) -> (msg: String)
        ensures
            msg@ == "Watcher error: "@ + error@,
    {
        concat("Watcher error: ", error)
    }
}

/// The status line of a completed rescan.
pub open spec fn scan_complete_text(scanned: nat, removed: nat, warnings: nat) -> Seq<char> {
    if warnings > 0 {
        "Rescan complete ("@ + dec(scanned) + " scanned, "@ + dec(removed) + " removed, "@ + dec(
            warnings,
        ) + " warnings)"@
    } else {
        "Rescan complete ("@ + dec(scanned) + " scanned, "@ + dec(removed) + " removed)"@
    }
}

/// The status line of a completed rescan.
pub fn scan_complete_message(scanned: usize, removed: usize, warnings: usize) -> (m: String)
    ensures
        m@ == scan_complete_text(scanned as nat, removed as nat, warnings as nat),
{
    let mut v = chars_of("Rescan complete (");
    extend_chars(&mut v, u64_text(scanned as u64).as_str());
    extend_chars(&mut v, " scanned, ");
    extend_chars(&mut v, u64_text(removed as u64).as_str());
    if warnings > 0 {
        extend_chars(&mut v, " removed, ");
        extend_chars(&mut v, u64_text(warnings as u64).as_str());
        extend_chars(&mut v, " warnings)");
    } else {
        extend_chars(&mut v, " removed)");
    }
    string_of(&v)
}

/// Decimal digits of a `u128`.
pub fn u128_text(n: u128) -> (s: String)
    ensures
        s@ == dec(n as nat),
    decreases n,
{
    if n < 10 {
        u64_text(n as u64)
    } else {
        let mut v = chars_of(u128_text(n / 10).as_str());
        let d = u64_text((n % 10) as u64);
        extend_chars(&mut v, d.as_str());
        proof {
            reveal_with_fuel(dec, 2);
        }
        string_of(&v)
    }
}

/// Watcher changes that arrive while a scan runs are not lost: their paths
/// are queued with the rescan flag set, and when the running scan completes a
/// follow-up scan starts at once with a new generation number; changes that
/// arrive while idle start a scan themselves.
pub proof fn law_watcher_changes_not_lost(
    s0: ScanScheduler,
    batch: WatcherEventBatch,
    s1: ScanScheduler,
    started: bool,
    scanned: usize,
    removed: usize,
    warnings: usize,
    s2: ScanScheduler,
    r: (String, bool),
)
    requires
        ScanScheduler::watcher_post(s0, batch, s1, started),
        ScanScheduler::applied_post(s1, scanned, removed, warnings, s2, r),
    ensures
        !s0.scan_in_progress ==> started && s1.scan_in_progress,
        s0.scan_in_progress ==> {
            &&& !started
            &&& s1.scan_pending_rescan
            &&& text_set(batch.dirty_paths@).subset_of(text_set(s1.scan_pending_dirty_paths@))
            &&& r.1
            &&& s2.scan_in_progress
            &&& s2.scan_generation == next_generation_of(s1.scan_generation)
        },
{
}

/// A rescan asked for while another one runs is not lost: the request does
/// not start a second scan, and when the running scan completes a follow-up
/// scan starts at once; a request while idle starts a scan with a new
/// generation number.
pub proof fn law_scan_requests_not_lost(
    s0: ScanScheduler,
    dirty: Seq<String>,
    s1: ScanScheduler,
    started: bool,
    scanned: usize,
    removed: usize,
    warnings: usize,
    s2: ScanScheduler,
    r: (String, bool),
)
    requires
        ScanScheduler::request_post(s0, dirty, s1, started),
        ScanScheduler::applied_post(s1, scanned, removed, warnings, s2, r),
    ensures
        s0.scan_in_progress ==> !started && r.1 && s2.scan_in_progress,
        !s0.scan_in_progress && s0.scan_generation < u64::MAX ==> started && s1.scan_generation
            == s0.scan_generation + 1,
        s2.scan_last_completed_generation == s1.scan_generation,
{
}


// ---------------------------------------------------------------------------
// The watcher's loop
// ---------------------------------------------------------------------------

/// Records a file's modification time in a snapshot, replacing an earlier
/// entry for the same path (a later sighting wins, as a map insert does).
pub fn snapshot_insert(snapshot: &mut Vec<(String, i64)>, path: String, mtime: i64)
    requires
        distinct_keys(old(snapshot)@),
    ensures
        distinct_keys(final(snapshot)@),
        snapshot_keys(final(snapshot)@) == snapshot_keys(old(snapshot)@).insert(path@),
        snapshot_get(final(snapshot)@, path@) == Some(mtime),
        forall|p: Seq<char>| p != path@ ==> snapshot_get(final(snapshot)@, p) == snapshot_get(old(snapshot)@, p),
{
    let ghost pre = snapshot@;
    let ghost pv = path@;
    let mut i: usize = 0;
    while i < snapshot.len()
        invariant
            i <= snapshot.len(),
            pv == path@,
            pre == old(snapshot)@,
            snapshot@ == pre,
            distinct_keys(pre),
            forall|k: int| 0 <= k < i ==> (#[trigger] pre[k]).0@ != path@,
        decreases snapshot.len() - i,
    {
        if snapshot[i].0 == path {
            let ghost old_entry = snapshot@[i as int];
            assert(old_entry.0@ == pv);
            snapshot.set(i, (path, mtime));
            proof {
                let post = snapshot@;
                assert(distinct_keys(post)) by {
                    assert forall|a: int, b: int| 0 <= a < b < post.len() implies (#[trigger] post[a]).0@
                        != (#[trigger] post[b]).0@ by {
                        assert(pre[a].0@ != pre[b].0@);
                    }
                }
                assert(snapshot_keys(post) =~= snapshot_keys(pre).insert(old_entry.0@)) by {
                    assert forall|q: Seq<char>| snapshot_keys(post).contains(q) implies snapshot_keys(
                        pre,
                    ).contains(q) by {
                        let k = choose|k: int| 0 <= k < post.len() && (#[trigger] post[k]).0@ == q;
                        assert(pre[k].0@ == q);
                    }
                    assert forall|q: Seq<char>| snapshot_keys(pre).contains(q) implies snapshot_keys(
                        post,
                    ).contains(q) by {
                        let k = choose|k: int| 0 <= k < pre.len() && (#[trigger] pre[k]).0@ == q;
                        assert(post[k].0@ == q);
                    }
                }
                assert(snapshot_get(post, pv) == Some(mtime)) by {
                    assert(post[i as int].0@ == pv);
                    let k = choose|k: int| 0 <= k < post.len() && (#[trigger] post[k]).0@ == pv;
                    if k != i {
                        assert(post[k].0@ != post[i as int].0@);
                    }
                }
                assert forall|p: Seq<char>| p != pv implies snapshot_get(post, p) == snapshot_get(
                    pre,
                    p,
                ) by {
                    if exists|k: int| 0 <= k < post.len() && (#[trigger] post[k]).0@ == p {
                        let k = choose|k: int| 0 <= k < post.len() && (#[trigger] post[k]).0@ == p;
                        assert(k != i);
                        assert(pre[k] == post[k]);
                        let k2 = choose|k2: int| 0 <= k2 < pre.len() && (#[trigger] pre[k2]).0@ == p;
                        if k2 != k {
                            assert(pre[k2].0@ != pre[k].0@);
                        }
                    } else {
                        assert forall|k: int| 0 <= k < pre.len() implies (#[trigger] pre[k]).0@ != p by {
                            if k != i {
                                assert(post[k] == pre[k]);
                            }
                        }
                    }
                }
            }
            return;
        }
        i = i + 1;
    }
    snapshot.push((path, mtime));
    proof {
        let post = snapshot@;
        assert(post[pre.len() as int].0@ == pv);
        assert(distinct_keys(post)) by {
            assert forall|a: int, b: int| 0 <= a < b < post.len() implies (#[trigger] post[a]).0@
                != (#[trigger] post[b]).0@ by {
                if b < pre.len() {
                    assert(pre[a].0@ != pre[b].0@);
                } else {
                    assert(pre[a].0@ != pv);
                }
            }
        }
        assert(snapshot_keys(post) =~= snapshot_keys(pre).insert(pv)) by {
            assert forall|q: Seq<char>| snapshot_keys(post).contains(q) implies snapshot_keys(
                pre,
            ).insert(pv).contains(q) by {
                let k = choose|k: int| 0 <= k < post.len() && (#[trigger] post[k]).0@ == q;
                if k < pre.len() {
                    assert(pre[k].0@ == q);
                }
            }
            assert forall|q: Seq<char>| snapshot_keys(pre).contains(q) implies snapshot_keys(
                post,
            ).contains(q) by {
                let k = choose|k: int| 0 <= k < pre.len() && (#[trigger] pre[k]).0@ == q;
                assert(post[k].0@ == q);
            }
        }
        assert(snapshot_get(post, pv) == Some(mtime)) by {
            let k = choose|k: int| 0 <= k < post.len() && (#[trigger] post[k]).0@ == pv;
            if k < pre.len() {
                assert(pre[k].0@ != pv);
            }
        }
        assert forall|p: Seq<char>| p != pv implies snapshot_get(post, p) == snapshot_get(pre, p) by {
            if exists|k: int| 0 <= k < post.len() && (#[trigger] post[k]).0@ == p {
                let k = choose|k: int| 0 <= k < post.len() && (#[trigger] post[k]).0@ == p;
                assert(k < pre.len());
                assert(pre[k] == post[k]);
                let k2 = choose|k2: int| 0 <= k2 < pre.len() && (#[trigger] pre[k2]).0@ == p;
                if k2 != k {
                    assert(pre[k2].0@ != pre[k].0@);
                }
            } else {
                assert forall|k: int| 0 <= k < pre.len() implies (#[trigger] pre[k]).0@ != p by {
                    assert(post[k] == pre[k]);
                }
            }
        }
    }
}

/// What the watcher remembers between two looks at the music directory.
pub struct WatcherState {
    pub previous: Vec<(String, i64)>,
    pub debounce: DebounceCoordinator,
}

impl WatcherState {
    pub open spec fn wf(&self) -> bool {
        &&& distinct_keys(self.previous@)
        &&& self.debounce.wf()
    }

    /// Starts from a first snapshot of the directory.
    pub fn new(initial: Vec<(String, i64)>, debounce_window_ns: u64) -> (w: WatcherState)
        requires
            distinct_keys(initial@),
        ensures
            w.wf(),
            w.previous@ == initial@,
            w.debounce.debounce_window_ns == debounce_window_ns,
            w.debounce.dirty_paths@.len() == 0,
            w.debounce.last_event_at is None,
            w.debounce.next_generation == 1,
    {
        WatcherState { previous: initial, debounce: DebounceCoordinator::new(debounce_window_ns) }
    }

    /// One look at the directory at time `now`: the paths that changed since
    /// the previous snapshot are gathered (when there are any), a batch is
    /// released if its window has passed, and the new snapshot is kept.
    pub fn on_snapshot(&mut self, current: Vec<(String, i64)>, now: u64) -> (b: Option<WatcherEventBatch>)
        requires
            old(self).wf(),
            distinct_keys(current@),
        ensures
            final(self).wf(),
            final(self).previous@ == current@,
            exists|mid: DebounceCoordinator, changed: Seq<String>|
                #![trigger text_set(changed), DebounceCoordinator::try_emit_post(mid, now, final(self).debounce, b)]
                {
                &&& text_set(changed) == changed_paths(old(self).previous@, current@)
                &&& (changed.len() == 0 ==> mid == old(self).debounce)
                &&& (changed.len() > 0 ==> DebounceCoordinator::ingest_post(
                    old(self).debounce,
                    changed,
                    now,
                    mid,
                ))
                &&& DebounceCoordinator::try_emit_post(mid, now, final(self).debounce, b)
            },
    {
        let changed = detect_changed_paths(&self.previous, &current);
        let ghost ch = changed@;
        if changed.len() > 0 {
            self.debounce.ingest(changed, now);
        }
        let ghost mid = self.debounce;
        let b = self.debounce.try_emit(now);
        self.previous = current;
        proof {
            assert(text_set(ch) == changed_paths(old(self).previous@, current@));
            assert(ch.len() == 0 ==> mid == old(self).debounce);
            assert({
                &&& text_set(ch) == changed_paths(old(self).previous@, current@)
                &&& (ch.len() == 0 ==> mid == old(self).debounce)
                &&& (ch.len() > 0 ==> DebounceCoordinator::ingest_post(
                    old(self).debounce,
                    ch,
                    now,
                    mid,
                ))
                &&& DebounceCoordinator::try_emit_post(mid, now, self.debounce, b)
            });
        }
        b
    }
}

/// The ids of stored tracks whose path the scan did not see, in stored order.
pub open spec fn stale_ids(stored: Seq<(i64, String)>, seen: Set<Seq<char>>) -> Seq<i64>
    decreases stored.len(),
{
    if stored.len() == 0 {
        Seq::empty()
    } else if seen.contains(stored.last().1@) {
        stale_ids(stored.drop_last(), seen)
    } else {
        stale_ids(stored.drop_last(), seen).push(stored.last().0)
    }
}

fn seen_contains(seen: &Vec<String>, p: &String) -> (r: bool)
    ensures
        r == text_set(seen@).contains(p@),
{
    let mut i: usize = 0;
    while i < seen.len()
        invariant
            i <= seen.len(),
            forall|k: int| 0 <= k < i ==> (#[trigger] seen@[k])@ != p@,
        decreases seen.len() - i,
    {
        if seen[i] == *p {
            return true;
        }
        i = i + 1;
    }
    false
}

/// Which stored tracks a scan found gone: those whose path was not seen.
pub fn stale_track_ids(stored: &Vec<(i64, String)>, seen_paths: &Vec<String>) -> (r: Vec<i64>)
    ensures
        r@ == stale_ids(stored@, text_set(seen_paths@)),
{
    let mut r: Vec<i64> = Vec::new();
    let mut i: usize = 0;
    assert(stored@.take(0) =~= Seq::<(i64, String)>::empty());
    while i < stored.len()
        invariant
            i <= stored.len(),
            r@ == stale_ids(stored@.take(i as int), text_set(seen_paths@)),
        decreases stored.len() - i,
    {
        assert(stored@.take(i + 1).drop_last() =~= stored@.take(i as int));
        if !seen_contains(seen_paths, &stored[i].1) {
            r.push(stored[i].0);
        }
        i = i + 1;
    }
    assert(stored@.take(stored.len() as int) =~= stored@);
    r
}

/// The file name a renamed track gets: the new title with the old file's
/// extension, if it had one.
pub open spec fn renamed_name(old_path: Seq<char>, title: Seq<char>) -> Seq<char> {
    match extension(file_name(old_path)) {
        Some(e) => if e.len() == 0 {
            title
        } else {
            title + seq!['.'] + e
        },
        None => title,
    }
}

/// Names the file of a track renamed to `title`.
pub fn renamed_file_name(old_path: &str, title: &str) -> (r: String)
    ensures
        r@ == renamed_name(old_path@, title@),
{
    let v = chars_of(old_path);
    let mut end = v.len();
    assert(v@.take(end as int) =~= v@);
    while end > 0 && v[end - 1] == '/'
        invariant
            end <= v.len(),
            strip_trailing_slashes(v@) == strip_trailing_slashes(v@.take(end as int)),
        decreases end,
    {
        assert(v@.take(end as int).drop_last() =~= v@.take(end - 1));
        end = end - 1;
    }
    let start = match last_index_exec(&v, end, '/') {
        Some(i) => i + 1,
        None => 0,
    };
    let mut name: Vec<char> = Vec::new();
    let mut k = start;
    while k < end
        invariant
            start <= k <= end <= v.len(),
            name@ == v@.subrange(start as int, k as int),
        decreases end - k,
    {
        name.push(v[k]);
        k = k + 1;
        assert(name@ =~= v@.subrange(start as int, k as int));
    }
    assert(name@ =~= file_name(old_path@));
    let nlen = name.len();
    assert(name@.take(nlen as int) =~= name@);
    let mut out = chars_of(title);
    match last_index_exec(&name, nlen, '.') {
        Some(d) => {
            if d > 0 && d + 1 < nlen {
                out.push('.');
                let mut m = d + 1;
                let ghost base = out@;
                while m < nlen
                    invariant
                        d + 1 <= m <= nlen,
                        nlen == name@.len(),
                        out@ == base + name@.subrange(d + 1, m as int),
                    decreases nlen - m,
                {
                    out.push(name[m]);
                    m = m + 1;
                    assert(out@ =~= base + name@.subrange(d + 1, m as int));
                }
                assert(name@.subrange(d + 1, nlen as int) =~= name@.skip(d + 1));
            } else {
                assert(d > 0 ==> name@.skip(d + 1).len() == 0);
            }
        },
        None => {},
    }
    string_of(&out)
}

/// The name a track's file takes when its tags are saved: `Artist - Title`,
/// or the title alone when the artist is empty.
pub open spec fn tagged_stem(title: Seq<char>, artist: Seq<char>) -> Seq<char> {
    if artist.len() == 0 {
        title
    } else {
        artist + " - "@ + title
    }
}

/// Names the file of a track whose tags were saved with this title and
/// artist, keeping the file's extension.
pub fn tagged_file_name(old_path: &str, title: &str, artist: &str) -> (r: String)
    ensures
        r@ == renamed_name(old_path@, tagged_stem(title@, artist@)),
{
    let a = chars_of(artist);
    if a.len() == 0 {
        renamed_file_name(old_path, title)
    } else {
        let head = crate::text::concat(artist, " - ");
        let stem = crate::text::concat(head.as_str(), title);
        renamed_file_name(old_path, stem.as_str())
    }
}
} // verus!
