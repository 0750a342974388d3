//! The play queue and playback session: which track comes next or before,
//! shuffling, keeping the queue in line with the library, and when the
//! playback state is written back.

use vstd::prelude::*;
use crate::model::{PlaybackState, RepeatMode, Track};

verus! {

/// The library and playback state the player works from.
pub struct AppSession {
    pub tracks: Vec<Track>,
    pub tracks_version: u64,
    pub queue: Vec<i64>,
    pub queue_version: u64,
    pub playback_state: PlaybackState,
    pub active_playlist_id: Option<i64>,
    pub active_playlist_name: Option<String>,
}

/// The first position of `id` in `q`.
pub open spec fn position_of(q: Seq<i64>, id: i64) -> Option<int> {
    if exists|i: int| 0 <= i < q.len() && q[i] == id {
        Some(choose|i: int| 0 <= i < q.len() && q[i] == id && forall|j: int| 0 <= j < i ==> q[j] != id)
    } else {
        None
    }
}

proof fn lemma_position_of(q: Seq<i64>, id: i64, i: int)
    requires
        0 <= i < q.len(),
        q[i] == id,
        forall|j: int| 0 <= j < i ==> q[j] != id,
    ensures
        position_of(q, id) == Some(i),
{
    let k = choose|k: int| 0 <= k < q.len() && q[k] == id && forall|j: int| 0 <= j < k ==> q[j] != id;
    assert(k == i) by {
        if k < i {
            assert(q[k] != id);
        }
        if i < k {
            assert(q[i] != id);
        }
    }
}

/// The first position of `id` in `q`, if it is there.
pub fn find_in_queue(q: &Vec<i64>, id: i64) -> (r: Option<usize>)
    ensures
        match r {
            Some(i) => position_of(q@, id) == Some(i as int) && i < q@.len() && q@[i as int] == id,
            None => position_of(q@, id) is None && !q@.contains(id),
        },
{
    let mut i: usize = 0;
    while i < q.len()
        invariant
            i <= q.len(),
            forall|j: int| 0 <= j < i ==> q@[j] != id,
        decreases q.len() - i,
    {
        if q[i] == id {
            proof {
                lemma_position_of(q@, id, i as int);
            }
            return Some(i);
        }
        i = i + 1;
    }
    None
}

/// The position of the track to play after the current one: the start of the
/// queue when nothing in it is playing, the following position otherwise; at
/// the end, the start again (repeat all), the same position (repeat one) or
/// nothing (repeat off).
pub open spec fn next_index(q: Seq<i64>, current: Option<i64>, repeat: RepeatMode) -> Option<int> {
    if q.len() == 0 {
        None
    } else {
        let idx = match current {
            Some(id) => position_of(q, id),
            None => None,
        };
        match idx {
            None => Some(0),
            Some(i) => if i + 1 < q.len() {
                Some(i + 1)
            } else {
                match repeat {
                    RepeatMode::RepeatAll => Some(0),
                    RepeatMode::RepeatOne => Some(i),
                    RepeatMode::Off => None,
                }
            },
        }
    }
}

/// The position of the track to play before the current one: one step back,
/// staying at the start (and starting there when nothing in the queue plays).
pub open spec fn prev_index(q: Seq<i64>, current: Option<i64>) -> Option<int> {
    if q.len() == 0 {
        None
    } else {
        let i = match current {
            Some(id) => match position_of(q, id) {
                Some(i) => i,
                None => 0,
            },
            None => 0,
        };
        Some(if i == 0 {
            0
        } else {
            i - 1
        })
    }
}

fn current_position(queue: &Vec<i64>, current: Option<i64>) -> (r: Option<usize>)
    ensures
        match current {
            Some(id) => match r {
                Some(i) => position_of(queue@, id) == Some(i as int) && i < queue@.len(),
                None => position_of(queue@, id) is None,
            },
            None => r is None,
        },
{
    match current {
        Some(id) => find_in_queue(queue, id),
        None => None,
    }
}

/// Which queue position "next track" plays.
pub fn next_queue_index(queue: &Vec<i64>, current: Option<i64>, repeat: RepeatMode) -> (r: Option<
    usize,
>)
    ensures
        match r {
            Some(i) => next_index(queue@, current, repeat) == Some(i as int) && i < queue@.len(),
            None => next_index(queue@, current, repeat) is None,
        },
{
    if queue.len() == 0 {
        return None;
    }
    match current_position(queue, current) {
        None => Some(0),
        Some(i) => if i + 1 < queue.len() {
            Some(i + 1)
        } else {
            match repeat {
                RepeatMode::RepeatAll => Some(0),
                RepeatMode::RepeatOne => Some(i),
                RepeatMode::Off => None,
            }
        },
    }
}

/// Which queue position "previous track" plays.
pub fn prev_queue_index(queue: &Vec<i64>, current: Option<i64>) -> (r: Option<usize>)
    ensures
        match r {
            Some(i) => prev_index(queue@, current) == Some(i as int) && i < queue@.len(),
            None => prev_index(queue@, current) is None,
        },
{
    if queue.len() == 0 {
        return None;
    }
    let i = match current_position(queue, current) {
        Some(i) => i,
        None => 0,
    };
    Some(if i == 0 {
        0
    } else {
        i - 1
    })
}

/// A queue without repeated tracks.
pub open spec fn distinct(q: Seq<i64>) -> bool {
    forall|a: int, b: int| 0 <= a < b < q.len() ==> q[a] != q[b]
}

/// In a queue without repeats, stepping forward from a track that is not the
/// last and then back returns to it; with repeat-all, a non-empty queue always
/// has a next track; with repeat-off, the last track has none.
pub proof fn law_next_prev(q: Seq<i64>, i: int, repeat: RepeatMode)
    requires
        distinct(q),
        0 <= i < q.len(),
    ensures
        i + 1 < q.len() ==> next_index(q, Some(q[i]), repeat) == Some(i + 1),
        i + 1 < q.len() ==> prev_index(q, Some(q[i + 1])) == Some(i),
        repeat == RepeatMode::RepeatAll ==> next_index(q, Some(q[i]), repeat) is Some,
        i + 1 == q.len() && repeat == RepeatMode::Off ==> next_index(q, Some(q[i]), repeat) is None,
{
    lemma_position_of(q, q[i], i);
    if i + 1 < q.len() {
        lemma_position_of(q, q[i + 1], i + 1);
    }
}

/// Adds a track at the end of the queue unless it is already queued; says
/// whether it was added.
pub fn ensure_track_in_queue(queue: &mut Vec<i64>, track_id: i64) -> (added: bool)
    ensures
        added == !old(queue)@.contains(track_id),
        added ==> final(queue)@ == old(queue)@.push(track_id),
        !added ==> final(queue)@ == old(queue)@,
        final(queue)@.contains(track_id),
{
    let mut i: usize = 0;
    while i < queue.len()
        invariant
            i <= queue.len(),
            forall|j: int| 0 <= j < i ==> queue@[j] != track_id,
        decreases queue.len() - i,
    {
        if queue[i] == track_id {
            return false;
        }
        i = i + 1;
    }
    queue.push(track_id);
    assert(queue@.last() == track_id);
    true
}

/// The ids of the tracks, in library order.
pub open spec fn ids_of(tracks: Seq<Track>) -> Seq<i64> {
    tracks.map_values(|t: Track| t.id)
}

/// The ids of the tracks, in library order.
pub fn track_ids(tracks: &Vec<Track>) -> (r: Vec<i64>)
    ensures
        r@ == ids_of(tracks@),
{
    let mut r: Vec<i64> = Vec::new();
    let mut i: usize = 0;
    while i < tracks.len()
        invariant
            i <= tracks.len(),
            r@ == ids_of(tracks@.take(i as int)),
        decreases tracks.len() - i,
    {
        r.push(tracks[i].id);
        i = i + 1;
        assert(r@ =~= ids_of(tracks@.take(i as int)));
    }
    assert(tracks@.take(tracks.len() as int) =~= tracks@);
    r
}

/// What keeping the queue in line with the library requires.
#[derive(Debug, Clone, Copy, PartialEq, Eq, Structural)]
pub enum QueueFix {
    /// Every queued track is still in the library.
    Unchanged,
    /// Tracks that left the library were dropped; the queue must be saved.
    Pruned,
    /// Nothing queued is left but the library is not empty: rebuild it.
    Rebuild,
}

/// The queued ids that are still in the library, in queue order.
pub open spec fn kept_ids(q: Seq<i64>, valid: Seq<i64>) -> Seq<i64> {
    q.filter(|id: i64| valid.contains(id))
}

fn contains_i64(v: &Vec<i64>, x: i64) -> (r: bool)
    ensures
        r == v@.contains(x),
{
    let mut i: usize = 0;
    while i < v.len()
        invariant
            i <= v.len(),
            forall|k: int| 0 <= k < i ==> v@[k] != x,
        decreases v.len() - i,
    {
        if v[i] == x {
            return true;
        }
        i = i + 1;
    }
    false
}

/// Drops from the queue every track that is no longer in the library and
/// says what else is needed.
pub fn normalize_queue(queue: &mut Vec<i64>, library_ids: &Vec<i64>) -> (fix: QueueFix)
    ensures
        final(queue)@ == kept_ids(old(queue)@, library_ids@),
        fix == (if final(queue)@.len() == 0 && library_ids@.len() > 0 {
            QueueFix::Rebuild
        } else if final(queue)@.len() != old(queue)@.len() {
            QueueFix::Pruned
        } else {
            QueueFix::Unchanged
        }),
{
    let ghost valid = library_ids@;
    let mut kept: Vec<i64> = Vec::new();
    let mut i: usize = 0;
    while i < queue.len()
        invariant
            i <= queue.len(),
            valid == library_ids@,
            kept@ == kept_ids(queue@.take(i as int), valid),
        decreases queue.len() - i,
    {
        let id = queue[i];
        let keep = contains_i64(library_ids, id);
        if keep {
            kept.push(id);
        }
        proof {
            reveal_with_fuel(Seq::filter, 1);
            assert(queue@.take(i + 1).drop_last() =~= queue@.take(i as int));
        }
        i = i + 1;
    }
    assert(queue@.take(queue.len() as int) =~= queue@);
    let original_len = queue.len();
    *queue = kept;
    if queue.len() == 0 && library_ids.len() > 0 {
        QueueFix::Rebuild
    } else if queue.len() != original_len {
        QueueFix::Pruned
    } else {
        QueueFix::Unchanged
    }
}

// ---------------------------------------------------------------------------
// Shuffling
// ---------------------------------------------------------------------------

/// One xorshift step.
pub open spec fn xorshift(s: u64) -> u64 {
    let a = s ^ (s << 13u64);
    let b = a ^ (a >> 7u64);
    b ^ (b << 17u64)
}

fn xorshift_exec(s: u64) -> (r: u64)
    ensures
        r == xorshift(s),
{
    let mut state = s;
    state ^= state << 13u64;
    state ^= state >> 7u64;
    state ^= state << 17u64;
    state
}

/// `s` with the entries at `i` and `j` exchanged.
pub open spec fn swapped(s: Seq<i64>, i: int, j: int) -> Seq<i64> {
    s.update(i, s[j]).update(j, s[i])
}

/// Exchanging two entries keeps the same entries, as often each.
pub proof fn lemma_swap_multiset(s: Seq<i64>, i: int, j: int)
    requires
        0 <= i < s.len(),
        0 <= j < s.len(),
    ensures
        swapped(s, i, j).to_multiset() == s.to_multiset(),
{
    broadcast use vstd::seq_lib::group_to_multiset_ensures;
    broadcast use vstd::multiset::group_multiset_axioms;

    let m = s.to_multiset();
    let s1 = s.update(i, s[j]);
    vstd::seq_lib::to_multiset_update(s, i, s[j]);
    vstd::seq_lib::to_multiset_update(s1, j, s[i]);
    assert(s1[j] == s[j]);
    assert(m.count(s[i]) > 0);
    assert(s.update(i, s[j]).update(j, s[i]).to_multiset() =~= m);
}

/// Fisher-Yates over the first `i` entries, driven by xorshift from `state`:
/// position `i - 1` is exchanged with position `r % i`, where `r` is the
/// next xorshift state (as a `usize`), and so on down to position 1.
pub open spec fn fisher_yates(s: Seq<i64>, state: u64, i: nat) -> Seq<i64>
    decreases i,
{
    if i <= 1 {
        s
    } else {
        let next = xorshift(state);
        fisher_yates(swapped(s, i - 1, (next as usize) as int % (i as int)), next, (i - 1) as nat)
    }
}

/// `s` with the first occurrence of `current` (when given and present)
/// exchanged with the first entry.
pub open spec fn current_first(s: Seq<i64>, current: Option<i64>) -> Seq<i64> {
    match current {
        Some(c) => match position_of(s, c) {
            Some(p) => swapped(s, 0, p),
            None => s,
        },
        None => s,
    }
}

/// The order a shuffle with `seed` gives.
pub open spec fn shuffled(s: Seq<i64>, current: Option<i64>, seed: u64) -> Seq<i64> {
    current_first(fisher_yates(s, seed, s.len()), current)
}

proof fn lemma_fisher_yates_multiset(s: Seq<i64>, state: u64, i: nat)
    requires
        i <= s.len(),
    ensures
        fisher_yates(s, state, i).to_multiset() == s.to_multiset(),
        fisher_yates(s, state, i).len() == s.len(),
    decreases i,
{
    if i > 1 {
        let next = xorshift(state);
        let j = (next as usize) as int % (i as int);
        lemma_swap_multiset(s, i - 1, j);
        lemma_fisher_yates_multiset(swapped(s, i - 1, j), next, (i - 1) as nat);
    }
}

fn fisher_yates_exec(ids: &mut Vec<i64>, seed: u64)
    ensures
        final(ids)@ == fisher_yates(old(ids)@, seed, old(ids)@.len()),
{
    let n = ids.len();
    let mut state = seed;
    let mut i = n;
    while i > 1
        invariant
            ids@.len() == n,
            i <= n,
            n == old(ids)@.len(),
            fisher_yates(ids@, state, i as nat) == fisher_yates(old(ids)@, seed, n as nat),
        decreases i,
    {
        i = i - 1;
        state = xorshift_exec(state);
        let j = (state as usize) % (i + 1);
        let a = ids[i];
        let b = ids[j];
        let ghost s0 = ids@;
        ids.set(i, b);
        ids.set(j, a);
        assert(ids@ == swapped(s0, i as int, j as int));
    }
}

fn move_current_first(ids: &mut Vec<i64>, current_id: Option<i64>)
    ensures
        final(ids)@ == current_first(old(ids)@, current_id),
        final(ids)@.to_multiset() == old(ids)@.to_multiset(),
        final(ids)@.len() == old(ids)@.len(),
        current_id matches Some(c) ==> (old(ids)@.contains(c) ==> final(ids)@[0] == c),
{
    if let Some(c) = current_id {
        if let Some(p) = find_in_queue(ids, c) {
            let a = ids[0];
            let b = ids[p];
            ids.set(0, b);
            ids.set(p, a);
            assert(ids@ == swapped(old(ids)@, 0, p as int));
            proof {
                lemma_swap_multiset(old(ids)@, 0, p as int);
            }
        }
    }
}

/// Shuffles the ids with the given seed (Fisher-Yates driven by xorshift)
/// and then, when `current_id` is among them, swaps it to the front so that
/// "next track" continues from it.
pub fn shuffle_vec_with_seed(ids: &mut Vec<i64>, current_id: Option<i64>, seed: u64)
    ensures
        final(ids)@ == shuffled(old(ids)@, current_id, seed),
        final(ids)@.to_multiset() == old(ids)@.to_multiset(),
        final(ids)@.len() == old(ids)@.len(),
        current_id matches Some(c) ==> (old(ids)@.contains(c) ==> final(ids)@[0] == c),
{
    fisher_yates_exec(ids, seed);
    let ghost mixed = ids@;
    move_current_first(ids, current_id);
    proof {
        lemma_fisher_yates_multiset(old(ids)@, seed, old(ids)@.len());
        if let Some(c) = current_id {
            if old(ids)@.contains(c) {
                broadcast use vstd::seq_lib::group_to_multiset_ensures;

                assert(old(ids)@.to_multiset().count(c) > 0);
                assert(mixed.to_multiset().count(c) > 0);
                assert(mixed.contains(c));
            }
        }
    }
}

/// The queue built from the library: all track ids in library order, shuffled
/// with `seed` (current track first) when shuffle is on.
pub fn rebuild_queue_ids(tracks: &Vec<Track>, shuffle: bool, current_id: Option<i64>, seed: u64) -> (r:
    Vec<i64>)
    ensures
        !shuffle ==> r@ == ids_of(tracks@),
        shuffle ==> r@ == shuffled(ids_of(tracks@), current_id, seed),
        r@.to_multiset() == ids_of(tracks@).to_multiset(),
        shuffle ==> (current_id matches Some(c) ==> (ids_of(tracks@).contains(c) ==> r@[0] == c)),
{
    let mut ids = track_ids(tracks);
    if shuffle {
        shuffle_vec_with_seed(&mut ids, current_id, seed);
    }
    ids
}

/// The track announced as "up next": the one after the current track, or the
/// first queued track when the current one is last, absent or not queued.
pub open spec fn up_next(q: Seq<i64>, current: Option<i64>) -> Option<i64> {
    if q.len() == 0 {
        None
    } else {
        match current {
            Some(c) => match position_of(q, c) {
                Some(i) => if i + 1 < q.len() {
                    Some(q[i + 1])
                } else {
                    Some(q[0])
                },
                None => Some(q[0]),
            },
            None => Some(q[0]),
        }
    }
}

/// The id of the track shown as "up next".
pub fn up_next_track_id(queue: &Vec<i64>, current: Option<i64>) -> (r: Option<i64>)
    ensures
        r == up_next(queue@, current),
{
    if queue.len() == 0 {
        return None;
    }
    match current {
        Some(c) => match find_in_queue(queue, c) {
            Some(i) => if i + 1 < queue.len() {
                Some(queue[i + 1])
            } else {
                Some(queue[0])
            },
            None => Some(queue[0]),
        },
        None => Some(queue[0]),
    }
}

// ---------------------------------------------------------------------------
// Persisting the playback state
// ---------------------------------------------------------------------------

/// How long after a write another write of the playback state waits, in
/// milliseconds, unless forced.
pub const PLAYBACK_PERSIST_DEBOUNCE_MS: u64 = 250;

/// What to do with a pending playback-state write.
#[derive(Debug, Clone, Copy, PartialEq, Eq, Structural)]
pub enum FlushAction {
    /// Nothing to write.
    Nothing,
    /// The state equals what was last written: just clear the dirty flag.
    AlreadySaved,
    /// Too soon after the last write: keep it pending.
    Wait,
    /// Write the state now.
    Save,
}

/// The decision for a pending playback-state write.
pub open spec fn flush_decision(
    dirty: bool,
    unchanged: bool,
    force: bool,
    since_last_ms: Option<u64>,
) -> FlushAction {
    if !dirty {
        FlushAction::Nothing
    } else if unchanged {
        FlushAction::AlreadySaved
    } else if !force && (since_last_ms matches Some(ms) && ms < PLAYBACK_PERSIST_DEBOUNCE_MS) {
        FlushAction::Wait
    } else {
        FlushAction::Save
    }
}

/// Decides whether the playback state is written: only when it changed since
/// the last write, and, unless forced, not within the debounce window after
/// the previous write.
pub fn decide_flush(
    dirty: bool,
    last_saved: &Option<PlaybackState>,
    current: &PlaybackState,
    force: bool,
    since_last_ms: Option<u64>,
) -> (a: FlushAction)
    ensures
        a == flush_decision(
            dirty,
            last_saved matches Some(s) && s == *current,
            force,
            since_last_ms,
        ),
{
    if !dirty {
        return FlushAction::Nothing;
    }
    let unchanged = match last_saved {
        Some(s) => s.current_track_id == current.current_track_id && s.position_secs
            == current.position_secs && s.shuffle_enabled == current.shuffle_enabled
            && s.repeat_mode == current.repeat_mode,
        None => false,
    };
    if unchanged {
        return FlushAction::AlreadySaved;
    }
    let too_soon = match since_last_ms {
        Some(ms) => ms < PLAYBACK_PERSIST_DEBOUNCE_MS,
        None => false,
    };
    if !force && too_soon {
        FlushAction::Wait
    } else {
        FlushAction::Save
    }
}

/// Whether the track that was playing left the library.
pub fn current_track_missing(tracks: &Vec<Track>, current: Option<i64>) -> (r: bool)
    ensures
        r == match current {
            Some(id) => !ids_of(tracks@).contains(id),
            None => false,
        },
{
    match current {
        None => false,
        Some(id) => {
            let mut i: usize = 0;
            while i < tracks.len()
                invariant
                    i <= tracks.len(),
                    current == Some(id),
                    forall|k: int| 0 <= k < i ==> tracks@[k].id != id,
                decreases tracks.len() - i,
            {
                if tracks[i].id == id {
                    assert(ids_of(tracks@).len() == tracks@.len());
                    assert(ids_of(tracks@)[i as int] == id);
                    assert(ids_of(tracks@).contains(id));
                    return false;
                }
                i = i + 1;
            }
            assert forall|k: int| 0 <= k < ids_of(tracks@).len() implies ids_of(tracks@)[k]
                != id by {
                assert(ids_of(tracks@)[k] == tracks@[k].id);
            }
            true
        },
    }
}

} // verus!
