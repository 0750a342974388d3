//! Playlists: name rules, item ordering (add, remove, move), choosing what to
//! play from a playlist, and the results and status messages of playlist
//! actions.

use vstd::prelude::*;
use crate::text::{
    blank, concat, contains_text, eq_ignore_case, is_blank, lower_seq, owned, text_contains,
    text_eq_ignore_case, to_lower, trim, trim_text,
};

verus! {

#[derive(Debug, Clone)]
pub struct Playlist {
    pub id: i64,
    pub name: String,
    pub created_at: String,
}

#[derive(Debug, Clone)]
pub struct PlaylistItem {
    pub track_id: Option<i64>,
    pub original_path: Option<String>,
    pub is_missing: bool,
    pub order_index: i64,
}

// ---------------------------------------------------------------------------
// Names
// ---------------------------------------------------------------------------

/// A playlist name as stored: trimmed, and refused when nothing is left.
pub fn normalize_playlist_name(name: &str) -> (r: Result<String, String>)
    ensures
        match r {
            Ok(n) => n@ == trim(name@) && trim(name@).len() > 0,
            Err(e) => e@ == "playlist name cannot be empty"@ && trim(name@).len() == 0,
        },
{
    let t = trim_text(name);
    if t.as_str().unicode_len() == 0 {
        return Err(owned("playlist name cannot be empty"));
    }
    Ok(t)
}

/// Whether another playlist already has this name, ASCII case ignored; the
/// playlist `exclude_id` (the one being renamed) does not count.
pub open spec fn name_taken(playlists: Seq<Playlist>, name: Seq<char>, exclude_id: Option<i64>) -> bool {
    exists|i: int|
        0 <= i < playlists.len() && eq_ignore_case((#[trigger] playlists[i]).name@, name) && match exclude_id {
            Some(id) => playlists[i].id != id,
            None => true,
        }
}

/// Whether a playlist other than `exclude_id` already uses `name`.
pub fn playlist_name_exists(playlists: &Vec<Playlist>, name: &str, exclude_id: Option<i64>) -> (r:
    bool)
    ensures
        r == name_taken(playlists@, name@, exclude_id),
{
    let mut i: usize = 0;
    while i < playlists.len()
        invariant
            i <= playlists.len(),
            forall|k: int|
                0 <= k < i ==> !(eq_ignore_case((#[trigger] playlists@[k]).name@, name@) && match exclude_id {
                    Some(id) => playlists@[k].id != id,
                    None => true,
                }),
        decreases playlists.len() - i,
    {
        let p = &playlists[i];
        let other = match exclude_id {
            Some(id) => p.id != id,
            None => true,
        };
        if other && text_eq_ignore_case(p.name.as_str(), name) {
            return true;
        }
        i = i + 1;
    }
    false
}

/// The name a playlist is created or renamed to: the trimmed name, refused
/// when blank or when another playlist (not `exclude_id`) already has it,
/// ASCII case ignored.
pub fn checked_playlist_name(playlists: &Vec<Playlist>, name: &str, exclude_id: Option<i64>) -> (r:
    Result<String, String>)
    ensures
        trim(name@).len() == 0 ==> (r matches Err(e) && e@ == "playlist name cannot be empty"@),
        trim(name@).len() > 0 && name_taken(playlists@, trim(name@), exclude_id) ==> (r matches Err(
            e,
        ) && e@ == "playlist name already exists"@),
        trim(name@).len() > 0 && !name_taken(playlists@, trim(name@), exclude_id) ==> (r matches Ok(
            n,
        ) && n@ == trim(name@)),
{
    let n = match normalize_playlist_name(name) {
        Ok(n) => n,
        Err(e) => return Err(e),
    };
    if playlist_name_exists(playlists, n.as_str(), exclude_id) {
        return Err(owned("playlist name already exists"));
    }
    Ok(n)
}

// ---------------------------------------------------------------------------
// Item order
// ---------------------------------------------------------------------------

/// The items' order indexes are exactly `0, 1, ..., len - 1`, in list order.
pub open spec fn contiguous(items: Seq<PlaylistItem>) -> bool {
    forall|k: int| 0 <= k < items.len() ==> (#[trigger] items[k]).order_index == k
}

/// The order index a new item gets: one past the largest, or 0.
pub open spec fn next_order(items: Seq<PlaylistItem>) -> int
    decreases items.len(),
{
    if items.len() == 0 {
        0
    } else {
        let r = next_order(items.drop_last());
        let c = items.last().order_index + 1;
        if c > r {
            c
        } else {
            r
        }
    }
}

proof fn lemma_next_order_contiguous(items: Seq<PlaylistItem>)
    requires
        contiguous(items),
    ensures
        next_order(items) == items.len(),
    decreases items.len(),
{
    if items.len() > 0 {
        assert(contiguous(items.drop_last()));
        lemma_next_order_contiguous(items.drop_last());
    }
}

/// The order index for an item appended to a playlist.
pub fn next_order_index(items: &Vec<PlaylistItem>) -> (r: i64)
    requires
        forall|k: int| 0 <= k < items@.len() ==> (#[trigger] items@[k]).order_index < i64::MAX,
    ensures
        r == next_order(items@),
{
    let mut r: i64 = 0;
    let mut i: usize = 0;
    assert(items@.take(0) =~= Seq::<PlaylistItem>::empty());
    while i < items.len()
        invariant
            i <= items.len(),
            forall|k: int| 0 <= k < items@.len() ==> (#[trigger] items@[k]).order_index < i64::MAX,
            r == next_order(items@.take(i as int)),
        decreases items.len() - i,
    {
        assert(items@.take(i + 1).drop_last() =~= items@.take(i as int));
        let c = items[i].order_index + 1;
        if c > r {
            r = c;
        }
        i = i + 1;
    }
    assert(items@.take(items.len() as int) =~= items@);
    r
}

/// Appending to a contiguous playlist places the new item right after the
/// last one and keeps the order contiguous.
pub proof fn law_append_keeps_contiguous(items: Seq<PlaylistItem>, item: PlaylistItem)
    requires
        contiguous(items),
        item.order_index == next_order(items),
    ensures
        contiguous(items.push(item)),
{
    lemma_next_order_contiguous(items);
}

/// Whether the item at `k` is the first one with order index `o`.
pub open spec fn first_with_order(items: Seq<PlaylistItem>, o: i64, k: int) -> bool {
    &&& 0 <= k < items.len()
    &&& items[k].order_index == o
    &&& forall|j: int| 0 <= j < k ==> (#[trigger] items[j]).order_index != o
}

/// An item after another item with order index `o` was removed.
pub open spec fn shifted_down(a: PlaylistItem, b: PlaylistItem, o: i64) -> bool {
    &&& b.track_id == a.track_id
    &&& b.original_path == a.original_path
    &&& b.is_missing == a.is_missing
    &&& b.order_index == if a.order_index > o {
        a.order_index - 1
    } else {
        a.order_index as int
    }
}

fn copy_item(it: &PlaylistItem, order_index: i64) -> (r: PlaylistItem)
    ensures
        r.track_id == it.track_id,
        r.original_path == it.original_path,
        r.is_missing == it.is_missing,
        r.order_index == order_index,
{
    PlaylistItem {
        track_id: it.track_id,
        original_path: it.original_path.clone(),
        is_missing: it.is_missing,
        order_index,
    }
}

/// Removes the first item with order index `order_index` and closes the gap:
/// every later order index moves down by one. Fails with "playlist item not
/// found" when no item has that index, leaving the items unchanged.
pub fn remove_playlist_item_from(items: &mut Vec<PlaylistItem>, order_index: i64) -> (r: Result<
    (),
    String,
>)
    ensures
        match r {
            Ok(()) => exists|k: int|
                first_with_order(old(items)@, order_index, k) && final(items)@.len() == old(
                    items,
                )@.len() - 1 && forall|j: int|
                    0 <= j < final(items)@.len() ==> shifted_down(
                        #[trigger] old(items)@.remove(k)[j],
                        final(items)@[j],
                        order_index,
                    ),
            Err(e) => e@ == "playlist item not found"@ && final(items)@ == old(items)@ && forall|
                k: int,
            |
                0 <= k < old(items)@.len() ==> (#[trigger] old(items)@[k]).order_index
                    != order_index,
        },
{
    let mut pos: usize = 0;
    while pos < items.len() && items[pos].order_index != order_index
        invariant
            pos <= items.len(),
            forall|j: int| 0 <= j < pos ==> (#[trigger] items@[j]).order_index != order_index,
        decreases items.len() - pos,
    {
        pos = pos + 1;
    }
    if pos == items.len() {
        return Err(owned("playlist item not found"));
    }
    let ghost orig = items@;
    let mut out: Vec<PlaylistItem> = Vec::new();
    let mut i: usize = 0;
    while i < items.len()
        invariant
            items@ == orig,
            pos < orig.len(),
            i <= orig.len(),
            out@.len() == (if i <= pos {
                i as int
            } else {
                i - 1
            }),
            forall|j: int|
                0 <= j < out@.len() ==> shifted_down(
                    #[trigger] orig.remove(pos as int)[j],
                    out@[j],
                    order_index,
                ),
        decreases orig.len() - i,
    {
        if i != pos {
            let it = &items[i];
            let oi = if it.order_index > order_index {
                it.order_index - 1
            } else {
                it.order_index
            };
            let ghost before = out@;
            out.push(copy_item(it, oi));
            proof {
                let k = before.len() as int;
                assert(orig.remove(pos as int)[k] == orig[i as int]);
                assert forall|j: int| 0 <= j < out@.len() implies shifted_down(
                    #[trigger] orig.remove(pos as int)[j],
                    out@[j],
                    order_index,
                ) by {
                    if j < k {
                        assert(out@[j] == before[j]);
                    }
                }
            }
        }
        i = i + 1;
    }
    assert(first_with_order(orig, order_index, pos as int));
    *items = out;
    Ok(())
}

/// Removing an item from a contiguous playlist leaves it contiguous.
pub proof fn law_remove_keeps_contiguous(
    before: Seq<PlaylistItem>,
    after: Seq<PlaylistItem>,
    o: i64,
    k: int,
)
    requires
        contiguous(before),
        first_with_order(before, o, k),
        after.len() == before.len() - 1,
        forall|j: int| 0 <= j < after.len() ==> shifted_down(#[trigger] before.remove(k)[j], after[j], o),
    ensures
        contiguous(after),
{
    assert forall|j: int| 0 <= j < after.len() implies (#[trigger] after[j]).order_index == j by {
        assert(shifted_down(before.remove(k)[j], after[j], o));
        if j < k {
            assert(before.remove(k)[j] == before[j]);
        } else {
            assert(before.remove(k)[j] == before[j + 1]);
        }
    }
}

/// Where an item moved by `delta` from `from` in a playlist of `count` items
/// lands: clamped to the playlist.
pub open spec fn move_target(count: int, from: int, delta: int) -> int {
    let t = from + delta;
    if t < 0 {
        0
    } else if t > count - 1 {
        count - 1
    } else {
        t
    }
}

/// The order index an item gets when the item at order index `from` moves to
/// `to`.
pub open spec fn reordered(oi: int, from: int, to: int) -> int {
    if oi == from {
        to
    } else if to > from && from < oi && oi <= to {
        oi - 1
    } else if to < from && to <= oi && oi < from {
        oi + 1
    } else {
        oi
    }
}

/// The order index the item at position `j` gets when the item at position
/// `k` (the first with order index `from`) moves to `to`: the moved item
/// takes `to`, other items that also carry `from` keep it, and the rest
/// shift as `reordered` says.
pub open spec fn moved_order(items: Seq<PlaylistItem>, j: int, k: int, from: int, to: int) -> int {
    if j == k {
        to
    } else if items[j].order_index == from {
        from
    } else {
        reordered(items[j].order_index as int, from, to)
    }
}

/// Why a move is refused, if it is.
pub open spec fn move_error(items: Seq<PlaylistItem>, from: int) -> Option<Seq<char>> {
    if items.len() == 0 {
        Some("playlist has no items"@)
    } else if from < 0 || from >= items.len() {
        Some("source index out of bounds"@)
    } else {
        None
    }
}

/// Moves the first item at order index `from_index` by `delta` places,
/// clamped to the playlist, shifting the items in between by one (other
/// items that also carry `from_index` keep it); returns where it landed. An empty playlist and an index outside it are refused, and a
/// playlist where no item carries `from_index` fails with "playlist item not
/// found"; refusals leave the items unchanged.
pub fn move_playlist_item_in(items: &mut Vec<PlaylistItem>, from_index: i64, delta: isize) -> (r:
    Result<i64, String>)
    requires
        old(items)@.len() < i64::MAX,
        0 <= from_index < old(items)@.len() ==> i64::MIN <= from_index + delta <= i64::MAX,
    ensures
        match r {
            Ok(to) => {
                &&& move_error(old(items)@, from_index as int) is None
                &&& to == move_target(old(items)@.len() as int, from_index as int, delta as int)
                &&& final(items)@.len() == old(items)@.len()
                &&& to == from_index ==> final(items)@ == old(items)@
                &&& to != from_index ==> exists|k: int|
                    #![trigger first_with_order(old(items)@, from_index, k)]
                    first_with_order(old(items)@, from_index, k) && forall|j: int|
                        0 <= j < final(items)@.len() ==> {
                            &&& (#[trigger] final(items)@[j]).track_id == old(items)@[j].track_id
                            &&& final(items)@[j].original_path == old(items)@[j].original_path
                            &&& final(items)@[j].is_missing == old(items)@[j].is_missing
                            &&& final(items)@[j].order_index == moved_order(
                                old(items)@,
                                j,
                                k,
                                from_index as int,
                                to as int,
                            )
                        }
            },
            Err(e) => {
                &&& final(items)@ == old(items)@
                &&& match move_error(old(items)@, from_index as int) {
                    Some(m) => e@ == m,
                    None => e@ == "playlist item not found"@ && forall|k: int|
                        0 <= k < old(items)@.len() ==> (#[trigger] old(items)@[k]).order_index
                            != from_index,
                }
            },
        },
{
    let count = items.len();
    if count == 0 {
        return Err(owned("playlist has no items"));
    }
    let n: i64 = count as i64;
    if from_index < 0 || from_index >= n {
        return Err(owned("source index out of bounds"));
    }
    let target: i128 = from_index as i128 + delta as i128;
    let to: i64 = if target < 0 {
        0
    } else if target > (n - 1) as i128 {
        n - 1
    } else {
        target as i64
    };
    if to == from_index {
        return Ok(to);
    }
    let mut pos: usize = 0;
    while pos < items.len() && items[pos].order_index != from_index
        invariant
            pos <= items.len(),
            forall|j: int| 0 <= j < pos ==> (#[trigger] items@[j]).order_index != from_index,
        decreases items.len() - pos,
    {
        pos = pos + 1;
    }
    if pos == items.len() {
        return Err(owned("playlist item not found"));
    }
    let ghost orig = items@;
    let mut out: Vec<PlaylistItem> = Vec::new();
    let mut i: usize = 0;
    while i < items.len()
        invariant
            items@ == orig,
            i <= orig.len(),
            out@.len() == i,
            forall|j: int|
                0 <= j < i ==> {
                    &&& (#[trigger] out@[j]).track_id == orig[j].track_id
                    &&& out@[j].original_path == orig[j].original_path
                    &&& out@[j].is_missing == orig[j].is_missing
                    &&& out@[j].order_index == moved_order(
                        orig,
                        j,
                        pos as int,
                        from_index as int,
                        to as int,
                    )
                },
            first_with_order(orig, from_index, pos as int),
            0 <= from_index < orig.len(),
            0 <= to < orig.len(),
            orig.len() < i64::MAX,
        decreases orig.len() - i,
    {
        let it = &items[i];
        let oi = it.order_index;
        let noi: i64 = if i == pos {
            to
        } else if oi == from_index {
            oi
        } else if to > from_index && from_index < oi && oi <= to {
            oi - 1
        } else if to < from_index && to <= oi && oi < from_index {
            oi + 1
        } else {
            oi
        };
        out.push(copy_item(it, noi));
        i = i + 1;
    }
    assert(first_with_order(orig, from_index, pos as int));
    assert(move_error(orig, from_index as int) is None);
    *items = out;
    Ok(to)
}

/// Moving an item within a contiguous playlist keeps the order indexes a
/// permutation of `0, 1, ..., len - 1`, puts the moved item at its target and
/// keeps every other pair of items in the same relative order; on such a
/// playlist every item takes the order index `reordered` gives.
pub proof fn law_move_keeps_order(items: Seq<PlaylistItem>, from: int, to: int)
    requires
        contiguous(items),
        0 <= from < items.len(),
        0 <= to < items.len(),
    ensures
        forall|j: int|
            0 <= j < items.len() ==> 0 <= #[trigger] reordered(items[j].order_index as int, from, to)
                < items.len(),
        forall|a: int, b: int|
            0 <= a < items.len() && 0 <= b < items.len() && a != b ==> #[trigger] reordered(
                items[a].order_index as int,
                from,
                to,
            ) != #[trigger] reordered(items[b].order_index as int, from, to),
        reordered(items[from].order_index as int, from, to) == to,
        forall|j: int|
            0 <= j < items.len() ==> #[trigger] moved_order(items, j, from, from, to) == reordered(
                items[j].order_index as int,
                from,
                to,
            ),
        forall|a: int, b: int|
            0 <= a < b < items.len() && a != from && b != from ==> #[trigger] reordered(
                items[a].order_index as int,
                from,
                to,
            ) < #[trigger] reordered(items[b].order_index as int, from, to),
{
    assert forall|j: int| 0 <= j < items.len() implies items[j].order_index == j by {}
}

// ---------------------------------------------------------------------------
// Playing from a playlist
// ---------------------------------------------------------------------------

/// Whether an item can be played: it is not missing and names a track that
/// `exists` says is present.
pub open spec fn playable_with<F: Fn(i64) -> bool>(item: PlaylistItem, exists: F) -> bool {
    &&& !item.is_missing
    &&& item.track_id matches Some(t)
    &&& call_ensures(exists, (t,), true)
}

/// Whether `exists` rejected the item, or the item is not playable anyway.
pub open spec fn skipped_with<F: Fn(i64) -> bool>(item: PlaylistItem, exists: F) -> bool {
    item.is_missing || item.track_id is None || (item.track_id matches Some(t) && call_ensures(
        exists,
        (t,),
        false,
    ))
}

/// Where the search for a playable item starts: the selected index, clamped to
/// the playlist.
pub open spec fn playable_start(len: int, selected: int) -> int {
    if selected < len - 1 {
        selected
    } else {
        len - 1
    }
}

/// The track to start playing: the first playable item at or after the
/// selected position (clamped to the last item), skipping missing items and
/// items whose track `track_exists` rejects.
pub fn resolve_playable_track_id<F: Fn(i64) -> bool>(
    items: &Vec<PlaylistItem>,
    selected_index: usize,
    track_exists: F,
) -> (r: Option<i64>)
    requires
        forall|t: i64| track_exists.requires((t,)),
    ensures
        items@.len() == 0 ==> r is None,
        items@.len() > 0 ==> match r {
            Some(t) => exists|k: int|
                playable_start(items@.len() as int, selected_index as int) <= k < items@.len()
                    && (#[trigger] items@[k]).track_id == Some(t) && playable_with(
                    items@[k],
                    track_exists,
                ) && forall|j: int|
                    playable_start(items@.len() as int, selected_index as int) <= j < k
                        ==> skipped_with(#[trigger] items@[j], track_exists),
            None => forall|j: int|
                playable_start(items@.len() as int, selected_index as int) <= j < items@.len()
                    ==> skipped_with(#[trigger] items@[j], track_exists),
        },
{
    if items.len() == 0 {
        return None;
    }
    let last = items.len() - 1;
    let start = if selected_index < last {
        selected_index
    } else {
        last
    };
    let mut i = start;
    while i < items.len()
        invariant
            start == playable_start(items@.len() as int, selected_index as int),
            start <= i <= items.len(),
            forall|t: i64| track_exists.requires((t,)),
            forall|j: int| start <= j < i ==> skipped_with(#[trigger] items@[j], track_exists),
        decreases items.len() - i,
    {
        let item = &items[i];
        if !item.is_missing {
            match item.track_id {
                Some(t) => {
                    if track_exists(t) {
                        return Some(t);
                    }
                },
                None => {},
            }
        }
        i = i + 1;
    }
    None
}

/// The ids of a playlist's items that can be queued: items that are not
/// missing and whose track is known, in playlist order.
pub open spec fn queueable_ids(items: Seq<PlaylistItem>, known: Seq<i64>) -> Seq<i64>
    decreases items.len(),
{
    if items.len() == 0 {
        Seq::empty()
    } else {
        let rest = queueable_ids(items.drop_last(), known);
        let it = items.last();
        match it.track_id {
            Some(t) => if !it.is_missing && known.contains(t) {
                rest.push(t)
            } else {
                rest
            },
            None => rest,
        }
    }
}

fn contains_id(v: &Vec<i64>, x: i64) -> (r: bool)
    ensures
        r == v@.contains(x),
{
    let mut i: usize = 0;
    while i < v.len()
        invariant
            i <= v.len(),
            forall|k: int| 0 <= k < i ==> v@[k] != x,
        decreases v.len() - i,
    {
        if v[i] == x {
            return true;
        }
        i = i + 1;
    }
    false
}

/// The track ids a playlist contributes to the play queue.
pub fn playlist_queue_ids(items: &Vec<PlaylistItem>, known_track_ids: &Vec<i64>) -> (r: Vec<i64>)
    ensures
        r@ == queueable_ids(items@, known_track_ids@),
{
    let mut r: Vec<i64> = Vec::new();
    let mut i: usize = 0;
    assert(items@.take(0) =~= Seq::<PlaylistItem>::empty());
    while i < items.len()
        invariant
            i <= items.len(),
            r@ == queueable_ids(items@.take(i as int), known_track_ids@),
        decreases items.len() - i,
    {
        assert(items@.take(i + 1).drop_last() =~= items@.take(i as int));
        let it = &items[i];
        if !it.is_missing {
            match it.track_id {
                Some(t) => {
                    if contains_id(known_track_ids, t) {
                        r.push(t);
                    }
                },
                None => {},
            }
        }
        i = i + 1;
    }
    assert(items@.take(items.len() as int) =~= items@);
    r
}

// ---------------------------------------------------------------------------
// Action results
// ---------------------------------------------------------------------------

#[derive(Debug, Clone, Copy, PartialEq, Eq, Structural)]
pub enum ActionStatusLevel {
    Info,
    Warning,
    Error,
}

#[derive(Debug, Clone, PartialEq, Eq)]
pub struct ActionStatusMessage {
    pub level: ActionStatusLevel,
    pub code: &'static str,
    pub text: String,
}

#[derive(Debug, Clone, PartialEq, Eq)]
pub enum PlaylistActionResult {
    PlaylistCreated { playlist_id: i64, name: String },
    PlaylistDeleted { playlist_id: i64 },
    PlaylistRenamed { playlist_id: i64, name: String },
    PlaylistItemAdded { playlist_id: i64, track_id: i64 },
    PlaylistItemRemoved { playlist_id: i64, order_index: i64 },
    PlaybackStarted { playlist_id: i64, track_id: i64 },
    NoPlayableItem { playlist_id: i64 },
    ValidationError { context: &'static str, message: String },
    NotFoundError { context: &'static str, message: String },
    PersistenceError { context: &'static str, message: String },
}

/// The level, code and text shown for an action result.
pub open spec fn status_of(r: PlaylistActionResult) -> (ActionStatusLevel, Seq<char>, Seq<char>) {
    match r {
        PlaylistActionResult::PlaylistCreated { name, .. } => (
            ActionStatusLevel::Info,
            "playlist.created"@,
            "Playlist created: "@ + name@,
        ),
        PlaylistActionResult::PlaylistDeleted { .. } => (
            ActionStatusLevel::Info,
            "playlist.deleted"@,
            "Playlist deleted"@,
        ),
        PlaylistActionResult::PlaylistRenamed { name, .. } => (
            ActionStatusLevel::Info,
            "playlist.renamed"@,
            "Playlist renamed: "@ + name@,
        ),
        PlaylistActionResult::PlaylistItemAdded { .. } => (
            ActionStatusLevel::Info,
            "playlist.item_added"@,
            "Track added to playlist"@,
        ),
        PlaylistActionResult::PlaylistItemRemoved { .. } => (
            ActionStatusLevel::Info,
            "playlist.item_removed"@,
            "Track removed from playlist"@,
        ),
        PlaylistActionResult::PlaybackStarted { .. } => (
            ActionStatusLevel::Info,
            "playlist.playback_started"@,
            "Playback started from playlist"@,
        ),
        PlaylistActionResult::NoPlayableItem { .. } => (
            ActionStatusLevel::Warning,
            "playlist.no_playable_item"@,
            "No playable item found in playlist"@,
        ),
        PlaylistActionResult::ValidationError { message, .. } => (
            ActionStatusLevel::Error,
            "playlist.validation_error"@,
            message@,
        ),
        PlaylistActionResult::NotFoundError { message, .. } => (
            ActionStatusLevel::Error,
            "playlist.not_found"@,
            message@,
        ),
        PlaylistActionResult::PersistenceError { message, .. } => (
            ActionStatusLevel::Error,
            "playlist.persistence_error"@,
            message@,
        ),
    }
}

impl PlaylistActionResult {
    /// The status line for this result: informational for successes, a
    /// warning when nothing could be played, an error carrying the message for
    /// failures.
    pub fn status_message(&self) -> (m: ActionStatusMessage)
        ensures
            (m.level, m.code@, m.text@) == status_of(*self),
    {
        match self {
            PlaylistActionResult::PlaylistCreated { name, .. } => ActionStatusMessage {
                level: ActionStatusLevel::Info,
                code: "playlist.created",
                text: concat("Playlist created: ", name.as_str()),
            },
            PlaylistActionResult::PlaylistDeleted { .. } => ActionStatusMessage {
                level: ActionStatusLevel::Info,
                code: "playlist.deleted",
                text: owned("Playlist deleted"),
            },
            PlaylistActionResult::PlaylistRenamed { name, .. } => ActionStatusMessage {
                level: ActionStatusLevel::Info,
                code: "playlist.renamed",
                text: concat("Playlist renamed: ", name.as_str()),
            },
            PlaylistActionResult::PlaylistItemAdded { .. } => ActionStatusMessage {
                level: ActionStatusLevel::Info,
                code: "playlist.item_added",
                text: owned("Track added to playlist"),
            },
            PlaylistActionResult::PlaylistItemRemoved { .. } => ActionStatusMessage {
                level: ActionStatusLevel::Info,
                code: "playlist.item_removed",
                text: owned("Track removed from playlist"),
            },
            PlaylistActionResult::PlaybackStarted { .. } => ActionStatusMessage {
                level: ActionStatusLevel::Info,
                code: "playlist.playback_started",
                text: owned("Playback started from playlist"),
            },
            PlaylistActionResult::NoPlayableItem { .. } => ActionStatusMessage {
                level: ActionStatusLevel::Warning,
                code: "playlist.no_playable_item",
                text: owned("No playable item found in playlist"),
            },
            PlaylistActionResult::ValidationError { message, .. } => ActionStatusMessage {
                level: ActionStatusLevel::Error,
                code: "playlist.validation_error",
                text: message.clone(),
            },
            PlaylistActionResult::NotFoundError { message, .. } => ActionStatusMessage {
                level: ActionStatusLevel::Error,
                code: "playlist.not_found",
                text: message.clone(),
            },
            PlaylistActionResult::PersistenceError { message, .. } => ActionStatusMessage {
                level: ActionStatusLevel::Error,
                code: "playlist.persistence_error",
                text: message.clone(),
            },
        }
    }
}

/// The kind of failure a storage error message describes.
pub open spec fn error_class(message: Seq<char>) -> int {
    let l = lower_seq(message);
    if contains_text(l, "not found"@) {
        0
    } else if contains_text(l, "already exists"@) || contains_text(l, "cannot be empty"@)
        || contains_text(l, "out of bounds"@) {
        1
    } else {
        2
    }
}

/// Turns a storage failure into an action result: messages mentioning "not
/// found" (any ASCII case) are not-found errors, those mentioning "already
/// exists", "cannot be empty" or "out of bounds" are validation errors, and
/// anything else is a persistence error. The message and context are kept.
pub fn classify_storage_error(context: &'static str, message: String) -> (r: PlaylistActionResult)
    ensures
        error_class(message@) == 0 ==> (r matches PlaylistActionResult::NotFoundError {
            context: c,
            message: m,
        } && c == context && m@ == message@),
        error_class(message@) == 1 ==> (r matches PlaylistActionResult::ValidationError {
            context: c,
            message: m,
        } && c == context && m@ == message@),
        error_class(message@) == 2 ==> (r matches PlaylistActionResult::PersistenceError {
            context: c,
            message: m,
        } && c == context && m@ == message@),
{
    let lowered = to_lower(message.as_str());
    let l = lowered.as_str();
    if text_contains(l, "not found") {
        return PlaylistActionResult::NotFoundError { context, message };
    }
    if text_contains(l, "already exists") || text_contains(l, "cannot be empty") || text_contains(
        l,
        "out of bounds",
    ) {
        return PlaylistActionResult::ValidationError { context, message };
    }
    PlaylistActionResult::PersistenceError { context, message }
}

} // verus!
