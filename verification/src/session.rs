//! What the player does to its session when the user or the audio output
//! acts: starting tracks, stepping through the queue, repeat and shuffle,
//! playing from playlists, and keeping the session in line with the library.
//! Writing to the database and driving the audio output is left to the
//! caller; each operation says what it changed.

use vstd::prelude::*;
use crate::model::{repeat_next, PlaybackState, RepeatMode, Track};
use crate::playlists::{
    playable_start, playable_with, playlist_queue_ids, queueable_ids, resolve_playable_track_id,
    skipped_with, PlaylistItem,
};
use crate::queue::{
    ids_of, kept_ids, lemma_swap_multiset, next_index, normalize_queue, prev_index,
    rebuild_queue_ids, shuffled, swapped, track_ids, AppSession, QueueFix,
};
use crate::search::last_index_of_id;
use crate::text::{i64_text, int_text, trim, trim_text};

verus! {

/// `x + 1`, stopping at the largest value.
pub open spec fn saturating_inc(x: u64) -> u64 {
    if x == u64::MAX {
        u64::MAX
    } else {
        (x + 1) as u64
    }
}

/// What play/pause does, given the audio output and the session.
#[derive(Debug, Clone, Copy, PartialEq, Eq, Structural)]
pub enum PlayPause {
    /// A track is loaded in the output: pause or resume it.
    TogglePlayer,
    /// Nothing is loaded but the session names a known track: load it at the
    /// saved position.
    Resume { track_id: i64, position_secs: i64 },
    /// Nothing to resume: start the first track of the library.
    PlayFirst(i64),
    /// The library is empty.
    Idle,
}

/// What follows when the queue of the active playlist was rebuilt.
#[derive(Debug, Clone, Copy, PartialEq, Eq, Structural)]
pub enum PlaylistSync {
    /// The playlist has nothing playable left: playback was cleared.
    Cleared,
    /// The current track left the playlist: play this one.
    PlayFirst(i64),
    /// Nothing else to do.
    Keep,
}

/// The session after `post` replaced only the playback state of `pre`.
pub open spec fn only_playback_changed(pre: AppSession, post: AppSession) -> bool {
    &&& post.tracks == pre.tracks
    &&& post.tracks_version == pre.tracks_version
    &&& post.queue == pre.queue
    &&& post.queue_version == pre.queue_version
    &&& post.active_playlist_id == pre.active_playlist_id
    &&& post.active_playlist_name == pre.active_playlist_name
}

/// Whether an item can be played: it is not missing and its track is known.
pub open spec fn playable_in(item: PlaylistItem, known: Seq<i64>) -> bool {
    &&& !item.is_missing
    &&& item.track_id matches Some(t)
    &&& known.contains(t)
}

/// Where playing a playlist looks first: the selected item (the first when
/// none is selected), clamped to the last item.
pub open spec fn start_of(len: int, selected_index: Option<usize>) -> int {
    playable_start(
        len,
        match selected_index {
            Some(s) => s as int,
            None => 0,
        },
    )
}

/// Whether `r` is where playing a playlist starts when looking from item
/// `start`: the track of the first playable item from there on, or none when
/// no item from there on is playable.
pub open spec fn start_choice(items: Seq<PlaylistItem>, known: Seq<i64>, start: int, r: Option<
    i64,
>) -> bool {
    match r {
        Some(t) => exists|k: int|
            start <= k < items.len() && (#[trigger] items[k]).track_id == Some(t) && playable_in(
                items[k],
                known,
            ) && forall|j: int| start <= j < k ==> !playable_in(#[trigger] items[j], known),
        None => forall|j: int| start <= j < items.len() ==> !playable_in(#[trigger] items[j], known),
    }
}

proof fn lemma_playable_is_queueable(items: Seq<PlaylistItem>, known: Seq<i64>, k: int, t: i64)
    requires
        0 <= k < items.len(),
        items[k].track_id == Some(t),
        playable_in(items[k], known),
    ensures
        queueable_ids(items, known).contains(t),
    decreases items.len(),
{
    let rest = queueable_ids(items.drop_last(), known);
    if k == items.len() - 1 {
        assert(queueable_ids(items, known) == rest.push(t));
        assert(queueable_ids(items, known)[rest.len() as int] == t);
    } else {
        lemma_playable_is_queueable(items.drop_last(), known, k, t);
        let i = choose|i: int| 0 <= i < rest.len() && rest[i] == t;
        let q = queueable_ids(items, known);
        assert(q == rest || q == rest.push(items.last().track_id->0));
        assert(q[i] == t);
    }
}

/// The track that playing a playlist starts with is in the queue that the
/// playlist then gives.
pub proof fn law_start_track_is_queued(
    items: Seq<PlaylistItem>,
    known: Seq<i64>,
    start: int,
    t: i64,
)
    requires
        start_choice(items, known, start, Some(t)),
        0 <= start,
    ensures
        queueable_ids(items, known).contains(t),
{
    let k = choose|k: int|
        start <= k < items.len() && (#[trigger] items[k]).track_id == Some(t) && playable_in(
            items[k],
            known,
        ) && forall|j: int| start <= j < k ==> !playable_in(#[trigger] items[j], known);
    lemma_playable_is_queueable(items, known, k, t);
}

/// Whether the library has a track with this id.
pub open spec fn known_track(tracks: Seq<Track>, id: i64) -> bool {
    last_index_of_id(tracks, id) is Some
}

proof fn lemma_known_track(tracks: Seq<Track>, id: i64)
    ensures
        known_track(tracks, id) <==> ids_of(tracks).contains(id),
    decreases tracks.len(),
{
    if tracks.len() > 0 {
        lemma_known_track(tracks.drop_last(), id);
        assert(ids_of(tracks.drop_last()) =~= ids_of(tracks).drop_last());
        if tracks.last().id != id {
            if ids_of(tracks).contains(id) {
                let k = choose|k: int| 0 <= k < ids_of(tracks).len() && ids_of(tracks)[k] == id;
                assert(k < tracks.len() - 1);
                assert(ids_of(tracks.drop_last())[k] == id);
            }
        } else {
            assert(ids_of(tracks)[tracks.len() - 1] == id);
        }
    }
}

fn has_track(tracks: &Vec<Track>, id: i64) -> (r: bool)
    ensures
        r == known_track(tracks@, id),
{
    let mut j: usize = tracks.len();
    assert(tracks@.take(j as int) =~= tracks@);
    while j > 0
        invariant
            j <= tracks.len(),
            last_index_of_id(tracks@, id) == last_index_of_id(tracks@.take(j as int), id),
        decreases j,
    {
        assert(tracks@.take(j as int).drop_last() =~= tracks@.take(j - 1));
        if tracks[j - 1].id == id {
            return true;
        }
        j = j - 1;
    }
    false
}

impl AppSession {
    /// A track starts playing from its beginning.
    pub fn start_track(&mut self, track_id: i64)
        ensures
            only_playback_changed(*old(self), *final(self)),
            final(self).playback_state == (PlaybackState {
                current_track_id: Some(track_id),
                position_secs: 0,
                ..old(self).playback_state
            }),
    {
        self.playback_state.current_track_id = Some(track_id);
        self.playback_state.position_secs = 0;
    }

    /// Nothing is playing any more.
    pub fn clear_current_track(&mut self)
        ensures
            only_playback_changed(*old(self), *final(self)),
            final(self).playback_state == (PlaybackState {
                current_track_id: None,
                position_secs: 0,
                ..old(self).playback_state
            }),
    {
        self.playback_state.current_track_id = None;
        self.playback_state.position_secs = 0;
    }

    /// The queue no longer follows a playlist.
    pub fn clear_active_playlist_context(&mut self)
        ensures
            final(self).active_playlist_id is None,
            final(self).active_playlist_name is None,
            final(self).tracks == old(self).tracks,
            final(self).tracks_version == old(self).tracks_version,
            final(self).queue == old(self).queue,
            final(self).queue_version == old(self).queue_version,
            final(self).playback_state == old(self).playback_state,
    {
        self.active_playlist_id = None;
        self.active_playlist_name = None;
    }

    /// The queue was written: its version moves on (saturating).
    pub fn queue_saved(&mut self)
        ensures
            final(self).queue_version == saturating_inc(old(self).queue_version),
            final(self).tracks == old(self).tracks,
            final(self).tracks_version == old(self).tracks_version,
            final(self).queue == old(self).queue,
            final(self).playback_state == old(self).playback_state,
            final(self).active_playlist_id == old(self).active_playlist_id,
            final(self).active_playlist_name == old(self).active_playlist_name,
    {
        self.queue_version = self.queue_version.saturating_add(1);
    }

    /// The library was read again: the tracks are replaced and their version
    /// moves on (saturating).
    pub fn tracks_loaded(&mut self, tracks: Vec<Track>)
        ensures
            final(self).tracks == tracks,
            final(self).tracks_version == saturating_inc(old(self).tracks_version),
            final(self).queue == old(self).queue,
            final(self).queue_version == old(self).queue_version,
            final(self).playback_state == old(self).playback_state,
            final(self).active_playlist_id == old(self).active_playlist_id,
            final(self).active_playlist_name == old(self).active_playlist_name,
    {
        self.tracks = tracks;
        self.tracks_version = self.tracks_version.saturating_add(1);
    }

    /// The stored queue was read again: it replaces the queue and its version
    /// moves on (saturating).
    pub fn queue_loaded(&mut self, queue: Vec<i64>)
        ensures
            final(self).queue@ == queue@,
            final(self).queue_version == saturating_inc(old(self).queue_version),
            final(self).tracks == old(self).tracks,
            final(self).tracks_version == old(self).tracks_version,
            final(self).playback_state == old(self).playback_state,
            final(self).active_playlist_id == old(self).active_playlist_id,
            final(self).active_playlist_name == old(self).active_playlist_name,
    {
        self.queue = queue;
        self.queue_version = self.queue_version.saturating_add(1);
    }

    /// Moves the repeat mode on (`Off -> One -> All -> Off`).
    pub fn toggle_repeat(&mut self) -> (m: RepeatMode)
        ensures
            m == repeat_next(old(self).playback_state.repeat_mode),
            only_playback_changed(*old(self), *final(self)),
            final(self).playback_state == (PlaybackState { repeat_mode: m, ..old(self).playback_state }),
    {
        self.playback_state.repeat_mode = self.playback_state.repeat_mode.cycle();
        self.playback_state.repeat_mode
    }

    /// Rebuilds the queue from the whole library (shuffled with `seed`, the
    /// current track first, when shuffle is on); the queue stops following a
    /// playlist. The caller writes the queue.
    pub fn rebuild_queue(&mut self, seed: u64)
        ensures
            final(self).active_playlist_id is None,
            final(self).active_playlist_name is None,
            !final(self).playback_state.shuffle_enabled ==> final(self).queue@ == ids_of(
                final(self).tracks@,
            ),
            final(self).playback_state.shuffle_enabled ==> final(self).queue@ == shuffled(
                ids_of(final(self).tracks@),
                final(self).playback_state.current_track_id,
                seed,
            ),
            final(self).queue@.to_multiset() == ids_of(final(self).tracks@).to_multiset(),
            final(self).playback_state.shuffle_enabled ==> (
            final(self).playback_state.current_track_id matches Some(c) ==> (ids_of(
                final(self).tracks@,
            ).contains(c) ==> final(self).queue@[0] == c)),
            final(self).tracks == old(self).tracks,
            final(self).tracks_version == old(self).tracks_version,
            final(self).queue_version == old(self).queue_version,
            final(self).playback_state == old(self).playback_state,
    {
        self.clear_active_playlist_context();
        self.queue = rebuild_queue_ids(
            &self.tracks,
            self.playback_state.shuffle_enabled,
            self.playback_state.current_track_id,
            seed,
        );
    }

    /// Turns shuffle on or off and rebuilds the queue accordingly; returns
    /// whether shuffle is now on. The caller writes the queue and the
    /// playback state.
    pub fn toggle_shuffle(&mut self, seed: u64) -> (on: bool)
        ensures
            on == !old(self).playback_state.shuffle_enabled,
            final(self).playback_state == (PlaybackState {
                shuffle_enabled: on,
                ..old(self).playback_state
            }),
            final(self).active_playlist_id is None,
            final(self).active_playlist_name is None,
            !on ==> final(self).queue@ == ids_of(old(self).tracks@),
            on ==> final(self).queue@ == shuffled(
                ids_of(old(self).tracks@),
                old(self).playback_state.current_track_id,
                seed,
            ),
            final(self).queue@.to_multiset() == ids_of(old(self).tracks@).to_multiset(),
            on ==> (old(self).playback_state.current_track_id matches Some(c) ==> (ids_of(
                old(self).tracks@,
            ).contains(c) ==> final(self).queue@[0] == c)),
            final(self).tracks == old(self).tracks,
            final(self).tracks_version == old(self).tracks_version,
            final(self).queue_version == old(self).queue_version,
    {
        self.clear_active_playlist_context();
        self.playback_state.shuffle_enabled = !self.playback_state.shuffle_enabled;
        self.rebuild_queue(seed);
        self.playback_state.shuffle_enabled
    }

    /// Drops queued tracks that left the library; an emptied queue of a
    /// non-empty library is rebuilt (with `seed`). The caller writes the
    /// queue unless the result is `Unchanged`.
    pub fn normalize(&mut self, seed: u64) -> (fix: QueueFix)
        ensures
            fix == (if kept_ids(old(self).queue@, ids_of(old(self).tracks@)).len() == 0
                && old(self).tracks@.len() > 0 {
                QueueFix::Rebuild
            } else if kept_ids(old(self).queue@, ids_of(old(self).tracks@)).len()
                != old(self).queue@.len() {
                QueueFix::Pruned
            } else {
                QueueFix::Unchanged
            }),
            fix != QueueFix::Rebuild ==> final(self).queue@ == kept_ids(
                old(self).queue@,
                ids_of(old(self).tracks@),
            ),
            fix != QueueFix::Rebuild ==> final(self).active_playlist_id == old(self).active_playlist_id
                && final(self).active_playlist_name == old(self).active_playlist_name,
            fix == QueueFix::Rebuild ==> {
                &&& final(self).active_playlist_id is None
                &&& final(self).queue@.to_multiset() == ids_of(old(self).tracks@).to_multiset()
                &&& !old(self).playback_state.shuffle_enabled ==> final(self).queue@ == ids_of(
                    old(self).tracks@,
                )
                &&& old(self).playback_state.shuffle_enabled ==> final(self).queue@ == shuffled(
                    ids_of(old(self).tracks@),
                    old(self).playback_state.current_track_id,
                    seed,
                )
            },
            final(self).tracks == old(self).tracks,
            final(self).tracks_version == old(self).tracks_version,
            final(self).queue_version == old(self).queue_version,
            final(self).playback_state == old(self).playback_state,
    {
        let ids = track_ids(&self.tracks);
        let fix = normalize_queue(&mut self.queue, &ids);
        if fix == QueueFix::Rebuild {
            self.rebuild_queue(seed);
        }
        fix
    }

    /// Queues a track at the end unless it is queued already; adding it stops
    /// the queue from following a playlist. Returns whether it was added (the
    /// caller then writes the queue).
    pub fn ensure_queued(&mut self, track_id: i64) -> (added: bool)
        ensures
            added == !old(self).queue@.contains(track_id),
            added ==> final(self).queue@ == old(self).queue@.push(track_id)
                && final(self).active_playlist_id is None && final(self).active_playlist_name is None,
            !added ==> *final(self) == *old(self),
            final(self).tracks == old(self).tracks,
            final(self).tracks_version == old(self).tracks_version,
            final(self).queue_version == old(self).queue_version,
            final(self).playback_state == old(self).playback_state,
    {
        if crate::queue::find_in_queue(&self.queue, track_id).is_some() {
            return false;
        }
        self.clear_active_playlist_context();
        crate::queue::ensure_track_in_queue(&mut self.queue, track_id)
    }

    /// `x` on the queue: removes the entry at `index`, which stops the queue
    /// from following a playlist. Returns the removed id (the caller then
    /// writes the queue); an index past the end changes nothing.
    pub fn remove_queued(&mut self, index: usize) -> (removed: Option<i64>)
        ensures
            index < old(self).queue@.len() ==> removed == Some(old(self).queue@[index as int])
                && final(self).queue@ == old(self).queue@.remove(index as int)
                && final(self).active_playlist_id is None && final(self).active_playlist_name is None,
            index >= old(self).queue@.len() ==> removed is None && *final(self) == *old(self),
            final(self).tracks == old(self).tracks,
            final(self).tracks_version == old(self).tracks_version,
            final(self).queue_version == old(self).queue_version,
            final(self).playback_state == old(self).playback_state,
    {
        if index >= self.queue.len() {
            return None;
        }
        self.clear_active_playlist_context();
        Some(self.queue.remove(index))
    }

    /// Shift+Up / Shift+Down on the queue: exchanges the entry at `index`
    /// with the one before it (`up`) or after it, which stops the queue from
    /// following a playlist. Returns where the entry went (the caller then
    /// writes the queue); at the edge of the queue or past its end nothing
    /// changes.
    pub fn move_queued(&mut self, index: usize, up: bool) -> (moved_to: Option<usize>)
        ensures
            (moved_to is None) == (index >= old(self).queue@.len() || (up && index == 0) || (!up
                && index + 1 >= old(self).queue@.len())),
            moved_to is None ==> *final(self) == *old(self),
            moved_to matches Some(j) ==> {
                &&& j == (if up {
                    index - 1
                } else {
                    index + 1
                })
                &&& final(self).queue@ == swapped(old(self).queue@, index as int, j as int)
                &&& final(self).active_playlist_id is None
                &&& final(self).active_playlist_name is None
            },
            final(self).tracks == old(self).tracks,
            final(self).tracks_version == old(self).tracks_version,
            final(self).queue_version == old(self).queue_version,
            final(self).playback_state == old(self).playback_state,
    {
        let len = self.queue.len();
        if index >= len || (up && index == 0) || (!up && index + 1 >= len) {
            return None;
        }
        let j: usize = if up {
            index - 1
        } else {
            index + 1
        };
        self.clear_active_playlist_context();
        let a = self.queue[index];
        let b = self.queue[j];
        self.queue.set(index, b);
        self.queue.set(j, a);
        Some(j)
    }

    /// The track "next" plays: see `next_index`.
    pub fn next_track_id(&self) -> (r: Option<i64>)
        ensures
            match next_index(
                self.queue@,
                self.playback_state.current_track_id,
                self.playback_state.repeat_mode,
            ) {
                Some(i) => r == Some(self.queue@[i]),
                None => r is None,
            },
    {
        match crate::queue::next_queue_index(
            &self.queue,
            self.playback_state.current_track_id,
            self.playback_state.repeat_mode,
        ) {
            Some(i) => Some(self.queue[i]),
            None => None,
        }
    }

    /// The track "previous" plays: see `prev_index`.
    pub fn prev_track_id(&self) -> (r: Option<i64>)
        ensures
            match prev_index(self.queue@, self.playback_state.current_track_id) {
                Some(i) => r == Some(self.queue@[i]),
                None => r is None,
            },
    {
        match crate::queue::prev_queue_index(&self.queue, self.playback_state.current_track_id) {
            Some(i) => Some(self.queue[i]),
            None => None,
        }
    }

    /// The position in the library of the playing track, if it is known.
    pub fn current_track_index(&self) -> (r: Option<usize>)
        ensures
            match self.playback_state.current_track_id {
                Some(id) => match r {
                    Some(i) => last_index_of_id(self.tracks@, id) == Some(i as int) && i < self.tracks@.len(),
                    None => last_index_of_id(self.tracks@, id) is None,
                },
                None => r is None,
            },
    {
        match self.playback_state.current_track_id {
            None => None,
            Some(id) => crate::search::track_position(&self.tracks, id),
        }
    }

    /// What play/pause does: toggle a loaded track; otherwise resume the
    /// session's known track at its position; otherwise start the first track
    /// of the library.
    pub fn play_pause_decision(&self, has_active_sink: bool) -> (d: PlayPause)
        ensures
            has_active_sink ==> d == PlayPause::TogglePlayer,
            !has_active_sink ==> d == (match self.playback_state.current_track_id {
                Some(id) if known_track(self.tracks@, id) => PlayPause::Resume {
                    track_id: id,
                    position_secs: self.playback_state.position_secs,
                },
                _ => if self.tracks@.len() > 0 {
                    PlayPause::PlayFirst(self.tracks@[0].id)
                } else {
                    PlayPause::Idle
                },
            }),
    {
        if has_active_sink {
            return PlayPause::TogglePlayer;
        }
        match self.playback_state.current_track_id {
            Some(id) => {
                if has_track(&self.tracks, id) {
                    return PlayPause::Resume {
                        track_id: id,
                        position_secs: self.playback_state.position_secs,
                    };
                }
            },
            None => {},
        }
        if self.tracks.len() > 0 {
            PlayPause::PlayFirst(self.tracks[0].id)
        } else {
            PlayPause::Idle
        }
    }

    /// After a track ended and "next" was tried: when nothing new started
    /// (still the same track and no output loaded), playback is cleared.
    /// Returns whether it was (the caller writes the playback state).
    pub fn settle_after_track_end(&mut self, previous: Option<i64>, has_active_sink: bool) -> (cleared:
        bool)
        ensures
            cleared == (old(self).playback_state.current_track_id == previous && !has_active_sink),
            cleared ==> final(self).playback_state == (PlaybackState {
                current_track_id: None,
                position_secs: 0,
                ..old(self).playback_state
            }),
            !cleared ==> *final(self) == *old(self),
            only_playback_changed(*old(self), *final(self)),
    {
        if self.playback_state.current_track_id == previous && !has_active_sink {
            self.clear_current_track();
            true
        } else {
            false
        }
    }

    /// After the library was reloaded: a playing track that left it is
    /// cleared. Returns whether it was (the caller stops the output and writes
    /// the playback state).
    pub fn drop_missing_current(&mut self) -> (dropped: bool)
        ensures
            dropped == (old(self).playback_state.current_track_id matches Some(id) && !known_track(
                old(self).tracks@,
                id,
            )),
            dropped ==> final(self).playback_state == (PlaybackState {
                current_track_id: None,
                position_secs: 0,
                ..old(self).playback_state
            }),
            !dropped ==> *final(self) == *old(self),
            only_playback_changed(*old(self), *final(self)),
    {
        match self.playback_state.current_track_id {
            Some(id) => {
                if !has_track(&self.tracks, id) {
                    self.clear_current_track();
                    return true;
                }
                false
            },
            None => false,
        }
    }

    /// The queue follows a playlist: its playable items whose track is in the
    /// library, in order. Returns the new queue (the caller writes it).
    pub fn activate_playlist(&mut self, playlist_id: i64, name: String, items: &Vec<PlaylistItem>) -> (ids:
        Vec<i64>)
        ensures
            ids@ == queueable_ids(items@, ids_of(old(self).tracks@)),
            final(self).queue@ == ids@,
            final(self).active_playlist_id == Some(playlist_id),
            final(self).active_playlist_name == Some(name),
            final(self).tracks == old(self).tracks,
            final(self).tracks_version == old(self).tracks_version,
            final(self).queue_version == old(self).queue_version,
            final(self).playback_state == old(self).playback_state,
    {
        let known = track_ids(&self.tracks);
        let ids = playlist_queue_ids(items, &known);
        self.queue = ids.clone();
        self.active_playlist_id = Some(playlist_id);
        self.active_playlist_name = Some(name);
        ids
    }

    /// Whether a change to this playlist must rebuild the queue: it is the
    /// playlist the queue follows.
    pub fn follows_playlist(&self, playlist_id: i64) -> (r: bool)
        ensures
            r == (self.active_playlist_id == Some(playlist_id)),
    {
        self.active_playlist_id == Some(playlist_id)
    }

    /// After the followed playlist's queue was rebuilt (from `ids`, with
    /// `previous` playing before): an empty queue clears playback; a current
    /// track that left the queue gives way to its first track.
    pub fn settle_playlist_sync(&mut self, previous: Option<i64>, ids: &Vec<i64>) -> (s: PlaylistSync)
        ensures
            ids@.len() == 0 ==> s == PlaylistSync::Cleared && final(self).playback_state == (
            PlaybackState { current_track_id: None, position_secs: 0, ..old(self).playback_state }),
            ids@.len() > 0 ==> s == (match previous {
                Some(c) if !ids@.contains(c) => PlaylistSync::PlayFirst(ids@[0]),
                _ => PlaylistSync::Keep,
            }) && *final(self) == *old(self),
            only_playback_changed(*old(self), *final(self)),
    {
        if ids.len() == 0 {
            self.clear_current_track();
            return PlaylistSync::Cleared;
        }
        match previous {
            Some(c) => {
                if crate::queue::find_in_queue(ids, c).is_none() {
                    return PlaylistSync::PlayFirst(ids[0]);
                }
                PlaylistSync::Keep
            },
            None => PlaylistSync::Keep,
        }
    }

    /// A playlist was deleted: when the queue followed it, the queue is
    /// rebuilt from the library (with `seed`). Returns whether it was (the
    /// caller writes the queue).
    pub fn playlist_deleted(&mut self, playlist_id: i64, seed: u64) -> (rebuilt: bool)
        ensures
            rebuilt == (old(self).active_playlist_id == Some(playlist_id)),
            rebuilt ==> final(self).active_playlist_id is None
                && final(self).queue@.to_multiset() == ids_of(old(self).tracks@).to_multiset()
                && (!old(self).playback_state.shuffle_enabled ==> final(self).queue@ == ids_of(
                old(self).tracks@,
            )) && (old(self).playback_state.shuffle_enabled ==> final(self).queue@ == shuffled(
                ids_of(old(self).tracks@),
                old(self).playback_state.current_track_id,
                seed,
            )),
            !rebuilt ==> *final(self) == *old(self),
            final(self).tracks == old(self).tracks,
            final(self).playback_state == old(self).playback_state,
    {
        if self.active_playlist_id == Some(playlist_id) {
            self.clear_active_playlist_context();
            self.rebuild_queue(seed);
            true
        } else {
            false
        }
    }

    /// A playlist was renamed: the followed playlist takes the trimmed name.
    pub fn playlist_renamed(&mut self, playlist_id: i64, name: &str)
        ensures
            old(self).active_playlist_id == Some(playlist_id) ==> (final(self).active_playlist_name matches Some(n) && n@ == trim(name@)),
            old(self).active_playlist_id != Some(playlist_id) ==> final(self).active_playlist_name
                == old(self).active_playlist_name,
            final(self).active_playlist_id == old(self).active_playlist_id,
            final(self).tracks == old(self).tracks,
            final(self).queue == old(self).queue,
            final(self).playback_state == old(self).playback_state,
    {
        if self.active_playlist_id == Some(playlist_id) {
            self.active_playlist_name = Some(trim_text(name));
        }
    }

    /// Where playing from a playlist starts: the first playable item at or
    /// after the selected one (clamped to the last item) whose track is in
    /// the library.
    pub fn playlist_start_track(&self, items: &Vec<PlaylistItem>, selected_index: Option<usize>) -> (r:
        Option<i64>)
        ensures
            items@.len() == 0 ==> r is None,
            items@.len() > 0 ==> start_choice(
                items@,
                ids_of(self.tracks@),
                start_of(items@.len() as int, selected_index),
                r,
            ),
    {
        let known = track_ids(&self.tracks);
        let start = match selected_index {
            Some(s) => s,
            None => 0,
        };
        let kref = &known;
        let exists = |t: i64| -> (b: bool)
            ensures
                b == kref@.contains(t),
            { crate::queue::find_in_queue(kref, t).is_some() };
        let r = resolve_playable_track_id(items, start, exists);
        proof {
            let knownv = ids_of(self.tracks@);
            assert(knownv == known@);
            if items@.len() > 0 {
                match r {
                    Some(t) => {
                        let k = choose|k: int|
                            playable_start(items@.len() as int, start as int) <= k < items@.len()
                                && (#[trigger] items@[k]).track_id == Some(t) && playable_with(
                                items@[k],
                                exists,
                            ) && forall|j: int|
                                playable_start(items@.len() as int, start as int) <= j < k
                                    ==> skipped_with(#[trigger] items@[j], exists);
                        assert forall|j: int|
                            playable_start(items@.len() as int, start as int) <= j < k implies !playable_in(
                            #[trigger] items@[j],
                            knownv,
                        ) by {
                            assert(skipped_with(items@[j], exists));
                        }
                        assert(playable_in(items@[k], knownv));
                    },
                    None => {
                        assert forall|j: int|
                            playable_start(items@.len() as int, start as int) <= j < items@.len() implies !playable_in(
                            #[trigger] items@[j],
                            knownv,
                        ) by {
                            assert(skipped_with(items@[j], exists));
                        }
                    },
                }
            }
        }
        r
    }

    /// Playing from a playlist: picks the start track (see
    /// `playlist_start_track`) and, when there is one, makes the queue follow
    /// the playlist (see `activate_playlist`); the start track is then in the
    /// new queue. Without a playable item nothing changes. The caller writes
    /// the queue and starts the track.
    pub fn start_playlist(
        &mut self,
        playlist_id: i64,
        name: String,
        items: &Vec<PlaylistItem>,
        selected_index: Option<usize>,
    ) -> (r: Option<i64>)
        ensures
            items@.len() == 0 ==> r is None,
            items@.len() > 0 ==> start_choice(
                items@,
                ids_of(old(self).tracks@),
                start_of(items@.len() as int, selected_index),
                r,
            ),
            r is None ==> *final(self) == *old(self),
            r matches Some(t) ==> {
                &&& final(self).queue@ == queueable_ids(items@, ids_of(old(self).tracks@))
                &&& final(self).queue@.contains(t)
                &&& final(self).active_playlist_id == Some(playlist_id)
                &&& final(self).active_playlist_name == Some(name)
            },
            final(self).tracks == old(self).tracks,
            final(self).tracks_version == old(self).tracks_version,
            final(self).queue_version == old(self).queue_version,
            final(self).playback_state == old(self).playback_state,
    {
        let r = self.playlist_start_track(items, selected_index);
        if let Some(t) = r {
            proof {
                law_start_track_is_queued(
                    items@,
                    ids_of(self.tracks@),
                    start_of(items@.len() as int, selected_index),
                    t,
                );
            }
            let _ = self.activate_playlist(playlist_id, name, items);
        }
        r
    }
}

/// The name shown for the playlist the queue follows: its name, or
/// `Playlist <id>` when the name is not known.
pub fn playlist_label(name: Option<String>, playlist_id: i64) -> (s: String)
    ensures
        s@ == match name {
            Some(n) => n@,
            None => "Playlist "@ + int_text(playlist_id as int),
        },
{
    match name {
        Some(n) => n,
        None => crate::text::concat("Playlist ", i64_text(playlist_id).as_str()),
    }
}


/// Moving a queue entry keeps the queue's entries, as often each, and moving
/// it back from where it went restores the queue.
pub proof fn law_move_queued_round_trip(q: Seq<i64>, index: int, up: bool)
    requires
        0 <= index < q.len(),
        up ==> index > 0,
        !up ==> index + 1 < q.len(),
    ensures
        ({
            let j = if up {
                index - 1
            } else {
                index + 1
            };
            &&& swapped(q, index, j).to_multiset() == q.to_multiset()
            &&& swapped(q, index, j).len() == q.len()
            &&& swapped(swapped(q, index, j), j, index) == q
        }),
{
    let j = if up {
        index - 1
    } else {
        index + 1
    };
    lemma_swap_multiset(q, index, j);
    assert(swapped(swapped(q, index, j), j, index) =~= q);
}

/// Removing a queue entry takes away exactly that entry: one fewer of it and
/// the same count of every other id.
pub proof fn law_remove_queued_takes_one(q: Seq<i64>, index: int)
    requires
        0 <= index < q.len(),
    ensures
        q.remove(index).to_multiset() == q.to_multiset().remove(q[index]),
        q.remove(index).len() == q.len() - 1,
{
    broadcast use vstd::seq_lib::group_to_multiset_ensures;

    let front = q.take(index);
    let back = q.skip(index + 1);
    assert(q =~= front + (seq![q[index]] + back));
    assert(q.remove(index) =~= front + back);
    vstd::seq_lib::lemma_multiset_commutative(front, seq![q[index]] + back);
    vstd::seq_lib::lemma_multiset_commutative(seq![q[index]], back);
    vstd::seq_lib::lemma_multiset_commutative(front, back);
    assert(q.to_multiset().remove(q[index]) =~= q.remove(index).to_multiset());
}

} // verus!
