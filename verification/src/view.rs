//! The text the terminal UI shows: rows of the library and the queue, the
//! now-playing and progress lines, the header, the playlist modal, and the
//! big clock. Colours and layout are left to the renderer.

use vstd::prelude::*;
use crate::model::{repeat_label, PlaybackState, RepeatMode, Track};
use crate::playlists::{Playlist, PlaylistItem};
use crate::queue::{position_of, up_next};
use crate::search::{last_index_of_id, track_position};
use crate::ui::{FocusPanel, InputMode, PlaylistModalMode, UiState, VisualizerMode};
use crate::text::{chars_of, dec, dec_pad, extend_chars, int_text, string_of, u64_text, u64_text_padded, i64_text};

verus! {

// ---------------------------------------------------------------------------
// Fitting text into cells
// ---------------------------------------------------------------------------

/// `n` spaces.
pub open spec fn spaces(n: nat) -> Seq<char> {
    Seq::new(n, |i: int| ' ')
}

/// The first `width` characters of `text`, padded with spaces to exactly
/// `width` characters.
pub open spec fn fixed_width(text: Seq<char>, width: nat) -> Seq<char> {
    if text.len() >= width {
        text.take(width as int)
    } else {
        text + spaces((width - text.len()) as nat)
    }
}

fn push_spaces(v: &mut Vec<char>, n: usize)
    ensures
        final(v)@ == old(v)@ + spaces(n as nat),
{
    let ghost start = v@;
    let mut i: usize = 0;
    while i < n
        invariant
            i <= n,
            v@ == start + spaces(i as nat),
        decreases n - i,
    {
        v.push(' ');
        i = i + 1;
        assert(v@ =~= start + spaces(i as nat));
    }
}

fn take_chars(v: &Vec<char>, n: usize) -> (r: Vec<char>)
    requires
        n <= v@.len(),
    ensures
        r@ == v@.take(n as int),
{
    let mut r: Vec<char> = Vec::new();
    let mut i: usize = 0;
    while i < n
        invariant
            i <= n <= v@.len(),
            r@ == v@.take(i as int),
        decreases n - i,
    {
        r.push(v[i]);
        i = i + 1;
        assert(r@ =~= v@.take(i as int));
    }
    r
}

/// `text` cut or padded to exactly `width` characters.
pub fn fixed_width_text(text: &str, width: usize) -> (s: String)
    ensures
        s@ == fixed_width(text@, width as nat),
{
    let v = chars_of(text);
    if v.len() >= width {
        let r = take_chars(&v, width);
        string_of(&r)
    } else {
        let mut r = v;
        let pad = width - r.len();
        push_spaces(&mut r, pad);
        string_of(&r)
    }
}

/// `value` fitted into `width` characters for the playlist modal: cut to the
/// width, and ending in `..` when it was cut and the width allows.
pub open spec fn fit_modal(value: Seq<char>, width: nat) -> Seq<char> {
    if width == 0 {
        Seq::empty()
    } else if value.len() > width && width > 2 {
        value.take(width - 2) + seq!['.', '.']
    } else if value.len() > width {
        value.take(width as int)
    } else {
        value
    }
}

/// Fits a text into the modal's width.
pub fn fit_modal_text(value: &str, width: usize) -> (s: String)
    ensures
        s@ == fit_modal(value@, width as nat),
{
    if width == 0 {
        return String::new();
    }
    let v = chars_of(value);
    if v.len() > width && width > 2 {
        let mut r = take_chars(&v, width - 2);
        r.push('.');
        r.push('.');
        assert(r@ =~= v@.take(width - 2) + seq!['.', '.']);
        string_of(&r)
    } else if v.len() > width {
        let r = take_chars(&v, width);
        string_of(&r)
    } else {
        string_of(&v)
    }
}

/// `text` preceded by the spaces that centre it in a panel `width` wide
/// (two columns go to the border).
pub open spec fn centered(width: nat, text: Seq<char>) -> Seq<char> {
    let available = if width >= 2 {
        width - 2
    } else {
        0
    };
    let left = if available >= text.len() {
        (available - text.len()) / 2
    } else {
        0
    };
    spaces(left as nat) + text
}

/// Centres a line in a panel.
pub fn centered_text(width: u16, text: &str) -> (s: String)
    ensures
        s@ == centered(width as nat, text@),
{
    let available: usize = if width >= 2 {
        (width - 2) as usize
    } else {
        0
    };
    let t = chars_of(text);
    let left = if available >= t.len() {
        (available - t.len()) / 2
    } else {
        0
    };
    let mut v: Vec<char> = Vec::new();
    push_spaces(&mut v, left);
    extend_chars(&mut v, text);
    string_of(&v)
}

// ---------------------------------------------------------------------------
// Durations and numbers
// ---------------------------------------------------------------------------

/// `mm:ss` of a duration, negative durations counting as zero; minutes are
/// not capped (`format!("{:02}:{:02}", s / 60, s % 60)`).
pub open spec fn duration_text(secs: int) -> Seq<char> {
    let s = if secs < 0 {
        0
    } else {
        secs
    };
    dec_pad((s / 60) as nat, 2) + seq![':'] + dec_pad((s % 60) as nat, 2)
}

/// Formats a duration in seconds as `mm:ss`.
pub fn fmt_duration(secs: i64) -> (s: String)
    ensures
        s@ == duration_text(secs as int),
{
    let t: u64 = if secs < 0 {
        0
    } else {
        secs as u64
    };
    let mut v = chars_of(u64_text_padded(t / 60, 2).as_str());
    v.push(':');
    extend_chars(&mut v, u64_text_padded(t % 60, 2).as_str());
    string_of(&v)
}

/// A signed number zero-padded to `w` characters, the sign counting
/// (`format!("{:0w$}", i)`).
pub open spec fn int_pad(i: int, w: nat) -> Seq<char> {
    if i < 0 {
        seq!['-'] + dec_pad((-i) as nat, if w >= 1 {
            (w - 1) as nat
        } else {
            0
        })
    } else {
        dec_pad(i as nat, w)
    }
}

/// Formats a signed number zero-padded to `w` characters.
pub fn i64_text_padded(i: i64, w: usize) -> (s: String)
    ensures
        s@ == int_pad(i as int, w as nat),
{
    if i < 0 {
        let m: u64 = if i == i64::MIN {
            9223372036854775808u64
        } else {
            (-i) as u64
        };
        let inner = if w >= 1 {
            w - 1
        } else {
            0
        };
        let mut v: Vec<char> = Vec::new();
        v.push('-');
        extend_chars(&mut v, u64_text_padded(m, inner).as_str());
        string_of(&v)
    } else {
        u64_text_padded(i as u64, w)
    }
}


// ---------------------------------------------------------------------------
// Track labels
// ---------------------------------------------------------------------------

/// A track's artist, or "Unknown Artist".
pub open spec fn artist_or_unknown(t: Track) -> Seq<char> {
    match t.artist {
        Some(a) => a@,
        None => "Unknown Artist"@,
    }
}

/// `artist - title`.
pub open spec fn track_label(t: Track) -> Seq<char> {
    artist_or_unknown(t) + " - "@ + t.title@
}

fn push_track_label(v: &mut Vec<char>, t: &Track)
    ensures
        final(v)@ == old(v)@ + track_label(*t),
{
    match &t.artist {
        Some(a) => extend_chars(v, a.as_str()),
        None => extend_chars(v, "Unknown Artist"),
    }
    extend_chars(v, " - ");
    extend_chars(v, t.title.as_str());
}

/// A track as `artist - title`.
pub fn track_label_text(t: &Track) -> (s: String)
    ensures
        s@ == track_label(*t),
{
    let mut v: Vec<char> = Vec::new();
    push_track_label(&mut v, t);
    string_of(&v)
}

/// The track an id stands for: the last one with that id.
pub open spec fn track_of(tracks: Seq<Track>, id: i64) -> Option<Track> {
    match last_index_of_id(tracks, id) {
        Some(i) => Some(tracks[i]),
        None => None,
    }
}

/// The label of a track given by id, `#id` when the library lacks it.
pub open spec fn label_of_id(tracks: Seq<Track>, id: i64) -> Seq<char> {
    match track_of(tracks, id) {
        Some(t) => track_label(t),
        None => seq!['#'] + int_text(id as int),
    }
}

/// Labels a track by id.
pub fn track_label_by_id(tracks: &Vec<Track>, id: i64) -> (s: String)
    ensures
        s@ == label_of_id(tracks@, id),
{
    match track_position(tracks, id) {
        Some(i) => track_label_text(&tracks[i]),
        None => {
            let mut v: Vec<char> = Vec::new();
            v.push('#');
            extend_chars(&mut v, i64_text(id).as_str());
            string_of(&v)
        },
    }
}

/// The now-playing line: the playing track's label, or "Track: (none)".
pub open spec fn now_playing_label(tracks: Seq<Track>, current: Option<i64>) -> Seq<char> {
    match current {
        Some(id) => match track_of(tracks, id) {
            Some(t) => track_label(t),
            None => "Track: (none)"@,
        },
        None => "Track: (none)"@,
    }
}

/// The label of the playing track.
pub fn current_track_label(tracks: &Vec<Track>, current: Option<i64>) -> (s: String)
    ensures
        s@ == now_playing_label(tracks@, current),
{
    match current {
        Some(id) => match track_position(tracks, id) {
            Some(i) => track_label_text(&tracks[i]),
            None => crate::text::owned("Track: (none)"),
        },
        None => crate::text::owned("Track: (none)"),
    }
}

/// `On` or `Off`.
pub open spec fn on_off(b: bool) -> Seq<char> {
    if b {
        "On"@
    } else {
        "Off"@
    }
}

fn on_off_str(b: bool) -> (s: &'static str)
    ensures
        s@ == on_off(b),
{
    if b {
        "On"
    } else {
        "Off"
    }
}

/// `Repeat=<mode> Shuffle=<On|Off>`.
pub open spec fn flags_line(state: PlaybackState) -> Seq<char> {
    "Repeat="@ + repeat_label(state.repeat_mode) + " Shuffle="@ + on_off(state.shuffle_enabled)
}

/// The repeat and shuffle line of the now-playing panel.
pub fn playback_flags_line(state: &PlaybackState) -> (s: String)
    ensures
        s@ == flags_line(*state),
{
    let mut v = chars_of("Repeat=");
    extend_chars(&mut v, state.repeat_mode.label());
    extend_chars(&mut v, " Shuffle=");
    extend_chars(&mut v, on_off_str(state.shuffle_enabled));
    string_of(&v)
}

/// The volume line: `Vol <percent>%`.
pub fn volume_line(percent: u8) -> (s: String)
    ensures
        s@ == "Vol "@ + dec(percent as nat) + "%"@,
{
    let mut v = chars_of("Vol ");
    extend_chars(&mut v, u64_text(percent as u64).as_str());
    extend_chars(&mut v, "%");
    string_of(&v)
}

/// `position / duration`, both as `mm:ss`.
pub fn progress_label(position_secs: i64, duration_secs: i64) -> (s: String)
    ensures
        s@ == duration_text(position_secs as int) + " / "@ + duration_text(duration_secs as int),
{
    let mut v = chars_of(fmt_duration(position_secs).as_str());
    extend_chars(&mut v, " / ");
    extend_chars(&mut v, fmt_duration(duration_secs).as_str());
    string_of(&v)
}

/// How much of the track is left, never below zero.
pub fn remaining_line(duration_secs: i64, position_secs: i64) -> (s: String)
    requires
        i64::MIN <= duration_secs - position_secs <= i64::MAX,
    ensures
        s@ == "Remaining: "@ + duration_text(
            if duration_secs - position_secs < 0 {
                0
            } else {
                duration_secs - position_secs
            },
        ),
{
    let d = duration_secs - position_secs;
    let r = if d < 0 {
        0
    } else {
        d
    };
    let mut v = chars_of("Remaining: ");
    extend_chars(&mut v, fmt_duration(r).as_str());
    string_of(&v)
}

/// The "up next" line: the track after the current one in the queue (or
/// the first queued track).
pub open spec fn next_up_text(queue: Seq<i64>, current: Option<i64>, tracks: Seq<Track>) -> Seq<
    char,
> {
    if queue.len() == 0 {
        "Up Next: (queue empty)"@
    } else {
        match up_next(queue, current) {
            Some(id) => match track_of(tracks, id) {
                Some(t) => "Up Next: "@ + track_label(t),
                None => "Up Next: (unknown)"@,
            },
            None => "Up Next: (unknown)"@,
        }
    }
}

/// Says which track plays next.
pub fn next_up_line(queue: &Vec<i64>, current: Option<i64>, tracks: &Vec<Track>) -> (s: String)
    ensures
        s@ == next_up_text(queue@, current, tracks@),
{
    if queue.len() == 0 {
        return crate::text::owned("Up Next: (queue empty)");
    }
    match crate::queue::up_next_track_id(queue, current) {
        Some(id) => match track_position(tracks, id) {
            Some(i) => {
                let mut v = chars_of("Up Next: ");
                push_track_label(&mut v, &tracks[i]);
                string_of(&v)
            },
            None => crate::text::owned("Up Next: (unknown)"),
        },
        None => crate::text::owned("Up Next: (unknown)"),
    }
}

/// The header: play state, artist, title and album of the playing track.
pub open spec fn header(tracks: Seq<Track>, current: Option<i64>, playing: bool) -> Seq<char> {
    match current {
        Some(id) => match track_of(tracks, id) {
            Some(t) => {
                let album = match t.album {
                    Some(a) => a@,
                    None => Seq::empty(),
                };
                " "@ + (if playing {
                    ">"@
                } else {
                    "||"@
                }) + " "@ + artist_or_unknown(t) + " - "@ + t.title@ + (if album.len() == 0 {
                    Seq::empty()
                } else {
                    "  ["@ + album + "]"@
                })
            },
            None => "  melors  -  no track loaded"@,
        },
        None => "  melors  -  no track loaded"@,
    }
}

/// The text of the header line.
pub fn header_text(tracks: &Vec<Track>, current: Option<i64>, playing: bool) -> (s: String)
    ensures
        s@ == header(tracks@, current, playing),
{
    let pos = match current {
        Some(id) => track_position(tracks, id),
        None => None,
    };
    match pos {
        None => crate::text::owned("  melors  -  no track loaded"),
        Some(i) => {
            let t = &tracks[i];
            let mut v = chars_of(" ");
            extend_chars(
                &mut v,
                if playing {
                    ">"
                } else {
                    "||"
                },
            );
            extend_chars(&mut v, " ");
            match &t.artist {
                Some(a) => extend_chars(&mut v, a.as_str()),
                None => extend_chars(&mut v, "Unknown Artist"),
            }
            extend_chars(&mut v, " - ");
            extend_chars(&mut v, t.title.as_str());
            match &t.album {
                Some(a) => {
                    if a.as_str().unicode_len() > 0 {
                        extend_chars(&mut v, "  [");
                        extend_chars(&mut v, a.as_str());
                        extend_chars(&mut v, "]");
                    }
                },
                None => {},
            }
            string_of(&v)
        },
    }
}

// ---------------------------------------------------------------------------
// Library and queue rows
// ---------------------------------------------------------------------------

/// `>` for the playing track, a space otherwise.
pub open spec fn play_marker(id: i64, current: Option<i64>) -> Seq<char> {
    if current == Some(id) {
        ">"@
    } else {
        " "@
    }
}

/// A library row: play marker, favourite star, zero-padded id, artist and
/// title.
pub open spec fn library_row(t: Track, current: Option<i64>) -> Seq<char> {
    play_marker(t.id, current) + (if t.favorite {
        "*"@
    } else {
        " "@
    }) + " #"@ + int_pad(t.id as int, 4) + " "@ + artist_or_unknown(t) + " - "@ + t.title@
}

fn marker_str(id: i64, current: Option<i64>) -> (s: &'static str)
    ensures
        s@ == play_marker(id, current),
{
    if current == Some(id) {
        ">"
    } else {
        " "
    }
}

fn library_row_text(t: &Track, current: Option<i64>) -> (s: String)
    ensures
        s@ == library_row(*t, current),
{
    let mut v = chars_of(marker_str(t.id, current));
    extend_chars(
        &mut v,
        if t.favorite {
            "*"
        } else {
            " "
        },
    );
    extend_chars(&mut v, " #");
    extend_chars(&mut v, i64_text_padded(t.id, 4).as_str());
    extend_chars(&mut v, " ");
    push_track_label(&mut v, t);
    string_of(&v)
}

/// Track ids with the row text shown for each.
pub struct Listing {
    pub ids: Vec<i64>,
    pub rows: Vec<String>,
}

/// The library tracks that the ids stand for, in the ids' order; ids the
/// library lacks are skipped.
pub open spec fn tracks_for_ids(tracks: Seq<Track>, ids: Seq<i64>) -> Seq<Track>
    decreases ids.len(),
{
    if ids.len() == 0 {
        Seq::empty()
    } else {
        match track_of(tracks, ids.last()) {
            Some(t) => tracks_for_ids(tracks, ids.drop_last()).push(t),
            None => tracks_for_ids(tracks, ids.drop_last()),
        }
    }
}

/// The ids of some tracks.
pub open spec fn ids_of_tracks(ts: Seq<Track>) -> Seq<i64> {
    ts.map_values(|t: Track| t.id)
}

/// The library rows of some tracks.
pub open spec fn library_rows(ts: Seq<Track>, current: Option<i64>) -> Seq<Seq<char>> {
    ts.map_values(|t: Track| library_row(t, current))
}

/// The library panel's content: every track, or, when `shown` is given (a
/// search is active), the tracks of those ids in that order.
pub fn library_listing(tracks: &Vec<Track>, shown: Option<&Vec<i64>>, current: Option<i64>) -> (l:
    Listing)
    ensures
        ({
            let ts = match shown {
                Some(ids) => tracks_for_ids(tracks@, ids@),
                None => tracks@,
            };
            &&& l.ids@ == ids_of_tracks(ts)
            &&& crate::text::views(l.rows@) == library_rows(ts, current)
        }),
{
    let mut ids: Vec<i64> = Vec::new();
    let mut rows: Vec<String> = Vec::new();
    match shown {
        None => {
            let mut i: usize = 0;
            while i < tracks.len()
                invariant
                    i <= tracks.len(),
                    ids@ == ids_of_tracks(tracks@.take(i as int)),
                    crate::text::views(rows@) == library_rows(tracks@.take(i as int), current),
                decreases tracks.len() - i,
            {
                let ghost before = crate::text::views(rows@);
                ids.push(tracks[i].id);
                let row = library_row_text(&tracks[i], current);
                let ghost rv = row@;
                rows.push(row);
                assert(crate::text::views(rows@) =~= before.push(rv));
                i = i + 1;
                assert(tracks@.take(i as int).drop_last() =~= tracks@.take(i - 1));
                assert(ids@ =~= ids_of_tracks(tracks@.take(i as int)));
                assert(crate::text::views(rows@) =~= library_rows(tracks@.take(i as int), current));
            }
            assert(tracks@.take(tracks.len() as int) =~= tracks@);
        },
        Some(want) => {
            let mut i: usize = 0;
            assert(want@.take(0) =~= Seq::<i64>::empty());
            while i < want.len()
                invariant
                    i <= want.len(),
                    ids@ == ids_of_tracks(tracks_for_ids(tracks@, want@.take(i as int))),
                    crate::text::views(rows@) == library_rows(
                        tracks_for_ids(tracks@, want@.take(i as int)),
                        current,
                    ),
                decreases want.len() - i,
            {
                assert(want@.take(i + 1).drop_last() =~= want@.take(i as int));
                let ghost prev = tracks_for_ids(tracks@, want@.take(i as int));
                match track_position(tracks, want[i]) {
                    Some(k) => {
                        ids.push(tracks[k].id);
                        let ghost before = crate::text::views(rows@);
                        let row = library_row_text(&tracks[k], current);
                        let ghost rv = row@;
                        rows.push(row);
                        assert(crate::text::views(rows@) =~= before.push(rv));
                        assert(ids@ =~= ids_of_tracks(prev.push(tracks@[k as int])));
                        assert(crate::text::views(rows@) =~= library_rows(
                            prev.push(tracks@[k as int]),
                            current,
                        ));
                    },
                    None => {},
                }
                i = i + 1;
            }
            assert(want@.take(want.len() as int) =~= want@);
        },
    }
    Listing { ids, rows }
}

/// The queued tracks the library knows, each with its queue position.
pub open spec fn queue_entries(tracks: Seq<Track>, queue: Seq<i64>) -> Seq<(int, Track)>
    decreases queue.len(),
{
    if queue.len() == 0 {
        Seq::empty()
    } else {
        match track_of(tracks, queue.last()) {
            Some(t) => queue_entries(tracks, queue.drop_last()).push(((queue.len() - 1) as int, t)),
            None => queue_entries(tracks, queue.drop_last()),
        }
    }
}

/// A queue row: play marker, one-based position (two digits at least),
/// artist and title.
pub open spec fn queue_row(pos: int, t: Track, current: Option<i64>) -> Seq<char> {
    play_marker(t.id, current) + " "@ + dec_pad((pos + 1) as nat, 2) + ". "@ + track_label(t)
}

/// The queue panel's content.
pub fn queue_listing(tracks: &Vec<Track>, queue: &Vec<i64>, current: Option<i64>) -> (l: Listing)
    ensures
        ({
            let es = queue_entries(tracks@, queue@);
            &&& l.ids@ == es.map_values(|e: (int, Track)| e.1.id)
            &&& crate::text::views(l.rows@) == es.map_values(
                |e: (int, Track)| queue_row(e.0, e.1, current),
            )
        }),
{
    let mut ids: Vec<i64> = Vec::new();
    let mut rows: Vec<String> = Vec::new();
    let mut i: usize = 0;
    assert(queue@.take(0) =~= Seq::<i64>::empty());
    while i < queue.len()
        invariant
            i <= queue.len(),
            ids@ == queue_entries(tracks@, queue@.take(i as int)).map_values(|e: (int, Track)| e.1.id),
            crate::text::views(rows@) == queue_entries(tracks@, queue@.take(i as int)).map_values(
                |e: (int, Track)| queue_row(e.0, e.1, current),
            ),
        decreases queue.len() - i,
    {
        assert(queue@.take(i + 1).drop_last() =~= queue@.take(i as int));
        let ghost prev = queue_entries(tracks@, queue@.take(i as int));
        match track_position(tracks, queue[i]) {
            Some(k) => {
                let t = &tracks[k];
                ids.push(t.id);
                let mut v = chars_of(marker_str(t.id, current));
                extend_chars(&mut v, " ");
                extend_chars(&mut v, u64_text_padded((i as u64) + 1, 2).as_str());
                extend_chars(&mut v, ". ");
                push_track_label(&mut v, t);
                let ghost before = crate::text::views(rows@);
                let row = string_of(&v);
                let ghost rv = row@;
                rows.push(row);
                assert(crate::text::views(rows@) =~= before.push(rv));
                assert(rv == queue_row(i as int, tracks@[k as int], current));
                let ghost e = (i as int, tracks@[k as int]);
                assert(queue_entries(tracks@, queue@.take(i + 1)) == prev.push(e));
                assert(ids@ =~= prev.push(e).map_values(|e: (int, Track)| e.1.id));
                assert(crate::text::views(rows@) =~= prev.push(e).map_values(
                    |e: (int, Track)| queue_row(e.0, e.1, current),
                ));
            },
            None => {},
        }
        i = i + 1;
    }
    assert(queue@.take(queue.len() as int) =~= queue@);
    Listing { ids, rows }
}

/// The selection clamped to a list of `len` rows (0 when empty).
pub open spec fn clamped(selected: int, len: int) -> int {
    if len == 0 {
        0
    } else if selected < len - 1 {
        selected
    } else {
        len - 1
    }
}

/// Clamps a selection to a list of `len` rows.
pub fn clamp_selection(selected: usize, len: usize) -> (r: usize)
    ensures
        r == clamped(selected as int, len as int),
{
    if len == 0 {
        0
    } else if selected < len - 1 {
        selected
    } else {
        len - 1
    }
}

/// The id of the selected row, the selection clamped to the list.
pub fn selected_id(ids: &Vec<i64>, selected: usize) -> (r: Option<i64>)
    ensures
        ids@.len() == 0 ==> r is None,
        ids@.len() > 0 ==> r == Some(ids@[clamped(selected as int, ids@.len() as int)]),
{
    if ids.len() == 0 {
        None
    } else {
        Some(ids[clamp_selection(selected, ids.len())])
    }
}

// ---------------------------------------------------------------------------
// Tag editor
// ---------------------------------------------------------------------------

/// One row of the tag editor: the field's label and its value, the active
/// field marked.
pub struct TagRow {
    pub label: String,
    pub value: String,
    pub active: bool,
}

/// The name of the `i`-th tag field, padded to the same width.
pub open spec fn tag_field_name(i: int) -> Seq<char> {
    if i == 0 {
        "Title "@
    } else if i == 1 {
        "Artist"@
    } else {
        "Album "@
    }
}

/// The label of a tag field: `> ` before the active one.
pub open spec fn tag_row_label(i: int, active: bool) -> Seq<char> {
    (if active {
        "> "@
    } else {
        "  "@
    }) + tag_field_name(i) + ": "@
}

/// The value of a tag field, with a cursor after the active one.
pub open spec fn tag_row_value(value: Seq<char>, active: bool) -> Seq<char> {
    value.push(
        if active {
            '_'
        } else {
            ' '
        },
    )
}

/// The tag editor's title: its track's id when it has one.
pub open spec fn tag_editor_title(track_id: Option<i64>) -> Seq<char> {
    " Edit Tags"@ + match track_id {
        Some(id) => " #"@ + int_text(id as int) + seq![' '],
        None => Seq::empty(),
    }
}

fn tag_row(i: usize, value: &str, active: bool) -> (r: TagRow)
    requires
        i < 3,
    ensures
        r.active == active,
        r.label@ == tag_row_label(i as int, active),
        r.value@ == tag_row_value(value@, active),
{
    let mut label = chars_of(
        if active {
            "> "
        } else {
            "  "
        },
    );
    extend_chars(
        &mut label,
        if i == 0 {
            "Title "
        } else if i == 1 {
            "Artist"
        } else {
            "Album "
        },
    );
    extend_chars(&mut label, ": ");
    let mut v = chars_of(value);
    v.push(
        if active {
            '_'
        } else {
            ' '
        },
    );
    TagRow { label: string_of(&label), value: string_of(&v), active }
}

impl UiState {
    /// The three rows of the tag editor.
    pub fn edit_tag_rows(&self) -> (rows: Vec<TagRow>)
        requires
            self.wf(),
        ensures
            rows@.len() == 3,
            forall|i: int|
                0 <= i < 3 ==> {
                    let active = self.edit_tag_field == i;
                    &&& (#[trigger] rows@[i]).active == active
                    &&& rows@[i].label@ == tag_row_label(i, active)
                    &&& rows@[i].value@ == tag_row_value(self.edit_tag_inputs@[i]@, active)
                },
    {
        let mut rows: Vec<TagRow> = Vec::new();
        let mut i: usize = 0;
        while i < 3
            invariant
                i <= 3,
                self.wf(),
                rows@.len() == i,
                forall|j: int|
                    0 <= j < i ==> {
                        let active = self.edit_tag_field == j;
                        &&& (#[trigger] rows@[j]).active == active
                        &&& rows@[j].label@ == tag_row_label(j, active)
                        &&& rows@[j].value@ == tag_row_value(self.edit_tag_inputs@[j]@, active)
                    },
            decreases 3 - i,
        {
            rows.push(tag_row(i, self.edit_tag_inputs[i].as_str(), self.edit_tag_field == i));
            i = i + 1;
        }
        rows
    }

    /// The tag editor's title.
    pub fn edit_tag_title(&self) -> (s: String)
        ensures
            s@ == tag_editor_title(self.edit_tag_track_id),
    {
        let mut v = chars_of(" Edit Tags");
        if let Some(id) = self.edit_tag_track_id {
            extend_chars(&mut v, " #");
            extend_chars(&mut v, i64_text(id).as_str());
            v.push(' ');
        }
        string_of(&v)
    }
}

// ---------------------------------------------------------------------------
// Playlist modal
// ---------------------------------------------------------------------------

/// Which colour the modal's border takes.
#[derive(Debug, Clone, Copy, PartialEq, Eq, Structural)]
pub enum ModalAccent {
    Library,
    Queue,
    Warning,
}

/// What the playlist modal shows.
pub struct ModalView {
    pub title: String,
    pub rows: Vec<String>,
    pub selected: Option<usize>,
    pub accent: ModalAccent,
    pub helper: &'static str,
}

/// A playlist item's line: one-based position, then the track's label, or
/// `[missing]` and the path it had.
pub open spec fn item_line(idx: int, item: PlaylistItem, tracks: Seq<Track>) -> Seq<char> {
    let missing = dec_pad((idx + 1) as nat, 2) + ". [missing] "@ + match item.original_path {
        Some(p) => p@,
        None => Seq::empty(),
    };
    if item.is_missing {
        missing
    } else {
        match item.track_id {
            Some(t) => dec_pad((idx + 1) as nat, 2) + ". "@ + label_of_id(tracks, t),
            None => missing,
        }
    }
}

fn item_line_text(idx: usize, item: &PlaylistItem, tracks: &Vec<Track>) -> (s: String)
    requires
        idx < usize::MAX,
    ensures
        s@ == item_line(idx as int, *item, tracks@),
{
    let mut v = chars_of(u64_text_padded((idx as u64) + 1, 2).as_str());
    let show_track = match item.track_id {
        Some(_) => !item.is_missing,
        None => false,
    };
    if show_track {
        extend_chars(&mut v, ". ");
        match item.track_id {
            Some(t) => extend_chars(&mut v, track_label_by_id(tracks, t).as_str()),
            None => {},
        }
    } else {
        extend_chars(&mut v, ". [missing] ");
        match &item.original_path {
            Some(p) => extend_chars(&mut v, p.as_str()),
            None => {},
        }
    }
    string_of(&v)
}

/// The name of the playlist at `idx`, or `fallback`.
pub open spec fn name_at(playlists: Seq<Playlist>, idx: int, fallback: Seq<char>) -> Seq<char> {
    if 0 <= idx < playlists.len() {
        playlists[idx].name@
    } else {
        fallback
    }
}

fn name_at_text(playlists: &Vec<Playlist>, idx: usize, fallback: &str) -> (s: String)
    ensures
        s@ == name_at(playlists@, idx as int, fallback@),
{
    if idx < playlists.len() {
        crate::text::owned(playlists[idx].name.as_str())
    } else {
        crate::text::owned(fallback)
    }
}

/// A playlist's line in the list: `#id name`.
pub open spec fn playlist_line(p: Playlist) -> Seq<char> {
    seq!['#'] + int_text(p.id as int) + " "@ + p.name@
}

/// The helper line of the playlist list.
pub open spec fn browse_helper(picking: bool) -> Seq<char> {
    if picking {
        " Up/Down move | Enter add/create+add | Esc cancel "@
    } else {
        " Up/Down move | Enter open/create | r rename | x delete | Esc close "@
    }
}

/// What the playlist modal shows in each of its modes.
pub open spec fn modal_view_ok(
    u: UiState,
    playlists: Seq<Playlist>,
    items: Seq<PlaylistItem>,
    tracks: Seq<Track>,
    width: nat,
    v: ModalView,
) -> bool {
    match u.playlist_modal_mode {
        PlaylistModalMode::BrowseItems => {
            &&& v.title@ == " Playlist: "@ + name_at(
                playlists,
                u.playlist_selected as int,
                "(no playlist)"@,
            ) + " ("@ + dec(items.len()) + " items) "@
            &&& items.len() == 0 ==> crate::text::views(v.rows@) == seq!["(playlist empty)"@]
                && v.selected is None
            &&& items.len() > 0 ==> crate::text::views(v.rows@) == Seq::new(
                items.len(),
                |i: int| fit_modal(item_line(i, items[i], tracks), width),
            ) && v.selected == Some(u.playlist_item_selected)
            &&& v.accent == ModalAccent::Queue
            &&& v.helper@ == " Up/Down move | Enter play | d remove | Esc back "@
        },
        PlaylistModalMode::CreatePlaylist => {
            &&& v.title@ == " Create Playlist "@
            &&& crate::text::views(v.rows@) == seq![
                fit_modal("Name: "@ + u.playlist_name_input@ + "_"@, width),
            ]
            &&& v.selected is None
            &&& v.accent == ModalAccent::Library
            &&& v.helper@ == " Type name | Enter create | Esc cancel "@
        },
        PlaylistModalMode::RenamePlaylist => {
            &&& v.title@ == " Rename Playlist "@
            &&& crate::text::views(v.rows@) == seq![
                fit_modal("Name: "@ + u.playlist_name_input@ + "_"@, width),
            ]
            &&& v.selected is None
            &&& v.accent == ModalAccent::Library
            &&& v.helper@ == " Type name | Enter save | Esc cancel "@
        },
        PlaylistModalMode::ConfirmDeletePlaylist => {
            &&& v.title@ == " Confirm Delete "@
            &&& crate::text::views(v.rows@) == seq![
                fit_modal(
                    "Delete playlist: "@ + name_at(playlists, u.playlist_selected as int, "(missing)"@),
                    width,
                ),
            ]
            &&& v.selected is None
            &&& v.accent == ModalAccent::Warning
            &&& v.helper@ == " Enter/x confirm | Esc cancel "@
        },
        PlaylistModalMode::BrowsePlaylists => {
            &&& crate::text::views(v.rows@) == Seq::new(
                playlists.len(),
                |i: int| fit_modal(playlist_line(playlists[i]), width),
            ).push(fit_modal("+ New playlist"@, width))
            &&& v.title@ == match u.playlist_add_track_id {
                Some(t) => " Add: "@ + fit_modal(
                    label_of_id(tracks, t),
                    if width >= 6 {
                        (width - 6) as nat
                    } else {
                        0
                    },
                ) + " "@,
                None => " Playlists ("@ + dec(playlists.len()) + ") "@,
            }
            &&& v.selected == Some(
                if u.playlist_selected < playlists.len() {
                    u.playlist_selected
                } else {
                    playlists.len() as usize
                },
            )
            &&& v.accent == ModalAccent::Library
            &&& v.helper@ == browse_helper(u.playlist_add_track_id is Some)
        },
    }
}

fn one_row(s: String) -> (r: Vec<String>)
    ensures
        crate::text::views(r@) == seq![s@],
{
    let mut r: Vec<String> = Vec::new();
    r.push(s);
    assert(crate::text::views(r@) =~= seq![s@]);
    r
}

impl UiState {
    /// Keeps the modal's selections inside the lists they point into: the
    /// playlist selection may also rest on the "new playlist" row.
    pub fn sync_modal_selection(&mut self, playlists_len: usize, items_len: usize)
        ensures
            *final(self) == (UiState {
                playlist_selected: if old(self).playlist_selected < playlists_len {
                    old(self).playlist_selected
                } else {
                    playlists_len
                },
                playlist_item_selected: clamped(
                    old(self).playlist_item_selected as int,
                    items_len as int,
                ) as usize,
                ..*old(self)
            }),
    {
        if self.playlist_selected >= playlists_len {
            self.playlist_selected = playlists_len;
        }
        self.playlist_item_selected = clamp_selection(self.playlist_item_selected, items_len);
    }

    /// The content of the playlist modal, `width` columns wide.
    pub fn modal_view(
        &self,
        playlists: &Vec<Playlist>,
        items: &Vec<PlaylistItem>,
        tracks: &Vec<Track>,
        width: usize,
    ) -> (v: ModalView)
        ensures
            modal_view_ok(*self, playlists@, items@, tracks@, width as nat, v),
    {
        match self.playlist_modal_mode {
            PlaylistModalMode::BrowseItems => {
                let mut t = chars_of(" Playlist: ");
                extend_chars(
                    &mut t,
                    name_at_text(playlists, self.playlist_selected, "(no playlist)").as_str(),
                );
                extend_chars(&mut t, " (");
                extend_chars(&mut t, u64_text(items.len() as u64).as_str());
                extend_chars(&mut t, " items) ");
                let title = string_of(&t);
                if items.len() == 0 {
                    return ModalView {
                        title,
                        rows: one_row(crate::text::owned("(playlist empty)")),
                        selected: None,
                        accent: ModalAccent::Queue,
                        helper: " Up/Down move | Enter play | d remove | Esc back ",
                    };
                }
                let mut rows: Vec<String> = Vec::new();
                let mut i: usize = 0;
                while i < items.len()
                    invariant
                        i <= items.len(),
                        crate::text::views(rows@) == Seq::new(
                            i as nat,
                            |k: int| fit_modal(item_line(k, items@[k], tracks@), width as nat),
                        ),
                    decreases items.len() - i,
                {
                    let line = item_line_text(i, &items[i], tracks);
                    let row = fit_modal_text(line.as_str(), width);
                    let ghost before = crate::text::views(rows@);
                    let ghost rv = row@;
                    rows.push(row);
                    i = i + 1;
                    assert(crate::text::views(rows@) =~= Seq::new(
                        i as nat,
                        |k: int| fit_modal(item_line(k, items@[k], tracks@), width as nat),
                    )) by {
                        assert(crate::text::views(rows@) =~= before.push(rv));
                    }
                }
                ModalView {
                    title,
                    rows,
                    selected: Some(self.playlist_item_selected),
                    accent: ModalAccent::Queue,
                    helper: " Up/Down move | Enter play | d remove | Esc back ",
                }
            },
            PlaylistModalMode::CreatePlaylist | PlaylistModalMode::RenamePlaylist => {
                let mut d = chars_of("Name: ");
                extend_chars(&mut d, self.playlist_name_input.as_str());
                extend_chars(&mut d, "_");
                let display = string_of(&d);
                let row = fit_modal_text(display.as_str(), width);
                if self.playlist_modal_mode == PlaylistModalMode::CreatePlaylist {
                    ModalView {
                        title: crate::text::owned(" Create Playlist "),
                        rows: one_row(row),
                        selected: None,
                        accent: ModalAccent::Library,
                        helper: " Type name | Enter create | Esc cancel ",
                    }
                } else {
                    ModalView {
                        title: crate::text::owned(" Rename Playlist "),
                        rows: one_row(row),
                        selected: None,
                        accent: ModalAccent::Library,
                        helper: " Type name | Enter save | Esc cancel ",
                    }
                }
            },
            PlaylistModalMode::ConfirmDeletePlaylist => {
                let mut p = chars_of("Delete playlist: ");
                extend_chars(
                    &mut p,
                    name_at_text(playlists, self.playlist_selected, "(missing)").as_str(),
                );
                let prompt = string_of(&p);
                ModalView {
                    title: crate::text::owned(" Confirm Delete "),
                    rows: one_row(fit_modal_text(prompt.as_str(), width)),
                    selected: None,
                    accent: ModalAccent::Warning,
                    helper: " Enter/x confirm | Esc cancel ",
                }
            },
            PlaylistModalMode::BrowsePlaylists => {
                let mut rows: Vec<String> = Vec::new();
                let mut i: usize = 0;
                while i < playlists.len()
                    invariant
                        i <= playlists.len(),
                        crate::text::views(rows@) == Seq::new(
                            i as nat,
                            |k: int| fit_modal(playlist_line(playlists@[k]), width as nat),
                        ),
                    decreases playlists.len() - i,
                {
                    let mut l: Vec<char> = Vec::new();
                    l.push('#');
                    extend_chars(&mut l, i64_text(playlists[i].id).as_str());
                    extend_chars(&mut l, " ");
                    extend_chars(&mut l, playlists[i].name.as_str());
                    let line = string_of(&l);
                    let row = fit_modal_text(line.as_str(), width);
                    let ghost before = crate::text::views(rows@);
                    let ghost rv = row@;
                    rows.push(row);
                    i = i + 1;
                    assert(crate::text::views(rows@) =~= Seq::new(
                        i as nat,
                        |k: int| fit_modal(playlist_line(playlists@[k]), width as nat),
                    )) by {
                        assert(crate::text::views(rows@) =~= before.push(rv));
                    }
                }
                let ghost before = crate::text::views(rows@);
                let last = fit_modal_text("+ New playlist", width);
                let ghost lv = last@;
                rows.push(last);
                assert(crate::text::views(rows@) =~= before.push(lv));
                let title = match self.playlist_add_track_id {
                    Some(t) => {
                        let label = track_label_by_id(tracks, t);
                        let w = if width >= 6 {
                            width - 6
                        } else {
                            0
                        };
                        let mut v = chars_of(" Add: ");
                        extend_chars(&mut v, fit_modal_text(label.as_str(), w).as_str());
                        extend_chars(&mut v, " ");
                        string_of(&v)
                    },
                    None => {
                        let mut v = chars_of(" Playlists (");
                        extend_chars(&mut v, u64_text(playlists.len() as u64).as_str());
                        extend_chars(&mut v, ") ");
                        string_of(&v)
                    },
                };
                let selected = if self.playlist_selected < playlists.len() {
                    self.playlist_selected
                } else {
                    playlists.len()
                };
                let picking = self.playlist_add_track_id.is_some();
                ModalView {
                    title,
                    rows,
                    selected: Some(selected),
                    accent: ModalAccent::Library,
                    helper: if picking {
                        " Up/Down move | Enter add/create+add | Esc cancel "
                    } else {
                        " Up/Down move | Enter open/create | r rename | x delete | Esc close "
                    },
                }
            },
        }
    }
}

// ---------------------------------------------------------------------------
// Panels and tabs
// ---------------------------------------------------------------------------

/// The library panel's title: ` Library <rows>` and a mark of the mode.
pub open spec fn library_title(rows: nat, mode: InputMode) -> Seq<char> {
    " Library "@ + dec(rows) + match mode {
        InputMode::Search => " [/]"@,
        InputMode::EditTag => " [edit]"@,
        InputMode::PlaylistModal => " [list]"@,
        InputMode::Normal => Seq::empty(),
    }
}

/// Titles the library panel.
pub fn library_title_text(rows: usize, mode: InputMode) -> (s: String)
    ensures
        s@ == library_title(rows as nat, mode),
{
    let mut v = chars_of(" Library ");
    extend_chars(&mut v, u64_text(rows as u64).as_str());
    match mode {
        InputMode::Search => extend_chars(&mut v, " [/]"),
        InputMode::EditTag => extend_chars(&mut v, " [edit]"),
        InputMode::PlaylistModal => extend_chars(&mut v, " [list]"),
        InputMode::Normal => {},
    }
    assert(v@ =~= library_title(rows as nat, mode));
    string_of(&v)
}

/// The queue panel's title: how many entries it shows.
pub fn queue_title_text(rows: usize) -> (s: String)
    ensures
        s@ == " Queue "@ + dec(rows as nat) + seq![' '],
{
    let mut v = chars_of(" Queue ");
    extend_chars(&mut v, u64_text(rows as u64).as_str());
    v.push(' ');
    string_of(&v)
}

/// Which tab is highlighted: Search while searching, otherwise Queue or
/// Library by focus.
pub fn tab_index(mode: InputMode, focus: FocusPanel) -> (i: usize)
    ensures
        i == (if mode == InputMode::Search {
            1usize
        } else if focus == FocusPanel::Queue {
            2usize
        } else {
            0usize
        }),
{
    if mode == InputMode::Search {
        1
    } else {
        match focus {
            FocusPanel::Queue => 2,
            FocusPanel::Library => 0,
        }
    }
}

/// Whether the library panel is drawn as active: focused, or any mode other
/// than normal.
pub fn library_is_active(mode: InputMode, focus: FocusPanel) -> (b: bool)
    ensures
        b == (focus == FocusPanel::Library || mode != InputMode::Normal),
{
    match focus {
        FocusPanel::Library => true,
        FocusPanel::Queue => mode != InputMode::Normal,
    }
}

// ---------------------------------------------------------------------------
// Big clock
// ---------------------------------------------------------------------------

/// Row `row` (0 to 4) of the glyph drawn for `c` on the big clock: digits
/// and `:` have one, anything else is blank.
pub open spec fn clock_glyph(c: char, row: int) -> Seq<char> {
    let g: Seq<Seq<char>> = if c == '0' {
        seq!["███"@, "█ █"@, "█ █"@, "█ █"@, "███"@]
    } else if c == '1' {
        seq![" █ "@, "██ "@, " █ "@, " █ "@, "███"@]
    } else if c == '2' {
        seq!["███"@, "  █"@, "███"@, "█  "@, "███"@]
    } else if c == '3' {
        seq!["███"@, "  █"@, "███"@, "  █"@, "███"@]
    } else if c == '4' {
        seq!["█ █"@, "█ █"@, "███"@, "  █"@, "  █"@]
    } else if c == '5' {
        seq!["███"@, "█  "@, "███"@, "  █"@, "███"@]
    } else if c == '6' {
        seq!["███"@, "█  "@, "███"@, "█ █"@, "███"@]
    } else if c == '7' {
        seq!["███"@, "  █"@, "  █"@, "  █"@, "  █"@]
    } else if c == '8' {
        seq!["███"@, "█ █"@, "███"@, "█ █"@, "███"@]
    } else if c == '9' {
        seq!["███"@, "█ █"@, "███"@, "  █"@, "███"@]
    } else if c == ':' {
        seq!["   "@, " █ "@, "   "@, " █ "@, "   "@]
    } else {
        seq!["   "@, "   "@, "   "@, "   "@, "   "@]
    };
    g[row]
}

fn clock_glyph_str(c: char, row: usize) -> (s: &'static str)
    requires
        row < 5,
    ensures
        s@ == clock_glyph(c, row as int),
{
    let g: [&'static str; 5] = if c == '0' {
        ["███", "█ █", "█ █", "█ █", "███"]
    } else if c == '1' {
        [" █ ", "██ ", " █ ", " █ ", "███"]
    } else if c == '2' {
        ["███", "  █", "███", "█  ", "███"]
    } else if c == '3' {
        ["███", "  █", "███", "  █", "███"]
    } else if c == '4' {
        ["█ █", "█ █", "███", "  █", "  █"]
    } else if c == '5' {
        ["███", "█  ", "███", "  █", "███"]
    } else if c == '6' {
        ["███", "█  ", "███", "█ █", "███"]
    } else if c == '7' {
        ["███", "  █", "  █", "  █", "  █"]
    } else if c == '8' {
        ["███", "█ █", "███", "█ █", "███"]
    } else if c == '9' {
        ["███", "█ █", "███", "  █", "███"]
    } else if c == ':' {
        ["   ", " █ ", "   ", " █ ", "   "]
    } else {
        ["   ", "   ", "   ", "   ", "   "]
    };
    g[row]
}

/// Row `row` of the big clock for `text`: each character's glyph row
/// followed by a space.
pub open spec fn clock_row(text: Seq<char>, row: int) -> Seq<char>
    decreases text.len(),
{
    if text.len() == 0 {
        Seq::empty()
    } else {
        clock_row(text.drop_last(), row) + clock_glyph(text.last(), row) + seq![' ']
    }
}

/// The five rows of `text` drawn in big block digits.
pub fn big_clock_lines(text: &str) -> (rows: Vec<String>)
    ensures
        crate::text::views(rows@) == Seq::new(5, |r: int| clock_row(text@, r)),
{
    let cs = chars_of(text);
    let mut rows: Vec<String> = Vec::new();
    let mut r: usize = 0;
    while r < 5
        invariant
            r <= 5,
            cs@ == text@,
            crate::text::views(rows@) == Seq::new(r as nat, |k: int| clock_row(text@, k)),
        decreases 5 - r,
    {
        let mut line: Vec<char> = Vec::new();
        let mut i: usize = 0;
        assert(cs@.take(0) =~= Seq::<char>::empty());
        while i < cs.len()
            invariant
                i <= cs.len(),
                r < 5,
                line@ == clock_row(cs@.take(i as int), r as int),
            decreases cs.len() - i,
        {
            assert(cs@.take(i + 1).drop_last() =~= cs@.take(i as int));
            extend_chars(&mut line, clock_glyph_str(cs[i], r));
            line.push(' ');
            i = i + 1;
        }
        assert(cs@.take(cs.len() as int) =~= cs@);
        let ghost before = crate::text::views(rows@);
        let s = string_of(&line);
        let ghost sv = s@;
        rows.push(s);
        r = r + 1;
        assert(crate::text::views(rows@) =~= Seq::new(r as nat, |k: int| clock_row(text@, k))) by {
            assert(crate::text::views(rows@) =~= before.push(sv));
        }
    }
    rows
}

/// `target` rows picked evenly from `rows` (all of them when they fit).
pub open spec fn sampled(rows: Seq<Seq<char>>, target: nat) -> Seq<Seq<char>> {
    if target == 0 {
        Seq::empty()
    } else if rows.len() <= target {
        rows
    } else {
        Seq::new(target, |i: int| rows[i * rows.len() / target as int])
    }
}

/// Picks `target` rows evenly from `rows`.
pub fn sample_rows(rows: &Vec<String>, target: usize) -> (r: Vec<String>)
    requires
        rows@.len() * target <= usize::MAX,
    ensures
        crate::text::views(r@) == sampled(crate::text::views(rows@), target as nat),
{
    let mut out: Vec<String> = Vec::new();
    if target == 0 {
        assert(crate::text::views(out@) =~= sampled(crate::text::views(rows@), target as nat));
        return out;
    }
    let n = rows.len();
    if n <= target {
        let mut i: usize = 0;
        while i < n
            invariant
                i <= n,
                n == rows@.len(),
                crate::text::views(out@) == crate::text::views(rows@).take(i as int),
            decreases n - i,
        {
            let ghost before = crate::text::views(out@);
            let s = crate::text::owned(rows[i].as_str());
            let ghost sv = s@;
            out.push(s);
            i = i + 1;
            assert(crate::text::views(out@) =~= crate::text::views(rows@).take(i as int)) by {
                assert(crate::text::views(out@) =~= before.push(sv));
            }
        }
        assert(crate::text::views(rows@).take(n as int) =~= crate::text::views(rows@));
        return out;
    }
    let mut i: usize = 0;
    while i < target
        invariant
            i <= target,
            0 < target < n,
            n == rows@.len(),
            n * target <= usize::MAX,
            crate::text::views(out@) == Seq::new(
                i as nat,
                |k: int| crate::text::views(rows@)[k * n as int / target as int],
            ),
        decreases target - i,
    {
        proof {
            vstd::arithmetic::mul::lemma_mul_strict_inequality(i as int, target as int, n as int);
            assert((i as int) * (n as int) < (target as int) * (n as int));
            assert((target as int) * (n as int) == (n as int) * (target as int)) by (nonlinear_arith);
            vstd::arithmetic::div_mod::lemma_multiply_divide_lt(
                (i as int) * (n as int),
                target as int,
                n as int,
            );
        }
        let src = i * n / target;
        assert(src < n);
        let ghost before = crate::text::views(out@);
        let s = crate::text::owned(rows[src].as_str());
        let ghost sv = s@;
        out.push(s);
        i = i + 1;
        assert(crate::text::views(out@) =~= Seq::new(
            i as nat,
            |k: int| crate::text::views(rows@)[k * n as int / target as int],
        )) by {
            assert(crate::text::views(out@) =~= before.push(sv));
        }
    }
    out
}

// ---------------------------------------------------------------------------
// Creeper
// ---------------------------------------------------------------------------

/// The creeper face: 0 panel, 1 green, 2 lime, 3 black (4, white, is
/// unused).
pub open spec fn creeper_tile(y: int, x: int) -> u8 {
    let t: Seq<Seq<u8>> = seq![
        seq![1u8, 1, 2, 2, 1, 1, 1, 2],
        seq![1u8, 1, 2, 1, 2, 2, 1, 1],
        seq![2u8, 3, 3, 1, 1, 3, 3, 1],
        seq![1u8, 3, 3, 2, 1, 3, 3, 1],
        seq![2u8, 1, 1, 3, 3, 2, 2, 1],
        seq![1u8, 2, 3, 3, 3, 3, 1, 2],
        seq![2u8, 1, 3, 3, 3, 3, 2, 1],
        seq![1u8, 2, 3, 1, 1, 3, 2, 1],
    ];
    t[y][x]
}

/// A cell of the idle visualizer: a colour of the creeper face or the
/// panel's background.
#[derive(Debug, Clone, Copy, PartialEq, Eq, Structural)]
pub enum CreeperCell {
    Tile(u8),
    Background,
}

/// The cell at column `x`, row `y` of an area `w` by `h`: the 8 by 8 face,
/// each pixel two columns wide, centred.
pub open spec fn creeper_cell(x: int, y: int, w: int, h: int) -> CreeperCell {
    let oy = if h >= 8 {
        (h - 8) / 2
    } else {
        0
    };
    let ox = if w >= 16 {
        (w - 16) / 2
    } else {
        0
    };
    if oy <= y < oy + 8 && ox <= x < ox + 16 {
        CreeperCell::Tile(creeper_tile(y - oy, (x - ox) / 2))
    } else {
        CreeperCell::Background
    }
}

fn creeper_tile_exec(y: usize, x: usize) -> (v: u8)
    requires
        y < 8,
        x < 8,
    ensures
        v == creeper_tile(y as int, x as int),
{
    let t: [[u8; 8]; 8] = [
        [1, 1, 2, 2, 1, 1, 1, 2],
        [1, 1, 2, 1, 2, 2, 1, 1],
        [2, 3, 3, 1, 1, 3, 3, 1],
        [1, 3, 3, 2, 1, 3, 3, 1],
        [2, 1, 1, 3, 3, 2, 2, 1],
        [1, 2, 3, 3, 3, 3, 1, 2],
        [2, 1, 3, 3, 3, 3, 2, 1],
        [1, 2, 3, 1, 1, 3, 2, 1],
    ];
    let row = t[y];
    row[x]
}

/// The idle visualizer's cells, row by row, for an area `w` by `h`; an
/// empty area has none.
pub fn creeper_rows(w: usize, h: usize) -> (rows: Vec<Vec<CreeperCell>>)
    ensures
        (w == 0 || h == 0) ==> rows@.len() == 0,
        (w > 0 && h > 0) ==> rows@.len() == h && forall|y: int|
            0 <= y < h ==> (#[trigger] rows@[y])@.len() == w && forall|x: int|
                0 <= x < w ==> rows@[y]@[x] == creeper_cell(x, y, w as int, h as int),
{
    let mut rows: Vec<Vec<CreeperCell>> = Vec::new();
    if w == 0 || h == 0 {
        return rows;
    }
    let oy: usize = if h >= 8 {
        (h - 8) / 2
    } else {
        0
    };
    let ox: usize = if w >= 16 {
        (w - 16) / 2
    } else {
        0
    };
    let mut y: usize = 0;
    while y < h
        invariant
            y <= h,
            w > 0,
            oy == (if h >= 8 { (h - 8) / 2 } else { 0 }),
            ox == (if w >= 16 { (w - 16) / 2 } else { 0 }),
            rows@.len() == y,
            forall|j: int|
                0 <= j < y ==> (#[trigger] rows@[j])@.len() == w && forall|x: int|
                    0 <= x < w ==> rows@[j]@[x] == creeper_cell(x, j, w as int, h as int),
        decreases h - y,
    {
        let mut line: Vec<CreeperCell> = Vec::new();
        let mut x: usize = 0;
        while x < w
            invariant
                x <= w,
                y < h,
                oy == (if h >= 8 { (h - 8) / 2 } else { 0 }),
                ox == (if w >= 16 { (w - 16) / 2 } else { 0 }),
                line@.len() == x,
                forall|k: int| 0 <= k < x ==> line@[k] == creeper_cell(k, y as int, w as int, h as int),
            decreases w - x,
        {
            let inside = oy <= y && y < oy + 8 && ox <= x && x < ox + 16;
            let c = if inside {
                CreeperCell::Tile(creeper_tile_exec(y - oy, (x - ox) / 2))
            } else {
                CreeperCell::Background
            };
            line.push(c);
            x = x + 1;
        }
        rows.push(line);
        y = y + 1;
    }
    rows
}

// ---------------------------------------------------------------------------
// Falling-characters visualizer
// ---------------------------------------------------------------------------

/// A cell of the falling-characters visualizer: the head of a stream, a
/// character close behind it, one further back, a faint dot, or nothing.
#[derive(Debug, Clone, Copy, PartialEq, Eq, Structural)]
pub enum MatrixCell {
    Head(char),
    Near(char),
    Far(char),
    Dot,
    Blank,
}

/// The `i`-th character of `0-9A-Z`.
pub open spec fn matrix_glyph(i: u64) -> char {
    if i < 10 {
        ((48 + i) as u8) as char
    } else {
        ((55 + i) as u8) as char
    }
}

/// The cell at `row`, `col` of a `height`-row visualizer at time `tick` (in
/// milliseconds) for a track seeded `seed` and played `position` seconds in.
/// Sums and products wrap around, as in an optimised build.
pub open spec fn matrix_cell(seed: u64, tick: u64, position: u64, row: u64, col: u64, height: u64) -> MatrixCell {
    let speed = 1 + vstd::wrapping::u64_specs::wrapping_add(
        seed,
        vstd::wrapping::u64_specs::wrapping_mul(col, 13),
    ) % 4;
    let trail = 4 + vstd::wrapping::u64_specs::wrapping_add(
        seed / 7,
        vstd::wrapping::u64_specs::wrapping_mul(col, 3),
    ) % 8;
    let m = height + trail + 8;
    let offset = vstd::wrapping::u64_specs::wrapping_add(
        vstd::wrapping::u64_specs::wrapping_add(
            seed / 11,
            vstd::wrapping::u64_specs::wrapping_mul(col, 17),
        ),
        vstd::wrapping::u64_specs::wrapping_mul(position, 3),
    ) % (m as u64);
    let head = vstd::wrapping::u64_specs::wrapping_add(tick / speed as u64, offset) % (m as u64);
    if row <= head && head - row < trail {
        let gi = vstd::wrapping::u64_specs::wrapping_add(
            vstd::wrapping::u64_specs::wrapping_add(
                vstd::wrapping::u64_specs::wrapping_add(
                    vstd::wrapping::u64_specs::wrapping_add(seed, tick),
                    vstd::wrapping::u64_specs::wrapping_mul(row, 19),
                ),
                vstd::wrapping::u64_specs::wrapping_mul(col, 23),
            ),
            position,
        ) % 36;
        let d = head - row;
        if d == 0 {
            MatrixCell::Head(matrix_glyph(gi))
        } else if d <= 2 {
            MatrixCell::Near(matrix_glyph(gi))
        } else {
            MatrixCell::Far(matrix_glyph(gi))
        }
    } else if vstd::wrapping::u64_specs::wrapping_add(
        vstd::wrapping::u64_specs::wrapping_add(
            vstd::wrapping::u64_specs::wrapping_add(seed, tick),
            vstd::wrapping::u64_specs::wrapping_mul(row, 5),
        ),
        vstd::wrapping::u64_specs::wrapping_mul(col, 3),
    ) % 37 == 0 {
        MatrixCell::Dot
    } else {
        MatrixCell::Blank
    }
}

fn matrix_glyph_exec(i: u64) -> (c: char)
    requires
        i < 36,
    ensures
        c == matrix_glyph(i),
{
    if i < 10 {
        ((48 + i) as u8) as char
    } else {
        ((55 + i) as u8) as char
    }
}

fn matrix_cell_exec(seed: u64, tick: u64, position: u64, row: u64, col: u64, height: u64) -> (c: MatrixCell)
    requires
        height <= u16::MAX,
    ensures
        c == matrix_cell(seed, tick, position, row, col, height),
{
    let speed = 1 + seed.wrapping_add(col.wrapping_mul(13)) % 4;
    let trail = 4 + (seed / 7).wrapping_add(col.wrapping_mul(3)) % 8;
    let m = height + trail + 8;
    let offset = (seed / 11).wrapping_add(col.wrapping_mul(17)).wrapping_add(position.wrapping_mul(3))
        % m;
    let head = (tick / speed).wrapping_add(offset) % m;
    if row <= head && head - row < trail {
        let gi = seed.wrapping_add(tick).wrapping_add(row.wrapping_mul(19)).wrapping_add(
            col.wrapping_mul(23),
        ).wrapping_add(position) % 36;
        let ch = matrix_glyph_exec(gi);
        let d = head - row;
        if d == 0 {
            MatrixCell::Head(ch)
        } else if d <= 2 {
            MatrixCell::Near(ch)
        } else {
            MatrixCell::Far(ch)
        }
    } else if seed.wrapping_add(tick).wrapping_add(row.wrapping_mul(5)).wrapping_add(
        col.wrapping_mul(3),
    ) % 37 == 0 {
        MatrixCell::Dot
    } else {
        MatrixCell::Blank
    }
}

/// The visualizer's cells, `height` rows of `width` cells; a negative
/// playback position counts as zero.
pub fn matrix_rows(width: u16, height: u16, tick: u64, position_secs: i64, seed: u64) -> (rows: Vec<
    Vec<MatrixCell>,
>)
    ensures
        rows@.len() == height,
        forall|r: int|
            0 <= r < height ==> (#[trigger] rows@[r])@.len() == width && forall|c: int|
                0 <= c < width ==> rows@[r]@[c] == matrix_cell(
                    seed,
                    tick,
                    if position_secs < 0 {
                        0u64
                    } else {
                        position_secs as u64
                    },
                    r as u64,
                    c as u64,
                    height as u64,
                ),
{
    let position: u64 = if position_secs < 0 {
        0
    } else {
        position_secs as u64
    };
    let mut rows: Vec<Vec<MatrixCell>> = Vec::new();
    let mut r: u16 = 0;
    while r < height
        invariant
            r <= height,
            position == (if position_secs < 0 { 0u64 } else { position_secs as u64 }),
            rows@.len() == r,
            forall|j: int|
                0 <= j < r ==> (#[trigger] rows@[j])@.len() == width && forall|c: int|
                    0 <= c < width ==> rows@[j]@[c] == matrix_cell(
                        seed,
                        tick,
                        position,
                        j as u64,
                        c as u64,
                        height as u64,
                    ),
        decreases height - r,
    {
        let mut line: Vec<MatrixCell> = Vec::new();
        let mut c: u16 = 0;
        while c < width
            invariant
                c <= width,
                r < height,
                line@.len() == c,
                forall|k: int|
                    0 <= k < c ==> line@[k] == matrix_cell(
                        seed,
                        tick,
                        position,
                        r as u64,
                        k as u64,
                        height as u64,
                    ),
            decreases width - c,
        {
            line.push(matrix_cell_exec(seed, tick, position, r as u64, c as u64, height as u64));
            c = c + 1;
        }
        rows.push(line);
        r = r + 1;
    }
    rows
}

// ---------------------------------------------------------------------------
// Redraw pacing
// ---------------------------------------------------------------------------

/// How often the screen is redrawn, in milliseconds: each visualizer has its
/// pace, and the playlist modal is never redrawn more often than every
/// 120 ms.
pub open spec fn frame_interval(v: VisualizerMode, mode: InputMode) -> u64 {
    let base: u64 = match v {
        VisualizerMode::Off => 1000,
        VisualizerMode::Cava => 33,
        VisualizerMode::CMatrix => 66,
        VisualizerMode::Clock => 1000,
    };
    if mode == InputMode::PlaylistModal && base < 120 {
        120
    } else {
        base
    }
}

/// The redraw interval for the visualizer and mode.
pub fn frame_interval_ms(v: VisualizerMode, mode: InputMode) -> (ms: u64)
    ensures
        ms == frame_interval(v, mode),
{
    let base: u64 = match v {
        VisualizerMode::Off => 1000,
        VisualizerMode::Cava => 33,
        VisualizerMode::CMatrix => 66,
        VisualizerMode::Clock => 1000,
    };
    if mode == InputMode::PlaylistModal && base < 120 {
        120
    } else {
        base
    }
}

/// How long to wait for a key: until the next frame is due, at most 40 ms.
pub fn poll_timeout_ms(frame_ms: u64, since_draw_ms: u64) -> (ms: u64)
    ensures
        ms == (if since_draw_ms >= frame_ms {
            0
        } else if frame_ms - since_draw_ms < 40 {
            (frame_ms - since_draw_ms) as u64
        } else {
            40
        }),
{
    let left = frame_ms.saturating_sub(since_draw_ms);
    if left < 40 {
        left
    } else {
        40
    }
}

} // verus!
