//! Core data model: tracks, playback state and the repeat mode.

use vstd::prelude::*;

verus! {

/// A track of the library, as stored.
#[derive(Debug, Clone)]
pub struct Track {
    pub id: i64,
    pub path: String,
    pub mtime: i64,
    pub title: String,
    pub artist: Option<String>,
    pub album: Option<String>,
    pub duration_secs: Option<i64>,
    pub favorite: bool,
    pub play_count: i64,
}

/// What a library scan learns about one file.
#[derive(Debug, Clone)]
pub struct TrackInput {
    pub path: String,
    pub mtime: i64,
    pub title: String,
    pub artist: Option<String>,
    pub album: Option<String>,
    pub duration_secs: Option<i64>,
}

/// What happens when the end of the queue is reached.
#[derive(Debug, Clone, Copy, PartialEq, Eq, Structural)]
pub enum RepeatMode {
    Off,
    RepeatOne,
    RepeatAll,
}

/// The number a repeat mode is stored as.
pub open spec fn repeat_db_value(m: RepeatMode) -> int {
    match m {
        RepeatMode::Off => 0,
        RepeatMode::RepeatOne => 1,
        RepeatMode::RepeatAll => 2,
    }
}

/// The repeat mode a stored number stands for; unknown numbers mean `Off`.
pub open spec fn repeat_from_db(v: int) -> RepeatMode {
    if v == 1 {
        RepeatMode::RepeatOne
    } else if v == 2 {
        RepeatMode::RepeatAll
    } else {
        RepeatMode::Off
    }
}

/// The next mode in the cycle `Off -> One -> All -> Off`.
pub open spec fn repeat_next(m: RepeatMode) -> RepeatMode {
    match m {
        RepeatMode::Off => RepeatMode::RepeatOne,
        RepeatMode::RepeatOne => RepeatMode::RepeatAll,
        RepeatMode::RepeatAll => RepeatMode::Off,
    }
}

/// The short name shown for a repeat mode.
pub open spec fn repeat_label(m: RepeatMode) -> Seq<char> {
    match m {
        RepeatMode::Off => "Off"@,
        RepeatMode::RepeatOne => "One"@,
        RepeatMode::RepeatAll => "All"@,
    }
}

impl RepeatMode {
    pub fn as_db_value(self) -> (v: i64)
        ensures
            v == repeat_db_value(self),
    {
        match self {
            RepeatMode::Off => 0,
            RepeatMode::RepeatOne => 1,
            RepeatMode::RepeatAll => 2,
        }
    }

    pub fn from_db_value(v: i64) -> (m: RepeatMode)
        ensures
            m == repeat_from_db(v as int),
    {
        if v == 1 {
            RepeatMode::RepeatOne
        } else if v == 2 {
            RepeatMode::RepeatAll
        } else {
            RepeatMode::Off
        }
    }

    pub fn cycle(self) -> (m: RepeatMode)
        ensures
            m == repeat_next(self),
    {
        match self {
            RepeatMode::Off => RepeatMode::RepeatOne,
            RepeatMode::RepeatOne => RepeatMode::RepeatAll,
            RepeatMode::RepeatAll => RepeatMode::Off,
        }
    }

    /// The text shown for this mode ("Off", "One" or "All").
    pub fn label(self) -> (s: &'static str)
        ensures
            s@ == repeat_label(self),
    {
        match self {
            RepeatMode::Off => "Off",
            RepeatMode::RepeatOne => "One",
            RepeatMode::RepeatAll => "All",
        }
    }
}

/// Reading back a stored repeat mode gives the mode that was stored.
pub proof fn law_repeat_db_round_trip(m: RepeatMode)
    ensures
        repeat_from_db(repeat_db_value(m)) == m,
{
}

/// Cycling the repeat mode three times comes back to the start, and each of
/// the three modes is visited.
pub proof fn law_repeat_cycle_period(m: RepeatMode)
    ensures
        repeat_next(repeat_next(repeat_next(m))) == m,
        repeat_next(m) != m,
        repeat_next(repeat_next(m)) != m,
{
}

/// The persisted playback state.
#[derive(Debug, Clone, PartialEq, Eq, Structural)]
pub struct PlaybackState {
    pub current_track_id: Option<i64>,
    pub position_secs: i64,
    pub shuffle_enabled: bool,
    pub repeat_mode: RepeatMode,
}

impl Default for PlaybackState {
    fn default() -> (s: PlaybackState)
        ensures
            s.current_track_id is None,
            s.position_secs == 0,
            !s.shuffle_enabled,
            s.repeat_mode == RepeatMode::Off,
    {
        PlaybackState {
            current_track_id: None,
            position_secs: 0,
            shuffle_enabled: false,
            repeat_mode: RepeatMode::Off,
        }
    }
}

} // verus!
