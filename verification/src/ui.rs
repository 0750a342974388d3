//! The terminal UI's state machine: focus, input modes, selections, the tag
//! editor, the playlist modal, theme and visualizer choice, the key map and
//! the warnings shown while searching.

use vstd::prelude::*;
use crate::text::{
    blank, chars_of, concat, extend_chars, is_blank, lower_seq, owned, split_words, string_of,
    string_pop, string_push, text_eq, to_lower, trim, u64_text, views, words,
};
use crate::search::first_index_of;

verus! {

#[derive(Debug, Clone, Copy, PartialEq, Eq, Structural)]
pub enum FocusPanel {
    Library,
    Queue,
}

#[derive(Debug, Clone, Copy, PartialEq, Eq, Structural)]
pub enum InputMode {
    Normal,
    Search,
    EditTag,
    PlaylistModal,
}

#[derive(Debug, Clone, Copy, PartialEq, Eq, Structural)]
pub enum PlaylistModalMode {
    BrowsePlaylists,
    BrowseItems,
    CreatePlaylist,
    RenamePlaylist,
    ConfirmDeletePlaylist,
}

#[derive(Debug, Clone, Copy, PartialEq, Eq, Structural)]
pub enum VisualizerMode {
    Off,
    Cava,
    Clock,
    CMatrix,
}

#[derive(Debug, Clone, Copy, PartialEq, Eq, Structural)]
pub enum UiTheme {
    Neon,
    Amber,
    Mono,
    Forest,
}

/// The theme after `t` in the cycle `Neon -> Amber -> Mono -> Forest -> Neon`.
pub open spec fn theme_next(t: UiTheme) -> UiTheme {
    match t {
        UiTheme::Neon => UiTheme::Amber,
        UiTheme::Amber => UiTheme::Mono,
        UiTheme::Mono => UiTheme::Forest,
        UiTheme::Forest => UiTheme::Neon,
    }
}

/// The name shown for a theme.
pub open spec fn theme_label(t: UiTheme) -> Seq<char> {
    match t {
        UiTheme::Neon => "Neon"@,
        UiTheme::Amber => "Amber"@,
        UiTheme::Mono => "Mono"@,
        UiTheme::Forest => "Forest"@,
    }
}

impl UiTheme {
    pub fn cycle(self) -> (t: UiTheme)
        ensures
            t == theme_next(self),
    {
        match self {
            UiTheme::Neon => UiTheme::Amber,
            UiTheme::Amber => UiTheme::Mono,
            UiTheme::Mono => UiTheme::Forest,
            UiTheme::Forest => UiTheme::Neon,
        }
    }

    pub fn label(self) -> (s: &'static str)
        ensures
            s@ == theme_label(self),
    {
        match self {
            UiTheme::Neon => "Neon",
            UiTheme::Amber => "Amber",
            UiTheme::Mono => "Mono",
            UiTheme::Forest => "Forest",
        }
    }
}

/// Cycling the theme four times comes back to the start, visiting every
/// theme once.
pub proof fn law_theme_cycle_period(t: UiTheme)
    ensures
        theme_next(theme_next(theme_next(theme_next(t)))) == t,
        theme_next(t) != t,
        theme_next(theme_next(t)) != t,
        theme_next(theme_next(theme_next(t))) != t,
{
}

/// The name shown for a visualizer mode.
pub open spec fn visualizer_label(m: VisualizerMode) -> Seq<char> {
    match m {
        VisualizerMode::Off => "Off"@,
        VisualizerMode::Cava => "Cava"@,
        VisualizerMode::Clock => "Clock"@,
        VisualizerMode::CMatrix => "CMatrix"@,
    }
}

impl VisualizerMode {
    pub fn label(self) -> (s: &'static str)
        ensures
            s@ == visualizer_label(self),
    {
        match self {
            VisualizerMode::Off => "Off",
            VisualizerMode::Cava => "Cava",
            VisualizerMode::Clock => "Clock",
            VisualizerMode::CMatrix => "CMatrix",
        }
    }
}

// ---------------------------------------------------------------------------
// Keys
// ---------------------------------------------------------------------------

/// A key, as far as the UI tells keys apart.
#[derive(Debug, Clone, Copy, PartialEq, Eq, Structural)]
pub enum Key {
    Char(char),
    Up,
    Down,
    Left,
    Right,
    Enter,
    Esc,
    Tab,
    BackTab,
    Backspace,
    Other,
}

/// A key press with its modifiers.
#[derive(Debug, Clone, Copy, PartialEq, Eq, Structural)]
pub struct KeyPress {
    pub key: Key,
    pub shift: bool,
    pub ctrl: bool,
    pub alt: bool,
}

/// Whether a key press types text (neither Control nor Alt held).
pub open spec fn plain_text(k: KeyPress) -> bool {
    !k.ctrl && !k.alt
}

/// What a key does in normal mode.
#[derive(Debug, Clone, Copy, PartialEq, Eq, Structural)]
pub enum NormalAction {
    Quit,
    MoveSelection(i64),
    PlaySelected,
    CycleFocus,
    TogglePlayPause,
    NextTrack,
    PrevTrack,
    Seek(i64),
    ToggleRepeat,
    ToggleShuffle,
    Volume(bool),
    EnterSearch,
    OpenPlaylists,
    Rescan,
    ToggleFavorite,
    /// Add the selected library track to the end of the queue.
    QueueSelected,
    /// Pick a playlist for the selected track (else the playing one).
    AddToPlaylist,
    EditTags,
    /// Play the selected queue entry (Enter with the queue focused).
    PlayQueued,
    /// Remove the selected queue entry.
    RemoveQueued,
    /// Move the selected queue entry up (`true`) or down by one.
    MoveQueued(bool),
    Nothing,
}

/// The normal-mode key map: `q` quits, Up/Down move (with Shift they move
/// the selected queue entry), Enter plays, Tab cycles the focus, Space
/// toggles play/pause, `n`/`p` skip, Left/Right seek 5 s (10 s with Shift),
/// `e` cycles repeat, `u` toggles shuffle, `[`/`]` change the volume, `s`
/// searches, `l` opens playlists, `r` rescans, `f` toggles the favourite, `a`
/// adds the selected track to the queue, `A` adds it to a playlist, `x`
/// removes the selected queue entry and `t`/`T` edits tags.
pub open spec fn normal_action(k: KeyPress) -> NormalAction {
    match k.key {
        Key::Char('q') => NormalAction::Quit,
        Key::Down => if k.shift {
            NormalAction::MoveQueued(false)
        } else {
            NormalAction::MoveSelection(1)
        },
        Key::Up => if k.shift {
            NormalAction::MoveQueued(true)
        } else {
            NormalAction::MoveSelection(-1i64)
        },
        Key::Enter => NormalAction::PlaySelected,
        Key::Tab => NormalAction::CycleFocus,
        Key::Char(' ') => NormalAction::TogglePlayPause,
        Key::Char('n') => NormalAction::NextTrack,
        Key::Char('p') => NormalAction::PrevTrack,
        Key::Left => NormalAction::Seek(
            if k.shift {
                -10i64
            } else {
                -5i64
            },
        ),
        Key::Right => NormalAction::Seek(
            if k.shift {
                10
            } else {
                5
            },
        ),
        Key::Char('e') => NormalAction::ToggleRepeat,
        Key::Char('u') => NormalAction::ToggleShuffle,
        Key::Char(']') => NormalAction::Volume(true),
        Key::Char('[') => NormalAction::Volume(false),
        Key::Char('s') => NormalAction::EnterSearch,
        Key::Char('l') => NormalAction::OpenPlaylists,
        Key::Char('r') => NormalAction::Rescan,
        Key::Char('f') => NormalAction::ToggleFavorite,
        Key::Char('a') => NormalAction::QueueSelected,
        Key::Char('A') => NormalAction::AddToPlaylist,
        Key::Char('t') => NormalAction::EditTags,
        Key::Char('T') => NormalAction::EditTags,
        Key::Char('x') => NormalAction::RemoveQueued,
        _ => NormalAction::Nothing,
    }
}

/// The action a key press stands for in normal mode.
pub fn normal_key_action(k: KeyPress) -> (a: NormalAction)
    ensures
        a == normal_action(k),
{
    match k.key {
        Key::Char('q') => NormalAction::Quit,
        Key::Down => if k.shift {
            NormalAction::MoveQueued(false)
        } else {
            NormalAction::MoveSelection(1)
        },
        Key::Up => if k.shift {
            NormalAction::MoveQueued(true)
        } else {
            NormalAction::MoveSelection(-1i64)
        },
        Key::Enter => NormalAction::PlaySelected,
        Key::Tab => NormalAction::CycleFocus,
        Key::Char(' ') => NormalAction::TogglePlayPause,
        Key::Char('n') => NormalAction::NextTrack,
        Key::Char('p') => NormalAction::PrevTrack,
        Key::Left => NormalAction::Seek(
            if k.shift {
                -10
            } else {
                -5
            },
        ),
        Key::Right => NormalAction::Seek(
            if k.shift {
                10
            } else {
                5
            },
        ),
        Key::Char('e') => NormalAction::ToggleRepeat,
        Key::Char('u') => NormalAction::ToggleShuffle,
        Key::Char(']') => NormalAction::Volume(true),
        Key::Char('[') => NormalAction::Volume(false),
        Key::Char('s') => NormalAction::EnterSearch,
        Key::Char('l') => NormalAction::OpenPlaylists,
        Key::Char('r') => NormalAction::Rescan,
        Key::Char('f') => NormalAction::ToggleFavorite,
        Key::Char('a') => NormalAction::QueueSelected,
        Key::Char('A') => NormalAction::AddToPlaylist,
        Key::Char('t') => NormalAction::EditTags,
        Key::Char('T') => NormalAction::EditTags,
        Key::Char('x') => NormalAction::RemoveQueued,
        _ => NormalAction::Nothing,
    }
}

/// What a normal-mode action means in the focused panel: Enter on the queue
/// plays the selected entry; on the library, `x` does nothing and Shift+Up /
/// Shift+Down move the selection like Up / Down.
pub open spec fn focused_action(a: NormalAction, focus: FocusPanel) -> NormalAction {
    match (a, focus) {
        (NormalAction::PlaySelected, FocusPanel::Queue) => NormalAction::PlayQueued,
        (NormalAction::RemoveQueued, FocusPanel::Library) => NormalAction::Nothing,
        (NormalAction::MoveQueued(up), FocusPanel::Library) => NormalAction::MoveSelection(
            if up {
                -1i64
            } else {
                1i64
            },
        ),
        _ => a,
    }
}

impl UiState {
    /// The action a key press stands for in normal mode, in the focused panel.
    pub fn normal_command(&self, k: KeyPress) -> (a: NormalAction)
        ensures
            a == focused_action(normal_action(k), self.focus),
    {
        let a = normal_key_action(k);
        match (a, self.focus) {
            (NormalAction::PlaySelected, FocusPanel::Queue) => NormalAction::PlayQueued,
            (NormalAction::RemoveQueued, FocusPanel::Library) => NormalAction::Nothing,
            (NormalAction::MoveQueued(up), FocusPanel::Library) => NormalAction::MoveSelection(
                if up {
                    -1
                } else {
                    1
                },
            ),
            _ => a,
        }
    }
}

/// The key that opens and closes the playlist modal.
pub const PLAYLIST_MODAL_TOGGLE_KEY: char = 'l';

/// The keys the normal mode reserves for other commands.
pub open spec fn reserved_keys() -> Seq<char> {
    seq!['q', 's', 'r', 'f', 'a', 'e', 'u', 'x', 't', 'n', 'p']
}

/// The playlist modal key is not one of the reserved keys, and it opens the
/// modal in normal mode.
pub proof fn law_keymap_compatible()
    ensures
        !reserved_keys().contains(PLAYLIST_MODAL_TOGGLE_KEY),
        normal_action(
            KeyPress { key: Key::Char(PLAYLIST_MODAL_TOGGLE_KEY), shift: false, ctrl: false, alt: false },
        ) == NormalAction::OpenPlaylists,
{
    assert(reserved_keys().len() == 11);
    assert forall|i: int| 0 <= i < reserved_keys().len() implies reserved_keys()[i] != 'l' by {}
}

/// Whether a key closes the playlist modal: `l` on either list, or Esc on
/// the list of playlists.
pub open spec fn closes_modal(mode: PlaylistModalMode, key: Key) -> bool {
    match mode {
        PlaylistModalMode::BrowsePlaylists => key == Key::Esc || key == Key::Char('l'),
        PlaylistModalMode::BrowseItems => key == Key::Char('l'),
        _ => false,
    }
}

/// What a key does in the search box.
#[derive(Debug, Clone, Copy, PartialEq, Eq, Structural)]
pub enum SearchAction {
    /// Nothing more to do.
    Nothing,
    /// Play the selected result and leave search mode.
    PlaySelected,
    /// Move the selection by this many rows.
    MoveSelection(i64),
}

/// A tag edit the user asked to save.
#[derive(Debug, Clone)]
pub struct TagSave {
    pub track_id: i64,
    pub title: String,
    pub artist: String,
    pub album: String,
}

/// What a key does in the playlist modal beyond the modal's own state.
#[derive(Debug, Clone, PartialEq, Eq)]
pub enum PlaylistModalAction {
    Nothing,
    MoveSelection(i64),
    MoveItemSelection(i64),
    /// Enter on the playlist list: open, create, or add the pending track.
    BrowseEnter,
    /// Enter on an item: play from the playlist.
    PlayItem,
    RemoveItem,
    StartRename,
    RequestDelete,
    /// Create a playlist with this (trimmed) name.
    SubmitCreate(String),
    /// Rename the selected playlist to this name.
    SubmitRename(String),
    ConfirmDelete,
}

// ---------------------------------------------------------------------------
// State
// ---------------------------------------------------------------------------

pub const NORMAL_STATUS_HINT: &'static str = "Up/Down Move | Enter Play | l Playlist | s Search | q Quit";

pub const SEARCH_STATUS_HINT: &'static str = "Up/Down Move | Enter Play | Esc Exit";

pub const PLAYLIST_STATUS_HINT: &'static str =
    "Up/Down Move | Enter Open/Create | d Remove | r Rename | x Delete | Esc Back/Close";

pub const EDIT_TAG_STATUS_HINT: &'static str = "Tab Next | Enter Save | Esc Cancel";

/// How many playlist actions pass between two latency log lines.
pub const LATENCY_LOG_SAMPLE_WINDOW: u64 = 200;

/// The UI's state, apart from render caches.
pub struct UiState {
    pub focus: FocusPanel,
    pub mode: InputMode,
    pub theme: UiTheme,
    pub visualizer_mode: VisualizerMode,
    pub search_input: String,
    pub edit_tag_track_id: Option<i64>,
    pub edit_tag_inputs: Vec<String>,
    pub edit_tag_field: usize,
    pub library_selected: usize,
    pub queue_selected: usize,
    pub status: String,
    pub search_warning: Option<String>,
    pub playlist_modal_visible: bool,
    pub playlist_modal_mode: PlaylistModalMode,
    pub playlist_name_input: String,
    pub playlist_add_track_id: Option<i64>,
    pub playlist_selected: usize,
    pub playlist_item_selected: usize,
    pub playlist_action_latency_samples: u64,
    pub playlist_action_latency_total_micros: u128,
    pub playlist_action_latency_max_micros: u128,
}

/// The selection after moving `delta` rows in a list of `len` rows: clamped
/// to the list, and 0 for an empty list.
pub open spec fn moved(current: int, delta: int, len: int) -> int {
    if len <= 0 {
        0
    } else if current + delta < 0 {
        0
    } else if current + delta > len - 1 {
        len - 1
    } else {
        current + delta
    }
}

fn moved_exec(current: usize, delta: i64, len: usize) -> (r: usize)
    ensures
        r == moved(current as int, delta as int, len as int),
{
    if len == 0 {
        return 0;
    }
    let t: i128 = current as i128 + delta as i128;
    if t < 0 {
        0
    } else if t > (len - 1) as i128 {
        len - 1
    } else {
        t as usize
    }
}

impl UiState {
    /// The tag editor always has three fields and one of them is active.
    pub open spec fn wf(&self) -> bool {
        self.edit_tag_inputs@.len() == 3 && self.edit_tag_field < 3
    }

    pub fn new() -> (s: UiState)
        ensures
            s.wf(),
            s.focus == FocusPanel::Library,
            s.mode == InputMode::Normal,
            s.theme == UiTheme::Neon,
            s.visualizer_mode == VisualizerMode::Off,
            s.search_input@.len() == 0,
            s.edit_tag_track_id is None,
            forall|i: int| 0 <= i < 3 ==> (#[trigger] s.edit_tag_inputs@[i])@.len() == 0,
            s.edit_tag_field == 0,
            s.library_selected == 0,
            s.queue_selected == 0,
            s.status@ == "Ready"@,
            s.search_warning is None,
            !s.playlist_modal_visible,
            s.playlist_modal_mode == PlaylistModalMode::BrowsePlaylists,
            s.playlist_name_input@.len() == 0,
            s.playlist_add_track_id is None,
            s.playlist_selected == 0,
            s.playlist_item_selected == 0,
            s.playlist_action_latency_samples == 0,
            s.playlist_action_latency_total_micros == 0,
            s.playlist_action_latency_max_micros == 0,
    {
        UiState {
            focus: FocusPanel::Library,
            mode: InputMode::Normal,
            theme: UiTheme::Neon,
            visualizer_mode: VisualizerMode::Off,
            search_input: String::new(),
            edit_tag_track_id: None,
            edit_tag_inputs: empty_tag_inputs(),
            edit_tag_field: 0,
            library_selected: 0,
            queue_selected: 0,
            status: owned("Ready"),
            search_warning: None,
            playlist_modal_visible: false,
            playlist_modal_mode: PlaylistModalMode::BrowsePlaylists,
            playlist_name_input: String::new(),
            playlist_add_track_id: None,
            playlist_selected: 0,
            playlist_item_selected: 0,
            playlist_action_latency_samples: 0,
            playlist_action_latency_total_micros: 0,
            playlist_action_latency_max_micros: 0,
        }
    }

    /// Checks that the playlist modal key collides with none of the keys the
    /// normal mode reserves; it never does.
    pub fn assert_keymap_compatibility() -> (ok: bool)
        ensures
            ok == !reserved_keys().contains(PLAYLIST_MODAL_TOGGLE_KEY),
            ok,
    {
        let reserved: [char; 11] = ['q', 's', 'r', 'f', 'a', 'e', 'u', 'x', 't', 'n', 'p'];
        assert(reserved@ =~= reserved_keys());
        proof {
            law_keymap_compatible();
        }
        let mut i: usize = 0;
        while i < 11
            invariant
                i <= 11,
                reserved@ == reserved_keys(),
                forall|j: int| 0 <= j < i ==> reserved@[j] != PLAYLIST_MODAL_TOGGLE_KEY,
            decreases 11 - i,
        {
            if reserved[i] == PLAYLIST_MODAL_TOGGLE_KEY {
                return false;
            }
            i = i + 1;
        }
        true
    }

    pub fn set_visualizer_mode(&mut self, mode: VisualizerMode)
        ensures
            *final(self) == (UiState { visualizer_mode: mode, ..*old(self) }),
    {
        self.visualizer_mode = mode;
    }

    pub fn cycle_theme(&mut self) -> (t: UiTheme)
        ensures
            t == theme_next(old(self).theme),
            *final(self) == (UiState { theme: t, ..*old(self) }),
    {
        self.theme = self.theme.cycle();
        self.theme
    }

    /// Opens the search box on the library, empty and with the first row
    /// selected.
    pub fn enter_search_mode(&mut self)
        requires
            old(self).wf(),
        ensures
            final(self).wf(),
            final(self).focus == FocusPanel::Library,
            final(self).mode == InputMode::Search,
            final(self).search_input@.len() == 0,
            final(self).search_warning is None,
            final(self).library_selected == 0,
            final(self).theme == old(self).theme,
            final(self).queue_selected == old(self).queue_selected,
            final(self).status@ == old(self).status@,
    {
        self.focus = FocusPanel::Library;
        self.mode = InputMode::Search;
        self.search_input = String::new();
        self.search_warning = None;
        self.library_selected = 0;
    }

    /// Leaves the search box, clearing it.
    pub fn exit_search_mode(&mut self)
        requires
            old(self).wf(),
        ensures
            final(self).wf(),
            final(self).mode == InputMode::Normal,
            final(self).search_input@.len() == 0,
            final(self).search_warning is None,
            final(self).library_selected == 0,
            final(self).focus == old(self).focus,
            final(self).theme == old(self).theme,
            final(self).queue_selected == old(self).queue_selected,
            final(self).status@ == old(self).status@,
    {
        self.mode = InputMode::Normal;
        self.search_input = String::new();
        self.search_warning = None;
        self.library_selected = 0;
    }

    /// Opens the tag editor for a track, on its title field.
    pub fn enter_edit_tag_mode(&mut self, track_id: i64, title: &str, artist: &str, album: &str)
        requires
            old(self).wf(),
        ensures
            final(self).wf(),
            final(self).mode == InputMode::EditTag,
            final(self).edit_tag_track_id == Some(track_id),
            final(self).edit_tag_inputs@[0]@ == title@,
            final(self).edit_tag_inputs@[1]@ == artist@,
            final(self).edit_tag_inputs@[2]@ == album@,
            final(self).edit_tag_field == 0,
            final(self).focus == old(self).focus,
            final(self).status@ == old(self).status@,
    {
        self.mode = InputMode::EditTag;
        self.edit_tag_track_id = Some(track_id);
        let mut inputs: Vec<String> = Vec::new();
        inputs.push(owned(title));
        inputs.push(owned(artist));
        inputs.push(owned(album));
        self.edit_tag_inputs = inputs;
        self.edit_tag_field = 0;
    }

    /// Closes the tag editor, clearing it.
    pub fn exit_edit_tag_mode(&mut self)
        requires
            old(self).wf(),
        ensures
            final(self).wf(),
            final(self).mode == InputMode::Normal,
            final(self).edit_tag_track_id is None,
            forall|i: int| 0 <= i < 3 ==> (#[trigger] final(self).edit_tag_inputs@[i])@.len() == 0,
            final(self).edit_tag_field == 0,
            final(self).focus == old(self).focus,
            final(self).status@ == old(self).status@,
    {
        self.mode = InputMode::Normal;
        self.edit_tag_track_id = None;
        self.edit_tag_inputs = empty_tag_inputs();
        self.edit_tag_field = 0;
    }

    /// Switches the focus between the library and the queue.
    pub fn focus_right(&mut self)
        ensures
            *final(self) == (UiState {
                focus: match old(self).focus {
                    FocusPanel::Library => FocusPanel::Queue,
                    FocusPanel::Queue => FocusPanel::Library,
                },
                ..*old(self)
            }),
    {
        self.focus = match self.focus {
            FocusPanel::Library => FocusPanel::Queue,
            FocusPanel::Queue => FocusPanel::Library,
        };
    }

    /// Moves the selection of the focused panel by `delta` rows, given how
    /// many rows the panel shows.
    pub fn move_selection(&mut self, visible_len: usize, delta: i64)
        ensures
            old(self).focus == FocusPanel::Library ==> *final(self) == (UiState {
                library_selected: moved(
                    old(self).library_selected as int,
                    delta as int,
                    visible_len as int,
                ) as usize,
                ..*old(self)
            }),
            old(self).focus == FocusPanel::Queue ==> *final(self) == (UiState {
                queue_selected: moved(
                    old(self).queue_selected as int,
                    delta as int,
                    visible_len as int,
                ) as usize,
                ..*old(self)
            }),
    {
        match self.focus {
            FocusPanel::Library => {
                self.library_selected = moved_exec(self.library_selected, delta, visible_len);
            },
            FocusPanel::Queue => {
                self.queue_selected = moved_exec(self.queue_selected, delta, visible_len);
            },
        }
    }

    /// Opens the playlist modal on the list of playlists.
    pub fn enter_playlist_modal(&mut self)
        ensures
            final(self).mode == InputMode::PlaylistModal,
            final(self).playlist_modal_visible,
            final(self).playlist_modal_mode == PlaylistModalMode::BrowsePlaylists,
            final(self).playlist_name_input@.len() == 0,
            final(self).playlist_selected == 0,
            final(self).playlist_item_selected == 0,
            final(self).playlist_add_track_id == old(self).playlist_add_track_id,
            final(self).edit_tag_inputs == old(self).edit_tag_inputs,
            final(self).edit_tag_field == old(self).edit_tag_field,
            final(self).focus == old(self).focus,
            final(self).status@ == old(self).status@,
            *final(self) == (UiState {
                mode: InputMode::PlaylistModal,
                playlist_modal_visible: true,
                playlist_modal_mode: PlaylistModalMode::BrowsePlaylists,
                playlist_name_input: final(self).playlist_name_input,
                playlist_selected: 0,
                playlist_item_selected: 0,
                ..*old(self)
            }),
    {
        self.mode = InputMode::PlaylistModal;
        self.playlist_modal_visible = true;
        self.playlist_modal_mode = PlaylistModalMode::BrowsePlaylists;
        self.playlist_name_input = String::new();
        self.playlist_selected = 0;
        self.playlist_item_selected = 0;
    }

    /// Closes the playlist modal; the selected playlist and the track waiting
    /// to be added are kept.
    pub fn exit_playlist_modal(&mut self)
        ensures
            final(self).mode == InputMode::Normal,
            !final(self).playlist_modal_visible,
            final(self).playlist_modal_mode == PlaylistModalMode::BrowsePlaylists,
            final(self).playlist_name_input@.len() == 0,
            final(self).playlist_add_track_id == old(self).playlist_add_track_id,
            final(self).playlist_item_selected == 0,
            final(self).playlist_selected == old(self).playlist_selected,
            final(self).edit_tag_inputs == old(self).edit_tag_inputs,
            final(self).edit_tag_field == old(self).edit_tag_field,
            final(self).focus == old(self).focus,
            final(self).status@ == old(self).status@,
            *final(self) == (UiState {
                mode: InputMode::Normal,
                playlist_modal_visible: false,
                playlist_modal_mode: PlaylistModalMode::BrowsePlaylists,
                playlist_name_input: final(self).playlist_name_input,
                playlist_item_selected: 0,
                ..*old(self)
            }),
    {
        self.mode = InputMode::Normal;
        self.playlist_modal_visible = false;
        self.playlist_modal_mode = PlaylistModalMode::BrowsePlaylists;
        self.playlist_name_input = String::new();
        self.playlist_item_selected = 0;
    }

    /// The position of the selected playlist among `count` playlists, clamped
    /// to the last one.
    pub fn selected_playlist_index(&self, count: usize) -> (r: Option<usize>)
        ensures
            count == 0 ==> r is None,
            count > 0 ==> r == Some(
                if self.playlist_selected < count - 1 {
                    self.playlist_selected
                } else {
                    (count - 1) as usize
                },
            ),
    {
        if count == 0 {
            return None;
        }
        Some(
            if self.playlist_selected < count - 1 {
                self.playlist_selected
            } else {
                count - 1
            },
        )
    }

    pub fn selected_playlist_item_index(&self) -> (r: usize)
        ensures
            r == self.playlist_item_selected,
    {
        self.playlist_item_selected
    }

    /// Moves the playlist selection by `delta` among `len` playlists.
    pub fn move_playlist_selection(&mut self, len: usize, delta: i64)
        ensures
            *final(self) == (UiState {
                playlist_selected: moved(
                    old(self).playlist_selected as int,
                    delta as int,
                    len as int,
                ) as usize,
                ..*old(self)
            }),
    {
        self.playlist_selected = moved_exec(self.playlist_selected, delta, len);
    }

    /// Moves the item selection by `delta` among `len` items.
    pub fn move_playlist_item_selection(&mut self, len: usize, delta: i64)
        ensures
            *final(self) == (UiState {
                playlist_item_selected: moved(
                    old(self).playlist_item_selected as int,
                    delta as int,
                    len as int,
                ) as usize,
                ..*old(self)
            }),
    {
        self.playlist_item_selected = moved_exec(self.playlist_item_selected, delta, len);
    }

    /// Records how long a UI action took (counters saturate). Every 200
    /// samples the summary line to log is returned.
    pub fn record_ui_action_latency(&mut self, elapsed_micros: u128) -> (line: Option<String>)
        ensures
            final(self).playlist_action_latency_samples == if old(self).playlist_action_latency_samples == u64::MAX {
                u64::MAX
            } else {
                (old(self).playlist_action_latency_samples + 1) as u64
            },
            final(self).playlist_action_latency_total_micros == if old(self).playlist_action_latency_total_micros + elapsed_micros > u128::MAX {
                u128::MAX
            } else {
                (old(self).playlist_action_latency_total_micros + elapsed_micros) as u128
            },
            final(self).playlist_action_latency_max_micros == if elapsed_micros > old(self).playlist_action_latency_max_micros {
                elapsed_micros
            } else {
                old(self).playlist_action_latency_max_micros
            },
            final(self).mode == old(self).mode,
            final(self).edit_tag_inputs == old(self).edit_tag_inputs,
            final(self).edit_tag_field == old(self).edit_tag_field,
            (final(self).playlist_action_latency_samples % LATENCY_LOG_SAMPLE_WINDOW == 0)
                == line is Some,
            line matches Some(l) ==> l@ == "[melors.ui.latency] samples="@ + dec_nat(
                final(self).playlist_action_latency_samples as nat,
            ) + " avg_us="@ + dec_nat(
                (final(self).playlist_action_latency_total_micros
                    / final(self).playlist_action_latency_samples as u128) as nat,
            ) + " max_us="@ + dec_nat(final(self).playlist_action_latency_max_micros as nat)
                + "\n"@,
    {
        self.playlist_action_latency_samples = self.playlist_action_latency_samples.saturating_add(
            1,
        );
        self.playlist_action_latency_total_micros =
        self.playlist_action_latency_total_micros.saturating_add(elapsed_micros);
        if elapsed_micros > self.playlist_action_latency_max_micros {
            self.playlist_action_latency_max_micros = elapsed_micros;
        }
        if self.playlist_action_latency_samples % LATENCY_LOG_SAMPLE_WINDOW == 0 {
            let avg = self.playlist_action_latency_total_micros
                / self.playlist_action_latency_samples as u128;
            let mut v = chars_of("[melors.ui.latency] samples=");
            extend_chars(&mut v, u64_text(self.playlist_action_latency_samples).as_str());
            extend_chars(&mut v, " avg_us=");
            extend_chars(&mut v, crate::scanner::u128_text(avg).as_str());
            extend_chars(&mut v, " max_us=");
            extend_chars(
                &mut v,
                crate::scanner::u128_text(self.playlist_action_latency_max_micros).as_str(),
            );
            extend_chars(&mut v, "\n");
            Some(string_of(&v))
        } else {
            None
        }
    }

    /// Alt shortcuts: Alt+0..3 pick the visualizer, Alt+t / Alt+T cycle the
    /// theme. Returns whether the key was such a shortcut.
    pub fn handle_alt_shortcut(&mut self, k: KeyPress) -> (handled: bool)
        requires
            old(self).wf(),
        ensures
            final(self).wf(),
            handled == (k.alt && (k.key == Key::Char('0') || k.key == Key::Char('1') || k.key
                == Key::Char('2') || k.key == Key::Char('3') || k.key == Key::Char('t') || k.key
                == Key::Char('T'))),
            !handled ==> *final(self) == *old(self),
            handled && k.key == Key::Char('0') ==> final(self).visualizer_mode == VisualizerMode::Off
                && final(self).status@ == "Visualizer: Off (low power)"@,
            handled && k.key == Key::Char('1') ==> final(self).visualizer_mode
                == VisualizerMode::Cava && final(self).status@ == "Visualizer: Demo Bars"@,
            handled && k.key == Key::Char('2') ==> final(self).visualizer_mode
                == VisualizerMode::Clock && final(self).status@ == "Visualizer: Clock"@,
            handled && k.key == Key::Char('3') ==> final(self).visualizer_mode
                == VisualizerMode::CMatrix && final(self).status@ == "Visualizer: CMatrix"@,
            handled && (k.key == Key::Char('t') || k.key == Key::Char('T')) ==> final(self).theme
                == theme_next(old(self).theme) && final(self).status@ == "Theme: "@ + theme_label(
                final(self).theme,
            ),
            handled ==> final(self).mode == old(self).mode,
    {
        if !k.alt {
            return false;
        }
        match k.key {
            Key::Char('0') => {
                self.set_visualizer_mode(VisualizerMode::Off);
                self.status = owned("Visualizer: Off (low power)");
                true
            },
            Key::Char('1') => {
                self.set_visualizer_mode(VisualizerMode::Cava);
                self.status = owned("Visualizer: Demo Bars");
                true
            },
            Key::Char('2') => {
                self.set_visualizer_mode(VisualizerMode::Clock);
                self.status = owned("Visualizer: Clock");
                true
            },
            Key::Char('3') => {
                self.set_visualizer_mode(VisualizerMode::CMatrix);
                self.status = owned("Visualizer: CMatrix");
                true
            },
            Key::Char('t') | Key::Char('T') => {
                let theme = self.cycle_theme();
                self.status = concat("Theme: ", theme.label());
                true
            },
            _ => false,
        }
    }

    /// Keys in the search box: Esc leaves it, Enter asks to play the selected
    /// result, Backspace and typing edit the query (the selection returns to
    /// the first row and the warning is refreshed), Up/Down move.
    pub fn handle_search_key(&mut self, k: KeyPress) -> (a: SearchAction)
        requires
            old(self).wf(),
        ensures
            final(self).wf(),
            k.key == Key::Esc ==> a == SearchAction::Nothing && final(self).mode
                == InputMode::Normal && final(self).search_input@.len() == 0
                && final(self).status@ == "Back to normal mode"@,
            k.key == Key::Enter ==> a == SearchAction::PlaySelected && *final(self) == *old(self),
            k.key == Key::Backspace ==> a == SearchAction::Nothing && final(self).search_input@
                == (if old(self).search_input@.len() > 0 {
                old(self).search_input@.drop_last()
            } else {
                old(self).search_input@
            }) && final(self).library_selected == 0 && opt_text_of(final(self).search_warning)
                == search_warning(final(self).search_input@),
            k.key == Key::Down ==> a == SearchAction::MoveSelection(1) && *final(self) == *old(self),
            k.key == Key::Up ==> a == SearchAction::MoveSelection(-1i64) && *final(self) == *old(self),
            (k.key matches Key::Char(c) && plain_text(k)) ==> a == SearchAction::Nothing && (
            k.key matches Key::Char(c) && final(self).search_input@ == old(self).search_input@.push(
                c,
            )) && final(self).library_selected == 0 && opt_text_of(final(self).search_warning)
                == search_warning(final(self).search_input@),
            (k.key matches Key::Char(_) && !plain_text(k)) ==> a == SearchAction::Nothing
                && *final(self) == *old(self),
            (k.key == Key::Left || k.key == Key::Right || k.key == Key::Tab || k.key == Key::BackTab
                || k.key == Key::Other) ==> a == SearchAction::Nothing && *final(self) == *old(self),
            final(self).mode != InputMode::Normal ==> final(self).mode == old(self).mode,
    {
        match k.key {
            Key::Esc => {
                self.exit_search_mode();
                self.status = owned("Back to normal mode");
                SearchAction::Nothing
            },
            Key::Enter => SearchAction::PlaySelected,
            Key::Backspace => {
                let _ = string_pop(&mut self.search_input);
                self.library_selected = 0;
                self.search_warning = search_warning_for_query(self.search_input.as_str());
                SearchAction::Nothing
            },
            Key::Down => SearchAction::MoveSelection(1),
            Key::Up => SearchAction::MoveSelection(-1i64),
            Key::Char(c) => {
                if !k.ctrl && !k.alt {
                    string_push(&mut self.search_input, c);
                    self.library_selected = 0;
                    self.search_warning = search_warning_for_query(self.search_input.as_str());
                }
                SearchAction::Nothing
            },
            _ => SearchAction::Nothing,
        }
    }

    /// Keys in the tag editor: Esc cancels, Tab / BackTab go to the next
    /// field, Backspace and typing edit the active field, and Enter asks to
    /// save the trimmed fields, refusing an empty title.
    pub fn handle_edit_tag_key(&mut self, k: KeyPress) -> (save: Option<TagSave>)
        requires
            old(self).wf(),
        ensures
            final(self).wf(),
            k.key == Key::Esc ==> save is None && final(self).mode == InputMode::Normal
                && final(self).edit_tag_track_id is None && final(self).status@
                == "Edit tags cancelled"@,
            (k.key == Key::Tab || k.key == Key::BackTab) ==> save is None && final(self).edit_tag_field == (old(self).edit_tag_field + 1) % 3 && final(self).edit_tag_inputs
                == old(self).edit_tag_inputs && final(self).mode == old(self).mode,
            k.key == Key::Enter ==> match old(self).edit_tag_track_id {
                None => save is None && *final(self) == *old(self),
                Some(id) => if trim(old(self).edit_tag_inputs@[0]@).len() == 0 {
                    &&& save is None
                    &&& final(self).status@ == "Save failed: title cannot be empty"@
                    &&& final(self).mode == old(self).mode
                    &&& final(self).edit_tag_inputs == old(self).edit_tag_inputs
                } else {
                    &&& save matches Some(s)
                    &&& s.track_id == id
                    &&& s.title@ == trim(old(self).edit_tag_inputs@[0]@)
                    &&& s.artist@ == trim(old(self).edit_tag_inputs@[1]@)
                    &&& s.album@ == trim(old(self).edit_tag_inputs@[2]@)
                    &&& *final(self) == *old(self)
                },
            },
            k.key == Key::Backspace ==> save is None && final(self).edit_tag_field == old(self).edit_tag_field && final(self).edit_tag_inputs@.len() == 3 && forall|i: int|
                0 <= i < 3 ==> (#[trigger] final(self).edit_tag_inputs@[i])@ == if i == old(self).edit_tag_field {
                    if old(self).edit_tag_inputs@[i]@.len() > 0 {
                        old(self).edit_tag_inputs@[i]@.drop_last()
                    } else {
                        old(self).edit_tag_inputs@[i]@
                    }
                } else {
                    old(self).edit_tag_inputs@[i]@
                },
            k.key matches Key::Char(c) ==> (plain_text(k) ==> save is None && final(self).edit_tag_field == old(self).edit_tag_field && forall|i: int|
                0 <= i < 3 ==> (#[trigger] final(self).edit_tag_inputs@[i])@ == if i == old(self).edit_tag_field {
                    old(self).edit_tag_inputs@[i]@.push(c)
                } else {
                    old(self).edit_tag_inputs@[i]@
                }),
            (k.key matches Key::Char(_) && !plain_text(k)) ==> save is None && *final(self) == *old(self),
            (k.key == Key::Up || k.key == Key::Down || k.key == Key::Left || k.key == Key::Right
                || k.key == Key::Other) ==> save is None && *final(self) == *old(self),
    {
        match k.key {
            Key::Esc => {
                self.exit_edit_tag_mode();
                self.status = owned("Edit tags cancelled");
                None
            },
            Key::Tab | Key::BackTab => {
                self.edit_tag_field = (self.edit_tag_field + 1) % 3;
                None
            },
            Key::Enter => {
                match self.edit_tag_track_id {
                    Some(track_id) => {
                        let title = crate::text::trim_text(self.edit_tag_inputs[0].as_str());
                        match validate_tag_edit_fields(title.as_str()) {
                            Err(msg) => {
                                self.status = concat("Save failed: ", msg);
                                proof {
                                    reveal_strlit("title cannot be empty");
                                    reveal_strlit("Save failed: ");
                                    reveal_strlit("Save failed: title cannot be empty");
                                    assert(self.status@ =~= "Save failed: title cannot be empty"@);
                                    crate::text::lemma_trim_empty_iff_blank(title@);
                                    lemma_trim_idempotent(old(self).edit_tag_inputs@[0]@);
                                }
                                None
                            },
                            Ok(()) => {
                                proof {
                                    crate::text::lemma_trim_empty_iff_blank(title@);
                                    lemma_trim_idempotent(old(self).edit_tag_inputs@[0]@);
                                }
                                let artist = crate::text::trim_text(self.edit_tag_inputs[1].as_str());
                                let album = crate::text::trim_text(self.edit_tag_inputs[2].as_str());
                                Some(TagSave { track_id, title, artist, album })
                            },
                        }
                    },
                    None => None,
                }
            },
            Key::Backspace => {
                let f = self.edit_tag_field;
                let mut s = self.edit_tag_inputs[f].clone();
                let _ = string_pop(&mut s);
                self.edit_tag_inputs.set(f, s);
                None
            },
            Key::Char(c) => {
                if !k.ctrl && !k.alt {
                    let f = self.edit_tag_field;
                    let mut s = self.edit_tag_inputs[f].clone();
                    string_push(&mut s, c);
                    self.edit_tag_inputs.set(f, s);
                }
                None
            },
            _ => None,
        }
    }

    /// Saving tags finished: on success the editor closes and the status
    /// names the track; on failure the editor stays open with the error.
    pub fn finish_tag_save(&mut self, track_id: i64, error: Option<String>)
        requires
            old(self).wf(),
        ensures
            final(self).wf(),
            error is None ==> final(self).mode == InputMode::Normal && final(self).edit_tag_track_id
                is None && final(self).status@ == "Tags saved for #"@ + crate::text::int_text(
                track_id as int,
            ),
            error matches Some(e) ==> final(self).mode == old(self).mode && final(self).edit_tag_inputs == old(self).edit_tag_inputs && final(self).status@ == "Save failed: "@
                + e@ + " (fix fields and retry)"@,
    {
        match error {
            None => {
                self.status = concat("Tags saved for #", crate::text::i64_text(track_id).as_str());
                self.exit_edit_tag_mode();
            },
            Some(e) => {
                let mut v = chars_of("Save failed: ");
                extend_chars(&mut v, e.as_str());
                extend_chars(&mut v, " (fix fields and retry)");
                self.status = string_of(&v);
            },
        }
    }

    /// Keys in the playlist modal. The modal's own state (going back, closing,
    /// typing a name, cancelling a rename, create or delete) is handled here;
    /// everything that needs the library is returned as an action.
    pub fn handle_playlist_modal_key(&mut self, k: KeyPress) -> (a: PlaylistModalAction)
        requires
            old(self).wf(),
        ensures
            final(self).wf(),
            old(self).playlist_modal_mode == PlaylistModalMode::CreatePlaylist ==> match k.key {
                Key::Esc => a == PlaylistModalAction::Nothing && *final(self) == (UiState {
                    playlist_modal_mode: PlaylistModalMode::BrowsePlaylists,
                    playlist_name_input: final(self).playlist_name_input,
                    status: final(self).status,
                    ..*old(self)
                }) && final(self).playlist_name_input@.len() == 0 && final(self).status@
                    == "Create playlist cancelled"@,
                Key::Enter => a matches PlaylistModalAction::SubmitCreate(n) && n@ == trim(
                    old(self).playlist_name_input@,
                ) && *final(self) == *old(self),
                _ => a == PlaylistModalAction::Nothing,
            },
            old(self).playlist_modal_mode == PlaylistModalMode::RenamePlaylist ==> match k.key {
                Key::Esc => a == PlaylistModalAction::Nothing && *final(self) == (UiState {
                    playlist_modal_mode: PlaylistModalMode::BrowsePlaylists,
                    playlist_name_input: final(self).playlist_name_input,
                    status: final(self).status,
                    ..*old(self)
                }) && final(self).playlist_name_input@.len() == 0 && final(self).status@
                    == "Rename cancelled"@,
                Key::Enter => a matches PlaylistModalAction::SubmitRename(n) && n@ == old(
                    self,
                ).playlist_name_input@ && *final(self) == *old(self),
                _ => a == PlaylistModalAction::Nothing,
            },
            old(self).playlist_modal_mode == PlaylistModalMode::ConfirmDeletePlaylist ==> match k.key {
                Key::Esc => a == PlaylistModalAction::Nothing && *final(self) == (UiState {
                    playlist_modal_mode: PlaylistModalMode::BrowsePlaylists,
                    status: final(self).status,
                    ..*old(self)
                }) && final(self).status@ == "Delete cancelled"@,
                Key::Enter | Key::Char('x') => a == PlaylistModalAction::ConfirmDelete
                    && *final(self) == *old(self),
                _ => a == PlaylistModalAction::Nothing && *final(self) == *old(self),
            },
            (old(self).playlist_modal_mode == PlaylistModalMode::CreatePlaylist
                || old(self).playlist_modal_mode == PlaylistModalMode::RenamePlaylist) ==> {
                &&& k.key == Key::Backspace ==> *final(self) == (UiState {
                    playlist_name_input: final(self).playlist_name_input,
                    ..*old(self)
                }) && final(self).playlist_name_input@ == (if old(self).playlist_name_input@.len()
                    > 0 {
                    old(self).playlist_name_input@.drop_last()
                } else {
                    old(self).playlist_name_input@
                })
                &&& (k.key matches Key::Char(c) && plain_text(k)) ==> (k.key matches Key::Char(c)
                    && *final(self) == (UiState {
                    playlist_name_input: final(self).playlist_name_input,
                    ..*old(self)
                }) && final(self).playlist_name_input@ == old(self).playlist_name_input@.push(c))
                &&& (k.key matches Key::Char(_) && !plain_text(k)) ==> *final(self) == *old(self)
                &&& (k.key != Key::Esc && k.key != Key::Enter && k.key != Key::Backspace && !(
                k.key is Char)) ==> *final(self) == *old(self)
            },
            closes_modal(old(self).playlist_modal_mode, k.key) ==> {
                &&& a == PlaylistModalAction::Nothing
                &&& final(self).mode == InputMode::Normal
                &&& !final(self).playlist_modal_visible
                &&& final(self).playlist_modal_mode == PlaylistModalMode::BrowsePlaylists
                &&& final(self).playlist_name_input@.len() == 0
                &&& final(self).playlist_item_selected == 0
                &&& final(self).playlist_selected == old(self).playlist_selected
                &&& final(self).playlist_add_track_id == old(self).playlist_add_track_id
                &&& final(self).status@ == "Closed playlist modal"@
            },
            !closes_modal(old(self).playlist_modal_mode, k.key) ==> final(self).mode == old(
                self,
            ).mode && final(self).playlist_modal_visible == old(self).playlist_modal_visible,
            old(self).playlist_modal_mode == PlaylistModalMode::BrowsePlaylists ==> match k.key {
                Key::Esc | Key::Char('l') => true,
                Key::Down => a == PlaylistModalAction::MoveSelection(1) && *final(self) == *old(self),
                Key::Up => a == PlaylistModalAction::MoveSelection(-1i64) && *final(self) == *old(
                    self,
                ),
                Key::Enter => a == PlaylistModalAction::BrowseEnter && *final(self) == *old(self),
                Key::Char('r') => a == PlaylistModalAction::StartRename && *final(self) == *old(self),
                Key::Char('x') => a == PlaylistModalAction::RequestDelete && *final(self) == *old(
                    self,
                ),
                _ => a == PlaylistModalAction::Nothing && *final(self) == *old(self),
            },
            old(self).playlist_modal_mode == PlaylistModalMode::BrowseItems ==> match k.key {
                Key::Esc => a == PlaylistModalAction::Nothing && *final(self) == (UiState {
                    playlist_modal_mode: PlaylistModalMode::BrowsePlaylists,
                    playlist_item_selected: 0,
                    status: final(self).status,
                    ..*old(self)
                }) && final(self).status@ == "Back to playlists"@,
                Key::Char('l') => true,
                Key::Down => a == PlaylistModalAction::MoveItemSelection(1) && *final(self) == *old(
                    self,
                ),
                Key::Up => a == PlaylistModalAction::MoveItemSelection(-1i64) && *final(self)
                    == *old(self),
                Key::Enter => a == PlaylistModalAction::PlayItem && *final(self) == *old(self),
                Key::Char('d') => a == PlaylistModalAction::RemoveItem && *final(self) == *old(self),
                _ => a == PlaylistModalAction::Nothing && *final(self) == *old(self),
            },
    {
        match self.playlist_modal_mode {
            PlaylistModalMode::CreatePlaylist | PlaylistModalMode::RenamePlaylist => {
                let creating = self.playlist_modal_mode == PlaylistModalMode::CreatePlaylist;
                match k.key {
                    Key::Esc => {
                        self.playlist_modal_mode = PlaylistModalMode::BrowsePlaylists;
                        self.playlist_name_input = String::new();
                        self.status = if creating {
                            owned("Create playlist cancelled")
                        } else {
                            owned("Rename cancelled")
                        };
                        PlaylistModalAction::Nothing
                    },
                    Key::Enter => {
                        if creating {
                            PlaylistModalAction::SubmitCreate(
                                crate::text::trim_text(self.playlist_name_input.as_str()),
                            )
                        } else {
                            PlaylistModalAction::SubmitRename(self.playlist_name_input.clone())
                        }
                    },
                    Key::Backspace => {
                        let _ = string_pop(&mut self.playlist_name_input);
                        PlaylistModalAction::Nothing
                    },
                    Key::Char(c) => {
                        if !k.ctrl && !k.alt {
                            string_push(&mut self.playlist_name_input, c);
                        }
                        PlaylistModalAction::Nothing
                    },
                    _ => PlaylistModalAction::Nothing,
                }
            },
            PlaylistModalMode::ConfirmDeletePlaylist => match k.key {
                Key::Esc => {
                    self.playlist_modal_mode = PlaylistModalMode::BrowsePlaylists;
                    self.status = owned("Delete cancelled");
                    PlaylistModalAction::Nothing
                },
                Key::Enter | Key::Char('x') => PlaylistModalAction::ConfirmDelete,
                _ => PlaylistModalAction::Nothing,
            },
            PlaylistModalMode::BrowsePlaylists => match k.key {
                Key::Esc => {
                    self.exit_playlist_modal();
                    self.status = owned("Closed playlist modal");
                    PlaylistModalAction::Nothing
                },
                Key::Char('l') => {
                    self.exit_playlist_modal();
                    self.status = owned("Closed playlist modal");
                    PlaylistModalAction::Nothing
                },
                Key::Down => PlaylistModalAction::MoveSelection(1),
                Key::Up => PlaylistModalAction::MoveSelection(-1i64),
                Key::Enter => PlaylistModalAction::BrowseEnter,
                Key::Char('r') => PlaylistModalAction::StartRename,
                Key::Char('x') => PlaylistModalAction::RequestDelete,
                _ => PlaylistModalAction::Nothing,
            },
            PlaylistModalMode::BrowseItems => match k.key {
                Key::Esc => {
                    self.playlist_modal_mode = PlaylistModalMode::BrowsePlaylists;
                    self.playlist_item_selected = 0;
                    self.status = owned("Back to playlists");
                    PlaylistModalAction::Nothing
                },
                Key::Char('l') => {
                    self.exit_playlist_modal();
                    self.status = owned("Closed playlist modal");
                    PlaylistModalAction::Nothing
                },
                Key::Down => PlaylistModalAction::MoveItemSelection(1),
                Key::Up => PlaylistModalAction::MoveItemSelection(-1i64),
                Key::Enter => PlaylistModalAction::PlayItem,
                Key::Char('d') => PlaylistModalAction::RemoveItem,
                _ => PlaylistModalAction::Nothing,
            },
        }
    }

    /// The status bar: the status and the mode's key hints; in search mode
    /// the query with a cursor, in the tag editor the active field.
    pub fn statusbar_text(&self) -> (s: String)
        requires
            self.wf(),
        ensures
            s@ == statusbar(*self),
    {
        let mut v: Vec<char> = chars_of(" ");
        match self.mode {
            InputMode::Normal => {
                extend_chars(&mut v, self.status.as_str());
                extend_chars(&mut v, " | ");
                extend_chars(&mut v, NORMAL_STATUS_HINT);
            },
            InputMode::Search => {
                extend_chars(&mut v, "/");
                extend_chars(&mut v, self.search_input.as_str());
                extend_chars(&mut v, "_ | ");
                extend_chars(&mut v, SEARCH_STATUS_HINT);
            },
            InputMode::PlaylistModal => {
                extend_chars(&mut v, self.status.as_str());
                extend_chars(&mut v, " | ");
                extend_chars(&mut v, PLAYLIST_STATUS_HINT);
            },
            InputMode::EditTag => {
                extend_chars(&mut v, "Edit [");
                extend_chars(&mut v, tag_field_name(self.edit_tag_field));
                extend_chars(&mut v, "]: ");
                extend_chars(&mut v, self.edit_tag_inputs[self.edit_tag_field].as_str());
                extend_chars(&mut v, "_ | ");
                extend_chars(&mut v, EDIT_TAG_STATUS_HINT);
            },
        }
        extend_chars(&mut v, " ");
        string_of(&v)
    }
}

proof fn lemma_trim_idempotent(s: Seq<char>)
    ensures
        crate::text::blank(trim(s)) == (trim(s).len() == 0),
{
    crate::text::lemma_trim_empty_iff_blank(trim(s));
    assert(crate::text::blank(trim(s)) ==> trim(s).len() == 0) by {
        if crate::text::blank(trim(s)) && trim(s).len() > 0 {
            lemma_trim_ends_non_ws(s);
        }
    }
}

proof fn lemma_trim_ends_non_ws(s: Seq<char>)
    requires
        trim(s).len() > 0,
    ensures
        !crate::text::is_ws(trim(s)[0]),
{
    lemma_trim_start_head(s);
    lemma_trim_end_prefix(crate::text::trim_start(s));
}

proof fn lemma_trim_start_head(s: Seq<char>)
    ensures
        crate::text::trim_start(s).len() > 0 ==> !crate::text::is_ws(crate::text::trim_start(s)[0]),
    decreases s.len(),
{
    if s.len() > 0 && crate::text::is_ws(s[0]) {
        lemma_trim_start_head(s.drop_first());
    }
}

proof fn lemma_trim_end_prefix(s: Seq<char>)
    ensures
        crate::text::trim_end(s).len() <= s.len(),
        forall|i: int| 0 <= i < crate::text::trim_end(s).len() ==> crate::text::trim_end(s)[i] == s[i],
    decreases s.len(),
{
    if s.len() > 0 && crate::text::is_ws(s.last()) {
        lemma_trim_end_prefix(s.drop_last());
        assert forall|i: int| 0 <= i < crate::text::trim_end(s).len() implies crate::text::trim_end(s)[i] == s[i] by {
            assert(s.drop_last()[i] == s[i]);
        }
    }
}

/// The name of the tag editor's field `i`.
pub open spec fn tag_field_label(i: int) -> Seq<char> {
    if i == 0 {
        "Title"@
    } else if i == 1 {
        "Artist"@
    } else {
        "Album"@
    }
}

fn tag_field_name(i: usize) -> (s: &'static str)
    ensures
        s@ == tag_field_label(i as int),
{
    if i == 0 {
        "Title"
    } else if i == 1 {
        "Artist"
    } else {
        "Album"
    }
}

/// The status bar text of a UI state.
pub open spec fn statusbar(u: UiState) -> Seq<char> {
    match u.mode {
        InputMode::Normal => " "@ + u.status@ + " | "@ + NORMAL_STATUS_HINT@ + " "@,
        InputMode::Search => " "@ + "/"@ + u.search_input@ + "_ | "@ + SEARCH_STATUS_HINT@ + " "@,
        InputMode::PlaylistModal => " "@ + u.status@ + " | "@ + PLAYLIST_STATUS_HINT@ + " "@,
        InputMode::EditTag => " "@ + "Edit ["@ + tag_field_label(u.edit_tag_field as int) + "]: "@
            + u.edit_tag_inputs@[u.edit_tag_field as int]@ + "_ | "@ + EDIT_TAG_STATUS_HINT@ + " "@,
    }
}

fn empty_tag_inputs() -> (v: Vec<String>)
    ensures
        v@.len() == 3,
        forall|i: int| 0 <= i < 3 ==> (#[trigger] v@[i])@.len() == 0,
{
    let mut v: Vec<String> = Vec::new();
    v.push(String::new());
    v.push(String::new());
    v.push(String::new());
    v
}

/// The text of an optional string.
pub open spec fn opt_text_of(o: Option<String>) -> Option<Seq<char>> {
    match o {
        Some(s) => Some(s@),
        None => None,
    }
}

/// Decimal rendering of a natural number.
pub open spec fn dec_nat(n: nat) -> Seq<char> {
    crate::text::dec(n)
}

// ---------------------------------------------------------------------------
// Search warnings and tag validation
// ---------------------------------------------------------------------------

/// The warning a single query token earns, if any: an unknown filter key, or
/// a favourite filter whose value is not `1`, `0`, `true`, `false`, `yes` or
/// `no` (ASCII case ignored).
pub open spec fn token_warning(tok: Seq<char>) -> Option<Seq<char>> {
    match first_index_of(tok, ':') {
        None => None,
        Some(i) => {
            let key = lower_seq(tok.take(i));
            let value = tok.skip(i + 1);
            let v = lower_seq(value);
            if trim(value).len() == 0 {
                None
            } else if key == "artist"@ || key == "album"@ {
                None
            } else if key == "fav"@ || key == "favorite"@ {
                if v == "1"@ || v == "0"@ || v == "true"@ || v == "false"@ || v == "yes"@ || v
                    == "no"@ {
                    None
                } else {
                    Some("Invalid favorite filter `"@ + tok + "`; using fallback search"@)
                }
            } else {
                Some("Unknown filter `"@ + key + "`; using fallback search"@)
            }
        },
    }
}

/// The warning for the first token of the list that earns one.
pub open spec fn tokens_warning(toks: Seq<Seq<char>>) -> Option<Seq<char>>
    decreases toks.len(),
{
    if toks.len() == 0 {
        None
    } else {
        match tokens_warning(toks.drop_last()) {
            Some(w) => Some(w),
            None => token_warning(toks.last()),
        }
    }
}

/// The warning shown for a search query.
pub open spec fn search_warning(raw: Seq<char>) -> Option<Seq<char>> {
    tokens_warning(words(raw))
}

fn token_warning_exec(tok: &String) -> (r: Option<String>)
    ensures
        opt_text_of(r) == token_warning(tok@),
{
    let v = chars_of(tok.as_str());
    let mut idx: usize = 0;
    let ghost fi = first_index_of(v@, ':');
    while idx < v.len() && v[idx] != ':'
        invariant
            idx <= v.len(),
            forall|j: int| 0 <= j < idx ==> v@[j] != ':',
        decreases v.len() - idx,
    {
        idx = idx + 1;
    }
    proof {
        lemma_first_index(v@, ':', idx as int);
    }
    if idx == v.len() {
        return None;
    }
    let mut key_chars: Vec<char> = Vec::new();
    let mut i: usize = 0;
    while i < idx
        invariant
            i <= idx < v.len(),
            key_chars@ == v@.take(i as int),
        decreases idx - i,
    {
        key_chars.push(v[i]);
        i = i + 1;
        assert(key_chars@ =~= v@.take(i as int));
    }
    let value_chars = crate::text::chars_from(&v, idx + 1);
    let value = string_of(&value_chars);
    if is_blank(value.as_str()) {
        return None;
    }
    let key = to_lower(string_of(&key_chars).as_str());
    let k = key.as_str();
    if text_eq(k, "artist") || text_eq(k, "album") {
        return None;
    }
    if text_eq(k, "fav") || text_eq(k, "favorite") {
        let lv = to_lower(value.as_str());
        let l = lv.as_str();
        if text_eq(l, "1") || text_eq(l, "0") || text_eq(l, "true") || text_eq(l, "false")
            || text_eq(l, "yes") || text_eq(l, "no") {
            return None;
        }
        let mut w = chars_of("Invalid favorite filter `");
        extend_chars(&mut w, tok.as_str());
        extend_chars(&mut w, "`; using fallback search");
        return Some(string_of(&w));
    }
    let mut w = chars_of("Unknown filter `");
    extend_chars(&mut w, k);
    extend_chars(&mut w, "`; using fallback search");
    Some(string_of(&w))
}

proof fn lemma_first_index(s: Seq<char>, c: char, i: int)
    requires
        0 <= i <= s.len(),
        forall|j: int| 0 <= j < i ==> s[j] != c,
        i < s.len() ==> s[i] == c,
    ensures
        i < s.len() ==> first_index_of(s, c) == Some(i),
        i == s.len() ==> first_index_of(s, c) is None,
    decreases i,
{
    if i > 0 {
        lemma_first_index(s.drop_first(), c, i - 1);
    }
}

/// The warning to show for a search query, if any: the first token that is
/// an unknown filter or an unreadable favourite filter.
pub fn search_warning_for_query(raw_query: &str) -> (r: Option<String>)
    ensures
        opt_text_of(r) == search_warning(raw_query@),
{
    let toks = split_words(raw_query);
    let ghost ws = words(raw_query@);
    let mut i: usize = 0;
    assert(ws.take(0) =~= Seq::<Seq<char>>::empty());
    while i < toks.len()
        invariant
            i <= toks.len(),
            ws == words(raw_query@),
            toks@.len() == ws.len(),
            forall|k: int| 0 <= k < toks@.len() ==> (#[trigger] toks@[k])@ == ws[k],
            tokens_warning(ws.take(i as int)) is None,
        decreases toks.len() - i,
    {
        assert(ws.take(i + 1).drop_last() =~= ws.take(i as int));
        let w = token_warning_exec(&toks[i]);
        if w.is_some() {
            proof {
                assert(ws.take(i + 1).last() == ws[i as int]);
                assert(toks@[i as int]@ == ws[i as int]);
                assert(tokens_warning(ws.take(i + 1)) == token_warning(ws[i as int]));
                lemma_tokens_warning_prefix(ws, i as int + 1);
            }
            return w;
        }
        i = i + 1;
    }
    assert(ws.take(toks.len() as int) =~= ws);
    None
}

proof fn lemma_tokens_warning_prefix(ws: Seq<Seq<char>>, i: int)
    requires
        0 <= i <= ws.len(),
        tokens_warning(ws.take(i)) is Some,
    ensures
        tokens_warning(ws) == tokens_warning(ws.take(i)),
    decreases ws.len() - i,
{
    if i < ws.len() {
        assert(ws.take(i + 1).drop_last() =~= ws.take(i));
        lemma_tokens_warning_prefix(ws, i + 1);
    } else {
        assert(ws.take(i) =~= ws);
    }
}

/// A tag edit needs a non-blank title.
pub fn validate_tag_edit_fields(title: &str) -> (r: Result<(), &'static str>)
    ensures
        r is Ok <==> !blank(title@),
        r matches Err(m) ==> m@ == "title cannot be empty"@,
{
    if is_blank(title) {
        return Err("title cannot be empty");
    }
    Ok(())
}


/// The skip and playback keys of normal mode: `n` skips to the next track and
/// `p` to the previous one, Space toggles play/pause and `q` quits, whatever
/// modifiers are held; these four keys do four different things.
pub proof fn law_normal_playback_keys(k: KeyPress)
    ensures
        k.key == Key::Char('n') ==> normal_action(k) == NormalAction::NextTrack,
        k.key == Key::Char('p') ==> normal_action(k) == NormalAction::PrevTrack,
        k.key == Key::Char(' ') ==> normal_action(k) == NormalAction::TogglePlayPause,
        k.key == Key::Char('q') ==> normal_action(k) == NormalAction::Quit,
        NormalAction::NextTrack != NormalAction::PrevTrack,
        NormalAction::NextTrack != NormalAction::TogglePlayPause,
        NormalAction::PrevTrack != NormalAction::TogglePlayPause,
{
}

/// Seeking in normal mode: Left goes back and Right goes forward by the same
/// step, which is 5 seconds, and twice that with Shift held; Up and Down
/// move the selection by one in opposite directions.
pub proof fn law_normal_seek_keys(shift: bool, ctrl: bool, alt: bool)
    ensures
        ({
            let left = normal_action(KeyPress { key: Key::Left, shift, ctrl, alt });
            let right = normal_action(KeyPress { key: Key::Right, shift, ctrl, alt });
            let step: i64 = if shift { 10 } else { 5 };
            &&& left matches NormalAction::Seek(d) && d == -step
            &&& right == NormalAction::Seek(step)
        }),
        normal_action(KeyPress { key: Key::Right, shift: true, ctrl, alt }) matches NormalAction::Seek(
            d2,
        ) && normal_action(KeyPress { key: Key::Right, shift: false, ctrl, alt }) matches NormalAction::Seek(d1)
            && d2 == 2 * d1 && d1 > 0,
        normal_action(KeyPress { key: Key::Up, shift: false, ctrl, alt }) == NormalAction::MoveSelection(-1i64),
        normal_action(KeyPress { key: Key::Down, shift: false, ctrl, alt }) == NormalAction::MoveSelection(1),
{
}

} // verus!
