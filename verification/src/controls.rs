//! How the UI answers once the library has acted on a key: status lines for
//! playback commands, and the steps of the playlist modal that follow a
//! database change (creating, adding, renaming, removing, deleting).

use vstd::prelude::*;
use crate::model::{repeat_label, RepeatMode};
use crate::playlists::{Playlist, PlaylistItem};
use crate::text::{chars_of, dec, extend_chars, int_text, owned, string_of, u64_text, i64_text};
use crate::ui::{FocusPanel, InputMode, PlaylistModalMode, UiState};
use crate::view::clamped;

verus! {

/// What a playback command did, for the status line.
#[derive(Debug, Clone, Copy, PartialEq, Eq, Structural)]
pub enum PlaybackFeedback {
    /// Play/pause: whether the output is now paused.
    PlayPause(bool),
    Next,
    Previous,
    /// Seeked by this many seconds.
    Seeked(i64),
    Repeat(RepeatMode),
    Shuffle(bool),
    /// The volume now, in percent.
    Volume(u8),
}

/// The status line for a playback command.
pub open spec fn feedback_text(fb: PlaybackFeedback) -> Seq<char> {
    match fb {
        PlaybackFeedback::PlayPause(paused) => if paused {
            "Paused"@
        } else {
            "Playing"@
        },
        PlaybackFeedback::Next => "Next track"@,
        PlaybackFeedback::Previous => "Previous track"@,
        PlaybackFeedback::Seeked(d) => if d > 0 {
            "Seek +"@ + int_text(d as int) + "s"@
        } else {
            "Seek "@ + int_text(d as int) + "s"@
        },
        PlaybackFeedback::Repeat(m) => "Repeat: "@ + repeat_label(m),
        PlaybackFeedback::Shuffle(on) => if on {
            "Shuffle: On"@
        } else {
            "Shuffle: Off"@
        },
        PlaybackFeedback::Volume(p) => "Volume: "@ + dec(p as nat) + "%"@,
    }
}

/// The name given to a new playlist when there are `count` already.
pub open spec fn default_playlist_name(count: nat) -> Seq<char> {
    "Playlist "@ + dec(count + 1)
}

/// The status after adding a track to a playlist: the result's text with
/// `(#playlist <- #track)`.
pub open spec fn added_text(text: Seq<char>, playlist_id: i64, track_id: i64) -> Seq<char> {
    text + " (#"@ + int_text(playlist_id as int) + " <- #"@ + int_text(track_id as int) + ")"@
}

/// The playlist with this id, if listed.
pub open spec fn find_playlist(playlists: Seq<Playlist>, id: i64) -> Option<Playlist>
    decreases playlists.len(),
{
    if playlists.len() == 0 {
        None
    } else if playlists[0].id == id {
        Some(playlists[0])
    } else {
        find_playlist(playlists.drop_first(), id)
    }
}

fn find_playlist_exec(playlists: &Vec<Playlist>, id: i64) -> (r: Option<usize>)
    ensures
        match r {
            Some(i) => i < playlists@.len() && find_playlist(playlists@, id) == Some(playlists@[i as int]),
            None => find_playlist(playlists@, id) is None,
        },
{
    let mut i: usize = 0;
    assert(playlists@.skip(0) =~= playlists@);
    while i < playlists.len()
        invariant
            i <= playlists.len(),
            find_playlist(playlists@, id) == find_playlist(playlists@.skip(i as int), id),
        decreases playlists.len() - i,
    {
        assert(playlists@.skip(i as int).drop_first() =~= playlists@.skip(i + 1));
        if playlists[i].id == id {
            return Some(i);
        }
        i = i + 1;
    }
    None
}

/// What the playlist modal asks of the library next.
#[derive(Debug, Clone, Copy, PartialEq, Eq, Structural)]
pub enum ModalRequest {
    /// Nothing more.
    Done,
    /// Add this track to this playlist, then call `finish_add_to_playlist`.
    AddTrack { playlist_id: i64, track_id: i64 },
}

impl UiState {
    /// Shows what a playback command did.
    pub fn playback_feedback(&mut self, fb: PlaybackFeedback)
        ensures
            final(self).status@ == feedback_text(fb),
            *final(self) == (UiState { status: final(self).status, ..*old(self) }),
    {
        self.status = match fb {
            PlaybackFeedback::PlayPause(paused) => if paused {
                owned("Paused")
            } else {
                owned("Playing")
            },
            PlaybackFeedback::Next => owned("Next track"),
            PlaybackFeedback::Previous => owned("Previous track"),
            PlaybackFeedback::Seeked(d) => {
                let mut v = if d > 0 {
                    chars_of("Seek +")
                } else {
                    chars_of("Seek ")
                };
                extend_chars(&mut v, i64_text(d).as_str());
                extend_chars(&mut v, "s");
                string_of(&v)
            },
            PlaybackFeedback::Repeat(m) => crate::text::concat("Repeat: ", m.label()),
            PlaybackFeedback::Shuffle(on) => if on {
                owned("Shuffle: On")
            } else {
                owned("Shuffle: Off")
            },
            PlaybackFeedback::Volume(p) => {
                let mut v = chars_of("Volume: ");
                extend_chars(&mut v, u64_text(p as u64).as_str());
                extend_chars(&mut v, "%");
                string_of(&v)
            },
        };
    }

    /// The selected track started playing.
    pub fn played_selected(&mut self, track_id: i64)
        ensures
            final(self).status@ == "Playing #"@ + int_text(track_id as int),
            *final(self) == (UiState { status: final(self).status, ..*old(self) }),
    {
        self.status = crate::text::concat("Playing #", i64_text(track_id).as_str());
    }

    /// Enter in the search box, once the selected result was asked to play:
    /// the search closes.
    pub fn finish_search_play(&mut self)
        requires
            old(self).wf(),
        ensures
            final(self).wf(),
            final(self).mode == InputMode::Normal,
            final(self).search_input@.len() == 0,
            final(self).search_warning is None,
            final(self).library_selected == 0,
            final(self).focus == old(self).focus,
            final(self).queue_selected == old(self).queue_selected,
            final(self).theme == old(self).theme,
            final(self).status@ == "Play from search results"@,
    {
        self.exit_search_mode();
        self.status = owned("Play from search results");
    }

    /// `s` opens the search box.
    pub fn open_search(&mut self)
        requires
            old(self).wf(),
        ensures
            final(self).wf(),
            final(self).mode == InputMode::Search,
            final(self).focus == FocusPanel::Library,
            final(self).search_input@.len() == 0,
            final(self).search_warning is None,
            final(self).library_selected == 0,
            final(self).queue_selected == old(self).queue_selected,
            final(self).status@ == "Search mode"@,
    {
        self.enter_search_mode();
        self.status = owned("Search mode");
    }

    /// `l` opens the playlist modal.
    pub fn open_playlists(&mut self)
        requires
            old(self).wf(),
        ensures
            final(self).wf(),
            final(self).mode == InputMode::PlaylistModal,
            final(self).playlist_modal_visible,
            final(self).playlist_modal_mode == PlaylistModalMode::BrowsePlaylists,
            final(self).playlist_name_input@.len() == 0,
            final(self).playlist_selected == 0,
            final(self).playlist_item_selected == 0,
            final(self).playlist_add_track_id == old(self).playlist_add_track_id,
            final(self).focus == old(self).focus,
            final(self).status@ == "Playlist modal"@,
    {
        self.enter_playlist_modal();
        self.status = owned("Playlist modal");
    }

    /// `r` asked for a rescan.
    pub fn rescan_feedback(&mut self, started: bool)
        ensures
            final(self).status@ == (if started {
                "Rescan started..."@
            } else {
                "Rescan already running"@
            }),
            *final(self) == (UiState { status: final(self).status, ..*old(self) }),
    {
        self.status = if started {
            owned("Rescan started...")
        } else {
            owned("Rescan already running")
        };
    }

    /// `f` toggled the favourite of a track.
    pub fn favorite_feedback(&mut self, track_id: i64)
        ensures
            final(self).status@ == "Favorite toggled #"@ + int_text(track_id as int),
            *final(self) == (UiState { status: final(self).status, ..*old(self) }),
    {
        self.status = crate::text::concat("Favorite toggled #", i64_text(track_id).as_str());
    }

    /// `a` asked to queue the selected track: it was appended (`added`), was
    /// queued already, or no track was selected.
    pub fn queued_feedback(&mut self, track_id: Option<i64>, added: bool)
        ensures
            track_id is None ==> final(self).status@ == "No track selected to add"@,
            track_id matches Some(id) ==> final(self).status@ == (if added {
                "Queued #"@
            } else {
                "Already queued #"@
            }) + int_text(id as int),
            *final(self) == (UiState { status: final(self).status, ..*old(self) }),
    {
        self.status = match track_id {
            None => owned("No track selected to add"),
            Some(id) => crate::text::concat(
                if added {
                    "Queued #"
                } else {
                    "Already queued #"
                },
                i64_text(id).as_str(),
            ),
        };
    }

    /// `x` on the queue removed an entry (or found the queue empty).
    pub fn queue_removed_feedback(&mut self, removed: Option<i64>)
        ensures
            removed matches Some(id) ==> final(self).status@ == "Removed #"@ + int_text(id as int)
                + " from queue"@,
            removed is None ==> final(self).status@ == "Queue is empty"@,
            *final(self) == (UiState { status: final(self).status, ..*old(self) }),
    {
        self.status = match removed {
            Some(id) => {
                let mut v = chars_of("Removed #");
                extend_chars(&mut v, i64_text(id).as_str());
                extend_chars(&mut v, " from queue");
                string_of(&v)
            },
            None => owned("Queue is empty"),
        };
    }

    /// Shift+Up / Shift+Down moved a queue entry to position `moved_to`: the
    /// selection follows it. Nothing changes when it could not move.
    pub fn queue_moved_feedback(&mut self, moved_to: Option<usize>)
        ensures
            moved_to matches Some(j) ==> *final(self) == (UiState {
                queue_selected: j,
                status: final(self).status,
                ..*old(self)
            }) && final(self).status@ == "Queue position "@ + dec((j + 1) as nat),
            moved_to is None ==> *final(self) == *old(self),
    {
        if let Some(j) = moved_to {
            self.queue_selected = j;
            let n: u128 = (j as u128) + 1;
            self.status = crate::text::concat(
                "Queue position ",
                crate::scanner::u128_text(n).as_str(),
            );
        }
    }

    /// `a` adds a track to a playlist: the selected one, else the playing one.
    /// With a track, the modal opens to pick the playlist.
    pub fn start_quick_add(&mut self, selected: Option<i64>, playing: Option<i64>, label: &str)
        requires
            old(self).wf(),
        ensures
            final(self).wf(),
            (selected is None && playing is None) ==> final(self).status@
                == "No track selected to add"@ && final(self).mode == old(self).mode,
            (selected is Some || playing is Some) ==> {
                &&& final(self).mode == InputMode::PlaylistModal
                &&& final(self).playlist_modal_visible
                &&& final(self).playlist_modal_mode == PlaylistModalMode::BrowsePlaylists
                &&& final(self).playlist_add_track_id == (match selected {
                    Some(t) => Some(t),
                    None => playing,
                })
                &&& final(self).status@ == "Select playlist for "@ + label@
            },
    {
        let track = match selected {
            Some(t) => Some(t),
            None => playing,
        };
        match track {
            None => {
                self.status = owned("No track selected to add");
            },
            Some(t) => {
                self.enter_playlist_modal();
                self.playlist_add_track_id = Some(t);
                self.status = crate::text::concat("Select playlist for ", label);
            },
        }
    }

    /// `t` opens the tag editor on a track with its current tags.
    pub fn start_tag_edit(&mut self, track_id: i64, title: &str, artist: &str, album: &str)
        requires
            old(self).wf(),
        ensures
            final(self).wf(),
            final(self).mode == InputMode::EditTag,
            final(self).edit_tag_track_id == Some(track_id),
            final(self).edit_tag_inputs@[0]@ == title@,
            final(self).edit_tag_inputs@[1]@ == artist@,
            final(self).edit_tag_inputs@[2]@ == album@,
            final(self).edit_tag_field == 0,
            final(self).status@
                == "Edit metadata - Tab: next field, Enter: save (artist/title rename filename), Esc: cancel"@,
    {
        self.enter_edit_tag_mode(track_id, title, artist, album);
        self.status = owned(
            "Edit metadata - Tab: next field, Enter: save (artist/title rename filename), Esc: cancel",
        );
    }

    /// Names a new playlist: the default name is offered in the create mode.
    fn ask_new_playlist_name(&mut self, playlist_count: usize)
        requires
            old(self).wf(),
            playlist_count < usize::MAX,
        ensures
            final(self).wf(),
            final(self).playlist_name_input@ == default_playlist_name(playlist_count as nat),
            final(self).playlist_modal_mode == PlaylistModalMode::CreatePlaylist,
            final(self).status@ == "Name the new playlist"@,
            *final(self) == (UiState {
                playlist_name_input: final(self).playlist_name_input,
                playlist_modal_mode: PlaylistModalMode::CreatePlaylist,
                status: final(self).status,
                ..*old(self)
            }),
    {
        let mut v = chars_of("Playlist ");
        let n: u64 = (playlist_count as u64) + 1;
        extend_chars(&mut v, u64_text(n).as_str());
        self.playlist_name_input = string_of(&v);
        self.playlist_modal_mode = PlaylistModalMode::CreatePlaylist;
        self.status = owned("Name the new playlist");
    }

    /// Enter on the playlist list, given the selected playlist (if any) and
    /// how many playlists there are. When a track waits to be added, it goes
    /// to the selected playlist; otherwise the playlist opens. Without a
    /// playlist a new one is named first.
    pub fn browse_enter(&mut self, selected: Option<i64>, playlist_count: usize) -> (req: ModalRequest)
        requires
            old(self).wf(),
            playlist_count < usize::MAX,
        ensures
            final(self).wf(),
            match (old(self).playlist_add_track_id, selected) {
                (Some(t), Some(p)) => req == ModalRequest::AddTrack { playlist_id: p, track_id: t }
                    && *final(self) == *old(self),
                (None, Some(p)) => req == ModalRequest::Done && *final(self) == (UiState {
                    playlist_modal_mode: PlaylistModalMode::BrowseItems,
                    playlist_item_selected: 0,
                    status: final(self).status,
                    ..*old(self)
                }) && final(self).status@ == "Opened playlist #"@ + int_text(p as int),
                (_, None) => req == ModalRequest::Done && *final(self) == (UiState {
                    playlist_name_input: final(self).playlist_name_input,
                    playlist_modal_mode: PlaylistModalMode::CreatePlaylist,
                    status: final(self).status,
                    ..*old(self)
                }) && final(self).playlist_name_input@ == default_playlist_name(
                    playlist_count as nat,
                ) && final(self).status@ == "Name the new playlist"@,
            },
    {
        match selected {
            None => {
                self.ask_new_playlist_name(playlist_count);
                ModalRequest::Done
            },
            Some(p) => match self.playlist_add_track_id {
                Some(t) => ModalRequest::AddTrack { playlist_id: p, track_id: t },
                None => {
                    self.playlist_modal_mode = PlaylistModalMode::BrowseItems;
                    self.playlist_item_selected = 0;
                    self.status = crate::text::concat("Opened playlist #", i64_text(p).as_str());
                    ModalRequest::Done
                },
            },
        }
    }

    /// A track was added to a playlist from the picker: the status reports
    /// it and the modal closes.
    pub fn finish_add_to_playlist(&mut self, text: &str, playlist_id: i64, track_id: i64)
        requires
            old(self).wf(),
        ensures
            final(self).wf(),
            final(self).status@ == added_text(text@, playlist_id, track_id),
            final(self).mode == InputMode::Normal,
            !final(self).playlist_modal_visible,
            final(self).playlist_name_input@.len() == 0,
            *final(self) == (UiState {
                mode: InputMode::Normal,
                playlist_modal_visible: false,
                playlist_modal_mode: PlaylistModalMode::BrowsePlaylists,
                playlist_name_input: final(self).playlist_name_input,
                playlist_item_selected: 0,
                status: final(self).status,
                ..*old(self)
            }),
    {
        let mut v = chars_of(text);
        extend_chars(&mut v, " (#");
        extend_chars(&mut v, i64_text(playlist_id).as_str());
        extend_chars(&mut v, " <- #");
        extend_chars(&mut v, i64_text(track_id).as_str());
        extend_chars(&mut v, ")");
        self.status = string_of(&v);
        self.exit_playlist_modal();
    }

    /// A create request was answered with `code`/`text`, and the playlists
    /// (ids in list order) were read again. On success the new (last)
    /// playlist is selected and returned.
    pub fn playlist_created(&mut self, code: &str, text: &str, playlist_ids: &Vec<i64>) -> (created:
        Option<i64>)
        requires
            old(self).wf(),
        ensures
            final(self).wf(),
            code@ != "playlist.created"@ ==> created is None && final(self).status@ == text@,
            code@ == "playlist.created"@ && playlist_ids@.len() == 0 ==> created is None
                && final(self).status@ == "Create playlist failed"@,
            code@ == "playlist.created"@ && playlist_ids@.len() > 0 ==> created == Some(
                playlist_ids@.last(),
            ) && final(self).playlist_selected == playlist_ids@.len() - 1 && final(self).status@
                == text@,
            *final(self) == (UiState {
                playlist_selected: final(self).playlist_selected,
                status: final(self).status,
                ..*old(self)
            }),
            !(code@ == "playlist.created"@ && playlist_ids@.len() > 0) ==> final(self).playlist_selected
                == old(self).playlist_selected,
    {
        self.status = owned(text);
        if !crate::text::text_eq(code, "playlist.created") {
            return None;
        }
        if playlist_ids.len() == 0 {
            self.status = owned("Create playlist failed");
            return None;
        }
        self.playlist_selected = playlist_ids.len() - 1;
        Some(playlist_ids[playlist_ids.len() - 1])
    }

    /// After a playlist was created from the name prompt: a waiting track is
    /// added to it; otherwise the new playlist opens.
    pub fn after_playlist_created(&mut self, playlist_id: i64) -> (req: ModalRequest)
        requires
            old(self).wf(),
        ensures
            final(self).wf(),
            match old(self).playlist_add_track_id {
                Some(t) => req == ModalRequest::AddTrack { playlist_id, track_id: t } && *final(self)
                    == *old(self),
                None => req == ModalRequest::Done && *final(self) == (UiState {
                    playlist_modal_mode: PlaylistModalMode::BrowseItems,
                    playlist_item_selected: 0,
                    playlist_name_input: final(self).playlist_name_input,
                    ..*old(self)
                }) && final(self).playlist_name_input@.len() == 0,
            },
    {
        match self.playlist_add_track_id {
            Some(t) => ModalRequest::AddTrack { playlist_id, track_id: t },
            None => {
                self.playlist_modal_mode = PlaylistModalMode::BrowseItems;
                self.playlist_item_selected = 0;
                self.playlist_name_input = String::new();
                ModalRequest::Done
            },
        }
    }

    /// Enter in the rename prompt: the playlist to rename, or none (then the
    /// prompt closes with a note).
    pub fn rename_target(&mut self, selected: Option<i64>) -> (r: Option<i64>)
        requires
            old(self).wf(),
        ensures
            final(self).wf(),
            r == selected,
            selected is None ==> final(self).status@ == "No playlist selected"@ && *final(self) == (
            UiState {
                playlist_modal_mode: PlaylistModalMode::BrowsePlaylists,
                playlist_name_input: final(self).playlist_name_input,
                status: final(self).status,
                ..*old(self)
            }) && final(self).playlist_name_input@.len() == 0,
            selected is Some ==> *final(self) == *old(self),
    {
        if selected.is_none() {
            self.status = owned("No playlist selected");
            self.playlist_modal_mode = PlaylistModalMode::BrowsePlaylists;
            self.playlist_name_input = String::new();
        }
        selected
    }

    /// A rename was answered: its text is shown and the prompt closes.
    pub fn after_rename(&mut self, text: &str)
        requires
            old(self).wf(),
        ensures
            final(self).wf(),
            final(self).status@ == text@,
            final(self).playlist_name_input@.len() == 0,
            *final(self) == (UiState {
                playlist_modal_mode: PlaylistModalMode::BrowsePlaylists,
                playlist_name_input: final(self).playlist_name_input,
                status: final(self).status,
                ..*old(self)
            }),
    {
        self.status = owned(text);
        self.playlist_modal_mode = PlaylistModalMode::BrowsePlaylists;
        self.playlist_name_input = String::new();
    }

    /// `r` on the playlist list: the rename prompt opens with the current
    /// name of the selected playlist.
    pub fn start_rename(&mut self, selected: Option<i64>, playlists: &Vec<Playlist>)
        requires
            old(self).wf(),
        ensures
            final(self).wf(),
            selected is None ==> final(self).status@ == "Select a playlist to rename"@
                && *final(self) == (UiState { status: final(self).status, ..*old(self) }),
            selected matches Some(id) ==> match find_playlist(playlists@, id) {
                Some(p) => final(self).playlist_name_input@ == p.name@ && *final(self) == (UiState {
                    playlist_name_input: final(self).playlist_name_input,
                    playlist_modal_mode: PlaylistModalMode::RenamePlaylist,
                    status: final(self).status,
                    ..*old(self)
                }) && final(self).status@ == "Rename playlist #"@ + int_text(id as int),
                None => *final(self) == *old(self),
            },
    {
        match selected {
            None => {
                self.status = owned("Select a playlist to rename");
            },
            Some(id) => match find_playlist_exec(playlists, id) {
                Some(i) => {
                    self.playlist_name_input = owned(playlists[i].name.as_str());
                    self.playlist_modal_mode = PlaylistModalMode::RenamePlaylist;
                    self.status = crate::text::concat("Rename playlist #", i64_text(id).as_str());
                },
                None => {},
            },
        }
    }

    /// `x` on the playlist list (not while picking a playlist for a track):
    /// asks to confirm deleting the selected playlist.
    pub fn request_delete(&mut self, selected: Option<i64>, playlists: &Vec<Playlist>)
        requires
            old(self).wf(),
        ensures
            final(self).wf(),
            old(self).playlist_add_track_id is Some ==> *final(self) == *old(self),
            old(self).playlist_add_track_id is None ==> match selected {
                None => final(self).status@ == "Select a playlist to delete"@ && *final(self) == (
                UiState { status: final(self).status, ..*old(self) }),
                Some(id) => *final(self) == (UiState {
                    playlist_modal_mode: PlaylistModalMode::ConfirmDeletePlaylist,
                    status: final(self).status,
                    ..*old(self)
                }) && final(self).status@ == "Delete playlist "@ + match find_playlist(playlists@, id) {
                    Some(p) => p.name@,
                    None => seq!['#'] + int_text(id as int),
                } + "?"@,
            },
    {
        if self.playlist_add_track_id.is_some() {
            return;
        }
        match selected {
            None => {
                self.status = owned("Select a playlist to delete");
            },
            Some(id) => {
                let mut v = chars_of("Delete playlist ");
                match find_playlist_exec(playlists, id) {
                    Some(i) => extend_chars(&mut v, playlists[i].name.as_str()),
                    None => {
                        v.push('#');
                        extend_chars(&mut v, i64_text(id).as_str());
                    },
                }
                extend_chars(&mut v, "?");
                self.playlist_modal_mode = PlaylistModalMode::ConfirmDeletePlaylist;
                self.status = string_of(&v);
            },
        }
    }

    /// Confirming the delete: the playlist to delete, or none (then the
    /// confirmation closes with a note).
    pub fn delete_target(&mut self, selected: Option<i64>) -> (r: Option<i64>)
        requires
            old(self).wf(),
        ensures
            final(self).wf(),
            r == selected,
            selected is None ==> final(self).status@ == "Select a playlist to delete"@ && *final(self)
                == (UiState {
                playlist_modal_mode: PlaylistModalMode::BrowsePlaylists,
                status: final(self).status,
                ..*old(self)
            }),
            selected is Some ==> *final(self) == *old(self),
    {
        if selected.is_none() {
            self.status = owned("Select a playlist to delete");
            self.playlist_modal_mode = PlaylistModalMode::BrowsePlaylists;
        }
        selected
    }

    /// A delete was answered: its text is shown, the selection stays within
    /// the remaining playlists (or on the row after them) and the list is
    /// shown again.
    pub fn after_delete(&mut self, text: &str, playlists_len: usize)
        requires
            old(self).wf(),
        ensures
            final(self).wf(),
            final(self).status@ == text@,
            final(self).playlist_selected == (if old(self).playlist_selected < playlists_len {
                old(self).playlist_selected
            } else {
                playlists_len
            }),
            *final(self) == (UiState {
                playlist_selected: final(self).playlist_selected,
                playlist_item_selected: 0,
                playlist_modal_mode: PlaylistModalMode::BrowsePlaylists,
                status: final(self).status,
                ..*old(self)
            }),
    {
        self.status = owned(text);
        if self.playlist_selected > playlists_len {
            self.playlist_selected = playlists_len;
        }
        self.playlist_item_selected = 0;
        self.playlist_modal_mode = PlaylistModalMode::BrowsePlaylists;
    }

    /// `d` on an item: the item to remove (playlist id and order index of the
    /// selected item, the selection clamped), or a note when there is no
    /// playlist or it is empty.
    pub fn item_to_remove(&mut self, selected: Option<i64>, items: &Vec<PlaylistItem>) -> (r: Option<
        (i64, i64),
    >)
        requires
            old(self).wf(),
        ensures
            final(self).wf(),
            selected is None ==> r is None && final(self).status@ == "No playlist selected"@,
            selected is Some && items@.len() == 0 ==> r is None && final(self).status@
                == "Playlist is empty"@,
            *final(self) == (UiState { status: final(self).status, ..*old(self) }),
            selected matches Some(p) ==> (items@.len() > 0 ==> r == Some(
                (
                    p,
                    items@[clamped(
                        old(self).playlist_item_selected as int,
                        items@.len() as int,
                    )].order_index,
                ),
            ) && *final(self) == *old(self)),
    {
        match selected {
            None => {
                self.status = owned("No playlist selected");
                None
            },
            Some(p) => {
                if items.len() == 0 {
                    self.status = owned("Playlist is empty");
                    return None;
                }
                let idx = crate::view::clamp_selection(self.playlist_item_selected, items.len());
                Some((p, items[idx].order_index))
            },
        }
    }

    /// An item removal was answered: its text is shown and the selection
    /// stays within the `remaining` items.
    pub fn after_item_removed(&mut self, text: &str, remaining: usize)
        requires
            old(self).wf(),
        ensures
            final(self).wf(),
            final(self).status@ == text@,
            final(self).playlist_item_selected == clamped(
                old(self).playlist_item_selected as int,
                remaining as int,
            ),
            *final(self) == (UiState {
                playlist_item_selected: final(self).playlist_item_selected,
                status: final(self).status,
                ..*old(self)
            }),
    {
        self.status = owned(text);
        self.playlist_item_selected = crate::view::clamp_selection(
            self.playlist_item_selected,
            remaining,
        );
    }

    /// Enter on an item: the playlist and position to play from, or a note
    /// when no playlist is selected.
    pub fn item_to_play(&mut self, selected: Option<i64>) -> (r: Option<(i64, usize)>)
        requires
            old(self).wf(),
        ensures
            final(self).wf(),
            selected is None ==> r is None && final(self).status@ == "No playlist selected"@,
            selected matches Some(p) ==> r == Some((p, old(self).playlist_item_selected))
                && *final(self) == *old(self),
            *final(self) == (UiState { status: final(self).status, ..*old(self) }),
    {
        match selected {
            None => {
                self.status = owned("No playlist selected");
                None
            },
            Some(p) => Some((p, self.playlist_item_selected)),
        }
    }
}

} // verus!
