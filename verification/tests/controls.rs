use melors::controls::{ModalRequest, PlaybackFeedback};
use melors::model::RepeatMode;
use melors::playlists::{Playlist, PlaylistItem};
use melors::ui::{InputMode, PlaylistModalMode, UiState};

fn playlists() -> Vec<Playlist> {
    vec![
        Playlist { id: 4, name: String::from("Focus"), created_at: String::new() },
        Playlist { id: 9, name: String::from("Chill"), created_at: String::new() },
    ]
}

fn item(order_index: i64) -> PlaylistItem {
    PlaylistItem { track_id: Some(1), original_path: None, is_missing: false, order_index }
}

#[test]
fn playback_feedback_texts() {
    let mut s = UiState::new();
    let cases = [
        (PlaybackFeedback::PlayPause(true), "Paused"),
        (PlaybackFeedback::PlayPause(false), "Playing"),
        (PlaybackFeedback::Next, "Next track"),
        (PlaybackFeedback::Previous, "Previous track"),
        (PlaybackFeedback::Seeked(10), "Seek +10s"),
        (PlaybackFeedback::Seeked(-5), "Seek -5s"),
        (PlaybackFeedback::Repeat(RepeatMode::RepeatAll), "Repeat: All"),
        (PlaybackFeedback::Shuffle(false), "Shuffle: Off"),
        (PlaybackFeedback::Volume(55), "Volume: 55%"),
    ];
    for (fb, text) in cases {
        s.playback_feedback(fb);
        assert_eq!(s.status, text);
    }
    s.played_selected(3);
    assert_eq!(s.status, "Playing #3");
    s.rescan_feedback(false);
    assert_eq!(s.status, "Rescan already running");
    s.favorite_feedback(8);
    assert_eq!(s.status, "Favorite toggled #8");
}

#[test]
fn quick_add_opens_the_picker() {
    let mut s = UiState::new();
    s.start_quick_add(None, None, "");
    assert_eq!(s.status, "No track selected to add");
    assert_eq!(s.mode, InputMode::Normal);
    s.start_quick_add(None, Some(5), "Band - Song");
    assert_eq!(s.mode, InputMode::PlaylistModal);
    assert_eq!(s.playlist_add_track_id, Some(5));
    assert_eq!(s.status, "Select playlist for Band - Song");
    assert_eq!(s.browse_enter(Some(4), 2), ModalRequest::AddTrack { playlist_id: 4, track_id: 5 });
    s.finish_add_to_playlist("Track added to playlist", 4, 5);
    assert_eq!(s.status, "Track added to playlist (#4 <- #5)");
    assert_eq!(s.mode, InputMode::Normal);
}

#[test]
fn browse_enter_opens_or_names_a_playlist() {
    let mut s = UiState::new();
    s.open_playlists();
    assert_eq!(s.status, "Playlist modal");
    assert_eq!(s.browse_enter(Some(9), 2), ModalRequest::Done);
    assert_eq!(s.playlist_modal_mode, PlaylistModalMode::BrowseItems);
    assert_eq!(s.status, "Opened playlist #9");
    s.playlist_modal_mode = PlaylistModalMode::BrowsePlaylists;
    s.browse_enter(None, 2);
    assert_eq!(s.playlist_modal_mode, PlaylistModalMode::CreatePlaylist);
    assert_eq!(s.playlist_name_input, "Playlist 3");
    assert_eq!(s.status, "Name the new playlist");
}

#[test]
fn creating_a_playlist_selects_it() {
    let mut s = UiState::new();
    s.enter_playlist_modal();
    assert_eq!(s.playlist_created("playlist.validation_error", "name taken", &vec![1]), None);
    assert_eq!(s.status, "name taken");
    assert_eq!(s.playlist_created("playlist.created", "Playlist created: X", &vec![]), None);
    assert_eq!(s.status, "Create playlist failed");
    assert_eq!(s.playlist_created("playlist.created", "Playlist created: X", &vec![1, 6]), Some(6));
    assert_eq!(s.playlist_selected, 1);
    assert_eq!(s.after_playlist_created(6), ModalRequest::Done);
    assert_eq!(s.playlist_modal_mode, PlaylistModalMode::BrowseItems);
}

#[test]
fn rename_and_delete_steps() {
    let mut s = UiState::new();
    s.enter_playlist_modal();
    s.start_rename(None, &playlists());
    assert_eq!(s.status, "Select a playlist to rename");
    s.start_rename(Some(9), &playlists());
    assert_eq!(s.playlist_modal_mode, PlaylistModalMode::RenamePlaylist);
    assert_eq!(s.playlist_name_input, "Chill");
    assert_eq!(s.status, "Rename playlist #9");
    assert_eq!(s.rename_target(None), None);
    assert_eq!(s.status, "No playlist selected");
    assert_eq!(s.playlist_modal_mode, PlaylistModalMode::BrowsePlaylists);
    s.after_rename("Playlist renamed: Calm");
    assert_eq!(s.status, "Playlist renamed: Calm");
    s.request_delete(Some(4), &playlists());
    assert_eq!(s.playlist_modal_mode, PlaylistModalMode::ConfirmDeletePlaylist);
    assert_eq!(s.status, "Delete playlist Focus?");
    s.request_delete(Some(77), &playlists());
    assert_eq!(s.status, "Delete playlist #77?");
    assert_eq!(s.delete_target(Some(4)), Some(4));
    s.playlist_selected = 5;
    s.after_delete("Playlist deleted", 1);
    assert_eq!(s.playlist_selected, 1);
    assert_eq!(s.playlist_modal_mode, PlaylistModalMode::BrowsePlaylists);
}

#[test]
fn removing_and_playing_items() {
    let mut s = UiState::new();
    s.enter_playlist_modal();
    assert_eq!(s.item_to_remove(None, &vec![item(0)]), None);
    assert_eq!(s.status, "No playlist selected");
    assert_eq!(s.item_to_remove(Some(4), &vec![]), None);
    assert_eq!(s.status, "Playlist is empty");
    s.playlist_item_selected = 8;
    assert_eq!(s.item_to_remove(Some(4), &vec![item(0), item(1)]), Some((4, 1)));
    s.after_item_removed("Track removed from playlist", 1);
    assert_eq!(s.playlist_item_selected, 0);
    assert_eq!(s.item_to_play(Some(4)), Some((4, 0)));
    assert_eq!(s.item_to_play(None), None);
}

#[test]
fn search_and_tag_edit_entry_points() {
    let mut s = UiState::new();
    s.open_search();
    assert_eq!(s.mode, InputMode::Search);
    assert_eq!(s.status, "Search mode");
    s.exit_search_mode();
    s.start_tag_edit(3, "T", "A", "B");
    assert_eq!(s.mode, InputMode::EditTag);
    assert_eq!(s.edit_tag_inputs, vec!["T", "A", "B"]);
}

#[test]
fn queue_edit_feedback() {
    let mut s = UiState::new();
    s.queue_removed_feedback(Some(12));
    assert_eq!(s.status, "Removed #12 from queue");
    s.queue_removed_feedback(None);
    assert_eq!(s.status, "Queue is empty");
    s.queue_moved_feedback(Some(2));
    assert_eq!(s.queue_selected, 2);
    assert_eq!(s.status, "Queue position 3");
    s.queue_moved_feedback(None);
    assert_eq!(s.queue_selected, 2);
    assert_eq!(s.status, "Queue position 3");
}

#[test]
fn queued_feedback_texts() {
    let mut s = UiState::new();
    s.queued_feedback(Some(4), true);
    assert_eq!(s.status, "Queued #4");
    s.queued_feedback(Some(4), false);
    assert_eq!(s.status, "Already queued #4");
    s.queued_feedback(None, false);
    assert_eq!(s.status, "No track selected to add");
}
