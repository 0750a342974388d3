use melors::model::{PlaybackState, RepeatMode, Track};
use melors::playlists::{Playlist, PlaylistItem};
use melors::ui::{FocusPanel, InputMode, PlaylistModalMode, UiState};
use melors::view::{
    big_clock_lines, centered_text, clamp_selection, creeper_rows, current_track_label,
    fit_modal_text, fixed_width_text, fmt_duration, header_text, i64_text_padded,
    library_listing, library_title_text, matrix_rows, next_up_line, playback_flags_line,
    progress_label, queue_listing, remaining_line, sample_rows, selected_id, tab_index,
    track_label_by_id, volume_line, CreeperCell, MatrixCell, ModalAccent,
};

fn track(id: i64, title: &str, artist: Option<&str>, album: Option<&str>) -> Track {
    Track {
        id,
        path: format!("/m/{id}.mp3"),
        mtime: 0,
        title: title.to_string(),
        artist: artist.map(String::from),
        album: album.map(String::from),
        duration_secs: Some(200),
        favorite: false,
        play_count: 0,
    }
}

fn library() -> Vec<Track> {
    let mut a = track(7, "Song", Some("Band"), Some("LP"));
    a.favorite = true;
    vec![a, track(12, "Other", None, None)]
}

#[test]
fn durations_and_padding() {
    assert_eq!(fmt_duration(0), "00:00");
    assert_eq!(fmt_duration(75), "01:15");
    assert_eq!(fmt_duration(6001), "100:01");
    assert_eq!(fmt_duration(-5), "00:00");
    assert_eq!(i64_text_padded(7, 4), "0007");
    assert_eq!(i64_text_padded(-5, 4), "-005");
    assert_eq!(i64_text_padded(123456, 4), "123456");
    assert_eq!(progress_label(65, 200), "01:05 / 03:20");
    assert_eq!(remaining_line(200, 65), "Remaining: 02:15");
    assert_eq!(remaining_line(10, 65), "Remaining: 00:00");
}

#[test]
fn cells_are_cut_or_padded() {
    assert_eq!(fixed_width_text("abcdef", 3), "abc");
    assert_eq!(fixed_width_text("ab", 4), "ab  ");
    assert_eq!(fixed_width_text("ab", 0), "");
    assert_eq!(fit_modal_text("abcdef", 5), "abc..");
    assert_eq!(fit_modal_text("abcdef", 2), "ab");
    assert_eq!(fit_modal_text("abc", 5), "abc");
    assert_eq!(fit_modal_text("abc", 0), "");
    assert_eq!(centered_text(10, "ab"), "   ab");
    assert_eq!(centered_text(3, "abcd"), "abcd");
}

#[test]
fn track_lines() {
    let lib = library();
    assert_eq!(track_label_by_id(&lib, 12), "Unknown Artist - Other");
    assert_eq!(track_label_by_id(&lib, 99), "#99");
    assert_eq!(current_track_label(&lib, Some(7)), "Band - Song");
    assert_eq!(current_track_label(&lib, None), "Track: (none)");
    let state = PlaybackState {
        current_track_id: Some(7),
        position_secs: 0,
        shuffle_enabled: true,
        repeat_mode: RepeatMode::RepeatOne,
    };
    assert_eq!(playback_flags_line(&state), "Repeat=One Shuffle=On");
    assert_eq!(volume_line(80), "Vol 80%");
    assert_eq!(header_text(&lib, Some(7), true), " > Band - Song  [LP]");
    assert_eq!(header_text(&lib, Some(12), false), " || Unknown Artist - Other");
    assert_eq!(header_text(&lib, None, true), "  melors  -  no track loaded");
    assert_eq!(next_up_line(&vec![7, 12], Some(7), &lib), "Up Next: Unknown Artist - Other");
    assert_eq!(next_up_line(&vec![7, 12], Some(12), &lib), "Up Next: Band - Song");
    assert_eq!(next_up_line(&vec![], None, &lib), "Up Next: (queue empty)");
    assert_eq!(next_up_line(&vec![99], None, &lib), "Up Next: (unknown)");
}

#[test]
fn library_and_queue_rows() {
    let lib = library();
    let all = library_listing(&lib, None, Some(12));
    assert_eq!(all.ids, vec![7, 12]);
    assert_eq!(all.rows, vec![" * #0007 Band - Song", ">  #0012 Unknown Artist - Other"]);
    let found = library_listing(&lib, Some(&vec![12, 5, 7]), None);
    assert_eq!(found.ids, vec![12, 7]);
    let q = queue_listing(&lib, &vec![5, 12, 7], Some(7));
    assert_eq!(q.ids, vec![12, 7]);
    assert_eq!(q.rows, vec!["  02. Unknown Artist - Other", "> 03. Band - Song"]);
    assert_eq!(selected_id(&vec![4, 5, 6], 10), Some(6));
    assert_eq!(selected_id(&vec![], 0), None);
    assert_eq!(clamp_selection(3, 2), 1);
    assert_eq!(clamp_selection(3, 0), 0);
}

#[test]
fn panel_titles_and_tabs() {
    assert_eq!(library_title_text(3, InputMode::Search), " Library 3 [/]");
    assert_eq!(library_title_text(0, InputMode::Normal), " Library 0");
    assert_eq!(tab_index(InputMode::Search, FocusPanel::Queue), 1);
    assert_eq!(tab_index(InputMode::Normal, FocusPanel::Queue), 2);
    assert_eq!(tab_index(InputMode::EditTag, FocusPanel::Library), 0);
}

#[test]
fn big_clock_draws_digits() {
    let rows = big_clock_lines("1:0");
    assert_eq!(rows.len(), 5);
    assert_eq!(rows[0], " █      ███ ");
    assert_eq!(rows[1], "██   █  █ █ ");
    let picked = sample_rows(&rows, 2);
    assert_eq!(picked, vec![rows[0].clone(), rows[2].clone()]);
    assert_eq!(sample_rows(&rows, 9), rows);
    assert!(sample_rows(&rows, 0).is_empty());
}

#[test]
fn creeper_is_centred() {
    assert!(creeper_rows(0, 5).is_empty());
    let rows = creeper_rows(20, 10);
    assert_eq!(rows.len(), 10);
    assert_eq!(rows[0][0], CreeperCell::Background);
    assert_eq!(rows[1][2], CreeperCell::Tile(1));
    assert_eq!(rows[3][4], CreeperCell::Tile(3));
    assert_eq!(rows[1][17], CreeperCell::Tile(2));
    assert_eq!(rows[1][18], CreeperCell::Background);
}

#[test]
fn matrix_cells_follow_the_streams() {
    let rows = matrix_rows(3, 4, 0, 0, 0);
    assert_eq!(rows.len(), 4);
    assert_eq!(rows[0].len(), 3);
    assert_eq!(rows[0][0], MatrixCell::Head('0'));
    assert_eq!(rows[1][0], MatrixCell::Blank);
    let far = matrix_rows(1, 2, 0, -3, u64::MAX);
    assert_eq!(far.len(), 2);
}

#[test]
fn playlist_modal_views() {
    let lib = library();
    let playlists = vec![
        Playlist { id: 1, name: String::from("Focus"), created_at: String::new() },
        Playlist { id: 2, name: String::from("A very long playlist name"), created_at: String::new() },
    ];
    let items = vec![
        PlaylistItem { track_id: Some(7), original_path: None, is_missing: false, order_index: 0 },
        PlaylistItem {
            track_id: None,
            original_path: Some(String::from("/gone.mp3")),
            is_missing: true,
            order_index: 1,
        },
    ];
    let mut s = UiState::new();
    s.enter_playlist_modal();
    let v = s.modal_view(&playlists, &items, &lib, 12);
    assert_eq!(v.title, " Playlists (2) ");
    assert_eq!(v.rows, vec!["#1 Focus", "#2 A very ..", "+ New play.."]);
    assert_eq!(v.selected, Some(0));
    assert_eq!(v.accent, ModalAccent::Library);
    s.playlist_modal_mode = PlaylistModalMode::BrowseItems;
    let v = s.modal_view(&playlists, &items, &lib, 40);
    assert_eq!(v.title, " Playlist: Focus (2 items) ");
    assert_eq!(v.rows, vec!["01. Band - Song", "02. [missing] /gone.mp3"]);
    assert_eq!(v.accent, ModalAccent::Queue);
    s.playlist_modal_mode = PlaylistModalMode::ConfirmDeletePlaylist;
    s.playlist_selected = 5;
    let v = s.modal_view(&playlists, &items, &lib, 40);
    assert_eq!(v.rows, vec!["Delete playlist: (missing)"]);
    assert_eq!(v.accent, ModalAccent::Warning);
    s.sync_modal_selection(2, 0);
    assert_eq!(s.playlist_selected, 2);
    assert_eq!(s.playlist_item_selected, 0);
    s.playlist_modal_mode = PlaylistModalMode::BrowsePlaylists;
    s.playlist_add_track_id = Some(7);
    let v = s.modal_view(&playlists, &items, &lib, 20);
    assert_eq!(v.title, " Add: Band - Song ");
    assert_eq!(v.selected, Some(2));
    assert_eq!(v.helper, " Up/Down move | Enter add/create+add | Esc cancel ");
}

#[test]
fn tag_editor_rows_mark_the_active_field() {
    let mut ui = UiState::new();
    ui.enter_edit_tag_mode(7, "Song", "Band", "");
    let rows = ui.edit_tag_rows();
    assert_eq!(rows.len(), 3);
    assert_eq!(rows[0].label, "> Title : ");
    assert_eq!(rows[0].value, "Song_");
    assert!(rows[0].active);
    assert_eq!(rows[1].label, "  Artist: ");
    assert_eq!(rows[1].value, "Band ");
    assert_eq!(rows[2].label, "  Album : ");
    assert_eq!(rows[2].value, " ");
    assert!(!rows[2].active);
    assert_eq!(ui.edit_tag_title(), " Edit Tags #7 ");
    ui.exit_edit_tag_mode();
    assert_eq!(ui.edit_tag_title(), " Edit Tags");
}

#[test]
fn queue_title_counts_rows() {
    assert_eq!(melors::view::queue_title_text(0), " Queue 0 ");
    assert_eq!(melors::view::queue_title_text(12), " Queue 12 ");
}
