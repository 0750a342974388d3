use melors::ui::{
    normal_key_action, search_warning_for_query, validate_tag_edit_fields, FocusPanel, InputMode,
    Key, KeyPress, NormalAction, PlaylistModalAction, PlaylistModalMode, SearchAction, UiState,
    UiTheme, VisualizerMode,
};

fn key(k: Key) -> KeyPress {
    KeyPress { key: k, shift: false, ctrl: false, alt: false }
}

fn alt(c: char) -> KeyPress {
    KeyPress { key: Key::Char(c), shift: false, ctrl: false, alt: true }
}

fn type_text(state: &mut UiState, text: &str) {
    for c in text.chars() {
        state.handle_search_key(key(Key::Char(c)));
    }
}

#[test]
fn keymap_guard_allows_playlist_toggle_binding() {
    assert!(UiState::assert_keymap_compatibility());
    assert_eq!(normal_key_action(key(Key::Char('l'))), NormalAction::OpenPlaylists);
}

#[test]
fn playlist_modal_enter_exit_is_deterministic() {
    let mut state = UiState::new();
    state.enter_playlist_modal();
    assert_eq!(state.mode, InputMode::PlaylistModal);
    assert!(state.playlist_modal_visible);
    assert_eq!(state.playlist_modal_mode, PlaylistModalMode::BrowsePlaylists);

    state.exit_playlist_modal();
    assert_eq!(state.mode, InputMode::Normal);
    assert!(!state.playlist_modal_visible);
}

#[test]
fn search_warning_detects_invalid_favorite_token() {
    let warning = search_warning_for_query("fav:maybe test");
    assert!(warning.is_some());
}

#[test]
fn search_warning_detects_unknown_filter_token() {
    let warning = search_warning_for_query("genre:rock");
    assert!(warning.is_some());
}

#[test]
fn search_warning_none_for_supported_filters() {
    let warning = search_warning_for_query("artist:radiohead album:kid fav:true");
    assert!(warning.is_none());
}

#[test]
fn search_warning_texts_are_exact() {
    assert_eq!(
        search_warning_for_query("x FAV:maybe genre:rock").as_deref(),
        Some("Invalid favorite filter `FAV:maybe`; using fallback search")
    );
    assert_eq!(
        search_warning_for_query("Genre:rock").as_deref(),
        Some("Unknown filter `genre`; using fallback search")
    );
    assert_eq!(search_warning_for_query("genre: plain words"), None);
}

#[test]
fn tag_validation_rejects_empty_title() {
    assert!(validate_tag_edit_fields("").is_err());
    assert_eq!(validate_tag_edit_fields("  "), Err("title cannot be empty"));
    assert_eq!(validate_tag_edit_fields("Song"), Ok(()));
}

#[test]
fn new_state_starts_in_normal_mode() {
    let s = UiState::new();
    assert_eq!(s.mode, InputMode::Normal);
    assert_eq!(s.focus, FocusPanel::Library);
    assert_eq!(s.theme, UiTheme::Neon);
    assert_eq!(s.visualizer_mode, VisualizerMode::Off);
    assert_eq!(s.status, "Ready");
    assert_eq!(s.edit_tag_inputs.len(), 3);
}

#[test]
fn normal_keys_map_to_actions() {
    assert_eq!(normal_key_action(key(Key::Char('q'))), NormalAction::Quit);
    assert_eq!(normal_key_action(key(Key::Up)), NormalAction::MoveSelection(-1));
    assert_eq!(normal_key_action(key(Key::Tab)), NormalAction::CycleFocus);
    assert_eq!(normal_key_action(key(Key::Left)), NormalAction::Seek(-5));
    let shifted = KeyPress { key: Key::Right, shift: true, ctrl: false, alt: false };
    assert_eq!(normal_key_action(shifted), NormalAction::Seek(10));
    assert_eq!(normal_key_action(key(Key::Char(']'))), NormalAction::Volume(true));
    assert_eq!(normal_key_action(key(Key::Char('T'))), NormalAction::EditTags);
    assert_eq!(normal_key_action(key(Key::Char('z'))), NormalAction::Nothing);
}

#[test]
fn theme_cycles_through_four_themes() {
    let mut s = UiState::new();
    let mut names = Vec::new();
    for _ in 0..4 {
        names.push(s.cycle_theme().label());
    }
    assert_eq!(names, vec!["Amber", "Mono", "Forest", "Neon"]);
    assert_eq!(s.theme, UiTheme::Neon);
}

#[test]
fn alt_shortcuts_pick_visualizer_and_theme() {
    let mut s = UiState::new();
    assert!(s.handle_alt_shortcut(alt('2')));
    assert_eq!(s.visualizer_mode, VisualizerMode::Clock);
    assert_eq!(s.status, "Visualizer: Clock");
    assert!(s.handle_alt_shortcut(alt('t')));
    assert_eq!(s.status, "Theme: Amber");
    assert!(!s.handle_alt_shortcut(alt('9')));
    assert!(!s.handle_alt_shortcut(key(Key::Char('1'))));
    assert_eq!(s.visualizer_mode, VisualizerMode::Clock);
}

#[test]
fn search_typing_updates_query_and_warning() {
    let mut s = UiState::new();
    s.enter_search_mode();
    s.library_selected = 4;
    type_text(&mut s, "genre:x");
    assert_eq!(s.search_input, "genre:x");
    assert_eq!(s.library_selected, 0);
    assert_eq!(s.search_warning.as_deref(), Some("Unknown filter `genre`; using fallback search"));
    s.handle_search_key(key(Key::Backspace));
    assert_eq!(s.search_input, "genre:");
    assert_eq!(s.search_warning, None);
    let ctrl = KeyPress { key: Key::Char('c'), shift: false, ctrl: true, alt: false };
    assert_eq!(s.handle_search_key(ctrl), SearchAction::Nothing);
    assert_eq!(s.search_input, "genre:");
    assert_eq!(s.handle_search_key(key(Key::Down)), SearchAction::MoveSelection(1));
    assert_eq!(s.handle_search_key(key(Key::Enter)), SearchAction::PlaySelected);
    s.handle_search_key(key(Key::Esc));
    assert_eq!(s.mode, InputMode::Normal);
    assert_eq!(s.search_input, "");
}

#[test]
fn selection_moves_within_bounds() {
    let mut s = UiState::new();
    s.move_selection(3, 10);
    assert_eq!(s.library_selected, 2);
    s.move_selection(3, -1);
    assert_eq!(s.library_selected, 1);
    s.move_selection(0, 1);
    assert_eq!(s.library_selected, 0);
    s.focus_right();
    assert_eq!(s.focus, FocusPanel::Queue);
    s.move_selection(5, 3);
    assert_eq!(s.queue_selected, 3);
    assert_eq!(s.library_selected, 0);
    s.move_playlist_selection(2, 5);
    assert_eq!(s.selected_playlist_index(2), Some(1));
    assert_eq!(s.selected_playlist_index(1), Some(0));
    assert_eq!(s.selected_playlist_index(0), None);
}

#[test]
fn edit_tags_cycle_fields_and_save_trimmed() {
    let mut s = UiState::new();
    s.enter_edit_tag_mode(7, "Song", "Band", "Record");
    s.handle_edit_tag_key(key(Key::Backspace));
    s.handle_edit_tag_key(key(Key::Char('!')));
    assert_eq!(s.edit_tag_inputs[0], "Son!");
    s.handle_edit_tag_key(key(Key::Tab));
    s.handle_edit_tag_key(key(Key::Char(' ')));
    assert_eq!(s.edit_tag_field, 1);
    let save = s.handle_edit_tag_key(key(Key::Enter)).expect("save requested");
    assert_eq!(save.track_id, 7);
    assert_eq!(save.title, "Son!");
    assert_eq!(save.artist, "Band");
    assert_eq!(save.album, "Record");
    s.finish_tag_save(7, Some(String::from("disk full")));
    assert_eq!(s.mode, InputMode::EditTag);
    assert_eq!(s.status, "Save failed: disk full (fix fields and retry)");
    s.finish_tag_save(7, None);
    assert_eq!(s.mode, InputMode::Normal);
    assert_eq!(s.status, "Tags saved for #7");
}

#[test]
fn edit_tags_refuse_blank_title() {
    let mut s = UiState::new();
    s.enter_edit_tag_mode(3, "  ", "", "");
    assert!(s.handle_edit_tag_key(key(Key::Enter)).is_none());
    assert_eq!(s.status, "Save failed: title cannot be empty");
    assert_eq!(s.mode, InputMode::EditTag);
    s.handle_edit_tag_key(key(Key::Esc));
    assert_eq!(s.mode, InputMode::Normal);
    assert_eq!(s.status, "Edit tags cancelled");
}

#[test]
fn playlist_modal_keys() {
    let mut s = UiState::new();
    s.enter_playlist_modal();
    assert_eq!(s.handle_playlist_modal_key(key(Key::Down)), PlaylistModalAction::MoveSelection(1));
    assert_eq!(s.handle_playlist_modal_key(key(Key::Enter)), PlaylistModalAction::BrowseEnter);
    assert_eq!(s.handle_playlist_modal_key(key(Key::Char('x'))), PlaylistModalAction::RequestDelete);
    s.playlist_modal_mode = PlaylistModalMode::CreatePlaylist;
    for c in " Mix ".chars() {
        s.handle_playlist_modal_key(key(Key::Char(c)));
    }
    assert_eq!(
        s.handle_playlist_modal_key(key(Key::Enter)),
        PlaylistModalAction::SubmitCreate(String::from("Mix"))
    );
    s.handle_playlist_modal_key(key(Key::Esc));
    assert_eq!(s.playlist_modal_mode, PlaylistModalMode::BrowsePlaylists);
    assert_eq!(s.status, "Create playlist cancelled");
    assert_eq!(s.playlist_name_input, "");
    s.handle_playlist_modal_key(key(Key::Esc));
    assert_eq!(s.mode, InputMode::Normal);
    assert_eq!(s.status, "Closed playlist modal");
}

#[test]
fn latency_is_logged_every_two_hundred_samples() {
    let mut s = UiState::new();
    let mut lines = Vec::new();
    for i in 0..400u128 {
        if let Some(l) = s.record_ui_action_latency(i) {
            lines.push(l);
        }
    }
    assert_eq!(lines.len(), 2);
    assert_eq!(lines[0], "[melors.ui.latency] samples=200 avg_us=99 max_us=199\n");
    assert_eq!(s.playlist_action_latency_max_micros, 399);
}

#[test]
fn statusbar_shows_mode_hints() {
    let mut s = UiState::new();
    assert_eq!(
        s.statusbar_text(),
        " Ready | Up/Down Move | Enter Play | l Playlist | s Search | q Quit "
    );
    s.enter_search_mode();
    type_text(&mut s, "ab");
    assert_eq!(s.statusbar_text(), " /ab_ | Up/Down Move | Enter Play | Esc Exit ");
    s.exit_search_mode();
    s.enter_edit_tag_mode(1, "T", "A", "B");
    s.handle_edit_tag_key(key(Key::Tab));
    assert_eq!(s.statusbar_text(), " Edit [Artist]: A_ | Tab Next | Enter Save | Esc Cancel ");
}

#[test]
fn queue_keys_follow_the_focused_panel() {
    let mut state = UiState::new();
    let shift_up = KeyPress { key: Key::Up, shift: true, ctrl: false, alt: false };
    let shift_down = KeyPress { key: Key::Down, shift: true, ctrl: false, alt: false };
    assert_eq!(normal_key_action(shift_up), NormalAction::MoveQueued(true));
    assert_eq!(normal_key_action(key(Key::Char('x'))), NormalAction::RemoveQueued);
    assert_eq!(state.normal_command(key(Key::Enter)), NormalAction::PlaySelected);
    assert_eq!(state.normal_command(key(Key::Char('x'))), NormalAction::Nothing);
    assert_eq!(state.normal_command(shift_up), NormalAction::MoveSelection(-1));
    assert_eq!(state.normal_command(shift_down), NormalAction::MoveSelection(1));
    state.focus_right();
    assert_eq!(state.focus, FocusPanel::Queue);
    assert_eq!(state.normal_command(key(Key::Enter)), NormalAction::PlayQueued);
    assert_eq!(state.normal_command(key(Key::Char('x'))), NormalAction::RemoveQueued);
    assert_eq!(state.normal_command(shift_down), NormalAction::MoveQueued(false));
    assert_eq!(state.normal_command(key(Key::Up)), NormalAction::MoveSelection(-1));
}

#[test]
fn esc_on_the_item_list_keeps_the_modal_open() {
    let mut s = UiState::new();
    s.enter_playlist_modal();
    s.playlist_modal_mode = PlaylistModalMode::BrowseItems;
    s.playlist_item_selected = 2;
    assert_eq!(s.handle_playlist_modal_key(key(Key::Esc)), PlaylistModalAction::Nothing);
    assert_eq!(s.mode, InputMode::PlaylistModal);
    assert!(s.playlist_modal_visible);
    assert_eq!(s.playlist_modal_mode, PlaylistModalMode::BrowsePlaylists);
    assert_eq!(s.playlist_item_selected, 0);
    assert_eq!(s.status, "Back to playlists");
    assert_eq!(s.handle_playlist_modal_key(key(Key::Char('l'))), PlaylistModalAction::Nothing);
    assert_eq!(s.mode, InputMode::Normal);
    assert!(!s.playlist_modal_visible);
    assert_eq!(s.status, "Closed playlist modal");
}

#[test]
fn a_queues_the_selected_track() {
    assert_eq!(normal_key_action(key(Key::Char('a'))), NormalAction::QueueSelected);
    assert_eq!(normal_key_action(key(Key::Char('A'))), NormalAction::AddToPlaylist);
}
