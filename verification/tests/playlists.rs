use melors::playlists::{
    checked_playlist_name, classify_storage_error, move_playlist_item_in, next_order_index, normalize_playlist_name,
    playlist_name_exists, playlist_queue_ids, remove_playlist_item_from, resolve_playable_track_id,
    ActionStatusLevel, Playlist, PlaylistActionResult, PlaylistItem,
};

fn item(track_id: Option<i64>, missing: bool, order_index: i64) -> PlaylistItem {
    PlaylistItem {
        track_id,
        original_path: track_id.map(|t| format!("/tmp/{t}.mp3")),
        is_missing: missing,
        order_index,
    }
}

fn playlist(id: i64, name: &str) -> Playlist {
    Playlist { id, name: String::from(name), created_at: String::from("2026-03-01T00:00:00Z") }
}

fn orders(items: &[PlaylistItem]) -> Vec<i64> {
    items.iter().map(|i| i.order_index).collect()
}

fn tracks(items: &[PlaylistItem]) -> Vec<Option<i64>> {
    items.iter().map(|i| i.track_id).collect()
}

#[test]
fn resolve_playable_track_id_skips_missing_items() {
    let items = vec![
        PlaylistItem {
            track_id: None,
            original_path: Some(String::from("/tmp/missing.mp3")),
            is_missing: true,
            order_index: 0,
        },
        PlaylistItem {
            track_id: Some(42),
            original_path: Some(String::from("/tmp/42.mp3")),
            is_missing: false,
            order_index: 1,
        },
    ];

    let id = resolve_playable_track_id(&items, 0, |track_id| track_id == 42);
    assert_eq!(id, Some(42));
}

#[test]
fn resolve_playable_track_id_returns_none_when_no_valid_track() {
    let items = vec![PlaylistItem {
        track_id: Some(9),
        original_path: Some(String::from("/tmp/9.mp3")),
        is_missing: false,
        order_index: 0,
    }];

    let id = resolve_playable_track_id(&items, 0, |_track_id| false);
    assert_eq!(id, None);
}

#[test]
fn resolve_playable_track_id_honors_selected_index_start_point() {
    let items = vec![
        PlaylistItem {
            track_id: Some(1),
            original_path: Some(String::from("/tmp/1.mp3")),
            is_missing: false,
            order_index: 0,
        },
        PlaylistItem {
            track_id: Some(2),
            original_path: Some(String::from("/tmp/2.mp3")),
            is_missing: false,
            order_index: 1,
        },
    ];

    let id = resolve_playable_track_id(&items, 1, |_track_id| true);
    assert_eq!(id, Some(2));
}

#[test]
fn resolve_playable_track_id_clamps_selection_and_handles_empty() {
    let items = vec![item(Some(1), false, 0), item(Some(2), false, 1)];
    assert_eq!(resolve_playable_track_id(&items, 99, |_| true), Some(2));
    assert_eq!(resolve_playable_track_id(&Vec::new(), 0, |_| true), None);
}

#[test]
fn status_mapping_for_no_playable_item_is_deterministic() {
    let result = PlaylistActionResult::NoPlayableItem { playlist_id: 1 };
    let status = result.status_message();
    assert_eq!(status.level, ActionStatusLevel::Warning);
    assert_eq!(status.code, "playlist.no_playable_item");
    assert_eq!(status.text, "No playable item found in playlist");
}

#[test]
fn status_messages_for_successes_and_errors() {
    let created =
        PlaylistActionResult::PlaylistCreated { playlist_id: 3, name: String::from("Focus") }
            .status_message();
    assert_eq!(created.level, ActionStatusLevel::Info);
    assert_eq!(created.code, "playlist.created");
    assert_eq!(created.text, "Playlist created: Focus");
    let renamed =
        PlaylistActionResult::PlaylistRenamed { playlist_id: 3, name: String::from("Deep") }
            .status_message();
    assert_eq!(renamed.text, "Playlist renamed: Deep");
    let err = PlaylistActionResult::PersistenceError {
        context: "add_playlist_item",
        message: String::from("disk full"),
    }
    .status_message();
    assert_eq!(err.level, ActionStatusLevel::Error);
    assert_eq!(err.code, "playlist.persistence_error");
    assert_eq!(err.text, "disk full");
}

#[test]
fn classify_storage_error_maps_validation_context() {
    let result = classify_storage_error(
        "create_playlist",
        String::from("playlist name already exists"),
    );
    assert!(matches!(
        result,
        PlaylistActionResult::ValidationError { context: "create_playlist", .. }
    ));
}

#[test]
fn classify_storage_error_maps_not_found_and_persistence() {
    let nf = classify_storage_error("delete_playlist", String::from("Playlist NOT FOUND"));
    assert_eq!(
        nf,
        PlaylistActionResult::NotFoundError {
            context: "delete_playlist",
            message: String::from("Playlist NOT FOUND"),
        }
    );
    let pe = classify_storage_error("rename_playlist", String::from("database is locked"));
    assert_eq!(
        pe,
        PlaylistActionResult::PersistenceError {
            context: "rename_playlist",
            message: String::from("database is locked"),
        }
    );
    let ve = classify_storage_error("move", String::from("source index out of bounds"));
    assert!(matches!(ve, PlaylistActionResult::ValidationError { context: "move", .. }));
}

#[test]
fn create_playlist_enforces_case_insensitive_uniqueness() {
    let playlists = vec![playlist(1, "Focus")];
    let name = normalize_playlist_name("focus").expect("create playlist");
    assert!(playlist_name_exists(&playlists, &name, None), "must conflict");
    let err = checked_playlist_name(&playlists, "focus", None).expect_err("must conflict");
    assert!(err.contains("already exists"));
    assert_eq!(checked_playlist_name(&playlists, "  Calm ", None), Ok(String::from("Calm")));
    assert_eq!(checked_playlist_name(&playlists, "focus", Some(1)), Ok(String::from("focus")));
    assert_eq!(
        checked_playlist_name(&playlists, "   ", None),
        Err(String::from("playlist name cannot be empty"))
    );
}

#[test]
fn playlist_names_are_trimmed_and_must_not_be_blank() {
    assert_eq!(normalize_playlist_name("  Road Trip  "), Ok(String::from("Road Trip")));
    assert_eq!(
        normalize_playlist_name(" \t "),
        Err(String::from("playlist name cannot be empty"))
    );
    let playlists = vec![playlist(1, "Focus"), playlist(2, "Chill")];
    assert!(!playlist_name_exists(&playlists, "FOCUS", Some(1)));
    assert!(playlist_name_exists(&playlists, "chill", Some(1)));
    assert!(!playlist_name_exists(&playlists, "Focus ", None));
}

#[test]
fn move_playlist_item_clamps_and_keeps_contiguous_order() {
    let mut items = vec![item(Some(1), false, 0), item(Some(2), false, 1)];
    let moved = move_playlist_item_in(&mut items, 0, 999).expect("move");
    assert_eq!(moved, 1);
    assert_eq!(items.len(), 2);
    let mut sorted = items.clone();
    sorted.sort_by_key(|i| i.order_index);
    assert_eq!(sorted[0].order_index, 0);
    assert_eq!(sorted[1].order_index, 1);
    assert_eq!(tracks(&sorted), vec![Some(2), Some(1)]);
}

#[test]
fn move_playlist_item_up_and_refusals() {
    let mut items = vec![item(Some(1), false, 0), item(Some(2), false, 1), item(Some(3), false, 2)];
    assert_eq!(move_playlist_item_in(&mut items, 2, -1), Ok(1));
    let mut sorted = items.clone();
    sorted.sort_by_key(|i| i.order_index);
    assert_eq!(orders(&sorted), vec![0, 1, 2]);
    assert_eq!(tracks(&sorted), vec![Some(1), Some(3), Some(2)]);
    assert_eq!(move_playlist_item_in(&mut items, 1, 0), Ok(1));
    assert_eq!(
        move_playlist_item_in(&mut items, 3, 1),
        Err(String::from("source index out of bounds"))
    );
    let mut empty: Vec<PlaylistItem> = Vec::new();
    assert_eq!(move_playlist_item_in(&mut empty, 0, 1), Err(String::from("playlist has no items")));
}

#[test]
fn failed_playlist_mutation_rolls_back_changes() {
    let mut items = vec![item(Some(5), false, 0)];
    let err = remove_playlist_item_from(&mut items, 9).expect_err("must fail");
    assert!(err.contains("not found"));
    assert_eq!(items.len(), 1);
    assert_eq!(items[0].order_index, 0);
}

#[test]
fn remove_playlist_item_closes_the_gap() {
    let mut items = vec![item(Some(1), false, 0), item(Some(2), false, 1), item(Some(3), false, 2)];
    assert_eq!(remove_playlist_item_from(&mut items, 1), Ok(()));
    assert_eq!(orders(&items), vec![0, 1]);
    assert_eq!(tracks(&items), vec![Some(1), Some(3)]);
    assert_eq!(next_order_index(&items), 2);
}

#[test]
fn next_order_index_is_one_past_the_largest() {
    assert_eq!(next_order_index(&Vec::new()), 0);
    let items = vec![item(Some(1), false, 4), item(Some(2), false, 1)];
    assert_eq!(next_order_index(&items), 5);
}

#[test]
fn playlist_queue_ids_keep_known_present_tracks_in_order() {
    let items = vec![
        item(Some(3), false, 0),
        item(None, true, 1),
        item(Some(7), true, 2),
        item(Some(9), false, 3),
        item(Some(1), false, 4),
    ];
    assert_eq!(playlist_queue_ids(&items, &vec![1, 3, 7]), vec![3, 1]);
}

#[test]
fn moving_with_repeated_order_indexes_moves_one_item() {
    let mut items = vec![
        item(Some(1), false, 0),
        item(Some(2), false, 1),
        item(Some(3), false, 1),
        item(Some(4), false, 2),
    ];
    assert_eq!(move_playlist_item_in(&mut items, 1, 1), Ok(2));
    let orders: Vec<i64> = items.iter().map(|i| i.order_index).collect();
    assert_eq!(orders, vec![0, 2, 1, 1]);
}

#[test]
fn removing_at_the_smallest_order_index_is_accepted() {
    let mut items = vec![item(Some(1), false, i64::MIN), item(Some(2), false, 0)];
    assert_eq!(remove_playlist_item_from(&mut items, i64::MIN), Ok(()));
    assert_eq!(items.len(), 1);
    assert_eq!(items[0].order_index, -1);
}
