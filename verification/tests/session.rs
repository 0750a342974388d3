use melors::model::{PlaybackState, RepeatMode, Track};
use melors::playlists::PlaylistItem;
use melors::queue::{AppSession, QueueFix};
use melors::session::{PlayPause, PlaylistSync};

fn track(id: i64) -> Track {
    Track {
        id,
        path: format!("/m/{id}.mp3"),
        mtime: 0,
        title: format!("t{id}"),
        artist: None,
        album: None,
        duration_secs: Some(100),
        favorite: false,
        play_count: 0,
    }
}

fn session(ids: &[i64], queue: &[i64], current: Option<i64>) -> AppSession {
    AppSession {
        tracks: ids.iter().map(|i| track(*i)).collect(),
        tracks_version: 1,
        queue: queue.to_vec(),
        queue_version: 1,
        playback_state: PlaybackState {
            current_track_id: current,
            position_secs: 42,
            shuffle_enabled: false,
            repeat_mode: RepeatMode::Off,
        },
        active_playlist_id: None,
        active_playlist_name: None,
    }
}

fn item(track_id: Option<i64>, missing: bool, order_index: i64) -> PlaylistItem {
    PlaylistItem { track_id, original_path: None, is_missing: missing, order_index }
}

fn sorted(mut v: Vec<i64>) -> Vec<i64> {
    v.sort();
    v
}

#[test]
fn next_and_previous_follow_the_queue() {
    let mut s = session(&[1, 2, 3], &[3, 1, 2], Some(1));
    assert_eq!(s.next_track_id(), Some(2));
    assert_eq!(s.prev_track_id(), Some(3));
    s.start_track(2);
    assert_eq!(s.playback_state.position_secs, 0);
    assert_eq!(s.next_track_id(), None);
    s.toggle_repeat();
    s.toggle_repeat();
    assert_eq!(s.playback_state.repeat_mode, RepeatMode::RepeatAll);
    assert_eq!(s.next_track_id(), Some(3));
}

#[test]
fn repeat_cycles_back_after_three_toggles() {
    let mut s = session(&[1], &[1], None);
    assert_eq!(s.toggle_repeat(), RepeatMode::RepeatOne);
    assert_eq!(s.toggle_repeat(), RepeatMode::RepeatAll);
    assert_eq!(s.toggle_repeat(), RepeatMode::Off);
}

#[test]
fn shuffle_rebuilds_the_queue_from_the_library() {
    let mut s = session(&[1, 2, 3, 4, 5], &[5], Some(4));
    s.active_playlist_id = Some(9);
    assert!(s.toggle_shuffle(1234));
    assert_eq!(s.queue[0], 4);
    assert_eq!(sorted(s.queue.clone()), vec![1, 2, 3, 4, 5]);
    assert_eq!(s.active_playlist_id, None);
    assert!(!s.toggle_shuffle(1));
    assert_eq!(s.queue, vec![1, 2, 3, 4, 5]);
    s.queue_saved();
    assert_eq!(s.queue_version, 2);
}

#[test]
fn normalize_prunes_or_rebuilds() {
    let mut s = session(&[1, 2], &[2, 7, 1], None);
    assert_eq!(s.normalize(0), QueueFix::Pruned);
    assert_eq!(s.queue, vec![2, 1]);
    let mut gone = session(&[1, 2], &[8], None);
    assert_eq!(gone.normalize(0), QueueFix::Rebuild);
    assert_eq!(gone.queue, vec![1, 2]);
}

#[test]
fn queueing_a_track_leaves_the_playlist() {
    let mut s = session(&[1, 2], &[1], None);
    s.active_playlist_id = Some(3);
    assert!(!s.ensure_queued(1));
    assert_eq!(s.active_playlist_id, Some(3));
    assert!(s.ensure_queued(2));
    assert_eq!(s.queue, vec![1, 2]);
    assert_eq!(s.active_playlist_id, None);
}

#[test]
fn play_pause_resumes_or_starts() {
    let s = session(&[5, 6], &[5, 6], Some(6));
    assert_eq!(s.play_pause_decision(true), PlayPause::TogglePlayer);
    assert_eq!(s.play_pause_decision(false), PlayPause::Resume { track_id: 6, position_secs: 42 });
    let lost = session(&[5, 6], &[5], Some(9));
    assert_eq!(lost.play_pause_decision(false), PlayPause::PlayFirst(5));
    let empty = session(&[], &[], None);
    assert_eq!(empty.play_pause_decision(false), PlayPause::Idle);
}

#[test]
fn end_of_track_and_missing_track_clear_playback() {
    let mut s = session(&[1], &[1], Some(1));
    assert!(!s.settle_after_track_end(Some(1), true));
    assert!(s.settle_after_track_end(Some(1), false));
    assert_eq!(s.playback_state.current_track_id, None);
    let mut m = session(&[1], &[1], Some(2));
    assert!(m.drop_missing_current());
    assert_eq!(m.playback_state.current_track_id, None);
    assert_eq!(m.playback_state.position_secs, 0);
    let mut ok = session(&[1], &[1], Some(1));
    assert!(!ok.drop_missing_current());
    assert_eq!(ok.current_track_index(), Some(0));
}

#[test]
fn playlists_drive_the_queue() {
    let mut s = session(&[1, 2, 3], &[1, 2, 3], Some(3));
    let items = vec![item(Some(2), false, 0), item(None, true, 1), item(Some(9), false, 2), item(Some(1), false, 3)];
    assert_eq!(s.playlist_start_track(&items, Some(1)), Some(1));
    assert_eq!(s.playlist_start_track(&items, None), Some(2));
    assert_eq!(s.playlist_start_track(&Vec::new(), None), None);
    let ids = s.activate_playlist(7, String::from("Mix"), &items);
    assert_eq!(ids, vec![2, 1]);
    assert_eq!(s.queue, vec![2, 1]);
    assert!(s.follows_playlist(7));
    assert_eq!(s.settle_playlist_sync(Some(3), &ids), PlaylistSync::PlayFirst(2));
    assert_eq!(s.settle_playlist_sync(Some(1), &ids), PlaylistSync::Keep);
    assert_eq!(s.settle_playlist_sync(Some(1), &Vec::new()), PlaylistSync::Cleared);
    assert_eq!(s.playback_state.current_track_id, None);
    s.playlist_renamed(7, "  Road  ");
    assert_eq!(s.active_playlist_name.as_deref(), Some("Road"));
    assert!(!s.playlist_deleted(8, 0));
    assert!(s.playlist_deleted(7, 0));
    assert_eq!(s.queue, vec![1, 2, 3]);
    assert_eq!(s.active_playlist_name, None);
}

#[test]
fn reloading_the_library_bumps_versions() {
    let mut s = session(&[1], &[1], None);
    s.tracks_loaded(vec![track(4), track(5)]);
    assert_eq!(s.tracks_version, 2);
    s.queue_loaded(vec![5]);
    assert_eq!(s.queue, vec![5]);
    assert_eq!(s.queue_version, 2);
}

#[test]
fn removing_a_queue_entry_drops_exactly_it() {
    let mut s = session(&[1, 2, 3], &[3, 1, 2], Some(1));
    s.active_playlist_id = Some(5);
    s.active_playlist_name = Some(String::from("Focus"));
    assert_eq!(s.remove_queued(1), Some(1));
    assert_eq!(s.queue, vec![3, 2]);
    assert_eq!(s.active_playlist_id, None);
    assert_eq!(s.active_playlist_name, None);
    assert_eq!(s.playback_state.current_track_id, Some(1));
    assert_eq!(s.remove_queued(2), None);
    assert_eq!(s.queue, vec![3, 2]);
}

#[test]
fn moving_a_queue_entry_swaps_with_its_neighbour_and_back() {
    let mut s = session(&[1, 2, 3], &[3, 1, 2], None);
    assert_eq!(s.move_queued(1, true), Some(0));
    assert_eq!(s.queue, vec![1, 3, 2]);
    assert_eq!(s.move_queued(0, false), Some(1));
    assert_eq!(s.queue, vec![3, 1, 2]);
    assert_eq!(s.move_queued(0, true), None);
    assert_eq!(s.move_queued(2, false), None);
    assert_eq!(s.move_queued(7, true), None);
    assert_eq!(s.queue, vec![3, 1, 2]);
    assert_eq!(sorted(s.queue.clone()), vec![1, 2, 3]);
}

#[test]
fn starting_a_playlist_queues_its_playable_tracks_with_the_start_track() {
    let mut s = session(&[1, 2, 3], &[1, 2, 3], Some(1));
    let items = vec![item(Some(9), false, 0), item(Some(2), true, 1), item(Some(3), false, 2), item(Some(1), false, 3)];
    let started = s.start_playlist(7, String::from("Mix"), &items, Some(1));
    assert_eq!(started, Some(3));
    assert_eq!(s.queue, vec![3, 1]);
    assert!(s.queue.contains(&3));
    assert_eq!(s.active_playlist_id, Some(7));
    assert_eq!(s.active_playlist_name.as_deref(), Some("Mix"));

    let mut idle = session(&[1], &[1], None);
    let none = idle.start_playlist(8, String::from("Gone"), &vec![item(Some(5), false, 0)], None);
    assert_eq!(none, None);
    assert_eq!(idle.queue, vec![1]);
    assert_eq!(idle.active_playlist_id, None);
}

#[test]
fn playlist_label_falls_back_to_the_id() {
    assert_eq!(melors::session::playlist_label(Some(String::from("Road")), 4), "Road");
    assert_eq!(melors::session::playlist_label(None, 4), "Playlist 4");
}
