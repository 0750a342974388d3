use melors::model::{PlaybackState, RepeatMode, Track};
use melors::queue::{
    current_track_missing, decide_flush, ensure_track_in_queue, find_in_queue, next_queue_index,
    normalize_queue, prev_queue_index, rebuild_queue_ids, shuffle_vec_with_seed,
    track_ids, up_next_track_id, FlushAction, QueueFix, PLAYBACK_PERSIST_DEBOUNCE_MS,
};

fn track(id: i64) -> Track {
    Track {
        id,
        path: format!("/m/{id}.mp3"),
        mtime: 0,
        title: format!("t{id}"),
        artist: None,
        album: None,
        duration_secs: None,
        favorite: false,
        play_count: 0,
    }
}

fn sorted(mut v: Vec<i64>) -> Vec<i64> {
    v.sort();
    v
}

#[test]
fn next_track_follows_queue_and_repeat_mode() {
    let q = vec![10, 20, 30];
    assert_eq!(next_queue_index(&q, Some(10), RepeatMode::Off), Some(1));
    assert_eq!(next_queue_index(&q, Some(30), RepeatMode::Off), None);
    assert_eq!(next_queue_index(&q, Some(30), RepeatMode::RepeatAll), Some(0));
    assert_eq!(next_queue_index(&q, Some(30), RepeatMode::RepeatOne), Some(2));
    assert_eq!(next_queue_index(&q, Some(99), RepeatMode::Off), Some(0));
    assert_eq!(next_queue_index(&q, None, RepeatMode::Off), Some(0));
    assert_eq!(next_queue_index(&Vec::new(), Some(1), RepeatMode::RepeatAll), None);
}

#[test]
fn previous_track_steps_back_and_stops_at_start() {
    let q = vec![10, 20, 30];
    assert_eq!(prev_queue_index(&q, Some(30)), Some(1));
    assert_eq!(prev_queue_index(&q, Some(10)), Some(0));
    assert_eq!(prev_queue_index(&q, None), Some(0));
    assert_eq!(prev_queue_index(&Vec::new(), None), None);
}

#[test]
fn next_then_previous_returns_to_the_same_track() {
    let q = vec![4, 8, 15, 16];
    for i in 0..q.len() - 1 {
        let n = next_queue_index(&q, Some(q[i]), RepeatMode::Off).expect("next");
        let p = prev_queue_index(&q, Some(q[n])).expect("prev");
        assert_eq!(p, i);
    }
}

#[test]
fn find_and_ensure_in_queue() {
    let mut q = vec![3, 5];
    assert_eq!(find_in_queue(&q, 5), Some(1));
    assert_eq!(find_in_queue(&q, 7), None);
    assert!(ensure_track_in_queue(&mut q, 7));
    assert!(!ensure_track_in_queue(&mut q, 3));
    assert_eq!(q, vec![3, 5, 7]);
}

#[test]
fn normalize_queue_prunes_and_asks_for_rebuild() {
    let lib = vec![1, 2, 3];
    let mut q = vec![3, 9, 1];
    assert_eq!(normalize_queue(&mut q, &lib), QueueFix::Pruned);
    assert_eq!(q, vec![3, 1]);
    assert_eq!(normalize_queue(&mut q, &lib), QueueFix::Unchanged);
    let mut gone = vec![8, 9];
    assert_eq!(normalize_queue(&mut gone, &lib), QueueFix::Rebuild);
    assert!(gone.is_empty());
    let mut empty: Vec<i64> = Vec::new();
    assert_eq!(normalize_queue(&mut empty, &Vec::new()), QueueFix::Unchanged);
}

#[test]
fn shuffle_keeps_the_tracks_and_puts_current_first() {
    let original = vec![1, 2, 3, 4, 5, 6, 7, 8];
    for seed in [1u64, 42, 0xdead_beef, u64::MAX] {
        let mut ids = original.clone();
        shuffle_vec_with_seed(&mut ids, Some(6), seed);
        assert_eq!(sorted(ids.clone()), original);
        assert_eq!(ids[0], 6);
    }
    let mut ids = original.clone();
    shuffle_vec_with_seed(&mut ids, Some(3), 0);
    assert_eq!(sorted(ids.clone()), original);
    assert_eq!(ids[0], 3);
    let mut none: Vec<i64> = Vec::new();
    shuffle_vec_with_seed(&mut none, Some(1), 9);
    assert!(none.is_empty());
}

#[test]
fn rebuild_queue_uses_library_order_unless_shuffled() {
    let tracks = vec![track(5), track(2), track(9)];
    assert_eq!(track_ids(&tracks), vec![5, 2, 9]);
    assert_eq!(rebuild_queue_ids(&tracks, false, Some(9), 7), vec![5, 2, 9]);
    let shuffled = rebuild_queue_ids(&tracks, true, Some(9), 7);
    assert_eq!(shuffled[0], 9);
    assert_eq!(sorted(shuffled), vec![2, 5, 9]);
}

#[test]
fn up_next_wraps_to_the_start() {
    let q = vec![1, 2, 3];
    assert_eq!(up_next_track_id(&q, Some(1)), Some(2));
    assert_eq!(up_next_track_id(&q, Some(3)), Some(1));
    assert_eq!(up_next_track_id(&q, Some(42)), Some(1));
    assert_eq!(up_next_track_id(&q, None), Some(1));
    assert_eq!(up_next_track_id(&Vec::new(), None), None);
}

#[test]
fn playback_state_writes_are_debounced() {
    let s = PlaybackState {
        current_track_id: Some(1),
        position_secs: 10,
        shuffle_enabled: false,
        repeat_mode: RepeatMode::Off,
    };
    let moved = PlaybackState { position_secs: 11, ..s.clone() };
    assert_eq!(decide_flush(false, &None, &s, true, None), FlushAction::Nothing);
    assert_eq!(decide_flush(true, &Some(s.clone()), &s, false, Some(1)), FlushAction::AlreadySaved);
    assert_eq!(decide_flush(true, &Some(s.clone()), &moved, false, Some(100)), FlushAction::Wait);
    assert_eq!(
        decide_flush(true, &Some(s.clone()), &moved, false, Some(PLAYBACK_PERSIST_DEBOUNCE_MS)),
        FlushAction::Save
    );
    assert_eq!(decide_flush(true, &Some(s.clone()), &moved, true, Some(1)), FlushAction::Save);
    assert_eq!(decide_flush(true, &None, &s, false, None), FlushAction::Save);
}

#[test]
fn current_track_missing_checks_the_library() {
    let tracks = vec![track(1), track(2)];
    assert!(!current_track_missing(&tracks, Some(2)));
    assert!(current_track_missing(&tracks, Some(3)));
    assert!(!current_track_missing(&tracks, None));
}

#[test]
fn default_playback_state_is_stopped() {
    let d = PlaybackState::default();
    assert_eq!(d.current_track_id, None);
    assert_eq!(d.position_secs, 0);
    assert!(!d.shuffle_enabled);
    assert_eq!(d.repeat_mode, RepeatMode::Off);
}

#[test]
fn seeded_shuffle_is_reproducible() {
    let mut a = vec![1, 2, 3, 4, 5];
    shuffle_vec_with_seed(&mut a, None, 42);
    assert_eq!(a, vec![2, 3, 1, 4, 5]);
    let mut b = vec![1, 2, 3, 4, 5];
    shuffle_vec_with_seed(&mut b, Some(3), 42);
    assert_eq!(b, vec![3, 2, 1, 4, 5]);
    let mut c = vec![1, 2, 3, 4, 5];
    shuffle_vec_with_seed(&mut c, None, 7);
    assert_eq!(c, vec![5, 2, 4, 1, 3]);
}
