use melors::scanner::snapshot_insert;
use melors::scanner::WatcherState;
use melors::scanner::{renamed_file_name, stale_track_ids};
use melors::model::TrackInput;
use melors::scanner::{
    detect_changed_paths, is_mp3, scan_complete_message, scan_music_dir, wants_entry,
    DebounceCoordinator, ScanScheduler, ScanWarningAggregate, ScannedFile, WatcherEventBatch,
};

const MS: u64 = 1_000_000;
const START: u64 = 5_000 * MS;

fn paths(v: &[&str]) -> Vec<String> {
    v.iter().map(|s| s.to_string()).collect()
}

fn input(path: &str) -> TrackInput {
    TrackInput {
        path: path.to_string(),
        mtime: 7,
        title: String::from("t"),
        artist: None,
        album: None,
        duration_secs: None,
    }
}

#[test]
fn debounce_coalesces_burst_into_single_batch() {
    let mut d = DebounceCoordinator::new(50 * MS);
    d.ingest(paths(&["/tmp/a.mp3"]), START);
    d.ingest(paths(&["/tmp/b.mp3"]), START + 10 * MS);

    assert!(d.try_emit(START + 40 * MS).is_none());
    let batch = d.try_emit(START + 61 * MS).expect("batch emitted");
    assert_eq!(batch.generation, 1);
    assert_eq!(batch.dirty_paths.len(), 2);
}

#[test]
fn debounce_generation_is_monotonic() {
    let mut d = DebounceCoordinator::new(MS);
    d.ingest(paths(&["/tmp/a.mp3"]), START);
    let b1 = d.try_emit(START + 2 * MS).expect("first");
    d.ingest(paths(&["/tmp/c.mp3"]), START + 3 * MS);
    let b2 = d.try_emit(START + 5 * MS).expect("second");

    assert_eq!(b1.generation, 1);
    assert_eq!(b2.generation, 2);
}

#[test]
fn debounce_reports_window_and_deduplicates() {
    let mut d = DebounceCoordinator::new(10 * MS);
    assert!(d.try_emit(START).is_none());
    d.ingest(paths(&["/a.mp3", "/a.mp3"]), START);
    d.ingest(paths(&["/a.mp3"]), START + 4 * MS);
    let b = d.try_emit(START + 30 * MS).expect("batch");
    assert_eq!(b.dirty_paths, paths(&["/a.mp3"]));
    assert_eq!(b.window_elapsed_ms, 30);
    assert!(d.try_emit(START + 90 * MS).is_none());
    d.ingest(Vec::new(), START + 100 * MS);
    assert!(d.try_emit(START + 200 * MS).is_none());
    assert_eq!(d.next_generation, 2);
}

#[test]
fn detect_changed_paths_captures_creates_updates_and_deletes() {
    let previous = vec![(String::from("/tmp/a.mp3"), 1), (String::from("/tmp/b.mp3"), 2)];
    let current = vec![(String::from("/tmp/a.mp3"), 3), (String::from("/tmp/c.mp3"), 1)];

    let changed = detect_changed_paths(&previous, &current);
    assert!(changed.contains(&String::from("/tmp/a.mp3")), "updated path detected");
    assert!(changed.contains(&String::from("/tmp/b.mp3")), "deleted path detected");
    assert!(changed.contains(&String::from("/tmp/c.mp3")), "new path detected");
    assert_eq!(changed.len(), 3);
}

#[test]
fn detect_changed_paths_ignores_unchanged_files() {
    let snap = vec![(String::from("/x.mp3"), 1), (String::from("/y.mp3"), 2)];
    assert!(detect_changed_paths(&snap, &snap).is_empty());
}

#[test]
fn mp3_detection_uses_the_extension_in_any_case() {
    assert!(is_mp3("/music/song.mp3"));
    assert!(is_mp3("/music/SONG.MP3"));
    assert!(is_mp3("relative/a.b.Mp3"));
    assert!(!is_mp3("/music/song.mp3.bak"));
    assert!(!is_mp3("/music/.mp3"));
    assert!(!is_mp3("/music/mp3"));
    assert!(!is_mp3(""));
    assert!(wants_entry(true, "/a/b.mp3"));
    assert!(!wants_entry(false, "/a/b.mp3"));
    assert!(!wants_entry(true, "/a/b.flac"));
}

#[test]
fn warnings_count_failures_and_keep_five_examples() {
    let mut w = ScanWarningAggregate::new();
    for i in 0..7 {
        w.record_failure(&format!("/p{i}.mp3"), "bad header");
    }
    assert_eq!(w.failed_files, 7);
    assert_eq!(w.failed_paths_sample.len(), 5);
    assert_eq!(w.failed_paths_sample[0], "/p0.mp3: bad header");
    assert_eq!(w.failed_paths_sample[4], "/p4.mp3: bad header");
}

#[test]
fn scan_assembles_upserts_seen_paths_and_warnings() {
    let files = vec![
        ScannedFile { path: String::from("/m/a.mp3"), outcome: Ok(input("/m/a.mp3")) },
        ScannedFile { path: String::from("/m/b.mp3"), outcome: Err(String::from("no access")) },
        ScannedFile { path: String::from("/m/a.mp3"), outcome: Ok(input("/m/a.mp3")) },
    ];
    let r = scan_music_dir(true, files);
    assert_eq!(r.upserts.len(), 2);
    assert_eq!(r.seen_paths, paths(&["/m/a.mp3", "/m/b.mp3"]));
    assert_eq!(r.warnings.failed_files, 1);
    assert_eq!(r.warnings.failed_paths_sample, paths(&["/m/b.mp3: no access"]));

    let skipped = scan_music_dir(
        false,
        vec![ScannedFile { path: String::from("/m/a.mp3"), outcome: Ok(input("/m/a.mp3")) }],
    );
    assert!(skipped.upserts.is_empty());
    assert!(skipped.seen_paths.is_empty());
    assert_eq!(skipped.warnings.failed_files, 0);
}

#[test]
fn scheduler_queues_requests_while_a_scan_runs() {
    let mut s = ScanScheduler::new();
    assert!(s.request_scan(Vec::new()));
    assert_eq!(s.scan_generation, 1);
    assert!(s.scan_in_progress);
    assert!(!s.request_scan(paths(&["/a.mp3", "/b.mp3"])));
    assert!(!s.request_scan(paths(&["/a.mp3"])));
    assert!(s.scan_pending_rescan);
    assert_eq!(s.scan_pending_dirty_paths.len(), 2);

    let (msg, follow_up) = s.on_scan_applied(10, 1, 0);
    assert!(follow_up);
    assert_eq!(msg, "Rescan complete (10 scanned, 1 removed); follow-up scan queued (2 pending paths)");
    assert_eq!(s.scan_last_completed_generation, 1);
    assert_eq!(s.scan_generation, 2);
    assert!(s.scan_in_progress);

    let (msg, follow_up) = s.on_scan_applied(3, 0, 2);
    assert!(!follow_up);
    assert_eq!(msg, "Rescan complete (3 scanned, 0 removed, 2 warnings)");
    assert!(!s.scan_in_progress);
    assert_eq!(s.scan_last_completed_generation, 2);
}

#[test]
fn scheduler_error_paths() {
    let mut s = ScanScheduler::new();
    s.request_scan(Vec::new());
    assert_eq!(s.on_apply_failed("db locked"), "Rescan failed: db locked");
    assert!(!s.scan_in_progress);
    s.request_scan(Vec::new());
    s.request_scan(paths(&["/x.mp3"]));
    let (msg, retry) = s.on_scan_error("io");
    assert!(retry);
    assert_eq!(msg, "Rescan failed: io; retry scan queued (1 pending paths)");
    assert!(s.scan_in_progress);
    assert!(!s.scan_pending_rescan);
    assert!(s.scan_pending_dirty_paths.is_empty());
    assert_eq!(s.scan_generation, 3);
    assert_eq!(s.on_worker_disconnected(), "Rescan failed: worker disconnected");
    assert_eq!(ScanScheduler::on_watcher_error("gone"), "Watcher error: gone");
}

#[test]
fn scheduler_follows_watcher_batches() {
    let mut s = ScanScheduler::new();
    let batch = WatcherEventBatch { generation: 4, dirty_paths: paths(&["/a.mp3"]), window_elapsed_ms: 60 };
    let (msg, started) = s.on_watcher_batch(batch);
    assert!(started);
    assert_eq!(msg, "Watcher refresh scheduled (gen 4, 1 changes, 60ms window)");
    assert_eq!(s.scan_generation, 4);
    let batch = WatcherEventBatch { generation: 5, dirty_paths: paths(&["/b.mp3"]), window_elapsed_ms: 0 };
    let (msg, started) = s.on_watcher_batch(batch);
    assert!(!started);
    assert_eq!(msg, "Watcher changes queued (gen 5, 1 changes)");
    assert!(s.scan_pending_rescan);
    assert_eq!(s.scan_pending_dirty_paths, paths(&["/b.mp3"]));
    assert_eq!(s.scan_generation, 4);
    let (done, follow_up) = s.on_scan_applied(1, 0, 0);
    assert!(follow_up);
    assert_eq!(done, "Rescan complete (1 scanned, 0 removed); follow-up scan queued (1 pending paths)");
    assert!(s.scan_in_progress);
    assert_eq!(s.scan_generation, 5);
    assert!(s.scan_pending_dirty_paths.is_empty());
}

#[test]
fn scan_complete_message_mentions_warnings_only_when_present() {
    assert_eq!(scan_complete_message(0, 0, 0), "Rescan complete (0 scanned, 0 removed)");
    assert_eq!(scan_complete_message(12, 3, 1), "Rescan complete (12 scanned, 3 removed, 1 warnings)");
}

#[test]
fn snapshots_keep_one_entry_per_path() {
    let mut snap = Vec::new();
    snapshot_insert(&mut snap, String::from("/a.mp3"), 1);
    snapshot_insert(&mut snap, String::from("/b.mp3"), 2);
    snapshot_insert(&mut snap, String::from("/a.mp3"), 5);
    assert_eq!(snap, vec![(String::from("/a.mp3"), 5), (String::from("/b.mp3"), 2)]);
}

#[test]
fn watcher_state_batches_changes_between_snapshots() {
    let first = vec![(String::from("/a.mp3"), 1)];
    let mut w = WatcherState::new(first, 10 * MS);
    assert!(w.on_snapshot(vec![(String::from("/a.mp3"), 1)], START).is_none());
    assert!(w.on_snapshot(vec![(String::from("/a.mp3"), 2)], START + MS).is_none());
    let batch = w.on_snapshot(vec![(String::from("/a.mp3"), 2)], START + 20 * MS).expect("batch");
    assert_eq!(batch.dirty_paths, paths(&["/a.mp3"]));
    assert_eq!(batch.generation, 1);
}

#[test]
fn stale_tracks_and_renamed_files() {
    let stored = vec![(1, String::from("/a.mp3")), (2, String::from("/b.mp3")), (3, String::from("/c.mp3"))];
    assert_eq!(stale_track_ids(&stored, &paths(&["/b.mp3"])), vec![1, 3]);
    assert_eq!(renamed_file_name("/m/old song.mp3", "New"), "New.mp3");
    assert_eq!(renamed_file_name("/m/noext", "New"), "New");
    assert_eq!(renamed_file_name("/m/.hidden", "New"), "New");
    assert_eq!(renamed_file_name("/m/dot.", "New"), "New");
}

#[test]
fn debounce_run_releases_one_batch_per_quiet_window() {
    let mut d = DebounceCoordinator::new(100);
    d.ingest(vec![String::from("/m/a.mp3")], 0);
    assert!(d.try_emit(50).is_none());
    d.ingest(vec![String::from("/m/b.mp3"), String::from("/m/a.mp3")], 60);
    assert!(d.try_emit(120).is_none());
    let first = d.try_emit(2_000_160).expect("quiet window passed");
    assert_eq!(first.generation, 1);
    let mut paths = first.dirty_paths.clone();
    paths.sort();
    assert_eq!(paths, vec![String::from("/m/a.mp3"), String::from("/m/b.mp3")]);
    assert_eq!(first.window_elapsed_ms, 2);
    assert!(d.try_emit(2_000_160).is_none());
    d.ingest(vec![String::from("/m/c.mp3")], 3_000_000);
    let second = d.try_emit(3_000_100).expect("second window passed");
    assert_eq!(second.generation, 2);
    assert_eq!(second.dirty_paths, vec![String::from("/m/c.mp3")]);
}

#[test]
fn saved_tags_name_the_file_artist_dash_title() {
    assert_eq!(melors::scanner::tagged_file_name("/m/old.mp3", "Song", "Band"), "Band - Song.mp3");
    assert_eq!(melors::scanner::tagged_file_name("/m/old.MP3", "Song", ""), "Song.MP3");
    assert_eq!(melors::scanner::tagged_file_name("/m/noext", "Song", "Band"), "Band - Song");
}
