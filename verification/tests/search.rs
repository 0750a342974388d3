use melors::model::Track;
use melors::search::{
    filter_track_ids, parse_favorite_value, parse_search_orchestration_query,
    rank_filtered_candidates_by_fuzzy, rank_scored_candidates, search_track_ids, search_tracks,
    sort_ranked, StructuredSearchFilter,
};

fn track(id: i64, title: &str, artist: Option<&str>, album: Option<&str>) -> Track {
    Track {
        id,
        path: format!("/tmp/{id}.mp3"),
        mtime: 1,
        title: title.to_string(),
        artist: artist.map(ToString::to_string),
        album: album.map(ToString::to_string),
        duration_secs: Some(180),
        favorite: false,
        play_count: 0,
    }
}

fn library() -> Vec<Track> {
    vec![
        track(1, "Everything In Its Right Place", Some("Radiohead"), Some("Kid A")),
        track(2, "Angel", Some("Massive Attack"), Some("Mezzanine")),
        track(3, "Idioteque", Some("Radiohead"), Some("Kid A")),
    ]
}

#[test]
fn parse_query_extracts_structured_filters_and_residual() {
    let parsed = parse_search_orchestration_query("artist:radiohead album:kid fav:yes idioteque");
    assert_eq!(parsed.structured_filters.artist.as_deref(), Some("radiohead"));
    assert_eq!(parsed.structured_filters.album.as_deref(), Some("kid"));
    assert_eq!(parsed.structured_filters.favorite, Some(true));
    assert_eq!(parsed.residual_term.as_deref(), Some("idioteque"));
}

#[test]
fn parse_query_degrades_invalid_favorite_token_to_residual() {
    let parsed = parse_search_orchestration_query("fav:maybe bloom");
    assert_eq!(parsed.structured_filters.favorite, None);
    assert_eq!(parsed.residual_term.as_deref(), Some("fav:maybe bloom"));
}

#[test]
fn parse_query_keeps_unknown_and_empty_filters_in_residual() {
    let parsed = parse_search_orchestration_query("  genre:rock  artist:  ARTIST:Bjork  ");
    assert_eq!(parsed.raw_query, "  genre:rock  artist:  ARTIST:Bjork  ");
    assert_eq!(parsed.structured_filters.artist.as_deref(), Some("Bjork"));
    assert_eq!(parsed.residual_term.as_deref(), Some("genre:rock artist:"));
    let empty = parse_search_orchestration_query("   ");
    assert_eq!(empty.residual_term, None);
    assert!(!empty.structured_filters.has_any());
}

#[test]
fn favorite_values_are_read_in_any_case() {
    for yes in ["1", "true", "YES", " y ", "On"] {
        assert_eq!(parse_favorite_value(yes), Some(true), "{yes}");
    }
    for no in ["0", "False", "no", "N", "off"] {
        assert_eq!(parse_favorite_value(no), Some(false), "{no}");
    }
    assert_eq!(parse_favorite_value("maybe"), None);
    assert_eq!(parse_favorite_value(""), None);
}

#[test]
fn fuzzy_ranking_stays_within_filtered_subset() {
    let tracks = library();
    let filtered = vec![1, 3];
    let ranked = rank_filtered_candidates_by_fuzzy(&tracks, &filtered, "idio");
    assert_eq!(ranked, vec![3]);
}

#[test]
fn fuzzy_ranking_with_blank_keyword_keeps_candidates() {
    let tracks = library();
    assert_eq!(rank_filtered_candidates_by_fuzzy(&tracks, &vec![3, 9, 1], "  "), vec![3, 9, 1]);
    assert_eq!(rank_filtered_candidates_by_fuzzy(&tracks, &vec![9], "idio"), Vec::<i64>::new());
}

#[test]
fn ranking_orders_by_score_then_id() {
    assert_eq!(rank_scored_candidates(vec![(5, 10), (2, 30), (1, 10), (7, 30)]), vec![2, 7, 1, 5]);
    let mut v = vec![(3, 1), (1, 1), (2, 5)];
    sort_ranked(&mut v);
    assert_eq!(v, vec![(2, 5), (1, 1), (3, 1)]);
}

#[test]
fn filters_match_substrings_ignoring_case() {
    let mut tracks = library();
    tracks[2].favorite = true;
    let f = StructuredSearchFilter {
        artist: Some(String::from("RADIO")),
        album: None,
        favorite: None,
    };
    assert_eq!(filter_track_ids(&tracks, &f), vec![1, 3]);
    let f = StructuredSearchFilter { artist: None, album: Some(String::from("kid")), favorite: Some(true) };
    assert_eq!(filter_track_ids(&tracks, &f), vec![3]);
    let f = StructuredSearchFilter::default();
    assert_eq!(filter_track_ids(&tracks, &f), vec![1, 2, 3]);
}

#[test]
fn search_tracks_ranks_matches_and_keeps_all_for_blank() {
    let tracks = library();
    let all: Vec<i64> = search_tracks(&tracks, " ").iter().map(|t| t.id).collect();
    assert_eq!(all, vec![1, 2, 3]);
    let found: Vec<i64> = search_tracks(&tracks, "angel").iter().map(|t| t.id).collect();
    assert_eq!(found, vec![2]);
    assert!(search_tracks(&tracks, "zzzz").is_empty());
}

#[test]
fn search_track_ids_combines_filters_and_fuzzy_residual() {
    let tracks = library();
    let q = parse_search_orchestration_query("artist:radiohead idio");
    assert_eq!(search_track_ids(&tracks, &q), vec![3]);
    let q = parse_search_orchestration_query("artist:radiohead");
    assert_eq!(search_track_ids(&tracks, &q), vec![1, 3]);
    let q = parse_search_orchestration_query("mezzanine");
    assert_eq!(search_track_ids(&tracks, &q), vec![2]);
    let q = parse_search_orchestration_query("");
    assert_eq!(search_track_ids(&tracks, &q), vec![1, 2, 3]);
}
