use melors::metadata::tag_field;
use melors::config::{config_paths, join, Config, ConfigError};
use melors::metadata::{metadata_from_tag, TagFields};

#[test]
fn paths_follow_the_home_directory() {
    let p = config_paths("/home/ana");
    assert_eq!(p.config_dir, "/home/ana/.config/melors");
    assert_eq!(p.config_path, "/home/ana/.config/melors/config.toml");
    assert_eq!(p.data_dir, "/home/ana/.local/share/melors");
    assert_eq!(p.cache_dir, "/home/ana/.cache/melors");
    assert_eq!(p.default_music_dir, "/home/ana/Music/melors");
    assert_eq!(p.db_path, "/home/ana/.local/share/melors/db.sqlite");
}

#[test]
fn join_adds_one_separator() {
    assert_eq!(join("/home/ana/", "x"), "/home/ana/x");
    assert_eq!(join("/home/ana", "x"), "/home/ana/x");
    assert_eq!(join("", "x"), "x");
}

#[test]
fn load_or_create_uses_the_configured_music_dir() {
    let cfg = Config::load_or_create(Some("/h"), Some(String::from("/srv/music"))).expect("config");
    assert_eq!(cfg.music_dir, "/srv/music");
    assert_eq!(cfg.data_dir, "/h/.local/share/melors");
    assert_eq!(cfg.cache_dir, "/h/.cache/melors");
    assert_eq!(cfg.db_path, "/h/.local/share/melors/db.sqlite");
    let default = Config::load_or_create(Some("/h"), None).expect("config");
    assert_eq!(default.music_dir, "/h/Music/melors");
}

#[test]
fn load_or_create_needs_a_home_directory() {
    let err = Config::load_or_create(None, None).expect_err("no home");
    assert_eq!(err, ConfigError::HomeUnresolved);
    assert_eq!(err.message(), "failed to resolve home directory");
}

#[test]
fn metadata_prefers_tag_then_file_stem() {
    let tag = TagFields {
        title: Some(String::from("Tagged")),
        artist: Some(String::from("Band")),
        album: None,
        duration_secs: Some(215),
    };
    let m = metadata_from_tag(Some(String::from("file")), Some(tag));
    assert_eq!(m.title, "Tagged");
    assert_eq!(m.artist.as_deref(), Some("Band"));
    assert_eq!(m.album, None);
    assert_eq!(m.duration_secs, Some(215));

    let untitled = TagFields { title: None, artist: None, album: Some(String::from("A")), duration_secs: None };
    let m = metadata_from_tag(Some(String::from("file")), Some(untitled));
    assert_eq!(m.title, "file");
    assert_eq!(m.album.as_deref(), Some("A"));

    let m = metadata_from_tag(None, None);
    assert_eq!(m.title, "Unknown Title");
    assert_eq!(m.artist, None);
    assert_eq!(m.duration_secs, None);
}

#[test]
fn empty_tag_fields_are_removed() {
    assert_eq!(tag_field(""), None);
    assert_eq!(tag_field("Band"), Some(String::from("Band")));
}
