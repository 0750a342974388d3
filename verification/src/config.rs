//! Where melors keeps its configuration, data and cache, and how the
//! configuration is settled from the home directory and the config file.

use vstd::prelude::*;
use crate::text::{chars_of, extend_chars, string_of};

verus! {

/// The directories and files the player works with, as path texts.
#[derive(Debug, Clone)]
pub struct Config {
    pub music_dir: String,
    pub data_dir: String,
    pub cache_dir: String,
    pub db_path: String,
}

/// Every path that follows from the home directory.
#[derive(Debug, Clone)]
pub struct ConfigPaths {
    pub config_dir: String,
    pub config_path: String,
    pub data_dir: String,
    pub cache_dir: String,
    pub default_music_dir: String,
    pub db_path: String,
}

/// Why no configuration could be settled.
#[derive(Debug, Clone, Copy, PartialEq, Eq, Structural)]
pub enum ConfigError {
    /// The home directory of the user is unknown.
    HomeUnresolved,
}

impl ConfigError {
    /// The message shown for the error.
    pub fn message(self) -> (s: &'static str)
        ensures
            s@ == config_error_message(self),
    {
        match self {
            ConfigError::HomeUnresolved => "failed to resolve home directory",
        }
    }
}

/// The message shown for a configuration error.
pub open spec fn config_error_message(e: ConfigError) -> Seq<char> {
    match e {
        ConfigError::HomeUnresolved => "failed to resolve home directory"@,
    }
}

/// `part` appended to `base` as a path: one `/` between them, none added
/// when `base` is empty or already ends in `/`.
pub open spec fn join_path(base: Seq<char>, part: Seq<char>) -> Seq<char> {
    if base.len() == 0 || base.last() == '/' {
        base + part
    } else {
        base + seq!['/'] + part
    }
}

/// Joins a path component onto a path.
pub fn join(base: &str, part: &str) -> (r: String)
    ensures
        r@ == join_path(base@, part@),
{
    let mut v = chars_of(base);
    let n = v.len();
    if n > 0 && v[n - 1] != '/' {
        v.push('/');
    }
    extend_chars(&mut v, part);
    string_of(&v)
}

/// The configuration directory under `home`.
pub open spec fn config_dir_of(home: Seq<char>) -> Seq<char> {
    join_path(join_path(home, ".config"@), "melors"@)
}

/// The data directory under `home`.
pub open spec fn data_dir_of(home: Seq<char>) -> Seq<char> {
    join_path(join_path(join_path(home, ".local"@), "share"@), "melors"@)
}

/// The cache directory under `home`.
pub open spec fn cache_dir_of(home: Seq<char>) -> Seq<char> {
    join_path(join_path(home, ".cache"@), "melors"@)
}

/// The music directory used when the config file names none.
pub open spec fn default_music_dir_of(home: Seq<char>) -> Seq<char> {
    join_path(join_path(home, "Music"@), "melors"@)
}

/// The paths that follow from `home`: `~/.config/melors/config.toml`,
/// `~/.local/share/melors/db.sqlite`, `~/.cache/melors` and
/// `~/Music/melors`.
pub fn config_paths(home: &str) -> (p: ConfigPaths)
    ensures
        p.config_dir@ == config_dir_of(home@),
        p.config_path@ == join_path(config_dir_of(home@), "config.toml"@),
        p.data_dir@ == data_dir_of(home@),
        p.cache_dir@ == cache_dir_of(home@),
        p.default_music_dir@ == default_music_dir_of(home@),
        p.db_path@ == join_path(data_dir_of(home@), "db.sqlite"@),
{
    let config_base = join(home, ".config");
    let config_dir = join(config_base.as_str(), "melors");
    let config_path = join(config_dir.as_str(), "config.toml");
    let local = join(home, ".local");
    let share = join(local.as_str(), "share");
    let data_dir = join(share.as_str(), "melors");
    let cache_base = join(home, ".cache");
    let cache_dir = join(cache_base.as_str(), "melors");
    let music_base = join(home, "Music");
    let default_music_dir = join(music_base.as_str(), "melors");
    let db_path = join(data_dir.as_str(), "db.sqlite");
    ConfigPaths { config_dir, config_path, data_dir, cache_dir, default_music_dir, db_path }
}

impl Config {
    /// Settles the configuration from the home directory and the music
    /// directory named by the config file, if the file names one. Without a
    /// home directory there is no configuration.
    pub fn load_or_create(home: Option<&str>, file_music_dir: Option<String>) -> (r: Result<
        Config,
        ConfigError,
    >)
        ensures
            home is None <==> r == Err::<Config, ConfigError>(ConfigError::HomeUnresolved),
            home matches Some(h) ==> r matches Ok(c) && {
                &&& c.music_dir@ == match file_music_dir {
                    Some(m) => m@,
                    None => default_music_dir_of(h@),
                }
                &&& c.data_dir@ == data_dir_of(h@)
                &&& c.cache_dir@ == cache_dir_of(h@)
                &&& c.db_path@ == join_path(data_dir_of(h@), "db.sqlite"@)
            },
    {
        match home {
            None => Err(ConfigError::HomeUnresolved),
            Some(h) => {
                let paths = config_paths(h);
                let music_dir = match file_music_dir {
                    Some(m) => m,
                    None => paths.default_music_dir,
                };
                Ok(
                    Config {
                        music_dir,
                        data_dir: paths.data_dir,
                        cache_dir: paths.cache_dir,
                        db_path: paths.db_path,
                    },
                )
            },
        }
    }
}

} // verus!
