//! Verified core of a keyboard-first terminal MP3 player: library and queue
//! rules, search-query parsing, playlist bookkeeping, scan scheduling, UI state
//! transitions, and the release / quality gates used to ship it.

pub mod text;
pub mod model;
pub mod release;
pub mod quality;
pub mod search;
pub mod playlists;
pub mod queue;
pub mod scanner;
pub mod ui;
pub mod config;
pub mod metadata;
pub mod session;
pub mod view;
pub mod controls;
pub mod output;
