//! The metadata shown for a track, and how it falls back to the file name
//! when the file carries no tag.

use vstd::prelude::*;
use crate::text::owned;

verus! {

/// The metadata of one audio file.
#[derive(Debug, Clone)]
pub struct Metadata {
    pub title: String,
    pub artist: Option<String>,
    pub album: Option<String>,
    pub duration_secs: Option<i64>,
}

/// The fields read from a file's ID3 tag.
#[derive(Debug, Clone)]
pub struct TagFields {
    pub title: Option<String>,
    pub artist: Option<String>,
    pub album: Option<String>,
    pub duration_secs: Option<u32>,
}

/// The title used when neither the tag nor the file name gives one.
pub open spec fn unknown_title() -> Seq<char> {
    "Unknown Title"@
}

/// The metadata of a file, from the stem of its file name (where it has one
/// that is valid text) and its tag (where one could be read). The title is
/// the tag's, else the stem, else "Unknown Title"; without a tag there is no
/// artist, album or duration.
pub fn metadata_from_tag(file_stem: Option<String>, tag: Option<TagFields>) -> (m: Metadata)
    ensures
        ({
            let fallback = match file_stem {
                Some(s) => s@,
                None => unknown_title(),
            };
            match tag {
                None => {
                    &&& m.title@ == fallback
                    &&& m.artist is None
                    &&& m.album is None
                    &&& m.duration_secs is None
                },
                Some(t) => {
                    &&& m.title@ == match t.title {
                        Some(x) => x@,
                        None => fallback,
                    }
                    &&& m.artist == t.artist
                    &&& m.album == t.album
                    &&& m.duration_secs == match t.duration_secs {
                        Some(d) => Some(d as i64),
                        None => None::<i64>,
                    }
                },
            }
        }),
{
    let fallback = match file_stem {
        Some(s) => s,
        None => owned("Unknown Title"),
    };
    match tag {
        None => Metadata { title: fallback, artist: None, album: None, duration_secs: None },
        Some(t) => {
            let title = match t.title {
                Some(x) => x,
                None => fallback,
            };
            let duration_secs = match t.duration_secs {
                Some(d) => Some(d as i64),
                None => None,
            };
            Metadata { title, artist: t.artist, album: t.album, duration_secs }
        },
    }
}

/// A tag field as written to the file: an empty text removes the field.
pub fn tag_field(value: &str) -> (r: Option<String>)
    ensures
        value@.len() == 0 ==> r is None,
        value@.len() > 0 ==> (r matches Some(v) && v@ == value@),
{
    if value.unicode_len() == 0 {
        None
    } else {
        Some(owned(value))
    }
}

} // verus!
