//! Library search: the structured query language (`artist:`, `album:`,
//! `fav:` filters plus free text) and fuzzy ranking of tracks.

use vstd::prelude::*;
use vstd::relations::{sorted_by, total_ordering};
use fuzzy_matcher::FuzzyMatcher;
use crate::model::Track;
use crate::queue::{ids_of, track_ids};
use crate::text::{
    blank, chars_of, concat, contains_text, eq_ignore_case, extend_chars, is_blank, join,
    join_texts, lower, lower_seq, owned, split_words, string_of, text_contains, text_eq, to_lower, trim,
    trim_chars, trim_text, views, words,
};

verus! {

// ---------------------------------------------------------------------------
// Structured queries
// ---------------------------------------------------------------------------

#[derive(Debug, Clone, Default, PartialEq, Eq)]
pub struct StructuredSearchFilter {
    pub artist: Option<String>,
    pub album: Option<String>,
    pub favorite: Option<bool>,
}

#[derive(Debug, Clone, PartialEq, Eq)]
pub struct SearchOrchestrationQuery {
    pub raw_query: String,
    pub structured_filters: StructuredSearchFilter,
    pub residual_term: Option<String>,
}

/// The text of an optional string.
pub open spec fn opt_text(o: Option<String>) -> Option<Seq<char>> {
    match o {
        Some(s) => Some(s@),
        None => None,
    }
}

/// What a query has gathered so far: artist, album and favourite filters and
/// the tokens left for free-text search.
pub struct QueryScan {
    pub artist: Option<Seq<char>>,
    pub album: Option<Seq<char>>,
    pub favorite: Option<bool>,
    pub residual: Seq<Seq<char>>,
}

/// The boolean a favourite filter value stands for, if any.
pub open spec fn favorite_value(raw: Seq<char>) -> Option<bool> {
    let v = lower_seq(trim(raw));
    if v == "1"@ || v == "true"@ || v == "yes"@ || v == "y"@ || v == "on"@ {
        Some(true)
    } else if v == "0"@ || v == "false"@ || v == "no"@ || v == "n"@ || v == "off"@ {
        Some(false)
    } else {
        None
    }
}

/// Position of the first `c` in `s`.
pub open spec fn first_index_of(s: Seq<char>, c: char) -> Option<int>
    decreases s.len(),
{
    if s.len() == 0 {
        None
    } else if s[0] == c {
        Some(0)
    } else {
        match first_index_of(s.drop_first(), c) {
            Some(i) => Some(i + 1),
            None => None,
        }
    }
}

/// One token's effect on the query being gathered.
pub open spec fn scan_token(st: QueryScan, tok: Seq<char>) -> QueryScan {
    let as_residual = QueryScan { residual: st.residual.push(tok), ..st };
    match first_index_of(tok, ':') {
        None => as_residual,
        Some(i) => {
            let key = lower_seq(tok.take(i));
            let value = tok.skip(i + 1);
            if trim(value).len() == 0 {
                as_residual
            } else if key == "artist"@ {
                QueryScan { artist: Some(trim(value)), ..st }
            } else if key == "album"@ {
                QueryScan { album: Some(trim(value)), ..st }
            } else if key == "fav"@ || key == "favorite"@ {
                match favorite_value(value) {
                    Some(b) => QueryScan { favorite: Some(b), ..st },
                    None => as_residual,
                }
            } else {
                as_residual
            }
        },
    }
}

/// The effect of a sequence of tokens, taken in order.
pub open spec fn scan_tokens(toks: Seq<Seq<char>>) -> QueryScan
    decreases toks.len(),
{
    if toks.len() == 0 {
        QueryScan { artist: None, album: None, favorite: None, residual: Seq::empty() }
    } else {
        scan_token(scan_tokens(toks.drop_last()), toks.last())
    }
}

/// The free-text part of a query: the leftover tokens joined by single spaces,
/// or `None` when there are none.
pub open spec fn residual_of(raw: Seq<char>) -> Option<Seq<char>> {
    let r = trim(join(scan_tokens(words(raw)).residual, " "@));
    if r.len() == 0 {
        None
    } else {
        Some(r)
    }
}

impl StructuredSearchFilter {
    pub open spec fn spec_has_any(&self) -> bool {
        self.artist is Some || self.album is Some || self.favorite is Some
    }

    /// Whether any structured filter is set.
    pub fn has_any(&self) -> (r: bool)
        ensures
            r == self.spec_has_any(),
    {
        self.artist.is_some() || self.album.is_some() || self.favorite.is_some()
    }
}

/// Reads a favourite filter value: `1`, `true`, `yes`, `y`, `on` mean yes,
/// `0`, `false`, `no`, `n`, `off` mean no (any ASCII case, surrounding
/// whitespace ignored).
pub fn parse_favorite_value(raw: &str) -> (r: Option<bool>)
    ensures
        r == favorite_value(raw@),
{
    let t = trim_text(raw);
    let v = to_lower(t.as_str());
    let s = v.as_str();
    if text_eq(s, "1") || text_eq(s, "true") || text_eq(s, "yes") || text_eq(s, "y") || text_eq(
        s,
        "on",
    ) {
        Some(true)
    } else if text_eq(s, "0") || text_eq(s, "false") || text_eq(s, "no") || text_eq(s, "n")
        || text_eq(s, "off") {
        Some(false)
    } else {
        None
    }
}

fn find_char(v: &Vec<char>, c: char) -> (r: Option<usize>)
    ensures
        match r {
            Some(i) => first_index_of(v@, c) == Some(i as int) && i < v.len(),
            None => first_index_of(v@, c) is None,
        },
{
    let mut i: usize = 0;
    assert(v@.skip(0) =~= v@);
    while i < v.len()
        invariant
            i <= v.len(),
            first_index_of(v@, c) == (match first_index_of(v@.skip(i as int), c) {
                Some(k) => Some(k + i),
                None => None,
            }),
        decreases v.len() - i,
    {
        assert(v@.skip(i as int).drop_first() =~= v@.skip(i + 1));
        if v[i] == c {
            return Some(i);
        }
        i = i + 1;
    }
    None
}

fn slice_chars(v: &Vec<char>, from: usize, to: usize) -> (r: Vec<char>)
    requires
        from <= to <= v.len(),
    ensures
        r@ == v@.subrange(from as int, to as int),
{
    let mut r: Vec<char> = Vec::new();
    let mut i = from;
    while i < to
        invariant
            from <= i <= to <= v.len(),
            r@ == v@.subrange(from as int, i as int),
        decreases to - i,
    {
        r.push(v[i]);
        i = i + 1;
        assert(r@ =~= v@.subrange(from as int, i as int));
    }
    r
}

/// Splits a search query into structured filters and a free-text residual.
/// Tokens are whitespace-separated; `artist:x`, `album:x` and `fav:x` /
/// `favorite:x` (keys in any ASCII case) set a filter, the last one of a kind
/// winning; a token without `:`, with an empty value, with an unknown key or
/// with an unreadable favourite value stays in the free text.
pub fn parse_search_orchestration_query(raw_query: &str) -> (q: SearchOrchestrationQuery)
    ensures
        q.raw_query@ == raw_query@,
        opt_text(q.structured_filters.artist) == scan_tokens(words(raw_query@)).artist,
        opt_text(q.structured_filters.album) == scan_tokens(words(raw_query@)).album,
        q.structured_filters.favorite == scan_tokens(words(raw_query@)).favorite,
        opt_text(q.residual_term) == residual_of(raw_query@),
{
    let toks = split_words(raw_query);
    let ghost ws = words(raw_query@);
    let mut artist: Option<String> = None;
    let mut album: Option<String> = None;
    let mut favorite: Option<bool> = None;
    let mut residual_parts: Vec<String> = Vec::new();
    let mut i: usize = 0;
    assert(ws.take(0) =~= Seq::<Seq<char>>::empty());
    while i < toks.len()
        invariant
            i <= toks.len(),
            toks@.len() == ws.len(),
            forall|k: int| 0 <= k < toks@.len() ==> (#[trigger] toks@[k])@ == ws[k],
            opt_text(artist) == scan_tokens(ws.take(i as int)).artist,
            opt_text(album) == scan_tokens(ws.take(i as int)).album,
            favorite == scan_tokens(ws.take(i as int)).favorite,
            views(residual_parts@) == scan_tokens(ws.take(i as int)).residual,
        decreases toks.len() - i,
    {
        let tok = &toks[i];
        let ghost st = scan_tokens(ws.take(i as int));
        assert(ws.take(i + 1).drop_last() =~= ws.take(i as int));
        assert(ws.take(i + 1).last() == tok@);
        let ghost before = views(residual_parts@);
        let tv = chars_of(tok.as_str());
        let mut to_residual = false;
        match find_char(&tv, ':') {
            None => {
                to_residual = true;
            },
            Some(idx) => {
                let key_chars = slice_chars(&tv, 0, idx);
                let value_chars = slice_chars(&tv, idx + 1, tv.len());
                assert(key_chars@ =~= tok@.take(idx as int));
                assert(value_chars@ =~= tok@.skip(idx + 1));
                let value_trim = trim_chars(&value_chars);
                if value_trim.len() == 0 {
                    to_residual = true;
                } else {
                    let key_text = string_of(&key_chars);
                    let key = to_lower(key_text.as_str());
                    let value_text = string_of(&value_chars);
                    if text_eq(key.as_str(), "artist") {
                        artist = Some(string_of(&value_trim));
                    } else if text_eq(key.as_str(), "album") {
                        album = Some(string_of(&value_trim));
                    } else if text_eq(key.as_str(), "fav") || text_eq(key.as_str(), "favorite") {
                        match parse_favorite_value(value_text.as_str()) {
                            Some(b) => {
                                favorite = Some(b);
                            },
                            None => {
                                to_residual = true;
                            },
                        }
                    } else {
                        to_residual = true;
                    }
                }
            },
        }
        if to_residual {
            residual_parts.push(tok.clone());
            assert(views(residual_parts@) =~= before.push(tok@));
        }
        i = i + 1;
    }
    assert(ws.take(toks.len() as int) =~= ws);
    let joined = join_texts(&residual_parts, " ");
    let residual = trim_text(joined.as_str());
    let residual_term = if residual.as_str().unicode_len() == 0 {
        None
    } else {
        Some(residual)
    };
    SearchOrchestrationQuery {
        raw_query: owned(raw_query),
        structured_filters: StructuredSearchFilter { artist, album, favorite },
        residual_term,
    }
}

/// Whether a track passes the structured filters: its artist and album
/// contain the filter text (ASCII case ignored) and its favourite flag equals
/// the favourite filter, for each filter that is set.
pub open spec fn track_matches_filters(t: Track, f: StructuredSearchFilter) -> bool {
    &&& (f.artist matches Some(a) ==> (t.artist matches Some(ta) && contains_text(
        lower_seq(ta@),
        lower_seq(a@),
    )))
    &&& (f.album matches Some(a) ==> (t.album matches Some(ta) && contains_text(
        lower_seq(ta@),
        lower_seq(a@),
    )))
    &&& (f.favorite matches Some(b) ==> t.favorite == b)
}

/// The ids of the tracks that pass the filters, in library order.
pub open spec fn filtered_ids(tracks: Seq<Track>, f: StructuredSearchFilter) -> Seq<i64>
    decreases tracks.len(),
{
    if tracks.len() == 0 {
        Seq::empty()
    } else if track_matches_filters(tracks.last(), f) {
        filtered_ids(tracks.drop_last(), f).push(tracks.last().id)
    } else {
        filtered_ids(tracks.drop_last(), f)
    }
}

fn field_matches(field: &Option<String>, filter: &Option<String>) -> (r: bool)
    ensures
        r == (filter matches Some(a) ==> (field matches Some(ta) && contains_text(
            lower_seq(ta@),
            lower_seq(a@),
        ))),
{
    match filter {
        None => true,
        Some(a) => match field {
            None => false,
            Some(ta) => {
                let lt = to_lower(ta.as_str());
                let la = to_lower(a.as_str());
                text_contains(lt.as_str(), la.as_str())
            },
        },
    }
}

/// The ids of the tracks that pass the structured filters, in library order.
/// This library's own matching rule: an `artist:` or `album:` filter passes a
/// track whose artist or album contains the filter text, ignoring ASCII case
/// (a track without that field fails it), and a `fav:` filter passes the
/// tracks whose favourite flag equals it. The filtering is done on the loaded
/// library rather than in the database.
pub fn filter_track_ids(tracks: &Vec<Track>, filters: &StructuredSearchFilter) -> (r: Vec<i64>)
    ensures
        r@ == filtered_ids(tracks@, *filters),
{
    let mut r: Vec<i64> = Vec::new();
    let mut i: usize = 0;
    assert(tracks@.take(0) =~= Seq::<Track>::empty());
    while i < tracks.len()
        invariant
            i <= tracks.len(),
            r@ == filtered_ids(tracks@.take(i as int), *filters),
        decreases tracks.len() - i,
    {
        let t = &tracks[i];
        assert(tracks@.take(i + 1).drop_last() =~= tracks@.take(i as int));
        let fav_ok = match filters.favorite {
            None => true,
            Some(b) => t.favorite == b,
        };
        if field_matches(&t.artist, &filters.artist) && field_matches(&t.album, &filters.album)
            && fav_ok {
            r.push(t.id);
        }
        i = i + 1;
    }
    assert(tracks@.take(tracks.len() as int) =~= tracks@);
    r
}

// ---------------------------------------------------------------------------
// Fuzzy ranking
// ---------------------------------------------------------------------------

/// The score the default skim matcher (v2) of `fuzzy-matcher` gives `choice`
/// for `pattern`, or `None` when the pattern does not match.
pub uninterp spec fn fuzzy_score(choice: Seq<char>, pattern: Seq<char>) -> Option<i64>;

/// `SkimMatcherV2::default().fuzzy_match(choice, pattern)` of `fuzzy-matcher`.
/// Its result is the named score of the two texts; the crate returns a score
/// of zero for an empty pattern.
#[verifier::external_body]
fn fuzzy_match(choice: &str, pattern: &str) -> (r: Option<i64>)
    ensures
        r == fuzzy_score(choice@, pattern@),
        pattern@.len() == 0 ==> r == Some(0i64),
{
    fuzzy_matcher::skim::SkimMatcherV2::default().fuzzy_match(choice, pattern)
}

/// The ranking order: higher score first, ties by smaller key first.
pub open spec fn rank_leq(a: (i64, i64), b: (i64, i64)) -> bool {
    a.1 > b.1 || (a.1 == b.1 && a.0 <= b.0)
}

pub proof fn lemma_rank_leq_total()
    ensures
        total_ordering(|a: (i64, i64), b: (i64, i64)| rank_leq(a, b)),
{
}

/// The keys of `(key, score)` pairs.
pub open spec fn keys_of(s: Seq<(i64, i64)>) -> Seq<i64> {
    s.map_values(|p: (i64, i64)| p.0)
}

/// `(key, score)` pairs in ranking order.
pub open spec fn ranked(s: Seq<(i64, i64)>) -> Seq<(i64, i64)> {
    s.sort_by(|a: (i64, i64), b: (i64, i64)| rank_leq(a, b))
}

proof fn lemma_insert_multiset(s: Seq<(i64, i64)>, p: int, x: (i64, i64))
    requires
        0 <= p <= s.len(),
    ensures
        s.insert(p, x).to_multiset() == s.to_multiset().insert(x),
{
    broadcast use vstd::seq_lib::group_to_multiset_ensures;
    broadcast use vstd::multiset::group_multiset_axioms;

    let t = s.insert(p, x);
    assert(t.remove(p) =~= s);
    assert(t[p] == x);
    assert(t.remove(p).to_multiset() =~= t.to_multiset().remove(x));
    assert(t.to_multiset().count(x) > 0);
    assert(t.to_multiset() =~= t.to_multiset().remove(x).insert(x));
}

/// Sorts `(key, score)` pairs into ranking order.
pub fn sort_ranked(v: &mut Vec<(i64, i64)>)
    ensures
        final(v)@ == ranked(old(v)@),
{
    let ghost leq = |a: (i64, i64), b: (i64, i64)| rank_leq(a, b);
    let mut out: Vec<(i64, i64)> = Vec::new();
    let mut i: usize = 0;
    assert(v@.take(0).to_multiset() =~= out@.to_multiset()) by {
        broadcast use vstd::seq_lib::group_to_multiset_ensures;
        broadcast use vstd::multiset::group_multiset_axioms;
        assert(v@.take(0) =~= Seq::<(i64, i64)>::empty());
    }
    while i < v.len()
        invariant
            i <= v.len(),
            v@ == old(v)@,
            sorted_by(out@, leq),
            out@.to_multiset() == v@.take(i as int).to_multiset(),
            leq == (|a: (i64, i64), b: (i64, i64)| rank_leq(a, b)),
        decreases v.len() - i,
    {
        let x = v[i];
        let mut p: usize = 0;
        while p < out.len() && rank_leq_exec(out[p], x)
            invariant
                p <= out.len(),
                forall|k: int| 0 <= k < p ==> rank_leq(#[trigger] out@[k], x),
            decreases out.len() - p,
        {
            p = p + 1;
        }
        let ghost before = out@;
        out.insert(p, x);
        proof {
            assert(out@ == before.insert(p as int, x));
            lemma_insert_multiset(before, p as int, x);
            assert(v@.take(i + 1) =~= v@.take(i as int).push(x));
            broadcast use vstd::seq_lib::group_to_multiset_ensures;
            assert(out@.to_multiset() =~= v@.take(i + 1).to_multiset());
            assert forall|a: int, b: int| 0 <= a < b < out@.len() implies #[trigger] leq(
                out@[a],
                out@[b],
            ) by {
                if p < before.len() {
                    assert(!rank_leq(before[p as int], x));
                }
                if a < p && b == p {
                } else if a == p && b > p {
                    assert(out@[b] == before[b - 1]);
                    assert(leq(before[p as int], before[b - 1]));
                } else if a < p && b > p {
                    assert(out@[b] == before[b - 1]);
                    assert(leq(before[a], before[b - 1]));
                } else if b < p {
                    assert(leq(before[a], before[b]));
                } else {
                    assert(out@[a] == before[a - 1]);
                    assert(out@[b] == before[b - 1]);
                    assert(leq(before[a - 1], before[b - 1]));
                }
            }
        }
        i = i + 1;
    }
    proof {
        assert(v@.take(v.len() as int) =~= v@);
        lemma_rank_leq_total();
        v@.lemma_sort_by_ensures(leq);
        vstd::seq_lib::lemma_sorted_unique(out@, v@.sort_by(leq), leq);
    }
    *v = out;
}

fn rank_leq_exec(a: (i64, i64), b: (i64, i64)) -> (r: bool)
    ensures
        r == rank_leq(a, b),
{
    a.1 > b.1 || (a.1 == b.1 && a.0 <= b.0)
}

/// The keys of `(key, score)` pairs in ranking order: best score first, equal
/// scores by smaller key.
pub fn rank_scored_candidates(scored: Vec<(i64, i64)>) -> (r: Vec<i64>)
    ensures
        r@ == keys_of(ranked(scored@)),
{
    let mut s = scored;
    sort_ranked(&mut s);
    let mut r: Vec<i64> = Vec::new();
    let mut i: usize = 0;
    while i < s.len()
        invariant
            i <= s.len(),
            r@ == keys_of(s@.take(i as int)),
        decreases s.len() - i,
    {
        r.push(s[i].0);
        i = i + 1;
        assert(r@ =~= keys_of(s@.take(i as int)));
    }
    assert(s@.take(s.len() as int) =~= s@);
    r
}

/// The larger of two optional scores, ignoring absent ones.
pub open spec fn opt_max(a: Option<i64>, b: Option<i64>) -> Option<i64> {
    match (a, b) {
        (Some(x), Some(y)) => Some(if x >= y { x } else { y }),
        (Some(x), None) => Some(x),
        (None, y) => y,
    }
}

fn opt_max_exec(a: Option<i64>, b: Option<i64>) -> (r: Option<i64>)
    ensures
        r == opt_max(a, b),
{
    match (a, b) {
        (Some(x), Some(y)) => Some(if x >= y { x } else { y }),
        (Some(x), None) => Some(x),
        (None, y) => y,
    }
}

/// The best fuzzy score of a track's title, artist and album.
pub open spec fn track_score(t: Track, kw: Seq<char>) -> Option<i64> {
    let artist = match t.artist {
        Some(a) => fuzzy_score(a@, kw),
        None => None,
    };
    let album = match t.album {
        Some(a) => fuzzy_score(a@, kw),
        None => None,
    };
    opt_max(opt_max(fuzzy_score(t.title@, kw), artist), album)
}

/// The last position of a track with the given id.
pub open spec fn last_index_of_id(tracks: Seq<Track>, id: i64) -> Option<int>
    decreases tracks.len(),
{
    if tracks.len() == 0 {
        None
    } else if tracks.last().id == id {
        Some(tracks.len() - 1)
    } else {
        last_index_of_id(tracks.drop_last(), id)
    }
}

/// Candidate ids paired with the best score of their track, for the
/// candidates that have a track and a match.
pub open spec fn scored_candidates(tracks: Seq<Track>, ids: Seq<i64>, kw: Seq<char>) -> Seq<
    (i64, i64),
>
    decreases ids.len(),
{
    if ids.len() == 0 {
        Seq::empty()
    } else {
        let rest = scored_candidates(tracks, ids.drop_last(), kw);
        match last_index_of_id(tracks, ids.last()) {
            None => rest,
            Some(i) => match track_score(tracks[i], kw) {
                Some(s) => rest.push((ids.last(), s)),
                None => rest,
            },
        }
    }
}

/// The last position of a track with this id (the one an id lookup finds).
pub fn track_position(tracks: &Vec<Track>, id: i64) -> (r: Option<usize>)
    ensures
        match r {
            Some(i) => last_index_of_id(tracks@, id) == Some(i as int) && i < tracks.len(),
            None => last_index_of_id(tracks@, id) is None,
        },
{
    let mut j: usize = tracks.len();
    assert(tracks@.take(j as int) =~= tracks@);
    while j > 0
        invariant
            j <= tracks.len(),
            last_index_of_id(tracks@, id) == last_index_of_id(tracks@.take(j as int), id),
        decreases j,
    {
        assert(tracks@.take(j as int).drop_last() =~= tracks@.take(j - 1));
        if tracks[j - 1].id == id {
            return Some(j - 1);
        }
        j = j - 1;
    }
    None
}

fn score_track(t: &Track, keyword: &str) -> (r: Option<i64>)
    ensures
        r == track_score(*t, keyword@),
{
    let title = fuzzy_match(t.title.as_str(), keyword);
    let artist = match &t.artist {
        Some(a) => fuzzy_match(a.as_str(), keyword),
        None => None,
    };
    let album = match &t.album {
        Some(a) => fuzzy_match(a.as_str(), keyword),
        None => None,
    };
    opt_max_exec(opt_max_exec(title, artist), album)
}

/// Ranks the given candidate ids by how well their track's title, artist or
/// album fuzzily matches `keyword`; candidates without a track or without a
/// match are dropped. A blank keyword keeps the candidates as they are.
pub fn rank_filtered_candidates_by_fuzzy(
    tracks: &Vec<Track>,
    candidate_ids: &Vec<i64>,
    keyword: &str,
) -> (r: Vec<i64>)
    ensures
        blank(keyword@) ==> r@ == candidate_ids@,
        !blank(keyword@) ==> r@ == keys_of(
            ranked(scored_candidates(tracks@, candidate_ids@, keyword@)),
        ),
{
    if is_blank(keyword) {
        let mut r: Vec<i64> = Vec::new();
        let mut i: usize = 0;
        while i < candidate_ids.len()
            invariant
                i <= candidate_ids.len(),
                r@ == candidate_ids@.take(i as int),
            decreases candidate_ids.len() - i,
        {
            r.push(candidate_ids[i]);
            i = i + 1;
            assert(r@ =~= candidate_ids@.take(i as int));
        }
        assert(candidate_ids@.take(candidate_ids.len() as int) =~= candidate_ids@);
        return r;
    }
    let mut scored: Vec<(i64, i64)> = Vec::new();
    let mut i: usize = 0;
    assert(candidate_ids@.take(0) =~= Seq::<i64>::empty());
    while i < candidate_ids.len()
        invariant
            i <= candidate_ids.len(),
            scored@ == scored_candidates(tracks@, candidate_ids@.take(i as int), keyword@),
        decreases candidate_ids.len() - i,
    {
        let id = candidate_ids[i];
        assert(candidate_ids@.take(i + 1).drop_last() =~= candidate_ids@.take(i as int));
        match track_position(tracks, id) {
            None => {},
            Some(k) => match score_track(&tracks[k], keyword) {
                Some(s) => {
                    scored.push((id, s));
                },
                None => {},
            },
        }
        i = i + 1;
    }
    assert(candidate_ids@.take(candidate_ids.len() as int) =~= candidate_ids@);
    rank_scored_candidates(scored)
}

/// The text a track is searched by: title, artist and album separated by
/// single spaces (a missing artist or album counts as empty).
pub open spec fn haystack(t: Track) -> Seq<char> {
    let artist = match t.artist {
        Some(a) => a@,
        None => Seq::empty(),
    };
    let album = match t.album {
        Some(a) => a@,
        None => Seq::empty(),
    };
    t.title@ + " "@ + artist + " "@ + album
}

/// Track positions paired with their score, for the tracks that match.
pub open spec fn matching_positions(tracks: Seq<Track>, kw: Seq<char>) -> Seq<(i64, i64)>
    decreases tracks.len(),
{
    if tracks.len() == 0 {
        Seq::empty()
    } else {
        let rest = matching_positions(tracks.drop_last(), kw);
        match fuzzy_score(haystack(tracks.last()), kw) {
            Some(s) => rest.push(((tracks.len() - 1) as i64, s)),
            None => rest,
        }
    }
}

proof fn lemma_positions_in_range(tracks: Seq<Track>, kw: Seq<char>)
    requires
        tracks.len() <= i64::MAX,
    ensures
        forall|k: int|
            0 <= k < matching_positions(tracks, kw).len() ==> 0 <= (#[trigger] matching_positions(
                tracks,
                kw,
            )[k]).0 < tracks.len(),
    decreases tracks.len(),
{
    if tracks.len() > 0 {
        let p = tracks.drop_last();
        lemma_positions_in_range(p, kw);
        let rest = matching_positions(p, kw);
        assert forall|k: int| 0 <= k < matching_positions(tracks, kw).len() implies 0 <= (
        #[trigger] matching_positions(tracks, kw)[k]).0 < tracks.len() by {
            if k < rest.len() {
                assert(matching_positions(tracks, kw)[k] == rest[k]);
            }
        }
    }
}

/// The tracks that fuzzily match `keyword` (over title, artist and album),
/// best score first; tracks with equal scores keep their library order. A
/// blank keyword returns every track in order.
pub fn search_tracks<'a>(tracks: &'a Vec<Track>, keyword: &str) -> (r: Vec<&'a Track>)
    requires
        tracks@.len() <= i64::MAX,
    ensures
        blank(keyword@) ==> r@.len() == tracks@.len() && forall|k: int|
            0 <= k < r@.len() ==> *(#[trigger] r@[k]) == tracks@[k],
        !blank(keyword@) ==> ({
            let order = ranked(matching_positions(tracks@, keyword@));
            &&& r@.len() == order.len()
            &&& forall|k: int|
                0 <= k < r@.len() ==> 0 <= order[k].0 < tracks@.len() && *(#[trigger] r@[k])
                    == tracks@[order[k].0 as int]
        }),
{
    let mut r: Vec<&'a Track> = Vec::new();
    if is_blank(keyword) {
        let mut i: usize = 0;
        while i < tracks.len()
            invariant
                i <= tracks.len(),
                r@.len() == i,
                forall|k: int| 0 <= k < i ==> *(#[trigger] r@[k]) == tracks@[k],
            decreases tracks.len() - i,
        {
            r.push(&tracks[i]);
            i = i + 1;
        }
        return r;
    }
    let mut scored: Vec<(i64, i64)> = Vec::new();
    let mut i: usize = 0;
    assert(tracks@.take(0) =~= Seq::<Track>::empty());
    while i < tracks.len()
        invariant
            i <= tracks.len(),
            tracks@.len() <= i64::MAX,
            scored@ == matching_positions(tracks@.take(i as int), keyword@),
        decreases tracks.len() - i,
    {
        let t = &tracks[i];
        assert(tracks@.take(i + 1).drop_last() =~= tracks@.take(i as int));
        let mut hv = chars_of(t.title.as_str());
        extend_chars(&mut hv, " ");
        match &t.artist {
            Some(a) => extend_chars(&mut hv, a.as_str()),
            None => {},
        }
        extend_chars(&mut hv, " ");
        match &t.album {
            Some(a) => extend_chars(&mut hv, a.as_str()),
            None => {},
        }
        let hs = string_of(&hv);
        assert(hs@ =~= haystack(*t));
        match fuzzy_match(hs.as_str(), keyword) {
            Some(s) => {
                scored.push((i as i64, s));
            },
            None => {},
        }
        i = i + 1;
    }
    assert(tracks@.take(tracks.len() as int) =~= tracks@);
    let ghost m = scored@;
    sort_ranked(&mut scored);
    proof {
        lemma_positions_in_range(tracks@, keyword@);
        lemma_rank_leq_total();
        m.lemma_sort_by_ensures(|a: (i64, i64), b: (i64, i64)| rank_leq(a, b));
        assert forall|k: int| 0 <= k < scored@.len() implies 0 <= (#[trigger] scored@[k]).0
            < tracks@.len() by {
            broadcast use vstd::seq_lib::group_to_multiset_ensures;
            assert(ranked(m).contains(scored@[k]));
            assert(m.contains(scored@[k]));
        }
    }
    let mut j: usize = 0;
    while j < scored.len()
        invariant
            j <= scored.len(),
            forall|k: int| 0 <= k < scored@.len() ==> 0 <= (#[trigger] scored@[k]).0 < tracks@.len(),
            r@.len() == j,
            forall|k: int| 0 <= k < j ==> *(#[trigger] r@[k]) == tracks@[scored@[k].0 as int],
        decreases scored.len() - j,
    {
        let key = scored[j].0;
        assert(0 <= scored@[j as int].0 < tracks@.len());
        let n = tracks.len();
        assert(0 <= key && (key as int) < (n as int));
        let idx = key as usize;
        assert(idx as int == scored@[j as int].0);
        r.push(&tracks[idx]);
        j = j + 1;
    }
    r
}


/// The ids of the tracks at the ranked positions.
pub open spec fn ids_at(tracks: Seq<Track>, order: Seq<(i64, i64)>) -> Seq<i64> {
    order.map_values(|p: (i64, i64)| tracks[p.0 as int].id)
}

/// The ids a parsed search finds. The structured filters, when any is set,
/// pick the candidates (otherwise every track is one); a residual term that
/// is not blank then ranks them by fuzzy score: over the whole library when
/// no filter is set, over the filtered candidates otherwise.
pub fn search_track_ids(tracks: &Vec<Track>, query: &SearchOrchestrationQuery) -> (r: Vec<i64>)
    requires
        tracks@.len() <= i64::MAX,
    ensures
        ({
            let f = query.structured_filters;
            let base = if f.spec_has_any() {
                filtered_ids(tracks@, f)
            } else {
                ids_of(tracks@)
            };
            match query.residual_term {
                None => r@ == base,
                Some(t) => if blank(t@) {
                    r@ == base
                } else if !f.spec_has_any() {
                    r@ == ids_at(tracks@, ranked(matching_positions(tracks@, t@)))
                } else {
                    r@ == keys_of(ranked(scored_candidates(tracks@, base, t@)))
                },
            }
        }),
{
    let filters = &query.structured_filters;
    let filtered = if filters.has_any() {
        filter_track_ids(tracks, filters)
    } else {
        track_ids(tracks)
    };
    let residual = match &query.residual_term {
        None => {
            return filtered;
        },
        Some(t) => t,
    };
    if is_blank(residual.as_str()) {
        return filtered;
    }
    if !filters.has_any() {
        let kw = residual.as_str();
        assert(!blank(kw@));
        let found = search_tracks(tracks, kw);
        let ghost order = ranked(matching_positions(tracks@, kw@));
        assert(found@.len() == order.len());
        assert forall|k: int| 0 <= k < found@.len() implies 0 <= #[trigger] order[k].0 < tracks@.len() by {
            assert(*found@[k] == tracks@[order[k].0 as int]);
        }
        let mut r: Vec<i64> = Vec::new();
        let mut i: usize = 0;
        while i < found.len()
            invariant
                i <= found.len(),
                found@.len() == order.len(),
                forall|k: int| 0 <= k < found@.len() ==> 0 <= #[trigger] order[k].0 < tracks@.len(),
                forall|k: int|
                    0 <= k < found@.len() ==> *(#[trigger] found@[k]) == tracks@[order[k].0 as int],
                r@ == ids_at(tracks@, order).take(i as int),
            decreases found.len() - i,
        {
            r.push(found[i].id);
            i = i + 1;
            assert(r@ =~= ids_at(tracks@, order).take(i as int));
        }
        assert(ids_at(tracks@, order).take(i as int) =~= ids_at(tracks@, order));
        return r;
    }
    rank_filtered_candidates_by_fuzzy(tracks, &filtered, residual.as_str())
}

proof fn lemma_scored_keys_in(tracks: Seq<Track>, ids: Seq<i64>, kw: Seq<char>)
    ensures
        forall|k: int|
            0 <= k < scored_candidates(tracks, ids, kw).len() ==> ids.contains(
                (#[trigger] scored_candidates(tracks, ids, kw)[k]).0,
            ),
    decreases ids.len(),
{
    if ids.len() > 0 {
        let rest_ids = ids.drop_last();
        lemma_scored_keys_in(tracks, rest_ids, kw);
        let rest = scored_candidates(tracks, rest_ids, kw);
        assert forall|k: int|
            0 <= k < scored_candidates(tracks, ids, kw).len() implies ids.contains(
            (#[trigger] scored_candidates(tracks, ids, kw)[k]).0,
        ) by {
            if k < rest.len() {
                assert(rest_ids.contains(rest[k].0));
                let j = choose|j: int| 0 <= j < rest_ids.len() && rest_ids[j] == rest[k].0;
                assert(ids[j] == rest_ids[j]);
            } else {
                assert(ids[ids.len() - 1] == ids.last());
            }
        }
    }
}

/// Fuzzy ranking only orders and drops candidates: every id it returns is one
/// of the candidate ids.
pub proof fn law_fuzzy_ranking_within_candidates(tracks: Seq<Track>, ids: Seq<i64>, kw: Seq<char>)
    ensures
        forall|k: int|
            0 <= k < keys_of(ranked(scored_candidates(tracks, ids, kw))).len() ==> ids.contains(
                #[trigger] keys_of(ranked(scored_candidates(tracks, ids, kw)))[k],
            ),
{
    let sc = scored_candidates(tracks, ids, kw);
    let leq = |a: (i64, i64), b: (i64, i64)| rank_leq(a, b);
    lemma_rank_leq_total();
    sc.lemma_sort_by_ensures(leq);
    lemma_scored_keys_in(tracks, ids, kw);
    let r = ranked(sc);
    assert forall|k: int| 0 <= k < keys_of(r).len() implies ids.contains(#[trigger] keys_of(r)[k]) by {
        assert(r.contains(r[k]));
        assert(sc.contains(r[k]));
        let j = choose|j: int| 0 <= j < sc.len() && sc[j] == r[k];
        assert(ids.contains(sc[j].0));
    }
}

/// The text of a missing artist or album: empty.
pub open spec fn field_text(f: Option<String>) -> Seq<char> {
    match f {
        Some(x) => x@,
        None => Seq::empty(),
    }
}

/// Free-text search looks at the whole of a track: the text it matches the
/// keyword against starts with the title, holds the artist after one space
/// and ends with the album after another, so that a keyword found in any of
/// the three can match.
pub proof fn law_search_text_holds_all_fields(t: Track)
    ensures
        ({
            let h = haystack(t);
            let tl = t.title@.len() as int;
            let al = field_text(t.artist).len() as int;
            let bl = field_text(t.album).len() as int;
            &&& h.len() == tl + al + bl + 2
            &&& h.subrange(0, tl) == t.title@
            &&& h[tl] == ' '
            &&& h.subrange(tl + 1, tl + 1 + al) == field_text(t.artist)
            &&& h[tl + 1 + al] == ' '
            &&& h.subrange(tl + 2 + al, h.len() as int) == field_text(t.album)
        }),
{
    reveal_strlit(" ");
    let h = haystack(t);
    let tl = t.title@.len() as int;
    let al = field_text(t.artist).len() as int;
    assert(h.subrange(0, tl) =~= t.title@);
    assert(h.subrange(tl + 1, tl + 1 + al) =~= field_text(t.artist));
    assert(h.subrange(tl + 2 + al, h.len() as int) =~= field_text(t.album));
}

proof fn lemma_matching_positions_has(tracks: Seq<Track>, kw: Seq<char>, p: int, s: i64)
    requires
        0 <= p < tracks.len(),
        tracks.len() <= i64::MAX,
        fuzzy_score(haystack(tracks[p]), kw) == Some(s),
    ensures
        matching_positions(tracks, kw).contains((p as i64, s)),
    decreases tracks.len(),
{
    let rest = matching_positions(tracks.drop_last(), kw);
    if p == tracks.len() - 1 {
        assert(matching_positions(tracks, kw) == rest.push((p as i64, s)));
        assert(matching_positions(tracks, kw)[rest.len() as int] == (p as i64, s));
    } else {
        lemma_matching_positions_has(tracks.drop_last(), kw, p, s);
        assert(tracks.drop_last()[p] == tracks[p]);
        let k = choose|k: int| 0 <= k < rest.len() && rest[k] == (p as i64, s);
        let m = matching_positions(tracks, kw);
        assert(m[k] == rest[k]);
    }
}

/// A track whose text matches a non-blank keyword is found by free-text
/// search: some result is that very track (its position in the ranking is
/// the one `search_tracks` returns it at).
pub proof fn law_search_finds_every_match(tracks: Seq<Track>, kw: Seq<char>, p: int)
    requires
        0 <= p < tracks.len(),
        tracks.len() <= i64::MAX,
        fuzzy_score(haystack(tracks[p]), kw) is Some,
    ensures
        exists|k: int|
            0 <= k < ranked(matching_positions(tracks, kw)).len() && (#[trigger] ranked(
                matching_positions(tracks, kw),
            )[k]).0 == p,
{
    let s = fuzzy_score(haystack(tracks[p]), kw)->0;
    let m = matching_positions(tracks, kw);
    lemma_matching_positions_has(tracks, kw, p, s);
    lemma_rank_leq_total();
    m.lemma_sort_by_ensures(|a: (i64, i64), b: (i64, i64)| rank_leq(a, b));
    broadcast use vstd::seq_lib::group_to_multiset_ensures;

    let r = ranked(m);
    assert(m.to_multiset().count((p as i64, s)) > 0);
    assert(r.to_multiset().count((p as i64, s)) > 0);
    assert(r.contains((p as i64, s)));
    let k = choose|k: int| 0 <= k < r.len() && r[k] == (p as i64, s);
    assert(r[k].0 == p);
}

/// A track's score is the best of its title, artist and album scores: it
/// matches when any of the three matches, it is at least each of their
/// scores, and it is one of them.
pub proof fn law_track_score_is_best_field(t: Track, kw: Seq<char>)
    ensures
        ({
            let ts = fuzzy_score(t.title@, kw);
            let ars = match t.artist {
                Some(a) => fuzzy_score(a@, kw),
                None => None,
            };
            let als = match t.album {
                Some(a) => fuzzy_score(a@, kw),
                None => None,
            };
            &&& (track_score(t, kw) is None) == (ts is None && ars is None && als is None)
            &&& ts matches Some(x) ==> (track_score(t, kw) matches Some(y) && y >= x)
            &&& ars matches Some(x) ==> (track_score(t, kw) matches Some(y) && y >= x)
            &&& als matches Some(x) ==> (track_score(t, kw) matches Some(y) && y >= x)
            &&& track_score(t, kw) matches Some(y) ==> (ts == Some(y) || ars == Some(y) || als
                == Some(y))
        }),
{
}

proof fn lemma_scored_candidates_has(tracks: Seq<Track>, ids: Seq<i64>, kw: Seq<char>, j: int, s: i64)
    requires
        0 <= j < ids.len(),
        last_index_of_id(tracks, ids[j]) matches Some(i) && track_score(tracks[i], kw) == Some(s),
    ensures
        scored_candidates(tracks, ids, kw).contains((ids[j], s)),
    decreases ids.len(),
{
    let rest = scored_candidates(tracks, ids.drop_last(), kw);
    if j == ids.len() - 1 {
        assert(scored_candidates(tracks, ids, kw) == rest.push((ids[j], s)));
        assert(scored_candidates(tracks, ids, kw)[rest.len() as int] == (ids[j], s));
    } else {
        lemma_scored_candidates_has(tracks, ids.drop_last(), kw, j, s);
        let k = choose|k: int| 0 <= k < rest.len() && rest[k] == (ids[j], s);
        let m = scored_candidates(tracks, ids, kw);
        assert(m[k] == rest[k]);
    }
}

/// A candidate is kept by the fuzzy ranking when any of its track's title,
/// artist or album matches the keyword: in particular a track that matches
/// by its album alone.
pub proof fn law_ranking_keeps_field_matches(
    tracks: Seq<Track>,
    ids: Seq<i64>,
    kw: Seq<char>,
    j: int,
    i: int,
)
    requires
        0 <= j < ids.len(),
        last_index_of_id(tracks, ids[j]) == Some(i),
        track_score(tracks[i], kw) is Some,
    ensures
        keys_of(ranked(scored_candidates(tracks, ids, kw))).contains(ids[j]),
{
    let s = track_score(tracks[i], kw)->0;
    let m = scored_candidates(tracks, ids, kw);
    lemma_scored_candidates_has(tracks, ids, kw, j, s);
    lemma_rank_leq_total();
    m.lemma_sort_by_ensures(|a: (i64, i64), b: (i64, i64)| rank_leq(a, b));
    broadcast use vstd::seq_lib::group_to_multiset_ensures;

    let r = ranked(m);
    assert(m.to_multiset().count((ids[j], s)) > 0);
    assert(r.to_multiset().count((ids[j], s)) > 0);
    assert(r.contains((ids[j], s)));
    let k = choose|k: int| 0 <= k < r.len() && r[k] == (ids[j], s);
    assert(keys_of(r)[k] == ids[j]);
}


proof fn lemma_first_colon_after_key(key: Seq<char>, v: Seq<char>)
    requires
        forall|k: int| 0 <= k < key.len() ==> key[k] != ':',
    ensures
        first_index_of(key + seq![':'] + v, ':') == Some(key.len() as int),
    decreases key.len(),
{
    let tok = key + seq![':'] + v;
    if key.len() == 0 {
        assert(tok[0] == ':');
    } else {
        let rest = key.drop_first();
        assert(tok.drop_first() =~= rest + seq![':'] + v);
        lemma_first_colon_after_key(rest, v);
    }
}

/// A favourite filter may be spelt `fav:` or `favorite:`, with the key in
/// any ASCII case: a token `key:value` whose lower-cased key is either
/// spelling and whose value reads as a favourite value sets the favourite
/// filter to that value, leaves the other filters as they were, and does
/// not reach the free text.
pub proof fn law_favorite_key_spellings(
    toks: Seq<Seq<char>>,
    key: Seq<char>,
    value: Seq<char>,
    b: bool,
)
    requires
        lower_seq(key) == "fav"@ || lower_seq(key) == "favorite"@,
        favorite_value(value) == Some(b),
    ensures
        scan_tokens(toks.push(key + ":"@ + value)) == (QueryScan {
            favorite: Some(b),
            ..scan_tokens(toks)
        }),
{
    reveal_strlit(":");
    reveal_strlit("fav");
    reveal_strlit("favorite");
    reveal_strlit("artist");
    reveal_strlit("album");
    reveal_strlit("1");
    reveal_strlit("true");
    reveal_strlit("yes");
    reveal_strlit("y");
    reveal_strlit("on");
    reveal_strlit("0");
    reveal_strlit("false");
    reveal_strlit("no");
    reveal_strlit("n");
    reveal_strlit("off");
    let tok = key + ":"@ + value;
    assert(toks.push(tok).drop_last() =~= toks);
    assert forall|k: int| 0 <= k < key.len() implies key[k] != ':' by {
        assert(lower_seq(key).len() == key.len());
        assert(lower_seq(key)[k] == lower(key[k]));
        if lower_seq(key) == "fav"@ {
            assert(k == 0 || k == 1 || k == 2);
        } else {
            assert(k == 0 || k == 1 || k == 2 || k == 3 || k == 4 || k == 5 || k == 6 || k == 7);
        }
    }
    assert(":"@ =~= seq![':']);
    lemma_first_colon_after_key(key, value);
    let i = key.len() as int;
    assert(tok.take(i) =~= key);
    assert(tok.skip(i + 1) =~= value);
    assert(lower_seq(trim(value)).len() == trim(value).len());
    assert(trim(value).len() != 0);
    assert(tok == key + seq![':'] + value);
    assert(first_index_of(tok, ':') == Some(i));
    assert(lower_seq(tok.take(i)) == lower_seq(key));
    assert("artist"@.len() == 6 && "album"@.len() == 5);
    assert(lower_seq(key).len() == 3 || lower_seq(key).len() == 8);
    assert(lower_seq(key) != "artist"@);
    assert(lower_seq(key) != "album"@);
    assert(scan_tokens(toks.push(tok)) == scan_token(scan_tokens(toks), tok));
}

} // verus!
