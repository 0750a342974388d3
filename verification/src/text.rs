//! Character-level text helpers with exact specifications: whitespace and
//! trimming, ASCII case folding, word splitting, joining, substring
//! replacement and decimal rendering of integers.

use vstd::prelude::*;

verus! {

// ---------------------------------------------------------------------------
// Characters
// ---------------------------------------------------------------------------

/// Unicode `White_Space` property, as used by `char::is_whitespace`.
pub open spec fn is_ws(c: char) -> bool {
    let u = c as u32;
    ||| (0x9 <= u && u <= 0xd)
    ||| u == 0x20
    ||| u == 0x85
    ||| u == 0xa0
    ||| u == 0x1680
    ||| (0x2000 <= u && u <= 0x200a)
    ||| u == 0x2028
    ||| u == 0x2029
    ||| u == 0x202f
    ||| u == 0x205f
    ||| u == 0x3000
}

/// Whether `c` is whitespace (`char::is_whitespace`).
pub fn char_is_whitespace(c: char) -> (r: bool)
    ensures
        r == is_ws(c),
{
    let u = c as u32;
    (0x9 <= u && u <= 0xd) || u == 0x20 || u == 0x85 || u == 0xa0 || u == 0x1680 || (0x2000 <= u
        && u <= 0x200a) || u == 0x2028 || u == 0x2029 || u == 0x202f || u == 0x205f || u == 0x3000
}

/// Unicode general category `Cc`, as used by `char::is_control`.
pub open spec fn is_control(c: char) -> bool {
    let u = c as u32;
    u <= 0x1f || (0x7f <= u && u <= 0x9f)
}

/// Whether `c` is a control character (`char::is_control`).
pub fn char_is_control(c: char) -> (r: bool)
    ensures
        r == is_control(c),
{
    let u = c as u32;
    u <= 0x1f || (0x7f <= u && u <= 0x9f)
}

/// ASCII lowercase mapping of one character.
pub open spec fn lower(c: char) -> char {
    if 'A' <= c && c <= 'Z' {
        ((c as u32) + 32) as char
    } else {
        c
    }
}

/// ASCII lowercase of one character (`char::to_ascii_lowercase`).
pub fn char_to_lower(c: char) -> (r: char)
    ensures
        r == lower(c),
{
    if 'A' <= c && c <= 'Z' {
        let u = (c as u8) + 32;
        u as char
    } else {
        c
    }
}

/// ASCII lowercase of a character sequence.
pub open spec fn lower_seq(s: Seq<char>) -> Seq<char> {
    s.map_values(|c: char| lower(c))
}

/// Equality up to ASCII case (`str::eq_ignore_ascii_case`).
pub open spec fn eq_ignore_case(a: Seq<char>, b: Seq<char>) -> bool {
    lower_seq(a) == lower_seq(b)
}

// ---------------------------------------------------------------------------
// Conversions between `str`/`String` and `Vec<char>`
// ---------------------------------------------------------------------------

/// Appends one character to a `String` (`String::push`).
#[verifier::external_body]
pub(crate) fn string_push(s: &mut String, c: char)
    ensures
        final(s)@ == old(s)@.push(c),
{
    s.push(c);
}

/// The characters of `s`, in order.
pub fn chars_of(s: &str) -> (v: Vec<char>)
    ensures
        v@ == s@,
{
    let n = s.unicode_len();
    let mut v: Vec<char> = Vec::new();
    let mut i: usize = 0;
    while i < n
        invariant
            n == s@.len(),
            i <= n,
            v@ == s@.take(i as int),
        decreases n - i,
    {
        let c = s.get_char(i);
        v.push(c);
        i = i + 1;
        assert(v@ =~= s@.take(i as int));
    }
    assert(v@ =~= s@);
    v
}

/// A `String` holding exactly the characters of `v`.
pub fn string_of(v: &Vec<char>) -> (s: String)
    ensures
        s@ == v@,
{
    let mut s = String::new();
    let mut i: usize = 0;
    while i < v.len()
        invariant
            i <= v.len(),
            s@ == v@.take(i as int),
        decreases v.len() - i,
    {
        string_push(&mut s, v[i]);
        i = i + 1;
        assert(s@ =~= v@.take(i as int));
    }
    assert(v@.take(v.len() as int) =~= v@);
    s
}

/// A fresh `String` equal to `s`.
pub fn owned(s: &str) -> (r: String)
    ensures
        r@ == s@,
{
    let v = chars_of(s);
    string_of(&v)
}

/// Equality of two texts.
pub fn text_eq(a: &str, b: &str) -> (r: bool)
    ensures
        r == (a@ == b@),
{
    let va = chars_of(a);
    let vb = chars_of(b);
    if va.len() != vb.len() {
        return false;
    }
    let mut i: usize = 0;
    while i < va.len()
        invariant
            va.len() == vb.len(),
            va@ == a@,
            vb@ == b@,
            i <= va.len(),
            forall|k: int| 0 <= k < i ==> va@[k] == vb@[k],
        decreases va.len() - i,
    {
        if va[i] != vb[i] {
            return false;
        }
        i = i + 1;
    }
    assert(va@ =~= vb@);
    true
}

/// Equality of two texts up to ASCII case.
pub fn text_eq_ignore_case(a: &str, b: &str) -> (r: bool)
    ensures
        r == eq_ignore_case(a@, b@),
{
    let va = chars_of(a);
    let vb = chars_of(b);
    if va.len() != vb.len() {
        assert(lower_seq(a@).len() != lower_seq(b@).len());
        return false;
    }
    let mut i: usize = 0;
    while i < va.len()
        invariant
            va.len() == vb.len(),
            va@ == a@,
            vb@ == b@,
            i <= va.len(),
            forall|k: int| 0 <= k < i ==> lower(va@[k]) == lower(vb@[k]),
        decreases va.len() - i,
    {
        if char_to_lower(va[i]) != char_to_lower(vb[i]) {
            assert(lower_seq(a@)[i as int] != lower_seq(b@)[i as int]);
            return false;
        }
        i = i + 1;
    }
    assert(lower_seq(a@) =~= lower_seq(b@));
    true
}

/// ASCII lowercase copy of a text (`str::to_ascii_lowercase`).
pub fn to_lower(s: &str) -> (r: String)
    ensures
        r@ == lower_seq(s@),
{
    let v = chars_of(s);
    let mut out: Vec<char> = Vec::new();
    let mut i: usize = 0;
    while i < v.len()
        invariant
            v@ == s@,
            i <= v.len(),
            out@ == lower_seq(v@.take(i as int)),
        decreases v.len() - i,
    {
        out.push(char_to_lower(v[i]));
        i = i + 1;
        assert(out@ =~= lower_seq(v@.take(i as int)));
    }
    assert(v@.take(v.len() as int) =~= v@);
    string_of(&out)
}

// ---------------------------------------------------------------------------
// Trimming
// ---------------------------------------------------------------------------

/// `s` without its leading whitespace.
pub open spec fn trim_start(s: Seq<char>) -> Seq<char>
    decreases s.len(),
{
    if s.len() > 0 && is_ws(s[0]) {
        trim_start(s.drop_first())
    } else {
        s
    }
}

/// `s` without its trailing whitespace.
pub open spec fn trim_end(s: Seq<char>) -> Seq<char>
    decreases s.len(),
{
    if s.len() > 0 && is_ws(s.last()) {
        trim_end(s.drop_last())
    } else {
        s
    }
}

/// `s` without leading and trailing whitespace (`str::trim`).
pub open spec fn trim(s: Seq<char>) -> Seq<char> {
    trim_end(trim_start(s))
}

/// Whether `s` holds only whitespace (so `trim(s)` is empty).
pub open spec fn blank(s: Seq<char>) -> bool {
    forall|i: int| 0 <= i < s.len() ==> is_ws(#[trigger] s[i])
}

proof fn lemma_trim_start_skip(s: Seq<char>, i: int)
    requires
        0 <= i <= s.len(),
        forall|k: int| 0 <= k < i ==> is_ws(#[trigger] s[k]),
    ensures
        trim_start(s) == trim_start(s.skip(i)),
    decreases i,
{
    if i > 0 {
        assert(is_ws(s[0]));
        lemma_trim_start_skip(s.drop_first(), i - 1);
        assert(s.drop_first().skip(i - 1) =~= s.skip(i));
    } else {
        assert(s.skip(0) =~= s);
    }
}

proof fn lemma_trim_end_take(s: Seq<char>, j: int)
    requires
        0 <= j <= s.len(),
        forall|k: int| j <= k < s.len() ==> is_ws(#[trigger] s[k]),
    ensures
        trim_end(s) == trim_end(s.take(j)),
    decreases s.len() - j,
{
    if j < s.len() {
        assert(is_ws(s.last()));
        lemma_trim_end_take(s.drop_last(), j);
        assert(s.drop_last().take(j) =~= s.take(j));
    } else {
        assert(s.take(j) =~= s);
    }
}

/// A trimmed sequence is empty exactly when the input is all whitespace.
pub proof fn lemma_trim_empty_iff_blank(s: Seq<char>)
    ensures
        (trim(s).len() == 0) == blank(s),
        (trim_start(s).len() == 0) == blank(s),
    decreases s.len(),
{
    if s.len() > 0 {
        if is_ws(s[0]) {
            lemma_trim_empty_iff_blank(s.drop_first());
            if blank(s.drop_first()) {
                assert forall|i: int| 0 <= i < s.len() implies is_ws(#[trigger] s[i]) by {
                    if i > 0 {
                        assert(s[i] == s.drop_first()[i - 1]);
                    }
                }
            } else {
                let k = choose|k: int| 0 <= k < s.drop_first().len() && !is_ws(s.drop_first()[k]);
                assert(s[k + 1] == s.drop_first()[k]);
            }
        } else {
            assert(trim_start(s) == s);
            assert(trim_end(s).len() > 0) by {
                lemma_trim_end_keeps_first(s);
            }
        }
    } else {
        assert(blank(s));
    }
}

proof fn lemma_trim_end_keeps_first(s: Seq<char>)
    requires
        s.len() > 0,
        !is_ws(s[0]),
    ensures
        trim_end(s).len() > 0,
    decreases s.len(),
{
    if is_ws(s.last()) {
        lemma_trim_end_keeps_first(s.drop_last());
    }
}

/// Position of the first non-whitespace character, or `v.len()`.
fn first_non_ws(v: &Vec<char>) -> (i: usize)
    ensures
        i <= v.len(),
        forall|k: int| 0 <= k < i ==> is_ws(#[trigger] v@[k]),
        i < v.len() ==> !is_ws(v@[i as int]),
{
    let mut i: usize = 0;
    while i < v.len() && char_is_whitespace(v[i])
        invariant
            i <= v.len(),
            forall|k: int| 0 <= k < i ==> is_ws(#[trigger] v@[k]),
        decreases v.len() - i,
    {
        i = i + 1;
    }
    i
}

/// `v` without leading and trailing whitespace.
pub fn trim_chars(v: &Vec<char>) -> (r: Vec<char>)
    ensures
        r@ == trim(v@),
{
    let start = first_non_ws(v);
    proof {
        lemma_trim_start_skip(v@, start as int);
    }
    let mut end: usize = v.len();
    while end > start && char_is_whitespace(v[end - 1])
        invariant
            start <= end <= v.len(),
            forall|k: int| end <= k < v.len() ==> is_ws(#[trigger] v@[k]),
        decreases end,
    {
        end = end - 1;
    }
    let mut r: Vec<char> = Vec::new();
    let mut i: usize = start;
    while i < end
        invariant
            start <= i <= end,
            end <= v.len(),
            r@ == v@.subrange(start as int, i as int),
        decreases end - i,
    {
        r.push(v[i]);
        i = i + 1;
        assert(r@ =~= v@.subrange(start as int, i as int));
    }
    proof {
        let t = v@.skip(start as int);
        if start < v.len() {
            assert(trim_start(t) == t);
            let j = end - start;
            assert forall|k: int| j <= k < t.len() implies is_ws(#[trigger] t[k]) by {
                assert(t[k] == v@[k + start]);
            }
            lemma_trim_end_take(t, j as int);
            assert(t.take(j as int) =~= v@.subrange(start as int, end as int));
            if j > 0 {
                assert(!is_ws(t.take(j as int).last()));
            } else {
                assert(t[0] == v@[start as int]);
                assert(false);
            }
        } else {
            assert(t.len() == 0);
            assert(r@ =~= t);
        }
    }
    r
}

/// `s` without leading and trailing whitespace, as a new `String`.
pub fn trim_text(s: &str) -> (r: String)
    ensures
        r@ == trim(s@),
{
    let v = chars_of(s);
    let t = trim_chars(&v);
    string_of(&t)
}

/// Whether `s` is empty once trimmed.
pub fn is_blank(s: &str) -> (r: bool)
    ensures
        r == blank(s@),
        r == (trim(s@).len() == 0),
{
    let v = chars_of(s);
    let i = first_non_ws(&v);
    proof {
        lemma_trim_empty_iff_blank(s@);
    }
    i == v.len()
}

// ---------------------------------------------------------------------------
// Words
// ---------------------------------------------------------------------------

/// The maximal runs of non-whitespace characters of `s`, in order
/// (`str::split_whitespace`).
pub open spec fn words(s: Seq<char>) -> Seq<Seq<char>>
    decreases s.len(),
{
    if s.len() == 0 {
        Seq::empty()
    } else {
        let p = s.drop_last();
        let c = s.last();
        if is_ws(c) {
            words(p)
        } else if p.len() > 0 && !is_ws(p.last()) {
            let w = words(p);
            w.update(w.len() - 1, w.last().push(c))
        } else {
            words(p).push(seq![c])
        }
    }
}

/// A sequence that ends in a non-whitespace character has at least one word,
/// and every word is non-empty and free of whitespace.
pub proof fn lemma_words_shape(s: Seq<char>)
    ensures
        s.len() > 0 && !is_ws(s.last()) ==> words(s).len() > 0,
        forall|k: int|
            0 <= k < words(s).len() ==> (#[trigger] words(s)[k]).len() > 0 && forall|j: int|
                0 <= j < words(s)[k].len() ==> !is_ws(#[trigger] words(s)[k][j]),
    decreases s.len(),
{
    if s.len() > 0 {
        let p = s.drop_last();
        lemma_words_shape(p);
        let c = s.last();
        if !is_ws(c) && p.len() > 0 && !is_ws(p.last()) {
            let w = words(p);
            assert forall|k: int| 0 <= k < words(s).len() implies (#[trigger] words(s)[k]).len()
                > 0 && forall|j: int| 0 <= j < words(s)[k].len() ==> !is_ws(#[trigger] words(s)[k][j]) by {
                if k == w.len() - 1 {
                    assert(words(s)[k] == w.last().push(c));
                    assert forall|j: int| 0 <= j < words(s)[k].len() implies !is_ws(
                        #[trigger] words(s)[k][j],
                    ) by {
                        if j < w.last().len() {
                            assert(words(s)[k][j] == w[k][j]);
                        }
                    }
                } else {
                    assert(words(s)[k] == w[k]);
                }
            }
        } else if !is_ws(c) {
            let w = words(p);
            assert forall|k: int| 0 <= k < words(s).len() implies (#[trigger] words(s)[k]).len()
                > 0 && forall|j: int| 0 <= j < words(s)[k].len() ==> !is_ws(#[trigger] words(s)[k][j]) by {
                if k < w.len() {
                    assert(words(s)[k] == w[k]);
                } else {
                    assert(words(s)[k] == seq![c]);
                }
            }
        }
    }
}

/// The whitespace-separated words of `s`.
pub fn split_words(s: &str) -> (r: Vec<String>)
    ensures
        r@.len() == words(s@).len(),
        forall|k: int| 0 <= k < r@.len() ==> (#[trigger] r@[k])@ == words(s@)[k],
{
    let v = chars_of(s);
    let mut acc: Vec<Vec<char>> = Vec::new();
    let ghost mut g: Seq<Seq<char>> = Seq::empty();
    let mut i: usize = 0;
    while i < v.len()
        invariant
            v@ == s@,
            i <= v.len(),
            g == words(v@.take(i as int)),
            acc@.len() == g.len(),
            forall|k: int| 0 <= k < acc@.len() ==> (#[trigger] acc@[k])@ == g[k],
        decreases v.len() - i,
    {
        let c = v[i];
        let ghost pre = v@.take(i as int);
        assert(v@.take(i + 1).drop_last() =~= pre);
        if char_is_whitespace(c) {
        } else if i > 0 && !char_is_whitespace(v[i - 1]) {
            proof {
                assert(pre.last() == v@[i - 1]);
                lemma_words_shape(pre);
            }
            let mut last = acc.pop().unwrap();
            last.push(c);
            acc.push(last);
            proof {
                g = g.update(g.len() - 1, g.last().push(c));
            }
        } else {
            let mut nw: Vec<char> = Vec::new();
            nw.push(c);
            acc.push(nw);
            proof {
                assert(nw@ =~= seq![c]);
                g = g.push(seq![c]);
            }
        }
        i = i + 1;
        assert(acc@.len() == g.len());
        assert forall|k: int| 0 <= k < acc@.len() implies (#[trigger] acc@[k])@ == g[k] by {}
    }
    assert(v@.take(v.len() as int) =~= v@);
    let mut out: Vec<String> = Vec::new();
    let mut j: usize = 0;
    while j < acc.len()
        invariant
            j <= acc@.len(),
            acc@.len() == g.len(),
            g == words(s@),
            forall|k: int| 0 <= k < acc@.len() ==> (#[trigger] acc@[k])@ == g[k],
            out@.len() == j,
            forall|k: int| 0 <= k < j ==> (#[trigger] out@[k])@ == g[k],
        decreases acc.len() - j,
    {
        let w = string_of(&acc[j]);
        out.push(w);
        j = j + 1;
    }
    out
}

/// The parts joined with `sep` between consecutive parts (`[..].join(sep)`).
pub open spec fn join(parts: Seq<Seq<char>>, sep: Seq<char>) -> Seq<char>
    decreases parts.len(),
{
    if parts.len() == 0 {
        Seq::empty()
    } else if parts.len() == 1 {
        parts[0]
    } else {
        join(parts.drop_last(), sep) + sep + parts.last()
    }
}

/// The views of a sequence of strings.
pub open spec fn views(v: Seq<String>) -> Seq<Seq<char>> {
    v.map_values(|s: String| s@)
}

/// Appends all characters of `t` to `v`.
pub fn extend_chars(v: &mut Vec<char>, t: &str)
    ensures
        final(v)@ == old(v)@ + t@,
{
    let tv = chars_of(t);
    let mut i: usize = 0;
    while i < tv.len()
        invariant
            tv@ == t@,
            i <= tv.len(),
            v@ == old(v)@ + tv@.take(i as int),
        decreases tv.len() - i,
    {
        v.push(tv[i]);
        i = i + 1;
        assert(v@ =~= old(v)@ + tv@.take(i as int));
    }
    assert(tv@.take(tv.len() as int) =~= tv@);
}

/// The parts joined with `sep`.
pub fn join_texts(parts: &Vec<String>, sep: &str) -> (r: String)
    ensures
        r@ == join(views(parts@), sep@),
{
    let mut out: Vec<char> = Vec::new();
    let mut i: usize = 0;
    while i < parts.len()
        invariant
            i <= parts.len(),
            out@ == join(views(parts@).take(i as int), sep@),
        decreases parts.len() - i,
    {
        let ghost before = out@;
        if i > 0 {
            extend_chars(&mut out, sep);
        }
        extend_chars(&mut out, parts[i].as_str());
        i = i + 1;
        proof {
            let t = views(parts@).take(i as int);
            assert(t.drop_last() =~= views(parts@).take(i - 1));
            if i == 1 {
                assert(out@ =~= t[0]);
            } else {
                assert(out@ =~= join(t.drop_last(), sep@) + sep@ + t.last());
            }
        }
    }
    assert(views(parts@).take(parts.len() as int) =~= views(parts@));
    string_of(&out)
}

// ---------------------------------------------------------------------------
// Substrings
// ---------------------------------------------------------------------------

/// Whether `pat` occurs in `s` starting at `i`.
pub open spec fn occurs_at(s: Seq<char>, pat: Seq<char>, i: int) -> bool {
    0 <= i && i + pat.len() <= s.len() && s.subrange(i, i + pat.len()) == pat
}

/// Whether `pat` occurs in `s` (`str::contains`).
pub open spec fn contains_text(s: Seq<char>, pat: Seq<char>) -> bool {
    exists|i: int| occurs_at(s, pat, i)
}

/// `s` with every non-overlapping occurrence of the non-empty `from`, scanned
/// left to right, replaced by `to` (`str::replace`).
pub open spec fn replace_all(s: Seq<char>, from: Seq<char>, to: Seq<char>) -> Seq<char>
    recommends
        from.len() > 0,
    decreases s.len(),
{
    if s.len() == 0 || from.len() == 0 {
        s
    } else if occurs_at(s, from, 0) {
        to + replace_all(s.skip(from.len() as int), from, to)
    } else {
        seq![s[0]] + replace_all(s.drop_first(), from, to)
    }
}

/// Whether `pat` occurs in `v` at position `i`.
fn occurs_at_exec(v: &Vec<char>, pat: &Vec<char>, i: usize) -> (r: bool)
    ensures
        r == occurs_at(v@, pat@, i as int),
{
    if i > v.len() || pat.len() > v.len() - i {
        return false;
    }
    let mut k: usize = 0;
    while k < pat.len()
        invariant
            i + pat.len() <= v.len(),
            k <= pat.len(),
            forall|j: int| 0 <= j < k ==> v@[i + j] == pat@[j],
        decreases pat.len() - k,
    {
        if v[i + k] != pat[k] {
            assert(v@.subrange(i as int, i + pat.len())[k as int] != pat@[k as int]);
            return false;
        }
        k = k + 1;
    }
    assert(v@.subrange(i as int, i + pat.len()) =~= pat@);
    true
}

/// Whether `pat` occurs in `s`.
pub fn text_contains(s: &str, pat: &str) -> (r: bool)
    ensures
        r == contains_text(s@, pat@),
{
    let v = chars_of(s);
    let p = chars_of(pat);
    let mut i: usize = 0;
    while i < v.len()
        invariant
            v@ == s@,
            p@ == pat@,
            i <= v.len(),
            forall|j: int| 0 <= j < i ==> !occurs_at(s@, pat@, j),
        decreases v.len() - i,
    {
        if occurs_at_exec(&v, &p, i) {
            return true;
        }
        i = i + 1;
    }
    if occurs_at_exec(&v, &p, i) {
        return true;
    }
    assert forall|j: int| !occurs_at(s@, pat@, j) by {
        if 0 <= j <= i {
        }
    }
    false
}

/// `s` with occurrences of the non-empty `from` replaced by `to`.
pub fn replace_text(s: &Vec<char>, from: &str, to: &str) -> (r: Vec<char>)
    requires
        from@.len() > 0,
    ensures
        r@ == replace_all(s@, from@, to@),
{
    let f = chars_of(from);
    let mut out: Vec<char> = Vec::new();
    let mut i: usize = 0;
    assert(s@.skip(0) =~= s@);
    assert(out@ + replace_all(s@, from@, to@) =~= replace_all(s@, from@, to@));
    while i < s.len()
        invariant
            f@ == from@,
            f@.len() > 0,
            i <= s.len(),
            out@ + replace_all(s@.skip(i as int), from@, to@) == replace_all(s@, from@, to@),
        decreases s.len() - i,
    {
        let ghost rest = s@.skip(i as int);
        if occurs_at_exec(s, &f, i) {
            proof {
                assert(rest.subrange(0, f@.len() as int) =~= s@.subrange(
                    i as int,
                    i + f@.len(),
                ));
                assert(occurs_at(rest, from@, 0));
                assert(rest.skip(f@.len() as int) =~= s@.skip(i + f@.len()));
            }
            extend_chars(&mut out, to);
            i = i + f.len();
            proof {
                assert(out@ + replace_all(s@.skip(i as int), from@, to@) =~= replace_all(
                    s@,
                    from@,
                    to@,
                ));
            }
        } else {
            proof {
                if occurs_at(rest, from@, 0) {
                    assert(s@.subrange(i as int, i + f@.len()) =~= rest.subrange(
                        0,
                        f@.len() as int,
                    ));
                }
                assert(rest.drop_first() =~= s@.skip(i + 1));
            }
            out.push(s[i]);
            i = i + 1;
            proof {
                assert(out@ + replace_all(s@.skip(i as int), from@, to@) =~= replace_all(
                    s@,
                    from@,
                    to@,
                ));
            }
        }
    }
    assert(s@.skip(i as int).len() == 0);
    assert(out@ =~= out@ + replace_all(s@.skip(i as int), from@, to@));
    out
}

// ---------------------------------------------------------------------------
// Numbers
// ---------------------------------------------------------------------------

/// The decimal digit for `d < 10`.
pub open spec fn digit(d: nat) -> char {
    (('0' as u32) + d) as char
}

/// Decimal rendering of `n` without leading zeros (`format!("{}", n)`).
pub open spec fn dec(n: nat) -> Seq<char>
    decreases n,
{
    if n < 10 {
        seq![digit(n)]
    } else {
        dec(n / 10).push(digit(n % 10))
    }
}

/// `n` rendered in decimal, left-padded with zeros to at least `w` characters
/// (`format!("{:0w$}", n)`).
pub open spec fn dec_pad(n: nat, w: nat) -> Seq<char> {
    let d = dec(n);
    if d.len() < w {
        Seq::new((w - d.len()) as nat, |i: int| '0') + d
    } else {
        d
    }
}

/// Decimal rendering of a signed integer (`format!("{}", i)`).
pub open spec fn int_text(i: int) -> Seq<char> {
    if i < 0 {
        seq!['-'] + dec((-i) as nat)
    } else {
        dec(i as nat)
    }
}

fn digit_char(d: u64) -> (c: char)
    requires
        d < 10,
    ensures
        c == digit(d as nat),
{
    let b = (d as u8) + 48;
    b as char
}

/// Decimal digits of `n`.
pub fn dec_chars(n: u64) -> (v: Vec<char>)
    ensures
        v@ == dec(n as nat),
    decreases n,
{
    if n < 10 {
        let mut v: Vec<char> = Vec::new();
        v.push(digit_char(n));
        assert(v@ =~= seq![digit(n as nat)]);
        v
    } else {
        let mut v = dec_chars(n / 10);
        v.push(digit_char(n % 10));
        v
    }
}

/// `n` in decimal.
pub fn u64_text(n: u64) -> (s: String)
    ensures
        s@ == dec(n as nat),
{
    let v = dec_chars(n);
    string_of(&v)
}

/// `n` in decimal, zero-padded to at least `w` characters.
pub fn u64_text_padded(n: u64, w: usize) -> (s: String)
    ensures
        s@ == dec_pad(n as nat, w as nat),
{
    let d = dec_chars(n);
    let mut v: Vec<char> = Vec::new();
    if d.len() < w {
        let pad = w - d.len();
        let mut i: usize = 0;
        while i < pad
            invariant
                i <= pad,
                v@ == Seq::new(i as nat, |k: int| '0'),
            decreases pad - i,
        {
            v.push('0');
            i = i + 1;
            assert(v@ =~= Seq::new(i as nat, |k: int| '0'));
        }
    }
    let mut j: usize = 0;
    let ghost prefix = v@;
    while j < d.len()
        invariant
            j <= d.len(),
            v@ == prefix + d@.take(j as int),
        decreases d.len() - j,
    {
        v.push(d[j]);
        j = j + 1;
        assert(v@ =~= prefix + d@.take(j as int));
    }
    assert(d@.take(d.len() as int) =~= d@);
    assert(v@ =~= dec_pad(n as nat, w as nat));
    string_of(&v)
}

/// `i` in decimal, with a leading `-` when negative.
pub fn i64_text(i: i64) -> (s: String)
    ensures
        s@ == int_text(i as int),
{
    if i < 0 {
        let m: u64 = if i == i64::MIN {
            9223372036854775808u64
        } else {
            (-i) as u64
        };
        let d = dec_chars(m);
        let mut v: Vec<char> = Vec::new();
        v.push('-');
        let mut j: usize = 0;
        while j < d.len()
            invariant
                j <= d.len(),
                v@ == seq!['-'] + d@.take(j as int),
            decreases d.len() - j,
        {
            v.push(d[j]);
            j = j + 1;
            assert(v@ =~= seq!['-'] + d@.take(j as int));
        }
        assert(d@.take(d.len() as int) =~= d@);
        string_of(&v)
    } else {
        u64_text(i as u64)
    }
}

} // verus!

verus! {

/// `a` followed by `b`, as a new `String`.
pub fn concat(a: &str, b: &str) -> (r: String)
    ensures
        r@ == a@ + b@,
{
    let mut v = chars_of(a);
    extend_chars(&mut v, b);
    string_of(&v)
}

/// The pieces of `s` between occurrences of `sep`; there is always at least
/// one piece, and `s` with `sep` between the pieces gives back `s`.
pub open spec fn split_on(s: Seq<char>, sep: char) -> Seq<Seq<char>>
    decreases s.len(),
{
    if s.len() == 0 {
        seq![Seq::empty()]
    } else {
        let w = split_on(s.drop_last(), sep);
        if s.last() == sep {
            w.push(Seq::empty())
        } else {
            w.update(w.len() - 1, w.last().push(s.last()))
        }
    }
}

pub proof fn lemma_split_on_nonempty(s: Seq<char>, sep: char)
    ensures
        split_on(s, sep).len() >= 1,
    decreases s.len(),
{
    if s.len() > 0 {
        lemma_split_on_nonempty(s.drop_last(), sep);
    }
}

/// The pieces of `s` between occurrences of `sep`.
pub fn split_text(s: &str, sep: char) -> (r: Vec<Vec<char>>)
    ensures
        r@.len() == split_on(s@, sep).len(),
        forall|k: int| 0 <= k < r@.len() ==> (#[trigger] r@[k])@ == split_on(s@, sep)[k],
{
    let v = chars_of(s);
    let mut acc: Vec<Vec<char>> = Vec::new();
    acc.push(Vec::new());
    let ghost mut g: Seq<Seq<char>> = seq![Seq::empty()];
    assert(v@.take(0) =~= Seq::<char>::empty());
    let mut i: usize = 0;
    while i < v.len()
        invariant
            v@ == s@,
            i <= v.len(),
            g == split_on(v@.take(i as int), sep),
            g.len() >= 1,
            acc@.len() == g.len(),
            forall|k: int| 0 <= k < acc@.len() ==> (#[trigger] acc@[k])@ == g[k],
        decreases v.len() - i,
    {
        let c = v[i];
        assert(v@.take(i + 1).drop_last() =~= v@.take(i as int));
        if c == sep {
            acc.push(Vec::new());
            proof {
                g = g.push(Seq::empty());
            }
        } else {
            let mut last = acc.pop().unwrap();
            last.push(c);
            acc.push(last);
            proof {
                g = g.update(g.len() - 1, g.last().push(c));
            }
        }
        i = i + 1;
        assert forall|k: int| 0 <= k < acc@.len() implies (#[trigger] acc@[k])@ == g[k] by {}
    }
    assert(v@.take(v.len() as int) =~= v@);
    acc
}

/// Whether `s` begins with `p`.
pub open spec fn starts_with(s: Seq<char>, p: Seq<char>) -> bool {
    p.len() <= s.len() && s.take(p.len() as int) == p
}

/// Whether `v` begins with the characters of `p`.
pub fn chars_start_with(v: &Vec<char>, p: &str) -> (r: bool)
    ensures
        r == starts_with(v@, p@),
{
    let pv = chars_of(p);
    if pv.len() > v.len() {
        return false;
    }
    let mut i: usize = 0;
    while i < pv.len()
        invariant
            pv@ == p@,
            pv.len() <= v.len(),
            i <= pv.len(),
            forall|k: int| 0 <= k < i ==> v@[k] == pv@[k],
        decreases pv.len() - i,
    {
        if v[i] != pv[i] {
            assert(v@.take(pv.len() as int)[i as int] != pv@[i as int]);
            return false;
        }
        i = i + 1;
    }
    assert(v@.take(pv.len() as int) =~= pv@);
    true
}

/// The characters of `v` from position `start` on.
pub fn chars_from(v: &Vec<char>, start: usize) -> (r: Vec<char>)
    requires
        start <= v.len(),
    ensures
        r@ == v@.skip(start as int),
{
    let mut r: Vec<char> = Vec::new();
    let mut i: usize = start;
    while i < v.len()
        invariant
            start <= i <= v.len(),
            r@ == v@.subrange(start as int, i as int),
        decreases v.len() - i,
    {
        r.push(v[i]);
        i = i + 1;
        assert(r@ =~= v@.subrange(start as int, i as int));
    }
    assert(r@ =~= v@.skip(start as int));
    r
}

} // verus!

verus! {

/// Removes the last character of a `String` (`String::pop`), returning it.
#[verifier::external_body]
pub(crate) fn string_pop(s: &mut String) -> (c: Option<char>)
    ensures
        old(s)@.len() == 0 ==> c is None && final(s)@ == old(s)@,
        old(s)@.len() > 0 ==> c == Some(old(s)@.last()) && final(s)@ == old(s)@.drop_last(),
{
    s.pop()
}

} // verus!
