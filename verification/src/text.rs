//! Character-level text rules shared by the extractors: whitespace trimming,
//! the decorative `" »"` suffix strip, tile-text cleaning, and the URL slug.

use vstd::prelude::*;

verus! {

/// The Unicode `White_Space` characters, the set that trimming removes.
pub open spec fn is_space(c: char) -> bool {
    c == ' ' || c == '\u{9}' || c == '\u{a}' || c == '\u{b}' || c == '\u{c}' || c == '\u{d}'
        || c == '\u{85}' || c == '\u{a0}' || c == '\u{1680}' || c == '\u{2000}'
        || c == '\u{2001}' || c == '\u{2002}' || c == '\u{2003}' || c == '\u{2004}'
        || c == '\u{2005}' || c == '\u{2006}' || c == '\u{2007}' || c == '\u{2008}'
        || c == '\u{2009}' || c == '\u{200a}' || c == '\u{2028}' || c == '\u{2029}'
        || c == '\u{202f}' || c == '\u{205f}' || c == '\u{3000}'
}

pub fn is_space_char(c: char) -> (r: bool)
    ensures
        r == is_space(c),
{
    c == ' ' || c == '\u{9}' || c == '\u{a}' || c == '\u{b}' || c == '\u{c}' || c == '\u{d}'
        || c == '\u{85}' || c == '\u{a0}' || c == '\u{1680}' || c == '\u{2000}'
        || c == '\u{2001}' || c == '\u{2002}' || c == '\u{2003}' || c == '\u{2004}'
        || c == '\u{2005}' || c == '\u{2006}' || c == '\u{2007}' || c == '\u{2008}'
        || c == '\u{2009}' || c == '\u{200a}' || c == '\u{2028}' || c == '\u{2029}'
        || c == '\u{202f}' || c == '\u{205f}' || c == '\u{3000}'
}

pub open spec fn trim_start_rec(s: Seq<char>) -> Seq<char>
    decreases s.len(),
{
    if s.len() > 0 && is_space(s[0]) {
        trim_start_rec(s.drop_first())
    } else {
        s
    }
}

pub open spec fn trim_end_rec(s: Seq<char>) -> Seq<char>
    decreases s.len(),
{
    if s.len() > 0 && is_space(s.last()) {
        trim_end_rec(s.drop_last())
    } else {
        s
    }
}

/// The text with leading and trailing whitespace removed.
pub open spec fn trimmed(s: Seq<char>) -> Seq<char> {
    trim_end_rec(trim_start_rec(s))
}

proof fn lemma_trim_start_at(s: Seq<char>, i: int)
    requires
        0 <= i <= s.len(),
        forall|k: int| 0 <= k < i ==> is_space(s[k]),
        i < s.len() ==> !is_space(s[i]),
    ensures
        trim_start_rec(s) == s.subrange(i, s.len() as int),
    decreases i,
{
    if i == 0 {
        assert(s.subrange(0, s.len() as int) =~= s);
    } else {
        let t = s.drop_first();
        lemma_trim_start_at(t, i - 1);
        assert(t.subrange(i - 1, t.len() as int) =~= s.subrange(i, s.len() as int));
    }
}

proof fn lemma_trim_end_at(s: Seq<char>, j: int)
    requires
        0 <= j <= s.len(),
        forall|k: int| j <= k < s.len() ==> is_space(s[k]),
        j > 0 ==> !is_space(s[j - 1]),
    ensures
        trim_end_rec(s) == s.subrange(0, j),
    decreases s.len(),
{
    if j == s.len() {
        assert(s.subrange(0, j) =~= s);
    } else {
        let t = s.drop_last();
        lemma_trim_end_at(t, j);
        assert(t.subrange(0, j) =~= s.subrange(0, j));
    }
}

/// Trims whitespace from both ends, the way the extractors do before they
/// test a tile's text for emptiness.
pub fn trim_text(s: &str) -> (r: String)
    ensures
        r@ == trimmed(s@),
{
    let n = s.unicode_len();
    let mut i: usize = 0;
    while i < n && is_space_char(s.get_char(i))
        invariant
            i <= n,
            n == s@.len(),
            forall|k: int| 0 <= k < i ==> is_space(s@[k]),
        decreases n - i,
    {
        i += 1;
    }
    let mut j: usize = n;
    while j > i && is_space_char(s.get_char(j - 1))
        invariant
            i <= j <= n,
            n == s@.len(),
            forall|k: int| j <= k < n ==> is_space(s@[k]),
        decreases j,
    {
        j -= 1;
    }
    let t = s.substring_char(i, j);
    proof {
        lemma_trim_start_at(s@, i as int);
        let mid = s@.subrange(i as int, n as int);
        assert(forall|k: int| j - i <= k < mid.len() ==> is_space(#[trigger] mid[k]));
        lemma_trim_end_at(mid, j - i);
        assert(mid.subrange(0, j - i) =~= s@.subrange(i as int, j as int));
    }
    t.to_owned()
}

/// The decorative marker that the site appends to some genre labels.
pub open spec fn arrow_suffix() -> Seq<char> {
    seq![' ', '\u{bb}']
}

/// The text with one trailing `" »"` removed, if it carries one.
pub open spec fn strip_arrow(s: Seq<char>) -> Seq<char> {
    if s.len() >= 2 && s.subrange(s.len() - 2, s.len() as int) == arrow_suffix() {
        s.subrange(0, s.len() - 2)
    } else {
        s
    }
}

/// Removes one trailing `" »"` marker from a label, when present.
pub fn strip_arrow_suffix(s: &str) -> (r: String)
    ensures
        r@ == strip_arrow(s@),
{
    let n = s.unicode_len();
    if n >= 2 && s.get_char(n - 2) == ' ' && s.get_char(n - 1) == '\u{bb}' {
        proof {
            assert(s@.subrange(n - 2, n as int) =~= arrow_suffix());
        }
        let t = s.substring_char(0, n - 2);
        t.to_owned()
    } else {
        proof {
            if n >= 2 && s@.subrange(n - 2, n as int) == arrow_suffix() {
                assert(s@[n - 2] == arrow_suffix()[0] && s@[n - 1] == arrow_suffix()[1]);
            }
        }
        s.to_owned()
    }
}

/// What a raw sequence of tile texts becomes: each text trimmed, blank ones
/// dropped, and a trailing `" »"` stripped from those kept, in order.
pub open spec fn cleaned_texts(ts: Seq<Seq<char>>) -> Seq<Seq<char>>
    decreases ts.len(),
{
    if ts.len() == 0 {
        Seq::empty()
    } else {
        let rest = cleaned_texts(ts.drop_last());
        let t = trimmed(ts.last());
        if t.len() == 0 {
            rest
        } else {
            rest.push(strip_arrow(t))
        }
    }
}

/// Cleans a harvested list of tile texts: trim, drop blanks, strip `" »"`.
pub fn clean_texts(texts: &Vec<String>) -> (r: Vec<String>)
    ensures
        r.deep_view() == cleaned_texts(texts.deep_view()),
{
    let mut out: Vec<String> = Vec::new();
    let mut k: usize = 0;
    while k < texts.len()
        invariant
            k <= texts.len(),
            out.deep_view() == cleaned_texts(texts.deep_view().take(k as int)),
        decreases texts.len() - k,
    {
        let ghost pre = out.deep_view();
        let t = trim_text(texts[k].as_str());
        if !t.as_str().is_empty() {
            let stripped = strip_arrow_suffix(t.as_str());
            out.push(stripped);
            proof {
                assert(out.deep_view() =~= pre.push(strip_arrow(trimmed(texts.deep_view()[k as int]))));
            }
        }
        proof {
            let tsd = texts.deep_view();
            assert(tsd.take(k + 1).drop_last() =~= tsd.take(k as int));
            assert(tsd.take(k + 1).last() == tsd[k as int]);
        }
        k += 1;
    }
    proof {
        assert(texts.deep_view().take(texts.len() as int) =~= texts.deep_view());
    }
    out
}

/// How many of the texts survive cleaning: those whose trimmed form is
/// non-empty.
pub open spec fn nonblank_count(ts: Seq<Seq<char>>) -> nat
    decreases ts.len(),
{
    if ts.len() == 0 {
        0
    } else {
        nonblank_count(ts.drop_last()) + if trimmed(ts.last()).len() != 0 {
            1nat
        } else {
            0nat
        }
    }
}

/// Cleaning returns one string per non-blank input, in document order, and
/// every string it returns is non-empty.
pub proof fn lemma_cleaned_texts_shape(ts: Seq<Seq<char>>)
    ensures
        cleaned_texts(ts).len() == nonblank_count(ts),
        forall|i: int| 0 <= i < cleaned_texts(ts).len() ==> #[trigger] cleaned_texts(ts)[i].len() != 0,
    decreases ts.len(),
{
    if ts.len() > 0 {
        lemma_cleaned_texts_shape(ts.drop_last());
        let t = trimmed(ts.last());
        if t.len() != 0 {
            lemma_trimmed_ends_nonspace(ts.last());
            if t.len() >= 2 && t.subrange(t.len() - 2, t.len() as int) == arrow_suffix() {
                assert(t[t.len() - 2] == arrow_suffix()[0]);
                assert(t.len() > 2) by {
                    if t.len() == 2 {
                        assert(is_space(t[0]));
                    }
                }
            }
            assert(strip_arrow(t).len() != 0);
        }
    }
}

/// A non-empty trimmed text neither starts nor ends with whitespace, so
/// stripping `" »"` cannot leave it empty.
proof fn lemma_trimmed_ends_nonspace(s: Seq<char>)
    ensures
        trimmed(s).len() > 0 ==> !is_space(trimmed(s)[0]),
        trimmed(s).len() > 0 ==> !is_space(trimmed(s).last()),
{
    lemma_trim_start_nonspace(s);
    lemma_trim_end_keeps_first(trim_start_rec(s));
    lemma_trim_end_nonspace(trim_start_rec(s));
}

proof fn lemma_trim_start_nonspace(s: Seq<char>)
    ensures
        trim_start_rec(s).len() > 0 ==> !is_space(trim_start_rec(s)[0]),
    decreases s.len(),
{
    if s.len() > 0 && is_space(s[0]) {
        lemma_trim_start_nonspace(s.drop_first());
    }
}

proof fn lemma_trim_end_nonspace(s: Seq<char>)
    ensures
        trim_end_rec(s).len() > 0 ==> !is_space(trim_end_rec(s).last()),
    decreases s.len(),
{
    if s.len() > 0 && is_space(s.last()) {
        lemma_trim_end_nonspace(s.drop_last());
    }
}

proof fn lemma_trim_end_keeps_first(s: Seq<char>)
    ensures
        trim_end_rec(s).len() > 0 ==> trim_end_rec(s)[0] == s[0],
    decreases s.len(),
{
    if s.len() > 0 && is_space(s.last()) {
        lemma_trim_end_keeps_first(s.drop_last());
    }
}

/// The slug characters: ASCII letters and digits, nothing else.
pub open spec fn is_slug_char(c: char) -> bool {
    (97 <= c as u32 && c as u32 <= 122) || (65 <= c as u32 && c as u32 <= 90) || (48 <= c as u32
        && c as u32 <= 57)
}

/// The slug of a display name: the name with every character outside
/// `[A-Za-z0-9]` (spaces included) removed, in order, case untouched.
pub open spec fn slug_of(s: Seq<char>) -> Seq<char>
    decreases s.len(),
{
    if s.len() == 0 {
        Seq::empty()
    } else if is_slug_char(s.last()) {
        slug_of(s.drop_last()).push(s.last())
    } else {
        slug_of(s.drop_last())
    }
}

/// Derives the URL path slug from a genre display name.
pub fn make_slug(name: &str) -> (r: String)
    ensures
        r@ == slug_of(name@),
{
    let n = name.unicode_len();
    let mut out = String::new();
    let mut k: usize = 0;
    while k < n
        invariant
            k <= n,
            n == name@.len(),
            out@ == slug_of(name@.take(k as int)),
        decreases n - k,
    {
        let c = name.get_char(k);
        let u = c as u32;
        if (97 <= u && u <= 122) || (65 <= u && u <= 90) || (48 <= u && u <= 57) {
            let piece = name.substring_char(k, k + 1);
            out.append(piece);
        }
        proof {
            let pre = name@.take(k as int);
            let cur = name@.take(k + 1);
            assert(cur.drop_last() =~= pre);
            assert(cur.last() == name@[k as int]);
            if is_slug_char(name@[k as int]) {
                assert(name@.subrange(k as int, k + 1) =~= seq![name@[k as int]]);
                assert(slug_of(pre) + seq![name@[k as int]] =~= slug_of(pre).push(
                    name@[k as int],
                ));
            }
        }
        k += 1;
    }
    proof {
        assert(name@.take(n as int) =~= name@);
    }
    out
}

/// Every character of a slug is an ASCII letter or digit; in particular no
/// slug contains a space.
pub proof fn lemma_slug_chars_in_range(s: Seq<char>)
    ensures
        forall|i: int|
            0 <= i < slug_of(s).len() ==> is_slug_char(#[trigger] slug_of(s)[i]) && slug_of(s)[i]
                != ' ',
    decreases s.len(),
{
    if s.len() > 0 {
        lemma_slug_chars_in_range(s.drop_last());
        assert forall|i: int| 0 <= i < slug_of(s).len() implies is_slug_char(
            #[trigger] slug_of(s)[i],
        ) && slug_of(s)[i] != ' ' by {
            if is_slug_char(s.last()) && i == slug_of(s).len() - 1 {
                assert(slug_of(s)[i] == s.last());
            } else {
                assert(slug_of(s)[i] == slug_of(s.drop_last())[i]);
            }
        }
    }
}

/// The literal marker that precedes an example artist in a tile's `title`.
pub open spec fn eg_marker() -> Seq<char> {
    seq!['e', '.', 'g', '.']
}

/// The marker starts at position `i` of `t`.
pub open spec fn marker_at(t: Seq<char>, i: int) -> bool {
    0 <= i && i + 4 <= t.len() && t.subrange(i, i + 4) == eg_marker()
}

/// The start of the last marker occurrence at or below `i`, `-1` if none.
pub open spec fn last_marker_from(t: Seq<char>, i: int) -> int
    decreases i + 1
{
    if i < 0 {
        -1
    } else if marker_at(t, i) {
        i
    } else {
        last_marker_from(t, i - 1)
    }
}

/// The position of the first `"` at or after `i`, `-1` if none.
pub open spec fn quote_pos_from(t: Seq<char>, i: int) -> int
    decreases t.len() - i + 1
{
    if i < 0 || i >= t.len() {
        -1
    } else if t[i] == '"' {
        i
    } else {
        quote_pos_from(t, i + 1)
    }
}

/// The artist display name a `title` attribute yields: the text between the
/// last `e.g.` marker and the first `"` after it, trimmed; empty when either
/// the marker or the quote is missing.
pub open spec fn artist_name_of(t: Seq<char>) -> Seq<char> {
    let m = last_marker_from(t, t.len() - 4);
    if m < 0 {
        Seq::empty()
    } else {
        let q = quote_pos_from(t, m + 4);
        if q < 0 {
            Seq::empty()
        } else {
            trimmed(t.subrange(m + 4, q))
        }
    }
}

proof fn lemma_last_marker_from_above(t: Seq<char>, m: int, i: int)
    requires
        marker_at(t, m),
        m <= i,
        forall|j: int| m < j <= i ==> !marker_at(t, j),
    ensures
        last_marker_from(t, i) == m,
    decreases i - m,
{
    if i > m {
        lemma_last_marker_from_above(t, m, i - 1);
    }
}

proof fn lemma_no_marker_from(t: Seq<char>, i: int)
    requires
        forall|j: int| !marker_at(t, j),
    ensures
        last_marker_from(t, i) == -1,
    decreases i + 1,
{
    if i >= 0 {
        lemma_no_marker_from(t, i - 1);
    }
}

fn marker_check(t: &str, i: usize) -> (r: bool)
    requires
        i + 4 <= t@.len(),
        t@.len() <= usize::MAX,
    ensures
        r == marker_at(t@, i as int),
{
    let r = t.get_char(i) == 'e' && t.get_char(i + 1) == '.' && t.get_char(i + 2) == 'g'
        && t.get_char(i + 3) == '.';
    proof {
        let sub = t@.subrange(i as int, i as int + 4);
        assert(sub =~= seq![t@[i as int], t@[i + 1], t@[i + 2], t@[i + 3]]);
        if r {
            assert(sub =~= eg_marker());
        } else if marker_at(t@, i as int) {
            assert(t@[i as int] == eg_marker()[0]);
            assert(t@[i + 1] == eg_marker()[1]);
            assert(t@[i + 2] == eg_marker()[2]);
            assert(t@[i + 3] == eg_marker()[3]);
        }
    }
    r
}

/// Derives an artist's display name from a tile's `title` attribute: the
/// text between the last `e.g.` marker and the first `"` after it, trimmed;
/// the empty string when the marker or the quote is absent.
pub fn extract_artist_name_from_title(title: &str) -> (r: String)
    ensures
        r@ == artist_name_of(title@),
{
    let n = title.unicode_len();
    if n < 4 {
        proof {
            assert forall|j: int| !marker_at(title@, j) by {}
            lemma_no_marker_from(title@, n - 4);
        }
        return String::new();
    }
    let mut m: usize = 0;
    let mut found: bool = false;
    let mut k: usize = 0;
    while k <= n - 4
        invariant
            k <= n - 3,
            n == title@.len(),
            n >= 4,
            found ==> marker_at(title@, m as int) && (forall|j: int|
                m < j < k ==> !marker_at(title@, j)) && m < k,
            !found ==> forall|j: int| j < k ==> !marker_at(title@, j),
        decreases n - k,
    {
        if marker_check(title, k) {
            m = k;
            found = true;
        }
        k += 1;
    }
    proof {
        assert(forall|j: int| k <= j ==> !marker_at(title@, j));
        if found {
            lemma_last_marker_from_above(title@, m as int, n - 4);
        } else {
            lemma_no_marker_from(title@, n - 4);
        }
    }
    if !found {
        return String::new();
    }
    let start = m + 4;
    let mut q: usize = start;
    while q < n && !(title.get_char(q) == '"')
        invariant
            start <= q <= n,
            n == title@.len(),
            quote_pos_from(title@, start as int) == quote_pos_from(title@, q as int),
        decreases n - q,
    {
        q += 1;
    }
    if q == n {
        return String::new();
    }
    let sub = title.substring_char(start, q);
    trim_text(sub)
}

} // verus!
