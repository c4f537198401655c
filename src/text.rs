//! Character-level text helpers for building committed lines.
use vstd::prelude::*;

verus! {

/// Characters that never enter a line: `#` and the newline.
pub open spec fn is_artifact(c: char) -> bool {
    c == '#' || c == '\n'
}

/// `s` without its artifact characters.
pub open spec fn strip_spec(s: Seq<char>) -> Seq<char>
    decreases s.len(),
{
    if s.len() == 0 {
        s
    } else {
        let rest = strip_spec(s.drop_last());
        if is_artifact(s.last()) {
            rest
        } else {
            rest.push(s.last())
        }
    }
}

/// No `#` and no newline anywhere in `s`.
pub open spec fn no_artifacts(s: Seq<char>) -> bool {
    forall|i: int| 0 <= i < s.len() ==> !is_artifact(#[trigger] s[i])
}

/// Stripping leaves no artifact behind.
pub proof fn lemma_strip_clean(s: Seq<char>)
    ensures
        no_artifacts(strip_spec(s)),
    decreases s.len(),
{
    if s.len() > 0 {
        lemma_strip_clean(s.drop_last());
    }
}

/// Appending clean text to clean text gives clean text.
pub proof fn lemma_concat_clean(a: Seq<char>, b: Seq<char>)
    requires
        no_artifacts(a),
        no_artifacts(b),
    ensures
        no_artifacts(a + b),
{
    assert forall|i: int| 0 <= i < (a + b).len() implies !is_artifact(#[trigger] (a + b)[i]) by {
        if i >= a.len() {
            assert((a + b)[i] == b[i - a.len()]);
        }
    }
}

pub open spec fn has_char(s: Seq<char>, c: char) -> bool {
    exists|i: int| 0 <= i < s.len() && s[i] == c
}

/// Whether `needle` occurs in `hay` at some position.
pub open spec fn occurs_in(hay: Seq<char>, needle: Seq<char>) -> bool {
    exists|i: int|
        0 <= i && i + needle.len() <= hay.len() && #[trigger] hay.subrange(i, i + needle.len())
            == needle
}

/// A character with the Unicode White_Space property.
pub open spec fn is_white_space(c: char) -> bool {
    ('\u{9}' <= c && c <= '\u{d}') || c == ' ' || c == '\u{85}' || c == '\u{a0}' || c
        == '\u{1680}' || ('\u{2000}' <= c && c <= '\u{200a}') || c == '\u{2028}' || c
        == '\u{2029}' || c == '\u{202f}' || c == '\u{205f}' || c == '\u{3000}'
}

/// `s` without its leading white space.
pub open spec fn trim_start_spec(s: Seq<char>) -> Seq<char>
    decreases s.len(),
{
    if s.len() > 0 && is_white_space(s[0]) {
        trim_start_spec(s.drop_first())
    } else {
        s
    }
}

/// `s` without its trailing white space.
pub open spec fn trim_end_spec(s: Seq<char>) -> Seq<char>
    decreases s.len(),
{
    if s.len() > 0 && is_white_space(s.last()) {
        trim_end_spec(s.drop_last())
    } else {
        s
    }
}

/// `s` without leading and trailing white space.
pub open spec fn trim_of(s: Seq<char>) -> Seq<char> {
    trim_end_spec(trim_start_spec(s))
}

proof fn lemma_trim_start(s: Seq<char>)
    ensures
        exists|i: int| 0 <= i <= s.len() && trim_start_spec(s) == s.subrange(i, s.len() as int),
        trim_start_spec(s).len() > 0 ==> !is_white_space(trim_start_spec(s)[0]),
    decreases s.len(),
{
    if s.len() > 0 && is_white_space(s[0]) {
        let t = s.drop_first();
        lemma_trim_start(t);
        let i = choose|i: int| 0 <= i <= t.len() && trim_start_spec(t) == t.subrange(i, t.len() as int);
        assert(t.subrange(i, t.len() as int) =~= s.subrange(i + 1, s.len() as int));
    } else {
        assert(s.subrange(0, s.len() as int) =~= s);
    }
}

proof fn lemma_trim_end(s: Seq<char>)
    ensures
        exists|k: int| 0 <= k <= s.len() && trim_end_spec(s) == s.subrange(0, k),
        trim_end_spec(s).len() > 0 ==> !is_white_space(trim_end_spec(s).last()),
    decreases s.len(),
{
    if s.len() > 0 && is_white_space(s.last()) {
        let t = s.drop_last();
        lemma_trim_end(t);
        let k = choose|k: int| 0 <= k <= t.len() && trim_end_spec(t) == t.subrange(0, k);
        assert(t.subrange(0, k) =~= s.subrange(0, k));
    } else {
        assert(s.subrange(0, s.len() as int) =~= s);
    }
}

/// A trimmed text neither starts nor ends with white space.
pub proof fn lemma_trimmed_ends(s: Seq<char>)
    ensures
        trim_of(s).len() > 0 ==> !is_white_space(trim_of(s)[0]) && !is_white_space(
            trim_of(s).last(),
        ),
{
    let t = trim_start_spec(s);
    lemma_trim_start(s);
    lemma_trim_end(t);
    if trim_of(s).len() > 0 {
        let k = choose|k: int| 0 <= k <= t.len() && trim_end_spec(t) == t.subrange(0, k);
        assert(trim_of(s)[0] == t[0]);
    }
}

/// Trimming a clean text keeps it clean, and leaves no white space at
/// either end.
pub proof fn lemma_trimmed_clean(s: Seq<char>)
    requires
        no_artifacts(s),
    ensures
        no_artifacts(trim_of(s)),
        trim_of(s).len() > 0 ==> !is_white_space(trim_of(s)[0]) && !is_white_space(
            trim_of(s).last(),
        ),
{
    let t = trim_start_spec(s);
    lemma_trim_start(s);
    lemma_trim_end(t);
    lemma_trimmed_ends(s);
    let i = choose|i: int| 0 <= i <= s.len() && t == s.subrange(i, s.len() as int);
    let k = choose|k: int| 0 <= k <= t.len() && trim_end_spec(t) == t.subrange(0, k);
    assert forall|j: int| 0 <= j < trim_of(s).len() implies !is_artifact(#[trigger] trim_of(s)[j]) by {
        assert(trim_of(s)[j] == s[i + j]);
    }
}

/// Relies on str::trim: the text without the leading and trailing
/// characters that have the Unicode White_Space property, as its
/// documentation defines whitespace.
#[verifier::external_body]
fn trim_str(s: &str) -> (r: String)
    ensures
        r@ == trim_of(s@),
{
    s.trim().to_string()
}

/// `s` with leading and trailing whitespace removed.
pub fn trimmed(s: &str) -> (r: String)
    ensures
        r@ == trim_of(s@),
{
    trim_str(s)
}

/// Removes every `#` and newline from a fragment.
pub fn strip_artifacts(s: &str) -> (r: String)
    ensures
        r@ == strip_spec(s@),
{
    let n = s.unicode_len();
    let mut out = String::new();
    let mut i: usize = 0;
    while i < n
        invariant
            n == s@.len(),
            i <= n,
            out@ == strip_spec(s@.subrange(0, i as int)),
        decreases n - i,
    {
        let c = s.get_char(i);
        assert(s@.subrange(0, i as int + 1).drop_last() == s@.subrange(0, i as int));
        if c != '#' && c != '\n' {
            let piece = s.substring_char(i, i + 1);
            out.append(piece);
            assert(piece@ == seq![c]);
        }
        i = i + 1;
    }
    assert(s@.subrange(0, n as int) == s@);
    out
}

/// Whether the text holds the character `c`.
pub fn contains_char(s: &str, c: char) -> (r: bool)
    ensures
        r == has_char(s@, c),
{
    let n = s.unicode_len();
    let mut i: usize = 0;
    while i < n
        invariant
            n == s@.len(),
            i <= n,
            forall|j: int| 0 <= j < i ==> s@[j] != c,
        decreases n - i,
    {
        if s.get_char(i) == c {
            return true;
        }
        i = i + 1;
    }
    false
}

/// Whether `needle` matches `hay` at position `at`.
fn matches_at(hay: &str, hay_len: usize, needle: &str, needle_len: usize, at: usize) -> (r: bool)
    requires
        hay_len == hay@.len(),
        needle_len == needle@.len(),
        at + needle_len <= hay_len,
    ensures
        r == (hay@.subrange(at as int, at + needle_len) == needle@),
{
    let mut j: usize = 0;
    while j < needle_len
        invariant
            hay_len == hay@.len(),
            needle_len == needle@.len(),
            at + needle_len <= hay_len,
            j <= needle_len,
            forall|k: int| 0 <= k < j ==> hay@[at + k] == needle@[k],
        decreases needle_len - j,
    {
        if hay.get_char(at + j) != needle.get_char(j) {
            assert(hay@.subrange(at as int, at + needle_len)[j as int] != needle@[j as int]);
            return false;
        }
        j = j + 1;
    }
    assert(hay@.subrange(at as int, at + needle_len) =~= needle@);
    true
}

/// Whether `needle` occurs in `hay`.
pub fn contains_text(hay: &str, needle: &str) -> (r: bool)
    ensures
        r == occurs_in(hay@, needle@),
{
    let hn = hay.unicode_len();
    let nn = needle.unicode_len();
    if nn > hn {
        assert(!occurs_in(hay@, needle@));
        return false;
    }
    let mut i: usize = 0;
    while i < hn - nn
        invariant
            hn == hay@.len(),
            nn == needle@.len(),
            nn <= hn,
            i <= hn - nn,
            forall|k: int| 0 <= k < i ==> #[trigger] hay@.subrange(k, k + nn) != needle@,
        decreases hn - nn - i,
    {
        if matches_at(hay, hn, needle, nn, i) {
            return true;
        }
        i = i + 1;
    }
    if matches_at(hay, hn, needle, nn, i) {
        return true;
    }
    assert(!occurs_in(hay@, needle@)) by {
        assert forall|k: int| 0 <= k && k + nn <= hn implies #[trigger] hay@.subrange(k, k + nn)
            != needle@ by {
            assert(k <= i);
        }
    }
    false
}

} // verus!
