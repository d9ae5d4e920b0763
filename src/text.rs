use unicode_segmentation::UnicodeSegmentation;
use vstd::prelude::*;

verus! {

/// Unicode `White_Space`, the set that `char::is_whitespace` tests.
pub open spec fn is_ws(c: char) -> bool {
    ('\u{9}' <= c && c <= '\u{d}') || c == ' ' || c == '\u{85}' || c == '\u{a0}' || c
        == '\u{1680}' || ('\u{2000}' <= c && c <= '\u{200a}') || c == '\u{2028}' || c
        == '\u{2029}' || c == '\u{202f}' || c == '\u{205f}' || c == '\u{3000}'
}

/// `s` without its trailing whitespace.
pub open spec fn trim_end_of(s: Seq<char>) -> Seq<char>
    decreases s.len(),
{
    if s.len() > 0 && is_ws(s.last()) {
        trim_end_of(s.drop_last())
    } else {
        s
    }
}

/// `s` without its leading whitespace.
pub open spec fn trim_start_of(s: Seq<char>) -> Seq<char>
    decreases s.len(),
{
    if s.len() > 0 && is_ws(s[0]) {
        trim_start_of(s.drop_first())
    } else {
        s
    }
}

/// `s` without leading and trailing whitespace.
pub open spec fn trim_of(s: Seq<char>) -> Seq<char> {
    trim_end_of(trim_start_of(s))
}

/// The lowercase form of a string, as `str::to_lowercase` computes it.
pub uninterp spec fn lower_of(s: Seq<char>) -> Seq<char>;

/// The extended grapheme clusters of a string, in order.
pub uninterp spec fn graphemes_of(s: Seq<char>) -> Seq<Seq<char>>;

/// The characters of a sequence of strings, one after the other.
pub open spec fn flatten(gs: Seq<Seq<char>>) -> Seq<char>
    decreases gs.len(),
{
    if gs.len() == 0 {
        Seq::empty()
    } else {
        flatten(gs.drop_last()) + gs.last()
    }
}

/// Number of grapheme clusters in `s`.
pub open spec fn grapheme_count(s: Seq<char>) -> nat {
    graphemes_of(s).len()
}

/// Number of characters in the first `k` grapheme clusters of `s`.
pub open spec fn grapheme_offset(s: Seq<char>, k: int) -> int {
    flatten(graphemes_of(s).subrange(0, k)).len() as int
}

pub open spec fn string_views(v: Seq<String>) -> Seq<Seq<char>> {
    v.map_values(|g: String| g@)
}

/// Relies on `str::trim`: leading and trailing `White_Space` characters are removed.
#[verifier::external_body]
pub(crate) fn trim(s: &str) -> (r: String)
    ensures
        r@ == trim_of(s@),
{
    s.trim().to_string()
}

/// Relies on `str::trim_end`: trailing `White_Space` characters are removed.
#[verifier::external_body]
pub(crate) fn trim_end(s: &str) -> (r: String)
    ensures
        r@ == trim_end_of(s@),
{
    s.trim_end().to_string()
}

/// ASCII, and not an uppercase letter: a character that lowercasing keeps.
pub open spec fn is_ascii_non_upper(c: char) -> bool {
    c <= '\u{7f}' && !('A' <= c && c <= 'Z')
}

/// Relies on `str::to_lowercase`: the result depends on the characters alone,
/// the empty string stays empty, every character maps to at least one, and
/// ASCII characters other than uppercase letters map to themselves.
#[verifier::external_body]
pub(crate) fn lowercase(s: &str) -> (r: String)
    ensures
        r@ == lower_of(s@),
        s@.len() == 0 ==> r@.len() == 0,
        s@.len() > 0 ==> r@.len() > 0,
        (forall|i: int| 0 <= i < s@.len() ==> is_ascii_non_upper(#[trigger] s@[i])) ==> r@
            == s@,
{
    s.to_lowercase()
}

/// Relies on `UnicodeSegmentation::graphemes` (extended clusters): consecutive
/// non-empty slices that together make up the string.
#[verifier::external_body]
pub(crate) fn split_graphemes(s: &str) -> (r: Vec<String>)
    ensures
        string_views(r@) == graphemes_of(s@),
        flatten(string_views(r@)) == s@,
        forall|i: int| 0 <= i < r@.len() ==> (#[trigger] r@[i])@.len() > 0,
{
    s.graphemes(true).map(String::from).collect()
}

/// Relies on `String::from(char)`: a string of that one character.
#[verifier::external_body]
pub(crate) fn char_string(c: char) -> (r: String)
    ensures
        r@ == seq![c],
{
    String::from(c)
}

/// Length of a string in grapheme clusters.
pub trait StringExt {
    spec fn spec_grapheme_len(&self) -> nat;

    /// Length in characters.
    spec fn spec_char_len(&self) -> nat;

    fn grapheme_len(&self) -> (r: usize)
        ensures
            r == self.spec_grapheme_len(),
            r <= self.spec_char_len(),
            (r == 0) == (self.spec_char_len() == 0),
    ;
}

impl StringExt for String {
    open spec fn spec_grapheme_len(&self) -> nat {
        grapheme_count(self@)
    }

    open spec fn spec_char_len(&self) -> nat {
        self@.len()
    }

    fn grapheme_len(&self) -> (r: usize) {
        let gs = split_graphemes(self.as_str());
        proof {
            let g = string_views(gs@);
            assert forall|i: int| 0 <= i < g.len() implies (#[trigger] g[i]).len() > 0 by {
                assert(g[i] == gs@[i]@);
            }
            lemma_flatten_nonempty_len(g);
        }
        gs.len()
    }
}

/// Joining non-empty pieces gives at least one character per piece, and
/// nothing only when there are no pieces.
pub proof fn lemma_flatten_nonempty_len(gs: Seq<Seq<char>>)
    requires
        forall|i: int| 0 <= i < gs.len() ==> (#[trigger] gs[i]).len() > 0,
    ensures
        gs.len() <= flatten(gs).len(),
        (gs.len() == 0) == (flatten(gs).len() == 0),
    decreases gs.len(),
{
    if gs.len() > 0 {
        let t = gs.drop_last();
        assert forall|i: int| 0 <= i < t.len() implies (#[trigger] t[i]).len() > 0 by {
            assert(t[i] == gs[i]);
        }
        lemma_flatten_nonempty_len(t);
        assert(gs.last() == gs[gs.len() - 1]);
    }
}

/// Trimming and then lowercasing: how a typed query becomes a cache key.
pub open spec fn normalized(s: Seq<char>) -> Seq<char> {
    lower_of(trim_of(s))
}

/// Normalizes a query: trims surrounding whitespace, then lowercases.
pub fn normalize_query(s: &str) -> (r: String)
    ensures
        r@ == normalized(s@),
        trim_of(s@).len() == 0 ==> r@.len() == 0,
        trim_of(s@).len() > 0 ==> r@.len() > 0,
{
    let t = trim(s);
    lowercase(t.as_str())
}

/// Trimming a string of whitespace alone leaves nothing.
pub proof fn lemma_blank_trims_to_empty(s: Seq<char>)
    requires
        forall|i: int| 0 <= i < s.len() ==> is_ws(#[trigger] s[i]),
    ensures
        trim_of(s).len() == 0,
    decreases s.len(),
{
    if s.len() > 0 {
        let t = s.drop_first();
        assert forall|i: int| 0 <= i < t.len() implies is_ws(#[trigger] t[i]) by {
            assert(t[i] == s[i + 1]);
        }
        lemma_blank_trims_to_empty(t);
        assert(is_ws(s[0]));
    } else {
        assert(trim_start_of(s) == s);
    }
}

/// Flattening distributes over concatenation.
pub proof fn lemma_flatten_concat(a: Seq<Seq<char>>, b: Seq<Seq<char>>)
    ensures
        flatten(a + b) == flatten(a) + flatten(b),
    decreases b.len(),
{
    if b.len() == 0 {
        assert(a + b =~= a);
        assert(flatten(a) + flatten(b) =~= flatten(a));
    } else {
        lemma_flatten_concat(a, b.drop_last());
        assert((a + b).drop_last() =~= a + b.drop_last());
        assert((a + b).last() == b.last());
        assert(flatten(a + b) =~= flatten(a) + flatten(b));
    }
}

} // verus!
