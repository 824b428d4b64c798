//! The text an item is sorted by: lower case, without leading characters
//! that are not letters or digits, and without leading "the ".
use vstd::prelude::*;

use super::sort_keys::{SortKey, words_view};

verus! {

/// The lower case form of a text, as `str::to_lowercase` computes it (full
/// Unicode case mapping).
pub uninterp spec fn spec_to_lowercase(s: Seq<char>) -> Seq<char>;

/// Whether a character is alphabetic or numeric, as `char::is_alphanumeric`
/// decides it (Unicode properties).
pub uninterp spec fn spec_is_alphanumeric(c: char) -> bool;

/// Calls `str::to_lowercase`; the contract claims only that the result is
/// the named function `spec_to_lowercase` of the text.
#[verifier::external_body]
fn to_lowercase_chars(s: &str) -> (r: Vec<char>)
    ensures
        r@ == spec_to_lowercase(s@),
{
    s.to_lowercase().chars().collect()
}

/// Calls `char::is_alphanumeric`; the contract claims only that the result
/// is the named function `spec_is_alphanumeric` of the character.
#[verifier::external_body]
fn is_alphanumeric(c: char) -> (r: bool)
    ensures
        r == spec_is_alphanumeric(c),
{
    c.is_alphanumeric()
}

/// The first position at or after `i` that holds a letter or digit (the
/// length if there is none).
pub open spec fn first_alphanumeric_from(s: Seq<char>, i: int) -> int
    decreases s.len() - i,
{
    if 0 <= i < s.len() && !spec_is_alphanumeric(s[i]) {
        first_alphanumeric_from(s, i + 1)
    } else {
        i
    }
}

/// Whether "the " starts at position `i`.
pub open spec fn the_at(s: Seq<char>, i: int) -> bool {
    0 <= i && i + 4 <= s.len() && s[i] == 't' && s[i + 1] == 'h' && s[i + 2] == 'e' && s[i + 3]
        == ' '
}

/// The position after every "the " repeated from position `i`.
pub open spec fn skip_the_from(s: Seq<char>, i: int) -> int
    decreases s.len() - i,
{
    if the_at(s, i) {
        skip_the_from(s, i + 4)
    } else {
        i
    }
}

/// The text that `s` is sorted by.
pub open spec fn spec_text_key(s: Seq<char>) -> Seq<char> {
    let lower = spec_to_lowercase(s);
    let start = skip_the_from(lower, first_alphanumeric_from(lower, 0));
    lower.subrange(start, lower.len() as int)
}

proof fn lemma_first_alphanumeric_bounds(s: Seq<char>, i: int)
    requires
        0 <= i <= s.len(),
    ensures
        i <= first_alphanumeric_from(s, i) <= s.len(),
    decreases s.len() - i,
{
    if i < s.len() && !spec_is_alphanumeric(s[i]) {
        lemma_first_alphanumeric_bounds(s, i + 1);
    }
}

proof fn lemma_skip_the_bounds(s: Seq<char>, i: int)
    requires
        0 <= i <= s.len(),
    ensures
        i <= skip_the_from(s, i) <= s.len(),
    decreases s.len() - i,
{
    if the_at(s, i) {
        lemma_skip_the_bounds(s, i + 4);
    }
}

proof fn lemma_skip_the_shift(t: Seq<char>, i: int)
    requires
        0 <= i <= t.len(),
    ensures
        skip_the_from(seq!['t', 'h', 'e', ' '] + t, i + 4) == skip_the_from(t, i) + 4,
    decreases t.len() - i,
{
    let l = seq!['t', 'h', 'e', ' '] + t;
    assert(the_at(l, i + 4) == the_at(t, i)) by {
        if i + 4 <= t.len() {
            assert(l[i + 4] == t[i] && l[i + 5] == t[i + 1] && l[i + 6] == t[i + 2] && l[i + 7] == t[i + 3]);
        }
    }
    if the_at(t, i) {
        lemma_skip_the_shift(t, i + 4);
    }
}

/// A leading "the " does not count: a text whose lower case is "the "
/// followed by the lower case of another text, which starts with a letter
/// or digit, is sorted by the same text as that other one (the key of
/// "The Beatles" is that of "Beatles": "beatles"). Like every ASCII letter,
/// `t` counts as a letter.
pub proof fn lemma_leading_the_ignored(x: Seq<char>, y: Seq<char>)
    requires
        spec_to_lowercase(x) == seq!['t', 'h', 'e', ' '] + spec_to_lowercase(y),
        spec_to_lowercase(y).len() > 0,
        spec_is_alphanumeric(spec_to_lowercase(y)[0]),
        spec_is_alphanumeric('t'),
    ensures
        spec_text_key(x) == spec_text_key(y),
{
    let t = spec_to_lowercase(y);
    let l = spec_to_lowercase(x);
    assert(l[0] == 't');
    assert(first_alphanumeric_from(l, 0) == 0);
    assert(first_alphanumeric_from(t, 0) == 0);
    assert(the_at(l, 0));
    lemma_skip_the_shift(t, 0);
    lemma_skip_the_bounds(t, 0);
    let k = skip_the_from(t, 0);
    assert(l.subrange(k + 4, l.len() as int) =~= t.subrange(k, t.len() as int));
}

/// The text that `s` is sorted by.
pub fn text_key(s: &str) -> (r: Vec<char>)
    ensures
        r@ == spec_text_key(s@),
{
    let lower = to_lowercase_chars(s);
    let ghost l = lower@;
    let mut i: usize = 0;
    while i < lower.len() && !is_alphanumeric(lower[i])
        invariant
            l == lower@,
            i <= lower.len(),
            first_alphanumeric_from(l, 0) == first_alphanumeric_from(l, i as int),
        decreases lower.len() - i,
    {
        i = i + 1;
    }
    let ghost a = i as int;
    while lower.len() - i >= 4 && lower[i] == 't' && lower[i + 1] == 'h' && lower[i + 2] == 'e'
        && lower[i + 3] == ' '
        invariant
            l == lower@,
            a <= i <= lower.len(),
            skip_the_from(l, a) == skip_the_from(l, i as int),
            first_alphanumeric_from(l, 0) == a,
        decreases lower.len() - i,
    {
        i = i + 4;
    }
    let mut out: Vec<char> = Vec::new();
    let start = i;
    while i < lower.len()
        invariant
            l == lower@,
            start <= i <= lower.len(),
            out@ == l.subrange(start as int, i as int),
        decreases lower.len() - i,
    {
        out.push(lower[i]);
        i = i + 1;
        assert(out@ =~= l.subrange(start as int, i as int));
    }
    out
}

/// The key of a text: the single word made of its sort text.
pub open spec fn spec_text_sort_key(s: Seq<char>) -> super::sort_keys::SortKeyView {
    super::sort_keys::SortKeyView::Words(seq![spec_text_key(s)])
}

/// The key of a list of texts: the list of their sort texts.
pub open spec fn spec_texts_sort_key(s: Seq<String>) -> super::sort_keys::SortKeyView {
    super::sort_keys::SortKeyView::Words(s.map_values(|t: String| spec_text_key(t@)))
}

/// The key of a text.
pub fn text_sort_key(s: &String) -> (r: SortKey)
    ensures
        r@ == spec_text_sort_key(s@),
{
    let mut words: Vec<Vec<char>> = Vec::new();
    words.push(text_key(s.as_str()));
    assert(words_view(words@) =~= seq![spec_text_key(s@)]);
    SortKey::Words(words)
}

/// The key of a list of texts.
pub fn texts_sort_key(s: &Vec<String>) -> (r: SortKey)
    ensures
        r@ == spec_texts_sort_key(s@),
{
    let mut words: Vec<Vec<char>> = Vec::new();
    let mut i: usize = 0;
    while i < s.len()
        invariant
            i <= s.len(),
            words_view(words@) == s@.subrange(0, i as int).map_values(|t: String| spec_text_key(t@)),
        decreases s.len() - i,
    {
        let k = text_key(s[i].as_str());
        let ghost prev = words@;
        words.push(k);
        proof {
            let f = |t: String| spec_text_key(t@);
            assert(words_view(words@) =~= words_view(prev).push(k@));
            assert(s@.subrange(0, i + 1) =~= s@.subrange(0, i as int).push(s@[i as int]));
            assert(s@.subrange(0, i + 1).map_values(f) =~= s@.subrange(0, i as int).map_values(
                f,
            ).push(f(s@[i as int])));
        }
        i = i + 1;
    }
    assert(s@.subrange(0, s@.len() as int) =~= s@);
    SortKey::Words(words)
}

} // verus!
