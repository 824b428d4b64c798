//! Sort keys for library items and a stable sort over them.
//!
//! Text is compared character by character by scalar value, which is the
//! order that `String` comparison gives for valid UTF-8. A key made of
//! several words (such as the list of artists of a song) is compared word by
//! word, and a shorter list that is a prefix of a longer one comes first.
use vstd::prelude::*;

verus! {

/// The key an item is sorted by.
#[derive(Debug)]
pub enum SortKey {
    /// A list of words, compared word by word.
    Words(Vec<Vec<char>>),
    /// A number, compared numerically.
    Number(i64),
}

/// The mathematical value of a [`SortKey`].
pub enum SortKeyView {
    Words(Seq<Seq<char>>),
    Number(int),
}

pub open spec fn words_view(w: Seq<Vec<char>>) -> Seq<Seq<char>> {
    w.map_values(|x: Vec<char>| x@)
}

impl View for SortKey {
    type V = SortKeyView;

    open spec fn view(&self) -> SortKeyView {
        match self {
            SortKey::Words(w) => SortKeyView::Words(words_view(w@)),
            SortKey::Number(n) => SortKeyView::Number(*n as int),
        }
    }
}

/// Lexicographic "less than" on text, looking from position `i` on.
pub open spec fn text_lt_from(a: Seq<char>, b: Seq<char>, i: int) -> bool
    decreases a.len() - i,
{
    if i < 0 || i >= a.len() {
        0 <= i < b.len()
    } else if i >= b.len() {
        false
    } else if a[i] != b[i] {
        (a[i] as int) < (b[i] as int)
    } else {
        text_lt_from(a, b, i + 1)
    }
}

/// Lexicographic "less than" on text.
pub open spec fn text_lt(a: Seq<char>, b: Seq<char>) -> bool {
    text_lt_from(a, b, 0)
}

/// Lexicographic "less than" on lists of words, looking from word `i` on.
pub open spec fn words_lt_from(a: Seq<Seq<char>>, b: Seq<Seq<char>>, i: int) -> bool
    decreases a.len() - i,
{
    if i < 0 || i >= a.len() {
        0 <= i < b.len()
    } else if i >= b.len() {
        false
    } else if a[i] != b[i] {
        text_lt(a[i], b[i])
    } else {
        words_lt_from(a, b, i + 1)
    }
}

/// Lexicographic "less than" on lists of words.
pub open spec fn words_lt(a: Seq<Seq<char>>, b: Seq<Seq<char>>) -> bool {
    words_lt_from(a, b, 0)
}

/// The strict order on keys. Numbers come before words (the two never
/// meet in one sort).
pub open spec fn key_lt(x: SortKeyView, y: SortKeyView) -> bool {
    match (x, y) {
        (SortKeyView::Words(a), SortKeyView::Words(b)) => words_lt(a, b),
        (SortKeyView::Number(a), SortKeyView::Number(b)) => a < b,
        (SortKeyView::Number(_), SortKeyView::Words(_)) => true,
        (SortKeyView::Words(_), SortKeyView::Number(_)) => false,
    }
}

pub open spec fn keys_view(keys: Seq<SortKey>) -> Seq<SortKeyView> {
    keys.map_values(|k: SortKey| k@)
}

/// Item `x` comes before item `y` in a stable sort: its key is smaller, or
/// the keys are equal and it came first.
pub open spec fn sorts_before(keys: Seq<SortKeyView>, x: int, y: int) -> bool {
    key_lt(keys[x], keys[y]) || (keys[x] == keys[y] && x < y)
}

/// `p` lists the positions `0..keys.len()` in the order a stable sort by
/// `keys` puts them.
pub open spec fn is_sort_order(keys: Seq<SortKeyView>, p: Seq<int>) -> bool {
    &&& p.len() == keys.len()
    &&& forall|k: int| 0 <= k < p.len() ==> 0 <= #[trigger] p[k] < keys.len()
    &&& forall|a: int, b: int| 0 <= a < b < p.len() ==> #[trigger] p[a] != #[trigger] p[b]
    &&& forall|a: int, b: int|
        0 <= a < b < p.len() ==> sorts_before(keys, #[trigger] p[a], #[trigger] p[b])
}

/// `out` is `items` stably sorted by `keys` (the key of `items[i]` is `keys[i]`).
pub open spec fn is_stable_sort<T>(keys: Seq<SortKeyView>, items: Seq<T>, out: Seq<T>) -> bool {
    &&& items.len() == keys.len()
    &&& exists|p: Seq<int>|
        #![trigger is_sort_order(keys, p)]
        is_sort_order(keys, p) && out.len() == items.len() && forall|k: int|
            0 <= k < out.len() ==> #[trigger] out[k] == items[p[k]]
}

// ---------------------------------------------------------------------------
// The orders are strict total orders.
proof fn lemma_text_irreflexive(a: Seq<char>, i: int)
    requires
        0 <= i,
    ensures
        !text_lt_from(a, a, i),
    decreases a.len() - i,
{
    if i < a.len() {
        lemma_text_irreflexive(a, i + 1);
    }
}

proof fn lemma_text_transitive(a: Seq<char>, b: Seq<char>, c: Seq<char>, i: int)
    requires
        0 <= i,
        text_lt_from(a, b, i),
        text_lt_from(b, c, i),
    ensures
        text_lt_from(a, c, i),
    decreases a.len() - i,
{
    if i < a.len() && i < b.len() && i < c.len() && a[i] == b[i] && b[i] == c[i] {
        lemma_text_transitive(a, b, c, i + 1);
    }
}

proof fn lemma_text_total(a: Seq<char>, b: Seq<char>, i: int)
    requires
        0 <= i <= a.len(),
        i <= b.len(),
    ensures
        text_lt_from(a, b, i) || text_lt_from(b, a, i) || (a.len() == b.len() && forall|k: int|
            i <= k < a.len() ==> a[k] == b[k]),
    decreases a.len() - i,
{
    if i < a.len() && i < b.len() {
        if a[i] == b[i] {
            lemma_text_total(a, b, i + 1);
        } else {
            assert((a[i] as int) != (b[i] as int));
        }
    }
}

proof fn lemma_text_total_eq(a: Seq<char>, b: Seq<char>)
    ensures
        text_lt(a, b) || text_lt(b, a) || a == b,
{
    lemma_text_total(a, b, 0);
    if a.len() == b.len() && forall|k: int| 0 <= k < a.len() ==> a[k] == b[k] {
        assert(a =~= b);
    }
}

proof fn lemma_words_irreflexive(a: Seq<Seq<char>>, i: int)
    requires
        0 <= i,
    ensures
        !words_lt_from(a, a, i),
    decreases a.len() - i,
{
    if i < a.len() {
        lemma_words_irreflexive(a, i + 1);
    }
}

proof fn lemma_words_transitive(a: Seq<Seq<char>>, b: Seq<Seq<char>>, c: Seq<Seq<char>>, i: int)
    requires
        0 <= i,
        words_lt_from(a, b, i),
        words_lt_from(b, c, i),
    ensures
        words_lt_from(a, c, i),
    decreases a.len() - i,
{
    if i < a.len() && i < b.len() && i < c.len() {
        if a[i] == b[i] && b[i] == c[i] {
            lemma_words_transitive(a, b, c, i + 1);
        } else if a[i] != b[i] && b[i] != c[i] {
            lemma_text_transitive(a[i], b[i], c[i], 0);
            if a[i] == c[i] {
                lemma_text_irreflexive(a[i], 0);
            }
        } else if a[i] != b[i] {
            // b[i] == c[i]
        } else {
            // a[i] == b[i] != c[i]
        }
    }
}

proof fn lemma_words_total(a: Seq<Seq<char>>, b: Seq<Seq<char>>, i: int)
    requires
        0 <= i <= a.len(),
        i <= b.len(),
    ensures
        words_lt_from(a, b, i) || words_lt_from(b, a, i) || (a.len() == b.len() && forall|k: int|
            i <= k < a.len() ==> a[k] == b[k]),
    decreases a.len() - i,
{
    if i < a.len() && i < b.len() {
        if a[i] == b[i] {
            lemma_words_total(a, b, i + 1);
        } else {
            lemma_text_total_eq(a[i], b[i]);
        }
    }
}

/// `key_lt` is irreflexive.
pub proof fn lemma_key_irreflexive(x: SortKeyView)
    ensures
        !key_lt(x, x),
{
    match x {
        SortKeyView::Words(a) => lemma_words_irreflexive(a, 0),
        SortKeyView::Number(_) => {},
    }
}

/// `key_lt` is transitive.
pub proof fn lemma_key_transitive(x: SortKeyView, y: SortKeyView, z: SortKeyView)
    requires
        key_lt(x, y),
        key_lt(y, z),
    ensures
        key_lt(x, z),
{
    match (x, y, z) {
        (SortKeyView::Words(a), SortKeyView::Words(b), SortKeyView::Words(c)) => {
            lemma_words_transitive(a, b, c, 0);
        },
        _ => {},
    }
}

/// Any two keys are equal or one is smaller than the other.
pub proof fn lemma_key_total(x: SortKeyView, y: SortKeyView)
    ensures
        key_lt(x, y) || key_lt(y, x) || x == y,
{
    match (x, y) {
        (SortKeyView::Words(a), SortKeyView::Words(b)) => {
            lemma_words_total(a, b, 0);
            if a.len() == b.len() && forall|k: int| 0 <= k < a.len() ==> a[k] == b[k] {
                assert(a =~= b);
            }
        },
        _ => {},
    }
}

// ---------------------------------------------------------------------------
// Executable comparisons.
/// Whether text `a` comes strictly before text `b`.
pub fn text_less(a: &Vec<char>, b: &Vec<char>) -> (r: bool)
    ensures
        r == text_lt(a@, b@),
{
    let mut i: usize = 0;
    while i < a.len() && i < b.len() && a[i] == b[i]
        invariant
            i <= a.len(),
            i <= b.len(),
            text_lt(a@, b@) == text_lt_from(a@, b@, i as int),
        decreases a.len() - i,
    {
        i = i + 1;
    }
    if i >= a.len() {
        i < b.len()
    } else if i >= b.len() {
        false
    } else {
        a[i] < b[i]
    }
}

/// Whether two texts are equal.
pub fn text_equal(a: &Vec<char>, b: &Vec<char>) -> (r: bool)
    ensures
        r == (a@ == b@),
{
    if a.len() != b.len() {
        return false;
    }
    let mut i: usize = 0;
    while i < a.len()
        invariant
            i <= a.len(),
            a.len() == b.len(),
            forall|k: int| 0 <= k < i ==> a@[k] == b@[k],
        decreases a.len() - i,
    {
        if a[i] != b[i] {
            return false;
        }
        i = i + 1;
    }
    assert(a@ =~= b@);
    true
}

/// Whether the word list `a` comes strictly before the word list `b`.
pub fn words_less(a: &Vec<Vec<char>>, b: &Vec<Vec<char>>) -> (r: bool)
    ensures
        r == words_lt(words_view(a@), words_view(b@)),
{
    let ghost av = words_view(a@);
    let ghost bv = words_view(b@);
    let mut i: usize = 0;
    while i < a.len() && i < b.len() && text_equal(&a[i], &b[i])
        invariant
            i <= a.len(),
            i <= b.len(),
            av == words_view(a@),
            bv == words_view(b@),
            words_lt(av, bv) == words_lt_from(av, bv, i as int),
        decreases a.len() - i,
    {
        assert(av[i as int] == a@[i as int]@);
        assert(bv[i as int] == b@[i as int]@);
        i = i + 1;
    }
    if i >= a.len() {
        i < b.len()
    } else if i >= b.len() {
        false
    } else {
        assert(av[i as int] == a@[i as int]@);
        assert(bv[i as int] == b@[i as int]@);
        text_less(&a[i], &b[i])
    }
}

/// Whether key `a` comes strictly before key `b`.
pub fn key_less(a: &SortKey, b: &SortKey) -> (r: bool)
    ensures
        r == key_lt(a@, b@),
{
    match (a, b) {
        (SortKey::Words(x), SortKey::Words(y)) => words_less(x, y),
        (SortKey::Number(x), SortKey::Number(y)) => *x < *y,
        (SortKey::Number(_), SortKey::Words(_)) => true,
        (SortKey::Words(_), SortKey::Number(_)) => false,
    }
}

// ---------------------------------------------------------------------------
// Stable sort.
/// Sorts `items` by `keys` (the key of `items[i]` is `keys[i]`), keeping
/// items with equal keys in their original order.
pub fn stable_sort_by_keys<T>(items: Vec<T>, keys: Vec<SortKey>) -> (out: Vec<T>)
    requires
        items.len() == keys.len(),
    ensures
        is_stable_sort(keys_view(keys@), items@, out@),
{
    let ghost orig_items = items@;
    let ghost ok = keys_view(keys@);
    let n = items.len();
    let mut items = items;
    let mut keys = keys;
    let mut res_items: Vec<T> = Vec::new();
    let mut res_keys: Vec<SortKey> = Vec::new();
    let ghost mut p: Seq<int> = Seq::empty();
    let mut i: usize = 0;
    while i < n
        invariant
            n == orig_items.len(),
            n == ok.len(),
            i <= n,
            items@ == orig_items.skip(i as int),
            keys_view(keys@) == ok.skip(i as int),
            keys@.len() == n - i,
            res_items@.len() == i,
            res_keys@.len() == i,
            p.len() == i,
            forall|k: int| 0 <= k < i ==> 0 <= #[trigger] p[k] < i,
            forall|a: int, b: int| 0 <= a < b < i ==> #[trigger] p[a] != #[trigger] p[b],
            forall|k: int| 0 <= k < i ==> #[trigger] res_items@[k] == orig_items[p[k]],
            forall|k: int| 0 <= k < i ==> (#[trigger] res_keys@[k])@ == ok[p[k]],
            forall|a: int, b: int|
                0 <= a < b < i ==> sorts_before(ok, #[trigger] p[a], #[trigger] p[b]),
        decreases n - i,
    {
        let ghost keys_before = keys@;
        let item = items.remove(0);
        let key = keys.remove(0);
        assert(item == orig_items[i as int]);
        assert(key@ == ok[i as int]) by {
            assert(keys_view(keys_before)[0] == ok.skip(i as int)[0]);
        }
        assert(items@ =~= orig_items.skip(i as int + 1));
        assert(keys_view(keys@) =~= ok.skip(i as int + 1)) by {
            assert forall|k: int| 0 <= k < keys@.len() implies keys_view(keys@)[k] == ok.skip(i as int + 1)[k] by {
                assert(keys@[k] == keys_before[k + 1]);
                assert(keys_view(keys_before)[k + 1] == ok.skip(i as int)[k + 1]);
            }
        }
        let mut pos: usize = 0;
        while pos < res_keys.len() && !key_less(&key, &res_keys[pos])
            invariant
                pos <= res_keys@.len(),
                forall|k: int| 0 <= k < pos ==> !key_lt(key@, (#[trigger] res_keys@[k])@),
            decreases res_keys@.len() - pos,
        {
            pos = pos + 1;
        }
        let ghost old_p = p;
        proof {
            // The new item goes after everything before `pos` ...
            assert forall|a: int| 0 <= a < pos implies sorts_before(ok, #[trigger] old_p[a], i as int) by {
                assert(res_keys@[a]@ == ok[old_p[a]]);
                lemma_key_total(ok[i as int], ok[old_p[a]]);
            }
            // ... and before everything from `pos` on.
            if pos < res_keys.len() {
                assert(key_lt(ok[i as int], ok[old_p[pos as int]])) by {
                    assert(res_keys@[pos as int]@ == ok[old_p[pos as int]]);
                }
                assert forall|b: int| pos <= b < i implies key_lt(ok[i as int], ok[#[trigger] old_p[b]]) by {
                    if b > pos {
                        assert(sorts_before(ok, old_p[pos as int], old_p[b]));
                        if key_lt(ok[old_p[pos as int]], ok[old_p[b]]) {
                            lemma_key_transitive(ok[i as int], ok[old_p[pos as int]], ok[old_p[b]]);
                        }
                    }
                }
            }
            p = old_p.insert(pos as int, i as int);
        }
        res_items.insert(pos, item);
        res_keys.insert(pos, key);
        proof {
            assert forall|a: int, b: int| 0 <= a < b < i + 1 implies sorts_before(
                ok,
                #[trigger] p[a],
                #[trigger] p[b],
            ) by {
                if b < pos {
                } else if b == pos {
                    assert(p[a] == old_p[a]);
                } else if a < pos {
                    assert(p[b] == old_p[b - 1]);
                } else if a == pos {
                    assert(p[b] == old_p[b - 1]);
                } else {
                    assert(p[a] == old_p[a - 1]);
                    assert(p[b] == old_p[b - 1]);
                }
            }
            assert forall|a: int, b: int| 0 <= a < b < i + 1 implies #[trigger] p[a] != #[trigger] p[b] by {
                if a == pos || b == pos {
                } else {
                }
            }
            assert forall|k: int| 0 <= k < i + 1 implies #[trigger] res_items@[k] == orig_items[p[k]] by {
                if k < pos {
                } else if k == pos {
                } else {
                    assert(res_items@[k] == res_items@[k]);
                }
            }
            assert forall|k: int| 0 <= k < i + 1 implies (#[trigger] res_keys@[k])@ == ok[p[k]] by {
                if k < pos {
                } else if k == pos {
                } else {
                }
            }
        }
        i = i + 1;
    }
    assert(is_sort_order(ok, p));
    res_items
}

} // verus!

verus! {

/// The items in reverse order.
pub fn reverse_vec<T>(v: Vec<T>) -> (r: Vec<T>)
    ensures
        r@ == v@.reverse(),
{
    let ghost orig = v@;
    let mut v = v;
    let mut out: Vec<T> = Vec::new();
    while v.len() > 0
        invariant
            v@ == orig.subrange(0, v@.len() as int),
            out@.len() + v@.len() == orig.len(),
            forall|k: int| 0 <= k < out@.len() ==> #[trigger] out@[k] == orig[orig.len() - 1 - k],
        decreases v@.len(),
    {
        let x = v.pop().unwrap();
        out.push(x);
    }
    assert(out@ =~= orig.reverse());
    out
}

/// Sorts `items` by `keys`, smallest first, keeping items with equal keys
/// in their original order.
pub fn sort_by_keys<T>(items: &mut Vec<T>, keys: Vec<SortKey>)
    requires
        old(items)@.len() == keys@.len(),
    ensures
        is_stable_sort(keys_view(keys@), old(items)@, final(items)@),
{
    let mut taken: Vec<T> = Vec::new();
    std::mem::swap(&mut taken, items);
    let sorted = stable_sort_by_keys(taken, keys);
    *items = sorted;
}

/// Sorts `items` by `keys`, largest first: the reverse of the stable sort,
/// so items with equal keys end up in reverse of their original order.
pub fn sort_by_keys_descending<T>(items: &mut Vec<T>, keys: Vec<SortKey>)
    requires
        old(items)@.len() == keys@.len(),
    ensures
        exists|sorted: Seq<T>|
            #![trigger is_stable_sort(keys_view(keys@), old(items)@, sorted)]
            is_stable_sort(keys_view(keys@), old(items)@, sorted) && final(items)@
                == sorted.reverse(),
{
    let mut taken: Vec<T> = Vec::new();
    std::mem::swap(&mut taken, items);
    let sorted = stable_sort_by_keys(taken, keys);
    let ghost s = sorted@;
    *items = reverse_vec(sorted);
    assert(is_stable_sort(keys_view(keys@), old(items)@, s));
}

} // verus!
