//! Ordering of text as `str`'s `Ord` orders it, and a stable sort by a key of
//! one or two texts.
use vstd::prelude::*;

use crate::text::{chars_of, str_eq};

verus! {

broadcast use vstd::seq_lib::group_to_multiset_ensures;

/// `a` comes strictly before `b`: at the first place where they differ `a` has the
/// smaller character, or `a` is a proper prefix of `b`. Comparing the UTF-8 bytes,
/// as `str` does, orders texts the same way, since UTF-8 keeps the order of code
/// points.
pub open spec fn text_lt(a: Seq<char>, b: Seq<char>) -> bool
    decreases a.len(),
{
    if b.len() == 0 {
        false
    } else if a.len() == 0 {
        true
    } else if a[0] != b[0] {
        a[0] < b[0]
    } else {
        text_lt(a.drop_first(), b.drop_first())
    }
}

/// No text comes before itself, and of two texts at most one comes first.
pub proof fn lemma_text_lt_asymmetric(a: Seq<char>, b: Seq<char>)
    ensures
        !(text_lt(a, b) && text_lt(b, a)),
        !text_lt(a, a),
    decreases a.len(),
{
    if a.len() > 0 && b.len() > 0 && a[0] == b[0] {
        lemma_text_lt_asymmetric(a.drop_first(), b.drop_first());
    }
    if a.len() > 0 {
        lemma_text_lt_asymmetric(a.drop_first(), a.drop_first());
    }
}

/// Coming before is transitive.
pub proof fn lemma_text_lt_transitive(a: Seq<char>, b: Seq<char>, c: Seq<char>)
    requires
        text_lt(a, b),
        text_lt(b, c),
    ensures
        text_lt(a, c),
    decreases a.len(),
{
    if a.len() > 0 && b.len() > 0 && c.len() > 0 {
        if a[0] == b[0] && b[0] == c[0] {
            lemma_text_lt_transitive(a.drop_first(), b.drop_first(), c.drop_first());
        }
    }
}

/// Of two different texts one comes before the other.
pub proof fn lemma_text_lt_total(a: Seq<char>, b: Seq<char>)
    requires
        a != b,
    ensures
        text_lt(a, b) || text_lt(b, a),
    decreases a.len(),
{
    if a.len() > 0 && b.len() > 0 && a[0] == b[0] {
        if a.drop_first() == b.drop_first() {
            assert(a =~= seq![a[0]] + a.drop_first());
            assert(b =~= seq![b[0]] + b.drop_first());
        }
        lemma_text_lt_total(a.drop_first(), b.drop_first());
    }
    if a.len() == 0 && b.len() == 0 {
        assert(a =~= b);
    }
}

/// Tests whether `a` comes strictly before `b`.
pub fn text_less(a: &str, b: &str) -> (r: bool)
    ensures
        r == text_lt(a@, b@),
{
    let x = chars_of(a);
    let y = chars_of(b);
    let mut i: usize = 0;
    assert(a@.skip(0) =~= a@);
    assert(b@.skip(0) =~= b@);
    while i < x.len() && i < y.len() && x[i] == y[i]
        invariant
            i <= x@.len(),
            i <= y@.len(),
            x@ == a@,
            y@ == b@,
            text_lt(a@, b@) == text_lt(a@.skip(i as int), b@.skip(i as int)),
        decreases x@.len() - i,
    {
        assert(a@.skip(i as int).drop_first() =~= a@.skip(i + 1));
        assert(b@.skip(i as int).drop_first() =~= b@.skip(i + 1));
        i = i + 1;
    }
    if i < y.len() {
        if i < x.len() {
            x[i] < y[i]
        } else {
            true
        }
    } else {
        false
    }
}

/// The order of keys of one or two texts: by the first text, then by the second.
pub open spec fn key_lt(x: (Seq<char>, Seq<char>), y: (Seq<char>, Seq<char>)) -> bool {
    text_lt(x.0, y.0) || (x.0 == y.0 && text_lt(x.1, y.1))
}

pub proof fn lemma_key_lt_asymmetric(x: (Seq<char>, Seq<char>), y: (Seq<char>, Seq<char>))
    ensures
        !(key_lt(x, y) && key_lt(y, x)),
{
    lemma_text_lt_asymmetric(x.0, y.0);
    lemma_text_lt_asymmetric(x.1, y.1);
    lemma_text_lt_asymmetric(x.0, x.0);
}

pub proof fn lemma_key_lt_transitive(
    x: (Seq<char>, Seq<char>),
    y: (Seq<char>, Seq<char>),
    z: (Seq<char>, Seq<char>),
)
    requires
        key_lt(x, y),
        key_lt(y, z),
    ensures
        key_lt(x, z),
{
    if text_lt(x.0, y.0) && text_lt(y.0, z.0) {
        lemma_text_lt_transitive(x.0, y.0, z.0);
    }
    if x.0 == y.0 && y.0 == z.0 {
        lemma_text_lt_asymmetric(x.0, x.0);
        lemma_text_lt_transitive(x.1, y.1, z.1);
    }
}

/// A value ordered by a key of one or two texts.
pub trait TextKeyed {
    /// The key: the text compared first, then the one compared on a tie.
    spec fn key_view(&self) -> (Seq<char>, Seq<char>);

    fn key(&self) -> (r: (&str, &str))
        ensures
            r.0@ == self.key_view().0,
            r.1@ == self.key_view().1,
    ;
}

/// `s` is sorted by key: no element has a smaller key than one before it.
pub open spec fn sorted_by_key<T: TextKeyed>(s: Seq<T>) -> bool {
    forall|i: int, j: int|
        0 <= i < j < s.len() ==> !key_lt(#[trigger] s[j].key_view(), #[trigger] s[i].key_view())
}

/// Tests whether `x` has a smaller key than `y`.
pub fn key_less<T: TextKeyed>(x: &T, y: &T) -> (r: bool)
    ensures
        r == key_lt(x.key_view(), y.key_view()),
{
    let (a1, a2) = x.key();
    let (b1, b2) = y.key();
    text_less(a1, b1) || (str_eq(a1, b1) && text_less(a2, b2))
}

/// Of two different keys one comes before the other.
pub proof fn lemma_key_lt_total(x: (Seq<char>, Seq<char>), y: (Seq<char>, Seq<char>))
    requires
        x != y,
    ensures
        key_lt(x, y) || key_lt(y, x),
{
    if x.0 != y.0 {
        lemma_text_lt_total(x.0, y.0);
    } else {
        lemma_text_lt_total(x.1, y.1);
    }
}

/// Before `y`, and `y` not after `z`: before `z`.
pub proof fn lemma_key_lt_le(x: (Seq<char>, Seq<char>), y: (Seq<char>, Seq<char>), z: (Seq<char>, Seq<char>))
    requires
        key_lt(x, y),
        !key_lt(z, y),
    ensures
        key_lt(x, z),
{
    if y != z {
        lemma_key_lt_total(y, z);
        lemma_key_lt_transitive(x, y, z);
    }
}

/// Two keys that neither comes before the other.
pub open spec fn key_tie(x: (Seq<char>, Seq<char>), y: (Seq<char>, Seq<char>)) -> bool {
    !key_lt(x, y) && !key_lt(y, x)
}

/// `out` holds the items at the positions `idx`, each at most once, and items with
/// tied keys in their order in `items`.
pub open spec fn stable_arrangement<T: TextKeyed>(out: Seq<T>, items: Seq<T>, idx: Seq<int>) -> bool {
    &&& idx.len() == out.len()
    &&& forall|k: int| 0 <= k < out.len() ==> 0 <= #[trigger] idx[k] < items.len() && out[k] == items[idx[k]]
    &&& forall|a: int, b: int| 0 <= a < b < out.len() ==> #[trigger] idx[a] != #[trigger] idx[b]
    &&& forall|a: int, b: int|
        0 <= a < b < out.len() && key_tie(out[a].key_view(), out[b].key_view()) ==> #[trigger] idx[a]
            < #[trigger] idx[b]
}

/// The items sorted by key; items with tied keys keep their order.
pub fn sort_by_text_key<T: TextKeyed>(items: Vec<T>) -> (r: Vec<T>)
    ensures
        r@.to_multiset() == items@.to_multiset(),
        sorted_by_key(r@),
        exists|idx: Seq<int>| stable_arrangement(r@, items@, idx),
{
    let ghost all = items@.to_multiset();
    let ghost orig = items@;
    let mut rest = items;
    let mut out: Vec<T> = Vec::new();
    let ghost mut idx: Seq<int> = Seq::empty();
    let ghost mut consumed: int = 0;
    while rest.len() > 0
        invariant
            out@.to_multiset().add(rest@.to_multiset()) == all,
            sorted_by_key(out@),
            0 <= consumed <= orig.len(),
            rest@ == orig.skip(consumed),
            idx.len() == out@.len(),
            forall|k: int| 0 <= k < out@.len() ==> 0 <= #[trigger] idx[k] < consumed && out@[k] == orig[idx[k]],
            forall|a: int, b: int| 0 <= a < b < out@.len() ==> #[trigger] idx[a] != #[trigger] idx[b],
            forall|a: int, b: int|
                0 <= a < b < out@.len() && key_tie(out@[a].key_view(), out@[b].key_view()) ==> #[trigger] idx[a]
                    < #[trigger] idx[b],
        decreases rest@.len(),
    {
        let ghost rest0 = rest@;
        let x = rest.remove(0);
        assert(rest@ =~= rest0.remove(0));
        assert(x == orig[consumed]);
        assert(rest@ =~= orig.skip(consumed + 1));
        let mut p: usize = 0;
        while p < out.len() && !key_less(&x, &out[p])
            invariant
                p <= out@.len(),
                forall|q: int| 0 <= q < p ==> !key_lt(x.key_view(), #[trigger] out@[q].key_view()),
            decreases out@.len() - p,
        {
            p = p + 1;
        }
        let ghost out0 = out@;
        let ghost idx0 = idx;
        let ghost kx = x.key_view();
        out.insert(p, x);
        assert(out@ =~= out0.insert(p as int, x));
        assert forall|i: int, j: int| 0 <= i < j < out@.len() implies !key_lt(
            #[trigger] out@[j].key_view(),
            #[trigger] out@[i].key_view(),
        ) by {
            if i < p && j == p {
            } else if i == p && j > p {
                let y = out0[p as int].key_view();
                let z = out0[j - 1].key_view();
                assert(key_lt(kx, y));
                if j - 1 > p {
                    assert(!key_lt(z, y));
                    if key_lt(z, kx) {
                        lemma_key_lt_transitive(z, kx, y);
                    }
                } else {
                    lemma_key_lt_asymmetric(kx, y);
                }
            } else {
                let ii = if i < p { i } else { i - 1 };
                let jj = if j < p { j } else { j - 1 };
                assert(out@[i] == out0[ii]);
                assert(out@[j] == out0[jj]);
            }
        }
        proof {
            idx = idx0.insert(p as int, consumed);
            assert forall|k: int| 0 <= k < out@.len() implies 0 <= #[trigger] idx[k] < consumed + 1
                && out@[k] == orig[idx[k]] by {
                if k < p {
                    assert(idx[k] == idx0[k]);
                } else if k > p {
                    assert(idx[k] == idx0[k - 1]);
                    assert(out@[k] == out0[k - 1]);
                }
            }
            assert forall|a: int, b: int| 0 <= a < b < out@.len() implies #[trigger] idx[a] != #[trigger] idx[b] by {
                if a == p {
                    assert(idx0[b - 1] < consumed);
                } else if b == p {
                    assert(idx0[a] < consumed);
                } else {
                    let aa = if a < p { a } else { a - 1 };
                    let bb = if b < p { b } else { b - 1 };
                    assert(idx[a] == idx0[aa]);
                    assert(idx[b] == idx0[bb]);
                }
            }
            assert forall|a: int, b: int|
                0 <= a < b < out@.len() && key_tie(out@[a].key_view(), out@[b].key_view()) implies #[trigger] idx[a]
                    < #[trigger] idx[b] by {
                if a == p {
                    let z = out0[b - 1].key_view();
                    let y = out0[p as int].key_view();
                    assert(out@[b] == out0[b - 1]);
                    assert(key_lt(kx, y));
                    if b - 1 > p {
                        assert(!key_lt(z, y));
                        lemma_key_lt_le(kx, y, z);
                    }
                } else if b == p {
                    assert(idx0[a] < consumed);
                } else {
                    let aa = if a < p { a } else { a - 1 };
                    let bb = if b < p { b } else { b - 1 };
                    assert(idx[a] == idx0[aa]);
                    assert(idx[b] == idx0[bb]);
                    assert(out@[a] == out0[aa]);
                    assert(out@[b] == out0[bb]);
                }
            }
            consumed = consumed + 1;
        }
    }
    assert(rest@ =~= Seq::<T>::empty());
    assert(consumed == orig.len());
    assert(stable_arrangement(out@, orig, idx));
    out
}

} // verus!
