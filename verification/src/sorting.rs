//! Stable sorting by an integer key.

use vstd::prelude::*;

verus! {

/// A value ordered by an integer key, which may be undefined for some values.
pub trait SortKey: Sized {
    /// True iff the value has a key.
    spec fn has_key(&self) -> bool;

    /// The key of the value.
    spec fn key_spec(&self) -> int;

    /// The key, for a value that has one.
    fn sort_key(&self) -> (r: i64)
        requires
            self.has_key(),
        ensures
            r as int == self.key_spec(),
    ;
}

/// True iff every element of `s` has a key.
pub open spec fn all_keyed<T: SortKey>(s: Seq<T>) -> bool {
    forall|i: int| 0 <= i < s.len() ==> (#[trigger] s[i]).has_key()
}

/// True iff the keys of `s` do not decrease.
pub open spec fn sorted_by_key<T: SortKey>(s: Seq<T>) -> bool {
    forall|i: int, j: int| 0 <= i < j < s.len() ==> (#[trigger] s[i]).key_spec() <= (#[trigger] s[j]).key_spec()
}

/// True of the values whose key is `k`.
pub open spec fn key_is<T: SortKey>(k: int) -> spec_fn(T) -> bool {
    |x: T| x.key_spec() == k
}

/// The elements of `s` whose key is `k`, in their order.
pub open spec fn with_key<T: SortKey>(s: Seq<T>, k: int) -> Seq<T> {
    s.filter(key_is(k))
}

/// True iff `a` and `b` hold, for every key, the same elements with that key in the
/// same order.
pub open spec fn same_keyed_order<T: SortKey>(a: Seq<T>, b: Seq<T>) -> bool {
    forall|k: int| #[trigger] with_key(a, k) == with_key(b, k)
}

/// Filtering a sequence whose keys all differ from `k` leaves nothing.
proof fn lemma_no_key<T: SortKey>(s: Seq<T>, k: int)
    requires
        forall|i: int| 0 <= i < s.len() ==> (#[trigger] s[i]).key_spec() != k,
    ensures
        with_key(s, k) == Seq::<T>::empty(),
    decreases s.len(),
{
    reveal_with_fuel(Seq::filter, 1);
    if s.len() > 0 {
        lemma_no_key(s.drop_last(), k);
    }
}

/// The elements of `s` with key `k`, when the last element has that key, are those of
/// the rest followed by the last one; otherwise they are those of the rest.
proof fn lemma_with_key_last<T: SortKey>(s: Seq<T>, k: int)
    requires
        s.len() > 0,
    ensures
        with_key(s, k) == if s.last().key_spec() == k {
            with_key(s.drop_last(), k).push(s.last())
        } else {
            with_key(s.drop_last(), k)
        },
{
    reveal(Seq::filter);
}

/// An element of `s` with key `k` is among the elements with key `k`.
proof fn lemma_in_with_key<T: SortKey>(s: Seq<T>, i: int)
    requires
        0 <= i < s.len(),
    ensures
        with_key(s, s[i].key_spec()).contains(s[i]),
{
    s.lemma_filter_contains(key_is(s[i].key_spec()), i);
}

/// An element among those with key `k` is an element of `s` with key `k`.
proof fn lemma_from_with_key<T: SortKey>(s: Seq<T>, k: int, e: T)
    requires
        with_key(s, k).contains(e),
    ensures
        s.contains(e),
        e.key_spec() == k,
{
    s.lemma_filter_contains_rev(key_is(k), e);
    let f = with_key(s, k);
    let j = choose|j: int| 0 <= j < f.len() && f[j] == e;
    s.lemma_filter_pred(key_is(k), j);
}

/// Sorting by key is determined: two sequences sorted by key that hold, for every key,
/// the same elements in the same order are equal. So the result of
/// [`stable_sort_by_key`] is the one sequence its contract describes.
pub proof fn lemma_sorted_by_key_unique<T: SortKey>(a: Seq<T>, b: Seq<T>)
    requires
        sorted_by_key(a),
        sorted_by_key(b),
        same_keyed_order(a, b),
    ensures
        a == b,
    decreases a.len() + b.len(),
{
    if a.len() == 0 && b.len() == 0 {
        assert(a =~= b);
    } else if a.len() == 0 || b.len() == 0 {
        // one of them has an element that the other lacks
        let (x, y) = if a.len() == 0 { (b, a) } else { (a, b) };
        let e = x[0];
        lemma_in_with_key(x, 0);
        assert(with_key(x, e.key_spec()) == with_key(y, e.key_spec()));
        lemma_from_with_key(y, e.key_spec(), e);
        assert(false);
    } else {
        let ka = a.last().key_spec();
        let kb = b.last().key_spec();
        // the last keys are the largest ones, so they agree
        if ka < kb {
            lemma_in_with_key(b, b.len() - 1);
            assert(with_key(a, kb) == with_key(b, kb));
            lemma_from_with_key(a, kb, b.last());
            let i = choose|i: int| 0 <= i < a.len() && a[i] == b.last();
            assert(a[i].key_spec() <= a[a.len() - 1].key_spec());
            assert(false);
        }
        if kb < ka {
            lemma_in_with_key(a, a.len() - 1);
            assert(with_key(a, ka) == with_key(b, ka));
            lemma_from_with_key(b, ka, a.last());
            let i = choose|i: int| 0 <= i < b.len() && b[i] == a.last();
            assert(b[i].key_spec() <= b[b.len() - 1].key_spec());
            assert(false);
        }
        lemma_with_key_last(a, ka);
        lemma_with_key_last(b, ka);
        assert(with_key(a, ka) == with_key(b, ka));
        assert(with_key(a, ka).last() == a.last());
        assert(a.last() == b.last());
        assert forall|k: int| #[trigger] with_key(a.drop_last(), k) == with_key(b.drop_last(), k) by {
            lemma_with_key_last(a, k);
            lemma_with_key_last(b, k);
            assert(with_key(a, k) == with_key(b, k));
            if k == ka {
                assert(with_key(a.drop_last(), k) =~= with_key(a, k).drop_last());
                assert(with_key(b.drop_last(), k) =~= with_key(b, k).drop_last());
            }
        }
        assert(sorted_by_key(a.drop_last()));
        assert(sorted_by_key(b.drop_last()));
        lemma_sorted_by_key_unique(a.drop_last(), b.drop_last());
        assert(a =~= a.drop_last().push(a.last()));
        assert(b =~= b.drop_last().push(b.last()));
    }
}

/// The elements sorted by key; elements with equal keys keep their order.
pub fn stable_sort_by_key<T: SortKey>(v: Vec<T>) -> (r: Vec<T>)
    requires
        all_keyed(v@),
    ensures
        sorted_by_key(r@),
        same_keyed_order(r@, v@),
        r@.to_multiset() == v@.to_multiset(),
{
    let ghost orig = v@;
    let mut input = v;
    let mut out: Vec<T> = Vec::new();
    // keys of `out`, position by position
    let mut keys: Vec<i64> = Vec::new();
    let ghost mut taken: Seq<T> = Seq::empty();
    proof {
        assert(orig =~= taken + input@);
    }
    while input.len() > 0
        invariant
            orig == taken + input@,
            all_keyed(orig),
            keys@.len() == out@.len(),
            forall|i: int| 0 <= i < out@.len() ==> keys@[i] as int == (#[trigger] out@[i]).key_spec(),
            sorted_by_key(out@),
            same_keyed_order(out@, taken),
            out@.to_multiset() == taken.to_multiset(),
        decreases input@.len(),
    {
        let ghost before = input@;
        let x = input.remove(0);
        proof {
            assert(before[0] == x);
            assert(orig[taken.len() as int] == x);
            assert(before.drop_first() =~= input@);
        }
        let k = x.sort_key();
        // first position whose key is greater than `k`
        let mut pos: usize = 0;
        while pos < keys.len() && keys[pos] <= k
            invariant
                pos <= keys@.len(),
                keys@.len() == out@.len(),
                forall|i: int| 0 <= i < pos ==> keys@[i] <= k,
            decreases keys@.len() - pos,
        {
            pos = pos + 1;
        }
        let ghost old_out = out@;
        let ghost old_keys = keys@;
        let ghost old_taken = taken;
        proof {
            // keys from `pos` on are greater than `k`
            assert forall|i: int| pos <= i < old_out.len() implies (#[trigger] old_out[i]).key_spec() > k as int by {
                assert(old_keys[pos as int] as int == old_out[pos as int].key_spec());
            }
        }
        out.insert(pos, x);
        keys.insert(pos, k);
        proof {
            taken = taken.push(x);
            assert(orig =~= taken + input@);
            assert(out@ =~= old_out.subrange(0, pos as int) + seq![x] + old_out.subrange(pos as int, old_out.len() as int));
            assert forall|i: int| 0 <= i < out@.len() implies keys@[i] as int == (#[trigger] out@[i]).key_spec() by {
                if i > pos {
                    assert(out@[i] == old_out[i - 1]);
                    assert(keys@[i] == old_keys[i - 1]);
                }
            }
            assert(sorted_by_key(out@)) by {
                assert forall|i: int, j: int| 0 <= i < j < out@.len() implies (#[trigger] out@[i]).key_spec()
                    <= (#[trigger] out@[j]).key_spec() by {
                    if i < pos && j == pos {
                        assert(old_out[i].key_spec() <= k);
                    } else if i == pos && j > pos {
                        assert(out@[j] == old_out[j - 1]);
                    } else if i < pos && j > pos {
                        assert(out@[j] == old_out[j - 1]);
                    } else if i > pos {
                        assert(out@[i] == old_out[i - 1]);
                        assert(out@[j] == old_out[j - 1]);
                    }
                }
            }
            let lo = old_out.subrange(0, pos as int);
            let hi = old_out.subrange(pos as int, old_out.len() as int);
            assert(old_out =~= lo + hi);
            assert forall|kk: int| #[trigger] with_key(out@, kk) == with_key(taken, kk) by {
                let pred = key_is::<T>(kk);
                Seq::filter_distributes_over_add(lo + seq![x], hi, pred);
                Seq::filter_distributes_over_add(lo, seq![x], pred);
                Seq::filter_distributes_over_add(lo, hi, pred);
                old_taken.lemma_filter_push(x, pred);
                assert(with_key(old_out, kk) == with_key(old_taken, kk));
                reveal_with_fuel(Seq::filter, 2);
                assert(seq![x].drop_last() =~= Seq::<T>::empty());
                if kk == k as int {
                    assert forall|i: int| 0 <= i < hi.len() implies (#[trigger] hi[i]).key_spec() != kk by {
                        assert(hi[i] == old_out[pos + i]);
                    }
                    lemma_no_key(hi, kk);
                    assert(with_key(out@, kk) =~= with_key(lo, kk) + seq![x]);
                    assert(with_key(old_out, kk) =~= with_key(lo, kk));
                } else {
                    assert(with_key(out@, kk) =~= with_key(lo, kk) + with_key(hi, kk));
                }
            }
            assert(out@.to_multiset() == old_out.to_multiset().insert(x)) by {
                vstd::seq_lib::to_multiset_insert(old_out, pos as int, x);
            }
            assert(taken.to_multiset() == old_taken.to_multiset().insert(x)) by {
                vstd::seq_lib::to_multiset_build(old_taken, x);
            }
        }
    }
    proof {
        assert(taken =~= orig);
    }
    out
}

/// The elements in reverse order.
pub fn reverse_vec<T>(v: Vec<T>) -> (r: Vec<T>)
    ensures
        r@ == v@.reverse(),
{
    let ghost orig = v@;
    let mut v = v;
    let mut out: Vec<T> = Vec::new();
    while v.len() > 0
        invariant
            out@.len() + v@.len() == orig.len(),
            v@ == orig.take(v@.len() as int),
            forall|i: int| 0 <= i < out@.len() ==> #[trigger] out@[i] == orig[orig.len() - 1 - i],
        decreases v@.len(),
    {
        let x = v.pop().unwrap();
        out.push(x);
        assert(v@ =~= orig.take(v@.len() as int));
    }
    assert(out@ =~= orig.reverse());
    out
}

} // verus!
