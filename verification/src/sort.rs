//! A verified stable insertion sort over display entries, ordered by their
//! sort key. Stability is stated through `keyed`: for every key, the
//! subsequence of entries carrying that key is exactly the same, in the same
//! order, before and after sorting.

use vstd::prelude::*;
use crate::entry::{EntryModel, SimpleArrivalDisplayable};

verus! {

/// Whether a sequence of entries is sorted ascending by sort key.
pub open spec fn entries_sorted(s: Seq<EntryModel>) -> bool {
    forall|i: int, j: int| 0 <= i <= j < s.len() ==> s[i].sort_key <= s[j].sort_key
}

/// The subsequence of entries whose sort key is exactly `k`, in order.
pub open spec fn keyed(s: Seq<EntryModel>, k: int) -> Seq<EntryModel>
    decreases s.len(),
{
    if s.len() == 0 {
        Seq::empty()
    } else if s[0].sort_key == k {
        seq![s[0]] + keyed(s.drop_first(), k)
    } else {
        keyed(s.drop_first(), k)
    }
}

/// Insert `x` after every element whose key is at most `x`'s key: the
/// stable insertion position.
pub open spec fn insert_model(s: Seq<EntryModel>, x: EntryModel) -> Seq<EntryModel>
    decreases s.len(),
{
    if s.len() == 0 {
        seq![x]
    } else if s[0].sort_key <= x.sort_key {
        seq![s[0]] + insert_model(s.drop_first(), x)
    } else {
        seq![x] + s
    }
}

/// Stable insertion sort of a sequence of entries.
pub open spec fn spec_sort(s: Seq<EntryModel>) -> Seq<EntryModel>
    decreases s.len(),
{
    if s.len() == 0 {
        Seq::empty()
    } else {
        insert_model(spec_sort(s.drop_last()), s.last())
    }
}

/// The index before which `insert_model` places its element: the first
/// index whose key exceeds the new element's key.
pub open spec fn insertion_point(s: Seq<EntryModel>, x: EntryModel) -> int
    decreases s.len(),
{
    if s.len() == 0 {
        0
    } else if s[0].sort_key <= x.sort_key {
        1 + insertion_point(s.drop_first(), x)
    } else {
        0
    }
}

proof fn lemma_insertion_point(s: Seq<EntryModel>, x: EntryModel)
    ensures
        0 <= insertion_point(s, x) <= s.len(),
        forall|j: int| 0 <= j < insertion_point(s, x) ==> s[j].sort_key <= x.sort_key,
        insertion_point(s, x) < s.len() ==> s[insertion_point(s, x)].sort_key > x.sort_key,
    decreases s.len(),
{
    if s.len() > 0 && s[0].sort_key <= x.sort_key {
        lemma_insertion_point(s.drop_first(), x);
        assert forall|j: int| 0 <= j < insertion_point(s, x) implies s[j].sort_key
            <= x.sort_key by {
            if j >= 1 {
                assert(s[j] == s.drop_first()[j - 1]);
            }
        }
    }
}

/// `keyed` of a singleton.
proof fn lemma_keyed_single(x: EntryModel, k: int)
    ensures
        keyed(seq![x], k) == (if x.sort_key == k {
            seq![x]
        } else {
            Seq::<EntryModel>::empty()
        }),
{
    let s = seq![x];
    assert(s[0] == x);
    assert(s.drop_first() =~= Seq::<EntryModel>::empty());
    if x.sort_key == k {
        assert(keyed(s, k) == seq![s[0]] + keyed(s.drop_first(), k));
        assert(keyed(s, k) =~= seq![x]);
    } else {
        assert(keyed(s, k) == keyed(s.drop_first(), k));
        assert(keyed(s, k) =~= Seq::<EntryModel>::empty());
    }
}

/// `insert_model` splits the sequence at the insertion point.
proof fn lemma_insert_model_at(s: Seq<EntryModel>, x: EntryModel, i: int)
    requires
        0 <= i <= s.len(),
        forall|j: int| 0 <= j < i ==> s[j].sort_key <= x.sort_key,
        i < s.len() ==> s[i].sort_key > x.sort_key,
    ensures
        insert_model(s, x) == s.subrange(0, i) + seq![x] + s.subrange(i, s.len() as int),
    decreases s.len(),
{
    if s.len() == 0 {
        assert(insert_model(s, x) =~= s.subrange(0, i) + seq![x] + s.subrange(i, s.len() as int));
    } else if i == 0 {
        assert(insert_model(s, x) =~= s.subrange(0, 0) + seq![x] + s.subrange(0, s.len() as int));
    } else {
        let t = s.drop_first();
        assert(forall|j: int| 0 <= j < i - 1 ==> t[j].sort_key <= x.sort_key);
        lemma_insert_model_at(t, x, i - 1);
        assert(insert_model(s, x) =~= s.subrange(0, i) + seq![x] + s.subrange(i, s.len() as int))
            by {
            assert(t.subrange(0, i - 1) =~= s.subrange(1, i));
            assert(t.subrange(i - 1, t.len() as int) =~= s.subrange(i, s.len() as int));
        }
    }
}

/// `keyed` distributes over concatenation.
proof fn lemma_keyed_add(a: Seq<EntryModel>, b: Seq<EntryModel>, k: int)
    ensures
        keyed(a + b, k) == keyed(a, k) + keyed(b, k),
    decreases a.len(),
{
    if a.len() == 0 {
        assert(a + b =~= b);
        assert(keyed(a, k) + keyed(b, k) =~= keyed(b, k));
    } else {
        assert((a + b).drop_first() =~= a.drop_first() + b);
        lemma_keyed_add(a.drop_first(), b, k);
        assert((a + b)[0] == a[0]);
        if a[0].sort_key == k {
            assert(keyed(a + b, k) =~= keyed(a, k) + keyed(b, k)) by {
                assert(keyed(a + b, k) == seq![a[0]] + (keyed(a.drop_first(), k) + keyed(b, k)));
            }
        } else {
            assert(keyed(a + b, k) == keyed(a.drop_first(), k) + keyed(b, k));
        }
    }
}

/// A sequence with no entry keyed `k` contributes nothing to `keyed`.
proof fn lemma_keyed_none(s: Seq<EntryModel>, k: int)
    requires
        forall|j: int| 0 <= j < s.len() ==> s[j].sort_key != k,
    ensures
        keyed(s, k) == Seq::<EntryModel>::empty(),
    decreases s.len(),
{
    if s.len() > 0 {
        lemma_keyed_none(s.drop_first(), k);
    }
}

/// Inserting into a sorted sequence keeps it sorted, grows it by one, and
/// appends the new element at the end of its key group.
proof fn lemma_insert_model(s: Seq<EntryModel>, x: EntryModel, k: int)
    requires
        entries_sorted(s),
    ensures
        entries_sorted(insert_model(s, x)),
        insert_model(s, x).len() == s.len() + 1,
        keyed(insert_model(s, x), k) == (if k == x.sort_key {
            keyed(s, k).push(x)
        } else {
            keyed(s, k)
        }),
{
    let i = insertion_point(s, x);
    lemma_insertion_point(s, x);
    lemma_insert_model_at(s, x, i);
    let pre = s.subrange(0, i);
    let post = s.subrange(i, s.len() as int);
    let r = insert_model(s, x);
    assert(r == pre + seq![x] + post);
    assert(s =~= pre + post);
    assert(entries_sorted(r)) by {
        assert forall|a: int, b: int| 0 <= a <= b < r.len() implies r[a].sort_key
            <= r[b].sort_key by {
            assert(forall|j: int| 0 <= j < post.len() ==> post[j].sort_key > x.sort_key);
            assert(r[a] == (pre + seq![x] + post)[a]);
            assert(r[b] == (pre + seq![x] + post)[b]);
        }
    }
    lemma_keyed_add(pre + seq![x], post, k);
    lemma_keyed_add(pre, seq![x], k);
    lemma_keyed_add(pre, post, k);
    lemma_keyed_single(x, k);
    if k == x.sort_key {
        assert(keyed(post, k) == Seq::<EntryModel>::empty()) by {
            lemma_keyed_none(post, k);
        }
        assert(keyed(r, k) =~= keyed(s, k).push(x));
    } else {
        assert(keyed(r, k) =~= keyed(s, k));
    }
}

/// Stable sorting: the result is sorted ascending by sort key, has the same
/// length, and for every key carries exactly the input's entries with that
/// key, in their pre-sort relative order.
pub proof fn lemma_sort_entries(s: Seq<EntryModel>)
    ensures
        entries_sorted(spec_sort(s)),
        spec_sort(s).len() == s.len(),
        forall|k: int| keyed(spec_sort(s), k) == keyed(s, k),
    decreases s.len(),
{
    if s.len() == 0 {
    } else {
        let t = s.drop_last();
        let x = s.last();
        lemma_sort_entries(t);
        lemma_insert_model(spec_sort(t), x, 0);
        assert forall|k: int| keyed(spec_sort(s), k) == keyed(s, k) by {
            lemma_insert_model(spec_sort(t), x, k);
            lemma_keyed_add(t, seq![x], k);
            lemma_keyed_single(x, k);
            assert(s =~= t + seq![x]);
            if k == x.sort_key {
                assert(keyed(t, k).push(x) =~= keyed(t, k) + seq![x]);
            } else {
                assert(keyed(t, k) =~= keyed(t, k) + keyed(seq![x], k));
            }
        }
    }
}

/// Inserting adds exactly the new element to the sequence's members.
proof fn lemma_insert_model_membership(s: Seq<EntryModel>, x: EntryModel)
    ensures
        forall|e: EntryModel| #[trigger] insert_model(s, x).contains(e) <==> (s.contains(e) || e
            == x),
{
    broadcast use vstd::seq_lib::lemma_seq_concat_contains_all_elements;

    let i = insertion_point(s, x);
    lemma_insertion_point(s, x);
    lemma_insert_model_at(s, x, i);
    let pre = s.subrange(0, i);
    let post = s.subrange(i, s.len() as int);
    assert(s =~= pre + post);
    assert(insert_model(s, x) == pre + seq![x] + post);
    assert forall|e: EntryModel| #[trigger]
        insert_model(s, x).contains(e) <==> (s.contains(e) || e == x) by {
        lemma_contains_single(x, e);
    }
}

proof fn lemma_contains_single(x: EntryModel, e: EntryModel)
    ensures
        seq![x].contains(e) <==> e == x,
{
    if e == x {
        assert(seq![x][0] == e);
        assert(seq![x].contains(e));
    }
    if seq![x].contains(e) {
        let idx = choose|idx: int| 0 <= idx < seq![x].len() && seq![x][idx] == e;
        assert(seq![x][idx] == e);
    }
}

/// Sorting neither adds nor removes members.
pub proof fn lemma_sort_membership(s: Seq<EntryModel>)
    ensures
        forall|e: EntryModel| #[trigger] spec_sort(s).contains(e) <==> s.contains(e),
    decreases s.len(),
{
    broadcast use vstd::seq_lib::lemma_seq_concat_contains_all_elements;

    if s.len() > 0 {
        let t = s.drop_last();
        let x = s.last();
        lemma_sort_membership(t);
        lemma_insert_model_membership(spec_sort(t), x);
        assert(s =~= t + seq![x]);
        assert forall|e: EntryModel| #[trigger] spec_sort(s).contains(e) <==> s.contains(e) by {
            lemma_contains_single(x, e);
            assert(spec_sort(s) == insert_model(spec_sort(t), x));
        }
    }
}

/// Insert an entry into a vector at its stable position.
fn insert_entry(v: Vec<SimpleArrivalDisplayable>, e: SimpleArrivalDisplayable) -> (r: Vec<
    SimpleArrivalDisplayable,
>)
    ensures
        r.deep_view() == insert_model(v.deep_view(), e@),
{
    let ghost pre = v.deep_view();
    let mut v = v;
    let n = v.len();
    let mut i: usize = 0;
    while i < n && v[i].comparison_timestamp <= e.comparison_timestamp
        invariant
            i <= n,
            n == v.len(),
            v.deep_view() == pre,
            forall|j: int| 0 <= j < i ==> pre[j].sort_key <= e@.sort_key,
        decreases n - i,
    {
        i = i + 1;
    }
    proof {
        lemma_insert_model_at(pre, e@, i as int);
    }
    v.insert(i, e);
    proof {
        assert(v.deep_view() =~= pre.subrange(0, i as int) + seq![e@] + pre.subrange(
            i as int,
            pre.len() as int,
        ));
    }
    v
}

/// Stable sort of a vector of entries by sort key.
pub fn sort_entries(v: &Vec<SimpleArrivalDisplayable>) -> (r: Vec<SimpleArrivalDisplayable>)
    ensures
        r.deep_view() == spec_sort(v.deep_view()),
{
    let ghost orig = v.deep_view();
    let mut out: Vec<SimpleArrivalDisplayable> = Vec::new();
    let mut i: usize = 0;
    while i < v.len()
        invariant
            i <= v.len(),
            orig == v.deep_view(),
            out.deep_view() == spec_sort(orig.subrange(0, i as int)),
        decreases v.len() - i,
    {
        let e = v[i].clone();
        out = insert_entry(out, e);
        proof {
            let taken = orig.subrange(0, i + 1 as int);
            assert(taken.drop_last() =~= orig.subrange(0, i as int));
            assert(taken.last() == orig[i as int]);
        }
        i = i + 1;
    }
    proof {
        assert(orig.subrange(0, orig.len() as int) =~= orig);
    }
    out
}

} // verus!
