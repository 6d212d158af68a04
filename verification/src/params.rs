//! The ordered parameter container: unique string keys mapped to string
//! values, enumerated in ascending key order whatever the insertion order.
//!
//! The container itself is `ordermap::OrderMap`, used exactly as a sorted
//! association list: every insertion goes through `insert_sorted`.  Its
//! contents are modelled by `entries_of`, a sequence of (key, value) pairs of
//! character sequences, and each container operation the signing core relies
//! on carries a contract over that model.

use ordermap::OrderMap;
use vstd::multiset::Multiset;
use vstd::prelude::*;

verus! {

/// Strict lexicographic order on character sequences, by code point.  For
/// `String` keys this coincides with the standard library's `Ord`, which
/// compares the UTF-8 bytes: UTF-8 preserves code-point order.
pub open spec fn key_lt(a: Seq<char>, b: Seq<char>) -> bool
    decreases a.len(),
{
    if b.len() == 0 {
        false
    } else if a.len() == 0 {
        true
    } else if a[0] != b[0] {
        a[0] < b[0]
    } else {
        key_lt(a.drop_first(), b.drop_first())
    }
}

/// The keys of an entry sequence, in order.
pub open spec fn entry_keys(es: Seq<(Seq<char>, Seq<char>)>) -> Seq<Seq<char>> {
    es.map_values(|p: (Seq<char>, Seq<char>)| p.0)
}

/// Entries stand in strictly ascending key order; in particular all keys are
/// distinct.
pub open spec fn entries_sorted(es: Seq<(Seq<char>, Seq<char>)>) -> bool {
    forall|i: int, j: int|
        0 <= i < j < es.len() ==> #[trigger] key_lt(es[i].0, es[j].0)
}

/// Insert `(k, v)` into an entry sequence that is sorted by key: an existing
/// entry with key `k` has its value overwritten in place, a new key goes to
/// its sorted position.
pub open spec fn spec_insert_pair(
    es: Seq<(Seq<char>, Seq<char>)>,
    k: Seq<char>,
    v: Seq<char>,
) -> Seq<(Seq<char>, Seq<char>)>
    decreases es.len(),
{
    if es.len() == 0 {
        seq![(k, v)]
    } else if k == es[0].0 {
        seq![(k, v)] + es.drop_first()
    } else if key_lt(k, es[0].0) {
        seq![(k, v)] + es
    } else {
        seq![es[0]] + spec_insert_pair(es.drop_first(), k, v)
    }
}

/// Overwrite the value of the first entry whose key is `k`, keeping every
/// key where it stands; without such an entry, the sequence is unchanged.
pub open spec fn spec_replace_value(
    es: Seq<(Seq<char>, Seq<char>)>,
    k: Seq<char>,
    v: Seq<char>,
) -> Seq<(Seq<char>, Seq<char>)>
    decreases es.len(),
{
    if es.len() == 0 {
        es
    } else if es[0].0 == k {
        seq![(k, v)] + es.drop_first()
    } else {
        seq![es[0]] + spec_replace_value(es.drop_first(), k, v)
    }
}

/// Insert a batch of pairs, first to last.
pub open spec fn spec_insert_all(
    es: Seq<(Seq<char>, Seq<char>)>,
    ps: Seq<(Seq<char>, Seq<char>)>,
) -> Seq<(Seq<char>, Seq<char>)>
    decreases ps.len(),
{
    if ps.len() == 0 {
        es
    } else {
        spec_insert_all(spec_insert_pair(es, ps[0].0, ps[0].1), ps.drop_first())
    }
}

// ------------------------------------------------------------------
// Facts about the key order.
// ------------------------------------------------------------------

pub proof fn lemma_key_lt_irrefl(a: Seq<char>)
    ensures
        !key_lt(a, a),
    decreases a.len(),
{
    if a.len() > 0 {
        lemma_key_lt_irrefl(a.drop_first());
    }
}

pub proof fn lemma_key_lt_total(a: Seq<char>, b: Seq<char>)
    requires
        a != b,
    ensures
        key_lt(a, b) || key_lt(b, a),
    decreases a.len(),
{
    if a.len() == 0 {
        if b.len() == 0 {
            assert(a =~= b);
        }
    } else if b.len() == 0 {
    } else if a[0] != b[0] {
    } else {
        assert(a.drop_first() != b.drop_first()) by {
            if a.drop_first() == b.drop_first() {
                assert(a =~= seq![a[0]] + a.drop_first());
                assert(b =~= seq![b[0]] + b.drop_first());
            }
        }
        lemma_key_lt_total(a.drop_first(), b.drop_first());
    }
}

pub proof fn lemma_key_lt_asymm(a: Seq<char>, b: Seq<char>)
    requires
        key_lt(a, b),
    ensures
        !key_lt(b, a),
        a != b,
    decreases a.len(),
{
    if a.len() != 0 && b.len() != 0 && a[0] == b[0] {
        lemma_key_lt_asymm(a.drop_first(), b.drop_first());
        assert(a != b) by {
            if a == b {
                assert(a.drop_first() == b.drop_first());
            }
        }
    } else {
        if a == b {
            lemma_key_lt_irrefl(a);
        }
    }
}

pub proof fn lemma_key_lt_trans(a: Seq<char>, b: Seq<char>, c: Seq<char>)
    requires
        key_lt(a, b),
        key_lt(b, c),
    ensures
        key_lt(a, c),
    decreases a.len(),
{
    if a.len() != 0 && b.len() != 0 && c.len() != 0 {
        if a[0] == b[0] && b[0] == c[0] {
            lemma_key_lt_trans(a.drop_first(), b.drop_first(), c.drop_first());
        }
    }
}

// ------------------------------------------------------------------
// Facts about sorted insertion and in-place replacement.
// ------------------------------------------------------------------

/// Sorted insertion keeps the entries sorted.
pub proof fn lemma_insert_pair_sorted(es: Seq<(Seq<char>, Seq<char>)>, k: Seq<char>, v: Seq<char>)
    requires
        entries_sorted(es),
    ensures
        entries_sorted(spec_insert_pair(es, k, v)),
    decreases es.len(),
{
    let r = spec_insert_pair(es, k, v);
    if es.len() == 0 {
    } else if k == es[0].0 {
        assert forall|i: int, j: int| 0 <= i < j < r.len() implies #[trigger] key_lt(
            r[i].0,
            r[j].0,
        ) by {
            assert(r[j] == es[j]);
            if i > 0 {
                assert(r[i] == es[i]);
            } else {
                assert(key_lt(es[0].0, es[j].0));
            }
        }
    } else if key_lt(k, es[0].0) {
        assert forall|i: int, j: int| 0 <= i < j < r.len() implies #[trigger] key_lt(
            r[i].0,
            r[j].0,
        ) by {
            assert(r[j] == es[j - 1]);
            if i > 0 {
                assert(r[i] == es[i - 1]);
            } else {
                if j > 1 {
                    assert(key_lt(es[0].0, es[j - 1].0));
                    lemma_key_lt_trans(k, es[0].0, es[j - 1].0);
                }
            }
        }
    } else {
        let tail = es.drop_first();
        assert(entries_sorted(tail)) by {
            assert forall|i: int, j: int| 0 <= i < j < tail.len() implies #[trigger] key_lt(
                tail[i].0,
                tail[j].0,
            ) by {
                assert(tail[i] == es[i + 1]);
                assert(tail[j] == es[j + 1]);
                assert(key_lt(es[i + 1].0, es[j + 1].0));
            }
        }
        lemma_insert_pair_sorted(tail, k, v);
        let rt = spec_insert_pair(tail, k, v);
        lemma_key_lt_total(k, es[0].0);
        // the head key is below every key of the inserted tail
        assert forall|j: int| 0 <= j < rt.len() implies key_lt(es[0].0, #[trigger] rt[j].0) by {
            lemma_insert_pair_key_bound(tail, k, v, j);
            if rt[j].0 == k {
            } else {
                let j2 = choose|j2: int| 0 <= j2 < tail.len() && tail[j2] == rt[j];
                assert(key_lt(es[0].0, es[j2 + 1].0));
            }
        }
        assert forall|i: int, j: int| 0 <= i < j < r.len() implies #[trigger] key_lt(
            r[i].0,
            r[j].0,
        ) by {
            assert(r[j] == rt[j - 1]);
            if i > 0 {
                assert(r[i] == rt[i - 1]);
            }
        }
    }
}

/// Every entry of a sorted insertion is either the inserted pair or one of
/// the original entries.
pub proof fn lemma_insert_pair_key_bound(
    es: Seq<(Seq<char>, Seq<char>)>,
    k: Seq<char>,
    v: Seq<char>,
    j: int,
)
    requires
        0 <= j < spec_insert_pair(es, k, v).len(),
    ensures
        spec_insert_pair(es, k, v)[j].0 == k || exists|j2: int|
            0 <= j2 < es.len() && es[j2] == spec_insert_pair(es, k, v)[j],
    decreases es.len(),
{
    let r = spec_insert_pair(es, k, v);
    if es.len() == 0 {
    } else if k == es[0].0 {
        if j > 0 {
            assert(es[j] == r[j]);
        }
    } else if key_lt(k, es[0].0) {
        if j > 0 {
            assert(es[j - 1] == r[j]);
        }
    } else {
        if j == 0 {
            assert(es[0] == r[0]);
        } else {
            lemma_insert_pair_key_bound(es.drop_first(), k, v, j - 1);
            let rt = spec_insert_pair(es.drop_first(), k, v);
            if rt[j - 1].0 == k {
            } else {
                let j2 = choose|j2: int|
                    0 <= j2 < es.drop_first().len() && es.drop_first()[j2] == rt[j - 1];
                assert(es[j2 + 1] == r[j]);
            }
        }
    }
}

/// A sorted entry sequence stays sorted when its first entry is dropped.
pub proof fn lemma_tail_sorted(es: Seq<(Seq<char>, Seq<char>)>)
    requires
        entries_sorted(es),
        es.len() > 0,
    ensures
        entries_sorted(es.drop_first()),
{
    let tail = es.drop_first();
    assert forall|i: int, j: int| 0 <= i < j < tail.len() implies #[trigger] key_lt(
        tail[i].0,
        tail[j].0,
    ) by {
        assert(tail[i] == es[i + 1]);
        assert(tail[j] == es[j + 1]);
        assert(key_lt(es[i + 1].0, es[j + 1].0));
    }
}

/// The length after a sorted insertion: unchanged when the key was present,
/// one more when it was new.
pub proof fn lemma_insert_pair_len(es: Seq<(Seq<char>, Seq<char>)>, k: Seq<char>, v: Seq<char>)
    requires
        entries_sorted(es),
    ensures
        entry_keys(es).contains(k) ==> spec_insert_pair(es, k, v).len() == es.len(),
        !entry_keys(es).contains(k) ==> spec_insert_pair(es, k, v).len() == es.len() + 1,
    decreases es.len(),
{
    if es.len() == 0 {
        assert(!entry_keys(es).contains(k));
    } else if k == es[0].0 {
        assert(entry_keys(es)[0] == k);
    } else if key_lt(k, es[0].0) {
        assert(!entry_keys(es).contains(k)) by {
            if entry_keys(es).contains(k) {
                let i = choose|i: int| 0 <= i < es.len() && entry_keys(es)[i] == k;
                assert(es[i].0 == k);
                if i == 0 {
                    lemma_key_lt_irrefl(k);
                } else {
                    assert(key_lt(es[0].0, es[i].0));
                    lemma_key_lt_asymm(k, es[0].0);
                }
            }
        }
    } else {
        let tail = es.drop_first();
        lemma_tail_sorted(es);
        lemma_insert_pair_len(tail, k, v);
        assert(entry_keys(es).contains(k) == entry_keys(tail).contains(k)) by {
            if entry_keys(es).contains(k) {
                let i = choose|i: int| 0 <= i < es.len() && entry_keys(es)[i] == k;
                assert(es[i].0 == k);
                assert(i != 0);
                assert(entry_keys(tail)[i - 1] == k);
            }
            if entry_keys(tail).contains(k) {
                let i = choose|i: int| 0 <= i < tail.len() && entry_keys(tail)[i] == k;
                assert(es[i + 1].0 == k);
                assert(entry_keys(es)[i + 1] == k);
            }
        }
    }
}

/// Replacing a value touches neither the length nor the key sequence.
pub proof fn lemma_replace_value_shape(
    es: Seq<(Seq<char>, Seq<char>)>,
    k: Seq<char>,
    v: Seq<char>,
)
    ensures
        spec_replace_value(es, k, v).len() == es.len(),
        entry_keys(spec_replace_value(es, k, v)) =~= entry_keys(es),
    decreases es.len(),
{
    if es.len() == 0 {
    } else if es[0].0 == k {
        assert forall|i: int| 0 <= i < es.len() implies entry_keys(spec_replace_value(es, k, v))[i]
            == entry_keys(es)[i] by {}
    } else {
        lemma_replace_value_shape(es.drop_first(), k, v);
        let r = spec_replace_value(es, k, v);
        assert forall|i: int| 0 <= i < es.len() implies entry_keys(r)[i] == entry_keys(es)[i] by {
            if i > 0 {
                assert(r[i] == spec_replace_value(es.drop_first(), k, v)[i - 1]);
                assert(entry_keys(spec_replace_value(es.drop_first(), k, v))[i - 1] == entry_keys(
                    es.drop_first(),
                )[i - 1]);
            }
        }
    }
}

// ------------------------------------------------------------------
// Insertion order does not matter: the ordering law.
// ------------------------------------------------------------------

/// No two pairs share a key.
pub open spec fn distinct_keys(ps: Seq<(Seq<char>, Seq<char>)>) -> bool {
    forall|i: int, j: int|
        #![trigger ps[i].0, ps[j].0]
        0 <= i < j < ps.len() ==> ps[i].0 != ps[j].0
}

/// Membership of a key in the entries, split at the first entry.
pub proof fn lemma_entry_keys_decompose(es: Seq<(Seq<char>, Seq<char>)>, k2: Seq<char>)
    requires
        es.len() > 0,
    ensures
        entry_keys(es).contains(k2) <==> (es[0].0 == k2 || entry_keys(es.drop_first()).contains(
            k2,
        )),
{
    let tail = es.drop_first();
    if entry_keys(es).contains(k2) {
        let i = choose|i: int| 0 <= i < entry_keys(es).len() && entry_keys(es)[i] == k2;
        if i > 0 {
            assert(tail[i - 1] == es[i]);
            assert(entry_keys(tail)[i - 1] == k2);
            assert(entry_keys(tail).contains(k2));
        }
    }
    if es[0].0 == k2 {
        assert(entry_keys(es)[0] == k2);
        assert(entry_keys(es).contains(k2));
    }
    if entry_keys(tail).contains(k2) {
        let i = choose|i: int| 0 <= i < entry_keys(tail).len() && entry_keys(tail)[i] == k2;
        assert(es[i + 1] == tail[i]);
        assert(entry_keys(es)[i + 1] == k2);
        assert(entry_keys(es).contains(k2));
    }
}

/// A key is in the inserted entries exactly when it was there before or is
/// the inserted one.
pub proof fn lemma_insert_pair_keys(
    es: Seq<(Seq<char>, Seq<char>)>,
    k: Seq<char>,
    v: Seq<char>,
    k2: Seq<char>,
)
    ensures
        entry_keys(spec_insert_pair(es, k, v)).contains(k2) <==> (entry_keys(es).contains(k2)
            || k2 == k),
    decreases es.len(),
{
    let r = spec_insert_pair(es, k, v);
    if es.len() == 0 {
        lemma_entry_keys_decompose(r, k2);
        assert(r.drop_first() =~= es);
        if entry_keys(es).contains(k2) {
            let i = choose|i: int| 0 <= i < entry_keys(es).len() && entry_keys(es)[i] == k2;
            assert(false);
        }
        assert(r[0].0 == k);
    } else if k == es[0].0 {
        lemma_entry_keys_decompose(r, k2);
        lemma_entry_keys_decompose(es, k2);
        assert(r.drop_first() =~= es.drop_first());
        assert(r[0].0 == k);
    } else if key_lt(k, es[0].0) {
        lemma_entry_keys_decompose(r, k2);
        assert(r.drop_first() =~= es);
        assert(r[0].0 == k);
    } else {
        let tail = es.drop_first();
        lemma_insert_pair_keys(tail, k, v, k2);
        lemma_entry_keys_decompose(es, k2);
        lemma_entry_keys_decompose(r, k2);
        assert(r.drop_first() =~= spec_insert_pair(tail, k, v));
        assert(r[0] == es[0]);
    }
}

/// Inserting a fresh key adds exactly that pair to the contents.
pub proof fn lemma_insert_pair_multiset(es: Seq<(Seq<char>, Seq<char>)>, k: Seq<char>, v: Seq<char>)
    requires
        entries_sorted(es),
        !entry_keys(es).contains(k),
    ensures
        spec_insert_pair(es, k, v).to_multiset() =~= es.to_multiset().insert((k, v)),
    decreases es.len(),
{
    broadcast use vstd::seq_lib::group_to_multiset_ensures;

    let r = spec_insert_pair(es, k, v);
    if es.len() == 0 {
        assert(r =~= es.insert(0, (k, v)));
    } else if k == es[0].0 {
        assert(entry_keys(es)[0] == k);
    } else if key_lt(k, es[0].0) {
        assert(r =~= es.insert(0, (k, v)));
    } else {
        let tail = es.drop_first();
        lemma_tail_sorted(es);
        assert(!entry_keys(tail).contains(k)) by {
            if entry_keys(tail).contains(k) {
                let i = choose|i: int| 0 <= i < tail.len() && entry_keys(tail)[i] == k;
                assert(es[i + 1] == tail[i]);
                assert(entry_keys(es)[i + 1] == k);
            }
        }
        lemma_insert_pair_multiset(tail, k, v);
        let rt = spec_insert_pair(tail, k, v);
        assert(r =~= rt.insert(0, es[0]));
        assert(es =~= tail.insert(0, es[0]));
        assert(r.to_multiset() =~= tail.to_multiset().insert((k, v)).insert(es[0]));
        assert(es.to_multiset().insert((k, v)) =~= tail.to_multiset().insert(es[0]).insert((k, v)));
    }
}

/// Inserting pairwise-fresh, distinct-keyed pairs into a sorted container
/// keeps it sorted and adds exactly those pairs.
pub proof fn lemma_insert_all_multiset(
    es: Seq<(Seq<char>, Seq<char>)>,
    ps: Seq<(Seq<char>, Seq<char>)>,
)
    requires
        entries_sorted(es),
        distinct_keys(ps),
        forall|i: int| 0 <= i < ps.len() ==> !entry_keys(es).contains(#[trigger] ps[i].0),
    ensures
        entries_sorted(spec_insert_all(es, ps)),
        spec_insert_all(es, ps).to_multiset() =~= es.to_multiset().add(ps.to_multiset()),
    decreases ps.len(),
{
    broadcast use vstd::seq_lib::group_to_multiset_ensures;

    if ps.len() == 0 {
        assert(spec_insert_all(es, ps) == es);
    } else {
        let k = ps[0].0;
        let v = ps[0].1;
        let es1 = spec_insert_pair(es, k, v);
        lemma_insert_pair_sorted(es, k, v);
        lemma_insert_pair_multiset(es, k, v);
        let pt = ps.drop_first();
        assert(distinct_keys(pt)) by {
            assert forall|i: int, j: int|
                #![trigger pt[i].0, pt[j].0]
                0 <= i < j < pt.len() implies pt[i].0 != pt[j].0 by {
                assert(pt[i] == ps[i + 1]);
                assert(pt[j] == ps[j + 1]);
                assert(ps[i + 1].0 != ps[j + 1].0);
            }
        }
        assert(forall|i: int| 0 <= i < pt.len() ==> !entry_keys(es1).contains(#[trigger] pt[i].0))
            by {
            assert forall|i: int| 0 <= i < pt.len() implies !entry_keys(es1).contains(
                #[trigger] pt[i].0,
            ) by {
                lemma_insert_pair_keys(es, k, v, pt[i].0);
                assert(pt[i] == ps[i + 1]);
                assert(ps[i + 1].0 != ps[0].0);
                assert(!entry_keys(es).contains(ps[i + 1].0));
            }
        }
        lemma_insert_all_multiset(es1, pt);
        assert(ps =~= pt.insert(0, ps[0]));
        assert(ps.to_multiset() =~= pt.to_multiset().insert(ps[0]));
        assert(spec_insert_all(es, ps) == spec_insert_all(es1, pt));
        assert(spec_insert_all(es1, pt).to_multiset() =~= es1.to_multiset().add(pt.to_multiset()));
        assert(es1.to_multiset().add(pt.to_multiset()) =~= es.to_multiset().add(ps.to_multiset()));
    }
}

/// Two sorted entry sequences with the same contents are the same sequence.
pub proof fn lemma_sorted_multiset_unique(
    xs: Seq<(Seq<char>, Seq<char>)>,
    ys: Seq<(Seq<char>, Seq<char>)>,
)
    requires
        entries_sorted(xs),
        entries_sorted(ys),
        xs.to_multiset() == ys.to_multiset(),
    ensures
        xs == ys,
    decreases xs.len(),
{
    broadcast use vstd::seq_lib::group_to_multiset_ensures;

    if xs.len() == 0 {
        assert(ys.len() == 0);
        assert(xs =~= ys);
    } else {
        vstd::seq_lib::to_multiset_len(xs);
        vstd::seq_lib::to_multiset_len(ys);
        assert(ys.len() == xs.len());
        assert(xs.contains(xs[0]));
        assert(ys.to_multiset().count(xs[0]) > 0);
        assert(ys.contains(xs[0]));
        let j = choose|j: int| 0 <= j < ys.len() && ys[j] == xs[0];
        assert(xs.to_multiset().count(ys[0]) > 0);
        assert(xs.contains(ys[0]));
        let i = choose|i: int| 0 <= i < xs.len() && xs[i] == ys[0];
        if xs[0] != ys[0] {
            assert(j != 0);
            assert(i != 0);
            assert(key_lt(ys[0].0, ys[j].0));
            assert(key_lt(xs[0].0, xs[i].0));
            lemma_key_lt_asymm(ys[0].0, xs[0].0);
            assert(false);
        }
        let xt = xs.drop_first();
        let yt = ys.drop_first();
        assert(xt =~= xs.remove(0));
        assert(yt =~= ys.remove(0));
        assert(xt.to_multiset() =~= xs.to_multiset().remove(xs[0]));
        assert(yt.to_multiset() =~= ys.to_multiset().remove(ys[0]));
        lemma_tail_sorted(xs);
        lemma_tail_sorted(ys);
        lemma_sorted_multiset_unique(xt, yt);
        assert(xs =~= ys) by {
            assert forall|l: int| 0 <= l < xs.len() implies xs[l] == ys[l] by {
                if l > 0 {
                    assert(xt[l - 1] == yt[l - 1]);
                }
            }
        }
    }
}

/// Distinctness of keys transfers across a permutation.
pub proof fn lemma_multiset_distinct_keys(
    ps1: Seq<(Seq<char>, Seq<char>)>,
    ps2: Seq<(Seq<char>, Seq<char>)>,
)
    requires
        distinct_keys(ps1),
        ps1.to_multiset() == ps2.to_multiset(),
    ensures
        distinct_keys(ps2),
{
    broadcast use vstd::seq_lib::group_to_multiset_ensures;

    assert forall|i: int, j: int|
        #![trigger ps2[i].0, ps2[j].0]
        0 <= i < j < ps2.len() implies ps2[i].0 != ps2[j].0 by {
        if ps2[i].0 == ps2[j].0 {
            let p = ps2[i];
            let q = ps2[j];
            if p == q {
                // the pair occurs at least twice, so it occurs twice in ps1,
                // giving two entries of ps1 with the same key
                assert(ps2.remove(i).to_multiset() =~= ps2.to_multiset().remove(p));
                assert(ps2.remove(i)[j - 1] == q);
                assert(ps2.remove(i).contains(p));
                assert(ps2.to_multiset().remove(p).count(p) > 0);
                assert(ps1.to_multiset().count(p) >= 2);
                assert(ps1.contains(p));
                let a = choose|a: int| 0 <= a < ps1.len() && ps1[a] == p;
                assert(ps1.remove(a).to_multiset() =~= ps1.to_multiset().remove(p));
                assert(ps1.remove(a).to_multiset().count(p) > 0);
                assert(ps1.remove(a).contains(p));
                let b0 = choose|b0: int| 0 <= b0 < ps1.remove(a).len() && ps1.remove(a)[b0] == p;
                let b = if b0 < a { b0 } else { b0 + 1 };
                assert(ps1[b] == p);
                assert(b != a);
                if a < b {
                    assert(ps1[a].0 != ps1[b].0);
                } else {
                    assert(ps1[b].0 != ps1[a].0);
                }
                assert(false);
            } else {
                assert(ps2.contains(p));
                assert(ps1.to_multiset().count(p) > 0);
                assert(ps1.contains(p));
                assert(ps2.contains(q));
                assert(ps1.to_multiset().count(q) > 0);
                assert(ps1.contains(q));
                let a = choose|a: int| 0 <= a < ps1.len() && ps1[a] == p;
                let b = choose|b: int| 0 <= b < ps1.len() && ps1[b] == q;
                assert(a != b);
                if a < b {
                    assert(ps1[a].0 != ps1[b].0);
                } else {
                    assert(ps1[b].0 != ps1[a].0);
                }
                assert(false);
            }
        }
    }
}

/// The ordering law: filling an empty container with the same pairs, their
/// keys pairwise distinct, in any two orders gives the same contents — and
/// with them the same canonical query string and canonical header block.
pub proof fn lemma_insertion_order_irrelevant(
    ps1: Seq<(Seq<char>, Seq<char>)>,
    ps2: Seq<(Seq<char>, Seq<char>)>,
)
    requires
        distinct_keys(ps1),
        ps1.to_multiset() == ps2.to_multiset(),
    ensures
        spec_insert_all(Seq::empty(), ps1) == spec_insert_all(Seq::empty(), ps2),
{
    broadcast use vstd::seq_lib::group_to_multiset_ensures;

    lemma_multiset_distinct_keys(ps1, ps2);
    let e = Seq::<(Seq<char>, Seq<char>)>::empty();
    assert(forall|i: int| 0 <= i < ps1.len() ==> !entry_keys(e).contains(#[trigger] ps1[i].0));
    assert(forall|i: int| 0 <= i < ps2.len() ==> !entry_keys(e).contains(#[trigger] ps2[i].0));
    lemma_insert_all_multiset(e, ps1);
    lemma_insert_all_multiset(e, ps2);
    let r1 = spec_insert_all(e, ps1);
    let r2 = spec_insert_all(e, ps2);
    assert(r1.to_multiset() =~= ps1.to_multiset()) by {
        assert(e.to_multiset() =~= Multiset::<(Seq<char>, Seq<char>)>::empty());
    }
    assert(r2.to_multiset() =~= ps2.to_multiset()) by {
        assert(e.to_multiset() =~= Multiset::<(Seq<char>, Seq<char>)>::empty());
    }
    lemma_sorted_multiset_unique(r1, r2);
}

// ------------------------------------------------------------------
// The container itself, behind trusted contracts.
// ------------------------------------------------------------------

#[verifier::external_type_specification]
#[verifier::external_body]
#[verifier::reject_recursive_types(K)]
#[verifier::reject_recursive_types(V)]
#[verifier::reject_recursive_types(S)]
pub struct ExOrderMap<K, V, S>(OrderMap<K, V, S>);

/// The contents of an ordered parameter container, in its enumeration
/// order: one (key, value) pair of character sequences per entry.
pub uninterp spec fn entries_of(m: OrderMap<String, String>) -> Seq<(Seq<char>, Seq<char>)>;

/// Relies on `OrderMap::new`: the new map is empty.
#[verifier::external_body]
pub(crate) fn params_new() -> (m: OrderMap<String, String>)
    ensures
        entries_of(m) == Seq::<(Seq<char>, Seq<char>)>::empty(),
{
    OrderMap::new()
}

/// Relies on `OrderMap::insert_sorted`: with the keys already sorted, a
/// binary search finds the key's position; an existing entry keeps its place
/// and has only its value overwritten, a new entry is inserted at its sorted
/// position.
#[verifier::external_body]
pub(crate) fn params_insert_sorted(m: &mut OrderMap<String, String>, k: String, v: String)
    requires
        entries_sorted(entries_of(*old(m))),
    ensures
        entries_of(*final(m)) == spec_insert_pair(entries_of(*old(m)), k@, v@),
{
    m.insert_sorted(k, v);
}

/// Relies on `OrderMap::get_mut`: it hands out the value slot of the entry
/// with the given key, if present, and does not disturb the entry order.
#[verifier::external_body]
pub(crate) fn params_replace_value(m: &mut OrderMap<String, String>, k: &str, v: String)
    ensures
        entries_of(*final(m)) == spec_replace_value(entries_of(*old(m)), k@, v@),
{
    if let Some(slot) = m.get_mut(k) {
        *slot = v;
    }
}

/// Relies on `OrderMap::iter`: it enumerates the entries in the map's order.
#[verifier::external_body]
pub(crate) fn params_entries(m: &OrderMap<String, String>) -> (r: Vec<(String, String)>)
    ensures
        r@.len() == entries_of(*m).len(),
        forall|i: int|
            0 <= i < r@.len() ==> (#[trigger] r@[i]).0@ == entries_of(*m)[i].0 && r@[i].1@
                == entries_of(*m)[i].1,
{
    m.iter().map(|(k, v)| (k.clone(), v.clone())).collect()
}

/// Insert one parameter, named by a string literal, keeping the container
/// sorted.
pub(crate) fn insert_param(m: &mut OrderMap<String, String>, k: &str, v: String)
    requires
        entries_sorted(entries_of(*old(m))),
    ensures
        entries_of(*final(m)) == spec_insert_pair(entries_of(*old(m)), k@, v@),
        entries_sorted(entries_of(*final(m))),
{
    let ghost es = entries_of(*m);
    params_insert_sorted(m, String::from_str(k), v);
    proof {
        lemma_insert_pair_sorted(es, k@, v@);
    }
}

/// Relies on `OrderMap::len`: the number of entries.
#[verifier::external_body]
pub(crate) fn params_len(m: &OrderMap<String, String>) -> (r: usize)
    ensures
        r == entries_of(*m).len(),
{
    m.len()
}

} // verus!
