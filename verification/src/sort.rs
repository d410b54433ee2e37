//! Stable sorting of items by a text key.

use vstd::prelude::*;

use crate::text;

verus! {

/// Keys and items, the keys as characters.
pub open spec fn keyed<T>(s: Seq<(String, T)>) -> Seq<(Seq<char>, T)> {
    s.map_values(|p: (String, T)| (p.0@, p.1))
}

/// Puts `x` into an ordered sequence behind the items whose keys do not come after its own.
pub open spec fn insert_by_key<T>(s: Seq<(Seq<char>, T)>, x: (Seq<char>, T)) -> Seq<
    (Seq<char>, T),
>
    decreases s.len(),
{
    if s.len() > 0 && text::text_less(x.0, s.last().0) {
        insert_by_key(s.drop_last(), x).push(s.last())
    } else {
        s.push(x)
    }
}

/// The items in the order of their keys; items with one key stay in the order they came in.
pub open spec fn sort_by_key<T>(s: Seq<(Seq<char>, T)>) -> Seq<(Seq<char>, T)>
    decreases s.len(),
{
    if s.len() == 0 {
        s
    } else {
        insert_by_key(sort_by_key(s.drop_last()), s.last())
    }
}

pub open spec fn ordered<T>(s: Seq<(Seq<char>, T)>) -> bool {
    forall|i: int, j: int|
        0 <= i < j < s.len() ==> !text::text_less((#[trigger] s[j]).0, (#[trigger] s[i]).0)
}

proof fn lemma_insert_is_at<T>(s: Seq<(Seq<char>, T)>, x: (Seq<char>, T), at: int)
    requires
        0 <= at <= s.len(),
        forall|i: int| at <= i < s.len() ==> text::text_less(x.0, (#[trigger] s[i]).0),
        at > 0 ==> !text::text_less(x.0, s[at - 1].0),
    ensures
        insert_by_key(s, x) == s.insert(at, x),
    decreases s.len(),
{
    if at < s.len() {
        lemma_insert_is_at(s.drop_last(), x, at);
        assert(s.drop_last().insert(at, x).push(s.last()) =~= s.insert(at, x));
    } else {
        assert(s.insert(at, x) =~= s.push(x));
    }
}

proof fn lemma_insert_keeps_order<T>(s: Seq<(Seq<char>, T)>, x: (Seq<char>, T))
    requires
        ordered(s),
    ensures
        ordered(insert_by_key(s, x)),
        insert_by_key(s, x).to_multiset() == s.to_multiset().insert(x),
        insert_by_key(s, x).len() == s.len() + 1,
        forall|k: Seq<char>|
            !text::text_less(k, x.0) && (forall|i: int|
                0 <= i < s.len() ==> !text::text_less(k, (#[trigger] s[i]).0)) ==> (forall|i: int|
                0 <= i < insert_by_key(s, x).len() ==> !#[trigger] text::text_less(
                    k,
                    insert_by_key(s, x)[i].0,
                )),
    decreases s.len(),
{
    broadcast use vstd::seq_lib::group_to_multiset_ensures;

    if s.len() > 0 && text::text_less(x.0, s.last().0) {
        let front = s.drop_last();
        lemma_insert_keeps_order(front, x);
        let r = insert_by_key(front, x).push(s.last());
        assert(s =~= front.push(s.last()));
        assert(s.to_multiset() =~= front.to_multiset().insert(s.last()));
        assert(r.to_multiset() =~= s.to_multiset().insert(x));
        let k = s.last().0;
        text::law_text_order_is_irreflexive(k);
        assert(!text::text_less(k, x.0)) by {
            if text::text_less(k, x.0) {
                text::law_text_order_is_transitive(k, x.0, k);
            }
        }
        assert forall|i: int| 0 <= i < front.len() implies !text::text_less(
            k,
            (#[trigger] front[i]).0,
        ) by {
            assert(front[i] == s[i]);
            assert(s[s.len() - 1] == s.last());
        }
        assert forall|i: int, j: int| 0 <= i < j < r.len() implies !text::text_less(
            (#[trigger] r[j]).0,
            (#[trigger] r[i]).0,
        ) by {
            if j == r.len() - 1 {
                assert(r[i] == insert_by_key(front, x)[i]);
            } else {
                assert(r[i] == insert_by_key(front, x)[i] && r[j] == insert_by_key(front, x)[j]);
            }
        }
        assert forall|k: Seq<char>, i: int|
            !text::text_less(k, x.0) && (forall|i: int|
                0 <= i < s.len() ==> !text::text_less(k, (#[trigger] s[i]).0)) && 0 <= i
                < r.len() implies !#[trigger] text::text_less(k, r[i].0) by {
            assert forall|i: int| 0 <= i < front.len() implies !text::text_less(
                k,
                (#[trigger] front[i]).0,
            ) by {
                assert(front[i] == s[i]);
            }
            if i < r.len() - 1 {
                assert(r[i] == insert_by_key(front, x)[i]);
            } else {
                assert(r[i] == s[s.len() - 1]);
            }
        }
    } else {
        let r = s.push(x);
        assert(r.to_multiset() =~= s.to_multiset().insert(x));
        assert forall|i: int, j: int| 0 <= i < j < r.len() implies !text::text_less(
            (#[trigger] r[j]).0,
            (#[trigger] r[i]).0,
        ) by {
            if j == s.len() {
                if text::text_less(x.0, s[i].0) {
                    text::law_text_order_is_total(s[i].0, s.last().0);
                    assert(s[s.len() - 1] == s.last());
                    if s[i].0 != s.last().0 {
                        text::law_text_order_is_transitive(x.0, s[i].0, s.last().0);
                    }
                }
            }
        }
    }
}

/// Sorting puts the items in the order of their keys and keeps each of them.
pub proof fn law_sorting_orders_and_keeps<T>(s: Seq<(Seq<char>, T)>)
    ensures
        ordered(sort_by_key(s)),
        sort_by_key(s).to_multiset() == s.to_multiset(),
        sort_by_key(s).len() == s.len(),
    decreases s.len(),
{
    broadcast use vstd::seq_lib::group_to_multiset_ensures;

    if s.len() > 0 {
        law_sorting_orders_and_keeps(s.drop_last());
        lemma_insert_keeps_order(sort_by_key(s.drop_last()), s.last());
        assert(s =~= s.drop_last().push(s.last()));
        assert(s.to_multiset() =~= s.drop_last().to_multiset().insert(s.last()));
    }
}

/// The items with a key, in their order.
pub open spec fn with_key<T>(s: Seq<(Seq<char>, T)>, key: Seq<char>) -> Seq<(Seq<char>, T)>
    decreases s.len(),
{
    if s.len() == 0 {
        s
    } else if s.last().0 == key {
        with_key(s.drop_last(), key).push(s.last())
    } else {
        with_key(s.drop_last(), key)
    }
}

proof fn lemma_insert_is_stable<T>(s: Seq<(Seq<char>, T)>, x: (Seq<char>, T), key: Seq<char>)
    ensures
        with_key(insert_by_key(s, x), key) == if x.0 == key {
            with_key(s, key).push(x)
        } else {
            with_key(s, key)
        },
    decreases s.len(),
{
    let all = insert_by_key(s, x);
    if s.len() > 0 && text::text_less(x.0, s.last().0) {
        let front = s.drop_last();
        lemma_insert_is_stable(front, x, key);
        assert(all.drop_last() =~= insert_by_key(front, x));
        text::law_text_order_is_irreflexive(x.0);
    } else {
        assert(all.drop_last() =~= s);
    }
}

/// Sorting keeps the order of items with the same key.
pub proof fn law_sorting_is_stable<T>(s: Seq<(Seq<char>, T)>, key: Seq<char>)
    ensures
        with_key(sort_by_key(s), key) == with_key(s, key),
    decreases s.len(),
{
    if s.len() > 0 {
        law_sorting_is_stable(s.drop_last(), key);
        lemma_insert_is_stable(sort_by_key(s.drop_last()), s.last(), key);
    }
}

pub open spec fn map_items<T, U>(s: Seq<(Seq<char>, T)>, f: spec_fn(T) -> U) -> Seq<(Seq<char>, U)> {
    s.map_values(|p: (Seq<char>, T)| (p.0, f(p.1)))
}

proof fn lemma_insert_commutes<T, U>(s: Seq<(Seq<char>, T)>, x: (Seq<char>, T), f: spec_fn(T) -> U)
    ensures
        insert_by_key(map_items(s, f), (x.0, f(x.1))) == map_items(insert_by_key(s, x), f),
    decreases s.len(),
{
    let m = map_items(s, f);
    if s.len() > 0 && text::text_less(x.0, s.last().0) {
        lemma_insert_commutes(s.drop_last(), x, f);
        assert(m.drop_last() =~= map_items(s.drop_last(), f));
        assert(map_items(insert_by_key(s, x), f) =~= map_items(
            insert_by_key(s.drop_last(), x),
            f,
        ).push(m.last()));
    } else {
        assert(map_items(s.push(x), f) =~= m.push((x.0, f(x.1))));
    }
}

/// Sorting does not look at the items, only at their keys.
pub proof fn law_sorting_looks_at_keys_only<T, U>(s: Seq<(Seq<char>, T)>, f: spec_fn(T) -> U)
    ensures
        sort_by_key(map_items(s, f)) == map_items(sort_by_key(s), f),
    decreases s.len(),
{
    if s.len() == 0 {
        assert(map_items(s, f) =~= Seq::<(Seq<char>, U)>::empty());
        assert(map_items(sort_by_key(s), f) =~= Seq::<(Seq<char>, U)>::empty());
    } else {
        law_sorting_looks_at_keys_only(s.drop_last(), f);
        assert(map_items(s, f).drop_last() =~= map_items(s.drop_last(), f));
        lemma_insert_commutes(sort_by_key(s.drop_last()), s.last(), f);
    }
}

pub fn sort_pairs<T>(items: Vec<(String, T)>) -> (r: Vec<(String, T)>)
    ensures
        keyed(r@) == sort_by_key(keyed(items@)),
{
    let ghost all = keyed(items@);
    let mut rest: Vec<(String, T)> = items;
    let mut out: Vec<(String, T)> = Vec::new();
    let ghost mut done: int = 0;
    proof {
        assert(all.take(0) =~= Seq::<(Seq<char>, T)>::empty());
        assert(keyed(out@) =~= sort_by_key(all.take(0)));
        assert(all.skip(0) =~= all);
    }
    while rest.len() > 0
        invariant
            0 <= done <= all.len(),
            keyed(rest@) == all.skip(done),
            keyed(out@) == sort_by_key(all.take(done)),
        decreases rest.len(),
    {
        let ghost head = keyed(rest@)[0];
        let ghost tail = rest@;
        assert(keyed(tail).len() == all.len() - done);
        let x = rest.remove(0);
        let mut at: usize = out.len();
        while at > 0 && text::less(&x.0, &out[at - 1].0)
            invariant
                at <= out@.len(),
                forall|i: int| at <= i < out@.len() ==> text::text_less(x.0@, (#[trigger] out@[i]).0@),
            decreases at,
        {
            at -= 1;
        }
        proof {
            let before = keyed(out@);
            assert forall|i: int| at <= i < before.len() implies text::text_less(
                head.0,
                (#[trigger] before[i]).0,
            ) by {
                assert(before[i].0 == out@[i].0@);
            }
            lemma_insert_is_at(before, head, at as int);
            assert(keyed(out@.insert(at as int, x)) =~= before.insert(at as int, head));
            assert(all.take(done + 1).drop_last() =~= all.take(done));
            assert(all.skip(done)[0] == all[done]);
            assert(all.take(done + 1).last() == head);
            assert(keyed(rest@) =~= all.skip(done + 1)) by {
                assert(keyed(tail).drop_first() =~= all.skip(done + 1));
                assert(rest@ =~= tail.drop_first());
            }
            done = done + 1;
        }
        out.insert(at, x);
    }
    proof {
        assert(keyed(rest@).len() == 0);
        assert(all.take(done) =~= all);
    }
    out
}

/// The texts in their order.
pub open spec fn sort_texts(s: Seq<Seq<char>>) -> Seq<Seq<char>> {
    sort_by_key(s.map_values(|t: Seq<char>| (t, ()))).map_values(|p: (Seq<char>, ())| p.0)
}

pub fn sorted_texts(items: Vec<String>) -> (r: Vec<String>)
    ensures
        text::texts(r@) == sort_texts(text::texts(items@)),
{
    let mut pairs: Vec<(String, ())> = Vec::new();
    let mut i: usize = 0;
    while i < items.len()
        invariant
            i <= items@.len(),
            pairs@.len() == i,
            forall|k: int| 0 <= k < i ==> (#[trigger] pairs@[k]).0@ == items@[k]@,
        decreases items.len() - i,
    {
        pairs.push((items[i].clone(), ()));
        i += 1;
    }
    proof {
        assert(keyed(pairs@) =~= text::texts(items@).map_values(|t: Seq<char>| (t, ())));
    }
    let sorted = sort_pairs(pairs);
    let mut out: Vec<String> = Vec::new();
    let mut j: usize = 0;
    while j < sorted.len()
        invariant
            j <= sorted@.len(),
            out@.len() == j,
            forall|k: int| 0 <= k < j ==> (#[trigger] out@[k])@ == sorted@[k].0@,
        decreases sorted.len() - j,
    {
        out.push(sorted[j].0.clone());
        j += 1;
    }
    proof {
        assert(text::texts(out@) =~= keyed(sorted@).map_values(|p: (Seq<char>, ())| p.0));
    }
    out
}

proof fn lemma_pairs_count(s: Seq<Seq<char>>, t: Seq<char>)
    ensures
        s.map_values(|t: Seq<char>| (t, ())).to_multiset().count((t, ())) == s.to_multiset().count(
            t,
        ),
    decreases s.len(),
{
    broadcast use vstd::seq_lib::group_to_multiset_ensures;

    let f = |t: Seq<char>| (t, ());
    if s.len() > 0 {
        let front = s.drop_last();
        lemma_pairs_count(front, t);
        assert(s =~= front.push(s.last()));
        assert(s.map_values(f) =~= front.map_values(f).push((s.last(), ())));
        assert(s.to_multiset() =~= front.to_multiset().insert(s.last()));
        assert(s.map_values(f).to_multiset() =~= front.map_values(f).to_multiset().insert(
            (s.last(), ()),
        ));
    } else {
        assert(s.map_values(f) =~= Seq::empty());
        assert(s =~= Seq::empty());
        assert(s.to_multiset().count(t) == 0);
        assert(s.map_values(f).to_multiset().count((t, ())) == 0);
    }
}

proof fn lemma_ordered_are_alike(a: Seq<(Seq<char>, ())>, b: Seq<(Seq<char>, ())>)
    requires
        ordered(a),
        ordered(b),
        a.to_multiset() == b.to_multiset(),
    ensures
        a == b,
    decreases a.len(),
{
    broadcast use vstd::seq_lib::group_to_multiset_ensures;

    assert(a.len() == a.to_multiset().len());
    assert(b.len() == b.to_multiset().len());
    if a.len() == 0 {
        assert(a =~= b);
    } else {
        let x = a.last();
        let y = b.last();
        assert(a[a.len() - 1] == x);
        assert(b[b.len() - 1] == y);
        assert(a.contains(x));
        assert(b.contains(y));
        assert(b.to_multiset().count(x) > 0);
        assert(a.to_multiset().count(y) > 0);
        assert(b.contains(x));
        assert(a.contains(y));
        let i = b.index_of(x);
        let j = a.index_of(y);
        text::law_text_order_is_total(x.0, y.0);
        text::law_text_order_is_irreflexive(x.0);
        assert(!text::text_less(y.0, x.0)) by {
            if i < b.len() - 1 {
                assert(!text::text_less(b[b.len() - 1].0, b[i].0));
            }
        }
        assert(!text::text_less(x.0, y.0)) by {
            if j < a.len() - 1 {
                assert(!text::text_less(a[a.len() - 1].0, a[j].0));
            }
        }
        assert(x == y);
        let p = a.drop_last();
        let q = b.drop_last();
        assert(a =~= p.push(x));
        assert(b =~= q.push(y));
        assert(p.to_multiset() =~= a.to_multiset().remove(x)) by {
            assert(a.to_multiset() =~= p.to_multiset().insert(x));
        }
        assert(q.to_multiset() =~= b.to_multiset().remove(y)) by {
            assert(b.to_multiset() =~= q.to_multiset().insert(y));
        }
        assert(ordered(p)) by {
            assert forall|m: int, n: int| 0 <= m < n < p.len() implies !text::text_less(
                (#[trigger] p[n]).0,
                (#[trigger] p[m]).0,
            ) by {
                assert(p[m] == a[m] && p[n] == a[n]);
            }
        }
        assert(ordered(q)) by {
            assert forall|m: int, n: int| 0 <= m < n < q.len() implies !text::text_less(
                (#[trigger] q[n]).0,
                (#[trigger] q[m]).0,
            ) by {
                assert(q[m] == b[m] && q[n] == b[n]);
            }
        }
        lemma_ordered_are_alike(p, q);
    }
}

/// Texts that are the same but for their order are sorted into the same order.
pub proof fn law_sorting_does_not_look_at_the_order(a: Seq<Seq<char>>, b: Seq<Seq<char>>)
    requires
        a.to_multiset() == b.to_multiset(),
    ensures
        sort_texts(a) == sort_texts(b),
{
    let p = a.map_values(|t: Seq<char>| (t, ()));
    let q = b.map_values(|t: Seq<char>| (t, ()));
    assert forall|x: (Seq<char>, ())| #[trigger]
        p.to_multiset().count(x) == q.to_multiset().count(x) by {
        lemma_pairs_count(a, x.0);
        lemma_pairs_count(b, x.0);
        assert(x == (x.0, ()));
    }
    assert(p.to_multiset() =~= q.to_multiset());
    law_sorting_orders_and_keeps(p);
    law_sorting_orders_and_keeps(q);
    lemma_ordered_are_alike(sort_by_key(p), sort_by_key(q));
}

} // verus!
