//! A map keyed by text that hands its keys out in the order of the texts.

use vstd::prelude::*;

use crate::text;

verus! {

pub struct TextMap<V> {
    entries: Vec<(String, V)>,
}

spec fn in_order<V>(entries: Seq<(String, V)>) -> bool {
    forall|i: int, j: int|
        0 <= i < j < entries.len() ==> text::text_less(
            (#[trigger] entries[i]).0@,
            (#[trigger] entries[j]).0@,
        )
}

spec fn holds<V>(entries: Seq<(String, V)>, key: Seq<char>) -> bool {
    exists|i: int| 0 <= i < entries.len() && (#[trigger] entries[i]).0@ == key
}

spec fn value_of<V>(entries: Seq<(String, V)>, key: Seq<char>) -> V {
    entries[choose|i: int| 0 <= i < entries.len() && (#[trigger] entries[i]).0@ == key].1
}

spec fn as_map<V>(entries: Seq<(String, V)>) -> Map<Seq<char>, V> {
    Map::new(|key: Seq<char>| holds(entries, key), |key: Seq<char>| value_of(entries, key))
}

proof fn lemma_key_stands_once<V>(entries: Seq<(String, V)>, i: int)
    requires
        in_order(entries),
        0 <= i < entries.len(),
    ensures
        holds(entries, entries[i].0@),
        value_of(entries, entries[i].0@) == entries[i].1,
        forall|j: int|
            0 <= j < entries.len() && j != i ==> (#[trigger] entries[j]).0@ != entries[i].0@,
{
    assert forall|j: int| 0 <= j < entries.len() && j != i implies (#[trigger] entries[j]).0@
        != entries[i].0@ by {
        text::law_text_order_is_irreflexive(entries[i].0@);
    }
}

/// The first place whose key does not come before `key`.
fn place<V>(entries: &Vec<(String, V)>, key: &str) -> (r: usize)
    requires
        in_order(entries@),
    ensures
        r <= entries@.len(),
        forall|i: int| 0 <= i < r ==> text::text_less((#[trigger] entries@[i]).0@, key@),
        forall|i: int| r <= i < entries@.len() ==> !text::text_less((#[trigger] entries@[i]).0@, key@),
{
    let mut i: usize = 0;
    while i < entries.len() && text::less(&entries[i].0, key)
        invariant
            i <= entries@.len(),
            forall|k: int| 0 <= k < i ==> text::text_less((#[trigger] entries@[k]).0@, key@),
        decreases entries.len() - i,
    {
        i += 1;
    }
    proof {
        assert forall|k: int| i <= k < entries@.len() implies !text::text_less(
            (#[trigger] entries@[k]).0@,
            key@,
        ) by {
            if text::text_less(entries@[k].0@, key@) && k > i {
                text::law_text_order_is_transitive(entries@[i as int].0@, entries@[k].0@, key@);
            }
        }
    }
    i
}

proof fn lemma_place_decides<V>(entries: Seq<(String, V)>, key: Seq<char>, at: int)
    requires
        in_order(entries),
        0 <= at <= entries.len(),
        forall|i: int| 0 <= i < at ==> text::text_less((#[trigger] entries[i]).0@, key),
        forall|i: int| at <= i < entries.len() ==> !text::text_less((#[trigger] entries[i]).0@, key),
    ensures
        holds(entries, key) == (at < entries.len() && entries[at].0@ == key),
        forall|i: int|
            at < i < entries.len() ==> text::text_less(key, (#[trigger] entries[i]).0@),
        at < entries.len() && entries[at].0@ != key ==> text::text_less(key, entries[at].0@),
{
    text::law_text_order_is_irreflexive(key);
    assert forall|i: int| at < i < entries.len() implies text::text_less(key, (#[trigger] entries[i]).0@) by {
        text::law_text_order_is_total(entries[at].0@, key);
        if entries[at].0@ != key {
            text::law_text_order_is_transitive(key, entries[at].0@, entries[i].0@);
        }
    }
    if at < entries.len() {
        text::law_text_order_is_total(entries[at].0@, key);
    }
}

proof fn lemma_insert<V>(entries: Seq<(String, V)>, at: int, key: String, value: V)
    requires
        in_order(entries),
        0 <= at <= entries.len(),
        forall|i: int| 0 <= i < at ==> text::text_less((#[trigger] entries[i]).0@, key@),
        forall|i: int| at <= i < entries.len() ==> text::text_less(key@, (#[trigger] entries[i]).0@),
    ensures
        in_order(entries.insert(at, (key, value))),
        as_map(entries.insert(at, (key, value))) == as_map(entries).insert(key@, value),
{
    let after = entries.insert(at, (key, value));
    assert forall|i: int, j: int| 0 <= i < j < after.len() implies text::text_less(
        (#[trigger] after[i]).0@,
        (#[trigger] after[j]).0@,
    ) by {
        if i < at && j > at {
            assert(after[i] == entries[i] && after[j] == entries[j - 1]);
        } else if i > at {
            assert(after[i] == entries[i - 1] && after[j] == entries[j - 1]);
        } else if i == at {
            assert(after[j] == entries[j - 1]);
        }
    }
    lemma_key_stands_once(after, at);
    let left = as_map(after);
    let right = as_map(entries).insert(key@, value);
    assert forall|k: Seq<char>| left.contains_key(k) == right.contains_key(k) by {
        if holds(after, k) {
            let i = choose|i: int| 0 <= i < after.len() && (#[trigger] after[i]).0@ == k;
            if i < at {
                assert(entries[i].0@ == k);
            } else if i > at {
                assert(entries[i - 1].0@ == k);
            }
        }
        if holds(entries, k) {
            let i = choose|i: int| 0 <= i < entries.len() && (#[trigger] entries[i]).0@ == k;
            if i < at {
                assert(after[i].0@ == k);
            } else {
                assert(after[i + 1].0@ == k);
            }
        }
        if k == key@ {
            assert(after[at].0@ == k);
        }
    }
    assert forall|k: Seq<char>| left.contains_key(k) implies left[k] == right[k] by {
        let i = choose|i: int| 0 <= i < after.len() && (#[trigger] after[i]).0@ == k;
        lemma_key_stands_once(after, i);
        if i < at {
            lemma_key_stands_once(entries, i);
            assert(after[i] == entries[i]);
        } else if i > at {
            lemma_key_stands_once(entries, i - 1);
            assert(after[i] == entries[i - 1]);
        }
    }
    assert(left =~= right);
}

proof fn lemma_remove<V>(entries: Seq<(String, V)>, at: int)
    requires
        in_order(entries),
        0 <= at < entries.len(),
    ensures
        in_order(entries.remove(at)),
        as_map(entries.remove(at)) == as_map(entries).remove(entries[at].0@),
{
    let after = entries.remove(at);
    let key = entries[at].0@;
    assert forall|i: int, j: int| 0 <= i < j < after.len() implies text::text_less(
        (#[trigger] after[i]).0@,
        (#[trigger] after[j]).0@,
    ) by {
        let x = if i < at { i } else { i + 1 };
        let y = if j < at { j } else { j + 1 };
        assert(after[i] == entries[x] && after[j] == entries[y]);
    }
    lemma_key_stands_once(entries, at);
    let left = as_map(after);
    let right = as_map(entries).remove(key);
    assert forall|k: Seq<char>| left.contains_key(k) == right.contains_key(k) by {
        if holds(after, k) {
            let i = choose|i: int| 0 <= i < after.len() && (#[trigger] after[i]).0@ == k;
            let x = if i < at { i } else { i + 1 };
            assert(entries[x].0@ == k);
        }
        if holds(entries, k) && k != key {
            let i = choose|i: int| 0 <= i < entries.len() && (#[trigger] entries[i]).0@ == k;
            let x = if i < at { i } else { i - 1 };
            assert(after[x].0@ == k);
        }
    }
    assert forall|k: Seq<char>| left.contains_key(k) implies left[k] == right[k] by {
        let i = choose|i: int| 0 <= i < after.len() && (#[trigger] after[i]).0@ == k;
        let x = if i < at { i } else { i + 1 };
        lemma_key_stands_once(after, i);
        lemma_key_stands_once(entries, x);
        assert(after[i] == entries[x]);
    }
    assert(left =~= right);
}

impl<V> View for TextMap<V> {
    type V = Map<Seq<char>, V>;

    closed spec fn view(&self) -> Map<Seq<char>, V> {
        as_map(self.entries@)
    }
}

/// The keys of a map, each once, in the order of the texts.
pub open spec fn lists_keys<V>(keys: Seq<String>, map: Map<Seq<char>, V>) -> bool {
    &&& forall|i: int, j: int|
        0 <= i < j < keys.len() ==> text::text_less((#[trigger] keys[i])@, (#[trigger] keys[j])@)
    &&& forall|i: int| 0 <= i < keys.len() ==> map.contains_key((#[trigger] keys[i])@)
    &&& forall|k: Seq<char>| #[trigger]
        map.contains_key(k) ==> exists|i: int| 0 <= i < keys.len() && (#[trigger] keys[i])@ == k
}

impl<V> TextMap<V> {
    /// The keys in the order in which the map hands them out.
    pub closed spec fn key_seq(&self) -> Seq<Seq<char>> {
        self.entries@.map_values(|e: (String, V)| e.0@)
    }

    #[verifier::type_invariant]
    spec fn keys_in_order(self) -> bool {
        in_order(self.entries@)
    }

    pub fn new() -> (r: Self)
        ensures
            r@ == Map::<Seq<char>, V>::empty(),
    {
        let r = TextMap { entries: Vec::new() };
        proof {
            assert(r@ =~= Map::<Seq<char>, V>::empty());
        }
        r
    }

    pub fn get(&self, key: &str) -> (r: Option<&V>)
        ensures
            r == if self@.contains_key(key@) {
                Some(&self@[key@])
            } else {
                None
            },
    {
        proof {
            use_type_invariant(self);
        }
        let at: usize = place(&self.entries, key);
        proof {
            lemma_place_decides(self.entries@, key@, at as int);
        }
        if at < self.entries.len() && text::same_text(&self.entries[at].0, key) {
            proof {
                lemma_key_stands_once(self.entries@, at as int);
            }
            Some(&self.entries[at].1)
        } else {
            None
        }
    }

    pub fn contains_key(&self, key: &str) -> (r: bool)
        ensures
            r == self@.contains_key(key@),
    {
        self.get(key).is_some()
    }

    pub fn insert(&mut self, key: String, value: V)
        ensures
            final(self)@ == old(self)@.insert(key@, value),
    {
        proof {
            use_type_invariant(&*self);
        }
        let mut entries: Vec<(String, V)> = Vec::new();
        std::mem::swap(&mut entries, &mut self.entries);
        let ghost before = entries@;
        let at: usize = place(&entries, &key);
        proof {
            lemma_place_decides(before, key@, at as int);
        }
        if at < entries.len() && entries[at].0 == key {
            proof {
                lemma_remove(before, at as int);
                assert(as_map(before).remove(key@).insert(key@, value) =~= as_map(before).insert(
                    key@,
                    value,
                ));
            }
            let _ = entries.remove(at);
        }
        proof {
            lemma_insert(entries@, at as int, key, value);
        }
        entries.insert(at, (key, value));
        self.entries = entries;
    }

    pub fn remove(&mut self, key: &str) -> (r: Option<V>)
        ensures
            final(self)@ == old(self)@.remove(key@),
            r == if old(self)@.contains_key(key@) {
                Some(old(self)@[key@])
            } else {
                None
            },
    {
        proof {
            use_type_invariant(&*self);
        }
        let mut entries: Vec<(String, V)> = Vec::new();
        std::mem::swap(&mut entries, &mut self.entries);
        let ghost before = entries@;
        let at: usize = place(&entries, key);
        proof {
            lemma_place_decides(before, key@, at as int);
        }
        if at < entries.len() && text::same_text(&entries[at].0, key) {
            proof {
                lemma_key_stands_once(before, at as int);
                lemma_remove(before, at as int);
            }
            let (_, value) = entries.remove(at);
            self.entries = entries;
            Some(value)
        } else {
            proof {
                assert(as_map(before).remove(key@) =~= as_map(before));
            }
            self.entries = entries;
            None
        }
    }

    pub fn keys(&self) -> (r: Vec<String>)
        ensures
            lists_keys(r@, self@),
            text::texts(r@) == self.key_seq(),
    {
        proof {
            use_type_invariant(self);
        }
        let mut out: Vec<String> = Vec::new();
        let mut i: usize = 0;
        while i < self.entries.len()
            invariant
                i <= self.entries@.len(),
                out@.len() == i,
                forall|k: int| 0 <= k < i ==> (#[trigger] out@[k])@ == self.entries@[k].0@,
            decreases self.entries.len() - i,
        {
            out.push(self.entries[i].0.clone());
            i += 1;
        }
        proof {
            assert forall|a: int, b: int| 0 <= a < b < out@.len() implies text::text_less(
                (#[trigger] out@[a])@,
                (#[trigger] out@[b])@,
            ) by {
                assert(text::text_less(self.entries@[a].0@, self.entries@[b].0@));
            }
            assert forall|a: int| 0 <= a < out@.len() implies self@.contains_key(
                (#[trigger] out@[a])@,
            ) by {
                lemma_key_stands_once(self.entries@, a);
            }
            assert forall|k: Seq<char>| #[trigger] self@.contains_key(k) implies exists|a: int|
                0 <= a < out@.len() && (#[trigger] out@[a])@ == k by {
                let a = choose|a: int|
                    0 <= a < self.entries@.len() && (#[trigger] self.entries@[a]).0@ == k;
                assert(out@[a]@ == k);
            }
            assert(text::texts(out@) =~= self.key_seq());
        }
        out
    }
}

} // verus!
