use vstd::prelude::*;

verus! {

/// No two entries share a key.
pub open spec fn distinct_keys<T>(ss: Seq<T>, key: spec_fn(T) -> Seq<char>) -> bool {
    forall|i: int, j: int| 0 <= i < j < ss.len() ==> #[trigger] key(ss[i]) != #[trigger] key(ss[j])
}

/// The entries by key.
pub open spec fn keyed<T>(ss: Seq<T>, key: spec_fn(T) -> Seq<char>) -> Map<Seq<char>, T> {
    Map::new(
        |n: Seq<char>| exists|i: int| 0 <= i < ss.len() && #[trigger] key(ss[i]) == n,
        |n: Seq<char>| ss[choose|i: int| 0 <= i < ss.len() && #[trigger] key(ss[i]) == n],
    )
}

/// An entry is found under its own key.
pub proof fn lemma_keyed_lookup<T>(ss: Seq<T>, key: spec_fn(T) -> Seq<char>, i: int)
    requires
        distinct_keys(ss, key),
        0 <= i < ss.len(),
    ensures
        keyed(ss, key).contains_key(key(ss[i])),
        keyed(ss, key)[key(ss[i])] == ss[i],
{
    let n = key(ss[i]);
    let j = choose|j: int| 0 <= j < ss.len() && #[trigger] key(ss[j]) == n;
    if j < i {
        assert(key(ss[j]) != key(ss[i]));
    } else if i < j {
        assert(key(ss[i]) != key(ss[j]));
    }
}

/// Replacing an entry by one with the same key replaces it in the map.
pub proof fn lemma_keyed_replace<T>(ss: Seq<T>, key: spec_fn(T) -> Seq<char>, i: int, s: T)
    requires
        distinct_keys(ss, key),
        0 <= i < ss.len(),
        key(ss[i]) == key(s),
    ensures
        distinct_keys(ss.update(i, s), key),
        keyed(ss.update(i, s), key) == keyed(ss, key).insert(key(s), s),
{
    let t = ss.update(i, s);
    assert forall|a: int, b: int| 0 <= a < b < t.len() implies #[trigger] key(t[a]) != #[trigger] key(
        t[b],
    ) by {
        assert(key(ss[a]) != key(ss[b]));
    }
    lemma_keyed_lookup(t, key, i);
    assert forall|n: Seq<char>| #[trigger] keyed(t, key).contains_key(n) == keyed(ss, key).insert(
        key(s),
        s,
    ).contains_key(n) by {
        if keyed(t, key).contains_key(n) {
            let j = choose|j: int| 0 <= j < t.len() && #[trigger] key(t[j]) == n;
            if j != i {
                assert(key(ss[j]) == n);
            }
        }
        if keyed(ss, key).contains_key(n) {
            let j = choose|j: int| 0 <= j < ss.len() && #[trigger] key(ss[j]) == n;
            if j != i {
                assert(key(t[j]) == n);
            }
        }
    }
    assert forall|n: Seq<char>| #[trigger] keyed(t, key).contains_key(n) implies keyed(t, key)[n]
        == keyed(ss, key).insert(key(s), s)[n] by {
        let j = choose|j: int| 0 <= j < t.len() && #[trigger] key(t[j]) == n;
        if j != i {
            assert(key(ss[j]) == n);
            lemma_keyed_lookup(t, key, j);
            lemma_keyed_lookup(ss, key, j);
        }
    }
    assert(keyed(t, key) =~= keyed(ss, key).insert(key(s), s));
}

/// Appending an entry under a new key adds it to the map.
pub proof fn lemma_keyed_append<T>(ss: Seq<T>, key: spec_fn(T) -> Seq<char>, s: T)
    requires
        distinct_keys(ss, key),
        forall|i: int| 0 <= i < ss.len() ==> #[trigger] key(ss[i]) != key(s),
    ensures
        distinct_keys(ss.push(s), key),
        keyed(ss.push(s), key) == keyed(ss, key).insert(key(s), s),
{
    let t = ss.push(s);
    assert forall|a: int, b: int| 0 <= a < b < t.len() implies #[trigger] key(t[a]) != #[trigger] key(
        t[b],
    ) by {
        if b < ss.len() {
            assert(key(ss[a]) != key(ss[b]));
        } else {
            assert(key(ss[a]) != key(s));
        }
    }
    lemma_keyed_lookup(t, key, ss.len() as int);
    assert forall|n: Seq<char>| #[trigger] keyed(t, key).contains_key(n) == keyed(ss, key).insert(
        key(s),
        s,
    ).contains_key(n) by {
        if keyed(t, key).contains_key(n) {
            let j = choose|j: int| 0 <= j < t.len() && #[trigger] key(t[j]) == n;
            if j < ss.len() {
                assert(key(ss[j]) == n);
            }
        }
        if keyed(ss, key).contains_key(n) {
            let j = choose|j: int| 0 <= j < ss.len() && #[trigger] key(ss[j]) == n;
            assert(key(t[j]) == n);
        }
    }
    assert forall|n: Seq<char>| #[trigger] keyed(t, key).contains_key(n) implies keyed(t, key)[n]
        == keyed(ss, key).insert(key(s), s)[n] by {
        let j = choose|j: int| 0 <= j < t.len() && #[trigger] key(t[j]) == n;
        if j < ss.len() {
            assert(key(ss[j]) == n);
            lemma_keyed_lookup(t, key, j);
            lemma_keyed_lookup(ss, key, j);
        }
    }
    assert(keyed(t, key) =~= keyed(ss, key).insert(key(s), s));
}

} // verus!
