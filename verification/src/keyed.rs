//! Records that are found by a text key, kept in a vector in which no key
//! occurs twice, and the map that such a vector stands for.

use vstd::prelude::*;

verus! {

/// A record with a text key.
pub trait Keyed: Sized {
    /// The key of the record.
    spec fn key(&self) -> Seq<char>;

    /// The key of the record, for comparing.
    fn key_str(&self) -> (r: &str)
        ensures
            r@ == self.key(),
    ;
}

/// No key occurs twice in `s`.
pub open spec fn distinct_keys<T: Keyed>(s: Seq<T>) -> bool {
    forall|i: int, j: int| 0 <= i < j < s.len() ==> s[i].key() != s[j].key()
}

/// Some record of `s` has the key `k`.
pub open spec fn has_key<T: Keyed>(s: Seq<T>, k: Seq<char>) -> bool {
    exists|i: int| 0 <= i < s.len() && #[trigger] s[i].key() == k
}

/// A position in `s` at which the key `k` stands, if there is one.
pub open spec fn index_of<T: Keyed>(s: Seq<T>, k: Seq<char>) -> int {
    choose|i: int| 0 <= i < s.len() && #[trigger] s[i].key() == k
}

/// The map from each key of `s` to the record that carries it.
pub open spec fn as_map<T: Keyed>(s: Seq<T>) -> Map<Seq<char>, T> {
    Map::new(|k: Seq<char>| has_key(s, k), |k: Seq<char>| s[index_of(s, k)])
}

/// With distinct keys, the map sends the key at position `i` to the record
/// at position `i`.
pub proof fn lemma_as_map_at<T: Keyed>(s: Seq<T>, i: int)
    requires
        distinct_keys(s),
        0 <= i < s.len(),
    ensures
        as_map(s).contains_key(s[i].key()),
        as_map(s)[s[i].key()] == s[i],
{
    let k = s[i].key();
    assert(has_key(s, k));
    let j = index_of(s, k);
    assert(0 <= j < s.len() && s[j].key() == k);
    if j < i {
        assert(s[j].key() != s[i].key());
    } else if i < j {
        assert(s[i].key() != s[j].key());
    }
}

/// The map of the empty vector is empty.
pub proof fn lemma_as_map_empty<T: Keyed>()
    ensures
        as_map(Seq::<T>::empty()) == Map::<Seq<char>, T>::empty(),
        distinct_keys(Seq::<T>::empty()),
{
    assert(as_map(Seq::<T>::empty()) =~= Map::<Seq<char>, T>::empty());
}

/// Appending a record with a new key inserts it into the map.
pub proof fn lemma_as_map_push<T: Keyed>(s: Seq<T>, t: T)
    requires
        distinct_keys(s),
        !has_key(s, t.key()),
    ensures
        distinct_keys(s.push(t)),
        as_map(s.push(t)) == as_map(s).insert(t.key(), t),
{
    let s2 = s.push(t);
    assert forall|i: int, j: int| 0 <= i < j < s2.len() implies s2[i].key() != s2[j].key() by {
        if j == s.len() {
            assert(s2[i] == s[i]);
            if s[i].key() == t.key() {
                assert(has_key(s, t.key()));
            }
        } else {
            assert(s2[i] == s[i] && s2[j] == s[j]);
        }
    }
    assert forall|k: Seq<char>| has_key(s2, k) <==> (k == t.key() || has_key(s, k)) by {
        if has_key(s2, k) {
            let i = index_of(s2, k);
            if i < s.len() {
                assert(s2[i] == s[i]);
                assert(has_key(s, k));
            }
        }
        if has_key(s, k) {
            let i = index_of(s, k);
            assert(s2[i] == s[i]);
            assert(s2[i].key() == k);
        }
        if k == t.key() {
            assert(s2[s.len() as int].key() == k);
        }
    }
    assert forall|k: Seq<char>| has_key(s2, k) implies #[trigger] as_map(s2)[k] == as_map(s).insert(
        t.key(),
        t,
    )[k] by {
        let i = index_of(s2, k);
        lemma_as_map_at(s2, i);
        if i < s.len() {
            assert(s2[i] == s[i]);
            lemma_as_map_at(s, i);
        }
    }
    assert(as_map(s2) =~= as_map(s).insert(t.key(), t));
}

/// Replacing a record by one with the same key replaces it in the map.
pub proof fn lemma_as_map_update<T: Keyed>(s: Seq<T>, i: int, t: T)
    requires
        distinct_keys(s),
        0 <= i < s.len(),
        t.key() == s[i].key(),
    ensures
        distinct_keys(s.update(i, t)),
        as_map(s.update(i, t)) == as_map(s).insert(t.key(), t),
{
    let s2 = s.update(i, t);
    assert forall|a: int, b: int| 0 <= a < b < s2.len() implies s2[a].key() != s2[b].key() by {
        assert(s2[a].key() == s[a].key());
        assert(s2[b].key() == s[b].key());
    }
    assert forall|k: Seq<char>| has_key(s2, k) <==> has_key(s, k) by {
        if has_key(s2, k) {
            let j = index_of(s2, k);
            assert(s[j].key() == k);
        }
        if has_key(s, k) {
            let j = index_of(s, k);
            assert(s2[j].key() == k);
        }
    }
    assert(has_key(s, t.key()));
    assert forall|k: Seq<char>| has_key(s2, k) implies #[trigger] as_map(s2)[k] == as_map(s).insert(
        t.key(),
        t,
    )[k] by {
        let j = index_of(s2, k);
        lemma_as_map_at(s2, j);
        if j != i {
            assert(s2[j] == s[j]);
            lemma_as_map_at(s, j);
        }
    }
    assert(as_map(s2) =~= as_map(s).insert(t.key(), t));
}

/// Removing the record at position `i` removes its key from the map.
pub proof fn lemma_as_map_remove<T: Keyed>(s: Seq<T>, i: int)
    requires
        distinct_keys(s),
        0 <= i < s.len(),
    ensures
        distinct_keys(s.remove(i)),
        as_map(s.remove(i)) == as_map(s).remove(s[i].key()),
{
    let s2 = s.remove(i);
    assert forall|a: int, b: int| 0 <= a < b < s2.len() implies s2[a].key() != s2[b].key() by {
        let a0 = if a < i { a } else { a + 1 };
        let b0 = if b < i { b } else { b + 1 };
        assert(s2[a] == s[a0]);
        assert(s2[b] == s[b0]);
    }
    assert forall|k: Seq<char>| has_key(s2, k) <==> (has_key(s, k) && k != s[i].key()) by {
        if has_key(s2, k) {
            let j = index_of(s2, k);
            let j0 = if j < i { j } else { j + 1 };
            assert(s2[j] == s[j0]);
            assert(s[j0].key() == k);
            if j0 < i {
                assert(s[j0].key() != s[i].key());
            } else {
                assert(s[i].key() != s[j0].key());
            }
        }
        if has_key(s, k) && k != s[i].key() {
            let j = index_of(s, k);
            let j2 = if j < i { j } else { j - 1 };
            assert(s2[j2] == s[j]);
            assert(s2[j2].key() == k);
        }
    }
    assert forall|k: Seq<char>| has_key(s2, k) implies #[trigger] as_map(s2)[k] == as_map(s).remove(
        s[i].key(),
    )[k] by {
        let j = index_of(s2, k);
        let j0 = if j < i { j } else { j + 1 };
        assert(s2[j] == s[j0]);
        lemma_as_map_at(s2, j);
        lemma_as_map_at(s, j0);
    }
    assert(as_map(s2) =~= as_map(s).remove(s[i].key()));
}

/// The position of the record with key `k` in `v`, if there is one.
pub fn position<T: Keyed>(v: &Vec<T>, k: &str) -> (r: Option<usize>)
    ensures
        match r {
            Some(i) => i < v.len() && v[i as int].key() == k@,
            None => !has_key(v@, k@),
        },
{
    let mut i: usize = 0;
    while i < v.len()
        invariant
            i <= v.len(),
            forall|j: int| 0 <= j < i ==> v[j].key() != k@,
        decreases v.len() - i,
    {
        if crate::text::str_eq(v[i].key_str(), k) {
            return Some(i);
        }
        i += 1;
    }
    None
}

} // verus!
