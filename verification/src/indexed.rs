use vstd::prelude::*;

verus! {

// The generators and the intermediate model keep their properties in the
// insertion-ordered maps and sets of the `indexmap` crate.  The types are
// declared here so that they can stand in fields and signatures; what a
// particular map or set holds is named where it is used (see the model and
// the two generator modules).

/// Declares indexmap::IndexMap, the insertion-ordered map.
#[verifier::external_type_specification]
#[verifier::external_body]
#[verifier::reject_recursive_types(K)]
#[verifier::reject_recursive_types(V)]
#[verifier::reject_recursive_types(S)]
pub struct ExIndexMap<K, V, S>(indexmap::IndexMap<K, V, S>);

/// Declares indexmap::IndexSet, the insertion-ordered set.
#[verifier::external_type_specification]
#[verifier::external_body]
#[verifier::reject_recursive_types(T)]
#[verifier::reject_recursive_types(S)]
pub struct ExIndexSet<T, S>(indexmap::IndexSet<T, S>);

/// Whether some entry of `s` bears the key `k`.
pub open spec fn has_key<V>(s: Seq<(Seq<char>, V)>, k: Seq<char>) -> bool {
    exists|i: int| 0 <= i < s.len() && s[i].0 == k
}

/// The position of the first entry of `s` bearing the key `k` (the length
/// of `s` when no entry does).
pub open spec fn key_index<V>(s: Seq<(Seq<char>, V)>, k: Seq<char>) -> int
    decreases s.len(),
{
    if s.len() == 0 {
        0
    } else if s[0].0 == k {
        0
    } else {
        1 + key_index(s.drop_first(), k)
    }
}

/// One insertion into an ordered sequence of keyed entries, as the maps of
/// `indexmap` perform it: a key already present keeps its place and has its
/// value replaced; a new key goes last.
pub open spec fn map_insert<V>(s: Seq<(Seq<char>, V)>, k: Seq<char>, v: V) -> Seq<(Seq<char>, V)> {
    if has_key(s, k) {
        s.update(key_index(s, k), (k, v))
    } else {
        s.push((k, v))
    }
}

/// One insertion into an ordered sequence of distinct texts, as the sets of
/// `indexmap` perform it: a text already present keeps its place; a new one
/// goes last.
pub open spec fn set_push(s: Seq<Seq<char>>, v: Seq<char>) -> Seq<Seq<char>> {
    if s.contains(v) {
        s
    } else {
        s.push(v)
    }
}

/// Whether no two entries bear the same key.
pub open spec fn keys_unique<V>(s: Seq<(Seq<char>, V)>) -> bool {
    forall|i: int, j: int| 0 <= i < j < s.len() ==> s[i].0 != s[j].0
}

proof fn lemma_key_index_finds<V>(s: Seq<(Seq<char>, V)>, k: Seq<char>)
    requires
        has_key(s, k),
    ensures
        0 <= key_index(s, k) < s.len(),
        s[key_index(s, k)].0 == k,
    decreases s.len(),
{
    if s[0].0 == k {
    } else {
        let i = choose|i: int| 0 <= i < s.len() && s[i].0 == k;
        assert(s.drop_first()[i - 1].0 == k);
        lemma_key_index_finds(s.drop_first(), k);
    }
}

/// Inserting never makes a duplicate key: a present key is replaced in
/// place, an absent one appears once, last.
pub proof fn lemma_map_insert_keys_unique<V>(s: Seq<(Seq<char>, V)>, k: Seq<char>, v: V)
    requires
        keys_unique(s),
    ensures
        keys_unique(map_insert(s, k, v)),
{
    if has_key(s, k) {
        lemma_key_index_finds(s, k);
        let t = s.update(key_index(s, k), (k, v));
        assert forall|i: int, j: int| 0 <= i < j < t.len() implies t[i].0 != t[j].0 by {
            assert(s[i].0 != s[j].0);
        }
    } else {
        let t = s.push((k, v));
        assert forall|i: int, j: int| 0 <= i < j < t.len() implies t[i].0 != t[j].0 by {
            if j == s.len() {
                assert(!(exists|n: int| 0 <= n < s.len() && s[n].0 == k));
                assert(s[i].0 != k);
            } else {
                assert(s[i].0 != s[j].0);
            }
        }
    }
}

} // verus!
