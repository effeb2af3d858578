//! Native assets: quantities keyed by minting policy and asset name.
//!
//! A bundle of assets is kept as a list in which no key occurs twice, and
//! stands for the mapping from keys to quantities. The order of the list
//! carries no meaning.

use vstd::prelude::*;
use crate::bytes::bytes_equal;

verus! {

/// A quantity of one asset.
#[derive(Debug)]
pub struct Asset<Q> {
    /// The minting policy of the asset.
    pub policy: Vec<u8>,
    /// The name of the asset under its policy.
    pub name: Vec<u8>,
    /// How much of it.
    pub quantity: Q,
}

/// What names an asset: its policy and its name.
pub type AssetKey = (Seq<u8>, Seq<u8>);

/// The key of an entry.
pub open spec fn key_of<Q>(a: Asset<Q>) -> AssetKey {
    (a.policy@, a.name@)
}

/// The quantity that a list holds under a key: that of the first entry
/// with this key, if there is one.
pub open spec fn lookup<Q>(s: Seq<Asset<Q>>, k: AssetKey) -> Option<Q>
    decreases s.len(),
{
    if s.len() == 0 {
        None
    } else {
        match lookup(s.drop_last(), k) {
            Some(q) => Some(q),
            None => if key_of(s.last()) == k {
                Some(s.last().quantity)
            } else {
                None
            },
        }
    }
}

/// No key occurs twice in the list.
pub open spec fn distinct_keys<Q>(s: Seq<Asset<Q>>) -> bool {
    forall|i: int, j: int| 0 <= i < j < s.len() ==> key_of(#[trigger] s[i]) != key_of(#[trigger] s[j])
}

/// The mapping that a list stands for.
pub open spec fn as_map<Q>(s: Seq<Asset<Q>>) -> Map<AssetKey, Q> {
    Map::new(|k: AssetKey| lookup(s, k) is Some, |k: AssetKey| lookup(s, k)->0)
}

/// A key that no entry carries is not held.
pub proof fn lemma_lookup_absent<Q>(s: Seq<Asset<Q>>, k: AssetKey)
    requires
        forall|i: int| 0 <= i < s.len() ==> key_of(#[trigger] s[i]) != k,
    ensures
        lookup(s, k) is None,
    decreases s.len(),
{
    if s.len() > 0 {
        let front = s.drop_last();
        assert forall|i: int| 0 <= i < front.len() implies key_of(#[trigger] front[i]) != k by {
            assert(front[i] == s[i]);
        }
        lemma_lookup_absent(front, k);
    }
}

/// The first entry with a key decides what is held under it.
pub proof fn lemma_lookup_first<Q>(s: Seq<Asset<Q>>, k: AssetKey, at: int)
    requires
        0 <= at < s.len(),
        key_of(s[at]) == k,
        forall|i: int| 0 <= i < at ==> key_of(#[trigger] s[i]) != k,
    ensures
        lookup(s, k) == Some(s[at].quantity),
    decreases s.len(),
{
    let front = s.drop_last();
    if at == s.len() - 1 {
        assert forall|i: int| 0 <= i < front.len() implies key_of(#[trigger] front[i]) != k by {
            assert(front[i] == s[i]);
        }
        lemma_lookup_absent(front, k);
    } else {
        assert(front[at] == s[at]);
        assert forall|i: int| 0 <= i < at implies key_of(#[trigger] front[i]) != k by {
            assert(front[i] == s[i]);
        }
        lemma_lookup_first(front, k, at);
    }
}

/// Whatever is held under a key is the quantity of an entry with that key.
pub proof fn lemma_lookup_witness<Q>(s: Seq<Asset<Q>>, k: AssetKey) -> (at: int)
    requires
        lookup(s, k) is Some,
    ensures
        0 <= at < s.len(),
        key_of(s[at]) == k,
        lookup(s, k) == Some(s[at].quantity),
    decreases s.len(),
{
    let front = s.drop_last();
    if lookup(front, k) is Some {
        let at = lemma_lookup_witness(front, k);
        assert(front[at] == s[at]);
        at
    } else {
        s.len() - 1
    }
}

/// In a list without repeated keys every entry is what is held under its
/// key.
pub proof fn lemma_lookup_entry<Q>(s: Seq<Asset<Q>>, at: int)
    requires
        distinct_keys(s),
        0 <= at < s.len(),
    ensures
        lookup(s, key_of(s[at])) == Some(s[at].quantity),
{
    lemma_lookup_first(s, key_of(s[at]), at);
}

/// Adding an entry under a new key keeps the keys distinct and changes
/// only what is held under that key.
pub proof fn lemma_push_fresh<Q>(s: Seq<Asset<Q>>, a: Asset<Q>)
    requires
        distinct_keys(s),
        lookup(s, key_of(a)) is None,
    ensures
        distinct_keys(s.push(a)),
        forall|k: AssetKey|
            #[trigger] lookup(s.push(a), k) == if k == key_of(a) {
                Some(a.quantity)
            } else {
                lookup(s, k)
            },
{
    let t = s.push(a);
    assert(t.drop_last() =~= s);
    assert forall|i: int, j: int| 0 <= i < j < t.len() implies key_of(#[trigger] t[i]) != key_of(
        #[trigger] t[j],
    ) by {
        if j == s.len() {
            if key_of(t[i]) == key_of(a) {
                assert(t[i] == s[i]);
                lemma_has_key_is_held(s, key_of(a), i);
            }
        } else {
            assert(t[i] == s[i]);
            assert(t[j] == s[j]);
        }
    }
}

/// A key that some entry carries is held.
pub proof fn lemma_has_key_is_held<Q>(s: Seq<Asset<Q>>, k: AssetKey, at: int)
    requires
        0 <= at < s.len(),
        key_of(s[at]) == k,
    ensures
        lookup(s, k) is Some,
    decreases s.len(),
{
    let front = s.drop_last();
    if at < s.len() - 1 {
        assert(front[at] == s[at]);
        lemma_has_key_is_held(front, k, at);
    }
}

/// Finds what a list holds under a key.
pub fn find<Q: Copy>(entries: &Vec<Asset<Q>>, policy: &Vec<u8>, name: &Vec<u8>) -> (held: Option<Q>)
    ensures
        held == lookup(entries@, (policy@, name@)),
{
    let ghost k: AssetKey = (policy@, name@);
    let mut i: usize = 0;
    while i < entries.len()
        invariant
            i <= entries.len(),
            k == (policy@, name@),
            forall|j: int| 0 <= j < i ==> key_of(#[trigger] entries@[j]) != k,
        decreases entries.len() - i,
    {
        if bytes_equal(&entries[i].policy, policy) && bytes_equal(&entries[i].name, name) {
            proof {
                lemma_lookup_first(entries@, k, i as int);
            }
            return Some(entries[i].quantity);
        }
        i += 1;
    }
    proof {
        lemma_lookup_absent(entries@, k);
    }
    None
}

} // verus!
