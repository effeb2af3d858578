//! Amounts: lovelace plus native assets, and what a transaction mints.

use vstd::prelude::*;
use crate::assets::{
    as_map, distinct_keys, find, key_of, lemma_lookup_entry, lemma_lookup_witness,
    lemma_push_fresh, lookup, Asset, AssetKey,
};

verus! {

/// An asset as a codec reports it: once for each place where it occurs,
/// with the quantity locked in an output where it stands in one, and the
/// quantity minted or burned where it stands in a mint field.
#[derive(Debug)]
pub struct RawAsset {
    pub policy: Vec<u8>,
    pub name: Vec<u8>,
    /// The quantity locked in the output, for an asset of an output.
    pub output: Option<u64>,
    /// The quantity minted, or burned if negative, for a minted asset.
    pub mint: Option<i64>,
}

/// Mathematical model of [`RawAsset`].
pub struct RawAssetModel {
    pub policy: Seq<u8>,
    pub name: Seq<u8>,
    pub output: Option<u64>,
    pub mint: Option<i64>,
}

impl View for RawAsset {
    type V = RawAssetModel;

    open spec fn view(&self) -> RawAssetModel {
        RawAssetModel {
            policy: self.policy@,
            name: self.name@,
            output: self.output,
            mint: self.mint,
        }
    }
}

/// The models of a list of reported assets, in order.
pub open spec fn reported(raw: Seq<RawAsset>) -> Seq<RawAssetModel> {
    raw.map_values(|a: RawAsset| a@)
}

/// The key of a reported asset.
pub open spec fn raw_key(a: RawAssetModel) -> AssetKey {
    (a.policy, a.name)
}

/// The quantity with which a reported asset counts towards an amount:
/// what it locks in the output, unless that is nothing.
pub open spec fn locked(a: RawAssetModel) -> Option<u64> {
    match a.output {
        Some(q) => if q > 0 {
            Some(q)
        } else {
            None
        },
        None => None,
    }
}

/// The quantity with which a reported asset counts towards a mint: what it
/// mints or burns, unless that is nothing.
pub open spec fn minted(a: RawAssetModel) -> Option<i64> {
    match a.mint {
        Some(q) => if q != 0 {
            Some(q)
        } else {
            None
        },
        None => None,
    }
}

/// What a report says is locked under a key: the first entry with this key
/// that locks something decides.
pub open spec fn locked_under(raw: Seq<RawAssetModel>, k: AssetKey) -> Option<u64>
    decreases raw.len(),
{
    if raw.len() == 0 {
        None
    } else {
        match locked_under(raw.drop_last(), k) {
            Some(q) => Some(q),
            None => if raw_key(raw.last()) == k {
                locked(raw.last())
            } else {
                None
            },
        }
    }
}

/// What a report says is minted under a key: the first entry with this key
/// that mints or burns something decides.
pub open spec fn minted_under(raw: Seq<RawAssetModel>, k: AssetKey) -> Option<i64>
    decreases raw.len(),
{
    if raw.len() == 0 {
        None
    } else {
        match minted_under(raw.drop_last(), k) {
            Some(q) => Some(q),
            None => if raw_key(raw.last()) == k {
                minted(raw.last())
            } else {
                None
            },
        }
    }
}

/// The amounts that a report locks, as a mapping.
pub open spec fn locked_map(raw: Seq<RawAssetModel>) -> Map<AssetKey, u64> {
    Map::new(|k: AssetKey| locked_under(raw, k) is Some, |k: AssetKey| locked_under(raw, k)->0)
}

/// The amounts that a report mints or burns, as a mapping.
pub open spec fn minted_map(raw: Seq<RawAssetModel>) -> Map<AssetKey, i64> {
    Map::new(|k: AssetKey| minted_under(raw, k) is Some, |k: AssetKey| minted_under(raw, k)->0)
}

/// An amount: lovelace, and native assets in strictly positive quantities.
#[derive(Debug)]
pub struct Value {
    /// Lovelace.
    pub coin: u64,
    /// The native assets, each key once.
    pub multi_asset: Vec<Asset<u64>>,
}

/// Mathematical model of [`Value`].
pub struct ValueModel {
    pub coin: u64,
    pub multi_asset: Map<AssetKey, u64>,
}

impl View for Value {
    type V = ValueModel;

    open spec fn view(&self) -> ValueModel {
        ValueModel { coin: self.coin, multi_asset: as_map(self.multi_asset@) }
    }
}

/// What a transaction mints and burns: signed quantities, none of them
/// zero, each key once.
#[derive(Debug)]
pub struct Mint {
    pub assets: Vec<Asset<i64>>,
}

impl View for Mint {
    type V = Map<AssetKey, i64>;

    open spec fn view(&self) -> Map<AssetKey, i64> {
        as_map(self.assets@)
    }
}

impl Mint {
    /// No key occurs twice and no quantity is zero.
    pub open spec fn wf(&self) -> bool {
        &&& distinct_keys(self.assets@)
        &&& forall|i: int| 0 <= i < self.assets@.len() ==> (#[trigger] self.assets@[i]).quantity != 0
    }

    /// Gathers what a transaction mints from the assets reported for its
    /// mint field. Entries that mint nothing are left out.
    pub fn collect(raw: &Vec<RawAsset>) -> (mint: Mint)
        ensures
            mint.wf(),
            forall|k: AssetKey| #[trigger] lookup(mint.assets@, k) == minted_under(reported(raw@), k),
            mint@ == minted_map(reported(raw@)),
    {
        let mut assets: Vec<Asset<i64>> = Vec::new();
        let mut i: usize = 0;
        while i < raw.len()
            invariant
                i <= raw.len(),
                distinct_keys(assets@),
                forall|j: int| 0 <= j < assets@.len() ==> (#[trigger] assets@[j]).quantity != 0,
                forall|k: AssetKey|
                    #[trigger] lookup(assets@, k) == minted_under(
                        reported(raw@).take(i as int),
                        k,
                    ),
            decreases raw.len() - i,
        {
            let ghost before = assets@;
            let ghost seen = reported(raw@).take(i as int);
            let ghost next = reported(raw@).take(i + 1);
            proof {
                assert(next.drop_last() =~= seen);
                assert(next.last() == raw@[i as int]@);
            }
            let entry = &raw[i];
            match entry.mint {
                Some(q) => {
                    if q != 0 && find(&assets, &entry.policy, &entry.name).is_none() {
                        let added = Asset {
                            policy: crate::bytes::copy_bytes(&entry.policy),
                            name: crate::bytes::copy_bytes(&entry.name),
                            quantity: q,
                        };
                        proof {
                            lemma_push_fresh(before, added);
                        }
                        assets.push(added);
                    }
                },
                None => {},
            }
            proof {
                assert forall|k: AssetKey| #[trigger]
                    lookup(assets@, k) == minted_under(next, k) by {
                    assert(lookup(before, k) == minted_under(seen, k));
                }
            }
            i += 1;
        }
        let mint = Mint { assets };
        proof {
            assert(reported(raw@).take(raw.len() as int) =~= reported(raw@));
            assert(mint@ =~= minted_map(reported(raw@)));
        }
        mint
    }

    /// The quantity minted under a key, if any.
    pub fn quantity_of(&self, policy: &Vec<u8>, name: &Vec<u8>) -> (held: Option<i64>)
        ensures
            held == lookup(self.assets@, (policy@, name@)),
            held is Some == self@.contains_key((policy@, name@)),
            held matches Some(q) ==> self@[(policy@, name@)] == q,
    {
        find(&self.assets, policy, name)
    }
}

impl Value {
    /// No key occurs twice and every quantity is strictly positive.
    pub open spec fn wf(&self) -> bool {
        &&& distinct_keys(self.multi_asset@)
        &&& forall|i: int|
            0 <= i < self.multi_asset@.len() ==> (#[trigger] self.multi_asset@[i]).quantity > 0
    }

    /// An amount of lovelace alone.
    pub fn lovelace(coin: u64) -> (v: Value)
        ensures
            v.wf(),
            v.coin == coin,
            v.multi_asset@.len() == 0,
            v@.multi_asset == Map::<AssetKey, u64>::empty(),
    {
        let v = Value { coin, multi_asset: Vec::new() };
        proof {
            assert(v@.multi_asset =~= Map::<AssetKey, u64>::empty());
        }
        v
    }

    /// Gathers the amount of an output from its lovelace and the assets
    /// reported for it. Only what the output locks is counted: entries that
    /// lock nothing, such as those that only record a mint, are left out.
    pub fn collect(coin: u64, raw: &Vec<RawAsset>) -> (v: Value)
        ensures
            v.wf(),
            v.coin == coin,
            forall|k: AssetKey|
                #[trigger] lookup(v.multi_asset@, k) == locked_under(reported(raw@), k),
            v@.multi_asset == locked_map(reported(raw@)),
    {
        let mut assets: Vec<Asset<u64>> = Vec::new();
        let mut i: usize = 0;
        while i < raw.len()
            invariant
                i <= raw.len(),
                distinct_keys(assets@),
                forall|j: int| 0 <= j < assets@.len() ==> (#[trigger] assets@[j]).quantity > 0,
                forall|k: AssetKey|
                    #[trigger] lookup(assets@, k) == locked_under(
                        reported(raw@).take(i as int),
                        k,
                    ),
            decreases raw.len() - i,
        {
            let ghost before = assets@;
            let ghost seen = reported(raw@).take(i as int);
            let ghost next = reported(raw@).take(i + 1);
            proof {
                assert(next.drop_last() =~= seen);
                assert(next.last() == raw@[i as int]@);
            }
            let entry = &raw[i];
            match entry.output {
                Some(q) => {
                    if q > 0 && find(&assets, &entry.policy, &entry.name).is_none() {
                        let added = Asset {
                            policy: crate::bytes::copy_bytes(&entry.policy),
                            name: crate::bytes::copy_bytes(&entry.name),
                            quantity: q,
                        };
                        proof {
                            lemma_push_fresh(before, added);
                        }
                        assets.push(added);
                    }
                },
                None => {},
            }
            proof {
                assert forall|k: AssetKey| #[trigger]
                    lookup(assets@, k) == locked_under(next, k) by {
                    assert(lookup(before, k) == locked_under(seen, k));
                }
            }
            i += 1;
        }
        let v = Value { coin, multi_asset: assets };
        proof {
            assert(reported(raw@).take(raw.len() as int) =~= reported(raw@));
            assert(v@.multi_asset =~= locked_map(reported(raw@)));
        }
        v
    }

    /// The quantity held under a key, if any.
    pub fn quantity_of(&self, policy: &Vec<u8>, name: &Vec<u8>) -> (held: Option<u64>)
        ensures
            held == lookup(self.multi_asset@, (policy@, name@)),
            held is Some == self@.multi_asset.contains_key((policy@, name@)),
            held matches Some(q) ==> self@.multi_asset[(policy@, name@)] == q,
    {
        find(&self.multi_asset, policy, name)
    }

    /// Tells whether every asset of `self` is held by `other` in the same
    /// quantity.
    fn within(&self, other: &Value) -> (yes: bool)
        requires
            self.wf(),
        ensures
            yes == (forall|k: AssetKey|
                lookup(self.multi_asset@, k) is Some ==> #[trigger] lookup(other.multi_asset@, k)
                    == lookup(self.multi_asset@, k)),
    {
        let mut i: usize = 0;
        while i < self.multi_asset.len()
            invariant
                i <= self.multi_asset.len(),
                self.wf(),
                forall|j: int|
                    0 <= j < i ==> lookup(other.multi_asset@, key_of(#[trigger] self.multi_asset@[j]))
                        == Some(self.multi_asset@[j].quantity),
            decreases self.multi_asset.len() - i,
        {
            let entry = &self.multi_asset[i];
            let held = find(&other.multi_asset, &entry.policy, &entry.name);
            let matches = match held {
                Some(q) => q == entry.quantity,
                None => false,
            };
            if !matches {
                proof {
                    lemma_lookup_entry(self.multi_asset@, i as int);
                }
                return false;
            }
            i += 1;
        }
        proof {
            assert forall|k: AssetKey| lookup(self.multi_asset@, k) is Some implies #[trigger] lookup(
                other.multi_asset@,
                k,
            ) == lookup(self.multi_asset@, k) by {
                let at = lemma_lookup_witness(self.multi_asset@, k);
                assert(key_of(self.multi_asset@[at]) == k);
            }
        }
        true
    }

    /// Tells whether two amounts are the same: the same lovelace and the
    /// same quantity of every asset, in whatever order they are listed.
    pub fn same(&self, other: &Value) -> (same: bool)
        requires
            self.wf(),
            other.wf(),
        ensures
            same == (self@ == other@),
    {
        let same = self.coin == other.coin && self.within(other) && other.within(self);
        proof {
            let a = self.multi_asset@;
            let b = other.multi_asset@;
            if same {
                assert forall|k: AssetKey| lookup(a, k) == lookup(b, k) by {
                    if lookup(a, k) is Some {
                    } else if lookup(b, k) is Some {
                        assert(lookup(a, k) == lookup(b, k));
                    }
                }
                assert(as_map(a) =~= as_map(b));
            }
            if self@ == other@ {
                assert forall|k: AssetKey| lookup(a, k) == lookup(b, k) by {
                    assert(as_map(a).contains_key(k) == as_map(b).contains_key(k));
                    if lookup(a, k) is Some {
                        assert(as_map(a)[k] == as_map(b)[k]);
                    }
                }
            }
        }
        same
    }
}

/// Every asset that an amount holds, it holds in a strictly positive
/// quantity.
pub proof fn lemma_value_quantities_positive(v: Value, k: AssetKey)
    requires
        v.wf(),
        v@.multi_asset.contains_key(k),
    ensures
        v@.multi_asset[k] > 0,
{
    let at = lemma_lookup_witness(v.multi_asset@, k);
    assert(v.multi_asset@[at].quantity > 0);
}

/// Every asset that a transaction mints, it mints or burns in a quantity
/// other than zero.
pub proof fn lemma_mint_quantities_nonzero(m: Mint, k: AssetKey)
    requires
        m.wf(),
        m@.contains_key(k),
    ensures
        m@[k] != 0,
{
    let at = lemma_lookup_witness(m.assets@, k);
    assert(m.assets@[at].quantity != 0);
}

/// Whatever a report locks under a key, it locks in a strictly positive
/// quantity.
pub proof fn lemma_locked_positive(raw: Seq<RawAssetModel>, k: AssetKey)
    requires
        locked_under(raw, k) is Some,
    ensures
        locked_under(raw, k)->0 > 0,
    decreases raw.len(),
{
    if raw.len() > 0 && locked_under(raw.drop_last(), k) is Some {
        lemma_locked_positive(raw.drop_last(), k);
    }
}

/// Whatever a report mints under a key, it mints or burns in a quantity
/// other than zero.
pub proof fn lemma_minted_nonzero(raw: Seq<RawAssetModel>, k: AssetKey)
    requires
        minted_under(raw, k) is Some,
    ensures
        minted_under(raw, k)->0 != 0,
    decreases raw.len(),
{
    if raw.len() > 0 && minted_under(raw.drop_last(), k) is Some {
        lemma_minted_nonzero(raw.drop_last(), k);
    }
}

} // verus!
