//! The domain model: blocks, transactions and outputs in one shape for
//! every era.
//!
//! Each value is decoded from bytes and keeps them in its `raw` field, so
//! that decoding those bytes again gives the same value.

use vstd::prelude::*;
use crate::assets::AssetKey;
use crate::bytes::{byte_lists, copy_bytes};
use crate::codec::{block_reencoding, header_point, locate_header, HASH_BYTES};
use crate::era::Era;
use crate::inputs::{dedup_inputs, lemma_unique, refs, unique, TransactionInput};
use crate::ledger::{
    block_header_place, block_transactions, datum_model, decode_block_header,
    decode_block_transactions, decode_output_address, decode_output_assets, decode_output_coin,
    decode_output_datum,
    decode_tx_id, decode_tx_inputs, decode_tx_mint, decode_tx_outputs, decode_tx_redeemers,
    output_address, output_assets, output_coin, output_datum, read_refs, redeemer_models, tx_id, tx_inputs,
    tx_mint, tx_outputs, tx_redeemers, Datum, DatumModel, Redeemer, RedeemerModel,
};
use crate::value::{
    lemma_locked_positive, lemma_minted_nonzero, locked_map, minted_map, Mint, Value, ValueModel,
};

verus! {

/// An output of a transaction.
#[derive(Debug)]
pub struct TransactionOutput {
    /// The address that holds the output, as the raw bytes that the
    /// output carries.
    pub address: Vec<u8>,
    /// What the output locks.
    pub amount: Value,
    /// Position of the output in its transaction.
    pub index: u64,
    /// The datum attached to the output.
    pub datum: Option<Datum>,
    /// The output, encoded.
    pub raw: Vec<u8>,
}

/// Mathematical model of [`TransactionOutput`].
pub struct OutputModel {
    pub address: Seq<u8>,
    pub amount: ValueModel,
    pub index: u64,
    pub datum: Option<DatumModel>,
    pub raw: Seq<u8>,
}

impl View for TransactionOutput {
    type V = OutputModel;

    open spec fn view(&self) -> OutputModel {
        OutputModel {
            address: self.address@,
            amount: self.amount@,
            index: self.index,
            datum: datum_model(self.datum),
            raw: self.raw@,
        }
    }
}

/// The models of a list of outputs, in order.
pub open spec fn output_models(outputs: Seq<TransactionOutput>) -> Seq<OutputModel> {
    outputs.map_values(|o: TransactionOutput| o@)
}

/// The output that the bytes `raw` encode in era `era`, standing at
/// position `index`. Its amount counts only what the output locks, in
/// strictly positive quantities.
pub open spec fn output_of(era: Era, raw: Seq<u8>, index: u64) -> Option<OutputModel> {
    let w = era.spec_wire_id();
    match (output_address(w, raw), output_coin(w, raw), output_assets(w, raw), output_datum(w, raw)) {
        (Some(address), Some(coin), Some(assets), Some(datum)) => Some(
            OutputModel {
                address,
                amount: ValueModel { coin, multi_asset: locked_map(assets) },
                index,
                datum,
                raw,
            },
        ),
        _ => None,
    }
}

impl TransactionOutput {
    /// The amount is well formed.
    pub open spec fn wf(&self) -> bool {
        self.amount.wf()
    }

    /// Decodes the output that `raw` encodes in era `era`.
    pub fn decode(era: Era, raw: Vec<u8>, index: u64) -> (output: Option<TransactionOutput>)
        ensures
            match output {
                Some(o) => o.wf() && output_of(era, raw@, index) == Some(o@),
                None => output_of(era, raw@, index) is None,
            },
    {
        let w = era.wire_id();
        let address = match decode_output_address(w, raw.as_slice()) {
            Some(address) => address,
            None => {
                return None;
            },
        };
        let coin = match decode_output_coin(w, raw.as_slice()) {
            Some(coin) => coin,
            None => {
                return None;
            },
        };
        let assets = match decode_output_assets(w, raw.as_slice()) {
            Some(assets) => assets,
            None => {
                return None;
            },
        };
        let datum = match decode_output_datum(w, raw.as_slice()) {
            Some(datum) => datum,
            None => {
                return None;
            },
        };
        let amount = Value::collect(coin, &assets);
        Some(TransactionOutput { address, amount, index, datum, raw })
    }
}

/// The elements of a list that are present, in order.
pub open spec fn present<T>(s: Seq<Option<T>>) -> Seq<T>
    decreases s.len(),
{
    if s.len() == 0 {
        Seq::empty()
    } else {
        match s.last() {
            Some(x) => present(s.drop_last()).push(x),
            None => present(s.drop_last()),
        }
    }
}

/// Keeps the inputs that could be read.
pub fn present_inputs(read: &Vec<Option<TransactionInput>>) -> (kept: Vec<TransactionInput>)
    ensures
        refs(kept@) == present(read_refs(read@)),
{
    let mut kept: Vec<TransactionInput> = Vec::new();
    let mut i: usize = 0;
    proof {
        assert(refs(kept@) =~= present(read_refs(read@).take(0)));
    }
    while i < read.len()
        invariant
            i <= read.len(),
            refs(kept@) == present(read_refs(read@).take(i as int)),
        decreases read.len() - i,
    {
        let ghost before = kept@;
        let ghost next = read_refs(read@).take(i + 1);
        proof {
            assert(next.drop_last() =~= read_refs(read@).take(i as int));
        }
        match &read[i] {
            Some(input) => {
                let copy = input.duplicate();
                kept.push(copy);
                proof {
                    assert(next.last() == Some(copy@));
                    assert(refs(kept@) =~= refs(before).push(copy@));
                }
            },
            None => {
                proof {
                    assert(next.last() is None);
                }
            },
        }
        i += 1;
    }
    proof {
        assert(read_refs(read@).take(read.len() as int) =~= read_refs(read@));
    }
    kept
}

/// A transaction.
#[derive(Debug)]
pub struct TransactionBody {
    /// The id of the transaction.
    pub id: Vec<u8>,
    /// The tag of its era.
    pub era: u16,
    /// Position of the transaction in its block.
    pub index: u64,
    /// The outputs it spends, each once.
    pub inputs: Vec<TransactionInput>,
    /// The outputs it makes.
    pub outputs: Vec<TransactionOutput>,
    /// What it mints and burns.
    pub mint: Mint,
    /// Its metadata as JSON text, empty where it has none.
    pub metadata: String,
    /// Its redeemers.
    pub redeemers: Vec<Redeemer>,
    /// The transaction, encoded.
    pub raw: Vec<u8>,
}

/// Mathematical model of [`TransactionBody`].
pub struct TransactionModel {
    pub id: Seq<u8>,
    pub era: u16,
    pub index: u64,
    pub inputs: Seq<(Seq<u8>, u64)>,
    pub outputs: Seq<OutputModel>,
    pub mint: Map<AssetKey, i64>,
    pub metadata: Seq<char>,
    pub redeemers: Seq<RedeemerModel>,
    pub raw: Seq<u8>,
}

impl View for TransactionBody {
    type V = TransactionModel;

    open spec fn view(&self) -> TransactionModel {
        TransactionModel {
            id: self.id@,
            era: self.era,
            index: self.index,
            inputs: refs(self.inputs@),
            outputs: output_models(self.outputs@),
            mint: self.mint@,
            metadata: self.metadata@,
            redeemers: redeemer_models(self.redeemers@),
            raw: self.raw@,
        }
    }
}

/// The models of a list of transactions, in order.
pub open spec fn transaction_models(txs: Seq<TransactionBody>) -> Seq<TransactionModel> {
    txs.map_values(|t: TransactionBody| t@)
}

/// The characters of a JSON text that may be absent.
pub open spec fn json_text(json: Option<String>) -> Option<Seq<char>> {
    match json {
        Some(text) => Some(text@),
        None => None,
    }
}

/// The metadata that a transaction of era `era` shows, given the JSON text
/// that was made of its auxiliary data where that has the supported shape:
/// that text, or nothing where there is none or the era is Byron.
pub open spec fn metadata_text(era: Era, json: Option<Seq<char>>) -> Seq<char> {
    match json {
        Some(text) => if era == Era::Byron {
            Seq::empty()
        } else {
            text
        },
        None => Seq::empty(),
    }
}

/// The redeemers that a transaction of era `era` shows: those it carries,
/// or none where the era has no scripts.
pub open spec fn redeemers_shown(era: Era, carried: Seq<RedeemerModel>) -> Seq<RedeemerModel> {
    if era.spec_tag() >= 4 {
        carried
    } else {
        Seq::empty()
    }
}

/// Every one of the encoded outputs decodes.
pub open spec fn outputs_decode(era: Era, raws: Seq<Seq<u8>>) -> bool {
    forall|i: int| 0 <= i < raws.len() ==> (#[trigger] output_of(era, raws[i], i as u64)) is Some
}

/// The transaction that the bytes `raw` encode in era `era`, standing at
/// position `index` of its block.
pub open spec fn body_of(era: Era, raw: Seq<u8>, index: u64, json: Option<Seq<char>>) -> Option<
    TransactionModel,
> {
    let w = era.spec_wire_id();
    match (tx_id(w, raw), tx_inputs(w, raw), tx_outputs(w, raw), tx_mint(w, raw), tx_redeemers(w, raw)) {
        (Some(id), Some(inputs), Some(outputs), Some(mint), Some(redeemers)) => {
            if outputs_decode(era, outputs) {
                Some(
                    TransactionModel {
                        id,
                        era: era.spec_tag(),
                        index,
                        inputs: unique(present(inputs)),
                        outputs: Seq::new(
                            outputs.len(),
                            |i: int| output_of(era, outputs[i], i as u64)->0,
                        ),
                        mint: minted_map(mint),
                        metadata: metadata_text(era, json),
                        redeemers: redeemers_shown(era, redeemers),
                        raw,
                    },
                )
            } else {
                None
            }
        },
        _ => None,
    }
}

/// Decodes every output of a transaction.
pub fn decode_outputs(era: Era, raws: &Vec<Vec<u8>>) -> (outputs: Option<Vec<TransactionOutput>>)
    ensures
        match outputs {
            Some(outs) => {
                &&& outputs_decode(era, byte_lists(raws@))
                &&& outs@.len() == raws@.len()
                &&& forall|i: int| 0 <= i < outs@.len() ==> (#[trigger] outs@[i]).wf()
                &&& output_models(outs@) == Seq::new(
                    raws@.len(),
                    |i: int| output_of(era, byte_lists(raws@)[i], i as u64)->0,
                )
            },
            None => !outputs_decode(era, byte_lists(raws@)),
        },
{
    let ghost all = byte_lists(raws@);
    let mut outs: Vec<TransactionOutput> = Vec::new();
    let mut i: usize = 0;
    while i < raws.len()
        invariant
            i <= raws.len(),
            all == byte_lists(raws@),
            outs@.len() == i,
            forall|j: int| 0 <= j < i ==> (#[trigger] outs@[j]).wf(),
            forall|j: int|
                0 <= j < i ==> (#[trigger] output_of(era, all[j], j as u64)) == Some(outs@[j]@),
        decreases raws.len() - i,
    {
        match TransactionOutput::decode(era, copy_bytes(&raws[i]), i as u64) {
            Some(o) => {
                outs.push(o);
            },
            None => {
                proof {
                    assert(output_of(era, all[i as int], i as u64) is None);
                }
                return None;
            },
        }
        i += 1;
    }
    proof {
        assert(output_models(outs@) =~= Seq::new(
            raws@.len(),
            |i: int| output_of(era, all[i], i as u64)->0,
        ));
    }
    Some(outs)
}

impl TransactionBody {
    /// Inputs occur once each, and the amounts are well formed.
    pub open spec fn wf(&self) -> bool {
        &&& refs(self.inputs@).no_duplicates()
        &&& self.mint.wf()
        &&& forall|i: int| 0 <= i < self.outputs@.len() ==> (#[trigger] self.outputs@[i]).wf()
    }

    /// Decodes the transaction that `raw` encodes in era `era`. `json` is
    /// what a JSON encoder made of the transaction's auxiliary data, where
    /// that has the shape of Alonzo-compatible metadata.
    pub fn decode(era: Era, raw: Vec<u8>, index: u64, json: Option<String>) -> (body: Option<
        TransactionBody,
    >)
        ensures
            match body {
                Some(t) => {
                    &&& t.wf()
                    &&& body_of(era, raw@, index, json_text(json)) == Some(t@)
                    &&& t.id@.len() == HASH_BYTES
                },
                None => body_of(era, raw@, index, json_text(json)) is None,
            },
    {
        let w = era.wire_id();
        let id = match decode_tx_id(w, raw.as_slice()) {
            Some(id) => id,
            None => {
                return None;
            },
        };
        let read = match decode_tx_inputs(w, raw.as_slice()) {
            Some(read) => read,
            None => {
                return None;
            },
        };
        let encoded = match decode_tx_outputs(w, raw.as_slice()) {
            Some(encoded) => encoded,
            None => {
                return None;
            },
        };
        let minted = match decode_tx_mint(w, raw.as_slice()) {
            Some(minted) => minted,
            None => {
                return None;
            },
        };
        let carried = match decode_tx_redeemers(w, raw.as_slice()) {
            Some(carried) => carried,
            None => {
                return None;
            },
        };
        let outputs = match decode_outputs(era, &encoded) {
            Some(outputs) => outputs,
            None => {
                return None;
            },
        };
        let inputs = dedup_inputs(&present_inputs(&read));
        let mint = Mint::collect(&minted);
        let metadata = match json {
            Some(text) => {
                match era {
                    Era::Byron => String::new(),
                    _ => text,
                }
            },
            None => String::new(),
        };
        let redeemers = if era.has_scripts() {
            carried
        } else {
            Vec::new()
        };
        proof {
            if !(era.spec_tag() >= 4) {
                assert(redeemer_models(redeemers@) =~= Seq::<RedeemerModel>::empty());
            }
        }
        Some(
            TransactionBody {
                id,
                era: era.tag(),
                index,
                inputs,
                outputs,
                mint,
                metadata,
                redeemers,
                raw,
            },
        )
    }
}

/// A block.
#[derive(Debug)]
pub struct Block {
    /// The slot of the block.
    pub slot: u64,
    /// The hash of its header.
    pub hash: Vec<u8>,
    /// Its number: the length of the chain up to it.
    pub number: u64,
    /// Its transactions, in the order in which they settle.
    pub transaction_bodies: Vec<TransactionBody>,
}

/// Mathematical model of [`Block`].
pub struct BlockModel {
    pub slot: u64,
    pub hash: Seq<u8>,
    pub number: u64,
    pub transaction_bodies: Seq<TransactionModel>,
}

impl View for Block {
    type V = BlockModel;

    open spec fn view(&self) -> BlockModel {
        BlockModel {
            slot: self.slot,
            hash: self.hash@,
            number: self.number,
            transaction_bodies: transaction_models(self.transaction_bodies@),
        }
    }
}

/// The JSON texts that go with the transactions of a block, by position.
pub open spec fn json_texts(json: Seq<Option<String>>) -> Seq<Option<Seq<char>>> {
    json.map_values(|j: Option<String>| json_text(j))
}

/// The JSON text that goes with the transaction at position `i`, if one
/// was given for it.
pub open spec fn json_at(json: Seq<Option<Seq<char>>>, i: int) -> Option<Seq<char>> {
    if 0 <= i < json.len() {
        json[i]
    } else {
        None
    }
}

/// Every one of the encoded transactions decodes.
pub open spec fn bodies_decode(era: Era, raws: Seq<Seq<u8>>, json: Seq<Option<Seq<char>>>) -> bool {
    forall|i: int|
        0 <= i < raws.len() ==> (#[trigger] body_of(era, raws[i], i as u64, json_at(json, i)))
            is Some
}

/// The block that the era-tagged bytes `bytes` encode.
pub open spec fn block_of(bytes: Seq<u8>, json: Seq<Option<Seq<char>>>) -> Option<BlockModel> {
    match (header_point(block_header_place(bytes)), block_transactions(bytes)) {
        (Some((slot, hash)), Some((wire, number, txs))) => {
            let era = Era::spec_from_wire_id(wire);
            if bodies_decode(era, txs, json) {
                Some(
                    BlockModel {
                        slot,
                        hash,
                        number,
                        transaction_bodies: Seq::new(
                            txs.len(),
                            |i: int| body_of(era, txs[i], i as u64, json_at(json, i))->0,
                        ),
                    },
                )
            } else {
                None
            }
        },
        _ => None,
    }
}

impl Block {
    /// Every transaction is well formed.
    pub open spec fn wf(&self) -> bool {
        forall|i: int|
            0 <= i < self.transaction_bodies@.len() ==> (#[trigger] self.transaction_bodies@[i]).wf()
    }

    /// Decodes the block that the era-tagged bytes `bytes` encode. `json`
    /// holds, by position, what a JSON encoder made of each transaction's
    /// metadata; positions past its end count as holding none.
    pub fn decode(bytes: &Vec<u8>, json: &Vec<Option<String>>) -> (block: Option<Block>)
        ensures
            match block {
                Some(b) => {
                    &&& b.wf()
                    &&& block_of(bytes@, json_texts(json@)) == Some(b@)
                    &&& b.hash@.len() == HASH_BYTES
                    &&& !(block_reencoding(bytes@) is Malformed)
                },
                None => block_of(bytes@, json_texts(json@)) is None,
            },
    {
        let point = match locate_header(decode_block_header(bytes.as_slice())) {
            Some(point) => point,
            None => {
                return None;
            },
        };
        let (wire, number, txs) = match decode_block_transactions(bytes.as_slice()) {
            Some(parts) => parts,
            None => {
                return None;
            },
        };
        let era = Era::from_wire_id(wire);
        let ghost all = byte_lists(txs@);
        let ghost texts = json_texts(json@);
        let mut bodies: Vec<TransactionBody> = Vec::new();
        let mut i: usize = 0;
        while i < txs.len()
            invariant
                i <= txs.len(),
                all == byte_lists(txs@),
                texts == json_texts(json@),
                era == Era::spec_from_wire_id(wire),
                block_transactions(bytes@) == Some((wire, number, all)),
                bodies@.len() == i,
                forall|j: int| 0 <= j < i ==> (#[trigger] bodies@[j]).wf(),
                forall|j: int|
                    0 <= j < i ==> (#[trigger] body_of(era, all[j], j as u64, json_at(texts, j)))
                        == Some(bodies@[j]@),
            decreases txs.len() - i,
        {
            let text = if i < json.len() {
                json[i].clone()
            } else {
                None
            };
            proof {
                assert(json_text(text) == json_at(texts, i as int));
            }
            match TransactionBody::decode(era, copy_bytes(&txs[i]), i as u64, text) {
                Some(body) => {
                    bodies.push(body);
                },
                None => {
                    proof {
                        assert(body_of(era, all[i as int], i as u64, json_at(texts, i as int))
                            is None);
                    }
                    return None;
                },
            }
            i += 1;
        }
        proof {
            assert(transaction_models(bodies@) =~= Seq::new(
                txs@.len(),
                |i: int| body_of(era, all[i], i as u64, json_at(texts, i))->0,
            ));
        }
        Some(Block { slot: point.slot, hash: point.hash, number, transaction_bodies: bodies })
    }
}

/// A decoded output keeps the bytes it was decoded from, and decoding
/// those bytes again gives the same output.
pub proof fn lemma_output_round_trip(era: Era, raw: Seq<u8>, index: u64)
    requires
        output_of(era, raw, index) is Some,
    ensures
        ({
            let o = output_of(era, raw, index)->0;
            o.raw == raw && o.index == index && output_of(era, o.raw, o.index) == Some(o)
        }),
{
}

/// A decoded transaction keeps the bytes it was decoded from, and decoding
/// those bytes again, with the same metadata text or with the text that
/// the transaction shows, gives the same transaction.
pub proof fn lemma_transaction_round_trip(
    era: Era,
    raw: Seq<u8>,
    index: u64,
    json: Option<Seq<char>>,
)
    requires
        body_of(era, raw, index, json) is Some,
    ensures
        ({
            let t = body_of(era, raw, index, json)->0;
            &&& t.raw == raw
            &&& t.index == index
            &&& body_of(era, t.raw, t.index, json) == Some(t)
            &&& body_of(era, t.raw, t.index, Some(t.metadata)) == Some(t)
        }),
{
}

/// Every asset in the amount of a decoded output is held in a strictly
/// positive quantity: what an output does not lock is not listed.
pub proof fn lemma_output_quantities_positive(era: Era, raw: Seq<u8>, index: u64, k: AssetKey)
    requires
        output_of(era, raw, index) is Some,
        output_of(era, raw, index)->0.amount.multi_asset.contains_key(k),
    ensures
        output_of(era, raw, index)->0.amount.multi_asset[k] > 0,
{
    let assets = output_assets(era.spec_wire_id(), raw)->0;
    lemma_locked_positive(assets, k);
}

/// A decoded transaction lists no input twice, and every asset of its mint
/// field in a quantity other than zero.
pub proof fn lemma_transaction_well_formed(
    era: Era,
    raw: Seq<u8>,
    index: u64,
    json: Option<Seq<char>>,
    k: AssetKey,
)
    requires
        body_of(era, raw, index, json) is Some,
    ensures
        body_of(era, raw, index, json)->0.inputs.no_duplicates(),
        body_of(era, raw, index, json)->0.mint.contains_key(k) ==> body_of(
            era,
            raw,
            index,
            json,
        )->0.mint[k] != 0,
        body_of(era, raw, index, json)->0.era == era.spec_tag(),
{
    let w = era.spec_wire_id();
    lemma_unique(present(tx_inputs(w, raw)->0));
    if minted_map(tx_mint(w, raw)->0).contains_key(k) {
        lemma_minted_nonzero(tx_mint(w, raw)->0, k);
    }
}

/// A decoded Byron transaction carries the tag zero, shows no metadata and
/// has no redeemers.
pub proof fn lemma_byron_transaction(raw: Seq<u8>, index: u64, json: Option<Seq<char>>)
    requires
        body_of(Era::Byron, raw, index, json) is Some,
    ensures
        ({
            let t = body_of(Era::Byron, raw, index, json)->0;
            &&& t.era == 0
            &&& t.metadata == Seq::<char>::empty()
            &&& t.redeemers == Seq::<RedeemerModel>::empty()
        }),
{
}

} // verus!
