//! Reading blocks and transactions apart.
//!
//! The `pallas` crates decode the ledger's CBOR. Each function here hands
//! bytes to them and brings back one aspect of what they decoded, as plain
//! values. What the decoders return is not proved here: each result is
//! given a name, and the decoders of the domain model are stated over those
//! names.
//!
//! Eras are passed as the numbers under which `pallas` knows them, which
//! count from one for Byron.

use vstd::prelude::*;
use crate::bytes::byte_lists;
use crate::codec::{
    block_reencoding, hash_sized, HeaderPlace, HeaderPlaceModel, HASH_BYTES,
};
use crate::inputs::TransactionInput;
use crate::value::{reported, RawAsset, RawAssetModel};
use pallas::codec::minicbor::to_vec;
use pallas::codec::utils::CborWrap;
use pallas::ledger::primitives::babbage::TransactionOutput as BabbageOutput;
use pallas::ledger::primitives::byron::TxIn;
use pallas::ledger::primitives::conway::TransactionOutput as ConwayOutput;
use pallas::ledger::primitives::conway::{DatumOption, RedeemerTag as WireTag};
use pallas::ledger::traverse;
use pallas::ledger::traverse::{
    MultiEraAsset, MultiEraBlock, MultiEraHeader, MultiEraInput, MultiEraOutput, MultiEraRedeemer,
    MultiEraTx,
};

verus! {

/// Data attached to an output: named by its hash, or written out in the
/// output itself.
#[derive(Debug)]
pub enum Datum {
    /// The hash of the data.
    Hash(Vec<u8>),
    /// The data, encoded.
    Data(Vec<u8>),
}

/// Mathematical model of [`Datum`].
pub enum DatumModel {
    Hash(Seq<u8>),
    Data(Seq<u8>),
}

impl View for Datum {
    type V = DatumModel;

    open spec fn view(&self) -> DatumModel {
        match *self {
            Datum::Hash(h) => DatumModel::Hash(h@),
            Datum::Data(d) => DatumModel::Data(d@),
        }
    }
}

/// Tag of a datum given by its hash.
pub const DATUM_HASH_TAG: u8 = 1;

/// Tag of a datum written out in the output.
pub const DATUM_DATA_TAG: u8 = 2;

impl Datum {
    /// The tag under which callers tell the two kinds apart.
    pub fn tag(&self) -> (tag: u8)
        ensures
            tag == match self@ {
                DatumModel::Hash(_) => DATUM_HASH_TAG,
                DatumModel::Data(_) => DATUM_DATA_TAG,
            },
    {
        match self {
            Datum::Hash(_) => DATUM_HASH_TAG,
            Datum::Data(_) => DATUM_DATA_TAG,
        }
    }

    /// An independent copy of this datum.
    pub fn duplicate(&self) -> (copy: Datum)
        ensures
            copy@ == self@,
    {
        match self {
            Datum::Hash(h) => Datum::Hash(crate::bytes::copy_bytes(h)),
            Datum::Data(d) => Datum::Data(crate::bytes::copy_bytes(d)),
        }
    }
}

/// The model of a datum that may be absent.
pub open spec fn datum_model(d: Option<Datum>) -> Option<DatumModel> {
    match d {
        Some(d) => Some(d@),
        None => None,
    }
}

/// What a redeemer is for.
#[derive(Clone, Copy, Debug, PartialEq, Eq, Structural)]
pub enum RedeemerTag {
    Spend,
    Mint,
    Cert,
    Reward,
    Vote,
    Propose,
}

impl RedeemerTag {
    /// The number of each purpose.
    pub open spec fn spec_code(self) -> u8 {
        match self {
            RedeemerTag::Spend => 0,
            RedeemerTag::Mint => 1,
            RedeemerTag::Cert => 2,
            RedeemerTag::Reward => 3,
            RedeemerTag::Vote => 4,
            RedeemerTag::Propose => 5,
        }
    }

    /// The number of this purpose.
    pub fn code(self) -> (code: u8)
        ensures
            code == self.spec_code(),
    {
        match self {
            RedeemerTag::Spend => 0,
            RedeemerTag::Mint => 1,
            RedeemerTag::Cert => 2,
            RedeemerTag::Reward => 3,
            RedeemerTag::Vote => 4,
            RedeemerTag::Propose => 5,
        }
    }

    /// The purpose with a given number, if there is one.
    pub fn from_code(code: u8) -> (tag: Option<RedeemerTag>)
        ensures
            match tag {
                Some(t) => t.spec_code() == code,
                None => code > 5,
            },
    {
        if code == 0 {
            Some(RedeemerTag::Spend)
        } else if code == 1 {
            Some(RedeemerTag::Mint)
        } else if code == 2 {
            Some(RedeemerTag::Cert)
        } else if code == 3 {
            Some(RedeemerTag::Reward)
        } else if code == 4 {
            Some(RedeemerTag::Vote)
        } else if code == 5 {
            Some(RedeemerTag::Propose)
        } else {
            None
        }
    }
}

/// The budget that a script run claims.
#[derive(Clone, Copy, Debug, PartialEq, Eq, Structural)]
pub struct ExUnits {
    pub mem: u64,
    pub steps: u64,
}

/// What justifies the use of a script-locked item, and the budget claimed
/// for it.
#[derive(Debug)]
pub struct Redeemer {
    pub tag: RedeemerTag,
    /// Position of the item among those of its purpose.
    pub index: u32,
    /// The argument handed to the script, encoded.
    pub data: Vec<u8>,
    pub ex_units: ExUnits,
}

/// Mathematical model of [`Redeemer`].
pub struct RedeemerModel {
    pub tag: RedeemerTag,
    pub index: u32,
    pub data: Seq<u8>,
    pub ex_units: ExUnits,
}

impl View for Redeemer {
    type V = RedeemerModel;

    open spec fn view(&self) -> RedeemerModel {
        RedeemerModel {
            tag: self.tag,
            index: self.index,
            data: self.data@,
            ex_units: self.ex_units,
        }
    }
}

/// The models of a list of redeemers, in order.
pub open spec fn redeemer_models(rs: Seq<Redeemer>) -> Seq<RedeemerModel> {
    rs.map_values(|r: Redeemer| r@)
}

/// The references of a list of inputs of which some could not be read.
pub open spec fn read_refs(inputs: Seq<Option<TransactionInput>>) -> Seq<Option<(Seq<u8>, u64)>> {
    inputs.map_values(
        |i: Option<TransactionInput>|
            match i {
                Some(i) => Some(i@),
                None => None,
            },
    )
}

/// What the header of the era-tagged block `bytes` says of its place.
pub uninterp spec fn block_header_place(bytes: Seq<u8>) -> HeaderPlaceModel;

/// Decodes an era-tagged block with `MultiEraBlock::decode`, takes its
/// header with `MultiEraBlock::header`, hashes it with
/// `MultiEraHeader::hash` and reads the slot fields of the shape that came
/// out.
///
/// Trusted: the result is `Malformed` when the decoder rejects the bytes,
/// which is when encoding the block again fails for want of a block, and
/// otherwise the fields and the hash of the block's header, which depend
/// on the bytes alone. The hash is of the 32-byte kind.
#[verifier::external_body]
pub(crate) fn decode_block_header(bytes: &[u8]) -> (place: HeaderPlace)
    ensures
        place@ == block_header_place(bytes@),
        hash_sized(place@),
        place@ is Malformed == block_reencoding(bytes@) is Malformed,
{
    let Ok(block) = MultiEraBlock::decode(bytes) else {
        return HeaderPlace::Malformed;
    };
    let header = block.header();
    let hash = header.hash().to_vec();
    match header {
        MultiEraHeader::Byron(h) => {
            HeaderPlace::Byron { epoch: h.consensus_data.0.epoch, slot: h.consensus_data.0.slot, hash }
        },
        MultiEraHeader::EpochBoundary(h) => {
            HeaderPlace::EpochBoundary { epoch: h.consensus_data.epoch_id, hash }
        },
        MultiEraHeader::ShelleyCompatible(h) => HeaderPlace::Slotted { slot: h.header_body.slot, hash },
        MultiEraHeader::BabbageCompatible(h) => HeaderPlace::Slotted { slot: h.header_body.slot, hash },
    }
}

/// The era of the era-tagged block `bytes`, its number, and its
/// transactions, each encoded on its own.
pub uninterp spec fn block_transactions(bytes: Seq<u8>) -> Option<(u16, u64, Seq<Seq<u8>>)>;

/// Decodes an era-tagged block with `MultiEraBlock::decode`, reads its era
/// with `MultiEraBlock::era`, its number with `MultiEraBlock::number`, and
/// encodes each transaction of `MultiEraBlock::txs` with
/// `MultiEraTx::encode`.
///
/// Trusted: the result is `None` when the decoder rejects the bytes, which
/// is when encoding the block again fails for want of a block, and
/// otherwise what those functions give, which depends on the bytes alone.
#[verifier::external_body]
pub(crate) fn decode_block_transactions(bytes: &[u8]) -> (parts: Option<(u16, u64, Vec<Vec<u8>>)>)
    ensures
        match parts {
            Some((era, number, txs)) => block_transactions(bytes@) == Some(
                (era, number, byte_lists(txs@)),
            ),
            None => block_transactions(bytes@) is None,
        },
        parts is None == block_reencoding(bytes@) is Malformed,
{
    let block = MultiEraBlock::decode(bytes).ok()?;
    let txs = block.txs().iter().map(|tx| tx.encode()).collect();
    Some((u16::from(block.era()), block.number(), txs))
}

/// The id of the transaction of era `era` that `tx` encodes.
pub uninterp spec fn tx_id(era: u16, tx: Seq<u8>) -> Option<Seq<u8>>;

/// Decodes a transaction with `MultiEraTx::decode_for_era` and hashes it
/// with `MultiEraTx::hash`.
///
/// Trusted: the result is `None` when the era is unknown or the decoder
/// rejects the bytes, and otherwise the hash, which depends on the
/// arguments alone and is of the 32-byte kind.
#[verifier::external_body]
pub(crate) fn decode_tx_id(era: u16, tx: &[u8]) -> (id: Option<Vec<u8>>)
    ensures
        match id {
            Some(id) => tx_id(era, tx@) == Some(id@) && id@.len() == HASH_BYTES,
            None => tx_id(era, tx@) is None,
        },
{
    let era = traverse::Era::try_from(era).ok()?;
    Some(MultiEraTx::decode_for_era(era, tx).ok()?.hash().to_vec())
}

/// The inputs of the transaction of era `era` that `tx` encodes, in the
/// order in which it lists them. An input of a kind that names no output
/// reads as `None`.
pub uninterp spec fn tx_inputs(era: u16, tx: Seq<u8>) -> Option<Seq<Option<(Seq<u8>, u64)>>>;

/// Decodes a transaction with `MultiEraTx::decode_for_era` and reads the
/// fields of each input of `MultiEraTx::inputs`.
///
/// Trusted: the result is `None` when the era is unknown or the decoder
/// rejects the bytes, and otherwise the transaction id and the index of
/// each input, which depend on the arguments alone.
#[verifier::external_body]
pub(crate) fn decode_tx_inputs(era: u16, tx: &[u8]) -> (inputs: Option<
    Vec<Option<TransactionInput>>,
>)
    ensures
        match inputs {
            Some(inputs) => tx_inputs(era, tx@) == Some(read_refs(inputs@)),
            None => tx_inputs(era, tx@) is None,
        },
{
    let era = traverse::Era::try_from(era).ok()?;
    let tx = MultiEraTx::decode_for_era(era, tx).ok()?;
    let read = |input: &MultiEraInput| match input {
        MultiEraInput::Byron(x) => match x.as_ref().as_ref() {
            TxIn::Variant0(CborWrap((id, index))) => {
                Some(TransactionInput { id: id.to_vec(), index: u64::from(*index) })
            },
            TxIn::Other(..) => None,
        },
        MultiEraInput::AlonzoCompatible(x) => {
            Some(TransactionInput { id: x.transaction_id.to_vec(), index: x.index })
        },
        _ => None,
    };
    Some(tx.inputs().iter().map(read).collect())
}

/// The outputs of the transaction of era `era` that `tx` encodes, each
/// encoded on its own.
pub uninterp spec fn tx_outputs(era: u16, tx: Seq<u8>) -> Option<Seq<Seq<u8>>>;

/// Decodes a transaction with `MultiEraTx::decode_for_era` and encodes
/// each output of `MultiEraTx::outputs` with `MultiEraOutput::encode`.
///
/// Trusted: the result is `None` when the era is unknown or the decoder
/// rejects the bytes, and otherwise the encoded outputs, which depend on
/// the arguments alone.
#[verifier::external_body]
pub(crate) fn decode_tx_outputs(era: u16, tx: &[u8]) -> (outputs: Option<Vec<Vec<u8>>>)
    ensures
        match outputs {
            Some(outputs) => tx_outputs(era, tx@) == Some(byte_lists(outputs@)),
            None => tx_outputs(era, tx@) is None,
        },
{
    let era = traverse::Era::try_from(era).ok()?;
    let tx = MultiEraTx::decode_for_era(era, tx).ok()?;
    Some(tx.outputs().iter().map(|output| output.encode()).collect())
}

/// What the transaction of era `era` that `tx` encodes mints and burns,
/// one entry for each asset of each policy.
pub uninterp spec fn tx_mint(era: u16, tx: Seq<u8>) -> Option<Seq<RawAssetModel>>;

/// Decodes a transaction with `MultiEraTx::decode_for_era` and reads each
/// asset of each policy of `MultiEraTx::mints`.
///
/// Trusted: the result is `None` when the era is unknown or the decoder
/// rejects the bytes, and otherwise the policy, name and quantities of
/// each asset, which depend on the arguments alone.
#[verifier::external_body]
pub(crate) fn decode_tx_mint(era: u16, tx: &[u8]) -> (assets: Option<Vec<RawAsset>>)
    ensures
        match assets {
            Some(assets) => tx_mint(era, tx@) == Some(reported(assets@)),
            None => tx_mint(era, tx@) is None,
        },
{
    let era = traverse::Era::try_from(era).ok()?;
    let tx = MultiEraTx::decode_for_era(era, tx).ok()?;
    let policies = tx.mints();
    let assets = policies.iter().flat_map(|policy| policy.assets());
    let read = |a: MultiEraAsset| RawAsset {
        policy: a.policy().to_vec(),
        name: a.name().to_vec(),
        output: a.output_coin(),
        mint: a.mint_coin(),
    };
    Some(assets.map(read).collect())
}

/// The redeemers of the transaction of era `era` that `tx` encodes.
pub uninterp spec fn tx_redeemers(era: u16, tx: Seq<u8>) -> Option<Seq<RedeemerModel>>;

/// Decodes a transaction with `MultiEraTx::decode_for_era`, reads each
/// redeemer of `MultiEraTx::redeemers` and encodes its data with
/// `minicbor::to_vec`.
///
/// Trusted: the result is `None` when the era is unknown or the decoder
/// rejects the bytes, and otherwise the fields of each redeemer, which
/// depend on the arguments alone.
#[verifier::external_body]
pub(crate) fn decode_tx_redeemers(era: u16, tx: &[u8]) -> (redeemers: Option<Vec<Redeemer>>)
    ensures
        match redeemers {
            Some(redeemers) => tx_redeemers(era, tx@) == Some(redeemer_models(redeemers@)),
            None => tx_redeemers(era, tx@) is None,
        },
{
    let era = traverse::Era::try_from(era).ok()?;
    let tx = MultiEraTx::decode_for_era(era, tx).ok()?;
    let read = |r: &MultiEraRedeemer| Redeemer {
        tag: match r.tag() {
            WireTag::Spend => RedeemerTag::Spend,
            WireTag::Mint => RedeemerTag::Mint,
            WireTag::Cert => RedeemerTag::Cert,
            WireTag::Reward => RedeemerTag::Reward,
            WireTag::Vote => RedeemerTag::Vote,
            WireTag::Propose => RedeemerTag::Propose,
        },
        index: r.index(), data: to_vec(r.data()).unwrap_or_default(),
        ex_units: ExUnits { mem: r.ex_units().mem, steps: r.ex_units().steps },
    };
    Some(tx.redeemers().iter().map(read).collect())
}

/// The address of the output of era `era` that `output` encodes, as the
/// raw bytes that the output holds.
pub uninterp spec fn output_address(era: u16, output: Seq<u8>) -> Option<Seq<u8>>;

/// Decodes an output with `MultiEraOutput::decode` and reads the address
/// bytes of the shape that came out: the payload of a Byron address, the
/// address field of every later shape.
///
/// Trusted: the result is `None` when the era is unknown or the decoder
/// rejects the bytes, and otherwise the bytes of that field, which depend
/// on the arguments alone.
#[verifier::external_body]
pub(crate) fn decode_output_address(era: u16, output: &[u8]) -> (address: Option<Vec<u8>>)
    ensures
        match address {
            Some(address) => output_address(era, output@) == Some(address@),
            None => output_address(era, output@) is None,
        },
{
    let era = traverse::Era::try_from(era).ok()?;
    Some(match MultiEraOutput::decode(era, output).ok()? {
        MultiEraOutput::Byron(x) => x.address.payload.0.to_vec(),
        MultiEraOutput::AlonzoCompatible(x, _) => x.address.to_vec(),
        MultiEraOutput::Babbage(x) => match &**x {
            BabbageOutput::Legacy(x) => x.address.to_vec(),
            BabbageOutput::PostAlonzo(x) => x.address.to_vec(),
        },
        MultiEraOutput::Conway(x) => match &**x {
            ConwayOutput::Legacy(x) => x.address.to_vec(),
            ConwayOutput::PostAlonzo(x) => x.address.to_vec(),
        },
        _ => return None,
    })
}

/// The lovelace that the output of era `era` that `output` encodes holds.
pub uninterp spec fn output_coin(era: u16, output: Seq<u8>) -> Option<u64>;

/// Decodes an output with `MultiEraOutput::decode` and reads its lovelace
/// with `MultiEraOutput::value` and `MultiEraValue::coin`.
///
/// Trusted: the result is `None` when the era is unknown or the decoder
/// rejects the bytes, and otherwise the amount, which depends on the
/// arguments alone.
#[verifier::external_body]
pub(crate) fn decode_output_coin(era: u16, output: &[u8]) -> (coin: Option<u64>)
    ensures
        coin == output_coin(era, output@),
{
    let era = traverse::Era::try_from(era).ok()?;
    Some(MultiEraOutput::decode(era, output).ok()?.value().coin())
}

/// The native assets of the output of era `era` that `output` encodes, one
/// entry for each asset of each policy.
pub uninterp spec fn output_assets(era: u16, output: Seq<u8>) -> Option<Seq<RawAssetModel>>;

/// Decodes an output with `MultiEraOutput::decode` and reads each asset of
/// each policy of `MultiEraValue::assets`.
///
/// Trusted: the result is `None` when the era is unknown or the decoder
/// rejects the bytes, and otherwise the policy, name and quantities of
/// each asset, which depend on the arguments alone.
#[verifier::external_body]
pub(crate) fn decode_output_assets(era: u16, output: &[u8]) -> (assets: Option<Vec<RawAsset>>)
    ensures
        match assets {
            Some(assets) => output_assets(era, output@) == Some(reported(assets@)),
            None => output_assets(era, output@) is None,
        },
{
    let era = traverse::Era::try_from(era).ok()?;
    let output = MultiEraOutput::decode(era, output).ok()?;
    let value = output.value();
    let policies = value.assets();
    let assets = policies.iter().flat_map(|policy| policy.assets());
    let read = |a: MultiEraAsset| RawAsset {
        policy: a.policy().to_vec(),
        name: a.name().to_vec(),
        output: a.output_coin(),
        mint: a.mint_coin(),
    };
    Some(assets.map(read).collect())
}

/// The datum of the output of era `era` that `output` encodes, if it has
/// one.
pub uninterp spec fn output_datum(era: u16, output: Seq<u8>) -> Option<Option<DatumModel>>;

/// Decodes an output with `MultiEraOutput::decode` and reads its datum with
/// `MultiEraOutput::datum`; data written out in the output is encoded with
/// `minicbor::to_vec`.
///
/// Trusted: the result is `None` when the era is unknown or the decoder
/// rejects the bytes, and otherwise the datum, which depends on the
/// arguments alone.
#[verifier::external_body]
pub(crate) fn decode_output_datum(era: u16, output: &[u8]) -> (datum: Option<Option<Datum>>)
    ensures
        match datum {
            Some(datum) => output_datum(era, output@) == Some(datum_model(datum)),
            None => output_datum(era, output@) is None,
        },
{
    let era = traverse::Era::try_from(era).ok()?;
    let output = MultiEraOutput::decode(era, output).ok()?;
    Some(match output.datum() {
        Some(DatumOption::Hash(hash)) => Some(Datum::Hash(hash.to_vec())),
        Some(DatumOption::Data(data)) => {
            Some(Datum::Data(to_vec(&data.0).unwrap_or_default()))
        },
        None => None,
    })
}

} // verus!
