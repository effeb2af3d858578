//! The ledger codec, as far as the protocol drivers need it.
//!
//! Blocks, headers and transactions are decoded by the `pallas` crates.
//! Each function here hands bytes to one of their decoders and brings back
//! plain values. What the decoders return is not proved here: each result
//! is given a name, and the contracts of the drivers speak of those names.

use vstd::prelude::*;
use crate::point::Point;
use pallas::codec::minicbor::to_vec;
use pallas::network::miniprotocols::{
    MAINNET_MAGIC, PREVIEW_MAGIC, PRE_PRODUCTION_MAGIC, TESTNET_MAGIC,
};
use pallas::ledger::addresses::{Address, ByronAddress};
use pallas::ledger::traverse::wellknown::GenesisValues;
use pallas::ledger::traverse::{MultiEraBlock, MultiEraHeader, MultiEraTx};

verus! {

/// Length of the hashes that name blocks and transactions.
pub const HASH_BYTES: usize = 32;

/// What decoding an era-tagged block and encoding it again, without its era
/// tag, comes to.
#[derive(Debug)]
pub enum BlockCbor {
    /// The bytes are not a block of any known era.
    Malformed,
    /// The bytes are a block, of a shape that cannot be encoded again.
    Unsupported,
    /// The block, encoded without its era tag.
    Encoded(Vec<u8>),
}

/// Mathematical model of [`BlockCbor`].
pub enum BlockCborModel {
    Malformed,
    Unsupported,
    Encoded(Seq<u8>),
}

impl View for BlockCbor {
    type V = BlockCborModel;

    open spec fn view(&self) -> BlockCborModel {
        match *self {
            BlockCbor::Malformed => BlockCborModel::Malformed,
            BlockCbor::Unsupported => BlockCborModel::Unsupported,
            BlockCbor::Encoded(bytes) => BlockCborModel::Encoded(bytes@),
        }
    }
}

/// The outcome of decoding `bytes` as an era-tagged block and encoding the
/// block again.
pub uninterp spec fn block_reencoding(bytes: Seq<u8>) -> BlockCborModel;

/// Decodes an era-tagged block with `MultiEraBlock::decode` and encodes the
/// block it holds with `minicbor::to_vec`.
///
/// Trusted: the result is whatever those two functions give for these
/// bytes, which depends on the bytes alone.
#[verifier::external_body]
pub(crate) fn reencode_block(bytes: &[u8]) -> (cbor: BlockCbor)
    ensures
        cbor@ == block_reencoding(bytes@),
{
    let encoded = match MultiEraBlock::decode(bytes) {
        Err(_) => return BlockCbor::Malformed,
        Ok(MultiEraBlock::Byron(b)) => to_vec(&b).ok(),
        Ok(MultiEraBlock::AlonzoCompatible(b, _)) => to_vec(&b).ok(),
        Ok(MultiEraBlock::Babbage(b)) => to_vec(&b).ok(),
        Ok(MultiEraBlock::EpochBoundary(b)) => to_vec(&b).ok(),
        Ok(MultiEraBlock::Conway(b)) => to_vec(&b).ok(),
        Ok(_) => None,
    };
    encoded.map_or(BlockCbor::Unsupported, BlockCbor::Encoded)
}

/// The era of the transaction that `bytes` encode, as the number under
/// which the codec knows it, and the id of the transaction; nothing where
/// the bytes encode no transaction.
pub uninterp spec fn tx_identity(bytes: Seq<u8>) -> Option<(u16, Seq<u8>)>;

/// Decodes a transaction with `MultiEraTx::decode` and reads its era with
/// `MultiEraTx::era` and its id with `MultiEraTx::hash`.
///
/// Trusted: the result is `None` when the decoder rejects the bytes, and
/// otherwise the era and the hash that it reports, which depend on the
/// bytes alone. The hash is of the 32-byte kind.
#[verifier::external_body]
pub(crate) fn decode_tx_identity(bytes: &[u8]) -> (identity: Option<(u16, Vec<u8>)>)
    ensures
        match identity {
            Some((era, id)) => tx_identity(bytes@) == Some((era, id@)) && id@.len() == HASH_BYTES,
            None => tx_identity(bytes@) is None,
        },
{
    let tx = MultiEraTx::decode(bytes).ok()?;
    Some((u16::from(tx.era()), tx.hash().to_vec()))
}

/// What a block header says of its own place on the chain.
#[derive(Debug)]
pub enum HeaderPlace {
    /// The bytes are not a header of the stated variant.
    Malformed,
    /// A Byron block header: its epoch, its slot within the epoch, its hash.
    Byron { epoch: u64, slot: u64, hash: Vec<u8> },
    /// A Byron epoch-boundary header: its epoch and its hash.
    EpochBoundary { epoch: u64, hash: Vec<u8> },
    /// A header of any later era: its slot and its hash.
    Slotted { slot: u64, hash: Vec<u8> },
}

/// Mathematical model of [`HeaderPlace`].
pub enum HeaderPlaceModel {
    Malformed,
    Byron { epoch: u64, slot: u64, hash: Seq<u8> },
    EpochBoundary { epoch: u64, hash: Seq<u8> },
    Slotted { slot: u64, hash: Seq<u8> },
}

impl View for HeaderPlace {
    type V = HeaderPlaceModel;

    open spec fn view(&self) -> HeaderPlaceModel {
        match *self {
            HeaderPlace::Malformed => HeaderPlaceModel::Malformed,
            HeaderPlace::Byron { epoch, slot, hash } => HeaderPlaceModel::Byron {
                epoch,
                slot,
                hash: hash@,
            },
            HeaderPlace::EpochBoundary { epoch, hash } => HeaderPlaceModel::EpochBoundary {
                epoch,
                hash: hash@,
            },
            HeaderPlace::Slotted { slot, hash } => HeaderPlaceModel::Slotted { slot, hash: hash@ },
        }
    }
}

/// The hash of a header that decoded has the length of a block hash.
pub open spec fn hash_sized(place: HeaderPlaceModel) -> bool {
    match place {
        HeaderPlaceModel::Malformed => true,
        HeaderPlaceModel::Byron { hash, .. } => hash.len() == HASH_BYTES,
        HeaderPlaceModel::EpochBoundary { hash, .. } => hash.len() == HASH_BYTES,
        HeaderPlaceModel::Slotted { hash, .. } => hash.len() == HASH_BYTES,
    }
}

/// What the header encoded by `cbor`, under the era variant `variant`, says
/// of its place.
pub uninterp spec fn header_place(variant: u8, cbor: Seq<u8>) -> HeaderPlaceModel;

/// Decodes a header with `MultiEraHeader::decode`, with no Byron subtag,
/// hashes it with `MultiEraHeader::hash` and reads the slot fields of the
/// shape that came out.
///
/// Trusted: the result is `Malformed` when the decoder rejects the bytes,
/// and otherwise the fields and the hash of the decoded header, which
/// depend on the arguments alone. The hash is of the 32-byte kind.
#[verifier::external_body]
pub(crate) fn decode_header_place(variant: u8, cbor: &[u8]) -> (place: HeaderPlace)
    ensures
        place@ == header_place(variant, cbor@),
        hash_sized(place@),
{
    let Ok(header) = MultiEraHeader::decode(variant, None, cbor) else {
        return HeaderPlace::Malformed;
    };
    let hash = header.hash().to_vec();
    match header {
        MultiEraHeader::Byron(h) => {
            HeaderPlace::Byron { epoch: h.consensus_data.0.epoch, slot: h.consensus_data.0.slot, hash }
        },
        MultiEraHeader::EpochBoundary(h) => {
            HeaderPlace::EpochBoundary { epoch: h.consensus_data.epoch_id, hash }
        },
        MultiEraHeader::ShelleyCompatible(h) => HeaderPlace::Slotted { slot: h.header_body.slot, hash },
        MultiEraHeader::BabbageCompatible(h) => HeaderPlace::Slotted { slot: h.header_body.slot, hash },
    }
}

/// Largest epoch, and largest slot within an epoch, for which the absolute
/// slot of a Byron header is computed.
pub const BYRON_FIELD_MAX: u64 = 0xffff_ffff;

/// Number of the first epoch after the Byron era on the main network.
pub const SHELLEY_START_EPOCH: u64 = 208;

/// Slots in a Byron epoch.
pub const BYRON_EPOCH_SLOTS: u64 = 21600;

/// Slots in an epoch of any later era.
pub const SHELLEY_EPOCH_SLOTS: u64 = 432000;

/// The absolute slot of the slot `slot` of epoch `epoch`, counted as the
/// main network counts: Byron epochs hold fewer slots than later ones.
pub open spec fn absolute_slot(epoch: u64, slot: u64) -> int {
    if epoch < SHELLEY_START_EPOCH {
        epoch * BYRON_EPOCH_SLOTS + slot
    } else {
        SHELLEY_START_EPOCH * BYRON_EPOCH_SLOTS + (epoch - SHELLEY_START_EPOCH)
            * SHELLEY_EPOCH_SLOTS + slot
    }
}

/// Computes an absolute slot with `GenesisValues::relative_slot_to_absolute`
/// on the main network's values (`GenesisValues::default`).
///
/// Trusted: within the stated bounds that function's arithmetic cannot
/// overflow, and for the main network's epoch and slot lengths it comes to
/// [`absolute_slot`].
#[verifier::external_body]
pub(crate) fn relative_slot_to_absolute(epoch: u64, slot: u64) -> (absolute: u64)
    requires
        epoch <= BYRON_FIELD_MAX,
        slot <= BYRON_FIELD_MAX,
    ensures
        absolute == absolute_slot(epoch, slot),
{
    GenesisValues::default().relative_slot_to_absolute(epoch, slot)
}

/// The position that a decoded header names, where its slot can be
/// computed: a Byron header counts epochs and slots within them, and only
/// fields within bounds are converted.
pub open spec fn header_point(place: HeaderPlaceModel) -> Option<(u64, Seq<u8>)> {
    match place {
        HeaderPlaceModel::Malformed => None,
        HeaderPlaceModel::Byron { epoch, slot, hash } => {
            if epoch <= BYRON_FIELD_MAX && slot <= BYRON_FIELD_MAX {
                Some((absolute_slot(epoch, slot) as u64, hash))
            } else {
                None
            }
        },
        HeaderPlaceModel::EpochBoundary { epoch, hash } => {
            if epoch <= BYRON_FIELD_MAX {
                Some((absolute_slot(epoch, 0) as u64, hash))
            } else {
                None
            }
        },
        HeaderPlaceModel::Slotted { slot, hash } => Some((slot, hash)),
    }
}

/// Reads the position that a header names.
pub fn locate_header(place: HeaderPlace) -> (point: Option<Point>)
    ensures
        match point {
            Some(p) => header_point(place@) == Some((p.slot, p.hash@)) && (hash_sized(place@)
                ==> p.hash@.len() == HASH_BYTES),
            None => header_point(place@) is None,
        },
{
    match place {
        HeaderPlace::Malformed => None,
        HeaderPlace::Byron { epoch, slot, hash } => {
            if epoch <= BYRON_FIELD_MAX && slot <= BYRON_FIELD_MAX {
                Some(Point::new(relative_slot_to_absolute(epoch, slot), hash))
            } else {
                None
            }
        },
        HeaderPlace::EpochBoundary { epoch, hash } => {
            if epoch <= BYRON_FIELD_MAX {
                Some(Point::new(relative_slot_to_absolute(epoch, 0), hash))
            } else {
                None
            }
        },
        HeaderPlace::Slotted { slot, hash } => Some(Point::new(slot, hash)),
    }
}

/// The raw bytes of the address that `text` encodes in bech32, if it
/// encodes one.
pub uninterp spec fn bech32_address_bytes(text: Seq<char>) -> Option<Seq<u8>>;

/// Parses a bech32 address with `Address::from_bech32` and writes it out
/// with `Address::to_vec`.
///
/// Trusted: the result is `None` when the parser rejects the text, and
/// otherwise the bytes of the parsed address, which depend on the text
/// alone.
#[verifier::external_body]
pub(crate) fn address_from_bech32(text: &str) -> (bytes: Option<Vec<u8>>)
    ensures
        bytes is Some == bech32_address_bytes(text@) is Some,
        bytes matches Some(b) ==> bech32_address_bytes(text@) == Some(b@),
{
    Address::from_bech32(text).ok().map(|address| address.to_vec())
}

/// How the address held in raw bytes reads in bech32: `None` when the bytes
/// are no address, `Some(None)` when they are an address that has no bech32
/// form, `Some(Some(text))` otherwise.
pub uninterp spec fn address_bech32(bytes: Seq<u8>) -> Option<Option<Seq<char>>>;

/// Parses raw address bytes with `Address::from_bytes` and formats the
/// address with `Address::to_bech32`.
///
/// Trusted: the outer result is `None` when the parser rejects the bytes,
/// the inner one is `None` when the formatter refuses the address, and the
/// text is the formatter's, which depends on the bytes alone.
#[verifier::external_body]
pub(crate) fn address_to_bech32(bytes: &[u8]) -> (text: Option<Option<String>>)
    ensures
        text is None == address_bech32(bytes@) is None,
        text == Some(None::<String>) <==> address_bech32(bytes@) == Some(None::<Seq<char>>),
        text matches Some(Some(t)) ==> address_bech32(bytes@) == Some(Some(t@)),
{
    Address::from_bytes(bytes).ok().map(|address| address.to_bech32().ok())
}

/// How the Byron address held in raw bytes reads in base58, if the bytes
/// hold one.
pub uninterp spec fn byron_address_base58(bytes: Seq<u8>) -> Option<Seq<char>>;

/// Parses raw bytes with `ByronAddress::from_bytes` and formats the address
/// with `ByronAddress::to_base58`.
///
/// Trusted: the result is `None` when the parser rejects the bytes, and
/// otherwise the formatter's text, which depends on the bytes alone.
#[verifier::external_body]
pub(crate) fn byron_address_to_base58(bytes: &[u8]) -> (text: Option<String>)
    ensures
        text is Some == byron_address_base58(bytes@) is Some,
        text matches Some(t) ==> byron_address_base58(bytes@) == Some(t@),
{
    ByronAddress::from_bytes(bytes).ok().map(|address| address.to_base58())
}

/// Reads the constant `MAINNET_MAGIC`.
///
/// Trusted: its value.
#[verifier::external_body]
pub(crate) fn pallas_mainnet_magic() -> (magic: u64)
    ensures
        magic == 764824073,
{
    MAINNET_MAGIC
}

/// Reads the constant `TESTNET_MAGIC`.
///
/// Trusted: its value.
#[verifier::external_body]
pub(crate) fn pallas_testnet_magic() -> (magic: u64)
    ensures
        magic == 1097911063,
{
    TESTNET_MAGIC
}

/// Reads the constant `PREVIEW_MAGIC`.
///
/// Trusted: its value.
#[verifier::external_body]
pub(crate) fn pallas_preview_magic() -> (magic: u64)
    ensures
        magic == 2,
{
    PREVIEW_MAGIC
}

/// Reads the constant `PRE_PRODUCTION_MAGIC`.
///
/// Trusted: its value.
#[verifier::external_body]
pub(crate) fn pallas_pre_production_magic() -> (magic: u64)
    ensures
        magic == 1,
{
    PRE_PRODUCTION_MAGIC
}

} // verus!
