//! The empty block that stands for a rollback.
//!
//! A caller that reads every chain-sync result as a block is told of a
//! rollback by a Conway block without transactions, whose header carries
//! the slot rolled back to and is otherwise blank. The codec encodes it;
//! its encoding is fixed but for the slot, and is stated here byte by
//! byte.

use vstd::prelude::*;
use pallas::codec::minicbor::to_vec;
use pallas::codec::utils::{Bytes, KeepRaw};
use pallas::ledger::primitives::conway::{Block, Header, HeaderBody, OperationalCert, VrfCert};
use std::collections::BTreeMap;

verus! {

/// Byte `k` of `n`, counted from the least significant.
pub open spec fn byte_of(n: u64, k: nat) -> u8
    recommends
        k < 8,
{
    if k == 0 {
        (n % 0x100) as u8
    } else if k == 1 {
        ((n / 0x100) % 0x100) as u8
    } else if k == 2 {
        ((n / 0x1_0000) % 0x100) as u8
    } else if k == 3 {
        ((n / 0x100_0000) % 0x100) as u8
    } else if k == 4 {
        ((n / 0x1_0000_0000) % 0x100) as u8
    } else if k == 5 {
        ((n / 0x100_0000_0000) % 0x100) as u8
    } else if k == 6 {
        ((n / 0x1_0000_0000_0000) % 0x100) as u8
    } else {
        ((n / 0x100_0000_0000_0000) % 0x100) as u8
    }
}

/// The CBOR encoding of an unsigned integer: the shortest of the five
/// forms that holds it, most significant byte first.
pub open spec fn cbor_uint(n: u64) -> Seq<u8> {
    if n < 24 {
        seq![byte_of(n, 0)]
    } else if n <= 0xff {
        seq![0x18u8, byte_of(n, 0)]
    } else if n <= 0xffff {
        seq![0x19u8, byte_of(n, 1), byte_of(n, 0)]
    } else if n <= 0xffff_ffff {
        seq![0x1au8, byte_of(n, 3), byte_of(n, 2), byte_of(n, 1), byte_of(n, 0)]
    } else {
        seq![
            0x1bu8,
            byte_of(n, 7),
            byte_of(n, 6),
            byte_of(n, 5),
            byte_of(n, 4),
            byte_of(n, 3),
            byte_of(n, 2),
            byte_of(n, 1),
            byte_of(n, 0),
        ]
    }
}

/// What precedes the slot: a block of five parts, a header of two, a
/// header body of ten, and block number zero.
pub open spec fn placeholder_head() -> Seq<u8> {
    seq![0x85u8, 0x82, 0x8a, 0x00]
}

/// What follows the slot, up to the body hash: no previous hash, blank
/// issuer and VRF keys, a blank VRF result, body size zero, and the head of
/// a 32-byte string.
pub open spec fn placeholder_middle() -> Seq<u8> {
    seq![0xf6u8, 0x40, 0x40, 0x82, 0x40, 0x40, 0x00, 0x58, 0x20]
}

/// What follows the body hash: a blank operational certificate, protocol
/// version 9.0, a blank signature, and the four empty parts of the block.
pub open spec fn placeholder_tail() -> Seq<u8> {
    seq![0x84u8, 0x40, 0x00, 0x00, 0x40, 0x82, 0x09, 0x00, 0x40, 0x80, 0x80, 0xa0, 0x80]
}

/// The encoding of the placeholder block for a rollback to `slot`.
pub open spec fn rollback_block(slot: u64) -> Seq<u8> {
    placeholder_head() + cbor_uint(slot) + placeholder_middle() + blank_hash()
        + placeholder_tail()
}

/// The hash that a blank header carries for its body: 32 zero bytes.
pub open spec fn blank_hash() -> Seq<u8> {
    Seq::new(32, |i: int| 0u8)
}

/// Encodes, with `minicbor::to_vec`, a Conway block without transactions
/// whose header holds the given slot and is otherwise made of the given
/// blank values: `zero` for every other number, `blank` for every byte
/// string, `hash` for the body hash, `version` for the protocol version,
/// and no previous hash.
///
/// Trusted: for the blank values that `requires` admits, the encoding is
/// [`rollback_block`]: definite arrays, the slot in the shortest CBOR
/// form, empty byte strings, and a 32-byte string of zeros.
#[verifier::external_body]
pub(crate) fn encode_blank_block(
    slot: u64,
    zero: u64,
    version: (u64, u64),
    blank: &Vec<u8>,
    hash: &Vec<u8>,
) -> (cbor: Vec<u8>)
    requires
        zero == 0,
        version == (9u64, 0u64),
        blank@.len() == 0,
        hash@ == blank_hash(),
    ensures
        cbor@ == rollback_block(slot),
{
    let b = || Bytes::from(blank.clone());
    let operational_cert = OperationalCert { operational_cert_hot_vkey: b(), operational_cert_sequence_number: zero, operational_cert_kes_period: zero, operational_cert_sigma: b() };
    let header_body = HeaderBody { block_number: zero, slot, prev_hash: None, issuer_vkey: b(), vrf_vkey: b(), vrf_result: VrfCert(b(), b()), block_body_size: zero, block_body_hash: hash.as_slice().into(), operational_cert, protocol_version: version };
    let header = KeepRaw::from(Header { header_body, body_signature: b() });
    let block = Block { header, transaction_bodies: vec![], transaction_witness_sets: vec![], auxiliary_data_set: BTreeMap::new(), invalid_transactions: Some(vec![]) };
    to_vec(&block).unwrap_or_default()
}

/// Encodes the placeholder block for a rollback to `slot`.
pub fn rollback_block_cbor(slot: u64) -> (cbor: Vec<u8>)
    ensures
        cbor@ == rollback_block(slot),
{
    let blank: Vec<u8> = Vec::new();
    let mut hash: Vec<u8> = Vec::new();
    let mut i: usize = 0;
    while i < 32
        invariant
            i <= 32,
            hash@ == Seq::new(i as nat, |k: int| 0u8),
        decreases 32 - i,
    {
        hash.push(0);
        proof {
            assert(hash@ =~= Seq::new((i + 1) as nat, |k: int| 0u8));
        }
        i += 1;
    }
    encode_blank_block(slot, 0, (9, 0), &blank, &hash)
}

} // verus!
