use std::collections::BTreeMap;

use pallas::codec::minicbor;
use pallas::codec::utils::{Bytes, KeepRaw};
use pallas::ledger::primitives::conway;
use pallas_dotnet_rs::placeholder::rollback_block_cbor;

fn blank_conway_block(slot: u64) -> Vec<u8> {
    let header_body = conway::HeaderBody {
        block_number: 0,
        slot,
        prev_hash: None,
        issuer_vkey: Bytes::from(vec![]),
        vrf_vkey: Bytes::from(vec![]),
        vrf_result: conway::VrfCert(Bytes::from(vec![]), Bytes::from(vec![])),
        block_body_size: 0,
        block_body_hash: pallas::crypto::hash::Hash::new([0; 32]),
        operational_cert: conway::OperationalCert {
            operational_cert_hot_vkey: Bytes::from(vec![]),
            operational_cert_sequence_number: 0,
            operational_cert_kes_period: 0,
            operational_cert_sigma: Bytes::from(vec![]),
        },
        protocol_version: (9, 0),
    };
    let header = conway::Header { header_body, body_signature: Bytes::from(vec![]) };
    let block = conway::Block {
        header: KeepRaw::from(header),
        transaction_bodies: vec![],
        transaction_witness_sets: vec![],
        auxiliary_data_set: BTreeMap::new(),
        invalid_transactions: Some(vec![]),
    };
    minicbor::to_vec(&block).unwrap()
}

#[test]
fn placeholder_matches_codec_for_small_slot() {
    assert_eq!(rollback_block_cbor(0), blank_conway_block(0));
    assert_eq!(rollback_block_cbor(23), blank_conway_block(23));
}

#[test]
fn placeholder_matches_codec_at_each_width() {
    for slot in [24u64, 255, 256, 65535, 65536, 35197575, 0xffff_ffff, 0x1_0000_0000, u64::MAX] {
        assert_eq!(rollback_block_cbor(slot), blank_conway_block(slot));
    }
}

#[test]
fn placeholder_exact_bytes_for_slot_one() {
    let mut expected: Vec<u8> = vec![0x85, 0x82, 0x8a, 0x00, 0x01];
    expected.extend_from_slice(&[0xf6, 0x40, 0x40, 0x82, 0x40, 0x40, 0x00, 0x58, 0x20]);
    expected.extend_from_slice(&[0u8; 32]);
    expected.extend_from_slice(&[
        0x84, 0x40, 0x00, 0x00, 0x40, 0x82, 0x09, 0x00, 0x40, 0x80, 0x80, 0xa0, 0x80,
    ]);
    assert_eq!(rollback_block_cbor(1), expected);
}

fn expected_block(slot_cbor: &[u8]) -> Vec<u8> {
    let mut expected: Vec<u8> = vec![0x85, 0x82, 0x8a, 0x00];
    expected.extend_from_slice(slot_cbor);
    expected.extend_from_slice(&[0xf6, 0x40, 0x40, 0x82, 0x40, 0x40, 0x00, 0x58, 0x20]);
    expected.extend_from_slice(&[0u8; 32]);
    expected.extend_from_slice(&[
        0x84, 0x40, 0x00, 0x00, 0x40, 0x82, 0x09, 0x00, 0x40, 0x80, 0x80, 0xa0, 0x80,
    ]);
    expected
}

#[test]
fn placeholder_exact_bytes_at_each_width() {
    assert_eq!(rollback_block_cbor(0), expected_block(&[0x00]));
    assert_eq!(rollback_block_cbor(23), expected_block(&[0x17]));
    assert_eq!(rollback_block_cbor(24), expected_block(&[0x18, 0x18]));
    assert_eq!(rollback_block_cbor(255), expected_block(&[0x18, 0xff]));
    assert_eq!(rollback_block_cbor(256), expected_block(&[0x19, 0x01, 0x00]));
    assert_eq!(rollback_block_cbor(65535), expected_block(&[0x19, 0xff, 0xff]));
    assert_eq!(rollback_block_cbor(65536), expected_block(&[0x1a, 0x00, 0x01, 0x00, 0x00]));
    assert_eq!(rollback_block_cbor(35197575), expected_block(&[0x1a, 0x02, 0x19, 0x12, 0x87]));
    assert_eq!(rollback_block_cbor(0xffff_ffff), expected_block(&[0x1a, 0xff, 0xff, 0xff, 0xff]));
    assert_eq!(
        rollback_block_cbor(0x1_0000_0000),
        expected_block(&[0x1b, 0x00, 0x00, 0x00, 0x01, 0x00, 0x00, 0x00, 0x00])
    );
    assert_eq!(
        rollback_block_cbor(0x0102_0304_0506_0708),
        expected_block(&[0x1b, 0x01, 0x02, 0x03, 0x04, 0x05, 0x06, 0x07, 0x08])
    );
    assert_eq!(rollback_block_cbor(u64::MAX), expected_block(&[0x1b, 0xff, 0xff, 0xff, 0xff, 0xff, 0xff, 0xff, 0xff]));
}
