use pallas::codec::minicbor;
use pallas::codec::utils::{CborWrap, EmptyMap, KeepRaw, MaybeIndefArray, TagWrap};
use pallas::ledger::primitives::byron;
use pallas::ledger::traverse::MultiEraBlock;
use pallas_dotnet_rs::domain::{Block, TransactionBody};
use pallas_dotnet_rs::era::Era;
use pallas_dotnet_rs::point::{ChainPoint, Point};
use pallas_dotnet_rs::response::{SyncEvent, SyncStep};
use pallas_dotnet_rs::session::ClientWrapper;

fn blank_hash() -> pallas::crypto::hash::Hash<32> {
    pallas::crypto::hash::Hash::new([0; 32])
}

fn byron_header(epoch: u64, slot: u64, difficulty: u64) -> Vec<u8> {
    let head = byron::BlockHead {
        protocol_magic: 764824073,
        prev_block: blank_hash(),
        body_proof: byron::BlockProof {
            tx_proof: (1, blank_hash(), blank_hash()),
            ssc_proof: byron::SscProof::Variant3(blank_hash()),
            dlg_proof: blank_hash(),
            upd_proof: blank_hash(),
        },
        consensus_data: byron::BlockCons(
            byron::SlotId { epoch, slot },
            vec![1u8, 2, 3].into(),
            MaybeIndefArray::Def(vec![difficulty]),
            byron::BlockSig::Signature(vec![4u8, 5].into()),
        ),
        extra_data: byron::BlockHeadEx {
            block_version: (1, 0, 0),
            software_version: ("node".to_string(), 1),
            attributes: None,
            extra_proof: blank_hash(),
        },
    };
    minicbor::to_vec(&head).unwrap()
}

fn byron_address() -> byron::Address {
    byron::Address { payload: TagWrap(vec![0x83u8, 0x41, 0x01, 0xa0, 0x00].into()), crc: 99 }
}

fn byron_tx() -> Vec<u8> {
    let tx = byron::Tx {
        inputs: MaybeIndefArray::Indef(vec![
            byron::TxIn::Variant0(CborWrap((pallas::crypto::hash::Hash::new([7; 32]), 1))),
            byron::TxIn::Variant0(CborWrap((pallas::crypto::hash::Hash::new([7; 32]), 1))),
            byron::TxIn::Variant0(CborWrap((pallas::crypto::hash::Hash::new([8; 32]), 0))),
        ]),
        outputs: MaybeIndefArray::Indef(vec![byron::TxOut { address: byron_address(), amount: 1_000_000 }]),
        attributes: EmptyMap,
    };
    let payload = byron::TxPayload {
        transaction: KeepRaw::from(tx),
        witness: KeepRaw::from(MaybeIndefArray::Def(vec![])),
    };
    minicbor::to_vec(&payload).unwrap()
}

fn byron_block(epoch: u64, slot: u64, difficulty: u64) -> Vec<u8> {
    let mut bytes = vec![0x82, 0x01, 0x83];
    bytes.extend_from_slice(&byron_header(epoch, slot, difficulty));
    bytes.extend_from_slice(&[0x84, 0x81]);
    bytes.extend_from_slice(&byron_tx());
    bytes.extend_from_slice(&[0x82, 0x03, 0xd9, 0x01, 0x02, 0x80]);
    bytes.push(0x80);
    bytes.extend_from_slice(&[0x82, 0x80, 0x80]);
    bytes.extend_from_slice(&[0x81, 0xa0]);
    bytes
}

#[test]
fn byron_block_with_one_transaction() {
    let bytes = byron_block(3, 10, 77);
    let expected_hash = MultiEraBlock::decode(&bytes).unwrap().hash().to_vec();
    let block = Block::decode(&bytes, &vec![Some("{\"ignored\":1}".to_string())]).unwrap();
    assert_eq!(block.slot, 3 * 21600 + 10);
    assert_eq!(block.number, 77);
    assert_eq!(block.hash, expected_hash);
    assert_eq!(block.transaction_bodies.len(), 1);
    let body = &block.transaction_bodies[0];
    assert_eq!(body.era, 0);
    assert_eq!(body.metadata, "");
    assert!(body.redeemers.is_empty());
    assert!(body.mint.assets.is_empty());
    assert_eq!(body.index, 0);
    assert_eq!(body.raw, byron_tx());
}

#[test]
fn byron_transaction_inputs_are_counted_once() {
    let body = TransactionBody::decode(Era::Byron, byron_tx(), 0, None).unwrap();
    assert_eq!(body.inputs.len(), 2);
    assert_eq!(body.inputs[0].id, vec![7; 32]);
    assert_eq!(body.inputs[0].index, 1);
    assert_eq!(body.inputs[1].id, vec![8; 32]);
    assert_eq!(body.inputs[1].index, 0);
}

#[test]
fn byron_output_address_is_flattened() {
    let body = TransactionBody::decode(Era::Byron, byron_tx(), 0, None).unwrap();
    assert_eq!(body.outputs.len(), 1);
    let out = &body.outputs[0];
    assert_eq!(out.amount.coin, 1_000_000);
    assert!(out.amount.multi_asset.is_empty());
    assert!(out.datum.is_none());
    assert_eq!(out.address, vec![0x83u8, 0x41, 0x01, 0xa0, 0x00]);
    assert_eq!(out.address, byron_address().payload.0.to_vec());
}

#[test]
fn byron_slots_count_short_epochs() {
    let first = Block::decode(&byron_block(0, 0, 1), &vec![]).unwrap();
    assert_eq!(first.slot, 0);
    let last = Block::decode(&byron_block(207, 21599, 1), &vec![]).unwrap();
    assert_eq!(last.slot, 4492799);
    let later = Block::decode(&byron_block(208, 5, 1), &vec![]).unwrap();
    assert_eq!(later.slot, 4492805);
    let far = Block::decode(&byron_block(0xffff_ffff, 0xffff_ffff, 1), &vec![]).unwrap();
    assert_eq!(far.slot, 4492800 + (0xffff_ffffu64 - 208) * 432000 + 0xffff_ffff);
}

#[test]
fn byron_block_with_fields_out_of_bounds_does_not_decode() {
    assert!(Block::decode(&byron_block(0x1_0000_0000, 0, 1), &vec![]).is_none());
    assert!(Block::decode(&byron_block(0, 0x1_0000_0000, 1), &vec![]).is_none());
    assert!(Block::decode(&byron_block(u64::MAX, u64::MAX, 1), &vec![]).is_none());
}

#[test]
fn peer_roll_forward_with_byron_header() {
    let mut session = ClientWrapper::connect(2).unwrap();
    session.chain_sync_next().unwrap();
    let header = byron_header(2, 7, 1);
    let step = session
        .chain_sync_reply(SyncEvent::RollForwardHeader(0, header, ChainPoint::Origin))
        .unwrap();
    match step {
        SyncStep::Fetch(ChainPoint::Specific(slot, hash), pending) => {
            assert_eq!(slot, 2 * 21600 + 7);
            assert_eq!(hash.len(), 32);
            assert_eq!(pending.response.tip, Some(Point::new(0, vec![])));
        }
        other => panic!("expected a fetch, got {:?}", other),
    }
}

#[test]
fn peer_roll_forward_with_byron_header_out_of_bounds_degrades() {
    let mut session = ClientWrapper::connect(2).unwrap();
    session.chain_sync_next().unwrap();
    let header = byron_header(u64::MAX, 1, 1);
    let step = session
        .chain_sync_reply(SyncEvent::RollForwardHeader(0, header, ChainPoint::Origin))
        .unwrap();
    match step {
        SyncStep::Reply(r) => assert_eq!(r.action, 0),
        other => panic!("expected a reply, got {:?}", other),
    }
}
