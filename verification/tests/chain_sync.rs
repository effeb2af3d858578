use pallas_dotnet_rs::error::DriverError;
use pallas_dotnet_rs::placeholder::rollback_block_cbor;
use pallas_dotnet_rs::point::{ChainPoint, Point};
use pallas_dotnet_rs::response::{NextResponse, PendingFetch, SyncEvent, SyncRequest, SyncStep};
use pallas_dotnet_rs::session::{ClientWrapper, SyncState, TipQuery};

fn known_hash() -> Vec<u8> {
    hex::decode("a9e9dd7b0f1e2d3c4b5a69788796a5b4c3d2e1f00112233445566778899aabbc").unwrap()
}

fn tagged_conway_block(slot: u64) -> Vec<u8> {
    let mut bytes = vec![0x82, 0x07];
    bytes.extend_from_slice(&rollback_block_cbor(slot));
    bytes
}

fn babbage_header(slot: u64) -> Vec<u8> {
    let block = rollback_block_cbor(slot);
    // The header is the first part of the block: it ends where the four
    // empty parts begin.
    block[1..block.len() - 4].to_vec()
}

fn reply(step: Result<SyncStep, DriverError>) -> NextResponse {
    match step {
        Ok(SyncStep::Reply(r)) => r,
        other => panic!("expected a reply, got {:?}", other),
    }
}

#[test]
fn connect_accepts_the_two_kinds() {
    let client = ClientWrapper::connect(1).unwrap();
    assert_eq!(client.client(), 1);
    assert_eq!(client.state(), SyncState::Idle);
    let peer = ClientWrapper::connect(2).unwrap();
    assert_eq!(peer.client(), 2);
    assert_eq!(ClientWrapper::connect(0).unwrap_err(), DriverError::UnknownClient);
    assert_eq!(ClientWrapper::connect(3).unwrap_err(), DriverError::UnknownClient);
    assert_eq!(ClientWrapper::connect(255).unwrap_err(), DriverError::UnknownClient);
}

#[test]
fn has_agency_is_stable_between_calls() {
    let mut session = ClientWrapper::connect(1).unwrap();
    assert!(session.has_agency());
    assert!(session.has_agency());
    session.chain_sync_next().unwrap();
    assert!(!session.has_agency());
    assert!(!session.has_agency());
}

#[test]
fn find_intersect_with_known_block() {
    let mut session = ClientWrapper::connect(2).unwrap();
    let candidates = session.find_intersect(vec![Point::new(35197575, known_hash())]).unwrap();
    assert_eq!(candidates, vec![ChainPoint::Specific(35197575, known_hash())]);
    assert_eq!(session.state(), SyncState::Intersecting);
    assert!(!session.has_agency());
    let found = session
        .intersect_found(Some(ChainPoint::Specific(35197575, known_hash())))
        .unwrap();
    assert_eq!(found, Some(Point::new(35197575, known_hash())));
    assert!(session.has_agency());
}

#[test]
fn find_intersect_without_common_point() {
    let mut session = ClientWrapper::connect(1).unwrap();
    session.find_intersect(vec![Point::new(35197575, known_hash())]).unwrap();
    assert_eq!(session.intersect_found(None).unwrap(), None);
    assert_eq!(session.state(), SyncState::Idle);
}

#[test]
fn find_intersect_offers_each_record_as_what_it_stands_for() {
    let mut session = ClientWrapper::connect(1).unwrap();
    let candidates = session
        .find_intersect(vec![
            Point::new(0, known_hash()),
            Point::new(2, vec![3]),
            Point::origin(),
            Point::new(0, vec![1]),
        ])
        .unwrap();
    assert_eq!(
        candidates,
        vec![
            ChainPoint::Specific(0, known_hash()),
            ChainPoint::Specific(2, vec![3]),
            ChainPoint::Origin,
            ChainPoint::Specific(0, vec![1]),
        ]
    );
    let found = session.intersect_found(Some(ChainPoint::Origin)).unwrap();
    assert_eq!(found, Some(Point::new(0, vec![])));
}

#[test]
fn find_intersect_out_of_turn() {
    let mut session = ClientWrapper::connect(1).unwrap();
    session.chain_sync_next().unwrap();
    assert_eq!(session.find_intersect(vec![]).unwrap_err(), DriverError::OutOfTurn);
    assert_eq!(session.state(), SyncState::CanAwait);
    assert_eq!(session.intersect_found(None).unwrap_err(), DriverError::OutOfTurn);
}

#[test]
fn next_requests_when_idle_and_awaits_when_owed() {
    let mut session = ClientWrapper::connect(1).unwrap();
    assert_eq!(session.chain_sync_next().unwrap(), SyncRequest::RequestNext);
    assert_eq!(session.state(), SyncState::CanAwait);
    assert_eq!(session.chain_sync_next().unwrap(), SyncRequest::AwaitReply);
    assert_eq!(session.state(), SyncState::CanAwait);
    let r = reply(session.chain_sync_reply(SyncEvent::Await));
    assert_eq!(r.action, 3);
    assert_eq!(r.tip, None);
    assert_eq!(r.block_cbor, None);
    assert_eq!(session.state(), SyncState::MustReply);
    assert_eq!(session.chain_sync_next().unwrap(), SyncRequest::AwaitReply);
    assert_eq!(session.state(), SyncState::MustReply);
}

#[test]
fn await_twice_is_a_violation() {
    let mut session = ClientWrapper::connect(1).unwrap();
    session.chain_sync_next().unwrap();
    session.chain_sync_reply(SyncEvent::Await).unwrap();
    session.chain_sync_next().unwrap();
    assert_eq!(
        session.chain_sync_reply(SyncEvent::Await).unwrap_err(),
        DriverError::ProtocolViolation
    );
    assert_eq!(session.state(), SyncState::MustReply);
}

#[test]
fn next_is_refused_while_intersecting() {
    let mut session = ClientWrapper::connect(1).unwrap();
    session.find_intersect(vec![Point::origin()]).unwrap();
    assert_eq!(session.chain_sync_next().unwrap_err(), DriverError::OutOfTurn);
    assert_eq!(session.state(), SyncState::Intersecting);
}

#[test]
fn failed_exchange_is_drained_by_the_next_call() {
    let mut session = ClientWrapper::connect(1).unwrap();
    session.chain_sync_next().unwrap();
    session.chain_sync_reply(SyncEvent::Failed).unwrap();
    assert_eq!(session.chain_sync_next().unwrap(), SyncRequest::AwaitReply);
    let r = reply(session.chain_sync_reply(SyncEvent::RollBackward(ChainPoint::Origin, ChainPoint::Origin)));
    assert_eq!(r.action, 2);
    assert!(session.has_agency());
}

#[test]
fn reply_without_request_is_out_of_turn() {
    let mut session = ClientWrapper::connect(1).unwrap();
    assert_eq!(session.chain_sync_reply(SyncEvent::Await).unwrap_err(), DriverError::OutOfTurn);
    assert_eq!(session.state(), SyncState::Idle);
}

#[test]
fn client_roll_forward_strips_the_era_tag() {
    let mut session = ClientWrapper::connect(1).unwrap();
    session.chain_sync_next().unwrap();
    let tip = ChainPoint::Specific(100, known_hash());
    let r = reply(session.chain_sync_reply(SyncEvent::RollForwardBlock(tagged_conway_block(42), tip)));
    assert_eq!(r.action, 1);
    assert_eq!(r.tip, Some(Point::new(100, known_hash())));
    assert_eq!(r.block_cbor, Some(rollback_block_cbor(42)));
    assert!(session.has_agency());
}

#[test]
fn client_roll_forward_after_await() {
    let mut session = ClientWrapper::connect(1).unwrap();
    session.chain_sync_next().unwrap();
    session.chain_sync_reply(SyncEvent::Await).unwrap();
    session.chain_sync_next().unwrap();
    let r = reply(
        session.chain_sync_reply(SyncEvent::RollForwardBlock(tagged_conway_block(1), ChainPoint::Origin)),
    );
    assert_eq!(r.action, 1);
    assert_eq!(r.tip, Some(Point::new(0, vec![])));
    assert_eq!(session.state(), SyncState::Idle);
}

#[test]
fn client_roll_forward_with_bad_block_degrades() {
    let mut session = ClientWrapper::connect(1).unwrap();
    session.chain_sync_next().unwrap();
    let tip = ChainPoint::Specific(100, known_hash());
    let r = reply(session.chain_sync_reply(SyncEvent::RollForwardBlock(vec![0x01, 0x02], tip)));
    assert_eq!(r.action, 0);
    assert_eq!(r.tip, None);
    assert_eq!(r.block_cbor, None);
    assert!(session.has_agency());
}

#[test]
fn client_roll_backward_carries_the_slot() {
    let mut session = ClientWrapper::connect(1).unwrap();
    session.chain_sync_next().unwrap();
    let r = reply(session.chain_sync_reply(SyncEvent::RollBackward(
        ChainPoint::Specific(35197575, known_hash()),
        ChainPoint::Specific(35197600, vec![1; 32]),
    )));
    assert_eq!(r.action, 2);
    assert_eq!(r.tip, Some(Point::new(35197600, vec![1; 32])));
    assert_eq!(r.block_cbor, Some(rollback_block_cbor(35197575)));
    assert!(session.has_agency());
}

#[test]
fn client_roll_backward_to_origin() {
    let mut session = ClientWrapper::connect(1).unwrap();
    session.chain_sync_next().unwrap();
    let r = reply(session.chain_sync_reply(SyncEvent::RollBackward(ChainPoint::Origin, ChainPoint::Origin)));
    assert_eq!(r.action, 2);
    assert_eq!(r.block_cbor, Some(rollback_block_cbor(0)));
}

#[test]
fn failed_exchange_reports_an_error_and_keeps_the_state() {
    let mut session = ClientWrapper::connect(2).unwrap();
    session.chain_sync_next().unwrap();
    let r = reply(session.chain_sync_reply(SyncEvent::Failed));
    assert_eq!(r.action, 0);
    assert_eq!(r.tip, None);
    assert_eq!(r.block_cbor, None);
    assert_eq!(session.state(), SyncState::CanAwait);
}

#[test]
fn header_on_client_connection_is_wrong_mode() {
    let mut session = ClientWrapper::connect(1).unwrap();
    session.chain_sync_next().unwrap();
    let event = SyncEvent::RollForwardHeader(6, babbage_header(5), ChainPoint::Origin);
    assert_eq!(session.chain_sync_reply(event).unwrap_err(), DriverError::WrongMode);
    assert_eq!(session.state(), SyncState::CanAwait);
}

#[test]
fn block_on_peer_connection_is_wrong_mode() {
    let mut session = ClientWrapper::connect(2).unwrap();
    session.chain_sync_next().unwrap();
    let event = SyncEvent::RollForwardBlock(tagged_conway_block(5), ChainPoint::Origin);
    assert_eq!(session.chain_sync_reply(event).unwrap_err(), DriverError::WrongMode);
}

#[test]
fn peer_roll_forward_asks_for_the_block() {
    let mut session = ClientWrapper::connect(2).unwrap();
    session.chain_sync_next().unwrap();
    let tip = ChainPoint::Specific(900, known_hash());
    let header = babbage_header(777);
    let expected_hash = pallas::crypto::hash::Hasher::<256>::hash(&header).to_vec();
    let step = session.chain_sync_reply(SyncEvent::RollForwardHeader(6, header, tip)).unwrap();
    assert!(session.has_agency());
    match step {
        SyncStep::Fetch(target, pending) => {
            assert_eq!(target, ChainPoint::Specific(777, expected_hash));
            assert_eq!(pending.response.action, 1);
            assert_eq!(pending.response.tip, Some(Point::new(900, known_hash())));
            assert_eq!(pending.response.block_cbor, None);
            let done = ClientWrapper::block_fetched(pending, tagged_conway_block(777));
            assert_eq!(done.action, 1);
            assert_eq!(done.tip, Some(Point::new(900, known_hash())));
            assert_eq!(done.block_cbor, Some(rollback_block_cbor(777)));
        }
        other => panic!("expected a fetch, got {:?}", other),
    }
}

#[test]
fn peer_roll_forward_with_bad_header_degrades() {
    let mut session = ClientWrapper::connect(2).unwrap();
    session.chain_sync_next().unwrap();
    let r = reply(session.chain_sync_reply(SyncEvent::RollForwardHeader(6, vec![0x00], ChainPoint::Origin)));
    assert_eq!(r.action, 0);
    assert_eq!(r.tip, None);
    assert_eq!(r.block_cbor, None);
}

#[test]
fn peer_fetched_block_that_does_not_decode_degrades() {
    let pending = PendingFetch {
        response: NextResponse { action: 1, tip: Some(Point::new(1, vec![2])), block_cbor: None },
    };
    let done = ClientWrapper::block_fetched(pending, vec![0xde, 0xad]);
    assert_eq!(done.action, 0);
    assert_eq!(done.tip, None);
    assert_eq!(done.block_cbor, None);
}

#[test]
fn peer_roll_backward_carries_the_slot_and_no_transactions() {
    let mut session = ClientWrapper::connect(2).unwrap();
    session.chain_sync_next().unwrap();
    let r = reply(session.chain_sync_reply(SyncEvent::RollBackward(
        ChainPoint::Specific(50, vec![5; 32]),
        ChainPoint::Specific(60, vec![6; 32]),
    )));
    assert_eq!(r.action, 2);
    assert_eq!(r.tip, Some(Point::new(60, vec![6; 32])));
    assert_eq!(r.block_cbor, Some(rollback_block_cbor(50)));
    assert!(session.has_agency());
}

#[test]
fn peer_roll_backward_to_slot_zero_block_is_not_the_origin() {
    let mut session = ClientWrapper::connect(2).unwrap();
    session.chain_sync_next().unwrap();
    let r = reply(session.chain_sync_reply(SyncEvent::RollBackward(
        ChainPoint::Specific(0, vec![5; 32]),
        ChainPoint::Origin,
    )));
    assert_eq!(r.action, 2);
    assert_eq!(r.block_cbor, Some(rollback_block_cbor(0)));
}

#[test]
fn peer_roll_backward_to_origin_carries_no_block() {
    let mut session = ClientWrapper::connect(2).unwrap();
    session.chain_sync_next().unwrap();
    let r = reply(session.chain_sync_reply(SyncEvent::RollBackward(
        ChainPoint::Origin,
        ChainPoint::Specific(60, vec![6; 32]),
    )));
    assert_eq!(r.action, 2);
    assert_eq!(r.tip, Some(Point::new(60, vec![6; 32])));
    assert_eq!(r.block_cbor, None);
    assert!(session.has_agency());
}

#[test]
fn fetch_block_is_for_peers_only() {
    let peer = ClientWrapper::connect(2).unwrap();
    assert_eq!(
        peer.fetch_block(Point::new(8, vec![1, 2])).unwrap(),
        ChainPoint::Specific(8, vec![1, 2])
    );
    assert_eq!(
        peer.fetch_block(Point::new(0, known_hash())).unwrap(),
        ChainPoint::Specific(0, known_hash())
    );
    assert_eq!(peer.fetch_block(Point::new(7, vec![])).unwrap(), ChainPoint::Specific(7, vec![]));
    let client = ClientWrapper::connect(1).unwrap();
    assert_eq!(client.fetch_block(Point::new(8, vec![1, 2])).unwrap_err(), DriverError::WrongMode);
    assert_eq!(client.fetch_block(Point::origin()).unwrap_err(), DriverError::WrongMode);
}

#[test]
fn fetch_block_refuses_the_origin() {
    let peer = ClientWrapper::connect(2).unwrap();
    assert_eq!(peer.fetch_block(Point::origin()).unwrap_err(), DriverError::NoBlock);
    assert_eq!(peer.fetch_block(Point::new(0, vec![])).unwrap_err(), DriverError::NoBlock);
}

#[test]
fn tip_is_asked_where_the_mode_allows() {
    let mut client = ClientWrapper::connect(1).unwrap();
    client.acquire(None).unwrap();
    client.acquired(true).unwrap();
    assert_eq!(client.get_tip().unwrap(), TipQuery::StateQuery);
    let mut peer = ClientWrapper::connect(2).unwrap();
    assert_eq!(peer.get_tip().unwrap(), TipQuery::IntersectTip);
    peer.chain_sync_next().unwrap();
    assert_eq!(peer.get_tip().unwrap_err(), DriverError::OutOfTurn);
}

#[test]
fn disconnect_ends_every_conversation() {
    let mut session = ClientWrapper::connect(1).unwrap();
    session.disconnect();
    assert_eq!(session.state(), SyncState::Done);
    assert!(!session.has_agency());
    assert_eq!(session.chain_sync_next().unwrap_err(), DriverError::OutOfTurn);
    assert_eq!(session.chain_sync_reply(SyncEvent::Await).unwrap_err(), DriverError::OutOfTurn);
    assert_eq!(session.find_intersect(vec![]).unwrap_err(), DriverError::OutOfTurn);
}
