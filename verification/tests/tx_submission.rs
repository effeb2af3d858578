use pallas_dotnet_rs::era::Era;
use pallas_dotnet_rs::error::DriverError;
use pallas_dotnet_rs::session::{ClientWrapper, SubmitOutcome, Submission};
use pallas_dotnet_rs::txsubmission::{join_ids, TxAction, TxRequest, TxState, TxSubmission};

const MINIMAL_TX: &str = "84a300d90102818258200000000000000000000000000000000000000000000000000000000000000000000181a2005839019493315cd92eb5d8c4304e67b7e16ae36d61d34502694657811a2c8e337b62cfff6403a06a3acbc34f8c46003c69fe79a3628cefa9c47251011a001e8480021a00029810a0f5f6";
const MINIMAL_TX_HASH: &str = "31132bf0c929f0877e298efccfd99b6ace0c546492c7fb5c8d096a2046cee184";

fn minimal_tx() -> Vec<u8> {
    hex::decode(MINIMAL_TX).unwrap()
}

fn minimal_hash() -> Vec<u8> {
    hex::decode(MINIMAL_TX_HASH).unwrap()
}

#[test]
fn handshake_with_one_pending_transaction() {
    let tx = minimal_tx();
    let mut s = TxSubmission::start(tx.clone()).unwrap();
    assert_eq!(s.state(), TxState::Init);

    assert!(matches!(s.open(), Ok(TxAction::Init)));
    assert_eq!(s.state(), TxState::AwaitingIds);

    match s.step(TxRequest::TxIds { blocking: true }) {
        Ok(TxAction::AnnounceTx { era, id, size }) => {
            assert_eq!(era, 6);
            assert_eq!(id, minimal_hash());
            assert_eq!(size, 121);
        }
        other => panic!("unexpected answer {:?}", other),
    }
    assert_eq!(s.state(), TxState::AwaitingTxs);

    match s.step(TxRequest::Txs(vec![minimal_hash()])) {
        Ok(TxAction::SendTx { era, body }) => {
            assert_eq!(era, 6);
            assert_eq!(body, tx);
        }
        other => panic!("unexpected answer {:?}", other),
    }
    assert_eq!(s.state(), TxState::Draining);

    assert!(matches!(s.step(TxRequest::TxIds { blocking: false }), Ok(TxAction::AnnounceNothing)));
    assert_eq!(s.state(), TxState::Draining);

    assert!(matches!(s.step(TxRequest::TxIds { blocking: true }), Ok(TxAction::Done)));
    assert_eq!(s.state(), TxState::Done);
    assert_eq!(s.acknowledged(), minimal_hash());
}

#[test]
fn first_request_may_be_non_blocking() {
    let mut s = TxSubmission::start(minimal_tx()).unwrap();
    s.open().unwrap();
    assert!(matches!(
        s.step(TxRequest::TxIds { blocking: false }),
        Ok(TxAction::AnnounceTx { .. })
    ));
}

#[test]
fn polls_are_answered_until_the_peer_blocks() {
    let mut s = TxSubmission::start(minimal_tx()).unwrap();
    s.open().unwrap();
    s.step(TxRequest::TxIds { blocking: true }).unwrap();
    s.step(TxRequest::Txs(vec![minimal_hash()])).unwrap();
    for _ in 0..3 {
        assert!(matches!(
            s.step(TxRequest::TxIds { blocking: false }),
            Ok(TxAction::AnnounceNothing)
        ));
    }
    assert!(matches!(s.step(TxRequest::TxIds { blocking: true }), Ok(TxAction::Done)));
}

#[test]
fn blocking_poll_right_after_the_transaction_closes() {
    let mut s = TxSubmission::start(minimal_tx()).unwrap();
    s.open().unwrap();
    s.step(TxRequest::TxIds { blocking: true }).unwrap();
    s.step(TxRequest::Txs(vec![minimal_hash()])).unwrap();
    assert!(matches!(s.step(TxRequest::TxIds { blocking: true }), Ok(TxAction::Done)));
    assert_eq!(s.state(), TxState::Done);
}

#[test]
fn txs_before_ids_is_a_violation() {
    let mut s = TxSubmission::start(minimal_tx()).unwrap();
    s.open().unwrap();
    assert_eq!(s.step(TxRequest::Txs(vec![minimal_hash()])).unwrap_err(), DriverError::ProtocolViolation);
    assert_eq!(s.state(), TxState::Failed);
    assert_eq!(
        s.step(TxRequest::TxIds { blocking: true }).unwrap_err(),
        DriverError::ProtocolViolation
    );
    assert_eq!(s.state(), TxState::Failed);
}

#[test]
fn ids_twice_is_a_violation() {
    let mut s = TxSubmission::start(minimal_tx()).unwrap();
    s.open().unwrap();
    s.step(TxRequest::TxIds { blocking: true }).unwrap();
    assert_eq!(
        s.step(TxRequest::TxIds { blocking: false }).unwrap_err(),
        DriverError::ProtocolViolation
    );
}

#[test]
fn request_before_opening_is_a_violation() {
    let mut s = TxSubmission::start(minimal_tx()).unwrap();
    assert_eq!(
        s.step(TxRequest::TxIds { blocking: true }).unwrap_err(),
        DriverError::ProtocolViolation
    );
}

#[test]
fn request_after_closing_is_a_violation() {
    let mut s = TxSubmission::start(minimal_tx()).unwrap();
    s.open().unwrap();
    s.step(TxRequest::TxIds { blocking: true }).unwrap();
    s.step(TxRequest::Txs(vec![minimal_hash()])).unwrap();
    s.step(TxRequest::TxIds { blocking: true }).unwrap();
    assert_eq!(
        s.step(TxRequest::TxIds { blocking: true }).unwrap_err(),
        DriverError::ProtocolViolation
    );
    assert_eq!(s.state(), TxState::Failed);
}

#[test]
fn opening_twice_is_out_of_turn() {
    let mut s = TxSubmission::start(minimal_tx()).unwrap();
    s.open().unwrap();
    assert_eq!(s.open().unwrap_err(), DriverError::OutOfTurn);
    assert_eq!(s.state(), TxState::AwaitingIds);
}

#[test]
fn undecodable_transaction_is_refused() {
    assert_eq!(TxSubmission::start(vec![]).unwrap_err(), DriverError::Undecodable);
    assert_eq!(TxSubmission::start(vec![0xff, 0x00]).unwrap_err(), DriverError::Undecodable);
}

#[test]
fn acknowledged_ids_are_joined_in_order() {
    let mut s = TxSubmission::with_identity(Era::Alonzo, vec![9, 9], vec![1, 2, 3]).unwrap();
    s.open().unwrap();
    match s.step(TxRequest::TxIds { blocking: true }) {
        Ok(TxAction::AnnounceTx { era, id, size }) => {
            assert_eq!(era, 4);
            assert_eq!(id, vec![9, 9]);
            assert_eq!(size, 3);
        }
        other => panic!("unexpected answer {:?}", other),
    }
    s.step(TxRequest::Txs(vec![vec![1, 2], vec![], vec![3]])).unwrap();
    assert_eq!(s.acknowledged(), vec![1, 2, 3]);
    assert_eq!(join_ids(&vec![]), Vec::<u8>::new());
    assert_eq!(join_ids(&vec![vec![7], vec![8, 9]]), vec![7, 8, 9]);
}

#[test]
fn session_pushes_on_node_to_client() {
    let session = ClientWrapper::connect(1).unwrap();
    match session.submit_tx(minimal_tx()) {
        Ok(Submission::Push { era, body }) => {
            assert_eq!(era, 6);
            assert_eq!(body, minimal_tx());
        }
        other => panic!("unexpected submission {:?}", other),
    }
    assert_eq!(session.submit_tx(vec![1, 2, 3]).unwrap_err(), DriverError::Undecodable);
}

#[test]
fn session_offers_on_node_to_node() {
    let session = ClientWrapper::connect(2).unwrap();
    match session.submit_tx(minimal_tx()) {
        Ok(Submission::Pull(s)) => assert_eq!(s.state(), TxState::Init),
        other => panic!("unexpected submission {:?}", other),
    }
    assert_eq!(session.submit_tx(vec![1, 2, 3]).unwrap_err(), DriverError::Undecodable);
}

#[test]
fn rejection_is_surfaced_as_it_came() {
    assert!(matches!(ClientWrapper::submit_outcome(None), SubmitOutcome::Accepted));
    match ClientWrapper::submit_outcome(Some(vec![0x82, 0x01, 0x02])) {
        SubmitOutcome::Rejected(reason) => assert_eq!(reason, vec![0x82, 0x01, 0x02]),
        other => panic!("unexpected outcome {:?}", other),
    }
    assert!(matches!(ClientWrapper::submit_outcome(Some(vec![])), SubmitOutcome::Rejected(_)));
}
