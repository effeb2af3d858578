//! Submitting one transaction to a peer that pulls.
//!
//! On a node-to-node connection the peer asks and the client answers: the
//! client opens the protocol, the peer asks for transaction ids, then for
//! the transactions behind them, then polls for more until it is told that
//! there are none. [`TxSubmission`] holds one pending transaction and says,
//! for each request of the peer, what to answer.

use vstd::prelude::*;
use crate::bytes::{append_bytes, copy_bytes};
use crate::codec::{decode_tx_identity, tx_identity, HASH_BYTES};
use crate::era::Era;
use crate::error::DriverError;

verus! {

/// Where a submission stands.
#[derive(Clone, Copy, Debug, PartialEq, Eq, Structural)]
pub enum TxState {
    /// Nothing was sent yet.
    Init,
    /// The protocol is open; the peer's first request for ids is awaited.
    AwaitingIds,
    /// The id was announced; the peer's request for the transaction is
    /// awaited.
    AwaitingTxs,
    /// The transaction was sent; the peer polls for more.
    Draining,
    /// The client has closed the protocol.
    Done,
    /// The peer broke the protocol. Nothing more will be answered.
    Failed,
}

/// A request of the peer.
#[derive(Debug)]
pub enum TxRequest {
    /// A request for transaction ids. A blocking request is answered only
    /// when there is something to announce.
    TxIds { blocking: bool },
    /// A request for the transactions with these ids.
    Txs(Vec<Vec<u8>>),
}

/// Mathematical model of [`TxRequest`].
pub enum TxRequestModel {
    TxIds { blocking: bool },
    Txs(Seq<Seq<u8>>),
}

impl View for TxRequest {
    type V = TxRequestModel;

    open spec fn view(&self) -> TxRequestModel {
        match *self {
            TxRequest::TxIds { blocking } => TxRequestModel::TxIds { blocking },
            TxRequest::Txs(ids) => TxRequestModel::Txs(ids@.map_values(|id: Vec<u8>| id@)),
        }
    }
}

/// A message for the peer.
#[derive(Debug)]
pub enum TxAction {
    /// Open the protocol.
    Init,
    /// Announce one transaction: its era tag, its id and its size in bytes.
    AnnounceTx { era: u16, id: Vec<u8>, size: u32 },
    /// Announce that there is nothing more.
    AnnounceNothing,
    /// Send one transaction: its era tag and its bytes.
    SendTx { era: u16, body: Vec<u8> },
    /// Close the protocol.
    Done,
}

/// Mathematical model of [`TxAction`].
pub enum TxActionModel {
    Init,
    AnnounceTx { era: u16, id: Seq<u8>, size: u32 },
    AnnounceNothing,
    SendTx { era: u16, body: Seq<u8> },
    Done,
}

impl View for TxAction {
    type V = TxActionModel;

    open spec fn view(&self) -> TxActionModel {
        match *self {
            TxAction::Init => TxActionModel::Init,
            TxAction::AnnounceTx { era, id, size } => TxActionModel::AnnounceTx {
                era,
                id: id@,
                size,
            },
            TxAction::AnnounceNothing => TxActionModel::AnnounceNothing,
            TxAction::SendTx { era, body } => TxActionModel::SendTx { era, body: body@ },
            TxAction::Done => TxActionModel::Done,
        }
    }
}

/// The submission of one transaction.
#[derive(Debug)]
pub struct TxSubmission {
    state: TxState,
    era: Era,
    id: Vec<u8>,
    body: Vec<u8>,
    acknowledged: Vec<u8>,
}

/// Mathematical model of [`TxSubmission`].
pub struct TxSubmissionModel {
    pub state: TxState,
    pub era: Era,
    pub id: Seq<u8>,
    pub body: Seq<u8>,
    /// The id bytes that the peer has asked for, in the order asked.
    pub acknowledged: Seq<u8>,
}

/// All the ids of a request, one after the other.
pub open spec fn concat_ids(ids: Seq<Seq<u8>>) -> Seq<u8>
    decreases ids.len(),
{
    if ids.len() == 0 {
        Seq::empty()
    } else {
        concat_ids(ids.drop_last()) + ids.last()
    }
}

impl TxSubmissionModel {
    /// A model with another state.
    pub open spec fn at(self, state: TxState) -> TxSubmissionModel {
        TxSubmissionModel { state, ..self }
    }

    /// The submission after the protocol was opened, and the opening
    /// message; only a fresh submission can be opened.
    pub open spec fn open(self) -> (TxSubmissionModel, Result<TxActionModel, DriverError>) {
        if self.state == TxState::Init {
            (self.at(TxState::AwaitingIds), Ok(TxActionModel::Init))
        } else {
            (self, Err(DriverError::OutOfTurn))
        }
    }

    /// The submission after a request of the peer, and the answer to it.
    /// A request that is illegal where the submission stands fails the
    /// submission for good.
    pub open spec fn step(self, request: TxRequestModel) -> (
        TxSubmissionModel,
        Result<TxActionModel, DriverError>,
    ) {
        match (self.state, request) {
            (TxState::AwaitingIds, TxRequestModel::TxIds { .. }) => (
                self.at(TxState::AwaitingTxs),
                Ok(
                    TxActionModel::AnnounceTx {
                        era: self.era.spec_tag(),
                        id: self.id,
                        size: self.body.len() as u32,
                    },
                ),
            ),
            (TxState::AwaitingTxs, TxRequestModel::Txs(ids)) => (
                TxSubmissionModel {
                    state: TxState::Draining,
                    acknowledged: concat_ids(ids),
                    ..self
                },
                Ok(TxActionModel::SendTx { era: self.era.spec_tag(), body: self.body }),
            ),
            (TxState::Draining, TxRequestModel::TxIds { blocking }) => {
                if blocking {
                    (self.at(TxState::Done), Ok(TxActionModel::Done))
                } else {
                    (self, Ok(TxActionModel::AnnounceNothing))
                }
            },
            _ => (self.at(TxState::Failed), Err(DriverError::ProtocolViolation)),
        }
    }
}

/// The submission that is prepared for the transaction that `tx`
/// encodes: fresh, under the era and the id that the codec reads from the
/// bytes, and holding the bytes as they came. There is none where the
/// bytes encode no transaction or are too many to announce.
pub open spec fn fresh_submission(tx: Seq<u8>) -> Option<TxSubmissionModel> {
    match tx_identity(tx) {
        Some((era, id)) => if tx.len() <= u32::MAX {
            Some(
                TxSubmissionModel {
                    state: TxState::Init,
                    era: Era::spec_from_wire_id(era),
                    id,
                    body: tx,
                    acknowledged: Seq::empty(),
                },
            )
        } else {
            None
        },
        None => None,
    }
}

impl View for TxSubmission {
    type V = TxSubmissionModel;

    closed spec fn view(&self) -> TxSubmissionModel {
        TxSubmissionModel {
            state: self.state,
            era: self.era,
            id: self.id@,
            body: self.body@,
            acknowledged: self.acknowledged@,
        }
    }
}

/// Joins the ids of a request.
pub fn join_ids(ids: &Vec<Vec<u8>>) -> (joined: Vec<u8>)
    ensures
        joined@ == concat_ids(ids@.map_values(|id: Vec<u8>| id@)),
{
    let ghost all = ids@.map_values(|id: Vec<u8>| id@);
    let mut joined: Vec<u8> = Vec::new();
    let mut i: usize = 0;
    while i < ids.len()
        invariant
            i <= ids.len(),
            all == ids@.map_values(|id: Vec<u8>| id@),
            joined@ == concat_ids(all.take(i as int)),
        decreases ids.len() - i,
    {
        append_bytes(&mut joined, &ids[i]);
        proof {
            let next = all.take(i + 1);
            assert(next.drop_last() =~= all.take(i as int));
            assert(next.last() == ids@[i as int]@);
        }
        i += 1;
    }
    proof {
        assert(all.take(ids.len() as int) =~= all);
    }
    joined
}

impl TxSubmission {
    /// A submission is made of a transaction small enough to announce.
    pub open spec fn wf(&self) -> bool {
        self@.body.len() <= u32::MAX
    }

    /// Prepares the submission of the transaction that `tx` encodes. Bytes
    /// that are no transaction are refused, and so is a transaction whose
    /// size does not fit the announcement.
    pub fn start(tx: Vec<u8>) -> (submission: Result<TxSubmission, DriverError>)
        ensures
            match submission {
                Ok(s) => {
                    &&& fresh_submission(tx@) == Some(s@)
                    &&& s.wf()
                    &&& s@.id.len() == HASH_BYTES
                },
                Err(e) => fresh_submission(tx@) is None && e == if tx_identity(tx@) is None {
                    DriverError::Undecodable
                } else {
                    DriverError::Oversized
                },
            },
    {
        match decode_tx_identity(tx.as_slice()) {
            None => Err(DriverError::Undecodable),
            Some((era, id)) => Self::with_identity(Era::from_wire_id(era), id, tx),
        }
    }

    /// Prepares the submission of a transaction whose era and id are known.
    pub fn with_identity(era: Era, id: Vec<u8>, body: Vec<u8>) -> (submission: Result<
        TxSubmission,
        DriverError,
    >)
        ensures
            match submission {
                Ok(s) => body@.len() <= u32::MAX && s.wf() && s@ == (TxSubmissionModel {
                    state: TxState::Init,
                    era,
                    id: id@,
                    body: body@,
                    acknowledged: Seq::<u8>::empty(),
                }),
                Err(e) => body@.len() > u32::MAX && e == DriverError::Oversized,
            },
    {
        if body.len() > 0xffff_ffff {
            Err(DriverError::Oversized)
        } else {
            Ok(TxSubmission { state: TxState::Init, era, id, body, acknowledged: Vec::new() })
        }
    }

    /// Where the submission stands.
    pub fn state(&self) -> (state: TxState)
        ensures
            state == self@.state,
    {
        self.state
    }

    /// Opens the protocol: the first message of a fresh submission.
    pub fn open(&mut self) -> (action: Result<TxAction, DriverError>)
        requires
            old(self).wf(),
        ensures
            final(self).wf(),
            final(self)@ == old(self)@.open().0,
            match action {
                Ok(a) => old(self)@.open().1 == Ok::<TxActionModel, DriverError>(a@),
                Err(e) => old(self)@.open().1 == Err::<TxActionModel, DriverError>(e),
            },
    {
        match self.state {
            TxState::Init => {
                self.state = TxState::AwaitingIds;
                Ok(TxAction::Init)
            },
            _ => Err(DriverError::OutOfTurn),
        }
    }

    /// Answers a request of the peer.
    pub fn step(&mut self, request: TxRequest) -> (action: Result<TxAction, DriverError>)
        requires
            old(self).wf(),
        ensures
            final(self).wf(),
            final(self)@ == old(self)@.step(request@).0,
            match action {
                Ok(a) => old(self)@.step(request@).1 == Ok::<TxActionModel, DriverError>(a@),
                Err(e) => old(self)@.step(request@).1 == Err::<TxActionModel, DriverError>(e),
            },
    {
        match request {
            TxRequest::TxIds { blocking } => {
                match self.state {
                    TxState::AwaitingIds => {
                        self.state = TxState::AwaitingTxs;
                        Ok(
                            TxAction::AnnounceTx {
                                era: self.era.tag(),
                                id: copy_bytes(&self.id),
                                size: self.body.len() as u32,
                            },
                        )
                    },
                    TxState::Draining => {
                        if blocking {
                            self.state = TxState::Done;
                            Ok(TxAction::Done)
                        } else {
                            Ok(TxAction::AnnounceNothing)
                        }
                    },
                    _ => {
                        self.state = TxState::Failed;
                        Err(DriverError::ProtocolViolation)
                    },
                }
            },
            TxRequest::Txs(ids) => {
                match self.state {
                    TxState::AwaitingTxs => {
                        self.state = TxState::Draining;
                        self.acknowledged = join_ids(&ids);
                        Ok(TxAction::SendTx { era: self.era.tag(), body: copy_bytes(&self.body) })
                    },
                    _ => {
                        self.state = TxState::Failed;
                        Err(DriverError::ProtocolViolation)
                    },
                }
            },
        }
    }

    /// The id bytes that the peer has asked for so far: what a finished
    /// submission returns.
    pub fn acknowledged(&self) -> (ids: Vec<u8>)
        ensures
            ids@ == self@.acknowledged,
    {
        copy_bytes(&self.acknowledged)
    }
}

/// With one pending transaction, a peer that asks for ids, then for the
/// transaction it was told of, then polls once without blocking and once
/// blocking, is answered by exactly five messages: the opening, the
/// announcement of the one transaction, the transaction itself, an empty
/// announcement, and the closing. What the finished submission returns is
/// the id of the transaction.
pub proof fn lemma_single_transaction_handshake(fresh: TxSubmissionModel, first_blocking: bool)
    requires
        fresh.state == TxState::Init,
    ensures
        ({
            let tag = fresh.era.spec_tag();
            let (opened, a1) = fresh.open();
            let (announced, a2) = opened.step(TxRequestModel::TxIds { blocking: first_blocking });
            let (sent, a3) = announced.step(TxRequestModel::Txs(seq![fresh.id]));
            let (polled, a4) = sent.step(TxRequestModel::TxIds { blocking: false });
            let (closed, a5) = polled.step(TxRequestModel::TxIds { blocking: true });
            &&& a1 == Ok::<TxActionModel, DriverError>(TxActionModel::Init)
            &&& a2 == Ok::<TxActionModel, DriverError>(
                TxActionModel::AnnounceTx { era: tag, id: fresh.id, size: fresh.body.len() as u32 },
            )
            &&& a3 == Ok::<TxActionModel, DriverError>(
                TxActionModel::SendTx { era: tag, body: fresh.body },
            )
            &&& a4 == Ok::<TxActionModel, DriverError>(TxActionModel::AnnounceNothing)
            &&& a5 == Ok::<TxActionModel, DriverError>(TxActionModel::Done)
            &&& closed.state == TxState::Done
            &&& closed.acknowledged == fresh.id
        }),
{
    let ids = seq![fresh.id];
    assert(ids.drop_last() =~= Seq::<Seq<u8>>::empty());
    assert(concat_ids(ids.drop_last()) =~= Seq::<u8>::empty());
    assert(ids.last() == fresh.id);
    assert(concat_ids(ids) =~= fresh.id);
}

/// For every transaction that decodes and is small enough to announce, a
/// peer that asks for ids, blocking or not, then for the transaction it
/// was told of, then polls once without blocking and once blocking, is
/// answered by exactly five messages, each after the request it answers:
/// the opening; the announcement of one id, under the tag of the
/// transaction's era and with the length of its bytes; the transaction,
/// under the same tag and as the very bytes that came in; an empty
/// announcement; and the closing. What the finished submission returns is
/// the id of the transaction, which is as long as the id that was read.
pub proof fn lemma_handshake_of_transaction(tx: Seq<u8>, first_blocking: bool)
    requires
        fresh_submission(tx) is Some,
    ensures
        ({
            let fresh = fresh_submission(tx)->0;
            let (wire, id) = tx_identity(tx)->0;
            let tag = Era::spec_from_wire_id(wire).spec_tag();
            let (opened, a1) = fresh.open();
            let (announced, a2) = opened.step(TxRequestModel::TxIds { blocking: first_blocking });
            let (sent, a3) = announced.step(TxRequestModel::Txs(seq![id]));
            let (polled, a4) = sent.step(TxRequestModel::TxIds { blocking: false });
            let (closed, a5) = polled.step(TxRequestModel::TxIds { blocking: true });
            &&& a1 == Ok::<TxActionModel, DriverError>(TxActionModel::Init)
            &&& a2 == Ok::<TxActionModel, DriverError>(
                TxActionModel::AnnounceTx { era: tag, id, size: tx.len() as u32 },
            )
            &&& a3 == Ok::<TxActionModel, DriverError>(TxActionModel::SendTx { era: tag, body: tx })
            &&& a4 == Ok::<TxActionModel, DriverError>(TxActionModel::AnnounceNothing)
            &&& a5 == Ok::<TxActionModel, DriverError>(TxActionModel::Done)
            &&& closed.state == TxState::Done
            &&& closed.acknowledged == id
            &&& id.len() == HASH_BYTES ==> closed.acknowledged.len() == HASH_BYTES
        }),
{
    lemma_single_transaction_handshake(fresh_submission(tx)->0, first_blocking);
}

/// A request for transactions before any id was announced, or any request
/// that comes when another was due, fails the submission, and a failed or
/// closed submission answers nothing more.
pub proof fn lemma_violation_is_final(m: TxSubmissionModel, request: TxRequestModel)
    ensures
        (m.state == TxState::Failed || m.state == TxState::Done || m.state == TxState::Init)
            ==> m.step(request) == (
            m.at(TxState::Failed),
            Err::<TxActionModel, DriverError>(DriverError::ProtocolViolation),
        ),
        (m.state == TxState::AwaitingIds && request is Txs) ==> m.step(request).1 == Err::<
            TxActionModel,
            DriverError,
        >(DriverError::ProtocolViolation),
        m.step(request).1 is Err ==> m.step(request).0.state == TxState::Failed,
{
}

} // verus!
