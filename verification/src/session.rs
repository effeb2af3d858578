//! The session: which kind of connection it is, where its chain-sync
//! conversation stands, and whether it holds a ledger state to query.
//!
//! A session owns no socket. Each operation comes in two halves: the first
//! says what to send, the second takes what the peer answered and says what
//! the caller gets. Between the two the caller talks to the peer.

use vstd::prelude::*;
use crate::codec::{
    address_from_bech32, bech32_address_bytes, block_reencoding, decode_header_place,
    decode_tx_identity, header_place, header_point, locate_header, reencode_block, tx_identity,
    BlockCbor, BlockCborModel, HASH_BYTES,
};
use crate::domain::{block_of, json_texts, Block, BlockModel};
use crate::era::Era;
use crate::error::DriverError;
use crate::placeholder::{rollback_block, rollback_block_cbor};
use crate::point::{ChainPoint, Point, Position};
use crate::txsubmission::{fresh_submission, TxSubmission};
use crate::response::{
    NextResponse, NextResponseModel, PendingFetch, SyncEvent, SyncEventModel, SyncRequest,
    SyncStep, SyncStepModel, ACTION_ERROR, ACTION_ROLL_BACKWARD, ACTION_ROLL_FORWARD,
};

verus! {

/// Client code of a node-to-client connection.
pub const NODE_TO_CLIENT: u8 = 1;

/// Client code of a node-to-node connection.
pub const NODE_TO_NODE: u8 = 2;

/// Where a chain-sync conversation stands.
#[derive(Clone, Copy, Debug, PartialEq, Eq, Structural)]
pub enum SyncState {
    /// The client may send.
    Idle,
    /// The client asked for a common point and waits for the answer.
    Intersecting,
    /// The client asked for the next block and waits for the answer.
    CanAwait,
    /// The peer said to wait and owes the answer.
    MustReply,
    /// The conversation is over.
    Done,
}

/// Where a local-state-query conversation stands.
#[derive(Clone, Copy, Debug, PartialEq, Eq, Structural)]
pub enum QueryState {
    /// No ledger state is held.
    Idle,
    /// A ledger state was asked for; the answer is awaited.
    Acquiring,
    /// A ledger state is held; queries go against it.
    Acquired,
}

/// A session with a node.
#[derive(Debug)]
pub struct ClientWrapper {
    client: u8,
    sync: SyncState,
    query: QueryState,
}

/// The result completed by a block that was decoded and encoded again. A
/// block that does not decode leaves nothing of the result.
pub open spec fn with_block(pending: NextResponseModel, cbor: BlockCborModel) -> NextResponseModel {
    match cbor {
        BlockCborModel::Malformed => NextResponseModel::failure(),
        BlockCborModel::Unsupported => pending,
        BlockCborModel::Encoded(bytes) => NextResponseModel {
            action: pending.action,
            tip: pending.tip,
            block_cbor: Some(bytes),
        },
    }
}

/// The result completed by the block that was fetched for it, which is
/// decoded and encoded again without its era tag.
pub open spec fn fetched(pending: NextResponseModel, block: Seq<u8>) -> NextResponseModel {
    with_block(pending, block_reencoding(block))
}

/// The block that tells a caller of a rollback to `point`: the blank block
/// at the slot rolled back to. On a node-to-client connection a rollback
/// to the origin is written at slot zero; on a node-to-node connection it
/// carries no block.
pub open spec fn rollback_notice(client: u8, point: Position) -> Option<Seq<u8>> {
    match point {
        Position::Specific { slot, .. } => Some(rollback_block(slot)),
        Position::Origin => if client == NODE_TO_CLIENT {
            Some(rollback_block(0))
        } else {
            None
        },
    }
}

/// What the peer's answer `event` comes to on a connection of kind `client`
/// whose conversation is in `state`: the next state and what the caller is
/// asked or given, or the reason why the answer is refused.
pub open spec fn sync_reply(client: u8, state: SyncState, event: SyncEventModel) -> Result<
    (SyncState, SyncStepModel),
    DriverError,
> {
    if state != SyncState::CanAwait && state != SyncState::MustReply {
        Err(DriverError::OutOfTurn)
    } else {
        match event {
            SyncEventModel::Failed => Ok((state, SyncStepModel::Reply(NextResponseModel::failure()))),
            SyncEventModel::Await => {
                if state == SyncState::CanAwait {
                    Ok((SyncState::MustReply, SyncStepModel::Reply(NextResponseModel::waiting())))
                } else {
                    Err(DriverError::ProtocolViolation)
                }
            },
            SyncEventModel::RollForwardBlock(bytes, tip) => {
                if client != NODE_TO_CLIENT {
                    Err(DriverError::WrongMode)
                } else {
                    Ok(
                        (
                            SyncState::Idle,
                            SyncStepModel::Reply(
                                with_block(
                                    NextResponseModel::roll(ACTION_ROLL_FORWARD, tip, None),
                                    block_reencoding(bytes),
                                ),
                            ),
                        ),
                    )
                }
            },
            SyncEventModel::RollForwardHeader(variant, cbor, tip) => {
                if client != NODE_TO_NODE {
                    Err(DriverError::WrongMode)
                } else {
                    match header_point(header_place(variant, cbor)) {
                        None => Ok(
                            (SyncState::Idle, SyncStepModel::Reply(NextResponseModel::failure())),
                        ),
                        Some((slot, hash)) => Ok(
                            (
                                SyncState::Idle,
                                SyncStepModel::Fetch(
                                    Position::Specific { slot, hash },
                                    NextResponseModel::roll(ACTION_ROLL_FORWARD, tip, None),
                                ),
                            ),
                        ),
                    }
                }
            },
            SyncEventModel::RollBackward(point, tip) => Ok(
                (
                    SyncState::Idle,
                    SyncStepModel::Reply(
                        NextResponseModel::roll(
                            ACTION_ROLL_BACKWARD,
                            tip,
                            rollback_notice(client, point),
                        ),
                    ),
                ),
            ),
        }
    }
}

/// Completes a result with a block that was decoded and encoded again.
pub fn complete_with_block(pending: NextResponse, cbor: BlockCbor) -> (r: NextResponse)
    ensures
        r@ == with_block(pending@, cbor@),
{
    match cbor {
        BlockCbor::Malformed => NextResponse::failure(),
        BlockCbor::Unsupported => pending,
        BlockCbor::Encoded(bytes) => NextResponse {
            action: pending.action,
            tip: pending.tip,
            block_cbor: Some(bytes),
        },
    }
}

impl ClientWrapper {
    /// The kind of connection: [`NODE_TO_CLIENT`] or [`NODE_TO_NODE`].
    pub closed spec fn client_code(&self) -> u8 {
        self.client
    }

    /// Where the chain-sync conversation stands.
    pub closed spec fn sync_state(&self) -> SyncState {
        self.sync
    }

    /// Where the local-state-query conversation stands.
    pub closed spec fn query_state(&self) -> QueryState {
        self.query
    }

    /// A session is of one of the two kinds, and only a node-to-client
    /// session ever holds a ledger state.
    pub open spec fn wf(&self) -> bool {
        &&& self.client_code() == NODE_TO_CLIENT || self.client_code() == NODE_TO_NODE
        &&& self.client_code() == NODE_TO_NODE ==> self.query_state() == QueryState::Idle
    }

    /// Opens the session record for a connection of the kind that `client`
    /// names. The conversation starts idle.
    pub fn connect(client: u8) -> (session: Result<ClientWrapper, DriverError>)
        ensures
            match session {
                Ok(s) => (client == NODE_TO_CLIENT || client == NODE_TO_NODE) && s.wf()
                    && s.client_code() == client && s.sync_state() == SyncState::Idle
                    && s.query_state() == QueryState::Idle,
                Err(e) => client != NODE_TO_CLIENT && client != NODE_TO_NODE && e
                    == DriverError::UnknownClient,
            },
    {
        if client == NODE_TO_CLIENT || client == NODE_TO_NODE {
            Ok(ClientWrapper { client, sync: SyncState::Idle, query: QueryState::Idle })
        } else {
            Err(DriverError::UnknownClient)
        }
    }

    /// The kind of connection.
    pub fn client(&self) -> (code: u8)
        ensures
            code == self.client_code(),
    {
        self.client
    }

    /// Where the chain-sync conversation stands.
    pub fn state(&self) -> (state: SyncState)
        ensures
            state == self.sync_state(),
    {
        self.sync
    }

    /// Where the local-state-query conversation stands.
    pub fn ledger(&self) -> (state: QueryState)
        ensures
            state == self.query_state(),
    {
        self.query
    }

    /// It is the client's turn to send in chain-sync exactly when the
    /// conversation is idle.
    pub open spec fn spec_has_agency(&self) -> bool {
        self.sync_state() == SyncState::Idle
    }

    /// Tells whether it is the client's turn to send in chain-sync. Reads
    /// the state and changes nothing.
    pub fn has_agency(&self) -> (ours: bool)
        ensures
            ours == self.spec_has_agency(),
    {
        match self.sync {
            SyncState::Idle => true,
            SyncState::Intersecting => false,
            SyncState::CanAwait => false,
            SyncState::MustReply => false,
            SyncState::Done => false,
        }
    }

    /// Opens a chain-sync call. With the turn on our side the next block is
    /// requested. While the peer holds the turn in answer to an earlier
    /// request, nothing is sent and its answer is awaited. During a search
    /// for a common point and after the end of the session the call is
    /// refused. Only a request changes the state.
    pub fn chain_sync_next(&mut self) -> (request: Result<SyncRequest, DriverError>)
        requires
            old(self).wf(),
        ensures
            final(self).wf(),
            final(self).client_code() == old(self).client_code(),
            final(self).query_state() == old(self).query_state(),
            match old(self).sync_state() {
                SyncState::Idle => request == Ok::<SyncRequest, DriverError>(
                    SyncRequest::RequestNext,
                ) && final(self).sync_state() == SyncState::CanAwait,
                SyncState::CanAwait | SyncState::MustReply => request == Ok::<
                    SyncRequest,
                    DriverError,
                >(SyncRequest::AwaitReply) && final(self).sync_state() == old(self).sync_state(),
                SyncState::Intersecting | SyncState::Done => request == Err::<
                    SyncRequest,
                    DriverError,
                >(DriverError::OutOfTurn) && final(self).sync_state() == old(self).sync_state(),
            },
    {
        match self.sync {
            SyncState::Idle => {
                self.sync = SyncState::CanAwait;
                Ok(SyncRequest::RequestNext)
            },
            SyncState::CanAwait => Ok(SyncRequest::AwaitReply),
            SyncState::MustReply => Ok(SyncRequest::AwaitReply),
            _ => Err(DriverError::OutOfTurn),
        }
    }

    /// Takes the peer's answer to a chain-sync call and says what the
    /// caller gets, or which block must be fetched first.
    pub fn chain_sync_reply(&mut self, event: SyncEvent) -> (step: Result<SyncStep, DriverError>)
        requires
            old(self).wf(),
        ensures
            final(self).wf(),
            final(self).client_code() == old(self).client_code(),
            final(self).query_state() == old(self).query_state(),
            match step {
                Ok(s) => sync_reply(old(self).client_code(), old(self).sync_state(), event@) == Ok::<
                    (SyncState, SyncStepModel),
                    DriverError,
                >((final(self).sync_state(), s@)),
                Err(e) => sync_reply(old(self).client_code(), old(self).sync_state(), event@)
                    == Err::<(SyncState, SyncStepModel), DriverError>(e) && final(self).sync_state()
                    == old(self).sync_state(),
            },
    {
        let waiting = match self.sync {
            SyncState::CanAwait => true,
            SyncState::MustReply => true,
            _ => false,
        };
        if !waiting {
            return Err(DriverError::OutOfTurn);
        }
        match event {
            SyncEvent::Failed => Ok(SyncStep::Reply(NextResponse::failure())),
            SyncEvent::Await => {
                match self.sync {
                    SyncState::CanAwait => {
                        self.sync = SyncState::MustReply;
                        Ok(SyncStep::Reply(NextResponse::waiting()))
                    },
                    _ => Err(DriverError::ProtocolViolation),
                }
            },
            SyncEvent::RollForwardBlock(bytes, tip) => {
                if self.client != NODE_TO_CLIENT {
                    return Err(DriverError::WrongMode);
                }
                self.sync = SyncState::Idle;
                let pending = NextResponse::roll(ACTION_ROLL_FORWARD, tip, None);
                let cbor = reencode_block(bytes.as_slice());
                Ok(SyncStep::Reply(complete_with_block(pending, cbor)))
            },
            SyncEvent::RollForwardHeader(variant, cbor, tip) => {
                if self.client != NODE_TO_NODE {
                    return Err(DriverError::WrongMode);
                }
                self.sync = SyncState::Idle;
                match locate_header(decode_header_place(variant, cbor.as_slice())) {
                    None => Ok(SyncStep::Reply(NextResponse::failure())),
                    Some(point) => {
                        let response = NextResponse::roll(ACTION_ROLL_FORWARD, tip, None);
                        Ok(SyncStep::Fetch(point.to_pallas_point(), PendingFetch { response }))
                    },
                }
            },
            SyncEvent::RollBackward(point, tip) => {
                self.sync = SyncState::Idle;
                let notice = match point {
                    ChainPoint::Specific(slot, _) => Some(rollback_block_cbor(slot)),
                    ChainPoint::Origin => {
                        if self.client == NODE_TO_CLIENT {
                            Some(rollback_block_cbor(0))
                        } else {
                            None
                        }
                    },
                };
                Ok(SyncStep::Reply(NextResponse::roll(ACTION_ROLL_BACKWARD, tip, notice)))
            },
        }
    }

    /// Decodes the payload of a roll forward into the domain model: the
    /// era-tagged block that a node-to-client peer sent, or the one that
    /// was fetched for the header that a node-to-node peer sent. `json`
    /// holds, by position, the JSON text made of each transaction's
    /// metadata. A block that decodes here is one for which the driver's
    /// own answer carries a roll forward too.
    pub fn roll_forward_block(payload: &Vec<u8>, tip: ChainPoint, json: &Vec<Option<String>>) -> (update:
        BlockUpdate)
        ensures
            update@ == block_update(block_of(payload@, json_texts(json@)), tip@),
            update.block matches Some(b) ==> b.wf(),
            update.block is Some ==> !(block_reencoding(payload@) is Malformed),
    {
        match Block::decode(payload, json) {
            Some(block) => BlockUpdate {
                action: ACTION_ROLL_FORWARD,
                tip: Some(Point::from_pallas_point(tip)),
                block: Some(block),
            },
            None => BlockUpdate { action: ACTION_ERROR, tip: None, block: None },
        }
    }

    /// Completes a chain-sync result with the block that was fetched for
    /// it.
    pub fn block_fetched(pending: PendingFetch, block: Vec<u8>) -> (r: NextResponse)
        ensures
            r@ == fetched(pending.response@, block@),
    {
        let cbor = reencode_block(block.as_slice());
        complete_with_block(pending.response, cbor)
    }
}

/// A request for a ledger state.
#[derive(Debug)]
pub struct AcquireRequest {
    /// Whether a state is held and is given up for the new one: the
    /// request then goes out as a request to acquire again.
    pub again: bool,
    /// The position whose ledger state is asked for; none for the tip.
    pub point: Option<ChainPoint>,
}

/// A roll forward with its block decoded.
#[derive(Debug)]
pub struct BlockUpdate {
    /// Roll forward, or the code of a result that carries nothing.
    pub action: u8,
    /// The peer's tip.
    pub tip: Option<Point>,
    /// The block that the chain advanced by.
    pub block: Option<Block>,
}

/// Mathematical model of [`BlockUpdate`].
pub struct BlockUpdateModel {
    pub action: u8,
    pub tip: Option<(u64, Seq<u8>)>,
    pub block: Option<BlockModel>,
}

impl View for BlockUpdate {
    type V = BlockUpdateModel;

    open spec fn view(&self) -> BlockUpdateModel {
        BlockUpdateModel {
            action: self.action,
            tip: match self.tip {
                Some(p) => Some((p.slot, p.hash@)),
                None => None,
            },
            block: match self.block {
                Some(b) => Some(b@),
                None => None,
            },
        }
    }
}

/// What a roll forward comes to once its payload is decoded: the block
/// and the peer's tip, or nothing of either where the payload does not
/// decode.
pub open spec fn block_update(block: Option<BlockModel>, tip: Position) -> BlockUpdateModel {
    match block {
        Some(b) => BlockUpdateModel {
            action: ACTION_ROLL_FORWARD,
            tip: Some(crate::response::flat(tip)),
            block: Some(b),
        },
        None => BlockUpdateModel { action: ACTION_ERROR, tip: None, block: None },
    }
}

/// Where the current tip is asked.
#[derive(Clone, Copy, Debug, PartialEq, Eq, Structural)]
pub enum TipQuery {
    /// Acquire the ledger state at the tip and ask it for its chain point.
    StateQuery,
    /// Ask the chain-sync peer for the tip and intersect there.
    IntersectTip,
}

/// What became of a transaction that was pushed.
#[derive(Debug)]
pub enum SubmitOutcome {
    /// The node took the transaction.
    Accepted,
    /// The node refused the transaction, for the reason it gave.
    Rejected(Vec<u8>),
}

/// Mathematical model of [`SubmitOutcome`].
pub enum SubmitOutcomeModel {
    Accepted,
    Rejected(Seq<u8>),
}

impl View for SubmitOutcome {
    type V = SubmitOutcomeModel;

    open spec fn view(&self) -> SubmitOutcomeModel {
        match *self {
            SubmitOutcome::Accepted => SubmitOutcomeModel::Accepted,
            SubmitOutcome::Rejected(reason) => SubmitOutcomeModel::Rejected(reason@),
        }
    }
}

/// How a transaction is submitted.
#[derive(Debug)]
pub enum Submission {
    /// Push the transaction, tagged with its era, and read the verdict.
    Push { era: u16, body: Vec<u8> },
    /// Offer the transaction to a peer that pulls.
    Pull(TxSubmission),
}

impl ClientWrapper {
    /// Asks for a ledger state: the one at `point`, or the one at the tip
    /// where no point is given. Where no state is held the request is to
    /// acquire one; where one is held it is given up for the new one, and
    /// the request is to acquire again. Offered on node-to-client
    /// connections only, and refused while an earlier request is unanswered
    /// or after the session's end.
    pub fn acquire(&mut self, point: Option<Point>) -> (request: Result<
        AcquireRequest,
        DriverError,
    >)
        requires
            old(self).wf(),
        ensures
            final(self).wf(),
            final(self).client_code() == old(self).client_code(),
            final(self).sync_state() == old(self).sync_state(),
            match request {
                Ok(r) => {
                    &&& old(self).client_code() == NODE_TO_CLIENT
                    &&& old(self).query_state() != QueryState::Acquiring
                    &&& old(self).sync_state() != SyncState::Done
                    &&& final(self).query_state() == QueryState::Acquiring
                    &&& r.again == (old(self).query_state() == QueryState::Acquired)
                    &&& r.point is Some == point is Some
                    &&& r.point matches Some(p) ==> p@ == point->0@
                },
                Err(e) => {
                    &&& final(self).query_state() == old(self).query_state()
                    &&& e == if old(self).client_code() != NODE_TO_CLIENT {
                        DriverError::WrongMode
                    } else {
                        DriverError::OutOfTurn
                    }
                    &&& old(self).client_code() != NODE_TO_CLIENT || old(self).query_state()
                        == QueryState::Acquiring || old(self).sync_state() == SyncState::Done
                },
            },
    {
        if self.client != NODE_TO_CLIENT {
            return Err(DriverError::WrongMode);
        }
        let ended = match self.sync {
            SyncState::Done => true,
            _ => false,
        };
        if ended {
            return Err(DriverError::OutOfTurn);
        }
        let again = match self.query {
            QueryState::Acquiring => {
                return Err(DriverError::OutOfTurn);
            },
            QueryState::Acquired => true,
            QueryState::Idle => false,
        };
        self.query = QueryState::Acquiring;
        let point = match point {
            Some(p) => Some(p.to_pallas_point()),
            None => None,
        };
        Ok(AcquireRequest { again, point })
    }

    /// Takes the answer to a request for a ledger state: on success the
    /// state is held, on failure none is. Refused unless such a request is
    /// unanswered.
    pub fn acquired(&mut self, success: bool) -> (taken: Result<(), DriverError>)
        requires
            old(self).wf(),
        ensures
            final(self).wf(),
            final(self).client_code() == old(self).client_code(),
            final(self).sync_state() == old(self).sync_state(),
            match taken {
                Ok(_) => old(self).query_state() == QueryState::Acquiring
                    && final(self).query_state() == if success {
                    QueryState::Acquired
                } else {
                    QueryState::Idle
                },
                Err(e) => old(self).query_state() != QueryState::Acquiring && e
                    == DriverError::OutOfTurn && final(self).query_state() == old(
                    self,
                ).query_state(),
            },
    {
        match self.query {
            QueryState::Acquiring => {
                self.query = if success {
                    QueryState::Acquired
                } else {
                    QueryState::Idle
                };
                Ok(())
            },
            _ => Err(DriverError::OutOfTurn),
        }
    }

    /// Says where to ask for the current tip: the ledger state that is
    /// held, on a node-to-client connection; the chain-sync peer on a
    /// node-to-node one, where it must be the client's turn. Asking a
    /// ledger state that is not held is refused at once. The answer is
    /// turned into a flat record by [`Point::from_pallas_point`].
    pub fn get_tip(&self) -> (query: Result<TipQuery, DriverError>)
        requires
            self.wf(),
        ensures
            query == if self.client_code() == NODE_TO_CLIENT {
                if self.query_state() == QueryState::Acquired {
                    Ok::<TipQuery, DriverError>(TipQuery::StateQuery)
                } else {
                    Err::<TipQuery, DriverError>(DriverError::OutOfTurn)
                }
            } else if self.sync_state() == SyncState::Idle {
                Ok::<TipQuery, DriverError>(TipQuery::IntersectTip)
            } else {
                Err::<TipQuery, DriverError>(DriverError::OutOfTurn)
            },
    {
        if self.client == NODE_TO_CLIENT {
            match self.query {
                QueryState::Acquired => Ok(TipQuery::StateQuery),
                _ => Err(DriverError::OutOfTurn),
            }
        } else if self.has_agency() {
            Ok(TipQuery::IntersectTip)
        } else {
            Err(DriverError::OutOfTurn)
        }
    }

    /// Opens the search for a common point: turns the caller's records
    /// into the candidates to offer, in the same order. Refused unless it
    /// is the client's turn.
    pub fn find_intersect(&mut self, points: Vec<Point>) -> (candidates: Result<
        Vec<ChainPoint>,
        DriverError,
    >)
        requires
            old(self).wf(),
        ensures
            final(self).wf(),
            final(self).client_code() == old(self).client_code(),
            final(self).query_state() == old(self).query_state(),
            match candidates {
                Ok(c) => {
                    &&& old(self).sync_state() == SyncState::Idle
                    &&& final(self).sync_state() == SyncState::Intersecting
                    &&& c@.len() == points@.len()
                    &&& forall|i: int|
                        0 <= i < points@.len() ==> (#[trigger] c@[i])@ == points@[i]@
                },
                Err(e) => {
                    &&& old(self).sync_state() != SyncState::Idle
                    &&& final(self).sync_state() == old(self).sync_state()
                    &&& e == DriverError::OutOfTurn
                },
            },
    {
        if !self.has_agency() {
            return Err(DriverError::OutOfTurn);
        }
        self.sync = SyncState::Intersecting;
        let mut candidates: Vec<ChainPoint> = Vec::new();
        let mut i: usize = 0;
        while i < points.len()
            invariant
                i <= points.len(),
                candidates@.len() == i,
                forall|k: int| 0 <= k < i ==> (#[trigger] candidates@[k])@ == points@[k]@,
            decreases points.len() - i,
        {
            candidates.push(points[i].to_pallas_point());
            i += 1;
        }
        Ok(candidates)
    }

    /// Closes the search for a common point with the peer's answer: the
    /// point it agreed to, as a flat record, or nothing when the
    /// candidates share no point with the peer's chain.
    pub fn intersect_found(&mut self, answer: Option<ChainPoint>) -> (found: Result<
        Option<Point>,
        DriverError,
    >)
        requires
            old(self).wf(),
        ensures
            final(self).wf(),
            final(self).client_code() == old(self).client_code(),
            final(self).query_state() == old(self).query_state(),
            match found {
                Ok(point) => {
                    &&& old(self).sync_state() == SyncState::Intersecting
                    &&& final(self).sync_state() == SyncState::Idle
                    &&& point is Some == answer is Some
                    &&& point matches Some(p) ==> (p.slot, p.hash@) == crate::response::flat(
                        answer->0@,
                    )
                },
                Err(e) => {
                    &&& old(self).sync_state() != SyncState::Intersecting
                    &&& final(self).sync_state() == old(self).sync_state()
                    &&& e == DriverError::OutOfTurn
                },
            },
    {
        match self.sync {
            SyncState::Intersecting => {},
            _ => {
                return Err(DriverError::OutOfTurn);
            },
        }
        self.sync = SyncState::Idle;
        match answer {
            None => Ok(None),
            Some(p) => Ok(Some(Point::from_pallas_point(p))),
        }
    }

    /// Names the block to request from a peer: the position that the
    /// record stands for. The record of the origin names no block and is
    /// refused. Offered on node-to-node connections only.
    pub fn fetch_block(&self, point: Point) -> (target: Result<ChainPoint, DriverError>)
        requires
            self.wf(),
        ensures
            match target {
                Ok(t) => {
                    &&& self.client_code() == NODE_TO_NODE
                    &&& point@ != Position::Origin
                    &&& t@ == point@
                },
                Err(e) => e == if self.client_code() != NODE_TO_NODE {
                    DriverError::WrongMode
                } else {
                    DriverError::NoBlock
                } && (self.client_code() != NODE_TO_NODE || point@ == Position::Origin),
            },
    {
        if self.client != NODE_TO_NODE {
            return Err(DriverError::WrongMode);
        }
        let target = point.to_pallas_point();
        if target.is_origin() {
            Err(DriverError::NoBlock)
        } else {
            Ok(target)
        }
    }

    /// Prepares the query for the unspent outputs at an address: the raw
    /// bytes of the address that `address` encodes in bech32. Offered on
    /// node-to-client connections only, and refused at once unless a
    /// ledger state is held.
    pub fn get_utxo_by_address_cbor(&self, address: String) -> (query: Result<
        Vec<u8>,
        DriverError,
    >)
        requires
            self.wf(),
        ensures
            match query {
                Ok(bytes) => {
                    &&& self.client_code() == NODE_TO_CLIENT
                    &&& self.query_state() == QueryState::Acquired
                    &&& bech32_address_bytes(address@) == Some(bytes@)
                },
                Err(e) => if self.client_code() != NODE_TO_CLIENT {
                    e == DriverError::WrongMode
                } else if self.query_state() != QueryState::Acquired {
                    e == DriverError::OutOfTurn
                } else {
                    bech32_address_bytes(address@) is None && e == DriverError::BadAddress
                },
            },
    {
        if self.client != NODE_TO_CLIENT {
            return Err(DriverError::WrongMode);
        }
        match self.query {
            QueryState::Acquired => {},
            _ => {
                return Err(DriverError::OutOfTurn);
            },
        }
        match address_from_bech32(address.as_str()) {
            Some(bytes) => Ok(bytes),
            None => Err(DriverError::BadAddress),
        }
    }

    /// Prepares the submission of a transaction. On a node-to-client
    /// connection the transaction is pushed under the tag of its era; on a
    /// node-to-node connection it is offered to the peer. Bytes that are no
    /// transaction are refused either way.
    pub fn submit_tx(&self, tx: Vec<u8>) -> (submission: Result<Submission, DriverError>)
        requires
            self.wf(),
        ensures
            match submission {
                Ok(Submission::Push { era, body }) => {
                    &&& self.client_code() == NODE_TO_CLIENT
                    &&& tx_identity(tx@) matches Some((wire, _)) && era == Era::spec_from_wire_id(
                        wire,
                    ).spec_tag()
                    &&& body@ == tx@
                },
                Ok(Submission::Pull(s)) => {
                    &&& self.client_code() == NODE_TO_NODE
                    &&& fresh_submission(tx@) == Some(s@)
                    &&& s.wf()
                    &&& s@.id.len() == HASH_BYTES
                },
                Err(e) => if tx_identity(tx@) is None {
                    e == DriverError::Undecodable
                } else {
                    &&& self.client_code() == NODE_TO_NODE
                    &&& tx@.len() > u32::MAX
                    &&& e == DriverError::Oversized
                },
            },
    {
        if self.client == NODE_TO_CLIENT {
            match decode_tx_identity(tx.as_slice()) {
                None => Err(DriverError::Undecodable),
                Some((era, _)) => Ok(
                    Submission::Push { era: Era::from_wire_id(era).tag(), body: tx },
                ),
            }
        } else {
            match TxSubmission::start(tx) {
                Ok(s) => Ok(Submission::Pull(s)),
                Err(e) => Err(e),
            }
        }
    }

    /// Reads the node's verdict on a pushed transaction. A refusal is an
    /// outcome, not an error: the reason comes back as the node gave it.
    pub fn submit_outcome(rejection: Option<Vec<u8>>) -> (outcome: SubmitOutcome)
        ensures
            outcome@ == match rejection {
                Some(reason) => SubmitOutcomeModel::Rejected(reason@),
                None => SubmitOutcomeModel::Accepted,
            },
    {
        match rejection {
            Some(reason) => SubmitOutcome::Rejected(reason),
            None => SubmitOutcome::Accepted,
        }
    }

    /// Ends the session: every conversation is over, no ledger state is
    /// held, and no operation that needs a turn is accepted afterwards.
    pub fn disconnect(&mut self)
        requires
            old(self).wf(),
        ensures
            final(self).wf(),
            final(self).client_code() == old(self).client_code(),
            final(self).sync_state() == SyncState::Done,
            final(self).query_state() == QueryState::Idle,
    {
        self.sync = SyncState::Done;
        self.query = QueryState::Idle;
    }
}

/// Whose turn it is depends on the chain-sync state alone: asked again
/// while that state has not changed, the answer is the same.
pub proof fn lemma_agency_is_stable(before: ClientWrapper, after: ClientWrapper)
    requires
        before.sync_state() == after.sync_state(),
    ensures
        before.spec_has_agency() == after.spec_has_agency(),
{
}

/// Once a session is ended, no answer of a peer is taken any more.
pub proof fn lemma_ended_session_refuses(client: u8, event: SyncEventModel)
    ensures
        sync_reply(client, SyncState::Done, event) == Err::<
            (SyncState, SyncStepModel),
            DriverError,
        >(DriverError::OutOfTurn),
{
}

/// An answer that is taken never leaves the conversation waiting on the
/// client's own request: afterwards it is the client's turn again, or the
/// peer owes a block, or, where the exchange failed, nothing has changed.
pub proof fn lemma_reply_settles_turn(client: u8, state: SyncState, event: SyncEventModel)
    requires
        sync_reply(client, state, event) is Ok,
    ensures
        ({
            let (next, _) = sync_reply(client, state, event)->Ok_0;
            if event is Failed {
                next == state
            } else if event is Await {
                state == SyncState::CanAwait && next == SyncState::MustReply
            } else {
                next == SyncState::Idle
            }
        }),
{
}

} // verus!
