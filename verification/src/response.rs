//! Messages that pass between the chain-sync driver and its caller.

use vstd::prelude::*;
use crate::point::{ChainPoint, Point, Position};

verus! {

/// Action code of a result that carries nothing: the exchange failed or the
/// payload did not decode.
pub const ACTION_ERROR: u8 = 0;

/// Action code of a roll forward.
pub const ACTION_ROLL_FORWARD: u8 = 1;

/// Action code of a roll backward.
pub const ACTION_ROLL_BACKWARD: u8 = 2;

/// Action code of an await: the peer has no new block yet.
pub const ACTION_AWAIT: u8 = 3;

/// Slot and hash of a position, as the flat record writes them.
pub open spec fn flat(p: Position) -> (u64, Seq<u8>) {
    (ChainPoint::spec_slot_or_default(p), Point::spec_hash_or_empty(p))
}

/// The result of one chain-sync call.
#[derive(Debug)]
pub struct NextResponse {
    /// What happened: one of the four action codes.
    pub action: u8,
    /// The peer's tip, where the peer told it.
    pub tip: Option<Point>,
    /// The block that came with the action, encoded.
    pub block_cbor: Option<Vec<u8>>,
}

/// Mathematical model of [`NextResponse`].
pub struct NextResponseModel {
    pub action: u8,
    pub tip: Option<(u64, Seq<u8>)>,
    pub block_cbor: Option<Seq<u8>>,
}

impl View for NextResponse {
    type V = NextResponseModel;

    open spec fn view(&self) -> NextResponseModel {
        NextResponseModel {
            action: self.action,
            tip: match self.tip {
                Some(p) => Some((p.slot, p.hash@)),
                None => None,
            },
            block_cbor: match self.block_cbor {
                Some(b) => Some(b@),
                None => None,
            },
        }
    }
}

impl NextResponseModel {
    /// The result that carries nothing.
    pub open spec fn failure() -> NextResponseModel {
        NextResponseModel { action: ACTION_ERROR, tip: None, block_cbor: None }
    }

    /// The result that tells the caller to wait.
    pub open spec fn waiting() -> NextResponseModel {
        NextResponseModel { action: ACTION_AWAIT, tip: None, block_cbor: None }
    }

    /// A roll in either direction, with the peer's tip and maybe a block.
    pub open spec fn roll(action: u8, tip: Position, block: Option<Seq<u8>>) -> NextResponseModel {
        NextResponseModel { action, tip: Some(flat(tip)), block_cbor: block }
    }
}

impl NextResponse {
    /// The result that carries nothing.
    pub fn failure() -> (r: NextResponse)
        ensures
            r@ == NextResponseModel::failure(),
    {
        NextResponse { action: ACTION_ERROR, tip: None, block_cbor: None }
    }

    /// The result that tells the caller to wait.
    pub fn waiting() -> (r: NextResponse)
        ensures
            r@ == NextResponseModel::waiting(),
    {
        NextResponse { action: ACTION_AWAIT, tip: None, block_cbor: None }
    }

    /// A roll in either direction, with the peer's tip and maybe a block.
    pub fn roll(action: u8, tip: ChainPoint, block: Option<Vec<u8>>) -> (r: NextResponse)
        ensures
            r@ == NextResponseModel::roll(
                action,
                tip@,
                match block {
                    Some(b) => Some(b@),
                    None => None,
                },
            ),
    {
        NextResponse { action, tip: Some(Point::from_pallas_point(tip)), block_cbor: block }
    }
}

/// What the peer answered to a chain-sync request.
#[derive(Debug)]
pub enum SyncEvent {
    /// A new block, as era-tagged bytes, and the peer's tip. Sent on
    /// node-to-client connections.
    RollForwardBlock(Vec<u8>, ChainPoint),
    /// A new header, as its era variant and its bytes, and the peer's tip.
    /// Sent on node-to-node connections.
    RollForwardHeader(u8, Vec<u8>, ChainPoint),
    /// A rollback to the first position; the second is the peer's tip.
    RollBackward(ChainPoint, ChainPoint),
    /// No new block yet.
    Await,
    /// The exchange itself failed.
    Failed,
}

/// Mathematical model of [`SyncEvent`].
pub enum SyncEventModel {
    RollForwardBlock(Seq<u8>, Position),
    RollForwardHeader(u8, Seq<u8>, Position),
    RollBackward(Position, Position),
    Await,
    Failed,
}

impl View for SyncEvent {
    type V = SyncEventModel;

    open spec fn view(&self) -> SyncEventModel {
        match *self {
            SyncEvent::RollForwardBlock(bytes, tip) => SyncEventModel::RollForwardBlock(
                bytes@,
                tip@,
            ),
            SyncEvent::RollForwardHeader(variant, cbor, tip) => SyncEventModel::RollForwardHeader(
                variant,
                cbor@,
                tip@,
            ),
            SyncEvent::RollBackward(point, tip) => SyncEventModel::RollBackward(point@, tip@),
            SyncEvent::Await => SyncEventModel::Await,
            SyncEvent::Failed => SyncEventModel::Failed,
        }
    }
}

/// A chain-sync result that waits for a block to be fetched.
#[derive(Debug)]
pub struct PendingFetch {
    /// The result so far, without its block.
    pub response: NextResponse,
}

/// What the driver asks of its caller after a peer's answer.
#[derive(Debug)]
pub enum SyncStep {
    /// The call is over, with this result.
    Reply(NextResponse),
    /// The block at this position must be fetched to complete the result.
    Fetch(ChainPoint, PendingFetch),
}

/// Mathematical model of [`SyncStep`].
pub enum SyncStepModel {
    Reply(NextResponseModel),
    Fetch(Position, NextResponseModel),
}

impl View for SyncStep {
    type V = SyncStepModel;

    open spec fn view(&self) -> SyncStepModel {
        match *self {
            SyncStep::Reply(r) => SyncStepModel::Reply(r@),
            SyncStep::Fetch(target, pending) => SyncStepModel::Fetch(target@, pending.response@),
        }
    }
}

/// What the driver sends to open a chain-sync call.
#[derive(Clone, Copy, Debug, PartialEq, Eq, Structural)]
pub enum SyncRequest {
    /// Ask the peer for the next block.
    RequestNext,
    /// Send nothing: the peer owes an answer to the last request.
    AwaitReply,
}

} // verus!
