//! Chain positions.
//!
//! A position on the chain is either the origin or a block, named by its
//! slot and header hash. [`ChainPoint`] is that tagged form, as the
//! mini-protocols exchange it. [`Point`] is the flat record handed across
//! the caller-facing surface, where the origin is written as slot zero with
//! an empty hash.

use vstd::prelude::*;
use crate::bytes::{bytes_equal, copy_bytes};

verus! {

/// Mathematical model of a chain position.
pub enum Position {
    /// Before the first block.
    Origin,
    /// The block at `slot` whose header hashes to `hash`.
    Specific { slot: u64, hash: Seq<u8> },
}

/// A chain position in the tagged form exchanged with a peer.
#[derive(Debug)]
pub enum ChainPoint {
    /// Before the first block.
    Origin,
    /// The block at the given slot with the given header hash.
    Specific(u64, Vec<u8>),
}

impl View for ChainPoint {
    type V = Position;

    open spec fn view(&self) -> Position {
        match *self {
            ChainPoint::Origin => Position::Origin,
            ChainPoint::Specific(slot, hash) => Position::Specific { slot, hash: hash@ },
        }
    }
}

impl ChainPoint {
    /// The slot a position stands at; the origin counts as slot zero.
    pub open spec fn spec_slot_or_default(p: Position) -> u64 {
        match p {
            Position::Origin => 0,
            Position::Specific { slot, .. } => slot,
        }
    }

    /// The slot of this position, or zero for the origin.
    pub fn slot_or_default(&self) -> (slot: u64)
        ensures
            slot == Self::spec_slot_or_default(self@),
    {
        match self {
            ChainPoint::Origin => 0,
            ChainPoint::Specific(slot, _) => *slot,
        }
    }

    /// Tells whether this position comes before `other` on the chain, as
    /// far as slots tell: the origin comes before every block, and a block
    /// before every block at a later slot. Two blocks at one slot are not
    /// ordered.
    pub fn comes_before(&self, other: &ChainPoint) -> (before: bool)
        ensures
            before == match (self@, other@) {
                (_, Position::Origin) => false,
                (Position::Origin, Position::Specific { .. }) => true,
                (Position::Specific { slot: a, .. }, Position::Specific { slot: b, .. }) => a < b,
            },
    {
        match other {
            ChainPoint::Origin => false,
            ChainPoint::Specific(b, _) => match self {
                ChainPoint::Origin => true,
                ChainPoint::Specific(a, _) => *a < *b,
            },
        }
    }

    /// Tells whether the two positions are blocks at the same slot with
    /// different hashes: two branches of the chain.
    pub fn is_fork_of(&self, other: &ChainPoint) -> (fork: bool)
        ensures
            fork == match (self@, other@) {
                (
                    Position::Specific { slot: a, hash: g },
                    Position::Specific { slot: b, hash: h },
                ) => a == b && g != h,
                _ => false,
            },
    {
        match self {
            ChainPoint::Origin => false,
            ChainPoint::Specific(a, g) => match other {
                ChainPoint::Origin => false,
                ChainPoint::Specific(b, h) => *a == *b && !bytes_equal(g, h),
            },
        }
    }

    /// Tells whether this is the origin.
    pub fn is_origin(&self) -> (origin: bool)
        ensures
            origin == (self@ == Position::Origin),
    {
        match self {
            ChainPoint::Origin => true,
            ChainPoint::Specific(_, _) => false,
        }
    }

    /// Tells whether two positions are the same: both the origin, or both
    /// the same slot with the same hash.
    pub fn same(&self, other: &ChainPoint) -> (same: bool)
        ensures
            same == (self@ == other@),
    {
        match self {
            ChainPoint::Origin => match other {
                ChainPoint::Origin => true,
                ChainPoint::Specific(_, _) => false,
            },
            ChainPoint::Specific(slot, hash) => match other {
                ChainPoint::Origin => false,
                ChainPoint::Specific(other_slot, other_hash) => {
                    *slot == *other_slot && bytes_equal(hash, other_hash)
                },
            },
        }
    }

    /// An independent copy of this position.
    pub fn duplicate(&self) -> (copy: ChainPoint)
        ensures
            copy@ == self@,
    {
        match self {
            ChainPoint::Origin => ChainPoint::Origin,
            ChainPoint::Specific(slot, hash) => ChainPoint::Specific(*slot, copy_bytes(hash)),
        }
    }
}

impl Clone for ChainPoint {
    fn clone(&self) -> (copy: ChainPoint)
        ensures
            copy@ == self@,
    {
        self.duplicate()
    }
}

impl PartialEq for ChainPoint {
    fn eq(&self, other: &ChainPoint) -> (same: bool) {
        self.same(other)
    }
}

impl vstd::std_specs::cmp::PartialEqSpecImpl for ChainPoint {
    open spec fn obeys_eq_spec() -> bool {
        true
    }

    open spec fn eq_spec(&self, other: &ChainPoint) -> bool {
        self@ == other@
    }
}

/// A chain position as a flat record: the origin is slot zero with an
/// empty hash, every other value names a block.
#[derive(Debug)]
pub struct Point {
    /// Slot of the block, zero for the origin.
    pub slot: u64,
    /// Header hash of the block, empty for the origin.
    pub hash: Vec<u8>,
}

impl View for Point {
    type V = Position;

    open spec fn view(&self) -> Position {
        if self.slot == 0 && self.hash@.len() == 0 {
            Position::Origin
        } else {
            Position::Specific { slot: self.slot, hash: self.hash@ }
        }
    }
}

impl Point {
    /// The record that stands for the origin.
    pub fn origin() -> (p: Point)
        ensures
            p.slot == 0,
            p.hash@ == Seq::<u8>::empty(),
            p@ == Position::Origin,
    {
        Point { slot: 0, hash: Vec::new() }
    }

    /// The record for the block at `slot` with header hash `hash`.
    pub fn new(slot: u64, hash: Vec<u8>) -> (p: Point)
        ensures
            p.slot == slot,
            p.hash@ == hash@,
    {
        Point { slot, hash }
    }

    /// The tagged form of this record: the origin when the slot is zero and
    /// the hash is empty, the named block otherwise.
    pub fn to_pallas_point(&self) -> (p: ChainPoint)
        ensures
            p@ == self@,
    {
        if self.slot == 0 && self.hash.len() == 0 {
            ChainPoint::Origin
        } else {
            ChainPoint::Specific(self.slot, copy_bytes(&self.hash))
        }
    }

    /// The flat record of a tagged position. The origin becomes slot zero
    /// with an empty hash; a block keeps its slot and hash.
    pub fn from_pallas_point(p: ChainPoint) -> (point: Point)
        ensures
            point.slot == ChainPoint::spec_slot_or_default(p@),
            point.hash@ == Self::spec_hash_or_empty(p@),
    {
        match p {
            ChainPoint::Origin => Point { slot: 0, hash: Vec::new() },
            ChainPoint::Specific(slot, hash) => Point { slot, hash },
        }
    }

    /// The hash a position carries; the origin carries none.
    pub open spec fn spec_hash_or_empty(p: Position) -> Seq<u8> {
        match p {
            Position::Origin => Seq::empty(),
            Position::Specific { hash, .. } => hash,
        }
    }

    /// Tells whether two records name the same position.
    pub fn same(&self, other: &Point) -> (same: bool)
        ensures
            same == (self.slot == other.slot && self.hash@ == other.hash@),
            same == (self@ == other@),
    {
        proof {
            if self.hash@.len() == 0 && other.hash@.len() == 0 {
                assert(self.hash@ =~= other.hash@);
            }
        }
        self.slot == other.slot && bytes_equal(&self.hash, &other.hash)
    }

    /// An independent copy of this record.
    pub fn duplicate(&self) -> (copy: Point)
        ensures
            copy.slot == self.slot,
            copy.hash@ == self.hash@,
    {
        Point { slot: self.slot, hash: copy_bytes(&self.hash) }
    }
}

impl Clone for Point {
    fn clone(&self) -> (copy: Point)
        ensures
            copy.slot == self.slot,
            copy.hash@ == self.hash@,
    {
        self.duplicate()
    }
}

impl PartialEq for Point {
    fn eq(&self, other: &Point) -> (same: bool) {
        self.same(other)
    }
}

impl vstd::std_specs::cmp::PartialEqSpecImpl for Point {
    open spec fn obeys_eq_spec() -> bool {
        true
    }

    open spec fn eq_spec(&self, other: &Point) -> bool {
        self.slot == other.slot && self.hash@ == other.hash@
    }
}

/// Going from a tagged position to the flat record and back gives the same
/// position, except for a block at slot zero with an empty hash, which the
/// flat record cannot tell from the origin.
pub proof fn lemma_flat_record_round_trip(p: ChainPoint, flat: Point)
    requires
        flat.slot == ChainPoint::spec_slot_or_default(p@),
        flat.hash@ == Point::spec_hash_or_empty(p@),
        p@ != (Position::Specific { slot: 0, hash: Seq::<u8>::empty() }),
    ensures
        flat@ == p@,
{
    match p@ {
        Position::Origin => {},
        Position::Specific { slot, hash } => {
            if slot == 0 && hash.len() == 0 {
                assert(hash =~= Seq::<u8>::empty());
            }
        },
    }
}

/// The origin differs from every block position, and two block positions
/// are the same exactly when their slots agree and their hashes agree.
pub proof fn lemma_position_equality(s1: u64, h1: Seq<u8>, s2: u64, h2: Seq<u8>)
    ensures
        Position::Origin != (Position::Specific { slot: s1, hash: h1 }),
        ((Position::Specific { slot: s1, hash: h1 }) == (Position::Specific { slot: s2, hash: h2 }))
            <==> (s1 == s2 && h1 == h2),
{
}

} // verus!
