//! Ledger eras and the numeric tags under which they cross the wire.

use vstd::prelude::*;

verus! {

/// A ledger era, or the placeholder for one this library does not know yet.
#[derive(Clone, Copy, Debug, PartialEq, Eq, Structural)]
pub enum Era {
    Byron,
    Shelley,
    Allegra,
    Mary,
    Alonzo,
    Babbage,
    Conway,
    /// An era introduced after Conway.
    Future,
}

/// Tag of the placeholder era.
pub const FUTURE_ERA_TAG: u16 = 7;

impl Era {
    /// The numeric tag of each era: Byron is 0, each later era one more,
    /// and every unknown era shares the tag after Conway's.
    pub open spec fn spec_tag(self) -> u16 {
        match self {
            Era::Byron => 0,
            Era::Shelley => 1,
            Era::Allegra => 2,
            Era::Mary => 3,
            Era::Alonzo => 4,
            Era::Babbage => 5,
            Era::Conway => 6,
            Era::Future => 7,
        }
    }

    /// The numeric tag of this era.
    pub fn tag(self) -> (tag: u16)
        ensures
            tag == self.spec_tag(),
            tag <= FUTURE_ERA_TAG,
    {
        match self {
            Era::Byron => 0,
            Era::Shelley => 1,
            Era::Allegra => 2,
            Era::Mary => 3,
            Era::Alonzo => 4,
            Era::Babbage => 5,
            Era::Conway => 6,
            Era::Future => 7,
        }
    }

    /// The era a tag stands for. No tag is rejected: every tag past
    /// Conway's stands for the placeholder era.
    pub open spec fn spec_from_tag(tag: u16) -> Era {
        if tag == 0 {
            Era::Byron
        } else if tag == 1 {
            Era::Shelley
        } else if tag == 2 {
            Era::Allegra
        } else if tag == 3 {
            Era::Mary
        } else if tag == 4 {
            Era::Alonzo
        } else if tag == 5 {
            Era::Babbage
        } else if tag == 6 {
            Era::Conway
        } else {
            Era::Future
        }
    }

    /// The era a tag stands for.
    pub fn from_tag(tag: u16) -> (era: Era)
        ensures
            era == Self::spec_from_tag(tag),
    {
        if tag == 0 {
            Era::Byron
        } else if tag == 1 {
            Era::Shelley
        } else if tag == 2 {
            Era::Allegra
        } else if tag == 3 {
            Era::Mary
        } else if tag == 4 {
            Era::Alonzo
        } else if tag == 5 {
            Era::Babbage
        } else if tag == 6 {
            Era::Conway
        } else {
            Era::Future
        }
    }

    /// The number under which the codec knows each era: one more than
    /// its tag, so that the placeholder has a number the codec rejects.
    pub open spec fn spec_wire_id(self) -> u16 {
        (self.spec_tag() + 1) as u16
    }

    /// The number under which the codec knows this era.
    pub fn wire_id(self) -> (id: u16)
        ensures
            id == self.spec_wire_id(),
            1 <= id <= 8,
    {
        self.tag() + 1
    }

    /// The era that the codec knows under a number: zero and one both
    /// stand for Byron, and every number past Conway's for the placeholder.
    pub open spec fn spec_from_wire_id(id: u16) -> Era {
        if id == 0 {
            Era::Byron
        } else {
            Self::spec_from_tag((id - 1) as u16)
        }
    }

    /// The era that the codec knows under a number.
    pub fn from_wire_id(id: u16) -> (era: Era)
        ensures
            era == Self::spec_from_wire_id(id),
    {
        if id == 0 {
            Era::Byron
        } else {
            Self::from_tag(id - 1)
        }
    }

    /// Tells whether scripts with redeemers exist in this era.
    pub fn has_scripts(self) -> (yes: bool)
        ensures
            yes == (self.spec_tag() >= 4),
    {
        self.tag() >= 4
    }
}

/// Reading an era's tag back gives the same era, and the tag read from any
/// number is that number, or the placeholder's tag when the number is
/// larger.
pub proof fn lemma_era_tag_round_trip(era: Era, tag: u16)
    ensures
        Era::spec_from_tag(era.spec_tag()) == era,
        tag <= FUTURE_ERA_TAG ==> Era::spec_from_tag(tag).spec_tag() == tag,
        tag > FUTURE_ERA_TAG ==> Era::spec_from_tag(tag).spec_tag() == FUTURE_ERA_TAG,
{
}

} // verus!
