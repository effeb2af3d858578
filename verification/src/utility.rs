//! Conversions offered beside the drivers: addresses to text, and flat
//! records to tagged positions.

use vstd::prelude::*;
use crate::codec::{
    address_bech32, address_to_bech32, byron_address_base58, byron_address_to_base58,
};
use crate::point::{ChainPoint, Point};

verus! {

/// Stateless helpers.
#[derive(Debug)]
pub struct PallasUtility {}

/// How the address held in raw bytes is written: in bech32 where it has
/// such a form, in base58 where it is a Byron address that has none, and
/// not at all where the bytes are no address.
pub open spec fn address_text(bytes: Seq<u8>) -> Option<Seq<char>> {
    match address_bech32(bytes) {
        None => None,
        Some(Some(text)) => Some(text),
        Some(None) => byron_address_base58(bytes),
    }
}

impl PallasUtility {
    /// Writes an address out as text.
    pub fn address_bytes_to_bech32(address_bytes: Vec<u8>) -> (text: String)
        requires
            address_text(address_bytes@) is Some,
        ensures
            address_text(address_bytes@) == Some(text@),
    {
        match address_to_bech32(address_bytes.as_slice()) {
            Some(Some(text)) => text,
            Some(None) => {
                match byron_address_to_base58(address_bytes.as_slice()) {
                    Some(text) => text,
                    None => vstd::pervasive::unreached(),
                }
            },
            None => vstd::pervasive::unreached(),
        }
    }

    /// Writes an address out as text, where the bytes are an address that
    /// has a text form.
    pub fn try_address_bytes_to_bech32(address_bytes: Vec<u8>) -> (text: Option<String>)
        ensures
            text is Some == address_text(address_bytes@) is Some,
            text matches Some(t) ==> address_text(address_bytes@) == Some(t@),
    {
        let readable = match address_to_bech32(address_bytes.as_slice()) {
            Some(Some(_)) => true,
            Some(None) => byron_address_to_base58(address_bytes.as_slice()).is_some(),
            None => false,
        };
        if readable {
            Some(Self::address_bytes_to_bech32(address_bytes))
        } else {
            None
        }
    }

    /// Turns flat records into tagged positions, in the same order.
    pub fn map_points_to_pallas(points: Vec<Point>) -> (tagged: Vec<ChainPoint>)
        ensures
            tagged@.len() == points@.len(),
            forall|i: int| 0 <= i < points@.len() ==> (#[trigger] tagged@[i])@ == points@[i]@,
    {
        let mut tagged: Vec<ChainPoint> = Vec::new();
        let mut i: usize = 0;
        while i < points.len()
            invariant
                i <= points.len(),
                tagged@.len() == i,
                forall|k: int| 0 <= k < i ==> (#[trigger] tagged@[k])@ == points@[k]@,
            decreases points.len() - i,
        {
            tagged.push(points[i].to_pallas_point());
            i += 1;
        }
        tagged
    }
}

} // verus!
