//! The numbers that tell the networks apart.
//!
//! A connection is opened with the magic of the network it is meant for,
//! and the handshake fails unless the peer is configured with the same.

use vstd::prelude::*;
use crate::codec::{
    pallas_mainnet_magic, pallas_pre_production_magic, pallas_preview_magic, pallas_testnet_magic,
};

verus! {

/// The well-known network magics.
#[derive(Debug)]
pub struct NetworkMagic {}

impl NetworkMagic {
    /// Magic of the main network.
    pub fn mainnet_magic() -> (magic: u64)
        ensures
            magic == 764824073,
    {
        pallas_mainnet_magic()
    }

    /// Magic of the legacy test network.
    pub fn testnet_magic() -> (magic: u64)
        ensures
            magic == 1097911063,
    {
        pallas_testnet_magic()
    }

    /// Magic of the preview network.
    pub fn preview_magic() -> (magic: u64)
        ensures
            magic == 2,
    {
        pallas_preview_magic()
    }

    /// Magic of the pre-production network.
    pub fn pre_production_magic() -> (magic: u64)
        ensures
            magic == 1,
    {
        pallas_pre_production_magic()
    }
}

} // verus!
