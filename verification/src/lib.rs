//! Protocol-driver core of a Cardano node client: the decisions of the
//! chain-sync, block-fetch, local-state-query and tx-submission
//! mini-protocols, stated as functions from the current state and the
//! peer's last message to the next state and the next message to send,
//! and the decoding of blocks and transactions into one model for every
//! era.
//!
//! Nothing here touches a socket. The caller performs each requested
//! exchange on its own connection and hands the peer's answer back.
//!
//! - [`point`], [`era`], [`network`]: chain positions, era tags, network
//!   magics.
//! - [`session`], [`response`], [`txsubmission`]: the drivers.
//! - [`domain`], [`value`], [`assets`], [`inputs`]: the domain model.
//! - [`codec`], [`ledger`]: the calls into the `pallas` codec, whose
//!   results are named and not proved.
//! - [`placeholder`], [`utility`], [`bytes`], [`error`]: what the others
//!   share.

pub mod assets;
pub mod bytes;
pub mod codec;
pub mod domain;
pub mod era;
pub mod error;
pub mod inputs;
pub mod ledger;
pub mod network;
pub mod placeholder;
pub mod point;
pub mod response;
pub mod session;
pub mod txsubmission;
pub mod utility;
pub mod value;
