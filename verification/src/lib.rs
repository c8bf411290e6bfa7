//! Draw-freeze controls and event surface of the Creditra credit contract,
//! written as a verified library.
//!
//! The contract keeps two independent draw blocks: a global switch that
//! stops every draw, and a per-borrower freeze record. Both carry a
//! structured [`types::FreezeReason`]. Every state change is announced by an
//! event whose topic and payload layout are part of the contract's ABI.
//!
//! - [`types`]: the shared domain types (reasons, statuses, accounts).
//! - [`freeze`]: the freeze state model and its operations.
//! - [`events`]: event payloads, topics and the `publish_*` builders.
//! - [`host`]: the boundary with the Soroban host (topic symbols).
#![allow(unused_imports)]

pub mod types;
pub mod freeze;
pub mod events;
pub mod host;
