//! Normalises the order-book and trade feeds of several exchanges into one
//! stream of canonical events.
//!
//! Every price and volume in this crate is a fixed-point integer: the decimal
//! value times [`MULTIPLIER`].

use vstd::prelude::*;

pub mod bitfinex;
pub mod broadcast_api;
pub mod btcmarkets;
pub mod consumer;
pub mod domain;

verus! {

/// The factor by which every price and volume is scaled.
pub const MULTIPLIER: i32 = 100_000_000;

} // verus!
