//! On-chain constants.

use vstd::prelude::*;

verus! {

/// House edge in basis points, withheld from a winning payout.
pub const HOUSE_EDGE_BASIS_POINTS: u16 = 150;

/// Minimum stake, in lamports.
pub const MIN_BET_LAMPORTS: u64 = 10_000_000;

/// Smallest guess a player may make (a percentile roll of 1..=99).
pub const MIN_ROLL: u8 = 1;

/// Largest guess a player may make.
pub const MAX_ROLL: u8 = 99;

/// A bet older than this many slots can be refunded (the house never revealed).
pub const REFUND_TIMEOUT_SLOTS: u64 = 1000;

} // verus!
