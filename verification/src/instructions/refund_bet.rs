//! The player reclaims a stale bet the house never revealed. After
//! `REFUND_TIMEOUT_SLOTS`, the stake returns from the vault and the bet closes.
//! The table is left for the house to settle or clean up.

use vstd::prelude::*;

use crate::constants::REFUND_TIMEOUT_SLOTS;
use crate::error::{dice, DiceError, ProgramError};
use crate::state::{Bet, Transfer};

verus! {

/// The accounts of `refund_bet`: the signing player, the house that identifies
/// the vault, the vault, and the player's bet.
#[derive(Clone, Copy, Debug)]
pub struct RefundBet {
    pub player: [u8; 32],
    pub house: [u8; 32],
    pub vault: [u8; 32],
    pub bet: Bet,
}

/// The bump seed of the vault's address, with which the vault signs.
#[derive(Clone, Copy, Debug)]
pub struct RefundBetBumps {
    pub vault: u8,
}

/// What `refund` yields when the clock read gave `clock`: the clock's error; an
/// `Overflow` when the current slot precedes the bet's; `TimeoutNotReached`
/// until more than `REFUND_TIMEOUT_SLOTS` slots have passed; and then the
/// vault-signed return of the whole stake to the player.
pub open spec fn spec_refund(
    a: RefundBet,
    vault_bump: u8,
    clock: Result<u64, ProgramError>,
) -> Result<Transfer, ProgramError> {
    match clock {
        Err(e) => Err(e),
        Ok(slot) => if slot < a.bet.slot {
            Err(dice(DiceError::Overflow))
        } else if slot - a.bet.slot <= REFUND_TIMEOUT_SLOTS {
            Err(dice(DiceError::TimeoutNotReached))
        } else {
            Ok(
                Transfer {
                    from: a.vault,
                    to: a.player,
                    lamports: a.bet.amount,
                    vault_bump: Some(vault_bump),
                },
            )
        },
    }
}

impl RefundBet {
    /// Return a timed-out stake to its player. `clock` is the outcome of
    /// reading the current slot from the Clock sysvar.
    pub fn refund(&mut self, bumps: &RefundBetBumps, clock: Result<u64, ProgramError>) -> (r:
        Result<Transfer, ProgramError>)
        ensures
            *final(self) == *old(self),
            r == spec_refund(*old(self), bumps.vault, clock),
    {
        let slot = match clock {
            Ok(slot) => slot,
            Err(e) => return Err(e),
        };
        let elapsed = match slot.checked_sub(self.bet.slot) {
            Some(elapsed) => elapsed,
            None => return Err(DiceError::Overflow.into()),
        };
        if elapsed <= REFUND_TIMEOUT_SLOTS {
            return Err(DiceError::TimeoutNotReached.into());
        }
        Ok(
            Transfer {
                from: self.vault,
                to: self.player,
                lamports: self.bet.amount,
                vault_bump: Some(bumps.vault),
            },
        )
    }
}

} // verus!
