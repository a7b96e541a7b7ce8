//! A player bets against an open table. The table (and its commitment) must
//! already exist on-chain; the player adds a guess and their own `entropy`, and
//! stakes into the vault.

use vstd::prelude::*;

use crate::constants::{MAX_ROLL, MIN_BET_LAMPORTS, MIN_ROLL};
use crate::error::{dice, DiceError, ProgramError};
use crate::state::{Bet, Table, Transfer};

verus! {

/// The accounts of `place_bet`: the signing player, the house that identifies
/// the vault and the table, the open table, and the bet account being created.
#[derive(Clone, Copy, Debug)]
pub struct PlaceBet {
    pub player: [u8; 32],
    pub house: [u8; 32],
    pub vault: [u8; 32],
    pub table: Table,
    pub bet: Bet,
}

/// The bump seed found for the bet's address.
#[derive(Clone, Copy, Debug)]
pub struct PlaceBetBumps {
    pub bet: u8,
}

/// Why a bet of `amount` on `guess_roll` against `table` is refused, if it is:
/// a stake below the minimum, a guess outside `1..=99`, or a table that already
/// carries a bet, checked in that order.
pub open spec fn bet_refusal(table: Table, guess_roll: u8, amount: u64) -> Option<ProgramError> {
    if amount < MIN_BET_LAMPORTS {
        Some(dice(DiceError::MinimumBet))
    } else if guess_roll < MIN_ROLL {
        Some(dice(DiceError::MinimumRoll))
    } else if guess_roll > MAX_ROLL {
        Some(dice(DiceError::MaximumRoll))
    } else if table.claimed {
        Some(dice(DiceError::TableInUse))
    } else {
        None
    }
}

/// The accounts after `create_bet`, and its result. A refused bet changes
/// nothing. An accepted one claims the table and then reads the clock: when the
/// clock cannot be read its error is returned (the table already claimed);
/// otherwise the bet records the player, stake, guess, bump, entropy and slot.
pub open spec fn spec_create_bet(
    a: PlaceBet,
    guess_roll: u8,
    amount: u64,
    entropy: [u8; 32],
    bump: u8,
    clock: Result<u64, ProgramError>,
) -> (PlaceBet, Result<(), ProgramError>) {
    match bet_refusal(a.table, guess_roll, amount) {
        Some(e) => (a, Err(e)),
        None => {
            let claimed = PlaceBet { table: Table { claimed: true, ..a.table }, ..a };
            match clock {
                Err(e) => (claimed, Err(e)),
                Ok(slot) => (
                    PlaceBet {
                        bet: Bet { player: a.player, amount, guess_roll, bump, entropy, slot },
                        ..claimed
                    },
                    Ok(()),
                ),
            }
        },
    }
}

impl PlaceBet {
    /// Validate the bet, claim the table, and record the bet. `clock` is the
    /// outcome of reading the current slot from the Clock sysvar.
    pub fn create_bet(
        &mut self,
        guess_roll: u8,
        amount: u64,
        entropy: [u8; 32],
        bumps: &PlaceBetBumps,
        clock: Result<u64, ProgramError>,
    ) -> (r: Result<(), ProgramError>)
        ensures
            (*final(self), r) == spec_create_bet(
                *old(self),
                guess_roll,
                amount,
                entropy,
                bumps.bet,
                clock,
            ),
    {
        if amount < MIN_BET_LAMPORTS {
            return Err(DiceError::MinimumBet.into());
        }
        if guess_roll < MIN_ROLL {
            return Err(DiceError::MinimumRoll.into());
        }
        if guess_roll > MAX_ROLL {
            return Err(DiceError::MaximumRoll.into());
        }
        // One bet per table. Claiming it freezes the round: from here the house
        // can settle (`resolve_bet`) or be timed out (`refund_bet`), but it can
        // no longer `close_table` and reopen with a substituted commitment.
        if self.table.claimed {
            return Err(DiceError::TableInUse.into());
        }
        self.table.claimed = true;

        let slot = match clock {
            Ok(slot) => slot,
            Err(e) => return Err(e),
        };

        self.bet = Bet {
            player: self.player,
            amount,
            guess_roll,
            bump: bumps.bet,
            entropy,
            slot,
        };
        Ok(())
    }

    /// The transfer that stakes `amount` lamports from the player into the
    /// vault.
    pub fn deposit(&self, amount: u64) -> (t: Transfer)
        ensures
            t == (Transfer { from: self.player, to: self.vault, lamports: amount, vault_bump: None }),
    {
        Transfer { from: self.player, to: self.vault, lamports: amount, vault_bump: None }
    }
}

} // verus!
