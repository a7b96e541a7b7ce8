//! The house settles a bet. Must directly follow a `reveal` in the same
//! transaction: it introspects the Instructions sysvar to recover the preimage,
//! opens the table's commitment, derives the roll from the preimage mixed with
//! the player's entropy, and pays out a win. Both the bet and the table close.

use vstd::prelude::*;

use crate::bytes::{bytes32_eq, concat32};
use crate::error::{dice, DiceError, ProgramError};
use crate::hash::{sha256, sha256_digest};
use crate::introspection::{prev_reveal_preimage, spec_prev_reveal_preimage, INSTRUCTIONS_SYSVAR_ID};
use crate::odds::{roll_from_hash, spec_payout, spec_roll, winning_payout};
use crate::state::{Bet, Table, Transfer};
use crate::{ID, REVEAL_DISCRIMINATOR};

verus! {

/// An account's address and its data, as the handler reads them.
#[derive(Debug)]
pub struct SysvarAccount {
    pub address: [u8; 32],
    pub data: Vec<u8>,
}

/// The accounts of `resolve_bet`: the signing house, the player who receives a
/// payout, the vault, the table being settled, the player's bet, and the
/// account passed as the Instructions sysvar.
#[derive(Debug)]
pub struct ResolveBet {
    pub house: [u8; 32],
    pub player: [u8; 32],
    pub vault: [u8; 32],
    pub table: Table,
    pub bet: Bet,
    pub instruction_sysvar: SysvarAccount,
}

/// The bump seed of the vault's address, with which the vault signs.
#[derive(Clone, Copy, Debug)]
pub struct ResolveBetBumps {
    pub vault: u8,
}

/// How a bet settles against `roll`: a guess strictly greater than the roll
/// wins `spec_payout` from the vault (an `Overflow` when that does not fit in a
/// `u64`); any other guess, a tie included, loses and nothing is paid.
pub open spec fn spec_settle(
    bet: Bet,
    vault: [u8; 32],
    player: [u8; 32],
    vault_bump: u8,
    roll: int,
) -> Result<Option<Transfer>, ProgramError> {
    if bet.guess_roll > roll {
        let payout = spec_payout(bet.amount, bet.guess_roll);
        if payout <= u64::MAX {
            Ok(
                Some(
                    Transfer {
                        from: vault,
                        to: player,
                        lamports: payout as u64,
                        vault_bump: Some(vault_bump),
                    },
                ),
            )
        } else {
            Err(dice(DiceError::Overflow))
        }
    } else {
        Ok(None)
    }
}

/// What `resolve` yields: the sysvar account must be the Instructions sysvar
/// (else `BadSignature`); the preceding instruction must be a house-signed
/// `reveal` of this program (else the introspection's error); the revealed
/// preimage must hash to the table's commitment (else `CommitRevealMismatch`);
/// and then the bet settles against the roll of `sha256(preimage ++ entropy)`.
pub open spec fn spec_resolve(a: ResolveBet, vault_bump: u8) -> Result<Option<Transfer>, ProgramError> {
    if a.instruction_sysvar.address@ != INSTRUCTIONS_SYSVAR_ID@ {
        Err(dice(DiceError::BadSignature))
    } else {
        match spec_prev_reveal_preimage(
            a.instruction_sysvar.data@,
            ID@,
            a.house@,
            REVEAL_DISCRIMINATOR,
        ) {
            Err(e) => Err(e),
            Ok(preimage) => if sha256_digest(preimage) != a.table.commitment@ {
                Err(dice(DiceError::CommitRevealMismatch))
            } else {
                spec_settle(
                    a.bet,
                    a.vault,
                    a.player,
                    vault_bump,
                    spec_roll(sha256_digest(preimage + a.bet.entropy@)),
                )
            },
        }
    }
}

impl ResolveBet {
    /// Settle the bet against the roll that `roll_hash` yields.
    pub fn settle(&self, bumps: &ResolveBetBumps, roll_hash: &[u8; 32]) -> (r: Result<
        Option<Transfer>,
        ProgramError,
    >)
        ensures
            r == spec_settle(self.bet, self.vault, self.player, bumps.vault, spec_roll(roll_hash@)),
    {
        let roll = roll_from_hash(roll_hash);
        // A guess strictly greater than the roll wins; the payout scales
        // inversely with how many numbers the guess covers, less the edge.
        let guess = self.bet.guess_roll;
        if guess > roll {
            let payout = winning_payout(self.bet.amount, guess)?;
            Ok(
                Some(
                    Transfer {
                        from: self.vault,
                        to: self.player,
                        lamports: payout,
                        vault_bump: Some(bumps.vault),
                    },
                ),
            )
        } else {
            // A losing bet pays nothing; the stake stays in the vault.
            Ok(None)
        }
    }

    /// Settle the bet: recover the preimage from the preceding `reveal`, check
    /// it against the table's commitment, and settle against the roll.
    pub fn resolve(&mut self, bumps: &ResolveBetBumps) -> (r: Result<
        Option<Transfer>,
        ProgramError,
    >)
        ensures
            *final(self) == *old(self),
            r == spec_resolve(*old(self), bumps.vault),
    {
        // 1. Recover the preimage from the preceding `reveal` instruction.
        if !bytes32_eq(&self.instruction_sysvar.address, &INSTRUCTIONS_SYSVAR_ID) {
            return Err(DiceError::BadSignature.into());
        }
        let preimage = prev_reveal_preimage(
            self.instruction_sysvar.data.as_slice(),
            &ID,
            &self.house,
            REVEAL_DISCRIMINATOR,
        )?;

        // 2. The preimage must open the table's committed value.
        let digest = sha256(preimage.as_slice());
        if !bytes32_eq(&digest, &self.table.commitment) {
            return Err(DiceError::CommitRevealMismatch.into());
        }

        // 3. Derive the roll from both parties: the house's hidden preimage and
        //    the player's open entropy.
        let mixed = concat32(&preimage, &self.bet.entropy);
        let roll_hash = sha256(mixed.as_slice());
        self.settle(bumps, &roll_hash)
    }
}

} // verus!
