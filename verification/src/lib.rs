//! Commit-reveal dice game: the decisions of the program, as verified functions
//! over plain account data.
//!
//! The house opens a table by posting `sha256(preimage)`; a player bets against
//! it with a guess and open entropy; the house reveals the preimage in a `reveal`
//! instruction and settles in the same transaction, `resolve_bet` reading the
//! preimage back out of the Instructions sysvar. The roll is derived from
//! `sha256(preimage ++ entropy)`, so neither side fixes it alone.

pub mod bytes;
pub mod constants;
pub mod error;
pub mod hash;
pub mod instructions;
pub mod introspection;
pub mod laws;
pub mod odds;
pub mod state;
pub mod sysvar_layout;

use vstd::prelude::*;

pub use error::{DiceError, ProgramError};
pub use instructions::{
    CloseTable, Initialize, OpenTable, OpenTableBumps, PlaceBet, PlaceBetBumps, RefundBet,
    RefundBetBumps, ResolveBet, ResolveBetBumps, Reveal, SysvarAccount,
};
pub use state::{Bet, Table, Transfer, VaultPda};

use instructions::close_table::spec_close;
use instructions::place_bet::spec_create_bet;
use instructions::refund_bet::spec_refund;
use instructions::resolve_bet::spec_resolve;

verus! {

/// The program's address (`8hjbFtnfY87ZzpEpx26u5tx4KjxkrqiWGUEcWFbDNn7h`).
pub const ID: [u8; 32] = [
    114, 113, 50, 191, 66, 147, 47, 10, 50, 145, 49, 130, 186, 36, 64, 9, 2, 120, 224, 238, 30,
    101, 144, 234, 205, 179, 215, 188, 220, 186, 67, 32,
];

/// Discriminator of the `reveal` instruction, as seen by the introspection
/// parse.
pub const REVEAL_DISCRIMINATOR: u8 = 2;

/// House seeds its vault with an initial bankroll (discriminator 0).
pub fn initialize(accounts: &Initialize, amount: u64) -> (r: Result<Transfer, ProgramError>)
    ensures
        r == Ok::<Transfer, ProgramError>(
            Transfer { from: accounts.house, to: accounts.vault, lamports: amount, vault_bump: None },
        ),
{
    Ok(accounts.handle(amount))
}

/// House opens a round by posting its `sha256(preimage)` commitment on-chain,
/// before any bet (discriminator 5). `table_seed` identifies the Table PDA.
pub fn open_table(
    accounts: &mut OpenTable,
    bumps: &OpenTableBumps,
    table_seed: u64,
    commitment: [u8; 32],
) -> (r: Result<(), ProgramError>)
    ensures
        r == Ok::<(), ProgramError>(()),
        final(accounts).house == old(accounts).house,
        final(accounts).table == (Table {
            house: old(accounts).house,
            commitment,
            claimed: false,
            bump: bumps.table,
        }),
{
    let _ = table_seed;
    accounts.handle(commitment, bumps)
}

/// Player bets against an open table: records the guess and the player's own
/// `entropy`, and stakes `amount` into the vault (discriminator 1). `clock` is
/// the outcome of reading the Clock sysvar.
pub fn place_bet(
    accounts: &mut PlaceBet,
    bumps: &PlaceBetBumps,
    table_seed: u64,
    amount: u64,
    guess_roll: u8,
    entropy: [u8; 32],
    clock: Result<u64, ProgramError>,
) -> (r: Result<Transfer, ProgramError>)
    ensures
        *final(accounts) == spec_create_bet(
            *old(accounts),
            guess_roll,
            amount,
            entropy,
            bumps.bet,
            clock,
        ).0,
        r == match spec_create_bet(*old(accounts), guess_roll, amount, entropy, bumps.bet, clock).1 {
            Ok(_) => Ok::<Transfer, ProgramError>(
                Transfer {
                    from: old(accounts).player,
                    to: old(accounts).vault,
                    lamports: amount,
                    vault_bump: None,
                },
            ),
            Err(e) => Err(e),
        },
{
    let _ = table_seed;
    accounts.create_bet(guess_roll, amount, entropy, bumps, clock)?;
    Ok(accounts.deposit(amount))
}

/// Marker instruction (discriminator 2): carries the preimage and the house
/// signature that `resolve_bet` introspects. The handler itself does nothing.
pub fn reveal_instruction(accounts: &Reveal, preimage: [u8; 32]) -> (r: Result<(), ProgramError>)
    ensures
        r == Ok::<(), ProgramError>(()),
{
    let _ = preimage;
    accounts.handle()
}

/// House settles a bet (discriminator 3). Must directly follow a `reveal` in
/// the same transaction; the preimage is recovered by introspection.
pub fn resolve_bet(accounts: &mut ResolveBet, bumps: &ResolveBetBumps, table_seed: u64) -> (r:
    Result<Option<Transfer>, ProgramError>)
    ensures
        *final(accounts) == *old(accounts),
        r == spec_resolve(*old(accounts), bumps.vault),
{
    let _ = table_seed;
    accounts.resolve(bumps)
}

/// Player reclaims a stale, unrevealed bet after the timeout (discriminator 4).
/// `clock` is the outcome of reading the Clock sysvar.
pub fn refund_bet(
    accounts: &mut RefundBet,
    bumps: &RefundBetBumps,
    table_seed: u64,
    clock: Result<u64, ProgramError>,
) -> (r: Result<Transfer, ProgramError>)
    ensures
        *final(accounts) == *old(accounts),
        r == spec_refund(*old(accounts), bumps.vault, clock),
{
    let _ = table_seed;
    accounts.refund(bumps, clock)
}

/// House reclaims a table it opened but that no one bet against
/// (discriminator 6). A claimed table is rejected; it is retired by settle or
/// refund instead.
pub fn close_table(accounts: &CloseTable, table_seed: u64) -> (r: Result<(), ProgramError>)
    ensures
        r == spec_close(accounts.table),
{
    let _ = table_seed;
    accounts.handle()
}

} // verus!
