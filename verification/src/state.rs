//! Persistent on-chain state, and the lamport movements the instructions ask
//! the system program for.

use vstd::prelude::*;

verus! {

/// A round the house has opened. PDA: `[b"table", house, table_seed]`. The
/// house posts its `commitment = sha256(preimage)` here, signed, before any bet,
/// so the chain witnesses the commit and the player reads it from state.
#[derive(Clone, Copy, Debug)]
pub struct Table {
    pub house: [u8; 32],
    pub commitment: [u8; 32],
    /// Set by the first (and only) bet. A claimed table can no longer be closed
    /// by `close_table`, so the house cannot close-and-reopen it with a
    /// substituted commitment after seeing the player's entropy.
    pub claimed: bool,
    pub bump: u8,
}

/// A player's bet against an open table. PDA:
/// `[b"bet", house, table_seed, player]`.
///
/// The roll is `sha256(preimage ++ entropy)`: the house's preimage (hidden
/// behind the table's commitment) mixed with the player's own `entropy`.
#[derive(Clone, Copy, Debug)]
pub struct Bet {
    pub player: [u8; 32],
    pub amount: u64,
    pub guess_roll: u8,
    pub bump: u8,
    pub entropy: [u8; 32],
    pub slot: u64,
}

/// Seed marker for the house's SOL vault: `[b"vault", house]`. The vault is a
/// program-addressed account that signs payouts.
#[derive(Clone, Copy, Debug)]
pub struct VaultPda;

/// A system-program transfer that an instruction performs as its last step:
/// `lamports` from `from` to `to`. When `vault_bump` is present, the vault PDA
/// signs with the seeds `[b"vault", house, [bump]]`; otherwise `from` is a
/// signer of the transaction.
#[derive(Clone, Copy, Debug)]
pub struct Transfer {
    pub from: [u8; 32],
    pub to: [u8; 32],
    pub lamports: u64,
    pub vault_bump: Option<u8>,
}

} // verus!
