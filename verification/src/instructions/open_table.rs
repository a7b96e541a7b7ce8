//! The house opens a round by posting its commitment on-chain. House-signed,
//! and it must land before any bet, so the chain itself witnesses that the house
//! committed to a preimage before the player chose entropy and staked.

use vstd::prelude::*;

use crate::error::ProgramError;
use crate::state::Table;

verus! {

/// The accounts of `open_table`: the signing house and the table account being
/// created.
#[derive(Clone, Copy, Debug)]
pub struct OpenTable {
    pub house: [u8; 32],
    pub table: Table,
}

/// The bump seed found for the table's address.
#[derive(Clone, Copy, Debug)]
pub struct OpenTableBumps {
    pub table: u8,
}

impl OpenTable {
    /// Record the house, its commitment and the table's bump in the table, which
    /// starts unclaimed.
    pub fn handle(&mut self, commitment: [u8; 32], bumps: &OpenTableBumps) -> (r: Result<
        (),
        ProgramError,
    >)
        ensures
            r == Ok::<(), ProgramError>(()),
            final(self).house == old(self).house,
            final(self).table == (Table {
                house: old(self).house,
                commitment,
                claimed: false,
                bump: bumps.table,
            }),
    {
        self.table.house = self.house;
        self.table.commitment = commitment;
        self.table.claimed = false;
        self.table.bump = bumps.table;
        Ok(())
    }
}

} // verus!
