//! The house reclaims a table it opened but that no one bet against. Guarded by
//! the `claimed` flag: a table with a bet against it cannot be closed here, so
//! the house cannot close-and-reopen a live round to substitute its commitment
//! after seeing the player's entropy. A claimed table is only retired by
//! `resolve_bet` (settled) or `refund_bet` (abandoned).

use vstd::prelude::*;

use crate::error::{dice, DiceError, ProgramError};
use crate::state::Table;

verus! {

/// The accounts of `close_table`: the signing house and its table.
#[derive(Clone, Copy, Debug)]
pub struct CloseTable {
    pub house: [u8; 32],
    pub table: Table,
}

/// Whether a table may be closed: only while no bet claims it.
pub open spec fn spec_close(table: Table) -> Result<(), ProgramError> {
    if table.claimed {
        Err(dice(DiceError::TableInUse))
    } else {
        Ok(())
    }
}

impl CloseTable {
    /// Refuse to close a claimed table.
    pub fn handle(&self) -> (r: Result<(), ProgramError>)
        ensures
            r == spec_close(self.table),
    {
        if self.table.claimed {
            return Err(DiceError::TableInUse.into());
        }
        Ok(())
    }
}

} // verus!
