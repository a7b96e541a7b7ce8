//! The house funds its vault PDA: a plain system transfer from the (signing)
//! house into the program-addressed vault.

use vstd::prelude::*;

use crate::state::Transfer;

verus! {

/// The accounts of `initialize`: the signing house and its vault.
#[derive(Clone, Copy, Debug)]
pub struct Initialize {
    pub house: [u8; 32],
    pub vault: [u8; 32],
}

impl Initialize {
    /// The transfer that seeds the vault with `amount` lamports from the house.
    pub fn handle(&self, amount: u64) -> (t: Transfer)
        ensures
            t == (Transfer { from: self.house, to: self.vault, lamports: amount, vault_bump: None }),
    {
        Transfer { from: self.house, to: self.vault, lamports: amount, vault_bump: None }
    }
}

} // verus!
