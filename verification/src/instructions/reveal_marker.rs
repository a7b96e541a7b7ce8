//! The reveal marker. It carries the preimage as instruction data and the house
//! as a signer; `resolve_bet` reads both back out of the Instructions sysvar.
//! The handler does nothing: its purpose is to precede `resolve_bet` in the
//! same transaction.

use vstd::prelude::*;

use crate::error::ProgramError;

verus! {

/// The accounts of `reveal`: the signing house.
#[derive(Clone, Copy, Debug)]
pub struct Reveal {
    pub house: [u8; 32],
}

impl Reveal {
    /// Accept the reveal; its effect is only to be introspected.
    pub fn handle(&self) -> (r: Result<(), ProgramError>)
        ensures
            r == Ok::<(), ProgramError>(()),
    {
        Ok(())
    }
}

} // verus!
