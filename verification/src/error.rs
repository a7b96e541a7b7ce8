//! Program error codes. Each `DiceError` surfaces to the runtime as
//! `ProgramError::Custom(ordinal)`, so `CommitRevealMismatch` is `0x4` and
//! `TableInUse` is `0x8`.

use vstd::prelude::*;

verus! {

/// The program's own failures, in code order.
#[derive(Clone, Copy, Debug, PartialEq, Eq, Structural)]
pub enum DiceError {
    MinimumBet,
    MinimumRoll,
    MaximumRoll,
    BadSignature,
    CommitRevealMismatch,
    Overflow,
    TimeoutNotReached,
    /// The introspected previous instruction was not this program's `reveal`.
    NotReveal,
    /// The table already carries a bet.
    TableInUse,
}

/// A failed instruction, as the runtime reports it: a program-specific code,
/// malformed instruction data, or any other runtime error by its numeric code.
#[derive(Clone, Copy, Debug, PartialEq, Eq, Structural)]
pub enum ProgramError {
    Custom(u32),
    InvalidArgument,
    InvalidInstructionData,
    Other(u64),
}

/// The code under which a `DiceError` surfaces: its position in the enum.
pub open spec fn spec_code(e: DiceError) -> u32 {
    match e {
        DiceError::MinimumBet => 0,
        DiceError::MinimumRoll => 1,
        DiceError::MaximumRoll => 2,
        DiceError::BadSignature => 3,
        DiceError::CommitRevealMismatch => 4,
        DiceError::Overflow => 5,
        DiceError::TimeoutNotReached => 6,
        DiceError::NotReveal => 7,
        DiceError::TableInUse => 8,
    }
}

/// The `ProgramError` a `DiceError` becomes.
pub open spec fn dice(e: DiceError) -> ProgramError {
    ProgramError::Custom(spec_code(e))
}

impl DiceError {
    /// The custom error code of this failure.
    pub fn code(self) -> (c: u32)
        ensures
            c == spec_code(self),
    {
        match self {
            DiceError::MinimumBet => 0,
            DiceError::MinimumRoll => 1,
            DiceError::MaximumRoll => 2,
            DiceError::BadSignature => 3,
            DiceError::CommitRevealMismatch => 4,
            DiceError::Overflow => 5,
            DiceError::TimeoutNotReached => 6,
            DiceError::NotReveal => 7,
            DiceError::TableInUse => 8,
        }
    }

    /// The failure carried by a custom error code; an unknown code is an
    /// invalid argument.
    pub fn try_from_code(code: u32) -> (r: Result<DiceError, ProgramError>)
        ensures
            match r {
                Ok(e) => spec_code(e) == code,
                Err(err) => code > 8 && err == ProgramError::InvalidArgument,
            },
    {
        match code {
            0 => Ok(DiceError::MinimumBet),
            1 => Ok(DiceError::MinimumRoll),
            2 => Ok(DiceError::MaximumRoll),
            3 => Ok(DiceError::BadSignature),
            4 => Ok(DiceError::CommitRevealMismatch),
            5 => Ok(DiceError::Overflow),
            6 => Ok(DiceError::TimeoutNotReached),
            7 => Ok(DiceError::NotReveal),
            8 => Ok(DiceError::TableInUse),
            _ => Err(ProgramError::InvalidArgument),
        }
    }
}

impl From<DiceError> for ProgramError {
    fn from(e: DiceError) -> (r: ProgramError) {
        ProgramError::Custom(e.code())
    }
}

impl vstd::std_specs::convert::FromSpecImpl<DiceError> for ProgramError {
    open spec fn obeys_from_spec() -> bool {
        true
    }

    open spec fn from_spec(e: DiceError) -> ProgramError {
        dice(e)
    }
}

/// Decoding a code gives back the failure that was encoded: distinct failures
/// have distinct codes.
pub proof fn lemma_code_round_trip(e: DiceError)
    ensures
        spec_code(e) <= 8,
        forall|f: DiceError| spec_code(f) == spec_code(e) ==> f == e,
{
}

} // verus!
