//! Errors of the launchpad lottery program.
use vstd::prelude::*;
use crate::program::ProgramError;

verus! {

/// Errors that may be returned by the launchpad lottery program.
#[derive(Clone, Copy, Debug, PartialEq, Eq, Structural)]
pub enum LotteryError {
    /// Invalid instruction
    InvalidInstruction,
    /// Prize pool is empty
    EmptyPrizePool,
    /// Invalid participants accounts size
    InvalidParticipantsAccounts,
    /// Invalid random number
    InvalidRandomNumber,
}

impl LotteryError {
    /// The error's number: its position in the declaration.
    pub open spec fn spec_code(self) -> u32 {
        match self {
            LotteryError::InvalidInstruction => 0,
            LotteryError::EmptyPrizePool => 1,
            LotteryError::InvalidParticipantsAccounts => 2,
            LotteryError::InvalidRandomNumber => 3,
        }
    }

    /// The runtime error that carries this error: `Custom` with its number.
    pub open spec fn spec_into(self) -> ProgramError {
        ProgramError::Custom(self.spec_code())
    }

    /// The error's number: its position in the declaration.
    pub fn code(&self) -> (c: u32)
        ensures
            c == self.spec_code(),
    {
        match self {
            LotteryError::InvalidInstruction => 0,
            LotteryError::EmptyPrizePool => 1,
            LotteryError::InvalidParticipantsAccounts => 2,
            LotteryError::InvalidRandomNumber => 3,
        }
    }

    /// The error's message.
    pub open spec fn spec_message(self) -> Seq<char> {
        match self {
            LotteryError::InvalidInstruction => "Invalid Instruction"@,
            LotteryError::EmptyPrizePool => "Priez pool is empty"@,
            LotteryError::InvalidParticipantsAccounts => "Invalid participants accounts size"@,
            LotteryError::InvalidRandomNumber => "Invalid random number"@,
        }
    }

    /// The error's message.
    pub fn message(&self) -> (s: &'static str)
        ensures
            s@ == self.spec_message(),
    {
        match self {
            LotteryError::InvalidInstruction => "Invalid Instruction",
            LotteryError::EmptyPrizePool => "Priez pool is empty",
            LotteryError::InvalidParticipantsAccounts => "Invalid participants accounts size",
            LotteryError::InvalidRandomNumber => "Invalid random number",
        }
    }
}

impl vstd::std_specs::convert::FromSpecImpl<LotteryError> for ProgramError {
    open spec fn obeys_from_spec() -> bool {
        true
    }

    open spec fn from_spec(e: LotteryError) -> ProgramError {
        e.spec_into()
    }
}

impl From<LotteryError> for ProgramError {
    fn from(e: LotteryError) -> (r: ProgramError) {
        ProgramError::Custom(e.code())
    }
}

} // verus!
