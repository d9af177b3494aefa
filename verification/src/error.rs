//! Errors of the traditional lottery program.
use vstd::prelude::*;
use crate::program::ProgramError;

verus! {

/// Errors that may be returned by the traditional lottery program.
#[derive(Clone, Copy, Debug, PartialEq, Eq, Structural)]
pub enum LotteryError {
    /// Invalid instruction
    InvalidInstruction,
    /// Not Rent Exempt
    NotRentExempt,
    /// Lottery account is not initialized
    NotInitialized,
    /// Lottery account is initialized
    Initialized,
    /// A ticket or winning number is out of range
    InvalidNumber,
    /// The charity is not one of the lottery's charities
    InvalidCharity,
}

impl LotteryError {
    /// The error's number: its position in the declaration.
    pub open spec fn spec_code(self) -> u32 {
        match self {
            LotteryError::InvalidInstruction => 0,
            LotteryError::NotRentExempt => 1,
            LotteryError::NotInitialized => 2,
            LotteryError::Initialized => 3,
            LotteryError::InvalidNumber => 4,
            LotteryError::InvalidCharity => 5,
        }
    }

    /// The runtime error that carries this error: `Custom` with its number.
    pub open spec fn spec_into(self) -> ProgramError {
        ProgramError::Custom(self.spec_code())
    }

    /// The error's number: its position in the declaration.
    pub fn code(&self) -> (c: u32)
        ensures
            c == self.spec_code(),
    {
        match self {
            LotteryError::InvalidInstruction => 0,
            LotteryError::NotRentExempt => 1,
            LotteryError::NotInitialized => 2,
            LotteryError::Initialized => 3,
            LotteryError::InvalidNumber => 4,
            LotteryError::InvalidCharity => 5,
        }
    }

    /// The error's message.
    pub open spec fn spec_message(self) -> Seq<char> {
        match self {
            LotteryError::InvalidInstruction => "Invalid Instruction"@,
            LotteryError::NotRentExempt => "Not Rent Exempt"@,
            LotteryError::NotInitialized => "Lottery account is not initialized"@,
            LotteryError::Initialized => "Lottery account is initialized"@,
            LotteryError::InvalidNumber => "Number is invalid"@,
            LotteryError::InvalidCharity => "Invalid charity"@,
        }
    }

    /// The error's message.
    pub fn message(&self) -> (s: &'static str)
        ensures
            s@ == self.spec_message(),
    {
        match self {
            LotteryError::InvalidInstruction => "Invalid Instruction",
            LotteryError::NotRentExempt => "Not Rent Exempt",
            LotteryError::NotInitialized => "Lottery account is not initialized",
            LotteryError::Initialized => "Lottery account is initialized",
            LotteryError::InvalidNumber => "Number is invalid",
            LotteryError::InvalidCharity => "Invalid charity",
        }
    }
}

impl vstd::std_specs::convert::FromSpecImpl<LotteryError> for ProgramError {
    open spec fn obeys_from_spec() -> bool {
        true
    }

    open spec fn from_spec(e: LotteryError) -> ProgramError {
        e.spec_into()
    }
}

impl From<LotteryError> for ProgramError {
    fn from(e: LotteryError) -> (r: ProgramError) {
        ProgramError::Custom(e.code())
    }
}

} // verus!
