//! Errors of the fixed-quantity lottery program.
use vstd::prelude::*;
use crate::program::ProgramError;

verus! {

/// Errors that may be returned by the fixed-quantity lottery program.
#[derive(Clone, Copy, Debug, PartialEq, Eq, Structural)]
pub enum LotteryError {
    /// Invalid instruction
    InvalidInstruction,
    /// Lottery account is not initialized
    NotInitialized,
    /// Number is invalid
    InvalidNumber,
    /// Invalid participants accounts
    InvalidParticipantsAccounts,
    /// Invalid sollotto accounts
    InvalidSollottoAccount,
    /// Exceeded SLOT Cap for purchasing FQTickets
    SLOTCapExceeded,
    /// Invalid SLOT Account
    InvalidSLOTAccount,
    /// Not enough Fixed-Quality Tokens
    NotEnoughFQTokens,
    /// Empty Prize Pool
    EmptyPrizePool,
}

impl LotteryError {
    /// The error's number: its position in the declaration.
    pub open spec fn spec_code(self) -> u32 {
        match self {
            LotteryError::InvalidInstruction => 0,
            LotteryError::NotInitialized => 1,
            LotteryError::InvalidNumber => 2,
            LotteryError::InvalidParticipantsAccounts => 3,
            LotteryError::InvalidSollottoAccount => 4,
            LotteryError::SLOTCapExceeded => 5,
            LotteryError::InvalidSLOTAccount => 6,
            LotteryError::NotEnoughFQTokens => 7,
            LotteryError::EmptyPrizePool => 8,
        }
    }

    /// The runtime error that carries this error: `Custom` with its number.
    pub open spec fn spec_into(self) -> ProgramError {
        ProgramError::Custom(self.spec_code())
    }

    /// The error's number: its position in the declaration.
    pub fn code(&self) -> (c: u32)
        ensures
            c == self.spec_code(),
    {
        match self {
            LotteryError::InvalidInstruction => 0,
            LotteryError::NotInitialized => 1,
            LotteryError::InvalidNumber => 2,
            LotteryError::InvalidParticipantsAccounts => 3,
            LotteryError::InvalidSollottoAccount => 4,
            LotteryError::SLOTCapExceeded => 5,
            LotteryError::InvalidSLOTAccount => 6,
            LotteryError::NotEnoughFQTokens => 7,
            LotteryError::EmptyPrizePool => 8,
        }
    }

    /// The error's message.
    pub open spec fn spec_message(self) -> Seq<char> {
        match self {
            LotteryError::InvalidInstruction => "Invalid Instruction"@,
            LotteryError::NotInitialized => "Lottery account is not initialized"@,
            LotteryError::InvalidNumber => "Number is invalid"@,
            LotteryError::InvalidParticipantsAccounts => "Invalid participants accounts"@,
            LotteryError::InvalidSollottoAccount => "Invalid sollotto account"@,
            LotteryError::SLOTCapExceeded => "Exceeded SLOT Cap for purchasing FQTickets"@,
            LotteryError::InvalidSLOTAccount => "Invalid SLOT Account"@,
            LotteryError::NotEnoughFQTokens => "Not enough Fixed-Quality Tokens"@,
            LotteryError::EmptyPrizePool => "Empty Prize Pool"@,
        }
    }

    /// The error's message.
    pub fn message(&self) -> (s: &'static str)
        ensures
            s@ == self.spec_message(),
    {
        match self {
            LotteryError::InvalidInstruction => "Invalid Instruction",
            LotteryError::NotInitialized => "Lottery account is not initialized",
            LotteryError::InvalidNumber => "Number is invalid",
            LotteryError::InvalidParticipantsAccounts => "Invalid participants accounts",
            LotteryError::InvalidSollottoAccount => "Invalid sollotto account",
            LotteryError::SLOTCapExceeded => "Exceeded SLOT Cap for purchasing FQTickets",
            LotteryError::InvalidSLOTAccount => "Invalid SLOT Account",
            LotteryError::NotEnoughFQTokens => "Not enough Fixed-Quality Tokens",
            LotteryError::EmptyPrizePool => "Empty Prize Pool",
        }
    }
}

impl vstd::std_specs::convert::FromSpecImpl<LotteryError> for ProgramError {
    open spec fn obeys_from_spec() -> bool {
        true
    }

    open spec fn from_spec(e: LotteryError) -> ProgramError {
        e.spec_into()
    }
}

impl From<LotteryError> for ProgramError {
    fn from(e: LotteryError) -> (r: ProgramError) {
        ProgramError::Custom(e.code())
    }
}

} // verus!
