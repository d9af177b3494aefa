//! Sollotto: lottery programs for Solana, with the instruction and account
//! formats, the instruction builders and the processors' decisions verified.
//!
//! The crate root holds the traditional lottery (tickets with six numbers and
//! charity votes); `model2` to `model5` hold the pooled, launchpad, lifetime
//! and fixed-quantity lottery models.
pub mod program;
pub mod codec;
pub mod token;
pub mod error;
pub mod state;
pub mod instruction;
pub mod processor;
pub mod reward;
pub mod model2;
pub mod model3;
pub mod model4;
pub mod model5;

use vstd::prelude::*;
use crate::program::{Pubkey, ProgramError};

verus! {

/// Checks that the supplied program id is the lottery program's id.
pub fn check_program_account(spl_token_program_id: &Pubkey) -> (r: Result<(), ProgramError>)
    ensures
        r == crate::processor::spec_check_program_account(*spl_token_program_id),
{
    crate::processor::check_program_account(spl_token_program_id)
}

} // verus!
