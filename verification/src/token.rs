//! The SPL Token program's account and mint records, as far as the lottery
//! programs read them.
use vstd::prelude::*;
use vstd::bytes::*;
use solana_program::program_pack::Pack;
use crate::program::{Pubkey, ProgramError};

verus! {

/// The fields of an SPL Token account that the lottery programs read.
#[derive(Clone, Copy, PartialEq, Eq, Structural, Debug)]
pub struct TokenAccount {
    pub mint: Pubkey,
    pub owner: Pubkey,
    pub amount: u64,
}

/// The fields of an SPL Token mint that the lottery programs read.
#[derive(Clone, Copy, PartialEq, Eq, Structural, Debug)]
pub struct TokenMint {
    pub mint_authority: Option<Pubkey>,
    pub supply: u64,
    pub decimals: u8,
}

/// The four-byte tag of an optional field at `at`: `[0, 0, 0, 0]` for none or
/// `[1, 0, 0, 0]` for some.
pub open spec fn coption_tag_ok(s: Seq<u8>, at: int) -> bool {
    &&& s[at] == 0 || s[at] == 1
    &&& s[at + 1] == 0
    &&& s[at + 2] == 0
    &&& s[at + 3] == 0
}

/// `spl_token::state::Account::unpack` on 165 bytes: mint (32), owner (32),
/// amount (8), delegate (36), state (1), is_native (12), delegated amount (8),
/// close authority (36). A wrong length, an optional field's bad tag or a
/// state byte above 2 is `InvalidAccountData`; state 0 is
/// `UninitializedAccount`.
pub open spec fn spec_token_account_unpack(data: Seq<u8>) -> Result<TokenAccount, ProgramError> {
    if data.len() != 165 || !coption_tag_ok(data, 72) || data[108] > 2 || !coption_tag_ok(
        data,
        109,
    ) || !coption_tag_ok(data, 129) {
        Err(ProgramError::InvalidAccountData)
    } else if data[108] == 0 {
        Err(ProgramError::UninitializedAccount)
    } else {
        Ok(
            TokenAccount {
                mint: Pubkey::spec_from_bytes(data.subrange(0, 32)),
                owner: Pubkey::spec_from_bytes(data.subrange(32, 64)),
                amount: spec_u64_from_le_bytes(data.subrange(64, 72)),
            },
        )
    }
}

/// `spl_token::state::Mint::unpack` on 82 bytes: mint authority (36),
/// supply (8), decimals (1), is_initialized (1), freeze authority (36). A wrong
/// length, an optional field's bad tag or an is_initialized byte above 1 is
/// `InvalidAccountData`; is_initialized 0 is `UninitializedAccount`.
pub open spec fn spec_token_mint_unpack(data: Seq<u8>) -> Result<TokenMint, ProgramError> {
    if data.len() != 82 || !coption_tag_ok(data, 0) || data[45] > 1 || !coption_tag_ok(data, 46) {
        Err(ProgramError::InvalidAccountData)
    } else if data[45] == 0 {
        Err(ProgramError::UninitializedAccount)
    } else {
        Ok(
            TokenMint {
                mint_authority: if data[0] == 1 {
                    Some(Pubkey::spec_from_bytes(data.subrange(4, 36)))
                } else {
                    None
                },
                supply: spec_u64_from_le_bytes(data.subrange(36, 44)),
                decimals: data[44],
            },
        )
    }
}

/// Reads an SPL Token account with `spl_token::state::Account::unpack`; the
/// contract is that function's source: the length check and the initialized
/// check of `Pack::unpack`, and the field layout of `unpack_from_slice`.
#[verifier::external_body]
pub(crate) fn token_account_unpack(data: &[u8]) -> (r: Result<TokenAccount, ProgramError>)
    ensures
        r == spec_token_account_unpack(data@),
{
    match spl_token::state::Account::unpack(data) {
        Ok(a) => Ok(TokenAccount {
            mint: Pubkey::new_from_array(a.mint.to_bytes()),
            owner: Pubkey::new_from_array(a.owner.to_bytes()),
            amount: a.amount,
        }),
        Err(solana_program::program_error::ProgramError::UninitializedAccount) => Err(
            ProgramError::UninitializedAccount,
        ),
        Err(_) => Err(ProgramError::InvalidAccountData),
    }
}

/// Reads an SPL Token mint with `spl_token::state::Mint::unpack`; the contract
/// is that function's source, as for [`token_account_unpack`].
#[verifier::external_body]
pub(crate) fn token_mint_unpack(data: &[u8]) -> (r: Result<TokenMint, ProgramError>)
    ensures
        r == spec_token_mint_unpack(data@),
{
    match spl_token::state::Mint::unpack(data) {
        Ok(m) => Ok(TokenMint {
            mint_authority: match m.mint_authority {
                solana_program::program_option::COption::Some(k) => Some(Pubkey::new_from_array(k.to_bytes())),
                solana_program::program_option::COption::None => None,
            },
            supply: m.supply,
            decimals: m.decimals,
        }),
        Err(solana_program::program_error::ProgramError::UninitializedAccount) => Err(
            ProgramError::UninitializedAccount,
        ),
        Err(_) => Err(ProgramError::InvalidAccountData),
    }
}

} // verus!
