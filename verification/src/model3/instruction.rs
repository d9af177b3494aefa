//! Instructions of the launchpad lottery: their byte format and builders.
use vstd::prelude::*;
use vstd::bytes::*;
use crate::program::{
    Pubkey, ProgramError, AccountMeta, Instruction, spec_rent_sysvar_key, spec_token_program_key,
    rent_sysvar_id, token_program_id, meta, built, pair_metas, push_pair_metas,
};
use crate::codec::{push_u32, push_u64, read_u32, read_u64, lemma_le_roundtrip};
use crate::model3::error::LotteryError;

verus! {

broadcast use vstd::seq_lib::group_seq_properties;

/// Instructions supported by the launchpad lottery program.
#[derive(Clone, Copy, Debug, PartialEq, Eq, Structural)]
pub enum LotteryInstruction {
    /// User deposits amount of custom SPL Token into staking pool and
    /// gets equivalent of SPL Token Staking pool token
    ///
    /// Accounts expected by this instruction:
    /// 0. `[signer]` User wallet
    /// 1. `[signer]` Sollotto Staking Pool authority
    /// 2. `[writable]` User Custom token Account
    /// 3. `[writable]` User Sollotto Staking pool token Account
    /// 4. `[writable]` Sollotto Staking Pool Custom token Account
    /// 5. `[writable]` SPL Token Staking pool token mint
    /// 6. `[]` SPL Token program
    Deposit { amount: u64 },
    /// User unpools amount of SPL Token Staking pool token
    /// and gets equivalent of Custom SPL token back
    ///
    /// Accounts expected by this instruction: as for `Deposit`.
    Unpool { amount: u64 },
    /// Get the random number, find winner and pay reward from prize pool.
    /// 30% of the prize pool pays to the charity.
    /// Lottery id, winner's wallet are recorded into chain.
    ///
    /// Accounts expected by this instruction:
    /// 0. `[signer]` Custom SPL Token Prize Pool owner authority
    /// 1. `[writable]` Custom SPL Token Prize Pool account
    /// 2. `[writable]` Charity SPL Token Account (for getting reward share)
    /// 3. `[writable]` Custom SPL Token Mint
    /// 4. `[writable]` Lottery Result Data account
    /// 5. `[]` Staking Pool Token Mint
    /// 6. `[]` SPL Token program
    /// 7. `[]` Rent sysvar
    /// The accounts pairs for every lottery participant:
    /// 0. `[writable]` User Custom SPL Token account (for getting reward)
    /// 1. `[writable]` User Staking Pool Token account (for check validness)
    RewardWinner {
        /// Inner identifier for lottery (will be recorded on-chain)
        lottery_id: u32,
        /// Random winner number from 0 to participant count
        random_number: u32,
    },
}

impl LotteryInstruction {
    /// The instruction's bytes: its tag, then its fields little-endian.
    pub open spec fn spec_pack(self) -> Seq<u8> {
        match self {
            LotteryInstruction::Deposit { amount } => seq![0u8] + spec_u64_to_le_bytes(amount),
            LotteryInstruction::Unpool { amount } => seq![1u8] + spec_u64_to_le_bytes(amount),
            LotteryInstruction::RewardWinner { lottery_id, random_number } => seq![2u8]
                + spec_u32_to_le_bytes(lottery_id) + spec_u32_to_le_bytes(random_number),
        }
    }

    /// The inputs on which reading an instruction panics: fields whose bytes
    /// fall short.
    pub open spec fn spec_unpack_panics(input: Seq<u8>) -> bool {
        input.len() >= 1 && input[0] <= 2 && input.len() < 9
    }

    /// The instruction that `input` holds; bytes after its fields are ignored.
    pub open spec fn spec_unpack(input: Seq<u8>) -> Result<LotteryInstruction, ProgramError> {
        if input.len() == 0 {
            Err(LotteryError::InvalidInstruction.spec_into())
        } else if input[0] == 0 {
            Ok(LotteryInstruction::Deposit { amount: spec_u64_from_le_bytes(input.subrange(1, 9)) })
        } else if input[0] == 1 {
            Ok(LotteryInstruction::Unpool { amount: spec_u64_from_le_bytes(input.subrange(1, 9)) })
        } else if input[0] == 2 {
            Ok(
                LotteryInstruction::RewardWinner {
                    lottery_id: spec_u32_from_le_bytes(input.subrange(1, 5)),
                    random_number: spec_u32_from_le_bytes(input.subrange(5, 9)),
                },
            )
        } else {
            Err(LotteryError::InvalidInstruction.spec_into())
        }
    }

    /// Whether reading `input` as an instruction would panic.
    pub fn unpack_panics(input: &[u8]) -> (b: bool)
        ensures
            b == LotteryInstruction::spec_unpack_panics(input@),
    {
        let n = input.len();
        n >= 1 && input[0] <= 2 && n < 9
    }

    /// Reads an instruction from its bytes.
    pub fn unpack(input: &[u8]) -> (r: Result<LotteryInstruction, ProgramError>)
        requires
            !LotteryInstruction::spec_unpack_panics(input@),
        ensures
            r == LotteryInstruction::spec_unpack(input@),
    {
        if input.len() == 0 {
            return Err(ProgramError::from(LotteryError::InvalidInstruction));
        }
        let tag = input[0];
        if tag == 0 {
            Ok(LotteryInstruction::Deposit { amount: read_u64(input, 1) })
        } else if tag == 1 {
            Ok(LotteryInstruction::Unpool { amount: read_u64(input, 1) })
        } else if tag == 2 {
            Ok(
                LotteryInstruction::RewardWinner {
                    lottery_id: read_u32(input, 1),
                    random_number: read_u32(input, 5),
                },
            )
        } else {
            Err(ProgramError::from(LotteryError::InvalidInstruction))
        }
    }

    /// Packs the instruction into its bytes.
    pub fn pack(&self) -> (buf: Vec<u8>)
        ensures
            buf@ == self.spec_pack(),
    {
        let mut buf: Vec<u8> = Vec::new();
        match self {
            LotteryInstruction::Deposit { amount } => {
                buf.push(0);
                push_u64(&mut buf, *amount);
            },
            LotteryInstruction::Unpool { amount } => {
                buf.push(1);
                push_u64(&mut buf, *amount);
            },
            LotteryInstruction::RewardWinner { lottery_id, random_number } => {
                buf.push(2);
                push_u32(&mut buf, *lottery_id);
                push_u32(&mut buf, *random_number);
            },
        }
        assert(buf@ =~= self.spec_pack());
        buf
    }

    /// Every instruction reads back from its bytes.
    pub proof fn law_unpack_pack(ix: LotteryInstruction)
        ensures
            !LotteryInstruction::spec_unpack_panics(ix.spec_pack()),
            LotteryInstruction::spec_unpack(ix.spec_pack()) == Ok::<
                LotteryInstruction,
                ProgramError,
            >(ix),
    {
        lemma_le_roundtrip();
        let s = ix.spec_pack();
        match ix {
            LotteryInstruction::Deposit { amount } => {
                assert(s.subrange(1, 9) =~= spec_u64_to_le_bytes(amount));
            },
            LotteryInstruction::Unpool { amount } => {
                assert(s.subrange(1, 9) =~= spec_u64_to_le_bytes(amount));
            },
            LotteryInstruction::RewardWinner { lottery_id, random_number } => {
                assert(s.subrange(1, 5) =~= spec_u32_to_le_bytes(lottery_id));
                assert(s.subrange(5, 9) =~= spec_u32_to_le_bytes(random_number));
            },
        }
    }
}

/// The accounts of a deposit or an unpool.
pub open spec fn pool_metas(
    user_authority: Pubkey,
    staking_pool_authority: Pubkey,
    user_token_account: Pubkey,
    user_staking_pool_account: Pubkey,
    staking_pool_token_account: Pubkey,
    staking_pool_token_mint: Pubkey,
) -> Seq<AccountMeta> {
    seq![
        meta(user_authority, true, true),
        meta(staking_pool_authority, true, true),
        meta(user_token_account, false, true),
        meta(user_staking_pool_account, false, true),
        meta(staking_pool_token_account, false, true),
        meta(staking_pool_token_mint, false, true),
        meta(spec_token_program_key(), false, false),
    ]
}

/// The accounts of a deposit or an unpool.
fn push_pool_metas(
    user_authority: &Pubkey,
    staking_pool_authority: &Pubkey,
    user_token_account: &Pubkey,
    user_staking_pool_account: &Pubkey,
    staking_pool_token_account: &Pubkey,
    staking_pool_token_mint: &Pubkey,
) -> (accounts: Vec<AccountMeta>)
    ensures
        accounts@ == pool_metas(
            *user_authority,
            *staking_pool_authority,
            *user_token_account,
            *user_staking_pool_account,
            *staking_pool_token_account,
            *staking_pool_token_mint,
        ),
{
    let mut accounts: Vec<AccountMeta> = Vec::new();
    accounts.push(AccountMeta::new(*user_authority, true));
    accounts.push(AccountMeta::new(*staking_pool_authority, true));
    accounts.push(AccountMeta::new(*user_token_account, false));
    accounts.push(AccountMeta::new(*user_staking_pool_account, false));
    accounts.push(AccountMeta::new(*staking_pool_token_account, false));
    accounts.push(AccountMeta::new(*staking_pool_token_mint, false));
    accounts.push(AccountMeta::new_readonly(token_program_id(), false));
    assert(accounts@ =~= pool_metas(
        *user_authority,
        *staking_pool_authority,
        *user_token_account,
        *user_staking_pool_account,
        *staking_pool_token_account,
        *staking_pool_token_mint,
    ));
    accounts
}

/// Creates a `Deposit` instruction.
pub fn deposit(
    program_id: &Pubkey,
    amount: u64,
    user_authority: &Pubkey,
    staking_pool_authority: &Pubkey,
    user_token_account: &Pubkey,
    user_staking_pool_account: &Pubkey,
    staking_pool_token_account: &Pubkey,
    staking_pool_token_mint: &Pubkey,
) -> (r: Result<Instruction, ProgramError>)
    ensures
        built(
            r,
            *program_id,
            (LotteryInstruction::Deposit { amount }).spec_pack(),
            pool_metas(
                *user_authority,
                *staking_pool_authority,
                *user_token_account,
                *user_staking_pool_account,
                *staking_pool_token_account,
                *staking_pool_token_mint,
            ),
        ),
{
    match crate::processor::check_program_account(program_id) {
        Ok(()) => {},
        Err(e) => return Err(e),
    }
    let data = LotteryInstruction::Deposit { amount }.pack();
    let accounts = push_pool_metas(
        user_authority,
        staking_pool_authority,
        user_token_account,
        user_staking_pool_account,
        staking_pool_token_account,
        staking_pool_token_mint,
    );
    Ok(Instruction { program_id: *program_id, accounts, data })
}

/// Creates an `Unpool` instruction.
pub fn unpool(
    program_id: &Pubkey,
    amount: u64,
    user_authority: &Pubkey,
    staking_pool_authority: &Pubkey,
    user_token_account: &Pubkey,
    user_staking_pool_account: &Pubkey,
    staking_pool_token_account: &Pubkey,
    staking_pool_token_mint: &Pubkey,
) -> (r: Result<Instruction, ProgramError>)
    ensures
        built(
            r,
            *program_id,
            (LotteryInstruction::Unpool { amount }).spec_pack(),
            pool_metas(
                *user_authority,
                *staking_pool_authority,
                *user_token_account,
                *user_staking_pool_account,
                *staking_pool_token_account,
                *staking_pool_token_mint,
            ),
        ),
{
    match crate::processor::check_program_account(program_id) {
        Ok(()) => {},
        Err(e) => return Err(e),
    }
    let data = LotteryInstruction::Unpool { amount }.pack();
    let accounts = push_pool_metas(
        user_authority,
        staking_pool_authority,
        user_token_account,
        user_staking_pool_account,
        staking_pool_token_account,
        staking_pool_token_mint,
    );
    Ok(Instruction { program_id: *program_id, accounts, data })
}

/// Creates a `RewardWinner` instruction.
pub fn reward_winner(
    program_id: &Pubkey,
    lottery_id: u32,
    random_number: u32,
    prize_pool_owner: &Pubkey,
    prize_pool_token_account: &Pubkey,
    charity_token_account: &Pubkey,
    token_mint: &Pubkey,
    lottery_result: &Pubkey,
    staking_pool_token_mint: &Pubkey,
    participants: &Vec<(Pubkey, Pubkey)>,
) -> (r: Result<Instruction, ProgramError>)
    ensures
        built(
            r,
            *program_id,
            (LotteryInstruction::RewardWinner { lottery_id, random_number }).spec_pack(),
            seq![
                meta(*prize_pool_owner, true, false),
                meta(*prize_pool_token_account, false, true),
                meta(*charity_token_account, false, true),
                meta(*token_mint, false, true),
                meta(*lottery_result, false, true),
                meta(*staking_pool_token_mint, false, false),
                meta(spec_token_program_key(), false, false),
                meta(spec_rent_sysvar_key(), false, false),
            ] + pair_metas(participants@, true, true),
        ),
{
    match crate::processor::check_program_account(program_id) {
        Ok(()) => {},
        Err(e) => return Err(e),
    }
    let data = LotteryInstruction::RewardWinner { lottery_id, random_number }.pack();
    let mut accounts: Vec<AccountMeta> = Vec::new();
    accounts.push(AccountMeta::new_readonly(*prize_pool_owner, true));
    accounts.push(AccountMeta::new(*prize_pool_token_account, false));
    accounts.push(AccountMeta::new(*charity_token_account, false));
    accounts.push(AccountMeta::new(*token_mint, false));
    accounts.push(AccountMeta::new(*lottery_result, false));
    accounts.push(AccountMeta::new_readonly(*staking_pool_token_mint, false));
    accounts.push(AccountMeta::new_readonly(token_program_id(), false));
    accounts.push(AccountMeta::new_readonly(rent_sysvar_id(), false));
    let ghost head = accounts@;
    push_pair_metas(&mut accounts, participants, true, true);
    assert(head =~= seq![
        meta(*prize_pool_owner, true, false),
        meta(*prize_pool_token_account, false, true),
        meta(*charity_token_account, false, true),
        meta(*token_mint, false, true),
        meta(*lottery_result, false, true),
        meta(*staking_pool_token_mint, false, false),
        meta(spec_token_program_key(), false, false),
        meta(spec_rent_sysvar_key(), false, false),
    ]);
    Ok(Instruction { program_id: *program_id, accounts, data })
}

} // verus!
