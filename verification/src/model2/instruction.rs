//! Instructions of the pooled lottery: their byte format and builders.
use vstd::prelude::*;
use vstd::bytes::*;
use crate::program::{
    Pubkey, ProgramError, AccountMeta, Instruction, group_pubkey, spec_rent_sysvar_key,
    spec_zero_key, spec_token_program_key, rent_sysvar_id, system_program_id, token_program_id,
    meta, built,
};
use crate::codec::{push_u32, push_u64, read_u32, read_u64, lemma_le_roundtrip};
use crate::instruction::key_at;
use crate::model2::error::LotteryError;

verus! {

broadcast use {group_pubkey, vstd::seq_lib::group_seq_properties};

/// Instructions supported by the pooled lottery program.
#[derive(Clone, Copy, Debug, PartialEq, Eq, Structural)]
pub enum LotteryInstruction {
    /// Initialize lottery data with basic information.
    /// Creates staking pool token Mint and
    /// associated token account for staking pool token.
    /// Accounts expected by this instruction:
    ///
    /// 0. `[writable, signer]` Lottery data account
    /// 1. `[writable]` Staking pool token Mint
    /// 2. `[writable]` Staking pool token associated account
    /// 3. `[]` Rent sysvar
    /// 4. `[]` SPL Token program
    InitLottery {
        staking_pool_wallet: Pubkey,
        rewards_wallet: Pubkey,
        slot_holders_rewards_wallet: Pubkey,
        sollotto_labs_wallet: Pubkey,
    },
    /// User deposits amount in lamports and gets equivalent of
    /// Sollotto SOL Staking pool token
    ///
    /// Accounts expected by this instruction:
    /// 0. `[writable, signer]` Lottery data account (also onwer for staking pool token mint)
    /// 1. `[writable]` Staking pool token mint
    /// 2. `[writable, signer]` User funding account (must be a system account)
    /// 3. `[writable]` User staking pool token associated account
    /// 4. `[writable]` Sollotto staking pool wallet
    /// 5. `[]` SPL Token program
    /// 6. `[]` System program account
    Deposit { amount: u64 },
    /// User undeposits amount of Sollotto SOL Staking pool token
    /// and gets equivalent of SOL
    ///
    /// Accounts expected by this instruction:
    /// 0. `[writable, signer]` Lottery data account (also onwer for staking pool token mint)
    /// 1. `[writable]` Staking pool token mint
    /// 2. `[writable, signer]` User funding account (must be a system account)
    /// 3. `[writable]` User staking pool token associated account
    /// 4. `[writable, signer]` Sollotto staking pool wallet
    /// 5. `[]` SPL Token program
    /// 6. `[]` System program account
    Undeposit { amount: u64 },
    /// Get the winner`s wallet and pay reward from prize pool
    ///
    /// Accounts expected by this instruction:
    /// 0. `[signer]` Lottery data account (also onwer for staking pool token mint)
    /// 1. `[writable]` Lottery result data account
    /// 2. `[writable]` Winner wallet (must be a system account)
    /// 3. `[writable, signer]` Sollotto staking pool wallet
    /// 4. `[writable]` Sollotto Foundation Rewards wallet (must be a system account)
    /// 5. `[writable]` SLOT Holders rewards wallet (must be a system account)
    /// 6. `[writable]` Sollotto labs wallet (must be a system account)
    /// 7. `[]` System program account
    RewardWinner { lottery_id: u32 },
    /// Update wallets pubkeys in lottery data account
    /// Accounts expected by this instruction:
    ///
    /// 0. `[writable, signer]` Lottery data account
    UpdateLotteryWallets {
        staking_pool_wallet: Pubkey,
        staking_pool_token_mint: Pubkey,
        rewards_wallet: Pubkey,
        slot_holders_rewards_wallet: Pubkey,
        sollotto_labs_wallet: Pubkey,
    },
}

impl LotteryInstruction {
    /// The instruction's bytes: its tag, then its fields in order, integers
    /// little-endian and addresses as their 32 bytes.
    pub open spec fn spec_pack(self) -> Seq<u8> {
        match self {
            LotteryInstruction::InitLottery {
                staking_pool_wallet,
                rewards_wallet,
                slot_holders_rewards_wallet,
                sollotto_labs_wallet,
            } => seq![0u8] + staking_pool_wallet@ + rewards_wallet@ + slot_holders_rewards_wallet@
                + sollotto_labs_wallet@,
            LotteryInstruction::Deposit { amount } => seq![1u8] + spec_u64_to_le_bytes(amount),
            LotteryInstruction::Undeposit { amount } => seq![2u8] + spec_u64_to_le_bytes(amount),
            LotteryInstruction::RewardWinner { lottery_id } => seq![3u8] + spec_u32_to_le_bytes(
                lottery_id,
            ),
            LotteryInstruction::UpdateLotteryWallets {
                staking_pool_wallet,
                staking_pool_token_mint,
                rewards_wallet,
                slot_holders_rewards_wallet,
                sollotto_labs_wallet,
            } => seq![4u8] + staking_pool_wallet@ + staking_pool_token_mint@ + rewards_wallet@
                + slot_holders_rewards_wallet@ + sollotto_labs_wallet@,
        }
    }

    /// The inputs on which reading an instruction panics: fields whose bytes
    /// fall short.
    pub open spec fn spec_unpack_panics(input: Seq<u8>) -> bool {
        &&& input.len() >= 1
        &&& {
            ||| input[0] == 0 && input.len() < 129
            ||| (input[0] == 1 || input[0] == 2) && input.len() < 9
            ||| input[0] == 3 && input.len() < 5
            ||| input[0] == 4 && input.len() < 161
        }
    }

    /// The instruction that `input` holds; bytes after its fields are ignored.
    pub open spec fn spec_unpack(input: Seq<u8>) -> Result<LotteryInstruction, ProgramError> {
        if input.len() == 0 {
            Err(LotteryError::InvalidInstruction.spec_into())
        } else if input[0] == 0 {
            Ok(
                LotteryInstruction::InitLottery {
                    staking_pool_wallet: key_at(input, 1),
                    rewards_wallet: key_at(input, 33),
                    slot_holders_rewards_wallet: key_at(input, 65),
                    sollotto_labs_wallet: key_at(input, 97),
                },
            )
        } else if input[0] == 1 {
            Ok(LotteryInstruction::Deposit { amount: spec_u64_from_le_bytes(input.subrange(1, 9)) })
        } else if input[0] == 2 {
            Ok(
                LotteryInstruction::Undeposit {
                    amount: spec_u64_from_le_bytes(input.subrange(1, 9)),
                },
            )
        } else if input[0] == 3 {
            Ok(
                LotteryInstruction::RewardWinner {
                    lottery_id: spec_u32_from_le_bytes(input.subrange(1, 5)),
                },
            )
        } else if input[0] == 4 {
            Ok(
                LotteryInstruction::UpdateLotteryWallets {
                    staking_pool_wallet: key_at(input, 1),
                    staking_pool_token_mint: key_at(input, 33),
                    rewards_wallet: key_at(input, 65),
                    slot_holders_rewards_wallet: key_at(input, 97),
                    sollotto_labs_wallet: key_at(input, 129),
                },
            )
        } else {
            Err(LotteryError::InvalidInstruction.spec_into())
        }
    }

    /// Whether reading `input` as an instruction would panic.
    pub fn unpack_panics(input: &[u8]) -> (b: bool)
        ensures
            b == LotteryInstruction::spec_unpack_panics(input@),
    {
        let n = input.len();
        n >= 1 && ((input[0] == 0 && n < 129) || ((input[0] == 1 || input[0] == 2) && n < 9) || (
        input[0] == 3 && n < 5) || (input[0] == 4 && n < 161))
    }

    /// Reads an instruction from its bytes.
    pub fn unpack(input: &[u8]) -> (r: Result<LotteryInstruction, ProgramError>)
        requires
            !LotteryInstruction::spec_unpack_panics(input@),
        ensures
            r == LotteryInstruction::spec_unpack(input@),
    {
        if input.len() == 0 {
            return Err(ProgramError::from(LotteryError::InvalidInstruction));
        }
        let tag = input[0];
        if tag == 0 {
            let (staking_pool_wallet, pos) = Self::unpack_pubkey(input, 1).unwrap();
            let (rewards_wallet, pos) = Self::unpack_pubkey(input, pos).unwrap();
            let (slot_holders_rewards_wallet, pos) = Self::unpack_pubkey(input, pos).unwrap();
            let (sollotto_labs_wallet, _) = Self::unpack_pubkey(input, pos).unwrap();
            Ok(
                LotteryInstruction::InitLottery {
                    staking_pool_wallet,
                    rewards_wallet,
                    slot_holders_rewards_wallet,
                    sollotto_labs_wallet,
                },
            )
        } else if tag == 1 {
            Ok(LotteryInstruction::Deposit { amount: read_u64(input, 1) })
        } else if tag == 2 {
            Ok(LotteryInstruction::Undeposit { amount: read_u64(input, 1) })
        } else if tag == 3 {
            Ok(LotteryInstruction::RewardWinner { lottery_id: read_u32(input, 1) })
        } else if tag == 4 {
            let (staking_pool_wallet, pos) = Self::unpack_pubkey(input, 1).unwrap();
            let (staking_pool_token_mint, pos) = Self::unpack_pubkey(input, pos).unwrap();
            let (rewards_wallet, pos) = Self::unpack_pubkey(input, pos).unwrap();
            let (slot_holders_rewards_wallet, pos) = Self::unpack_pubkey(input, pos).unwrap();
            let (sollotto_labs_wallet, _) = Self::unpack_pubkey(input, pos).unwrap();
            Ok(
                LotteryInstruction::UpdateLotteryWallets {
                    staking_pool_wallet,
                    staking_pool_token_mint,
                    rewards_wallet,
                    slot_holders_rewards_wallet,
                    sollotto_labs_wallet,
                },
            )
        } else {
            Err(ProgramError::from(LotteryError::InvalidInstruction))
        }
    }

    /// Packs the instruction into its bytes.
    pub fn pack(&self) -> (buf: Vec<u8>)
        ensures
            buf@ == self.spec_pack(),
    {
        let mut buf: Vec<u8> = Vec::new();
        match self {
            LotteryInstruction::InitLottery {
                staking_pool_wallet,
                rewards_wallet,
                slot_holders_rewards_wallet,
                sollotto_labs_wallet,
            } => {
                buf.push(0);
                staking_pool_wallet.write_to(&mut buf);
                rewards_wallet.write_to(&mut buf);
                slot_holders_rewards_wallet.write_to(&mut buf);
                sollotto_labs_wallet.write_to(&mut buf);
            },
            LotteryInstruction::Deposit { amount } => {
                buf.push(1);
                push_u64(&mut buf, *amount);
            },
            LotteryInstruction::Undeposit { amount } => {
                buf.push(2);
                push_u64(&mut buf, *amount);
            },
            LotteryInstruction::RewardWinner { lottery_id } => {
                buf.push(3);
                push_u32(&mut buf, *lottery_id);
            },
            LotteryInstruction::UpdateLotteryWallets {
                staking_pool_wallet,
                staking_pool_token_mint,
                rewards_wallet,
                slot_holders_rewards_wallet,
                sollotto_labs_wallet,
            } => {
                buf.push(4);
                staking_pool_wallet.write_to(&mut buf);
                staking_pool_token_mint.write_to(&mut buf);
                rewards_wallet.write_to(&mut buf);
                slot_holders_rewards_wallet.write_to(&mut buf);
                sollotto_labs_wallet.write_to(&mut buf);
            },
        }
        assert(buf@ =~= self.spec_pack());
        buf
    }

    /// Reads the address at `input[pos..pos + 32]` and the position after it;
    /// `InvalidInstruction` where the bytes fall short.
    fn unpack_pubkey(input: &[u8], pos: usize) -> (r: Result<(Pubkey, usize), ProgramError>)
        requires
            pos <= input@.len(),
        ensures
            pos + 32 <= input@.len() ==> r == Ok::<(Pubkey, usize), ProgramError>(
                (key_at(input@, pos as int), (pos + 32) as usize),
            ),
            pos + 32 > input@.len() ==> r == Err::<(Pubkey, usize), ProgramError>(
                LotteryError::InvalidInstruction.spec_into(),
            ),
    {
        if input.len() - pos < 32 {
            return Err(ProgramError::from(LotteryError::InvalidInstruction));
        }
        Ok((Pubkey::from_slice(input, pos), pos + 32))
    }

    /// Every instruction reads back from its bytes.
    pub proof fn law_unpack_pack(ix: LotteryInstruction)
        ensures
            !LotteryInstruction::spec_unpack_panics(ix.spec_pack()),
            LotteryInstruction::spec_unpack(ix.spec_pack()) == Ok::<
                LotteryInstruction,
                ProgramError,
            >(ix),
    {
        lemma_le_roundtrip();
        let s = ix.spec_pack();
        match ix {
            LotteryInstruction::InitLottery {
                staking_pool_wallet,
                rewards_wallet,
                slot_holders_rewards_wallet,
                sollotto_labs_wallet,
            } => {
                assert(s.subrange(1, 33) =~= staking_pool_wallet@);
                assert(s.subrange(33, 65) =~= rewards_wallet@);
                assert(s.subrange(65, 97) =~= slot_holders_rewards_wallet@);
                assert(s.subrange(97, 129) =~= sollotto_labs_wallet@);
            },
            LotteryInstruction::Deposit { amount } => {
                assert(s.subrange(1, 9) =~= spec_u64_to_le_bytes(amount));
            },
            LotteryInstruction::Undeposit { amount } => {
                assert(s.subrange(1, 9) =~= spec_u64_to_le_bytes(amount));
            },
            LotteryInstruction::RewardWinner { lottery_id } => {
                assert(s.subrange(1, 5) =~= spec_u32_to_le_bytes(lottery_id));
            },
            LotteryInstruction::UpdateLotteryWallets {
                staking_pool_wallet,
                staking_pool_token_mint,
                rewards_wallet,
                slot_holders_rewards_wallet,
                sollotto_labs_wallet,
            } => {
                assert(s.subrange(1, 33) =~= staking_pool_wallet@);
                assert(s.subrange(33, 65) =~= staking_pool_token_mint@);
                assert(s.subrange(65, 97) =~= rewards_wallet@);
                assert(s.subrange(97, 129) =~= slot_holders_rewards_wallet@);
                assert(s.subrange(129, 161) =~= sollotto_labs_wallet@);
            },
        }
    }
}

/// Creates an `InitLottery` instruction.
pub fn initialize_lottery(
    program_id: &Pubkey,
    staking_pool_wallet: &Pubkey,
    staking_pool_token_mint: &Pubkey,
    staking_pool_token_account: &Pubkey,
    rewards_wallet: &Pubkey,
    slot_holders_rewards_wallet: &Pubkey,
    sollotto_labs_wallet: &Pubkey,
    lottery_authority: &Pubkey,
) -> (r: Result<Instruction, ProgramError>)
    ensures
        built(
            r,
            *program_id,
            (LotteryInstruction::InitLottery {
                staking_pool_wallet: *staking_pool_wallet,
                rewards_wallet: *rewards_wallet,
                slot_holders_rewards_wallet: *slot_holders_rewards_wallet,
                sollotto_labs_wallet: *sollotto_labs_wallet,
            }).spec_pack(),
            seq![
                meta(*lottery_authority, true, true),
                meta(*staking_pool_token_mint, false, true),
                meta(*staking_pool_token_account, false, true),
                meta(spec_rent_sysvar_key(), false, false),
                meta(spec_token_program_key(), false, false),
            ],
        ),
{
    match crate::model2::processor::check_program_account(program_id) {
        Ok(()) => {},
        Err(e) => return Err(e),
    }
    let data = LotteryInstruction::InitLottery {
        staking_pool_wallet: *staking_pool_wallet,
        rewards_wallet: *rewards_wallet,
        slot_holders_rewards_wallet: *slot_holders_rewards_wallet,
        sollotto_labs_wallet: *sollotto_labs_wallet,
    }.pack();
    let mut accounts: Vec<AccountMeta> = Vec::new();
    accounts.push(AccountMeta::new(*lottery_authority, true));
    accounts.push(AccountMeta::new(*staking_pool_token_mint, false));
    accounts.push(AccountMeta::new(*staking_pool_token_account, false));
    accounts.push(AccountMeta::new_readonly(rent_sysvar_id(), false));
    accounts.push(AccountMeta::new_readonly(token_program_id(), false));
    assert(accounts@ =~= seq![
        meta(*lottery_authority, true, true),
        meta(*staking_pool_token_mint, false, true),
        meta(*staking_pool_token_account, false, true),
        meta(spec_rent_sysvar_key(), false, false),
        meta(spec_token_program_key(), false, false),
    ]);
    Ok(Instruction { program_id: *program_id, accounts, data })
}

/// The accounts of a deposit or an undeposit; the staking pool wallet signs
/// an undeposit.
pub open spec fn pool_metas(
    staking_pool_token_mint: Pubkey,
    user_staking_pool_token_account: Pubkey,
    staking_pool_wallet: Pubkey,
    user_authority: Pubkey,
    lottery_authority: Pubkey,
    wallet_signs: bool,
) -> Seq<AccountMeta> {
    seq![
        meta(lottery_authority, true, true),
        meta(staking_pool_token_mint, false, true),
        meta(user_authority, true, true),
        meta(user_staking_pool_token_account, false, true),
        meta(staking_pool_wallet, wallet_signs, true),
        meta(spec_token_program_key(), false, false),
        meta(spec_zero_key(), false, false),
    ]
}

/// The accounts of a deposit or an undeposit.
fn push_pool_metas(
    staking_pool_token_mint: &Pubkey,
    user_staking_pool_token_account: &Pubkey,
    staking_pool_wallet: &Pubkey,
    user_authority: &Pubkey,
    lottery_authority: &Pubkey,
    wallet_signs: bool,
) -> (accounts: Vec<AccountMeta>)
    ensures
        accounts@ == pool_metas(
            *staking_pool_token_mint,
            *user_staking_pool_token_account,
            *staking_pool_wallet,
            *user_authority,
            *lottery_authority,
            wallet_signs,
        ),
{
    let mut accounts: Vec<AccountMeta> = Vec::new();
    accounts.push(AccountMeta::new(*lottery_authority, true));
    accounts.push(AccountMeta::new(*staking_pool_token_mint, false));
    accounts.push(AccountMeta::new(*user_authority, true));
    accounts.push(AccountMeta::new(*user_staking_pool_token_account, false));
    accounts.push(AccountMeta::new(*staking_pool_wallet, wallet_signs));
    accounts.push(AccountMeta::new_readonly(token_program_id(), false));
    accounts.push(AccountMeta::new_readonly(system_program_id(), false));
    assert(accounts@ =~= pool_metas(
        *staking_pool_token_mint,
        *user_staking_pool_token_account,
        *staking_pool_wallet,
        *user_authority,
        *lottery_authority,
        wallet_signs,
    ));
    accounts
}

/// Creates a `Deposit` instruction.
pub fn deposit(
    program_id: &Pubkey,
    amount: u64,
    staking_pool_token_mint: &Pubkey,
    user_staking_pool_token_account: &Pubkey,
    staking_pool_wallet: &Pubkey,
    user_authority: &Pubkey,
    lottery_authority: &Pubkey,
) -> (r: Result<Instruction, ProgramError>)
    ensures
        built(
            r,
            *program_id,
            (LotteryInstruction::Deposit { amount }).spec_pack(),
            pool_metas(
                *staking_pool_token_mint,
                *user_staking_pool_token_account,
                *staking_pool_wallet,
                *user_authority,
                *lottery_authority,
                false,
            ),
        ),
{
    match crate::model2::processor::check_program_account(program_id) {
        Ok(()) => {},
        Err(e) => return Err(e),
    }
    let data = LotteryInstruction::Deposit { amount }.pack();
    let accounts = push_pool_metas(
        staking_pool_token_mint,
        user_staking_pool_token_account,
        staking_pool_wallet,
        user_authority,
        lottery_authority,
        false,
    );
    Ok(Instruction { program_id: *program_id, accounts, data })
}

/// Creates an `Undeposit` instruction.
pub fn undeposit(
    program_id: &Pubkey,
    amount: u64,
    staking_pool_token_mint: &Pubkey,
    user_staking_pool_token_account: &Pubkey,
    staking_pool_wallet: &Pubkey,
    user_authority: &Pubkey,
    lottery_authority: &Pubkey,
) -> (r: Result<Instruction, ProgramError>)
    ensures
        built(
            r,
            *program_id,
            (LotteryInstruction::Undeposit { amount }).spec_pack(),
            pool_metas(
                *staking_pool_token_mint,
                *user_staking_pool_token_account,
                *staking_pool_wallet,
                *user_authority,
                *lottery_authority,
                true,
            ),
        ),
{
    match crate::model2::processor::check_program_account(program_id) {
        Ok(()) => {},
        Err(e) => return Err(e),
    }
    let data = LotteryInstruction::Undeposit { amount }.pack();
    let accounts = push_pool_metas(
        staking_pool_token_mint,
        user_staking_pool_token_account,
        staking_pool_wallet,
        user_authority,
        lottery_authority,
        true,
    );
    Ok(Instruction { program_id: *program_id, accounts, data })
}

/// Creates a `RewardWinner` instruction.
pub fn reward_winner(
    program_id: &Pubkey,
    lottery_id: u32,
    lottery_result: &Pubkey,
    winner_wallet: &Pubkey,
    rewards_wallet: &Pubkey,
    slot_holders_wallet: &Pubkey,
    sollotto_labs_wallet: &Pubkey,
    staking_pool_wallet: &Pubkey,
    lottery_authority: &Pubkey,
) -> (r: Result<Instruction, ProgramError>)
    ensures
        built(
            r,
            *program_id,
            (LotteryInstruction::RewardWinner { lottery_id }).spec_pack(),
            seq![
                meta(*lottery_authority, true, false),
                meta(*lottery_result, false, true),
                meta(*winner_wallet, false, true),
                meta(*staking_pool_wallet, true, true),
                meta(*rewards_wallet, false, true),
                meta(*slot_holders_wallet, false, true),
                meta(*sollotto_labs_wallet, false, true),
                meta(spec_zero_key(), false, false),
            ],
        ),
{
    match crate::model2::processor::check_program_account(program_id) {
        Ok(()) => {},
        Err(e) => return Err(e),
    }
    let data = LotteryInstruction::RewardWinner { lottery_id }.pack();
    let mut accounts: Vec<AccountMeta> = Vec::new();
    accounts.push(AccountMeta::new_readonly(*lottery_authority, true));
    accounts.push(AccountMeta::new(*lottery_result, false));
    accounts.push(AccountMeta::new(*winner_wallet, false));
    accounts.push(AccountMeta::new(*staking_pool_wallet, true));
    accounts.push(AccountMeta::new(*rewards_wallet, false));
    accounts.push(AccountMeta::new(*slot_holders_wallet, false));
    accounts.push(AccountMeta::new(*sollotto_labs_wallet, false));
    accounts.push(AccountMeta::new_readonly(system_program_id(), false));
    assert(accounts@ =~= seq![
        meta(*lottery_authority, true, false),
        meta(*lottery_result, false, true),
        meta(*winner_wallet, false, true),
        meta(*staking_pool_wallet, true, true),
        meta(*rewards_wallet, false, true),
        meta(*slot_holders_wallet, false, true),
        meta(*sollotto_labs_wallet, false, true),
        meta(spec_zero_key(), false, false),
    ]);
    Ok(Instruction { program_id: *program_id, accounts, data })
}

/// Creates an `UpdateLotteryWallets` instruction.
pub fn update_lottery_wallets(
    program_id: &Pubkey,
    staking_pool_wallet: &Pubkey,
    staking_pool_token_mint: &Pubkey,
    rewards_wallet: &Pubkey,
    slot_holders_rewards_wallet: &Pubkey,
    sollotto_labs_wallet: &Pubkey,
    lottery_authority: &Pubkey,
) -> (r: Result<Instruction, ProgramError>)
    ensures
        built(
            r,
            *program_id,
            (LotteryInstruction::UpdateLotteryWallets {
                staking_pool_wallet: *staking_pool_wallet,
                staking_pool_token_mint: *staking_pool_token_mint,
                rewards_wallet: *rewards_wallet,
                slot_holders_rewards_wallet: *slot_holders_rewards_wallet,
                sollotto_labs_wallet: *sollotto_labs_wallet,
            }).spec_pack(),
            seq![meta(*lottery_authority, true, true)],
        ),
{
    match crate::model2::processor::check_program_account(program_id) {
        Ok(()) => {},
        Err(e) => return Err(e),
    }
    let data = LotteryInstruction::UpdateLotteryWallets {
        staking_pool_wallet: *staking_pool_wallet,
        staking_pool_token_mint: *staking_pool_token_mint,
        rewards_wallet: *rewards_wallet,
        slot_holders_rewards_wallet: *slot_holders_rewards_wallet,
        sollotto_labs_wallet: *sollotto_labs_wallet,
    }.pack();
    let mut accounts: Vec<AccountMeta> = Vec::new();
    accounts.push(AccountMeta::new(*lottery_authority, true));
    assert(accounts@ =~= seq![meta(*lottery_authority, true, true)]);
    Ok(Instruction { program_id: *program_id, accounts, data })
}

} // verus!
