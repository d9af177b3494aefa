//! Instructions of the fixed-quantity lottery: their byte format and builders.
use vstd::prelude::*;
use vstd::bytes::*;
use crate::program::{
    Pubkey, ProgramError, AccountMeta, Instruction, spec_token_program_key, spec_zero_key,
    system_program_id, token_program_id, meta, pair_metas, push_pair_metas,
};
use crate::codec::{push_u32, push_u64, read_u32, read_u64, lemma_le_roundtrip};
use crate::model5::error::LotteryError;

verus! {

broadcast use vstd::seq_lib::group_seq_properties;

/// Instructions supported by the fixed-quantity lottery program.
#[derive(Clone, Copy, Debug, PartialEq, Eq, Structural)]
pub enum LotteryInstruction {
    /// User purchases new ticket.
    /// Accounts expected by this instruction:
    ///
    /// 0. `[writable]` User FQTicket account
    /// 1. `[writable, signer]` User SOL account (must be a system account)
    /// 2. `[]` User SLOT account
    /// 3. `[writable]` FQTicket Mint
    /// 4. `[signer]` FQTicket mint_authority
    /// 5. `[]` SLOT Mint
    /// 6. `[signer]` SLOT mint_authority
    /// 7. `[writable]` Sollotto SOL account (must be a system account)
    /// 8. `[]` System program account
    /// 9. `[]` SPL Token account
    PurchaseTicket { amount: u64 },
    /// Rewarding the winner determined by indexing accounts with `idx`.
    /// Accounts expected by this instruction:
    ///
    /// 0. `[writable, signer]` Sollotto SOL Prize pool account (must be system account)
    /// 1. `[writable]` Sollotto Rewards account (must be a system account)
    /// 2. `[writable]` SLOT Holder Rewards account (must be a system account)
    /// 3. `[writable]` Sollotto labs account (must be a system account)
    /// 4. `[writable]` Sollotto Result account
    /// 5. `[]` System program account
    /// 6 + 2N. `[]` N lottery participants (sol_acc, fqticket_acc)
    RewardWinners { lottery_id: u32, idx: u64, prize_pool: u64 },
}

impl LotteryInstruction {
    /// The instruction's bytes: its tag, then its fields little-endian.
    pub open spec fn spec_pack(self) -> Seq<u8> {
        match self {
            LotteryInstruction::PurchaseTicket { amount } => seq![0u8] + spec_u64_to_le_bytes(
                amount,
            ),
            LotteryInstruction::RewardWinners { lottery_id, idx, prize_pool } => seq![1u8]
                + spec_u32_to_le_bytes(lottery_id) + spec_u64_to_le_bytes(idx)
                + spec_u64_to_le_bytes(prize_pool),
        }
    }

    /// The inputs on which reading an instruction panics: fields whose bytes
    /// fall short.
    pub open spec fn spec_unpack_panics(input: Seq<u8>) -> bool {
        &&& input.len() >= 1
        &&& {
            ||| input[0] == 0 && input.len() < 9
            ||| input[0] == 1 && input.len() < 21
        }
    }

    /// The instruction that `input` holds; bytes after its fields are ignored.
    pub open spec fn spec_unpack(input: Seq<u8>) -> Result<LotteryInstruction, ProgramError> {
        if input.len() == 0 {
            Err(LotteryError::InvalidInstruction.spec_into())
        } else if input[0] == 0 {
            Ok(
                LotteryInstruction::PurchaseTicket {
                    amount: spec_u64_from_le_bytes(input.subrange(1, 9)),
                },
            )
        } else if input[0] == 1 {
            Ok(
                LotteryInstruction::RewardWinners {
                    lottery_id: spec_u32_from_le_bytes(input.subrange(1, 5)),
                    idx: spec_u64_from_le_bytes(input.subrange(5, 13)),
                    prize_pool: spec_u64_from_le_bytes(input.subrange(13, 21)),
                },
            )
        } else {
            Err(LotteryError::InvalidInstruction.spec_into())
        }
    }

    /// Whether reading `input` as an instruction would panic.
    pub fn unpack_panics(input: &[u8]) -> (b: bool)
        ensures
            b == LotteryInstruction::spec_unpack_panics(input@),
    {
        let n = input.len();
        n >= 1 && ((input[0] == 0 && n < 9) || (input[0] == 1 && n < 21))
    }

    /// Reads an instruction from its bytes.
    pub fn unpack(input: &[u8]) -> (r: Result<LotteryInstruction, ProgramError>)
        requires
            !LotteryInstruction::spec_unpack_panics(input@),
        ensures
            r == LotteryInstruction::spec_unpack(input@),
    {
        if input.len() == 0 {
            return Err(ProgramError::from(LotteryError::InvalidInstruction));
        }
        let tag = input[0];
        if tag == 0 {
            Ok(LotteryInstruction::PurchaseTicket { amount: read_u64(input, 1) })
        } else if tag == 1 {
            Ok(
                LotteryInstruction::RewardWinners {
                    lottery_id: read_u32(input, 1),
                    idx: read_u64(input, 5),
                    prize_pool: read_u64(input, 13),
                },
            )
        } else {
            Err(ProgramError::from(LotteryError::InvalidInstruction))
        }
    }

    /// Packs the instruction into its bytes.
    pub fn pack(&self) -> (buf: Vec<u8>)
        ensures
            buf@ == self.spec_pack(),
    {
        let mut buf: Vec<u8> = Vec::new();
        match self {
            LotteryInstruction::PurchaseTicket { amount } => {
                buf.push(0);
                push_u64(&mut buf, *amount);
            },
            LotteryInstruction::RewardWinners { lottery_id, idx, prize_pool } => {
                buf.push(1);
                push_u32(&mut buf, *lottery_id);
                push_u64(&mut buf, *idx);
                push_u64(&mut buf, *prize_pool);
            },
        }
        assert(buf@ =~= self.spec_pack());
        buf
    }

    /// Every instruction reads back from its bytes.
    pub proof fn law_unpack_pack(ix: LotteryInstruction)
        ensures
            !LotteryInstruction::spec_unpack_panics(ix.spec_pack()),
            LotteryInstruction::spec_unpack(ix.spec_pack()) == Ok::<
                LotteryInstruction,
                ProgramError,
            >(ix),
    {
        lemma_le_roundtrip();
        let s = ix.spec_pack();
        match ix {
            LotteryInstruction::PurchaseTicket { amount } => {
                assert(s.subrange(1, 9) =~= spec_u64_to_le_bytes(amount));
            },
            LotteryInstruction::RewardWinners { lottery_id, idx, prize_pool } => {
                assert(s.subrange(1, 5) =~= spec_u32_to_le_bytes(lottery_id));
                assert(s.subrange(5, 13) =~= spec_u64_to_le_bytes(idx));
                assert(s.subrange(13, 21) =~= spec_u64_to_le_bytes(prize_pool));
            },
        }
    }
}

/// Creates a `PurchaseTicket` instruction.
pub fn purchase_ticket(
    program_id: &Pubkey,
    amount: u64,
    user_fqticket_acc: &Pubkey,
    user_sol_acc: &Pubkey,
    user_slot_acc: &Pubkey,
    fqticket_mint: &Pubkey,
    fqticket_mint_authority: &Pubkey,
    slot_mint: &Pubkey,
    slot_mint_authority: &Pubkey,
    sollotto_sol_acc: &Pubkey,
) -> (r: Result<Instruction, ProgramError>)
    ensures
        r matches Ok(ix) && ix.program_id == *program_id && ix.data@ == (
        LotteryInstruction::PurchaseTicket { amount }).spec_pack() && ix.accounts@ == seq![
            meta(*user_fqticket_acc, false, true),
            meta(*user_sol_acc, true, true),
            meta(*user_slot_acc, false, false),
            meta(*fqticket_mint, false, true),
            meta(*fqticket_mint_authority, true, false),
            meta(*slot_mint, false, false),
            meta(*slot_mint_authority, true, false),
            meta(*sollotto_sol_acc, false, true),
            meta(spec_zero_key(), false, false),
            meta(spec_token_program_key(), false, false),
        ],
{
    let data = LotteryInstruction::PurchaseTicket { amount }.pack();
    let mut accounts: Vec<AccountMeta> = Vec::new();
    accounts.push(AccountMeta::new(*user_fqticket_acc, false));
    accounts.push(AccountMeta::new(*user_sol_acc, true));
    accounts.push(AccountMeta::new_readonly(*user_slot_acc, false));
    accounts.push(AccountMeta::new(*fqticket_mint, false));
    accounts.push(AccountMeta::new_readonly(*fqticket_mint_authority, true));
    accounts.push(AccountMeta::new_readonly(*slot_mint, false));
    accounts.push(AccountMeta::new_readonly(*slot_mint_authority, true));
    accounts.push(AccountMeta::new(*sollotto_sol_acc, false));
    accounts.push(AccountMeta::new_readonly(system_program_id(), false));
    accounts.push(AccountMeta::new_readonly(token_program_id(), false));
    assert(accounts@ =~= seq![
        meta(*user_fqticket_acc, false, true),
        meta(*user_sol_acc, true, true),
        meta(*user_slot_acc, false, false),
        meta(*fqticket_mint, false, true),
        meta(*fqticket_mint_authority, true, false),
        meta(*slot_mint, false, false),
        meta(*slot_mint_authority, true, false),
        meta(*sollotto_sol_acc, false, true),
        meta(spec_zero_key(), false, false),
        meta(spec_token_program_key(), false, false),
    ]);
    Ok(Instruction { program_id: *program_id, accounts, data })
}

/// Creates a `RewardWinners` instruction.
pub fn reward_winners(
    program_id: &Pubkey,
    lottery_id: u32,
    idx: u64,
    prize_pool: u64,
    prize_pool_sol: &Pubkey,
    sollotto_rewards: &Pubkey,
    slot_holder_rewards: &Pubkey,
    sollotto_labs: &Pubkey,
    sollotto_result: &Pubkey,
    participants: &Vec<(Pubkey, Pubkey)>,
) -> (r: Result<Instruction, ProgramError>)
    ensures
        r matches Ok(ix) && ix.program_id == *program_id && ix.data@ == (
        LotteryInstruction::RewardWinners { lottery_id, idx, prize_pool }).spec_pack()
            && ix.accounts@ == seq![
            meta(*prize_pool_sol, true, true),
            meta(*sollotto_rewards, false, true),
            meta(*slot_holder_rewards, false, true),
            meta(*sollotto_labs, false, true),
            meta(*sollotto_result, true, true),
            meta(spec_zero_key(), false, false),
        ] + pair_metas(participants@, true, true),
{
    let data = LotteryInstruction::RewardWinners { lottery_id, idx, prize_pool }.pack();
    let mut accounts: Vec<AccountMeta> = Vec::new();
    accounts.push(AccountMeta::new(*prize_pool_sol, true));
    accounts.push(AccountMeta::new(*sollotto_rewards, false));
    accounts.push(AccountMeta::new(*slot_holder_rewards, false));
    accounts.push(AccountMeta::new(*sollotto_labs, false));
    accounts.push(AccountMeta::new(*sollotto_result, true));
    accounts.push(AccountMeta::new_readonly(system_program_id(), false));
    let ghost head = accounts@;
    push_pair_metas(&mut accounts, participants, true, true);
    assert(head =~= seq![
        meta(*prize_pool_sol, true, true),
        meta(*sollotto_rewards, false, true),
        meta(*slot_holder_rewards, false, true),
        meta(*sollotto_labs, false, true),
        meta(*sollotto_result, true, true),
        meta(spec_zero_key(), false, false),
    ]);
    Ok(Instruction { program_id: *program_id, accounts, data })
}

} // verus!
