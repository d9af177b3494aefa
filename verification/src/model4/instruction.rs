//! Instructions of the lifetime lottery: their byte format and builder.
use vstd::prelude::*;
use vstd::bytes::*;
use crate::program::{
    Pubkey, ProgramError, AccountMeta, Instruction, spec_rent_sysvar_key, spec_zero_key,
    rent_sysvar_id, system_program_id, meta, built, pair_metas, push_pair_metas,
};
use crate::codec::{push_u32, read_u32, lemma_le_roundtrip};
use crate::model4::error::LotteryError;

verus! {

broadcast use vstd::seq_lib::group_seq_properties;

/// Instructions supported by the lifetime lottery program.
#[derive(Clone, Copy, Debug, PartialEq, Eq, Structural)]
pub enum LotteryInstruction {
    /// Get the random number, find winner and pay reward from prize pool.
    /// Lottery id, winner's wallet are recorded into chain.
    ///
    /// Accounts expected by this instruction:
    /// 0. `[writable, signer]` Prize Pool SOL wallet (must be a system account)
    /// 1. `[writable]` Solloto rewards wallet account (must be a system account)
    /// 2. `[writable]` SLOT holders wallet account (must be a system account)
    /// 3. `[writable]` Solloto labs wallet account (must be a system account)
    /// 4. `[writable]` Lottery Result Data account
    /// 5. `[signer]` Lifetime Ticket Token owner
    /// 6. `[]` Lifetime Ticket Token Mint
    /// 7. `[]` System program account
    /// 8. `[]` Rent sysvar
    /// The accounts pairs for every lottery participant:
    /// 0. `[writable]` User wallet (for getting reward)
    /// 1. `[]` User Lifetime Ticket Token Account (for check validness)
    RewardWinner {
        /// Inner identifier for lottery (will be recorded on-chain)
        lottery_id: u32,
        /// Random winner number from 0 to participant count
        random_number: u32,
    },
}

impl LotteryInstruction {
    /// The instruction's bytes: its tag, then its fields little-endian.
    pub open spec fn spec_pack(self) -> Seq<u8> {
        match self {
            LotteryInstruction::RewardWinner { lottery_id, random_number } => seq![0u8]
                + spec_u32_to_le_bytes(lottery_id) + spec_u32_to_le_bytes(random_number),
        }
    }

    /// The inputs on which reading an instruction panics: a `RewardWinner`
    /// tag whose fields fall short.
    pub open spec fn spec_unpack_panics(input: Seq<u8>) -> bool {
        input.len() >= 1 && input[0] == 0 && input.len() < 9
    }

    /// The instruction that `input` holds; bytes after its fields are ignored.
    pub open spec fn spec_unpack(input: Seq<u8>) -> Result<LotteryInstruction, ProgramError> {
        if input.len() == 0 || input[0] != 0 {
            Err(LotteryError::InvalidInstruction.spec_into())
        } else {
            Ok(
                LotteryInstruction::RewardWinner {
                    lottery_id: spec_u32_from_le_bytes(input.subrange(1, 5)),
                    random_number: spec_u32_from_le_bytes(input.subrange(5, 9)),
                },
            )
        }
    }

    /// Whether reading `input` as an instruction would panic.
    pub fn unpack_panics(input: &[u8]) -> (b: bool)
        ensures
            b == LotteryInstruction::spec_unpack_panics(input@),
    {
        let n = input.len();
        n >= 1 && input[0] == 0 && n < 9
    }

    /// Reads an instruction from its bytes.
    pub fn unpack(input: &[u8]) -> (r: Result<LotteryInstruction, ProgramError>)
        requires
            !LotteryInstruction::spec_unpack_panics(input@),
        ensures
            r == LotteryInstruction::spec_unpack(input@),
    {
        if input.len() == 0 || input[0] != 0 {
            return Err(ProgramError::from(LotteryError::InvalidInstruction));
        }
        Ok(
            LotteryInstruction::RewardWinner {
                lottery_id: read_u32(input, 1),
                random_number: read_u32(input, 5),
            },
        )
    }

    /// Packs the instruction into its bytes.
    pub fn pack(&self) -> (buf: Vec<u8>)
        ensures
            buf@ == self.spec_pack(),
    {
        let mut buf: Vec<u8> = Vec::new();
        match self {
            LotteryInstruction::RewardWinner { lottery_id, random_number } => {
                buf.push(0);
                push_u32(&mut buf, *lottery_id);
                push_u32(&mut buf, *random_number);
            },
        }
        assert(buf@ =~= self.spec_pack());
        buf
    }

    /// Every instruction reads back from its bytes.
    pub proof fn law_unpack_pack(ix: LotteryInstruction)
        ensures
            !LotteryInstruction::spec_unpack_panics(ix.spec_pack()),
            LotteryInstruction::spec_unpack(ix.spec_pack()) == Ok::<
                LotteryInstruction,
                ProgramError,
            >(ix),
    {
        lemma_le_roundtrip();
        let s = ix.spec_pack();
        match ix {
            LotteryInstruction::RewardWinner { lottery_id, random_number } => {
                assert(s.subrange(1, 5) =~= spec_u32_to_le_bytes(lottery_id));
                assert(s.subrange(5, 9) =~= spec_u32_to_le_bytes(random_number));
            },
        }
    }
}

/// The first nine accounts of a `RewardWinner` instruction.
pub open spec fn reward_winner_metas(
    prize_pool: Pubkey,
    sollotto_rewards_wallet: Pubkey,
    slot_holders_wallet: Pubkey,
    sollotto_labs_wallet: Pubkey,
    lottery_result: Pubkey,
    lifetime_ticket_token_owner: Pubkey,
    lifetime_ticket_token_mint: Pubkey,
) -> Seq<AccountMeta> {
    seq![
        meta(prize_pool, true, true),
        meta(sollotto_rewards_wallet, false, true),
        meta(slot_holders_wallet, false, true),
        meta(sollotto_labs_wallet, false, true),
        meta(lottery_result, false, true),
        meta(lifetime_ticket_token_owner, true, false),
        meta(lifetime_ticket_token_mint, false, false),
        meta(spec_zero_key(), false, false),
        meta(spec_rent_sysvar_key(), false, false),
    ]
}

/// Creates a `RewardWinner` instruction; each participant is a pair of their
/// wallet (writable) and their lifetime ticket token account (read-only).
pub fn reward_winner(
    program_id: &Pubkey,
    lottery_id: u32,
    random_number: u32,
    prize_pool: &Pubkey,
    sollotto_rewards_wallet: &Pubkey,
    slot_holders_wallet: &Pubkey,
    sollotto_labs_wallet: &Pubkey,
    lottery_result: &Pubkey,
    lifetime_ticket_token_owner: &Pubkey,
    lifetime_ticket_token_mint: &Pubkey,
    participants: &Vec<(Pubkey, Pubkey)>,
) -> (r: Result<Instruction, ProgramError>)
    ensures
        built(
            r,
            *program_id,
            (LotteryInstruction::RewardWinner { lottery_id, random_number }).spec_pack(),
            reward_winner_metas(
                *prize_pool,
                *sollotto_rewards_wallet,
                *slot_holders_wallet,
                *sollotto_labs_wallet,
                *lottery_result,
                *lifetime_ticket_token_owner,
                *lifetime_ticket_token_mint,
            ) + pair_metas(participants@, true, false),
        ),
{
    match crate::processor::check_program_account(program_id) {
        Ok(()) => {},
        Err(e) => return Err(e),
    }
    let data = LotteryInstruction::RewardWinner { lottery_id, random_number }.pack();
    let mut accounts: Vec<AccountMeta> = Vec::new();
    accounts.push(AccountMeta::new(*prize_pool, true));
    accounts.push(AccountMeta::new(*sollotto_rewards_wallet, false));
    accounts.push(AccountMeta::new(*slot_holders_wallet, false));
    accounts.push(AccountMeta::new(*sollotto_labs_wallet, false));
    accounts.push(AccountMeta::new(*lottery_result, false));
    accounts.push(AccountMeta::new_readonly(*lifetime_ticket_token_owner, true));
    accounts.push(AccountMeta::new_readonly(*lifetime_ticket_token_mint, false));
    accounts.push(AccountMeta::new_readonly(system_program_id(), false));
    accounts.push(AccountMeta::new_readonly(rent_sysvar_id(), false));
    let ghost head = accounts@;
    push_pair_metas(&mut accounts, participants, true, false);
    assert(head =~= reward_winner_metas(
        *prize_pool,
        *sollotto_rewards_wallet,
        *slot_holders_wallet,
        *sollotto_labs_wallet,
        *lottery_result,
        *lifetime_ticket_token_owner,
        *lifetime_ticket_token_mint,
    ));
    Ok(Instruction { program_id: *program_id, accounts, data })
}

} // verus!
