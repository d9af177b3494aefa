//! Instructions of the traditional lottery: their byte format and builders.
use vstd::prelude::*;
use vstd::bytes::*;
use crate::program::{
    Pubkey, ProgramError, AccountMeta, Instruction, group_pubkey, spec_program_key,
    spec_rent_sysvar_key, spec_zero_key, rent_sysvar_id, system_program_id, meta, pair_metas,
    push_pair_metas, built,
};
use crate::codec::{push_u32, push_arr6, read_u32, read_arr6, spec_arr6, lemma_arr6, lemma_arr6_view, lemma_le_roundtrip};
use crate::error::LotteryError;

verus! {

broadcast use {group_pubkey, lemma_arr6, lemma_arr6_view, vstd::seq_lib::group_seq_properties};

/// Instructions supported by the traditional lottery program.
#[derive(Clone, Copy, Debug, PartialEq)]
pub enum LotteryInstruction {
    /// Initialize new lottery data
    /// Accounts expected by this instruction:
    ///
    /// 0. `[writable, signer]` Lottery data account
    /// 1. `[]` Rent sysvar
    InitLottery {
        lottery_id: u32,
        charity_1: Pubkey,
        charity_2: Pubkey,
        charity_3: Pubkey,
        charity_4: Pubkey,
        holding_wallet: Pubkey,
        rewards_wallet: Pubkey,
        slot_holders_rewards_wallet: Pubkey,
        sollotto_labs_wallet: Pubkey,
        randomness_account: Pubkey,
    },
    /// User purchases new ticket for lottery
    /// Accounts expected by this instruction:
    ///
    /// 0. `[writable, signer]` Lottery data account
    /// 1. `[writable]` Users ticket data account
    /// 2. `[writable, signer]` User funding account (must be a system account)
    /// 3. `[writable]` Sollotto holding wallet account (must be a system account)
    /// 4. `[]` Rent sysvar
    /// 5. `[]` System program account
    PurchaseTicket { charity: Pubkey, user_wallet_pk: Pubkey, ticket_number_arr: [u8; 6] },
    /// Store the winning combination into lottery data account
    /// Accounts expected by this instruction:
    ///
    /// 0. `[writable, signer]` Lottery data account
    StoreWinningNumbers { winning_numbers_arr: [u8; 6] },
    /// Check users number combinations and find the lottery winners.
    /// Accounts expected by this instruction:
    ///
    /// 0. `[writable, signer]` Lottery data account
    /// 1. `[writable]` Lottery result data account
    /// 2. `[writable, signer]` Sollotto holding wallet account
    /// 3. `[writable]` Solloto rewards wallet account
    /// 4. `[writable]` SLOT holders wallet account
    /// 5. `[writable]` Solloto labs wallet account
    /// 6-9. `[writable]` Charities wallet accounts
    /// 10. `[]` System program account
    /// 11 + 2N. `[]` N pairs of participants' accounts: (ticket, user wallet)
    RewardWinners {},
    /// Update charity wallets in lottery data account
    /// Accounts expected by this instruction:
    ///
    /// 0. `[writable, signer]` Lottery data account
    UpdateCharity { charity_1: Pubkey, charity_2: Pubkey, charity_3: Pubkey, charity_4: Pubkey },
    /// Update sollotto wallets in lottery data account
    /// Accounts expected by this instruction:
    ///
    /// 0. `[writable, signer]` Lottery data account
    UpdateSollottoWallets {
        holding_wallet: Pubkey,
        rewards_wallet: Pubkey,
        slot_holders_rewards_wallet: Pubkey,
        sollotto_labs_wallet: Pubkey,
    },
}

/// The address stored at `input[pos..pos + 32]`.
pub open spec fn key_at(input: Seq<u8>, pos: int) -> Pubkey {
    Pubkey::spec_from_bytes(input.subrange(pos, pos + 32))
}

/// The error of a malformed instruction.
pub open spec fn invalid_instruction() -> ProgramError {
    LotteryError::InvalidInstruction.spec_into()
}

impl LotteryInstruction {
    /// The instruction's bytes: its tag, then its fields in order, integers
    /// little-endian and addresses as their 32 bytes.
    pub open spec fn spec_pack(self) -> Seq<u8> {
        match self {
            LotteryInstruction::InitLottery {
                lottery_id,
                charity_1,
                charity_2,
                charity_3,
                charity_4,
                holding_wallet,
                rewards_wallet,
                slot_holders_rewards_wallet,
                sollotto_labs_wallet,
                randomness_account,
            } => seq![0u8] + spec_u32_to_le_bytes(lottery_id) + charity_1@ + charity_2@
                + charity_3@ + charity_4@ + holding_wallet@ + rewards_wallet@
                + slot_holders_rewards_wallet@ + sollotto_labs_wallet@ + randomness_account@,
            LotteryInstruction::PurchaseTicket { charity, user_wallet_pk, ticket_number_arr } =>
                seq![1u8] + charity@ + user_wallet_pk@ + ticket_number_arr@,
            LotteryInstruction::StoreWinningNumbers { winning_numbers_arr } => seq![2u8]
                + winning_numbers_arr@,
            LotteryInstruction::RewardWinners {  } => seq![3u8],
            LotteryInstruction::UpdateCharity { charity_1, charity_2, charity_3, charity_4 } =>
                seq![4u8] + charity_1@ + charity_2@ + charity_3@ + charity_4@,
            LotteryInstruction::UpdateSollottoWallets {
                holding_wallet,
                rewards_wallet,
                slot_holders_rewards_wallet,
                sollotto_labs_wallet,
            } => seq![5u8] + holding_wallet@ + rewards_wallet@ + slot_holders_rewards_wallet@
                + sollotto_labs_wallet@,
        }
    }

    /// The inputs on which reading an instruction panics: an instruction
    /// with fields whose bytes fall short of them. (A winning-numbers
    /// instruction that falls short is rejected instead.)
    pub open spec fn spec_unpack_panics(input: Seq<u8>) -> bool {
        &&& input.len() >= 1
        &&& {
            ||| input[0] == 0 && input.len() < 293
            ||| input[0] == 1 && input.len() < 71
            ||| (input[0] == 4 || input[0] == 5) && input.len() < 129
        }
    }

    /// The instruction that `input` holds; bytes after its fields are ignored.
    pub open spec fn spec_unpack(input: Seq<u8>) -> Result<LotteryInstruction, ProgramError> {
        if input.len() == 0 {
            Err(invalid_instruction())
        } else if input[0] == 0 {
            Ok(
                LotteryInstruction::InitLottery {
                    lottery_id: spec_u32_from_le_bytes(input.subrange(1, 5)),
                    charity_1: key_at(input, 5),
                    charity_2: key_at(input, 37),
                    charity_3: key_at(input, 69),
                    charity_4: key_at(input, 101),
                    holding_wallet: key_at(input, 133),
                    rewards_wallet: key_at(input, 165),
                    slot_holders_rewards_wallet: key_at(input, 197),
                    sollotto_labs_wallet: key_at(input, 229),
                    randomness_account: key_at(input, 261),
                },
            )
        } else if input[0] == 1 {
            Ok(
                LotteryInstruction::PurchaseTicket {
                    charity: key_at(input, 1),
                    user_wallet_pk: key_at(input, 33),
                    ticket_number_arr: spec_arr6(input.subrange(65, 71)),
                },
            )
        } else if input[0] == 2 {
            if input.len() < 7 {
                Err(invalid_instruction())
            } else {
                Ok(
                    LotteryInstruction::StoreWinningNumbers {
                        winning_numbers_arr: spec_arr6(input.subrange(1, 7)),
                    },
                )
            }
        } else if input[0] == 3 {
            Ok(LotteryInstruction::RewardWinners {  })
        } else if input[0] == 4 {
            Ok(
                LotteryInstruction::UpdateCharity {
                    charity_1: key_at(input, 1),
                    charity_2: key_at(input, 33),
                    charity_3: key_at(input, 65),
                    charity_4: key_at(input, 97),
                },
            )
        } else if input[0] == 5 {
            Ok(
                LotteryInstruction::UpdateSollottoWallets {
                    holding_wallet: key_at(input, 1),
                    rewards_wallet: key_at(input, 33),
                    slot_holders_rewards_wallet: key_at(input, 65),
                    sollotto_labs_wallet: key_at(input, 97),
                },
            )
        } else {
            Err(invalid_instruction())
        }
    }

    /// Whether reading `input` as an instruction would panic.
    pub fn unpack_panics(input: &[u8]) -> (b: bool)
        ensures
            b == LotteryInstruction::spec_unpack_panics(input@),
    {
        let n = input.len();
        n >= 1 && ((input[0] == 0 && n < 293) || (input[0] == 1 && n < 71) || ((input[0] == 4
            || input[0] == 5) && n < 129))
    }

    /// Reads an instruction from its bytes.
    pub fn unpack(input: &[u8]) -> (r: Result<LotteryInstruction, ProgramError>)
        requires
            !LotteryInstruction::spec_unpack_panics(input@),
        ensures
            r == LotteryInstruction::spec_unpack(input@),
    {
        let n = input.len();
        if n == 0 {
            return Err(ProgramError::from(LotteryError::InvalidInstruction));
        }
        let tag = input[0];
        if tag == 0 {
            let lottery_id = read_u32(input, 1);
            let (charity_1, pos) = Self::unpack_pubkey(input, 5).unwrap();
            let (charity_2, pos) = Self::unpack_pubkey(input, pos).unwrap();
            let (charity_3, pos) = Self::unpack_pubkey(input, pos).unwrap();
            let (charity_4, pos) = Self::unpack_pubkey(input, pos).unwrap();
            let (holding_wallet, pos) = Self::unpack_pubkey(input, pos).unwrap();
            let (rewards_wallet, pos) = Self::unpack_pubkey(input, pos).unwrap();
            let (slot_holders_rewards_wallet, pos) = Self::unpack_pubkey(input, pos).unwrap();
            let (sollotto_labs_wallet, pos) = Self::unpack_pubkey(input, pos).unwrap();
            let (randomness_account, _) = Self::unpack_pubkey(input, pos).unwrap();
            Ok(
                LotteryInstruction::InitLottery {
                    lottery_id,
                    charity_1,
                    charity_2,
                    charity_3,
                    charity_4,
                    holding_wallet,
                    rewards_wallet,
                    slot_holders_rewards_wallet,
                    sollotto_labs_wallet,
                    randomness_account,
                },
            )
        } else if tag == 1 {
            let (charity, pos) = Self::unpack_pubkey(input, 1).unwrap();
            let (user_wallet_pk, pos) = Self::unpack_pubkey(input, pos).unwrap();
            let (ticket_number_arr, _) = Self::unpack_ticket_number_arr(input, pos).unwrap();
            Ok(LotteryInstruction::PurchaseTicket { charity, user_wallet_pk, ticket_number_arr })
        } else if tag == 2 {
            match Self::unpack_ticket_number_arr(input, 1) {
                Ok((winning_numbers_arr, _)) => Ok(
                    LotteryInstruction::StoreWinningNumbers { winning_numbers_arr },
                ),
                Err(e) => Err(e),
            }
        } else if tag == 3 {
            Ok(LotteryInstruction::RewardWinners {  })
        } else if tag == 4 {
            let (charity_1, pos) = Self::unpack_pubkey(input, 1).unwrap();
            let (charity_2, pos) = Self::unpack_pubkey(input, pos).unwrap();
            let (charity_3, pos) = Self::unpack_pubkey(input, pos).unwrap();
            let (charity_4, _) = Self::unpack_pubkey(input, pos).unwrap();
            Ok(LotteryInstruction::UpdateCharity { charity_1, charity_2, charity_3, charity_4 })
        } else if tag == 5 {
            let (holding_wallet, pos) = Self::unpack_pubkey(input, 1).unwrap();
            let (rewards_wallet, pos) = Self::unpack_pubkey(input, pos).unwrap();
            let (slot_holders_rewards_wallet, pos) = Self::unpack_pubkey(input, pos).unwrap();
            let (sollotto_labs_wallet, _) = Self::unpack_pubkey(input, pos).unwrap();
            Ok(
                LotteryInstruction::UpdateSollottoWallets {
                    holding_wallet,
                    rewards_wallet,
                    slot_holders_rewards_wallet,
                    sollotto_labs_wallet,
                },
            )
        } else {
            Err(ProgramError::from(LotteryError::InvalidInstruction))
        }
    }

    /// Packs the instruction into its bytes.
    pub fn pack(&self) -> (buf: Vec<u8>)
        ensures
            buf@ == self.spec_pack(),
    {
        let mut buf: Vec<u8> = Vec::new();
        match self {
            LotteryInstruction::InitLottery {
                lottery_id,
                charity_1,
                charity_2,
                charity_3,
                charity_4,
                holding_wallet,
                rewards_wallet,
                slot_holders_rewards_wallet,
                sollotto_labs_wallet,
                randomness_account,
            } => {
                buf.push(0);
                push_u32(&mut buf, *lottery_id);
                charity_1.write_to(&mut buf);
                charity_2.write_to(&mut buf);
                charity_3.write_to(&mut buf);
                charity_4.write_to(&mut buf);
                holding_wallet.write_to(&mut buf);
                rewards_wallet.write_to(&mut buf);
                slot_holders_rewards_wallet.write_to(&mut buf);
                sollotto_labs_wallet.write_to(&mut buf);
                randomness_account.write_to(&mut buf);
            },
            LotteryInstruction::PurchaseTicket { charity, user_wallet_pk, ticket_number_arr } => {
                buf.push(1);
                charity.write_to(&mut buf);
                user_wallet_pk.write_to(&mut buf);
                push_arr6(&mut buf, ticket_number_arr);
            },
            LotteryInstruction::StoreWinningNumbers { winning_numbers_arr } => {
                buf.push(2);
                push_arr6(&mut buf, winning_numbers_arr);
            },
            LotteryInstruction::RewardWinners {  } => {
                buf.push(3);
            },
            LotteryInstruction::UpdateCharity { charity_1, charity_2, charity_3, charity_4 } => {
                buf.push(4);
                charity_1.write_to(&mut buf);
                charity_2.write_to(&mut buf);
                charity_3.write_to(&mut buf);
                charity_4.write_to(&mut buf);
            },
            LotteryInstruction::UpdateSollottoWallets {
                holding_wallet,
                rewards_wallet,
                slot_holders_rewards_wallet,
                sollotto_labs_wallet,
            } => {
                buf.push(5);
                holding_wallet.write_to(&mut buf);
                rewards_wallet.write_to(&mut buf);
                slot_holders_rewards_wallet.write_to(&mut buf);
                sollotto_labs_wallet.write_to(&mut buf);
            },
        }
        assert(buf@ =~= self.spec_pack());
        buf
    }

    /// Reads the address at `input[pos..pos + 32]` and the position after it;
    /// `InvalidInstruction` where the bytes fall short.
    fn unpack_pubkey(input: &[u8], pos: usize) -> (r: Result<(Pubkey, usize), ProgramError>)
        requires
            pos <= input@.len(),
        ensures
            pos + 32 <= input@.len() ==> r == Ok::<(Pubkey, usize), ProgramError>(
                (key_at(input@, pos as int), (pos + 32) as usize),
            ),
            pos + 32 > input@.len() ==> r == Err::<(Pubkey, usize), ProgramError>(
                invalid_instruction(),
            ),
    {
        if input.len() - pos < 32 {
            return Err(ProgramError::from(LotteryError::InvalidInstruction));
        }
        Ok((Pubkey::from_slice(input, pos), pos + 32))
    }

    /// Reads the six numbers at `input[pos..pos + 6]` and the position after
    /// them; `InvalidInstruction` where the bytes fall short.
    fn unpack_ticket_number_arr(input: &[u8], pos: usize) -> (r: Result<([u8; 6], usize), ProgramError>)
        requires
            pos <= input@.len(),
        ensures
            pos + 6 <= input@.len() ==> r == Ok::<([u8; 6], usize), ProgramError>(
                (spec_arr6(input@.subrange(pos as int, pos + 6)), (pos + 6) as usize),
            ),
            pos + 6 > input@.len() ==> r == Err::<([u8; 6], usize), ProgramError>(
                invalid_instruction(),
            ),
    {
        if input.len() - pos < 6 {
            return Err(ProgramError::from(LotteryError::InvalidInstruction));
        }
        Ok((read_arr6(input, pos), pos + 6))
    }

    /// Every instruction reads back from its bytes.
    pub proof fn law_unpack_pack(ix: LotteryInstruction)
        ensures
            !LotteryInstruction::spec_unpack_panics(ix.spec_pack()),
            LotteryInstruction::spec_unpack(ix.spec_pack()) == Ok::<
                LotteryInstruction,
                ProgramError,
            >(ix),
    {
        lemma_le_roundtrip();
        let s = ix.spec_pack();
        match ix {
            LotteryInstruction::InitLottery {
                lottery_id,
                charity_1,
                charity_2,
                charity_3,
                charity_4,
                holding_wallet,
                rewards_wallet,
                slot_holders_rewards_wallet,
                sollotto_labs_wallet,
                randomness_account,
            } => {
                assert(s.subrange(1, 5) =~= spec_u32_to_le_bytes(lottery_id));
                assert(s.subrange(5, 37) =~= charity_1@);
                assert(s.subrange(37, 69) =~= charity_2@);
                assert(s.subrange(69, 101) =~= charity_3@);
                assert(s.subrange(101, 133) =~= charity_4@);
                assert(s.subrange(133, 165) =~= holding_wallet@);
                assert(s.subrange(165, 197) =~= rewards_wallet@);
                assert(s.subrange(197, 229) =~= slot_holders_rewards_wallet@);
                assert(s.subrange(229, 261) =~= sollotto_labs_wallet@);
                assert(s.subrange(261, 293) =~= randomness_account@);
            },
            LotteryInstruction::PurchaseTicket { charity, user_wallet_pk, ticket_number_arr } => {
                assert(s.subrange(1, 33) =~= charity@);
                assert(s.subrange(33, 65) =~= user_wallet_pk@);
                assert(s.subrange(65, 71) =~= ticket_number_arr@);
            },
            LotteryInstruction::StoreWinningNumbers { winning_numbers_arr } => {
                assert(s.subrange(1, 7) =~= winning_numbers_arr@);
            },
            LotteryInstruction::RewardWinners {  } => {},
            LotteryInstruction::UpdateCharity { charity_1, charity_2, charity_3, charity_4 } => {
                assert(s.subrange(1, 33) =~= charity_1@);
                assert(s.subrange(33, 65) =~= charity_2@);
                assert(s.subrange(65, 97) =~= charity_3@);
                assert(s.subrange(97, 129) =~= charity_4@);
            },
            LotteryInstruction::UpdateSollottoWallets {
                holding_wallet,
                rewards_wallet,
                slot_holders_rewards_wallet,
                sollotto_labs_wallet,
            } => {
                assert(s.subrange(1, 33) =~= holding_wallet@);
                assert(s.subrange(33, 65) =~= rewards_wallet@);
                assert(s.subrange(65, 97) =~= slot_holders_rewards_wallet@);
                assert(s.subrange(97, 129) =~= sollotto_labs_wallet@);
            },
        }
    }
}


/// Creates an `InitLottery` instruction.
pub fn initialize_lottery(
    program_id: &Pubkey,
    lottery_id: u32,
    charity_1: &Pubkey,
    charity_2: &Pubkey,
    charity_3: &Pubkey,
    charity_4: &Pubkey,
    holding_wallet: &Pubkey,
    rewards_wallet: &Pubkey,
    slot_holders_rewards_wallet: &Pubkey,
    sollotto_labs_wallet: &Pubkey,
    randomness_account: &Pubkey,
    lottery_authority: &Pubkey,
) -> (r: Result<Instruction, ProgramError>)
    ensures
        built(
            r,
            *program_id,
            (LotteryInstruction::InitLottery {
                lottery_id,
                charity_1: *charity_1,
                charity_2: *charity_2,
                charity_3: *charity_3,
                charity_4: *charity_4,
                holding_wallet: *holding_wallet,
                rewards_wallet: *rewards_wallet,
                slot_holders_rewards_wallet: *slot_holders_rewards_wallet,
                sollotto_labs_wallet: *sollotto_labs_wallet,
                randomness_account: *randomness_account,
            }).spec_pack(),
            seq![meta(*lottery_authority, true, true), meta(spec_rent_sysvar_key(), false, false)],
        ),
{
    match crate::processor::check_program_account(program_id) {
        Ok(()) => {},
        Err(e) => return Err(e),
    }
    let data = LotteryInstruction::InitLottery {
        lottery_id,
        charity_1: *charity_1,
        charity_2: *charity_2,
        charity_3: *charity_3,
        charity_4: *charity_4,
        holding_wallet: *holding_wallet,
        rewards_wallet: *rewards_wallet,
        slot_holders_rewards_wallet: *slot_holders_rewards_wallet,
        sollotto_labs_wallet: *sollotto_labs_wallet,
        randomness_account: *randomness_account,
    }.pack();
    let mut accounts: Vec<AccountMeta> = Vec::new();
    accounts.push(AccountMeta::new(*lottery_authority, true));
    accounts.push(AccountMeta::new_readonly(rent_sysvar_id(), false));
    assert(accounts@ =~= seq![meta(*lottery_authority, true, true), meta(spec_rent_sysvar_key(), false, false)]);
    Ok(Instruction { program_id: *program_id, accounts, data })
}

/// Creates a `PurchaseTicket` instruction.
pub fn purchase_ticket(
    program_id: &Pubkey,
    charity: &Pubkey,
    user_wallet_pk: &Pubkey,
    ticket_number_arr: &[u8; 6],
    user_ticket_key: &Pubkey,
    holding_wallet_key: &Pubkey,
    lottery_authority: &Pubkey,
) -> (r: Result<Instruction, ProgramError>)
    ensures
        built(
            r,
            *program_id,
            (LotteryInstruction::PurchaseTicket {
                charity: *charity,
                user_wallet_pk: *user_wallet_pk,
                ticket_number_arr: *ticket_number_arr,
            }).spec_pack(),
            seq![
                meta(*lottery_authority, true, true),
                meta(*user_ticket_key, false, true),
                meta(*user_wallet_pk, true, true),
                meta(*holding_wallet_key, false, true),
                meta(spec_rent_sysvar_key(), false, false),
                meta(spec_zero_key(), false, false),
            ],
        ),
{
    match crate::processor::check_program_account(program_id) {
        Ok(()) => {},
        Err(e) => return Err(e),
    }
    let data = LotteryInstruction::PurchaseTicket {
        charity: *charity,
        user_wallet_pk: *user_wallet_pk,
        ticket_number_arr: *ticket_number_arr,
    }.pack();
    let mut accounts: Vec<AccountMeta> = Vec::new();
    accounts.push(AccountMeta::new(*lottery_authority, true));
    accounts.push(AccountMeta::new(*user_ticket_key, false));
    accounts.push(AccountMeta::new(*user_wallet_pk, true));
    accounts.push(AccountMeta::new(*holding_wallet_key, false));
    accounts.push(AccountMeta::new_readonly(rent_sysvar_id(), false));
    accounts.push(AccountMeta::new_readonly(system_program_id(), false));
    assert(accounts@ =~= seq![
        meta(*lottery_authority, true, true),
        meta(*user_ticket_key, false, true),
        meta(*user_wallet_pk, true, true),
        meta(*holding_wallet_key, false, true),
        meta(spec_rent_sysvar_key(), false, false),
        meta(spec_zero_key(), false, false),
    ]);
    Ok(Instruction { program_id: *program_id, accounts, data })
}

/// Creates a `StoreWinningNumbers` instruction.
pub fn store_winning_numbers(
    program_id: &Pubkey,
    winning_numbers_arr: &[u8; 6],
    lottery_authority: &Pubkey,
) -> (r: Result<Instruction, ProgramError>)
    ensures
        built(
            r,
            *program_id,
            (LotteryInstruction::StoreWinningNumbers {
                winning_numbers_arr: *winning_numbers_arr,
            }).spec_pack(),
            seq![meta(*lottery_authority, true, true)],
        ),
{
    match crate::processor::check_program_account(program_id) {
        Ok(()) => {},
        Err(e) => return Err(e),
    }
    let data = LotteryInstruction::StoreWinningNumbers {
        winning_numbers_arr: *winning_numbers_arr,
    }.pack();
    let mut accounts: Vec<AccountMeta> = Vec::new();
    accounts.push(AccountMeta::new(*lottery_authority, true));
    assert(accounts@ =~= seq![meta(*lottery_authority, true, true)]);
    Ok(Instruction { program_id: *program_id, accounts, data })
}

/// Creates a `RewardWinners` instruction.
pub fn reward_winners(
    program_id: &Pubkey,
    lottery_authority: &Pubkey,
    lottery_result: &Pubkey,
    holding_wallet: &Pubkey,
    rewards_wallet: &Pubkey,
    slot_holders_wallet: &Pubkey,
    sollotto_labs_wallet: &Pubkey,
    charities: &[Pubkey; 4],
    participants: &Vec<(Pubkey, Pubkey)>,
) -> (r: Result<Instruction, ProgramError>)
    ensures
        built(
            r,
            *program_id,
            (LotteryInstruction::RewardWinners {  }).spec_pack(),
            seq![
                meta(*lottery_authority, true, true),
                meta(*lottery_result, false, true),
                meta(*holding_wallet, true, true),
                meta(*rewards_wallet, false, true),
                meta(*slot_holders_wallet, false, true),
                meta(*sollotto_labs_wallet, false, true),
                meta(charities@[0], false, true),
                meta(charities@[1], false, true),
                meta(charities@[2], false, true),
                meta(charities@[3], false, true),
                meta(spec_zero_key(), false, false),
            ] + pair_metas(participants@, false, true),
        ),
{
    match crate::processor::check_program_account(program_id) {
        Ok(()) => {},
        Err(e) => return Err(e),
    }
    let data = LotteryInstruction::RewardWinners {  }.pack();
    let mut accounts: Vec<AccountMeta> = Vec::new();
    accounts.push(AccountMeta::new(*lottery_authority, true));
    accounts.push(AccountMeta::new(*lottery_result, false));
    accounts.push(AccountMeta::new(*holding_wallet, true));
    accounts.push(AccountMeta::new(*rewards_wallet, false));
    accounts.push(AccountMeta::new(*slot_holders_wallet, false));
    accounts.push(AccountMeta::new(*sollotto_labs_wallet, false));
    accounts.push(AccountMeta::new(charities[0], false));
    accounts.push(AccountMeta::new(charities[1], false));
    accounts.push(AccountMeta::new(charities[2], false));
    accounts.push(AccountMeta::new(charities[3], false));
    accounts.push(AccountMeta::new_readonly(system_program_id(), false));
    let ghost head = accounts@;
    push_pair_metas(&mut accounts, participants, false, true);
    assert(head =~= seq![
        meta(*lottery_authority, true, true),
        meta(*lottery_result, false, true),
        meta(*holding_wallet, true, true),
        meta(*rewards_wallet, false, true),
        meta(*slot_holders_wallet, false, true),
        meta(*sollotto_labs_wallet, false, true),
        meta(charities@[0], false, true),
        meta(charities@[1], false, true),
        meta(charities@[2], false, true),
        meta(charities@[3], false, true),
        meta(spec_zero_key(), false, false),
    ]);
    Ok(Instruction { program_id: *program_id, accounts, data })
}

/// Creates an `UpdateCharity` instruction.
pub fn update_charity(
    program_id: &Pubkey,
    charity_1: &Pubkey,
    charity_2: &Pubkey,
    charity_3: &Pubkey,
    charity_4: &Pubkey,
    lottery_authority: &Pubkey,
) -> (r: Result<Instruction, ProgramError>)
    ensures
        built(
            r,
            *program_id,
            (LotteryInstruction::UpdateCharity {
                charity_1: *charity_1,
                charity_2: *charity_2,
                charity_3: *charity_3,
                charity_4: *charity_4,
            }).spec_pack(),
            seq![meta(*lottery_authority, true, true)],
        ),
{
    match crate::processor::check_program_account(program_id) {
        Ok(()) => {},
        Err(e) => return Err(e),
    }
    let data = LotteryInstruction::UpdateCharity {
        charity_1: *charity_1,
        charity_2: *charity_2,
        charity_3: *charity_3,
        charity_4: *charity_4,
    }.pack();
    let mut accounts: Vec<AccountMeta> = Vec::new();
    accounts.push(AccountMeta::new(*lottery_authority, true));
    assert(accounts@ =~= seq![meta(*lottery_authority, true, true)]);
    Ok(Instruction { program_id: *program_id, accounts, data })
}

/// Creates an `UpdateSollottoWallets` instruction.
pub fn update_sollotto_wallets(
    program_id: &Pubkey,
    holding_wallet: &Pubkey,
    rewards_wallet: &Pubkey,
    slot_holders_rewards_wallet: &Pubkey,
    sollotto_labs_wallet: &Pubkey,
    lottery_authority: &Pubkey,
) -> (r: Result<Instruction, ProgramError>)
    ensures
        built(
            r,
            *program_id,
            (LotteryInstruction::UpdateSollottoWallets {
                holding_wallet: *holding_wallet,
                rewards_wallet: *rewards_wallet,
                slot_holders_rewards_wallet: *slot_holders_rewards_wallet,
                sollotto_labs_wallet: *sollotto_labs_wallet,
            }).spec_pack(),
            seq![meta(*lottery_authority, true, true)],
        ),
{
    match crate::processor::check_program_account(program_id) {
        Ok(()) => {},
        Err(e) => return Err(e),
    }
    let data = LotteryInstruction::UpdateSollottoWallets {
        holding_wallet: *holding_wallet,
        rewards_wallet: *rewards_wallet,
        slot_holders_rewards_wallet: *slot_holders_rewards_wallet,
        sollotto_labs_wallet: *sollotto_labs_wallet,
    }.pack();
    let mut accounts: Vec<AccountMeta> = Vec::new();
    accounts.push(AccountMeta::new(*lottery_authority, true));
    assert(accounts@ =~= seq![meta(*lottery_authority, true, true)]);
    Ok(Instruction { program_id: *program_id, accounts, data })
}

} // verus!
