use sollotto::error::LotteryError;
use sollotto::instruction::{initialize_lottery, purchase_ticket, LotteryInstruction};
use sollotto::model2::instruction::LotteryInstruction as Pooled;
use sollotto::model3::instruction::LotteryInstruction as Launchpad;
use sollotto::processor::numbers_in_range;
use sollotto::program::{id, AccountMeta, ProgramError, Pubkey};
use sollotto::state::{LotteryData, LotteryResultData, TicketData};
use std::str::FromStr;

fn key(n: u8) -> Pubkey {
    Pubkey::new_from_array([n; 32])
}

fn sol(s: &str) -> [u8; 32] {
    solana_program::pubkey::Pubkey::from_str(s).unwrap().to_bytes()
}

fn sample_lottery() -> LotteryData {
    LotteryData {
        is_initialized: true,
        is_finaled: false,
        lottery_id: 0x0a0b0c0d,
        charity_1: key(1),
        charity_2: key(2),
        charity_3: key(3),
        charity_4: key(4),
        charity_1_vc: 10,
        charity_2_vc: 20,
        charity_3_vc: 30,
        charity_4_vc: 40,
        total_registrations: 100,
        winning_numbers: [1, 2, 3, 4, 5, 6],
        prize_pool_amount: 0x0102030405060708,
        holding_wallet: key(11),
        rewards_wallet: key(12),
        slot_holders_rewards_wallet: key(13),
        sollotto_labs_wallet: key(14),
        randomness_account: key(15),
    }
}

#[test]
fn program_ids_match_the_runtime() {
    assert_eq!(id().to_bytes(), sol("urNhxed8ocNiFApoooLSAJ1xnWSMUiC9S6fKcRon1rk"));
    let ix = initialize_lottery(&id(), 1, &key(1), &key(2), &key(3), &key(4), &key(5), &key(6), &key(7), &key(8), &key(9), &key(10))
        .unwrap();
    assert_eq!(ix.accounts[1], AccountMeta::new_readonly(Pubkey::new_from_array(solana_program::sysvar::rent::id().to_bytes()), false));
    let ix = purchase_ticket(&id(), &key(1), &key(2), &[1, 2, 3, 4, 5, 6], &key(3), &key(4), &key(5)).unwrap();
    assert_eq!(ix.accounts[5].pubkey.to_bytes(), solana_program::system_program::id().to_bytes());
    assert_eq!(ix.accounts[4].pubkey.to_bytes(), sol("SysvarRent111111111111111111111111111111111"));
    let dep = sollotto::model3::instruction::deposit(&id(), 1, &key(1), &key(2), &key(3), &key(4), &key(5), &key(6)).unwrap();
    assert_eq!(dep.accounts[6].pubkey.to_bytes(), spl_token::id().to_bytes());
}

#[test]
fn check_program_account_accepts_only_the_lottery_program() {
    assert_eq!(sollotto::check_program_account(&id()), Ok(()));
    assert_eq!(sollotto::check_program_account(&key(3)), Err(ProgramError::IncorrectProgramId));
    assert_eq!(
        initialize_lottery(&key(3), 1, &key(1), &key(2), &key(3), &key(4), &key(5), &key(6), &key(7), &key(8), &key(9), &key(10))
            .map(|_| ()),
        Err(ProgramError::IncorrectProgramId)
    );
    assert_eq!(sollotto::model5::processor::check_program_account(&key(3)), Err(ProgramError::IncorrectProgramId));
}

#[test]
fn pubkey_bytes_round_trip() {
    let mut bytes = [0u8; 32];
    for (i, b) in bytes.iter_mut().enumerate() {
        *b = (i * 7 + 1) as u8;
    }
    let k = Pubkey::new_from_array(bytes);
    assert_eq!(k.to_bytes(), bytes);
    assert_eq!(k.to_vec(), bytes.to_vec());
    assert_eq!(Pubkey::from_slice(&[&[9u8, 9][..], &bytes[..]].concat(), 2), k);
    assert_eq!(Pubkey::zero().to_bytes(), [0; 32]);
}

#[test]
fn lottery_data_packs_to_its_layout_and_back() {
    let d = sample_lottery();
    let bytes = d.pack_to_vec();
    assert_eq!(bytes.len(), LotteryData::LEN);
    assert_eq!(bytes.len(), LotteryData::get_packed_len());
    assert_eq!(bytes[0], 1);
    assert_eq!(bytes[1], 0);
    assert_eq!(&bytes[2..6], &[0x0d, 0x0c, 0x0b, 0x0a]);
    assert_eq!(&bytes[6..38], &[1u8; 32]);
    assert_eq!(LotteryData::unpack(&bytes), Ok(d));
    assert_eq!(LotteryData::unpack_unchecked(&bytes), Ok(d));

    let mut dst = vec![0xffu8; LotteryData::LEN];
    assert_eq!(LotteryData::pack(d, &mut dst), Ok(()));
    assert_eq!(dst, bytes);
    let mut short = vec![0u8; LotteryData::LEN - 1];
    assert_eq!(LotteryData::pack(d, &mut short), Err(ProgramError::InvalidAccountData));

    // Wrong lengths, a flag byte that is no boolean, an uninitialized record.
    assert_eq!(LotteryData::unpack(&bytes[1..]), Err(ProgramError::InvalidAccountData));
    let mut bad_flag = bytes.clone();
    bad_flag[0] = 2;
    assert_eq!(LotteryData::unpack_unchecked(&bad_flag), Err(ProgramError::InvalidAccountData));
    let blank = vec![0u8; LotteryData::LEN];
    assert_eq!(LotteryData::unpack(&blank), Err(ProgramError::UninitializedAccount));
    assert!(!LotteryData::unpack_unchecked(&blank).unwrap().is_initialized);
}

#[test]
fn ticket_and_result_records_round_trip() {
    let t = TicketData { is_purchased: true, charity: key(3), user_wallet_pk: key(4), ticket_number_arr: [9, 8, 7, 6, 5, 4] };
    let bytes = t.pack_to_vec();
    assert_eq!(bytes.len(), TicketData::LEN);
    assert_eq!(&bytes[65..71], &[9, 8, 7, 6, 5, 4]);
    assert_eq!(TicketData::unpack_unchecked(&bytes), Ok(t));
    assert_eq!(TicketData::unpack_unchecked(&bytes[..70]), Err(ProgramError::InvalidAccountData));

    let r = LotteryResultData { lottery_id: 258, winning_numbers: [1, 2, 3, 4, 5, 6] };
    let bytes = r.pack_to_vec();
    assert_eq!(bytes, vec![2, 1, 0, 0, 1, 2, 3, 4, 5, 6]);
    assert_eq!(LotteryResultData::unpack_unchecked(&bytes), Ok(r));

    let m5 = sollotto::model5::state::LotteryResultData { lottery_id: 0xff, winner: key(7) };
    let bytes = m5.pack_to_vec();
    assert_eq!(&bytes[..4], &[0xff, 0, 0, 0]);
    assert_eq!(&bytes[4..], &[7u8; 32]);
    assert_eq!(sollotto::model5::state::LotteryResultData::unpack_unchecked(&bytes), Ok(m5));

    let pooled = sollotto::model2::state::LotteryData {
        is_initialized: true,
        staking_pool_amount: 5,
        staking_pool_wallet: key(1),
        staking_pool_token_mint: key(2),
        rewards_wallet: key(3),
        slot_holders_rewards_wallet: key(4),
        sollotto_labs_wallet: key(5),
    };
    let bytes = pooled.pack_to_vec();
    assert_eq!(bytes.len(), sollotto::model2::state::LotteryData::LEN);
    assert_eq!(&bytes[..9], &[1, 5, 0, 0, 0, 0, 0, 0, 0]);
    assert_eq!(sollotto::model2::state::LotteryData::unpack(&bytes), Ok(pooled));
}

#[test]
fn instructions_round_trip() {
    let all = vec![
        LotteryInstruction::PurchaseTicket { charity: key(1), user_wallet_pk: key(2), ticket_number_arr: [1, 2, 3, 4, 5, 6] },
        LotteryInstruction::StoreWinningNumbers { winning_numbers_arr: [6, 5, 4, 3, 2, 1] },
        LotteryInstruction::RewardWinners {},
        LotteryInstruction::UpdateCharity { charity_1: key(1), charity_2: key(2), charity_3: key(3), charity_4: key(4) },
        LotteryInstruction::UpdateSollottoWallets {
            holding_wallet: key(5),
            rewards_wallet: key(6),
            slot_holders_rewards_wallet: key(7),
            sollotto_labs_wallet: key(8),
        },
        LotteryInstruction::InitLottery {
            lottery_id: 112233,
            charity_1: key(1),
            charity_2: key(2),
            charity_3: key(3),
            charity_4: key(4),
            holding_wallet: key(5),
            rewards_wallet: key(6),
            slot_holders_rewards_wallet: key(7),
            sollotto_labs_wallet: key(8),
            randomness_account: key(9),
        },
    ];
    for ix in all {
        let bytes = ix.pack();
        assert!(!LotteryInstruction::unpack_panics(&bytes));
        assert_eq!(LotteryInstruction::unpack(&bytes), Ok(ix));
    }
}

#[test]
fn instruction_decoding_edges() {
    // An initialization whose labs wallet and randomness account differ.
    let ix = LotteryInstruction::InitLottery {
        lottery_id: 1,
        charity_1: key(1),
        charity_2: key(2),
        charity_3: key(3),
        charity_4: key(4),
        holding_wallet: key(5),
        rewards_wallet: key(6),
        slot_holders_rewards_wallet: key(7),
        sollotto_labs_wallet: key(8),
        randomness_account: key(9),
    };
    let bytes = ix.pack();
    assert_eq!(bytes.len(), 293);
    match LotteryInstruction::unpack(&bytes).unwrap() {
        LotteryInstruction::InitLottery { sollotto_labs_wallet, randomness_account, .. } => {
            assert_eq!(sollotto_labs_wallet, key(8));
            assert_eq!(randomness_account, key(9));
        }
        _ => panic!("an initialization"),
    }
    assert_eq!(LotteryInstruction::unpack(&bytes), Ok(ix));
    assert!(LotteryInstruction::unpack_panics(&bytes[..292]));
    assert!(!LotteryInstruction::unpack_panics(&bytes[..293]));

    assert_eq!(LotteryInstruction::unpack(&[]), Err(LotteryError::InvalidInstruction.into()));
    assert_eq!(LotteryInstruction::unpack(&[6]), Err(LotteryError::InvalidInstruction.into()));
    assert_eq!(LotteryInstruction::unpack(&[2, 1, 2, 3]), Err(LotteryError::InvalidInstruction.into()));
    assert!(LotteryInstruction::unpack_panics(&[1, 0, 0]));
    assert!(LotteryInstruction::unpack_panics(&[4]));
    assert!(!LotteryInstruction::unpack_panics(&[2]));
    assert!(!LotteryInstruction::unpack_panics(&[3]));
}

#[test]
fn errors_carry_their_numbers() {
    assert_eq!(ProgramError::from(LotteryError::InvalidInstruction), ProgramError::Custom(0));
    assert_eq!(ProgramError::from(LotteryError::NotRentExempt), ProgramError::Custom(1));
    assert_eq!(ProgramError::from(LotteryError::NotInitialized), ProgramError::Custom(2));
    assert_eq!(ProgramError::from(LotteryError::Initialized), ProgramError::Custom(3));
    assert_eq!(ProgramError::from(LotteryError::InvalidNumber), ProgramError::Custom(4));
    assert_eq!(ProgramError::from(LotteryError::InvalidCharity), ProgramError::Custom(5));
    assert_eq!(LotteryError::InvalidCharity.code(), 5);
    assert_eq!(
        ProgramError::from(sollotto::model2::error::LotteryError::EmptyPrizePool),
        ProgramError::Custom(sollotto::model2::error::LotteryError::EmptyPrizePool.code())
    );
    assert_eq!(ProgramError::from(sollotto::model4::error::LotteryError::InvalidLifetimeTicketOwner), ProgramError::Custom(4));
    assert_eq!(ProgramError::from(sollotto::model3::error::LotteryError::InvalidRandomNumber), ProgramError::Custom(3));
    assert_eq!(ProgramError::from(sollotto::model5::error::LotteryError::EmptyPrizePool), ProgramError::Custom(8));
}

#[test]
fn numbers_in_range_bounds() {
    assert!(numbers_in_range(&[1, 69, 1, 69, 1, 29]));
    assert!(numbers_in_range(&[1, 1, 1, 1, 1, 1]));
    assert!(!numbers_in_range(&[0, 1, 1, 1, 1, 1]));
    assert!(!numbers_in_range(&[1, 1, 1, 1, 70, 1]));
    assert!(!numbers_in_range(&[1, 1, 1, 1, 1, 30]));
    assert!(!numbers_in_range(&[1, 1, 1, 1, 1, 0]));
}

#[test]
fn pooled_and_launchpad_instructions_round_trip() {
    let pooled = vec![
        Pooled::InitLottery {
            staking_pool_wallet: key(1),
            rewards_wallet: key(2),
            slot_holders_rewards_wallet: key(3),
            sollotto_labs_wallet: key(4),
        },
        Pooled::Deposit { amount: 1_000_000_000 },
        Pooled::Undeposit { amount: 5 },
        Pooled::RewardWinner { lottery_id: 112233 },
        Pooled::UpdateLotteryWallets {
            staking_pool_wallet: key(1),
            staking_pool_token_mint: key(2),
            rewards_wallet: key(3),
            slot_holders_rewards_wallet: key(4),
            sollotto_labs_wallet: key(5),
        },
    ];
    for ix in pooled {
        let bytes = ix.pack();
        assert!(!Pooled::unpack_panics(&bytes));
        assert_eq!(Pooled::unpack(&bytes), Ok(ix));
    }
    assert_eq!(Pooled::Deposit { amount: 1 }.pack(), vec![1, 1, 0, 0, 0, 0, 0, 0, 0]);
    assert_eq!(Pooled::unpack(&[5]), Err(sollotto::model2::error::LotteryError::InvalidInstruction.into()));
    assert!(Pooled::unpack_panics(&[3, 1]));

    let launchpad = vec![
        Launchpad::Deposit { amount: 3 },
        Launchpad::Unpool { amount: 4 },
        Launchpad::RewardWinner { lottery_id: 1, random_number: 2 },
    ];
    for ix in launchpad {
        let bytes = ix.pack();
        assert!(!Launchpad::unpack_panics(&bytes));
        assert_eq!(Launchpad::unpack(&bytes), Ok(ix));
    }
    assert_eq!(
        Launchpad::RewardWinner { lottery_id: 1, random_number: 2 }.pack(),
        vec![2, 1, 0, 0, 0, 2, 0, 0, 0]
    );
    assert_eq!(Launchpad::unpack(&[3]), Err(sollotto::model3::error::LotteryError::InvalidInstruction.into()));
    assert_eq!(Launchpad::unpack(&[]), Err(sollotto::model3::error::LotteryError::InvalidInstruction.into()));
}

#[test]
fn builders_list_their_accounts() {
    let participants = vec![(key(20), key(21)), (key(30), key(31))];
    let ix = sollotto::model4::instruction::reward_winner(
        &id(),
        1,
        0,
        &key(1),
        &key(2),
        &key(3),
        &key(4),
        &key(5),
        &key(6),
        &key(7),
        &participants,
    )
    .unwrap();
    assert_eq!(ix.accounts.len(), 13);
    assert_eq!(ix.accounts[0], AccountMeta::new(key(1), true));
    assert_eq!(ix.accounts[5], AccountMeta::new_readonly(key(6), true));
    assert_eq!(ix.accounts[7].pubkey, Pubkey::zero());
    assert_eq!(ix.accounts[9], AccountMeta::new(key(20), false));
    assert_eq!(ix.accounts[10], AccountMeta::new_readonly(key(21), false));
    assert_eq!(ix.accounts[12], AccountMeta::new_readonly(key(31), false));

    let ix = sollotto::model3::instruction::reward_winner(&id(), 1, 0, &key(1), &key(2), &key(3), &key(4), &key(5), &key(6), &participants)
        .unwrap();
    assert_eq!(ix.accounts.len(), 12);
    assert_eq!(ix.accounts[0], AccountMeta::new_readonly(key(1), true));
    assert_eq!(ix.accounts[8], AccountMeta::new(key(20), false));
    assert_eq!(ix.accounts[9], AccountMeta::new(key(21), false));

    let ix = sollotto::model2::instruction::undeposit(&id(), 5, &key(1), &key(2), &key(3), &key(4), &key(5)).unwrap();
    assert_eq!(ix.accounts[0], AccountMeta::new(key(5), true));
    assert_eq!(ix.accounts[4], AccountMeta::new(key(3), true));
    let ix = sollotto::model2::instruction::deposit(&id(), 5, &key(1), &key(2), &key(3), &key(4), &key(5)).unwrap();
    assert_eq!(ix.accounts[4], AccountMeta::new(key(3), false));
}
