use sollotto::model4::error::LotteryError;
use sollotto::model4::instruction::{reward_winner, LotteryInstruction};
use sollotto::model4::processor::Processor;
use sollotto::model5::state::LotteryResultData;
use sollotto::program::{id, AccountInfo, Effects, Instruction, Invocation, ProgramError, Pubkey};
use solana_program::native_token::sol_to_lamports;
use solana_program::program_option::COption;
use solana_program::program_pack::Pack;
use spl_token::state::{Account, AccountState, Mint};
use spl_token::ui_amount_to_amount;

struct Acc {
    lamports: u64,
    data: Vec<u8>,
    owner: Pubkey,
}

impl Acc {
    fn new(lamports: u64, len: usize, owner: &Pubkey) -> Acc {
        Acc { lamports, data: vec![0; len], owner: *owner }
    }

    fn default() -> Acc {
        Acc { lamports: 0, data: Vec::new(), owner: key(0) }
    }

    fn rent_sysvar() -> Acc {
        let mut data = 3480u64.to_le_bytes().to_vec();
        data.extend_from_slice(&2.0f64.to_le_bytes());
        data.push(50);
        Acc { lamports: 1, data, owner: from_sol(&solana_program::sysvar::id()) }
    }
}

fn key(n: u8) -> Pubkey {
    Pubkey::new_from_array([n; 32])
}

fn from_sol(k: &solana_program::pubkey::Pubkey) -> Pubkey {
    Pubkey::new_from_array(k.to_bytes())
}

fn to_sol(k: &Pubkey) -> solana_program::pubkey::Pubkey {
    solana_program::pubkey::Pubkey::new_from_array(k.to_bytes())
}

fn token_program() -> Pubkey {
    from_sol(&spl_token::id())
}

fn minimum_balance(len: usize) -> u64 {
    solana_program::rent::Rent::default().minimum_balance(len)
}

fn lottery_result_minimum_balance() -> u64 {
    minimum_balance(LotteryResultData::LEN)
}

fn mint_with_authority(authority: Option<&Pubkey>) -> Acc {
    let mut acc = Acc::new(minimum_balance(Mint::get_packed_len()), Mint::get_packed_len(), &token_program());
    let mint_authority = match authority {
        Some(k) => COption::Some(to_sol(k)),
        None => COption::None,
    };
    Mint::pack(Mint { is_initialized: true, mint_authority, decimals: 9, ..Default::default() }, &mut acc.data).unwrap();
    acc
}

fn ticket_account(mint: &Pubkey, owner: &Pubkey, amount: u64) -> Acc {
    let mut acc = Acc::new(minimum_balance(Account::get_packed_len()), Account::get_packed_len(), &token_program());
    Account::pack(
        Account { state: AccountState::Initialized, amount, mint: to_sol(mint), owner: to_sol(owner), ..Default::default() },
        &mut acc.data,
    )
    .unwrap();
    acc
}

fn run(instruction: &Instruction, accounts: &mut Vec<&mut Acc>) -> Result<Effects, ProgramError> {
    let infos: Vec<AccountInfo> = instruction
        .accounts
        .iter()
        .zip(accounts.iter())
        .map(|(meta, acc)| AccountInfo {
            key: meta.pubkey,
            is_signer: meta.is_signer,
            is_writable: meta.is_writable,
            lamports: acc.lamports,
            data: acc.data.clone(),
            owner: acc.owner,
        })
        .collect();
    let effects = Processor::process(&instruction.program_id, &infos, &instruction.data)?;
    for write in &effects.writes {
        if accounts[write.account].data.len() != write.data.len() {
            return Err(ProgramError::InvalidAccountData);
        }
    }
    for write in &effects.writes {
        accounts[write.account].data = write.data.clone();
    }
    Ok(effects)
}

fn do_process(instruction: Instruction, accounts: Vec<&mut Acc>) -> Result<(), ProgramError> {
    let mut accounts = accounts;
    run(&instruction, &mut accounts).map(|_| ())
}

struct Keys {
    prize_pool_key: Pubkey,
    sollotto_rewards_key: Pubkey,
    slot_holders_key: Pubkey,
    sollotto_labs_key: Pubkey,
    lottery_result_key: Pubkey,
    lifetime_token_owner_key: Pubkey,
    lifetime_token_mint_key: Pubkey,
    user_1_wallet_key: Pubkey,
    user_1_lifetime_token_key: Pubkey,
    user_2_wallet_key: Pubkey,
    user_2_lifetime_token_key: Pubkey,
}

fn keys() -> Keys {
    Keys {
        prize_pool_key: key(1),
        sollotto_rewards_key: key(2),
        slot_holders_key: key(3),
        sollotto_labs_key: key(4),
        lottery_result_key: key(5),
        lifetime_token_owner_key: key(6),
        lifetime_token_mint_key: key(7),
        user_1_wallet_key: key(10),
        user_1_lifetime_token_key: key(11),
        user_2_wallet_key: key(20),
        user_2_lifetime_token_key: key(21),
    }
}

fn reward_ix(k: &Keys, lottery_id: u32, random_number: u32) -> Instruction {
    reward_winner(
        &id(),
        lottery_id,
        random_number,
        &k.prize_pool_key,
        &k.sollotto_rewards_key,
        &k.slot_holders_key,
        &k.sollotto_labs_key,
        &k.lottery_result_key,
        &k.lifetime_token_owner_key,
        &k.lifetime_token_mint_key,
        &vec![(k.user_1_wallet_key, k.user_1_lifetime_token_key), (k.user_2_wallet_key, k.user_2_lifetime_token_key)],
    )
    .unwrap()
}

#[test]
fn lifetime_test_reward_winner() {
    let program_id = id();
    let k = keys();
    let mut system_account = Acc::default();
    let mut rent_acc = Acc::rent_sysvar();
    let mut lifetime_token_owner_acc = Acc::default();
    let mut lifetime_token_mint_acc = mint_with_authority(Some(&k.lifetime_token_owner_key));
    let mut prize_pool_acc = Acc::default();
    let mut sollotto_rewards_acc = Acc::default();
    let mut slot_holders_acc = Acc::default();
    let mut sollotto_labs_acc = Acc::default();
    let mut user_1_wallet_acc = Acc::default();
    let mut user_1_lifetime_token_acc = ticket_account(&k.lifetime_token_mint_key, &k.user_1_wallet_key, 0);
    let mut user_2_wallet_acc = Acc::default();
    let mut user_2_lifetime_token_acc = ticket_account(&k.lifetime_token_mint_key, &k.user_2_wallet_key, 0);

    let lottery_id = 1;
    let random_number = 1;

    let mut lottery_result_acc = Acc::new(lottery_result_minimum_balance() - 1, LotteryResultData::LEN, &program_id);

    assert_eq!(
        Err(ProgramError::AccountNotRentExempt),
        do_process(
            reward_ix(&k, lottery_id, random_number),
            vec![
                &mut prize_pool_acc,
                &mut sollotto_rewards_acc,
                &mut slot_holders_acc,
                &mut sollotto_labs_acc,
                &mut lottery_result_acc,
                &mut lifetime_token_owner_acc,
                &mut lifetime_token_mint_acc,
                &mut system_account,
                &mut rent_acc,
                &mut user_1_wallet_acc,
                &mut user_1_lifetime_token_acc,
                &mut user_2_wallet_acc,
                &mut user_2_lifetime_token_acc,
            ],
        )
    );

    let mut lottery_result_acc = Acc::new(lottery_result_minimum_balance(), LotteryResultData::LEN, &program_id);

    // BadCase EmptyPrizePool
    assert_eq!(
        Err(LotteryError::EmptyPrizePool.into()),
        do_process(
            reward_ix(&k, lottery_id, random_number),
            vec![
                &mut prize_pool_acc,
                &mut sollotto_rewards_acc,
                &mut slot_holders_acc,
                &mut sollotto_labs_acc,
                &mut lottery_result_acc,
                &mut lifetime_token_owner_acc,
                &mut lifetime_token_mint_acc,
                &mut system_account,
                &mut rent_acc,
                &mut user_1_wallet_acc,
                &mut user_1_lifetime_token_acc,
                &mut user_2_wallet_acc,
                &mut user_2_lifetime_token_acc,
            ],
        )
    );

    prize_pool_acc.lamports = sol_to_lamports(10.0);

    // BadCase: InvalidParticipantsAccounts size
    assert_eq!(
        Err(LotteryError::InvalidParticipantsAccounts.into()),
        do_process(
            reward_ix(&k, lottery_id, random_number),
            vec![
                &mut prize_pool_acc,
                &mut sollotto_rewards_acc,
                &mut slot_holders_acc,
                &mut sollotto_labs_acc,
                &mut lottery_result_acc,
                &mut lifetime_token_owner_acc,
                &mut lifetime_token_mint_acc,
                &mut system_account,
                &mut rent_acc,
                &mut user_1_wallet_acc,
                &mut user_1_lifetime_token_acc,
                &mut user_2_wallet_acc,
            ],
        )
    );

    // BadCase: InvalidParticipantsAccounts bad random number
    let bad_random_number = 10;
    assert_eq!(
        Err(LotteryError::InvalidRandomNumber.into()),
        do_process(
            reward_ix(&k, lottery_id, bad_random_number),
            vec![
                &mut prize_pool_acc,
                &mut sollotto_rewards_acc,
                &mut slot_holders_acc,
                &mut sollotto_labs_acc,
                &mut lottery_result_acc,
                &mut lifetime_token_owner_acc,
                &mut lifetime_token_mint_acc,
                &mut system_account,
                &mut rent_acc,
                &mut user_1_wallet_acc,
                &mut user_1_lifetime_token_acc,
                &mut user_2_wallet_acc,
                &mut user_2_lifetime_token_acc,
            ],
        )
    );

    // BadCase: InvalidParticipantsAccounts invalid lifetime ticket token amount
    assert_eq!(
        Err(LotteryError::InvalidParticipantsAccounts.into()),
        do_process(
            reward_ix(&k, lottery_id, random_number),
            vec![
                &mut prize_pool_acc,
                &mut sollotto_rewards_acc,
                &mut slot_holders_acc,
                &mut sollotto_labs_acc,
                &mut lottery_result_acc,
                &mut lifetime_token_owner_acc,
                &mut lifetime_token_mint_acc,
                &mut system_account,
                &mut rent_acc,
                &mut user_1_wallet_acc,
                &mut user_1_lifetime_token_acc,
                &mut user_2_wallet_acc,
                &mut user_2_lifetime_token_acc,
            ],
        )
    );

    user_1_lifetime_token_acc = ticket_account(&k.lifetime_token_mint_key, &k.user_1_wallet_key, ui_amount_to_amount(1.0, 9));
    user_2_lifetime_token_acc = ticket_account(&k.lifetime_token_mint_key, &k.user_2_wallet_key, ui_amount_to_amount(1.0, 9));

    do_process(
        reward_ix(&k, lottery_id, random_number),
        vec![
            &mut prize_pool_acc,
            &mut sollotto_rewards_acc,
            &mut slot_holders_acc,
            &mut sollotto_labs_acc,
            &mut lottery_result_acc,
            &mut lifetime_token_owner_acc,
            &mut lifetime_token_mint_acc,
            &mut system_account,
            &mut rent_acc,
            &mut user_1_wallet_acc,
            &mut user_1_lifetime_token_acc,
            &mut user_2_wallet_acc,
            &mut user_2_lifetime_token_acc,
        ],
    )
    .unwrap();

    let lottery_result_data = LotteryResultData::unpack_unchecked(&lottery_result_acc.data).unwrap();
    assert_eq!(lottery_result_data.lottery_id, lottery_id);
    assert_eq!(lottery_result_data.winner, k.user_2_wallet_key);
}

#[test]
fn lifetime_reward_pays_the_whole_prize_pool() {
    let program_id = id();
    let k = keys();
    let mut mint = mint_with_authority(Some(&k.lifetime_token_owner_key));
    let mut pool = Acc::default();
    pool.lamports = 10_000;
    let mut result = Acc::new(lottery_result_minimum_balance(), LotteryResultData::LEN, &program_id);
    let mut t1 = ticket_account(&k.lifetime_token_mint_key, &k.user_1_wallet_key, 1);
    let mut t2 = ticket_account(&k.lifetime_token_mint_key, &k.user_2_wallet_key, 2);
    let (mut a1, mut a2, mut a3, mut owner, mut system, mut w1, mut w2) =
        (Acc::default(), Acc::default(), Acc::default(), Acc::default(), Acc::default(), Acc::default(), Acc::default());
    let mut rent = Acc::rent_sysvar();
    let effects = run(
        &reward_ix(&k, 35, 0),
        &mut vec![
            &mut pool, &mut a1, &mut a2, &mut a3, &mut result, &mut owner, &mut mint, &mut system, &mut rent, &mut w1, &mut t1,
            &mut w2, &mut t2,
        ],
    )
    .unwrap();
    assert_eq!(
        effects.invocations,
        vec![
            Invocation::SystemShareTransfer { system_program: 7, from: 0, to: 9, pool: 10_000, share: 9500 },
            Invocation::SystemShareTransfer { system_program: 7, from: 0, to: 1, pool: 10_000, share: 400 },
            Invocation::SystemShareTransfer { system_program: 7, from: 0, to: 2, pool: 10_000, share: 60 },
            Invocation::SystemShareTransfer { system_program: 7, from: 0, to: 3, pool: 10_000, share: 40 },
        ]
    );
    let recorded = LotteryResultData::unpack_unchecked(&result.data).unwrap();
    assert_eq!((recorded.lottery_id, recorded.winner), (35, k.user_1_wallet_key));

    // A ticket account held by someone other than the participant.
    let mut stolen = ticket_account(&k.lifetime_token_mint_key, &key(99), 1);
    assert_eq!(
        Err(LotteryError::InvalidParticipantsAccounts.into()),
        run(
            &reward_ix(&k, 35, 0),
            &mut vec![
                &mut pool, &mut a1, &mut a2, &mut a3, &mut result, &mut owner, &mut mint, &mut system, &mut rent, &mut w1,
                &mut stolen, &mut w2, &mut t2,
            ],
        )
        .map(|_| ())
    );

    // A mint whose authority is not the ticket owner given.
    let mut other_mint = mint_with_authority(Some(&key(98)));
    assert_eq!(
        Err(LotteryError::InvalidLifetimeTicketOwner.into()),
        run(
            &reward_ix(&k, 35, 0),
            &mut vec![&mut pool, &mut a1, &mut a2, &mut a3, &mut result, &mut owner, &mut other_mint, &mut system, &mut rent],
        )
        .map(|_| ())
    );
    let mut no_authority = mint_with_authority(None);
    assert_eq!(
        Err(LotteryError::InvalidLifetimeTicketOwner.into()),
        run(
            &reward_ix(&k, 35, 0),
            &mut vec![&mut pool, &mut a1, &mut a2, &mut a3, &mut result, &mut owner, &mut no_authority, &mut system, &mut rent],
        )
        .map(|_| ())
    );

    // The ticket owner must sign.
    let mut unsigned = reward_ix(&k, 35, 0);
    unsigned.accounts[5].is_signer = false;
    assert_eq!(
        Err(ProgramError::MissingRequiredSignature),
        run(
            &unsigned,
            &mut vec![
                &mut pool, &mut a1, &mut a2, &mut a3, &mut result, &mut owner, &mut mint, &mut system, &mut rent, &mut w1, &mut t1,
                &mut w2, &mut t2,
            ],
        )
        .map(|_| ())
    );

    // Eight accounts are not enough.
    let mut short = reward_ix(&k, 35, 0);
    short.accounts.truncate(8);
    assert_eq!(
        Err(ProgramError::NotEnoughAccountKeys),
        run(&short, &mut vec![&mut pool, &mut a1, &mut a2, &mut a3, &mut result, &mut owner, &mut mint, &mut system]).map(|_| ())
    );
}

#[test]
fn lifetime_instruction_round_trip() {
    let ix = LotteryInstruction::RewardWinner { lottery_id: 0x01020304, random_number: 7 };
    let bytes = ix.pack();
    assert_eq!(bytes, vec![0, 4, 3, 2, 1, 7, 0, 0, 0]);
    assert_eq!(LotteryInstruction::unpack(&bytes), Ok(ix));
    assert_eq!(LotteryInstruction::unpack(&[1, 0, 0, 0, 0, 0, 0, 0, 0]), Err(LotteryError::InvalidInstruction.into()));
    assert_eq!(LotteryInstruction::unpack(&[]), Err(LotteryError::InvalidInstruction.into()));
    assert!(LotteryInstruction::unpack_panics(&[0, 1, 2]));
    assert!(!LotteryInstruction::unpack_panics(&[3, 1, 2]));
}
