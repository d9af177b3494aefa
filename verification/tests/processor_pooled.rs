use sollotto::model2::error::LotteryError;
use sollotto::model2::instruction::{deposit, initialize_lottery, reward_winner, undeposit, update_lottery_wallets};
use sollotto::model2::processor::Processor;
use sollotto::model2::state::{LotteryData, LotteryResultData};
use sollotto::program::{id, AccountInfo, Effects, Instruction, Invocation, ProgramError, Pubkey};
use solana_program::native_token::sol_to_lamports;

struct Acc {
    lamports: u64,
    data: Vec<u8>,
    owner: Pubkey,
}

impl Acc {
    fn new(lamports: u64, len: usize, owner: &Pubkey) -> Acc {
        Acc { lamports, data: vec![0; len], owner: *owner }
    }

    fn default() -> Acc {
        Acc { lamports: 0, data: Vec::new(), owner: key(0) }
    }

    fn rent_sysvar() -> Acc {
        let mut data = 3480u64.to_le_bytes().to_vec();
        data.extend_from_slice(&2.0f64.to_le_bytes());
        data.push(50);
        Acc { lamports: 1, data, owner: sol_to_key(&solana_program::sysvar::id()) }
    }
}

fn key(n: u8) -> Pubkey {
    Pubkey::new_from_array([n; 32])
}

fn sol_to_key(k: &solana_program::pubkey::Pubkey) -> Pubkey {
    Pubkey::new_from_array(k.to_bytes())
}

fn token_program() -> Pubkey {
    sol_to_key(&spl_token::id())
}

fn minimum_balance(len: usize) -> u64 {
    solana_program::rent::Rent::default().minimum_balance(len)
}

fn lottery_minimum_balance() -> u64 {
    minimum_balance(LotteryData::LEN)
}

fn lottery_result_minimum_balance() -> u64 {
    minimum_balance(LotteryResultData::LEN)
}

fn mint_minimum_balance() -> u64 {
    minimum_balance(82)
}

fn account_minimum_balance() -> u64 {
    minimum_balance(165)
}

fn run(instruction: &Instruction, accounts: &mut Vec<&mut Acc>) -> Result<Effects, ProgramError> {
    let infos: Vec<AccountInfo> = instruction
        .accounts
        .iter()
        .zip(accounts.iter())
        .map(|(meta, acc)| AccountInfo {
            key: meta.pubkey,
            is_signer: meta.is_signer,
            is_writable: meta.is_writable,
            lamports: acc.lamports,
            data: acc.data.clone(),
            owner: acc.owner,
        })
        .collect();
    let effects = Processor::process(&instruction.program_id, &infos, &instruction.data)?;
    for write in &effects.writes {
        if accounts[write.account].data.len() != write.data.len() {
            return Err(ProgramError::InvalidAccountData);
        }
    }
    for write in &effects.writes {
        accounts[write.account].data = write.data.clone();
    }
    Ok(effects)
}

fn do_process(instruction: Instruction, accounts: Vec<&mut Acc>) -> Result<(), ProgramError> {
    let mut accounts = accounts;
    run(&instruction, &mut accounts).map(|_| ())
}

struct Setup {
    program_id: Pubkey,
    lottery_key: Pubkey,
    staking_pool_mint_key: Pubkey,
    staking_pool_token_account_key: Pubkey,
    staking_pool_wallet: Pubkey,
    rewards_wallet: Pubkey,
    slot_holders_rewards_wallet: Pubkey,
    sollotto_labs_wallet: Pubkey,
}

fn setup() -> Setup {
    Setup {
        program_id: id(),
        lottery_key: key(100),
        staking_pool_mint_key: key(101),
        staking_pool_token_account_key: key(102),
        staking_pool_wallet: key(103),
        rewards_wallet: key(104),
        slot_holders_rewards_wallet: key(105),
        sollotto_labs_wallet: key(106),
    }
}

fn init_ix(s: &Setup) -> Instruction {
    initialize_lottery(
        &s.program_id,
        &s.staking_pool_wallet,
        &s.staking_pool_mint_key,
        &s.staking_pool_token_account_key,
        &s.rewards_wallet,
        &s.slot_holders_rewards_wallet,
        &s.sollotto_labs_wallet,
        &s.lottery_key,
    )
    .unwrap()
}

#[test]
fn test_init_lottery() {
    let s = setup();
    let mut rent_sysvar_acc = Acc::rent_sysvar();
    let mut spl_token_acc = Acc::default();
    let mut lottery_acc = Acc::new(lottery_minimum_balance(), LotteryData::LEN, &s.program_id);
    let mut staking_pool_mint = Acc::new(mint_minimum_balance(), 82, &token_program());
    let mut staking_pool_token_account = Acc::new(account_minimum_balance(), 165, &token_program());

    let mut bad_lottery_acc = Acc::new(lottery_minimum_balance() - 100, LotteryData::LEN, &s.program_id);
    assert_eq!(
        Err(LotteryError::NotRentExempt.into()),
        do_process(
            init_ix(&s),
            vec![
                &mut bad_lottery_acc,
                &mut staking_pool_mint,
                &mut staking_pool_token_account,
                &mut rent_sysvar_acc,
                &mut spl_token_acc,
            ],
        )
    );

    do_process(
        init_ix(&s),
        vec![
            &mut lottery_acc,
            &mut staking_pool_mint,
            &mut staking_pool_token_account,
            &mut rent_sysvar_acc,
            &mut spl_token_acc,
        ],
    )
    .unwrap();

    assert_eq!(
        Err(LotteryError::Initialized.into()),
        do_process(
            init_ix(&s),
            vec![
                &mut lottery_acc,
                &mut staking_pool_mint,
                &mut staking_pool_token_account,
                &mut rent_sysvar_acc,
                &mut spl_token_acc,
            ],
        )
    );

    let lottery_data = LotteryData::unpack(&lottery_acc.data).unwrap();
    assert_eq!(lottery_data.is_initialized, true);
    assert_eq!(lottery_data.staking_pool_amount, 0);
    assert_eq!(lottery_data.staking_pool_token_mint, s.staking_pool_mint_key);
    assert_eq!(lottery_data.staking_pool_wallet, s.staking_pool_wallet);
    assert_eq!(lottery_data.sollotto_labs_wallet, s.sollotto_labs_wallet);
    assert_eq!(lottery_data.slot_holders_rewards_wallet, s.slot_holders_rewards_wallet);
    assert_eq!(lottery_data.rewards_wallet, s.rewards_wallet);
}

#[test]
fn init_lottery_asks_for_mint_and_token_account() {
    let s = setup();
    let mut lottery_acc = Acc::new(lottery_minimum_balance(), LotteryData::LEN, &s.program_id);
    let mut mint = Acc::new(mint_minimum_balance(), 82, &token_program());
    let mut token_account = Acc::new(account_minimum_balance(), 165, &token_program());
    let mut rent = Acc::rent_sysvar();
    let mut token = Acc::default();
    let mut accounts = vec![&mut lottery_acc, &mut mint, &mut token_account, &mut rent, &mut token];
    let effects = run(&init_ix(&s), &mut accounts).unwrap();
    assert_eq!(
        effects.invocations,
        vec![
            Invocation::TokenInitializeMint { token_program: 4, mint: 1, rent: 3, mint_authority: 0, decimals: 9 },
            Invocation::TokenInitializeAccount { token_program: 4, account: 2, mint: 1, owner: 0, rent: 3 },
        ]
    );
}

#[test]
fn test_deposit() {
    let s = setup();
    let mut rent_sysvar_acc = Acc::rent_sysvar();
    let mut spl_token_acc = Acc::default();
    let mut system_acc = Acc::default();
    let mut lottery_acc = Acc::new(lottery_minimum_balance(), LotteryData::LEN, &s.program_id);
    let mut staking_pool_mint = Acc::new(mint_minimum_balance(), 82, &token_program());
    let mut staking_pool_token_account = Acc::new(account_minimum_balance(), 165, &token_program());
    let user_key = key(110);
    let mut user_wallet = Acc::default();
    let user_staking_pool_token_acc_key = key(111);
    let mut user_staking_pool_token_acc = Acc::new(account_minimum_balance(), 165, &token_program());

    // BadCase: Lottery is not initialized
    assert_eq!(
        Err(LotteryError::NotInitialized.into()),
        do_process(
            deposit(
                &s.program_id,
                sol_to_lamports(1.0),
                &s.staking_pool_mint_key,
                &user_staking_pool_token_acc_key,
                &s.staking_pool_wallet,
                &user_key,
                &s.lottery_key,
            )
            .unwrap(),
            vec![
                &mut lottery_acc,
                &mut staking_pool_mint,
                &mut user_wallet,
                &mut user_staking_pool_token_acc,
                &mut staking_pool_token_account,
                &mut spl_token_acc,
                &mut system_acc,
            ],
        )
    );

    do_process(
        init_ix(&s),
        vec![
            &mut lottery_acc,
            &mut staking_pool_mint,
            &mut staking_pool_token_account,
            &mut rent_sysvar_acc,
            &mut spl_token_acc,
        ],
    )
    .unwrap();

    // BadCase: Invalid token mint
    let bad_mint_key = key(120);
    let mut bad_mint = Acc::default();
    assert_eq!(
        Err(LotteryError::InvalidSollottoAccount.into()),
        do_process(
            deposit(
                &s.program_id,
                sol_to_lamports(1.0),
                &bad_mint_key,
                &user_staking_pool_token_acc_key,
                &s.staking_pool_wallet,
                &user_key,
                &s.lottery_key,
            )
            .unwrap(),
            vec![
                &mut lottery_acc,
                &mut bad_mint,
                &mut user_wallet,
                &mut user_staking_pool_token_acc,
                &mut staking_pool_token_account,
                &mut spl_token_acc,
                &mut system_acc,
            ],
        )
    );

    // BadCase: Invalid lottery staking pool wallet
    let bad_wallet_key = key(121);
    assert_eq!(
        Err(LotteryError::InvalidSollottoAccount.into()),
        do_process(
            deposit(
                &s.program_id,
                sol_to_lamports(1.0),
                &s.staking_pool_mint_key,
                &s.staking_pool_token_account_key,
                &bad_wallet_key,
                &user_key,
                &s.lottery_key,
            )
            .unwrap(),
            vec![
                &mut lottery_acc,
                &mut staking_pool_mint,
                &mut user_wallet,
                &mut user_staking_pool_token_acc,
                &mut staking_pool_token_account,
                &mut spl_token_acc,
                &mut system_acc,
            ],
        )
    );

    do_process(
        deposit(
            &s.program_id,
            sol_to_lamports(1.0),
            &s.staking_pool_mint_key,
            &user_staking_pool_token_acc_key,
            &s.staking_pool_wallet,
            &user_key,
            &s.lottery_key,
        )
        .unwrap(),
        vec![
            &mut lottery_acc,
            &mut staking_pool_mint,
            &mut user_wallet,
            &mut user_staking_pool_token_acc,
            &mut staking_pool_token_account,
            &mut spl_token_acc,
            &mut system_acc,
        ],
    )
    .unwrap();

    let lottery_data = LotteryData::unpack(&lottery_acc.data).unwrap();
    assert_eq!(lottery_data.staking_pool_amount, sol_to_lamports(1.0));
}

#[test]
fn test_undeposit() {
    let s = setup();
    let mut rent_sysvar_acc = Acc::rent_sysvar();
    let mut spl_token_acc = Acc::default();
    let mut system_acc = Acc::default();
    let mut lottery_acc = Acc::new(lottery_minimum_balance(), LotteryData::LEN, &s.program_id);
    let mut staking_pool_mint = Acc::new(mint_minimum_balance(), 82, &token_program());
    let mut staking_pool_token_account = Acc::new(account_minimum_balance(), 165, &token_program());
    let user_key = key(110);
    let mut user_wallet = Acc::default();
    let user_staking_pool_token_acc_key = key(111);
    let mut user_staking_pool_token_acc = Acc::new(account_minimum_balance(), 165, &token_program());

    // BadCase: Lottery is not initialized
    assert_eq!(
        Err(LotteryError::NotInitialized.into()),
        do_process(
            undeposit(
                &s.program_id,
                sol_to_lamports(1.0),
                &s.staking_pool_mint_key,
                &user_staking_pool_token_acc_key,
                &s.staking_pool_wallet,
                &user_key,
                &s.lottery_key,
            )
            .unwrap(),
            vec![
                &mut lottery_acc,
                &mut staking_pool_mint,
                &mut user_wallet,
                &mut user_staking_pool_token_acc,
                &mut staking_pool_token_account,
                &mut spl_token_acc,
                &mut system_acc,
            ],
        )
    );

    do_process(
        init_ix(&s),
        vec![
            &mut lottery_acc,
            &mut staking_pool_mint,
            &mut staking_pool_token_account,
            &mut rent_sysvar_acc,
            &mut spl_token_acc,
        ],
    )
    .unwrap();

    // BadCase: Invalid token mint
    let bad_mint_key = key(120);
    let mut bad_mint = Acc::default();
    assert_eq!(
        Err(LotteryError::InvalidSollottoAccount.into()),
        do_process(
            undeposit(
                &s.program_id,
                sol_to_lamports(1.0),
                &bad_mint_key,
                &user_staking_pool_token_acc_key,
                &s.staking_pool_wallet,
                &user_key,
                &s.lottery_key,
            )
            .unwrap(),
            vec![
                &mut lottery_acc,
                &mut bad_mint,
                &mut user_wallet,
                &mut user_staking_pool_token_acc,
                &mut staking_pool_token_account,
                &mut spl_token_acc,
                &mut system_acc,
            ],
        )
    );

    // BadCase: Invalid lottery staking pool wallet
    let bad_wallet_key = key(121);
    assert_eq!(
        Err(LotteryError::InvalidSollottoAccount.into()),
        do_process(
            undeposit(
                &s.program_id,
                sol_to_lamports(1.0),
                &s.staking_pool_mint_key,
                &s.staking_pool_token_account_key,
                &bad_wallet_key,
                &user_key,
                &s.lottery_key,
            )
            .unwrap(),
            vec![
                &mut lottery_acc,
                &mut staking_pool_mint,
                &mut user_wallet,
                &mut user_staking_pool_token_acc,
                &mut staking_pool_token_account,
                &mut spl_token_acc,
                &mut system_acc,
            ],
        )
    );

    // BadCase: Staking pool amount insufficient funds
    assert_eq!(
        Err(ProgramError::InsufficientFunds),
        do_process(
            undeposit(
                &s.program_id,
                sol_to_lamports(1.0),
                &s.staking_pool_mint_key,
                &s.staking_pool_token_account_key,
                &s.staking_pool_wallet,
                &user_key,
                &s.lottery_key,
            )
            .unwrap(),
            vec![
                &mut lottery_acc,
                &mut staking_pool_mint,
                &mut user_wallet,
                &mut user_staking_pool_token_acc,
                &mut staking_pool_token_account,
                &mut spl_token_acc,
                &mut system_acc,
            ],
        )
    );

    // Deposit 2 SOL
    do_process(
        deposit(
            &s.program_id,
            sol_to_lamports(2.0),
            &s.staking_pool_mint_key,
            &user_staking_pool_token_acc_key,
            &s.staking_pool_wallet,
            &user_key,
            &s.lottery_key,
        )
        .unwrap(),
        vec![
            &mut lottery_acc,
            &mut staking_pool_mint,
            &mut user_wallet,
            &mut user_staking_pool_token_acc,
            &mut staking_pool_token_account,
            &mut spl_token_acc,
            &mut system_acc,
        ],
    )
    .unwrap();

    // Undeposit 1 SOL
    do_process(
        undeposit(
            &s.program_id,
            sol_to_lamports(1.0),
            &s.staking_pool_mint_key,
            &user_staking_pool_token_acc_key,
            &s.staking_pool_wallet,
            &user_key,
            &s.lottery_key,
        )
        .unwrap(),
        vec![
            &mut lottery_acc,
            &mut staking_pool_mint,
            &mut user_wallet,
            &mut user_staking_pool_token_acc,
            &mut staking_pool_token_account,
            &mut spl_token_acc,
            &mut system_acc,
        ],
    )
    .unwrap();

    let lottery_data = LotteryData::unpack(&lottery_acc.data).unwrap();
    assert_eq!(lottery_data.staking_pool_amount, sol_to_lamports(1.0));
}

#[test]
fn undeposit_undoes_deposit() {
    let s = setup();
    let mut lottery_acc = Acc::new(lottery_minimum_balance(), LotteryData::LEN, &s.program_id);
    do_process(
        init_ix(&s),
        vec![
            &mut lottery_acc,
            &mut Acc::new(mint_minimum_balance(), 82, &token_program()),
            &mut Acc::new(account_minimum_balance(), 165, &token_program()),
            &mut Acc::rent_sysvar(),
            &mut Acc::default(),
        ],
    )
    .unwrap();
    let before = lottery_acc.data.clone();
    let amount = 1234;
    let dep = run(
        &deposit(&s.program_id, amount, &s.staking_pool_mint_key, &key(111), &s.staking_pool_wallet, &key(110), &s.lottery_key)
            .unwrap(),
        &mut vec![&mut lottery_acc, &mut Acc::default(), &mut Acc::default(), &mut Acc::default(), &mut Acc::default(), &mut Acc::default(), &mut Acc::default()],
    )
    .unwrap();
    assert_eq!(
        dep.invocations,
        vec![
            Invocation::SystemTransfer { system_program: 6, from: 2, to: 4, lamports: amount },
            Invocation::TokenMintTo { token_program: 5, mint: 1, destination: 3, authority: 0, multisig_signer: None, amount },
        ]
    );
    assert_eq!(LotteryData::unpack(&lottery_acc.data).unwrap().staking_pool_amount, amount);
    let und = run(
        &undeposit(&s.program_id, amount, &s.staking_pool_mint_key, &key(111), &s.staking_pool_wallet, &key(110), &s.lottery_key)
            .unwrap(),
        &mut vec![&mut lottery_acc, &mut Acc::default(), &mut Acc::default(), &mut Acc::default(), &mut Acc::default(), &mut Acc::default(), &mut Acc::default()],
    )
    .unwrap();
    assert_eq!(
        und.invocations,
        vec![
            Invocation::TokenBurn { token_program: 5, account: 3, mint: 1, authority: 2, amount },
            Invocation::SystemTransfer { system_program: 6, from: 4, to: 2, lamports: amount },
        ]
    );
    assert_eq!(lottery_acc.data, before);
}

#[test]
fn test_reward_winner() {
    let s = setup();
    let mut rent_sysvar_acc = Acc::rent_sysvar();
    let mut spl_token_acc = Acc::default();
    let mut system_acc = Acc::default();
    let mut lottery_acc = Acc::new(lottery_minimum_balance(), LotteryData::LEN, &s.program_id);
    let mut staking_pool_mint = Acc::new(mint_minimum_balance(), 82, &token_program());
    let mut staking_pool_token_account = Acc::new(account_minimum_balance(), 165, &token_program());
    let mut staking_pool_wallet_account = Acc::default();
    let mut rewards_wallet_account = Acc::default();
    let mut slot_holders_rewards_wallet_account = Acc::default();
    let mut sollotto_labs_wallet_account = Acc::default();
    let user_key = key(110);
    let mut user_wallet = Acc::default();
    let user_staking_pool_token_acc_key = key(111);
    let mut user_staking_pool_token_acc = Acc::new(account_minimum_balance(), 165, &token_program());
    let lottery_id = 112233;
    let lottery_result_account_key = key(130);
    let mut lottery_result_account =
        Acc::new(lottery_result_minimum_balance(), LotteryResultData::LEN, &s.program_id);
    let reward_ix = || {
        reward_winner(
            &s.program_id,
            lottery_id,
            &lottery_result_account_key,
            &user_key,
            &s.rewards_wallet,
            &s.slot_holders_rewards_wallet,
            &s.sollotto_labs_wallet,
            &s.staking_pool_wallet,
            &s.lottery_key,
        )
        .unwrap()
    };

    // BadCase: Lottery is not initialized
    assert_eq!(
        Err(LotteryError::NotInitialized.into()),
        do_process(
            reward_ix(),
            vec![
                &mut lottery_acc,
                &mut lottery_result_account,
                &mut user_wallet,
                &mut staking_pool_wallet_account,
                &mut rewards_wallet_account,
                &mut slot_holders_rewards_wallet_account,
                &mut sollotto_labs_wallet_account,
                &mut system_acc,
            ],
        )
    );

    do_process(
        init_ix(&s),
        vec![
            &mut lottery_acc,
            &mut staking_pool_mint,
            &mut staking_pool_token_account,
            &mut rent_sysvar_acc,
            &mut spl_token_acc,
        ],
    )
    .unwrap();

    // User deposit 1 SOL
    do_process(
        deposit(
            &s.program_id,
            sol_to_lamports(1.0),
            &s.staking_pool_mint_key,
            &user_staking_pool_token_acc_key,
            &s.staking_pool_wallet,
            &user_key,
            &s.lottery_key,
        )
        .unwrap(),
        vec![
            &mut lottery_acc,
            &mut staking_pool_mint,
            &mut user_wallet,
            &mut user_staking_pool_token_acc,
            &mut staking_pool_token_account,
            &mut spl_token_acc,
            &mut system_acc,
        ],
    )
    .unwrap();
    staking_pool_wallet_account.lamports = sol_to_lamports(1.0);

    // BadCase: prize pool is empty (there is no staking rewards for now)
    assert_eq!(
        Err(LotteryError::EmptyPrizePool.into()),
        do_process(
            reward_ix(),
            vec![
                &mut lottery_acc,
                &mut lottery_result_account,
                &mut user_wallet,
                &mut staking_pool_wallet_account,
                &mut rewards_wallet_account,
                &mut slot_holders_rewards_wallet_account,
                &mut sollotto_labs_wallet_account,
                &mut system_acc,
            ],
        )
    );

    // BadCase: staking pool wallet insufficient funds
    staking_pool_wallet_account.lamports -= sol_to_lamports(0.5);
    assert_eq!(
        Err(ProgramError::InsufficientFunds),
        do_process(
            reward_ix(),
            vec![
                &mut lottery_acc,
                &mut lottery_result_account,
                &mut user_wallet,
                &mut staking_pool_wallet_account,
                &mut rewards_wallet_account,
                &mut slot_holders_rewards_wallet_account,
                &mut sollotto_labs_wallet_account,
                &mut system_acc,
            ],
        )
    );

    // Get the staking reward for prize pool
    staking_pool_wallet_account.lamports += sol_to_lamports(1.0);

    // User wins lottery
    do_process(
        reward_ix(),
        vec![
            &mut lottery_acc,
            &mut lottery_result_account,
            &mut user_wallet,
            &mut staking_pool_wallet_account,
            &mut rewards_wallet_account,
            &mut slot_holders_rewards_wallet_account,
            &mut sollotto_labs_wallet_account,
            &mut system_acc,
        ],
    )
    .unwrap();

    let lottery_data = LotteryData::unpack(&lottery_acc.data).unwrap();
    assert_eq!(lottery_data.staking_pool_amount, sol_to_lamports(1.0));

    let lottery_result_data = LotteryResultData::unpack_unchecked(&lottery_result_account.data).unwrap();
    assert_eq!(lottery_result_data.lottery_id, lottery_id);
    assert_eq!(lottery_result_data.winner, user_key);
}

#[test]
fn reward_shares_out_what_exceeds_the_stake() {
    let s = setup();
    let mut lottery_acc = Acc::new(lottery_minimum_balance(), LotteryData::LEN, &s.program_id);
    do_process(
        init_ix(&s),
        vec![
            &mut lottery_acc,
            &mut Acc::new(mint_minimum_balance(), 82, &token_program()),
            &mut Acc::new(account_minimum_balance(), 165, &token_program()),
            &mut Acc::rent_sysvar(),
            &mut Acc::default(),
        ],
    )
    .unwrap();
    do_process(
        deposit(&s.program_id, 1000, &s.staking_pool_mint_key, &key(111), &s.staking_pool_wallet, &key(110), &s.lottery_key).unwrap(),
        vec![&mut lottery_acc, &mut Acc::default(), &mut Acc::default(), &mut Acc::default(), &mut Acc::default(), &mut Acc::default(), &mut Acc::default()],
    )
    .unwrap();
    let mut wallet = Acc::default();
    wallet.lamports = 1500;
    let ix = reward_winner(
        &s.program_id,
        9,
        &key(130),
        &key(110),
        &s.rewards_wallet,
        &s.slot_holders_rewards_wallet,
        &s.sollotto_labs_wallet,
        &s.staking_pool_wallet,
        &s.lottery_key,
    )
    .unwrap();
    let mut result_acc = Acc::new(1, LotteryResultData::LEN, &s.program_id);
    let effects = run(
        &ix,
        &mut vec![
            &mut lottery_acc,
            &mut result_acc,
            &mut Acc::default(),
            &mut wallet,
            &mut Acc::default(),
            &mut Acc::default(),
            &mut Acc::default(),
            &mut Acc::default(),
        ],
    )
    .unwrap();
    assert_eq!(
        effects.invocations,
        vec![
            Invocation::SystemShareTransfer { system_program: 7, from: 3, to: 2, pool: 500, share: 9500 },
            Invocation::SystemShareTransfer { system_program: 7, from: 3, to: 4, pool: 500, share: 400 },
            Invocation::SystemShareTransfer { system_program: 7, from: 3, to: 5, pool: 500, share: 60 },
            Invocation::SystemShareTransfer { system_program: 7, from: 3, to: 6, pool: 500, share: 40 },
        ]
    );

    // A result account without room for the record.
    let mut small_result = Acc::new(1, LotteryResultData::LEN - 1, &s.program_id);
    assert_eq!(
        Err(ProgramError::InvalidAccountData),
        do_process(
            ix.clone(),
            vec![
                &mut lottery_acc,
                &mut small_result,
                &mut Acc::default(),
                &mut wallet,
                &mut Acc::default(),
                &mut Acc::default(),
                &mut Acc::default(),
                &mut Acc::default(),
            ],
        )
    );
}

#[test]
fn test_update_wallets() {
    let s = setup();
    let mut rent_sysvar_acc = Acc::rent_sysvar();
    let mut spl_token_acc = Acc::default();
    let mut lottery_acc = Acc::new(lottery_minimum_balance(), LotteryData::LEN, &s.program_id);
    let mut staking_pool_mint = Acc::new(mint_minimum_balance(), 82, &token_program());
    let mut staking_pool_token_account = Acc::new(account_minimum_balance(), 165, &token_program());

    // BadCase: Lottery is not initialized
    assert_eq!(
        Err(LotteryError::NotInitialized.into()),
        do_process(
            update_lottery_wallets(
                &s.program_id,
                &s.staking_pool_wallet,
                &s.staking_pool_mint_key,
                &s.rewards_wallet,
                &s.slot_holders_rewards_wallet,
                &s.sollotto_labs_wallet,
                &s.lottery_key,
            )
            .unwrap(),
            vec![&mut lottery_acc],
        )
    );

    do_process(
        init_ix(&s),
        vec![
            &mut lottery_acc,
            &mut staking_pool_mint,
            &mut staking_pool_token_account,
            &mut rent_sysvar_acc,
            &mut spl_token_acc,
        ],
    )
    .unwrap();

    let new_rewards_wallet = key(140);
    let new_slot_holders_rewards_wallet = key(141);
    let new_sollotto_labs_wallet = key(142);
    do_process(
        update_lottery_wallets(
            &s.program_id,
            &s.staking_pool_wallet,
            &s.staking_pool_mint_key,
            &new_rewards_wallet,
            &new_slot_holders_rewards_wallet,
            &new_sollotto_labs_wallet,
            &s.lottery_key,
        )
        .unwrap(),
        vec![&mut lottery_acc],
    )
    .unwrap();

    let lottery_data = LotteryData::unpack(&lottery_acc.data).unwrap();
    assert_eq!(lottery_data.is_initialized, true);
    assert_eq!(lottery_data.staking_pool_amount, 0);
    assert_eq!(lottery_data.staking_pool_token_mint, s.staking_pool_mint_key);
    assert_eq!(lottery_data.staking_pool_wallet, s.staking_pool_wallet);
    assert_eq!(lottery_data.sollotto_labs_wallet, new_sollotto_labs_wallet);
    assert_eq!(lottery_data.slot_holders_rewards_wallet, new_slot_holders_rewards_wallet);
    assert_eq!(lottery_data.rewards_wallet, new_rewards_wallet);
}

#[test]
fn updating_wallets_keeps_the_stake() {
    let s = setup();
    let mut lottery_acc = Acc::new(lottery_minimum_balance(), LotteryData::LEN, &s.program_id);
    do_process(
        init_ix(&s),
        vec![
            &mut lottery_acc,
            &mut Acc::new(mint_minimum_balance(), 82, &token_program()),
            &mut Acc::new(account_minimum_balance(), 165, &token_program()),
            &mut Acc::rent_sysvar(),
            &mut Acc::default(),
        ],
    )
    .unwrap();
    do_process(
        deposit(&s.program_id, 7, &s.staking_pool_mint_key, &key(111), &s.staking_pool_wallet, &key(110), &s.lottery_key).unwrap(),
        vec![&mut lottery_acc, &mut Acc::default(), &mut Acc::default(), &mut Acc::default(), &mut Acc::default(), &mut Acc::default(), &mut Acc::default()],
    )
    .unwrap();
    do_process(
        update_lottery_wallets(&s.program_id, &key(150), &key(151), &key(152), &key(153), &key(154), &s.lottery_key).unwrap(),
        vec![&mut lottery_acc],
    )
    .unwrap();
    let lottery_data = LotteryData::unpack(&lottery_acc.data).unwrap();
    assert_eq!(lottery_data.staking_pool_amount, 7);
    assert_eq!(
        (
            lottery_data.staking_pool_wallet,
            lottery_data.staking_pool_token_mint,
            lottery_data.rewards_wallet,
            lottery_data.slot_holders_rewards_wallet,
            lottery_data.sollotto_labs_wallet
        ),
        (key(150), key(151), key(152), key(153), key(154))
    );
}
