use sollotto::error::LotteryError;
use sollotto::instruction::{initialize_lottery, purchase_ticket, reward_winners, store_winning_numbers};
use sollotto::processor::{Processor, TICKET_PRICE};
use sollotto::program::{id, AccountInfo, Instruction, Invocation, ProgramError, Pubkey};
use sollotto::state::{LotteryData, LotteryResultData, TicketData};

struct Acc {
    lamports: u64,
    data: Vec<u8>,
    owner: Pubkey,
}

impl Acc {
    fn new(lamports: u64, len: usize, owner: &Pubkey) -> Acc {
        Acc { lamports, data: vec![0; len], owner: *owner }
    }

    fn wallet(lamports: u64) -> Acc {
        Acc { lamports, data: Vec::new(), owner: key(0) }
    }

    fn rent_sysvar() -> Acc {
        let mut data = 3480u64.to_le_bytes().to_vec();
        data.extend_from_slice(&2.0f64.to_le_bytes());
        data.push(50);
        Acc { lamports: 1, data, owner: sol_to_key(&solana_program::sysvar::id()) }
    }
}

fn key(n: u8) -> Pubkey {
    Pubkey::new_from_array([n; 32])
}

fn sol_to_key(k: &solana_program::pubkey::Pubkey) -> Pubkey {
    Pubkey::new_from_array(k.to_bytes())
}

fn minimum_balance(len: usize) -> u64 {
    solana_program::rent::Rent::default().minimum_balance(len)
}

fn lottery_minimum_balance() -> u64 {
    minimum_balance(LotteryData::LEN)
}

fn ticket_minimum_balance() -> u64 {
    minimum_balance(TicketData::LEN)
}

const HOLDING: u8 = 11;
const REWARDS: u8 = 12;
const SLOT_HOLDERS: u8 = 13;
const LABS: u8 = 14;

/// Runs an instruction: the plain transfers move lamports, the writes replace
/// account data (where the lengths agree); the effects are returned.
fn run(instruction: &Instruction, accounts: &mut Vec<&mut Acc>) -> Result<Vec<Invocation>, ProgramError> {
    let infos: Vec<AccountInfo> = instruction
        .accounts
        .iter()
        .zip(accounts.iter())
        .map(|(meta, acc)| AccountInfo {
            key: meta.pubkey,
            is_signer: meta.is_signer,
            is_writable: meta.is_writable,
            lamports: acc.lamports,
            data: acc.data.clone(),
            owner: acc.owner,
        })
        .collect();
    let effects = Processor::process(&instruction.program_id, &infos, &instruction.data)?;
    for call in &effects.invocations {
        if let Invocation::SystemTransfer { from, to, lamports, .. } = *call {
            accounts[from].lamports -= lamports;
            accounts[to].lamports += lamports;
        }
    }
    for write in &effects.writes {
        if accounts[write.account].data.len() != write.data.len() {
            return Err(ProgramError::InvalidAccountData);
        }
    }
    for write in &effects.writes {
        accounts[write.account].data = write.data.clone();
    }
    Ok(effects.invocations)
}

fn do_process(instruction: &Instruction, accounts: Vec<&mut Acc>) -> Result<(), ProgramError> {
    let mut accounts = accounts;
    run(instruction, &mut accounts).map(|_| ())
}

fn init_ix(lottery_id: u32, lottery_key: &Pubkey) -> Instruction {
    initialize_lottery(
        &id(),
        lottery_id,
        &key(1),
        &key(2),
        &key(3),
        &key(4),
        &key(HOLDING),
        &key(REWARDS),
        &key(SLOT_HOLDERS),
        &key(LABS),
        &key(15),
        lottery_key,
    )
    .unwrap()
}

fn purchase_ix(charity: &Pubkey, user_key: &Pubkey, numbers: &[u8; 6], lottery_key: &Pubkey, ticket_key: &Pubkey) -> Instruction {
    purchase_ticket(&id(), charity, user_key, numbers, ticket_key, &key(HOLDING), lottery_key).unwrap()
}

#[test]
fn processor_test_init_lottery() {
    let program_id = id();
    let lottery_id = 112233;
    let lottery_key = key(100);
    let mut lottery_acc = Acc::new(lottery_minimum_balance(), LotteryData::LEN, &program_id);
    let mut rent_sysvar_acc = Acc::rent_sysvar();

    // BadCase: rent NotRentExempt
    let mut bad_lottery_acc = Acc::new(lottery_minimum_balance() - 100, LotteryData::LEN, &program_id);
    assert_eq!(
        Err(LotteryError::NotRentExempt.into()),
        do_process(&init_ix(lottery_id, &lottery_key), vec![&mut bad_lottery_acc, &mut rent_sysvar_acc])
    );

    do_process(&init_ix(lottery_id, &lottery_key), vec![&mut lottery_acc, &mut rent_sysvar_acc]).unwrap();

    // BadCase: Lottery Already initialized
    assert_eq!(
        Err(LotteryError::Initialized.into()),
        do_process(&init_ix(lottery_id, &lottery_key), vec![&mut lottery_acc, &mut rent_sysvar_acc])
    );

    let lottery = LotteryData::unpack(&lottery_acc.data).unwrap();
    assert_eq!(lottery.is_initialized, true);
    assert_eq!(lottery.lottery_id, lottery_id);
    assert_eq!(lottery.charity_1, key(1));
    assert_eq!(lottery.charity_2, key(2));
    assert_eq!(lottery.charity_3, key(3));
    assert_eq!(lottery.charity_4, key(4));
    assert_eq!(lottery.charity_1_vc, 0);
    assert_eq!(lottery.charity_2_vc, 0);
    assert_eq!(lottery.charity_3_vc, 0);
    assert_eq!(lottery.charity_4_vc, 0);
    assert_eq!(lottery.total_registrations, 0);
    for number in &lottery.winning_numbers {
        assert_eq!(*number, 0);
    }
    assert_eq!(lottery.holding_wallet, key(HOLDING));
    assert_eq!(lottery.sollotto_labs_wallet, key(LABS));
    assert_eq!(lottery.randomness_account, key(15));
}

#[test]
fn processor_test_ticket_purchase() {
    let program_id = id();
    let lottery_id = 112233;
    let lottery_key = key(100);
    let mut lottery_acc = Acc::new(lottery_minimum_balance(), LotteryData::LEN, &program_id);
    let user_key = key(101);
    let ticket_key = key(102);
    let mut user_ticket_acc = Acc::new(ticket_minimum_balance(), TicketData::LEN, &program_id);
    let mut user_wallet = Acc::wallet(1_000_000_000);
    let mut holding_wallet = Acc::wallet(0);
    let mut system = Acc::wallet(0);
    let mut rent_sysvar_acc = Acc::rent_sysvar();
    let charity = key(1);

    // BadCase: Lottery is not initialized
    assert_eq!(
        Err(LotteryError::NotInitialized.into()),
        do_process(
            &purchase_ix(&charity, &user_key, &[10, 20, 30, 40, 50, 15], &lottery_key, &ticket_key),
            vec![&mut lottery_acc, &mut user_ticket_acc, &mut user_wallet, &mut holding_wallet, &mut rent_sysvar_acc, &mut system]
        )
    );

    do_process(&init_ix(lottery_id, &lottery_key), vec![&mut lottery_acc, &mut rent_sysvar_acc]).unwrap();

    // BadCase: rent NotRentExempt
    let mut bad_ticket_acc = Acc::new(ticket_minimum_balance() - 100, TicketData::LEN, &program_id);
    assert_eq!(
        Err(LotteryError::NotRentExempt.into()),
        do_process(
            &purchase_ix(&charity, &user_key, &[10, 20, 30, 40, 50, 15], &lottery_key, &ticket_key),
            vec![&mut lottery_acc, &mut bad_ticket_acc, &mut user_wallet, &mut holding_wallet, &mut rent_sysvar_acc, &mut system]
        )
    );

    // BadCase: bad numbers
    for numbers in [[70, 20, 30, 40, 50, 15], [10, 20, 30, 40, 0, 15], [10, 20, 30, 40, 50, 30]] {
        assert_eq!(
            Err(LotteryError::InvalidNumber.into()),
            do_process(
                &purchase_ix(&charity, &user_key, &numbers, &lottery_key, &ticket_key),
                vec![&mut lottery_acc, &mut user_ticket_acc, &mut user_wallet, &mut holding_wallet, &mut rent_sysvar_acc, &mut system]
            )
        );
    }

    do_process(
        &purchase_ix(&charity, &user_key, &[10, 20, 30, 40, 50, 29], &lottery_key, &ticket_key),
        vec![&mut lottery_acc, &mut user_ticket_acc, &mut user_wallet, &mut holding_wallet, &mut rent_sysvar_acc, &mut system],
    )
    .unwrap();

    let lottery = LotteryData::unpack(&lottery_acc.data).unwrap();
    assert_eq!(lottery.charity_1_vc, 1);
    assert_eq!(lottery.total_registrations, 1);
    assert_eq!(user_wallet.lamports, 900_000_000);
    assert_eq!(holding_wallet.lamports, 100_000_000);
}

#[test]
fn purchase_records_ticket_and_votes_for_its_charity() {
    let program_id = id();
    let lottery_key = key(100);
    let mut lottery_acc = Acc::new(lottery_minimum_balance(), LotteryData::LEN, &program_id);
    let mut ticket_acc = Acc::new(ticket_minimum_balance(), TicketData::LEN, &program_id);
    let (mut user, mut holding, mut system) = (Acc::wallet(1_000_000_000), Acc::wallet(0), Acc::wallet(0));
    let mut rent_sysvar_acc = Acc::rent_sysvar();
    do_process(&init_ix(7, &lottery_key), vec![&mut lottery_acc, &mut rent_sysvar_acc]).unwrap();

    // A vote for the third charity, then one for no charity of the lottery.
    let calls = run(
        &purchase_ix(&key(3), &key(101), &[1, 2, 3, 4, 69, 1], &lottery_key, &key(102)),
        &mut vec![&mut lottery_acc, &mut ticket_acc, &mut user, &mut holding, &mut rent_sysvar_acc, &mut system],
    )
    .unwrap();
    assert_eq!(calls, vec![Invocation::SystemTransfer { system_program: 5, from: 2, to: 3, lamports: TICKET_PRICE }]);
    let ticket = TicketData::unpack_unchecked(&ticket_acc.data).unwrap();
    assert_eq!(ticket.charity, key(3));
    assert_eq!(ticket.user_wallet_pk, key(101));
    assert_eq!(ticket.ticket_number_arr, [1, 2, 3, 4, 69, 1]);
    do_process(
        &purchase_ix(&key(9), &key(101), &[1, 2, 3, 4, 5, 6], &lottery_key, &key(102)),
        vec![&mut lottery_acc, &mut ticket_acc, &mut user, &mut holding, &mut rent_sysvar_acc, &mut system],
    )
    .unwrap();
    let lottery = LotteryData::unpack(&lottery_acc.data).unwrap();
    assert_eq!(lottery.total_registrations, 2);
    assert_eq!(
        (lottery.charity_1_vc, lottery.charity_2_vc, lottery.charity_3_vc, lottery.charity_4_vc),
        (0, 0, 1, 0)
    );
    assert_eq!(holding.lamports, 2 * TICKET_PRICE);

    // Five accounts are not enough.
    let mut short = purchase_ix(&key(3), &key(101), &[1, 2, 3, 4, 5, 6], &lottery_key, &key(102));
    short.accounts.truncate(5);
    assert_eq!(
        Err(ProgramError::NotEnoughAccountKeys),
        do_process(&short, vec![&mut lottery_acc, &mut ticket_acc, &mut user, &mut holding, &mut rent_sysvar_acc])
    );
}

#[test]
fn init_lottery_errors() {
    let program_id = id();
    let lottery_key = key(100);
    let mut rent_sysvar_acc = Acc::rent_sysvar();

    // An account that does not belong to the program.
    let mut foreign = Acc::new(lottery_minimum_balance(), LotteryData::LEN, &key(50));
    assert_eq!(
        Err(ProgramError::IncorrectProgramId),
        do_process(&init_ix(1, &lottery_key), vec![&mut foreign, &mut rent_sysvar_acc])
    );

    // No rent sysvar given.
    let mut lottery_acc = Acc::new(lottery_minimum_balance(), LotteryData::LEN, &program_id);
    assert_eq!(Err(ProgramError::NotEnoughAccountKeys), do_process(&init_ix(1, &lottery_key), vec![&mut lottery_acc]));

    // A rent sysvar account with too little data to read.
    let mut short_rent = Acc::rent_sysvar();
    short_rent.data.truncate(16);
    assert_eq!(
        Err(ProgramError::InvalidArgument),
        do_process(&init_ix(1, &lottery_key), vec![&mut lottery_acc, &mut short_rent])
    );

    // A lottery account of the wrong size.
    let mut wrong_size = Acc::new(lottery_minimum_balance(), LotteryData::LEN - 1, &program_id);
    assert_eq!(
        Err(ProgramError::InvalidAccountData),
        do_process(&init_ix(1, &lottery_key), vec![&mut wrong_size, &mut rent_sysvar_acc])
    );

    // Another program's id, whatever the instruction's bytes.
    let mut ix = init_ix(1, &lottery_key);
    ix.program_id = key(60);
    assert_eq!(Err(ProgramError::IncorrectProgramId), do_process(&ix, vec![&mut lottery_acc, &mut rent_sysvar_acc]));
    ix.data.truncate(3);
    assert!(!Processor::process_panics(&ix.program_id, &[], &ix.data));
    assert_eq!(Err(ProgramError::IncorrectProgramId), do_process(&ix, vec![&mut lottery_acc, &mut rent_sysvar_acc]));
    assert!(Processor::process_panics(&id(), &[], &ix.data));
    assert!(Processor::process_checked(&id(), &[], &ix.data).is_none());
}

#[test]
fn store_winning_numbers_and_updates() {
    let program_id = id();
    let lottery_key = key(100);
    let mut lottery_acc = Acc::new(lottery_minimum_balance(), LotteryData::LEN, &program_id);
    let mut rent_sysvar_acc = Acc::rent_sysvar();

    let store = store_winning_numbers(&program_id, &[5, 6, 7, 8, 9, 10], &lottery_key).unwrap();
    // An uninitialized lottery is refused.
    assert_eq!(Err(ProgramError::UninitializedAccount), do_process(&store, vec![&mut lottery_acc]));

    do_process(&init_ix(1, &lottery_key), vec![&mut lottery_acc, &mut rent_sysvar_acc]).unwrap();
    do_process(&store, vec![&mut lottery_acc]).unwrap();
    assert_eq!(LotteryData::unpack(&lottery_acc.data).unwrap().winning_numbers, [5, 6, 7, 8, 9, 10]);

    let bad = store_winning_numbers(&program_id, &[5, 6, 7, 8, 9, 30], &lottery_key).unwrap();
    assert_eq!(Err(LotteryError::InvalidNumber.into()), do_process(&bad, vec![&mut lottery_acc]));

    let charities = sollotto::instruction::update_charity(&program_id, &key(21), &key(22), &key(23), &key(24), &lottery_key).unwrap();
    do_process(&charities, vec![&mut lottery_acc]).unwrap();
    let wallets =
        sollotto::instruction::update_sollotto_wallets(&program_id, &key(31), &key(32), &key(33), &key(34), &lottery_key)
            .unwrap();
    do_process(&wallets, vec![&mut lottery_acc]).unwrap();
    let lottery = LotteryData::unpack(&lottery_acc.data).unwrap();
    assert_eq!((lottery.charity_1, lottery.charity_2, lottery.charity_3, lottery.charity_4), (key(21), key(22), key(23), key(24)));
    assert_eq!(
        (lottery.holding_wallet, lottery.rewards_wallet, lottery.slot_holders_rewards_wallet, lottery.sollotto_labs_wallet),
        (key(31), key(32), key(33), key(34))
    );
    assert_eq!(lottery.winning_numbers, [5, 6, 7, 8, 9, 10]);
    assert_eq!(lottery.lottery_id, 1);
}

/// A lottery drawn over tickets with the given numbers and votes: the accounts
/// after the draw, and the calls that rewarding the winners asks for.
struct Drawn {
    lottery: Acc,
    result: Acc,
    holding: Acc,
    others: Vec<Acc>,
    tickets: Vec<Acc>,
    wallets: Vec<Acc>,
}

fn draw(entries: &[([u8; 6], u8)], winning: [u8; 6]) -> Drawn {
    let program_id = id();
    let lottery_key = key(100);
    let mut d = Drawn {
        lottery: Acc::new(lottery_minimum_balance(), LotteryData::LEN, &program_id),
        result: Acc::new(minimum_balance(LotteryResultData::LEN), LotteryResultData::LEN, &program_id),
        holding: Acc::wallet(0),
        others: (0..8).map(|_| Acc::wallet(0)).collect(),
        tickets: entries.iter().map(|_| Acc::new(ticket_minimum_balance(), TicketData::LEN, &program_id)).collect(),
        wallets: entries.iter().map(|_| Acc::wallet(1_000_000_000)).collect(),
    };
    let mut rent = Acc::rent_sysvar();
    let mut system = Acc::wallet(0);
    do_process(&init_ix(112233, &lottery_key), vec![&mut d.lottery, &mut rent]).unwrap();
    for (i, (numbers, charity)) in entries.iter().enumerate() {
        do_process(
            &purchase_ix(&key(*charity), &key(200 + i as u8), numbers, &lottery_key, &key(150 + i as u8)),
            vec![&mut d.lottery, &mut d.tickets[i], &mut d.wallets[i], &mut d.holding, &mut rent, &mut system],
        )
        .unwrap();
    }
    do_process(&store_winning_numbers(&program_id, &winning, &lottery_key).unwrap(), vec![&mut d.lottery]).unwrap();
    d
}

fn reward(d: &mut Drawn, charities: [Pubkey; 4]) -> Result<Vec<Invocation>, ProgramError> {
    let participants: Vec<(Pubkey, Pubkey)> =
        (0..d.tickets.len()).map(|i| (key(150 + i as u8), key(200 + i as u8))).collect();
    let ix = reward_winners(
        &id(),
        &key(100),
        &key(101),
        &key(HOLDING),
        &key(REWARDS),
        &key(SLOT_HOLDERS),
        &key(LABS),
        &charities,
        &participants,
    )
    .unwrap();
    let mut accounts: Vec<&mut Acc> = vec![&mut d.lottery, &mut d.result, &mut d.holding];
    for acc in d.others.iter_mut() {
        accounts.push(acc);
    }
    for (t, w) in d.tickets.iter_mut().zip(d.wallets.iter_mut()) {
        accounts.push(t);
        accounts.push(w);
    }
    run(&ix, &mut accounts)
}

fn lottery_charities() -> [Pubkey; 4] {
    [key(1), key(2), key(3), key(4)]
}

fn share(to: usize, pool: u64, share: u64) -> Invocation {
    Invocation::SystemShareTransfer { system_program: 10, from: 2, to, pool, share }
}

fn split(to: usize, pool: u64, share: u64, deduction: u64, parts: u64) -> Invocation {
    Invocation::SystemSplitTransfer { system_program: 10, from: 2, to, pool, share, deduction, parts }
}

#[test]
fn test_one_winner() {
    let winning = [1, 2, 3, 4, 5, 6];
    let mut entries = vec![(winning, 1)];
    for _ in 1..5 {
        entries.push(([1, 1, 1, 1, 1, 1], 1));
    }
    let mut d = draw(&entries, winning);
    let pool = 5 * TICKET_PRICE;
    assert_eq!(d.holding.lamports, pool);
    for w in &d.wallets {
        assert_eq!(w.lamports, 900_000_000);
    }
    let calls = reward(&mut d, lottery_charities()).unwrap();
    assert_eq!(
        calls,
        vec![
            share(3, pool, 400),
            share(4, pool, 60),
            share(5, pool, 40),
            split(6, pool, 3000, 0, 1),
            split(12, pool, 6500, 0, 1),
        ]
    );
    let result = LotteryResultData::unpack_unchecked(&d.result.data).unwrap();
    assert_eq!((result.lottery_id, result.winning_numbers), (112233, winning));
}

#[test]
fn test_without_winners() {
    let entries: Vec<([u8; 6], u8)> = (0..5).map(|_| ([1, 1, 1, 1, 1, 1], 1)).collect();
    let mut d = draw(&entries, [1, 2, 3, 4, 5, 6]);
    let pool = 5 * TICKET_PRICE;
    let calls = reward(&mut d, lottery_charities()).unwrap();
    assert_eq!(calls, vec![share(3, pool, 400), share(4, pool, 60), share(5, pool, 40), split(6, pool, 3000, 0, 1)]);
}

#[test]
fn test_charities_share() {
    let winning = [1, 2, 3, 4, 5, 6];
    let entries = vec![
        (winning, 1),
        ([1, 1, 1, 1, 1, 1], 1),
        ([1, 1, 1, 1, 1, 1], 2),
        ([1, 1, 1, 1, 1, 1], 2),
        ([1, 1, 1, 1, 1, 1], 3),
    ];
    let mut d = draw(&entries, winning);
    let pool = 5 * TICKET_PRICE;
    let calls = reward(&mut d, lottery_charities()).unwrap();
    assert_eq!(
        calls,
        vec![
            share(3, pool, 400),
            share(4, pool, 60),
            share(5, pool, 40),
            split(6, pool, 3000, 0, 2),
            split(7, pool, 3000, 0, 2),
            split(12, pool, 6500, 0, 1),
        ]
    );
}

#[test]
fn reward_tiers_by_matched_numbers() {
    let winning = [1, 2, 3, 4, 5, 6];
    let entries = vec![
        ([1, 2, 3, 9, 9, 9], 4),
        ([1, 2, 3, 4, 9, 9], 4),
        ([1, 2, 3, 4, 5, 9], 4),
        ([1, 2, 3, 4, 5, 6], 4),
        ([1, 2, 3, 4, 5, 6], 4),
        ([9, 9, 9, 9, 9, 9], 4),
    ];
    let mut d = draw(&entries, winning);
    let pool = 6 * TICKET_PRICE;
    let calls = reward(&mut d, lottery_charities()).unwrap();
    assert_eq!(
        calls,
        vec![
            share(3, pool, 400),
            share(4, pool, 60),
            share(5, pool, 40),
            split(9, pool, 3000, 0, 1),
            Invocation::SystemTransfer { system_program: 10, from: 2, to: 12, lamports: TICKET_PRICE },
            split(14, pool, 200, 0, 1),
            split(16, pool, 500, 0, 1),
            split(18, pool, 5800, TICKET_PRICE, 2),
            split(20, pool, 5800, TICKET_PRICE, 2),
        ]
    );
    // The refund moved its lamports in this run.
    assert_eq!(d.wallets[0].lamports, 1_000_000_000);
}

#[test]
fn reward_winners_errors() {
    let winning = [1, 2, 3, 4, 5, 6];
    let mut d = draw(&[(winning, 1), ([1, 1, 1, 1, 1, 1], 2)], winning);
    // A charity that is not the lottery's.
    assert_eq!(
        Err(LotteryError::InvalidCharity.into()),
        reward(&mut d, [key(1), key(2), key(3), key(99)])
    );
    // A ticket whose wallet is not its buyer's.
    let participants = vec![(key(150), key(201)), (key(151), key(200))];
    let ix = reward_winners(
        &id(),
        &key(100),
        &key(101),
        &key(HOLDING),
        &key(REWARDS),
        &key(SLOT_HOLDERS),
        &key(LABS),
        &lottery_charities(),
        &participants,
    )
    .unwrap();
    let mut accounts: Vec<&mut Acc> = vec![&mut d.lottery, &mut d.result, &mut d.holding];
    for acc in d.others.iter_mut() {
        accounts.push(acc);
    }
    for (t, w) in d.tickets.iter_mut().zip(d.wallets.iter_mut()) {
        accounts.push(t);
        accounts.push(w);
    }
    assert_eq!(Err(ProgramError::InvalidArgument), run(&ix, &mut accounts).map(|_| ()));
    // A participant without a wallet.
    let mut odd = ix.clone();
    odd.accounts.truncate(12);
    accounts.truncate(12);
    assert_eq!(Err(ProgramError::NotEnoughAccountKeys), run(&odd, &mut accounts).map(|_| ()));
    // Without the holding wallet's signature.
    let mut unsigned = ix.clone();
    unsigned.accounts[2].is_signer = false;
    assert_eq!(Err(ProgramError::MissingRequiredSignature), run(&unsigned, &mut accounts).map(|_| ()));
}
