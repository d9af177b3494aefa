use sollotto::model5::error::LotteryError;
use sollotto::model5::instruction::{purchase_ticket, reward_winners, LotteryInstruction};
use sollotto::model5::processor::{Processed, Processor, TicketPurchase};
use sollotto::model5::state::LotteryResultData;
use sollotto::program::{id, AccountInfo, Instruction, Invocation, ProgramError, Pubkey};
use solana_program::native_token::sol_to_lamports;
use solana_program::program_option::COption;
use solana_program::program_pack::Pack;
use spl_token::state::{Account as SPLAccount, AccountState, Mint};
use spl_token::ui_amount_to_amount;

struct Acc {
    lamports: u64,
    data: Vec<u8>,
    owner: Pubkey,
}

impl Acc {
    fn new(lamports: u64, len: usize, owner: &Pubkey) -> Acc {
        Acc { lamports, data: vec![0; len], owner: *owner }
    }

    fn default() -> Acc {
        Acc { lamports: 0, data: Vec::new(), owner: key(0) }
    }
}

fn key(n: u8) -> Pubkey {
    Pubkey::new_from_array([n; 32])
}

fn to_sol(k: &Pubkey) -> solana_program::pubkey::Pubkey {
    solana_program::pubkey::Pubkey::new_from_array(k.to_bytes())
}

fn token_program() -> Pubkey {
    Pubkey::new_from_array(spl_token::id().to_bytes())
}

fn minimum_balance(len: usize) -> u64 {
    solana_program::rent::Rent::default().minimum_balance(len)
}

fn mint_minimum_balance() -> u64 {
    minimum_balance(Mint::get_packed_len())
}

fn account_minimum_balance() -> u64 {
    minimum_balance(SPLAccount::get_packed_len())
}

fn pack_token_account(acc: &mut Acc, mint: &Pubkey, owner: &Pubkey, amount: u64) {
    SPLAccount::pack(
        SPLAccount { mint: to_sol(mint), owner: to_sol(owner), amount, state: AccountState::Initialized, ..Default::default() },
        &mut acc.data,
    )
    .unwrap();
}

fn pack_mint(acc: &mut Acc, authority: &Pubkey, supply: u64, decimals: u8) {
    Mint::pack(
        Mint { mint_authority: COption::Some(to_sol(authority)), supply, decimals, is_initialized: true, ..Default::default() },
        &mut acc.data,
    )
    .unwrap();
}

fn infos(instruction: &Instruction, accounts: &[&mut Acc]) -> Vec<AccountInfo> {
    instruction
        .accounts
        .iter()
        .zip(accounts.iter())
        .map(|(meta, acc)| AccountInfo {
            key: meta.pubkey,
            is_signer: meta.is_signer,
            is_writable: meta.is_writable,
            lamports: acc.lamports,
            data: acc.data.clone(),
            owner: acc.owner,
        })
        .collect()
}

fn do_process(instruction: Instruction, accounts: Vec<&mut Acc>) -> Result<Processed, ProgramError> {
    let mut accounts = accounts;
    let processed = Processor::process(&instruction.program_id, &infos(&instruction, &accounts), &instruction.data)?;
    if let Processed::Done(effects) = &processed {
        for write in &effects.writes {
            if accounts[write.account].data.len() != write.data.len() {
                return Err(ProgramError::InvalidAccountData);
            }
        }
        for write in &effects.writes {
            accounts[write.account].data = write.data.clone();
        }
    }
    Ok(processed)
}

#[test]
fn processor_test_reward_winners() {
    let program_id = id();
    let lottery_id = 0xff;
    let mut winning_idx = 5;
    let prize_pool = sol_to_lamports(5.);
    let sollotto_key = key(1);
    let sollotto_sol_key = key(2);
    let mut sollotto_sol_acc = Acc::new(prize_pool, SPLAccount::get_packed_len(), &sollotto_key);
    let sollotto_rewards_key = key(3);
    let mut sollotto_rewards_acc = Acc::default();
    let slot_holder_rewards_key = key(4);
    let mut slot_holder_rewards_acc = Acc::default();
    let sollotto_labs_key = key(5);
    let mut sollotto_labs_acc = Acc::default();
    let sollotto_result_key = key(6);
    let mut sollotto_result_acc = Acc::new(account_minimum_balance(), LotteryResultData::LEN, &sollotto_key);
    sollotto_result_acc.data = LotteryResultData::default().pack_to_vec();
    let mut system_program_acc = Acc::default();

    let participant_key0 = key(10);
    let participant_key1 = key(11);
    let participant_key2 = key(12);
    let participant_fq_key0 = key(20);
    let participant_fq_key1 = key(21);
    let participant_fq_key2 = key(22);

    let mut participant_acc0 = Acc::default();
    let mut participant_acc1 = Acc::default();
    let mut participant_acc2 = Acc::new(account_minimum_balance(), SPLAccount::get_packed_len(), &participant_key2);
    let mut participant_fq_acc0 = Acc::default();
    let mut participant_fq_acc1 = Acc::default();
    let mut participant_fq_acc2 = Acc::new(account_minimum_balance(), SPLAccount::get_packed_len(), &participant_key2);
    pack_token_account(&mut participant_fq_acc2, &token_program(), &participant_key2, 3);

    let participants = vec![
        (participant_key0, participant_fq_key0),
        (participant_key1, participant_fq_key1),
        (participant_key2, participant_fq_key2),
    ];
    assert_eq!(
        Err(ProgramError::NotEnoughAccountKeys),
        do_process(
            reward_winners(
                &program_id,
                lottery_id,
                winning_idx,
                prize_pool,
                &sollotto_sol_key,
                &sollotto_rewards_key,
                &slot_holder_rewards_key,
                &sollotto_labs_key,
                &sollotto_result_key,
                &participants,
            )
            .unwrap(),
            vec![
                &mut sollotto_sol_acc,
                &mut sollotto_rewards_acc,
                &mut slot_holder_rewards_acc,
                &mut sollotto_labs_acc,
                &mut sollotto_result_acc,
                &mut system_program_acc,
                &mut participant_acc0,
                &mut participant_fq_acc0,
                &mut participant_acc1,
                &mut participant_fq_acc1,
                &mut participant_acc2,
                &mut participant_fq_acc2,
            ],
        )
        .map(|_| ())
    );

    winning_idx = 2;

    assert_eq!(
        Ok(()),
        do_process(
            reward_winners(
                &program_id,
                lottery_id,
                winning_idx,
                prize_pool,
                &sollotto_sol_key,
                &sollotto_rewards_key,
                &slot_holder_rewards_key,
                &sollotto_labs_key,
                &sollotto_result_key,
                &participants,
            )
            .unwrap(),
            vec![
                &mut sollotto_sol_acc,
                &mut sollotto_rewards_acc,
                &mut slot_holder_rewards_acc,
                &mut sollotto_labs_acc,
                &mut sollotto_result_acc,
                &mut system_program_acc,
                &mut participant_acc0,
                &mut participant_fq_acc0,
                &mut participant_acc1,
                &mut participant_fq_acc1,
                &mut participant_acc2,
                &mut participant_fq_acc2,
            ],
        )
        .map(|_| ())
    );

    let lottery_res = LotteryResultData::unpack_unchecked(&sollotto_result_acc.data).unwrap();
    assert!((lottery_res.lottery_id == lottery_id) && (lottery_res.winner == participant_key2));
}

#[test]
fn fixed_quantity_reward_errors_and_payments() {
    let program_id = id();
    let participants = vec![(key(10), key(20))];
    let ix = |idx: u64, prize_pool: u64| {
        reward_winners(&program_id, 3, idx, prize_pool, &key(2), &key(3), &key(4), &key(5), &key(6), &participants).unwrap()
    };
    let mut ticket = Acc::new(1, SPLAccount::get_packed_len(), &token_program());
    pack_token_account(&mut ticket, &key(30), &key(10), 0);
    let (mut a0, mut a1, mut a2, mut a3, mut system, mut wallet) =
        (Acc::default(), Acc::default(), Acc::default(), Acc::default(), Acc::default(), Acc::default());
    let mut result = Acc::new(1, LotteryResultData::LEN, &program_id);

    // An empty prize pool.
    assert_eq!(
        Err(LotteryError::EmptyPrizePool.into()),
        do_process(
            ix(0, 0),
            vec![&mut a0, &mut a1, &mut a2, &mut a3, &mut result, &mut system, &mut wallet, &mut ticket]
        )
        .map(|_| ())
    );
    // A winner without a ticket.
    assert_eq!(
        Err(LotteryError::NotEnoughFQTokens.into()),
        do_process(
            ix(0, 100),
            vec![&mut a0, &mut a1, &mut a2, &mut a3, &mut result, &mut system, &mut wallet, &mut ticket]
        )
        .map(|_| ())
    );
    pack_token_account(&mut ticket, &key(30), &key(10), 1);
    let processed = do_process(
        ix(0, 100),
        vec![&mut a0, &mut a1, &mut a2, &mut a3, &mut result, &mut system, &mut wallet, &mut ticket],
    )
    .unwrap();
    match processed {
        Processed::Done(effects) => assert_eq!(
            effects.invocations,
            vec![
                Invocation::SystemShareTransfer { system_program: 5, from: 0, to: 6, pool: 100, share: 9500 },
                Invocation::SystemShareTransfer { system_program: 5, from: 0, to: 1, pool: 100, share: 400 },
                Invocation::SystemShareTransfer { system_program: 5, from: 0, to: 2, pool: 100, share: 60 },
                Invocation::SystemShareTransfer { system_program: 5, from: 0, to: 3, pool: 100, share: 40 },
            ]
        ),
        Processed::Purchase(_) => panic!("a reward is no purchase"),
    }
    let recorded = LotteryResultData::unpack_unchecked(&result.data).unwrap();
    assert_eq!((recorded.lottery_id, recorded.winner), (3, key(10)));

    // A result account without room for the record.
    let mut small = Acc::new(1, LotteryResultData::LEN - 1, &program_id);
    assert_eq!(
        Err(ProgramError::InvalidAccountData),
        do_process(
            ix(0, 100),
            vec![&mut a0, &mut a1, &mut a2, &mut a3, &mut small, &mut system, &mut wallet, &mut ticket]
        )
        .map(|_| ())
    );
}

#[test]
fn fixed_quantity_purchase_reads_what_pricing_needs() {
    let program_id = id();
    let user_sol_key = key(1);
    let user_fqticket_key = key(2);
    let user_slot_key = key(3);
    let fqticket_mint_key = key(4);
    let fqticket_mint_authority_key = key(5);
    let slot_mint_key = key(6);
    let slot_mint_authority_key = key(7);
    let sollotto_sol_key = key(8);
    let mut user_sol_acc = Acc::new(sol_to_lamports(2.), SPLAccount::get_packed_len(), &user_sol_key);
    let mut user_fqticket_acc = Acc::new(account_minimum_balance(), SPLAccount::get_packed_len(), &user_sol_key);
    let mut user_slot_acc = Acc::new(account_minimum_balance(), SPLAccount::get_packed_len(), &user_sol_key);
    let mut fqticket_mint = Acc::new(mint_minimum_balance(), Mint::get_packed_len(), &token_program());
    let mut slot_mint = Acc::new(mint_minimum_balance(), Mint::get_packed_len(), &token_program());
    pack_mint(&mut fqticket_mint, &fqticket_mint_authority_key, ui_amount_to_amount(10., 9), 9);
    pack_mint(&mut slot_mint, &slot_mint_authority_key, ui_amount_to_amount(10., 9), 9);
    pack_token_account(&mut user_fqticket_acc, &token_program(), &user_sol_key, 0);
    pack_token_account(&mut user_slot_acc, &slot_mint_key, &user_sol_key, ui_amount_to_amount(10., 9));
    let (mut authority, mut slot_authority, mut sollotto, mut system, mut token) =
        (Acc::default(), Acc::default(), Acc::default(), Acc::default(), Acc::default());
    let ix = purchase_ticket(
        &program_id,
        ui_amount_to_amount(5., 9),
        &user_fqticket_key,
        &user_sol_key,
        &user_slot_key,
        &fqticket_mint_key,
        &fqticket_mint_authority_key,
        &slot_mint_key,
        &slot_mint_authority_key,
        &sollotto_sol_key,
    )
    .unwrap();
    let writable: Vec<bool> = ix.accounts.iter().map(|m| m.is_writable).collect();
    let signers: Vec<bool> = ix.accounts.iter().map(|m| m.is_signer).collect();
    assert_eq!(writable, vec![true, true, false, true, false, false, false, true, false, false]);
    assert_eq!(signers, vec![false, true, false, false, true, false, true, false, false, false]);
    let processed = do_process(
        ix.clone(),
        vec![
            &mut user_fqticket_acc,
            &mut user_sol_acc,
            &mut user_slot_acc,
            &mut fqticket_mint,
            &mut authority,
            &mut slot_mint,
            &mut slot_authority,
            &mut sollotto,
            &mut system,
            &mut token,
        ],
    )
    .unwrap();
    match processed {
        Processed::Purchase(p) => assert_eq!(
            p,
            TicketPurchase {
                fqtickets_owned: 0,
                fqticket_decimals: 9,
                slot_cap: ui_amount_to_amount(10., 9),
                slot_decimals: 9,
                amount: ui_amount_to_amount(5., 9),
                payer_lamports: sol_to_lamports(2.),
                system_program: 8,
                payer: 1,
                payee: 7,
                mint: Invocation::TokenMintTo {
                    token_program: 9,
                    mint: 3,
                    destination: 0,
                    authority: 4,
                    multisig_signer: Some(4),
                    amount: ui_amount_to_amount(5., 9),
                },
            }
        ),
        Processed::Done(_) => panic!("a purchase is left to be priced"),
    }

    // A SLOT account of another owner.
    pack_token_account(&mut user_slot_acc, &slot_mint_key, &key(99), 1);
    assert_eq!(
        Err(LotteryError::InvalidSLOTAccount.into()),
        do_process(
            ix.clone(),
            vec![
                &mut user_fqticket_acc,
                &mut user_sol_acc,
                &mut user_slot_acc,
                &mut fqticket_mint,
                &mut authority,
                &mut slot_mint,
                &mut slot_authority,
                &mut sollotto,
                &mut system,
                &mut token,
            ],
        )
        .map(|_| ())
    );

    // The SLOT mint authority's signature is needed.
    let mut unsigned = ix.clone();
    unsigned.accounts[6].is_signer = false;
    assert_eq!(
        Err(ProgramError::MissingRequiredSignature),
        do_process(
            unsigned,
            vec![
                &mut user_fqticket_acc,
                &mut user_sol_acc,
                &mut user_slot_acc,
                &mut fqticket_mint,
                &mut authority,
                &mut slot_mint,
                &mut slot_authority,
                &mut sollotto,
                &mut system,
                &mut token,
            ],
        )
        .map(|_| ())
    );
}

#[test]
fn fixed_quantity_instruction_round_trip() {
    let purchase = LotteryInstruction::PurchaseTicket { amount: 0x0102 };
    assert_eq!(purchase.pack(), vec![0, 2, 1, 0, 0, 0, 0, 0, 0]);
    assert_eq!(LotteryInstruction::unpack(&purchase.pack()), Ok(purchase));
    let reward = LotteryInstruction::RewardWinners { lottery_id: 7, idx: 2, prize_pool: 5 };
    let bytes = reward.pack();
    assert_eq!(bytes.len(), 21);
    assert_eq!(LotteryInstruction::unpack(&bytes), Ok(reward));
    assert_eq!(LotteryInstruction::unpack(&[9]), Err(LotteryError::InvalidInstruction.into()));
}
