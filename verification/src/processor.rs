//! The traditional lottery's processor: what each instruction checks, and
//! what it writes and calls.
use vstd::prelude::*;
use crate::program::{
    Pubkey, ProgramError, AccountInfo, Effects, EffectsView, Invocation, spec_program_key, id, spec_rent_exempt,
    spec_rent_overflows, rent_is_exempt, rent_overflows, result_view, spec_write_one, spec_write_two,
};
use crate::error::LotteryError;
use crate::instruction::LotteryInstruction;
use crate::state::{LotteryData, TicketData};
use crate::reward::spec_process_reward_winners;

verus! {

/// `Ok` for the lottery program's id, `IncorrectProgramId` for any other.
pub open spec fn spec_check_program_account(program_id: Pubkey) -> Result<(), ProgramError> {
    if program_id == spec_program_key() {
        Ok(())
    } else {
        Err(ProgramError::IncorrectProgramId)
    }
}

/// Checks that the supplied program id is the lottery program's id.
pub fn check_program_account(program_id: &Pubkey) -> (r: Result<(), ProgramError>)
    ensures
        r == spec_check_program_account(*program_id),
{
    if *program_id != id() {
        return Err(ProgramError::IncorrectProgramId);
    }
    Ok(())
}


/// Whether a ticket's or a draw's six numbers are in range: the first five
/// from 1 to 69, the sixth from 1 to 29.
pub open spec fn valid_numbers(n: [u8; 6]) -> bool {
    &&& forall|i: int| 0 <= i < 5 ==> 1 <= #[trigger] n@[i] <= 69
    &&& 1 <= n@[5] <= 29
}

/// Whether the six numbers are in range.
pub fn numbers_in_range(n: &[u8; 6]) -> (b: bool)
    ensures
        b == valid_numbers(*n),
{
    let mut i: usize = 0;
    while i < 5
        invariant
            i <= 5,
            forall|j: int| 0 <= j < i ==> 1 <= #[trigger] n@[j] <= 69,
        decreases 5 - i,
    {
        if n[i] < 1 || n[i] > 69 {
            return false;
        }
        i = i + 1;
    }
    !(n[5] < 1 || n[5] > 29)
}

/// The traditional lottery's error as a runtime error.
pub open spec fn lottery_err(e: LotteryError) -> ProgramError {
    e.spec_into()
}

/// The lottery initialized with the given settings, its tallies at zero.
pub open spec fn spec_initialized(
    d: LotteryData,
    lottery_id: u32,
    charities: (Pubkey, Pubkey, Pubkey, Pubkey),
    wallets: (Pubkey, Pubkey, Pubkey, Pubkey, Pubkey),
) -> LotteryData {
    LotteryData {
        is_initialized: true,
        lottery_id,
        charity_1: charities.0,
        charity_2: charities.1,
        charity_3: charities.2,
        charity_4: charities.3,
        charity_1_vc: 0,
        charity_2_vc: 0,
        charity_3_vc: 0,
        charity_4_vc: 0,
        total_registrations: 0,
        holding_wallet: wallets.0,
        rewards_wallet: wallets.1,
        slot_holders_rewards_wallet: wallets.2,
        sollotto_labs_wallet: wallets.3,
        randomness_account: wallets.4,
        ..d
    }
}

/// `InitLottery`: the lottery data account (0) must belong to the program,
/// have signed and be rent-exempt under the rent sysvar (1), and hold an
/// uninitialized record; it then holds the initialized lottery.
pub open spec fn spec_process_init_lottery(
    program_id: Pubkey,
    accounts: Seq<AccountInfo>,
    lottery_id: u32,
    charities: (Pubkey, Pubkey, Pubkey, Pubkey),
    wallets: (Pubkey, Pubkey, Pubkey, Pubkey, Pubkey),
) -> Result<EffectsView, ProgramError> {
    if accounts.len() < 1 {
        Err(ProgramError::NotEnoughAccountKeys)
    } else if accounts[0].owner != program_id {
        Err(ProgramError::IncorrectProgramId)
    } else if !accounts[0].is_signer {
        Err(ProgramError::MissingRequiredSignature)
    } else if accounts.len() < 2 {
        Err(ProgramError::NotEnoughAccountKeys)
    } else {
        match spec_rent_exempt(accounts[1], accounts[0].lamports, accounts[0].data@.len() as usize) {
            Err(e) => Err(e),
            Ok(false) => Err(lottery_err(LotteryError::NotRentExempt)),
            Ok(true) => match LotteryData::spec_unpack_unchecked(accounts[0].data@) {
                Err(e) => Err(e),
                Ok(d) => if d.is_initialized {
                    Err(lottery_err(LotteryError::Initialized))
                } else {
                    Ok(
                        spec_write_one(
                            0,
                            spec_initialized(d, lottery_id, charities, wallets).spec_pack(),
                        ),
                    )
                },
            },
        }
    }
}

/// The inputs on which `InitLottery` panics: its checks before the rent
/// pass, and asking the rent sysvar (1) for the lottery account's minimum
/// balance overflows.
pub open spec fn spec_init_lottery_panics(program_id: Pubkey, accounts: Seq<AccountInfo>) -> bool {
    &&& accounts.len() >= 2
    &&& accounts[0].owner == program_id
    &&& accounts[0].is_signer
    &&& spec_rent_overflows(accounts[1].key, accounts[1].data@, accounts[0].data@.len() as usize)
}

/// The checks of `PurchaseTicket`, and the lottery and ticket records they
/// read: the lottery data account (0) must belong to the program, have signed
/// and hold an initialized lottery; the ticket account (1) must belong to the
/// program; six accounts are given; both must be rent-exempt under the rent
/// sysvar (4); the numbers
/// must be in range; the ticket account must hold a ticket record.
pub open spec fn spec_purchase_checks(
    program_id: Pubkey,
    accounts: Seq<AccountInfo>,
    ticket_number_arr: [u8; 6],
) -> Result<(LotteryData, TicketData), ProgramError> {
    if accounts.len() < 1 {
        Err(ProgramError::NotEnoughAccountKeys)
    } else if accounts[0].owner != program_id {
        Err(ProgramError::IncorrectProgramId)
    } else if !accounts[0].is_signer {
        Err(ProgramError::MissingRequiredSignature)
    } else {
        match LotteryData::spec_unpack_unchecked(accounts[0].data@) {
            Err(e) => Err(e),
            Ok(lottery) => if !lottery.is_initialized {
                Err(lottery_err(LotteryError::NotInitialized))
            } else if accounts.len() < 2 {
                Err(ProgramError::NotEnoughAccountKeys)
            } else if accounts[1].owner != program_id {
                Err(ProgramError::IncorrectProgramId)
            } else if accounts.len() < 6 {
                Err(ProgramError::NotEnoughAccountKeys)
            } else {
                match spec_rent_exempt(
                    accounts[4],
                    accounts[0].lamports,
                    accounts[0].data@.len() as usize,
                ) {
                    Err(e) => Err(e),
                    Ok(false) => Err(lottery_err(LotteryError::NotRentExempt)),
                    Ok(true) => match spec_rent_exempt(
                        accounts[4],
                        accounts[1].lamports,
                        accounts[1].data@.len() as usize,
                    ) {
                        Err(e) => Err(e),
                        Ok(false) => Err(lottery_err(LotteryError::NotRentExempt)),
                        Ok(true) => if !valid_numbers(ticket_number_arr) {
                            Err(lottery_err(LotteryError::InvalidNumber))
                        } else {
                            match TicketData::spec_unpack_unchecked(accounts[1].data@) {
                                Err(e) => Err(e),
                                Ok(ticket) => Ok((lottery, ticket)),
                            }
                        },
                    },
                }
            },
        }
    }
}

/// The tally that a vote for `charity` raises: the first of the lottery's
/// charities that is `charity` (1 to 4), or 0 where none is.
pub open spec fn voted_charity(lottery: LotteryData, charity: Pubkey) -> int {
    if lottery.charity_1 == charity {
        1
    } else if lottery.charity_2 == charity {
        2
    } else if lottery.charity_3 == charity {
        3
    } else if lottery.charity_4 == charity {
        4
    } else {
        0
    }
}

/// Whether counting a ticket and its vote would overflow a tally.
pub open spec fn spec_vote_overflows(lottery: LotteryData, charity: Pubkey) -> bool {
    ||| lottery.total_registrations == u32::MAX
    ||| voted_charity(lottery, charity) == 1 && lottery.charity_1_vc == u32::MAX
    ||| voted_charity(lottery, charity) == 2 && lottery.charity_2_vc == u32::MAX
    ||| voted_charity(lottery, charity) == 3 && lottery.charity_3_vc == u32::MAX
    ||| voted_charity(lottery, charity) == 4 && lottery.charity_4_vc == u32::MAX
}

/// The lottery with one more ticket, and one more vote for the charity voted for.
pub open spec fn spec_count_vote(lottery: LotteryData, charity: Pubkey) -> LotteryData {
    let v = voted_charity(lottery, charity);
    LotteryData {
        total_registrations: (lottery.total_registrations + 1) as u32,
        charity_1_vc: if v == 1 {
            (lottery.charity_1_vc + 1) as u32
        } else {
            lottery.charity_1_vc
        },
        charity_2_vc: if v == 2 {
            (lottery.charity_2_vc + 1) as u32
        } else {
            lottery.charity_2_vc
        },
        charity_3_vc: if v == 3 {
            (lottery.charity_3_vc + 1) as u32
        } else {
            lottery.charity_3_vc
        },
        charity_4_vc: if v == 4 {
            (lottery.charity_4_vc + 1) as u32
        } else {
            lottery.charity_4_vc
        },
        ..lottery
    }
}

/// The ticket record filled in with the purchase.
pub open spec fn spec_filled_ticket(
    ticket: TicketData,
    charity: Pubkey,
    user_wallet_pk: Pubkey,
    ticket_number_arr: [u8; 6],
) -> TicketData {
    TicketData { charity, user_wallet_pk, ticket_number_arr, ..ticket }
}

/// The price of a ticket, in lamports: 0.1 SOL.
pub const TICKET_PRICE: u64 = 100_000_000;

/// The payment for a ticket: its price, from the buyer's funding account (2)
/// to the holding wallet (3), through the system program (5).
pub open spec fn spec_ticket_payment() -> Invocation {
    Invocation::SystemTransfer { system_program: 5, from: 2, to: 3, lamports: TICKET_PRICE }
}

/// `PurchaseTicket`: after its checks, the buyer pays for the ticket, the
/// ticket account (1) holds the ticket, and the lottery (0) counts it and its
/// vote.
pub open spec fn spec_process_ticket_purchase(
    program_id: Pubkey,
    accounts: Seq<AccountInfo>,
    charity: Pubkey,
    user_wallet_pk: Pubkey,
    ticket_number_arr: [u8; 6],
) -> Result<EffectsView, ProgramError> {
    match spec_purchase_checks(program_id, accounts, ticket_number_arr) {
        Err(e) => Err(e),
        Ok((lottery, ticket)) => Ok(
            EffectsView {
                invocations: seq![spec_ticket_payment()],
                ..spec_write_two(
                    1,
                    spec_filled_ticket(ticket, charity, user_wallet_pk, ticket_number_arr).spec_pack(),
                    0,
                    spec_count_vote(lottery, charity).spec_pack(),
                )
            },
        ),
    }
}

/// The inputs on which the rent checks of `PurchaseTicket` panic: the checks
/// before them pass, and asking the rent sysvar (4) for the lottery account's
/// minimum balance overflows, or that account is exempt and asking for the
/// ticket account's overflows.
pub open spec fn spec_purchase_rent_panics(program_id: Pubkey, accounts: Seq<AccountInfo>) -> bool {
    &&& accounts.len() >= 6
    &&& accounts[0].owner == program_id
    &&& accounts[0].is_signer
    &&& LotteryData::spec_unpack_unchecked(accounts[0].data@) matches Ok(lottery) && lottery.is_initialized
    &&& accounts[1].owner == program_id
    &&& {
        ||| spec_rent_overflows(accounts[4].key, accounts[4].data@, accounts[0].data@.len() as usize)
        ||| spec_rent_exempt(accounts[4], accounts[0].lamports, accounts[0].data@.len() as usize)
            == Ok::<bool, ProgramError>(true) && spec_rent_overflows(
            accounts[4].key,
            accounts[4].data@,
            accounts[1].data@.len() as usize,
        )
    }
}

/// The inputs on which `PurchaseTicket` panics: its rent checks panic, or
/// its checks pass and a tally would overflow.
pub open spec fn spec_ticket_purchase_panics(
    program_id: Pubkey,
    accounts: Seq<AccountInfo>,
    charity: Pubkey,
    ticket_number_arr: [u8; 6],
) -> bool {
    ||| spec_purchase_rent_panics(program_id, accounts)
    ||| match spec_purchase_checks(program_id, accounts, ticket_number_arr) {
        Ok((lottery, _)) => spec_vote_overflows(lottery, charity),
        Err(_) => false,
    }
}

/// The checks that the instructions changing an initialized lottery share:
/// the lottery data account (0) must belong to the program and have signed,
/// and hold an initialized lottery, which they return.
pub open spec fn spec_initialized_lottery(program_id: Pubkey, accounts: Seq<AccountInfo>) -> Result<
    LotteryData,
    ProgramError,
> {
    if accounts.len() < 1 {
        Err(ProgramError::NotEnoughAccountKeys)
    } else if accounts[0].owner != program_id {
        Err(ProgramError::IncorrectProgramId)
    } else if !accounts[0].is_signer {
        Err(ProgramError::MissingRequiredSignature)
    } else {
        match LotteryData::spec_unpack_unchecked(accounts[0].data@) {
            Err(e) => Err(e),
            Ok(d) => if !d.is_initialized {
                Err(lottery_err(LotteryError::NotInitialized))
            } else {
                Ok(d)
            },
        }
    }
}

/// `StoreWinningNumbers`: the lottery data account (0) must belong to the
/// program, have signed and hold an initialized lottery (`UninitializedAccount`
/// otherwise), and the numbers must be in range; the lottery then holds them.
pub open spec fn spec_process_store_winning_numbers(
    program_id: Pubkey,
    accounts: Seq<AccountInfo>,
    winning_numbers_arr: [u8; 6],
) -> Result<EffectsView, ProgramError> {
    if accounts.len() < 1 {
        Err(ProgramError::NotEnoughAccountKeys)
    } else if accounts[0].owner != program_id {
        Err(ProgramError::IncorrectProgramId)
    } else if !accounts[0].is_signer {
        Err(ProgramError::MissingRequiredSignature)
    } else {
        match LotteryData::spec_unpack(accounts[0].data@) {
            Err(e) => Err(e),
            Ok(d) => if !valid_numbers(winning_numbers_arr) {
                Err(lottery_err(LotteryError::InvalidNumber))
            } else {
                Ok(spec_write_one(0, LotteryData { winning_numbers: winning_numbers_arr, ..d }.spec_pack()))
            },
        }
    }
}

/// `UpdateCharity`: after the shared checks, the lottery holds the new
/// charities.
pub open spec fn spec_process_update_charity(
    program_id: Pubkey,
    accounts: Seq<AccountInfo>,
    charities: (Pubkey, Pubkey, Pubkey, Pubkey),
) -> Result<EffectsView, ProgramError> {
    match spec_initialized_lottery(program_id, accounts) {
        Err(e) => Err(e),
        Ok(d) => Ok(
            spec_write_one(
                0,
                LotteryData {
                    charity_1: charities.0,
                    charity_2: charities.1,
                    charity_3: charities.2,
                    charity_4: charities.3,
                    ..d
                }.spec_pack(),
            ),
        ),
    }
}

/// `UpdateSollottoWallets`: after the shared checks, the lottery holds the
/// new wallets.
pub open spec fn spec_process_update_sollotto_wallets(
    program_id: Pubkey,
    accounts: Seq<AccountInfo>,
    wallets: (Pubkey, Pubkey, Pubkey, Pubkey),
) -> Result<EffectsView, ProgramError> {
    match spec_initialized_lottery(program_id, accounts) {
        Err(e) => Err(e),
        Ok(d) => Ok(
            spec_write_one(
                0,
                LotteryData {
                    holding_wallet: wallets.0,
                    rewards_wallet: wallets.1,
                    slot_holders_rewards_wallet: wallets.2,
                    sollotto_labs_wallet: wallets.3,
                    ..d
                }.spec_pack(),
            ),
        ),
    }
}

/// What processing an instruction gives: the program id is checked, the
/// instruction read and handled.
pub open spec fn spec_process(
    program_id: Pubkey,
    accounts: Seq<AccountInfo>,
    instruction_data: Seq<u8>,
) -> Result<EffectsView, ProgramError> {
    match spec_check_program_account(program_id) {
        Err(e) => Err(e),
        Ok(_) => match LotteryInstruction::spec_unpack(instruction_data) {
            Err(e) => Err(e),
            Ok(ix) => match ix {
                LotteryInstruction::InitLottery {
                    lottery_id,
                    charity_1,
                    charity_2,
                    charity_3,
                    charity_4,
                    holding_wallet,
                    rewards_wallet,
                    slot_holders_rewards_wallet,
                    sollotto_labs_wallet,
                    randomness_account,
                } => spec_process_init_lottery(
                    program_id,
                    accounts,
                    lottery_id,
                    (charity_1, charity_2, charity_3, charity_4),
                    (
                        holding_wallet,
                        rewards_wallet,
                        slot_holders_rewards_wallet,
                        sollotto_labs_wallet,
                        randomness_account,
                    ),
                ),
                LotteryInstruction::PurchaseTicket { charity, user_wallet_pk, ticket_number_arr } =>
                    spec_process_ticket_purchase(
                    program_id,
                    accounts,
                    charity,
                    user_wallet_pk,
                    ticket_number_arr,
                ),
                LotteryInstruction::StoreWinningNumbers { winning_numbers_arr } =>
                    spec_process_store_winning_numbers(program_id, accounts, winning_numbers_arr),
                LotteryInstruction::RewardWinners {  } => spec_process_reward_winners(program_id, accounts),
                LotteryInstruction::UpdateCharity { charity_1, charity_2, charity_3, charity_4 } =>
                    spec_process_update_charity(
                    program_id,
                    accounts,
                    (charity_1, charity_2, charity_3, charity_4),
                ),
                LotteryInstruction::UpdateSollottoWallets {
                    holding_wallet,
                    rewards_wallet,
                    slot_holders_rewards_wallet,
                    sollotto_labs_wallet,
                } => spec_process_update_sollotto_wallets(
                    program_id,
                    accounts,
                    (holding_wallet, rewards_wallet, slot_holders_rewards_wallet, sollotto_labs_wallet),
                ),
            },
        },
    }
}

/// The inputs on which processing panics, for the lottery program's id:
/// instruction bytes that fall short,
/// a rent configuration whose minimum balance overflows, or a ticket purchase
/// that would overflow a tally.
pub open spec fn spec_process_panics(
    program_id: Pubkey,
    accounts: Seq<AccountInfo>,
    instruction_data: Seq<u8>,
) -> bool {
    ||| program_id == spec_program_key() && LotteryInstruction::spec_unpack_panics(instruction_data)
    ||| program_id == spec_program_key() && (LotteryInstruction::spec_unpack(instruction_data) matches Ok(
        LotteryInstruction::InitLottery { .. },
    ) && spec_init_lottery_panics(program_id, accounts))
    ||| program_id == spec_program_key() && (LotteryInstruction::spec_unpack(instruction_data) matches Ok(
        LotteryInstruction::PurchaseTicket { charity, ticket_number_arr, .. },
    ) && spec_ticket_purchase_panics(program_id, accounts, charity, ticket_number_arr))
}

/// Program state handler.
pub struct Processor;

impl Processor {
    /// Processes an instruction where processing it does not panic, and
    /// answers `None` where it would.
    pub fn process_checked(program_id: &Pubkey, accounts: &[AccountInfo], instruction_data: &[u8]) -> (r:
        Option<Result<Effects, ProgramError>>)
        ensures
            r is None <==> spec_process_panics(*program_id, accounts@, instruction_data@),
            r matches Some(x) ==> result_view(x) == spec_process(*program_id, accounts@, instruction_data@),
    {
        if Self::process_panics(program_id, accounts, instruction_data) {
            None
        } else {
            Some(Self::process(program_id, accounts, instruction_data))
        }
    }

    /// Processes an instruction: what it writes and calls, or why it fails.
    pub fn process(program_id: &Pubkey, accounts: &[AccountInfo], instruction_data: &[u8]) -> (r:
        Result<Effects, ProgramError>)
        requires
            !spec_process_panics(*program_id, accounts@, instruction_data@),
        ensures
            result_view(r) == spec_process(*program_id, accounts@, instruction_data@),
    {
        match check_program_account(program_id) {
            Ok(()) => {},
            Err(e) => return Err(e),
        }
        let instruction = match LotteryInstruction::unpack(instruction_data) {
            Ok(ix) => ix,
            Err(e) => return Err(e),
        };
        match instruction {
            LotteryInstruction::InitLottery {
                lottery_id,
                charity_1,
                charity_2,
                charity_3,
                charity_4,
                holding_wallet,
                rewards_wallet,
                slot_holders_rewards_wallet,
                sollotto_labs_wallet,
                randomness_account,
            } => Self::process_init_lottery(
                program_id,
                accounts,
                lottery_id,
                charity_1,
                charity_2,
                charity_3,
                charity_4,
                holding_wallet,
                rewards_wallet,
                slot_holders_rewards_wallet,
                sollotto_labs_wallet,
                randomness_account,
            ),
            LotteryInstruction::PurchaseTicket { charity, user_wallet_pk, ticket_number_arr } =>
                Self::process_ticket_purchase(
                program_id,
                accounts,
                charity,
                user_wallet_pk,
                ticket_number_arr,
            ),
            LotteryInstruction::StoreWinningNumbers { winning_numbers_arr } =>
                Self::process_store_winning_numbers(program_id, accounts, winning_numbers_arr),
            LotteryInstruction::RewardWinners {  } => Self::process_reward_winners(program_id, accounts),
            LotteryInstruction::UpdateCharity { charity_1, charity_2, charity_3, charity_4 } =>
                Self::process_update_charity(
                program_id,
                accounts,
                charity_1,
                charity_2,
                charity_3,
                charity_4,
            ),
            LotteryInstruction::UpdateSollottoWallets {
                holding_wallet,
                rewards_wallet,
                slot_holders_rewards_wallet,
                sollotto_labs_wallet,
            } => Self::process_update_sollotto_wallets(
                program_id,
                accounts,
                holding_wallet,
                rewards_wallet,
                slot_holders_rewards_wallet,
                sollotto_labs_wallet,
            ),
        }
    }

    /// Initializes the lottery in the lottery data account.
    pub fn process_init_lottery(
        program_id: &Pubkey,
        accounts: &[AccountInfo],
        lottery_id: u32,
        charity_1: Pubkey,
        charity_2: Pubkey,
        charity_3: Pubkey,
        charity_4: Pubkey,
        holding_wallet: Pubkey,
        rewards_wallet: Pubkey,
        slot_holders_rewards_wallet: Pubkey,
        sollotto_labs_wallet: Pubkey,
        randomness_account: Pubkey,
    ) -> (r: Result<Effects, ProgramError>)
        requires
            !spec_init_lottery_panics(*program_id, accounts@),
        ensures
            result_view(r) == spec_process_init_lottery(
                *program_id,
                accounts@,
                lottery_id,
                (charity_1, charity_2, charity_3, charity_4),
                (
                    holding_wallet,
                    rewards_wallet,
                    slot_holders_rewards_wallet,
                    sollotto_labs_wallet,
                    randomness_account,
                ),
            ),
    {
        if accounts.len() < 1 {
            return Err(ProgramError::NotEnoughAccountKeys);
        }
        let lottery_data_account = &accounts[0];
        if lottery_data_account.owner != *program_id {
            return Err(ProgramError::IncorrectProgramId);
        }
        if !lottery_data_account.is_signer {
            return Err(ProgramError::MissingRequiredSignature);
        }
        if accounts.len() < 2 {
            return Err(ProgramError::NotEnoughAccountKeys);
        }
        match rent_is_exempt(
            &accounts[1],
            lottery_data_account.lamports,
            lottery_data_account.data.len(),
        ) {
            Err(e) => return Err(e),
            Ok(false) => return Err(ProgramError::from(LotteryError::NotRentExempt)),
            Ok(true) => {},
        }
        let mut lottery_data = match LotteryData::unpack_unchecked(lottery_data_account.data.as_slice()) {
            Ok(d) => d,
            Err(e) => return Err(e),
        };
        if lottery_data.is_initialized {
            return Err(ProgramError::from(LotteryError::Initialized));
        }
        lottery_data.is_initialized = true;
        lottery_data.lottery_id = lottery_id;
        lottery_data.charity_1 = charity_1;
        lottery_data.charity_2 = charity_2;
        lottery_data.charity_3 = charity_3;
        lottery_data.charity_4 = charity_4;
        lottery_data.charity_1_vc = 0;
        lottery_data.charity_2_vc = 0;
        lottery_data.charity_3_vc = 0;
        lottery_data.charity_4_vc = 0;
        lottery_data.total_registrations = 0;
        lottery_data.holding_wallet = holding_wallet;
        lottery_data.rewards_wallet = rewards_wallet;
        lottery_data.slot_holders_rewards_wallet = slot_holders_rewards_wallet;
        lottery_data.sollotto_labs_wallet = sollotto_labs_wallet;
        lottery_data.randomness_account = randomness_account;
        Ok(Effects::write_one(0, lottery_data.pack_to_vec()))
    }

    /// The checks of a ticket purchase, and the lottery and ticket records
    /// they read.
    fn purchase_checks(program_id: &Pubkey, accounts: &[AccountInfo], ticket_number_arr: &[u8; 6]) -> (r:
        Result<(LotteryData, TicketData), ProgramError>)
        requires
            !spec_purchase_rent_panics(*program_id, accounts@),
        ensures
            r == spec_purchase_checks(*program_id, accounts@, *ticket_number_arr),
    {
        if accounts.len() < 1 {
            return Err(ProgramError::NotEnoughAccountKeys);
        }
        let lottery_data_account = &accounts[0];
        if lottery_data_account.owner != *program_id {
            return Err(ProgramError::IncorrectProgramId);
        }
        if !lottery_data_account.is_signer {
            return Err(ProgramError::MissingRequiredSignature);
        }
        let lottery_data = match LotteryData::unpack_unchecked(lottery_data_account.data.as_slice()) {
            Ok(d) => d,
            Err(e) => return Err(e),
        };
        if !lottery_data.is_initialized {
            return Err(ProgramError::from(LotteryError::NotInitialized));
        }
        if accounts.len() < 2 {
            return Err(ProgramError::NotEnoughAccountKeys);
        }
        let ticket_data_account = &accounts[1];
        if ticket_data_account.owner != *program_id {
            return Err(ProgramError::IncorrectProgramId);
        }
        if accounts.len() < 6 {
            return Err(ProgramError::NotEnoughAccountKeys);
        }
        match rent_is_exempt(
            &accounts[4],
            lottery_data_account.lamports,
            lottery_data_account.data.len(),
        ) {
            Err(e) => return Err(e),
            Ok(false) => return Err(ProgramError::from(LotteryError::NotRentExempt)),
            Ok(true) => {},
        }
        match rent_is_exempt(
            &accounts[4],
            ticket_data_account.lamports,
            ticket_data_account.data.len(),
        ) {
            Err(e) => return Err(e),
            Ok(false) => return Err(ProgramError::from(LotteryError::NotRentExempt)),
            Ok(true) => {},
        }
        if !numbers_in_range(ticket_number_arr) {
            return Err(ProgramError::from(LotteryError::InvalidNumber));
        }
        match TicketData::unpack_unchecked(ticket_data_account.data.as_slice()) {
            Ok(t) => Ok((lottery_data, t)),
            Err(e) => Err(e),
        }
    }

    /// Whether counting a ticket and its vote for `charity` would overflow a
    /// tally of `lottery`.
    fn vote_overflows(lottery: &LotteryData, charity: &Pubkey) -> (b: bool)
        ensures
            b == spec_vote_overflows(*lottery, *charity),
    {
        if lottery.total_registrations == u32::MAX {
            true
        } else if lottery.charity_1 == *charity {
            lottery.charity_1_vc == u32::MAX
        } else if lottery.charity_2 == *charity {
            lottery.charity_2_vc == u32::MAX
        } else if lottery.charity_3 == *charity {
            lottery.charity_3_vc == u32::MAX
        } else if lottery.charity_4 == *charity {
            lottery.charity_4_vc == u32::MAX
        } else {
            false
        }
    }

    /// Records a ticket and counts it, with its charity vote, in the lottery.
    pub fn process_ticket_purchase(
        program_id: &Pubkey,
        accounts: &[AccountInfo],
        charity: Pubkey,
        user_wallet_pk: Pubkey,
        ticket_number_arr: [u8; 6],
    ) -> (r: Result<Effects, ProgramError>)
        requires
            !spec_ticket_purchase_panics(*program_id, accounts@, charity, ticket_number_arr),
        ensures
            result_view(r) == spec_process_ticket_purchase(
                *program_id,
                accounts@,
                charity,
                user_wallet_pk,
                ticket_number_arr,
            ),
    {
        let (mut lottery_data, mut ticket_data) = match Self::purchase_checks(
            program_id,
            accounts,
            &ticket_number_arr,
        ) {
            Ok(checked) => checked,
            Err(e) => return Err(e),
        };
        ticket_data.charity = charity;
        ticket_data.user_wallet_pk = user_wallet_pk;
        ticket_data.ticket_number_arr = ticket_number_arr;
        let ticket_bytes = ticket_data.pack_to_vec();
        lottery_data.total_registrations = lottery_data.total_registrations + 1;
        if lottery_data.charity_1 == charity {
            lottery_data.charity_1_vc = lottery_data.charity_1_vc + 1;
        } else if lottery_data.charity_2 == charity {
            lottery_data.charity_2_vc = lottery_data.charity_2_vc + 1;
        } else if lottery_data.charity_3 == charity {
            lottery_data.charity_3_vc = lottery_data.charity_3_vc + 1;
        } else if lottery_data.charity_4 == charity {
            lottery_data.charity_4_vc = lottery_data.charity_4_vc + 1;
        }
        let mut effects = Effects::write_two(1, ticket_bytes, 0, lottery_data.pack_to_vec());
        effects.invocations.push(
            Invocation::SystemTransfer { system_program: 5, from: 2, to: 3, lamports: TICKET_PRICE },
        );
        assert(effects.invocations@ =~= seq![spec_ticket_payment()]);
        Ok(effects)
    }

    /// Whether initializing the lottery over `accounts` would panic: the
    /// rent configuration's minimum balance overflows.
    pub fn init_lottery_panics(program_id: &Pubkey, accounts: &[AccountInfo]) -> (b: bool)
        ensures
            b == spec_init_lottery_panics(*program_id, accounts@),
    {
        accounts.len() >= 2 && accounts[0].owner == *program_id && accounts[0].is_signer
            && rent_overflows(&accounts[1], accounts[0].data.len())
    }

    /// Whether the rent checks of a ticket purchase over `accounts` would
    /// panic.
    fn purchase_rent_panics(program_id: &Pubkey, accounts: &[AccountInfo]) -> (b: bool)
        ensures
            b == spec_purchase_rent_panics(*program_id, accounts@),
    {
        if accounts.len() < 6 || accounts[0].owner != *program_id || !accounts[0].is_signer {
            return false;
        }
        match LotteryData::unpack_unchecked(accounts[0].data.as_slice()) {
            Ok(lottery) => if !lottery.is_initialized {
                return false;
            },
            Err(_) => return false,
        }
        if accounts[1].owner != *program_id {
            return false;
        }
        if rent_overflows(&accounts[4], accounts[0].data.len()) {
            return true;
        }
        match rent_is_exempt(&accounts[4], accounts[0].lamports, accounts[0].data.len()) {
            Ok(true) => rent_overflows(&accounts[4], accounts[1].data.len()),
            _ => false,
        }
    }

    /// Whether buying a ticket with `ticket_number_arr` and a vote for
    /// `charity` over `accounts` would panic.
    pub fn ticket_purchase_panics(
        program_id: &Pubkey,
        accounts: &[AccountInfo],
        charity: &Pubkey,
        ticket_number_arr: &[u8; 6],
    ) -> (b: bool)
        ensures
            b == spec_ticket_purchase_panics(*program_id, accounts@, *charity, *ticket_number_arr),
    {
        if Self::purchase_rent_panics(program_id, accounts) {
            return true;
        }
        match Self::purchase_checks(program_id, accounts, ticket_number_arr) {
            Ok((lottery, _)) => Self::vote_overflows(&lottery, charity),
            Err(_) => false,
        }
    }

    /// Whether processing `instruction_data` over `accounts` would panic.
    pub fn process_panics(program_id: &Pubkey, accounts: &[AccountInfo], instruction_data: &[u8]) -> (b:
        bool)
        ensures
            b == spec_process_panics(*program_id, accounts@, instruction_data@),
    {
        if check_program_account(program_id).is_err() {
            return false;
        }
        if LotteryInstruction::unpack_panics(instruction_data) {
            return true;
        }
        match LotteryInstruction::unpack(instruction_data) {
            Ok(LotteryInstruction::InitLottery { .. }) => Self::init_lottery_panics(program_id, accounts),
            Ok(LotteryInstruction::PurchaseTicket { charity, ticket_number_arr, .. }) =>
                Self::ticket_purchase_panics(program_id, accounts, &charity, &ticket_number_arr),
            _ => false,
        }
    }

    /// Stores the winning numbers in the lottery.
    pub fn process_store_winning_numbers(
        program_id: &Pubkey,
        accounts: &[AccountInfo],
        winning_numbers_arr: [u8; 6],
    ) -> (r: Result<Effects, ProgramError>)
        ensures
            result_view(r) == spec_process_store_winning_numbers(
                *program_id,
                accounts@,
                winning_numbers_arr,
            ),
    {
        if accounts.len() < 1 {
            return Err(ProgramError::NotEnoughAccountKeys);
        }
        let lottery_data_account = &accounts[0];
        if lottery_data_account.owner != *program_id {
            return Err(ProgramError::IncorrectProgramId);
        }
        if !lottery_data_account.is_signer {
            return Err(ProgramError::MissingRequiredSignature);
        }
        let mut lottery_data = match LotteryData::unpack(lottery_data_account.data.as_slice()) {
            Ok(d) => d,
            Err(e) => return Err(e),
        };
        if !lottery_data.is_initialized {
            return Err(ProgramError::from(LotteryError::NotInitialized));
        }
        if !numbers_in_range(&winning_numbers_arr) {
            return Err(ProgramError::from(LotteryError::InvalidNumber));
        }
        lottery_data.winning_numbers = winning_numbers_arr;
        Ok(Effects::write_one(0, lottery_data.pack_to_vec()))
    }

    /// The lottery held by an account that belongs to the program, has signed
    /// and holds an initialized lottery.
    fn initialized_lottery(program_id: &Pubkey, accounts: &[AccountInfo]) -> (r: Result<
        LotteryData,
        ProgramError,
    >)
        ensures
            r == spec_initialized_lottery(*program_id, accounts@),
    {
        if accounts.len() < 1 {
            return Err(ProgramError::NotEnoughAccountKeys);
        }
        let lottery_data_account = &accounts[0];
        if lottery_data_account.owner != *program_id {
            return Err(ProgramError::IncorrectProgramId);
        }
        if !lottery_data_account.is_signer {
            return Err(ProgramError::MissingRequiredSignature);
        }
        let lottery_data = match LotteryData::unpack_unchecked(lottery_data_account.data.as_slice()) {
            Ok(d) => d,
            Err(e) => return Err(e),
        };
        if !lottery_data.is_initialized {
            return Err(ProgramError::from(LotteryError::NotInitialized));
        }
        Ok(lottery_data)
    }

    /// Replaces the lottery's charities.
    pub fn process_update_charity(
        program_id: &Pubkey,
        accounts: &[AccountInfo],
        charity_1: Pubkey,
        charity_2: Pubkey,
        charity_3: Pubkey,
        charity_4: Pubkey,
    ) -> (r: Result<Effects, ProgramError>)
        ensures
            result_view(r) == spec_process_update_charity(
                *program_id,
                accounts@,
                (charity_1, charity_2, charity_3, charity_4),
            ),
    {
        let mut lottery_data = match Self::initialized_lottery(program_id, accounts) {
            Ok(d) => d,
            Err(e) => return Err(e),
        };
        lottery_data.charity_1 = charity_1;
        lottery_data.charity_2 = charity_2;
        lottery_data.charity_3 = charity_3;
        lottery_data.charity_4 = charity_4;
        Ok(Effects::write_one(0, lottery_data.pack_to_vec()))
    }

    /// Replaces the lottery's wallets.
    pub fn process_update_sollotto_wallets(
        program_id: &Pubkey,
        accounts: &[AccountInfo],
        holding_wallet: Pubkey,
        rewards_wallet: Pubkey,
        slot_holders_rewards_wallet: Pubkey,
        sollotto_labs_wallet: Pubkey,
    ) -> (r: Result<Effects, ProgramError>)
        ensures
            result_view(r) == spec_process_update_sollotto_wallets(
                *program_id,
                accounts@,
                (holding_wallet, rewards_wallet, slot_holders_rewards_wallet, sollotto_labs_wallet),
            ),
    {
        let mut lottery_data = match Self::initialized_lottery(program_id, accounts) {
            Ok(d) => d,
            Err(e) => return Err(e),
        };
        lottery_data.holding_wallet = holding_wallet;
        lottery_data.rewards_wallet = rewards_wallet;
        lottery_data.slot_holders_rewards_wallet = slot_holders_rewards_wallet;
        lottery_data.sollotto_labs_wallet = sollotto_labs_wallet;
        Ok(Effects::write_one(0, lottery_data.pack_to_vec()))
    }
}


/// Once a lottery has been initialized, initializing it again is refused:
/// the account, with the record that the first initialization wrote and
/// nothing else changed, gives `Initialized`, whatever the new settings.
pub proof fn law_init_lottery_once(
    program_id: Pubkey,
    accounts: Seq<AccountInfo>,
    after: Seq<AccountInfo>,
    lottery_id: u32,
    charities: (Pubkey, Pubkey, Pubkey, Pubkey),
    wallets: (Pubkey, Pubkey, Pubkey, Pubkey, Pubkey),
    lottery_id_2: u32,
    charities_2: (Pubkey, Pubkey, Pubkey, Pubkey),
    wallets_2: (Pubkey, Pubkey, Pubkey, Pubkey, Pubkey),
)
    requires
        spec_process_init_lottery(program_id, accounts, lottery_id, charities, wallets) is Ok,
        after.len() == accounts.len(),
        after[0].data@ == spec_process_init_lottery(
            program_id,
            accounts,
            lottery_id,
            charities,
            wallets,
        )->Ok_0.writes[0].1,
        after[0].key == accounts[0].key,
        after[0].owner == accounts[0].owner,
        after[0].is_signer == accounts[0].is_signer,
        after[0].lamports == accounts[0].lamports,
        forall|i: int| 1 <= i < accounts.len() ==> after[i] == accounts[i],
    ensures
        spec_process_init_lottery(program_id, after, lottery_id_2, charities_2, wallets_2) == Err::<
            EffectsView,
            ProgramError,
        >(lottery_err(LotteryError::Initialized)),
{
    let d = LotteryData::spec_unpack_unchecked(accounts[0].data@)->Ok_0;
    let written = spec_initialized(d, lottery_id, charities, wallets);
    LotteryData::law_unpack_pack(written);
    assert(after[1] == accounts[1]);
}

/// A ticket purchase counts exactly one ticket: the buyer's funding account
/// (2) pays the ticket's price to the holding wallet (3); the lottery it
/// writes reads back with one more registration, one more vote for the first
/// of the lottery's charities that is the charity voted for (none where none
/// is), and every other field as it was; the ticket it writes reads back with
/// the purchase's charity, buyer and numbers.
pub proof fn law_purchase_counts_one_ticket(
    program_id: Pubkey,
    accounts: Seq<AccountInfo>,
    charity: Pubkey,
    user_wallet_pk: Pubkey,
    ticket_number_arr: [u8; 6],
)
    requires
        spec_process_ticket_purchase(program_id, accounts, charity, user_wallet_pk, ticket_number_arr) is Ok,
        !spec_ticket_purchase_panics(program_id, accounts, charity, ticket_number_arr),
    ensures
        ({
            let before = LotteryData::spec_unpack_unchecked(accounts[0].data@)->Ok_0;
            let e = spec_process_ticket_purchase(
                program_id,
                accounts,
                charity,
                user_wallet_pk,
                ticket_number_arr,
            )->Ok_0;
            let lottery = LotteryData::spec_unpack_unchecked(e.writes[1].1)->Ok_0;
            let ticket = TicketData::spec_unpack_unchecked(e.writes[0].1)->Ok_0;
            &&& e.writes.len() == 2
            &&& e.writes[0].0 == 1 && e.writes[1].0 == 0
            &&& LotteryData::spec_unpack_unchecked(e.writes[1].1) is Ok
            &&& lottery.total_registrations == before.total_registrations + 1
            &&& lottery.charity_1_vc == before.charity_1_vc + if charity == before.charity_1 {
                1int
            } else {
                0int
            }
            &&& lottery.charity_2_vc == before.charity_2_vc + if charity == before.charity_2 && charity
                != before.charity_1 {
                1int
            } else {
                0int
            }
            &&& lottery.charity_3_vc == before.charity_3_vc + if charity == before.charity_3 && charity
                != before.charity_1 && charity != before.charity_2 {
                1int
            } else {
                0int
            }
            &&& lottery.charity_4_vc == before.charity_4_vc + if charity == before.charity_4 && charity
                != before.charity_1 && charity != before.charity_2 && charity != before.charity_3 {
                1int
            } else {
                0int
            }
            &&& e.invocations.len() == 1
            &&& e.invocations[0] matches Invocation::SystemTransfer { from, to, lamports, .. } && from == 2
                && to == 3 && lamports == TICKET_PRICE
            &&& lottery.charity_1_vc + lottery.charity_2_vc + lottery.charity_3_vc
                + lottery.charity_4_vc == before.charity_1_vc + before.charity_2_vc
                + before.charity_3_vc + before.charity_4_vc + if voted_charity(before, charity)
                != 0 {
                1int
            } else {
                0int
            }
            &&& lottery == LotteryData {
                total_registrations: lottery.total_registrations,
                charity_1_vc: lottery.charity_1_vc,
                charity_2_vc: lottery.charity_2_vc,
                charity_3_vc: lottery.charity_3_vc,
                charity_4_vc: lottery.charity_4_vc,
                ..before
            }
            &&& TicketData::spec_unpack_unchecked(e.writes[0].1) is Ok
            &&& ticket.charity == charity
            &&& ticket.user_wallet_pk == user_wallet_pk
            &&& ticket.ticket_number_arr == ticket_number_arr
        }),
{
    let (before, t) = spec_purchase_checks(program_id, accounts, ticket_number_arr)->Ok_0;
    LotteryData::law_unpack_pack(spec_count_vote(before, charity));
    TicketData::law_unpack_pack(spec_filled_ticket(t, charity, user_wallet_pk, ticket_number_arr));
}

/// Storing winning numbers changes nothing in the lottery but the numbers.
pub proof fn law_store_winning_numbers_only_numbers(
    program_id: Pubkey,
    accounts: Seq<AccountInfo>,
    winning_numbers_arr: [u8; 6],
)
    requires
        spec_process_store_winning_numbers(program_id, accounts, winning_numbers_arr) is Ok,
    ensures
        ({
            let before = LotteryData::spec_unpack(accounts[0].data@)->Ok_0;
            let e = spec_process_store_winning_numbers(program_id, accounts, winning_numbers_arr)->Ok_0;
            &&& e.writes.len() == 1 && e.writes[0].0 == 0
            &&& LotteryData::spec_unpack(e.writes[0].1) == Ok::<LotteryData, ProgramError>(
                LotteryData { winning_numbers: winning_numbers_arr, ..before },
            )
        }),
{
    let before = LotteryData::spec_unpack(accounts[0].data@)->Ok_0;
    LotteryData::law_unpack_pack(LotteryData { winning_numbers: winning_numbers_arr, ..before });
}

/// Updating the charities or the wallets of a lottery changes nothing but
/// them: the record written reads back as the lottery before, with the new
/// charities, or the new wallets.
pub proof fn law_updates_change_only_their_fields(
    program_id: Pubkey,
    accounts: Seq<AccountInfo>,
    charities: (Pubkey, Pubkey, Pubkey, Pubkey),
    wallets: (Pubkey, Pubkey, Pubkey, Pubkey),
)
    requires
        spec_initialized_lottery(program_id, accounts) is Ok,
    ensures
        ({
            let before = spec_initialized_lottery(program_id, accounts)->Ok_0;
            let c = spec_process_update_charity(program_id, accounts, charities)->Ok_0;
            let w = spec_process_update_sollotto_wallets(program_id, accounts, wallets)->Ok_0;
            &&& c.writes.len() == 1 && c.writes[0].0 == 0
            &&& LotteryData::spec_unpack(c.writes[0].1) == Ok::<LotteryData, ProgramError>(
                LotteryData {
                    charity_1: charities.0,
                    charity_2: charities.1,
                    charity_3: charities.2,
                    charity_4: charities.3,
                    ..before
                },
            )
            &&& w.writes.len() == 1 && w.writes[0].0 == 0
            &&& LotteryData::spec_unpack(w.writes[0].1) == Ok::<LotteryData, ProgramError>(
                LotteryData {
                    holding_wallet: wallets.0,
                    rewards_wallet: wallets.1,
                    slot_holders_rewards_wallet: wallets.2,
                    sollotto_labs_wallet: wallets.3,
                    ..before
                },
            )
        }),
{
    let before = spec_initialized_lottery(program_id, accounts)->Ok_0;
    LotteryData::law_unpack_pack(
        LotteryData {
            charity_1: charities.0,
            charity_2: charities.1,
            charity_3: charities.2,
            charity_4: charities.3,
            ..before
        },
    );
    LotteryData::law_unpack_pack(
        LotteryData {
            holding_wallet: wallets.0,
            rewards_wallet: wallets.1,
            slot_holders_rewards_wallet: wallets.2,
            sollotto_labs_wallet: wallets.3,
            ..before
        },
    );
}

} // verus!

verus! {

/// Numbers out of range are refused: a ticket bought, or winning numbers
/// stored, have their first five numbers from 1 to 69 and the sixth from 1
/// to 29.
pub proof fn law_accepted_numbers_in_range(
    program_id: Pubkey,
    accounts: Seq<AccountInfo>,
    charity: Pubkey,
    user_wallet_pk: Pubkey,
    numbers: [u8; 6],
)
    ensures
        spec_process_ticket_purchase(program_id, accounts, charity, user_wallet_pk, numbers) is Ok
            || spec_process_store_winning_numbers(program_id, accounts, numbers) is Ok ==> {
            &&& forall|i: int| 0 <= i < 5 ==> 1 <= #[trigger] numbers@[i] <= 69
            &&& 1 <= numbers@[5] <= 29
        },
{
}

} // verus!

verus! {

/// A lottery starts from nothing: a successful `InitLottery` writes the
/// lottery data account (0) alone, and what it writes reads back as an
/// initialized lottery with the id, charities and wallets given, no ticket
/// registered and no vote counted.
pub proof fn law_init_lottery_starts_empty(
    program_id: Pubkey,
    accounts: Seq<AccountInfo>,
    lottery_id: u32,
    charities: (Pubkey, Pubkey, Pubkey, Pubkey),
    wallets: (Pubkey, Pubkey, Pubkey, Pubkey, Pubkey),
)
    requires
        spec_process_init_lottery(program_id, accounts, lottery_id, charities, wallets) is Ok,
    ensures
        ({
            let e = spec_process_init_lottery(program_id, accounts, lottery_id, charities, wallets)->Ok_0;
            &&& e.writes.len() == 1 && e.writes[0].0 == 0 && e.invocations.len() == 0
            &&& LotteryData::spec_unpack_unchecked(e.writes[0].1) matches Ok(d) && d.is_initialized
                && d.lottery_id == lottery_id && d.total_registrations == 0 && d.charity_1_vc == 0
                && d.charity_2_vc == 0 && d.charity_3_vc == 0 && d.charity_4_vc == 0 && d.charity_1
                == charities.0 && d.charity_2 == charities.1 && d.charity_3 == charities.2
                && d.charity_4 == charities.3 && d.holding_wallet == wallets.0 && d.rewards_wallet
                == wallets.1 && d.slot_holders_rewards_wallet == wallets.2 && d.sollotto_labs_wallet
                == wallets.3 && d.randomness_account == wallets.4
        }),
{
    let d = LotteryData::spec_unpack_unchecked(accounts[0].data@)->Ok_0;
    LotteryData::law_unpack_pack(spec_initialized(d, lottery_id, charities, wallets));
}

} // verus!
