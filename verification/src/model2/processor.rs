//! The pooled lottery's processor.
use vstd::prelude::*;
use crate::program::{
    Pubkey, ProgramError, AccountInfo, Effects, EffectsView, Invocation, spec_program_key, id,
    spec_rent_exempt, spec_rent_overflows, rent_is_exempt, rent_overflows, result_view, spec_write_one, spec_calls_then_write, share_total,
};
use crate::model2::error::LotteryError;
use crate::model2::instruction::LotteryInstruction;
use crate::model2::state::{LotteryData, LotteryResultData};

verus! {

/// `Ok` for the lottery program's id, `IncorrectProgramId` for any other.
pub open spec fn spec_check_program_account(program_id: Pubkey) -> Result<(), ProgramError> {
    if program_id == spec_program_key() {
        Ok(())
    } else {
        Err(ProgramError::IncorrectProgramId)
    }
}

/// Checks that the supplied program id is the lottery program's id.
pub fn check_program_account(program_id: &Pubkey) -> (r: Result<(), ProgramError>)
    ensures
        r == spec_check_program_account(*program_id),
{
    if *program_id != id() {
        return Err(ProgramError::IncorrectProgramId);
    }
    Ok(())
}


/// The pooled lottery's error as a runtime error.
pub open spec fn lottery_err(e: LotteryError) -> ProgramError {
    e.spec_into()
}

/// The calls of `InitLottery`: initialize the staking pool token mint (1)
/// with the lottery account (0) as authority and 9 decimals, then the pool's
/// token account (2) of that mint, owned by the lottery account.
pub open spec fn spec_init_calls() -> Seq<Invocation> {
    seq![
        Invocation::TokenInitializeMint { token_program: 4, mint: 1, rent: 3, mint_authority: 0, decimals: 9 },
        Invocation::TokenInitializeAccount { token_program: 4, account: 2, mint: 1, owner: 0, rent: 3 },
    ]
}

/// The lottery initialized with the given wallets and mint, nothing staked.
pub open spec fn spec_initialized(
    d: LotteryData,
    staking_pool_token_mint: Pubkey,
    wallets: (Pubkey, Pubkey, Pubkey, Pubkey),
) -> LotteryData {
    LotteryData {
        is_initialized: true,
        staking_pool_amount: 0,
        staking_pool_wallet: wallets.0,
        staking_pool_token_mint,
        rewards_wallet: wallets.1,
        slot_holders_rewards_wallet: wallets.2,
        sollotto_labs_wallet: wallets.3,
        ..d
    }
}

/// `InitLottery`: five accounts; the lottery data account (0) must belong to
/// the program, have signed, be rent-exempt under the rent sysvar (3) and hold
/// an uninitialized record. The mint and the token account are initialized,
/// and the lottery holds its wallets and mint.
pub open spec fn spec_process_init_lottery(
    program_id: Pubkey,
    accounts: Seq<AccountInfo>,
    wallets: (Pubkey, Pubkey, Pubkey, Pubkey),
) -> Result<EffectsView, ProgramError> {
    if accounts.len() < 5 {
        Err(ProgramError::NotEnoughAccountKeys)
    } else if accounts[0].owner != program_id {
        Err(ProgramError::IncorrectProgramId)
    } else if !accounts[0].is_signer {
        Err(ProgramError::MissingRequiredSignature)
    } else {
        match spec_rent_exempt(accounts[3], accounts[0].lamports, accounts[0].data@.len() as usize) {
            Err(e) => Err(e),
            Ok(false) => Err(lottery_err(LotteryError::NotRentExempt)),
            Ok(true) => match LotteryData::spec_unpack_unchecked(accounts[0].data@) {
                Err(e) => Err(e),
                Ok(d) => if d.is_initialized {
                    Err(lottery_err(LotteryError::Initialized))
                } else {
                    Ok(
                        spec_calls_then_write(
                            spec_init_calls(),
                            0,
                            spec_initialized(d, accounts[1].key, wallets).spec_pack(),
                        ),
                    )
                },
            },
        }
    }
}

/// The inputs on which `InitLottery` panics: its checks before the rent
/// pass, and asking the rent sysvar (3) for the lottery account's minimum
/// balance overflows.
pub open spec fn spec_init_lottery_panics(program_id: Pubkey, accounts: Seq<AccountInfo>) -> bool {
    &&& accounts.len() >= 5
    &&& accounts[0].owner == program_id
    &&& accounts[0].is_signer
    &&& spec_rent_overflows(accounts[3].key, accounts[3].data@, accounts[0].data@.len() as usize)
}

/// The checks of `Deposit` and `Undeposit`: seven accounts; the lottery data
/// account (0) belongs to the program and has signed, the user (2) has signed,
/// and for an undeposit the staking pool wallet (4) too; the lottery is
/// initialized, and the mint (1) and the wallet (4) are the lottery's.
pub open spec fn spec_pool_checks(
    program_id: Pubkey,
    accounts: Seq<AccountInfo>,
    wallet_signs: bool,
) -> Result<LotteryData, ProgramError> {
    if accounts.len() < 7 {
        Err(ProgramError::NotEnoughAccountKeys)
    } else if accounts[0].owner != program_id {
        Err(ProgramError::IncorrectProgramId)
    } else if !accounts[0].is_signer || !accounts[2].is_signer || (wallet_signs
        && !accounts[4].is_signer) {
        Err(ProgramError::MissingRequiredSignature)
    } else {
        match LotteryData::spec_unpack_unchecked(accounts[0].data@) {
            Err(e) => Err(e),
            Ok(d) => if !d.is_initialized {
                Err(lottery_err(LotteryError::NotInitialized))
            } else if d.staking_pool_token_mint != accounts[1].key || d.staking_pool_wallet
                != accounts[4].key {
                Err(lottery_err(LotteryError::InvalidSollottoAccount))
            } else {
                Ok(d)
            },
        }
    }
}

/// `Deposit`: after the checks, `amount` lamports move from the user (2) to
/// the staking pool wallet (4), as many pool tokens are minted to the user's
/// token account (3), and the lottery counts them as staked.
pub open spec fn spec_process_deposit(
    program_id: Pubkey,
    accounts: Seq<AccountInfo>,
    amount: u64,
) -> Result<EffectsView, ProgramError> {
    match spec_pool_checks(program_id, accounts, false) {
        Err(e) => Err(e),
        Ok(d) => Ok(
            spec_calls_then_write(
                seq![
                    Invocation::SystemTransfer { system_program: 6, from: 2, to: 4, lamports: amount },
                    Invocation::TokenMintTo {
                        token_program: 5,
                        mint: 1,
                        destination: 3,
                        authority: 0,
                        multisig_signer: None,
                        amount,
                    },
                ],
                0,
                LotteryData {
                    staking_pool_amount: (d.staking_pool_amount + amount) as u64,
                    ..d
                }.spec_pack(),
            ),
        ),
    }
}

/// The inputs on which `Deposit` panics: its checks pass and the staked
/// amount would overflow.
pub open spec fn spec_deposit_panics(program_id: Pubkey, accounts: Seq<AccountInfo>, amount: u64) -> bool {
    spec_pool_checks(program_id, accounts, false) matches Ok(d) && d.staking_pool_amount + amount
        > u64::MAX
}

/// `Undeposit`: after the checks, and where no more than is staked is asked
/// back (`InsufficientFunds` otherwise), `amount` pool tokens are burnt from
/// the user's token account (3), as many lamports move from the staking pool
/// wallet (4) to the user (2), and the lottery counts them as no longer staked.
pub open spec fn spec_process_undeposit(
    program_id: Pubkey,
    accounts: Seq<AccountInfo>,
    amount: u64,
) -> Result<EffectsView, ProgramError> {
    match spec_pool_checks(program_id, accounts, true) {
        Err(e) => Err(e),
        Ok(d) => if amount > d.staking_pool_amount {
            Err(ProgramError::InsufficientFunds)
        } else {
            Ok(
                spec_calls_then_write(
                    seq![
                        Invocation::TokenBurn { token_program: 5, account: 3, mint: 1, authority: 2, amount },
                        Invocation::SystemTransfer { system_program: 6, from: 4, to: 2, lamports: amount },
                    ],
                    0,
                    LotteryData {
                        staking_pool_amount: (d.staking_pool_amount - amount) as u64,
                        ..d
                    }.spec_pack(),
                ),
            )
        },
    }
}

/// The payments of a reward, in ten-thousandths of the prize from the staking
/// pool wallet (3): 95% to the winner (2), 4% to the rewards wallet (4), 0.6%
/// to the SLOT holders' wallet (5), 0.4% to the labs wallet (6).
pub open spec fn spec_reward_payments(prize: u64) -> Seq<Invocation> {
    seq![
        Invocation::SystemShareTransfer { system_program: 7, from: 3, to: 2, pool: prize, share: 9500 },
        Invocation::SystemShareTransfer { system_program: 7, from: 3, to: 4, pool: prize, share: 400 },
        Invocation::SystemShareTransfer { system_program: 7, from: 3, to: 5, pool: prize, share: 60 },
        Invocation::SystemShareTransfer { system_program: 7, from: 3, to: 6, pool: prize, share: 40 },
    ]
}

/// `RewardWinner`: eight accounts; the lottery data account (0) and the
/// result account (1) belong to the program; the lottery account and the
/// staking pool wallet (3) have signed; the lottery is initialized and its
/// wallets are the ones given (3 to 6); the wallet holds at least what is
/// staked (`InsufficientFunds`), and more (`EmptyPrizePool`). The prize, what
/// the wallet holds beyond the stake, is shared out, and the result account
/// is to record the lottery and the winner (2).
pub open spec fn spec_process_reward_winner(
    program_id: Pubkey,
    accounts: Seq<AccountInfo>,
    lottery_id: u32,
) -> Result<EffectsView, ProgramError> {
    if accounts.len() < 8 {
        Err(ProgramError::NotEnoughAccountKeys)
    } else if accounts[0].owner != program_id || accounts[1].owner != program_id {
        Err(ProgramError::IncorrectProgramId)
    } else if !accounts[0].is_signer || !accounts[3].is_signer {
        Err(ProgramError::MissingRequiredSignature)
    } else {
        match LotteryData::spec_unpack_unchecked(accounts[0].data@) {
            Err(e) => Err(e),
            Ok(d) => if !d.is_initialized {
                Err(lottery_err(LotteryError::NotInitialized))
            } else if d.staking_pool_wallet != accounts[3].key || d.rewards_wallet
                != accounts[4].key || d.slot_holders_rewards_wallet != accounts[5].key
                || d.sollotto_labs_wallet != accounts[6].key {
                Err(lottery_err(LotteryError::InvalidSollottoAccount))
            } else if accounts[3].lamports < d.staking_pool_amount {
                Err(ProgramError::InsufficientFunds)
            } else if accounts[3].lamports == d.staking_pool_amount {
                Err(lottery_err(LotteryError::EmptyPrizePool))
            } else {
                Ok(
                    spec_calls_then_write(
                        spec_reward_payments((accounts[3].lamports - d.staking_pool_amount) as u64),
                        1,
                        (LotteryResultData { lottery_id, winner: accounts[2].key }).spec_pack(),
                    ),
                )
            },
        }
    }
}

/// `UpdateLotteryWallets`: the lottery data account (0) must belong to the
/// program, have signed and hold an initialized lottery, which then holds the
/// new wallets and mint.
pub open spec fn spec_process_update_lottery_wallets(
    program_id: Pubkey,
    accounts: Seq<AccountInfo>,
    staking_pool_wallet: Pubkey,
    staking_pool_token_mint: Pubkey,
    wallets: (Pubkey, Pubkey, Pubkey),
) -> Result<EffectsView, ProgramError> {
    if accounts.len() < 1 {
        Err(ProgramError::NotEnoughAccountKeys)
    } else if accounts[0].owner != program_id {
        Err(ProgramError::IncorrectProgramId)
    } else if !accounts[0].is_signer {
        Err(ProgramError::MissingRequiredSignature)
    } else {
        match LotteryData::spec_unpack_unchecked(accounts[0].data@) {
            Err(e) => Err(e),
            Ok(d) => if !d.is_initialized {
                Err(lottery_err(LotteryError::NotInitialized))
            } else {
                Ok(
                    spec_write_one(
                        0,
                        LotteryData {
                            staking_pool_wallet,
                            staking_pool_token_mint,
                            rewards_wallet: wallets.0,
                            slot_holders_rewards_wallet: wallets.1,
                            sollotto_labs_wallet: wallets.2,
                            ..d
                        }.spec_pack(),
                    ),
                )
            },
        }
    }
}

/// What processing an instruction gives: the program id is checked, the
/// instruction read and handled.
pub open spec fn spec_process(
    program_id: Pubkey,
    accounts: Seq<AccountInfo>,
    instruction_data: Seq<u8>,
) -> Result<EffectsView, ProgramError> {
    match spec_check_program_account(program_id) {
        Err(e) => Err(e),
        Ok(_) => match LotteryInstruction::spec_unpack(instruction_data) {
            Err(e) => Err(e),
            Ok(ix) => match ix {
                LotteryInstruction::InitLottery {
                    staking_pool_wallet,
                    rewards_wallet,
                    slot_holders_rewards_wallet,
                    sollotto_labs_wallet,
                } => spec_process_init_lottery(
                    program_id,
                    accounts,
                    (staking_pool_wallet, rewards_wallet, slot_holders_rewards_wallet, sollotto_labs_wallet),
                ),
                LotteryInstruction::Deposit { amount } => spec_process_deposit(program_id, accounts, amount),
                LotteryInstruction::Undeposit { amount } => spec_process_undeposit(
                    program_id,
                    accounts,
                    amount,
                ),
                LotteryInstruction::RewardWinner { lottery_id } => spec_process_reward_winner(
                    program_id,
                    accounts,
                    lottery_id,
                ),
                LotteryInstruction::UpdateLotteryWallets {
                    staking_pool_wallet,
                    staking_pool_token_mint,
                    rewards_wallet,
                    slot_holders_rewards_wallet,
                    sollotto_labs_wallet,
                } => spec_process_update_lottery_wallets(
                    program_id,
                    accounts,
                    staking_pool_wallet,
                    staking_pool_token_mint,
                    (rewards_wallet, slot_holders_rewards_wallet, sollotto_labs_wallet),
                ),
            },
        },
    }
}

/// The inputs on which processing panics, for the lottery program's id:
/// instruction bytes that fall short,
/// a rent configuration whose minimum balance overflows, or a deposit that
/// would overflow the staked amount.
pub open spec fn spec_process_panics(
    program_id: Pubkey,
    accounts: Seq<AccountInfo>,
    instruction_data: Seq<u8>,
) -> bool {
    ||| program_id == spec_program_key() && LotteryInstruction::spec_unpack_panics(instruction_data)
    ||| program_id == spec_program_key() && (LotteryInstruction::spec_unpack(instruction_data) matches Ok(
        LotteryInstruction::InitLottery { .. },
    ) && spec_init_lottery_panics(program_id, accounts))
    ||| program_id == spec_program_key() && (LotteryInstruction::spec_unpack(instruction_data) matches Ok(
        LotteryInstruction::Deposit { amount },
    ) && spec_deposit_panics(program_id, accounts, amount))
}

/// Program state handler.
pub struct Processor;

impl Processor {
    /// Processes an instruction where processing it does not panic, and
    /// answers `None` where it would.
    pub fn process_checked(program_id: &Pubkey, accounts: &[AccountInfo], instruction_data: &[u8]) -> (r:
        Option<Result<Effects, ProgramError>>)
        ensures
            r is None <==> spec_process_panics(*program_id, accounts@, instruction_data@),
            r matches Some(x) ==> result_view(x) == spec_process(*program_id, accounts@, instruction_data@),
    {
        if Self::process_panics(program_id, accounts, instruction_data) {
            None
        } else {
            Some(Self::process(program_id, accounts, instruction_data))
        }
    }

    /// Processes an instruction: what it writes and calls, or why it fails.
    pub fn process(program_id: &Pubkey, accounts: &[AccountInfo], instruction_data: &[u8]) -> (r:
        Result<Effects, ProgramError>)
        requires
            !spec_process_panics(*program_id, accounts@, instruction_data@),
        ensures
            result_view(r) == spec_process(*program_id, accounts@, instruction_data@),
    {
        match check_program_account(program_id) {
            Ok(()) => {},
            Err(e) => return Err(e),
        }
        let instruction = match LotteryInstruction::unpack(instruction_data) {
            Ok(ix) => ix,
            Err(e) => return Err(e),
        };
        match instruction {
            LotteryInstruction::InitLottery {
                staking_pool_wallet,
                rewards_wallet,
                slot_holders_rewards_wallet,
                sollotto_labs_wallet,
            } => Self::process_init_lottery(
                program_id,
                accounts,
                staking_pool_wallet,
                rewards_wallet,
                slot_holders_rewards_wallet,
                sollotto_labs_wallet,
            ),
            LotteryInstruction::Deposit { amount } => Self::process_deposit(program_id, accounts, amount),
            LotteryInstruction::Undeposit { amount } => Self::process_undeposit(
                program_id,
                accounts,
                amount,
            ),
            LotteryInstruction::RewardWinner { lottery_id } => Self::process_reward_winner(
                program_id,
                accounts,
                lottery_id,
            ),
            LotteryInstruction::UpdateLotteryWallets {
                staking_pool_wallet,
                staking_pool_token_mint,
                rewards_wallet,
                slot_holders_rewards_wallet,
                sollotto_labs_wallet,
            } => Self::process_update_lottery_wallets(
                program_id,
                accounts,
                staking_pool_wallet,
                staking_pool_token_mint,
                rewards_wallet,
                slot_holders_rewards_wallet,
                sollotto_labs_wallet,
            ),
        }
    }

    /// Initializes the lottery, its staking pool token mint and token account.
    pub fn process_init_lottery(
        program_id: &Pubkey,
        accounts: &[AccountInfo],
        staking_pool_wallet: Pubkey,
        rewards_wallet: Pubkey,
        slot_holders_rewards_wallet: Pubkey,
        sollotto_labs_wallet: Pubkey,
    ) -> (r: Result<Effects, ProgramError>)
        requires
            !spec_init_lottery_panics(*program_id, accounts@),
        ensures
            result_view(r) == spec_process_init_lottery(
                *program_id,
                accounts@,
                (staking_pool_wallet, rewards_wallet, slot_holders_rewards_wallet, sollotto_labs_wallet),
            ),
    {
        if accounts.len() < 5 {
            return Err(ProgramError::NotEnoughAccountKeys);
        }
        let lottery_account = &accounts[0];
        let staking_pool_token_mint = &accounts[1];
        let rent_account = &accounts[3];
        if lottery_account.owner != *program_id {
            return Err(ProgramError::IncorrectProgramId);
        }
        if !lottery_account.is_signer {
            return Err(ProgramError::MissingRequiredSignature);
        }
        match rent_is_exempt(rent_account, lottery_account.lamports, lottery_account.data.len()) {
            Err(e) => return Err(e),
            Ok(false) => return Err(ProgramError::from(LotteryError::NotRentExempt)),
            Ok(true) => {},
        }
        let mut lottery_data = match LotteryData::unpack_unchecked(lottery_account.data.as_slice()) {
            Ok(d) => d,
            Err(e) => return Err(e),
        };
        if lottery_data.is_initialized {
            return Err(ProgramError::from(LotteryError::Initialized));
        }
        let mut invocations: Vec<Invocation> = Vec::new();
        invocations.push(
            Invocation::TokenInitializeMint { token_program: 4, mint: 1, rent: 3, mint_authority: 0, decimals: 9 },
        );
        invocations.push(
            Invocation::TokenInitializeAccount { token_program: 4, account: 2, mint: 1, owner: 0, rent: 3 },
        );
        lottery_data.is_initialized = true;
        lottery_data.staking_pool_amount = 0;
        lottery_data.staking_pool_wallet = staking_pool_wallet;
        lottery_data.staking_pool_token_mint = staking_pool_token_mint.key;
        lottery_data.rewards_wallet = rewards_wallet;
        lottery_data.slot_holders_rewards_wallet = slot_holders_rewards_wallet;
        lottery_data.sollotto_labs_wallet = sollotto_labs_wallet;
        assert(invocations@ =~= spec_init_calls());
        Ok(Effects::calls_then_write(invocations, 0, lottery_data.pack_to_vec()))
    }

    /// The checks of a deposit or an undeposit, and the lottery they read.
    fn pool_checks(program_id: &Pubkey, accounts: &[AccountInfo], wallet_signs: bool) -> (r: Result<
        LotteryData,
        ProgramError,
    >)
        ensures
            r == spec_pool_checks(*program_id, accounts@, wallet_signs),
    {
        if accounts.len() < 7 {
            return Err(ProgramError::NotEnoughAccountKeys);
        }
        let lottery_account = &accounts[0];
        if lottery_account.owner != *program_id {
            return Err(ProgramError::IncorrectProgramId);
        }
        if !lottery_account.is_signer {
            return Err(ProgramError::MissingRequiredSignature);
        }
        if !accounts[2].is_signer {
            return Err(ProgramError::MissingRequiredSignature);
        }
        if wallet_signs && !accounts[4].is_signer {
            return Err(ProgramError::MissingRequiredSignature);
        }
        let lottery_data = match LotteryData::unpack_unchecked(lottery_account.data.as_slice()) {
            Ok(d) => d,
            Err(e) => return Err(e),
        };
        if !lottery_data.is_initialized {
            return Err(ProgramError::from(LotteryError::NotInitialized));
        }
        if lottery_data.staking_pool_token_mint != accounts[1].key {
            return Err(ProgramError::from(LotteryError::InvalidSollottoAccount));
        }
        if lottery_data.staking_pool_wallet != accounts[4].key {
            return Err(ProgramError::from(LotteryError::InvalidSollottoAccount));
        }
        Ok(lottery_data)
    }

    /// Stakes `amount` lamports for as many pool tokens.
    pub fn process_deposit(program_id: &Pubkey, accounts: &[AccountInfo], amount: u64) -> (r:
        Result<Effects, ProgramError>)
        requires
            !spec_deposit_panics(*program_id, accounts@, amount),
        ensures
            result_view(r) == spec_process_deposit(*program_id, accounts@, amount),
    {
        let mut lottery_data = match Self::pool_checks(program_id, accounts, false) {
            Ok(d) => d,
            Err(e) => return Err(e),
        };
        let mut invocations: Vec<Invocation> = Vec::new();
        invocations.push(Invocation::SystemTransfer { system_program: 6, from: 2, to: 4, lamports: amount });
        invocations.push(
            Invocation::TokenMintTo {
                token_program: 5,
                mint: 1,
                destination: 3,
                authority: 0,
                multisig_signer: None,
                amount,
            },
        );
        lottery_data.staking_pool_amount = lottery_data.staking_pool_amount + amount;
        assert(invocations@ =~= seq![
            Invocation::SystemTransfer { system_program: 6, from: 2, to: 4, lamports: amount },
            Invocation::TokenMintTo {
                token_program: 5,
                mint: 1,
                destination: 3,
                authority: 0,
                multisig_signer: None,
                amount,
            },
        ]);
        Ok(Effects::calls_then_write(invocations, 0, lottery_data.pack_to_vec()))
    }

    /// Gives back `amount` staked lamports for as many pool tokens.
    pub fn process_undeposit(program_id: &Pubkey, accounts: &[AccountInfo], amount: u64) -> (r:
        Result<Effects, ProgramError>)
        ensures
            result_view(r) == spec_process_undeposit(*program_id, accounts@, amount),
    {
        let mut lottery_data = match Self::pool_checks(program_id, accounts, true) {
            Ok(d) => d,
            Err(e) => return Err(e),
        };
        if amount > lottery_data.staking_pool_amount {
            return Err(ProgramError::InsufficientFunds);
        }
        let mut invocations: Vec<Invocation> = Vec::new();
        invocations.push(Invocation::TokenBurn { token_program: 5, account: 3, mint: 1, authority: 2, amount });
        invocations.push(Invocation::SystemTransfer { system_program: 6, from: 4, to: 2, lamports: amount });
        lottery_data.staking_pool_amount = lottery_data.staking_pool_amount - amount;
        assert(invocations@ =~= seq![
            Invocation::TokenBurn { token_program: 5, account: 3, mint: 1, authority: 2, amount },
            Invocation::SystemTransfer { system_program: 6, from: 4, to: 2, lamports: amount },
        ]);
        Ok(Effects::calls_then_write(invocations, 0, lottery_data.pack_to_vec()))
    }

    /// Shares out the prize that the staking rewards make, and records the
    /// winner.
    pub fn process_reward_winner(program_id: &Pubkey, accounts: &[AccountInfo], lottery_id: u32) -> (r:
        Result<Effects, ProgramError>)
        ensures
            result_view(r) == spec_process_reward_winner(*program_id, accounts@, lottery_id),
    {
        if accounts.len() < 8 {
            return Err(ProgramError::NotEnoughAccountKeys);
        }
        let lottery_account = &accounts[0];
        let lottery_result_account = &accounts[1];
        let winner_account = &accounts[2];
        let sollotto_staking_pool_wallet = &accounts[3];
        if lottery_account.owner != *program_id {
            return Err(ProgramError::IncorrectProgramId);
        }
        if lottery_result_account.owner != *program_id {
            return Err(ProgramError::IncorrectProgramId);
        }
        if !lottery_account.is_signer {
            return Err(ProgramError::MissingRequiredSignature);
        }
        if !sollotto_staking_pool_wallet.is_signer {
            return Err(ProgramError::MissingRequiredSignature);
        }
        let lottery_data = match LotteryData::unpack_unchecked(lottery_account.data.as_slice()) {
            Ok(d) => d,
            Err(e) => return Err(e),
        };
        if !lottery_data.is_initialized {
            return Err(ProgramError::from(LotteryError::NotInitialized));
        }
        if lottery_data.staking_pool_wallet != sollotto_staking_pool_wallet.key {
            return Err(ProgramError::from(LotteryError::InvalidSollottoAccount));
        }
        if lottery_data.rewards_wallet != accounts[4].key {
            return Err(ProgramError::from(LotteryError::InvalidSollottoAccount));
        }
        if lottery_data.slot_holders_rewards_wallet != accounts[5].key {
            return Err(ProgramError::from(LotteryError::InvalidSollottoAccount));
        }
        if lottery_data.sollotto_labs_wallet != accounts[6].key {
            return Err(ProgramError::from(LotteryError::InvalidSollottoAccount));
        }
        if sollotto_staking_pool_wallet.lamports < lottery_data.staking_pool_amount {
            return Err(ProgramError::InsufficientFunds);
        }
        let prize_pool_lamports = sollotto_staking_pool_wallet.lamports
            - lottery_data.staking_pool_amount;
        if prize_pool_lamports == 0 {
            return Err(ProgramError::from(LotteryError::EmptyPrizePool));
        }
        let mut invocations: Vec<Invocation> = Vec::new();
        invocations.push(
            Invocation::SystemShareTransfer { system_program: 7, from: 3, to: 2, pool: prize_pool_lamports, share: 9500 },
        );
        invocations.push(
            Invocation::SystemShareTransfer { system_program: 7, from: 3, to: 4, pool: prize_pool_lamports, share: 400 },
        );
        invocations.push(
            Invocation::SystemShareTransfer { system_program: 7, from: 3, to: 5, pool: prize_pool_lamports, share: 60 },
        );
        invocations.push(
            Invocation::SystemShareTransfer { system_program: 7, from: 3, to: 6, pool: prize_pool_lamports, share: 40 },
        );
        assert(invocations@ =~= spec_reward_payments(prize_pool_lamports));
        let result = LotteryResultData { lottery_id, winner: winner_account.key };
        Ok(Effects::calls_then_write(invocations, 1, result.pack_to_vec()))
    }

    /// Whether initializing the lottery over `accounts` would panic: the
    /// rent configuration's minimum balance overflows.
    pub fn init_lottery_panics(program_id: &Pubkey, accounts: &[AccountInfo]) -> (b: bool)
        ensures
            b == spec_init_lottery_panics(*program_id, accounts@),
    {
        accounts.len() >= 5 && accounts[0].owner == *program_id && accounts[0].is_signer
            && rent_overflows(&accounts[3], accounts[0].data.len())
    }

    /// Whether depositing `amount` over `accounts` would panic: the staked
    /// amount would overflow.
    pub fn deposit_panics(program_id: &Pubkey, accounts: &[AccountInfo], amount: u64) -> (b: bool)
        ensures
            b == spec_deposit_panics(*program_id, accounts@, amount),
    {
        match Self::pool_checks(program_id, accounts, false) {
            Ok(d) => d.staking_pool_amount.checked_add(amount).is_none(),
            Err(_) => false,
        }
    }

    /// Whether processing `instruction_data` over `accounts` would panic.
    pub fn process_panics(program_id: &Pubkey, accounts: &[AccountInfo], instruction_data: &[u8]) -> (b:
        bool)
        ensures
            b == spec_process_panics(*program_id, accounts@, instruction_data@),
    {
        if check_program_account(program_id).is_err() {
            return false;
        }
        if LotteryInstruction::unpack_panics(instruction_data) {
            return true;
        }
        match LotteryInstruction::unpack(instruction_data) {
            Ok(LotteryInstruction::InitLottery { .. }) => Self::init_lottery_panics(program_id, accounts),
            Ok(LotteryInstruction::Deposit { amount }) => Self::deposit_panics(program_id, accounts, amount),
            _ => false,
        }
    }

    /// Replaces the lottery's wallets and mint.
    pub fn process_update_lottery_wallets(
        program_id: &Pubkey,
        accounts: &[AccountInfo],
        staking_pool_wallet: Pubkey,
        staking_pool_token_mint: Pubkey,
        rewards_wallet: Pubkey,
        slot_holders_rewards_wallet: Pubkey,
        sollotto_labs_wallet: Pubkey,
    ) -> (r: Result<Effects, ProgramError>)
        ensures
            result_view(r) == spec_process_update_lottery_wallets(
                *program_id,
                accounts@,
                staking_pool_wallet,
                staking_pool_token_mint,
                (rewards_wallet, slot_holders_rewards_wallet, sollotto_labs_wallet),
            ),
    {
        if accounts.len() < 1 {
            return Err(ProgramError::NotEnoughAccountKeys);
        }
        let lottery_account = &accounts[0];
        if lottery_account.owner != *program_id {
            return Err(ProgramError::IncorrectProgramId);
        }
        if !lottery_account.is_signer {
            return Err(ProgramError::MissingRequiredSignature);
        }
        let mut lottery_data = match LotteryData::unpack_unchecked(lottery_account.data.as_slice()) {
            Ok(d) => d,
            Err(e) => return Err(e),
        };
        if !lottery_data.is_initialized {
            return Err(ProgramError::from(LotteryError::NotInitialized));
        }
        lottery_data.staking_pool_wallet = staking_pool_wallet;
        lottery_data.staking_pool_token_mint = staking_pool_token_mint;
        lottery_data.rewards_wallet = rewards_wallet;
        lottery_data.slot_holders_rewards_wallet = slot_holders_rewards_wallet;
        lottery_data.sollotto_labs_wallet = sollotto_labs_wallet;
        Ok(Effects::write_one(0, lottery_data.pack_to_vec()))
    }
}

} // verus!

verus! {

/// An undeposit undoes a deposit of the same amount. Where a deposit
/// succeeds, an undeposit of that amount on the accounts as the deposit left
/// them (the same addresses, owners and signatures, the lottery's record as the
/// deposit wrote it), signed as well by the staking pool wallet (4),
/// succeeds; it burns the pool tokens that the deposit minted, sends the
/// lamports back from where the deposit put them to where it took them, and
/// writes back the lottery's record as it was before the deposit, byte for
/// byte.
pub proof fn law_undeposit_undoes_deposit(
    program_id: Pubkey,
    accounts: Seq<AccountInfo>,
    after: Seq<AccountInfo>,
    amount: u64,
)
    requires
        !spec_deposit_panics(program_id, accounts, amount),
        spec_process_deposit(program_id, accounts, amount) is Ok,
        after.len() == accounts.len(),
        forall|i: int|
            0 <= i < accounts.len() ==> #[trigger] after[i].key == accounts[i].key && after[i].owner
                == accounts[i].owner && (i != 4 ==> after[i].is_signer == accounts[i].is_signer),
        after[4].is_signer,
        after[0].data@ == spec_process_deposit(program_id, accounts, amount)->Ok_0.writes[0].1,
    ensures
        ({
            let dep = spec_process_deposit(program_id, accounts, amount)->Ok_0;
            &&& spec_process_undeposit(program_id, after, amount) is Ok
            &&& ({
                let und = spec_process_undeposit(program_id, after, amount)->Ok_0;
                &&& und.writes == seq![(0usize, accounts[0].data@)]
                &&& dep.invocations[0] matches Invocation::SystemTransfer { from, to, lamports, .. }
                &&& und.invocations[1] matches Invocation::SystemTransfer { from: back_from, to: back_to, lamports: returned, .. }
                &&& back_from == to && back_to == from && returned == lamports
                &&& dep.invocations[1] matches Invocation::TokenMintTo { mint, destination, amount: minted, .. }
                &&& und.invocations[0] matches Invocation::TokenBurn { account, mint: burnt_mint, amount: burnt, .. }
                &&& account == destination && burnt_mint == mint && burnt == minted
            })
        }),
{
    let d = spec_pool_checks(program_id, accounts, false)->Ok_0;
    let deposited = LotteryData { staking_pool_amount: (d.staking_pool_amount + amount) as u64, ..d };
    LotteryData::law_unpack_pack(deposited);
    LotteryData::law_pack_unpack(accounts[0].data@);
    assert(after[0].key == accounts[0].key);
    assert(after[1].key == accounts[1].key);
    assert(after[2].key == accounts[2].key);
    assert(after[4].key == accounts[4].key);
    assert(spec_pool_checks(program_id, after, true) == Ok::<LotteryData, ProgramError>(deposited));
    let restored = LotteryData {
        staking_pool_amount: (deposited.staking_pool_amount - amount) as u64,
        ..deposited
    };
    assert(restored == d);
}

/// A successful reward records the lottery and the winner: the result
/// account (1) is the one account written, and what it holds reads back as
/// the lottery's id and the address of the account paid the winner's share.
pub proof fn law_reward_records_winner(program_id: Pubkey, accounts: Seq<AccountInfo>, lottery_id: u32)
    requires
        spec_process_reward_winner(program_id, accounts, lottery_id) is Ok,
    ensures
        ({
            let e = spec_process_reward_winner(program_id, accounts, lottery_id)->Ok_0;
            &&& e.writes.len() == 1
            &&& e.writes[0].0 == 1
            &&& e.invocations[0] matches Invocation::SystemShareTransfer { to, .. }
            &&& LotteryResultData::spec_unpack_unchecked(e.writes[0].1) == Ok::<
                LotteryResultData,
                ProgramError,
            >(LotteryResultData { lottery_id, winner: accounts[to as int].key })
        }),
{
    LotteryResultData::law_unpack_pack(LotteryResultData { lottery_id, winner: accounts[2].key });
}

/// A reward never reaches the stake: every payment is a share of the prize,
/// what the staking pool wallet (3) holds beyond the staked lamports, and the
/// shares together come to the whole prize.
pub proof fn law_reward_spares_stake(program_id: Pubkey, accounts: Seq<AccountInfo>, lottery_id: u32)
    requires
        spec_process_reward_winner(program_id, accounts, lottery_id) is Ok,
    ensures
        ({
            let e = spec_process_reward_winner(program_id, accounts, lottery_id)->Ok_0;
            let staked = LotteryData::spec_unpack_unchecked(accounts[0].data@)->Ok_0.staking_pool_amount;
            &&& share_total(e.invocations) == 10000
            &&& forall|i: int| 0 <= i < e.invocations.len() ==> (#[trigger] e.invocations[i] matches Invocation::SystemShareTransfer { from, pool, .. } && from == 3 && pool + staked == accounts[3].lamports)
        }),
{
    let e = spec_process_reward_winner(program_id, accounts, lottery_id)->Ok_0;
    reveal_with_fuel(share_total, 5);
    assert(e.invocations.drop_last().drop_last().drop_last().drop_last() =~= Seq::<Invocation>::empty());
}

/// Updating the wallets of a lottery changes nothing but them: the stake
/// and the flag stay, and the record written reads back with the new wallets
/// and mint.
pub proof fn law_update_wallets_keeps_stake(
    program_id: Pubkey,
    accounts: Seq<AccountInfo>,
    staking_pool_wallet: Pubkey,
    staking_pool_token_mint: Pubkey,
    wallets: (Pubkey, Pubkey, Pubkey),
)
    requires
        spec_process_update_lottery_wallets(
            program_id,
            accounts,
            staking_pool_wallet,
            staking_pool_token_mint,
            wallets,
        ) is Ok,
    ensures
        ({
            let before = LotteryData::spec_unpack_unchecked(accounts[0].data@)->Ok_0;
            let e = spec_process_update_lottery_wallets(
                program_id,
                accounts,
                staking_pool_wallet,
                staking_pool_token_mint,
                wallets,
            )->Ok_0;
            &&& e.writes.len() == 1 && e.writes[0].0 == 0
            &&& LotteryData::spec_unpack_unchecked(e.writes[0].1) == Ok::<LotteryData, ProgramError>(
                LotteryData {
                    is_initialized: true,
                    staking_pool_amount: before.staking_pool_amount,
                    staking_pool_wallet,
                    staking_pool_token_mint,
                    rewards_wallet: wallets.0,
                    slot_holders_rewards_wallet: wallets.1,
                    sollotto_labs_wallet: wallets.2,
                },
            )
        }),
{
    let before = LotteryData::spec_unpack_unchecked(accounts[0].data@)->Ok_0;
    LotteryData::law_unpack_pack(
        LotteryData {
            staking_pool_wallet,
            staking_pool_token_mint,
            rewards_wallet: wallets.0,
            slot_holders_rewards_wallet: wallets.1,
            sollotto_labs_wallet: wallets.2,
            ..before
        },
    );
}

} // verus!

verus! {

/// A reward pays the wallets that the lottery records: after a successful
/// reward the lottery is initialized, the paying wallet is its staking pool
/// wallet, the winner (2) takes 95%, and 4%, 0.6% and 0.4% go to its
/// rewards wallet, its SLOT holders' wallet and its labs wallet, in that
/// order.
pub proof fn law_reward_pays_recorded_wallets(program_id: Pubkey, accounts: Seq<AccountInfo>, lottery_id: u32)
    requires
        spec_process_reward_winner(program_id, accounts, lottery_id) is Ok,
    ensures
        ({
            let d = LotteryData::spec_unpack_unchecked(accounts[0].data@)->Ok_0;
            let e = spec_process_reward_winner(program_id, accounts, lottery_id)->Ok_0;
            &&& LotteryData::spec_unpack_unchecked(accounts[0].data@) is Ok && d.is_initialized
            &&& e.invocations.len() == 4
            &&& forall|i: int| 0 <= i < 4 ==> (#[trigger] e.invocations[i] matches Invocation::SystemShareTransfer { from, to, .. } && accounts[from as int].key == d.staking_pool_wallet && to < accounts.len())
            &&& e.invocations[0] matches Invocation::SystemShareTransfer { to, share, .. } && to == 2 && share == 9500
            &&& e.invocations[1] matches Invocation::SystemShareTransfer { to, share, .. } && accounts[to as int].key == d.rewards_wallet && share == 400
            &&& e.invocations[2] matches Invocation::SystemShareTransfer { to, share, .. } && accounts[to as int].key == d.slot_holders_rewards_wallet && share == 60
            &&& e.invocations[3] matches Invocation::SystemShareTransfer { to, share, .. } && accounts[to as int].key == d.sollotto_labs_wallet && share == 40
        }),
{
}

} // verus!

verus! {

/// A deposit counts what it moves: after a successful deposit the lottery
/// was initialized with the mint (1) and the staking pool wallet (4) given;
/// `amount` lamports go from the user (2) to that wallet, as many pool tokens
/// of that mint are minted to the user's token account (3), and the record
/// written back reads as the lottery with `amount` more staked.
pub proof fn law_deposit_counts_stake(program_id: Pubkey, accounts: Seq<AccountInfo>, amount: u64)
    requires
        !spec_deposit_panics(program_id, accounts, amount),
        spec_process_deposit(program_id, accounts, amount) is Ok,
    ensures
        ({
            let before = LotteryData::spec_unpack_unchecked(accounts[0].data@)->Ok_0;
            let e = spec_process_deposit(program_id, accounts, amount)->Ok_0;
            &&& LotteryData::spec_unpack_unchecked(accounts[0].data@) is Ok && before.is_initialized
            &&& accounts[1].key == before.staking_pool_token_mint
            &&& accounts[4].key == before.staking_pool_wallet
            &&& before.staking_pool_amount + amount <= u64::MAX
            &&& e.invocations[0] matches Invocation::SystemTransfer { from, to, lamports, .. } && from == 2
                && to == 4 && lamports == amount
            &&& e.invocations[1] matches Invocation::TokenMintTo { mint, destination, amount: minted, .. }
                && mint == 1 && destination == 3 && minted == amount
            &&& e.writes.len() == 1 && e.writes[0].0 == 0
            &&& LotteryData::spec_unpack_unchecked(e.writes[0].1) == Ok::<LotteryData, ProgramError>(
                LotteryData {
                    staking_pool_amount: (before.staking_pool_amount + amount) as u64,
                    ..before
                },
            )
        }),
{
    let before = LotteryData::spec_unpack_unchecked(accounts[0].data@)->Ok_0;
    LotteryData::law_unpack_pack(
        LotteryData { staking_pool_amount: (before.staking_pool_amount + amount) as u64, ..before },
    );
}

/// A lottery is initialized once: a successful `InitLottery` found the
/// record uninitialized and writes it back initialized, with nothing staked,
/// the mint (1) and the wallets given; another `InitLottery` over an account
/// that holds what it wrote does not succeed.
pub proof fn law_init_lottery_once(
    program_id: Pubkey,
    accounts: Seq<AccountInfo>,
    wallets: (Pubkey, Pubkey, Pubkey, Pubkey),
    again: Seq<AccountInfo>,
    other_wallets: (Pubkey, Pubkey, Pubkey, Pubkey),
)
    requires
        spec_process_init_lottery(program_id, accounts, wallets) is Ok,
        again.len() >= 1,
        again[0].data@ == spec_process_init_lottery(program_id, accounts, wallets)->Ok_0.writes[0].1,
    ensures
        ({
            let before = LotteryData::spec_unpack_unchecked(accounts[0].data@)->Ok_0;
            let e = spec_process_init_lottery(program_id, accounts, wallets)->Ok_0;
            &&& LotteryData::spec_unpack_unchecked(accounts[0].data@) is Ok && !before.is_initialized
            &&& e.writes.len() == 1 && e.writes[0].0 == 0
            &&& LotteryData::spec_unpack_unchecked(e.writes[0].1) matches Ok(after) && after.is_initialized
                && after.staking_pool_amount == 0 && after.staking_pool_token_mint == accounts[1].key
                && after.staking_pool_wallet == wallets.0 && after.rewards_wallet == wallets.1
                && after.slot_holders_rewards_wallet == wallets.2 && after.sollotto_labs_wallet == wallets.3
            &&& spec_process_init_lottery(program_id, again, other_wallets) is Err
        }),
{
    let before = LotteryData::spec_unpack_unchecked(accounts[0].data@)->Ok_0;
    LotteryData::law_unpack_pack(spec_initialized(before, accounts[1].key, wallets));
}

} // verus!

verus! {

/// An undeposit gives back no more than is staked: after a successful
/// undeposit the staking pool wallet (4), which is the lottery's, has signed,
/// `amount` is at most what the lottery counts as staked, `amount` pool
/// tokens of the lottery's mint (1) are burnt from the user's token account
/// (3), as many lamports go from that wallet to the user (2), and the record
/// written back reads as the lottery with `amount` less staked.
pub proof fn law_undeposit_releases_stake(program_id: Pubkey, accounts: Seq<AccountInfo>, amount: u64)
    requires
        spec_process_undeposit(program_id, accounts, amount) is Ok,
    ensures
        ({
            let before = LotteryData::spec_unpack_unchecked(accounts[0].data@)->Ok_0;
            let e = spec_process_undeposit(program_id, accounts, amount)->Ok_0;
            &&& LotteryData::spec_unpack_unchecked(accounts[0].data@) is Ok && before.is_initialized
            &&& accounts[4].is_signer && accounts[4].key == before.staking_pool_wallet
            &&& accounts[1].key == before.staking_pool_token_mint
            &&& amount <= before.staking_pool_amount
            &&& e.invocations[0] matches Invocation::TokenBurn { account, mint, authority, amount: burnt, .. }
                && account == 3 && mint == 1 && authority == 2 && burnt == amount
            &&& e.invocations[1] matches Invocation::SystemTransfer { from, to, lamports, .. } && from == 4
                && to == 2 && lamports == amount
            &&& e.writes.len() == 1 && e.writes[0].0 == 0
            &&& LotteryData::spec_unpack_unchecked(e.writes[0].1) == Ok::<LotteryData, ProgramError>(
                LotteryData {
                    staking_pool_amount: (before.staking_pool_amount - amount) as u64,
                    ..before
                },
            )
        }),
{
    let before = LotteryData::spec_unpack_unchecked(accounts[0].data@)->Ok_0;
    LotteryData::law_unpack_pack(
        LotteryData { staking_pool_amount: (before.staking_pool_amount - amount) as u64, ..before },
    );
}

} // verus!
