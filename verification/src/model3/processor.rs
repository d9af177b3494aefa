//! The launchpad lottery's processor.
use vstd::prelude::*;
use crate::program::{
    Pubkey, ProgramError, AccountInfo, Effects, EffectsView, Invocation, spec_program_key,
    spec_rent_exempt, spec_rent_overflows, rent_is_exempt, rent_overflows, result_view, spec_calls, spec_calls_then_write, share_total,
};
use crate::token::{TokenAccount, TokenMint, spec_token_account_unpack, spec_token_mint_unpack, token_account_unpack, token_mint_unpack};
use crate::processor::{spec_check_program_account, check_program_account};
use crate::model3::error::LotteryError;
use crate::model3::instruction::LotteryInstruction;
use crate::model5::state::LotteryResultData;

verus! {

/// The launchpad lottery's error as a runtime error.
pub open spec fn lottery_err(e: LotteryError) -> ProgramError {
    e.spec_into()
}

/// The checks of `Deposit` and `Unpool`: seven accounts, of which the user's
/// wallet (0) and the staking pool authority (1) have signed.
pub open spec fn spec_pool_checks(accounts: Seq<AccountInfo>) -> Result<(), ProgramError> {
    if accounts.len() < 7 {
        Err(ProgramError::NotEnoughAccountKeys)
    } else if !accounts[0].is_signer || !accounts[1].is_signer {
        Err(ProgramError::MissingRequiredSignature)
    } else {
        Ok(())
    }
}

/// `Deposit`: `amount` of the user's tokens (2) go to the staking pool's
/// token account (4), by the user's authority (0), and as many staking pool
/// tokens of the mint (5) are minted to the user's pool token account (3), by
/// the pool's authority (1).
pub open spec fn spec_process_deposit(accounts: Seq<AccountInfo>, amount: u64) -> Result<
    EffectsView,
    ProgramError,
> {
    match spec_pool_checks(accounts) {
        Err(e) => Err(e),
        Ok(_) => Ok(
            spec_calls(
                seq![
                    Invocation::TokenTransfer { token_program: 6, source: 2, destination: 4, authority: 0, amount },
                    Invocation::TokenMintTo {
                        token_program: 6,
                        mint: 5,
                        destination: 3,
                        authority: 1,
                        multisig_signer: None,
                        amount,
                    },
                ],
            ),
        ),
    }
}

/// `Unpool`: `amount` staking pool tokens are burnt from the user's pool
/// token account (3), by the user's authority (0), and as many tokens go from
/// the staking pool's token account (4) back to the user's (2), by the pool's
/// authority (1).
pub open spec fn spec_process_unpool(accounts: Seq<AccountInfo>, amount: u64) -> Result<
    EffectsView,
    ProgramError,
> {
    match spec_pool_checks(accounts) {
        Err(e) => Err(e),
        Ok(_) => Ok(
            spec_calls(
                seq![
                    Invocation::TokenBurn { token_program: 6, account: 3, mint: 5, authority: 0, amount },
                    Invocation::TokenTransfer { token_program: 6, source: 4, destination: 2, authority: 1, amount },
                ],
            ),
        ),
    }
}

/// The check of the participants' account pairs from the pair `k` on: each
/// first account is a token account of `token_mint`, each second one a token
/// account of `staking_mint` that holds some pool tokens. The first failure
/// decides the error.
pub open spec fn spec_check_participants(
    participants: Seq<AccountInfo>,
    token_mint: Pubkey,
    staking_mint: Pubkey,
    k: nat,
) -> Result<(), ProgramError>
    decreases participants.len() - 2 * k,
{
    if participants.len() < 2 * k + 2 {
        Ok(())
    } else {
        match spec_token_account_unpack(participants[2 * k as int].data@) {
            Err(e) => Err(e),
            Ok(user) => if user.mint != token_mint {
                Err(lottery_err(LotteryError::InvalidParticipantsAccounts))
            } else {
                match spec_token_account_unpack(participants[2 * k + 1 as int].data@) {
                    Err(e) => Err(e),
                    Ok(stake) => if stake.amount == 0 || stake.mint != staking_mint {
                        Err(lottery_err(LotteryError::InvalidParticipantsAccounts))
                    } else {
                        spec_check_participants(participants, token_mint, staking_mint, k + 1)
                    },
                }
            },
        }
    }
}

/// The participants' accounts: those after the first eight.
pub open spec fn participants(accounts: Seq<AccountInfo>) -> Seq<AccountInfo> {
    accounts.subrange(8, accounts.len() as int)
}

/// The checks of `RewardWinner`, in the order they are made, and the mint and
/// the prize pool account they read: eight accounts; the prize pool owner (0)
/// has signed; the result account (4) belongs to the program and is
/// rent-exempt for a result under the rent sysvar (7); the mint (3) and the
/// prize pool account (1) are SPL Token records and the pool holds tokens;
/// the participants come in pairs, the random number does not pass the count
/// of pairs (as the count's low 32 bits give it), and every pair is valid.
pub open spec fn spec_reward_checks(
    program_id: Pubkey,
    accounts: Seq<AccountInfo>,
    random_number: u32,
) -> Result<(TokenMint, TokenAccount), ProgramError> {
    if accounts.len() < 8 {
        Err(ProgramError::NotEnoughAccountKeys)
    } else if !accounts[0].is_signer {
        Err(ProgramError::MissingRequiredSignature)
    } else if accounts[4].owner != program_id {
        Err(ProgramError::IncorrectProgramId)
    } else {
        match spec_rent_exempt(accounts[7], accounts[4].lamports, 36) {
            Err(e) => Err(e),
            Ok(false) => Err(ProgramError::AccountNotRentExempt),
            Ok(true) => match spec_token_mint_unpack(accounts[3].data@) {
                Err(e) => Err(e),
                Ok(mint) => match spec_token_account_unpack(accounts[1].data@) {
                    Err(e) => Err(e),
                    Ok(pool) => {
                        let n = participants(accounts).len();
                        if pool.amount == 0 {
                            Err(lottery_err(LotteryError::EmptyPrizePool))
                        } else if n % 2 != 0 {
                            Err(lottery_err(LotteryError::InvalidParticipantsAccounts))
                        } else if random_number > (n as usize as u32) / 2 {
                            Err(lottery_err(LotteryError::InvalidRandomNumber))
                        } else {
                            match spec_check_participants(
                                participants(accounts),
                                accounts[3].key,
                                accounts[5].key,
                                0,
                            ) {
                                Err(e) => Err(e),
                                Ok(_) => Ok((mint, pool)),
                            }
                        }
                    },
                },
            },
        }
    }
}

/// The inputs on which `RewardWinner` panics: its checks before the rent
/// pass and asking the rent sysvar (7) for a result's minimum balance
/// overflows; or all its checks pass and the random number names no pair,
/// that is, it equals the count of pairs.
pub open spec fn spec_reward_winner_panics(
    program_id: Pubkey,
    accounts: Seq<AccountInfo>,
    random_number: u32,
) -> bool {
    ||| spec_reward_rent_panics(program_id, accounts)
    ||| spec_reward_checks(program_id, accounts, random_number) is Ok && 2 * random_number
        >= participants(accounts).len()
}

/// The inputs on which the rent check of `RewardWinner` panics: the checks
/// before it pass and asking the rent sysvar (7) for a result's minimum
/// balance overflows.
pub open spec fn spec_reward_rent_panics(program_id: Pubkey, accounts: Seq<AccountInfo>) -> bool {
    &&& accounts.len() >= 8
    &&& accounts[0].is_signer
    &&& accounts[4].owner == program_id
    &&& spec_rent_overflows(accounts[7].key, accounts[7].data@, 36)
}

/// The payments of a reward, in ten-thousandths of the pool's `amount` of
/// tokens with `decimals` decimals, out of the prize pool account (1) by its
/// owner (0): 70% to the drawn participant's token account (`winner`), 30% to
/// the charity's token account (2).
pub open spec fn spec_reward_payments(winner: usize, amount: u64, decimals: u8) -> Seq<Invocation> {
    seq![
        Invocation::TokenShareTransfer {
            token_program: 6,
            source: 1,
            destination: winner,
            authority: 0,
            pool: amount,
            decimals,
            share: 7000,
        },
        Invocation::TokenShareTransfer {
            token_program: 6,
            source: 1,
            destination: 2,
            authority: 0,
            pool: amount,
            decimals,
            share: 3000,
        },
    ]
}

/// `RewardWinner`: after the checks, the participant drawn is the first
/// account of the pair `random_number`, at position `8 + 2 * random_number`;
/// the prize is shared out and the result account records the lottery and
/// that account's address.
pub open spec fn spec_process_reward_winner(
    program_id: Pubkey,
    accounts: Seq<AccountInfo>,
    lottery_id: u32,
    random_number: u32,
) -> Result<EffectsView, ProgramError> {
    match spec_reward_checks(program_id, accounts, random_number) {
        Err(e) => Err(e),
        Ok((mint, pool)) => {
            let winner = 8 + 2 * random_number;
            Ok(
                spec_calls_then_write(
                    spec_reward_payments(winner as usize, pool.amount, mint.decimals),
                    4,
                    (LotteryResultData { lottery_id, winner: accounts[winner].key }).spec_pack(),
                ),
            )
        },
    }
}

/// What processing an instruction gives: the program id is checked, the
/// instruction read and handled.
pub open spec fn spec_process(
    program_id: Pubkey,
    accounts: Seq<AccountInfo>,
    instruction_data: Seq<u8>,
) -> Result<EffectsView, ProgramError> {
    match spec_check_program_account(program_id) {
        Err(e) => Err(e),
        Ok(_) => match LotteryInstruction::spec_unpack(instruction_data) {
            Err(e) => Err(e),
            Ok(LotteryInstruction::Deposit { amount }) => spec_process_deposit(accounts, amount),
            Ok(LotteryInstruction::Unpool { amount }) => spec_process_unpool(accounts, amount),
            Ok(LotteryInstruction::RewardWinner { lottery_id, random_number }) => spec_process_reward_winner(
                program_id,
                accounts,
                lottery_id,
                random_number,
            ),
        },
    }
}

/// The inputs on which processing panics, for the lottery program's id:
/// instruction bytes that fall short,
/// or a reward that panics.
pub open spec fn spec_process_panics(
    program_id: Pubkey,
    accounts: Seq<AccountInfo>,
    instruction_data: Seq<u8>,
) -> bool {
    ||| program_id == spec_program_key() && LotteryInstruction::spec_unpack_panics(instruction_data)
    ||| program_id == spec_program_key() && (LotteryInstruction::spec_unpack(instruction_data) matches Ok(
        LotteryInstruction::RewardWinner { random_number, .. },
    ) && spec_reward_winner_panics(program_id, accounts, random_number))
}

/// Program state handler.
pub struct Processor;

impl Processor {
    /// Processes an instruction where processing it does not panic, and
    /// answers `None` where it would.
    pub fn process_checked(program_id: &Pubkey, accounts: &[AccountInfo], instruction_data: &[u8]) -> (r:
        Option<Result<Effects, ProgramError>>)
        ensures
            r is None <==> spec_process_panics(*program_id, accounts@, instruction_data@),
            r matches Some(x) ==> result_view(x) == spec_process(*program_id, accounts@, instruction_data@),
    {
        if Self::process_panics(program_id, accounts, instruction_data) {
            None
        } else {
            Some(Self::process(program_id, accounts, instruction_data))
        }
    }

    /// Processes an instruction: what it writes and calls, or why it fails.
    pub fn process(program_id: &Pubkey, accounts: &[AccountInfo], instruction_data: &[u8]) -> (r:
        Result<Effects, ProgramError>)
        requires
            !spec_process_panics(*program_id, accounts@, instruction_data@),
        ensures
            result_view(r) == spec_process(*program_id, accounts@, instruction_data@),
    {
        match check_program_account(program_id) {
            Ok(()) => {},
            Err(e) => return Err(e),
        }
        let instruction = match LotteryInstruction::unpack(instruction_data) {
            Ok(ix) => ix,
            Err(e) => return Err(e),
        };
        match instruction {
            LotteryInstruction::Deposit { amount } => Self::process_deposit(program_id, accounts, amount),
            LotteryInstruction::Unpool { amount } => Self::process_unpool(program_id, accounts, amount),
            LotteryInstruction::RewardWinner { lottery_id, random_number } => Self::process_reward_winner(
                program_id,
                accounts,
                lottery_id,
                random_number,
            ),
        }
    }

    /// The checks of a deposit or an unpool.
    fn pool_checks(accounts: &[AccountInfo]) -> (r: Result<(), ProgramError>)
        ensures
            r == spec_pool_checks(accounts@),
    {
        if accounts.len() < 7 {
            return Err(ProgramError::NotEnoughAccountKeys);
        }
        if !accounts[0].is_signer {
            return Err(ProgramError::MissingRequiredSignature);
        }
        if !accounts[1].is_signer {
            return Err(ProgramError::MissingRequiredSignature);
        }
        Ok(())
    }

    /// Stakes `amount` of the user's tokens for as many staking pool tokens.
    pub fn process_deposit(_program_id: &Pubkey, accounts: &[AccountInfo], amount: u64) -> (r:
        Result<Effects, ProgramError>)
        ensures
            result_view(r) == spec_process_deposit(accounts@, amount),
    {
        match Self::pool_checks(accounts) {
            Ok(()) => {},
            Err(e) => return Err(e),
        }
        let mut invocations: Vec<Invocation> = Vec::new();
        invocations.push(
            Invocation::TokenTransfer { token_program: 6, source: 2, destination: 4, authority: 0, amount },
        );
        invocations.push(
            Invocation::TokenMintTo {
                token_program: 6,
                mint: 5,
                destination: 3,
                authority: 1,
                multisig_signer: None,
                amount,
            },
        );
        assert(invocations@ =~= seq![
            Invocation::TokenTransfer { token_program: 6, source: 2, destination: 4, authority: 0, amount },
            Invocation::TokenMintTo {
                token_program: 6,
                mint: 5,
                destination: 3,
                authority: 1,
                multisig_signer: None,
                amount,
            },
        ]);
        Ok(Effects::calls(invocations))
    }

    /// Gives back `amount` staked tokens for as many staking pool tokens.
    pub fn process_unpool(_program_id: &Pubkey, accounts: &[AccountInfo], amount: u64) -> (r:
        Result<Effects, ProgramError>)
        ensures
            result_view(r) == spec_process_unpool(accounts@, amount),
    {
        match Self::pool_checks(accounts) {
            Ok(()) => {},
            Err(e) => return Err(e),
        }
        let mut invocations: Vec<Invocation> = Vec::new();
        invocations.push(Invocation::TokenBurn { token_program: 6, account: 3, mint: 5, authority: 0, amount });
        invocations.push(
            Invocation::TokenTransfer { token_program: 6, source: 4, destination: 2, authority: 1, amount },
        );
        assert(invocations@ =~= seq![
            Invocation::TokenBurn { token_program: 6, account: 3, mint: 5, authority: 0, amount },
            Invocation::TokenTransfer { token_program: 6, source: 4, destination: 2, authority: 1, amount },
        ]);
        Ok(Effects::calls(invocations))
    }

    /// Checks the participants' account pairs, those after the first eight
    /// accounts, against the token mint and the staking pool token mint.
    fn check_participants(accounts: &[AccountInfo], token_mint: &Pubkey, staking_mint: &Pubkey) -> (r:
        Result<(), ProgramError>)
        requires
            accounts.len() >= 8,
            (accounts.len() - 8) % 2 == 0,
        ensures
            r == spec_check_participants(participants(accounts@), *token_mint, *staking_mint, 0),
    {
        let ghost parts = participants(accounts@);
        let mut i: usize = 8;
        while i < accounts.len()
            invariant
                8 <= i <= accounts.len(),
                (i - 8) % 2 == 0,
                (accounts.len() - 8) % 2 == 0,
                parts == participants(accounts@),
                spec_check_participants(parts, *token_mint, *staking_mint, 0)
                    == spec_check_participants(parts, *token_mint, *staking_mint, ((i - 8) / 2) as nat),
            decreases accounts.len() - i,
        {
            let ghost k: nat = ((i - 8) / 2) as nat;
            assert(parts[2 * k as int] == accounts@[i as int]);
            assert(parts[2 * k + 1 as int] == accounts@[i + 1]);
            let user = match token_account_unpack(accounts[i].data.as_slice()) {
                Ok(a) => a,
                Err(e) => return Err(e),
            };
            if user.mint != *token_mint {
                return Err(ProgramError::from(LotteryError::InvalidParticipantsAccounts));
            }
            let stake = match token_account_unpack(accounts[i + 1].data.as_slice()) {
                Ok(a) => a,
                Err(e) => return Err(e),
            };
            if stake.amount == 0 {
                return Err(ProgramError::from(LotteryError::InvalidParticipantsAccounts));
            }
            if stake.mint != *staking_mint {
                return Err(ProgramError::from(LotteryError::InvalidParticipantsAccounts));
            }
            i = i + 2;
        }
        Ok(())
    }

    /// The checks of a reward, and the mint and the prize pool account they
    /// read.
    fn reward_checks(program_id: &Pubkey, accounts: &[AccountInfo], random_number: u32) -> (r: Result<
        (TokenMint, TokenAccount),
        ProgramError,
    >)
        requires
            !spec_reward_rent_panics(*program_id, accounts@),
        ensures
            r == spec_reward_checks(*program_id, accounts@, random_number),
    {
        if accounts.len() < 8 {
            return Err(ProgramError::NotEnoughAccountKeys);
        }
        let token_prize_pool_owner = &accounts[0];
        let token_prize_pool_account = &accounts[1];
        let token_mint = &accounts[3];
        let lottery_result_account = &accounts[4];
        let staking_pool_token_mint = &accounts[5];
        let rent_info = &accounts[7];
        if !token_prize_pool_owner.is_signer {
            return Err(ProgramError::MissingRequiredSignature);
        }
        if lottery_result_account.owner != *program_id {
            return Err(ProgramError::IncorrectProgramId);
        }
        match rent_is_exempt(rent_info, lottery_result_account.lamports, LotteryResultData::LEN) {
            Err(e) => return Err(e),
            Ok(false) => return Err(ProgramError::AccountNotRentExempt),
            Ok(true) => {},
        }
        let token_mint_data = match token_mint_unpack(token_mint.data.as_slice()) {
            Ok(m) => m,
            Err(e) => return Err(e),
        };
        let token_prize_pool_account_data = match token_account_unpack(
            token_prize_pool_account.data.as_slice(),
        ) {
            Ok(a) => a,
            Err(e) => return Err(e),
        };
        if token_prize_pool_account_data.amount == 0 {
            return Err(ProgramError::from(LotteryError::EmptyPrizePool));
        }
        let participants_len: usize = accounts.len() - 8;
        if participants_len % 2 != 0 {
            return Err(ProgramError::from(LotteryError::InvalidParticipantsAccounts));
        }
        if random_number > (participants_len as u32) / 2 {
            return Err(ProgramError::from(LotteryError::InvalidRandomNumber));
        }
        match Self::check_participants(accounts, &token_mint.key, &staking_pool_token_mint.key) {
            Ok(()) => Ok((token_mint_data, token_prize_pool_account_data)),
            Err(e) => Err(e),
        }
    }

    /// Draws the winner among the participants by `random_number`, shares out
    /// the token prize pool and records the result.
    pub fn process_reward_winner(
        program_id: &Pubkey,
        accounts: &[AccountInfo],
        lottery_id: u32,
        random_number: u32,
    ) -> (r: Result<Effects, ProgramError>)
        requires
            !spec_reward_winner_panics(*program_id, accounts@, random_number),
        ensures
            result_view(r) == spec_process_reward_winner(*program_id, accounts@, lottery_id, random_number),
    {
        let (token_mint_data, token_prize_pool_account_data) = match Self::reward_checks(
            program_id,
            accounts,
            random_number,
        ) {
            Ok(checked) => checked,
            Err(e) => return Err(e),
        };
        let participants_len: usize = accounts.len() - 8;
        assert(2 * random_number < participants_len);
        let winner_index: usize = 8 + (random_number * 2) as usize;
        let winner_key = accounts[winner_index].key;
        let amount = token_prize_pool_account_data.amount;
        let decimals = token_mint_data.decimals;
        let mut invocations: Vec<Invocation> = Vec::new();
        invocations.push(
            Invocation::TokenShareTransfer {
                token_program: 6,
                source: 1,
                destination: winner_index,
                authority: 0,
                pool: amount,
                decimals,
                share: 7000,
            },
        );
        invocations.push(
            Invocation::TokenShareTransfer {
                token_program: 6,
                source: 1,
                destination: 2,
                authority: 0,
                pool: amount,
                decimals,
                share: 3000,
            },
        );
        assert(invocations@ =~= spec_reward_payments(winner_index, amount, decimals));
        let result = LotteryResultData { lottery_id, winner: winner_key };
        Ok(Effects::calls_then_write(invocations, 4, result.pack_to_vec()))
    }

    /// Whether drawing the winner by `random_number` over `accounts` would
    /// panic.
    pub fn reward_winner_panics(program_id: &Pubkey, accounts: &[AccountInfo], random_number: u32) -> (b:
        bool)
        ensures
            b == spec_reward_winner_panics(*program_id, accounts@, random_number),
    {
        if accounts.len() >= 8 && accounts[0].is_signer && accounts[4].owner == *program_id
            && rent_overflows(&accounts[7], LotteryResultData::LEN) {
            return true;
        }
        match Self::reward_checks(program_id, accounts, random_number) {
            Ok(_) => (random_number as usize) * 2 >= accounts.len() - 8,
            Err(_) => false,
        }
    }

    /// Whether processing `instruction_data` over `accounts` would panic.
    pub fn process_panics(program_id: &Pubkey, accounts: &[AccountInfo], instruction_data: &[u8]) -> (b:
        bool)
        ensures
            b == spec_process_panics(*program_id, accounts@, instruction_data@),
    {
        if check_program_account(program_id).is_err() {
            return false;
        }
        if LotteryInstruction::unpack_panics(instruction_data) {
            return true;
        }
        match LotteryInstruction::unpack(instruction_data) {
            Ok(LotteryInstruction::RewardWinner { random_number, .. }) => Self::reward_winner_panics(
                program_id,
                accounts,
                random_number,
            ),
            _ => false,
        }
    }
}

} // verus!

verus! {

/// An unpool undoes a deposit of the same amount: the two succeed on the
/// same accounts; the unpool sends the tokens back from where the deposit put
/// them to where it took them, and burns, from the same account and of the
/// same mint, the staking pool tokens that the deposit minted.
pub proof fn law_unpool_undoes_deposit(accounts: Seq<AccountInfo>, amount: u64)
    ensures
        spec_process_deposit(accounts, amount) is Ok <==> spec_process_unpool(accounts, amount) is Ok,
        spec_process_deposit(accounts, amount) matches Ok(dep) ==> {
            let unp = spec_process_unpool(accounts, amount)->Ok_0;
            &&& dep.invocations[0] matches Invocation::TokenTransfer { source, destination, amount: moved, .. }
            &&& unp.invocations[1] matches Invocation::TokenTransfer { source: back_from, destination: back_to, amount: returned, .. }
            &&& back_from == destination && back_to == source && returned == moved
            &&& dep.invocations[1] matches Invocation::TokenMintTo { mint, destination: holder, amount: minted, .. }
            &&& unp.invocations[0] matches Invocation::TokenBurn { account, mint: burnt_mint, amount: burnt, .. }
            &&& account == holder && burnt_mint == mint && burnt == minted
        },
{
}

/// A successful reward records the lottery and the participant drawn: the
/// result account (4) is the one account written, and what it holds reads
/// back as the lottery's id and the address of the account paid the winner's
/// share, which is the first account of a participant's pair.
pub proof fn law_reward_records_winner(
    program_id: Pubkey,
    accounts: Seq<AccountInfo>,
    lottery_id: u32,
    random_number: u32,
)
    requires
        accounts.len() <= usize::MAX,
        !spec_reward_winner_panics(program_id, accounts, random_number),
        spec_process_reward_winner(program_id, accounts, lottery_id, random_number) is Ok,
    ensures
        ({
            let e = spec_process_reward_winner(program_id, accounts, lottery_id, random_number)->Ok_0;
            &&& e.writes.len() == 1
            &&& e.writes[0].0 == 4
            &&& e.invocations[0] matches Invocation::TokenShareTransfer { destination, .. }
            &&& destination == 8 + 2 * random_number && destination < accounts.len()
            &&& LotteryResultData::spec_unpack_unchecked(e.writes[0].1) == Ok::<
                LotteryResultData,
                ProgramError,
            >(LotteryResultData { lottery_id, winner: accounts[destination as int].key })
        }),
{
    let e = spec_process_reward_winner(program_id, accounts, lottery_id, random_number)->Ok_0;
    let winner = 8 + 2 * random_number;
    LotteryResultData::law_unpack_pack(LotteryResultData { lottery_id, winner: accounts[winner].key });
}

/// A successful reward pays out the whole prize pool: its calls' shares sum
/// to ten thousand ten-thousandths, each of the pool's amount of tokens.
pub proof fn law_reward_pays_whole_prize(
    program_id: Pubkey,
    accounts: Seq<AccountInfo>,
    lottery_id: u32,
    random_number: u32,
)
    requires
        spec_process_reward_winner(program_id, accounts, lottery_id, random_number) is Ok,
    ensures
        ({
            let e = spec_process_reward_winner(program_id, accounts, lottery_id, random_number)->Ok_0;
            &&& share_total(e.invocations) == 10000
            &&& forall|i: int| 0 <= i < e.invocations.len() ==> (#[trigger] e.invocations[i] matches Invocation::TokenShareTransfer { source, pool, .. } && source == 1 && pool == spec_token_account_unpack(accounts[1].data@)->Ok_0.amount)
        }),
{
    let e = spec_process_reward_winner(program_id, accounts, lottery_id, random_number)->Ok_0;
    reveal_with_fuel(share_total, 3);
    assert(e.invocations.drop_last().drop_last() =~= Seq::<Invocation>::empty());
}

} // verus!

verus! {

/// A pair that the participants' check passed over is a valid one: in the
/// pair `j`, at or after the pair `k` where the check began, the first
/// account reads as a token account of `token_mint` and the second as a
/// token account of `staking_mint` that holds some pool tokens.
proof fn lemma_checked_pair_stakes(
    participants: Seq<AccountInfo>,
    token_mint: Pubkey,
    staking_mint: Pubkey,
    k: nat,
    j: nat,
)
    requires
        k <= j,
        2 * j + 2 <= participants.len(),
        spec_check_participants(participants, token_mint, staking_mint, k) is Ok,
    ensures
        spec_token_account_unpack(participants[2 * j as int].data@) matches Ok(user) && user.mint
            == token_mint,
        spec_token_account_unpack(participants[2 * j + 1 as int].data@) matches Ok(stake) && stake.mint
            == staking_mint && stake.amount > 0,
    decreases j - k,
{
    if k < j {
        lemma_checked_pair_stakes(participants, token_mint, staking_mint, k + 1, j);
    }
}

/// Only stakers take part: after a successful reward, in every participant's
/// pair the first account reads as a token account of the lottery's token
/// mint (3) and the second as a token account of the staking pool token
/// mint (5) that holds some staking pool tokens.
pub proof fn law_reward_participants_stake(
    program_id: Pubkey,
    accounts: Seq<AccountInfo>,
    lottery_id: u32,
    random_number: u32,
)
    requires
        spec_process_reward_winner(program_id, accounts, lottery_id, random_number) is Ok,
    ensures
        forall|i: int|
            8 <= i < accounts.len() && (i - 8) % 2 == 0 ==> (spec_token_account_unpack(
                #[trigger] accounts[i].data@,
            ) matches Ok(user) && user.mint == accounts[3].key),
        forall|i: int|
            8 <= i < accounts.len() && (i - 8) % 2 == 1 ==> (spec_token_account_unpack(
                #[trigger] accounts[i].data@,
            ) matches Ok(stake) && stake.mint == accounts[5].key && stake.amount > 0),
{
    let parts = participants(accounts);
    assert forall|i: int|
        8 <= i < accounts.len() && (i - 8) % 2 == 0 implies (spec_token_account_unpack(
        #[trigger] accounts[i].data@,
    ) matches Ok(user) && user.mint == accounts[3].key) by {
        let j: nat = ((i - 8) / 2) as nat;
        assert(parts[2 * j as int] == accounts[i]);
        lemma_checked_pair_stakes(parts, accounts[3].key, accounts[5].key, 0, j);
    }
    assert forall|i: int|
        8 <= i < accounts.len() && (i - 8) % 2 == 1 implies (spec_token_account_unpack(
        #[trigger] accounts[i].data@,
    ) matches Ok(stake) && stake.mint == accounts[5].key && stake.amount > 0) by {
        let j: nat = ((i - 8) / 2) as nat;
        assert(parts[2 * j + 1 as int] == accounts[i]);
        lemma_checked_pair_stakes(parts, accounts[3].key, accounts[5].key, 0, j);
    }
}

} // verus!

verus! {

/// How a successful reward shares out the prize pool account's (1) tokens:
/// 70% to the first account of the pair drawn and 30% to the charity's token
/// account (2), in that order, in the mint's (3) decimals.
pub proof fn law_reward_share_by_payee(
    program_id: Pubkey,
    accounts: Seq<AccountInfo>,
    lottery_id: u32,
    random_number: u32,
)
    requires
        accounts.len() <= usize::MAX,
        spec_process_reward_winner(program_id, accounts, lottery_id, random_number) is Ok,
    ensures
        ({
            let e = spec_process_reward_winner(program_id, accounts, lottery_id, random_number)->Ok_0;
            &&& e.invocations.len() == 2
            &&& e.invocations[0] matches Invocation::TokenShareTransfer { destination, share, decimals, .. }
                && destination == 8 + 2 * random_number && share == 7000 && decimals
                == spec_token_mint_unpack(accounts[3].data@)->Ok_0.decimals
            &&& e.invocations[1] matches Invocation::TokenShareTransfer { destination, share, decimals, .. }
                && destination == 2 && share == 3000 && decimals == spec_token_mint_unpack(
                accounts[3].data@,
            )->Ok_0.decimals
        }),
{
}

} // verus!

verus! {

/// A deposit stakes what it takes: after a successful deposit the user's
/// wallet (0) and the staking pool authority (1) have signed, `amount` of the
/// user's tokens (2) go to the staking pool's token account (4), and as many
/// staking pool tokens of the mint (5) are minted to the user's pool token
/// account (3).
pub proof fn law_deposit_mints_what_it_takes(accounts: Seq<AccountInfo>, amount: u64)
    requires
        spec_process_deposit(accounts, amount) is Ok,
    ensures
        ({
            let e = spec_process_deposit(accounts, amount)->Ok_0;
            &&& accounts[0].is_signer && accounts[1].is_signer
            &&& e.writes.len() == 0 && e.invocations.len() == 2
            &&& e.invocations[0] matches Invocation::TokenTransfer { source, destination, authority, amount: moved, .. }
                && source == 2 && destination == 4 && authority == 0 && moved == amount
            &&& e.invocations[1] matches Invocation::TokenMintTo { mint, destination, authority, amount: minted, .. }
                && mint == 5 && destination == 3 && authority == 1 && minted == amount
        }),
{
}

/// A reward is drawn only by the prize pool's owner and from a prize: after
/// a successful reward the prize pool owner (0) has signed and the prize
/// pool account (1) holds tokens of the mint (3), whose amount is what is
/// shared out.
pub proof fn law_reward_needs_prize(
    program_id: Pubkey,
    accounts: Seq<AccountInfo>,
    lottery_id: u32,
    random_number: u32,
)
    requires
        spec_process_reward_winner(program_id, accounts, lottery_id, random_number) is Ok,
    ensures
        accounts.len() >= 8,
        accounts[0].is_signer,
        spec_token_account_unpack(accounts[1].data@) matches Ok(pool) && pool.amount > 0,
        spec_token_mint_unpack(accounts[3].data@) is Ok,
{
}

} // verus!

verus! {

/// An unpool gives back what it burns: after a successful unpool the user's
/// wallet (0) and the staking pool authority (1) have signed, `amount`
/// staking pool tokens of the mint (5) are burnt from the user's pool token
/// account (3), and as many tokens go from the staking pool's token account
/// (4) back to the user's (2).
pub proof fn law_unpool_returns_what_it_burns(accounts: Seq<AccountInfo>, amount: u64)
    requires
        spec_process_unpool(accounts, amount) is Ok,
    ensures
        ({
            let e = spec_process_unpool(accounts, amount)->Ok_0;
            &&& accounts[0].is_signer && accounts[1].is_signer
            &&& e.writes.len() == 0 && e.invocations.len() == 2
            &&& e.invocations[0] matches Invocation::TokenBurn { account, mint, authority, amount: burnt, .. }
                && account == 3 && mint == 5 && authority == 0 && burnt == amount
            &&& e.invocations[1] matches Invocation::TokenTransfer { source, destination, authority, amount: moved, .. }
                && source == 4 && destination == 2 && authority == 1 && moved == amount
        }),
{
}

} // verus!
