//! The lifetime lottery's processor.
use vstd::prelude::*;
use crate::program::{
    Pubkey, ProgramError, AccountInfo, Effects, EffectsView, Invocation, spec_program_key,
    spec_rent_exempt, spec_rent_overflows, rent_is_exempt, rent_overflows, result_view, spec_calls_then_write, share_total,
};
use crate::token::{spec_token_account_unpack, spec_token_mint_unpack, token_account_unpack, token_mint_unpack};
use crate::processor::{spec_check_program_account, check_program_account};
use crate::model4::error::LotteryError;
use crate::model4::instruction::LotteryInstruction;
use crate::model5::state::LotteryResultData;

verus! {

/// The lifetime lottery's error as a runtime error.
pub open spec fn lottery_err(e: LotteryError) -> ProgramError {
    e.spec_into()
}

/// The participants' accounts: those after the first nine.
pub open spec fn participants(accounts: Seq<AccountInfo>) -> Seq<AccountInfo> {
    accounts.subrange(9, accounts.len() as int)
}

/// The check of the participants' account pairs from the pair `k` on: each
/// second account is a token account of `ticket_mint`, owned by the first
/// account, that holds some lifetime tickets. The first failure decides the
/// error.
pub open spec fn spec_check_participants(participants: Seq<AccountInfo>, ticket_mint: Pubkey, k: nat) -> Result<
    (),
    ProgramError,
>
    decreases participants.len() - 2 * k,
{
    if participants.len() < 2 * k + 2 {
        Ok(())
    } else {
        match spec_token_account_unpack(participants[2 * k + 1 as int].data@) {
            Err(e) => Err(e),
            Ok(ticket) => if ticket.amount == 0 || ticket.owner != participants[2 * k as int].key
                || ticket.mint != ticket_mint {
                Err(lottery_err(LotteryError::InvalidParticipantsAccounts))
            } else {
                spec_check_participants(participants, ticket_mint, k + 1)
            },
        }
    }
}

/// The checks of `RewardWinner`, in the order they are made: nine accounts;
/// the prize pool wallet (0) and the ticket owner (5) have signed; the result account (4) belongs to
/// the program; the lifetime ticket mint (6) is an SPL Token mint whose
/// authority is the ticket owner (5); the result account is rent-exempt for a
/// result under the rent sysvar (8); the prize pool holds lamports; the
/// participants come in pairs, the random number does not pass the count of
/// pairs (as the count's low 32 bits give it), and every pair is valid.
pub open spec fn spec_reward_checks(
    program_id: Pubkey,
    accounts: Seq<AccountInfo>,
    random_number: u32,
) -> Result<(), ProgramError> {
    if accounts.len() < 9 {
        Err(ProgramError::NotEnoughAccountKeys)
    } else if !accounts[0].is_signer || !accounts[5].is_signer {
        Err(ProgramError::MissingRequiredSignature)
    } else if accounts[4].owner != program_id {
        Err(ProgramError::IncorrectProgramId)
    } else {
        match spec_token_mint_unpack(accounts[6].data@) {
            Err(e) => Err(e),
            Ok(mint) => if mint.mint_authority != Some(accounts[5].key) {
                Err(lottery_err(LotteryError::InvalidLifetimeTicketOwner))
            } else {
                match spec_rent_exempt(accounts[8], accounts[4].lamports, 36) {
                    Err(e) => Err(e),
                    Ok(false) => Err(ProgramError::AccountNotRentExempt),
                    Ok(true) => {
                        let n = participants(accounts).len();
                        if accounts[0].lamports == 0 {
                            Err(lottery_err(LotteryError::EmptyPrizePool))
                        } else if n % 2 != 0 {
                            Err(lottery_err(LotteryError::InvalidParticipantsAccounts))
                        } else if random_number > (n as usize as u32) / 2 {
                            Err(lottery_err(LotteryError::InvalidRandomNumber))
                        } else {
                            spec_check_participants(participants(accounts), accounts[6].key, 0)
                        }
                    },
                }
            },
        }
    }
}

/// The inputs on which `RewardWinner` panics: its checks before the rent
/// pass and asking the rent sysvar (8) for a result's minimum balance
/// overflows; or all its checks pass and the random number names no pair,
/// that is, it equals the count of pairs.
pub open spec fn spec_reward_winner_panics(
    program_id: Pubkey,
    accounts: Seq<AccountInfo>,
    random_number: u32,
) -> bool {
    ||| spec_reward_rent_panics(program_id, accounts)
    ||| spec_reward_checks(program_id, accounts, random_number) is Ok && 2 * random_number
        >= participants(accounts).len()
}

/// The inputs on which the rent check of `RewardWinner` panics: the checks
/// before it pass and asking the rent sysvar (8) for a result's minimum
/// balance overflows.
pub open spec fn spec_reward_rent_panics(program_id: Pubkey, accounts: Seq<AccountInfo>) -> bool {
    &&& accounts.len() >= 9
    &&& accounts[0].is_signer
    &&& accounts[5].is_signer
    &&& accounts[4].owner == program_id
    &&& spec_token_mint_unpack(accounts[6].data@) matches Ok(mint) && mint.mint_authority == Some(
        accounts[5].key,
    )
    &&& spec_rent_overflows(accounts[8].key, accounts[8].data@, 36)
}

/// The payments of a reward, in ten-thousandths of the `prize` lamports of
/// the prize pool wallet (0), through the system program (7): 95% to the
/// drawn participant's wallet (`winner`), 4% to the rewards wallet (1), 0.6%
/// to the SLOT holders' wallet (2), 0.4% to the labs wallet (3).
pub open spec fn spec_reward_payments(winner: usize, prize: u64) -> Seq<Invocation> {
    seq![
        Invocation::SystemShareTransfer { system_program: 7, from: 0, to: winner, pool: prize, share: 9500 },
        Invocation::SystemShareTransfer { system_program: 7, from: 0, to: 1, pool: prize, share: 400 },
        Invocation::SystemShareTransfer { system_program: 7, from: 0, to: 2, pool: prize, share: 60 },
        Invocation::SystemShareTransfer { system_program: 7, from: 0, to: 3, pool: prize, share: 40 },
    ]
}

/// `RewardWinner`: after the checks, the participant drawn is the wallet of
/// the pair `random_number`, at position `9 + 2 * random_number`; the prize
/// pool is shared out and the result account records the lottery and that
/// wallet.
pub open spec fn spec_process_reward_winner(
    program_id: Pubkey,
    accounts: Seq<AccountInfo>,
    lottery_id: u32,
    random_number: u32,
) -> Result<EffectsView, ProgramError> {
    match spec_reward_checks(program_id, accounts, random_number) {
        Err(e) => Err(e),
        Ok(_) => {
            let winner = 9 + 2 * random_number;
            Ok(
                spec_calls_then_write(
                    spec_reward_payments(winner as usize, accounts[0].lamports),
                    4,
                    (LotteryResultData { lottery_id, winner: accounts[winner].key }).spec_pack(),
                ),
            )
        },
    }
}

/// What processing an instruction gives: the program id is checked, the
/// instruction read and handled.
pub open spec fn spec_process(
    program_id: Pubkey,
    accounts: Seq<AccountInfo>,
    instruction_data: Seq<u8>,
) -> Result<EffectsView, ProgramError> {
    match spec_check_program_account(program_id) {
        Err(e) => Err(e),
        Ok(_) => match LotteryInstruction::spec_unpack(instruction_data) {
            Err(e) => Err(e),
            Ok(LotteryInstruction::RewardWinner { lottery_id, random_number }) => spec_process_reward_winner(
                program_id,
                accounts,
                lottery_id,
                random_number,
            ),
        },
    }
}

/// The inputs on which processing panics, for the lottery program's id:
/// instruction bytes that fall short,
/// or a reward that panics.
pub open spec fn spec_process_panics(
    program_id: Pubkey,
    accounts: Seq<AccountInfo>,
    instruction_data: Seq<u8>,
) -> bool {
    ||| program_id == spec_program_key() && LotteryInstruction::spec_unpack_panics(instruction_data)
    ||| program_id == spec_program_key() && (LotteryInstruction::spec_unpack(instruction_data) matches Ok(
        LotteryInstruction::RewardWinner { random_number, .. },
    ) && spec_reward_winner_panics(program_id, accounts, random_number))
}

/// Program state handler.
pub struct Processor;

impl Processor {
    /// Processes an instruction where processing it does not panic, and
    /// answers `None` where it would.
    pub fn process_checked(program_id: &Pubkey, accounts: &[AccountInfo], instruction_data: &[u8]) -> (r:
        Option<Result<Effects, ProgramError>>)
        ensures
            r is None <==> spec_process_panics(*program_id, accounts@, instruction_data@),
            r matches Some(x) ==> result_view(x) == spec_process(*program_id, accounts@, instruction_data@),
    {
        if Self::process_panics(program_id, accounts, instruction_data) {
            None
        } else {
            Some(Self::process(program_id, accounts, instruction_data))
        }
    }

    /// Processes an instruction: what it writes and calls, or why it fails.
    pub fn process(program_id: &Pubkey, accounts: &[AccountInfo], instruction_data: &[u8]) -> (r:
        Result<Effects, ProgramError>)
        requires
            !spec_process_panics(*program_id, accounts@, instruction_data@),
        ensures
            result_view(r) == spec_process(*program_id, accounts@, instruction_data@),
    {
        match check_program_account(program_id) {
            Ok(()) => {},
            Err(e) => return Err(e),
        }
        let instruction = match LotteryInstruction::unpack(instruction_data) {
            Ok(ix) => ix,
            Err(e) => return Err(e),
        };
        match instruction {
            LotteryInstruction::RewardWinner { lottery_id, random_number } => Self::process_reward_winner(
                program_id,
                accounts,
                lottery_id,
                random_number,
            ),
        }
    }

    /// Checks the participants' account pairs, those after the first nine
    /// accounts, against the lifetime ticket mint.
    fn check_participants(accounts: &[AccountInfo], ticket_mint: &Pubkey) -> (r: Result<(), ProgramError>)
        requires
            accounts.len() >= 9,
            (accounts.len() - 9) % 2 == 0,
        ensures
            r == spec_check_participants(participants(accounts@), *ticket_mint, 0),
    {
        let ghost parts = participants(accounts@);
        let mut i: usize = 9;
        while i < accounts.len()
            invariant
                9 <= i <= accounts.len(),
                (i - 9) % 2 == 0,
                (accounts.len() - 9) % 2 == 0,
                parts == participants(accounts@),
                spec_check_participants(parts, *ticket_mint, 0) == spec_check_participants(
                    parts,
                    *ticket_mint,
                    ((i - 9) / 2) as nat,
                ),
            decreases accounts.len() - i,
        {
            let ghost k: nat = ((i - 9) / 2) as nat;
            assert(parts[2 * k as int] == accounts@[i as int]);
            assert(parts[2 * k + 1 as int] == accounts@[i + 1]);
            let ticket = match token_account_unpack(accounts[i + 1].data.as_slice()) {
                Ok(a) => a,
                Err(e) => return Err(e),
            };
            if ticket.amount == 0 {
                return Err(ProgramError::from(LotteryError::InvalidParticipantsAccounts));
            }
            if ticket.owner != accounts[i].key {
                return Err(ProgramError::from(LotteryError::InvalidParticipantsAccounts));
            }
            if ticket.mint != *ticket_mint {
                return Err(ProgramError::from(LotteryError::InvalidParticipantsAccounts));
            }
            i = i + 2;
        }
        Ok(())
    }

    /// Whether the ticket owner (5) is the authority of the lifetime ticket
    /// mint (6), or why the mint does not read as an SPL Token mint.
    fn owner_is_authority(accounts: &[AccountInfo]) -> (r: Result<bool, ProgramError>)
        requires
            accounts.len() >= 9,
        ensures
            r == (match spec_token_mint_unpack(accounts@[6].data@) {
                Ok(mint) => Ok(mint.mint_authority == Some(accounts@[5].key)),
                Err(e) => Err(e),
            }),
    {
        match token_mint_unpack(accounts[6].data.as_slice()) {
            Ok(mint) => match mint.mint_authority {
                Some(authority) => Ok(authority == accounts[5].key),
                None => Ok(false),
            },
            Err(e) => Err(e),
        }
    }

    /// The checks of a reward.
    fn reward_checks(program_id: &Pubkey, accounts: &[AccountInfo], random_number: u32) -> (r: Result<
        (),
        ProgramError,
    >)
        requires
            !spec_reward_rent_panics(*program_id, accounts@),
        ensures
            r == spec_reward_checks(*program_id, accounts@, random_number),
    {
        if accounts.len() < 9 {
            return Err(ProgramError::NotEnoughAccountKeys);
        }
        let prize_pool_wallet = &accounts[0];
        let lottery_result_account = &accounts[4];
        let lifetime_ticket_token_mint = &accounts[6];
        let rent_info = &accounts[8];
        if !prize_pool_wallet.is_signer {
            return Err(ProgramError::MissingRequiredSignature);
        }
        if !accounts[5].is_signer {
            return Err(ProgramError::MissingRequiredSignature);
        }
        if lottery_result_account.owner != *program_id {
            return Err(ProgramError::IncorrectProgramId);
        }
        match Self::owner_is_authority(accounts) {
            Ok(true) => {},
            Ok(false) => return Err(ProgramError::from(LotteryError::InvalidLifetimeTicketOwner)),
            Err(e) => return Err(e),
        }
        match rent_is_exempt(rent_info, lottery_result_account.lamports, LotteryResultData::LEN) {
            Err(e) => return Err(e),
            Ok(false) => return Err(ProgramError::AccountNotRentExempt),
            Ok(true) => {},
        }
        if prize_pool_wallet.lamports == 0 {
            return Err(ProgramError::from(LotteryError::EmptyPrizePool));
        }
        let participants_len: usize = accounts.len() - 9;
        if participants_len % 2 != 0 {
            return Err(ProgramError::from(LotteryError::InvalidParticipantsAccounts));
        }
        if random_number > (participants_len as u32) / 2 {
            return Err(ProgramError::from(LotteryError::InvalidRandomNumber));
        }
        Self::check_participants(accounts, &lifetime_ticket_token_mint.key)
    }

    /// Draws the winner among the lifetime ticket holders by `random_number`,
    /// shares out the SOL prize pool and records the result.
    pub fn process_reward_winner(
        program_id: &Pubkey,
        accounts: &[AccountInfo],
        lottery_id: u32,
        random_number: u32,
    ) -> (r: Result<Effects, ProgramError>)
        requires
            !spec_reward_winner_panics(*program_id, accounts@, random_number),
        ensures
            result_view(r) == spec_process_reward_winner(*program_id, accounts@, lottery_id, random_number),
    {
        match Self::reward_checks(program_id, accounts, random_number) {
            Ok(()) => {},
            Err(e) => return Err(e),
        }
        let participants_len: usize = accounts.len() - 9;
        assert(2 * random_number < participants_len);
        let winner_index: usize = 9 + (random_number * 2) as usize;
        let winner_key = accounts[winner_index].key;
        let prize = accounts[0].lamports;
        let mut invocations: Vec<Invocation> = Vec::new();
        invocations.push(
            Invocation::SystemShareTransfer { system_program: 7, from: 0, to: winner_index, pool: prize, share: 9500 },
        );
        invocations.push(
            Invocation::SystemShareTransfer { system_program: 7, from: 0, to: 1, pool: prize, share: 400 },
        );
        invocations.push(
            Invocation::SystemShareTransfer { system_program: 7, from: 0, to: 2, pool: prize, share: 60 },
        );
        invocations.push(
            Invocation::SystemShareTransfer { system_program: 7, from: 0, to: 3, pool: prize, share: 40 },
        );
        assert(invocations@ =~= spec_reward_payments(winner_index, prize));
        let result = LotteryResultData { lottery_id, winner: winner_key };
        Ok(Effects::calls_then_write(invocations, 4, result.pack_to_vec()))
    }

    /// Whether drawing the winner by `random_number` over `accounts` would
    /// panic.
    pub fn reward_winner_panics(program_id: &Pubkey, accounts: &[AccountInfo], random_number: u32) -> (b:
        bool)
        ensures
            b == spec_reward_winner_panics(*program_id, accounts@, random_number),
    {
        if accounts.len() >= 9 && accounts[0].is_signer && accounts[5].is_signer && accounts[4].owner
            == *program_id {
            if let Ok(true) = Self::owner_is_authority(accounts) {
                if rent_overflows(&accounts[8], LotteryResultData::LEN) {
                    return true;
                }
            }
        }
        match Self::reward_checks(program_id, accounts, random_number) {
            Ok(()) => (random_number as usize) * 2 >= accounts.len() - 9,
            Err(_) => false,
        }
    }

    /// Whether processing `instruction_data` over `accounts` would panic.
    pub fn process_panics(program_id: &Pubkey, accounts: &[AccountInfo], instruction_data: &[u8]) -> (b:
        bool)
        ensures
            b == spec_process_panics(*program_id, accounts@, instruction_data@),
    {
        if check_program_account(program_id).is_err() {
            return false;
        }
        if LotteryInstruction::unpack_panics(instruction_data) {
            return true;
        }
        match LotteryInstruction::unpack(instruction_data) {
            Ok(LotteryInstruction::RewardWinner { random_number, .. }) => Self::reward_winner_panics(
                program_id,
                accounts,
                random_number,
            ),
            Err(_) => false,
        }
    }
}

} // verus!

verus! {

/// A successful reward records the lottery and the participant drawn: the
/// result account (4) is the one account written, and what it holds reads
/// back as the lottery's id and the address of the wallet paid the winner's
/// share, which is the first account of a participant's pair.
pub proof fn law_reward_records_winner(
    program_id: Pubkey,
    accounts: Seq<AccountInfo>,
    lottery_id: u32,
    random_number: u32,
)
    requires
        accounts.len() <= usize::MAX,
        !spec_reward_winner_panics(program_id, accounts, random_number),
        spec_process_reward_winner(program_id, accounts, lottery_id, random_number) is Ok,
    ensures
        ({
            let e = spec_process_reward_winner(program_id, accounts, lottery_id, random_number)->Ok_0;
            &&& e.writes.len() == 1
            &&& e.writes[0].0 == 4
            &&& e.invocations[0] matches Invocation::SystemShareTransfer { to, .. }
            &&& to == 9 + 2 * random_number && to < accounts.len()
            &&& LotteryResultData::spec_unpack_unchecked(e.writes[0].1) == Ok::<
                LotteryResultData,
                ProgramError,
            >(LotteryResultData { lottery_id, winner: accounts[to as int].key })
        }),
{
    let winner = 9 + 2 * random_number;
    LotteryResultData::law_unpack_pack(LotteryResultData { lottery_id, winner: accounts[winner].key });
}

/// A successful reward pays out the whole prize pool: its calls' shares sum
/// to ten thousand ten-thousandths, each of the prize pool wallet's lamports.
pub proof fn law_reward_pays_whole_prize(
    program_id: Pubkey,
    accounts: Seq<AccountInfo>,
    lottery_id: u32,
    random_number: u32,
)
    requires
        spec_process_reward_winner(program_id, accounts, lottery_id, random_number) is Ok,
    ensures
        ({
            let e = spec_process_reward_winner(program_id, accounts, lottery_id, random_number)->Ok_0;
            &&& share_total(e.invocations) == 10000
            &&& forall|i: int| 0 <= i < e.invocations.len() ==> (#[trigger] e.invocations[i] matches Invocation::SystemShareTransfer { from, pool, .. } && from == 0 && pool == accounts[0].lamports)
        }),
{
    let e = spec_process_reward_winner(program_id, accounts, lottery_id, random_number)->Ok_0;
    reveal_with_fuel(share_total, 5);
    assert(e.invocations.drop_last().drop_last().drop_last().drop_last() =~= Seq::<Invocation>::empty());
}

} // verus!

verus! {

/// A pair that the participants' check passed over is a valid one: the pair
/// `j`, at or after the pair `k` where the check began, has a second account
/// that reads as a token account of `ticket_mint`, owned by the pair's first
/// account and holding some lifetime tickets.
proof fn lemma_checked_pair_holds_tickets(participants: Seq<AccountInfo>, ticket_mint: Pubkey, k: nat, j: nat)
    requires
        k <= j,
        2 * j + 2 <= participants.len(),
        spec_check_participants(participants, ticket_mint, k) is Ok,
    ensures
        spec_token_account_unpack(participants[2 * j + 1 as int].data@) matches Ok(ticket) && ticket.mint
            == ticket_mint && ticket.amount > 0 && ticket.owner == participants[2 * j as int].key,
    decreases j - k,
{
    if k < j {
        lemma_checked_pair_holds_tickets(participants, ticket_mint, k + 1, j);
    }
}

/// Only lifetime ticket holders take part: after a successful reward, the
/// second account of every participant's pair reads as a token account of
/// the lifetime ticket mint (6), owned by the pair's wallet, the first
/// account of the pair, and holding at least one ticket.
pub proof fn law_reward_participants_hold_tickets(
    program_id: Pubkey,
    accounts: Seq<AccountInfo>,
    lottery_id: u32,
    random_number: u32,
)
    requires
        spec_process_reward_winner(program_id, accounts, lottery_id, random_number) is Ok,
    ensures
        forall|i: int|
            9 <= i < accounts.len() && (i - 9) % 2 == 1 ==> (spec_token_account_unpack(
                #[trigger] accounts[i].data@,
            ) matches Ok(ticket) && ticket.mint == accounts[6].key && ticket.amount > 0 && ticket.owner
                == accounts[i - 1].key),
{
    let parts = participants(accounts);
    assert forall|i: int|
        9 <= i < accounts.len() && (i - 9) % 2 == 1 implies (spec_token_account_unpack(
        #[trigger] accounts[i].data@,
    ) matches Ok(ticket) && ticket.mint == accounts[6].key && ticket.amount > 0 && ticket.owner
        == accounts[i - 1].key) by {
        let j: nat = ((i - 9) / 2) as nat;
        assert(parts[2 * j + 1 as int] == accounts[i]);
        assert(parts[2 * j as int] == accounts[i - 1]);
        lemma_checked_pair_holds_tickets(parts, accounts[6].key, 0, j);
    }
}

} // verus!

verus! {

/// How a successful reward shares out the prize pool wallet's (0) lamports:
/// 95% to the wallet of the pair drawn, 4% to the rewards wallet (1), 0.6%
/// to the SLOT holders' wallet (2) and 0.4% to the labs wallet (3), in that
/// order.
pub proof fn law_reward_share_by_payee(
    program_id: Pubkey,
    accounts: Seq<AccountInfo>,
    lottery_id: u32,
    random_number: u32,
)
    requires
        accounts.len() <= usize::MAX,
        spec_process_reward_winner(program_id, accounts, lottery_id, random_number) is Ok,
    ensures
        ({
            let e = spec_process_reward_winner(program_id, accounts, lottery_id, random_number)->Ok_0;
            &&& e.invocations.len() == 4
            &&& e.invocations[0] matches Invocation::SystemShareTransfer { to, share, .. } && to == 9 + 2
                * random_number && share == 9500
            &&& e.invocations[1] matches Invocation::SystemShareTransfer { to, share, .. } && to == 1 && share
                == 400
            &&& e.invocations[2] matches Invocation::SystemShareTransfer { to, share, .. } && to == 2 && share
                == 60
            &&& e.invocations[3] matches Invocation::SystemShareTransfer { to, share, .. } && to == 3 && share
                == 40
        }),
{
}

} // verus!

verus! {

/// A reward is drawn only with the ticket owner's leave: after a successful
/// reward the prize pool wallet (0) and the ticket owner (5) have signed,
/// the ticket owner is the authority of the lifetime ticket mint (6), the
/// prize pool holds lamports, and the pair drawn is among the pairs given.
pub proof fn law_reward_needs_ticket_owner(
    program_id: Pubkey,
    accounts: Seq<AccountInfo>,
    lottery_id: u32,
    random_number: u32,
)
    requires
        !spec_reward_winner_panics(program_id, accounts, random_number),
        spec_process_reward_winner(program_id, accounts, lottery_id, random_number) is Ok,
    ensures
        accounts.len() >= 9,
        accounts[0].is_signer && accounts[5].is_signer,
        spec_token_mint_unpack(accounts[6].data@) matches Ok(mint) && mint.mint_authority == Some(
            accounts[5].key,
        ),
        accounts[0].lamports > 0,
        9 + 2 * random_number + 1 < accounts.len(),
{
}

} // verus!
