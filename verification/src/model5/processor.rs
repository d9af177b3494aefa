//! The fixed-quantity lottery's processor: the checks of a ticket purchase
//! and of a reward, and what a reward pays and records.
use vstd::prelude::*;
use crate::program::{
    Pubkey, ProgramError, AccountInfo, Effects, EffectsView, Invocation, DataWrite,
    spec_program_key, id, result_view, share_total,
};
use crate::token::{
    TokenAccount, TokenMint, spec_token_account_unpack, spec_token_mint_unpack,
    token_account_unpack, token_mint_unpack,
};
use crate::model5::error::LotteryError;
use crate::model5::instruction::LotteryInstruction;
use crate::model5::state::LotteryResultData;

verus! {

/// `Ok` for the lottery program's id, `IncorrectProgramId` for any other.
pub open spec fn spec_check_program_account(program_id: Pubkey) -> Result<(), ProgramError> {
    if program_id == spec_program_key() {
        Ok(())
    } else {
        Err(ProgramError::IncorrectProgramId)
    }
}

/// Checks that the supplied program id is the lottery program's id.
pub fn check_program_account(program_id: &Pubkey) -> (r: Result<(), ProgramError>)
    ensures
        r == spec_check_program_account(*program_id),
{
    if *program_id != id() {
        return Err(ProgramError::IncorrectProgramId);
    }
    Ok(())
}


/// A ticket purchase that passed its account checks. What is left is reckoned
/// in whole tokens and SOL with floating point: the tickets owned plus the
/// tickets bought may not exceed the SLOT held (`SLOTCapExceeded`), and the
/// buyer must hold the price of the tickets bought (`InsufficientFunds`);
/// then the price moves from `payer` to `payee` and `mint` is called.
#[derive(Clone, Copy, Debug, PartialEq, Eq, Structural)]
pub struct TicketPurchase {
    /// Fixed-quantity tickets that the buyer holds, in base units.
    pub fqtickets_owned: u64,
    /// Decimals of the fixed-quantity ticket mint.
    pub fqticket_decimals: u8,
    /// SLOT that the buyer holds, in base units: the cap on tickets.
    pub slot_cap: u64,
    /// Decimals of the SLOT mint.
    pub slot_decimals: u8,
    /// Tickets bought, in base units.
    pub amount: u64,
    /// The buyer's balance in lamports.
    pub payer_lamports: u64,
    /// The system program, the buyer's and the lottery's SOL accounts.
    pub system_program: usize,
    pub payer: usize,
    pub payee: usize,
    /// Minting the tickets bought to the buyer.
    pub mint: Invocation,
}

/// The fixed-quantity lottery's error as a runtime error.
pub open spec fn lottery_err(e: LotteryError) -> ProgramError {
    e.spec_into()
}

/// `PurchaseTicket`'s checks: ten accounts; the buyer's SOL account (1), the
/// ticket mint authority (4) and the SLOT mint authority (6) have signed; the
/// buyer's SLOT account (2) and the two mints (5, 3) read as token records;
/// the SLOT account belongs to the buyer and the SLOT mint, whose authority is
/// the one given; the buyer's ticket account (0) reads as a token account.
pub open spec fn spec_process_ticket_purchase(accounts: Seq<AccountInfo>, amount: u64) -> Result<
    TicketPurchase,
    ProgramError,
> {
    if accounts.len() < 10 {
        Err(ProgramError::NotEnoughAccountKeys)
    } else if !accounts[1].is_signer || !accounts[4].is_signer || !accounts[6].is_signer {
        Err(ProgramError::MissingRequiredSignature)
    } else {
        match spec_token_account_unpack(accounts[2].data@) {
            Err(e) => Err(e),
            Ok(user_slot) => match spec_token_mint_unpack(accounts[5].data@) {
                Err(e) => Err(e),
                Ok(slot_mint) => match spec_token_mint_unpack(accounts[3].data@) {
                    Err(e) => Err(e),
                    Ok(fqticket_mint) => if user_slot.owner != accounts[1].key
                        || user_slot.mint != accounts[5].key || slot_mint.mint_authority != Some(
                        accounts[6].key,
                    ) {
                        Err(lottery_err(LotteryError::InvalidSLOTAccount))
                    } else {
                        match spec_token_account_unpack(accounts[0].data@) {
                            Err(e) => Err(e),
                            Ok(user_fqticket) => Ok(
                                TicketPurchase {
                                    fqtickets_owned: user_fqticket.amount,
                                    fqticket_decimals: fqticket_mint.decimals,
                                    slot_cap: user_slot.amount,
                                    slot_decimals: slot_mint.decimals,
                                    amount,
                                    payer_lamports: accounts[1].lamports,
                                    system_program: 8,
                                    payer: 1,
                                    payee: 7,
                                    mint: Invocation::TokenMintTo {
                                        token_program: 9,
                                        mint: 3,
                                        destination: 0,
                                        authority: 4,
                                        multisig_signer: Some(4),
                                        amount,
                                    },
                                },
                            ),
                        }
                    },
                },
            },
        }
    }
}

/// The payments of a reward: from the prize pool wallet (0) to the winner's
/// wallet at `winner`, the rewards wallet (1), the SLOT holders' wallet (2)
/// and the labs wallet (3), through the system program (5).
pub open spec fn spec_reward_payments(winner: usize, prize_pool: u64) -> Seq<Invocation> {
    seq![
        Invocation::SystemShareTransfer { system_program: 5, from: 0, to: winner, pool: prize_pool, share: 9500 },
        Invocation::SystemShareTransfer { system_program: 5, from: 0, to: 1, pool: prize_pool, share: 400 },
        Invocation::SystemShareTransfer { system_program: 5, from: 0, to: 2, pool: prize_pool, share: 60 },
        Invocation::SystemShareTransfer { system_program: 5, from: 0, to: 3, pool: prize_pool, share: 40 },
    ]
}

/// `RewardWinners`: six accounts, then pairs (wallet, ticket account) of
/// participants; the pair at `idx` must exist (`NotEnoughAccountKeys`), the
/// prize pool must not be empty, the winner's ticket account must read as a
/// token account holding a ticket. The pool is then shared out and the
/// winner recorded in the result account (4).
pub open spec fn spec_process_reward_winners(
    accounts: Seq<AccountInfo>,
    lottery_id: u32,
    idx: u64,
    prize_pool: u64,
) -> Result<EffectsView, ProgramError> {
    if accounts.len() < 6 {
        Err(ProgramError::NotEnoughAccountKeys)
    } else if (accounts.len() - 6) / 2 <= idx {
        Err(ProgramError::NotEnoughAccountKeys)
    } else if prize_pool == 0 {
        Err(lottery_err(LotteryError::EmptyPrizePool))
    } else {
        let w = 6 + 2 * idx;
        match spec_token_account_unpack(accounts[w + 1].data@) {
            Err(e) => Err(e),
            Ok(ticket) => if ticket.amount < 1 {
                Err(lottery_err(LotteryError::NotEnoughFQTokens))
            } else {
                Ok(
                    EffectsView {
                        writes: seq![
                            (
                                4usize,
                                (LotteryResultData {
                                    lottery_id,
                                    winner: accounts[w].key,
                                }).spec_pack(),
                            ),
                        ],
                        invocations: spec_reward_payments(w as usize, prize_pool),
                    },
                )
            },
        }
    }
}

/// What processing an instruction gives: the rewards' effects, or a ticket
/// purchase left to be priced and paid.
#[derive(Clone, Debug)]
pub enum Processed {
    Done(Effects),
    Purchase(TicketPurchase),
}

/// The plain value of [`Processed`].
pub enum ProcessedView {
    Done(EffectsView),
    Purchase(TicketPurchase),
}

/// A processed instruction by its plain value.
pub open spec fn processed_view(r: Result<Processed, ProgramError>) -> Result<ProcessedView, ProgramError> {
    match r {
        Ok(Processed::Done(e)) => Ok(ProcessedView::Done(e@)),
        Ok(Processed::Purchase(p)) => Ok(ProcessedView::Purchase(p)),
        Err(e) => Err(e),
    }
}

/// What processing an instruction gives: the program id is checked, the
/// instruction read and handled.
pub open spec fn spec_process(
    program_id: Pubkey,
    accounts: Seq<AccountInfo>,
    instruction_data: Seq<u8>,
) -> Result<ProcessedView, ProgramError> {
    match spec_check_program_account(program_id) {
        Err(e) => Err(e),
        Ok(_) => match LotteryInstruction::spec_unpack(instruction_data) {
            Err(e) => Err(e),
            Ok(LotteryInstruction::PurchaseTicket { amount }) => match spec_process_ticket_purchase(
                accounts,
                amount,
            ) {
                Err(e) => Err(e),
                Ok(p) => Ok(ProcessedView::Purchase(p)),
            },
            Ok(LotteryInstruction::RewardWinners { lottery_id, idx, prize_pool }) =>
                match spec_process_reward_winners(accounts, lottery_id, idx, prize_pool) {
                Err(e) => Err(e),
                Ok(e) => Ok(ProcessedView::Done(e)),
            },
        },
    }
}

/// The inputs on which processing panics: for the lottery program's id,
/// instruction bytes that fall short.
pub open spec fn spec_process_panics(
    program_id: Pubkey,
    accounts: Seq<AccountInfo>,
    instruction_data: Seq<u8>,
) -> bool {
    program_id == spec_program_key() && LotteryInstruction::spec_unpack_panics(instruction_data)
}

/// Program state handler.
pub struct Processor;

impl Processor {
    /// Whether processing `instruction_data` over `accounts` would panic.
    pub fn process_panics(program_id: &Pubkey, accounts: &[AccountInfo], instruction_data: &[u8]) -> (b:
        bool)
        ensures
            b == spec_process_panics(*program_id, accounts@, instruction_data@),
    {
        check_program_account(program_id).is_ok() && LotteryInstruction::unpack_panics(instruction_data)
    }

    /// Processes an instruction where processing it does not panic, and
    /// answers `None` where it would.
    pub fn process_checked(program_id: &Pubkey, accounts: &[AccountInfo], instruction_data: &[u8]) -> (r:
        Option<Result<Processed, ProgramError>>)
        ensures
            r is None <==> spec_process_panics(*program_id, accounts@, instruction_data@),
            r matches Some(x) ==> processed_view(x) == spec_process(*program_id, accounts@, instruction_data@),
    {
        if Self::process_panics(program_id, accounts, instruction_data) {
            None
        } else {
            Some(Self::process(program_id, accounts, instruction_data))
        }
    }

    /// Processes an instruction: a reward's effects, a purchase to be priced,
    /// or why it fails.
    pub fn process(program_id: &Pubkey, accounts: &[AccountInfo], instruction_data: &[u8]) -> (r:
        Result<Processed, ProgramError>)
        requires
            !spec_process_panics(*program_id, accounts@, instruction_data@),
        ensures
            processed_view(r) == spec_process(*program_id, accounts@, instruction_data@),
    {
        match check_program_account(program_id) {
            Ok(()) => {},
            Err(e) => return Err(e),
        }
        match LotteryInstruction::unpack(instruction_data) {
            Err(e) => Err(e),
            Ok(LotteryInstruction::PurchaseTicket { amount }) => match Self::process_ticket_purchase(
                program_id,
                accounts,
                amount,
            ) {
                Err(e) => Err(e),
                Ok(p) => Ok(Processed::Purchase(p)),
            },
            Ok(LotteryInstruction::RewardWinners { lottery_id, idx, prize_pool }) =>
                match Self::process_reward_winners(program_id, accounts, lottery_id, idx, prize_pool) {
                Err(e) => Err(e),
                Ok(e) => Ok(Processed::Done(e)),
            },
        }
    }

    /// Checks a ticket purchase and reads what its pricing needs.
    pub fn process_ticket_purchase(
        _program_id: &Pubkey,
        accounts: &[AccountInfo],
        amount: u64,
    ) -> (r: Result<TicketPurchase, ProgramError>)
        ensures
            r == spec_process_ticket_purchase(accounts@, amount),
    {
        if accounts.len() < 10 {
            return Err(ProgramError::NotEnoughAccountKeys);
        }
        let user_fqticket_account = &accounts[0];
        let user_sol_account = &accounts[1];
        let user_slot_account = &accounts[2];
        let fqticket_mint = &accounts[3];
        let fqticket_mint_authority = &accounts[4];
        let slot_mint_account = &accounts[5];
        let slot_mint_authority = &accounts[6];
        if !user_sol_account.is_signer {
            return Err(ProgramError::MissingRequiredSignature);
        }
        if !fqticket_mint_authority.is_signer {
            return Err(ProgramError::MissingRequiredSignature);
        }
        if !slot_mint_authority.is_signer {
            return Err(ProgramError::MissingRequiredSignature);
        }
        let user_slot: TokenAccount = match token_account_unpack(user_slot_account.data.as_slice()) {
            Ok(a) => a,
            Err(e) => return Err(e),
        };
        let slot_mint: TokenMint = match token_mint_unpack(slot_mint_account.data.as_slice()) {
            Ok(m) => m,
            Err(e) => return Err(e),
        };
        let fqticket_mint_data: TokenMint = match token_mint_unpack(fqticket_mint.data.as_slice()) {
            Ok(m) => m,
            Err(e) => return Err(e),
        };
        if user_slot.owner != user_sol_account.key {
            return Err(ProgramError::from(LotteryError::InvalidSLOTAccount));
        }
        if user_slot.mint != slot_mint_account.key {
            return Err(ProgramError::from(LotteryError::InvalidSLOTAccount));
        }
        match slot_mint.mint_authority {
            Some(mint_authority) => {
                if mint_authority != slot_mint_authority.key {
                    return Err(ProgramError::from(LotteryError::InvalidSLOTAccount));
                }
            },
            None => {
                return Err(ProgramError::from(LotteryError::InvalidSLOTAccount));
            },
        }
        let user_fqticket: TokenAccount = match token_account_unpack(
            user_fqticket_account.data.as_slice(),
        ) {
            Ok(a) => a,
            Err(e) => return Err(e),
        };
        Ok(
            TicketPurchase {
                fqtickets_owned: user_fqticket.amount,
                fqticket_decimals: fqticket_mint_data.decimals,
                slot_cap: user_slot.amount,
                slot_decimals: slot_mint.decimals,
                amount,
                payer_lamports: user_sol_account.lamports,
                system_program: 8,
                payer: 1,
                payee: 7,
                mint: Invocation::TokenMintTo {
                    token_program: 9,
                    mint: 3,
                    destination: 0,
                    authority: 4,
                    multisig_signer: Some(4),
                    amount,
                },
            },
        )
    }

    /// Checks a reward, shares out the prize pool and records the winner.
    pub fn process_reward_winners(
        _program_id: &Pubkey,
        accounts: &[AccountInfo],
        lottery_id: u32,
        idx: u64,
        prize_pool: u64,
    ) -> (r: Result<Effects, ProgramError>)
        ensures
            result_view(r) == spec_process_reward_winners(accounts@, lottery_id, idx, prize_pool),
    {
        if accounts.len() < 6 {
            return Err(ProgramError::NotEnoughAccountKeys);
        }
        let participants_len = accounts.len() - 6;
        if ((participants_len / 2) as u64) <= idx {
            return Err(ProgramError::NotEnoughAccountKeys);
        }
        if prize_pool == 0 {
            return Err(ProgramError::from(LotteryError::EmptyPrizePool));
        }
        let w: usize = 6 + 2 * (idx as usize);
        let winner = &accounts[w];
        let winner_fq_acc = match token_account_unpack(accounts[w + 1].data.as_slice()) {
            Ok(a) => a,
            Err(e) => return Err(e),
        };
        if winner_fq_acc.amount < 1 {
            return Err(ProgramError::from(LotteryError::NotEnoughFQTokens));
        }
        let sollotto_results_account = &accounts[4];
        let mut invocations: Vec<Invocation> = Vec::new();
        invocations.push(
            Invocation::SystemShareTransfer { system_program: 5, from: 0, to: w, pool: prize_pool, share: 9500 },
        );
        invocations.push(
            Invocation::SystemShareTransfer { system_program: 5, from: 0, to: 1, pool: prize_pool, share: 400 },
        );
        invocations.push(
            Invocation::SystemShareTransfer { system_program: 5, from: 0, to: 2, pool: prize_pool, share: 60 },
        );
        invocations.push(
            Invocation::SystemShareTransfer { system_program: 5, from: 0, to: 3, pool: prize_pool, share: 40 },
        );
        let result = LotteryResultData { lottery_id, winner: winner.key };
        let data = result.pack_to_vec();
        let ghost d = data@;
        let mut writes: Vec<DataWrite> = Vec::new();
        writes.push(DataWrite { account: 4, data });
        let e = Effects { writes, invocations };
        assert(e@.writes =~= seq![(4usize, d)]);
        assert(e@.invocations =~= spec_reward_payments(w, prize_pool));
        Ok(e)
    }
}

} // verus!

verus! {

/// A successful reward records the lottery and the participant drawn: the
/// result account (4) is the one account written, and what it holds reads
/// back as the lottery's id and the address of the wallet paid the winner's
/// share, the first account of the pair `idx`.
pub proof fn law_reward_records_winner(
    accounts: Seq<AccountInfo>,
    lottery_id: u32,
    idx: u64,
    prize_pool: u64,
)
    requires
        accounts.len() <= usize::MAX,
        spec_process_reward_winners(accounts, lottery_id, idx, prize_pool) is Ok,
    ensures
        ({
            let e = spec_process_reward_winners(accounts, lottery_id, idx, prize_pool)->Ok_0;
            &&& e.writes.len() == 1
            &&& e.writes[0].0 == 4
            &&& e.invocations[0] matches Invocation::SystemShareTransfer { to, .. }
            &&& to == 6 + 2 * idx && to < accounts.len()
            &&& LotteryResultData::spec_unpack_unchecked(e.writes[0].1) == Ok::<
                LotteryResultData,
                ProgramError,
            >(LotteryResultData { lottery_id, winner: accounts[to as int].key })
        }),
{
    let w = 6 + 2 * idx;
    LotteryResultData::law_unpack_pack(LotteryResultData { lottery_id, winner: accounts[w].key });
}

/// A successful reward pays out the whole prize pool: its calls' shares sum
/// to ten thousand ten-thousandths, each of the prize pool given.
pub proof fn law_reward_pays_whole_prize(
    accounts: Seq<AccountInfo>,
    lottery_id: u32,
    idx: u64,
    prize_pool: u64,
)
    requires
        spec_process_reward_winners(accounts, lottery_id, idx, prize_pool) is Ok,
    ensures
        ({
            let e = spec_process_reward_winners(accounts, lottery_id, idx, prize_pool)->Ok_0;
            &&& share_total(e.invocations) == 10000
            &&& forall|i: int| 0 <= i < e.invocations.len() ==> (#[trigger] e.invocations[i] matches Invocation::SystemShareTransfer { from, pool, .. } && from == 0 && pool == prize_pool)
        }),
{
    let e = spec_process_reward_winners(accounts, lottery_id, idx, prize_pool)->Ok_0;
    reveal_with_fuel(share_total, 5);
    assert(e.invocations.drop_last().drop_last().drop_last().drop_last() =~= Seq::<Invocation>::empty());
}

} // verus!

verus! {

/// A purchase that passes its checks reckons with what the accounts hold:
/// the tickets owned are the amount on the buyer's ticket account (0), of the
/// ticket mint's (3) decimals; the cap is the amount on the buyer's SLOT
/// account (2), of the SLOT mint's (5) decimals, an account of that mint
/// owned by the buyer's SOL account (1), whose balance is the one to pay
/// from; and the tickets minted to the ticket account are the ones bought.
pub proof fn law_purchase_reads_holdings(accounts: Seq<AccountInfo>, amount: u64)
    requires
        spec_process_ticket_purchase(accounts, amount) is Ok,
    ensures
        ({
            let p = spec_process_ticket_purchase(accounts, amount)->Ok_0;
            &&& spec_token_account_unpack(accounts[0].data@) matches Ok(tickets) && p.fqtickets_owned
                == tickets.amount
            &&& spec_token_mint_unpack(accounts[3].data@) matches Ok(ticket_mint) && p.fqticket_decimals
                == ticket_mint.decimals
            &&& spec_token_account_unpack(accounts[2].data@) matches Ok(slot) && p.slot_cap == slot.amount
                && slot.mint == accounts[5].key && slot.owner == accounts[1].key
            &&& spec_token_mint_unpack(accounts[5].data@) matches Ok(slot_mint) && p.slot_decimals
                == slot_mint.decimals
            &&& p.amount == amount
            &&& p.payer == 1 && p.payer_lamports == accounts[1].lamports
            &&& p.mint matches Invocation::TokenMintTo { mint, destination, amount: minted, .. } && mint == 3
                && destination == 0 && minted == amount
        }),
{
}

} // verus!

verus! {

/// Only a ticket holder wins, and the prize is shared out by payee: after a
/// successful reward the drawn pair's ticket account (after its wallet)
/// reads as a token account holding at least one ticket, and the prize pool
/// wallet (0) pays 95% to the pair's wallet, 4% to the rewards wallet (1),
/// 0.6% to the SLOT holders' wallet (2) and 0.4% to the labs wallet (3), in
/// that order.
pub proof fn law_reward_winner_holds_ticket(
    accounts: Seq<AccountInfo>,
    lottery_id: u32,
    idx: u64,
    prize_pool: u64,
)
    requires
        accounts.len() <= usize::MAX,
        spec_process_reward_winners(accounts, lottery_id, idx, prize_pool) is Ok,
    ensures
        ({
            let e = spec_process_reward_winners(accounts, lottery_id, idx, prize_pool)->Ok_0;
            &&& 6 + 2 * idx + 1 < accounts.len()
            &&& spec_token_account_unpack(accounts[6 + 2 * idx + 1].data@) matches Ok(ticket)
                && ticket.amount >= 1
            &&& prize_pool > 0
            &&& e.invocations.len() == 4
            &&& e.invocations[0] matches Invocation::SystemShareTransfer { to, share, .. } && to == 6 + 2
                * idx && share == 9500
            &&& e.invocations[1] matches Invocation::SystemShareTransfer { to, share, .. } && to == 1 && share
                == 400
            &&& e.invocations[2] matches Invocation::SystemShareTransfer { to, share, .. } && to == 2 && share
                == 60
            &&& e.invocations[3] matches Invocation::SystemShareTransfer { to, share, .. } && to == 3 && share
                == 40
        }),
{
}

} // verus!
