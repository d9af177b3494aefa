//! The traditional lottery's reward: the fixed shares, the charities' share,
//! and the winners' tiers by how many of the winning numbers a ticket holds.
use vstd::prelude::*;
use crate::program::{
    Pubkey, ProgramError, AccountInfo, Effects, EffectsView, Invocation, spec_calls_then_write,
};
use crate::error::LotteryError;
use crate::state::{LotteryData, TicketData, LotteryResultData};
use crate::processor::{Processor, lottery_err, TICKET_PRICE};

verus! {

/// The number of positions at which `ticket` holds the winning number.
pub open spec fn spec_matches(ticket: [u8; 6], winning: [u8; 6]) -> nat {
    (if ticket@[0] == winning@[0] { 1nat } else { 0nat }) + (if ticket@[1] == winning@[1] {
        1nat
    } else {
        0nat
    }) + (if ticket@[2] == winning@[2] { 1nat } else { 0nat }) + (if ticket@[3] == winning@[3] {
        1nat
    } else {
        0nat
    }) + (if ticket@[4] == winning@[4] { 1nat } else { 0nat }) + (if ticket@[5] == winning@[5] {
        1nat
    } else {
        0nat
    })
}

/// The participants' accounts: those after the first eleven, in pairs of a
/// ticket account and its buyer's wallet.
pub open spec fn reward_pairs(accounts: Seq<AccountInfo>) -> Seq<AccountInfo> {
    accounts.subrange(11, accounts.len() as int)
}

/// The numbers of the tickets of the pairs from the pair `k` on, or the first
/// failure: a ticket account must belong to the program (`IncorrectProgramId`),
/// hold a ticket record, and the wallet beside it must be the ticket's buyer
/// (`InvalidArgument`).
pub open spec fn spec_read_tickets(program_id: Pubkey, pairs: Seq<AccountInfo>, k: nat) -> Result<
    Seq<[u8; 6]>,
    ProgramError,
>
    decreases pairs.len() - 2 * k,
{
    if pairs.len() < 2 * k + 2 {
        Ok(Seq::empty())
    } else if pairs[2 * k as int].owner != program_id {
        Err(ProgramError::IncorrectProgramId)
    } else {
        match TicketData::spec_unpack_unchecked(pairs[2 * k as int].data@) {
            Err(e) => Err(e),
            Ok(t) => if t.user_wallet_pk != pairs[2 * k + 1 as int].key {
                Err(ProgramError::InvalidArgument)
            } else {
                match spec_read_tickets(program_id, pairs, k + 1) {
                    Err(e) => Err(e),
                    Ok(rest) => Ok(seq![t.ticket_number_arr] + rest),
                }
            },
        }
    }
}

/// The tickets read from the pairs from the pair `k` on are no more than
/// those pairs.
pub proof fn lemma_read_tickets_len(program_id: Pubkey, pairs: Seq<AccountInfo>, k: nat)
    requires
        spec_read_tickets(program_id, pairs, k) is Ok,
    ensures
        2 * k + 2 * spec_read_tickets(program_id, pairs, k)->Ok_0.len() <= pairs.len()
            || spec_read_tickets(program_id, pairs, k)->Ok_0.len() == 0,
    decreases pairs.len() - 2 * k,
{
    if pairs.len() >= 2 * k + 2 {
        lemma_read_tickets_len(program_id, pairs, k + 1);
    }
}

/// How many of `tickets` hold exactly `m` of the winning numbers.
pub open spec fn spec_count(tickets: Seq<[u8; 6]>, winning: [u8; 6], m: nat) -> nat
    decreases tickets.len(),
{
    if tickets.len() == 0 {
        0
    } else {
        spec_count(tickets.drop_last(), winning, m) + if spec_matches(tickets.last(), winning)
            == m {
            1nat
        } else {
            0nat
        }
    }
}

/// The six-number winners' share, in ten-thousandths: 65%, less the 2% of
/// the four-number winners and the 5% of the five-number winners where
/// there are any.
pub open spec fn spec_top_share(tickets: Seq<[u8; 6]>, winning: [u8; 6]) -> u64 {
    (6500 - (if spec_count(tickets, winning, 4) > 0 {
        200int
    } else {
        0int
    }) - (if spec_count(tickets, winning, 5) > 0 {
        500int
    } else {
        0int
    })) as u64
}

/// The ticket prices given back to the three-number winners, in lamports
/// (at most `u64::MAX`), which the six-number winners' share gives up.
pub open spec fn spec_refunds(tickets: Seq<[u8; 6]>, winning: [u8; 6]) -> u64 {
    let r = spec_count(tickets, winning, 3) * TICKET_PRICE;
    if r > u64::MAX {
        u64::MAX
    } else {
        r as u64
    }
}

/// What the ticket `j` wins, paid from the holding wallet (2) to its buyer's
/// wallet (at `12 + 2 * j`) through the system program (10): its price back
/// for three numbers; an equal part of 2% of the pool among the four-number
/// winners; an equal part of 5% among the five-number winners; an equal part
/// of the six-number winners' share, less the refunds, among the six-number
/// winners; nothing otherwise.
pub open spec fn spec_payout(tickets: Seq<[u8; 6]>, winning: [u8; 6], pool: u64, j: int) -> Seq<
    Invocation,
> {
    let m = spec_matches(tickets[j], winning);
    let to = (12 + 2 * j) as usize;
    if m == 3 {
        seq![Invocation::SystemTransfer { system_program: 10, from: 2, to, lamports: TICKET_PRICE }]
    } else if m == 4 {
        seq![
            Invocation::SystemSplitTransfer {
                system_program: 10,
                from: 2,
                to,
                pool,
                share: 200,
                deduction: 0,
                parts: spec_count(tickets, winning, 4) as u64,
            },
        ]
    } else if m == 5 {
        seq![
            Invocation::SystemSplitTransfer {
                system_program: 10,
                from: 2,
                to,
                pool,
                share: 500,
                deduction: 0,
                parts: spec_count(tickets, winning, 5) as u64,
            },
        ]
    } else if m == 6 {
        seq![
            Invocation::SystemSplitTransfer {
                system_program: 10,
                from: 2,
                to,
                pool,
                share: spec_top_share(tickets, winning),
                deduction: spec_refunds(tickets, winning),
                parts: spec_count(tickets, winning, 6) as u64,
            },
        ]
    } else {
        Seq::empty()
    }
}

/// What the first `i` tickets win, in their order.
pub open spec fn spec_winner_payments(
    tickets: Seq<[u8; 6]>,
    winning: [u8; 6],
    pool: u64,
    i: nat,
) -> Seq<Invocation>
    decreases i,
{
    if i == 0 {
        Seq::empty()
    } else {
        spec_winner_payments(tickets, winning, pool, (i - 1) as nat) + spec_payout(
            tickets,
            winning,
            pool,
            i - 1,
        )
    }
}

/// The most votes that a charity of the lottery has.
pub open spec fn spec_top_votes(d: LotteryData) -> u32 {
    let a = if d.charity_1_vc >= d.charity_2_vc {
        d.charity_1_vc
    } else {
        d.charity_2_vc
    };
    let b = if d.charity_3_vc >= d.charity_4_vc {
        d.charity_3_vc
    } else {
        d.charity_4_vc
    };
    if a >= b {
        a
    } else {
        b
    }
}

/// How many of the lottery's charities have the most votes.
pub open spec fn spec_top_charities(d: LotteryData) -> nat {
    let t = spec_top_votes(d);
    (if d.charity_1_vc == t { 1nat } else { 0nat }) + (if d.charity_2_vc == t {
        1nat
    } else {
        0nat
    }) + (if d.charity_3_vc == t { 1nat } else { 0nat }) + (if d.charity_4_vc == t {
        1nat
    } else {
        0nat
    })
}

/// The payment to the charity at `to` with `votes` votes: an equal part of
/// 30% of the pool among the most voted charities, where it is one of them.
pub open spec fn spec_charity_payment(d: LotteryData, pool: u64, votes: u32, to: usize) -> Seq<
    Invocation,
> {
    if votes == spec_top_votes(d) {
        seq![
            Invocation::SystemSplitTransfer {
                system_program: 10,
                from: 2,
                to,
                pool,
                share: 3000,
                deduction: 0,
                parts: spec_top_charities(d) as u64,
            },
        ]
    } else {
        Seq::empty()
    }
}

/// The charities' payments, to the charities' wallets (6 to 9) in order.
pub open spec fn spec_charity_payments(d: LotteryData, pool: u64) -> Seq<Invocation> {
    spec_charity_payment(d, pool, d.charity_1_vc, 6) + spec_charity_payment(
        d,
        pool,
        d.charity_2_vc,
        7,
    ) + spec_charity_payment(d, pool, d.charity_3_vc, 8) + spec_charity_payment(
        d,
        pool,
        d.charity_4_vc,
        9,
    )
}

/// The fixed shares of the pool, from the holding wallet (2): 4% to the
/// rewards wallet (3), 0.6% to the SLOT holders' wallet (4), 0.4% to the
/// labs wallet (5).
pub open spec fn spec_fixed_payments(pool: u64) -> Seq<Invocation> {
    seq![
        Invocation::SystemShareTransfer { system_program: 10, from: 2, to: 3, pool, share: 400 },
        Invocation::SystemShareTransfer { system_program: 10, from: 2, to: 4, pool, share: 60 },
        Invocation::SystemShareTransfer { system_program: 10, from: 2, to: 5, pool, share: 40 },
    ]
}

/// The checks of `RewardWinners`, in the order they are made, and the lottery
/// and the tickets' numbers they read: eleven accounts; the lottery data
/// account (0) belongs to the program and has signed; the result account (1)
/// belongs to the program; the holding wallet (2) has signed; the lottery is
/// initialized; its holding, rewards, SLOT holders' and labs wallets are the
/// accounts 2 to 5 (`InvalidArgument`), its charities the accounts 6 to 9
/// (`InvalidCharity`); the participants come in pairs
/// (`NotEnoughAccountKeys`), and every pair reads.
pub open spec fn spec_reward_checks(program_id: Pubkey, accounts: Seq<AccountInfo>) -> Result<
    (LotteryData, Seq<[u8; 6]>),
    ProgramError,
> {
    if accounts.len() < 11 {
        Err(ProgramError::NotEnoughAccountKeys)
    } else if accounts[0].owner != program_id {
        Err(ProgramError::IncorrectProgramId)
    } else if !accounts[0].is_signer {
        Err(ProgramError::MissingRequiredSignature)
    } else if accounts[1].owner != program_id {
        Err(ProgramError::IncorrectProgramId)
    } else if !accounts[2].is_signer {
        Err(ProgramError::MissingRequiredSignature)
    } else {
        match LotteryData::spec_unpack_unchecked(accounts[0].data@) {
            Err(e) => Err(e),
            Ok(d) => if !d.is_initialized {
                Err(lottery_err(LotteryError::NotInitialized))
            } else if d.holding_wallet != accounts[2].key || d.rewards_wallet != accounts[3].key
                || d.slot_holders_rewards_wallet != accounts[4].key || d.sollotto_labs_wallet
                != accounts[5].key {
                Err(ProgramError::InvalidArgument)
            } else if d.charity_1 != accounts[6].key || d.charity_2 != accounts[7].key
                || d.charity_3 != accounts[8].key || d.charity_4 != accounts[9].key {
                Err(lottery_err(LotteryError::InvalidCharity))
            } else if (accounts.len() - 11) % 2 != 0 {
                Err(ProgramError::NotEnoughAccountKeys)
            } else {
                match spec_read_tickets(program_id, reward_pairs(accounts), 0) {
                    Err(e) => Err(e),
                    Ok(tickets) => Ok((d, tickets)),
                }
            },
        }
    }
}

/// `RewardWinners`: after the checks, the pool, what the holding wallet (2)
/// holds, is paid out: the fixed shares, the charities' share, the winners'
/// tiers; the result account (1) is to record the lottery's id and winning
/// numbers. What the six-number winners do not take stays in the holding
/// wallet.
pub open spec fn spec_process_reward_winners(program_id: Pubkey, accounts: Seq<AccountInfo>) -> Result<
    EffectsView,
    ProgramError,
> {
    match spec_reward_checks(program_id, accounts) {
        Err(e) => Err(e),
        Ok((d, tickets)) => {
            let pool = accounts[2].lamports;
            Ok(
                spec_calls_then_write(
                    spec_fixed_payments(pool) + spec_charity_payments(d, pool)
                        + spec_winner_payments(tickets, d.winning_numbers, pool, tickets.len()),
                    1,
                    (LotteryResultData {
                        lottery_id: d.lottery_id,
                        winning_numbers: d.winning_numbers,
                    }).spec_pack(),
                ),
            )
        },
    }
}

/// A tier with a ticket in it counts at least that ticket.
pub proof fn lemma_count_positive(tickets: Seq<[u8; 6]>, winning: [u8; 6], j: int)
    requires
        0 <= j < tickets.len(),
    ensures
        spec_count(tickets, winning, spec_matches(tickets[j], winning)) >= 1,
    decreases tickets.len(),
{
    let m = spec_matches(tickets[j], winning);
    if j < tickets.len() - 1 {
        assert(tickets.drop_last()[j] == tickets[j]);
        lemma_count_positive(tickets.drop_last(), winning, j);
    }
}

/// Each winner of a prize tier gets one equal part of that tier: the payment
/// to a ticket with four, five or six of the winning numbers divides its
/// share among as many parts as the tier has tickets, at least one. The
/// six-number tier's share is what the lower tiers leave of 65%, and it
/// gives up the ticket prices refunded to the three-number tickets.
pub proof fn law_tier_parts(tickets: Seq<[u8; 6]>, winning: [u8; 6], pool: u64, j: int)
    requires
        0 <= j < tickets.len(),
        spec_matches(tickets[j], winning) >= 4,
    ensures
        ({
            let m = spec_matches(tickets[j], winning);
            let p = spec_payout(tickets, winning, pool, j);
            &&& spec_count(tickets, winning, m) >= 1
            &&& p.len() == 1
            &&& p[0] matches Invocation::SystemSplitTransfer { from, pool: paid_from, share, deduction, parts, .. }
                && from == 2 && paid_from == pool && parts == spec_count(tickets, winning, m) as u64
                && (m == 4 ==> share == 200 && deduction == 0)
                && (m == 5 ==> share == 500 && deduction == 0)
                && (m == 6 ==> share + (if spec_count(tickets, winning, 4) > 0 { 200int } else { 0int })
                + (if spec_count(tickets, winning, 5) > 0 { 500int } else { 0int }) == 6500
                && deduction == spec_refunds(tickets, winning))
        }),
{
    lemma_count_positive(tickets, winning, j);
    assert(spec_matches(tickets[j], winning) <= 6);
}

/// A successful reward pays from the holding wallet's pool 4% to the rewards
/// wallet, 0.6% to the SLOT holders' wallet and 0.4% to the labs wallet, then
/// 30% to the charities with the most votes: one equal part to each of them,
/// at least one and at most four.
pub proof fn law_reward_shares(program_id: Pubkey, accounts: Seq<AccountInfo>)
    requires
        spec_process_reward_winners(program_id, accounts) is Ok,
    ensures
        ({
            let (d, tickets) = spec_reward_checks(program_id, accounts)->Ok_0;
            let e = spec_process_reward_winners(program_id, accounts)->Ok_0;
            let pool = accounts[2].lamports;
            let charity = spec_charity_payments(d, pool);
            &&& e.invocations.subrange(0, 3) == spec_fixed_payments(pool)
            &&& 1 <= charity.len() <= 4
            &&& e.invocations.subrange(3, 3 + charity.len() as int) == charity
            &&& forall|i: int|
                0 <= i < charity.len() ==> (#[trigger] charity[i] matches Invocation::SystemSplitTransfer {
                    from,
                    pool: paid_from,
                    share,
                    deduction,
                    parts,
                    ..
                } && from == 2 && paid_from == pool && share == 3000 && deduction == 0 && parts
                    == charity.len())
        }),
{
    let (d, tickets) = spec_reward_checks(program_id, accounts)->Ok_0;
    let e = spec_process_reward_winners(program_id, accounts)->Ok_0;
    let pool = accounts[2].lamports;
    let charity = spec_charity_payments(d, pool);
    let t = spec_top_votes(d);
    let k = spec_top_charities(d);
    assert(d.charity_1_vc == t || d.charity_2_vc == t || d.charity_3_vc == t || d.charity_4_vc == t);
    assert(charity.len() == k);
    assert forall|i: int| 0 <= i < charity.len() implies (#[trigger] charity[i] matches Invocation::SystemSplitTransfer {
        from,
        pool: paid_from,
        share,
        deduction,
        parts,
        ..
    } && from == 2 && paid_from == pool && share == 3000 && deduction == 0 && parts == charity.len()) by {
        let a = spec_charity_payment(d, pool, d.charity_1_vc, 6);
        let b = spec_charity_payment(d, pool, d.charity_2_vc, 7);
        let c = spec_charity_payment(d, pool, d.charity_3_vc, 8);
        let f = spec_charity_payment(d, pool, d.charity_4_vc, 9);
        assert(charity == a + b + c + f);
        if i < a.len() {
            assert(charity[i] == a[i]);
        } else if i < a.len() + b.len() {
            assert(charity[i] == b[i - a.len()]);
        } else if i < a.len() + b.len() + c.len() {
            assert(charity[i] == c[i - a.len() - b.len()]);
        } else {
            assert(charity[i] == f[i - a.len() - b.len() - c.len()]);
        }
    }
    let all = spec_fixed_payments(pool) + charity + spec_winner_payments(
        tickets,
        d.winning_numbers,
        pool,
        tickets.len(),
    );
    assert(e.invocations == all);
    assert(all.subrange(0, 3) =~= spec_fixed_payments(pool));
    assert(all.subrange(3, 3 + charity.len() as int) =~= charity);
}

/// The number of positions at which `ticket` holds the winning number.
pub fn ticket_matches(ticket: &[u8; 6], winning: &[u8; 6]) -> (m: u8)
    ensures
        m == spec_matches(*ticket, *winning),
{
    let mut m: u8 = 0;
    if ticket[0] == winning[0] {
        m = m + 1;
    }
    if ticket[1] == winning[1] {
        m = m + 1;
    }
    if ticket[2] == winning[2] {
        m = m + 1;
    }
    if ticket[3] == winning[3] {
        m = m + 1;
    }
    if ticket[4] == winning[4] {
        m = m + 1;
    }
    if ticket[5] == winning[5] {
        m = m + 1;
    }
    m
}

/// How many of `tickets` hold exactly `m` of the winning numbers.
fn count_matching(tickets: &Vec<[u8; 6]>, winning: &[u8; 6], m: u8) -> (c: u64)
    ensures
        c == spec_count(tickets@, *winning, m as nat),
{
    let mut c: u64 = 0;
    let mut i: usize = 0;
    while i < tickets.len()
        invariant
            i <= tickets@.len(),
            c == spec_count(tickets@.subrange(0, i as int), *winning, m as nat),
            c <= i,
        decreases tickets@.len() - i,
    {
        assert(tickets@.subrange(0, i + 1).drop_last() =~= tickets@.subrange(0, i as int));
        if ticket_matches(&tickets[i], winning) == m {
            c = c + 1;
        }
        i = i + 1;
    }
    assert(tickets@.subrange(0, i as int) =~= tickets@);
    c
}

impl Processor {
    /// Reads the numbers of the participants' tickets, those of the pairs
    /// after the first eleven accounts.
    fn read_tickets(program_id: &Pubkey, accounts: &[AccountInfo]) -> (r: Result<
        Vec<[u8; 6]>,
        ProgramError,
    >)
        requires
            accounts.len() >= 11,
            (accounts.len() - 11) % 2 == 0,
        ensures
            spec_read_tickets(*program_id, reward_pairs(accounts@), 0) == (match r {
                Ok(v) => Ok(v@),
                Err(e) => Err(e),
            }),
    {
        let ghost pairs = reward_pairs(accounts@);
        let mut tickets: Vec<[u8; 6]> = Vec::new();
        let mut i: usize = 11;
        while i < accounts.len()
            invariant
                11 <= i <= accounts.len(),
                (i - 11) % 2 == 0,
                (accounts.len() - 11) % 2 == 0,
                pairs == reward_pairs(accounts@),
                spec_read_tickets(*program_id, pairs, 0) == (match spec_read_tickets(
                    *program_id,
                    pairs,
                    ((i - 11) / 2) as nat,
                ) {
                    Ok(rest) => Ok(tickets@ + rest),
                    Err(e) => Err(e),
                }),
            decreases accounts.len() - i,
        {
            let ghost k: nat = ((i - 11) / 2) as nat;
            assert(pairs[2 * k as int] == accounts@[i as int]);
            assert(pairs[2 * k + 1 as int] == accounts@[i + 1]);
            if accounts[i].owner != *program_id {
                return Err(ProgramError::IncorrectProgramId);
            }
            let ticket = match TicketData::unpack_unchecked(accounts[i].data.as_slice()) {
                Ok(t) => t,
                Err(e) => return Err(e),
            };
            if ticket.user_wallet_pk != accounts[i + 1].key {
                return Err(ProgramError::InvalidArgument);
            }
            let ghost before = tickets@;
            tickets.push(ticket.ticket_number_arr);
            proof {
                match spec_read_tickets(*program_id, pairs, k + 1) {
                    Ok(rest) => {
                        assert(before + (seq![ticket.ticket_number_arr] + rest) =~= tickets@ + rest);
                    },
                    Err(_) => {},
                }
            }
            i = i + 2;
        }
        proof {
            assert(tickets@ + Seq::<[u8; 6]>::empty() =~= tickets@);
        }
        Ok(tickets)
    }

    /// The checks of a reward, and the lottery and tickets they read.
    fn reward_checks(program_id: &Pubkey, accounts: &[AccountInfo]) -> (r: Result<
        (LotteryData, Vec<[u8; 6]>),
        ProgramError,
    >)
        ensures
            spec_reward_checks(*program_id, accounts@) == (match r {
                Ok((d, v)) => Ok((d, v@)),
                Err(e) => Err(e),
            }),
    {
        if accounts.len() < 11 {
            return Err(ProgramError::NotEnoughAccountKeys);
        }
        if accounts[0].owner != *program_id {
            return Err(ProgramError::IncorrectProgramId);
        }
        if !accounts[0].is_signer {
            return Err(ProgramError::MissingRequiredSignature);
        }
        if accounts[1].owner != *program_id {
            return Err(ProgramError::IncorrectProgramId);
        }
        if !accounts[2].is_signer {
            return Err(ProgramError::MissingRequiredSignature);
        }
        let d = match LotteryData::unpack_unchecked(accounts[0].data.as_slice()) {
            Ok(d) => d,
            Err(e) => return Err(e),
        };
        if !d.is_initialized {
            return Err(ProgramError::from(LotteryError::NotInitialized));
        }
        if d.holding_wallet != accounts[2].key || d.rewards_wallet != accounts[3].key
            || d.slot_holders_rewards_wallet != accounts[4].key || d.sollotto_labs_wallet
            != accounts[5].key {
            return Err(ProgramError::InvalidArgument);
        }
        if d.charity_1 != accounts[6].key || d.charity_2 != accounts[7].key || d.charity_3
            != accounts[8].key || d.charity_4 != accounts[9].key {
            return Err(ProgramError::from(LotteryError::InvalidCharity));
        }
        if (accounts.len() - 11) % 2 != 0 {
            return Err(ProgramError::NotEnoughAccountKeys);
        }
        match Self::read_tickets(program_id, accounts) {
            Ok(tickets) => Ok((d, tickets)),
            Err(e) => Err(e),
        }
    }

    /// Pays out the pool of the holding wallet: the fixed shares, the
    /// charities' share and the winners' tiers, and records the lottery's
    /// winning numbers.
    pub fn process_reward_winners(program_id: &Pubkey, accounts: &[AccountInfo]) -> (r: Result<
        Effects,
        ProgramError,
    >)
        ensures
            crate::program::result_view(r) == spec_process_reward_winners(*program_id, accounts@),
    {
        let (d, tickets) = match Self::reward_checks(program_id, accounts) {
            Ok(checked) => checked,
            Err(e) => return Err(e),
        };
        proof {
            lemma_read_tickets_len(*program_id, reward_pairs(accounts@), 0);
        }
        let pool = accounts[2].lamports;
        let winning = d.winning_numbers;
        let mut invocations: Vec<Invocation> = Vec::new();
        invocations.push(Invocation::SystemShareTransfer { system_program: 10, from: 2, to: 3, pool, share: 400 });
        invocations.push(Invocation::SystemShareTransfer { system_program: 10, from: 2, to: 4, pool, share: 60 });
        invocations.push(Invocation::SystemShareTransfer { system_program: 10, from: 2, to: 5, pool, share: 40 });
        assert(invocations@ =~= spec_fixed_payments(pool));
        Self::push_charity_payments(&mut invocations, &d, pool);
        let ghost head = invocations@;
        let threes = count_matching(&tickets, &winning, 3);
        let fours = count_matching(&tickets, &winning, 4);
        let fives = count_matching(&tickets, &winning, 5);
        let sixes = count_matching(&tickets, &winning, 6);
        let mut top_share: u64 = 6500;
        if fours > 0 {
            top_share = top_share - 200;
        }
        if fives > 0 {
            top_share = top_share - 500;
        }
        let refunds: u64 = match threes.checked_mul(TICKET_PRICE) {
            Some(r) => r,
            None => u64::MAX,
        };
        assert(top_share == spec_top_share(tickets@, winning));
        assert(refunds == spec_refunds(tickets@, winning));
        let mut j: usize = 0;
        while j < tickets.len()
            invariant
                j <= tickets@.len(),
                11 + 2 * tickets@.len() <= accounts@.len(),
                accounts@.len() <= usize::MAX,
                invocations@ == head + spec_winner_payments(tickets@, winning, pool, j as nat),
                threes == spec_count(tickets@, winning, 3),
                fours == spec_count(tickets@, winning, 4),
                fives == spec_count(tickets@, winning, 5),
                sixes == spec_count(tickets@, winning, 6),
                top_share == spec_top_share(tickets@, winning),
                refunds == spec_refunds(tickets@, winning),
            decreases tickets@.len() - j,
        {
            let m = ticket_matches(&tickets[j], &winning);
            let to: usize = 12 + 2 * j;
            let ghost before = invocations@;
            if m == 3 {
                invocations.push(Invocation::SystemTransfer { system_program: 10, from: 2, to, lamports: TICKET_PRICE });
            } else if m == 4 {
                invocations.push(
                    Invocation::SystemSplitTransfer {
                        system_program: 10,
                        from: 2,
                        to,
                        pool,
                        share: 200,
                        deduction: 0,
                        parts: fours,
                    },
                );
            } else if m == 5 {
                invocations.push(
                    Invocation::SystemSplitTransfer {
                        system_program: 10,
                        from: 2,
                        to,
                        pool,
                        share: 500,
                        deduction: 0,
                        parts: fives,
                    },
                );
            } else if m == 6 {
                invocations.push(
                    Invocation::SystemSplitTransfer {
                        system_program: 10,
                        from: 2,
                        to,
                        pool,
                        share: top_share,
                        deduction: refunds,
                        parts: sixes,
                    },
                );
            }
            assert(invocations@ =~= before + spec_payout(tickets@, winning, pool, j as int));
            assert(head + spec_winner_payments(tickets@, winning, pool, (j + 1) as nat) =~= before
                + spec_payout(tickets@, winning, pool, j as int));
            j = j + 1;
        }
        let result = LotteryResultData { lottery_id: d.lottery_id, winning_numbers: winning };
        Ok(Effects::calls_then_write(invocations, 1, result.pack_to_vec()))
    }

    /// Appends the charities' payments to `invocations`.
    fn push_charity_payments(invocations: &mut Vec<Invocation>, d: &LotteryData, pool: u64)
        ensures
            final(invocations)@ == old(invocations)@ + spec_charity_payments(*d, pool),
    {
        let a = if d.charity_1_vc >= d.charity_2_vc {
            d.charity_1_vc
        } else {
            d.charity_2_vc
        };
        let b = if d.charity_3_vc >= d.charity_4_vc {
            d.charity_3_vc
        } else {
            d.charity_4_vc
        };
        let top = if a >= b {
            a
        } else {
            b
        };
        let mut k: u64 = 0;
        if d.charity_1_vc == top {
            k = k + 1;
        }
        if d.charity_2_vc == top {
            k = k + 1;
        }
        if d.charity_3_vc == top {
            k = k + 1;
        }
        if d.charity_4_vc == top {
            k = k + 1;
        }
        assert(top == spec_top_votes(*d));
        assert(k == spec_top_charities(*d));
        let ghost start = invocations@;
        let votes = [d.charity_1_vc, d.charity_2_vc, d.charity_3_vc, d.charity_4_vc];
        let mut c: usize = 0;
        while c < 4
            invariant
                c <= 4,
                votes@ == seq![d.charity_1_vc, d.charity_2_vc, d.charity_3_vc, d.charity_4_vc],
                top == spec_top_votes(*d),
                k == spec_top_charities(*d),
                invocations@ == start + (if c == 0 {
                    Seq::empty()
                } else if c == 1 {
                    spec_charity_payment(*d, pool, d.charity_1_vc, 6)
                } else if c == 2 {
                    spec_charity_payment(*d, pool, d.charity_1_vc, 6) + spec_charity_payment(
                        *d,
                        pool,
                        d.charity_2_vc,
                        7,
                    )
                } else if c == 3 {
                    spec_charity_payment(*d, pool, d.charity_1_vc, 6) + spec_charity_payment(
                        *d,
                        pool,
                        d.charity_2_vc,
                        7,
                    ) + spec_charity_payment(*d, pool, d.charity_3_vc, 8)
                } else {
                    spec_charity_payments(*d, pool)
                }),
            decreases 4 - c,
        {
            let ghost before = invocations@;
            if votes[c] == top {
                invocations.push(
                    Invocation::SystemSplitTransfer {
                        system_program: 10,
                        from: 2,
                        to: 6 + c,
                        pool,
                        share: 3000,
                        deduction: 0,
                        parts: k,
                    },
                );
            }
            assert(invocations@ =~= before + spec_charity_payment(*d, pool, votes@[c as int], (6 + c) as usize));
            c = c + 1;
        }
    }
}

} // verus!

verus! {

/// No winner's payment goes to an account before the pairs: every split
/// transfer among what the first `i` tickets win goes to an account at 12 or
/// after, where the tickets' positions fit in a `usize`.
proof fn lemma_winner_payments_after_pairs(tickets: Seq<[u8; 6]>, winning: [u8; 6], pool: u64, i: nat)
    requires
        i <= tickets.len(),
        10 + 2 * tickets.len() <= usize::MAX,
    ensures
        forall|k: int|
            0 <= k < spec_winner_payments(tickets, winning, pool, i).len() ==> (#[trigger] spec_winner_payments(
                tickets,
                winning,
                pool,
                i,
            )[k] matches Invocation::SystemSplitTransfer { to, .. } ==> to >= 12),
    decreases i,
{
    if i > 0 {
        lemma_winner_payments_after_pairs(tickets, winning, pool, (i - 1) as nat);
        let prev = spec_winner_payments(tickets, winning, pool, (i - 1) as nat);
        let p = spec_payout(tickets, winning, pool, i - 1);
        let all = spec_winner_payments(tickets, winning, pool, i);
        assert(all == prev + p);
        assert((12 + 2 * (i - 1)) as usize == 12 + 2 * (i - 1));
        assert forall|k: int| 0 <= k < all.len() implies (#[trigger] all[k] matches Invocation::SystemSplitTransfer { to, .. } ==> to >= 12) by {
            if k < prev.len() {
                assert(all[k] == prev[k]);
            } else {
                assert(all[k] == p[k - prev.len()]);
            }
        }
    }
}

/// The charities' share goes to the charities with the most votes: a
/// charity (`c`, from 0 to 3, at account `6 + c`) has as many votes as any
/// of the four exactly when a successful reward pays it 30% of the pool;
/// and every split payment to it is that one, an equal part among the
/// charities that have as many votes as it has.
pub proof fn law_reward_pays_most_voted_charities(program_id: Pubkey, accounts: Seq<AccountInfo>, c: int)
    requires
        accounts.len() <= usize::MAX,
        0 <= c < 4,
        spec_process_reward_winners(program_id, accounts) is Ok,
    ensures
        ({
            let d = LotteryData::spec_unpack_unchecked(accounts[0].data@)->Ok_0;
            let votes = seq![d.charity_1_vc, d.charity_2_vc, d.charity_3_vc, d.charity_4_vc];
            let e = spec_process_reward_winners(program_id, accounts)->Ok_0;
            &&& (forall|x: int| 0 <= x < 4 ==> votes[x] <= votes[c]) <==> (exists|i: int|
                0 <= i < e.invocations.len() && (#[trigger] e.invocations[i] matches Invocation::SystemSplitTransfer {
                    to,
                    share,
                    ..
                } && to == 6 + c && share == 3000))
            &&& forall|i: int|
                0 <= i < e.invocations.len() && (#[trigger] e.invocations[i] matches Invocation::SystemSplitTransfer {
                    to,
                    ..
                } && to == 6 + c) ==> (e.invocations[i] matches Invocation::SystemSplitTransfer {
                    from,
                    pool,
                    share,
                    deduction,
                    parts,
                    ..
                } && from == 2 && pool == accounts[2].lamports && share == 3000 && deduction == 0 && parts
                    == (if d.charity_1_vc == votes[c] { 1int } else { 0int }) + (if d.charity_2_vc
                    == votes[c] { 1int } else { 0int }) + (if d.charity_3_vc == votes[c] {
                    1int
                } else {
                    0int
                }) + (if d.charity_4_vc == votes[c] { 1int } else { 0int }))
        }),
{
    let (d, tickets) = spec_reward_checks(program_id, accounts)->Ok_0;
    let votes = seq![d.charity_1_vc, d.charity_2_vc, d.charity_3_vc, d.charity_4_vc];
    let e = spec_process_reward_winners(program_id, accounts)->Ok_0;
    let pool = accounts[2].lamports;
    let t = spec_top_votes(d);
    let fixed = spec_fixed_payments(pool);
    let a = spec_charity_payment(d, pool, d.charity_1_vc, 6);
    let b = spec_charity_payment(d, pool, d.charity_2_vc, 7);
    let cc = spec_charity_payment(d, pool, d.charity_3_vc, 8);
    let f = spec_charity_payment(d, pool, d.charity_4_vc, 9);
    let charity = spec_charity_payments(d, pool);
    let w = spec_winner_payments(tickets, d.winning_numbers, pool, tickets.len());
    assert(charity == a + b + cc + f);
    assert(e.invocations == fixed + charity + w);
    lemma_read_tickets_len(program_id, reward_pairs(accounts), 0);
    lemma_winner_payments_after_pairs(tickets, d.winning_numbers, pool, tickets.len());
    // The maximum of the four tallies is the top votes.
    assert((forall|x: int| 0 <= x < 4 ==> votes[x] <= votes[c]) <==> votes[c] == t);
    let pay = spec_charity_payment(d, pool, votes[c], (6 + c) as usize);
    // Where each charity's payment stands.
    let at: int = if c == 0 {
        3
    } else if c == 1 {
        3 + a.len() as int
    } else if c == 2 {
        3 + a.len() + b.len() as int
    } else {
        3 + a.len() + b.len() + cc.len() as int
    };
    if votes[c] == t {
        assert(e.invocations[at] == pay[0]);
    }
    assert forall|i: int|
        0 <= i < e.invocations.len() && (#[trigger] e.invocations[i] matches Invocation::SystemSplitTransfer {
            to,
            ..
        } && to == 6 + c) implies (votes[c] == t && e.invocations[i] == pay[0]) by {
        if i < 3 {
            assert(e.invocations[i] == fixed[i]);
        } else if i < 3 + charity.len() {
            let j = i - 3;
            assert(e.invocations[i] == charity[j]);
            if j < a.len() {
                assert(charity[j] == a[j]);
            } else if j < a.len() + b.len() {
                assert(charity[j] == b[j - a.len()]);
            } else if j < a.len() + b.len() + cc.len() {
                assert(charity[j] == cc[j - a.len() - b.len()]);
            } else {
                assert(charity[j] == f[j - a.len() - b.len() - cc.len()]);
            }
        } else {
            assert(e.invocations[i] == w[i - 3 - charity.len()]);
        }
    }
}

} // verus!

verus! {

/// A pair that the reading of the tickets passed over is a valid one: the
/// pair `j`, at or after the pair `k` where the reading began, has a ticket
/// account that belongs to the program and reads as a ticket bought by the
/// wallet beside it, and its numbers are the ticket read for it.
proof fn lemma_read_ticket_pair(program_id: Pubkey, pairs: Seq<AccountInfo>, k: nat, j: nat)
    requires
        k <= j,
        2 * j + 2 <= pairs.len(),
        spec_read_tickets(program_id, pairs, k) is Ok,
    ensures
        pairs[2 * j as int].owner == program_id,
        TicketData::spec_unpack_unchecked(pairs[2 * j as int].data@) matches Ok(ticket)
            && ticket.user_wallet_pk == pairs[2 * j + 1 as int].key
            && spec_read_tickets(program_id, pairs, k)->Ok_0.len() > j - k
            && spec_read_tickets(program_id, pairs, k)->Ok_0[j - k] == ticket.ticket_number_arr,
    decreases j - k,
{
    if k < j {
        lemma_read_ticket_pair(program_id, pairs, k + 1, j);
    }
}

/// Only bought tickets take part: after a successful reward, the first
/// account of every participant's pair belongs to the program and reads as
/// a ticket whose buyer is the wallet beside it.
pub proof fn law_reward_tickets_name_wallets(program_id: Pubkey, accounts: Seq<AccountInfo>)
    requires
        spec_process_reward_winners(program_id, accounts) is Ok,
    ensures
        forall|i: int|
            11 <= i < accounts.len() && (i - 11) % 2 == 0 ==> (#[trigger] accounts[i]).owner == program_id
                && (TicketData::spec_unpack_unchecked(accounts[i].data@) matches Ok(ticket)
                && i + 1 < accounts.len() && ticket.user_wallet_pk == accounts[i + 1].key),
{
    let pairs = reward_pairs(accounts);
    assert forall|i: int|
        11 <= i < accounts.len() && (i - 11) % 2 == 0 implies (#[trigger] accounts[i]).owner == program_id
        && (TicketData::spec_unpack_unchecked(accounts[i].data@) matches Ok(ticket) && i + 1
        < accounts.len() && ticket.user_wallet_pk == accounts[i + 1].key) by {
        let j: nat = ((i - 11) / 2) as nat;
        assert(pairs[2 * j as int] == accounts[i]);
        assert(pairs[2 * j + 1 as int] == accounts[i + 1]);
        lemma_read_ticket_pair(program_id, pairs, 0, j);
    }
}

/// A reward pays the wallets that the lottery records: after a successful
/// reward the lottery is initialized; the paying wallet (2) is its holding
/// wallet; 4%, 0.6% and 0.4% of the pool go, first and in that order, to its
/// rewards wallet, its SLOT holders' wallet and its labs wallet; and the
/// charities' wallets (6 to 9) are its four charities.
pub proof fn law_reward_pays_recorded_wallets(program_id: Pubkey, accounts: Seq<AccountInfo>)
    requires
        spec_process_reward_winners(program_id, accounts) is Ok,
    ensures
        ({
            let d = LotteryData::spec_unpack_unchecked(accounts[0].data@)->Ok_0;
            let e = spec_process_reward_winners(program_id, accounts)->Ok_0;
            let pool = accounts[2].lamports;
            &&& LotteryData::spec_unpack_unchecked(accounts[0].data@) is Ok && d.is_initialized
            &&& accounts[2].key == d.holding_wallet
            &&& e.invocations[0] matches Invocation::SystemShareTransfer { from, to, pool: p, share, .. }
                && from == 2 && accounts[to as int].key == d.rewards_wallet && p == pool && share == 400
            &&& e.invocations[1] matches Invocation::SystemShareTransfer { from, to, pool: p, share, .. }
                && from == 2 && accounts[to as int].key == d.slot_holders_rewards_wallet && p == pool
                && share == 60
            &&& e.invocations[2] matches Invocation::SystemShareTransfer { from, to, pool: p, share, .. }
                && from == 2 && accounts[to as int].key == d.sollotto_labs_wallet && p == pool && share
                == 40
            &&& accounts[6].key == d.charity_1 && accounts[7].key == d.charity_2
            &&& accounts[8].key == d.charity_3 && accounts[9].key == d.charity_4
        }),
{
    let (d, tickets) = spec_reward_checks(program_id, accounts)->Ok_0;
    let e = spec_process_reward_winners(program_id, accounts)->Ok_0;
    let pool = accounts[2].lamports;
    let fixed = spec_fixed_payments(pool);
    let rest = spec_charity_payments(d, pool) + spec_winner_payments(
        tickets,
        d.winning_numbers,
        pool,
        tickets.len(),
    );
    assert(e.invocations == fixed + rest);
    assert(e.invocations[0] == fixed[0]);
    assert(e.invocations[1] == fixed[1]);
    assert(e.invocations[2] == fixed[2]);
}

} // verus!

verus! {

/// Whether `inv` moves lamports to the account at `to`.
pub open spec fn spec_pays(inv: Invocation, to: int) -> bool {
    match inv {
        Invocation::SystemTransfer { to: payee, .. } => payee == to,
        Invocation::SystemShareTransfer { to: payee, .. } => payee == to,
        Invocation::SystemSplitTransfer { to: payee, .. } => payee == to,
        _ => false,
    }
}

/// Among what the first `i` tickets win, the ticket `j`'s wallet (at
/// `12 + 2 * j`) is paid only by the ticket's own payout, at most once, and
/// is paid where `j` is among them and the ticket wins something.
proof fn lemma_winner_payments_to(tickets: Seq<[u8; 6]>, winning: [u8; 6], pool: u64, i: nat, j: int)
    requires
        i <= tickets.len(),
        0 <= j < tickets.len(),
        10 + 2 * tickets.len() <= usize::MAX,
    ensures
        forall|k: int|
            0 <= k < spec_winner_payments(tickets, winning, pool, i).len() && spec_pays(
                #[trigger] spec_winner_payments(tickets, winning, pool, i)[k],
                12 + 2 * j,
            ) ==> j < i && spec_payout(tickets, winning, pool, j).len() > 0 && spec_winner_payments(tickets, winning, pool, i)[k] == spec_payout(
                tickets,
                winning,
                pool,
                j,
            )[0],
        forall|k1: int, k2: int|
            0 <= k1 < spec_winner_payments(tickets, winning, pool, i).len() && 0 <= k2
                < spec_winner_payments(tickets, winning, pool, i).len() && spec_pays(
                #[trigger] spec_winner_payments(tickets, winning, pool, i)[k1],
                12 + 2 * j,
            ) && spec_pays(#[trigger] spec_winner_payments(tickets, winning, pool, i)[k2], 12 + 2 * j)
                ==> k1 == k2,
        j < i && spec_payout(tickets, winning, pool, j).len() > 0 ==> exists|k: int|
            0 <= k < spec_winner_payments(tickets, winning, pool, i).len() && #[trigger] spec_winner_payments(
                tickets,
                winning,
                pool,
                i,
            )[k] == spec_payout(tickets, winning, pool, j)[0],
    decreases i,
{
    if i > 0 {
        lemma_winner_payments_to(tickets, winning, pool, (i - 1) as nat, j);
        let prev = spec_winner_payments(tickets, winning, pool, (i - 1) as nat);
        let p = spec_payout(tickets, winning, pool, i - 1);
        let all = spec_winner_payments(tickets, winning, pool, i);
        assert(all == prev + p);
        assert((12 + 2 * (i - 1)) as usize == 12 + 2 * (i - 1));
        assert(p.len() <= 1);
        assert forall|k: int| 0 <= k < all.len() && spec_pays(#[trigger] all[k], 12 + 2 * j) implies j < i
            && spec_payout(tickets, winning, pool, j).len() > 0 && all[k] == spec_payout(tickets, winning, pool, j)[0] by {
            if k < prev.len() {
                assert(all[k] == prev[k]);
            } else {
                assert(all[k] == p[k - prev.len()]);
            }
        }
        assert forall|k1: int, k2: int|
            0 <= k1 < all.len() && 0 <= k2 < all.len() && spec_pays(#[trigger] all[k1], 12 + 2 * j)
                && spec_pays(#[trigger] all[k2], 12 + 2 * j) implies k1 == k2 by {
            if k1 < prev.len() {
                assert(all[k1] == prev[k1]);
            } else {
                assert(all[k1] == p[k1 - prev.len()]);
            }
            if k2 < prev.len() {
                assert(all[k2] == prev[k2]);
            } else {
                assert(all[k2] == p[k2 - prev.len()]);
            }
        }
        if j < i && spec_payout(tickets, winning, pool, j).len() > 0 {
            if j == i - 1 {
                assert(all[prev.len() as int] == p[0]);
            } else {
                let k = choose|k: int| 0 <= k < prev.len() && #[trigger] prev[k] == spec_payout(
                    tickets,
                    winning,
                    pool,
                    j,
                )[0];
                assert(all[k] == prev[k]);
            }
        }
    }
}

} // verus!

verus! {

/// Every ticket is paid by how many of the winning numbers it holds: after a
/// successful reward, the wallet of the pair `j` (at `12 + 2 * j`) is paid
/// exactly when the pair's ticket holds at least three of the lottery's
/// winning numbers, and then by one payment from the holding wallet (2):
/// the ticket's price back for three; a part of 2% of the pool for four, of
/// 5% for five, and of what the lower tiers leave of 65% for six, less the
/// prices given back for three; as many parts as the tier has tickets.
pub proof fn law_reward_pays_each_ticket(program_id: Pubkey, accounts: Seq<AccountInfo>, j: int)
    requires
        accounts.len() <= usize::MAX,
        0 <= j,
        12 + 2 * j < accounts.len(),
        spec_process_reward_winners(program_id, accounts) is Ok,
    ensures
        ({
            let d = LotteryData::spec_unpack_unchecked(accounts[0].data@)->Ok_0;
            let e = spec_process_reward_winners(program_id, accounts)->Ok_0;
            let ticket = TicketData::spec_unpack_unchecked(accounts[11 + 2 * j].data@)->Ok_0;
            let m = spec_matches(ticket.ticket_number_arr, d.winning_numbers);
            let tickets = spec_reward_checks(program_id, accounts)->Ok_0.1;
            let pool = accounts[2].lamports;
            &&& m >= 3 <==> exists|i: int|
                0 <= i < e.invocations.len() && spec_pays(#[trigger] e.invocations[i], 12 + 2 * j)
            &&& forall|i1: int, i2: int|
                0 <= i1 < e.invocations.len() && 0 <= i2 < e.invocations.len() && spec_pays(
                    #[trigger] e.invocations[i1],
                    12 + 2 * j,
                ) && spec_pays(#[trigger] e.invocations[i2], 12 + 2 * j) ==> i1 == i2
            &&& forall|i: int|
                0 <= i < e.invocations.len() && spec_pays(#[trigger] e.invocations[i], 12 + 2 * j) ==> {
                    &&& m == 3 ==> (e.invocations[i] matches Invocation::SystemTransfer { from, lamports, .. }
                        && from == 2 && lamports == TICKET_PRICE)
                    &&& m >= 4 ==> (e.invocations[i] matches Invocation::SystemSplitTransfer {
                        from,
                        pool: p,
                        share,
                        ..
                    } && from == 2 && p == pool && (m == 4 ==> share == 200) && (m == 5 ==> share == 500)
                        && (m == 6 ==> share + (if spec_count(tickets, d.winning_numbers, 4) > 0 {
                        200int
                    } else {
                        0int
                    }) + (if spec_count(tickets, d.winning_numbers, 5) > 0 {
                        500int
                    } else {
                        0int
                    }) == 6500))
                    &&& m >= 4 ==> (e.invocations[i] matches Invocation::SystemSplitTransfer {
                        deduction,
                        parts,
                        ..
                    } && parts == spec_count(tickets, d.winning_numbers, m) && (m <= 5 ==> deduction == 0)
                        && (m == 6 ==> (deduction == spec_count(tickets, d.winning_numbers, 3)
                        * TICKET_PRICE || (spec_count(tickets, d.winning_numbers, 3) * TICKET_PRICE
                        > u64::MAX && deduction == u64::MAX))))
                }
        }),
{
    let (d, tickets) = spec_reward_checks(program_id, accounts)->Ok_0;
    let e = spec_process_reward_winners(program_id, accounts)->Ok_0;
    let pool = accounts[2].lamports;
    let pairs = reward_pairs(accounts);
    let to = 12 + 2 * j;
    lemma_read_tickets_len(program_id, pairs, 0);
    lemma_read_ticket_pair(program_id, pairs, 0, j as nat);
    assert(pairs[2 * j] == accounts[11 + 2 * j]);
    let ticket = TicketData::spec_unpack_unchecked(accounts[11 + 2 * j].data@)->Ok_0;
    assert(tickets[j] == ticket.ticket_number_arr);
    let m = spec_matches(tickets[j], d.winning_numbers);
    assert(m <= 6);
    let fixed = spec_fixed_payments(pool);
    let charity = spec_charity_payments(d, pool);
    let w = spec_winner_payments(tickets, d.winning_numbers, pool, tickets.len());
    let pay = spec_payout(tickets, d.winning_numbers, pool, j);
    assert(e.invocations == fixed + charity + w);
    lemma_winner_payments_to(tickets, d.winning_numbers, pool, tickets.len(), j);
    lemma_charity_payments_to(d, pool);
    law_tiers_part_tickets(tickets, d.winning_numbers);
    assert(tickets.len() <= usize::MAX);
    assert((12 + 2 * j) as usize == 12 + 2 * j);
    // Only the winners' payments reach the pair's wallet.
    assert forall|i: int| 0 <= i < e.invocations.len() && spec_pays(#[trigger] e.invocations[i], to) implies i
        >= 3 + charity.len() && e.invocations[i] == w[i - 3 - charity.len()] by {
        if i < 3 {
            assert(e.invocations[i] == fixed[i]);
        } else if i < 3 + charity.len() {
            assert(e.invocations[i] == charity[i - 3]);
        } else {
            assert(e.invocations[i] == w[i - 3 - charity.len()]);
        }
    }
    if m >= 3 {
        let k = choose|k: int| 0 <= k < w.len() && #[trigger] w[k] == pay[0];
        assert(e.invocations[3 + charity.len() + k] == w[k]);
        assert(spec_pays(e.invocations[3 + charity.len() + k], to));
    }
    assert forall|i1: int, i2: int|
        0 <= i1 < e.invocations.len() && 0 <= i2 < e.invocations.len() && spec_pays(
            #[trigger] e.invocations[i1],
            to,
        ) && spec_pays(#[trigger] e.invocations[i2], to) implies i1 == i2 by {
        assert(spec_pays(w[i1 - 3 - charity.len()], to));
        assert(spec_pays(w[i2 - 3 - charity.len()], to));
    }
}

/// The charities' payments go to the charities' wallets, 6 to 9.
proof fn lemma_charity_payments_to(d: LotteryData, pool: u64)
    ensures
        forall|k: int|
            0 <= k < spec_charity_payments(d, pool).len() ==> (#[trigger] spec_charity_payments(d, pool)[k] matches Invocation::SystemSplitTransfer {
                to,
                ..
            } && 6 <= to <= 9),
{
    let a = spec_charity_payment(d, pool, d.charity_1_vc, 6);
    let b = spec_charity_payment(d, pool, d.charity_2_vc, 7);
    let c = spec_charity_payment(d, pool, d.charity_3_vc, 8);
    let f = spec_charity_payment(d, pool, d.charity_4_vc, 9);
    let charity = spec_charity_payments(d, pool);
    assert(charity == a + b + c + f);
    assert forall|k: int| 0 <= k < charity.len() implies (#[trigger] charity[k] matches Invocation::SystemSplitTransfer {
        to,
        ..
    } && 6 <= to <= 9) by {
        if k < a.len() {
            assert(charity[k] == a[k]);
        } else if k < a.len() + b.len() {
            assert(charity[k] == b[k - a.len()]);
        } else if k < a.len() + b.len() + c.len() {
            assert(charity[k] == c[k - a.len() - b.len()]);
        } else {
            assert(charity[k] == f[k - a.len() - b.len() - c.len()]);
        }
    }
}

} // verus!

verus! {

/// Counting matched numbers: a ticket holding the winning numbers matches
/// all six; one that differs from them at every position matches none; the
/// count is symmetric and never passes six; and a ticket that agrees with
/// the winning numbers at the same positions as another has as many matches.
pub proof fn law_matches_count_positions(ticket: [u8; 6], other: [u8; 6], winning: [u8; 6])
    ensures
        spec_matches(winning, winning) == 6,
        (forall|i: int| 0 <= i < 6 ==> ticket@[i] != winning@[i]) ==> spec_matches(ticket, winning)
            == 0,
        spec_matches(ticket, winning) == spec_matches(winning, ticket),
        spec_matches(ticket, winning) <= 6,
        (forall|i: int| 0 <= i < 6 ==> (ticket@[i] == winning@[i] <==> other@[i] == winning@[i]))
            ==> spec_matches(ticket, winning) == spec_matches(other, winning),
{
    if forall|i: int| 0 <= i < 6 ==> ticket@[i] != winning@[i] {
        assert(ticket@[0] != winning@[0] && ticket@[1] != winning@[1] && ticket@[2] != winning@[2]);
        assert(ticket@[3] != winning@[3] && ticket@[4] != winning@[4] && ticket@[5] != winning@[5]);
    }
    if forall|i: int| 0 <= i < 6 ==> (ticket@[i] == winning@[i] <==> other@[i] == winning@[i]) {
        assert(ticket@[0] == winning@[0] <==> other@[0] == winning@[0]);
        assert(ticket@[1] == winning@[1] <==> other@[1] == winning@[1]);
        assert(ticket@[2] == winning@[2] <==> other@[2] == winning@[2]);
        assert(ticket@[3] == winning@[3] <==> other@[3] == winning@[3]);
        assert(ticket@[4] == winning@[4] <==> other@[4] == winning@[4]);
        assert(ticket@[5] == winning@[5] <==> other@[5] == winning@[5]);
    }
}

} // verus!

verus! {

/// The tiers part the tickets: every ticket holds from none to six of the
/// winning numbers, so the counts of the seven tiers add up to the number of
/// tickets.
pub proof fn law_tiers_part_tickets(tickets: Seq<[u8; 6]>, winning: [u8; 6])
    ensures
        spec_count(tickets, winning, 0) + spec_count(tickets, winning, 1) + spec_count(tickets, winning, 2)
            + spec_count(tickets, winning, 3) + spec_count(tickets, winning, 4) + spec_count(
            tickets,
            winning,
            5,
        ) + spec_count(tickets, winning, 6) == tickets.len(),
    decreases tickets.len(),
{
    if tickets.len() > 0 {
        law_tiers_part_tickets(tickets.drop_last(), winning);
        assert(spec_matches(tickets.last(), winning) <= 6);
    }
}

} // verus!

verus! {

/// A successful reward records the draw: the result account (1) is the one
/// account written, and what it holds reads back as the lottery's id and
/// winning numbers.
pub proof fn law_reward_records_draw(program_id: Pubkey, accounts: Seq<AccountInfo>)
    requires
        spec_process_reward_winners(program_id, accounts) is Ok,
    ensures
        ({
            let d = LotteryData::spec_unpack_unchecked(accounts[0].data@)->Ok_0;
            let e = spec_process_reward_winners(program_id, accounts)->Ok_0;
            &&& e.writes.len() == 1 && e.writes[0].0 == 1
            &&& LotteryResultData::spec_unpack_unchecked(e.writes[0].1) == Ok::<
                LotteryResultData,
                ProgramError,
            >(LotteryResultData { lottery_id: d.lottery_id, winning_numbers: d.winning_numbers })
        }),
{
    let d = LotteryData::spec_unpack_unchecked(accounts[0].data@)->Ok_0;
    LotteryResultData::law_unpack_pack(
        LotteryResultData { lottery_id: d.lottery_id, winning_numbers: d.winning_numbers },
    );
}

} // verus!
