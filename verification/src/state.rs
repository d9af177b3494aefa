//! Account records of the traditional lottery and their byte formats.
use vstd::prelude::*;
use vstd::bytes::*;
use crate::program::{Pubkey, ProgramError, group_pubkey};
use crate::codec::{
    push_u32, push_u64, push_arr6, read_u32, read_u64, read_arr6, copy_prefix, spec_arr6,
    lemma_arr6, lemma_arr6_view, lemma_le_roundtrip,
};

verus! {

broadcast use {group_pubkey, lemma_arr6, lemma_arr6_view, vstd::seq_lib::group_seq_properties};

/// The byte that stores a flag.
pub open spec fn bool_byte(b: bool) -> u8 {
    if b {
        1
    } else {
        0
    }
}

/// The stored byte of a flag, which must be 0 or 1.
pub open spec fn spec_read_bool(b: u8) -> Result<bool, ProgramError> {
    if b == 0 {
        Ok(false)
    } else if b == 1 {
        Ok(true)
    } else {
        Err(ProgramError::InvalidAccountData)
    }
}

/// Reads a stored flag.
pub fn read_bool(b: u8) -> (r: Result<bool, ProgramError>)
    ensures
        r == spec_read_bool(b),
{
    if b == 0 {
        Ok(false)
    } else if b == 1 {
        Ok(true)
    } else {
        Err(ProgramError::InvalidAccountData)
    }
}

/// The whole lottery: its settings, its tallies and its outcome.
#[derive(Clone, Copy, Debug, PartialEq)]
pub struct LotteryData {
    pub is_initialized: bool,
    pub is_finaled: bool,
    pub lottery_id: u32,
    pub charity_1: Pubkey,
    pub charity_2: Pubkey,
    pub charity_3: Pubkey,
    pub charity_4: Pubkey,
    pub charity_1_vc: u32,
    pub charity_2_vc: u32,
    pub charity_3_vc: u32,
    pub charity_4_vc: u32,
    pub total_registrations: u32,
    pub winning_numbers: [u8; 6],
    pub prize_pool_amount: u64,
    pub holding_wallet: Pubkey,
    pub rewards_wallet: Pubkey,
    pub slot_holders_rewards_wallet: Pubkey,
    pub sollotto_labs_wallet: Pubkey,
    pub randomness_account: Pubkey,
}

impl LotteryData {
    /// The length of the packed record.
    pub const LEN: usize = 328;

    /// The packed record: the fields in order, flags as one byte, integers
    /// little-endian, addresses as their 32 bytes.
    pub open spec fn spec_pack(self) -> Seq<u8> {
        seq![bool_byte(self.is_initialized), bool_byte(self.is_finaled)] + spec_u32_to_le_bytes(
            self.lottery_id,
        ) + self.charity_1@ + self.charity_2@ + self.charity_3@ + self.charity_4@
            + spec_u32_to_le_bytes(self.charity_1_vc) + spec_u32_to_le_bytes(self.charity_2_vc)
            + spec_u32_to_le_bytes(self.charity_3_vc) + spec_u32_to_le_bytes(self.charity_4_vc)
            + spec_u32_to_le_bytes(self.total_registrations) + self.winning_numbers@
            + spec_u64_to_le_bytes(self.prize_pool_amount) + self.holding_wallet@
            + self.rewards_wallet@ + self.slot_holders_rewards_wallet@
            + self.sollotto_labs_wallet@ + self.randomness_account@
    }

    /// The record stored in the first 328 bytes of `s`.
    pub open spec fn spec_unpack_from_slice(s: Seq<u8>) -> Result<LotteryData, ProgramError> {
        match (spec_read_bool(s[0]), spec_read_bool(s[1])) {
            (Ok(is_initialized), Ok(is_finaled)) => Ok(
                LotteryData {
                    is_initialized,
                    is_finaled,
                    lottery_id: spec_u32_from_le_bytes(s.subrange(2, 6)),
                    charity_1: Pubkey::spec_from_bytes(s.subrange(6, 38)),
                    charity_2: Pubkey::spec_from_bytes(s.subrange(38, 70)),
                    charity_3: Pubkey::spec_from_bytes(s.subrange(70, 102)),
                    charity_4: Pubkey::spec_from_bytes(s.subrange(102, 134)),
                    charity_1_vc: spec_u32_from_le_bytes(s.subrange(134, 138)),
                    charity_2_vc: spec_u32_from_le_bytes(s.subrange(138, 142)),
                    charity_3_vc: spec_u32_from_le_bytes(s.subrange(142, 146)),
                    charity_4_vc: spec_u32_from_le_bytes(s.subrange(146, 150)),
                    total_registrations: spec_u32_from_le_bytes(s.subrange(150, 154)),
                    winning_numbers: spec_arr6(s.subrange(154, 160)),
                    prize_pool_amount: spec_u64_from_le_bytes(s.subrange(160, 168)),
                    holding_wallet: Pubkey::spec_from_bytes(s.subrange(168, 200)),
                    rewards_wallet: Pubkey::spec_from_bytes(s.subrange(200, 232)),
                    slot_holders_rewards_wallet: Pubkey::spec_from_bytes(s.subrange(232, 264)),
                    sollotto_labs_wallet: Pubkey::spec_from_bytes(s.subrange(264, 296)),
                    randomness_account: Pubkey::spec_from_bytes(s.subrange(296, 328)),
                },
            ),
            _ => Err(ProgramError::InvalidAccountData),
        }
    }

    /// The record stored in exactly `s`: `InvalidAccountData` for a wrong length.
    pub open spec fn spec_unpack_unchecked(s: Seq<u8>) -> Result<LotteryData, ProgramError> {
        if s.len() != 328 {
            Err(ProgramError::InvalidAccountData)
        } else {
            LotteryData::spec_unpack_from_slice(s)
        }
    }

    /// As [`LotteryData::spec_unpack_unchecked`], and `UninitializedAccount`
    /// for a record not yet initialized.
    pub open spec fn spec_unpack(s: Seq<u8>) -> Result<LotteryData, ProgramError> {
        match LotteryData::spec_unpack_unchecked(s) {
            Ok(d) => if d.is_initialized {
                Ok(d)
            } else {
                Err(ProgramError::UninitializedAccount)
            },
            Err(e) => Err(e),
        }
    }

    /// The length of the packed record.
    pub fn get_packed_len() -> (n: usize)
        ensures
            n == 328,
    {
        Self::LEN
    }

    /// Whether the lottery has been initialized.
    pub fn is_initialized(&self) -> (b: bool)
        ensures
            b == self.is_initialized,
    {
        self.is_initialized
    }

    /// Reads the record from the first 328 bytes of `src`.
    pub fn unpack_from_slice(src: &[u8]) -> (r: Result<LotteryData, ProgramError>)
        requires
            src@.len() >= 328,
        ensures
            r == LotteryData::spec_unpack_from_slice(src@),
    {
        let is_initialized = match read_bool(src[0]) {
            Ok(b) => b,
            Err(e) => return Err(e),
        };
        let is_finaled = match read_bool(src[1]) {
            Ok(b) => b,
            Err(e) => return Err(e),
        };
        Ok(
            LotteryData {
                is_initialized,
                is_finaled,
                lottery_id: read_u32(src, 2),
                charity_1: Pubkey::from_slice(src, 6),
                charity_2: Pubkey::from_slice(src, 38),
                charity_3: Pubkey::from_slice(src, 70),
                charity_4: Pubkey::from_slice(src, 102),
                charity_1_vc: read_u32(src, 134),
                charity_2_vc: read_u32(src, 138),
                charity_3_vc: read_u32(src, 142),
                charity_4_vc: read_u32(src, 146),
                total_registrations: read_u32(src, 150),
                winning_numbers: read_arr6(src, 154),
                prize_pool_amount: read_u64(src, 160),
                holding_wallet: Pubkey::from_slice(src, 168),
                rewards_wallet: Pubkey::from_slice(src, 200),
                slot_holders_rewards_wallet: Pubkey::from_slice(src, 232),
                sollotto_labs_wallet: Pubkey::from_slice(src, 264),
                randomness_account: Pubkey::from_slice(src, 296),
            },
        )
    }

    /// Reads the record from exactly `input`, initialized or not.
    pub fn unpack_unchecked(input: &[u8]) -> (r: Result<LotteryData, ProgramError>)
        ensures
            r == LotteryData::spec_unpack_unchecked(input@),
    {
        if input.len() != Self::LEN {
            return Err(ProgramError::InvalidAccountData);
        }
        Self::unpack_from_slice(input)
    }

    /// Reads an initialized record from exactly `input`.
    pub fn unpack(input: &[u8]) -> (r: Result<LotteryData, ProgramError>)
        ensures
            r == LotteryData::spec_unpack(input@),
    {
        let value = match Self::unpack_unchecked(input) {
            Ok(v) => v,
            Err(e) => return Err(e),
        };
        if value.is_initialized() {
            Ok(value)
        } else {
            Err(ProgramError::UninitializedAccount)
        }
    }

    /// The packed record.
    pub fn pack_to_vec(&self) -> (v: Vec<u8>)
        ensures
            v@ == self.spec_pack(),
            v@.len() == 328,
    {
        proof {
            lemma_le_roundtrip();
        }
        let mut v: Vec<u8> = Vec::new();
        v.push(if self.is_initialized { 1u8 } else { 0u8 });
        v.push(if self.is_finaled { 1u8 } else { 0u8 });
        push_u32(&mut v, self.lottery_id);
        self.charity_1.write_to(&mut v);
        self.charity_2.write_to(&mut v);
        self.charity_3.write_to(&mut v);
        self.charity_4.write_to(&mut v);
        push_u32(&mut v, self.charity_1_vc);
        push_u32(&mut v, self.charity_2_vc);
        push_u32(&mut v, self.charity_3_vc);
        push_u32(&mut v, self.charity_4_vc);
        push_u32(&mut v, self.total_registrations);
        push_arr6(&mut v, &self.winning_numbers);
        push_u64(&mut v, self.prize_pool_amount);
        self.holding_wallet.write_to(&mut v);
        self.rewards_wallet.write_to(&mut v);
        self.slot_holders_rewards_wallet.write_to(&mut v);
        self.sollotto_labs_wallet.write_to(&mut v);
        self.randomness_account.write_to(&mut v);
        assert(v@ =~= self.spec_pack());
        v
    }

    /// Writes the packed record over the first 328 bytes of `dst`.
    pub fn pack_into_slice(&self, dst: &mut [u8])
        requires
            old(dst)@.len() >= 328,
        ensures
            final(dst)@ == self.spec_pack() + old(dst)@.subrange(328, old(dst)@.len() as int),
    {
        let v = self.pack_to_vec();
        copy_prefix(dst, v.as_slice());
    }

    /// Writes the packed record into `dst`, which must be exactly 328 bytes.
    pub fn pack(src: LotteryData, dst: &mut [u8]) -> (r: Result<(), ProgramError>)
        ensures
            old(dst)@.len() != 328 ==> r == Err::<(), ProgramError>(
                ProgramError::InvalidAccountData,
            ) && final(dst)@ == old(dst)@,
            old(dst)@.len() == 328 ==> r is Ok && final(dst)@ == src.spec_pack(),
    {
        if dst.len() != Self::LEN {
            return Err(ProgramError::InvalidAccountData);
        }
        src.pack_into_slice(dst);
        assert(dst@ =~= src.spec_pack());
        Ok(())
    }

    /// The packed record has 328 bytes, and reads back as the record.
    pub proof fn law_unpack_pack(d: LotteryData)
        ensures
            d.spec_pack().len() == 328,
            LotteryData::spec_unpack_unchecked(d.spec_pack()) == Ok::<LotteryData, ProgramError>(
                d,
            ),
    {
        lemma_le_roundtrip();
        let s = d.spec_pack();
        assert(s.subrange(2, 6) =~= spec_u32_to_le_bytes(d.lottery_id));
        assert(s.subrange(6, 38) =~= d.charity_1@);
        assert(s.subrange(38, 70) =~= d.charity_2@);
        assert(s.subrange(70, 102) =~= d.charity_3@);
        assert(s.subrange(102, 134) =~= d.charity_4@);
        assert(s.subrange(134, 138) =~= spec_u32_to_le_bytes(d.charity_1_vc));
        assert(s.subrange(138, 142) =~= spec_u32_to_le_bytes(d.charity_2_vc));
        assert(s.subrange(142, 146) =~= spec_u32_to_le_bytes(d.charity_3_vc));
        assert(s.subrange(146, 150) =~= spec_u32_to_le_bytes(d.charity_4_vc));
        assert(s.subrange(150, 154) =~= spec_u32_to_le_bytes(d.total_registrations));
        assert(s.subrange(154, 160) =~= d.winning_numbers@);
        assert(s.subrange(160, 168) =~= spec_u64_to_le_bytes(d.prize_pool_amount));
        assert(s.subrange(168, 200) =~= d.holding_wallet@);
        assert(s.subrange(200, 232) =~= d.rewards_wallet@);
        assert(s.subrange(232, 264) =~= d.slot_holders_rewards_wallet@);
        assert(s.subrange(264, 296) =~= d.sollotto_labs_wallet@);
        assert(s.subrange(296, 328) =~= d.randomness_account@);
    }

    /// A record that reads out of 328 bytes packs back to those bytes.
    pub proof fn law_pack_unpack(s: Seq<u8>)
        requires
            LotteryData::spec_unpack_unchecked(s) is Ok,
        ensures
            LotteryData::spec_unpack_unchecked(s)->Ok_0.spec_pack() == s,
    {
        lemma_le_roundtrip();
        let d = LotteryData::spec_unpack_unchecked(s)->Ok_0;
        assert(d.spec_pack() =~= s);
    }
}


/// A purchased ticket: the charity voted for, the buyer, the six numbers.
#[derive(Clone, Copy, Debug, PartialEq)]
pub struct TicketData {
    pub is_purchased: bool,
    pub charity: Pubkey,
    pub user_wallet_pk: Pubkey,
    pub ticket_number_arr: [u8; 6],
}

impl TicketData {
    /// The length of the packed record.
    pub const LEN: usize = 71;

    /// The packed record: flag, charity, buyer, numbers.
    pub open spec fn spec_pack(self) -> Seq<u8> {
        seq![bool_byte(self.is_purchased)] + self.charity@ + self.user_wallet_pk@
            + self.ticket_number_arr@
    }

    /// The record stored in the first 71 bytes of `s`.
    pub open spec fn spec_unpack_from_slice(s: Seq<u8>) -> Result<TicketData, ProgramError> {
        match spec_read_bool(s[0]) {
            Ok(is_purchased) => Ok(
                TicketData {
                    is_purchased,
                    charity: Pubkey::spec_from_bytes(s.subrange(1, 33)),
                    user_wallet_pk: Pubkey::spec_from_bytes(s.subrange(33, 65)),
                    ticket_number_arr: spec_arr6(s.subrange(65, 71)),
                },
            ),
            Err(e) => Err(e),
        }
    }

    /// The record stored in exactly `s`: `InvalidAccountData` for a wrong length.
    pub open spec fn spec_unpack_unchecked(s: Seq<u8>) -> Result<TicketData, ProgramError> {
        if s.len() != 71 {
            Err(ProgramError::InvalidAccountData)
        } else {
            TicketData::spec_unpack_from_slice(s)
        }
    }

    /// The length of the packed record.
    pub fn get_packed_len() -> (n: usize)
        ensures
            n == 71,
    {
        Self::LEN
    }

    /// Reads the record from the first 71 bytes of `src`.
    pub fn unpack_from_slice(src: &[u8]) -> (r: Result<TicketData, ProgramError>)
        requires
            src@.len() >= 71,
        ensures
            r == TicketData::spec_unpack_from_slice(src@),
    {
        let is_purchased = match read_bool(src[0]) {
            Ok(b) => b,
            Err(e) => return Err(e),
        };
        Ok(
            TicketData {
                is_purchased,
                charity: Pubkey::from_slice(src, 1),
                user_wallet_pk: Pubkey::from_slice(src, 33),
                ticket_number_arr: read_arr6(src, 65),
            },
        )
    }

    /// Reads the record from exactly `input`.
    pub fn unpack_unchecked(input: &[u8]) -> (r: Result<TicketData, ProgramError>)
        ensures
            r == TicketData::spec_unpack_unchecked(input@),
    {
        if input.len() != Self::LEN {
            return Err(ProgramError::InvalidAccountData);
        }
        Self::unpack_from_slice(input)
    }

    /// The packed record.
    pub fn pack_to_vec(&self) -> (v: Vec<u8>)
        ensures
            v@ == self.spec_pack(),
            v@.len() == 71,
    {
        let mut v: Vec<u8> = Vec::new();
        v.push(if self.is_purchased { 1u8 } else { 0u8 });
        self.charity.write_to(&mut v);
        self.user_wallet_pk.write_to(&mut v);
        push_arr6(&mut v, &self.ticket_number_arr);
        assert(v@ =~= self.spec_pack());
        v
    }

    /// Writes the packed record over the first 71 bytes of `dst`.
    pub fn pack_into_slice(&self, dst: &mut [u8])
        requires
            old(dst)@.len() >= 71,
        ensures
            final(dst)@ == self.spec_pack() + old(dst)@.subrange(71, old(dst)@.len() as int),
    {
        let v = self.pack_to_vec();
        copy_prefix(dst, v.as_slice());
    }

    /// The packed record has 71 bytes, and reads back as the record.
    pub proof fn law_unpack_pack(d: TicketData)
        ensures
            d.spec_pack().len() == 71,
            TicketData::spec_unpack_unchecked(d.spec_pack()) == Ok::<TicketData, ProgramError>(d),
    {
        let s = d.spec_pack();
        assert(s.subrange(1, 33) =~= d.charity@);
        assert(s.subrange(33, 65) =~= d.user_wallet_pk@);
        assert(s.subrange(65, 71) =~= d.ticket_number_arr@);
    }

    /// A record that reads out of 71 bytes packs back to those bytes.
    pub proof fn law_pack_unpack(s: Seq<u8>)
        requires
            TicketData::spec_unpack_unchecked(s) is Ok,
        ensures
            TicketData::spec_unpack_unchecked(s)->Ok_0.spec_pack() == s,
    {
        let d = TicketData::spec_unpack_unchecked(s)->Ok_0;
        assert(d.spec_pack() =~= s);
    }
}

/// The record of a finished lottery: its id and winning numbers.
#[derive(Clone, Copy, Debug, PartialEq)]
pub struct LotteryResultData {
    pub lottery_id: u32,
    pub winning_numbers: [u8; 6],
}

impl LotteryResultData {
    /// The length of the packed record.
    pub const LEN: usize = 10;

    /// The packed record: id, then numbers.
    pub open spec fn spec_pack(self) -> Seq<u8> {
        spec_u32_to_le_bytes(self.lottery_id) + self.winning_numbers@
    }

    /// The record stored in the first 10 bytes of `s`.
    pub open spec fn spec_unpack_from_slice(s: Seq<u8>) -> LotteryResultData {
        LotteryResultData {
            lottery_id: spec_u32_from_le_bytes(s.subrange(0, 4)),
            winning_numbers: spec_arr6(s.subrange(4, 10)),
        }
    }

    /// The record stored in exactly `s`: `InvalidAccountData` for a wrong length.
    pub open spec fn spec_unpack_unchecked(s: Seq<u8>) -> Result<LotteryResultData, ProgramError> {
        if s.len() != 10 {
            Err(ProgramError::InvalidAccountData)
        } else {
            Ok(LotteryResultData::spec_unpack_from_slice(s))
        }
    }

    /// The length of the packed record.
    pub fn get_packed_len() -> (n: usize)
        ensures
            n == 10,
    {
        Self::LEN
    }

    /// Reads the record from the first 10 bytes of `src`.
    pub fn unpack_from_slice(src: &[u8]) -> (r: Result<LotteryResultData, ProgramError>)
        requires
            src@.len() >= 10,
        ensures
            r == Ok::<LotteryResultData, ProgramError>(LotteryResultData::spec_unpack_from_slice(src@)),
    {
        Ok(LotteryResultData { lottery_id: read_u32(src, 0), winning_numbers: read_arr6(src, 4) })
    }

    /// Reads the record from exactly `input`.
    pub fn unpack_unchecked(input: &[u8]) -> (r: Result<LotteryResultData, ProgramError>)
        ensures
            r == LotteryResultData::spec_unpack_unchecked(input@),
    {
        if input.len() != Self::LEN {
            return Err(ProgramError::InvalidAccountData);
        }
        Self::unpack_from_slice(input)
    }

    /// The packed record.
    pub fn pack_to_vec(&self) -> (v: Vec<u8>)
        ensures
            v@ == self.spec_pack(),
            v@.len() == 10,
    {
        proof {
            lemma_le_roundtrip();
        }
        let mut v: Vec<u8> = Vec::new();
        push_u32(&mut v, self.lottery_id);
        push_arr6(&mut v, &self.winning_numbers);
        v
    }

    /// Writes the packed record over the first 10 bytes of `dst`.
    pub fn pack_into_slice(&self, dst: &mut [u8])
        requires
            old(dst)@.len() >= 10,
        ensures
            final(dst)@ == self.spec_pack() + old(dst)@.subrange(10, old(dst)@.len() as int),
    {
        let v = self.pack_to_vec();
        copy_prefix(dst, v.as_slice());
    }

    /// The packed record has 10 bytes, and reads back as the record.
    pub proof fn law_unpack_pack(d: LotteryResultData)
        ensures
            d.spec_pack().len() == 10,
            LotteryResultData::spec_unpack_unchecked(d.spec_pack()) == Ok::<
                LotteryResultData,
                ProgramError,
            >(d),
    {
        lemma_le_roundtrip();
        let s = d.spec_pack();
        assert(s.subrange(0, 4) =~= spec_u32_to_le_bytes(d.lottery_id));
        assert(s.subrange(4, 10) =~= d.winning_numbers@);
    }

    /// Any 10 bytes read as a record that packs back to them.
    pub proof fn law_pack_unpack(s: Seq<u8>)
        requires
            s.len() == 10,
        ensures
            LotteryResultData::spec_unpack_from_slice(s).spec_pack() == s,
    {
        lemma_le_roundtrip();
        assert(LotteryResultData::spec_unpack_from_slice(s).spec_pack() =~= s);
    }
}

} // verus!
