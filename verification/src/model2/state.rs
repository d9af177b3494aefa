//! Account record of the pooled lottery and its byte format.
use vstd::prelude::*;
use vstd::bytes::*;
use crate::program::{Pubkey, ProgramError, group_pubkey};
use crate::codec::{push_u64, read_u64, copy_prefix, lemma_le_roundtrip};
use crate::state::{bool_byte, spec_read_bool, read_bool};

pub use crate::model5::state::LotteryResultData;

verus! {

broadcast use {group_pubkey, vstd::seq_lib::group_seq_properties};

/// Main information about the pooled lottery: the lamports staked, and the
/// wallets and mint it pays and checks.
#[derive(Clone, Copy, Debug, PartialEq)]
pub struct LotteryData {
    pub is_initialized: bool,
    pub staking_pool_amount: u64,
    pub staking_pool_wallet: Pubkey,
    pub staking_pool_token_mint: Pubkey,
    pub rewards_wallet: Pubkey,
    pub slot_holders_rewards_wallet: Pubkey,
    pub sollotto_labs_wallet: Pubkey,
}

impl LotteryData {
    /// The length of the packed record.
    pub const LEN: usize = 169;

    /// The packed record: flag, staked amount little-endian, then the five
    /// addresses in order.
    pub open spec fn spec_pack(self) -> Seq<u8> {
        seq![bool_byte(self.is_initialized)] + spec_u64_to_le_bytes(self.staking_pool_amount)
            + self.staking_pool_wallet@ + self.staking_pool_token_mint@ + self.rewards_wallet@
            + self.slot_holders_rewards_wallet@ + self.sollotto_labs_wallet@
    }

    /// The record stored in the first 169 bytes of `s`.
    pub open spec fn spec_unpack_from_slice(s: Seq<u8>) -> Result<LotteryData, ProgramError> {
        match spec_read_bool(s[0]) {
            Ok(is_initialized) => Ok(
                LotteryData {
                    is_initialized,
                    staking_pool_amount: spec_u64_from_le_bytes(s.subrange(1, 9)),
                    staking_pool_wallet: Pubkey::spec_from_bytes(s.subrange(9, 41)),
                    staking_pool_token_mint: Pubkey::spec_from_bytes(s.subrange(41, 73)),
                    rewards_wallet: Pubkey::spec_from_bytes(s.subrange(73, 105)),
                    slot_holders_rewards_wallet: Pubkey::spec_from_bytes(s.subrange(105, 137)),
                    sollotto_labs_wallet: Pubkey::spec_from_bytes(s.subrange(137, 169)),
                },
            ),
            Err(e) => Err(e),
        }
    }

    /// The record stored in exactly `s`: `InvalidAccountData` for a wrong length.
    pub open spec fn spec_unpack_unchecked(s: Seq<u8>) -> Result<LotteryData, ProgramError> {
        if s.len() != 169 {
            Err(ProgramError::InvalidAccountData)
        } else {
            LotteryData::spec_unpack_from_slice(s)
        }
    }

    /// As [`LotteryData::spec_unpack_unchecked`], and `UninitializedAccount`
    /// for a record not yet initialized.
    pub open spec fn spec_unpack(s: Seq<u8>) -> Result<LotteryData, ProgramError> {
        match LotteryData::spec_unpack_unchecked(s) {
            Ok(d) => if d.is_initialized {
                Ok(d)
            } else {
                Err(ProgramError::UninitializedAccount)
            },
            Err(e) => Err(e),
        }
    }

    /// The length of the packed record.
    pub fn get_packed_len() -> (n: usize)
        ensures
            n == 169,
    {
        Self::LEN
    }

    /// Whether the lottery has been initialized.
    pub fn is_initialized(&self) -> (b: bool)
        ensures
            b == self.is_initialized,
    {
        self.is_initialized
    }

    /// Reads the record from the first 169 bytes of `src`.
    pub fn unpack_from_slice(src: &[u8]) -> (r: Result<LotteryData, ProgramError>)
        requires
            src@.len() >= 169,
        ensures
            r == LotteryData::spec_unpack_from_slice(src@),
    {
        let is_initialized = match read_bool(src[0]) {
            Ok(b) => b,
            Err(e) => return Err(e),
        };
        Ok(
            LotteryData {
                is_initialized,
                staking_pool_amount: read_u64(src, 1),
                staking_pool_wallet: Pubkey::from_slice(src, 9),
                staking_pool_token_mint: Pubkey::from_slice(src, 41),
                rewards_wallet: Pubkey::from_slice(src, 73),
                slot_holders_rewards_wallet: Pubkey::from_slice(src, 105),
                sollotto_labs_wallet: Pubkey::from_slice(src, 137),
            },
        )
    }

    /// Reads the record from exactly `input`, initialized or not.
    pub fn unpack_unchecked(input: &[u8]) -> (r: Result<LotteryData, ProgramError>)
        ensures
            r == LotteryData::spec_unpack_unchecked(input@),
    {
        if input.len() != Self::LEN {
            return Err(ProgramError::InvalidAccountData);
        }
        Self::unpack_from_slice(input)
    }

    /// Reads an initialized record from exactly `input`.
    pub fn unpack(input: &[u8]) -> (r: Result<LotteryData, ProgramError>)
        ensures
            r == LotteryData::spec_unpack(input@),
    {
        let value = match Self::unpack_unchecked(input) {
            Ok(v) => v,
            Err(e) => return Err(e),
        };
        if value.is_initialized() {
            Ok(value)
        } else {
            Err(ProgramError::UninitializedAccount)
        }
    }

    /// The packed record.
    pub fn pack_to_vec(&self) -> (v: Vec<u8>)
        ensures
            v@ == self.spec_pack(),
            v@.len() == 169,
    {
        proof {
            lemma_le_roundtrip();
        }
        let mut v: Vec<u8> = Vec::new();
        v.push(if self.is_initialized { 1u8 } else { 0u8 });
        push_u64(&mut v, self.staking_pool_amount);
        self.staking_pool_wallet.write_to(&mut v);
        self.staking_pool_token_mint.write_to(&mut v);
        self.rewards_wallet.write_to(&mut v);
        self.slot_holders_rewards_wallet.write_to(&mut v);
        self.sollotto_labs_wallet.write_to(&mut v);
        assert(v@ =~= self.spec_pack());
        v
    }

    /// Writes the packed record over the first 169 bytes of `dst`.
    pub fn pack_into_slice(&self, dst: &mut [u8])
        requires
            old(dst)@.len() >= 169,
        ensures
            final(dst)@ == self.spec_pack() + old(dst)@.subrange(169, old(dst)@.len() as int),
    {
        let v = self.pack_to_vec();
        copy_prefix(dst, v.as_slice());
    }

    /// The packed record has 169 bytes, and reads back as the record.
    pub proof fn law_unpack_pack(d: LotteryData)
        ensures
            d.spec_pack().len() == 169,
            LotteryData::spec_unpack_unchecked(d.spec_pack()) == Ok::<LotteryData, ProgramError>(
                d,
            ),
    {
        lemma_le_roundtrip();
        let s = d.spec_pack();
        assert(s.subrange(1, 9) =~= spec_u64_to_le_bytes(d.staking_pool_amount));
        assert(s.subrange(9, 41) =~= d.staking_pool_wallet@);
        assert(s.subrange(41, 73) =~= d.staking_pool_token_mint@);
        assert(s.subrange(73, 105) =~= d.rewards_wallet@);
        assert(s.subrange(105, 137) =~= d.slot_holders_rewards_wallet@);
        assert(s.subrange(137, 169) =~= d.sollotto_labs_wallet@);
    }

    /// A record that reads out of 169 bytes packs back to those bytes.
    pub proof fn law_pack_unpack(s: Seq<u8>)
        requires
            LotteryData::spec_unpack_unchecked(s) is Ok,
        ensures
            LotteryData::spec_unpack_unchecked(s)->Ok_0.spec_pack() == s,
    {
        lemma_le_roundtrip();
        let d = LotteryData::spec_unpack_unchecked(s)->Ok_0;
        assert(d.spec_pack() =~= s);
    }
}

} // verus!
