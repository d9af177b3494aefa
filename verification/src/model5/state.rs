//! The record of a drawn lottery, shared by the pooled, launchpad, lifetime
//! and fixed-quantity models.
use vstd::prelude::*;
use vstd::bytes::*;
use crate::program::{Pubkey, ProgramError, group_pubkey};
use crate::codec::{push_u32, read_u32, copy_prefix, lemma_le_roundtrip};

verus! {

broadcast use {group_pubkey, vstd::seq_lib::group_seq_properties};

/// The record of a drawn lottery: its id and its winner.
#[derive(Clone, Copy, Debug, PartialEq)]
pub struct LotteryResultData {
    pub lottery_id: u32,
    pub winner: Pubkey,
}

impl LotteryResultData {
    /// The length of the packed record.
    pub const LEN: usize = 36;

    /// An empty record: id 0 and the all-zero winner.
    pub open spec fn spec_default() -> LotteryResultData {
        LotteryResultData { lottery_id: 0, winner: crate::program::spec_zero_key() }
    }

    /// The packed record: id little-endian, then the winner's 32 bytes.
    pub open spec fn spec_pack(self) -> Seq<u8> {
        spec_u32_to_le_bytes(self.lottery_id) + self.winner@
    }

    /// The record stored in the first 36 bytes of `s`.
    pub open spec fn spec_unpack_from_slice(s: Seq<u8>) -> LotteryResultData {
        LotteryResultData {
            lottery_id: spec_u32_from_le_bytes(s.subrange(0, 4)),
            winner: Pubkey::spec_from_bytes(s.subrange(4, 36)),
        }
    }

    /// The record stored in exactly `s`: `InvalidAccountData` for a wrong length.
    pub open spec fn spec_unpack_unchecked(s: Seq<u8>) -> Result<LotteryResultData, ProgramError> {
        if s.len() != 36 {
            Err(ProgramError::InvalidAccountData)
        } else {
            Ok(LotteryResultData::spec_unpack_from_slice(s))
        }
    }

    /// The length of the packed record.
    pub fn get_packed_len() -> (n: usize)
        ensures
            n == 36,
    {
        Self::LEN
    }

    /// Reads the record from the first 36 bytes of `src`.
    pub fn unpack_from_slice(src: &[u8]) -> (r: Result<LotteryResultData, ProgramError>)
        requires
            src@.len() >= 36,
        ensures
            r == Ok::<LotteryResultData, ProgramError>(LotteryResultData::spec_unpack_from_slice(src@)),
    {
        Ok(LotteryResultData { lottery_id: read_u32(src, 0), winner: Pubkey::from_slice(src, 4) })
    }

    /// Reads the record from exactly `input`.
    pub fn unpack_unchecked(input: &[u8]) -> (r: Result<LotteryResultData, ProgramError>)
        ensures
            r == LotteryResultData::spec_unpack_unchecked(input@),
    {
        if input.len() != Self::LEN {
            return Err(ProgramError::InvalidAccountData);
        }
        Self::unpack_from_slice(input)
    }

    /// The packed record.
    pub fn pack_to_vec(&self) -> (v: Vec<u8>)
        ensures
            v@ == self.spec_pack(),
            v@.len() == 36,
    {
        proof {
            lemma_le_roundtrip();
        }
        let mut v: Vec<u8> = Vec::new();
        push_u32(&mut v, self.lottery_id);
        self.winner.write_to(&mut v);
        v
    }

    /// Writes the packed record over the first 36 bytes of `dst`.
    pub fn pack_into_slice(&self, dst: &mut [u8])
        requires
            old(dst)@.len() >= 36,
        ensures
            final(dst)@ == self.spec_pack() + old(dst)@.subrange(36, old(dst)@.len() as int),
    {
        let v = self.pack_to_vec();
        copy_prefix(dst, v.as_slice());
    }

    /// The packed record has 36 bytes, and reads back as the record.
    pub proof fn law_unpack_pack(d: LotteryResultData)
        ensures
            d.spec_pack().len() == 36,
            LotteryResultData::spec_unpack_unchecked(d.spec_pack()) == Ok::<
                LotteryResultData,
                ProgramError,
            >(d),
    {
        lemma_le_roundtrip();
        let s = d.spec_pack();
        assert(s.subrange(0, 4) =~= spec_u32_to_le_bytes(d.lottery_id));
        assert(s.subrange(4, 36) =~= d.winner@);
    }

    /// Any 36 bytes read as a record that packs back to them.
    pub proof fn law_pack_unpack(s: Seq<u8>)
        requires
            s.len() == 36,
        ensures
            LotteryResultData::spec_unpack_from_slice(s).spec_pack() == s,
    {
        lemma_le_roundtrip();
        assert(LotteryResultData::spec_unpack_from_slice(s).spec_pack() =~= s);
    }
}

impl Default for LotteryResultData {
    fn default() -> (d: LotteryResultData)
        ensures
            d == LotteryResultData::spec_default(),
    {
        LotteryResultData { lottery_id: 0, winner: Pubkey::zero() }
    }
}

} // verus!
