//! Little-endian reading and writing of the integers and addresses that the
//! lottery programs' byte formats are made of.
use vstd::prelude::*;
use vstd::bytes::*;
use vstd::slice::slice_subrange;

verus! {

/// Appends the little-endian bytes of `x` to `buf`.
pub fn push_u32(buf: &mut Vec<u8>, x: u32)
    ensures
        final(buf)@ == old(buf)@ + spec_u32_to_le_bytes(x),
{
    let mut b = u32_to_le_bytes(x);
    buf.append(&mut b);
}

/// Appends the little-endian bytes of `x` to `buf`.
pub fn push_u64(buf: &mut Vec<u8>, x: u64)
    ensures
        final(buf)@ == old(buf)@ + spec_u64_to_le_bytes(x),
{
    let mut b = u64_to_le_bytes(x);
    buf.append(&mut b);
}

/// Appends the six bytes of `a` to `buf`.
pub fn push_arr6(buf: &mut Vec<u8>, a: &[u8; 6])
    ensures
        final(buf)@ == old(buf)@ + a@,
{
    let mut i: usize = 0;
    let ghost start = buf@;
    while i < 6
        invariant
            i <= 6,
            a@.len() == 6,
            buf@ =~= start + a@.subrange(0, i as int),
        decreases 6 - i,
    {
        buf.push(a[i]);
        i = i + 1;
    }
    assert(a@.subrange(0, 6) =~= a@);
}

/// The `u32` whose little-endian bytes are `input[pos..pos + 4]`.
pub fn read_u32(input: &[u8], pos: usize) -> (x: u32)
    requires
        pos + 4 <= input@.len(),
    ensures
        x == spec_u32_from_le_bytes(input@.subrange(pos as int, pos + 4)),
{
    let _len = input.len();
    u32_from_le_bytes(slice_subrange(input, pos, pos + 4))
}

/// The `u64` whose little-endian bytes are `input[pos..pos + 8]`.
pub fn read_u64(input: &[u8], pos: usize) -> (x: u64)
    requires
        pos + 8 <= input@.len(),
    ensures
        x == spec_u64_from_le_bytes(input@.subrange(pos as int, pos + 8)),
{
    let _len = input.len();
    u64_from_le_bytes(slice_subrange(input, pos, pos + 8))
}

/// The array whose bytes are `s`, where `s` has six bytes.
pub open spec fn spec_arr6(s: Seq<u8>) -> [u8; 6] {
    choose|a: [u8; 6]| a@ == s
}

/// An array of six bytes is the array of its bytes.
pub broadcast proof fn lemma_arr6(a: [u8; 6])
    ensures
        #[trigger] spec_arr6(a@) == a,
{
    let c = spec_arr6(a@);
    assert(c@ == a@);
    assert(c =~= a);
}

/// Six bytes are the bytes of the array made from them.
pub broadcast proof fn lemma_arr6_view(s: Seq<u8>)
    requires
        s.len() == 6,
    ensures
        (#[trigger] spec_arr6(s))@ == s,
{
    let a: [u8; 6] = [s[0], s[1], s[2], s[3], s[4], s[5]];
    assert(a@ =~= s);
}

/// The six bytes `input[pos..pos + 6]`.
pub fn read_arr6(input: &[u8], pos: usize) -> (a: [u8; 6])
    requires
        pos + 6 <= input@.len(),
    ensures
        a@ == input@.subrange(pos as int, pos + 6),
        a == spec_arr6(input@.subrange(pos as int, pos + 6)),
{
    let len = input.len();
    let mut a = [0u8; 6];
    let mut i: usize = 0;
    while i < 6
        invariant
            i <= 6,
            pos + 6 <= input@.len(),
            len == input@.len(),
            a@.len() == 6,
            forall|j: int| 0 <= j < i ==> a@[j] == input@[pos + j],
        decreases 6 - i,
    {
        a[i] = input[pos + i];
        i = i + 1;
    }
    assert(a@ =~= input@.subrange(pos as int, pos + 6));
    proof {
        lemma_arr6(a);
    }
    a
}

/// Overwrites the first `src.len()` bytes of `dst` with `src`.
pub fn copy_prefix(dst: &mut [u8], src: &[u8])
    requires
        src@.len() <= old(dst)@.len(),
    ensures
        final(dst)@ == src@ + old(dst)@.subrange(src@.len() as int, old(dst)@.len() as int),
{
    let n = src.len();
    let mut i: usize = 0;
    while i < n
        invariant
            n == src@.len(),
            n <= dst@.len(),
            i <= n,
            dst@.len() == old(dst)@.len(),
            forall|j: int| 0 <= j < i ==> dst@[j] == src@[j],
            forall|j: int| i <= j < dst@.len() ==> dst@[j] == old(dst)@[j],
        decreases n - i,
    {
        dst[i] = src[i];
        i = i + 1;
    }
    assert(dst@ =~= src@ + old(dst)@.subrange(n as int, old(dst)@.len() as int));
}

/// Little-endian bytes of integers have their width, and give the integer back.
pub proof fn lemma_le_roundtrip()
    ensures
        forall|x: u32|
            #![trigger spec_u32_to_le_bytes(x)]
            spec_u32_to_le_bytes(x).len() == 4 && spec_u32_from_le_bytes(spec_u32_to_le_bytes(x))
                == x,
        forall|x: u64|
            #![trigger spec_u64_to_le_bytes(x)]
            spec_u64_to_le_bytes(x).len() == 8 && spec_u64_from_le_bytes(spec_u64_to_le_bytes(x))
                == x,
        forall|s: Seq<u8>|
            #![trigger spec_u32_to_le_bytes(spec_u32_from_le_bytes(s))]
            s.len() == 4 ==> spec_u32_to_le_bytes(spec_u32_from_le_bytes(s)) == s,
        forall|s: Seq<u8>|
            #![trigger spec_u64_to_le_bytes(spec_u64_from_le_bytes(s))]
            s.len() == 8 ==> spec_u64_to_le_bytes(spec_u64_from_le_bytes(s)) == s,
{
    lemma_auto_spec_u32_to_from_le_bytes();
    lemma_auto_spec_u64_to_from_le_bytes();
}

} // verus!
