//! The runtime's values as the lottery programs see them: addresses, errors,
//! instructions, accounts and the effects that a processor asks for.
use vstd::prelude::*;
use vstd::bytes::*;
use vstd::slice::slice_subrange;
use solana_program::sysvar::Sysvar;

verus! {

broadcast use vstd::seq_lib::group_seq_properties;

/// A 32-byte account address, held as four little-endian 64-bit words.
#[derive(Clone, Copy, PartialEq, Eq, Structural, Debug)]
pub struct Pubkey {
    w0: u64,
    w1: u64,
    w2: u64,
    w3: u64,
}

impl View for Pubkey {
    type V = Seq<u8>;

    /// The address's 32 bytes.
    closed spec fn view(&self) -> Seq<u8> {
        spec_u64_to_le_bytes(self.w0) + spec_u64_to_le_bytes(self.w1) + spec_u64_to_le_bytes(
            self.w2,
        ) + spec_u64_to_le_bytes(self.w3)
    }
}

impl Pubkey {
    /// The address whose bytes are the first 32 of `s`.
    pub closed spec fn spec_from_bytes(s: Seq<u8>) -> Pubkey {
        Pubkey {
            w0: spec_u64_from_le_bytes(s.subrange(0, 8)),
            w1: spec_u64_from_le_bytes(s.subrange(8, 16)),
            w2: spec_u64_from_le_bytes(s.subrange(16, 24)),
            w3: spec_u64_from_le_bytes(s.subrange(24, 32)),
        }
    }

    /// Every address has 32 bytes, and is the address of its bytes.
    pub broadcast proof fn lemma_view(k: Pubkey)
        ensures
            (#[trigger] k@).len() == 32,
            Pubkey::spec_from_bytes(k@) == k,
    {
        lemma_auto_spec_u64_to_from_le_bytes();
        let s = k@;
        assert(s.subrange(0, 8) =~= spec_u64_to_le_bytes(k.w0));
        assert(s.subrange(8, 16) =~= spec_u64_to_le_bytes(k.w1));
        assert(s.subrange(16, 24) =~= spec_u64_to_le_bytes(k.w2));
        assert(s.subrange(24, 32) =~= spec_u64_to_le_bytes(k.w3));
    }

    /// 32 bytes are the bytes of the address made from them.
    pub broadcast proof fn lemma_from_bytes(s: Seq<u8>)
        requires
            s.len() == 32,
        ensures
            (#[trigger] Pubkey::spec_from_bytes(s))@ == s,
    {
        lemma_auto_spec_u64_to_from_le_bytes();
        let k = Pubkey::spec_from_bytes(s);
        assert(spec_u64_to_le_bytes(k.w0) == s.subrange(0, 8));
        assert(spec_u64_to_le_bytes(k.w1) == s.subrange(8, 16));
        assert(spec_u64_to_le_bytes(k.w2) == s.subrange(16, 24));
        assert(spec_u64_to_le_bytes(k.w3) == s.subrange(24, 32));
        assert(k@ =~= s);
    }

    /// Two addresses are equal exactly when their bytes are.
    pub broadcast proof fn lemma_eq(a: Pubkey, b: Pubkey)
        ensures
            #![trigger a@, b@]
            (a@ == b@) <==> (a == b),
    {
        Pubkey::lemma_view(a);
        Pubkey::lemma_view(b);
    }

    /// The address made of the bytes `input[pos..pos + 32]`.
    pub fn from_slice(input: &[u8], pos: usize) -> (k: Pubkey)
        requires
            pos + 32 <= input@.len(),
        ensures
            k@ == input@.subrange(pos as int, pos + 32),
            k == Pubkey::spec_from_bytes(input@.subrange(pos as int, pos + 32)),
    {
        let _len = input.len();
        let k = Pubkey {
            w0: u64_from_le_bytes(slice_subrange(input, pos, pos + 8)),
            w1: u64_from_le_bytes(slice_subrange(input, pos + 8, pos + 16)),
            w2: u64_from_le_bytes(slice_subrange(input, pos + 16, pos + 24)),
            w3: u64_from_le_bytes(slice_subrange(input, pos + 24, pos + 32)),
        };
        proof {
            let s = input@.subrange(pos as int, pos + 32);
            assert(s.subrange(0, 8) =~= input@.subrange(pos as int, pos + 8));
            assert(s.subrange(8, 16) =~= input@.subrange(pos + 8, pos + 16));
            assert(s.subrange(16, 24) =~= input@.subrange(pos + 16, pos + 24));
            assert(s.subrange(24, 32) =~= input@.subrange(pos + 24, pos + 32));
            Pubkey::lemma_from_bytes(s);
        }
        k
    }

    /// The address with the given bytes.
    pub fn new_from_array(bytes: [u8; 32]) -> (k: Pubkey)
        ensures
            k@ == bytes@,
    {
        let k = Pubkey::from_slice(bytes.as_slice(), 0);
        assert(bytes@.subrange(0, 32) =~= bytes@);
        k
    }

    /// Appends the address's 32 bytes to `buf`.
    pub fn write_to(&self, buf: &mut Vec<u8>)
        ensures
            final(buf)@ == old(buf)@ + self@,
    {
        let mut b0 = u64_to_le_bytes(self.w0);
        let mut b1 = u64_to_le_bytes(self.w1);
        let mut b2 = u64_to_le_bytes(self.w2);
        let mut b3 = u64_to_le_bytes(self.w3);
        buf.append(&mut b0);
        buf.append(&mut b1);
        buf.append(&mut b2);
        buf.append(&mut b3);
        proof {
            assert(final(buf)@ =~= old(buf)@ + self@);
        }
    }

    /// The address's 32 bytes.
    pub fn to_vec(&self) -> (v: Vec<u8>)
        ensures
            v@ == self@,
    {
        let mut v: Vec<u8> = Vec::new();
        self.write_to(&mut v);
        assert(v@ =~= self@);
        v
    }

    /// The address's 32 bytes.
    pub fn to_bytes(&self) -> (a: [u8; 32])
        ensures
            a@ == self@,
    {
        let v = self.to_vec();
        proof {
            Pubkey::lemma_view(*self);
        }
        let mut a = [0u8; 32];
        let mut i: usize = 0;
        while i < 32
            invariant
                v@ == self@,
                v@.len() == 32,
                i <= 32,
                forall|j: int| 0 <= j < i ==> a@[j] == v@[j],
            decreases 32 - i,
        {
            a[i] = v[i];
            i = i + 1;
        }
        assert(a@ =~= self@);
        a
    }

    /// The all-zero address.
    pub fn zero() -> (k: Pubkey)
        ensures
            k == spec_zero_key(),
    {
        Pubkey { w0: 0, w1: 0, w2: 0, w3: 0 }
    }
}

/// The all-zero address, which is also the system program's id
/// ("11111111111111111111111111111111").
pub closed spec fn spec_zero_key() -> Pubkey {
    Pubkey { w0: 0, w1: 0, w2: 0, w3: 0 }
}

/// The lottery program's id, "urNhxed8ocNiFApoooLSAJ1xnWSMUiC9S6fKcRon1rk".
pub closed spec fn spec_program_key() -> Pubkey {
    Pubkey {
        w0: 0x65004df99a078a0d,
        w1: 0x3ad265e098e93f64,
        w2: 0xe5caae89cf899be7,
        w3: 0xedf7850750742f43,
    }
}

/// The rent sysvar's id, "SysvarRent111111111111111111111111111111111".
pub closed spec fn spec_rent_sysvar_key() -> Pubkey {
    Pubkey { w0: 0x515c2c1917d5a706, w1: 0x7ff14a3d4cc98c21, w2: 0x44fda19b08eeda58, w3: 0x8ad9dbe3 }
}

/// The SPL Token program's id, "TokenkegQfeZyiNwAJbNbGKPFXCWuBvf9Ss623VQ5DA".
pub closed spec fn spec_token_program_key() -> Pubkey {
    Pubkey {
        w0: 0x93a165d7e1f6dd06,
        w1: 0xac79ebce46e1cbd9,
        w2: 0x91375b5fed85b41c,
        w3: 0xa900ff7e85f58c3a,
    }
}

/// The lottery program's id.
pub fn id() -> (k: Pubkey)
    ensures
        k == spec_program_key(),
{
    Pubkey {
        w0: 0x65004df99a078a0d,
        w1: 0x3ad265e098e93f64,
        w2: 0xe5caae89cf899be7,
        w3: 0xedf7850750742f43,
    }
}

pub broadcast group group_pubkey {
    Pubkey::lemma_view,
    Pubkey::lemma_from_bytes,
    Pubkey::lemma_eq,
}

/// The errors that the runtime knows, as far as the lottery programs return
/// them.
#[derive(Clone, Copy, PartialEq, Eq, Structural, Debug)]
pub enum ProgramError {
    Custom(u32),
    InvalidArgument,
    InvalidInstructionData,
    InvalidAccountData,
    InsufficientFunds,
    IncorrectProgramId,
    MissingRequiredSignature,
    UninitializedAccount,
    NotEnoughAccountKeys,
    AccountNotRentExempt,
}

/// An account that an instruction names, and how the instruction uses it.
#[derive(Clone, Copy, PartialEq, Eq, Structural, Debug)]
pub struct AccountMeta {
    pub pubkey: Pubkey,
    pub is_signer: bool,
    pub is_writable: bool,
}

impl AccountMeta {
    /// A writable account.
    pub fn new(pubkey: Pubkey, is_signer: bool) -> (m: AccountMeta)
        ensures
            m == (AccountMeta { pubkey, is_signer, is_writable: true }),
    {
        AccountMeta { pubkey, is_signer, is_writable: true }
    }

    /// A read-only account.
    pub fn new_readonly(pubkey: Pubkey, is_signer: bool) -> (m: AccountMeta)
        ensures
            m == (AccountMeta { pubkey, is_signer, is_writable: false }),
    {
        AccountMeta { pubkey, is_signer, is_writable: false }
    }
}

/// An account named by an instruction.
pub open spec fn meta(pubkey: Pubkey, is_signer: bool, is_writable: bool) -> AccountMeta {
    AccountMeta { pubkey, is_signer, is_writable }
}

/// The accounts of a list of pairs, neither signing: for each pair, the first
/// then the second, each writable as given.
pub open spec fn pair_metas(
    pairs: Seq<(Pubkey, Pubkey)>,
    first_writable: bool,
    second_writable: bool,
) -> Seq<AccountMeta> {
    Seq::new(
        2 * pairs.len(),
        |i: int|
            if i % 2 == 0 {
                meta(pairs[i / 2].0, false, first_writable)
            } else {
                meta(pairs[i / 2].1, false, second_writable)
            },
    )
}

/// Appends the accounts of a list of pairs to `accounts`.
pub fn push_pair_metas(
    accounts: &mut Vec<AccountMeta>,
    pairs: &Vec<(Pubkey, Pubkey)>,
    first_writable: bool,
    second_writable: bool,
)
    ensures
        final(accounts)@ == old(accounts)@ + pair_metas(pairs@, first_writable, second_writable),
{
    let ghost start = accounts@;
    let n = pairs.len();
    let mut i: usize = 0;
    while i < n
        invariant
            n == pairs@.len(),
            i <= n,
            accounts@ =~= start + pair_metas(
                pairs@.subrange(0, i as int),
                first_writable,
                second_writable,
            ),
        decreases n - i,
    {
        let (first, second) = pairs[i];
        accounts.push(AccountMeta { pubkey: first, is_signer: false, is_writable: first_writable });
        accounts.push(
            AccountMeta { pubkey: second, is_signer: false, is_writable: second_writable },
        );
        proof {
            let p = pairs@.subrange(0, i + 1);
            assert(pair_metas(p, first_writable, second_writable) =~= pair_metas(
                pairs@.subrange(0, i as int),
                first_writable,
                second_writable,
            ) + seq![meta(first, false, first_writable), meta(second, false, second_writable)]);
        }
        i = i + 1;
    }
    assert(pairs@.subrange(0, n as int) =~= pairs@);
}

/// Whether `r` is the instruction for the lottery program `program_id` with
/// `data` and `accounts`, which is owed where `program_id` is the lottery
/// program's id; any other id gives `IncorrectProgramId`.
pub open spec fn built(
    r: Result<Instruction, ProgramError>,
    program_id: Pubkey,
    data: Seq<u8>,
    accounts: Seq<AccountMeta>,
) -> bool {
    if program_id == spec_program_key() {
        r matches Ok(ix) && ix.program_id == program_id && ix.data@ == data && ix.accounts@
            == accounts
    } else {
        r == Err::<Instruction, ProgramError>(ProgramError::IncorrectProgramId)
    }
}

/// An instruction for a program: its id, the accounts it names, its data.
#[derive(Clone, Debug)]
pub struct Instruction {
    pub program_id: Pubkey,
    pub accounts: Vec<AccountMeta>,
    pub data: Vec<u8>,
}

/// An account handed to a processor: its address, whether it signed, whether
/// it may be written, its balance, its data and its owner program.
#[derive(Clone, Debug)]
pub struct AccountInfo {
    pub key: Pubkey,
    pub is_signer: bool,
    pub is_writable: bool,
    pub lamports: u64,
    pub data: Vec<u8>,
    pub owner: Pubkey,
}

/// New contents for the data of the account at `account` in the list that
/// the processor was given. The runtime makes the writes after the calls,
/// and a write into an account whose data has another length fails there
/// with `InvalidAccountData`, as packing a record into it does.
#[derive(Clone, Debug)]
pub struct DataWrite {
    pub account: usize,
    pub data: Vec<u8>,
}

/// A call into another program that a processor asks for. Each field that
/// names an account is its position in the list that the processor was given.
#[derive(Clone, Copy, PartialEq, Eq, Structural, Debug)]
pub enum Invocation {
    /// System program: move `lamports` from `from` to `to`.
    SystemTransfer { system_program: usize, from: usize, to: usize, lamports: u64 },
    /// System program: move `share / 10000` of `pool` lamports from `from` to
    /// `to`, the amount being reckoned in SOL as the runtime's floating point
    /// does it.
    SystemShareTransfer {
        system_program: usize,
        from: usize,
        to: usize,
        pool: u64,
        share: u64,
    },
    /// System program: move an equal part, one of `parts`, of what is left
    /// of `share / 10000` of `pool` lamports once `deduction` lamports are
    /// taken off (nothing where nothing is left), from `from` to `to`, the
    /// amount being reckoned in SOL as the runtime's floating point does it.
    SystemSplitTransfer {
        system_program: usize,
        from: usize,
        to: usize,
        pool: u64,
        share: u64,
        deduction: u64,
        parts: u64,
    },
    /// Token program: move `amount` tokens from `source` to `destination`.
    TokenTransfer {
        token_program: usize,
        source: usize,
        destination: usize,
        authority: usize,
        amount: u64,
    },
    /// Token program: move `share / 10000` of `pool` tokens of a mint with
    /// `decimals` decimals from `source` to `destination`, the amount being
    /// reckoned in whole tokens as the runtime's floating point does it.
    TokenShareTransfer {
        token_program: usize,
        source: usize,
        destination: usize,
        authority: usize,
        pool: u64,
        decimals: u8,
        share: u64,
    },
    /// Token program: mint `amount` tokens of `mint` to `destination`;
    /// `multisig_signer`, where given, is the one signer of a multisig
    /// authority.
    TokenMintTo {
        token_program: usize,
        mint: usize,
        destination: usize,
        authority: usize,
        multisig_signer: Option<usize>,
        amount: u64,
    },
    /// Token program: burn `amount` tokens of `mint` from `account`.
    TokenBurn { token_program: usize, account: usize, mint: usize, authority: usize, amount: u64 },
    /// Token program: initialize `mint` with `mint_authority` and `decimals`.
    TokenInitializeMint {
        token_program: usize,
        mint: usize,
        rent: usize,
        mint_authority: usize,
        decimals: u8,
    },
    /// Token program: initialize the token account `account` of `mint` for
    /// `owner`.
    TokenInitializeAccount {
        token_program: usize,
        account: usize,
        mint: usize,
        owner: usize,
        rent: usize,
    },
}

/// What a processor asks of the runtime when it succeeds: new account data,
/// and the calls into other programs, in order.
#[derive(Clone, Debug)]
pub struct Effects {
    pub writes: Vec<DataWrite>,
    pub invocations: Vec<Invocation>,
}

/// The plain value of [`Effects`]: each write as (position, data).
#[verifier::ext_equal]
pub struct EffectsView {
    pub writes: Seq<(usize, Seq<u8>)>,
    pub invocations: Seq<Invocation>,
}

impl View for Effects {
    type V = EffectsView;

    open spec fn view(&self) -> EffectsView {
        EffectsView {
            writes: self.writes@.map_values(|w: DataWrite| (w.account, w.data@)),
            invocations: self.invocations@,
        }
    }
}

/// A processor's result by its plain value.
pub open spec fn result_view(r: Result<Effects, ProgramError>) -> Result<EffectsView, ProgramError> {
    match r {
        Ok(e) => Ok(e@),
        Err(e) => Err(e),
    }
}

/// Effects that write `data` into the account at `account`, and call nothing.
pub open spec fn spec_write_one(account: usize, data: Seq<u8>) -> EffectsView {
    EffectsView { writes: seq![(account, data)], invocations: Seq::empty() }
}

impl Effects {
    /// Effects that write `data` into the account at `account`, and call nothing.
    pub fn write_one(account: usize, data: Vec<u8>) -> (e: Effects)
        ensures
            e@ == spec_write_one(account, data@),
    {
        let ghost d = data@;
        let mut writes: Vec<DataWrite> = Vec::new();
        writes.push(DataWrite { account, data });
        let e = Effects { writes, invocations: Vec::new() };
        assert(e@.writes =~= seq![(account, d)]);
        assert(e@ =~= spec_write_one(account, d));
        e
    }
}

impl Effects {
    /// Effects that write `first` into the account at `i`, then `second` into
    /// the account at `j`, and call nothing.
    pub fn write_two(i: usize, first: Vec<u8>, j: usize, second: Vec<u8>) -> (e: Effects)
        ensures
            e@ == spec_write_two(i, first@, j, second@),
    {
        let ghost (d1, d2) = (first@, second@);
        let mut writes: Vec<DataWrite> = Vec::new();
        writes.push(DataWrite { account: i, data: first });
        writes.push(DataWrite { account: j, data: second });
        let e = Effects { writes, invocations: Vec::new() };
        assert(e@.writes =~= seq![(i, d1), (j, d2)]);
        assert(e@ =~= spec_write_two(i, d1, j, d2));
        e
    }
}

/// Effects that call `invocations` and write `data` into the account at
/// `account`.
pub open spec fn spec_calls_then_write(invocations: Seq<Invocation>, account: usize, data: Seq<u8>) -> EffectsView {
    EffectsView { writes: seq![(account, data)], invocations }
}

impl Effects {
    /// Effects that call `invocations` and write `data` into the account at
    /// `account`.
    pub fn calls_then_write(invocations: Vec<Invocation>, account: usize, data: Vec<u8>) -> (e: Effects)
        ensures
            e@ == spec_calls_then_write(invocations@, account, data@),
    {
        let ghost d = data@;
        let ghost calls = invocations@;
        let mut writes: Vec<DataWrite> = Vec::new();
        writes.push(DataWrite { account, data });
        let e = Effects { writes, invocations };
        assert(e@.writes =~= seq![(account, d)]);
        assert(e@ =~= spec_calls_then_write(calls, account, d));
        e
    }
}

/// Effects that call `invocations` and write nothing.
pub open spec fn spec_calls(invocations: Seq<Invocation>) -> EffectsView {
    EffectsView { writes: Seq::empty(), invocations }
}

impl Effects {
    /// Effects that call `invocations` and write nothing.
    pub fn calls(invocations: Vec<Invocation>) -> (e: Effects)
        ensures
            e@ == spec_calls(invocations@),
    {
        let e = Effects { writes: Vec::new(), invocations };
        assert(e@.writes =~= Seq::<(usize, Seq<u8>)>::empty());
        e
    }
}

/// Effects that write `first` into the account at `i`, then `second` into the
/// account at `j`, and call nothing.
pub open spec fn spec_write_two(i: usize, first: Seq<u8>, j: usize, second: Seq<u8>) -> EffectsView {
    EffectsView { writes: seq![(i, first), (j, second)], invocations: Seq::empty() }
}

/// The share of one call, in ten-thousandths of its pool: that of a share
/// transfer, none for any other call.
pub open spec fn share_of(invocation: Invocation) -> int {
    match invocation {
        Invocation::SystemShareTransfer { share, .. } => share as int,
        Invocation::TokenShareTransfer { share, .. } => share as int,
        _ => 0,
    }
}

/// The shares that the calls `invocations` pay, in ten-thousandths of their
/// pools, summed.
pub open spec fn share_total(invocations: Seq<Invocation>) -> int
    decreases invocations.len(),
{
    if invocations.len() == 0 {
        0
    } else {
        share_total(invocations.drop_last()) + share_of(invocations.last())
    }
}

/// The rent sysvar's id, from `solana_program::sysvar::rent::id`; the
/// contract claims it is "SysvarRent111111111111111111111111111111111", the
/// address [`spec_rent_sysvar_key`] spells out.
#[verifier::external_body]
pub(crate) fn rent_sysvar_id() -> (k: Pubkey)
    ensures
        k == spec_rent_sysvar_key(),
{
    Pubkey::new_from_array(solana_program::sysvar::rent::id().to_bytes())
}

/// The system program's id, from `solana_program::system_program::id`; the
/// contract claims it is the all-zero address.
#[verifier::external_body]
pub(crate) fn system_program_id() -> (k: Pubkey)
    ensures
        k == spec_zero_key(),
{
    Pubkey::new_from_array(solana_program::system_program::id().to_bytes())
}

/// The SPL Token program's id, from `spl_token::id`; the contract claims it
/// is "TokenkegQfeZyiNwAJbNbGKPFXCWuBvf9Ss623VQ5DA", the address
/// [`spec_token_program_key`] spells out.
#[verifier::external_body]
pub(crate) fn token_program_id() -> (k: Pubkey)
    ensures
        k == spec_token_program_key(),
{
    Pubkey::new_from_array(spl_token::id().to_bytes())
}

/// The balance that `Rent::minimum_balance` asks of an account with
/// `data_len` bytes of data, for the rent configuration that the rent sysvar
/// account's data `rent_data` holds; `None` where that data does not
/// deserialize to a rent configuration.
pub uninterp spec fn rent_minimum_balance(rent_data: Seq<u8>, data_len: usize) -> Option<u64>;

/// What [`sysvar_rent_minimum_balance`] returns.
pub open spec fn spec_sysvar_rent_minimum_balance(rent_key: Pubkey, rent_data: Seq<u8>, data_len: usize) -> Result<u64, ProgramError> {
    if rent_key != spec_rent_sysvar_key() {
        Err(ProgramError::InvalidArgument)
    } else {
        match rent_minimum_balance(rent_data, data_len) {
            Some(m) => Ok(m),
            None => Err(ProgramError::InvalidArgument),
        }
    }
}

/// Whether asking the rent configuration that `rent_data` holds, under the
/// key `rent_key`, for the minimum balance of `data_len` bytes overflows,
/// which panics: the configuration is read where the key is the rent sysvar's
/// and the data has its 17 bytes (lamports per byte-year, exemption
/// threshold, burn percent), and `Rent::minimum_balance` multiplies the data
/// length plus 128 bytes of account overhead by the lamports per byte-year,
/// both as `u64`.
pub open spec fn spec_rent_overflows(rent_key: Pubkey, rent_data: Seq<u8>, data_len: usize) -> bool {
    &&& rent_key == spec_rent_sysvar_key()
    &&& rent_data.len() >= 17
    &&& (128 + data_len > u64::MAX || (128 + data_len) * spec_u64_from_le_bytes(
        rent_data.subrange(0, 8),
    ) > u64::MAX)
}

/// Whether asking the rent configuration in the rent sysvar account `rent`
/// for the minimum balance of `data_len` bytes would overflow.
pub fn rent_overflows(rent: &AccountInfo, data_len: usize) -> (b: bool)
    ensures
        b == spec_rent_overflows(rent.key, rent.data@, data_len),
{
    if rent.key != rent_sysvar_id() || rent.data.len() < 17 {
        return false;
    }
    let lamports_per_byte_year = crate::codec::read_u64(rent.data.as_slice(), 0);
    let bytes = data_len as u64;
    match 128u64.checked_add(bytes) {
        None => true,
        Some(total) => total.checked_mul(lamports_per_byte_year).is_none(),
    }
}

/// Reads the rent configuration out of the rent sysvar account with address
/// `rent_key` and data `rent_data` (`Rent::from_account_info`), and returns
/// `Rent::minimum_balance(data_len)` of it. `from_account_info` fails with
/// `InvalidArgument` where `rent_key` is not the rent sysvar's id or the data
/// does not deserialize; the balance is a function of the data and the length
/// alone (named [`rent_minimum_balance`]); the data deserializes where it
/// has at least the configuration's 17 bytes. What the balance is, computed
/// with floating point, is left unsaid here.
#[verifier::external_body]
pub(crate) fn sysvar_rent_minimum_balance(
    rent_key: &Pubkey,
    rent_data: &[u8],
    data_len: usize,
) -> (r: Result<u64, ProgramError>)
    requires
        !spec_rent_overflows(*rent_key, rent_data@, data_len),
    ensures
        r == spec_sysvar_rent_minimum_balance(*rent_key, rent_data@, data_len),
        *rent_key == spec_rent_sysvar_key() ==> (r is Ok <==> rent_data@.len() >= 17),
        *rent_key == spec_rent_sysvar_key() ==> (r matches Ok(m) ==> rent_minimum_balance(
            rent_data@,
            data_len,
        ) == Some(m)),
{
    let key = solana_program::pubkey::Pubkey::new_from_array(rent_key.to_bytes());
    let owner = solana_program::sysvar::id();
    let (mut lamports, mut data) = (0u64, rent_data.to_vec());
    let info = solana_program::account_info::AccountInfo::new(
        &key, false, false, &mut lamports, &mut data, &owner, false, 0);
    match solana_program::rent::Rent::from_account_info(&info) {
        Ok(rent) => Ok(rent.minimum_balance(data_len)),
        Err(_) => Err(ProgramError::InvalidArgument),
    }
}

/// Whether an account with `lamports` and `data_len` bytes of data is exempt
/// from rent under the rent sysvar account given (`Rent::is_exempt`):
/// `InvalidArgument` where that account is not a readable rent sysvar.
pub open spec fn spec_rent_exempt(rent: AccountInfo, lamports: u64, data_len: usize) -> Result<
    bool,
    ProgramError,
> {
    if rent.key != spec_rent_sysvar_key() {
        Err(ProgramError::InvalidArgument)
    } else {
        match rent_minimum_balance(rent.data@, data_len) {
            Some(m) => Ok(lamports >= m),
            None => Err(ProgramError::InvalidArgument),
        }
    }
}

/// Whether an account with `lamports` and `data_len` bytes of data is exempt
/// from rent under the rent configuration in the rent sysvar account `rent`.
pub fn rent_is_exempt(rent: &AccountInfo, lamports: u64, data_len: usize) -> (r: Result<
    bool,
    ProgramError,
>)
    requires
        !spec_rent_overflows(rent.key, rent.data@, data_len),
    ensures
        r == spec_rent_exempt(*rent, lamports, data_len),
        rent.key == spec_rent_sysvar_key() ==> (r is Ok <==> rent.data@.len() >= 17),
{
    match sysvar_rent_minimum_balance(&rent.key, rent.data.as_slice(), data_len) {
        Ok(minimum) => Ok(lamports >= minimum),
        Err(e) => Err(e),
    }
}

} // verus!
