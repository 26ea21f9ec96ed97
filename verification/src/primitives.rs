//! Plain value types: addresses, 256-bit words, code hashes and accounts.
//!
//! Every type here is a fixed-width byte string or a record of such strings.
//! Contracts speak of them through their views, which are byte sequences.

use vstd::prelude::*;

verus! {

/// A sequence of `len` zero bytes.
pub open spec fn zero_bytes(len: nat) -> Seq<u8> {
    Seq::new(len, |i: int| 0u8)
}

/// Byte-wise comparison of two arrays of the same width.
pub fn bytes_match<const N: usize>(a: &[u8; N], b: &[u8; N]) -> (r: bool)
    ensures
        r == (a@ == b@),
{
    let mut i: usize = 0;
    while i < N
        invariant
            i <= N,
            a@.len() == N,
            b@.len() == N,
            forall|j: int| 0 <= j < i ==> a@[j] == b@[j],
        decreases N - i,
    {
        if a[i] != b[i] {
            return false;
        }
        i += 1;
    }
    assert(a@ =~= b@);
    true
}

/// Whether every byte of the array is zero.
pub fn all_zero<const N: usize>(a: &[u8; N]) -> (r: bool)
    ensures
        r == (a@ == zero_bytes(N as nat)),
{
    let mut i: usize = 0;
    while i < N
        invariant
            i <= N,
            a@.len() == N,
            forall|j: int| 0 <= j < i ==> a@[j] == 0u8,
        decreases N - i,
    {
        if a[i] != 0 {
            return false;
        }
        i += 1;
    }
    assert(a@ =~= zero_bytes(N as nat));
    true
}

/// A 20-byte account identifier.
#[derive(Clone, Copy, Debug, PartialEq, Eq)]
pub struct Address {
    pub bytes: [u8; 20],
}

impl View for Address {
    type V = Seq<u8>;

    open spec fn view(&self) -> Seq<u8> {
        self.bytes@
    }
}

impl Address {
    /// Wraps twenty bytes as an address.
    pub fn new(bytes: [u8; 20]) -> (r: Address)
        ensures
            r.bytes == bytes,
    {
        Address { bytes }
    }

    /// Whether two addresses name the same account.
    pub fn same(&self, other: &Address) -> (r: bool)
        ensures
            r == (self@ == other@),
    {
        bytes_match(&self.bytes, &other.bytes)
    }
}

/// An unsigned 256-bit integer, held as 32 big-endian bytes.
#[derive(Clone, Copy, Debug, PartialEq, Eq)]
pub struct Word {
    pub bytes: [u8; 32],
}

impl View for Word {
    type V = Seq<u8>;

    open spec fn view(&self) -> Seq<u8> {
        self.bytes@
    }
}

impl Word {
    /// Wraps 32 big-endian bytes as a word.
    pub fn new(bytes: [u8; 32]) -> (r: Word)
        ensures
            r.bytes == bytes,
    {
        Word { bytes }
    }

    /// The word zero.
    pub fn zero() -> (r: Word)
        ensures
            r@ == zero_bytes(32),
    {
        Word { bytes: [0u8; 32] }
    }

    /// Whether the word is zero.
    pub fn is_zero(&self) -> (r: bool)
        ensures
            r == (self@ == zero_bytes(32)),
    {
        all_zero(&self.bytes)
    }

    /// Whether two words hold the same number.
    pub fn same(&self, other: &Word) -> (r: bool)
        ensures
            r == (self@ == other@),
    {
        bytes_match(&self.bytes, &other.bytes)
    }
}

/// The digest of the empty byte string under Keccak-256, as a sequence.
pub open spec fn empty_code_digest() -> Seq<u8> {
    seq![
        0xc5u8, 0xd2u8, 0x46u8, 0x01u8, 0x86u8, 0xf7u8, 0x23u8, 0x3cu8,
        0x92u8, 0x7eu8, 0x7du8, 0xb2u8, 0xdcu8, 0xc7u8, 0x03u8, 0xc0u8,
        0xe5u8, 0x00u8, 0xb6u8, 0x53u8, 0xcau8, 0x82u8, 0x27u8, 0x3bu8,
        0x7bu8, 0xfau8, 0xd8u8, 0x04u8, 0x5du8, 0x85u8, 0xa4u8, 0x70u8,
    ]
}

/// A 32-byte digest of contract bytecode: the identity under which code is dispatched.
#[derive(Clone, Copy, Debug, PartialEq, Eq)]
pub struct CodeHash {
    pub bytes: [u8; 32],
}

impl View for CodeHash {
    type V = Seq<u8>;

    open spec fn view(&self) -> Seq<u8> {
        self.bytes@
    }
}

impl CodeHash {
    /// Wraps 32 bytes as a code hash.
    pub fn new(bytes: [u8; 32]) -> (r: CodeHash)
        ensures
            r.bytes == bytes,
    {
        CodeHash { bytes }
    }

    /// The all-zero hash, which stands for a hash that is not yet known.
    pub fn unresolved() -> (r: CodeHash)
        ensures
            r@ == zero_bytes(32),
    {
        CodeHash { bytes: [0u8; 32] }
    }

    /// The hash of empty code.
    pub fn of_empty_code() -> (r: CodeHash)
        ensures
            r@ == empty_code_digest(),
    {
        CodeHash {
            bytes: [
                0xc5, 0xd2, 0x46, 0x01, 0x86, 0xf7, 0x23, 0x3c,
                0x92, 0x7e, 0x7d, 0xb2, 0xdc, 0xc7, 0x03, 0xc0,
                0xe5, 0x00, 0xb6, 0x53, 0xca, 0x82, 0x27, 0x3b,
                0x7b, 0xfa, 0xd8, 0x04, 0x5d, 0x85, 0xa4, 0x70,
            ],
        }
    }

    /// Whether two hashes are the same digest.
    pub fn same(&self, other: &CodeHash) -> (r: bool)
        ensures
            r == (self@ == other@),
    {
        bytes_match(&self.bytes, &other.bytes)
    }
}

/// What is known of one account: its balance, nonce, code hash and, where it is at hand, its code.
#[derive(Clone, Debug, PartialEq, Eq)]
pub struct Account {
    pub balance: Word,
    pub nonce: u64,
    pub code_hash: CodeHash,
    pub code: Option<Vec<u8>>,
}

/// The mathematical value of an [`Account`].
pub struct AccountView {
    pub balance: Seq<u8>,
    pub nonce: u64,
    pub code_hash: Seq<u8>,
    pub code: Option<Seq<u8>>,
}

/// The account that stands for one that does not exist: no funds, no
/// transactions sent, and code that is known to be empty.
pub open spec fn empty_account() -> AccountView {
    AccountView {
        balance: zero_bytes(32),
        nonce: 0,
        code_hash: empty_code_digest(),
        code: Some(Seq::<u8>::empty()),
    }
}

impl View for Account {
    type V = AccountView;

    open spec fn view(&self) -> AccountView {
        AccountView {
            balance: self.balance@,
            nonce: self.nonce,
            code_hash: self.code_hash@,
            code: match self.code {
                Some(code) => Some(code@),
                None => None,
            },
        }
    }
}

impl Account {
    /// An account with the given balance, nonce, code hash and code.
    pub fn new(balance: Word, nonce: u64, code_hash: CodeHash, code: Vec<u8>) -> (r: Account)
        ensures
            r@ == (AccountView {
                balance: balance@,
                nonce: nonce,
                code_hash: code_hash@,
                code: Some(code@),
            }),
    {
        Account { balance, nonce, code_hash, code: Some(code) }
    }

    /// The empty account.
    pub fn empty() -> (r: Account)
        ensures
            r@ == empty_account(),
    {
        Account { balance: Word::zero(), nonce: 0, code_hash: CodeHash::of_empty_code(), code: Some(Vec::new()) }
    }
}

} // verus!
