//! Fixed-width byte-backed values shared by the two Ethereum type systems.
//!
//! The storage side keeps 256-bit numbers little-endian ([`StorageU256`]),
//! the client side keeps them big-endian ([`ClientU256`]); every number that
//! crosses the boundary undergoes an explicit byte-order flip. Hashes,
//! addresses and blooms have one layout on both sides.

use vstd::prelude::*;

verus! {

/// Byte-for-byte reversal: the endianness flip between the little-endian
/// storage layout and the big-endian client layout of a 256-bit number.
pub open spec fn rev_bytes(s: Seq<u8>) -> Seq<u8> {
    Seq::new(s.len(), |i: int| s[s.len() - 1 - i])
}

/// Flipping the byte order twice gives the original bytes back, so the two
/// directions of the 256-bit conversion are mutually inverse.
pub proof fn lemma_rev_bytes_involutive(s: Seq<u8>)
    ensures
        rev_bytes(rev_bytes(s)) == s,
{
    assert(rev_bytes(rev_bytes(s)) =~= s);
}

fn rev_vec(src: &Vec<u8>) -> (r: Vec<u8>)
    ensures
        r@ == rev_bytes(src@),
{
    let n = src.len();
    let mut r: Vec<u8> = Vec::new();
    let mut i: usize = 0;
    while i < n
        invariant
            i <= n,
            n == src@.len(),
            r@.len() == i,
            forall|j: int| 0 <= j < i ==> r@[j] == src@[n - 1 - j],
        decreases n - i,
    {
        r.push(src[n - 1 - i]);
        i = i + 1;
    }
    assert(r@ =~= rev_bytes(src@));
    r
}

/// Byte equality of two buffers.
pub fn bytes_eq(a: &Vec<u8>, b: &Vec<u8>) -> (r: bool)
    ensures
        r == (a@ == b@),
{
    if a.len() != b.len() {
        assert(a@.len() != b@.len());
        return false;
    }
    let n = a.len();
    let mut i: usize = 0;
    while i < n
        invariant
            i <= n,
            n == a@.len(),
            n == b@.len(),
            forall|j: int| 0 <= j < i ==> a@[j] == b@[j],
        decreases n - i,
    {
        if a[i] != b[i] {
            return false;
        }
        i = i + 1;
    }
    assert(a@ =~= b@);
    true
}

/// A copy of a byte buffer.
pub fn copy_bytes(src: &Vec<u8>) -> (r: Vec<u8>)
    ensures
        r@ == src@,
{
    let n = src.len();
    let mut r: Vec<u8> = Vec::new();
    let mut i: usize = 0;
    while i < n
        invariant
            i <= n,
            n == src@.len(),
            r@ == src@.take(i as int),
        decreases n - i,
    {
        r.push(src[i]);
        assert(r@ =~= src@.take(i + 1));
        i = i + 1;
    }
    assert(r@ =~= src@);
    r
}

/// A buffer of `n` zero bytes.
pub fn zero_bytes(n: usize) -> (r: Vec<u8>)
    ensures
        r@.len() == n,
        forall|j: int| 0 <= j < n ==> r@[j] == 0u8,
{
    let mut r: Vec<u8> = Vec::new();
    let mut i: usize = 0;
    while i < n
        invariant
            i <= n,
            r@.len() == i,
            forall|j: int| 0 <= j < i ==> r@[j] == 0u8,
        decreases n - i,
    {
        r.push(0u8);
        i = i + 1;
    }
    r
}

/// A 256-bit hash: exactly 32 bytes, the same layout on both sides.
pub struct H256 {
    pub bytes: Vec<u8>,
}

impl View for H256 {
    type V = Seq<u8>;

    open spec fn view(&self) -> Seq<u8> {
        self.bytes@
    }
}

impl H256 {
    pub open spec fn wf(&self) -> bool {
        self.bytes@.len() == 32
    }

    pub fn new(bytes: Vec<u8>) -> (r: Self)
        requires
            bytes@.len() == 32,
        ensures
            r@ == bytes@,
            r.wf(),
    {
        H256 { bytes }
    }

    pub fn dup(&self) -> (r: Self)
        ensures
            r@ == self@,
    {
        H256 { bytes: copy_bytes(&self.bytes) }
    }

    pub fn eq_value(&self, other: &Self) -> (r: bool)
        ensures
            r == (self@ == other@),
    {
        bytes_eq(&self.bytes, &other.bytes)
    }
}

/// A 160-bit account address: exactly 20 bytes.
pub struct Address {
    pub bytes: Vec<u8>,
}

impl View for Address {
    type V = Seq<u8>;

    open spec fn view(&self) -> Seq<u8> {
        self.bytes@
    }
}

impl Address {
    pub open spec fn wf(&self) -> bool {
        self.bytes@.len() == 20
    }

    pub fn new(bytes: Vec<u8>) -> (r: Self)
        requires
            bytes@.len() == 20,
        ensures
            r@ == bytes@,
            r.wf(),
    {
        Address { bytes }
    }

    /// The zero address, the default sender of a synthetic call.
    pub fn zero() -> (r: Self)
        ensures
            r@ == zero_addr_bytes(),
            r.wf(),
    {
        let r = Address { bytes: zero_bytes(20) };
        assert(r@ =~= zero_addr_bytes());
        r
    }

    pub fn dup(&self) -> (r: Self)
        ensures
            r@ == self@,
    {
        Address { bytes: copy_bytes(&self.bytes) }
    }

    pub fn eq_value(&self, other: &Self) -> (r: bool)
        ensures
            r == (self@ == other@),
    {
        bytes_eq(&self.bytes, &other.bytes)
    }
}

/// The 20 zero bytes of the zero address.
pub open spec fn zero_addr_bytes() -> Seq<u8> {
    Seq::new(20, |i: int| 0u8)
}

/// A 256-bit number in the storage-side layout: 32 bytes, little-endian.
pub struct StorageU256 {
    pub bytes: Vec<u8>,
}

impl View for StorageU256 {
    type V = Seq<u8>;

    open spec fn view(&self) -> Seq<u8> {
        self.bytes@
    }
}

impl StorageU256 {
    pub open spec fn wf(&self) -> bool {
        self.bytes@.len() == 32
    }

    pub fn new(bytes: Vec<u8>) -> (r: Self)
        requires
            bytes@.len() == 32,
        ensures
            r@ == bytes@,
            r.wf(),
    {
        StorageU256 { bytes }
    }

    /// The number zero, the default for omitted gas price and value fields.
    pub fn zero() -> (r: Self)
        ensures
            r@ == zero_u256_bytes(),
            r.wf(),
    {
        let r = StorageU256 { bytes: zero_bytes(32) };
        assert(r@ =~= zero_u256_bytes());
        r
    }

    pub fn dup(&self) -> (r: Self)
        ensures
            r@ == self@,
    {
        StorageU256 { bytes: copy_bytes(&self.bytes) }
    }

    pub fn eq_value(&self, other: &Self) -> (r: bool)
        ensures
            r == (self@ == other@),
    {
        bytes_eq(&self.bytes, &other.bytes)
    }
}

/// A 256-bit number in the client-side layout: 32 bytes, big-endian.
pub struct ClientU256 {
    pub bytes: Vec<u8>,
}

impl View for ClientU256 {
    type V = Seq<u8>;

    open spec fn view(&self) -> Seq<u8> {
        self.bytes@
    }
}

impl ClientU256 {
    pub open spec fn wf(&self) -> bool {
        self.bytes@.len() == 32
    }

    pub fn new(bytes: Vec<u8>) -> (r: Self)
        requires
            bytes@.len() == 32,
        ensures
            r@ == bytes@,
            r.wf(),
    {
        ClientU256 { bytes }
    }

    pub fn dup(&self) -> (r: Self)
        ensures
            r@ == self@,
    {
        ClientU256 { bytes: copy_bytes(&self.bytes) }
    }

    pub fn eq_value(&self, other: &Self) -> (r: bool)
        ensures
            r == (self@ == other@),
    {
        bytes_eq(&self.bytes, &other.bytes)
    }
}

/// The 32 zero bytes of the number zero, in either layout.
pub open spec fn zero_u256_bytes() -> Seq<u8> {
    Seq::new(32, |i: int| 0u8)
}

/// Storage-side to client-side 256-bit conversion: the little-endian bytes
/// are flipped to big-endian. The value is unchanged, only the layout.
pub fn ethnum_u256_to_ethers(n: &StorageU256) -> (r: ClientU256)
    ensures
        r@ == rev_bytes(n@),
        n.wf() ==> r.wf(),
{
    ClientU256 { bytes: rev_vec(&n.bytes) }
}

/// Client-side to storage-side 256-bit conversion: the big-endian bytes are
/// flipped to little-endian. The value is unchanged, only the layout.
pub fn ethers_u256_to_ethnum(n: &ClientU256) -> (r: StorageU256)
    ensures
        r@ == rev_bytes(n@),
        n.wf() ==> r.wf(),
{
    StorageU256 { bytes: rev_vec(&n.bytes) }
}

/// A 2048-bit log bloom: exactly 256 bytes.
pub struct Bloom {
    pub bytes: Vec<u8>,
}

impl View for Bloom {
    type V = Seq<u8>;

    open spec fn view(&self) -> Seq<u8> {
        self.bytes@
    }
}

impl Bloom {
    pub open spec fn wf(&self) -> bool {
        self.bytes@.len() == 256
    }

    pub fn new(bytes: Vec<u8>) -> (r: Self)
        requires
            bytes@.len() == 256,
        ensures
            r@ == bytes@,
            r.wf(),
    {
        Bloom { bytes }
    }

    pub fn dup(&self) -> (r: Self)
        ensures
            r@ == self@,
    {
        Bloom { bytes: copy_bytes(&self.bytes) }
    }
}

/// A 64-bit block seal nonce: exactly 8 bytes.
pub struct H64 {
    pub bytes: Vec<u8>,
}

impl View for H64 {
    type V = Seq<u8>;

    open spec fn view(&self) -> Seq<u8> {
        self.bytes@
    }
}

impl H64 {
    pub open spec fn wf(&self) -> bool {
        self.bytes@.len() == 8
    }

    pub fn new(bytes: Vec<u8>) -> (r: Self)
        requires
            bytes@.len() == 8,
        ensures
            r@ == bytes@,
            r.wf(),
    {
        H64 { bytes }
    }

    pub fn dup(&self) -> (r: Self)
        ensures
            r@ == self@,
    {
        H64 { bytes: copy_bytes(&self.bytes) }
    }
}

} // verus!
