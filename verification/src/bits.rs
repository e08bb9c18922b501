//! Bit sequences of process images and terminal buffers.
//!
//! The bits live in a `bitvec::vec::BitVec<u8, Lsb0>`. Verus cannot look inside
//! that type, so the sequence it holds is named by [`bits_of`], and the few
//! methods the terminals need are given contracts over that name. Everything
//! else in this module is proved from those contracts.

use vstd::prelude::*;
use bitvec::field::BitField;
use bitvec::order::Lsb0;
use bitvec::vec::BitVec;

verus! {

/// An ordered, growable sequence of bits, least significant bit of each byte first.
#[verifier::external_body]
#[derive(Debug)]
pub struct Bits {
    inner: BitVec<u8, Lsb0>,
}

/// The bits that a [`Bits`] value holds, in index order.
pub uninterp spec fn bits_of(b: Bits) -> Seq<bool>;

impl View for Bits {
    type V = Seq<bool>;

    open spec fn view(&self) -> Seq<bool> {
        bits_of(*self)
    }
}

/// The largest number of bits one buffer can hold.
pub open spec fn max_bits() -> nat {
    (usize::MAX / 8) as nat
}

/// The largest number of whole bytes that can be unpacked into one buffer.
pub open spec fn max_bytes() -> nat {
    (usize::MAX / 64) as nat
}

/// Bit `j` of a byte, counted from the least significant bit.
pub open spec fn byte_bit(byte: u8, j: nat) -> bool {
    (byte as nat / pow2(j)) % 2 == 1
}

/// Two to the power `j`.
pub open spec fn pow2(j: nat) -> nat
    decreases j,
{
    if j == 0 {
        1
    } else {
        2 * pow2((j - 1) as nat)
    }
}

/// The number whose binary digits are `s`, least significant first.
pub open spec fn le_value(s: Seq<bool>) -> nat
    decreases s.len(),
{
    if s.len() == 0 {
        0
    } else {
        (if s[0] { 1nat } else { 0nat }) + 2 * le_value(s.drop_first())
    }
}

/// The bits of a byte string: bit `i` is bit `i % 8` of byte `i / 8`.
pub open spec fn unpacked(bytes: Seq<u8>) -> Seq<bool> {
    Seq::new(8 * bytes.len(), |i: int| byte_bit(bytes[i / 8], (i % 8) as nat))
}

/// `BitVec::new`: the result holds no bits.
#[verifier::external_body]
pub(crate) fn raw_new() -> (r: Bits)
    ensures
        bits_of(r) == Seq::<bool>::empty(),
{
    Bits { inner: BitVec::new() }
}

/// `BitVec::repeat`: the result holds `len` copies of `bit`. The call panics
/// above the crate's length limit, which `requires` leaves out.
#[verifier::external_body]
pub(crate) fn raw_repeat(bit: bool, len: usize) -> (r: Bits)
    requires
        len <= max_bits(),
    ensures
        r@ == Seq::new(len as nat, |i: int| bit),
{
    Bits { inner: BitVec::repeat(bit, len) }
}

/// `BitVec::from_slice`: the result holds the bits of `bytes`, eight per byte,
/// least significant first. The call panics on slices too long to span.
#[verifier::external_body]
pub(crate) fn raw_from_bytes(bytes: &[u8]) -> (r: Bits)
    requires
        bytes@.len() <= max_bytes(),
    ensures
        r@ == unpacked(bytes@),
{
    Bits { inner: BitVec::from_slice(bytes) }
}

/// `BitVec::len`: the number of bits held.
#[verifier::external_body]
pub(crate) fn raw_len(b: &Bits) -> (n: usize)
    ensures
        n == bits_of(*b).len(),
{
    b.inner.len()
}

/// `BitSlice::get` with a single index: the bit there, or nothing past the end.
#[verifier::external_body]
pub(crate) fn raw_get(b: &Bits, index: usize) -> (r: Option<bool>)
    ensures
        index < b@.len() ==> r == Some(b@[index as int]),
        index >= b@.len() ==> r.is_none(),
{
    b.inner.get(index).map(|bit| *bit)
}

/// `BitSlice::set`: overwrites one bit and leaves the others. The call panics
/// on an index past the end, which `requires` leaves out.
#[verifier::external_body]
pub(crate) fn raw_set(b: &mut Bits, index: usize, bit: bool)
    requires
        index < old(b)@.len(),
    ensures
        final(b)@ == old(b)@.update(index as int, bit),
{
    b.inner.set(index, bit);
}

/// `BitVec::push`: appends one bit. The call panics at the length limit.
#[verifier::external_body]
pub(crate) fn raw_push(b: &mut Bits, bit: bool)
    requires
        old(b)@.len() < max_bits(),
    ensures
        final(b)@ == old(b)@.push(bit),
{
    b.inner.push(bit);
}

/// `BitVec::extend_from_bitslice`: appends all bits of `tail` in order. The
/// call panics if the sum of the lengths passes the length limit.
#[verifier::external_body]
pub(crate) fn raw_extend(b: &mut Bits, tail: &Bits)
    requires
        old(b)@.len() + tail@.len() <= max_bits(),
    ensures
        final(b)@ == old(b)@ + tail@,
{
    b.inner.extend_from_bitslice(&tail.inner);
}

/// Range indexing of a `BitSlice` followed by `BitSlice::to_bitvec`: a new
/// buffer with the bits from `lo` up to, not including, `hi`. Indexing panics
/// on a range that leaves the buffer.
#[verifier::external_body]
pub(crate) fn raw_range(b: &Bits, lo: usize, hi: usize) -> (r: Bits)
    requires
        lo <= hi <= b@.len(),
    ensures
        r@ == b@.subrange(lo as int, hi as int),
{
    Bits { inner: b.inner[lo..hi].to_bitvec() }
}

/// `BitField::load_le` into a `u16` on `Lsb0` storage: bit `i` of the buffer
/// becomes binary digit `i` of the result. The call panics unless the buffer
/// holds between 1 and 16 bits.
#[verifier::external_body]
pub(crate) fn raw_load_u16(b: &Bits) -> (r: u16)
    requires
        1 <= b@.len() <= 16,
    ensures
        r == le_value(b@),
{
    b.inner.load_le::<u16>()
}

/// `BitField::load_le` into a `u8` on `Lsb0` storage: bit `i` of the buffer
/// becomes binary digit `i` of the result. The call panics unless the buffer
/// holds between 1 and 8 bits.
#[verifier::external_body]
pub(crate) fn raw_load_u8(b: &Bits) -> (r: u8)
    requires
        1 <= b@.len() <= 8,
    ensures
        r == le_value(b@),
{
    b.inner.load_le::<u8>()
}

/// `==` on two `BitVec`s: whether they hold the same bits in the same order.
#[verifier::external_body]
pub(crate) fn raw_same(a: &Bits, b: &Bits) -> (r: bool)
    ensures
        r == (a@ == b@),
{
    a.inner == b.inner
}

impl PartialEq for Bits {
    fn eq(&self, other: &Self) -> (r: bool) {
        raw_same(self, other)
    }
}

impl vstd::std_specs::cmp::PartialEqSpecImpl for Bits {
    open spec fn obeys_eq_spec() -> bool {
        true
    }

    open spec fn eq_spec(&self, other: &Self) -> bool {
        self@ == other@
    }
}

impl Clone for Bits {
    /// `BitVec::clone`: a new buffer with the same bits.
    #[verifier::external_body]
    fn clone(&self) -> (r: Self)
        ensures
            r@ == self@,
    {
        Bits { inner: self.inner.clone() }
    }
}

/// A sequence of binary digits of length `n` is a number below two to the `n`.
pub proof fn lemma_le_value_bound(s: Seq<bool>)
    ensures
        le_value(s) < pow2(s.len()),
    decreases s.len(),
{
    if s.len() > 0 {
        lemma_le_value_bound(s.drop_first());
    }
}

impl Bits {
    /// An empty buffer.
    pub fn new() -> (r: Bits)
        ensures
            r@ == Seq::<bool>::empty(),
    {
        raw_new()
    }

    /// A buffer of `len` equal bits.
    pub fn repeat(bit: bool, len: usize) -> (r: Bits)
        requires
            len <= max_bits(),
        ensures
            r@ == Seq::new(len as nat, |i: int| bit),
    {
        raw_repeat(bit, len)
    }

    /// The bits of a byte string, least significant bit of each byte first.
    pub fn from_bytes(bytes: &[u8]) -> (r: Bits)
        requires
            bytes@.len() <= max_bytes(),
        ensures
            r@ == unpacked(bytes@),
    {
        raw_from_bytes(bytes)
    }

    /// A buffer holding the given bits in order.
    pub fn from_bools(bools: &[bool]) -> (r: Bits)
        requires
            bools@.len() <= max_bits(),
        ensures
            r@ == bools@,
    {
        let mut out = raw_new();
        let mut i: usize = 0;
        while i < bools.len()
            invariant
                i <= bools@.len() <= max_bits(),
                out@ == bools@.subrange(0, i as int),
            decreases bools@.len() - i,
        {
            raw_push(&mut out, bools[i]);
            i = i + 1;
            assert(out@ =~= bools@.subrange(0, i as int));
        }
        assert(bools@.subrange(0, i as int) =~= bools@);
        out
    }

    /// The number of bits held.
    pub fn len(&self) -> (n: usize)
        ensures
            n == self@.len(),
    {
        raw_len(self)
    }

    /// The bit at `index`, or `None` past the end.
    pub fn get(&self, index: usize) -> (r: Option<bool>)
        ensures
            r == (if index < self@.len() { Some(self@[index as int]) } else { None }),
    {
        raw_get(self, index)
    }

    /// All bits, in order.
    pub fn to_bools(&self) -> (r: Vec<bool>)
        ensures
            r@ == self@,
    {
        let n = raw_len(self);
        let mut out: Vec<bool> = Vec::new();
        let mut i: usize = 0;
        while i < n
            invariant
                n == self@.len(),
                i <= n,
                out@ == self@.subrange(0, i as int),
            decreases n - i,
        {
            match raw_get(self, i) {
                Some(bit) => {
                    out.push(bit);
                },
                None => {},
            }
            i = i + 1;
            assert(out@ =~= self@.subrange(0, i as int));
        }
        assert(self@.subrange(0, i as int) =~= self@);
        out
    }

    /// The bits packed into bytes, eight at a time, least significant first.
    /// Byte `k` is the number written by bits `8k .. 8k + 8`.
    pub fn to_bytes(&self) -> (r: Vec<u8>)
        requires
            self@.len() % 8 == 0,
        ensures
            r@.len() * 8 == self@.len(),
            forall|k: int|
                0 <= k < r@.len() ==> r@[k] as nat == le_value(
                    #[trigger] self@.subrange(8 * k, 8 * k + 8),
                ),
    {
        let n = raw_len(self);
        let mut out: Vec<u8> = Vec::new();
        let mut i: usize = 0;
        while i < n
            invariant
                n == self@.len(),
                n % 8 == 0,
                i % 8 == 0,
                i <= n,
                out@.len() * 8 == i,
                forall|k: int|
                    0 <= k < out@.len() ==> out@[k] as nat == le_value(
                        #[trigger] self@.subrange(8 * k, 8 * k + 8),
                    ),
            decreases n - i,
        {
            let chunk = raw_range(self, i, i + 8);
            let byte = raw_load_u8(&chunk);
            out.push(byte);
            i = i + 8;
        }
        out
    }
}

} // verus!
