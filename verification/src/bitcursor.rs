//! Cursor that extracts arbitrary-width unsigned integers from a byte slice
//! at an absolute bit offset, most-significant bit first. Reading past the
//! end of the slice yields zero bits instead of failing, so a fixed-size
//! scratch buffer may be over-read safely once the caller has validated the
//! available length.

use vstd::prelude::*;

verus! {

/// The value (0 or 1) of bit `i` of `data`, counting most-significant bit
/// first within each byte. Bits outside the slice read as zero.
pub open spec fn bit_at(data: Seq<u8>, i: int) -> u64 {
    if 0 <= i && i / 8 < data.len() {
        ((data[i / 8] >> ((7 - i % 8) as u8)) & 1) as u64
    } else {
        0
    }
}

/// The unsigned integer formed by bits `start .. start + n` of `data`,
/// most-significant bit first. Bits beyond the 64 least significant are
/// shifted out, as they are by the cursor itself.
pub open spec fn bits_of(data: Seq<u8>, start: int, n: nat) -> u64
    decreases n,
{
    if n == 0 {
        0
    } else {
        (bits_of(data, start, (n - 1) as nat) << 1) | bit_at(data, start + n - 1)
    }
}

pub proof fn lemma_bit_at_bound(data: Seq<u8>, i: int)
    ensures
        bit_at(data, i) <= 1,
{
    if 0 <= i && i / 8 < data.len() {
        let x = data[i / 8];
        let sh = (7 - i % 8) as u8;
        assert(((x >> sh) & 1) <= 1) by (bit_vector);
    }
}

/// An `n`-bit read fits in `n` bits.
pub proof fn lemma_bits_of_bound(data: Seq<u8>, start: int, n: nat)
    requires
        n <= 63,
    ensures
        bits_of(data, start, n) < (1u64 << (n as u64)),
    decreases n,
{
    if n == 0 {
        assert((1u64 << 0u64) == 1) by (bit_vector);
    } else {
        lemma_bits_of_bound(data, start, (n - 1) as nat);
        lemma_bit_at_bound(data, start + n - 1);
        let p = bits_of(data, start, (n - 1) as nat);
        let b = bit_at(data, start + n - 1);
        let m = (n - 1) as u64;
        assert(p < (1u64 << m) && b <= 1 && m <= 62 ==> ((p << 1) | b) < (1u64 << ((m + 1) as u64)))
            by (bit_vector);
    }
}

pub struct BitCursor<'a> {
    slice: &'a [u8],
    bit: usize,
}

impl<'a> BitCursor<'a> {
    /// The bytes the cursor reads from.
    pub closed spec fn data(self) -> Seq<u8> {
        self.slice@
    }

    /// The absolute bit offset the next read starts at.
    pub closed spec fn offset(self) -> usize {
        self.bit
    }

    pub fn new(slice: &'a [u8]) -> (r: BitCursor<'a>)
        ensures
            r.data() == slice@,
            r.offset() == 0,
    {
        BitCursor { slice, bit: 0 }
    }

    pub fn set_offset(&mut self, bit: usize)
        ensures
            final(self).data() == old(self).data(),
            final(self).offset() == bit,
    {
        self.bit = bit;
    }

    pub fn add_offset(&mut self, bit: usize)
        requires
            old(self).offset() + bit <= usize::MAX,
        ensures
            final(self).data() == old(self).data(),
            final(self).offset() == old(self).offset() + bit,
    {
        self.bit = self.bit + bit;
    }

    /// Reads the next `bits` bits as an unsigned integer, most-significant
    /// bit first, advancing the offset by `bits`.
    pub fn read_bits(&mut self, bits: usize) -> (r: u64)
        requires
            old(self).offset() + bits <= usize::MAX,
        ensures
            final(self).data() == old(self).data(),
            final(self).offset() == old(self).offset() + bits,
            r == bits_of(old(self).data(), old(self).offset() as int, bits as nat),
    {
        let start = self.bit;
        let end = start + bits;
        let mut output: u64 = 0;
        let mut i = start;
        while i < end
            invariant
                start <= i <= end,
                end == start + bits,
                start == self.bit,
                output == bits_of(self.slice@, start as int, (i - start) as nat),
            decreases end - i,
        {
            let idx = i / 8;
            let sh: u8 = 7 - ((i % 8) as u8);
            let b: u64 = if idx < self.slice.len() {
                ((self.slice[idx] >> sh) & 1) as u64
            } else {
                0
            };
            proof {
                assert(b == bit_at(self.slice@, i as int));
            }
            output = (output << 1) | b;
            i = i + 1;
        }
        self.add_offset(bits);
        output
    }

    /// Reads the bits of the absolute range `start .. end`, leaving the
    /// offset at `end`.
    pub fn range(&mut self, start: usize, end: usize) -> (r: u64)
        requires
            start <= end,
        ensures
            final(self).data() == old(self).data(),
            final(self).offset() == end,
            r == bits_of(old(self).data(), start as int, (end - start) as nat),
    {
        self.set_offset(start);
        self.read_bits(end - start)
    }
}

} // verus!
