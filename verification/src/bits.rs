//! Bit-level readers over byte buffers.
//!
//! All readers count bits from the most significant bit of the first byte,
//! so bit 0 of a buffer is the top bit of byte 0.

use vstd::arithmetic::mul::{
    lemma_mul_basics, lemma_mul_inequality, lemma_mul_strict_inequality,
};
use vstd::arithmetic::power2::{
    lemma2_to64, lemma_pow2_adds, lemma_pow2_pos, lemma_pow2_strictly_increases, pow2,
};
use vstd::bits::{lemma_u32_shl_is_mul, lemma_u64_shl_is_mul};
use vstd::prelude::*;

verus! {

/// The bit of byte `b` at `index`, counting from the most significant bit.
pub open spec fn spec_byte_bit(b: u8, index: int) -> u8 {
    (b >> ((7 - index) as u8)) & 1
}

/// The bit of buffer `s` at `index`.
pub open spec fn spec_buf_bit(s: Seq<u8>, index: int) -> u8 {
    spec_byte_bit(s[index / 8], index % 8)
}

/// The value of the `size` bits of `s` that start at bit `offset`,
/// most significant bit first.
pub open spec fn spec_bits(s: Seq<u8>, offset: int, size: nat) -> nat
    decreases size,
{
    if size == 0 {
        0
    } else {
        (spec_bits(s, offset, (size - 1) as nat) * 2 + spec_buf_bit(s, offset + size - 1)) as nat
    }
}

/// A single bit is zero or one.
pub proof fn lemma_byte_bit_le_one(b: u8, index: int)
    ensures
        spec_byte_bit(b, index) <= 1,
{
    let sh = (7 - index) as u8;
    assert((b >> sh) & 1 <= 1) by (bit_vector);
}

/// A bit field of `size` bits is below `pow2(size)`.
pub proof fn lemma_bits_bound(s: Seq<u8>, offset: int, size: nat)
    ensures
        spec_bits(s, offset, size) < pow2(size),
    decreases size,
{
    if size == 0 {
        assert(pow2(0) == 1) by {
            lemma2_to64();
        }
    } else {
        lemma_bits_bound(s, offset, (size - 1) as nat);
        lemma_byte_bit_le_one(s[(offset + size - 1) / 8], (offset + size - 1) % 8);
        assert(pow2(size) == 2 * pow2((size - 1) as nat)) by {
            lemma_pow2_adds(1, (size - 1) as nat);
            lemma2_to64();
        }
    }
}

/// Appending one more bit shifts the accumulated value.
proof fn lemma_bits_step(s: Seq<u8>, offset: int, n: nat, size: nat)
    requires
        n < size,
    ensures
        spec_bits(s, offset, (n + 1) as nat) * pow2((size - n - 1) as nat) == spec_bits(
            s,
            offset,
            n,
        ) * pow2((size - n) as nat) + spec_buf_bit(s, offset + n) * pow2((size - n - 1) as nat),
{
    let lo = pow2((size - n - 1) as nat);
    let prev = spec_bits(s, offset, n);
    let bit = spec_buf_bit(s, offset + n);
    assert(pow2((size - n) as nat) == 2 * lo) by {
        lemma_pow2_adds(1, (size - n - 1) as nat);
        lemma2_to64();
    }
    assert((prev * 2 + bit) * lo == prev * (2 * lo) + bit * lo) by (nonlinear_arith);
}

/// Reads the bit of `buf` at `index`: 1 if set, 0 otherwise.
pub fn get_bit(buf: &[u8], index: usize) -> (r: u8)
    requires
        index < buf@.len() * 8,
    ensures
        r == spec_buf_bit(buf@, index as int),
        r <= 1,
{
    let byte_offset = index / 8;
    let bit_offset = index % 8;
    proof {
        lemma_byte_bit_le_one(buf@[index as int / 8], index as int % 8);
    }
    (buf[byte_offset] >> ((7 - bit_offset) as u8)) & 1
}

/// Reads `size` bits of `buf` starting at bit `offset` into the low bits of
/// a `u32`, most significant bit first.
pub fn u32_from_bits(buf: &[u8], offset: usize, size: usize) -> (r: u32)
    requires
        size <= 32,
        offset + size <= buf@.len() * 8,
        offset + size <= usize::MAX,
    ensures
        r as nat == spec_bits(buf@, offset as int, size as nat),
        r < pow2(size as nat),
{
    let mut res: u32 = 0;
    let zeroes: usize = 32 - size;
    let mut n: usize = 0;
    proof {
        lemma_mul_basics(pow2(size as nat) as int);
    }
    while n < size
        invariant
            n <= size <= 32,
            offset + size <= buf@.len() * 8,
            offset + size <= usize::MAX,
            zeroes == 32 - size,
            res as nat == spec_bits(buf@, offset as int, n as nat) * pow2((size - n) as nat),
        decreases size - n,
    {
        let bit = get_bit(buf, offset + n);
        let sh: u32 = (31 - (n + zeroes)) as u32;
        proof {
            assert(sh == size - 1 - n);
            lemma_pow2_strictly_increases(sh as nat, 32);
            lemma2_to64();
            lemma_mul_inequality(bit as int, 1, pow2(sh as nat) as int);
            lemma_u32_shl_is_mul(bit as u32, sh);
        }
        let mask: u32 = (bit as u32) << sh;
        proof {
            lemma_bits_step(buf@, offset as int, n as nat, size as nat);
            lemma_bits_bound(buf@, offset as int, (n + 1) as nat);
            lemma_pow2_pos((size - n - 1) as nat);
            assert(spec_bits(buf@, offset as int, (n + 1) as nat) * pow2((size - n - 1) as nat)
                < pow2((n + 1) as nat) * pow2((size - n - 1) as nat)) by {
                lemma_mul_strict_inequality(
                    spec_bits(buf@, offset as int, (n + 1) as nat) as int,
                    pow2((n + 1) as nat) as int,
                    pow2((size - n - 1) as nat) as int,
                );
            }
            lemma_pow2_adds((n + 1) as nat, (size - n - 1) as nat);
            if (size as nat) < 32 {
                lemma_pow2_strictly_increases(size as nat, 32);
            }
        }
        res = res + mask;
        n = n + 1;
    }
    proof {
        assert(pow2(0) == 1) by {
            lemma2_to64();
        }
        lemma_mul_basics(spec_bits(buf@, offset as int, size as nat) as int);
        lemma_bits_bound(buf@, offset as int, size as nat);
    }
    res
}

/// Reads `size` bits of `buf` starting at bit `offset` into the low bits of
/// a `u64`, most significant bit first.
pub fn u64_from_bits(buf: &[u8], offset: usize, size: usize) -> (r: u64)
    requires
        size <= 64,
        offset + size <= buf@.len() * 8,
        offset + size <= usize::MAX,
    ensures
        r as nat == spec_bits(buf@, offset as int, size as nat),
        r < pow2(size as nat),
{
    let mut res: u64 = 0;
    let zeroes: usize = 64 - size;
    let mut n: usize = 0;
    proof {
        lemma_mul_basics(pow2(size as nat) as int);
    }
    while n < size
        invariant
            n <= size <= 64,
            offset + size <= buf@.len() * 8,
            offset + size <= usize::MAX,
            zeroes == 64 - size,
            res as nat == spec_bits(buf@, offset as int, n as nat) * pow2((size - n) as nat),
        decreases size - n,
    {
        let bit = get_bit(buf, offset + n);
        let sh: u64 = (63 - (n + zeroes)) as u64;
        proof {
            assert(sh == size - 1 - n);
            lemma_pow2_strictly_increases(sh as nat, 64);
            lemma2_to64();
            lemma_mul_inequality(bit as int, 1, pow2(sh as nat) as int);
            lemma_u64_shl_is_mul(bit as u64, sh);
        }
        let mask: u64 = (bit as u64) << sh;
        proof {
            lemma_bits_step(buf@, offset as int, n as nat, size as nat);
            lemma_bits_bound(buf@, offset as int, (n + 1) as nat);
            lemma_pow2_pos((size - n - 1) as nat);
            assert(spec_bits(buf@, offset as int, (n + 1) as nat) * pow2((size - n - 1) as nat)
                < pow2((n + 1) as nat) * pow2((size - n - 1) as nat)) by {
                lemma_mul_strict_inequality(
                    spec_bits(buf@, offset as int, (n + 1) as nat) as int,
                    pow2((n + 1) as nat) as int,
                    pow2((size - n - 1) as nat) as int,
                );
            }
            lemma_pow2_adds((n + 1) as nat, (size - n - 1) as nat);
            if (size as nat) < 64 {
                lemma_pow2_strictly_increases(size as nat, 64);
            }
        }
        res = res + mask;
        n = n + 1;
    }
    proof {
        assert(pow2(0) == 1) by {
            lemma2_to64();
        }
        lemma_mul_basics(spec_bits(buf@, offset as int, size as nat) as int);
        lemma_bits_bound(buf@, offset as int, size as nat);
    }
    res
}

/// Indexed access to single bits of a value.
pub trait Bit {
    /// Whether `index` addresses a bit of `self`.
    spec fn valid_bit_index(&self, index: usize) -> bool;

    /// The bit of `self` at `index`, counting from the most significant bit.
    spec fn spec_bit(&self, index: usize) -> bool;

    /// Reads the bit of `self` at `index`.
    fn bit(&self, index: usize) -> (r: bool)
        requires
            self.valid_bit_index(index),
        ensures
            r == self.spec_bit(index),
    ;
}

impl Bit for &[u8] {
    open spec fn valid_bit_index(&self, index: usize) -> bool {
        index < self@.len() * 8
    }

    open spec fn spec_bit(&self, index: usize) -> bool {
        spec_buf_bit(self@, index as int) == 1
    }

    fn bit(&self, index: usize) -> (r: bool) {
        get_bit(self, index) != 0
    }
}

impl Bit for u8 {
    open spec fn valid_bit_index(&self, index: usize) -> bool {
        index < 8
    }

    open spec fn spec_bit(&self, index: usize) -> bool {
        spec_byte_bit(*self, index as int) == 1
    }

    fn bit(&self, index: usize) -> (r: bool) {
        proof {
            lemma_byte_bit_le_one(*self, index as int);
        }
        (*self >> ((7 - index) as u8)) & 1 != 0
    }
}

} // verus!
