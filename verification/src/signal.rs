//! Bit-field signal decoding support: a frame's data bytes are read as a
//! little-endian word, from which a signal is an arbitrary bit range.

use vstd::arithmetic::power2::{
    lemma2_to64, lemma2_to64_rest, lemma_pow2_adds, lemma_pow2_pos, lemma_pow2_strictly_increases,
    pow2,
};
use vstd::bits::{
    lemma_u64_low_bits_mask_is_mod, lemma_u64_pow2_no_overflow, lemma_u64_shl_is_mul,
    lemma_u64_shr_is_div, low_bits_mask,
};
use vstd::prelude::*;

verus! {

/// The value of `bytes` read as a little-endian word: the first byte is the
/// least significant.
pub open spec fn le_word(bytes: Seq<u8>) -> int
    decreases bytes.len(),
{
    if bytes.len() == 0 {
        0
    } else {
        bytes[0] + 256 * le_word(bytes.drop_first())
    }
}

/// A little-endian word over `n` bytes lies between 0 and 2^(8n) - 1.
pub proof fn lemma_le_word_bounds(bytes: Seq<u8>)
    ensures
        0 <= le_word(bytes) < pow2(8 * bytes.len()),
    decreases bytes.len(),
{
    if bytes.len() == 0 {
        assert(pow2(0) == 1) by {
            lemma2_to64();
        }
    } else {
        lemma_le_word_bounds(bytes.drop_first());
        lemma_pow2_adds(8, 8 * (bytes.len() - 1) as nat);
        assert(pow2(8) == 256) by {
            lemma2_to64();
        }
    }
}

/// The bit field of width `length` starting `offset` bits into the
/// little-endian word over `bytes`.
pub open spec fn bit_field(bytes: Seq<u8>, offset: nat, length: nat) -> int {
    (le_word(bytes) / pow2(offset) as int) % pow2(length) as int
}

/// Read up to 8 bytes as a little-endian word.
pub fn read_le_word(bytes: &[u8]) -> (r: u64)
    requires
        bytes@.len() <= 8,
    ensures
        r == le_word(bytes@),
{
    let n = bytes.len();
    let mut r: u64 = 0;
    let mut i: usize = n;
    proof {
        lemma_pow2_pos(0);
    }
    while i > 0
        invariant
            i <= n,
            n == bytes@.len() <= 8,
            r == le_word(bytes@.subrange(i as int, n as int)),
            r < pow2(8 * (n - i) as nat),
        decreases i,
    {
        let b = bytes[i - 1];
        proof {
            lemma2_to64();
            lemma2_to64_rest();
            if 8 * (n - i) < 56 {
                lemma_pow2_strictly_increases(8 * (n - i) as nat, 56);
            }
            lemma_pow2_adds(8 * (n - i) as nat, 8);
            assert(bytes@.subrange(i - 1, n as int).drop_first() =~= bytes@.subrange(
                i as int,
                n as int,
            ));
            assert(bytes@.subrange(i - 1, n as int)[0] == bytes@[i - 1]);
        }
        r = r * 256 + (b as u64);
        i = i - 1;
    }
    proof {
        assert(bytes@.subrange(0, n as int) =~= bytes@);
    }
    r
}

/// An unsigned carrier type for a decoded signal: a value of `spec_bits()`
/// bits, viewed as the number `spec_val()`.
pub trait SignalValue: Sized {
    /// The bit width of the carrier type.
    spec fn spec_bits() -> nat;

    /// The numeric value carried.
    spec fn spec_val(self) -> u64;

    /// Convert a word already known to fit in the carrier type.
    fn of_u64(v: u64) -> (r: Self)
        requires
            v < pow2(Self::spec_bits()),
        ensures
            r.spec_val() == v,
    ;
}

impl SignalValue for u8 {
    open spec fn spec_bits() -> nat {
        8
    }

    open spec fn spec_val(self) -> u64 {
        self as u64
    }

    fn of_u64(v: u64) -> (r: Self) {
        proof {
            lemma2_to64();
        }
        v as u8
    }
}

impl SignalValue for u16 {
    open spec fn spec_bits() -> nat {
        16
    }

    open spec fn spec_val(self) -> u64 {
        self as u64
    }

    fn of_u64(v: u64) -> (r: Self) {
        proof {
            lemma2_to64();
        }
        v as u16
    }
}

impl SignalValue for u32 {
    open spec fn spec_bits() -> nat {
        32
    }

    open spec fn spec_val(self) -> u64 {
        self as u64
    }

    fn of_u64(v: u64) -> (r: Self) {
        proof {
            lemma2_to64();
        }
        v as u32
    }
}

impl SignalValue for u64 {
    open spec fn spec_bits() -> nat {
        64
    }

    open spec fn spec_val(self) -> u64 {
        self
    }

    fn of_u64(v: u64) -> (r: Self) {
        v
    }
}

/// Extract the bit field of width `length` starting `offset` bits into the
/// little-endian word over `bytes`, into any carrier type wide enough.
pub fn decode_bit_field<T: SignalValue>(bytes: &[u8], offset: usize, length: usize) -> (r: T)
    requires
        1 <= length,
        offset + length <= 8 * bytes@.len(),
        bytes@.len() <= 8,
        length <= T::spec_bits(),
    ensures
        r.spec_val() == bit_field(bytes@, offset as nat, length as nat),
{
    let word = read_le_word(bytes);
    proof {
        lemma_le_word_bounds(bytes@);
        lemma_u64_shr_is_div(word, offset as u64);
    }
    let shifted = word >> (offset as u64);
    if length < 64 {
        proof {
            lemma_u64_pow2_no_overflow(length as nat);
            lemma_u64_shl_is_mul(1u64, length as u64);
            lemma_pow2_pos(length as nat);
            if (length as nat) < T::spec_bits() {
                lemma_pow2_strictly_increases(length as nat, T::spec_bits());
            }
        }
        let mask = (1u64 << (length as u64)) - 1;
        let field = shifted & mask;
        proof {
            assert(mask == low_bits_mask(length as nat));
            lemma_u64_low_bits_mask_is_mod(shifted, length as nat);
            assert(field == shifted % (pow2(length as nat) as u64));
            assert(shifted == le_word(bytes@) / pow2(offset as nat) as int);
            assert(field == bit_field(bytes@, offset as nat, length as nat));
        }
        T::of_u64(field)
    } else {
        proof {
            lemma2_to64();
            lemma2_to64_rest();
            // offset + length <= 64 and length >= 64 force offset == 0 and
            // length == 64, so the whole word is the field.
            assert(offset == 0 && length == 64 && bytes@.len() == 8);
            assert(word < pow2(64));
            assert(shifted == word as nat / pow2(0));
            assert(shifted == word);
            vstd::arithmetic::div_mod::lemma_small_mod(word as nat, pow2(64));
            assert(word as nat % pow2(64) == word);
            assert(shifted == bit_field(bytes@, offset as nat, length as nat));
            if 64 < T::spec_bits() {
                lemma_pow2_strictly_increases(64, T::spec_bits());
            }
        }
        T::of_u64(shifted)
    }
}

} // verus!
