//! Bit-level helpers shared by the decoder and the ALUs.
use vstd::prelude::*;
use vstd::arithmetic::div_mod::lemma_small_mod;
use vstd::arithmetic::power2::{lemma2_to64, lemma2_to64_rest, lemma_pow2_strictly_increases, pow2};
use vstd::bits::{lemma_u32_shr_is_div, lemma_u64_shl_is_mul};

verus! {

/// The word that ends a program.
pub const END_PRG: u32 = 0xbfb00000;

/// The number of dimensions of a launch grid, from its extent in the second
/// and in the third: three where both are more than one group wide, two
/// where only the second is, else one.
pub fn dispatch_dim(gy: u32, gz: u32) -> (r: u32)
    ensures
        r == if gy != 1 && gz != 1 {
            3u32
        } else if gy != 1 {
            2u32
        } else {
            1u32
        },
{
    if gy != 1 && gz != 1 {
        3
    } else if gy != 1 {
        2
    } else {
        1
    }
}

/// The bit of `val` at position `idx`, counted from the least significant bit.
pub open spec fn bit_at(val: u32, idx: nat) -> u32 {
    ((val as nat / pow2(idx)) % 2) as u32
}

proof fn lemma_low_bit(x: u32)
    by (bit_vector)
    ensures
        x & 1 == x % 2,
{
}

/// Bit `pos` of `val`, counted from the most significant bit.
pub fn nth(val: u32, pos: usize) -> (r: u32)
    requires
        pos < 32,
    ensures
        r == bit_at(val, (31 - pos) as nat),
        r <= 1,
{
    let shift: u32 = 31 - pos as u32;
    proof {
        lemma_u32_shr_is_div(val, shift);
        lemma_low_bit(val >> shift);
    }
    (val >> shift) & 1
}

/// What `sign_ext` returns: `num` with every bit from `bits` upward set when
/// bit `bits - 1` is set, read as a signed number.
pub open spec fn sign_ext_of(num: u64, bits: nat) -> i64 {
    if (num >> ((bits - 1) as u64)) & 1 != 0 {
        (num | (!0u64 << (bits as u64))) as i64
    } else {
        num as i64
    }
}

/// The value of the low `bits` bits of a number read in two's complement.
pub open spec fn twos_complement(num: int, bits: nat) -> int {
    let low = num % (pow2(bits) as int);
    if low >= pow2((bits - 1) as nat) {
        low - pow2(bits)
    } else {
        low
    }
}

/// Sign-extends the low `bits` bits of `num`.
///
/// Bits above the sign position are kept when the sign bit is clear, so the
/// result is the two's complement value only for a `num` below `2^bits`.
pub fn sign_ext(num: u64, bits: usize) -> (r: i64)
    requires
        1 <= bits < 64,
    ensures
        r == sign_ext_of(num, bits as nat),
{
    let mut value: u64 = num;
    let is_negative: bool = (value >> ((bits - 1) as u64)) & 1 != 0;
    if is_negative {
        value = value | (!0u64 << (bits as u64));
    }
    #[verifier::truncate]
    (value as i64)
}

proof fn lemma_sign_ext_bits(num: u64, bits: u64, top: u64)
    by (bit_vector)
    requires
        1 <= bits < 64,
        top + 1 == bits,
        num < (1u64 << bits),
    ensures
        (num >> top) & 1 != 0 <==> num >= (1u64 << top),
        num >= (1u64 << top) ==> (num | (!0u64 << bits)) as i64 == num - (1u64 << bits),
        num < (1u64 << top) ==> num as i64 == num,
{
}

/// For a number below `2^bits`, `sign_ext` yields the two's complement
/// value of its `bits` bits: the number itself below `2^(bits - 1)`, and
/// `2^bits` less from there on.
pub proof fn lemma_sign_ext_value(num: u64, bits: nat)
    requires
        1 <= bits < 64,
        num < pow2(bits),
    ensures
        sign_ext_of(num, bits) == twos_complement(num as int, bits),
        sign_ext_of(num, bits) == if num >= pow2((bits - 1) as nat) {
            num - pow2(bits)
        } else {
            num as int
        },
{
    lemma_pow2_strictly_increases(bits, 64);
    lemma_pow2_strictly_increases((bits - 1) as nat, 64);
    lemma2_to64_rest();
    lemma_u64_shl_is_mul(1, bits as u64);
    lemma_u64_shl_is_mul(1, (bits - 1) as u64);
    lemma_sign_ext_bits(num, bits as u64, (bits - 1) as u64);
    lemma_small_mod(num as nat, pow2(bits));
}

/// The two widths that the decoder extends, in numbers.
pub proof fn lemma_sign_ext_fields(num: u64)
    ensures
        num < 0x2000 ==> sign_ext_of(num, 13) == if num >= 0x1000 {
            num - 0x2000
        } else {
            num as int
        },
        num < 0x20_0000 ==> sign_ext_of(num, 21) == if num >= 0x10_0000 {
            num - 0x20_0000
        } else {
            num as int
        },
{
    lemma2_to64();
    if num < 0x2000 {
        lemma_sign_ext_value(num, 13);
    }
    if num < 0x20_0000 {
        lemma_sign_ext_value(num, 21);
    }
}

} // verus!
