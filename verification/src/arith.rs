//! Integer arithmetic of the ALUs, stated over mathematical integers.
//!
//! A register holds 32 bits. An instruction reads them as an unsigned number
//! or, in two's complement, as a signed one, computes over the integers and
//! stores the result modulo the register's width.
use vstd::prelude::*;
use vstd::arithmetic::power2::*;
use vstd::arithmetic::div_mod::*;
use vstd::arithmetic::mul::*;
use vstd::bits::*;

verus! {

/// The integer `i` reduced to 16 bits.
pub open spec fn wrap16(i: int) -> u16 {
    (i % 0x1_0000) as u16
}

/// The integer `i` reduced to 32 bits.
pub open spec fn wrap32(i: int) -> u32 {
    (i % 0x1_0000_0000) as u32
}

/// The integer `i` reduced to 64 bits.
pub open spec fn wrap64(i: int) -> u64 {
    (i % 0x1_0000_0000_0000_0000) as u64
}

/// A 16-bit pattern read in two's complement.
pub open spec fn signed16(x: u16) -> int {
    if x >= 0x8000 {
        x - 0x1_0000
    } else {
        x as int
    }
}

/// A 32-bit pattern read in two's complement.
pub open spec fn signed32(x: u32) -> int {
    if x >= 0x8000_0000 {
        x - 0x1_0000_0000
    } else {
        x as int
    }
}

/// A 64-bit pattern read in two's complement.
pub open spec fn signed64(x: u64) -> int {
    if x >= 0x8000_0000_0000_0000 {
        x - 0x1_0000_0000_0000_0000
    } else {
        x as int
    }
}

/// Whether an integer can be held by a signed 32-bit register.
pub open spec fn fits_i32(i: int) -> bool {
    -0x8000_0000 <= i <= 0x7fff_ffff
}

/// A condition as the number that a flag register holds.
pub open spec fn flag_of(b: bool) -> u32 {
    if b {
        1
    } else {
        0
    }
}

/// A condition as the number that a flag register holds.
pub fn flag(b: bool) -> (r: u32)
    ensures
        r == flag_of(b),
{
    if b {
        1
    } else {
        0
    }
}

/// Reads a 16-bit pattern in two's complement.
pub fn as_signed16(x: u16) -> (r: i64)
    ensures
        r == signed16(x),
{
    if x >= 0x8000 {
        x as i64 - 0x1_0000
    } else {
        x as i64
    }
}

/// Reads a 32-bit pattern in two's complement.
pub fn as_signed32(x: u32) -> (r: i64)
    ensures
        r == signed32(x),
{
    if x >= 0x8000_0000 {
        x as i64 - 0x1_0000_0000
    } else {
        x as i64
    }
}

/// Reduces a signed number to 32 bits.
pub fn wrap_to_32(i: i64) -> (r: u32)
    ensures
        r == wrap32(i as int),
{
    if i >= 0 {
        ((i as u64) % 0x1_0000_0000) as u32
    } else {
        let below: u64 = (-(i + 1)) as u64;
        (0xffff_ffff - (below % 0x1_0000_0000)) as u32
    }
}

/// Reduces an unsigned number to 32 bits.
pub fn low32(x: u64) -> (r: u32)
    ensures
        r == wrap32(x as int),
{
    (x % 0x1_0000_0000) as u32
}

/// Reduces a number to 16 bits.
pub fn low16(x: u32) -> (r: u16)
    ensures
        r == wrap16(x as int),
        r == x % 0x1_0000,
{
    (x % 0x1_0000) as u16
}

/// The upper 16 bits of a register.
pub fn high16(x: u32) -> (r: u16)
    ensures
        r == x / 0x1_0000,
{
    (x / 0x1_0000) as u16
}

/// Extends a 16-bit pattern to 32 bits, keeping its signed value.
pub fn extend16(x: u16) -> (r: u32)
    ensures
        r == wrap32(signed16(x)),
        signed32(r) == signed16(x),
{
    if x >= 0x8000 {
        0xffff_0000 + x as u32
    } else {
        x as u32
    }
}

/// Extends an 8-bit pattern to 32 bits, keeping its signed value.
pub fn extend8(x: u8) -> (r: u32)
    ensures
        r == wrap32(if x >= 0x80 { x - 0x100 } else { x as int }),
{
    if x >= 0x80 {
        0xffff_ff00 + x as u32
    } else {
        x as u32
    }
}

/// Whether the unsigned sum of three registers leaves 32 bits.
pub open spec fn carry_out(a: u32, b: u32, c: u32) -> bool {
    a + b + c >= 0x1_0000_0000
}

/// Unsigned addition with a carry in: the sum modulo 2^32 and the carry out.
pub fn add_carry(a: u32, b: u32, cin: u32) -> (r: (u32, bool))
    ensures
        r.0 == wrap32(a + b + cin),
        r.1 == carry_out(a, b, cin),
{
    let sum: u64 = a as u64 + b as u64 + cin as u64;
    ((sum % 0x1_0000_0000) as u32, sum >= 0x1_0000_0000)
}

/// Whether `b` and a borrow together exceed `a`.
pub open spec fn borrow_out(a: u32, b: u32, c: u32) -> bool {
    b + c > a
}

/// Unsigned subtraction with a borrow in: the difference modulo 2^32 and the
/// borrow out.
pub fn sub_borrow(a: u32, b: u32, bin: u32) -> (r: (u32, bool))
    ensures
        r.0 == wrap32(a - b - bin),
        r.1 == borrow_out(a, b, bin),
{
    let diff: i64 = a as i64 - b as i64 - bin as i64;
    (wrap_to_32(diff), b as u64 + bin as u64 > a as u64)
}

/// Signed addition: the sum modulo 2^32, and whether the sum of the signed
/// values cannot be held in 32 bits.
pub fn add_signed(a: u32, b: u32) -> (r: (u32, bool))
    ensures
        r.0 == wrap32(signed32(a) + signed32(b)),
        r.1 == !fits_i32(signed32(a) + signed32(b)),
{
    let sum: i64 = as_signed32(a) + as_signed32(b);
    (wrap_to_32(sum), sum < -0x8000_0000 || sum > 0x7fff_ffff)
}

/// Signed subtraction: the difference modulo 2^32, and whether the difference
/// of the signed values cannot be held in 32 bits.
pub fn sub_signed(a: u32, b: u32) -> (r: (u32, bool))
    ensures
        r.0 == wrap32(signed32(a) - signed32(b)),
        r.1 == !fits_i32(signed32(a) - signed32(b)),
{
    let diff: i64 = as_signed32(a) - as_signed32(b);
    (wrap_to_32(diff), diff < -0x8000_0000 || diff > 0x7fff_ffff)
}

/// The sign bit of a register.
pub open spec fn sign_bit(x: u32) -> u32 {
    x / 0x8000_0000
}

/// A signed addition overflows exactly when both operands have the same sign
/// and the stored sum has the other one.
pub proof fn lemma_signed_add_overflow(a: u32, b: u32)
    ensures
        !fits_i32(signed32(a) + signed32(b)) <==> (sign_bit(a) == sign_bit(b) && sign_bit(
            wrap32(signed32(a) + signed32(b)),
        ) != sign_bit(a)),
        fits_i32(signed32(a) + signed32(b)) ==> signed32(wrap32(signed32(a) + signed32(b)))
            == signed32(a) + signed32(b),
{
}

/// A signed subtraction overflows exactly when the operands differ in sign
/// and the stored difference has the sign of the subtrahend.
pub proof fn lemma_signed_sub_overflow(a: u32, b: u32)
    ensures
        !fits_i32(signed32(a) - signed32(b)) <==> (sign_bit(a) != sign_bit(b) && sign_bit(
            wrap32(signed32(a) - signed32(b)),
        ) != sign_bit(a)),
        fits_i32(signed32(a) - signed32(b)) ==> signed32(wrap32(signed32(a) - signed32(b)))
            == signed32(a) - signed32(b),
{
}

/// The unsigned sum is the mathematical sum modulo 2^32, and the carry is set
/// exactly when the mathematical sum does not fit.
pub proof fn lemma_add_carry_exact(a: u32, b: u32)
    ensures
        carry_out(a, b, 0) <==> a + b >= 0x1_0000_0000,
        !carry_out(a, b, 0) ==> wrap32(a + b) == a + b,
        carry_out(a, b, 0) ==> wrap32(a + b) == a + b - 0x1_0000_0000,
{
}

/// The low 32 bits of a product.
pub fn mul_low(a: u32, b: u32) -> (r: u32)
    ensures
        r == wrap32(a * b),
{
    a.wrapping_mul(b)
}

/// The low 32 bits of a product are the same whether the factors are read
/// as signed or as unsigned numbers.
pub proof fn lemma_mul_low_signed(a: u32, b: u32)
    ensures
        wrap32(signed32(a) * signed32(b)) == wrap32(a * b),
{
    let m: int = 0x1_0000_0000;
    let sa = signed32(a);
    let sb = signed32(b);
    let ka: int = if a >= 0x8000_0000 { 1 } else { 0 };
    let kb: int = if b >= 0x8000_0000 { 1 } else { 0 };
    assert(sa == a - ka * m);
    assert(sb == b - kb * m);
    assert(sa * sb == a * b + (ka * kb * m - ka * b - kb * a) * m) by (nonlinear_arith)
        requires
            sa == a - ka * m,
            sb == b - kb * m,
    ;
    lemma_mod_multiples_vanish(ka * kb * m - ka * b - kb * a, a * b, m);
}

/// The upper 32 bits of the product of two unsigned registers.
pub fn mul_high_unsigned(a: u32, b: u32) -> (r: u32)
    ensures
        r == (a * b) / 0x1_0000_0000,
{
    assert(a * b <= 0xffff_ffff * 0xffff_ffff) by (nonlinear_arith)
        requires
            a <= 0xffff_ffff,
            b <= 0xffff_ffff,
    ;
    let p: u64 = (a as u64) * (b as u64);
    (p / 0x1_0000_0000) as u32
}

/// The upper 32 bits of the product of two signed registers.
pub fn mul_high_signed(a: u32, b: u32) -> (r: u32)
    ensures
        r == wrap32((signed32(a) * signed32(b)) / 0x1_0000_0000),
{
    let sa: i64 = as_signed32(a);
    let sb: i64 = as_signed32(b);
    assert(-0x4000_0000_0000_0000 <= sa * sb <= 0x4000_0000_0000_0000) by (nonlinear_arith)
        requires
            -0x8000_0000 <= sa <= 0x7fff_ffff,
            -0x8000_0000 <= sb <= 0x7fff_ffff,
    ;
    let p: i64 = sa * sb;
    let q: i64 = if p >= 0 {
        ((p as u64) / 0x1_0000_0000) as i64
    } else {
        -1 - ((((-1 - p) as u64) / 0x1_0000_0000) as i64)
    };
    wrap_to_32(q)
}

/// `x << n` with the amount taken modulo the register's width.
pub open spec fn shl32(x: u32, n: u32) -> u32 {
    x << (n % 32)
}

/// `x >> n` with the amount taken modulo the register's width.
pub open spec fn shr32(x: u32, n: u32) -> u32 {
    x >> (n % 32)
}

/// The arithmetic right shift of a 32-bit pattern: the sign bit fills in.
pub open spec fn asr32(x: u32, n: u32) -> u32 {
    if x < 0x8000_0000 {
        x >> (n % 32)
    } else {
        !((!x) >> (n % 32))
    }
}

/// `x << n` with the amount taken modulo 64.
pub open spec fn shl64(x: u64, n: u32) -> u64 {
    x << (n % 64)
}

/// `x >> n` with the amount taken modulo 64.
pub open spec fn shr64(x: u64, n: u32) -> u64 {
    x >> (n % 64)
}

/// The arithmetic right shift of a 64-bit pattern.
pub open spec fn asr64(x: u64, n: u32) -> u64 {
    if x < 0x8000_0000_0000_0000 {
        x >> (n % 64)
    } else {
        !((!x) >> (n % 64))
    }
}

/// Shifts left by the lowest five bits of `n`.
pub fn shift_left(x: u32, n: u32) -> (r: u32)
    ensures
        r == shl32(x, n),
{
    x << (n % 32)
}

/// Shifts right by the lowest five bits of `n`; zeros fill in.
pub fn shift_right(x: u32, n: u32) -> (r: u32)
    ensures
        r == shr32(x, n),
{
    x >> (n % 32)
}

/// Shifts right by the lowest five bits of `n`; the sign bit fills in.
pub fn shift_right_signed(x: u32, n: u32) -> (r: u32)
    ensures
        r == asr32(x, n),
{
    if x < 0x8000_0000 {
        x >> (n % 32)
    } else {
        !((!x) >> (n % 32))
    }
}

/// Shifts a 64-bit value left by the lowest six bits of `n`.
pub fn shift_left_wide(x: u64, n: u32) -> (r: u64)
    ensures
        r == shl64(x, n),
{
    x << (n % 64)
}

/// Shifts a 64-bit value right by the lowest six bits of `n`; zeros fill in.
pub fn shift_right_wide(x: u64, n: u32) -> (r: u64)
    ensures
        r == shr64(x, n),
{
    x >> (n % 64)
}

/// Shifts a 64-bit value right by the lowest six bits of `n`; the sign bit fills in.
pub fn shift_right_signed_wide(x: u64, n: u32) -> (r: u64)
    ensures
        r == asr64(x, n),
{
    if x < 0x8000_0000_0000_0000 {
        x >> (n % 64)
    } else {
        !((!x) >> (n % 64))
    }
}

/// The signed shift divides the signed value by a power of two, rounding
/// down.
pub proof fn lemma_asr32_divides(x: u32, n: u32)
    requires
        n < 32,
    ensures
        asr32(x, n) == wrap32(signed32(x) / (pow2(n as nat) as int)),
{
    let d = pow2(n as nat) as int;
    lemma_pow2_pos(n as nat);
    if x < 0x8000_0000 {
        lemma_u32_shr_is_div(x, n);
        lemma_div_pos_is_pos(x as int, d);
        lemma_div_is_ordered_by_denominator(x as int, 1, d);
    } else {
        let y: u32 = !x;
        lemma_complement(x);
        lemma_u32_shr_is_div(y, n);
        lemma_complement(y >> n);
        let q = y as int / d;
        lemma_div_pos_is_pos(y as int, d);
        lemma_div_is_ordered_by_denominator(y as int, 1, d);
        // signed32(x) == -(y + 1), and floor(-(y + 1) / d) == -1 - floor(y / d)
        lemma_fundamental_div_mod(y as int, d);
        lemma_mod_bound(y as int, d);
        let r = y as int % d;
        assert(-(y + 1) == d * (-1 - q) + (d - 1 - r)) by (nonlinear_arith)
            requires
                y == d * q + r,
        ;
        lemma_fundamental_div_mod_converse_div(-(y + 1), d, -1 - q, d - 1 - r);
    }
}

proof fn lemma_complement(x: u32)
    by (bit_vector)
    ensures
        !x == 0xffff_ffffu32 - x,
{
}

proof fn lemma_complement_wide(x: u64)
    by (bit_vector)
    ensures
        !x == 0xffff_ffff_ffff_ffffu64 - x,
{
}

/// The signed shift of a 64-bit value divides the signed value by a power
/// of two, rounding down.
pub proof fn lemma_asr64_divides(x: u64, n: u32)
    requires
        n < 64,
    ensures
        asr64(x, n) == wrap64(signed64(x) / (pow2(n as nat) as int)),
{
    let d = pow2(n as nat) as int;
    lemma_pow2_pos(n as nat);
    if x < 0x8000_0000_0000_0000 {
        lemma_u64_shr_is_div(x, n as u64);
        lemma_div_pos_is_pos(x as int, d);
        lemma_div_is_ordered_by_denominator(x as int, 1, d);
    } else {
        let y: u64 = !x;
        lemma_complement_wide(x);
        lemma_u64_shr_is_div(y, n as u64);
        lemma_complement_wide(y >> n);
        let q = y as int / d;
        lemma_div_pos_is_pos(y as int, d);
        lemma_div_is_ordered_by_denominator(y as int, 1, d);
        lemma_fundamental_div_mod(y as int, d);
        lemma_mod_bound(y as int, d);
        let r = y as int % d;
        assert(-(y + 1) == d * (-1 - q) + (d - 1 - r)) by (nonlinear_arith)
            requires
                y == d * q + r,
        ;
        lemma_fundamental_div_mod_converse_div(-(y + 1), d, -1 - q, d - 1 - r);
    }
}

/// The bit field of a signed register is the signed value divided by
/// `2^offset`, rounding down, modulo `2^width`.
pub proof fn lemma_bit_field_signed(x: u32, offset: u32, width: u32)
    ensures
        bit_field_signed(x, offset, width) == (signed32(x) / (pow2((offset % 32) as nat) as int))
            % (pow2((width % 32) as nat) as int),
{
    let o = offset % 32;
    let w = (width % 32) as nat;
    let q = signed32(x) / (pow2(o as nat) as int);
    let rest = (32 - w) as nat;
    lemma_asr32_divides(x, o);
    assert(asr32(x, offset) == asr32(x, o));
    lemma2_to64();
    lemma_pow2_strictly_increases(w, 32);
    lemma_pow2_pos(w);
    lemma_pow2_pos(rest);
    lemma_pow2_adds(w, rest);
    lemma_u32_low_bits_mask_is_mod(asr32(x, o), w);
    lemma_mod_mod(q, pow2(w) as int, pow2(rest) as int);
}

/// The number of binary digits of `x`; zero has none.
pub open spec fn bit_length(x: nat) -> nat
    decreases x,
{
    if x == 0 {
        0
    } else {
        1 + bit_length(x / 2)
    }
}

/// A number has at most `k` digits exactly when it is below `2^k`.
pub proof fn lemma_bit_length(x: nat, k: nat)
    ensures
        bit_length(x) <= k <==> x < pow2(k),
    decreases k,
{
    lemma2_to64();
    lemma_pow2_pos(k);
    if k == 0 {
        assert(x != 0 ==> bit_length(x) == 1 + bit_length(x / 2));
    } else {
        lemma_pow2_unfold(k);
        if x != 0 {
            lemma_bit_length(x / 2, (k - 1) as nat);
            assert(bit_length(x) == 1 + bit_length(x / 2));
        }
    }
}

/// The result of count-leading-zeros: the position, counted from the most
/// significant bit, of the first bit that is set; all ones when none is.
pub open spec fn clz_of(x: u32) -> u32 {
    if x == 0 {
        0xffff_ffff
    } else {
        (32 - bit_length(x as nat)) as u32
    }
}

/// The result of count-leading-sign: the position, counted from the most
/// significant bit, of the first bit that differs from the sign bit; all
/// ones when none does.
pub open spec fn cls_of(x: u32) -> u32 {
    if x >= 0x8000_0000 {
        clz_of((0xffff_ffff - x) as u32)
    } else {
        clz_of(x)
    }
}

/// For a nonzero register count-leading-zeros says where its magnitude lies.
pub proof fn lemma_clz_magnitude(x: u32)
    requires
        x != 0,
    ensures
        clz_of(x) < 32,
        pow2((31 - clz_of(x)) as nat) <= x < pow2((32 - clz_of(x)) as nat),
{
    lemma2_to64();
    lemma_bit_length(x as nat, 32);
    lemma_bit_length(x as nat, 0);
    let n = bit_length(x as nat);
    lemma_bit_length(x as nat, n);
    lemma_bit_length(x as nat, (n - 1) as nat);
}

/// Counts the zero bits above the highest bit that is set: looks at the
/// bits from the top down and returns the position of the first one.
pub fn clz_i32_u32(x: u32) -> (r: u32)
    ensures
        r == clz_of(x),
{
    let mut i: u32 = 0;
    proof {
        lemma2_to64();
    }
    while i < 32
        invariant
            i <= 32,
            x < pow2((32 - i) as nat),
        decreases 32 - i,
    {
        let top: u32 = x >> (31 - i);
        proof {
            let d = pow2((31 - i) as nat);
            lemma_u32_shr_is_div(x, (31 - i) as u32);
            lemma_pow2_pos((31 - i) as nat);
            lemma_pow2_unfold((32 - i) as nat);
            lemma_bit_length(x as nat, (32 - i) as nat);
            lemma_bit_length(x as nat, (31 - i) as nat);
            lemma_fundamental_div_mod(x as int, d as int);
            lemma_mod_bound(x as int, d as int);
            let q = (x as int) / (d as int);
            let m = (x as int) % (d as int);
            assert(top == 1 <==> x >= d) by (nonlinear_arith)
                requires
                    x == d * q + m,
                    0 <= m < d,
                    top == q,
                    x < 2 * d,
                    d > 0,
            ;
        }
        if top == 1 {
            return i;
        }
        i = i + 1;
    }
    0xffff_ffff
}

/// Counts the bits from the top that equal the sign bit.
pub fn cls_i32(x: u32) -> (r: u32)
    ensures
        r == cls_of(x),
{
    if x >= 0x8000_0000 {
        clz_i32_u32(0xffff_ffff - x)
    } else {
        clz_i32_u32(x)
    }
}

/// The lowest `n` digits of `x` in reverse order, as a number.
pub open spec fn reversed(x: nat, n: nat) -> nat
    decreases n,
{
    if n == 0 {
        0
    } else {
        (x % 2) * pow2((n - 1) as nat) + reversed(x / 2, (n - 1) as nat)
    }
}

/// Reverses the order of the 32 bits of a register.
pub fn reverse_bits(x: u32) -> (r: u32)
    ensures
        r == reversed(x as nat, 32),
{
    let mut acc: u32 = 0;
    let mut rest: u32 = x;
    let mut i: u32 = 0;
    proof {
        lemma2_to64();
    }
    while i < 32
        invariant
            i <= 32,
            acc < pow2(i as nat),
            reversed(x as nat, 32) == acc * pow2((32 - i) as nat) + reversed(
                rest as nat,
                (32 - i) as nat,
            ),
        decreases 32 - i,
    {
        proof {
            let k = (32 - i) as nat;
            let p = pow2((k - 1) as nat);
            lemma_pow2_unfold(k);
            lemma_pow2_unfold((i + 1) as nat);
            lemma2_to64();
            if i + 1 < 32 {
                lemma_pow2_strictly_increases((i + 1) as nat, 32);
            }
            assert(acc * (2 * p) + (rest % 2) * p == (acc * 2 + rest % 2) * p)
                by (nonlinear_arith);
        }
        acc = acc * 2 + rest % 2;
        rest = rest / 2;
        i = i + 1;
    }
    proof {
        lemma2_to64();
        assert(reversed(rest as nat, 0) == 0);
        assert(acc * pow2(0) == acc) by (nonlinear_arith)
            requires
                pow2(0) == 1,
        ;
    }
    acc
}

/// The mask of the lowest `n` bits of a 32-bit register.
pub open spec fn mask32(n: u32) -> u32 {
    (pow2((n % 32) as nat) - 1) as u32
}

/// The mask of the lowest `n` bits of a 64-bit register.
pub open spec fn mask64(n: u32) -> u64 {
    (pow2((n % 64) as nat) - 1) as u64
}

/// The mask of the lowest `n % 32` bits.
pub fn low_mask(n: u32) -> (r: u32)
    ensures
        r == mask32(n),
        r == low_bits_mask((n % 32) as nat),
{
    proof {
        lemma2_to64();
        lemma_pow2_strictly_increases((n % 32) as nat, 32);
        lemma_u32_shl_is_mul(1, n % 32);
    }
    (1u32 << (n % 32)) - 1
}

/// The mask of the lowest `n % 64` bits.
pub fn low_mask_wide(n: u32) -> (r: u64)
    ensures
        r == mask64(n),
        r == low_bits_mask((n % 64) as nat),
{
    proof {
        lemma2_to64();
        lemma2_to64_rest();
        lemma_pow2_strictly_increases((n % 64) as nat, 64);
        lemma_u64_shl_is_mul(1, (n % 64) as u64);
    }
    (1u64 << (n % 64)) - 1
}

/// The unsigned bit field of `x` that starts at bit `offset % 32` and is
/// `width % 32` bits wide.
pub open spec fn bit_field(x: u32, offset: u32, width: u32) -> u32 {
    ((x as nat / pow2((offset % 32) as nat)) % pow2((width % 32) as nat)) as u32
}

/// Extracts an unsigned bit field.
pub fn extract_field(x: u32, offset: u32, width: u32) -> (r: u32)
    ensures
        r == bit_field(x, offset, width),
{
    let m = low_mask(width);
    proof {
        lemma_u32_shr_is_div(x, offset % 32);
        lemma_u32_low_bits_mask_is_mod(x >> (offset % 32), (width % 32) as nat);
        lemma2_to64();
        lemma_pow2_strictly_increases((width % 32) as nat, 32);
    }
    (x >> (offset % 32)) & m
}

/// The bit field of a signed register: the sign fills in from the top and
/// the field is not extended again.
pub open spec fn bit_field_signed(x: u32, offset: u32, width: u32) -> u32 {
    asr32(x, offset) & mask32(width)
}

/// Extracts a bit field from a signed register.
pub fn extract_field_signed(x: u32, offset: u32, width: u32) -> (r: u32)
    ensures
        r == bit_field_signed(x, offset, width),
{
    shift_right_signed(x, offset) & low_mask(width)
}

/// The unsigned 64-bit bit field of `x` that starts at bit `offset % 64` and
/// is `width % 64` bits wide.
pub open spec fn bit_field_wide(x: u64, offset: u32, width: u32) -> u64 {
    ((x as nat / pow2((offset % 64) as nat)) % pow2((width % 64) as nat)) as u64
}

/// Extracts an unsigned bit field from a 64-bit value.
pub fn extract_field_wide(x: u64, offset: u32, width: u32) -> (r: u64)
    ensures
        r == bit_field_wide(x, offset, width),
{
    let m = low_mask_wide(width);
    proof {
        lemma_u64_shr_is_div(x, (offset % 64) as u64);
        lemma_u64_low_bits_mask_is_mod(x >> (offset % 64), (width % 64) as nat);
        lemma2_to64();
        lemma2_to64_rest();
        lemma_pow2_strictly_increases((width % 64) as nat, 64);
    }
    (x >> (offset % 64)) & m
}

/// A `width % 64`-bit field taken from a signed 64-bit value and extended to
/// 64 bits by its own top bit; a field of no bits is zero.
pub open spec fn bit_field_signed_wide(x: u64, offset: u32, width: u32) -> u64 {
    let raw = asr64(x, offset) & mask64(width);
    let w = width % 64;
    if w == 0 {
        0
    } else if (raw >> ((w - 1) as u32)) & 1 != 0 {
        raw | (!0u64 << w)
    } else {
        raw
    }
}

/// Extracts a bit field from a signed 64-bit value and extends it by its sign.
pub fn extract_field_signed_wide(x: u64, offset: u32, width: u32) -> (r: u64)
    ensures
        r == bit_field_signed_wide(x, offset, width),
{
    let raw: u64 = shift_right_signed_wide(x, offset) & low_mask_wide(width);
    let w: u32 = width % 64;
    if w == 0 {
        0
    } else if (raw >> (w - 1)) & 1 != 0 {
        raw | (!0u64 << w)
    } else {
        raw
    }
}

/// The larger of two signed registers.
pub open spec fn max_signed(a: u32, b: u32) -> u32 {
    if signed32(a) >= signed32(b) {
        a
    } else {
        b
    }
}

/// The larger of two signed registers.
pub fn signed_max(a: u32, b: u32) -> (r: u32)
    ensures
        r == max_signed(a, b),
{
    if as_signed32(a) >= as_signed32(b) {
        a
    } else {
        b
    }
}

/// The middle one of three signed registers.
pub open spec fn median_signed(a: u32, b: u32, c: u32) -> u32 {
    let top = max_signed(max_signed(a, b), c);
    if top == a {
        max_signed(b, c)
    } else if top == b {
        max_signed(a, c)
    } else {
        max_signed(a, b)
    }
}

/// The middle one of three signed registers, found by elimination: whichever
/// is the largest is set aside and the larger of the other two is taken.
pub fn signed_median(a: u32, b: u32, c: u32) -> (r: u32)
    ensures
        r == median_signed(a, b, c),
{
    let top = signed_max(signed_max(a, b), c);
    if top == a {
        signed_max(b, c)
    } else if top == b {
        signed_max(a, c)
    } else {
        signed_max(a, b)
    }
}

/// The median lies between the smallest and the largest of the three, and
/// is one of them.
pub proof fn lemma_median_is_middle(a: u32, b: u32, c: u32)
    ensures
        ({
            let m = signed32(median_signed(a, b, c));
            let x = signed32(a);
            let y = signed32(b);
            let z = signed32(c);
            &&& (m == x || m == y || m == z)
            &&& ((x <= m || y <= m) && (x <= m || z <= m) && (y <= m || z <= m))
            &&& ((x >= m || y >= m) && (x >= m || z >= m) && (y >= m || z >= m))
        }),
{
}

} // verus!
