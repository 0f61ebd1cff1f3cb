//! Arithmetic on the 32-bit register, with one fixed policy for results that do not fit:
//! they wrap around modulo 2^32. Every replica therefore computes the same value,
//! whatever the platform and the build mode.

use vstd::arithmetic::div_mod::{
    lemma_div_is_ordered_by_denominator, lemma_div_pos_is_pos, lemma_fundamental_div_mod,
    lemma_mod_bound, lemma_mul_mod_noop_general,
};
use vstd::arithmetic::power::{
    lemma_pow0, lemma_pow1, lemma_pow_adds, lemma_pow_mod_noop, lemma_pow_multiplies,
    lemma_square_is_pow2, pow,
};
use vstd::prelude::*;

verus! {

/// The number of values of a 32-bit register.
pub open spec fn modulus() -> int {
    0x1_0000_0000
}

/// The value between `i32::MIN` and `i32::MAX` that differs from `x` by a multiple of
/// 2^32: what a 32-bit two's complement register keeps of `x`.
pub open spec fn wrap(x: int) -> int {
    let r: int = x % modulus();
    if r > i32::MAX {
        r - modulus()
    } else {
        r
    }
}

/// The absolute value of `x`.
pub open spec fn magnitude(x: int) -> int {
    if x < 0 {
        -x
    } else {
        x
    }
}

/// The quotient of `a` by `b != 0`, rounded towards zero.
pub open spec fn trunc_div(a: int, b: int) -> int
    recommends
        b != 0,
{
    if a >= 0 && b > 0 {
        a / b
    } else if a < 0 && b < 0 {
        (-a) / (-b)
    } else if a < 0 {
        -((-a) / b)
    } else {
        -(a / (-b))
    }
}

/// What is left of `a` after taking out `b != 0` as often as `trunc_div` says: zero, or
/// of the sign of `a`.
pub open spec fn trunc_rem(a: int, b: int) -> int
    recommends
        b != 0,
{
    a - b * trunc_div(a, b)
}

/// `wrap` lands in the range of an `i32`, keeps what is in that range already, and
/// changes its argument by a multiple of 2^32 only.
pub proof fn lemma_wrap(x: int)
    ensures
        i32::MIN <= wrap(x) <= i32::MAX,
        wrap(x) % modulus() == x % modulus(),
        i32::MIN <= x <= i32::MAX ==> wrap(x) == x,
{
}

/// Numbers that differ by a multiple of 2^32 wrap to the same value, and only those.
pub proof fn lemma_wrap_congruent(x: int, y: int)
    ensures
        wrap(x) == wrap(y) <==> x % modulus() == y % modulus(),
{
}

/// The truncated remainder is the remainder of the absolute values, with the sign of
/// `a`.
pub proof fn lemma_trunc_rem_signed(a: int, b: int)
    requires
        b != 0,
    ensures
        a >= 0 ==> trunc_rem(a, b) == magnitude(a) % magnitude(b),
        a < 0 ==> trunc_rem(a, b) == -(magnitude(a) % magnitude(b)),
{
    lemma_fundamental_div_mod(magnitude(a), magnitude(b));
    let q: int = magnitude(a) / magnitude(b);
    assert(b * (-q) == -(b * q)) by (nonlinear_arith);
    assert((-b) * q == -(b * q)) by (nonlinear_arith);
}

/// The truncated quotient and remainder split `a` along `b`, and the remainder is
/// smaller than `b` in absolute value and never of the sign opposite to `a`.
pub proof fn lemma_trunc_div_rem(a: int, b: int)
    requires
        b != 0,
    ensures
        a == b * trunc_div(a, b) + trunc_rem(a, b),
        a >= 0 ==> 0 <= trunc_rem(a, b),
        a <= 0 ==> trunc_rem(a, b) <= 0,
        magnitude(trunc_rem(a, b)) < magnitude(b),
{
    lemma_trunc_rem_signed(a, b);
    lemma_mod_bound(magnitude(a), magnitude(b));
}

/// A truncated quotient is no larger in absolute value than the dividend, and at most
/// half as large unless the divisor is 1 or -1, which give the dividend and its
/// opposite.
pub proof fn lemma_trunc_div_bound(a: int, b: int)
    requires
        b != 0,
    ensures
        magnitude(trunc_div(a, b)) <= magnitude(a),
        magnitude(b) >= 2 ==> 2 * magnitude(trunc_div(a, b)) <= magnitude(a),
        b == 1 ==> trunc_div(a, b) == a,
        b == -1 ==> trunc_div(a, b) == -a,
{
    lemma_div_pos_is_pos(magnitude(a), magnitude(b));
    lemma_div_is_ordered_by_denominator(magnitude(a), 1, magnitude(b));
    if magnitude(b) >= 2 {
        lemma_div_is_ordered_by_denominator(magnitude(a), 2, magnitude(b));
    }
}

/// One round of square-and-multiply keeps the product `acc * base^exp` modulo 2^32.
proof fn lemma_square_and_multiply(acc: int, base: int, exp: nat, acc_next: int, base_next: int)
    requires
        exp > 0,
        base_next % modulus() == (base * base) % modulus(),
        acc_next % modulus() == (if exp % 2 == 1 { acc * base } else { acc }) % modulus(),
    ensures
        (acc_next * pow(base_next, exp / 2)) % modulus() == (acc * pow(base, exp)) % modulus(),
{
    let half: nat = exp / 2;
    let factor: int = if exp % 2 == 1 { acc * base } else { acc };
    // base_next^half and (base*base)^half agree modulo 2^32.
    lemma_pow_mod_noop(base_next, half, modulus());
    lemma_pow_mod_noop(base * base, half, modulus());
    // So do the two products.
    lemma_mul_mod_noop_general(acc_next, pow(base_next, half), modulus());
    lemma_mul_mod_noop_general(factor, pow(base * base, half), modulus());
    // (base*base)^half is base^(2*half).
    lemma_square_is_pow2(base);
    lemma_pow_multiplies(base, 2, half);
    assert(pow(base * base, half) == pow(base, 2 * half));
    if exp % 2 == 1 {
        assert(exp == 1 + 2 * half);
        lemma_pow_adds(base, 1, 2 * half);
        lemma_pow1(base);
        assert(pow(base, exp) == base * pow(base, 2 * half));
        assert(factor * pow(base * base, half) == acc * pow(base, exp)) by (nonlinear_arith)
            requires
                factor == acc * base,
                pow(base, exp) == base * pow(base, 2 * half),
                pow(base * base, half) == pow(base, 2 * half),
        ;
    } else {
        assert(exp == 2 * half);
    }
}

/// `a + b`, wrapped.
pub fn wrapping_add(a: i32, b: i32) -> (r: i32)
    ensures
        r == wrap(a + b),
{
    a.wrapping_add(b)
}

/// `a - b`, wrapped.
pub fn wrapping_sub(a: i32, b: i32) -> (r: i32)
    ensures
        r == wrap(a - b),
{
    a.wrapping_sub(b)
}

/// `a * b`, wrapped.
pub fn wrapping_mul(a: i32, b: i32) -> (r: i32)
    ensures
        r == wrap(a * b),
{
    a.wrapping_mul(b)
}

/// The quotient of `a` by `b`, rounded towards zero and wrapped. Only `i32::MIN / -1`
/// needs to wrap, and gives `i32::MIN`.
pub fn wrapping_div(a: i32, b: i32) -> (r: i32)
    requires
        b != 0,
    ensures
        r == wrap(trunc_div(a as int, b as int)),
{
    match a.checked_div(b) {
        Some(q) => q,
        None => i32::MIN,
    }
}

/// The remainder of `a` by `b` that goes with the quotient rounded towards zero. It
/// always fits; `i32::MIN % -1` is zero.
pub fn wrapping_rem(a: i32, b: i32) -> (r: i32)
    requires
        b != 0,
    ensures
        r == trunc_rem(a as int, b as int),
        r == wrap(trunc_rem(a as int, b as int)),
{
    proof {
        lemma_trunc_rem_signed(a as int, b as int);
        lemma_mod_bound(magnitude(a as int), magnitude(b as int));
    }
    match a.checked_rem(b) {
        Some(m) => m,
        None => 0,
    }
}

/// `base` to the power `exp`, wrapped, in a number of multiplications that grows with
/// the length of `exp` and not with its value.
pub fn wrapping_pow(base: i32, exp: u32) -> (r: i32)
    ensures
        r == wrap(pow(base as int, exp as nat)),
{
    let mut acc: i32 = 1;
    let mut square: i32 = base;
    let mut left: u32 = exp;
    proof {
        assert(1 * pow(base as int, exp as nat) == pow(base as int, exp as nat));
    }
    while left > 0
        invariant
            (acc * pow(square as int, left as nat)) % modulus() == pow(base as int, exp as nat)
                % modulus(),
        decreases left,
    {
        let ghost acc_before: int = acc as int;
        let ghost square_before: int = square as int;
        let ghost left_before: nat = left as nat;
        if left % 2 == 1 {
            acc = wrapping_mul(acc, square);
        }
        square = wrapping_mul(square, square);
        left = left / 2;
        proof {
            lemma_wrap(acc_before * square_before);
            lemma_wrap(square_before * square_before);
            lemma_square_and_multiply(
                acc_before,
                square_before,
                left_before,
                acc as int,
                square as int,
            );
        }
    }
    proof {
        lemma_pow0(square as int);
        lemma_wrap(acc as int);
        lemma_wrap_congruent(acc as int, pow(base as int, exp as nat));
    }
    acc
}

} // verus!
