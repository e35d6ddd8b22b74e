//! Tick rates.
//!
//! A tick rate is a number of simulation steps per second. It crosses the
//! library's boundary as the bit pattern of an IEEE 754 binary64 number, so
//! that every rate a caller can write as a double is carried without loss.
//! The library never computes in floating point: it reads the sign, the
//! exponent field and the fraction field out of the pattern and derives the
//! length of one step by integer arithmetic.
//!
//! The step is what floating-point arithmetic makes of `1 / rate` seconds:
//! the double nearest to the reciprocal, and then the whole number of
//! nanoseconds nearest to that double, a tie going to the even neighbour
//! both times.

use vstd::prelude::*;
use vstd::arithmetic::div_mod::{lemma_basic_div, lemma_div_by_multiple, lemma_div_is_ordered, lemma_div_is_ordered_by_denominator, lemma_fundamental_div_mod};
use vstd::arithmetic::power2::{lemma2_to64, lemma2_to64_rest, lemma_pow2_adds, lemma_pow2_pos, lemma_pow2_strictly_increases, lemma_pow2_unfold, pow2};

verus! {

/// Nanoseconds in one second.
pub const NANOS_PER_SECOND: u64 = 1_000_000_000;

/// The rate of a fresh engine: 60 steps per second.
pub const DEFAULT_TICK_RATE: u64 = 0x404E_0000_0000_0000;

/// Two to the 52nd power: the weight of the exponent field's lowest bit, and
/// the hidden leading bit of a normal number's significand.
pub const HIDDEN_BIT: u64 = 0x10_0000_0000_0000;

/// Whether the sign bit of the pattern is set.
pub open spec fn sign_is_set(bits: u64) -> bool {
    bits >= 0x8000_0000_0000_0000
}

/// The eleven-bit exponent field of the pattern.
pub open spec fn exponent_field(bits: u64) -> nat {
    ((bits as nat) / (HIDDEN_BIT as nat)) % 0x800
}

/// The 52-bit fraction field of the pattern.
pub open spec fn fraction_field(bits: u64) -> nat {
    (bits as nat) % (HIDDEN_BIT as nat)
}

/// A rate is valid when it is positive and finite: the sign bit is clear,
/// the exponent field is not all ones (which would make it an infinity or a
/// NaN), and the number is not zero.
pub open spec fn rate_is_valid(bits: u64) -> bool {
    &&& !sign_is_set(bits)
    &&& exponent_field(bits) != 0x7FF
    &&& bits != 0
}

/// The integer significand `m` of a rate, whose value is `m * 2^e` with
/// `e` given by [`exponent`]. A subnormal number has no hidden bit.
pub open spec fn significand(bits: u64) -> nat {
    if exponent_field(bits) == 0 {
        fraction_field(bits)
    } else {
        (HIDDEN_BIT as nat) + fraction_field(bits)
    }
}

/// The power of two by which the significand is scaled.
pub open spec fn exponent(bits: u64) -> int {
    if exponent_field(bits) == 0 {
        -1074
    } else {
        exponent_field(bits) - 1075
    }
}

/// Two to the 105th power. A significand of 53 bits divides it into a
/// quotient of 53 bits.
pub const RECIPROCAL_SCALE: u128 = 0x200_0000_0000_0000_0000_0000_0000;

/// The whole number nearest to `n / d`; where two are as near, the even
/// one.
pub open spec fn nearest(n: nat, d: nat) -> nat {
    let quotient = n / d;
    let rest = n % d;
    if 2 * rest < d || (2 * rest == d && quotient % 2 == 0) {
        quotient
    } else {
        quotient + 1
    }
}

/// The significand of the double nearest to the reciprocal of a rate
/// `m * 2^e`: the whole number nearest to `2^105 / m`. The reciprocal as a
/// double is this significand times two to the power
/// [`reciprocal_exponent`].
///
/// This is the double of floating-point division wherever that is a normal
/// number. It is none for a subnormal rate and for a rate above 2^1022;
/// there the period is beyond what a step can be, on the same side, whatever
/// the division gives.
pub open spec fn reciprocal_significand(bits: u64) -> nat {
    nearest(pow2(105), significand(bits))
}

/// The power of two by which the reciprocal's significand is scaled.
pub open spec fn reciprocal_exponent(bits: u64) -> int {
    -exponent(bits) - 105
}

/// The nanoseconds in one period of a valid rate: the whole number nearest
/// to 10^9 times the reciprocal as a double.
pub open spec fn period_nanos(bits: u64) -> nat {
    let q = reciprocal_significand(bits);
    let x = reciprocal_exponent(bits);
    if x >= 0 {
        q * pow2(x as nat) * (NANOS_PER_SECOND as nat)
    } else {
        nearest(q * (NANOS_PER_SECOND as nat), pow2((-x) as nat))
    }
}

/// The fixed step of a valid rate, in nanoseconds: its period, kept within
/// what the clock can tell apart and a `u64` can hold. A rate whose period
/// rounds to nothing steps once per nanosecond; a rate whose period exceeds
/// `u64::MAX` nanoseconds has that step.
pub open spec fn step_of(bits: u64) -> nat {
    let period = period_nanos(bits);
    if period < 1 {
        1
    } else if period > u64::MAX {
        u64::MAX as nat
    } else {
        period
    }
}

/// Tells whether `bits` is a positive, finite rate.
pub fn is_valid_rate(bits: u64) -> (valid: bool)
    ensures
        valid == rate_is_valid(bits),
{
    0 < bits && bits < 0x7FF0_0000_0000_0000
}

/// Computes `2^k` for an exponent that leaves room for a factor of 10^9.
fn power_of_two(k: u64) -> (p: u128)
    requires
        k <= 87,
    ensures
        p == pow2(k as nat),
        p <= 0x80_0000_0000_0000_0000_0000,
{
    let mut p: u128 = 1;
    let mut i: u64 = 0;
    proof {
        lemma2_to64();
        lemma_pow2_adds(64, 23);
    }
    while i < k
        invariant
            i <= k <= 87,
            p == pow2(i as nat),
            pow2(87) == 0x80_0000_0000_0000_0000_0000,
        decreases k - i,
    {
        proof {
            lemma_pow2_unfold((i + 1) as nat);
            if i + 1 < 87 {
                lemma_pow2_strictly_increases((i + 1) as nat, 87);
            }
        }
        p = p * 2;
        i = i + 1;
    }
    proof {
        if k < 87 {
            lemma_pow2_strictly_increases(k as nat, 87);
        }
    }
    p
}

/// Computes the whole number nearest to `n / d`, a tie going to the even
/// one.
pub fn nearest_quotient(n: u128, d: u128) -> (q: u128)
    requires
        d > 0,
    ensures
        q == nearest(n as nat, d as nat),
{
    let quotient = n / d;
    let rest = n % d;
    if rest < d - rest || (rest == d - rest && quotient % 2 == 0) {
        quotient
    } else {
        assert(d >= 2);
        assert(quotient <= n / 2) by {
            lemma_div_is_ordered_by_denominator(n as int, 2, d as int);
        }
        quotient + 1
    }
}

/// The reciprocal's significand is at least 2^52, and for a normal rate at
/// most 2^53: it has the 53 bits of a double's significand.
pub proof fn lemma_reciprocal_significand_bounds(bits: u64)
    requires
        rate_is_valid(bits),
    ensures
        pow2(105) == RECIPROCAL_SCALE,
        0 < significand(bits) < 0x20_0000_0000_0000,
        reciprocal_significand(bits) >= 0x10_0000_0000_0000,
        exponent_field(bits) != 0 ==> reciprocal_significand(bits) <= 0x20_0000_0000_0000,
{
    let m = significand(bits) as int;
    let top = pow2(105) as int;
    lemma2_to64();
    lemma2_to64_rest();
    lemma_pow2_adds(64, 41);
    assert(top == 0x10_0000_0000_0000 * 0x20_0000_0000_0000);
    assert(top >= 0x10_0000_0000_0000 * m) by (nonlinear_arith)
        requires
            top == 0x10_0000_0000_0000 * 0x20_0000_0000_0000,
            0 < m < 0x20_0000_0000_0000,
    ;
    lemma_div_is_ordered(0x10_0000_0000_0000 * m, top, m);
    lemma_div_by_multiple(0x10_0000_0000_0000, m);
    if exponent_field(bits) != 0 {
        lemma_div_is_ordered_by_denominator(top, 0x10_0000_0000_0000, m);
        lemma_div_by_multiple(0x20_0000_0000_0000, 0x10_0000_0000_0000);
        lemma_fundamental_div_mod(top, m);
        if top / m == 0x20_0000_0000_0000 {
            assert(top % m == 0) by (nonlinear_arith)
                requires
                    top == m * (top / m) + top % m,
                    top / m == 0x20_0000_0000_0000,
                    top == 0x10_0000_0000_0000 * 0x20_0000_0000_0000,
                    m >= 0x10_0000_0000_0000,
                    0 <= top % m,
            ;
        }
    }
}

/// A rate of 2^32 steps per second or more has a period that rounds to
/// nothing.
proof fn lemma_fast_rate_has_no_period(bits: u64)
    requires
        rate_is_valid(bits),
        exponent(bits) >= -20,
    ensures
        period_nanos(bits) == 0,
{
    lemma_reciprocal_significand_bounds(bits);
    let k = (-reciprocal_exponent(bits)) as nat;
    let n = (reciprocal_significand(bits) * (NANOS_PER_SECOND as nat)) as int;
    let d = pow2(k) as int;
    lemma2_to64();
    lemma_pow2_adds(64, 21);
    if k > 85 {
        lemma_pow2_strictly_increases(85, k);
    }
    assert(2 * n < 0x20_0000_0000_0000_0000_0000) by (nonlinear_arith)
        requires
            n == reciprocal_significand(bits) * 1_000_000_000,
            reciprocal_significand(bits) <= 0x20_0000_0000_0000,
    ;
    lemma_basic_div(n, d);
    lemma_fundamental_div_mod(n, d);
}

/// A rate under 2^-35 steps per second has a period that no `u64` holds.
proof fn lemma_slow_rate_has_long_period(bits: u64)
    requires
        rate_is_valid(bits),
        exponent(bits) <= -88,
    ensures
        period_nanos(bits) > u64::MAX,
{
    lemma_reciprocal_significand_bounds(bits);
    let q = reciprocal_significand(bits) as int;
    let x = reciprocal_exponent(bits);
    lemma2_to64();
    if x >= 0 {
        let p = pow2(x as nat) as int;
        lemma_pow2_pos(x as nat);
        assert(q * p * 1_000_000_000 > u64::MAX) by (nonlinear_arith)
            requires
                q >= 0x10_0000_0000_0000,
                p >= 1,
        ;
    } else {
        let k = (-x) as nat;
        let d = pow2(k) as int;
        let n = q * 1_000_000_000;
        let least: int = 0x8_0000_0000int * 1_000_000_000int;
        if k < 17 {
            lemma_pow2_strictly_increases(k, 17);
        }
        lemma_pow2_pos(k);
        assert(n >= least * d) by (nonlinear_arith)
            requires
                n == q * 1_000_000_000,
                q >= 0x10_0000_0000_0000,
                0 < d <= 0x2_0000,
                least == 0x8_0000_0000 * 1_000_000_000,
        ;
        lemma_div_is_ordered(least * d, n, d);
        lemma_div_by_multiple(least, d);
    }
}

/// Computes the fixed step of a valid rate.
pub fn step_for(bits: u64) -> (step: u64)
    requires
        rate_is_valid(bits),
    ensures
        step == step_of(bits),
        step >= 1,
{
    let field: u64 = bits / HIDDEN_BIT;
    let fraction: u64 = bits % HIDDEN_BIT;
    if field >= 1055 {
        proof {
            lemma_fast_rate_has_no_period(bits);
        }
        return 1;
    }
    if field <= 987 {
        proof {
            lemma_slow_rate_has_long_period(bits);
        }
        return u64::MAX;
    }
    proof {
        lemma_reciprocal_significand_bounds(bits);
    }
    let m: u128 = (HIDDEN_BIT + fraction) as u128;
    let q: u128 = nearest_quotient(RECIPROCAL_SCALE, m);
    let scale: u128 = power_of_two(field - 970);
    proof {
        lemma_pow2_pos((field - 970) as nat);
    }
    assert(q * (NANOS_PER_SECOND as u128) <= 0x20_0000_0000_0000 * 1_000_000_000) by (nonlinear_arith)
        requires
            q <= 0x20_0000_0000_0000,
    ;
    let period: u128 = nearest_quotient(q * (NANOS_PER_SECOND as u128), scale);
    if period == 0 {
        1
    } else if period > u64::MAX as u128 {
        u64::MAX
    } else {
        period as u64
    }
}

} // verus!
