//! Exact model of how a millisecond count is shown in seconds with a fixed
//! number of decimals, the way `format!("{:.k}", ms as f64 / 1000.0)` shows it.
//!
//! The value is first converted to the nearest IEEE-754 binary64 number, then
//! divided by 1000 with the quotient rounded to the nearest binary64 number
//! (ties to even), and that binary number is finally rounded to `k` decimals
//! (ties to even). Everything below is integer arithmetic: a binary64 number
//! is carried as a triple `(m, num, den)` standing for `m * num / den`, where
//! `m` is the 53-bit significand and `num`, `den` are powers of two.

use vstd::prelude::*;
use crate::text::{digit_char, nat_to_decimal};

verus! {

/// 2^52: the smallest 53-bit significand.
pub open spec fn sig_lo() -> nat {
    4503599627370496
}

/// 2^53: one more than the largest 53-bit significand.
pub open spec fn sig_hi() -> nat {
    9007199254740992
}

/// `num / den` rounded to the nearest integer, ties to the even neighbour.
pub open spec fn round_half_even(num: nat, den: nat) -> nat
    recommends
        den > 0,
{
    let q = num / den;
    let r = num % den;
    if 2 * r < den {
        q
    } else if 2 * r > den {
        q + 1
    } else if q % 2 == 0 {
        q
    } else {
        q + 1
    }
}

/// The binary64 number nearest to `a / b` (ties to even), as `(m, num, den)`
/// with value `m * num / den`: the quotient is scaled by powers of two until
/// it lies in [2^52, 2^53), then rounded to an integer significand.
pub open spec fn nearest_binary64(a: nat, b: nat) -> (nat, nat, nat)
    decreases
        (if a < b * sig_lo() {
            (b * sig_lo() - a) as nat
        } else {
            0nat
        }),
        (if a >= b * sig_hi() {
            (a + 1 - b * sig_hi()) as nat
        } else {
            0nat
        }),
{
    if a == 0 || b == 0 {
        (0, 1, 1)
    } else if a < b * sig_lo() {
        let r = nearest_binary64(2 * a, b);
        (r.0, r.1, 2 * r.2)
    } else if a >= b * sig_hi() {
        let r = nearest_binary64(a, 2 * b);
        (r.0, 2 * r.1, r.2)
    } else {
        (round_half_even(a, b), 1, 1)
    }
}

/// The integer that `n as f64` holds: integers below 2^53 are exact, larger
/// ones are rounded to a 53-bit significand.
pub open spec fn integer_as_binary64(n: nat) -> nat {
    if n < sig_hi() {
        n
    } else {
        let r = nearest_binary64(n, 1);
        r.0 * r.1
    }
}

/// 10^k.
pub open spec fn pow10(k: nat) -> nat
    decreases k,
{
    if k == 0 {
        1
    } else {
        10 * pow10((k - 1) as nat)
    }
}

/// The last `k` decimal digits of `n`, zero-padded on the left.
pub open spec fn padded_digits(n: nat, k: nat) -> Seq<char>
    decreases k,
{
    if k == 0 {
        Seq::empty()
    } else {
        padded_digits(n / 10, (k - 1) as nat).push(digit_char((n % 10) as int))
    }
}

/// `r / 10^k` written with exactly `k` decimals.
pub open spec fn fixed_text(r: nat, k: nat) -> Seq<char> {
    nat_to_decimal(r / pow10(k)) + seq!['.'] + padded_digits(r % pow10(k), k)
}

/// `ms / 1000` in seconds with `k` decimals, as std shows
/// `(ms as f64) / 1000.0` with precision `k`.
pub open spec fn seconds_text(ms: nat, k: nat) -> Seq<char> {
    let q = nearest_binary64(integer_as_binary64(ms), 1000);
    fixed_text(round_half_even(q.0 * q.1 * pow10(k), q.2), k)
}

/// `round_half_even` on machine integers.
fn round_half_even_u128(num: u128, den: u128) -> (r: u128)
    requires
        den > 0,
        num / den < u128::MAX,
    ensures
        r == round_half_even(num as nat, den as nat),
        num / den <= r <= num / den + 1,
{
    let q = num / den;
    let rem = num % den;
    if rem < den - rem {
        q
    } else if rem > den - rem {
        q + 1
    } else if q % 2 == 0 {
        q
    } else {
        q + 1
    }
}

/// The binary64 number nearest to `a0 / b0`, for a positive `a0` and a
/// divisor `b0` of at most 1024.
fn nearest_binary64_u128(a0: u128, b0: u128) -> (r: (u128, u128, u128))
    requires
        1 <= a0 <= 0x2_0000_0000_0000_0000u128,
        1 <= b0 <= 1024,
    ensures
        (r.0 as nat, r.1 as nat, r.2 as nat) == nearest_binary64(a0 as nat, b0 as nat),
        sig_lo() <= r.0 <= sig_hi(),
        1 <= r.1 <= 0x2000,
        1 <= r.2 <= 0x8000_0000_0000_0000u128,
        a0 >= b0 * sig_lo() ==> r.2 == 1,
        r.2 == 1 ==> r.0 * (b0 * r.1) <= a0 + b0 * r.1,
{
    let mut a: u128 = a0;
    let mut sd: u128 = 1;
    while a < b0 * 4503599627370496u128
        invariant
            1 <= a0 <= 0x2_0000_0000_0000_0000u128,
            1 <= b0 <= 1024,
            1 <= sd <= a,
            a == a0 * sd,
            sd == 1 || a < b0 * sig_hi(),
            a0 >= b0 * sig_lo() ==> sd == 1,
            nearest_binary64(a0 as nat, b0 as nat) == ({
                let r = nearest_binary64(a as nat, b0 as nat);
                (r.0, r.1, (sd * r.2) as nat)
            }),
        decreases (if a < b0 * sig_lo() { b0 * sig_lo() - a } else { 0 }),
    {
        proof {
            let r = nearest_binary64((2 * a) as nat, b0 as nat);
            assert(nearest_binary64(a as nat, b0 as nat) == (r.0, r.1, (2 * r.2) as nat));
            assert(sd * (2 * r.2) == (2 * sd) * r.2) by (nonlinear_arith);
            assert(a0 * (2 * sd) == 2 * (a0 * sd)) by (nonlinear_arith);
        }
        a = 2 * a;
        sd = 2 * sd;
    }
    assert(sd <= 0x8000_0000_0000_0000u128) by {
        if sd > 1 {
            assert(b0 * sig_hi() <= 0x8000_0000_0000_0000u128);
        }
    }
    let mut b: u128 = b0;
    let mut sn: u128 = 1;
    while a >= b * 9007199254740992u128
        invariant
            1 <= a0 <= 0x2_0000_0000_0000_0000u128,
            1 <= b0 <= 1024,
            1 <= sd <= a,
            a == a0 * sd,
            a >= b * sig_lo(),
            b == b0 * sn,
            1 <= sn <= b,
            sd > 1 ==> sn == 1 && a < b0 * sig_hi(),
            sn == 1 || sd == 1,
            nearest_binary64(a0 as nat, b0 as nat) == ({
                let r = nearest_binary64(a as nat, b as nat);
                (r.0, (sn * r.1) as nat, (sd * r.2) as nat)
            }),
        decreases (if a >= b * sig_hi() { a + 1 - b * sig_hi() } else { 0 }),
    {
        proof {
            let r = nearest_binary64(a as nat, (2 * b) as nat);
            assert(nearest_binary64(a as nat, b as nat) == (r.0, (2 * r.1) as nat, r.2));
            assert(sn * (2 * r.1) == (2 * sn) * r.1) by (nonlinear_arith);
            assert(b0 * (2 * sn) == 2 * (b0 * sn)) by (nonlinear_arith);
            assert(b <= 0x2000);
        }
        b = 2 * b;
        sn = 2 * sn;
    }
    assert(a / b >= sig_lo()) by (nonlinear_arith)
        requires
            a >= b * sig_lo(),
            b > 0,
    ;
    assert(a / b < sig_hi()) by (nonlinear_arith)
        requires
            a < b * sig_hi(),
            b > 0,
    ;
    proof {
        assert(nearest_binary64(a as nat, b as nat) == (round_half_even(a as nat, b as nat), 1nat, 1nat));
    }
    let m = round_half_even_u128(a, b);
    proof {
        let r = nearest_binary64(a as nat, b as nat);
        assert(r == (m as nat, 1nat, 1nat));
        assert(r.1 == 1 && r.2 == 1);
        assert(sn * r.1 == sn) by (nonlinear_arith)
            requires
                r.1 == 1,
        ;
        assert(sd * r.2 == sd) by (nonlinear_arith)
            requires
                r.2 == 1,
        ;
        assert(nearest_binary64(a0 as nat, b0 as nat) == (r.0, (sn * r.1) as nat, (sd * r.2) as nat));
    }
    assert(sd == 1 ==> m * b <= a + b) by (nonlinear_arith)
        requires
            m <= a / b + 1,
            b > 0,
    ;
    (m, sn, sd)
}

/// Appends the decimal digits of `n` to `v`.
fn push_u128_decimal(v: &mut Vec<char>, n: u128)
    ensures
        final(v)@ == old(v)@ + nat_to_decimal(n as nat),
    decreases n,
{
    if n < 10 {
        v.push(((n as u8) + 48) as char);
        assert(final(v)@ =~= old(v)@ + nat_to_decimal(n as nat));
    } else {
        push_u128_decimal(v, n / 10);
        v.push((((n % 10) as u8) + 48) as char);
        assert(v@ =~= old(v)@ + nat_to_decimal(n as nat));
    }
}

/// Appends the last `k` decimal digits of `n`, zero-padded.
fn push_padded_digits(v: &mut Vec<char>, n: u128, k: u32)
    ensures
        final(v)@ == old(v)@ + padded_digits(n as nat, k as nat),
    decreases k,
{
    if k == 0 {
        assert(final(v)@ =~= old(v)@ + padded_digits(n as nat, k as nat));
    } else {
        push_padded_digits(v, n / 10, k - 1);
        v.push((((n % 10) as u8) + 48) as char);
        assert(v@ =~= old(v)@ + padded_digits(n as nat, k as nat));
    }
}

/// Appends `ms / 1000` in seconds with `k` decimals (`scale == 10^k`),
/// exactly as std shows `(ms as f64) / 1000.0` with precision `k`.
pub fn push_seconds_text(v: &mut Vec<char>, ms: u64, k: u32, scale: u128)
    requires
        1 <= k <= 2,
        scale == pow10(k as nat),
    ensures
        final(v)@ == old(v)@ + seconds_text(ms as nat, k as nat),
{
    reveal_with_fuel(pow10, 3);
    if ms == 0 {
        push_u128_decimal(v, 0);
        v.push('.');
        push_padded_digits(v, 0, k);
        assert(nearest_binary64(0, 1000) == (0nat, 1nat, 1nat));
        assert(round_half_even(0, 1) == 0);
        assert(integer_as_binary64(0) == 0);
        assert(0 * 1 * pow10(k as nat) == 0) by (nonlinear_arith);
        assert(0nat / pow10(k as nat) == 0);
        assert(0nat % pow10(k as nat) == 0);
        assert(fixed_text(0, k as nat) == nat_to_decimal(0) + seq!['.'] + padded_digits(0, k as nat));
        assert(seconds_text(0, k as nat) == fixed_text(0, k as nat));
        assert(v@ =~= old(v)@ + seconds_text(ms as nat, k as nat));
        return;
    }
    let n: u128 = if (ms as u128) < 9007199254740992u128 {
        ms as u128
    } else {
        let w = nearest_binary64_u128(ms as u128, 1);
        assert(w.0 * w.1 <= sig_hi() * 0x2000) by (nonlinear_arith)
            requires
                w.0 <= sig_hi(),
                w.1 <= 0x2000,
        ;
        w.0 * w.1
    };
    assert(n >= 1) by {
        if (ms as u128) >= 9007199254740992u128 {
            let w = nearest_binary64(ms as nat, 1);
            assert(w.0 * w.1 >= w.0) by (nonlinear_arith)
                requires
                    w.1 >= 1,
            ;
        }
    }
    assert(n <= 0x2_0000_0000_0000_0000u128) by {
        if (ms as u128) >= 9007199254740992u128 {
            let w = nearest_binary64(ms as nat, 1);
            assert(w.0 * (1 * w.1) <= ms + 1 * w.1);
        }
    }
    let q = nearest_binary64_u128(n, 1000);
    assert(q.0 * q.1 <= sig_hi() * 0x2000) by (nonlinear_arith)
        requires
            q.0 <= sig_hi(),
            q.1 <= 0x2000,
    ;
    assert(q.0 * q.1 * scale <= sig_hi() * 0x2000 * 100) by (nonlinear_arith)
        requires
            q.0 <= sig_hi(),
            q.1 <= 0x2000,
            scale <= 100,
    ;
    let num = q.0 * q.1 * scale;
    assert(num / q.2 <= num) by (nonlinear_arith)
        requires
            q.2 >= 1,
    ;
    let r = round_half_even_u128(num, q.2);
    push_u128_decimal(v, r / scale);
    v.push('.');
    push_padded_digits(v, r % scale, k);
    assert(v@ =~= old(v)@ + seconds_text(ms as nat, k as nat));
}

} // verus!
