//! The roundings behind the tool's decimal output: of a quotient to a whole
//! number, and of a whole number to what a binary64 value can hold.
use vstd::arithmetic::power2::{
    lemma2_to64, lemma_pow2_adds, lemma_pow2_pos, lemma_pow2_strictly_increases, lemma_pow2_unfold, pow2,
};
use vstd::prelude::*;
use crate::text::{dec, numeral, push_numeral, push_zero_padded, zero_padded};

verus! {

/// `n / d` rounded to the nearest whole number, a tie to the even one.
pub open spec fn round_half_even(n: nat, d: nat) -> nat {
    let q = n / d;
    let r = n % d;
    if 2 * r < d || (2 * r == d && q % 2 == 0) {
        q
    } else {
        q + 1
    }
}

/// `n / d` rounded to the nearest whole number, a tie upwards.
pub open spec fn round_half_up(n: nat, d: nat) -> nat {
    if 2 * (n % d) < d {
        n / d
    } else {
        n / d + 1
    }
}

/// The distance between neighbouring binary64 values around the whole number
/// `n`, or 1 where every whole number is one: a significand has 53 bits.
pub open spec fn spacing(n: nat) -> nat
    decreases n,
{
    if n < 0x20_0000_0000_0000 {
        1
    } else {
        2 * spacing(n / 2)
    }
}

/// The binary64 value nearest to the whole number `n`, a tie to the even
/// significand.
pub open spec fn binary64(n: nat) -> nat {
    round_half_even(n, spacing(n)) * spacing(n)
}

/// A whole number of at most 53 bits is a binary64 value.
pub proof fn lemma_small_is_exact(n: nat)
    requires
        n < 0x20_0000_0000_0000,
    ensures
        binary64(n) == n,
{
    assert(n / 1 == n && n % 1 == 0);
    assert(spacing(n) == 1);
    assert(round_half_even(n, 1) == n);
    assert(n * 1 == n);
}

/// Rounding to binary64 changes a number by at most half the spacing.
pub proof fn lemma_binary64_error(n: nat)
    ensures
        spacing(n) >= 1,
        2 * binary64(n) <= 2 * n + spacing(n),
        2 * n <= 2 * binary64(n) + spacing(n),
    decreases n,
{
    lemma_spacing(n);
    let d = spacing(n);
    let q = n / d;
    assert(n == d * q + n % d) by {
        vstd::arithmetic::div_mod::lemma_fundamental_div_mod(n as int, d as int);
    }
    assert(0 <= n % d < d);
    let r = round_half_even(n, d);
    assert(r * d == d * q || r * d == d * q + d) by (nonlinear_arith)
        requires
            r == q || r == q + 1,
    ;
    if r == q {
        assert(r * d == d * q) by (nonlinear_arith)
            requires
                r == q,
        ;
    } else {
        assert(r * d == d * q + d) by (nonlinear_arith)
            requires
                r == q + 1,
        ;
    }
}

/// The spacing around a positive number does not exceed it.
pub proof fn lemma_spacing(n: nat)
    ensures
        1 <= spacing(n),
        n >= 1 ==> spacing(n) <= n,
    decreases n,
{
    if n >= 0x20_0000_0000_0000 {
        lemma_spacing(n / 2);
    }
}

pub fn half_even(n: u128, d: u128) -> (r: u128)
    requires
        0 < d < 0x1000_0000_0000_0000_0000_0000_0000_0000,
    ensures
        r == round_half_even(n as nat, d as nat),
{
    let q: u128 = n / d;
    let r: u128 = n % d;
    if 2 * r < d || (2 * r == d && q % 2 == 0) {
        q
    } else {
        proof {
            if n == 0 {
                assert(n % d == 0) by (nonlinear_arith)
                    requires
                        n == 0,
                        d > 0,
                ;
            } else if d > 1 {
                assert(q < n) by (nonlinear_arith)
                    requires
                        q == n / d,
                        d > 1,
                        n > 0,
                ;
            } else {
                assert(r == 0);
            }
        }
        q + 1
    }
}

pub fn half_up(n: u128, d: u128) -> (r: u128)
    requires
        1 < d < 0x1000_0000_0000_0000_0000_0000_0000_0000,
    ensures
        r == round_half_up(n as nat, d as nat),
{
    let q: u128 = n / d;
    if 2 * (n % d) < d {
        q
    } else {
        proof {
            assert(q < n || n == 0) by (nonlinear_arith)
                requires
                    q == n / d,
                    d > 1,
            ;
            if n == 0 {
                assert(n % d == 0) by (nonlinear_arith)
                    requires
                        n == 0,
                        d > 1,
                ;
            }
        }
        q + 1
    }
}

/// The binary64 value nearest to a whole number.
pub fn to_binary64(n: u128) -> (r: u128)
    requires
        n < 0x10_0000_0000_0000_0000_0000_0000,
    ensures
        r == binary64(n as nat),
{
    let mut unit: u128 = 1;
    let mut m: u128 = n;
    assert(unit * m == m) by (nonlinear_arith)
        requires
            unit == 1,
    ;
    while m >= 0x20_0000_0000_0000
        invariant
            n < 0x10_0000_0000_0000_0000_0000_0000,
            1 <= unit,
            unit * spacing(m as nat) == spacing(n as nat),
            unit * m <= n,
        decreases m,
    {
        proof {
            let half: nat = (m / 2) as nat;
            assert(unit <= n / 0x20_0000_0000_0000) by (nonlinear_arith)
                requires
                    unit * m <= n,
                    m >= 0x20_0000_0000_0000,
            ;
            assert((2 * unit) * (m / 2) <= unit * m) by (nonlinear_arith)
                requires
                    2 * (m / 2) <= m,
                    unit >= 1,
            ;
            assert((2 * unit) * spacing(half) == unit * (2 * spacing(half))) by (nonlinear_arith);
        }
        m = m / 2;
        unit = 2 * unit;
    }
    proof {
        assert(unit * 1 == unit);
        lemma_binary64_error(n as nat);
        lemma_spacing(n as nat);
    }
    let k: u128 = half_even(n, unit);
    k * unit
}

/// `q` hundredths in decimal notation, with both digits of the fraction.
pub open spec fn hundredths(q: nat) -> Seq<char> {
    dec((q / 100) as int) + "."@ + zero_padded(dec((q % 100) as int), 2)
}

/// Appends `q` hundredths with both digits of the fraction.
pub fn push_hundredths(s: &mut String, q: u128)
    ensures
        final(s)@ == old(s)@ + hundredths(q as nat),
{
    let ghost before = s@;
    push_numeral(s, q / 100, 10);
    s.append(".");
    push_zero_padded(s, (q % 100) as u64, 10, 2);
    assert(s@ =~= before + hundredths(q as nat));
}

/// `q` tenths in decimal notation, the fraction left out when it is zero.
pub open spec fn short_tenths(q: nat) -> Seq<char> {
    if q % 10 == 0 {
        dec((q / 10) as int)
    } else {
        dec((q / 10) as int) + "."@ + dec((q % 10) as int)
    }
}

/// `q` hundredths in decimal notation, without the zeros a fraction ends with.
pub open spec fn short_hundredths(q: nat) -> Seq<char> {
    if q % 10 == 0 {
        short_tenths(q / 10)
    } else {
        hundredths(q)
    }
}

/// Appends `q` tenths without a fraction of zero.
pub fn push_short_tenths(s: &mut String, q: u128)
    ensures
        final(s)@ == old(s)@ + short_tenths(q as nat),
{
    let ghost before = s@;
    push_numeral(s, q / 10, 10);
    if q % 10 != 0 {
        s.append(".");
        push_numeral(s, q % 10, 10);
    }
    assert(s@ =~= before + short_tenths(q as nat));
}

/// Appends `q` hundredths without the zeros the fraction ends with.
pub fn push_short_hundredths(s: &mut String, q: u128)
    ensures
        final(s)@ == old(s)@ + short_hundredths(q as nat),
{
    if q % 10 == 0 {
        push_short_tenths(s, q / 10);
    } else {
        push_hundredths(s, q);
    }
}

// ---------------------------------------------------------------------------
// Quotients and percentages
// ---------------------------------------------------------------------------

/// `n` doubled until its quotient by `d` has 53 significant bits.
pub open spec fn scaled_up(n: nat, d: nat) -> nat
    decreases 0x20_0000_0000_0000 * d - n,
{
    if n == 0 || n >= 0x10_0000_0000_0000 * d {
        n
    } else {
        scaled_up(2 * n, d)
    }
}

/// The power of two by which `scaled_up` multiplies.
pub open spec fn scale(n: nat, d: nat) -> nat
    decreases 0x20_0000_0000_0000 * d - n,
{
    if n == 0 || n >= 0x10_0000_0000_0000 * d {
        1
    } else {
        2 * scale(2 * n, d)
    }
}

/// The binary64 value nearest to `n / d`, as a multiple of `1 / scale(n, d)`.
pub open spec fn binary64_quotient(n: nat, d: nat) -> nat {
    let m = scaled_up(n, d);
    let unit = spacing(m / d);
    round_half_even(m, d * unit) * unit
}

/// `count / total * 100` computed in binary64, times `places` and rounded to
/// a whole number, ties to even; 0 where there is no total.
pub open spec fn percentage(count: u64, total: u64, places: nat) -> nat {
    let n = binary64(count as nat);
    let d = binary64(total as nat);
    if total == 0 {
        0
    } else {
        round_half_even(binary64(100 * binary64_quotient(n, d)) * places, scale(n, d))
    }
}

/// `n / d` computed in binary64, times `places` and rounded to a whole number,
/// ties to even; 0 where nothing is divided by.
pub open spec fn ratio(n: u64, d: u64, places: nat) -> nat {
    let a = binary64(n as nat);
    let b = binary64(d as nat);
    if d == 0 {
        0
    } else {
        round_half_even(binary64_quotient(a, b) * places, scale(a, b))
    }
}

/// `q` tenths in decimal notation, with the digit of the fraction.
pub open spec fn tenths(q: nat) -> Seq<char> {
    dec((q / 10) as int) + "."@ + dec((q % 10) as int)
}

/// Appends `q` tenths with the digit of the fraction.
pub fn push_tenths(s: &mut String, q: u128)
    ensures
        final(s)@ == old(s)@ + tenths(q as nat),
{
    let ghost before = s@;
    push_numeral(s, q / 10, 10);
    s.append(".");
    push_numeral(s, q % 10, 10);
    assert(s@ =~= before + tenths(q as nat));
}

/// The binary64 value nearest to a 64-bit number is at most 2^64.
pub proof fn lemma_u64_to_binary64(n: u64)
    ensures
        binary64(n as nat) <= 0x1_0000_0000_0000_0000,
        n > 0 ==> binary64(n as nat) > 0,
{
    lemma_binary64_error(n as nat);
    lemma_u64_spacing(n as nat);
    if n as nat >= 0xf000_0000_0000_0000 {
        assert(spacing(n as nat) == 2048) by {
            reveal_with_fuel(spacing, 13);
        }
        vstd::arithmetic::div_mod::lemma_fundamental_div_mod(n as int, 2048);
    }
    if 0 < n < 0x20_0000_0000_0000 {
        lemma_small_is_exact(n as nat);
    }
}

proof fn lemma_u64_spacing(n: nat)
    requires
        n < 0x1_0000_0000_0000_0000,
    ensures
        spacing(n) <= 2048,
{
    reveal_with_fuel(spacing, 13);
}

/// The quotient of two binary64 values, rounded to binary64: a numerator over
/// the power of two by which it was scaled up.
fn quotient(n: u128, d: u128) -> (r: (u128, u128))
    requires
        n <= 0x1_0000_0000_0000_0000,
        0 < d <= 0x1_0000_0000_0000_0000,
    ensures
        r.0 == binary64_quotient(n as nat, d as nat),
        r.1 == scale(n as nat, d as nat),
        r.0 <= 0x1_0000_0000_0000_1000,
        0 < r.1 < 0x1000_0000_0000_0000_0000_0000_0000_0000,
{
    let mut m: u128 = n;
    let mut k: u128 = 1;
    while m != 0 && m < 0x10_0000_0000_0000 * d
        invariant
            n <= 0x1_0000_0000_0000_0000,
            0 < d <= 0x1_0000_0000_0000_0000,
            scaled_up(m as nat, d as nat) == scaled_up(n as nat, d as nat),
            k * scale(m as nat, d as nat) == scale(n as nat, d as nat),
            m <= 0x20_0000_0000_0000 * d || m <= n,
            1 <= k,
            m == 0 ==> k == 1,
            m != 0 ==> k <= m,
        decreases 0x20_0000_0000_0000 * d - m,
    {
        proof {
            let rest = scale((2 * m) as nat, d as nat);
            assert((2 * k) * rest == k * (2 * rest)) by (nonlinear_arith);
        }
        m = 2 * m;
        k = 2 * k;
    }
    proof {
        assert(k * 1 == k);
        assert(m / d <= 0x1_0000_0000_0000_0000) by (nonlinear_arith)
            requires
                d > 0,
                m <= 0x20_0000_0000_0000 * d || m <= 0x1_0000_0000_0000_0000,
        ;
    }
    let whole: u128 = m / d;
    proof {
        lemma_wide_spacing(whole as nat);
        lemma_spacing(whole as nat);
    }
    let unit: u128 = spacing_of(whole);
    proof {
        assert(d * unit <= 0x1_0000_0000_0000_0000 * 4096) by (nonlinear_arith)
            requires
                d <= 0x1_0000_0000_0000_0000,
                unit <= 4096,
        ;
        assert(d * unit > 0) by (nonlinear_arith)
            requires
                d > 0,
                unit > 0,
        ;
    }
    let q: u128 = half_even(m, d * unit);
    proof {
        assert(q <= (m as int) / (d * unit) + 1);
        assert((m as int) / (d * unit) * unit <= m / d) by {
            vstd::arithmetic::div_mod::lemma_div_denominator(m as int, d as int, unit as int);
            vstd::arithmetic::div_mod::lemma_fundamental_div_mod((m / d) as int, unit as int);
            assert((m / d) / unit * unit == unit * ((m / d) / unit)) by (nonlinear_arith);
        }
        assert(q * unit <= m / d + unit) by (nonlinear_arith)
            requires
                q <= (m as int) / (d * unit) + 1,
                (m as int) / (d * unit) * unit <= m / d,
        ;
    }
    (q * unit, k)
}

/// Computes a percentage in binary64 and rounds it.
pub fn rounded_percentage(count: u64, total: u64, places: u128) -> (r: u128)
    requires
        1 <= places <= 1000,
    ensures
        r == percentage(count, total, places as nat),
{
    if total == 0 {
        return 0;
    }
    proof {
        lemma_u64_to_binary64(count);
        lemma_u64_to_binary64(total);
    }
    let (v, k): (u128, u128) = quotient(to_binary64(count as u128), to_binary64(total as u128));
    let w: u128 = to_binary64(100 * v);
    proof {
        lemma_binary64_error((100 * v) as nat);
        lemma_spacing((100 * v) as nat);
        assert(w * places <= 300 * 0x1_0000_0000_0000_0000 * 1000) by (nonlinear_arith)
            requires
                w <= 300 * 0x1_0000_0000_0000_0000,
                places <= 1000,
        ;
    }
    half_even(w * places, k)
}

/// Computes a quotient in binary64 and rounds it.
pub fn rounded_ratio(n: u64, d: u64, places: u128) -> (r: u128)
    requires
        1 <= places <= 1000,
    ensures
        r == ratio(n, d, places as nat),
{
    if d == 0 {
        return 0;
    }
    proof {
        lemma_u64_to_binary64(n);
        lemma_u64_to_binary64(d);
    }
    let (v, k): (u128, u128) = quotient(to_binary64(n as u128), to_binary64(d as u128));
    proof {
        assert(v * places <= 0x2_0000_0000_0000_0000 * 1000) by (nonlinear_arith)
            requires
                v <= 0x2_0000_0000_0000_0000,
                places <= 1000,
        ;
    }
    half_even(v * places, k)
}

proof fn lemma_wide_spacing(n: nat)
    requires
        n <= 0x1_0000_0000_0000_0000,
    ensures
        spacing(n) <= 4096,
{
    reveal_with_fuel(spacing, 14);
}

fn spacing_of(n: u128) -> (r: u128)
    requires
        n <= 0x1_0000_0000_0000_0000,
    ensures
        r == spacing(n as nat),
        1 <= r <= 4096,
    decreases n,
{
    proof {
        lemma_wide_spacing(n as nat);
        lemma_spacing(n as nat);
    }
    if n < 0x20_0000_0000_0000 {
        1
    } else {
        proof {
            lemma_wide_spacing((n / 2) as nat);
        }
        2 * spacing_of(n / 2)
    }
}

// ---------------------------------------------------------------------------
// Laws
// ---------------------------------------------------------------------------

/// A quotient is rounded to a nearest whole number: no more than half away,
/// and where it lies in the middle to the even one or upwards.
pub proof fn law_rounding_is_to_the_nearest(n: u128, d: u128, even: u128, up: u128)
    requires
        1 < d,
        call_ensures(half_even, (n, d), even),
        call_ensures(half_up, (n, d), up),
    ensures
        -(d as int) <= 2 * (even * d - n) <= d,
        2 * (even * d - n) == d || 2 * (n - even * d) == d ==> even % 2 == 0,
        -(d as int) < 2 * (up * d - n) <= d,
{
    let q = n as int / d as int;
    let r = n as int % d as int;
    assert(n == q * d + r && 0 <= r < d) by (nonlinear_arith)
        requires
            d > 1,
            q == n as int / d as int,
            r == n as int % d as int,
    ;
    assert((q + 1) * d == q * d + d) by (nonlinear_arith);
    assert(even == q || even == q + 1);
    assert(up == q || up == q + 1);
}

/// A number that binary64 can hold stays as it is: every one below 2 to the
/// 53rd does.
pub proof fn law_small_numbers_are_exact(n: u128, r: u128)
    requires
        n < 0x20_0000_0000_0000,
        call_ensures(to_binary64, (n,), r),
    ensures
        r == n,
{
    lemma_whole_multiple(n as nat, 1);
}

/// Nothing is no share of anything, and everything is all of itself; a share
/// of nothing counts as none.
pub proof fn law_all_is_a_hundred_percent(count: u64, total: u64, places: u128, r: u128, s: u128)
    requires
        1 <= places <= 1000,
        call_ensures(rounded_percentage, (count, total, places), r),
        call_ensures(rounded_ratio, (count, total, places), s),
    ensures
        total == 0 ==> r == 0 && s == 0,
        count == 0 ==> r == 0 && s == 0,
        count == total && total > 0 ==> r == 100 * places && s == places,
{
    let p = places as nat;
    if total > 0 && count == 0 {
        assert(spacing(0) == 1);
        lemma_whole_multiple(0, 1);
        assert(binary64(0) == 0);
        let d = binary64(total as nat);
        lemma_binary64_is_positive(total as nat);
        assert(0nat / d == 0) by (nonlinear_arith)
            requires
                d > 0,
        ;
        lemma_whole_multiple(0, d);
        assert(0 * d == 0 && d * 1 == d);
        assert(binary64_quotient(0, d) == 0);
        lemma_whole_multiple(0, scale(0, d));
        assert(0 * p == 0);
    }
    if total > 0 && count == total {
        let d = binary64(total as nat);
        let u: nat = 0x10_0000_0000_0000;
        lemma_binary64_is_positive(total as nat);
        lemma_quotient_of_equals(d);
        lemma_whole_multiple(100 * p, u);
        lemma_whole_multiple(p, u);
        assert(binary64(100 * u) == 100 * u) by {
            reveal_with_fuel(spacing, 8);
            assert(spacing(100 * u) == 64);
            lemma_whole_multiple(0x19_0000_0000_0000, 64);
        }
        assert((100 * u) * p == (100 * p) * u) by (nonlinear_arith);
        assert(u * p == p * u) by (nonlinear_arith);
    }
}

proof fn lemma_whole_multiple(q: nat, d: nat)
    requires
        d > 0,
    ensures
        round_half_even(q * d, d) == q,
{
    assert((q * d) as int / d as int == q && (q * d) as int % d as int == 0) by (nonlinear_arith)
        requires
            d > 0,
    ;
}

proof fn lemma_binary64_is_positive(n: nat)
    requires
        0 < n < 0x1_0000_0000_0000_0000,
    ensures
        binary64(n) > 0,
{
    lemma_spacing(n);
    let s = spacing(n);
    let q = n as int / s as int;
    assert(q >= 1) by (nonlinear_arith)
        requires
            n >= s,
            s >= 1,
            q == n as int / s as int,
    ;
    let r = round_half_even(n, s);
    assert(r * s >= 1) by (nonlinear_arith)
        requires
            r >= 1,
            s >= 1,
    ;
}

proof fn lemma_scale_of_multiple(d: nat, k: nat)
    requires
        d > 0,
        k <= 52,
    ensures
        scale(pow2(k) * d, d) == pow2((52 - k) as nat),
        scaled_up(pow2(k) * d, d) == 0x10_0000_0000_0000 * d,
    decreases 52 - k,
{
    lemma2_to64();
    let n = pow2(k) * d;
    lemma_pow2_pos(k);
    assert(n > 0) by (nonlinear_arith)
        requires
            n == pow2(k) * d,
            pow2(k) > 0,
            d > 0,
    ;
    if k == 52 {
        lemma_pow2_adds(32, 20);
    } else {
        lemma_pow2_strictly_increases(k, 52);
        lemma_pow2_unfold(k + 1);
        lemma_pow2_adds(32, 20);
        assert(n < 0x10_0000_0000_0000 * d) by (nonlinear_arith)
            requires
                n == pow2(k) * d,
                pow2(k) < 0x10_0000_0000_0000,
                d > 0,
        ;
        assert(2 * n == pow2(k + 1) * d) by (nonlinear_arith)
            requires
                n == pow2(k) * d,
                pow2(k + 1) == 2 * pow2(k),
        ;
        lemma_scale_of_multiple(d, k + 1);
        lemma_pow2_unfold((52 - k) as nat);
    }
}

proof fn lemma_quotient_of_equals(d: nat)
    requires
        d > 0,
    ensures
        binary64_quotient(d, d) == 0x10_0000_0000_0000,
        scale(d, d) == 0x10_0000_0000_0000,
{
    lemma2_to64();
    lemma_scale_of_multiple(d, 0);
    assert(pow2(0) * d == d) by (nonlinear_arith)
        requires
            pow2(0) == 1,
    ;
    lemma_pow2_adds(32, 20);
    let m = scaled_up(d, d);
    assert(m as int / d as int == 0x10_0000_0000_0000) by (nonlinear_arith)
        requires
            m == 0x10_0000_0000_0000 * d,
            d > 0,
    ;
    assert(spacing(0x10_0000_0000_0000) == 1);
    lemma_whole_multiple(0x10_0000_0000_0000, d);
    assert(d * 1 == d);
}

/// A number in tenths or hundredths is shown with that many digits behind the
/// point, and zeros that say nothing are left out of the short forms.
pub proof fn law_digits_stand_behind_the_point(q: nat)
    ensures
        tenths(q) == dec((q / 10) as int) + "."@ + dec((q % 10) as int),
        q % 10 != 0 ==> short_tenths(q) == tenths(q),
        q % 10 == 0 ==> short_tenths(q) == dec((q / 10) as int),
        q % 10 != 0 ==> short_hundredths(q) == hundredths(q),
        q % 10 == 0 ==> short_hundredths(q) == short_tenths(q / 10),
        q % 100 >= 10 ==> hundredths(q) == dec((q / 100) as int) + "."@ + dec((q % 100) as int),
        q % 100 < 10 ==> hundredths(q) == dec((q / 100) as int) + "."@ + (seq!['0'] + dec(
            (q % 100) as int,
        )),
{
    let r = q % 100;
    reveal_with_fuel(numeral, 3);
    if r >= 10 {
        assert(dec(r as int).len() == 2);
        assert(zero_padded(dec(r as int), 2) =~= dec(r as int));
    } else {
        assert(dec(r as int).len() == 1);
        assert(zero_padded(dec(r as int), 2) =~= seq!['0'] + dec(r as int));
    }
}

} // verus!
