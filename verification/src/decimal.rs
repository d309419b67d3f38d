//! Decimal renderings of whole numbers as `f64` formatting writes them: the
//! value a `u64` takes as an `f64`, its renderings with one and two decimals,
//! and a byte count in MiB with one decimal.
use vstd::prelude::*;

use crate::text::{dec, digit, digit_char, push_char, push_str};

verus! {

/// The gap between neighbouring `f64` values around `n`: 1 below 2^53, and
/// twice as much for each further power of two.
pub open spec fn f64_spacing(n: nat) -> nat {
    if n < 0x20_0000_0000_0000 {
        1
    } else if n < 0x40_0000_0000_0000 {
        2
    } else if n < 0x80_0000_0000_0000 {
        4
    } else if n < 0x100_0000_0000_0000 {
        8
    } else if n < 0x200_0000_0000_0000 {
        16
    } else if n < 0x400_0000_0000_0000 {
        32
    } else if n < 0x800_0000_0000_0000 {
        64
    } else if n < 0x1000_0000_0000_0000 {
        128
    } else if n < 0x2000_0000_0000_0000 {
        256
    } else if n < 0x4000_0000_0000_0000 {
        512
    } else if n < 0x8000_0000_0000_0000 {
        1024
    } else {
        2048
    }
}

/// The value of `n as f64`: the multiple of the spacing nearest to `n`, the
/// even multiple on a tie.
pub open spec fn f64_of_u64(n: nat) -> nat {
    let p = f64_spacing(n);
    let r = n % p;
    if 2 * r > p || (2 * r == p && (n / p) % 2 == 1) {
        (n - r + p) as nat
    } else {
        (n - r) as nat
    }
}

fn spacing(n: u64) -> (p: u64)
    ensures
        p == f64_spacing(n as nat),
        1 <= p <= 2048,
{
    if n < 0x20_0000_0000_0000 {
        1
    } else if n < 0x40_0000_0000_0000 {
        2
    } else if n < 0x80_0000_0000_0000 {
        4
    } else if n < 0x100_0000_0000_0000 {
        8
    } else if n < 0x200_0000_0000_0000 {
        16
    } else if n < 0x400_0000_0000_0000 {
        32
    } else if n < 0x800_0000_0000_0000 {
        64
    } else if n < 0x1000_0000_0000_0000 {
        128
    } else if n < 0x2000_0000_0000_0000 {
        256
    } else if n < 0x4000_0000_0000_0000 {
        512
    } else if n < 0x8000_0000_0000_0000 {
        1024
    } else {
        2048
    }
}

/// The value of `n as f64`, as a whole number.
pub fn f64_value(n: u64) -> (v: u128)
    ensures
        v == f64_of_u64(n as nat),
        v <= 0x1_0000_0000_0000_0000,
{
    let p = spacing(n);
    let r = n % p;
    let q = n / p;
    if 2 * r > p || (2 * r == p && q % 2 == 1) {
        (n - r) as u128 + p as u128
    } else {
        (n - r) as u128
    }
}

/// The decimal digits of a 128-bit number.
pub fn push_dec128(s: &mut String, n: u128)
    ensures
        final(s)@ == old(s)@ + dec(n as nat),
    decreases n,
{
    if n >= 10 {
        push_dec128(s, n / 10);
    }
    push_char(s, digit((n % 10) as u64));
    assert(n >= 10 ==> dec(n as nat) == dec((n / 10) as nat).push(digit_char((n % 10) as nat)));
}

/// How `{:.1}` writes the `f64` value of `n`.
pub open spec fn u64_one_decimal(n: nat) -> Seq<char> {
    dec(f64_of_u64(n)) + ".0"@
}

/// How `{:.2}` writes the `f64` value of `n`.
pub open spec fn u64_two_decimals(n: nat) -> Seq<char> {
    dec(f64_of_u64(n)) + ".00"@
}

/// Appends how `{:.1}` writes the `f64` value of `n`.
pub fn push_u64_one_decimal(s: &mut String, n: u64)
    ensures
        final(s)@ == old(s)@ + u64_one_decimal(n as nat),
{
    push_dec128(s, f64_value(n));
    push_str(s, ".0");
}

/// Appends how `{:.2}` writes the `f64` value of `n`.
pub fn push_u64_two_decimals(s: &mut String, n: u64)
    ensures
        final(s)@ == old(s)@ + u64_two_decimals(n as nat),
{
    push_dec128(s, f64_value(n));
    push_str(s, ".00");
}

/// A byte count in MiB, in tenths: the `f64` value of the count divided by
/// 2^20 and rounded to one decimal, to the even tenth on a tie.
pub open spec fn mib_tenths(bytes: nat) -> nat {
    let x = f64_of_u64(bytes) * 10;
    let t = x / 1048576;
    let r = x % 1048576;
    if 2 * r > 1048576 || (2 * r == 1048576 && t % 2 == 1) {
        t + 1
    } else {
        t
    }
}

/// A byte count in MiB with one decimal, without a trailing `.0`.
pub open spec fn mib_text(bytes: nat) -> Seq<char> {
    let t = mib_tenths(bytes);
    if t % 10 == 0 {
        dec(t / 10)
    } else {
        dec(t / 10) + seq!['.', digit_char(t % 10)]
    }
}

/// Appends a byte count in MiB with one decimal, without a trailing `.0`.
pub fn push_mib(s: &mut String, bytes: u64)
    ensures
        final(s)@ == old(s)@ + mib_text(bytes as nat),
{
    let v = f64_value(bytes);
    let x = v * 10;
    let t0 = x / 1048576;
    let r = x % 1048576;
    let t = if 2 * r > 1048576 || (2 * r == 1048576 && t0 % 2 == 1) {
        t0 + 1
    } else {
        t0
    };
    assert(t == mib_tenths(bytes as nat));
    push_dec128(s, t / 10);
    if t % 10 != 0 {
        push_char(s, '.');
        push_char(s, digit((t % 10) as u64));
    }
    assert(s@ =~= old(s)@ + mib_text(bytes as nat));
}

} // verus!
