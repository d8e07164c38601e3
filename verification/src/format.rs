//! Human-readable sizes.
use vstd::prelude::*;
use crate::text::{decimal, decimal_string, digit, digit_char, push_char, push_str};

verus! {

/// `num / den` rounded to the nearest integer, ties to even.
pub open spec fn round_half_even(num: nat, den: nat) -> nat
    recommends
        den > 0,
{
    let q = num / den;
    let r = num % den;
    if 2 * r < den {
        q
    } else if 2 * r > den {
        q + 1
    } else if q % 2 == 0 {
        q
    } else {
        q + 1
    }
}

/// 2 to the power `s`.
pub open spec fn two_pow(s: nat) -> nat
    decreases s,
{
    if s == 0 {
        1
    } else {
        2 * two_pow((s - 1) as nat)
    }
}

/// Number of low bits an `f64` cannot hold for the integer `n` (at most 11 for 64-bit values).
pub open spec fn f64_shift(n: nat, s: nat) -> nat
    decreases 11 - s,
{
    if s >= 11 || n < 0x20_0000_0000_0000 * two_pow(s) {
        s
    } else {
        f64_shift(n, s + 1)
    }
}

/// The integer `n` converted to the nearest `f64` (ties to even), as an integer.
pub open spec fn as_f64(n: nat) -> nat {
    let s = f64_shift(n, 0);
    round_half_even(n, two_pow(s)) * two_pow(s)
}

/// `v / 2^k` printed with one decimal, rounded half to even.
pub open spec fn one_decimal(v: nat, den: nat) -> Seq<char> {
    let d = round_half_even(v * 10, den);
    decimal(d / 10) + "."@ + seq![digit_char(d % 10)]
}

/// The size text: bytes below 1 KiB as "N B", otherwise KB, MB or GB
/// (powers of 1024) with one decimal.
pub open spec fn size_text(bytes: nat) -> Seq<char> {
    if bytes >= 0x4000_0000 {
        one_decimal(as_f64(bytes), 0x4000_0000) + " GB"@
    } else if bytes >= 0x10_0000 {
        one_decimal(bytes, 0x10_0000) + " MB"@
    } else if bytes >= 0x400 {
        one_decimal(bytes, 0x400) + " KB"@
    } else {
        decimal(bytes) + " B"@
    }
}

fn rounded(num: u128, den: u128) -> (r: u128)
    requires
        0 < den <= 0x1_0000_0000_0000_0000,
        num / den + 1 <= u128::MAX,
    ensures
        r == round_half_even(num as nat, den as nat),
        r <= num / den + 1,
{
    let q = num / den;
    let r = num % den;
    let twice = r + r;
    if twice < den {
        q
    } else if twice > den {
        q + 1
    } else if q % 2 == 0 {
        q
    } else {
        q + 1
    }
}

/// Converts `n` to its nearest `f64` value (as an integer).
fn f64_value(n: u64) -> (r: u128)
    ensures
        r == as_f64(n as nat),
        r <= 0x1_0000_0000_0000_0800,
{
    let mut s: u32 = 0;
    let mut scale: u128 = 1;
    assert(two_pow(0) == 1);
    while s < 11 && (n as u128) >= 0x20_0000_0000_0000u128 * scale
        invariant
            s <= 11,
            scale == two_pow(s as nat),
            1 <= scale <= 2048,
            f64_shift(n as nat, 0) == f64_shift(n as nat, s as nat),
        decreases 11 - s,
    {
        assert(two_pow((s + 1) as nat) == 2 * two_pow(s as nat));
        s = s + 1;
        scale = scale * 2;
        proof {
            lemma_two_pow_eleven();
            if s < 11 {
                lemma_two_pow_le(s as nat, 10);
            }
        }
    }
    assert(f64_shift(n as nat, s as nat) == s);
    let q = rounded(n as u128, scale);
    proof {
        lemma_rounded_scaled_bound(n as nat, scale as nat, q as nat);
    }
    q * scale
}

proof fn lemma_two_pow_eleven()
    ensures
        two_pow(10) == 1024,
        two_pow(11) == 2048,
{
    reveal_with_fuel(two_pow, 12);
}

proof fn lemma_two_pow_le(a: nat, b: nat)
    requires
        a <= b,
    ensures
        two_pow(a) <= two_pow(b),
        two_pow(a) >= 1,
    decreases b,
{
    if a < b {
        lemma_two_pow_le(a, (b - 1) as nat);
    }
    if b > 0 {
        lemma_two_pow_le(0, (b - 1) as nat);
    }
}

proof fn lemma_rounded_scaled_bound(n: nat, scale: nat, q: nat)
    requires
        n < 0x1_0000_0000_0000_0000,
        scale >= 1,
        q <= n / scale + 1,
    ensures
        q * scale <= n + scale,
{
    let d = n / scale;
    assert(d * scale <= n) by {
        vstd::arithmetic::div_mod::lemma_fundamental_div_mod(n as int, scale as int);
    };
    assert(q * scale <= (d + 1) * scale) by (nonlinear_arith)
        requires
            q <= d + 1,
    ;
    assert((d + 1) * scale == d * scale + scale) by (nonlinear_arith);
}

fn push_one_decimal(out: &mut String, v: u128, den: u128)
    requires
        0x400 <= den <= 0x4000_0000,
        v <= 0x1_0000_0000_0000_0800,
    ensures
        final(out)@ == old(out)@ + one_decimal(v as nat, den as nat),
{
    assert((v * 10) / (den as int) + 1 <= u128::MAX) by (nonlinear_arith)
        requires
            v <= 0x1_0000_0000_0000_0800,
            den >= 0x400,
    ;
    let d = rounded(v * 10, den);
    assert(d <= (v * 10) / (den as int) + 1);
    assert(d / 10 <= u64::MAX) by (nonlinear_arith)
        requires
            d <= (v * 10) / (den as int) + 1,
            v <= 0x1_0000_0000_0000_0800,
            den >= 0x400,
    ;
    let whole = decimal_string((d / 10) as u64);
    push_str(out, whole.as_str());
    push_char(out, '.');
    let last = digit((d % 10) as u64);
    push_char(out, last);
    proof {
        reveal_strlit(".");
    }
    assert(out@ =~= old(out)@ + one_decimal(v as nat, den as nat));
}

/// Formats a byte count for display: "512 B", "1.5 KB", "2.0 MB", "3.4 GB".
pub fn format_size(bytes: u64) -> (s: String)
    ensures
        s@ == size_text(bytes as nat),
{
    let mut s = String::new();
    if bytes >= 0x4000_0000 {
        let v = f64_value(bytes);
        push_one_decimal(&mut s, v, 0x4000_0000);
        push_str(&mut s, " GB");
    } else if bytes >= 0x10_0000 {
        push_one_decimal(&mut s, bytes as u128, 0x10_0000);
        push_str(&mut s, " MB");
    } else if bytes >= 0x400 {
        push_one_decimal(&mut s, bytes as u128, 0x400);
        push_str(&mut s, " KB");
    } else {
        let d = decimal_string(bytes);
        push_str(&mut s, d.as_str());
        push_str(&mut s, " B");
    }
    s
}

} // verus!
