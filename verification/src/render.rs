//! Exact decimal rendering of the library's numeric values into text.
//!
//! Every function appends to a `String` and states the appended characters
//! exactly, as a `Seq<char>`: unsigned values as plain decimal digits,
//! micro-unit values as a signed decimal with six fractional digits, and
//! pico-unit values (composite scores) with twelve.

use vstd::prelude::*;

verus! {

/// The decimal digit character for `d % 10`.
pub open spec fn digit_char_of(d: nat) -> char {
    let r = d % 10;
    if r == 0 {
        '0'
    } else if r == 1 {
        '1'
    } else if r == 2 {
        '2'
    } else if r == 3 {
        '3'
    } else if r == 4 {
        '4'
    } else if r == 5 {
        '5'
    } else if r == 6 {
        '6'
    } else if r == 7 {
        '7'
    } else if r == 8 {
        '8'
    } else {
        '9'
    }
}

/// Decimal digit characters of `n`, most significant first (`"0"` for zero).
pub open spec fn dec_of(n: nat) -> Seq<char>
    decreases n,
{
    if n < 10 {
        seq![digit_char_of(n)]
    } else {
        dec_of(n / 10).push(digit_char_of(n % 10))
    }
}

/// `n` zero-padded to at least three digits (wider values keep all their
/// digits).
pub open spec fn pad3_of(n: nat) -> Seq<char> {
    if n < 1000 {
        seq![
            digit_char_of(n / 100),
            digit_char_of(n / 10),
            digit_char_of(n),
        ]
    } else {
        dec_of(n)
    }
}

/// The six zero-padded fractional digits of a micro-unit magnitude
/// (`f` is taken modulo one million).
pub open spec fn frac6_of(f: nat) -> Seq<char> {
    seq![
        digit_char_of(f / 100_000),
        digit_char_of(f / 10_000),
        digit_char_of(f / 1_000),
        digit_char_of(f / 100),
        digit_char_of(f / 10),
        digit_char_of(f),
    ]
}

/// The twelve zero-padded fractional digits of a pico-unit magnitude
/// (`f` is taken modulo one trillion).
pub open spec fn frac12_of(f: nat) -> Seq<char> {
    seq![
        digit_char_of(f / 100_000_000_000),
        digit_char_of(f / 10_000_000_000),
        digit_char_of(f / 1_000_000_000),
        digit_char_of(f / 100_000_000),
        digit_char_of(f / 10_000_000),
        digit_char_of(f / 1_000_000),
        digit_char_of(f / 100_000),
        digit_char_of(f / 10_000),
        digit_char_of(f / 1_000),
        digit_char_of(f / 100),
        digit_char_of(f / 10),
        digit_char_of(f),
    ]
}

/// A non-negative micro-unit magnitude as a decimal with six fractional
/// digits (`1_500_000` renders as `1.500000`).
pub open spec fn umicro_of(m: nat) -> Seq<char> {
    dec_of(m / 1_000_000) + seq!['.'] + frac6_of(m % 1_000_000)
}

/// A micro-unit value as a signed decimal with six fractional digits.
pub open spec fn micro_of(v: int) -> Seq<char> {
    if v < 0 {
        seq!['-'] + umicro_of((-v) as nat)
    } else {
        umicro_of(v as nat)
    }
}

/// A non-negative pico-unit magnitude as a decimal with twelve fractional
/// digits.
pub open spec fn upico_of(m: nat) -> Seq<char> {
    dec_of(m / 1_000_000_000_000) + seq!['.'] + frac12_of(m % 1_000_000_000_000)
}

/// A pico-unit value (a composite score) as a signed decimal with twelve
/// fractional digits.
pub open spec fn pico_of(v: int) -> Seq<char> {
    if v < 0 {
        seq!['-'] + upico_of((-v) as nat)
    } else {
        upico_of(v as nat)
    }
}

/// Relies on `String::push`: appends exactly the given character to the end
/// of the string.
#[verifier::external_body]
pub(crate) fn push_char(s: &mut String, c: char)
    ensures
        final(s)@ == old(s)@.push(c),
{
    s.push(c);
}

/// The decimal digit character for `d % 10`.
pub fn digit_char(d: u128) -> (c: char)
    ensures
        c == digit_char_of(d as nat),
{
    match d % 10 {
        0 => '0',
        1 => '1',
        2 => '2',
        3 => '3',
        4 => '4',
        5 => '5',
        6 => '6',
        7 => '7',
        8 => '8',
        _ => '9',
    }
}

/// Appends the decimal digits of `n`, most significant first.
pub fn push_uint(s: &mut String, n: u128)
    ensures
        final(s)@ == old(s)@ + dec_of(n as nat),
    decreases n,
{
    if n < 10 {
        push_char(s, digit_char(n));
        proof {
            assert(s@ =~= old(s)@ + dec_of(n as nat));
        }
    } else {
        push_uint(s, n / 10);
        push_char(s, digit_char(n % 10));
        proof {
            assert(s@ =~= old(s)@ + dec_of(n as nat));
        }
    }
}

/// Appends `n` zero-padded to at least three digits.
pub fn push_pad3(s: &mut String, n: u32)
    ensures
        final(s)@ == old(s)@ + pad3_of(n as nat),
{
    if n < 1000 {
        push_char(s, digit_char((n / 100) as u128));
        push_char(s, digit_char((n / 10) as u128));
        push_char(s, digit_char(n as u128));
        proof {
            assert(s@ =~= old(s)@ + pad3_of(n as nat));
        }
    } else {
        push_uint(s, n as u128);
    }
}

/// Appends the six zero-padded fractional digits of `f`.
fn push_frac6(s: &mut String, f: u64)
    requires
        f < 1_000_000,
    ensures
        final(s)@ == old(s)@ + frac6_of(f as nat),
{
    push_char(s, digit_char((f / 100_000) as u128));
    push_char(s, digit_char((f / 10_000) as u128));
    push_char(s, digit_char((f / 1_000) as u128));
    push_char(s, digit_char((f / 100) as u128));
    push_char(s, digit_char((f / 10) as u128));
    push_char(s, digit_char(f as u128));
    proof {
        assert(s@ =~= old(s)@ + frac6_of(f as nat));
    }
}

/// Appends the twelve zero-padded fractional digits of `f`.
#[verifier::rlimit(60)]
fn push_frac12(s: &mut String, f: u128)
    requires
        f < 1_000_000_000_000,
    ensures
        final(s)@ == old(s)@ + frac12_of(f as nat),
{
    push_char(s, digit_char(f / 100_000_000_000));
    push_char(s, digit_char(f / 10_000_000_000));
    push_char(s, digit_char(f / 1_000_000_000));
    push_char(s, digit_char(f / 100_000_000));
    push_char(s, digit_char(f / 10_000_000));
    push_char(s, digit_char(f / 1_000_000));
    let ghost mid = s@;
    proof {
        assert(mid =~= old(s)@ + seq![
            digit_char_of((f / 100_000_000_000) as nat),
            digit_char_of((f / 10_000_000_000) as nat),
            digit_char_of((f / 1_000_000_000) as nat),
            digit_char_of((f / 100_000_000) as nat),
            digit_char_of((f / 10_000_000) as nat),
            digit_char_of((f / 1_000_000) as nat),
        ]);
    }
    push_char(s, digit_char(f / 100_000));
    push_char(s, digit_char(f / 10_000));
    push_char(s, digit_char(f / 1_000));
    push_char(s, digit_char(f / 100));
    push_char(s, digit_char(f / 10));
    push_char(s, digit_char(f));
    proof {
        assert(s@ =~= mid + seq![
            digit_char_of((f / 100_000) as nat),
            digit_char_of((f / 10_000) as nat),
            digit_char_of((f / 1_000) as nat),
            digit_char_of((f / 100) as nat),
            digit_char_of((f / 10) as nat),
            digit_char_of(f as nat),
        ]);
        assert(s@ =~= old(s)@ + frac12_of(f as nat));
    }
}

/// Appends a micro-unit value as a signed decimal with six fractional
/// digits.
pub fn push_micro(s: &mut String, v: i64)
    requires
        v > i64::MIN,
    ensures
        final(s)@ == old(s)@ + micro_of(v as int),
{
    let m: u64 = if v < 0 {
        push_char(s, '-');
        (-v) as u64
    } else {
        v as u64
    };
    push_uint(s, (m / 1_000_000) as u128);
    push_char(s, '.');
    push_frac6(s, m % 1_000_000);
    proof {
        assert(s@ =~= old(s)@ + micro_of(v as int));
    }
}

/// Appends a pico-unit value as a signed decimal with twelve fractional
/// digits.
pub fn push_pico(s: &mut String, v: i128)
    requires
        v > i128::MIN,
    ensures
        final(s)@ == old(s)@ + pico_of(v as int),
{
    let m: u128 = if v < 0 {
        push_char(s, '-');
        (-v) as u128
    } else {
        v as u128
    };
    push_uint(s, m / 1_000_000_000_000);
    push_char(s, '.');
    push_frac12(s, m % 1_000_000_000_000);
    proof {
        assert(s@ =~= old(s)@ + pico_of(v as int));
    }
}

} // verus!
