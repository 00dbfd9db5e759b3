//! Prices in millionths of a currency unit, the revenue-share markdown and decimal rendering.
use vstd::prelude::*;

verus! {

/// Millionths in one currency unit: prices are carried as whole micro-units.
pub const MICROS_PER_UNIT: u64 = 1_000_000;

/// The exchange's default share of a winning price, in parts per million (20 %).
pub const DEFAULT_PROFIT_RATE_PPM: u64 = 200_000;

/// The decimal digit `d` as a character.
pub open spec fn digit_char(d: int) -> char {
    if d == 0 {
        '0'
    } else if d == 1 {
        '1'
    } else if d == 2 {
        '2'
    } else if d == 3 {
        '3'
    } else if d == 4 {
        '4'
    } else if d == 5 {
        '5'
    } else if d == 6 {
        '6'
    } else if d == 7 {
        '7'
    } else if d == 8 {
        '8'
    } else {
        '9'
    }
}

/// `n` written in decimal, without leading zeros.
pub open spec fn decimal(n: nat) -> Seq<char>
    decreases n,
{
    if n < 10 {
        seq![digit_char(n as int)]
    } else {
        decimal(n / 10) + seq![digit_char((n % 10) as int)]
    }
}

/// The last `w` decimal digits of `n`, zero-padded on the left.
pub open spec fn padded_digits(n: nat, w: nat) -> Seq<char>
    decreases w,
{
    if w == 0 {
        Seq::empty()
    } else {
        padded_digits(n / 10, (w - 1) as nat) + seq![digit_char((n % 10) as int)]
    }
}

/// `s` without its trailing `'0'` characters.
pub open spec fn strip_trailing_zeros(s: Seq<char>) -> Seq<char>
    decreases s.len(),
{
    if s.len() > 0 && s.last() == '0' {
        strip_trailing_zeros(s.drop_last())
    } else {
        s
    }
}

/// A price of `m` micro-units as a decimal number: the whole units, then, only when the
/// fraction is not zero, a point and the fraction without trailing zeros (`2`, `2.4`, `0.000001`).
pub open spec fn price_text(m: nat) -> Seq<char> {
    let whole = decimal(m / (MICROS_PER_UNIT as nat));
    let frac = m % (MICROS_PER_UNIT as nat);
    if frac == 0 {
        whole
    } else {
        whole + seq!['.'] + strip_trailing_zeros(padded_digits(frac, 6))
    }
}

/// What remains of `price` after the exchange takes `rate_ppm` parts per million of it,
/// rounded down to a whole micro-unit.
pub open spec fn marked_down(price: nat, rate_ppm: nat) -> nat {
    (price * ((MICROS_PER_UNIT - rate_ppm) as nat) / (MICROS_PER_UNIT as nat)) as nat
}

/// The price paid to the seller once the exchange's share is taken off:
/// `price × (1 − rate)`, exact to one micro-unit.
pub fn apply_profit_rate(price: u64, rate_ppm: u64) -> (r: u64)
    requires
        rate_ppm <= MICROS_PER_UNIT,
    ensures
        r == marked_down(price as nat, rate_ppm as nat),
        r as int * MICROS_PER_UNIT <= price as int * (MICROS_PER_UNIT - rate_ppm) < (r as int + 1)
            * MICROS_PER_UNIT,
        r <= price,
{
    let keep: u64 = MICROS_PER_UNIT - rate_ppm;
    assert((price as u128) * (keep as u128) <= 0xffff_ffff_ffff_ffffu128 * 1_000_000u128)
        by (nonlinear_arith)
        requires
            keep <= 1_000_000,
    {}
    let prod: u128 = (price as u128) * (keep as u128);
    assert(prod == price as int * keep as int) by (nonlinear_arith)
        requires
            prod == price as u128 * keep as u128,
            keep <= 1_000_000,
    {}
    assert(prod <= price as int * 1_000_000) by (nonlinear_arith)
        requires
            prod == price as int * keep as int,
            keep <= 1_000_000,
    {}
    let q: u128 = prod / (MICROS_PER_UNIT as u128);
    assert(q <= price) by (nonlinear_arith)
        requires
            q == prod / 1_000_000,
            prod <= price as int * 1_000_000,
    {}
    assert(q * 1_000_000 <= prod < (q + 1) * 1_000_000) by (nonlinear_arith)
        requires
            q == prod / 1_000_000,
    {}
    q as u64
}

/// The digit `d` as a one-character string.
fn digit_str(d: u64) -> (r: &'static str)
    requires
        d < 10,
    ensures
        r@ == seq![digit_char(d as int)],
{
    proof {
        reveal_strlit("0");
        reveal_strlit("1");
        reveal_strlit("2");
        reveal_strlit("3");
        reveal_strlit("4");
        reveal_strlit("5");
        reveal_strlit("6");
        reveal_strlit("7");
        reveal_strlit("8");
        reveal_strlit("9");
    }
    if d == 0 {
        "0"
    } else if d == 1 {
        "1"
    } else if d == 2 {
        "2"
    } else if d == 3 {
        "3"
    } else if d == 4 {
        "4"
    } else if d == 5 {
        "5"
    } else if d == 6 {
        "6"
    } else if d == 7 {
        "7"
    } else if d == 8 {
        "8"
    } else {
        "9"
    }
}

/// Appends `n` in decimal to `out`.
pub fn push_decimal(out: &mut String, n: u64)
    ensures
        final(out)@ == old(out)@ + decimal(n as nat),
    decreases n,
{
    if n >= 10 {
        push_decimal(out, n / 10);
        out.append(digit_str(n % 10));
        assert(final(out)@ =~= old(out)@ + decimal(n as nat));
    } else {
        out.append(digit_str(n));
    }
}

/// Appends the last `w` digits of `n`, zero-padded, to `out`.
fn push_padded(out: &mut String, n: u64, w: u64)
    ensures
        final(out)@ == old(out)@ + padded_digits(n as nat, w as nat),
    decreases w,
{
    if w > 0 {
        push_padded(out, n / 10, w - 1);
        out.append(digit_str(n % 10));
        assert(final(out)@ =~= old(out)@ + padded_digits(n as nat, w as nat));
    } else {
        assert(final(out)@ =~= old(out)@ + padded_digits(n as nat, w as nat));
    }
}

proof fn lemma_padded_ends_nonzero(n: nat, w: nat)
    requires
        w > 0,
        n % 10 != 0,
    ensures
        strip_trailing_zeros(padded_digits(n, w)) == padded_digits(n, w),
{
    let s = padded_digits(n, w);
    assert(s.last() == digit_char((n % 10) as int));
}

proof fn lemma_padded_drop_zero(n: nat, w: nat)
    requires
        w > 0,
        n % 10 == 0,
    ensures
        strip_trailing_zeros(padded_digits(n, w)) == strip_trailing_zeros(
            padded_digits(n / 10, (w - 1) as nat),
        ),
{
    let s = padded_digits(n, w);
    assert(s.drop_last() =~= padded_digits(n / 10, (w - 1) as nat));
}

/// The decimal text of a price of `m` micro-units.
pub fn render_price(m: u64) -> (r: String)
    ensures
        r@ == price_text(m as nat),
{
    let mut out = String::new();
    push_decimal(&mut out, m / MICROS_PER_UNIT);
    let frac = m % MICROS_PER_UNIT;
    if frac != 0 {
        out.append(".");
        proof {
            reveal_strlit(".");
        }
        let mut f: u64 = frac;
        let mut w: u64 = 6;
        while w > 0 && f % 10 == 0
            invariant
                f < 1_000_000,
                w <= 6,
                f != 0,
                strip_trailing_zeros(padded_digits(f as nat, w as nat)) == strip_trailing_zeros(
                    padded_digits(frac as nat, 6),
                ),
            decreases w,
        {
            proof {
                lemma_padded_drop_zero(f as nat, w as nat);
            }
            f = f / 10;
            w = w - 1;
        }
        proof {
            if w > 0 {
                lemma_padded_ends_nonzero(f as nat, w as nat);
            } else {
                assert(padded_digits(f as nat, 0) =~= Seq::<char>::empty());
            }
        }
        push_padded(&mut out, f, w);
    }
    assert(out@ =~= price_text(m as nat));
    out
}

} // verus!
