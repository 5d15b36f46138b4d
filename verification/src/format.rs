//! Quantities as text: plain decimals, and the short form with a suffix for
//! thousands, millions and beyond.

use vstd::prelude::*;
use vstd::string::StringExecFns;
use crate::fixed::Fixed;

verus! {

/// The number of suffixes of the short form, the empty one included.
pub const SUFFIX_COUNT: usize = 7;

/// The character of a decimal digit.
pub open spec fn spec_digit(d: int) -> char {
    if d <= 0 {
        '0'
    } else if d == 1 {
        '1'
    } else if d == 2 {
        '2'
    } else if d == 3 {
        '3'
    } else if d == 4 {
        '4'
    } else if d == 5 {
        '5'
    } else if d == 6 {
        '6'
    } else if d == 7 {
        '7'
    } else if d == 8 {
        '8'
    } else {
        '9'
    }
}

/// A natural number in decimal, without leading zeros.
pub open spec fn spec_decimal(n: nat) -> Seq<char>
    decreases n,
{
    if n < 10 {
        seq![spec_digit(n as int)]
    } else {
        spec_decimal(n / 10).push(spec_digit((n % 10) as int))
    }
}

/// The last `width` decimal digits of a natural number, with leading zeros.
pub open spec fn spec_padded(n: nat, width: nat) -> Seq<char>
    decreases width,
{
    if width == 0 {
        Seq::empty()
    } else {
        spec_padded(n / 10, (width - 1) as nat).push(spec_digit((n % 10) as int))
    }
}

/// Ten to the power of `e`.
pub open spec fn spec_pow10(e: nat) -> nat
    decreases e,
{
    if e == 0 {
        1
    } else {
        10 * spec_pow10((e - 1) as nat)
    }
}

/// `value / unit`, rounded to the nearest whole number, halves upwards.
pub open spec fn spec_rounded(value: nat, unit: nat) -> nat {
    if 2 * (value % unit) >= unit {
        value / unit + 1
    } else {
        value / unit
    }
}

/// A number of hundredths, tenths or wholes as text with that many
/// decimals: `scaled` counts units of `10^-decimals`.
pub open spec fn spec_with_decimals(scaled: nat, decimals: nat) -> Seq<char> {
    if decimals == 0 {
        spec_decimal(scaled)
    } else {
        spec_decimal(scaled / spec_pow10(decimals)) + seq!['.'] + spec_padded(
            scaled % spec_pow10(decimals),
            decimals,
        )
    }
}

/// The suffix for a quantity counted in thousands to the power of `step`.
pub open spec fn spec_suffix(step: int) -> Seq<char> {
    if step <= 0 {
        ""@
    } else if step == 1 {
        "K"@
    } else if step == 2 {
        "M"@
    } else if step == 3 {
        "B"@
    } else if step == 4 {
        "T"@
    } else if step == 5 {
        "Qa"@
    } else {
        "Qi"@
    }
}

/// The millionths in one thousand to the power of `step`.
pub open spec fn spec_step_unit(step: nat) -> nat {
    spec_pow10(6 + 3 * step)
}

/// The least step, from `from` on, at which the quantity is below a
/// thousand of the step's units; the number of suffixes where there is none.
pub open spec fn spec_step_of(value: Fixed, from: nat) -> nat
    decreases SUFFIX_COUNT - from,
{
    if from >= SUFFIX_COUNT {
        SUFFIX_COUNT as nat
    } else if value < 1000 * spec_step_unit(from) {
        from
    } else {
        spec_step_of(value, from + 1)
    }
}

/// The decimals shown for a quantity in units of `unit` millionths: two
/// below ten, one below a hundred, none from there on.
pub open spec fn spec_decimals_of(value: Fixed, unit: nat) -> nat {
    if value < 10 * unit {
        2
    } else if value < 100 * unit {
        1
    } else {
        0
    }
}

/// The power of ten of a quantity of a sextillion units or more: the
/// least exponent from `from` on whose next power exceeds the quantity.
pub open spec fn spec_exponent_of(value: Fixed, from: nat) -> nat
    decreases 32 - from,
{
    if from >= 32 || value < spec_pow10(from + 7) {
        from
    } else {
        spec_exponent_of(value, from + 1)
    }
}

/// A quantity of a sextillion units or more in scientific form: one digit,
/// two decimals, and the power of ten.
pub open spec fn spec_scientific(value: Fixed) -> Seq<char> {
    let exponent = spec_exponent_of(value, 21);
    let mantissa = spec_rounded(value as nat, spec_pow10(exponent + 4));
    if mantissa >= 1000 {
        spec_with_decimals(100, 2) + seq!['e'] + spec_decimal(exponent + 1)
    } else {
        spec_with_decimals(mantissa, 2) + seq!['e'] + spec_decimal(exponent)
    }
}

/// A quantity in the short form: below a thousand as it is, from there on
/// in thousands (K), millions (M), billions (B), trillions (T),
/// quadrillions (Qa) or quintillions (Qi), with three significant digits
/// where the rounding leaves them; beyond that in scientific form.
pub open spec fn spec_format_si(value: Fixed) -> Seq<char> {
    let step = spec_step_of(value, 0);
    if step >= SUFFIX_COUNT {
        spec_scientific(value)
    } else {
        let unit = spec_step_unit(step);
        let decimals = spec_decimals_of(value, unit);
        spec_with_decimals(
            spec_rounded(value as nat * spec_pow10(decimals), unit),
            decimals,
        ) + spec_suffix(step as int)
    }
}

/// A quantity rounded to `decimals` decimals, as text.
pub open spec fn spec_fixed_text(value: Fixed, decimals: nat) -> Seq<char> {
    spec_with_decimals(
        spec_rounded(value as nat * spec_pow10(decimals), spec_pow10(6)),
        decimals,
    )
}

/// The character of a decimal digit.
pub fn digit(d: u8) -> (c: char)
    requires
        d < 10,
    ensures
        c == spec_digit(d as int),
{
    if d == 0 {
        '0'
    } else if d == 1 {
        '1'
    } else if d == 2 {
        '2'
    } else if d == 3 {
        '3'
    } else if d == 4 {
        '4'
    } else if d == 5 {
        '5'
    } else if d == 6 {
        '6'
    } else if d == 7 {
        '7'
    } else if d == 8 {
        '8'
    } else {
        '9'
    }
}

/// Ten to the power of `e`, for the powers that fit.
pub fn pow10(e: u32) -> (p: u128)
    requires
        e <= 38,
    ensures
        p == spec_pow10(e as nat),
        p >= 1,
{
    let mut p: u128 = 1;
    let mut i: u32 = 0;
    while i < e
        invariant
            i <= e <= 38,
            p == spec_pow10(i as nat),
            1 <= p,
        decreases e - i,
    {
        proof {
            lemma_pow10_bound(i as nat);
            lemma_pow10_bound((i + 1) as nat);
        }
        p = p * 10;
        i = i + 1;
    }
    p
}

/// The powers of ten up to the thirty-eighth fit in 128 bits.
pub proof fn lemma_pow10_bound(e: nat)
    requires
        e <= 38,
    ensures
        1 <= spec_pow10(e) <= 100_000_000_000_000_000_000_000_000_000_000_000_000,
        e < 38 ==> spec_pow10(e) <= 10_000_000_000_000_000_000_000_000_000_000_000_000,
{
    lemma_pow10_values();
    if e < 38 {
        lemma_pow10_grows(e, 37);
    } else {
        lemma_pow10_grows(e, 38);
    }
}

/// Some powers of ten written out.
pub proof fn lemma_pow10_values()
    ensures
        spec_pow10(0) == 1,
        spec_pow10(1) == 10,
        spec_pow10(2) == 100,
        spec_pow10(6) == 1_000_000,
        spec_pow10(24) == 1_000_000_000_000_000_000_000_000,
        spec_pow10(37) == 10_000_000_000_000_000_000_000_000_000_000_000_000,
        spec_pow10(38) == 100_000_000_000_000_000_000_000_000_000_000_000_000,
{
    reveal_with_fuel(spec_pow10, 7);
    let six = spec_pow10(6);
    assert(six == 1_000_000);
    lemma_pow10_adds(6, 6);
    let twelve = spec_pow10(12);
    assert(twelve == 1_000_000_000_000) by (nonlinear_arith)
        requires
            twelve == six * six,
            six == 1_000_000,
    ;
    lemma_pow10_adds(12, 12);
    let twenty_four = spec_pow10(24);
    assert(twenty_four == 1_000_000_000_000_000_000_000_000) by (nonlinear_arith)
        requires
            twenty_four == twelve * twelve,
            twelve == 1_000_000_000_000,
    ;
    lemma_pow10_adds(12, 1);
    let thirteen = spec_pow10(13);
    assert(thirteen == 10_000_000_000_000) by (nonlinear_arith)
        requires
            thirteen == twelve * 10,
            twelve == 1_000_000_000_000,
    ;
    lemma_pow10_adds(24, 13);
    let thirty_seven = spec_pow10(37);
    assert(thirty_seven == 10_000_000_000_000_000_000_000_000_000_000_000_000)
        by (nonlinear_arith)
        requires
            thirty_seven == twenty_four * thirteen,
            twenty_four == 1_000_000_000_000_000_000_000_000,
            thirteen == 10_000_000_000_000,
    ;
}

/// The powers of ten grow with the exponent.
pub proof fn lemma_pow10_grows(smaller: nat, larger: nat)
    requires
        smaller <= larger,
    ensures
        spec_pow10(smaller) <= spec_pow10(larger),
        spec_pow10(smaller) >= 1,
    decreases larger,
{
    if smaller < larger {
        lemma_pow10_grows(smaller, (larger - 1) as nat);
    } else if smaller > 0 {
        lemma_pow10_grows((smaller - 1) as nat, (smaller - 1) as nat);
    }
}

/// Appends a natural number in decimal.
pub fn push_decimal(out: &mut String, n: u128)
    ensures
        final(out)@ == old(out)@ + spec_decimal(n as nat),
    decreases n,
{
    if n >= 10 {
        push_decimal(out, n / 10);
    }
    let ghost before = out@;
    out.push(digit((n % 10) as u8));
    proof {
        if n >= 10 {
            assert(out@ =~= old(out)@ + spec_decimal(n as nat));
        } else {
            assert(out@ =~= old(out)@ + spec_decimal(n as nat));
        }
    }
}

/// Appends the last `width` decimal digits of a number, with leading zeros.
pub fn push_padded(out: &mut String, n: u128, width: u32)
    ensures
        final(out)@ == old(out)@ + spec_padded(n as nat, width as nat),
    decreases width,
{
    if width == 0 {
        assert(out@ =~= old(out)@ + spec_padded(n as nat, 0));
        return ;
    }
    push_padded(out, n / 10, width - 1);
    out.push(digit((n % 10) as u8));
    proof {
        assert(out@ =~= old(out)@ + spec_padded(n as nat, width as nat));
    }
}

/// Appends a count of hundredths, tenths or wholes with that many decimals.
pub fn push_with_decimals(out: &mut String, scaled: u128, decimals: u32)
    requires
        decimals <= 38,
    ensures
        final(out)@ == old(out)@ + spec_with_decimals(scaled as nat, decimals as nat),
{
    if decimals == 0 {
        push_decimal(out, scaled);
    } else {
        let unit = pow10(decimals);
        push_decimal(out, scaled / unit);
        out.push('.');
        push_padded(out, scaled % unit, decimals);
        proof {
            assert(out@ =~= old(out)@ + spec_with_decimals(scaled as nat, decimals as nat));
        }
    }
}

/// `value / unit`, rounded to the nearest whole number, halves upwards.
pub fn rounded(value: u128, unit: u128) -> (q: u128)
    requires
        unit > 0,
    ensures
        q == spec_rounded(value as nat, unit as nat),
{
    let whole = value / unit;
    let rest = value % unit;
    if rest >= unit - rest {
        assert(whole <= u128::MAX / 2) by (nonlinear_arith)
            requires
                whole == value / unit,
                unit >= 2,
                value <= u128::MAX,
        ;
        whole + 1
    } else {
        whole
    }
}

/// A quantity rounded to `decimals` decimals, as text.
pub fn fixed_text(value: Fixed, decimals: u32) -> (text: String)
    requires
        decimals <= 6,
    ensures
        text@ == spec_fixed_text(value, decimals as nat),
{
    let mut text = String::new();
    let shift = pow10(6 - decimals);
    proof {
        lemma_rounding_shifts(value as nat, decimals as nat);
        lemma_pow10_bound((6 - decimals) as nat);
    }
    push_with_decimals(&mut text, rounded(value, shift), decimals);
    proof {
        assert(text@ =~= spec_fixed_text(value, decimals as nat));
    }
    text
}

/// Rounding a quantity of millionths to `decimals` decimals is rounding
/// its quotient by the power of ten that the decimals leave over.
pub proof fn lemma_rounding_shifts(value: nat, decimals: nat)
    requires
        decimals <= 6,
    ensures
        spec_rounded(value * spec_pow10(decimals), spec_pow10(6)) == spec_rounded(
            value,
            spec_pow10((6 - decimals) as nat),
        ),
{
    let p = spec_pow10(decimals);
    let s = spec_pow10((6 - decimals) as nat);
    lemma_pow10_adds(decimals, (6 - decimals) as nat);
    lemma_pow10_bound(decimals);
    lemma_pow10_bound((6 - decimals) as nat);
    assert(spec_pow10(6) == p * s);
    lemma_scaled_division(value, p, s);
}

/// Powers of ten multiply by adding their exponents.
pub proof fn lemma_pow10_adds(a: nat, b: nat)
    ensures
        spec_pow10(a + b) == spec_pow10(a) * spec_pow10(b),
    decreases a,
{
    if a > 0 {
        lemma_pow10_adds((a - 1) as nat, b);
        assert(spec_pow10(a + b) == 10 * spec_pow10((a - 1 + b) as nat));
        assert(10 * (spec_pow10((a - 1) as nat) * spec_pow10(b)) == (10 * spec_pow10(
            (a - 1) as nat,
        )) * spec_pow10(b)) by (nonlinear_arith);
    } else {
        assert(1 * spec_pow10(b) == spec_pow10(b));
    }
}

/// Multiplying a dividend and its divisor by the same factor changes
/// neither the quotient nor the side of the half on which the rest lies.
proof fn lemma_scaled_division(value: nat, p: nat, s: nat)
    requires
        p > 0,
        s > 0,
    ensures
        (value * p) / (p * s) == value / s,
        (value * p) % (p * s) == (value % s) * p,
        (2 * ((value * p) % (p * s)) >= p * s) == (2 * (value % s) >= s),
{
    let q = value / s;
    let r = value % s;
    assert(value == q * s + r) by {
        vstd::arithmetic::div_mod::lemma_fundamental_div_mod(value as int, s as int);
        assert(s * q == q * s) by (nonlinear_arith);
    }
    assert(value * p == q * (p * s) + r * p) by (nonlinear_arith)
        requires
            value == q * s + r,
    ;
    assert(0 <= r * p < p * s) by (nonlinear_arith)
        requires
            0 <= r < s,
            p > 0,
    ;
    vstd::arithmetic::div_mod::lemma_fundamental_div_mod_converse(
        (value * p) as int,
        (p * s) as int,
        q as int,
        (r * p) as int,
    );
    assert((2 * (r * p) >= p * s) == (2 * r >= s)) by (nonlinear_arith)
        requires
            p > 0,
    ;
}

/// The suffix for a quantity counted in thousands to the power of `step`.
pub fn suffix(step: usize) -> (s: &'static str)
    ensures
        s@ == spec_suffix(step as int),
{
    if step == 0 {
        ""
    } else if step == 1 {
        "K"
    } else if step == 2 {
        "M"
    } else if step == 3 {
        "B"
    } else if step == 4 {
        "T"
    } else if step == 5 {
        "Qa"
    } else {
        "Qi"
    }
}

/// A quantity of a sextillion units or more in scientific form.
fn scientific(value: Fixed) -> (text: String)
    ensures
        text@ == spec_scientific(value),
{
    let mut exponent: u32 = 21;
    while exponent < 32 && value >= pow10(exponent + 7)
        invariant
            21 <= exponent <= 32,
            spec_exponent_of(value, 21) == spec_exponent_of(value, exponent as nat),
        decreases 32 - exponent,
    {
        exponent = exponent + 1;
    }
    let unit = pow10(exponent + 4);
    proof {
        lemma_pow10_bound((exponent + 4) as nat);
    }
    let mantissa = rounded(value, unit);
    let mut text = String::new();
    if mantissa >= 1000 {
        push_with_decimals(&mut text, 100, 2);
        text.push('e');
        push_decimal(&mut text, (exponent + 1) as u128);
    } else {
        push_with_decimals(&mut text, mantissa, 2);
        text.push('e');
        push_decimal(&mut text, exponent as u128);
    }
    proof {
        assert(text@ =~= spec_scientific(value));
    }
    text
}

/// A quantity in the short form with a suffix: `1.23K`, `4.56M` and so on.
pub fn format_si(value: Fixed) -> (text: String)
    ensures
        text@ == spec_format_si(value),
{
    let mut step: usize = 0;
    while step < SUFFIX_COUNT
        invariant
            step <= SUFFIX_COUNT,
            spec_step_of(value, 0) == spec_step_of(value, step as nat),
        decreases SUFFIX_COUNT - step,
    {
        let unit = pow10(6 + 3 * step as u32);
        proof {
            lemma_pow10_bound((6 + 3 * step) as nat);
            lemma_pow10_grows((6 + 3 * step) as nat, 24);
            lemma_pow10_values();
        }
        if value < 1000 * unit {
            let decimals: u32 = if value < 10 * unit {
                2
            } else if value < 100 * unit {
                1
            } else {
                0
            };
            let scale = pow10(decimals);
            proof {
                assert(scale == 1 || scale == 10 || scale == 100) by {
                    reveal_with_fuel(spec_pow10, 3);
                }
                assert(value * scale <= 1000 * unit * 100) by (nonlinear_arith)
                    requires
                        value < 1000 * unit,
                        scale <= 100,
                ;
            }
            let mut text = String::new();
            push_with_decimals(&mut text, rounded(value * scale, unit), decimals);
            text.append(suffix(step));
            proof {
                assert(text@ =~= spec_format_si(value));
            }
            return text;
        }
        step = step + 1;
    }
    scientific(value)
}

} // verus!
