use vstd::prelude::*;

verus! {

/// The decimal digit character for `d`, which is meaningful below ten.
pub open spec fn digit_char(d: nat) -> char {
    if d == 0 {
        '0'
    } else if d == 1 {
        '1'
    } else if d == 2 {
        '2'
    } else if d == 3 {
        '3'
    } else if d == 4 {
        '4'
    } else if d == 5 {
        '5'
    } else if d == 6 {
        '6'
    } else if d == 7 {
        '7'
    } else if d == 8 {
        '8'
    } else {
        '9'
    }
}

/// The decimal representation of `n`: most significant digit first, no sign,
/// no padding, and a single `'0'` for zero.
pub open spec fn decimal_rep(n: nat) -> Seq<char>
    decreases n,
{
    if n < 10 {
        seq![digit_char(n)]
    } else {
        decimal_rep(n / 10) + seq![digit_char(n % 10)]
    }
}

/// The temperature's fractional group: always exactly two characters, the
/// remainder below one degree padded with a leading zero where it is a single
/// digit, so a reading such as 23.05 shows "05" and never a misplaced "5".
pub open spec fn frac_rep(rem: nat) -> Seq<char> {
    if rem < 10 {
        seq!['0'] + decimal_rep(rem)
    } else {
        decimal_rep(rem)
    }
}

/// Relies on itoa: `Buffer::format` writes exactly the decimal digits of the
/// integer, as `core::fmt::Display` renders an unsigned integer.
#[verifier::external_body]
fn itoa_decimal(n: u64) -> (r: String)
    ensures
        r@ == decimal_rep(n as nat),
{
    let mut buffer = itoa::Buffer::new();
    buffer.format(n).to_owned()
}

/// Formats a whole measurement (a distance, an elapsed time, a counter) as
/// plain decimal text.
pub fn render_value(n: u64) -> (r: String)
    ensures
        r@ == decimal_rep(n as nat),
{
    itoa_decimal(n)
}

/// The pressure field's text: the raw pascal value shown in hecto-units,
/// truncated toward zero.
pub fn render_pressure(pressure_pa: u32) -> (r: String)
    ensures
        r@ == decimal_rep((pressure_pa / 100) as nat),
{
    itoa_decimal((pressure_pa / 100) as u64)
}

/// The temperature field's two fixed-point digit groups: the truncated whole
/// degrees, and the two-digit fractional part — the hundredths modulo one
/// degree, zero-padded on the left. Both groups truncate; neither ever rounds
/// upward.
pub fn render_temperature(temp_centi: u32) -> (r: (String, String))
    ensures
        r.0@ == decimal_rep((temp_centi / 100) as nat),
        r.1@ == frac_rep((temp_centi % 100) as nat),
{
    let whole = itoa_decimal((temp_centi / 100) as u64);
    let rem = temp_centi % 100;
    let digits = itoa_decimal(rem as u64);
    let frac = if rem < 10 {
        let mut padded = "0".to_owned();
        padded.append(digits.as_str());
        proof {
            reveal_strlit("0");
            assert(padded@ =~= frac_rep(rem as nat));
        }
        padded
    } else {
        digits
    };
    (whole, frac)
}

} // verus!
