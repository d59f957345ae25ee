//! Quantities in millionths.
//!
//! A coordinate in degrees, a distance in miles, kilometres or metres: each is
//! a signed 64-bit count of millionths of its unit. `34.0522` degrees is
//! `34_052_200`; ten miles are `10_000_000`. Conversions between units round to
//! the nearest millionth and stop at the ends of the 64-bit range.

use vstd::prelude::*;

verus! {

/// How many millionths make one unit.
pub const MILLIONTHS: i64 = 1_000_000;

/// `x` brought into the 64-bit range: values beyond an end become that end.
pub open spec fn saturate(x: int) -> int {
    if x < i64::MIN {
        i64::MIN as int
    } else if x > i64::MAX {
        i64::MAX as int
    } else {
        x
    }
}

/// `x * num / den`, rounded to the nearest integer, halves away from zero.
pub open spec fn scaled(x: int, num: int, den: int) -> int
    recommends
        num > 0,
        den > 0,
{
    if x >= 0 {
        (x * num + den / 2) / den
    } else {
        -((-x * num + den / 2) / den)
    }
}

/// Miles in kilometres: one mile is 1.60934 km.
pub open spec fn kilometers_of_miles(miles: int) -> int {
    scaled(miles, 160_934, 100_000)
}

/// Kilometres in metres.
pub open spec fn meters_of_kilometers(kilometers: int) -> int {
    kilometers * 1000
}

fn clamp(x: i128) -> (clamped: i64)
    ensures
        clamped == saturate(x as int),
{
    if x < i64::MIN as i128 {
        i64::MIN
    } else if x > i64::MAX as i128 {
        i64::MAX
    } else {
        x as i64
    }
}

/// Converts a distance in miles to kilometres.
pub fn miles_to_kilometers(miles: i64) -> (kilometers: i64)
    ensures
        kilometers == saturate(kilometers_of_miles(miles as int)),
{
    let wide: i128 = miles as i128;
    if wide >= 0 {
        clamp((wide * 160_934 + 50_000) / 100_000)
    } else {
        clamp(-((-wide * 160_934 + 50_000) / 100_000))
    }
}

/// Converts a distance in kilometres to metres.
pub fn kilometers_to_meters(kilometers: i64) -> (meters: i64)
    ensures
        meters == saturate(meters_of_kilometers(kilometers as int)),
{
    clamp(kilometers as i128 * 1000)
}

/// Conversion keeps the order of distances, also where it saturates.
pub proof fn meters_keep_order(near: int, far: int)
    requires
        near <= far,
    ensures
        saturate(meters_of_kilometers(near)) <= saturate(meters_of_kilometers(far)),
{
}

/// The ASCII digit for `d`.
pub open spec fn digit(d: int) -> u8
    recommends
        0 <= d < 10,
{
    (48 + d) as u8
}

/// A natural number in decimal, without leading zeros.
pub open spec fn natural_text(n: nat) -> Seq<u8>
    decreases n,
{
    if n < 10 {
        seq![digit(n as int)]
    } else {
        natural_text(n / 10).push(digit((n % 10) as int))
    }
}

/// The last `width` decimal digits of `n`, with leading zeros.
pub open spec fn padded_text(n: nat, width: nat) -> Seq<u8>
    decreases width,
{
    if width == 0 {
        Seq::empty()
    } else {
        padded_text(n / 10, (width - 1) as nat).push(digit((n % 10) as int))
    }
}

/// The digits behind the point: `n` in `width` digits, without the zeros at
/// the end, but never fewer than one digit.
pub open spec fn fraction_text(n: nat, width: nat) -> Seq<u8>
    decreases width,
{
    if width <= 1 {
        seq![digit((n % 10) as int)]
    } else if n % 10 == 0 {
        fraction_text(n / 10, (width - 1) as nat)
    } else {
        padded_text(n, width)
    }
}

/// A count of millionths as decimal text in ASCII: a minus sign where it is
/// negative, the whole part, a point, and up to six digits, as `24.1401`,
/// `-118.2437` or `15.0`.
pub open spec fn decimal_text(value: int) -> Seq<u8> {
    let magnitude = if value < 0 {
        -value
    } else {
        value
    };
    let sign = if value < 0 {
        seq![45u8]
    } else {
        Seq::<u8>::empty()
    };
    sign + natural_text((magnitude / 1_000_000) as nat) + seq![46u8] + fraction_text(
        (magnitude % 1_000_000) as nat,
        6,
    )
}

fn push_natural(out: &mut Vec<u8>, n: u64)
    ensures
        final(out)@ == old(out)@ + natural_text(n as nat),
    decreases n,
{
    if n >= 10 {
        push_natural(out, n / 10);
    }
    out.push(48 + (n % 10) as u8);
    assert(final(out)@ =~= old(out)@ + natural_text(n as nat));
}

fn push_padded(out: &mut Vec<u8>, n: u64, width: u8)
    ensures
        final(out)@ == old(out)@ + padded_text(n as nat, width as nat),
    decreases width,
{
    if width > 0 {
        push_padded(out, n / 10, width - 1);
        out.push(48 + (n % 10) as u8);
    }
    assert(final(out)@ =~= old(out)@ + padded_text(n as nat, width as nat));
}

fn push_fraction(out: &mut Vec<u8>, n: u64, width: u8)
    ensures
        final(out)@ == old(out)@ + fraction_text(n as nat, width as nat),
    decreases width,
{
    if width <= 1 {
        out.push(48 + (n % 10) as u8);
        assert(final(out)@ =~= old(out)@ + fraction_text(n as nat, width as nat));
    } else if n % 10 == 0 {
        push_fraction(out, n / 10, width - 1);
    } else {
        push_padded(out, n, width);
    }
}

/// Writes a natural number in decimal.
pub fn natural(n: u64) -> (text: Vec<u8>)
    ensures
        text@ == natural_text(n as nat),
{
    let mut out: Vec<u8> = Vec::new();
    push_natural(&mut out, n);
    out
}

/// Writes a count of millionths as decimal text.
pub fn decimal(value: i64) -> (text: Vec<u8>)
    ensures
        text@ == decimal_text(value as int),
{
    let mut out: Vec<u8> = Vec::new();
    let magnitude: u64 = if value < 0 {
        out.push(45);
        (-(value as i128)) as u64
    } else {
        value as u64
    };
    push_natural(&mut out, magnitude / 1_000_000);
    out.push(46);
    push_fraction(&mut out, magnitude % 1_000_000, 6);
    assert(out@ =~= decimal_text(value as int));
    out
}

} // verus!
