//! Decoding of raw memory-cell payloads into physical values.
//!
//! Raw bytes are packed nibble pairs: the high and the low nibble of each
//! byte are independent decimal digits. Floating point has no place in the
//! verified layer, so every fractional quantity is carried as a scaled
//! integer — temperatures, wind speed, wind angle, rain and pressure all in
//! tenths of their unit. A caller that wants a plain decimal divides by ten.

use vstd::prelude::*;

use crate::error::Error;

verus! {

/// The high decimal digit of a packed byte.
pub open spec fn hi(b: u8) -> int {
    b as int / 16
}

/// The low decimal digit of a packed byte.
pub open spec fn lo(b: u8) -> int {
    b as int % 16
}

/// The high nibble of a byte.
pub fn high_nibble(b: u8) -> (r: u8)
    ensures
        r == hi(b),
{
    proof {
        assert(b >> 4 == b / 16) by (bit_vector);
    }
    b >> 4
}

/// The low nibble of a byte.
pub fn low_nibble(b: u8) -> (r: u8)
    ensures
        r == lo(b),
{
    proof {
        assert(b & 0xF == b % 16) by (bit_vector);
    }
    b & 0xF
}

/// Ten to the power `n`.
pub open spec fn pow10(n: nat) -> int
    decreases n,
{
    if n == 0 {
        1
    } else {
        10 * pow10((n - 1) as nat)
    }
}

/// Powers of ten are positive.
pub proof fn lemma_pow10_pos(n: nat)
    ensures
        pow10(n) >= 1,
    decreases n,
{
    if n > 0 {
        lemma_pow10_pos((n - 1) as nat);
    }
}

/// Powers of ten grow with the exponent.
pub proof fn lemma_pow10_mono(a: nat, b: nat)
    requires
        a <= b,
    ensures
        pow10(a) <= pow10(b),
    decreases b,
{
    if a < b {
        lemma_pow10_mono(a, (b - 1) as nat);
        lemma_pow10_pos((b - 1) as nat);
    }
}

/// The quotient `p / q`, rounded half away from zero: the rounding is
/// applied to the magnitude of the signed remainder, so negative values
/// round symmetrically to positive ones.
pub open spec fn div_round_half_away(p: int, q: int) -> int
    recommends
        q >= 1,
{
    if p >= 0 {
        (p + q / 2) / q
    } else {
        -((-p + q / 2) / q)
    }
}

/// The rounding rule preserves the integer part: the rounded quotient is
/// the quotient truncated toward zero, plus the signed fractional
/// remainder rounded half away from zero on its own. Rounding is applied
/// to the signed remainder, never to an absolute value.
pub proof fn lemma_round_preserves_integer_part(p: int, q: int)
    requires
        q >= 1,
    ensures
        ({
            let t = if p >= 0 {
                p / q
            } else {
                -((-p) / q)
            };
            let f = p - t * q;
            div_round_half_away(p, q) == t + div_round_half_away(f, q)
        }),
{
    let t = if p >= 0 {
        p / q
    } else {
        -((-p) / q)
    };
    let f = p - t * q;
    if p >= 0 {
        vstd::arithmetic::div_mod::lemma_fundamental_div_mod(p, q);
        vstd::arithmetic::div_mod::lemma_mod_bound(p, q);
        assert(f == p % q) by (nonlinear_arith)
            requires
                p == q * (p / q) + p % q,
                t == p / q,
                f == p - t * q,
        ;
        vstd::arithmetic::div_mod::lemma_hoist_over_denominator(f + q / 2, t, q as nat);
        assert(f + q / 2 + t * q == p + q / 2) by (nonlinear_arith)
            requires
                f == p - t * q,
        ;
    } else {
        let u = -p;
        let tu = u / q;
        let fu = u % q;
        vstd::arithmetic::div_mod::lemma_fundamental_div_mod(u, q);
        vstd::arithmetic::div_mod::lemma_mod_bound(u, q);
        assert(t == -tu);
        assert(f == -fu) by (nonlinear_arith)
            requires
                u == q * tu + fu,
                t == -tu,
                f == p - t * q,
                p == -u,
        ;
        vstd::arithmetic::div_mod::lemma_hoist_over_denominator(fu + q / 2, tu, q as nat);
        assert(fu + q / 2 + tu * q == u + q / 2) by (nonlinear_arith)
            requires
                u == q * tu + fu,
        ;
        if fu == 0 {
            vstd::arithmetic::div_mod::lemma_basic_div(q / 2, q);
        }
    }
}

/// Round a scaled decimal value to fewer decimal digits: `value` carries
/// `digits` decimal places, the result carries `keep`. The integer part is
/// preserved and the dropped places round half away from zero, so negative
/// inputs round symmetrically to positive ones.
pub fn round(value: i64, digits: u32, keep: u32) -> (r: i64)
    requires
        keep <= digits,
        digits - keep <= 18,
        -1_000_000_000_000_000_000 <= value <= 1_000_000_000_000_000_000,
    ensures
        r == div_round_half_away(value as int, pow10((digits - keep) as nat)),
{
    let n: u32 = digits - keep;
    let mut p: u64 = 1;
    let mut j: u32 = 0;
    while j < n
        invariant
            j <= n <= 18,
            p == pow10(j as nat),
        decreases n - j,
    {
        proof {
            lemma_pow10_mono(j as nat, 17);
            assert(pow10(17) == 100_000_000_000_000_000) by {
                reveal_with_fuel(pow10, 18);
            }
        }
        p = p * 10;
        j = j + 1;
    }
    proof {
        lemma_pow10_mono(n as nat, 18);
        assert(pow10(18) == 1_000_000_000_000_000_000) by {
            reveal_with_fuel(pow10, 19);
        }
        lemma_pow10_pos(n as nat);
    }

    let half: u64 = p / 2;
    if value >= 0 {
        let v: u64 = value as u64;
        let q: u64 = (v + half) / p;
        proof {
            vstd::arithmetic::div_mod::lemma_div_is_ordered_by_denominator(
                (v + half) as int,
                1,
                p as int,
            );
        }
        q as i64
    } else {
        let v: u64 = (-value) as u64;
        let q: u64 = (v + half) / p;
        proof {
            vstd::arithmetic::div_mod::lemma_div_is_ordered_by_denominator(
                (v + half) as int,
                1,
                p as int,
            );
        }
        -(q as i64)
    }
}

/// The temperature cell value in hundredths of a degree before rounding:
/// tens and units in the second byte, tenths and hundredths in the first,
/// the whole shifted down thirty degrees.
pub open spec fn temperature_hundredths(s: Seq<u8>) -> int
    recommends
        s.len() >= 2,
{
    1000 * hi(s[1]) + 100 * lo(s[1]) + 10 * hi(s[0]) + lo(s[0]) - 3000
}

/// The decoded temperature in tenths of a degree.
pub open spec fn temperature_tenths(s: Seq<u8>) -> int
    recommends
        s.len() >= 2,
{
    div_round_half_away(temperature_hundredths(s), 10)
}

/// Decode a two-byte temperature cell (temperatures, dewpoint, wind chill)
/// into tenths of a degree.
pub fn temperature(value: &Vec<u8>) -> (r: i32)
    requires
        value@.len() >= 2,
    ensures
        r == temperature_tenths(value@),
{
    let b0: u8 = value[0];
    let b1: u8 = value[1];
    let hundredths: i64 = 1000 * (high_nibble(b1) as i64) + 100 * (low_nibble(b1) as i64) + 10
        * (high_nibble(b0) as i64) + (low_nibble(b0) as i64) - 3000;
    let tenths: i64 = round(hundredths, 2, 1);
    proof {
        assert(pow10(1) == 10) by {
            reveal_with_fuel(pow10, 2);
        }
    }
    tenths as i32
}

/// The decoded relative humidity, a whole percentage.
pub open spec fn humidity_value(s: Seq<u8>) -> int
    recommends
        s.len() >= 1,
{
    10 * hi(s[0]) + lo(s[0])
}

/// Decode a one-byte humidity cell into a whole percentage.
pub fn humidity(value: &Vec<u8>) -> (r: u32)
    requires
        value@.len() >= 1,
    ensures
        r == humidity_value(value@),
{
    let b0: u8 = value[0];
    10 * (high_nibble(b0) as u32) + (low_nibble(b0) as u32)
}

/// The decoded wind speed in tenths: a twelve-bit magnitude whose high four
/// bits are the low nibble of the second byte.
pub open spec fn wind_speed_tenths(s: Seq<u8>) -> int
    recommends
        s.len() >= 2,
{
    256 * lo(s[1]) + s[0]
}

/// Decode a wind-speed cell into tenths of the speed unit.
pub fn wind_speed(value: &Vec<u8>) -> (r: u32)
    requires
        value@.len() >= 2,
    ensures
        r == wind_speed_tenths(value@),
{
    let b0: u8 = value[0];
    let b1: u8 = value[1];
    256 * (low_nibble(b1) as u32) + b0 as u32
}

/// The decoded wind angle in tenths of a degree: the high nibble of the
/// single byte counts sectors of 22.5 degrees.
pub open spec fn wind_dir_tenths(s: Seq<u8>) -> int
    recommends
        s.len() >= 1,
{
    225 * hi(s[0])
}

/// Decode a wind-direction cell into tenths of a degree.
pub fn wind_dir(value: &Vec<u8>) -> (r: u32)
    requires
        value@.len() >= 1,
    ensures
        r == wind_dir_tenths(value@),
{
    225 * (high_nibble(value[0]) as u32)
}

/// The sixteen-point compass label for direction index `n`.
pub open spec fn direction_name(n: int) -> Seq<char> {
    if n == 0 {
        "N"@
    } else if n == 1 {
        "NNE"@
    } else if n == 2 {
        "NE"@
    } else if n == 3 {
        "ENE"@
    } else if n == 4 {
        "E"@
    } else if n == 5 {
        "ESE"@
    } else if n == 6 {
        "SE"@
    } else if n == 7 {
        "SSE"@
    } else if n == 8 {
        "S"@
    } else if n == 9 {
        "SSW"@
    } else if n == 10 {
        "SW"@
    } else if n == 11 {
        "WSW"@
    } else if n == 12 {
        "W"@
    } else if n == 13 {
        "WNW"@
    } else if n == 14 {
        "NW"@
    } else if n == 15 {
        "NNW"@
    } else {
        Seq::empty()
    }
}

/// Look up the compass label for a direction index; an index past the
/// sixteen-entry table is a decoding fault, surfaced as an error rather
/// than clamped.
pub fn direction_label(index: u8) -> (r: Result<&'static str, Error>)
    ensures
        index < 16 ==> (r matches Ok(s) && s@ == direction_name(index as int)),
        index >= 16 ==> r == Err::<&'static str, Error>(Error::Index),
{
    match index {
        0 => Ok("N"),
        1 => Ok("NNE"),
        2 => Ok("NE"),
        3 => Ok("ENE"),
        4 => Ok("E"),
        5 => Ok("ESE"),
        6 => Ok("SE"),
        7 => Ok("SSE"),
        8 => Ok("S"),
        9 => Ok("SSW"),
        10 => Ok("SW"),
        11 => Ok("WSW"),
        12 => Ok("W"),
        13 => Ok("WNW"),
        14 => Ok("NW"),
        15 => Ok("NNW"),
        _ => Err(Error::Index),
    }
}

/// Decode a wind-direction cell into its compass label.
pub fn wind_direction(value: &Vec<u8>) -> (r: &'static str)
    requires
        value@.len() >= 1,
    ensures
        r@ == direction_name(hi(value@[0])),
{
    match direction_label(high_nibble(value[0])) {
        Ok(s) => s,
        Err(_) => vstd::pervasive::unreached(),
    }
}

/// The pressure-tendency label for index `n`.
pub open spec fn tendency_name(n: int) -> Seq<char> {
    if n == 0 {
        "Steady"@
    } else if n == 1 {
        "Rising"@
    } else if n == 2 {
        "Falling"@
    } else {
        Seq::empty()
    }
}

/// Look up the tendency label for the high nibble of the shared
/// tendency/forecast cell; an index past the three-entry table is a
/// decoding fault.
pub fn tendency(value: &Vec<u8>) -> (r: Result<&'static str, Error>)
    requires
        value@.len() >= 1,
    ensures
        hi(value@[0]) < 3 ==> (r matches Ok(s) && s@ == tendency_name(hi(value@[0]))),
        hi(value@[0]) >= 3 ==> r == Err::<&'static str, Error>(Error::Index),
{
    match high_nibble(value[0]) {
        0 => Ok("Steady"),
        1 => Ok("Rising"),
        2 => Ok("Falling"),
        _ => Err(Error::Index),
    }
}

/// The weather-forecast label for index `n`.
pub open spec fn forecast_name(n: int) -> Seq<char> {
    if n == 0 {
        "Rainy"@
    } else if n == 1 {
        "Cloudy"@
    } else if n == 2 {
        "Sunny"@
    } else {
        Seq::empty()
    }
}

/// Look up the forecast label for the low nibble of the shared
/// tendency/forecast cell; an index past the three-entry table is a
/// decoding fault.
pub fn forecast(value: &Vec<u8>) -> (r: Result<&'static str, Error>)
    requires
        value@.len() >= 1,
    ensures
        lo(value@[0]) < 3 ==> (r matches Ok(s) && s@ == forecast_name(lo(value@[0]))),
        lo(value@[0]) >= 3 ==> r == Err::<&'static str, Error>(Error::Index),
{
    match low_nibble(value[0]) {
        0 => Ok("Rainy"),
        1 => Ok("Cloudy"),
        2 => Ok("Sunny"),
        _ => Err(Error::Index),
    }
}

/// The rain cell value in hundredths of a millimetre before rounding.
pub open spec fn rain_hundredths(s: Seq<u8>) -> int
    recommends
        s.len() >= 3,
{
    10 * hi(s[0]) + lo(s[0]) + 1000 * hi(s[1]) + 100 * lo(s[1]) + 100000 * hi(s[2]) + 10000 * lo(
        s[2],
    )
}

/// The decoded rain amount in tenths of a millimetre.
pub open spec fn rain_tenths(s: Seq<u8>) -> int
    recommends
        s.len() >= 3,
{
    div_round_half_away(rain_hundredths(s), 10)
}

/// Decode a three-byte rain cell into tenths of a millimetre.
pub fn rain(value: &Vec<u8>) -> (r: u32)
    requires
        value@.len() >= 3,
    ensures
        r == rain_tenths(value@),
{
    let b0: u8 = value[0];
    let b1: u8 = value[1];
    let b2: u8 = value[2];
    let hundredths: i64 = 10 * (high_nibble(b0) as i64) + (low_nibble(b0) as i64) + 1000 * (
    high_nibble(b1) as i64) + 100 * (low_nibble(b1) as i64) + 100000 * (high_nibble(b2) as i64)
        + 10000 * (low_nibble(b2) as i64);
    let tenths: i64 = round(hundredths, 2, 1);
    proof {
        assert(pow10(1) == 10) by {
            reveal_with_fuel(pow10, 2);
        }
    }
    tenths as u32
}

/// The decoded pressure in tenths: units and tenths in the first byte,
/// hundreds and tens in the second, thousands in the low nibble of the
/// third.
pub open spec fn pressure_tenths(s: Seq<u8>) -> int
    recommends
        s.len() >= 3,
{
    10 * hi(s[0]) + lo(s[0]) + 1000 * hi(s[1]) + 100 * lo(s[1]) + 10000 * lo(s[2])
}

/// Decode a three-byte pressure cell into tenths of the pressure unit.
pub fn pressure(value: &Vec<u8>) -> (r: u32)
    requires
        value@.len() >= 3,
    ensures
        r == pressure_tenths(value@),
{
    let b0: u8 = value[0];
    let b1: u8 = value[1];
    let b2: u8 = value[2];
    10 * (high_nibble(b0) as u32) + (low_nibble(b0) as u32) + 1000 * (high_nibble(b1) as u32) + 100
        * (low_nibble(b1) as u32) + 10000 * (low_nibble(b2) as u32)
}

} // verus!
