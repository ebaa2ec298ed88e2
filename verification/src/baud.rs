use vstd::prelude::*;
use crate::error::Error;

verus! {

/// The baud rate divisor in 64ths, rounded to the nearest.
///
/// The divisor is `sysclk / (16 * baud_rate)`, held by the PL011 as an
/// integer part and a 6-bit fractional part; in 64ths it is
/// `sysclk * 4 / baud_rate`, which is rounded as `(sysclk * 8 / baud_rate + 1) / 2`.
pub open spec fn divisor_bits(baud_rate: u32, sysclk: u32) -> int {
    ((sysclk as int * 8) / (baud_rate as int) + 1) / 2
}

/// Whether a divisor can be computed for these parameters: the baud rate is
/// not zero, `sysclk * 8` fits in 32 bits, and the divisor lies between
/// 1 and 0xffff inclusive.
pub open spec fn baud_rate_valid(baud_rate: u32, sysclk: u32) -> bool {
    &&& baud_rate != 0
    &&& sysclk as int * 8 <= u32::MAX
    &&& 64 <= divisor_bits(baud_rate, sysclk) <= 0xffff * 64
}

/// Computes the integer and fractional baud rate divisors (`UARTIBRD`,
/// `UARTFBRD`) for a baud rate and a reference clock frequency.
pub fn calculate_baud_rate_divisor(baud_rate: u32, sysclk: u32) -> (r: Result<(u32, u32), Error>)
    ensures
        match r {
            Ok((ibrd, fbrd)) => {
                &&& baud_rate_valid(baud_rate, sysclk)
                &&& ibrd == divisor_bits(baud_rate, sysclk) / 64
                &&& fbrd == divisor_bits(baud_rate, sysclk) % 64
            },
            Err(e) => !baud_rate_valid(baud_rate, sysclk) && e == Error::InvalidParameter,
        },
        r is Ok <==> {
            &&& baud_rate != 0
            &&& sysclk * 8 <= 0xffff_ffff
            &&& 64 <= ((sysclk * 8) / (baud_rate as int) + 1) / 2 <= 0xffff * 64
        },
        r matches Ok((ibrd, fbrd)) ==> {
            &&& 1 <= ibrd <= 0xffff
            &&& fbrd < 64
            &&& ibrd == 0xffff ==> fbrd == 0
            &&& ibrd * 64 + fbrd == ((sysclk * 8) / (baud_rate as int) + 1) / 2
            &&& -(baud_rate as int) <= 2 * (ibrd * 64 + fbrd) * baud_rate - 8 * sysclk
                <= baud_rate
        },
{
    proof {
        lemma_baud_rate_valid_exactly(baud_rate, sysclk);
        if baud_rate != 0 {
            lemma_divisor_rounds_to_nearest(baud_rate, sysclk);
        }
    }
    let clk8 = match sysclk.checked_mul(8) {
        Some(v) => v,
        None => return Err(Error::InvalidParameter),
    };
    let baud_div = match clk8.checked_div(baud_rate) {
        Some(v) => v,
        None => return Err(Error::InvalidParameter),
    };
    assert(baud_div < u32::MAX) by (nonlinear_arith)
        requires
            baud_rate > 0,
            clk8 == sysclk * 8,
            clk8 <= u32::MAX,
            baud_div == clk8 / baud_rate,
    ;
    let plus_one = match baud_div.checked_add(1) {
        Some(v) => v,
        None => return Err(Error::InvalidParameter),
    };
    let baud_div_bits = plus_one >> 1u32;
    assert(baud_div_bits == plus_one / 2) by (bit_vector)
        requires
            baud_div_bits == plus_one >> 1u32,
    ;
    let ibrd = baud_div_bits >> 6u32;
    let fbrd = baud_div_bits & 0x3f;
    assert(ibrd == baud_div_bits / 64 && fbrd == baud_div_bits % 64) by (bit_vector)
        requires
            ibrd == baud_div_bits >> 6u32,
            fbrd == baud_div_bits & 0x3f,
    ;
    if ibrd == 0 || (ibrd == 0xffff && fbrd != 0) || ibrd > 0xffff {
        return Err(Error::InvalidParameter);
    }
    Ok((ibrd, fbrd))
}

/// The divisor computed for valid parameters is one the PL011 accepts: an
/// integer part between 1 and 0xffff, a fractional part below 64, and no
/// fractional part when the integer part is 0xffff.
pub proof fn lemma_divisor_within_limits(baud_rate: u32, sysclk: u32)
    requires
        baud_rate_valid(baud_rate, sysclk),
    ensures
        1 <= divisor_bits(baud_rate, sysclk) / 64 <= 0xffff,
        0 <= divisor_bits(baud_rate, sysclk) % 64 < 64,
        divisor_bits(baud_rate, sysclk) / 64 == 0xffff ==> divisor_bits(baud_rate, sysclk) % 64
            == 0,
        (divisor_bits(baud_rate, sysclk) / 64) * 64 + divisor_bits(baud_rate, sysclk) % 64
            == divisor_bits(baud_rate, sysclk),
{
}

/// The divisor is the nearest 64th to `sysclk / (16 * baud_rate)`:
/// `|divisor_bits / 64 - sysclk / (16 * baud_rate)| <= 1 / 128`, written
/// without division as `|2 * divisor_bits * baud_rate - 8 * sysclk| <= baud_rate`.
pub proof fn lemma_divisor_rounds_to_nearest(baud_rate: u32, sysclk: u32)
    requires
        baud_rate != 0,
    ensures
        -(baud_rate as int) <= 2 * divisor_bits(baud_rate, sysclk) * baud_rate - 8 * sysclk
            <= baud_rate,
{
    let b = baud_rate as int;
    let s8 = sysclk as int * 8;
    let q = s8 / b;
    let rem = s8 % b;
    assert(s8 == q * b + rem && 0 <= rem < b) by (nonlinear_arith)
        requires
            b > 0,
            q == s8 / b,
            rem == s8 % b,
    ;
    let d = (q + 1) / 2;
    assert(2 * d == q || 2 * d == q + 1);
    assert(-b <= 2 * d * b - s8 <= b) by (nonlinear_arith)
        requires
            b > 0,
            s8 == q * b + rem,
            0 <= rem < b,
            2 * d == q || 2 * d == q + 1,
    ;
}

/// Exactly three conditions make a baud rate unusable: a zero baud rate,
/// a reference clock whose eightfold does not fit in 32 bits, and a
/// divisor `sysclk / (16 * baud_rate)`, rounded to 64ths, below 1 or above
/// 0xffff. Every other pair of parameters can be configured.
pub proof fn lemma_baud_rate_valid_exactly(baud_rate: u32, sysclk: u32)
    ensures
        baud_rate_valid(baud_rate, sysclk) <==> {
            &&& baud_rate != 0
            &&& sysclk * 8 <= 0xffff_ffff
            &&& 64 <= ((sysclk * 8) / (baud_rate as int) + 1) / 2 <= 0xffff * 64
        },
{
}

} // verus!
