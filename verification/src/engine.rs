//! The integer half of the compensation engine: the fine-temperature value
//! derived from the raw temperature reading and the three temperature
//! coefficients, and the centi-degree temperature derived from it. Both
//! follow the manufacturer's arithmetic bit-exactly: every step is unsigned
//! 32-bit arithmetic that wraps on overflow, with truncating right shifts,
//! stated here as arithmetic modulo 2^32.

use vstd::prelude::*;
use crate::calibration::CalibrationCoefficients;
use crate::sample::RawSample;

verus! {

/// A value reduced into the unsigned 32-bit range.
pub open spec fn w32(x: int) -> int {
    x % 0x1_0000_0000
}

/// Two's-complement 32-bit image of a signed coefficient.
pub open spec fn unsigned_32(x: int) -> int {
    if x >= 0 {
        x
    } else {
        x + 0x1_0000_0000
    }
}

/// Fine temperature: the sum of two terms. The first multiplies the
/// eighth of the raw reading, offset by twice `t1` (taken modulo 2^16, as
/// the 16-bit left shift leaves it), with `t2`; the second multiplies the
/// scaled square of the sixteenth of the raw reading offset by `t1` with
/// `t3`. Every product, sum and difference wraps at 2^32 and every shift
/// truncates downward.
pub open spec fn spec_fine_temperature(t1: u16, t2: i16, t3: i16, raw: u32) -> int {
    let a = w32((raw as int) / 8 - ((t1 as int) * 2) % 0x10000);
    let var1 = w32(a * unsigned_32(t2 as int)) / 0x800;
    let b = w32((raw as int) / 16 - (t1 as int));
    let var2 = w32((w32(b * b) / 0x1000) * unsigned_32(t3 as int)) / 0x4000;
    w32(var1 + var2)
}

/// Centi-degree temperature from the fine value: times five, offset by
/// 128, shifted right eight; the multiply wraps at 2^32.
pub open spec fn spec_refine_temperature(t_fine: int) -> int {
    w32(t_fine * 5 + 128) / 0x100
}

/// Two's-complement 32-bit image of a signed 16-bit coefficient, as a
/// 64-bit machine value.
fn widen_signed(x: i16) -> (r: u64)
    ensures
        r == unsigned_32(x as int),
{
    if x >= 0 {
        x as u64
    } else {
        (x as i64 + 0x1_0000_0000) as u64
    }
}

/// Difference of two values below 2^32, wrapped into the 32-bit range.
fn wrapping_diff_32(x: u64, y: u64) -> (r: u64)
    requires
        x < 0x1_0000_0000,
        y < 0x1_0000_0000,
    ensures
        r == w32(x - y),
{
    proof {
        vstd::arithmetic::div_mod::lemma_mod_multiples_vanish(1, x - y, 0x1_0000_0000);
    }
    (x + 0x1_0000_0000 - y) % 0x1_0000_0000
}

/// Fine temperature, computed in 64-bit arithmetic so that no step can
/// overflow, and proved equal to the wrapping 32-bit formula.
pub fn temperature_fine(t1: u16, t2: i16, t3: i16, temperature_raw: u32) -> (r: u32)
    ensures
        r == spec_fine_temperature(t1, t2, t3, temperature_raw),
{
    let t1_shifted: u64 = ((t1 as u64) * 2) % 0x10000;
    let a: u64 = wrapping_diff_32((temperature_raw as u64) / 8, t1_shifted);
    let t2u: u64 = widen_signed(t2);
    proof {
        vstd::arithmetic::mul::lemma_mul_upper_bound(a as int, 0xffff_ffff, t2u as int, 0xffff_ffff);
    }
    let var1: u64 = ((a * t2u) % 0x1_0000_0000) / 0x800;

    let b: u64 = wrapping_diff_32((temperature_raw as u64) / 16, t1 as u64);
    proof {
        vstd::arithmetic::mul::lemma_mul_upper_bound(b as int, 0xffff_ffff, b as int, 0xffff_ffff);
    }
    let square: u64 = (b * b) % 0x1_0000_0000;
    let t3u: u64 = widen_signed(t3);
    proof {
        vstd::arithmetic::mul::lemma_mul_upper_bound(
            (square / 0x1000) as int, 0xf_ffff, t3u as int, 0xffff_ffff,
        );
    }
    let var2: u64 = (((square / 0x1000) * t3u) % 0x1_0000_0000) / 0x4000;

    let fine: u64 = (var1 + var2) % 0x1_0000_0000;
    fine as u32
}

/// Centi-degree temperature from the fine value; the caller turns it into
/// degrees by a division by one hundred.
pub fn refine_temperature(t_fine: u32) -> (r: u32)
    ensures
        r == spec_refine_temperature(t_fine as int),
{
    let x: u64 = ((t_fine as u64) * 5 + 128) % 0x1_0000_0000;
    (x / 0x100) as u32
}

/// The whole integer pipeline for one sample: the fine temperature from
/// the coefficients and the raw reading, and the centi-degree temperature
/// from it. The fine value is computed once; the pressure and humidity
/// formulas both take this same value.
pub fn compensate_temperature(calib: &CalibrationCoefficients, sample: &RawSample) -> (r: (u32, u32))
    ensures
        r.0 == spec_fine_temperature(
            calib.dig_t1, calib.dig_t2, calib.dig_t3, sample.temperature_raw,
        ),
        r.1 == spec_refine_temperature(r.0 as int),
{
    let t_fine = temperature_fine(calib.dig_t1, calib.dig_t2, calib.dig_t3, sample.temperature_raw);
    let temperature = refine_temperature(t_fine);
    (t_fine, temperature)
}

} // verus!
