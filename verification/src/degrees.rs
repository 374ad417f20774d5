//! Temperature values in Q12 fixed point, and the conversion from a raw
//! 12-bit thermistor reading to a temperature.
//!
//! The thermistor sits in a voltage divider under a known reference resistor,
//! so a raw conversion result `raw` (a fraction of full scale) determines the
//! thermistor resistance as `raw * R1 / (1 - raw)`. Carried out in Q12
//! integer arithmetic that is `(raw * R1 << 12) / ((1 << 12) - raw)`. A
//! two-point linear calibration (through 25 and 50 degrees) then maps
//! resistance to temperature with a negative slope.

use vstd::prelude::*;

verus! {

/// Reference resistor of the voltage divider, in ohms.
pub const R1_OHMS: i64 = 10_000;

/// Calibration slope in Q12, from the two-point fit on the thermistor's
/// resistance-temperature table: -4 * 4096 - 1116, about -4.2725 degrees per
/// kilo-ohm.
pub const SLOPE_Q12: i64 = -17_500;

/// Calibration intercept in Q12: 65 * 4096 + 3084, about 65.753 degrees.
pub const INTERCEPT_Q12: i64 = 269_324;

/// A temperature reading in Q12 fixed point: the value in degrees Celsius is
/// the stored integer divided by 2^12. Representable range is wide, though
/// readings from the 12-bit conversion path stay within a few hundred degrees
/// of zero.
#[derive(PartialEq, Eq, Structural, Clone, Copy, Debug)]
pub struct Degrees(pub i32);

/// Thermistor resistance in Q12 fixed point for the raw reading `raw`,
/// scaled up before the division so the fraction keeps 12 bits of precision.
pub open spec fn resistance_q12(raw: int) -> int {
    (raw * R1_OHMS * 4096) / (4096 - raw)
}

/// The magnitude of the calibration line's slope term after the `/ 1000`
/// (the fit works in kilo-ohms) and the final Q12 shift. Machine division
/// truncates `SLOPE_Q12 * r / 1000` toward zero and the arithmetic shift
/// by 12 floors; on the negative product that is the negated ceiling
/// computed here, written with the Euclidean division of spec arithmetic.
pub open spec fn scaled_slope_term(raw: int) -> int {
    (((-SLOPE_Q12) * resistance_q12(raw)) / 1000 + 4095) / 4096
}

/// The full transfer function: raw 12-bit reading to Q12 temperature.
pub open spec fn convert_q12(raw: int) -> int {
    INTERCEPT_Q12 - scaled_slope_term(raw)
}

impl Degrees {
    /// A Q12 temperature from a whole number of degrees.
    pub fn from_int(val: i32) -> (r: Degrees)
        requires
            -524288 <= val <= 524287,
        ensures
            r.0 == val * 4096,
    {
        Degrees(val * 4096)
    }

    /// Converts a raw 12-bit reading to a temperature through the voltage
    /// divider and the two-point calibration.
    ///
    /// The divisor `4096 - raw` shrinks as `raw` approaches full scale, so
    /// the resistance term, and with it the magnitude of the (negative)
    /// result, grows steeply there; at `raw == 4095` the result is an extreme
    /// but well-defined value, so no saturation step is needed anywhere in
    /// the 12-bit input range. Readings outside 12 bits are excluded: they
    /// would put zero or a negative value in the divisor.
    pub fn from_raw(raw: u16) -> (r: Degrees)
        requires
            raw < 4096,
        ensures
            r.0 == convert_q12(raw as int),
    {
        let num: u64 = (raw as u64) * 10000 * 4096;
        let den: u64 = 4096 - (raw as u64);
        let r_fixed: u64 = num / den;
        proof {
            vstd::arithmetic::div_mod::lemma_div_nonincreasing(num as int, den as int);
        }
        let a: u64 = (17500 * r_fixed) / 1000;
        proof {
            vstd::arithmetic::div_mod::lemma_div_is_ordered(
                17500 * (r_fixed as int),
                17500 * 167_731_200_000int,
                1000,
            );
            vstd::arithmetic::div_mod::lemma_div_is_ordered(
                (a as int) + 4095,
                2_935_296_004_095,
                4096,
            );
        }
        let shifted: u64 = (a + 4095) / 4096;
        let t: i64 = 269324 - (shifted as i64);
        Degrees(t as i32)
    }

    /// The duty-scale view of a temperature: negative readings clamp to zero.
    pub fn to_u32(self) -> (r: u32)
        ensures
            r == if self.0 < 0 { 0int } else { self.0 as int },
    {
        if self.0 < 0 {
            0
        } else {
            self.0 as u32
        }
    }

    /// A temperature back from the duty-scale view, saturating at the
    /// largest representable reading.
    pub fn from_u32(value: u32) -> (r: Degrees)
        ensures
            r.0 == if value > i32::MAX as u32 { i32::MAX as int } else { value as int },
    {
        if value > 0x7fff_ffff {
            Degrees(i32::MAX)
        } else {
            Degrees(value as i32)
        }
    }

    /// The whole-degree part of a reading (floor of the Q12 value).
    pub fn whole_degrees(self) -> (r: i32)
        ensures
            r == self.0 as int / 4096,
    {
        let t: i64 = crate::fixed::div_floor_q12(self.0 as i64);
        proof {
            vstd::arithmetic::div_mod::lemma_div_is_ordered(
                i32::MIN as int,
                self.0 as int,
                4096,
            );
            vstd::arithmetic::div_mod::lemma_div_is_ordered(
                self.0 as int,
                i32::MAX as int,
                4096,
            );
            vstd::arithmetic::div_mod::lemma_fundamental_div_mod_converse(
                i32::MIN as int,
                4096,
                -524288,
                0,
            );
            vstd::arithmetic::div_mod::lemma_fundamental_div_mod_converse(
                i32::MAX as int,
                4096,
                524287,
                4095,
            );
        }
        t as i32
    }
}

/// The temperature model is antitone on the 12-bit input range: a larger raw
/// reading means a larger thermistor resistance, and the calibration slope is
/// negative, so the converted temperature can only fall.
pub proof fn lemma_convert_antitone(c1: int, c2: int)
    requires
        0 <= c1 <= c2 <= 4095,
    ensures
        convert_q12(c2) <= convert_q12(c1),
{
    let n1 = c1 * 10000 * 4096;
    let d1 = 4096 - c1;
    let n2 = c2 * 10000 * 4096;
    let d2 = 4096 - c2;
    assert(n1 * d2 <= n2 * d1) by (nonlinear_arith)
        requires
            0 <= c1 <= c2 <= 4095,
            n1 == c1 * 10000 * 4096,
            d1 == 4096 - c1,
            n2 == c2 * 10000 * 4096,
            d2 == 4096 - c2,
    ;
    crate::fixed::lemma_div_cross_monotone(n1, d1, n2, d2);
    let r1 = resistance_q12(c1);
    let r2 = resistance_q12(c2);
    vstd::arithmetic::div_mod::lemma_div_is_ordered(17500 * r1, 17500 * r2, 1000);
    vstd::arithmetic::div_mod::lemma_div_is_ordered(
        (17500 * r1) / 1000 + 4095,
        (17500 * r2) / 1000 + 4095,
        4096,
    );
}

} // verus!
