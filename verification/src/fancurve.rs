//! The proportional fan-curve controller: a linear fit from temperature to
//! PWM duty, cached as a Q12 slope and intercept at construction, evaluated
//! with saturation at the configured duty bounds.
//!
//! The final Q12 shift of the evaluation rounds to nearest rather than
//! flooring, so that the fit passes exactly through both calibration points:
//! `fan_curve(min_temp) == min_duty` and `fan_curve(max_temp) == max_duty`.

use vstd::prelude::*;

use crate::degrees::Degrees;

verus! {

/// The cached slope of the fit: `(max_duty - min_duty) * 2^24` over the Q12
/// temperature span, i.e. duty per degree, carried in Q12.
pub open spec fn curve_slope(max_duty: int, min_duty: int, max_temp: int, min_temp: int) -> int {
    (max_duty - min_duty) * 16777216 / (max_temp - min_temp)
}

/// The cached intercept, in Q12 duty units: picked so the line passes
/// through `(min_temp, min_duty)`.
pub open spec fn curve_intercept(
    max_duty: int,
    min_duty: int,
    max_temp: int,
    min_temp: int,
) -> int {
    min_duty * 4096 - (curve_slope(max_duty, min_duty, max_temp, min_temp) * min_temp) / 4096
}

/// The unclamped curve value at temperature `t` (Q12), for slope `m` and
/// intercept `b`: the slope term floors the Q12 shift, the final shift
/// rounds to nearest.
pub open spec fn curve_eval(m: int, b: int, t: int) -> int {
    ((m * t) / 4096 + b + 2048) / 4096
}

/// The curve value clamped to the configured duty bounds.
pub open spec fn curve_output(m: int, b: int, max_duty: int, min_duty: int, t: int) -> int {
    let d = curve_eval(m, b, t);
    if d > max_duty {
        max_duty
    } else if d < min_duty {
        min_duty
    } else {
        d
    }
}

/// What a fan curve can be built from: ordered duty bounds, an increasing
/// temperature span inside the nominal Q12 range of plus or minus 128
/// degrees, and a slope and intercept that fit the controller's 32-bit
/// cache — parameters whose coefficients would overflow it are excluded.
pub open spec fn params_valid(
    max_duty: u16,
    min_duty: u16,
    max_temp: Degrees,
    min_temp: Degrees,
) -> bool {
    &&& min_duty <= max_duty
    &&& min_temp.0 < max_temp.0
    &&& -524288 <= min_temp.0
    &&& max_temp.0 <= 524288
    &&& curve_slope(max_duty as int, min_duty as int, max_temp.0 as int, min_temp.0 as int)
        <= i32::MAX
    &&& i32::MIN
        <= curve_intercept(max_duty as int, min_duty as int, max_temp.0 as int, min_temp.0 as int)
        <= i32::MAX
}

/// State and cached coefficients of the proportional controller.
pub struct FanCurve {
    /// The duty returned at and above the high saturation temperature.
    pub max_duty: u16,
    min_duty: u16,
    m: i32,
    b: i32,
}

impl FanCurve {
    /// The cached slope.
    pub closed spec fn slope(self) -> int {
        self.m as int
    }

    /// The cached intercept.
    pub closed spec fn intercept(self) -> int {
        self.b as int
    }

    /// The duty returned at and below the low saturation temperature.
    pub closed spec fn duty_floor(self) -> u16 {
        self.min_duty
    }

    /// The duty returned at and above the high saturation temperature.
    pub closed spec fn duty_ceiling(self) -> u16 {
        self.max_duty
    }

    /// The duty bounds are ordered.
    pub open spec fn wf(self) -> bool {
        self.duty_floor() <= self.duty_ceiling()
    }

    /// Builds the controller, caching the curve fit so evaluation never
    /// recomputes it.
    pub fn new(max_duty: u16, min_duty: u16, max_temp: Degrees, min_temp: Degrees) -> (r:
        FanCurve)
        requires
            params_valid(max_duty, min_duty, max_temp, min_temp),
        ensures
            r.duty_ceiling() == max_duty,
            r.duty_floor() == min_duty,
            r.slope() == curve_slope(
                max_duty as int,
                min_duty as int,
                max_temp.0 as int,
                min_temp.0 as int,
            ),
            r.intercept() == curve_intercept(
                max_duty as int,
                min_duty as int,
                max_temp.0 as int,
                min_temp.0 as int,
            ),
            r.wf(),
    {
        let diff: u16 = max_duty - min_duty;
        let span: i64 = (max_temp.0 as i64) - (min_temp.0 as i64);
        let slope: i64 = ((diff as i64) * 16777216) / span;
        proof {
            vstd::arithmetic::div_mod::lemma_div_pos_is_pos(
                (diff as int) * 16777216,
                span as int,
            );
        }
        let scaled_min: i64 = crate::fixed::div_floor_q12(slope * (min_temp.0 as i64));
        let b64: i64 = (min_duty as i64) * 4096 - scaled_min;
        FanCurve { max_duty, min_duty, m: slope as i32, b: b64 as i32 }
    }

    /// Evaluates the configured curve at `temp` and clamps the result to the
    /// duty bounds.
    pub fn fan_curve(&mut self, temp: Degrees) -> (r: u16)
        ensures
            *final(self) == *old(self),
            r as int == curve_output(
                old(self).slope(),
                old(self).intercept(),
                old(self).duty_ceiling() as int,
                old(self).duty_floor() as int,
                temp.0 as int,
            ),
            old(self).wf() ==> old(self).duty_floor() <= r <= old(self).duty_ceiling(),
    {
        proof {
            assert(-0x4000_0000_0000_0000 <= (self.m as int) * (temp.0 as int)
                <= 0x4000_0000_0000_0000) by (nonlinear_arith)
                requires
                    -0x8000_0000 <= self.m <= 0x7fff_ffff,
                    -0x8000_0000 <= temp.0 <= 0x7fff_ffff,
            ;
        }
        let scaled: i64 = crate::fixed::div_floor_q12((self.m as i64) * (temp.0 as i64));
        let desired: i64 = crate::fixed::div_floor_q12(scaled + (self.b as i64) + 2048);
        if desired > self.max_duty as i64 {
            self.max_duty
        } else if desired < self.min_duty as i64 {
            self.min_duty
        } else {
            desired as u16
        }
    }
}

/// Law of the fan curve: with valid parameters the cached fit passes exactly
/// through both configuration points, so evaluation returns `min_duty` at
/// `min_temp` and `max_duty` at `max_temp` — the clamp never has to correct
/// a rounding overshoot at the endpoints.
pub proof fn lemma_curve_exact_at_endpoints(
    max_duty: u16,
    min_duty: u16,
    max_temp: Degrees,
    min_temp: Degrees,
)
    requires
        params_valid(max_duty, min_duty, max_temp, min_temp),
    ensures
        curve_output(
            curve_slope(max_duty as int, min_duty as int, max_temp.0 as int, min_temp.0 as int),
            curve_intercept(
                max_duty as int,
                min_duty as int,
                max_temp.0 as int,
                min_temp.0 as int,
            ),
            max_duty as int,
            min_duty as int,
            min_temp.0 as int,
        ) == min_duty,
        curve_output(
            curve_slope(max_duty as int, min_duty as int, max_temp.0 as int, min_temp.0 as int),
            curve_intercept(
                max_duty as int,
                min_duty as int,
                max_temp.0 as int,
                min_temp.0 as int,
            ),
            max_duty as int,
            min_duty as int,
            max_temp.0 as int,
        ) == max_duty,
{
    let maxd = max_duty as int;
    let mind = min_duty as int;
    let t1 = min_temp.0 as int;
    let t2 = max_temp.0 as int;
    let diff = maxd - mind;
    let span = t2 - t1;
    let m = curve_slope(maxd, mind, t2, t1);
    let b = curve_intercept(maxd, mind, t2, t1);
    let s1 = (m * t1) / 4096;
    let s2 = (m * t2) / 4096;
    let r1 = (m * t1) % 4096;
    let r2 = (m * t2) % 4096;
    let rho = (diff * 16777216) % span;

    vstd::arithmetic::div_mod::lemma_fundamental_div_mod(m * t1, 4096);
    vstd::arithmetic::div_mod::lemma_mod_bound(m * t1, 4096);
    vstd::arithmetic::div_mod::lemma_fundamental_div_mod(m * t2, 4096);
    vstd::arithmetic::div_mod::lemma_mod_bound(m * t2, 4096);
    vstd::arithmetic::div_mod::lemma_fundamental_div_mod(diff * 16777216, span);
    vstd::arithmetic::div_mod::lemma_mod_bound(diff * 16777216, span);

    // The line at min_temp: b cancels the slope term back to min_duty.
    assert(s1 + b + 2048 == mind * 4096 + 2048);
    vstd::arithmetic::div_mod::lemma_fundamental_div_mod_converse(
        mind * 4096 + 2048,
        4096,
        mind,
        2048,
    );
    assert(curve_eval(m, b, t1) == mind);

    // The slope term difference across the span, exactly.
    assert(m * t2 - m * t1 == m * span) by (nonlinear_arith)
        requires
            span == t2 - t1,
    ;
    assert(4096 * (s2 - s1) == m * span + r1 - r2);
    assert(m * span == diff * 16777216 - rho);

    // The rounded shift of the difference lands exactly on diff * 4096.
    let rem = s2 - s1 + 2048 - diff * 4096;
    assert(4096 * rem == r1 - r2 - rho + 8388608);
    assert(0 <= rem < 4096);
    assert(s2 + b + 2048 == (mind + diff) * 4096 + rem) by (nonlinear_arith)
        requires
            s2 + b + 2048 == mind * 4096 + (s2 - s1) + 2048,
            rem == s2 - s1 + 2048 - diff * 4096,
    ;
    vstd::arithmetic::div_mod::lemma_fundamental_div_mod_converse(
        s2 + b + 2048,
        4096,
        mind + diff,
        rem,
    );
    assert(curve_eval(m, b, t2) == maxd);
}

} // verus!
