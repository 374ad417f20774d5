//! The control-loop coordinator: once per heartbeat period the platform
//! reads the pipeline's current temperature, runs one cycle here, and writes
//! the returned duty to the PWM compare register. The coordinator also keeps
//! the latest temperature/duty pair for status reporting.

use vstd::prelude::*;

use crate::degrees::Degrees;
use crate::fancurve::FanCurve;
use crate::fancurve::curve_output;

verus! {

/// System clock feeding the PWM slice, in hertz.
pub const REF_CLK_HZ: u32 = 125_000_000;

/// Target PWM carrier frequency for the fan output, in hertz.
pub const PWM_TARGET_HZ: u32 = 25_000;

/// PWM clock divider.
pub const PWM_DIV: u32 = 1;

/// PWM counter wrap, `REF_CLK_HZ / PWM_TARGET_HZ / PWM_DIV`: duty-cycle
/// values written to the fan live in `[0, PWM_TICKS]`.
pub const PWM_TICKS: u32 = 5000;

/// Ties the fan curve to the measurement path and remembers the last
/// temperature/duty pair for the status report.
pub struct Coordinator {
    curve: FanCurve,
    current_duty: u16,
    last_temp: Degrees,
}

impl Coordinator {
    /// The configured curve.
    pub closed spec fn curve_of(self) -> FanCurve {
        self.curve
    }

    /// The duty written on the most recent cycle.
    pub closed spec fn duty(self) -> u16 {
        self.current_duty
    }

    /// The temperature seen on the most recent cycle.
    pub closed spec fn temp(self) -> Degrees {
        self.last_temp
    }

    pub open spec fn wf(self) -> bool {
        self.curve_of().wf()
    }

    /// A coordinator that has not run a cycle yet: the fan is left off and
    /// the report pair reads zero.
    pub fn new(curve: FanCurve) -> (r: Coordinator)
        ensures
            r.curve_of() == curve,
            r.duty() == 0,
            r.temp().0 == 0,
    {
        Coordinator { curve, current_duty: 0, last_temp: Degrees(0) }
    }

    /// One control cycle: applies the fan curve to the temperature read
    /// this period, records the pair, and returns the duty for the PWM
    /// write.
    pub fn cycle(&mut self, temp: Degrees) -> (duty: u16)
        ensures
            duty as int == curve_output(
                old(self).curve_of().slope(),
                old(self).curve_of().intercept(),
                old(self).curve_of().duty_ceiling() as int,
                old(self).curve_of().duty_floor() as int,
                temp.0 as int,
            ),
            final(self).curve_of() == old(self).curve_of(),
            final(self).temp() == temp,
            final(self).duty() == duty,
            old(self).wf() ==> old(self).curve_of().duty_floor() <= duty <= old(
                self,
            ).curve_of().duty_ceiling(),
    {
        let duty: u16 = self.curve.fan_curve(temp);
        self.last_temp = temp;
        self.current_duty = duty;
        duty
    }

    /// The latest temperature/duty pair, for the report channel.
    pub fn status(&self) -> (r: (Degrees, u16))
        ensures
            r.0 == self.temp(),
            r.1 == self.duty(),
    {
        (self.last_temp, self.current_duty)
    }
}

} // verus!
