use vstd::prelude::*;

use crate::quantity::VALUE_LIMIT;

verus! {

/// Fixed-point scale of a gain: a gain of 1.0 is written 1000.
pub const GAIN_SCALE: i64 = 1000;

/// Largest magnitude of a gain (1000.0).
pub const GAIN_LIMIT: i64 = 1_000_000;

/// Output scale written in thousandths: full output.
pub const SCALE_FULL: u64 = 1000;

/// Output scale written in thousandths: de-rated output (0.5).
pub const SCALE_DEGRADED: u64 = 500;

/// Longest sampling period the controller accepts, in microseconds (one second).
pub const DT_LIMIT: u64 = 1_000_000;

/// Range of the integral accumulator, in value steps times microseconds:
/// the accumulator saturates there instead of overflowing.
pub const INTEGRAL_LIMIT: i128 = 1_000_000_000_000_000_000_000;

/// `x` held to `[-lim, lim]`.
pub open spec fn clamp(x: int, lim: int) -> int {
    if x > lim {
        lim
    } else if x < -lim {
        -lim
    } else {
        x
    }
}

/// Integer division rounding towards zero, for a positive divisor.
pub open spec fn trunc_div(n: int, d: int) -> int {
    if n >= 0 {
        n / d
    } else {
        -((-n) / d)
    }
}

/// The control effort for error `e`, previous error `prev`, accumulated
/// integral `integral` (already including this step), period `dt` in
/// microseconds and output scale `scale` in thousandths.
///
/// With gains in thousandths, the value is
/// `(kp*e + ki*integral/10^6 + kd*(e - prev)*10^6/dt) * scale / 10^6`,
/// rounded towards zero once at the end.
pub open spec fn effort(
    kp: int,
    ki: int,
    kd: int,
    integral: int,
    e: int,
    prev: int,
    dt: int,
    scale: int,
) -> int {
    trunc_div(
        (kp * e * dt * 1_000_000 + ki * integral * dt + kd * (e - prev) * 1_000_000_000_000) * scale,
        dt * 1_000_000_000_000,
    )
}

/// A PID control law with its running state.
#[derive(Debug, Clone, Copy, PartialEq, Eq)]
pub struct PidController {
    pub kp: i64,
    pub ki: i64,
    pub kd: i64,
    pub integral: i128,
    pub prev_error: i64,
}

impl PidController {
    /// Gains within range and state within what `compute` can produce.
    pub open spec fn wf(&self) -> bool {
        &&& -GAIN_LIMIT <= self.kp <= GAIN_LIMIT
        &&& -GAIN_LIMIT <= self.ki <= GAIN_LIMIT
        &&& -GAIN_LIMIT <= self.kd <= GAIN_LIMIT
        &&& -INTEGRAL_LIMIT <= self.integral <= INTEGRAL_LIMIT
        &&& -2 * VALUE_LIMIT <= self.prev_error <= 2 * VALUE_LIMIT
    }

    /// The controller after an evaluation with error `e` over period `dt`.
    pub open spec fn stepped(self, e: int, dt: int) -> PidController {
        PidController {
            integral: clamp(self.integral + e * dt, INTEGRAL_LIMIT as int) as i128,
            prev_error: e as i64,
            ..self
        }
    }

    /// The effort of an evaluation with error `e`, period `dt` and output
    /// scale `scale`.
    pub open spec fn output(self, e: int, dt: int, scale: int) -> int {
        effort(
            self.kp as int,
            self.ki as int,
            self.kd as int,
            clamp(self.integral + e * dt, INTEGRAL_LIMIT as int),
            e,
            self.prev_error as int,
            dt,
            scale,
        )
    }

    /// A controller with the given gains (in thousandths) and no history.
    pub fn new(kp: i64, ki: i64, kd: i64) -> (r: Self)
        requires
            -GAIN_LIMIT <= kp <= GAIN_LIMIT,
            -GAIN_LIMIT <= ki <= GAIN_LIMIT,
            -GAIN_LIMIT <= kd <= GAIN_LIMIT,
        ensures
            r.wf(),
            r == (PidController { kp, ki, kd, integral: 0, prev_error: 0 }),
    {
        PidController { kp, ki, kd, integral: 0, prev_error: 0 }
    }

    /// One evaluation of the control law towards `target` from `current`.
    ///
    /// The error `target - current` times `dt` is added to the integral,
    /// the error becomes the previous error, and the scaled effort is returned.
    pub fn compute(&mut self, target: i64, current: i64, dt: u64, scale: u64) -> (r: i128)
        requires
            old(self).wf(),
            -VALUE_LIMIT <= target <= VALUE_LIMIT,
            -VALUE_LIMIT <= current <= VALUE_LIMIT,
            1 <= dt <= DT_LIMIT,
            scale <= SCALE_FULL,
        ensures
            final(self).wf(),
            *final(self) == old(self).stepped(target - current, dt as int),
            r == old(self).output(target - current, dt as int, scale as int),
    {
        let error: i64 = target - current;
        let e: i128 = error as i128;
        let d: i128 = dt as i128;
        proof {
            lemma_mul_abs_le(e as int, d as int, 2 * VALUE_LIMIT as int, DT_LIMIT as int);
        }
        let step: i128 = e * d;
        let sum: i128 = self.integral + step;
        let integral: i128 = if sum > INTEGRAL_LIMIT {
            INTEGRAL_LIMIT
        } else if sum < -INTEGRAL_LIMIT {
            -INTEGRAL_LIMIT
        } else {
            sum
        };
        let kp: i128 = self.kp as i128;
        let ki: i128 = self.ki as i128;
        let kd: i128 = self.kd as i128;
        let prev: i128 = self.prev_error as i128;
        let diff: i128 = e - prev;
        proof {
            lemma_mul_abs_le(kp as int, e as int, GAIN_LIMIT as int, 2 * VALUE_LIMIT as int);
            lemma_mul_abs_le(kp * e, d as int, GAIN_LIMIT * 2 * VALUE_LIMIT, DT_LIMIT as int);
            lemma_mul_abs_le(ki as int, integral as int, GAIN_LIMIT as int, INTEGRAL_LIMIT as int);
            lemma_mul_abs_le(ki * integral, d as int, GAIN_LIMIT * INTEGRAL_LIMIT, DT_LIMIT as int);
            lemma_mul_abs_le(kd as int, diff as int, GAIN_LIMIT as int, 4 * VALUE_LIMIT as int);
        }
        let p_term: i128 = kp * e * d * 1_000_000;
        let i_term: i128 = ki * integral * d;
        let d_term: i128 = kd * diff * 1_000_000_000_000;
        let total: i128 = p_term + i_term + d_term;
        proof {
            lemma_mul_abs_le(total as int, scale as int, 1_020_000_000_000_000_000_000_000_000_000_000, SCALE_FULL as int);
        }
        let scaled: i128 = total * (scale as i128);
        let den: i128 = d * 1_000_000_000_000;
        let out: i128 = if scaled >= 0 {
            scaled / den
        } else {
            -((-scaled) / den)
        };
        self.integral = integral;
        self.prev_error = error;
        out
    }
}

/// Zero error on a fresh controller gives zero output: with no integral and
/// no previous error, `output(0, dt, scale)` is 0 for any gains, period and
/// scale, and the state stays at zero.
pub proof fn lemma_fresh_zero_error(kp: i64, ki: i64, kd: i64, dt: int, scale: int)
    requires
        dt >= 1,
    ensures
        (PidController { kp, ki, kd, integral: 0, prev_error: 0 }).output(0, dt, scale) == 0,
        (PidController { kp, ki, kd, integral: 0, prev_error: 0 }).stepped(0, dt) == (PidController {
            kp,
            ki,
            kd,
            integral: 0,
            prev_error: 0,
        }),
{
    assert(kp * 0 * dt * 1_000_000 + ki * 0 * dt + kd * (0 - 0) * 1_000_000_000_000 == 0) by (nonlinear_arith);
    assert(0 * scale == 0);
    assert(0 * dt == 0);
    assert(0int / (dt * 1_000_000_000_000) == 0) by (nonlinear_arith)
        requires
            dt >= 1,
    ;
}

/// `|a * b| <= x * y` whenever `|a| <= x` and `|b| <= y`.
proof fn lemma_mul_abs_le(a: int, b: int, x: int, y: int)
    requires
        -x <= a <= x,
        -y <= b <= y,
    ensures
        -(x * y) <= a * b <= x * y,
{
    assert(-(x * y) <= a * b <= x * y) by (nonlinear_arith)
        requires
            -x <= a <= x,
            -y <= b <= y,
    ;
}

} // verus!
