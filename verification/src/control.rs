//! The PID law: a proportional, an integral and a derivative term, each
//! limited on its own, summed into one output.
//!
//! The limit of the integral term bears on the term alone. The running sum
//! behind it goes on past the point where the term is at its limit, and
//! stops only at [`ACCUMULATOR_LIMIT`], far beyond what a vehicle gathers in
//! years.
use vstd::prelude::*;
use crate::fixed::{clamp, clamp_symmetric, div_toward_zero, scale_and_limit, GAIN_ONE,
    TICKS_PER_SECOND};
use crate::speed::PidConstants;

verus! {

/// The running sum of error over time is held within this distance of zero.
/// It is counted in speed units times ticks.
pub const ACCUMULATOR_LIMIT: i128 = 10_000_000_000_000_000_000_000_000_000;

/// The error of a step is the difference of two 64-bit speeds: it is
/// nearer to zero than this.
const ERROR_BOUND: i128 = 0x1_0000_0000_0000_0000;

/// What a PID core is, as mathematical integers.
pub struct PidModel {
    /// Gains and limits.
    pub constants: PidConstants,
    /// The speed to reach.
    pub setpoint: int,
    /// Sum over all steps of error times elapsed ticks.
    pub integral_accumulator: int,
    /// Error of the latest step, zero before the first.
    pub previous_error: int,
}

impl PidModel {
    /// A core that has not stepped yet: setpoint zero, nothing accumulated.
    pub open spec fn initial(constants: PidConstants) -> PidModel {
        PidModel { constants, setpoint: 0, integral_accumulator: 0, previous_error: 0 }
    }

    /// The same core with another setpoint.
    pub open spec fn with_setpoint(self, setpoint: int) -> PidModel {
        PidModel { setpoint, ..self }
    }

    /// How far the measured speed is below the setpoint.
    pub open spec fn error(self, measured: int) -> int {
        self.setpoint - measured
    }

    /// The proportional term: gain times error, limited.
    pub open spec fn proportional(self, measured: int) -> int {
        clamp_symmetric(
            div_toward_zero(self.constants.kp * self.error(measured), GAIN_ONE as int),
            self.constants.p_limit as int,
        )
    }

    /// The accumulator after a step that lasted `dt` ticks.
    pub open spec fn accumulated(self, measured: int, dt: int) -> int {
        clamp(
            self.integral_accumulator + self.error(measured) * dt,
            -ACCUMULATOR_LIMIT,
            ACCUMULATOR_LIMIT as int,
        )
    }

    /// The integral term: gain times the accumulator after the step, in
    /// seconds, limited. The limit bears on the term, not on the
    /// accumulator.
    pub open spec fn integral(self, measured: int, dt: int) -> int {
        clamp_symmetric(
            div_toward_zero(
                self.constants.ki * self.accumulated(measured, dt),
                GAIN_ONE * TICKS_PER_SECOND,
            ),
            self.constants.i_limit as int,
        )
    }

    /// The derivative term: gain times the change of error per second,
    /// limited.
    pub open spec fn derivative(self, measured: int, dt: int) -> int
        recommends
            dt > 0,
    {
        clamp_symmetric(
            div_toward_zero(
                self.constants.kd * (self.error(measured) - self.previous_error)
                    * TICKS_PER_SECOND,
                GAIN_ONE * dt,
            ),
            self.constants.d_limit as int,
        )
    }

    /// The control output of a step: the sum of the three terms.
    pub open spec fn output(self, measured: int, dt: int) -> int
        recommends
            dt > 0,
    {
        self.proportional(measured) + self.integral(measured, dt) + self.derivative(measured, dt)
    }

    /// The core after a step.
    pub open spec fn step(self, measured: int, dt: int) -> PidModel {
        PidModel {
            integral_accumulator: self.accumulated(measured, dt),
            previous_error: self.error(measured),
            ..self
        }
    }
}

/// The output of a step is never further from zero than the three limits
/// together.
pub proof fn lemma_output_within_limits(m: PidModel, measured: int, dt: int)
    ensures
        -(m.constants.p_limit + m.constants.i_limit + m.constants.d_limit) <= m.output(
            measured,
            dt,
        ) <= m.constants.p_limit + m.constants.i_limit + m.constants.d_limit,
{
}

/// A PID compute engine with a limit on each term.
#[derive(Clone, Copy, Debug)]
pub struct PidCore {
    constants: PidConstants,
    setpoint: i64,
    integral_accumulator: i128,
    previous_error: i128,
}

impl View for PidCore {
    type V = PidModel;

    closed spec fn view(&self) -> PidModel {
        PidModel {
            constants: self.constants,
            setpoint: self.setpoint as int,
            integral_accumulator: self.integral_accumulator as int,
            previous_error: self.previous_error as int,
        }
    }
}

/// `acc + error * dt`, held within the accumulator's limit.
fn accumulate(acc: i128, error: i128, dt: u64) -> (r: i128)
    requires
        -ACCUMULATOR_LIMIT <= acc <= ACCUMULATOR_LIMIT,
        -ERROR_BOUND < error < ERROR_BOUND,
    ensures
        r == clamp(acc + error * dt, -ACCUMULATOR_LIMIT, ACCUMULATOR_LIMIT as int),
    no_unwind
{
    let size: u128 = if error < 0 {
        (-error) as u128
    } else {
        error as u128
    };
    assert(size * dt <= 0xffff_ffff_ffff_ffff * 0xffff_ffff_ffff_ffff) by (nonlinear_arith)
        requires
            size <= 0xffff_ffff_ffff_ffff,
            dt <= 0xffff_ffff_ffff_ffff,
    ;
    let area: u128 = size * (dt as u128);
    assert(error * dt == if error < 0 {
        -(size * dt)
    } else {
        size * dt
    }) by (nonlinear_arith)
        requires
            size == if error < 0 {
                -error
            } else {
                error as int
            },
    ;
    if area > 2 * (ACCUMULATOR_LIMIT as u128) {
        if error < 0 {
            -ACCUMULATOR_LIMIT
        } else {
            ACCUMULATOR_LIMIT
        }
    } else {
        let sum: i128 = if error < 0 {
            acc - area as i128
        } else {
            acc + area as i128
        };
        if sum > ACCUMULATOR_LIMIT {
            ACCUMULATOR_LIMIT
        } else if sum < -ACCUMULATOR_LIMIT {
            -ACCUMULATOR_LIMIT
        } else {
            sum
        }
    }
}

impl PidCore {
    #[verifier::type_invariant]
    spec fn inv(self) -> bool {
        &&& -ACCUMULATOR_LIMIT <= self.integral_accumulator <= ACCUMULATOR_LIMIT
        &&& -ERROR_BOUND < self.previous_error < ERROR_BOUND
    }

    /// A core with the given gains and limits, setpoint zero and nothing
    /// accumulated.
    pub fn new(constants: PidConstants) -> (core: PidCore)
        ensures
            core@ == PidModel::initial(constants),
        no_unwind
    {
        PidCore { constants, setpoint: 0, integral_accumulator: 0, previous_error: 0 }
    }

    /// The gains and limits.
    pub fn constants(&self) -> (c: PidConstants)
        ensures
            c == self@.constants,
        no_unwind
    {
        self.constants
    }

    /// The speed to reach.
    pub fn setpoint(&self) -> (s: i64)
        ensures
            s == self@.setpoint,
        no_unwind
    {
        self.setpoint
    }

    /// Sum over all steps of error times elapsed ticks.
    pub fn integral_accumulator(&self) -> (acc: i128)
        ensures
            acc == self@.integral_accumulator,
            -ACCUMULATOR_LIMIT <= acc <= ACCUMULATOR_LIMIT,
        no_unwind
    {
        proof {
            use_type_invariant(self);
        }
        self.integral_accumulator
    }

    /// Error of the latest step, zero before the first.
    pub fn previous_error(&self) -> (e: i128)
        ensures
            e == self@.previous_error,
        no_unwind
    {
        self.previous_error
    }

    /// Changes the speed to reach and nothing else.
    pub fn set_setpoint(&mut self, setpoint: i64)
        ensures
            final(self)@ == old(self)@.with_setpoint(setpoint as int),
        no_unwind
    {
        proof {
            use_type_invariant(&*self);
        }
        self.setpoint = setpoint;
    }

    /// One control step: takes the speed measured `dt` ticks after the
    /// step before, and gives the control output.
    ///
    /// The error is the setpoint less the measured speed. It is added to
    /// the accumulator in proportion to `dt`, and its change since the
    /// step before is taken per second, so that steps of any length may
    /// follow one another. Each of the three terms is limited on its own;
    /// their sum is not limited again.
    pub fn step(&mut self, measured: i64, dt: u64) -> (out: i64)
        requires
            dt > 0,
        ensures
            final(self)@ == old(self)@.step(measured as int, dt as int),
            out == old(self)@.output(measured as int, dt as int),
        no_unwind
    {
        proof {
            use_type_invariant(&*self);
        }
        let c: PidConstants = self.constants;
        let error: i128 = self.setpoint as i128 - measured as i128;
        let acc: i128 = accumulate(self.integral_accumulator, error, dt);
        let change: i128 = error - self.previous_error;

        assert(-0x8000_0000 * ERROR_BOUND <= c.kp * error <= 0x8000_0000 * ERROR_BOUND)
            by (nonlinear_arith)
            requires
                -0x8000_0000 <= c.kp <= 0x8000_0000,
                -ERROR_BOUND <= error <= ERROR_BOUND,
        ;
        let p: i64 = scale_and_limit(c.kp as i128 * error, GAIN_ONE as i128, c.p_limit);

        assert(-0x8000_0000 * ACCUMULATOR_LIMIT <= c.ki * acc <= 0x8000_0000 * ACCUMULATOR_LIMIT)
            by (nonlinear_arith)
            requires
                -0x8000_0000 <= c.ki <= 0x8000_0000,
                -ACCUMULATOR_LIMIT <= acc <= ACCUMULATOR_LIMIT,
        ;
        let i: i64 = scale_and_limit(
            c.ki as i128 * acc,
            GAIN_ONE as i128 * TICKS_PER_SECOND as i128,
            c.i_limit,
        );

        assert(-0x8000_0000 * (2 * ERROR_BOUND) <= c.kd * change <= 0x8000_0000 * (2
            * ERROR_BOUND)) by (nonlinear_arith)
            requires
                -0x8000_0000 <= c.kd <= 0x8000_0000,
                -2 * ERROR_BOUND <= change <= 2 * ERROR_BOUND,
        ;
        let d: i64 = scale_and_limit(
            c.kd as i128 * change * TICKS_PER_SECOND as i128,
            GAIN_ONE as i128 * dt as i128,
            c.d_limit,
        );

        self.integral_accumulator = acc;
        self.previous_error = error;
        p + i + d
    }
}

} // verus!
