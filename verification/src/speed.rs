//! The controller that the pose feed and the setpoint feed drive.
//!
//! A controller is one value behind an exclusive reference: a call that
//! changes it sees the whole of what the call before left, and nothing can
//! run in between.
use vstd::prelude::*;
use crate::control::{lemma_output_within_limits, PidCore, PidModel};
use crate::fixed::{GAIN_ONE, TICKS_PER_SECOND};
use crate::velocity::{calc_speed_from_pose, displacement, elapsed_spec, speed_spec, PoseSample};

verus! {

/// Gains and limits of the control law. They are fixed when a controller is
/// made.
///
/// A limit is a distance from zero, so it has no sign. Gains and limits are
/// 32 bits wide, so that every product of the control law fits in 128 bits
/// and every output in 64.
#[derive(Clone, Copy, Debug, PartialEq, Eq, Structural)]
pub struct PidConstants {
    /// Proportional gain, in parts of `GAIN_ONE`.
    pub kp: i32,
    /// Integral gain, in parts of `GAIN_ONE`.
    pub ki: i32,
    /// Derivative gain, in parts of `GAIN_ONE`.
    pub kd: i32,
    /// The proportional term stays within this distance of zero.
    pub p_limit: u32,
    /// The integral term stays within this distance of zero.
    pub i_limit: u32,
    /// The derivative term stays within this distance of zero.
    pub d_limit: u32,
}

/// What a controller is, as mathematical values.
pub struct ControllerModel {
    /// The PID core.
    pub pid: PidModel,
    /// The pose taken last, if any was.
    pub last_sample: Option<PoseSample>,
    /// The speed that a command to move stands for.
    pub constant_speed: int,
    /// Whether the vehicle's axis points backward.
    pub invert_direction: bool,
    /// The output that the latest pose gave; zero before the first.
    pub last_output: int,
}

impl ControllerModel {
    /// A controller that has taken neither a command nor a pose.
    pub open spec fn initial(constants: PidConstants, constant_speed: int) -> ControllerModel {
        ControllerModel {
            pid: PidModel::initial(constants),
            last_sample: None,
            constant_speed,
            invert_direction: false,
            last_output: 0,
        }
    }

    /// How far from zero an output can be: the three limits together.
    pub open spec fn output_bound(self) -> int {
        self.pid.constants.p_limit + self.pid.constants.i_limit + self.pid.constants.d_limit
    }

    /// The latest output is within the three limits together. This holds of
    /// every controller, and each command and each pose keeps it.
    pub open spec fn bounded(self) -> bool {
        -self.output_bound() <= self.last_output <= self.output_bound()
    }

    /// The setpoint that a command stands for: the constant speed ahead for
    /// a positive command, the constant speed back for a negative one, and
    /// a halt for zero and for a command that is no number.
    pub open spec fn commanded_speed(self, input: Option<i64>) -> int {
        match input {
            Some(v) => if v > 0 {
                self.constant_speed
            } else if v < 0 {
                -self.constant_speed
            } else {
                0
            },
            None => 0,
        }
    }

    /// The controller after a command: the setpoint changes, nothing else.
    pub open spec fn after_setpoint(self, input: Option<i64>) -> ControllerModel {
        ControllerModel { pid: self.pid.with_setpoint(self.commanded_speed(input)), ..self }
    }

    /// The output that a pose gives.
    ///
    /// The first pose gives zero. A pose that is not stamped after the one
    /// before gives the latest output again. Any other pose gives the
    /// output of one PID step on the speed estimated from the two poses.
    pub open spec fn pose_output(self, pose: PoseSample, course: int) -> int {
        match self.last_sample {
            None => 0,
            Some(prev) => if elapsed_spec(prev, pose) > 0 {
                self.pid.output(
                    speed_spec(prev, pose, course, self.invert_direction),
                    elapsed_spec(prev, pose),
                )
            } else {
                self.last_output
            },
        }
    }

    /// The controller after a pose. The pose is kept in every case; the PID
    /// core steps only where the pose is stamped after the one before.
    pub open spec fn after_pose(self, pose: PoseSample, course: int) -> ControllerModel {
        let pid = match self.last_sample {
            None => self.pid,
            Some(prev) => if elapsed_spec(prev, pose) > 0 {
                self.pid.step(
                    speed_spec(prev, pose, course, self.invert_direction),
                    elapsed_spec(prev, pose),
                )
            } else {
                self.pid
            },
        };
        ControllerModel {
            pid,
            last_sample: Some(pose),
            last_output: self.pose_output(pose, course),
            ..self
        }
    }
}

/// Tracks a commanded speed from a stream of poses.
#[derive(Clone, Copy, Debug)]
pub struct SpeedPidController {
    pid: PidCore,
    prev_pose: Option<PoseSample>,
    constant_speed: i32,
    invert_direction: bool,
    last_output: i64,
}

impl View for SpeedPidController {
    type V = ControllerModel;

    closed spec fn view(&self) -> ControllerModel {
        ControllerModel {
            pid: self.pid@,
            last_sample: self.prev_pose,
            constant_speed: self.constant_speed as int,
            invert_direction: self.invert_direction,
            last_output: self.last_output as int,
        }
    }
}

impl SpeedPidController {
    #[verifier::type_invariant]
    spec fn inv(self) -> bool {
        self@.bounded()
    }

    /// Create a new controller: setpoint zero, no pose taken, nothing
    /// accumulated, the vehicle's axis pointing forward.
    pub fn new(c: PidConstants, constant_speed: i32) -> (controller: Self)
        ensures
            controller@ == ControllerModel::initial(c, constant_speed as int),
        no_unwind
    {
        Self {
            pid: PidCore::new(c),
            prev_pose: None,
            constant_speed,
            invert_direction: false,
            last_output: 0,
        }
    }

    /// The same controller for a vehicle whose axis points backward when
    /// `invert` is set, so that forward and backward change places.
    pub fn with_invert_direction(self, invert: bool) -> (controller: Self)
        ensures
            controller@ == (ControllerModel { invert_direction: invert, ..self@ }),
        no_unwind
    {
        proof {
            use_type_invariant(&self);
        }
        Self {
            pid: self.pid,
            prev_pose: self.prev_pose,
            constant_speed: self.constant_speed,
            invert_direction: invert,
            last_output: self.last_output,
        }
    }

    /// The speed that the controller is driving toward.
    pub fn setpoint(&self) -> (s: i64)
        ensures
            s == self@.pid.setpoint,
        no_unwind
    {
        self.pid.setpoint()
    }

    /// The PID core, as it stands.
    pub fn pid(&self) -> (core: PidCore)
        ensures
            core@ == self@.pid,
        no_unwind
    {
        self.pid
    }

    /// The pose taken last, if any was.
    pub fn last_sample(&self) -> (sample: Option<PoseSample>)
        ensures
            sample == self@.last_sample,
        no_unwind
    {
        self.prev_pose
    }

    /// The output that the latest pose gave; zero before the first.
    pub fn last_output(&self) -> (out: i64)
        ensures
            out == self@.last_output,
            self@.bounded(),
        no_unwind
    {
        proof {
            use_type_invariant(self);
        }
        self.last_output
    }

    /// The speed that a command to move stands for.
    pub fn constant_speed(&self) -> (speed: i32)
        ensures
            speed == self@.constant_speed,
        no_unwind
    {
        self.constant_speed
    }

    /// Whether the vehicle's axis is taken to point backward.
    pub fn invert_direction(&self) -> (invert: bool)
        ensures
            invert == self@.invert_direction,
        no_unwind
    {
        self.invert_direction
    }

    /// The step along each axis from the pose taken last to `pose`: what
    /// the course handed to [`Self::update_pose`] is the angle of. `None`
    /// before the first pose.
    pub fn displacement_to(&self, pose: &PoseSample) -> (d: Option<(i64, i64)>)
        ensures
            self@.last_sample is None ==> d is None,
            self@.last_sample matches Some(prev) ==> d == Some(
                ((pose.x - prev.x) as i64, (pose.y - prev.y) as i64),
            ),
        no_unwind
    {
        match &self.prev_pose {
            None => None,
            Some(prev) => Some(displacement(prev, pose)),
        }
    }

    /// Update the setpoint from a command.
    ///
    /// Only the sign of the command counts: a positive one asks for the
    /// constant speed ahead, a negative one for the constant speed back,
    /// zero for a halt. `None` is a command that is no number, and asks
    /// for a halt too. Neither the pose taken last nor the latest output
    /// is touched, and no output is given.
    pub fn update_setpoint(&mut self, input: Option<i64>)
        ensures
            final(self)@ == old(self)@.after_setpoint(input),
        no_unwind
    {
        proof {
            use_type_invariant(&*self);
        }
        let target: i64 = match input {
            Some(v) => if v > 0 {
                self.constant_speed as i64
            } else if v < 0 {
                -(self.constant_speed as i64)
            } else {
                0
            },
            None => 0,
        };
        self.pid.set_setpoint(target);
    }

    /// Determine the control output based on new measurement
    ///
    /// `course` is the angle of the step from the pose taken last to
    /// `pose` (see [`Self::displacement_to`]); before the first pose it
    /// is not looked at.
    ///
    /// The first pose gives the output zero. A pose that is not stamped
    /// after the one before it is dropped as a measurement: the output is
    /// the latest one again and the PID core is left alone. Any other pose
    /// gives the output of one PID step on the speed estimated from the
    /// two poses. In every case `pose` becomes the pose taken last.
    pub fn update_pose(&mut self, pose: PoseSample, course: i64) -> (out: i64)
        ensures
            final(self)@ == old(self)@.after_pose(pose, course as int),
            out == old(self)@.pose_output(pose, course as int),
            -old(self)@.output_bound() <= out <= old(self)@.output_bound(),
        no_unwind
    {
        proof {
            use_type_invariant(&*self);
        }
        let ghost before = self@;
        let out: i64 = match self.prev_pose {
            None => 0,
            Some(prev) => {
                match calc_speed_from_pose(&prev, &pose, course, self.invert_direction) {
                    Ok(speed) => self.pid.step(speed, pose.timestamp - prev.timestamp),
                    Err(_) => self.last_output,
                }
            },
        };
        proof {
            lemma_pose_keeps_output_bounded(before, pose, course as int);
        }
        self.prev_pose = Some(pose);
        self.last_output = out;
        out
    }
}

/// Where the latest output is within the three limits together, so is the
/// output that the next pose gives, whatever the pose.
pub proof fn lemma_pose_keeps_output_bounded(m: ControllerModel, pose: PoseSample, course: int)
    requires
        m.bounded(),
    ensures
        -m.output_bound() <= m.pose_output(pose, course) <= m.output_bound(),
        m.after_pose(pose, course).bounded(),
{
    if let Some(prev) = m.last_sample {
        lemma_output_within_limits(
            m.pid,
            speed_spec(prev, pose, course, m.invert_direction),
            elapsed_spec(prev, pose),
        );
    }
}

/// The first pose that a controller takes gives the output zero and leaves
/// the PID core as it was.
pub proof fn lemma_first_pose_is_neutral(m: ControllerModel, pose: PoseSample, course: int)
    requires
        m.last_sample is None,
    ensures
        m.pose_output(pose, course) == 0,
        m.after_pose(pose, course) == (ControllerModel {
            last_sample: Some(pose),
            last_output: 0,
            ..m
        }),
{
}

/// A controller that was just made has taken no pose: the first pose handed
/// to it gives the output zero and leaves the PID core as it was made.
pub proof fn lemma_first_pose_after_new(
    constants: PidConstants,
    constant_speed: int,
    pose: PoseSample,
    course: int,
)
    ensures
        ControllerModel::initial(constants, constant_speed).pose_output(pose, course) == 0,
        ControllerModel::initial(constants, constant_speed).after_pose(pose, course).pid
            == PidModel::initial(constants),
        ControllerModel::initial(constants, constant_speed).after_pose(pose, course).last_sample
            == Some(pose),
{
}

/// With a proportional gain of one and neither integral nor derivative
/// gain, the output for a pose stamped after the one before is the
/// setpoint less the estimated speed, as long as that difference is within
/// the limit of the proportional term.
pub proof fn lemma_unit_gain_output_is_error(
    m: ControllerModel,
    prev: PoseSample,
    cur: PoseSample,
    course: int,
)
    requires
        m.last_sample == Some(prev),
        elapsed_spec(prev, cur) > 0,
        m.pid.constants.kp == GAIN_ONE,
        m.pid.constants.ki == 0,
        m.pid.constants.kd == 0,
        -m.pid.constants.p_limit <= m.pid.setpoint - speed_spec(
            prev,
            cur,
            course,
            m.invert_direction,
        ) <= m.pid.constants.p_limit,
    ensures
        m.pose_output(cur, course) == m.pid.setpoint - speed_spec(
            prev,
            cur,
            course,
            m.invert_direction,
        ),
{
    let measured = speed_spec(prev, cur, course, m.invert_direction);
    let dt = elapsed_spec(prev, cur);
    let error = m.pid.error(measured);
    assert(m.pid.constants.ki * m.pid.accumulated(measured, dt) == 0) by (nonlinear_arith)
        requires
            m.pid.constants.ki == 0,
    ;
    assert(m.pid.constants.kd * (error - m.pid.previous_error) * TICKS_PER_SECOND == 0)
        by (nonlinear_arith)
        requires
            m.pid.constants.kd == 0,
    ;
    assert(0int / (GAIN_ONE * dt) == 0) by (nonlinear_arith)
        requires
            dt > 0,
            GAIN_ONE == 1_000_000,
    ;
    assert(m.pid.integral(measured, dt) == 0);
    assert(m.pid.derivative(measured, dt) == 0);
    assert(m.pid.proportional(measured) == error);
}

/// A pose that is not stamped after the one before gives the latest output
/// again and leaves the PID core as it was; the pose is kept all the same.
pub proof fn lemma_degenerate_interval_repeats_output(
    m: ControllerModel,
    prev: PoseSample,
    cur: PoseSample,
    course: int,
)
    requires
        m.last_sample == Some(prev),
        elapsed_spec(prev, cur) <= 0,
    ensures
        m.pose_output(cur, course) == m.last_output,
        m.after_pose(cur, course) == (ControllerModel { last_sample: Some(cur), ..m }),
{
}

} // verus!
