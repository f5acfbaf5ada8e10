//! Speed along the vehicle's axis, estimated from two pose samples.
use vstd::prelude::*;
use crate::fixed::{floor_sqrt, isqrt, TICKS_PER_SECOND};
use crate::heading::{direction, direction_spec};

verus! {

/// One reading of the vehicle's pose.
///
/// Positions are 32 bits wide, so that the speed between any two samples
/// fits in 64 bits and no estimate overflows.
#[derive(Clone, Copy, Debug, PartialEq, Eq, Structural)]
pub struct PoseSample {
    /// When the pose was measured, in ticks of a clock that never runs
    /// backward.
    pub timestamp: u64,
    /// Position along the first axis, in position units.
    pub x: i32,
    /// Position along the second axis, in position units.
    pub y: i32,
    /// The way the vehicle points, in angle units; `None` where the source
    /// gave no finite angle.
    pub theta: Option<i64>,
}

/// Why two samples give no speed.
#[derive(Clone, Copy, Debug, PartialEq, Eq, Structural)]
pub enum EstimationError {
    /// The later sample is not stamped after the earlier one.
    DegenerateInterval,
}

/// Ticks from `prev` to `cur`; positive when `cur` is the later one.
pub open spec fn elapsed_spec(prev: PoseSample, cur: PoseSample) -> int {
    cur.timestamp - prev.timestamp
}

/// Length of the straight line from `prev` to `cur`, rounded down to whole
/// position units.
pub open spec fn distance_spec(prev: PoseSample, cur: PoseSample) -> int {
    let dx = cur.x - prev.x;
    let dy = cur.y - prev.y;
    floor_sqrt(dx * dx + dy * dy)
}

/// Whether a vehicle that points along `theta` and moves along `course`
/// travels forward.
///
/// A sample without a heading counts as pointing along the course. With
/// `invert` set the vehicle's axis is taken to point backward, and the
/// answer is reversed.
pub open spec fn travels_forward(course: int, theta: Option<i64>, invert: bool) -> bool {
    let along = match theta {
        Some(r_theta) => direction_spec(course, r_theta as int),
        None => true,
    };
    along != invert
}

/// Signed speed, in position units per second, of a vehicle that went from
/// `prev` to `cur` along `course`: positive for forward travel, negative
/// for backward travel. Meaningful where `cur` is the later sample.
pub open spec fn speed_spec(prev: PoseSample, cur: PoseSample, course: int, invert: bool) -> int
    recommends
        elapsed_spec(prev, cur) > 0,
{
    let rate = (distance_spec(prev, cur) * TICKS_PER_SECOND) / elapsed_spec(prev, cur);
    if travels_forward(course, cur.theta, invert) {
        rate
    } else {
        -rate
    }
}

/// Inverting the direction reverses the sign of the speed and leaves its
/// size alone.
pub proof fn lemma_invert_negates_speed(prev: PoseSample, cur: PoseSample, course: int)
    ensures
        speed_spec(prev, cur, course, true) == -speed_spec(prev, cur, course, false),
{
}

/// Ticks from `prev` to `cur`, where `cur` is the later sample.
pub fn elapsed(prev: &PoseSample, cur: &PoseSample) -> (r: Result<u64, EstimationError>)
    ensures
        cur.timestamp > prev.timestamp ==> r == Ok::<u64, EstimationError>(
            (cur.timestamp - prev.timestamp) as u64,
        ),
        cur.timestamp <= prev.timestamp ==> r == Err::<u64, EstimationError>(
            EstimationError::DegenerateInterval,
        ),
    no_unwind
{
    if cur.timestamp > prev.timestamp {
        Ok(cur.timestamp - prev.timestamp)
    } else {
        Err(EstimationError::DegenerateInterval)
    }
}

/// The step from `prev` to `cur` along each axis.
pub fn displacement(prev: &PoseSample, cur: &PoseSample) -> (d: (i64, i64))
    ensures
        d.0 == cur.x - prev.x,
        d.1 == cur.y - prev.y,
    no_unwind
{
    (cur.x as i64 - prev.x as i64, cur.y as i64 - prev.y as i64)
}

/// The absolute value of `v`.
fn magnitude(v: i64) -> (m: u64)
    ensures
        m == if v < 0 {
            -v
        } else {
            v as int
        },
    no_unwind
{
    if v < 0 {
        (-(v as i128)) as u64
    } else {
        v as u64
    }
}

/// Length of the straight line from `prev` to `cur`, rounded down to whole
/// position units.
pub fn distance(prev: &PoseSample, cur: &PoseSample) -> (r: u64)
    ensures
        r == distance_spec(*prev, *cur),
        r <= 0x2_0000_0000,
    no_unwind
{
    let (dx, dy): (i64, i64) = displacement(prev, cur);
    let ax: u128 = magnitude(dx) as u128;
    let ay: u128 = magnitude(dy) as u128;
    assert(ax * ax == dx * dx && ax * ax <= 0xffff_ffff * 0xffff_ffff) by (nonlinear_arith)
        requires
            ax == dx || ax == -dx,
            ax <= 0xffff_ffff,
    ;
    assert(ay * ay == dy * dy && ay * ay <= 0xffff_ffff * 0xffff_ffff) by (nonlinear_arith)
        requires
            ay == dy || ay == -dy,
            ay <= 0xffff_ffff,
    ;
    let r: u64 = isqrt(ax * ax + ay * ay);
    assert(r <= 0x2_0000_0000) by (nonlinear_arith)
        requires
            r * r <= 2 * (0xffff_ffff * 0xffff_ffff),
    ;
    r
}

/// Signed speed of the vehicle, in position units per second, from its
/// last two poses.
///
/// `course` is the direction of the step from `prev` to `cur`, in angle
/// units: the angle whose tangent is the step along the second axis over
/// the step along the first. The speed is positive where `cur` points
/// within a quarter turn of the course, negative otherwise; `invert`
/// exchanges the two. The fraction of a unit per second is dropped.
///
/// Two samples that are not in order of time give no speed.
pub fn calc_speed_from_pose(prev: &PoseSample, cur: &PoseSample, course: i64, invert: bool) -> (r:
    Result<i64, EstimationError>)
    ensures
        elapsed_spec(*prev, *cur) > 0 ==> (r matches Ok(speed) && speed == speed_spec(
            *prev,
            *cur,
            course as int,
            invert,
        )),
        elapsed_spec(*prev, *cur) <= 0 ==> r == Err::<i64, EstimationError>(
            EstimationError::DegenerateInterval,
        ),
    no_unwind
{
    let dt: u64 = match elapsed(prev, cur) {
        Ok(dt) => dt,
        Err(e) => {
            return Err(e);
        },
    };
    let along: bool = match cur.theta {
        Some(r_theta) => direction(course, r_theta),
        None => true,
    };
    let travelled: u128 = distance(prev, cur) as u128 * TICKS_PER_SECOND as u128;
    let rate: u128 = travelled / dt as u128;
    assert(rate <= travelled) by (nonlinear_arith)
        requires
            rate == travelled / (dt as u128),
            dt >= 1,
    ;
    if along != invert {
        Ok(rate as i64)
    } else {
        Ok(-(rate as i64))
    }
}

} // verus!
