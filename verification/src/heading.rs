//! Angles on the circle, and the test that tells forward travel from
//! backward travel.
//!
//! An angle is an integer count of millionths of a degree. It need not be
//! reduced: two counts that differ by [`FULL_TURN`] are the same direction.
use vstd::prelude::*;
use vstd::arithmetic::div_mod::lemma_mod_multiples_vanish;

verus! {

/// Angle units in a full turn.
pub const FULL_TURN: i64 = 360_000_000;

/// Angle units in half a turn.
pub const HALF_TURN: i64 = 180_000_000;

/// Angle units in a quarter of a turn.
pub const QUARTER_TURN: i64 = 90_000_000;

/// A whole number of turns that is more than any two angles can differ by.
const MANY_TURNS: i128 = 18_446_744_073_960_000_000;

/// The angle in `(-HALF_TURN, HALF_TURN]` that points the same way as `a`.
pub open spec fn wrap_angle(a: int) -> int {
    let m = a % (FULL_TURN as int);
    if m > HALF_TURN {
        m - FULL_TURN
    } else {
        m
    }
}

/// The vehicle, heading along `r_theta`, travels forward along the course
/// `t_theta` when the two are at most a quarter turn apart on the circle.
/// At exactly a quarter turn the travel counts as forward.
pub open spec fn direction_spec(t_theta: int, r_theta: int) -> bool {
    let diff = wrap_angle(r_theta - t_theta);
    -QUARTER_TURN <= diff <= QUARTER_TURN
}

/// The same test for angles within half a turn of zero, written without a
/// remainder: a case for each part of the circle that `t_theta` can lie in.
pub open spec fn direction_by_halves(t_theta: int, r_theta: int) -> bool {
    if -QUARTER_TURN <= t_theta <= QUARTER_TURN {
        t_theta - QUARTER_TURN <= r_theta <= t_theta + QUARTER_TURN
    } else if t_theta < -QUARTER_TURN {
        if r_theta > 0 {
            r_theta >= t_theta - QUARTER_TURN + FULL_TURN
        } else {
            r_theta <= t_theta + QUARTER_TURN
        }
    } else {
        if r_theta > 0 {
            r_theta >= t_theta - QUARTER_TURN
        } else {
            r_theta <= t_theta + QUARTER_TURN - FULL_TURN
        }
    }
}

/// The turn from `t_theta` to `r_theta`, taken the short way round.
pub fn angle_between(t_theta: i64, r_theta: i64) -> (diff: i64)
    ensures
        diff == wrap_angle(r_theta - t_theta),
        -HALF_TURN < diff <= HALF_TURN,
    no_unwind
{
    let raw: i128 = r_theta as i128 - t_theta as i128;
    let m: u128 = (raw + MANY_TURNS) as u128 % (FULL_TURN as u128);
    proof {
        assert(MANY_TURNS == FULL_TURN * 51_240_955_761);
        lemma_mod_multiples_vanish(51_240_955_761, raw as int, FULL_TURN as int);
    }
    if m > HALF_TURN as u128 {
        m as i64 - FULL_TURN
    } else {
        m as i64
    }
}

/// Whether the vehicle, heading along `r_theta`, moves forward when its
/// position changes along the course `t_theta`.
pub fn direction(t_theta: i64, r_theta: i64) -> (forward: bool)
    ensures
        forward == direction_spec(t_theta as int, r_theta as int),
    no_unwind
{
    let diff: i64 = angle_between(t_theta, r_theta);
    -QUARTER_TURN <= diff && diff <= QUARTER_TURN
}

/// A heading along the course is forward, and the heading opposite to the
/// course is backward.
pub proof fn lemma_direction_along_and_against(t_theta: int)
    ensures
        direction_spec(t_theta, t_theta),
        !direction_spec(t_theta, t_theta + HALF_TURN),
{
}

/// A heading and the same heading a full turn further are classified alike.
pub proof fn lemma_direction_full_turn(t_theta: int, r_theta: int)
    ensures
        direction_spec(t_theta, r_theta) == direction_spec(t_theta, r_theta + FULL_TURN),
{
}

/// Whole turns added to the course or to the heading change nothing.
pub proof fn lemma_direction_whole_turns(t_theta: int, r_theta: int, j: int, k: int)
    ensures
        direction_spec(t_theta + j * FULL_TURN, r_theta + k * FULL_TURN) == direction_spec(
            t_theta,
            r_theta,
        ),
{
    lemma_mod_multiples_vanish(k - j, r_theta - t_theta, FULL_TURN as int);
    assert((r_theta + k * FULL_TURN) - (t_theta + j * FULL_TURN) == FULL_TURN * (k - j) + (r_theta
        - t_theta));
}

/// For angles within half a turn of zero the test by cases and the test by
/// remainder agree, but for the two pairs in which the heading is a quarter
/// turn from the course and lies on the seam of the circle: there the test
/// by cases says backward.
pub proof fn lemma_direction_by_halves(t_theta: int, r_theta: int)
    requires
        -HALF_TURN <= t_theta <= HALF_TURN,
        -HALF_TURN <= r_theta <= HALF_TURN,
        !(t_theta == QUARTER_TURN && r_theta == -HALF_TURN),
        !(t_theta == -QUARTER_TURN && r_theta == HALF_TURN),
    ensures
        direction_spec(t_theta, r_theta) == direction_by_halves(t_theta, r_theta),
{
}

} // verus!
