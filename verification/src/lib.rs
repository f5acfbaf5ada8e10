//! Closed-loop speed control for a ground vehicle, in fixed-point arithmetic.
//!
//! Pose samples arrive at irregular intervals. From two consecutive samples
//! the signed speed along the vehicle's axis is estimated, and a PID law turns
//! the gap between that speed and the commanded one into a control output.
//!
//! Every quantity is an integer. Positions are counted in a unit of the
//! caller's choice, speeds in that unit per second, and outputs and their
//! limits in that unit too where the gains are plain ratios. Time is counted
//! in ticks ([`fixed::TICKS_PER_SECOND`]), gains in parts of
//! [`fixed::GAIN_ONE`], and angles in millionths of a degree
//! ([`heading::FULL_TURN`]).
//!
//! The library computes on integers alone, so it cannot find the angle of a
//! step from its two components. The caller does: it asks the controller for
//! the step since the last pose
//! ([`speed::SpeedPidController::displacement_to`]) and hands the pose over
//! together with the angle of that step
//! ([`speed::SpeedPidController::update_pose`]).
//!
//! No function here waits, allocates or unwinds: each is marked `no_unwind`.
//! A lock that guards a controller is therefore held briefly, and is given
//! back on every path.

pub mod control;
pub mod fixed;
pub mod heading;
pub mod speed;
pub mod velocity;
