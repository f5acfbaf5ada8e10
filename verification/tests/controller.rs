use tiger_pid_speed_controller::speed::{PidConstants, SpeedPidController};
use tiger_pid_speed_controller::velocity::PoseSample;

const ONE: i32 = 1_000_000;

/// Proportional gain one, no integral and no derivative gain, limits as
/// wide as they go.
fn unit_gain() -> PidConstants {
    PidConstants {
        kp: ONE,
        ki: 0,
        kd: 0,
        p_limit: u32::MAX,
        i_limit: u32::MAX,
        d_limit: u32::MAX,
    }
}

fn full_gains() -> PidConstants {
    PidConstants {
        kp: 6 * ONE,
        ki: ONE / 10,
        kd: ONE / 4,
        p_limit: 100_000_000,
        i_limit: 100_000_000,
        d_limit: 100_000_000,
    }
}

fn pose(timestamp: u64, x: i32, y: i32, theta: i64) -> PoseSample {
    PoseSample { timestamp, x, y, theta: Some(theta) }
}

#[test]
fn a_new_controller_has_taken_nothing() {
    let c = SpeedPidController::new(full_gains(), 500_000);
    assert_eq!(c.setpoint(), 0);
    assert_eq!(c.last_sample(), None);
    assert_eq!(c.last_output(), 0);
    assert_eq!(c.constant_speed(), 500_000);
    assert_eq!(c.invert_direction(), false);
    assert_eq!(c.pid().constants(), full_gains());
    assert_eq!(c.pid().integral_accumulator(), 0);
    assert_eq!(c.pid().previous_error(), 0);
}

#[test]
fn setpoint_follows_the_sign_of_the_command() {
    let mut c = SpeedPidController::new(full_gains(), 500_000);
    c.update_setpoint(Some(5_000_000));
    assert_eq!(c.setpoint(), 500_000);
    c.update_setpoint(Some(-3_000_000));
    assert_eq!(c.setpoint(), -500_000);
    c.update_setpoint(Some(0));
    assert_eq!(c.setpoint(), 0);
}

#[test]
fn a_command_that_is_no_number_halts() {
    let mut c = SpeedPidController::new(full_gains(), 500_000);
    c.update_setpoint(Some(1));
    assert_eq!(c.setpoint(), 500_000);
    c.update_setpoint(None);
    assert_eq!(c.setpoint(), 0);
}

#[test]
fn the_size_of_a_command_does_not_matter() {
    let mut c = SpeedPidController::new(full_gains(), 7);
    c.update_setpoint(Some(i64::MAX));
    assert_eq!(c.setpoint(), 7);
    c.update_setpoint(Some(1));
    assert_eq!(c.setpoint(), 7);
    c.update_setpoint(Some(i64::MIN));
    assert_eq!(c.setpoint(), -7);
    c.update_setpoint(Some(-1));
    assert_eq!(c.setpoint(), -7);
}

#[test]
fn a_negative_constant_speed_is_taken_as_given() {
    let mut c = SpeedPidController::new(full_gains(), i32::MIN);
    c.update_setpoint(Some(1));
    assert_eq!(c.setpoint(), -2_147_483_648);
    c.update_setpoint(Some(-1));
    assert_eq!(c.setpoint(), 2_147_483_648);
}

#[test]
fn a_command_touches_neither_pose_nor_output() {
    let mut c = SpeedPidController::new(unit_gain(), 500_000);
    c.update_pose(pose(0, 0, 0, 0), 0);
    c.update_pose(pose(1_000_000, 1_000_000, 0, 0), 0);
    let sample = c.last_sample();
    let output = c.last_output();
    let accumulator = c.pid().integral_accumulator();
    let error = c.pid().previous_error();
    c.update_setpoint(Some(9));
    assert_eq!(c.last_sample(), sample);
    assert_eq!(c.last_output(), output);
    assert_eq!(c.pid().integral_accumulator(), accumulator);
    assert_eq!(c.pid().previous_error(), error);
    assert_eq!(c.setpoint(), 500_000);
}

#[test]
fn the_first_pose_gives_zero_and_is_kept() {
    let mut c = SpeedPidController::new(full_gains(), 500_000);
    c.update_setpoint(Some(1));
    let first = pose(123_456, -70_000, 31_000, 45_000_000);
    assert_eq!(c.update_pose(first, 99), 0);
    assert_eq!(c.last_sample(), Some(first));
    assert_eq!(c.last_output(), 0);
    assert_eq!(c.setpoint(), 500_000);
    assert_eq!(c.pid().integral_accumulator(), 0);
    assert_eq!(c.pid().previous_error(), 0);
}

#[test]
fn unit_gain_output_is_setpoint_less_speed() {
    let mut c = SpeedPidController::new(unit_gain(), 500_000);
    c.update_setpoint(Some(1));
    assert_eq!(c.update_pose(pose(0, 0, 0, 0), 0), 0);
    // 1.0 in one second, forward: 0.5 - 1.0
    assert_eq!(c.update_pose(pose(1_000_000, 1_000_000, 0, 0), 0), -500_000);
    // 0.2 back in half a second, still heading forward: 0.5 + 0.4
    assert_eq!(c.update_pose(pose(1_500_000, 800_000, 0, 0), 180_000_000), 900_000);
    // standing still for a tenth of a second: 0.5 - 0
    assert_eq!(c.update_pose(pose(1_600_000, 800_000, 0, 0), 0), 500_000);
    c.update_setpoint(Some(-1));
    // 3-4-5 triangle, 0.5 in a quarter second along the heading: -0.5 - 2.0
    assert_eq!(
        c.update_pose(pose(1_850_000, 1_100_000, 400_000, 53_130_102), 53_130_102),
        -2_500_000
    );
}

#[test]
fn one_unit_per_second_forward_is_measured_as_such() {
    let mut c = SpeedPidController::new(unit_gain(), 0);
    assert_eq!(c.update_pose(pose(0, 0, 0, 0), 0), 0);
    // Setpoint zero and unit gain: the output is the speed, sign reversed.
    assert_eq!(c.update_pose(pose(1_000_000, 1_000_000, 0, 0), 0), -1_000_000);
    assert_eq!(c.pid().previous_error(), -1_000_000);
}

#[test]
fn no_time_between_poses_repeats_the_output() {
    let mut c = SpeedPidController::new(full_gains(), 500_000);
    c.update_setpoint(Some(1));
    c.update_pose(pose(0, 0, 0, 0), 0);
    let out = c.update_pose(pose(1_000_000, 400_000, 0, 0), 0);
    // error 0.1: P 0.6, I 0.1 * 0.1, D 0.25 * 0.1 / 1
    assert_eq!(out, 600_000 + 10_000 + 25_000);
    let accumulator = c.pid().integral_accumulator();
    let error = c.pid().previous_error();
    let same_time = pose(1_000_000, 900_000, 50, 10);
    assert_eq!(c.update_pose(same_time, 0), out);
    assert_eq!(c.last_sample(), Some(same_time));
    assert_eq!(c.last_output(), out);
    assert_eq!(c.pid().integral_accumulator(), accumulator);
    assert_eq!(c.pid().previous_error(), error);
    let earlier = pose(999_999, 0, 0, 0);
    assert_eq!(c.update_pose(earlier, 0), out);
    assert_eq!(c.last_sample(), Some(earlier));
    assert_eq!(c.pid().integral_accumulator(), accumulator);
}

#[test]
fn no_time_after_the_first_pose_gives_zero() {
    let mut c = SpeedPidController::new(full_gains(), 500_000);
    c.update_setpoint(Some(1));
    assert_eq!(c.update_pose(pose(10, 0, 0, 0), 0), 0);
    assert_eq!(c.update_pose(pose(10, 5_000, 0, 0), 0), 0);
    assert_eq!(c.pid().integral_accumulator(), 0);
    assert_eq!(c.last_sample(), Some(pose(10, 5_000, 0, 0)));
}

#[test]
fn the_pose_after_a_dropped_one_is_measured_from_it() {
    let mut c = SpeedPidController::new(unit_gain(), 0);
    c.update_pose(pose(1_000_000, 0, 0, 0), 0);
    c.update_pose(pose(1_000_000, 300, 0, 0), 0);
    // 100 units in one second, from the pose that was dropped
    assert_eq!(c.update_pose(pose(2_000_000, 400, 0, 0), 0), -100);
}

#[test]
fn all_three_terms_reach_the_output() {
    let mut c = SpeedPidController::new(full_gains(), 500_000);
    c.update_setpoint(Some(1));
    c.update_pose(pose(0, 0, 0, 0), 0);
    // speed 0.4, error 0.1 over 1 s: P 0.6, I 0.1 * 0.1, D 0.25 * 0.1
    assert_eq!(c.update_pose(pose(1_000_000, 400_000, 0, 0), 0), 635_000);
    // speed 0.6, error -0.1 over 0.5 s: P -0.6, I 0.1 * 0.05, D 0.25 * -0.2 / 0.5
    assert_eq!(c.update_pose(pose(1_500_000, 700_000, 0, 0), 0), -600_000 + 5_000 - 100_000);
    assert_eq!(c.pid().integral_accumulator(), 50_000_000_000);
    assert_eq!(c.pid().previous_error(), -100_000);
    assert_eq!(c.last_output(), -695_000);
}

#[test]
fn an_inverted_controller_reads_forward_as_backward() {
    let mut c = SpeedPidController::new(unit_gain(), 0).with_invert_direction(true);
    assert_eq!(c.invert_direction(), true);
    c.update_pose(pose(0, 0, 0, 0), 0);
    assert_eq!(c.update_pose(pose(1_000_000, 1_000_000, 0, 0), 0), 1_000_000);
    let mut c = c.with_invert_direction(false);
    assert_eq!(c.update_pose(pose(2_000_000, 2_000_000, 0, 0), 0), -1_000_000);
}

#[test]
fn with_invert_direction_keeps_the_rest() {
    let mut c = SpeedPidController::new(full_gains(), 500_000);
    c.update_setpoint(Some(-1));
    c.update_pose(pose(0, 0, 0, 0), 0);
    c.update_pose(pose(1_000_000, 400_000, 0, 0), 0);
    let d = c.clone().with_invert_direction(true);
    assert_eq!(d.setpoint(), c.setpoint());
    assert_eq!(d.last_sample(), c.last_sample());
    assert_eq!(d.last_output(), c.last_output());
    assert_eq!(d.constant_speed(), c.constant_speed());
    assert_eq!(d.pid().integral_accumulator(), c.pid().integral_accumulator());
    assert_eq!(d.pid().previous_error(), c.pid().previous_error());
}

#[test]
fn a_pose_without_heading_counts_as_forward() {
    let mut c = SpeedPidController::new(unit_gain(), 0);
    c.update_pose(pose(0, 0, 0, 0), 0);
    let blind = PoseSample { timestamp: 1_000_000, x: -250, y: 0, theta: None };
    assert_eq!(c.update_pose(blind, 180_000_000), -250);
}

#[test]
fn displacement_to_is_measured_from_the_last_pose() {
    let mut c = SpeedPidController::new(unit_gain(), 0);
    assert_eq!(c.displacement_to(&pose(5, 10, 20, 0)), None);
    c.update_pose(pose(0, 100, -100, 0), 0);
    assert_eq!(c.displacement_to(&pose(5, 10, 20, 0)), Some((-90, 120)));
    c.update_pose(pose(5, 10, 20, 0), 0);
    assert_eq!(c.displacement_to(&pose(5, 10, 20, 0)), Some((0, 0)));
}

#[test]
fn output_is_limited_term_by_term() {
    let mut c = SpeedPidController::new(
        PidConstants { kp: 10 * ONE, ki: 10 * ONE, kd: 10 * ONE, p_limit: 7, i_limit: 11, d_limit: 13 },
        1_000,
    );
    c.update_setpoint(Some(1));
    c.update_pose(pose(0, 0, 0, 0), 0);
    assert_eq!(c.update_pose(pose(1_000_000, 0, 0, 0), 0), 31);
    c.update_setpoint(Some(-1));
    assert_eq!(c.update_pose(pose(2_000_000, 50_000, 0, 0), 0), -7 - 11 - 13);
}
