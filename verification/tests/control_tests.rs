use rover_core::bus::{BusError, MockBus, TransactionRecord};
use rover_core::control::{
    control_step, direction_indicator, go_backward, go_forward, has_collided, next_direction,
    stop, COLLISION_THRESHOLD, DRIVE_SPEED, SETTLE_DELAY_TICKS,
};
use rover_core::time::{Delay, Time};
use rover_core::motor::{Direction, Motors};
use rover_core::pca::{PCA9685, PCA_I2C_ADDR};
use rover_core::sample_buffer::Sample;

fn sample3(x: i16, y: i16, z: i16) -> Sample {
    Sample { x, y, z }
}

fn chip_write(bytes: Vec<u8>) -> TransactionRecord {
    TransactionRecord::Write { addr: PCA_I2C_ADDR, bytes }
}

fn silence_frame(base: u8) -> TransactionRecord {
    chip_write(vec![base, 0x00, 0x00, 0xFF, 0x0F])
}

fn full_speed_frame(base: u8) -> TransactionRecord {
    chip_write(vec![base, 0xFF, 0x0F, 0x00, 0x00])
}

fn fresh_motors(bus: &mut MockBus) -> Motors {
    let pca = PCA9685::init(bus).unwrap();
    let motors = Motors::init(pca, bus).unwrap();
    bus.log.clear();
    motors
}

#[test]
fn collision_fires_on_positive_overshoot() {
    let (collided, diff) = has_collided(&sample3(0, 10001, 0), &sample3(0, 0, 0));
    assert!(collided);
    assert_eq!(diff, sample3(0, 10001, 0));
}

#[test]
fn collision_does_not_fire_on_negative_overshoot() {
    // The rule compares the signed difference, not its absolute value:
    // a -10001 spike stays below the threshold. This asymmetry is
    // documented behavior.
    let (collided, diff) = has_collided(&sample3(0, -10001, 0), &sample3(0, 0, 0));
    assert!(!collided);
    assert_eq!(diff, sample3(0, -10001, 0));
}

#[test]
fn collision_threshold_is_strict() {
    assert_eq!(COLLISION_THRESHOLD, 10_000);
    let (at_threshold, _) = has_collided(&sample3(10_000, 0, 0), &sample3(0, 0, 0));
    assert!(!at_threshold);
    let (above_threshold, _) = has_collided(&sample3(10_001, 0, 0), &sample3(0, 0, 0));
    assert!(above_threshold);
}

#[test]
fn collision_considers_every_axis() {
    let mean = sample3(100, 200, 300);
    let (x_fires, _) = has_collided(&sample3(10_101, 200, 300), &mean);
    let (y_fires, _) = has_collided(&sample3(100, 10_201, 300), &mean);
    let (z_fires, _) = has_collided(&sample3(100, 200, 10_301), &mean);
    let (none_fires, diff) = has_collided(&sample3(10_100, 10_200, 10_300), &mean);
    assert!(x_fires);
    assert!(y_fires);
    assert!(z_fires);
    assert!(!none_fires);
    assert_eq!(diff, sample3(10_000, 10_000, 10_000));
}

#[test]
fn next_direction_toggles_only_on_collision() {
    assert_eq!(next_direction(false, Direction::Forward), Direction::Forward);
    assert_eq!(next_direction(false, Direction::Backward), Direction::Backward);
    assert_eq!(next_direction(true, Direction::Forward), Direction::Backward);
    assert_eq!(next_direction(true, Direction::Backward), Direction::Forward);
}

#[test]
fn control_step_reverses_on_collision() {
    let (collided, dir, diff) = control_step(Direction::Forward, &sample3(0, 10_001, 0), &sample3(0, 0, 0));
    assert!(collided);
    assert_eq!(dir, Direction::Backward);
    assert_eq!(diff, sample3(0, 10_001, 0));

    let (quiet, same_dir, _) = control_step(Direction::Backward, &sample3(0, 0, 0), &sample3(0, 0, 0));
    assert!(!quiet);
    assert_eq!(same_dir, Direction::Backward);
}

#[test]
fn direction_indicator_points_north_or_south() {
    assert_eq!(direction_indicator(Direction::Forward), 0);
    assert_eq!(direction_indicator(Direction::Backward), 4);
}

#[test]
fn go_forward_commands_all_four_motors_antagonists_first() {
    let mut bus = MockBus::new();
    let mut motors = fresh_motors(&mut bus);
    assert!(go_forward(&mut bus, &mut motors, DRIVE_SPEED).is_ok());
    assert_eq!(bus.log.len(), 8);
    // Motor order: front left, rear left, front right, rear right; for
    // each, backward channel off, then forward channel at full duty.
    assert_eq!(bus.log[0], silence_frame(0x12));
    assert_eq!(bus.log[1], full_speed_frame(0x0E));
    assert_eq!(bus.log[2], silence_frame(0x1A));
    assert_eq!(bus.log[3], full_speed_frame(0x16));
    assert_eq!(bus.log[4], silence_frame(0x0A));
    assert_eq!(bus.log[5], full_speed_frame(0x06));
    assert_eq!(bus.log[6], silence_frame(0x1E));
    assert_eq!(bus.log[7], full_speed_frame(0x22));
}

#[test]
fn go_backward_commands_all_four_motors_antagonists_first() {
    let mut bus = MockBus::new();
    let mut motors = fresh_motors(&mut bus);
    assert!(go_backward(&mut bus, &mut motors, DRIVE_SPEED).is_ok());
    assert_eq!(bus.log.len(), 8);
    assert_eq!(bus.log[0], silence_frame(0x0E));
    assert_eq!(bus.log[1], full_speed_frame(0x12));
    assert_eq!(bus.log[2], silence_frame(0x16));
    assert_eq!(bus.log[3], full_speed_frame(0x1A));
    assert_eq!(bus.log[4], silence_frame(0x06));
    assert_eq!(bus.log[5], full_speed_frame(0x0A));
    assert_eq!(bus.log[6], silence_frame(0x22));
    assert_eq!(bus.log[7], full_speed_frame(0x1E));
}

#[test]
fn go_forward_commands_remaining_motors_after_a_failure() {
    let mut bus = MockBus::new();
    let mut motors = fresh_motors(&mut bus);
    // The fourth transaction — the rear-left active write — is refused.
    bus.inject_fault_after(3, BusError::Timeout);
    assert_eq!(go_forward(&mut bus, &mut motors, DRIVE_SPEED), Err(BusError::Timeout));
    // The rear-left motor keeps only its antagonist-off write, but the
    // front-right and rear-right motors are still commanded in full.
    assert_eq!(bus.log.len(), 7);
    assert_eq!(bus.log[0], silence_frame(0x12));
    assert_eq!(bus.log[1], full_speed_frame(0x0E));
    assert_eq!(bus.log[2], silence_frame(0x1A));
    assert_eq!(bus.log[3], silence_frame(0x0A));
    assert_eq!(bus.log[4], full_speed_frame(0x06));
    assert_eq!(bus.log[5], silence_frame(0x1E));
    assert_eq!(bus.log[6], full_speed_frame(0x22));
    // Exactly one refusal, and the error returned is the one reported.
    assert_eq!(bus.refusals, vec![BusError::Timeout]);
}

#[test]
fn go_forward_commands_other_motors_when_the_first_fails() {
    let mut bus = MockBus::new();
    let mut motors = fresh_motors(&mut bus);
    // The very first transaction — the front-left antagonist-off write —
    // is refused, so that motor gets no writes at all; the other three
    // motors still get both of theirs.
    bus.inject_fault(BusError::ArbitrationLoss);
    assert_eq!(go_forward(&mut bus, &mut motors, DRIVE_SPEED), Err(BusError::ArbitrationLoss));
    assert_eq!(bus.log.len(), 6);
    assert_eq!(bus.log[0], silence_frame(0x1A));
    assert_eq!(bus.log[1], full_speed_frame(0x16));
    assert_eq!(bus.refusals, vec![BusError::ArbitrationLoss]);
}

#[test]
fn stop_is_an_all_channels_off() {
    let mut bus = MockBus::new();
    let mut motors = fresh_motors(&mut bus);
    assert!(stop(&mut bus, &mut motors).is_ok());
    assert_eq!(bus.log.len(), 8);
    let bases = [0x0E, 0x12, 0x06, 0x0A, 0x16, 0x1A, 0x22, 0x1E];
    for (i, base) in bases.into_iter().enumerate() {
        assert_eq!(bus.log[i], silence_frame(base));
    }
}

#[test]
fn reaction_sequence_stop_settle_reverse() {
    // One full reaction as the control loop performs it: collision while
    // going forward, stop, settle, drive backward.
    let mut bus = MockBus::new();
    let mut motors = fresh_motors(&mut bus);
    let mut time = Time::init();

    let mean = sample3(0, 0, 0);
    let live = sample3(0, 0, 10_500);
    let (collided, new_dir, _) = control_step(Direction::Forward, &live, &mean);
    assert!(collided);
    assert_eq!(new_dir, Direction::Backward);

    assert!(stop(&mut bus, &mut motors).is_ok());
    let settle = Delay::new(SETTLE_DELAY_TICKS, &time);
    while !settle.poll(&time) {
        time.tick();
    }
    assert_eq!(time.current_time(), SETTLE_DELAY_TICKS);
    assert!(go_backward(&mut bus, &mut motors, DRIVE_SPEED).is_ok());

    // Eight off-writes from the stop, then eight drive writes.
    assert_eq!(bus.log.len(), 16);
    assert_eq!(bus.log[8], silence_frame(0x0E));
    assert_eq!(bus.log[15], full_speed_frame(0x1E));
}
