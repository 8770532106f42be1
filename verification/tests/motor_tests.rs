use rover_core::bus::{BusError, MockBus, TransactionRecord};
use rover_core::motor::{Direction, Motor, MotorDirection, Motors};
use rover_core::pca::{Led, PCA9685, PCA_I2C_ADDR};

fn pca_write(bytes: Vec<u8>) -> TransactionRecord {
    TransactionRecord::Write { addr: PCA_I2C_ADDR, bytes }
}

fn off_frame(base: u8) -> TransactionRecord {
    pca_write(vec![base, 0x00, 0x00, 0xFF, 0x0F])
}

fn init_motors(bus: &mut MockBus) -> Motors {
    let pca = PCA9685::init(bus).unwrap();
    let motors = Motors::init(pca, bus).unwrap();
    bus.log.clear();
    motors
}

#[test]
fn motor_direction_constructors_cover_all_pairs() {
    assert_eq!(
        MotorDirection::flf(),
        MotorDirection { motor: Motor::FrontLeft, dir: Direction::Forward }
    );
    assert_eq!(
        MotorDirection::flb(),
        MotorDirection { motor: Motor::FrontLeft, dir: Direction::Backward }
    );
    assert_eq!(
        MotorDirection::frf(),
        MotorDirection { motor: Motor::FrontRight, dir: Direction::Forward }
    );
    assert_eq!(
        MotorDirection::frb(),
        MotorDirection { motor: Motor::FrontRight, dir: Direction::Backward }
    );
    assert_eq!(
        MotorDirection::rlf(),
        MotorDirection { motor: Motor::RearLeft, dir: Direction::Forward }
    );
    assert_eq!(
        MotorDirection::rlb(),
        MotorDirection { motor: Motor::RearLeft, dir: Direction::Backward }
    );
    assert_eq!(
        MotorDirection::rrf(),
        MotorDirection { motor: Motor::RearRight, dir: Direction::Forward }
    );
    assert_eq!(
        MotorDirection::rrb(),
        MotorDirection { motor: Motor::RearRight, dir: Direction::Backward }
    );
}

#[test]
fn antagonist_keeps_motor_and_flips_direction() {
    let pairs = [
        MotorDirection::flf(),
        MotorDirection::flb(),
        MotorDirection::frf(),
        MotorDirection::frb(),
        MotorDirection::rlf(),
        MotorDirection::rlb(),
        MotorDirection::rrf(),
        MotorDirection::rrb(),
    ];
    for md in pairs {
        let ant = md.ant();
        assert_eq!(ant.motor, md.motor);
        assert_ne!(ant.dir, md.dir);
        assert_eq!(ant.ant(), md);
    }
}

#[test]
fn channel_mapping_matches_wiring_table() {
    assert_eq!(MotorDirection::flf().channel(), Led::Led2);
    assert_eq!(MotorDirection::flb().channel(), Led::Led3);
    assert_eq!(MotorDirection::frf().channel(), Led::Led0);
    assert_eq!(MotorDirection::frb().channel(), Led::Led1);
    assert_eq!(MotorDirection::rlf().channel(), Led::Led4);
    assert_eq!(MotorDirection::rlb().channel(), Led::Led5);
    assert_eq!(MotorDirection::rrf().channel(), Led::Led7);
    assert_eq!(MotorDirection::rrb().channel(), Led::Led6);
}

#[test]
fn motors_init_forces_every_channel_off() {
    let mut bus = MockBus::new();
    let pca = PCA9685::init(&mut bus).unwrap();
    assert!(Motors::init(pca, &mut bus).is_ok());
    // After the mode write: the eight direction channels at 0% duty, in
    // the fixed order flf, flb, frf, frb, rlf, rlb, rrf, rrb.
    assert_eq!(bus.log.len(), 9);
    let bases = [0x0E, 0x12, 0x06, 0x0A, 0x16, 0x1A, 0x22, 0x1E];
    for (i, base) in bases.into_iter().enumerate() {
        assert_eq!(bus.log[i + 1], off_frame(base));
    }
}

#[test]
fn set_motor_speed_issues_antagonist_off_strictly_first() {
    let mut bus = MockBus::new();
    let mut motors = init_motors(&mut bus);
    assert!(motors.set_motor_speed(&mut bus, &MotorDirection::flf(), 0x800).is_ok());
    assert_eq!(bus.log.len(), 2);
    // First the antagonist (front left backward, channel base 0x12) off...
    assert_eq!(bus.log[0], off_frame(0x12));
    // ...then the active channel (base 0x0E): on = 0x800, off = 0x7FF.
    assert_eq!(bus.log[1], pca_write(vec![0x0E, 0x00, 0x08, 0xFF, 0x07]));
}

#[test]
fn set_motor_speed_antagonist_off_first_for_every_pair() {
    let pairs = [
        MotorDirection::flf(),
        MotorDirection::flb(),
        MotorDirection::frf(),
        MotorDirection::frb(),
        MotorDirection::rlf(),
        MotorDirection::rlb(),
        MotorDirection::rrf(),
        MotorDirection::rrb(),
    ];
    for md in pairs {
        let mut bus = MockBus::new();
        let mut motors = init_motors(&mut bus);
        assert!(motors.set_motor_speed(&mut bus, &md, 0x123).is_ok());
        assert_eq!(bus.log.len(), 2);
        assert_eq!(bus.log[0], off_frame(md.ant().channel().base_register()));
        assert_eq!(
            bus.log[1],
            pca_write(vec![md.channel().base_register(), 0x23, 0x01, 0xDC, 0x0E])
        );
    }
}

#[test]
fn set_motor_speed_failure_after_antagonist_leaves_active_unwritten() {
    let mut bus = MockBus::new();
    let mut motors = init_motors(&mut bus);
    bus.inject_fault_after(1, BusError::NoAcknowledge);
    assert_eq!(
        motors.set_motor_speed(&mut bus, &MotorDirection::rrf(), 0xFFF),
        Err(BusError::NoAcknowledge)
    );
    // The antagonist-off write went through; the active-direction write
    // never happened, so both directions are never active together.
    assert_eq!(bus.log.len(), 1);
    assert_eq!(bus.log[0], off_frame(0x1E));
    assert_eq!(bus.refusals, vec![BusError::NoAcknowledge]);
}

#[test]
fn all_off_silences_all_eight_channels() {
    let mut bus = MockBus::new();
    let mut motors = init_motors(&mut bus);
    assert!(motors.all_off(&mut bus).is_ok());
    assert_eq!(bus.log.len(), 8);
    let bases = [0x0E, 0x12, 0x06, 0x0A, 0x16, 0x1A, 0x22, 0x1E];
    for (i, base) in bases.into_iter().enumerate() {
        assert_eq!(bus.log[i], off_frame(base));
    }
}

#[test]
fn all_off_stops_at_first_failure() {
    let mut bus = MockBus::new();
    let mut motors = init_motors(&mut bus);
    bus.inject_fault_after(3, BusError::Timeout);
    assert_eq!(motors.all_off(&mut bus), Err(BusError::Timeout));
    assert_eq!(bus.log.len(), 3);
}
