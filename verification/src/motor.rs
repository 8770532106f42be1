//! The drive-motor layer above the PWM chip.
//!
//! Four motors, each drivable forward or backward; every (motor,
//! direction) pair maps to exactly one PWM channel through a fixed
//! bijection. Commanding a speed always forces the antagonist channel
//! (same motor, opposite direction) fully off *before* driving the
//! requested channel, so the chip never holds both directions of one
//! motor active, even if the second write never happens.

use vstd::prelude::*;

use crate::bus::{extended_by_prefix, Bus, BusError, Transaction};
use crate::pca::{pwm_write, pwm_writes, Led, PCA9685, PWM_MAX};

verus! {

/// One of the four drive motors.
#[derive(Clone, Copy, Debug, PartialEq, Eq, Structural)]
pub enum Motor {
    FrontLeft,
    FrontRight,
    RearLeft,
    RearRight,
}

/// A motor's sense of rotation.
#[derive(Clone, Copy, Debug, PartialEq, Eq, Structural)]
pub enum Direction {
    Forward,
    Backward,
}

/// The other sense of rotation.
pub open spec fn opposite(dir: Direction) -> Direction {
    match dir {
        Direction::Forward => Direction::Backward,
        Direction::Backward => Direction::Forward,
    }
}

/// A motor together with a direction to drive it in.
#[derive(Clone, Copy, Debug, PartialEq, Eq, Structural)]
pub struct MotorDirection {
    /// The motor being addressed.
    pub motor: Motor,
    /// The sense to drive it in.
    pub dir: Direction,
}

impl MotorDirection {
    /// The antagonist: same motor, opposite direction.
    pub open spec fn spec_ant(self) -> MotorDirection {
        MotorDirection { motor: self.motor, dir: opposite(self.dir) }
    }

    /// The PWM channel this pair drives: a fixed bijection determined by
    /// the vehicle's wiring (see [`lemma_channel_mapping_injective`]).
    pub open spec fn spec_channel(self) -> Led {
        match (self.motor, self.dir) {
            (Motor::FrontLeft, Direction::Forward) => Led::Led2,
            (Motor::FrontLeft, Direction::Backward) => Led::Led3,
            (Motor::FrontRight, Direction::Forward) => Led::Led0,
            (Motor::FrontRight, Direction::Backward) => Led::Led1,
            (Motor::RearLeft, Direction::Forward) => Led::Led4,
            (Motor::RearLeft, Direction::Backward) => Led::Led5,
            (Motor::RearRight, Direction::Forward) => Led::Led7,
            (Motor::RearRight, Direction::Backward) => Led::Led6,
        }
    }

    /// The MotorDirection's antagonist.
    pub fn ant(&self) -> (r: MotorDirection)
        ensures
            r == self.spec_ant(),
    {
        match self.dir {
            Direction::Forward => MotorDirection { motor: self.motor, dir: Direction::Backward },
            Direction::Backward => MotorDirection { motor: self.motor, dir: Direction::Forward },
        }
    }

    /// See [`MotorDirection::spec_channel`].
    pub fn channel(&self) -> (r: Led)
        ensures
            r == self.spec_channel(),
    {
        match (self.motor, self.dir) {
            (Motor::FrontLeft, Direction::Forward) => Led::Led2,
            (Motor::FrontLeft, Direction::Backward) => Led::Led3,
            (Motor::FrontRight, Direction::Forward) => Led::Led0,
            (Motor::FrontRight, Direction::Backward) => Led::Led1,
            (Motor::RearLeft, Direction::Forward) => Led::Led4,
            (Motor::RearLeft, Direction::Backward) => Led::Led5,
            (Motor::RearRight, Direction::Forward) => Led::Led7,
            (Motor::RearRight, Direction::Backward) => Led::Led6,
        }
    }

    /// Front left, forward.
    pub fn flf() -> (r: MotorDirection)
        ensures
            r == (MotorDirection { motor: Motor::FrontLeft, dir: Direction::Forward }),
    {
        MotorDirection { motor: Motor::FrontLeft, dir: Direction::Forward }
    }

    /// Front left, backward.
    pub fn flb() -> (r: MotorDirection)
        ensures
            r == (MotorDirection { motor: Motor::FrontLeft, dir: Direction::Backward }),
    {
        MotorDirection { motor: Motor::FrontLeft, dir: Direction::Backward }
    }

    /// Front right, forward.
    pub fn frf() -> (r: MotorDirection)
        ensures
            r == (MotorDirection { motor: Motor::FrontRight, dir: Direction::Forward }),
    {
        MotorDirection { motor: Motor::FrontRight, dir: Direction::Forward }
    }

    /// Front right, backward.
    pub fn frb() -> (r: MotorDirection)
        ensures
            r == (MotorDirection { motor: Motor::FrontRight, dir: Direction::Backward }),
    {
        MotorDirection { motor: Motor::FrontRight, dir: Direction::Backward }
    }

    /// Rear left, forward.
    pub fn rlf() -> (r: MotorDirection)
        ensures
            r == (MotorDirection { motor: Motor::RearLeft, dir: Direction::Forward }),
    {
        MotorDirection { motor: Motor::RearLeft, dir: Direction::Forward }
    }

    /// Rear left, backward.
    pub fn rlb() -> (r: MotorDirection)
        ensures
            r == (MotorDirection { motor: Motor::RearLeft, dir: Direction::Backward }),
    {
        MotorDirection { motor: Motor::RearLeft, dir: Direction::Backward }
    }

    /// Rear right, forward.
    pub fn rrf() -> (r: MotorDirection)
        ensures
            r == (MotorDirection { motor: Motor::RearRight, dir: Direction::Forward }),
    {
        MotorDirection { motor: Motor::RearRight, dir: Direction::Forward }
    }

    /// Rear right, backward.
    pub fn rrb() -> (r: MotorDirection)
        ensures
            r == (MotorDirection { motor: Motor::RearRight, dir: Direction::Backward }),
    {
        MotorDirection { motor: Motor::RearRight, dir: Direction::Backward }
    }
}

/// Law: each (motor, direction) pair maps to its own PWM channel — the
/// wiring table loses no command.
pub proof fn lemma_channel_mapping_injective(a: MotorDirection, b: MotorDirection)
    ensures
        a.spec_channel() == b.spec_channel() ==> a == b,
{
}

/// Law: a pair and its antagonist address the same motor but different
/// channels, and taking the antagonist twice returns the original pair.
pub proof fn lemma_antagonist(md: MotorDirection)
    ensures
        md.spec_ant().motor == md.motor,
        md.spec_ant().spec_channel() != md.spec_channel(),
        md.spec_ant().spec_ant() == md,
{
}

/// The transaction that forces a channel to 0% duty: on at `0x000`,
/// off at `0xFFF`.
pub open spec fn off_write(led: Led) -> Transaction {
    pwm_write(led, 0x000, PWM_MAX)
}

/// The two transactions of one speed command, in issue order: antagonist
/// channel forced off, then the requested channel programmed with
/// `on = speed`, `off = 0xFFF - speed` (duty proportional to
/// `speed / 0xFFF`).
pub open spec fn speed_writes(motor_dir: MotorDirection, speed: u16) -> Seq<Transaction>
    recommends
        speed <= PWM_MAX,
{
    seq![
        off_write(motor_dir.spec_ant().spec_channel()),
        pwm_write(motor_dir.spec_channel(), speed, (PWM_MAX - speed) as u16),
    ]
}

/// The channels of all eight (motor, direction) pairs, in the order
/// [`Motors::all_off`] silences them.
pub open spec fn all_motor_channels() -> Seq<Led> {
    seq![Led::Led2, Led::Led3, Led::Led0, Led::Led1, Led::Led4, Led::Led5, Led::Led7, Led::Led6]
}

/// The eight transactions of an emergency stop: every direction channel
/// forced to 0% duty.
pub open spec fn all_off_writes() -> Seq<Transaction> {
    pwm_writes(all_motor_channels(), 0x000, PWM_MAX)
}

/// The four drive motors, addressed through the PWM chip.
pub struct Motors {
    pca: PCA9685,
}

impl Motors {
    /// Take ownership of the chip and force every direction channel off.
    pub fn init<B: Bus>(pca: PCA9685, bus: &mut B) -> (r: Result<Motors, BusError>)
        ensures
            r is Ok ==> final(bus).history() == old(bus).history() + all_off_writes()
                && final(bus).failures() == old(bus).failures(),
            r matches Err(e) ==> extended_by_prefix(
                old(bus).history(),
                final(bus).history(),
                all_off_writes(),
            ) && final(bus).failures() == old(bus).failures().push(e),
    {
        let mut motors = Motors { pca };
        match motors.all_off(bus) {
            Ok(()) => Ok(motors),
            Err(e) => Err(e),
        }
    }

    /// Set a motor's speed in the given direction.
    ///
    /// Switches off the opposite direction first, as a motor can't go both
    /// forward and backward at the same time: the antagonist-off write is
    /// acknowledged before the active-direction write is issued, so the
    /// chip never holds both channels of one motor active.
    pub fn set_motor_speed<B: Bus>(
        &mut self,
        bus: &mut B,
        motor_dir: &MotorDirection,
        speed: u16,
    ) -> (r: Result<(), BusError>)
        requires
            speed <= PWM_MAX,
        ensures
            r is Ok ==> final(bus).history() == old(bus).history() + speed_writes(
                *motor_dir,
                speed,
            ) && final(bus).failures() == old(bus).failures(),
            r matches Err(e) ==> (final(bus).history() == old(bus).history()
                || final(bus).history() == old(bus).history().push(
                off_write(motor_dir.spec_ant().spec_channel()),
            )) && final(bus).failures() == old(bus).failures().push(e),
    {
        let ant_channel = motor_dir.ant().channel();
        match self.pca.set_pwm(bus, &ant_channel, 0x000, PWM_MAX) {
            Err(e) => Err(e),
            Ok(()) => {
                let ghost mid = bus.history();
                let channel = motor_dir.channel();
                let r = self.pca.set_pwm(bus, &channel, speed, PWM_MAX - speed);
                proof {
                    if r is Ok {
                        assert(bus.history() =~= old(bus).history() + speed_writes(
                            *motor_dir,
                            speed,
                        ));
                    }
                }
                r
            },
        }
    }

    /// Emergency stop: force all eight direction channels to 0% duty, in
    /// the fixed order of [`all_motor_channels`], stopping at the first
    /// failure.
    pub fn all_off<B: Bus>(&mut self, bus: &mut B) -> (r: Result<(), BusError>)
        ensures
            r is Ok ==> final(bus).history() == old(bus).history() + all_off_writes()
                && final(bus).failures() == old(bus).failures(),
            r matches Err(e) ==> extended_by_prefix(
                old(bus).history(),
                final(bus).history(),
                all_off_writes(),
            ) && final(bus).failures() == old(bus).failures().push(e),
    {
        let mut channels: Vec<Led> = Vec::new();
        channels.push(MotorDirection::flf().channel());
        channels.push(MotorDirection::flb().channel());
        channels.push(MotorDirection::frf().channel());
        channels.push(MotorDirection::frb().channel());
        channels.push(MotorDirection::rlf().channel());
        channels.push(MotorDirection::rlb().channel());
        channels.push(MotorDirection::rrf().channel());
        channels.push(MotorDirection::rrb().channel());
        proof {
            assert(channels@ =~= all_motor_channels());
        }
        self.pca.set_multple_pwm(bus, &channels, 0x000, PWM_MAX)
    }
}

} // verus!
