//! The 16-channel PWM driver chip (PCA9685) abstraction.
//!
//! Each channel is programmed with a 12-bit on-time / 12-bit off-time
//! pair, written as four bytes (on-low, on-high, off-low, off-high) in one
//! transaction to the channel's four-register block. The chip is put into
//! auto-increment addressing mode at initialization so those four bytes
//! land in consecutive registers.

use vstd::prelude::*;

use crate::bus::{Bus, BusError, Transaction};
use crate::codec;

verus! {

/// The chip's fixed bus address.
pub const PCA_I2C_ADDR: u8 = 0b100_0000;

/// The chip's mode register.
pub const MODE1: u8 = 0x00;

/// Mode value enabling register auto-increment (and all-call addressing),
/// required for the four-byte channel writes.
pub const MODE1_AUTO_INCREMENT: u8 = 0b0010_0001;

/// Largest value of a 12-bit on/off time.
pub const PWM_MAX: u16 = 0xFFF;

/// One PWM output channel. Each channel owns four consecutive registers
/// starting at its base register; `All` is the chip's all-channels alias.
#[derive(Clone, Copy, Debug, PartialEq, Eq, Structural)]
pub enum Led {
    Led0,
    Led1,
    Led2,
    Led3,
    Led4,
    Led5,
    Led6,
    Led7,
    Led8,
    Led9,
    Led10,
    Led11,
    Led12,
    Led13,
    Led14,
    Led15,
    All,
}

impl Led {
    /// The channel's base register: `0x06 + 4 * channel`, or the
    /// all-channels alias at `0xFA`.
    pub open spec fn spec_base_register(self) -> u8 {
        match self {
            Led::Led0 => 0x06,
            Led::Led1 => 0x0A,
            Led::Led2 => 0x0E,
            Led::Led3 => 0x12,
            Led::Led4 => 0x16,
            Led::Led5 => 0x1A,
            Led::Led6 => 0x1E,
            Led::Led7 => 0x22,
            Led::Led8 => 0x26,
            Led::Led9 => 0x2A,
            Led::Led10 => 0x2E,
            Led::Led11 => 0x32,
            Led::Led12 => 0x36,
            Led::Led13 => 0x3A,
            Led::Led14 => 0x3E,
            Led::Led15 => 0x42,
            Led::All => 0xFA,
        }
    }

    /// See [`Led::spec_base_register`].
    pub fn base_register(&self) -> (r: u8)
        ensures
            r == self.spec_base_register(),
    {
        match self {
            Led::Led0 => 0x06,
            Led::Led1 => 0x0A,
            Led::Led2 => 0x0E,
            Led::Led3 => 0x12,
            Led::Led4 => 0x16,
            Led::Led5 => 0x1A,
            Led::Led6 => 0x1E,
            Led::Led7 => 0x22,
            Led::Led8 => 0x26,
            Led::Led9 => 0x2A,
            Led::Led10 => 0x2E,
            Led::Led11 => 0x32,
            Led::Led12 => 0x36,
            Led::Led13 => 0x3A,
            Led::Led14 => 0x3E,
            Led::Led15 => 0x42,
            Led::All => 0xFA,
        }
    }
}

/// The four value bytes of a channel write: on-low, on-high, off-low,
/// off-high (each word split little-endian).
pub open spec fn pwm_payload(on: u16, off: u16) -> Seq<u8> {
    seq![(on % 0x100) as u8, (on / 0x100) as u8, (off % 0x100) as u8, (off / 0x100) as u8]
}

/// The whole transaction that programs channel `led` with the pair
/// `(on, off)`.
pub open spec fn pwm_write(led: Led, on: u16, off: u16) -> Transaction {
    Transaction::Write {
        addr: PCA_I2C_ADDR,
        bytes: codec::write_frame(led.spec_base_register(), pwm_payload(on, off)),
    }
}

/// The transactions that program each channel of `leds`, in order, all
/// with the pair `(on, off)`.
pub open spec fn pwm_writes(leds: Seq<Led>, on: u16, off: u16) -> Seq<Transaction> {
    leds.map_values(|led: Led| pwm_write(led, on, off))
}

/// Handle to an initialized PCA9685.
#[allow(non_camel_case_types)]
pub struct PCA9685 {}

impl PCA9685 {
    /// Enable auto-increment addressing; every later channel write relies
    /// on it.
    pub fn init<B: Bus>(bus: &mut B) -> (r: Result<PCA9685, BusError>)
        ensures
            r is Ok ==> final(bus).history() == old(bus).history().push(
                Transaction::Write {
                    addr: PCA_I2C_ADDR,
                    bytes: seq![MODE1, MODE1_AUTO_INCREMENT],
                },
            ) && final(bus).failures() == old(bus).failures(),
            r matches Err(e) ==> final(bus).history() == old(bus).history()
                && final(bus).failures() == old(bus).failures().push(e),
    {
        match codec::write_register(bus, PCA_I2C_ADDR, MODE1, MODE1_AUTO_INCREMENT) {
            Ok(()) => Ok(PCA9685 {}),
            Err(e) => Err(e),
        }
    }

    /// Program one channel with a 12-bit on/off pair: one transaction of
    /// the channel's base register followed by
    /// `[on low, on high, off low, off high]`.
    pub fn set_pwm<B: Bus>(&mut self, bus: &mut B, led: &Led, on: u16, off: u16) -> (r: Result<
        (),
        BusError,
    >)
        requires
            on <= PWM_MAX,
            off <= PWM_MAX,
        ensures
            r is Ok ==> final(bus).history() == old(bus).history().push(pwm_write(*led, on, off))
                && final(bus).failures() == old(bus).failures(),
            r matches Err(e) ==> final(bus).history() == old(bus).history()
                && final(bus).failures() == old(bus).failures().push(e),
    {
        let mut payload: Vec<u8> = Vec::new();
        payload.push((on % 0x100) as u8);
        payload.push((on / 0x100) as u8);
        payload.push((off % 0x100) as u8);
        payload.push((off / 0x100) as u8);
        proof {
            assert(payload@ =~= pwm_payload(on, off));
        }
        codec::write_register_bytes(bus, PCA_I2C_ADDR, led.base_register(), payload)
    }

    /// Program several channels with the same on/off pair, in order,
    /// stopping at the first failure and surfacing it.
    pub fn set_multple_pwm<B: Bus>(
        &mut self,
        bus: &mut B,
        leds: &Vec<Led>,
        on: u16,
        off: u16,
    ) -> (r: Result<(), BusError>)
        requires
            on <= PWM_MAX,
            off <= PWM_MAX,
        ensures
            r is Ok ==> final(bus).history() == old(bus).history() + pwm_writes(leds@, on, off)
                && final(bus).failures() == old(bus).failures(),
            r matches Err(e) ==> crate::bus::extended_by_prefix(
                old(bus).history(),
                final(bus).history(),
                pwm_writes(leds@, on, off),
            ) && final(bus).failures() == old(bus).failures().push(e),
    {
        let ghost base = old(bus).history();
        let ghost base_failures = old(bus).failures();
        let mut result: Result<(), BusError> = Ok(());
        let mut i: usize = 0;
        proof {
            assert(base + pwm_writes(leds@.subrange(0, 0), on, off) =~= base);
        }
        while i < leds.len()
            invariant_except_break
                on <= PWM_MAX,
                off <= PWM_MAX,
                i <= leds@.len(),
                result is Ok,
                bus.history() == base + pwm_writes(leds@.subrange(0, i as int), on, off),
                bus.failures() == base_failures,
            ensures
                result is Ok ==> i == leds@.len() && bus.history() == base + pwm_writes(
                    leds@.subrange(0, i as int),
                    on,
                    off,
                ) && bus.failures() == base_failures,
                result matches Err(e) ==> crate::bus::extended_by_prefix(
                    base,
                    bus.history(),
                    pwm_writes(leds@, on, off),
                ) && bus.failures() == base_failures.push(e),
            decreases leds@.len() - i,
        {
            let ghost before = bus.history();
            let led = leds[i];
            match self.set_pwm(bus, &led, on, off) {
                Ok(()) => {
                    proof {
                        let tx = pwm_write(leds@[i as int], on, off);
                        assert(pwm_writes(leds@.subrange(0, i + 1), on, off) =~= pwm_writes(
                            leds@.subrange(0, i as int),
                            on,
                            off,
                        ).push(tx));
                        assert(before.push(tx) =~= base + pwm_writes(
                            leds@.subrange(0, i + 1),
                            on,
                            off,
                        ));
                    }
                    i += 1;
                },
                Err(e) => {
                    proof {
                        let planned = pwm_writes(leds@, on, off);
                        assert(planned.subrange(0, i as int) =~= pwm_writes(
                            leds@.subrange(0, i as int),
                            on,
                            off,
                        ));
                        assert(crate::bus::extended_by_prefix(base, bus.history(), planned)) by {
                            assert(0 <= i < planned.len() && bus.history() == base
                                + planned.subrange(0, i as int));
                        }
                    }
                    result = Err(e);
                    break ;
                },
            }
        }
        proof {
            if result is Ok {
                assert(leds@.subrange(0, leds@.len() as int) =~= leds@);
            }
        }
        result
    }
}

} // verus!
