//! The LSM303DLHC accelerometer driver.
//!
//! Initialization writes the output-data-rate and axis-enable bits to the
//! first control register; a sample is six output-register bytes read in
//! one auto-incrementing burst and decoded as three little-endian signed
//! 16-bit words in X, Y, Z order.

use vstd::prelude::*;

use crate::bus::{is_write_read, read_result, Bus, BusError, Transaction};
use crate::codec;
use crate::codec::le_i16;
use crate::sample_buffer::Sample;

verus! {

/// The accelerometer's fixed bus address.
pub const LSM_ACC_I2C_ADDR: u8 = 0b001_1001;

/// First control register: data rate in the top four bits, low-power and
/// axis-enable flags in the low bits.
pub const CTRL_REG1_A: u8 = 0x20;

/// Low bits of the control register: low-power mode off, Z, Y and X axes
/// enabled.
pub const ACC_AXES_ENABLE: u8 = 0b0111;

/// First output register (X low byte); output registers run to `0x2D`.
pub const OUT_X_L_A: u8 = 0x28;

/// Bit 0 of the start-register byte requests register auto-increment for
/// the burst read.
pub const ACC_AUTO_INCREMENT: u8 = 0b0000_0001;

/// Selectable output data rates (control-register table).
#[derive(Clone, Debug)]
pub enum DataRate {
    PowerDown,
    Rate1hz,
    Rate10Hz,
    Rate25Hz,
    Rate50Hz,
    Rate100Hz,
    Rate200Hz,
    Rate400Hz,
}

impl DataRate {
    /// The rate's control-register encoding: its index in the top four
    /// bits.
    pub open spec fn spec_bits(self) -> u8 {
        match self {
            DataRate::PowerDown => 0x00,
            DataRate::Rate1hz => 0x10,
            DataRate::Rate10Hz => 0x20,
            DataRate::Rate25Hz => 0x30,
            DataRate::Rate50Hz => 0x40,
            DataRate::Rate100Hz => 0x50,
            DataRate::Rate200Hz => 0x60,
            DataRate::Rate400Hz => 0x70,
        }
    }

    /// See [`DataRate::spec_bits`].
    pub fn bits(&self) -> (r: u8)
        ensures
            r == self.spec_bits(),
    {
        match self {
            DataRate::PowerDown => 0x00,
            DataRate::Rate1hz => 0x10,
            DataRate::Rate10Hz => 0x20,
            DataRate::Rate25Hz => 0x30,
            DataRate::Rate50Hz => 0x40,
            DataRate::Rate100Hz => 0x50,
            DataRate::Rate200Hz => 0x60,
            DataRate::Rate400Hz => 0x70,
        }
    }
}

/// The sample encoded in a six-byte output burst: little-endian signed
/// words, in X, Y, Z register order.
pub open spec fn acc_sample_of(data: Seq<u8>) -> Sample
    recommends
        data.len() == 6,
{
    Sample {
        x: le_i16(data[0], data[1]) as i16,
        y: le_i16(data[2], data[3]) as i16,
        z: le_i16(data[4], data[5]) as i16,
    }
}

/// Handle to an initialized accelerometer.
#[allow(non_camel_case_types)]
pub struct LSM303LDHC_ACC {}

impl LSM303LDHC_ACC {
    /// Set the output data rate and enable all three axes: one write of
    /// the rate bits and the axis-enable bits to the control register.
    /// Fails exactly when the underlying write fails.
    pub fn init<B: Bus>(bus: &mut B, data_rate: DataRate) -> (r: Result<LSM303LDHC_ACC, BusError>)
        ensures
            r is Ok ==> final(bus).history() == old(bus).history().push(
                Transaction::Write {
                    addr: LSM_ACC_I2C_ADDR,
                    bytes: seq![CTRL_REG1_A, data_rate.spec_bits() | ACC_AXES_ENABLE],
                },
            ) && final(bus).failures() == old(bus).failures(),
            r matches Err(e) ==> final(bus).history() == old(bus).history()
                && final(bus).failures() == old(bus).failures().push(e),
    {
        let value = data_rate.bits() | ACC_AXES_ENABLE;
        match codec::write_register(bus, LSM_ACC_I2C_ADDR, CTRL_REG1_A, value) {
            Ok(()) => Ok(LSM303LDHC_ACC {}),
            Err(e) => Err(e),
        }
    }

    /// Read one 3-axis sample: a six-byte auto-incrementing burst from the
    /// first output register, decoded little-endian in X, Y, Z order.
    pub fn read_sample<B: Bus>(&mut self, bus: &mut B) -> (r: Result<Sample, BusError>)
        ensures
            r matches Ok(sample) ==> final(bus).history().len() == old(bus).history().len() + 1
                && final(bus).history().drop_last() == old(bus).history() && is_write_read(
                final(bus).history().last(),
                LSM_ACC_I2C_ADDR,
                seq![OUT_X_L_A | ACC_AUTO_INCREMENT],
                6,
            ) && sample == acc_sample_of(read_result(final(bus).history().last()))
                && final(bus).failures() == old(bus).failures(),
            r matches Err(e) ==> final(bus).history() == old(bus).history()
                && final(bus).failures() == old(bus).failures().push(e),
    {
        match codec::read_registers(bus, LSM_ACC_I2C_ADDR, OUT_X_L_A | ACC_AUTO_INCREMENT, 6) {
            Err(e) => Err(e),
            Ok(data) => {
                let x = codec::i16_from_le_bytes(data[0], data[1]);
                let y = codec::i16_from_le_bytes(data[2], data[3]);
                let z = codec::i16_from_le_bytes(data[4], data[5]);
                proof {
                    assert(bus.history().drop_last() =~= old(bus).history());
                }
                Ok(Sample { x, y, z })
            },
        }
    }
}

} // verus!
