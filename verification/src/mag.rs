//! The LSM303DLHC magnetometer driver.
//!
//! Initialization selects continuous conversion in the mode register and
//! writes the data rate to the rate register. A sample is six output
//! bytes from `0x03` decoded as big-endian signed 16-bit words — and the
//! device's wire order is X, Z, Y, not X, Y, Z, which the decoder
//! preserves.

use vstd::prelude::*;

use crate::bus::{is_write_read, read_result, Bus, BusError, Transaction};
use crate::codec;
use crate::codec::be_i16;

verus! {

/// The magnetometer's fixed bus address.
pub const LSM_MAG_I2C_ADDR: u8 = 0b001_1110;

/// Rate register: data rate in bits 2–4; bit 7 is set on configuration.
pub const CRA_REG_M: u8 = 0x00;

/// Bit 7 of the rate register, set when the rate is written.
pub const MAG_CRA_HIGH_BIT: u8 = 0x80;

/// Mode register.
pub const MR_REG_M: u8 = 0x02;

/// Mode value selecting continuous conversion.
pub const MAG_CONTINUOUS_CONVERSION: u8 = 0x00;

/// First output register (X high byte); the six output registers follow
/// in X, Z, Y order, high byte first.
pub const OUT_X_H_M: u8 = 0x03;

/// Selectable output data rates (rate-register table).
#[derive(Clone, Debug)]
pub enum DataRate {
    Rate0_75hz,
    Rate1_5Hz,
    Rate3Hz,
    Rate7_5Hz,
    Rate15Hz,
    Rate30Hz,
    Rate75Hz,
    Rate220Hz,
}

impl DataRate {
    /// The rate's register encoding: its index in bits 2–4.
    pub open spec fn spec_bits(self) -> u8 {
        match self {
            DataRate::Rate0_75hz => 0x00,
            DataRate::Rate1_5Hz => 0x04,
            DataRate::Rate3Hz => 0x08,
            DataRate::Rate7_5Hz => 0x0C,
            DataRate::Rate15Hz => 0x10,
            DataRate::Rate30Hz => 0x14,
            DataRate::Rate75Hz => 0x18,
            DataRate::Rate220Hz => 0x1C,
        }
    }

    /// See [`DataRate::spec_bits`].
    pub fn bits(&self) -> (r: u8)
        ensures
            r == self.spec_bits(),
    {
        match self {
            DataRate::Rate0_75hz => 0x00,
            DataRate::Rate1_5Hz => 0x04,
            DataRate::Rate3Hz => 0x08,
            DataRate::Rate7_5Hz => 0x0C,
            DataRate::Rate15Hz => 0x10,
            DataRate::Rate30Hz => 0x14,
            DataRate::Rate75Hz => 0x18,
            DataRate::Rate220Hz => 0x1C,
        }
    }
}

/// A 3-axis magnetometer reading in device-native units.
#[derive(Clone, Debug, PartialEq, Eq, Structural)]
pub struct MagData {
    /// X-axis reading.
    pub x: i16,
    /// Y-axis reading.
    pub y: i16,
    /// Z-axis reading.
    pub z: i16,
}

/// A temperature reading in device-native units.
#[derive(Clone, Debug, PartialEq, Eq, Structural)]
pub struct TempData(pub i16);

/// The reading encoded in a six-byte output burst: big-endian signed
/// words, in the device's X, Z, Y register order.
pub open spec fn mag_sample_of(data: Seq<u8>) -> MagData
    recommends
        data.len() == 6,
{
    MagData {
        x: be_i16(data[0], data[1]) as i16,
        z: be_i16(data[2], data[3]) as i16,
        y: be_i16(data[4], data[5]) as i16,
    }
}

/// The two transactions of magnetometer initialization, in issue order:
/// continuous conversion, then the data rate with the register's high bit.
pub open spec fn mag_init_writes(data_rate: DataRate) -> Seq<Transaction> {
    seq![
        Transaction::Write {
            addr: LSM_MAG_I2C_ADDR,
            bytes: seq![MR_REG_M, MAG_CONTINUOUS_CONVERSION],
        },
        Transaction::Write {
            addr: LSM_MAG_I2C_ADDR,
            bytes: seq![CRA_REG_M, data_rate.spec_bits() | MAG_CRA_HIGH_BIT],
        },
    ]
}

/// Handle to an initialized magnetometer.
#[allow(non_camel_case_types)]
pub struct LSM303LDHC_MAG {}

impl LSM303LDHC_MAG {
    /// Select continuous conversion, then set the output data rate.
    /// Fails exactly when one of the two underlying writes fails,
    /// stopping at the first.
    pub fn init<B: Bus>(bus: &mut B, data_rate: DataRate) -> (r: Result<LSM303LDHC_MAG, BusError>)
        ensures
            r is Ok ==> final(bus).history() == old(bus).history() + mag_init_writes(data_rate)
                && final(bus).failures() == old(bus).failures(),
            r matches Err(e) ==> (final(bus).history() == old(bus).history()
                || final(bus).history() == old(bus).history().push(mag_init_writes(data_rate)[0]))
                && final(bus).failures() == old(bus).failures().push(e),
    {
        match codec::write_register(bus, LSM_MAG_I2C_ADDR, MR_REG_M, MAG_CONTINUOUS_CONVERSION) {
            Err(e) => Err(e),
            Ok(()) => {
                let value = data_rate.bits() | MAG_CRA_HIGH_BIT;
                let r = codec::write_register(bus, LSM_MAG_I2C_ADDR, CRA_REG_M, value);
                proof {
                    if r is Ok {
                        assert(bus.history() =~= old(bus).history() + mag_init_writes(data_rate));
                    }
                }
                match r {
                    Ok(()) => Ok(LSM303LDHC_MAG {}),
                    Err(e) => Err(e),
                }
            },
        }
    }

    /// Read one single-byte register.
    pub fn read_reg<B: Bus>(&mut self, bus: &mut B, reg: u8) -> (r: Result<u8, BusError>)
        ensures
            r matches Ok(value) ==> final(bus).history().len() == old(bus).history().len() + 1
                && final(bus).history().drop_last() == old(bus).history() && is_write_read(
                final(bus).history().last(),
                LSM_MAG_I2C_ADDR,
                seq![reg],
                1,
            ) && value == read_result(final(bus).history().last())[0]
                && final(bus).failures() == old(bus).failures(),
            r matches Err(e) ==> final(bus).history() == old(bus).history()
                && final(bus).failures() == old(bus).failures().push(e),
    {
        match codec::read_registers(bus, LSM_MAG_I2C_ADDR, reg, 1) {
            Err(e) => Err(e),
            Ok(data) => {
                proof {
                    assert(bus.history().drop_last() =~= old(bus).history());
                }
                Ok(data[0])
            },
        }
    }

    /// Read one 3-axis reading: a six-byte burst from the first output
    /// register, decoded big-endian in the device's X, Z, Y wire order.
    pub fn read_sample<B: Bus>(&mut self, bus: &mut B) -> (r: Result<MagData, BusError>)
        ensures
            r matches Ok(sample) ==> final(bus).history().len() == old(bus).history().len() + 1
                && final(bus).history().drop_last() == old(bus).history() && is_write_read(
                final(bus).history().last(),
                LSM_MAG_I2C_ADDR,
                seq![OUT_X_H_M],
                6,
            ) && sample == mag_sample_of(read_result(final(bus).history().last()))
                && final(bus).failures() == old(bus).failures(),
            r matches Err(e) ==> final(bus).history() == old(bus).history()
                && final(bus).failures() == old(bus).failures().push(e),
    {
        match codec::read_registers(bus, LSM_MAG_I2C_ADDR, OUT_X_H_M, 6) {
            Err(e) => Err(e),
            Ok(data) => {
                let x = codec::i16_from_be_bytes(data[0], data[1]);
                let z = codec::i16_from_be_bytes(data[2], data[3]);
                let y = codec::i16_from_be_bytes(data[4], data[5]);
                proof {
                    assert(bus.history().drop_last() =~= old(bus).history());
                }
                Ok(MagData { x, y, z })
            },
        }
    }

    /// Temperature readout is not yet supported: the capability is
    /// declared, touches no bus state, and always answers `None` rather
    /// than a made-up reading.
    pub fn read_temp<B: Bus>(&mut self, bus: &mut B) -> (r: Option<TempData>)
        ensures
            r is None,
            final(bus).history() == old(bus).history(),
            final(bus).failures() == old(bus).failures(),
    {
        let _ = bus;
        None
    }
}

} // verus!
