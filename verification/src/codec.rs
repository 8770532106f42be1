//! Register-oriented transaction framing, shared by all peripheral drivers.
//!
//! A register write is framed as the register byte followed by the value
//! byte(s), all in one bus transaction. A register read writes the start
//! register byte, then reads `count` bytes back in the same transaction;
//! devices that need an auto-increment flag for burst reads carry it
//! inside the start-register byte, as their register map defines it.
//!
//! Bus failures are surfaced verbatim; the codec never retries.
//!
//! The module also holds the signed 16-bit word decoders the sample
//! drivers share.

use vstd::prelude::*;

use crate::bus::{Bus, BusError, Transaction};

verus! {

/// The bytes of a register-write transaction: the register byte, then the
/// value bytes.
pub open spec fn write_frame(reg: u8, values: Seq<u8>) -> Seq<u8> {
    seq![reg] + values
}

/// Write one single-byte register: one transaction of `[reg, value]`.
pub fn write_register<B: Bus>(bus: &mut B, addr: u8, reg: u8, value: u8) -> (r: Result<
    (),
    BusError,
>)
    ensures
        r is Ok ==> final(bus).history() == old(bus).history().push(
            Transaction::Write { addr, bytes: seq![reg, value] },
        ) && final(bus).failures() == old(bus).failures(),
        r matches Err(e) ==> final(bus).history() == old(bus).history()
            && final(bus).failures() == old(bus).failures().push(e),
{
    let mut frame: Vec<u8> = Vec::new();
    frame.push(reg);
    frame.push(value);
    proof {
        assert(frame@ =~= seq![reg, value]);
    }
    bus.write(addr, frame)
}

/// Write a multi-byte register: one transaction of the register byte
/// followed by `values`.
pub fn write_register_bytes<B: Bus>(bus: &mut B, addr: u8, reg: u8, values: Vec<u8>) -> (r: Result<
    (),
    BusError,
>)
    ensures
        r is Ok ==> final(bus).history() == old(bus).history().push(
            Transaction::Write { addr, bytes: write_frame(reg, values@) },
        ) && final(bus).failures() == old(bus).failures(),
        r matches Err(e) ==> final(bus).history() == old(bus).history()
            && final(bus).failures() == old(bus).failures().push(e),
{
    let mut frame = values;
    frame.insert(0, reg);
    proof {
        assert(frame@ =~= write_frame(reg, values@));
    }
    bus.write(addr, frame)
}

/// Read `count` consecutive registers starting at `start_reg`: one
/// transaction that writes `[start_reg]` and reads `count` bytes back, in
/// device register order.
pub fn read_registers<B: Bus>(bus: &mut B, addr: u8, start_reg: u8, count: usize) -> (r: Result<
    Vec<u8>,
    BusError,
>)
    ensures
        r matches Ok(data) ==> data@.len() == count && final(bus).history() == old(
            bus,
        ).history().push(
            Transaction::WriteRead { addr, sent: seq![start_reg], received: data@ },
        ) && final(bus).failures() == old(bus).failures(),
        r matches Err(e) ==> final(bus).history() == old(bus).history()
            && final(bus).failures() == old(bus).failures().push(e),
{
    let mut sent: Vec<u8> = Vec::new();
    sent.push(start_reg);
    proof {
        assert(sent@ =~= seq![start_reg]);
    }
    bus.write_read(addr, sent, count)
}

/// The signed 16-bit value whose little-endian bytes are `lo`, `hi`
/// (two's complement), as a mathematical integer.
pub open spec fn le_i16(lo: u8, hi: u8) -> int {
    if hi >= 0x80 {
        hi * 0x100 + lo - 0x1_0000
    } else {
        hi * 0x100 + lo
    }
}

/// The signed 16-bit value whose big-endian bytes are `hi`, `lo`.
pub open spec fn be_i16(hi: u8, lo: u8) -> int {
    le_i16(lo, hi)
}

/// Decode a little-endian signed 16-bit word from its two bytes.
pub fn i16_from_le_bytes(lo: u8, hi: u8) -> (r: i16)
    ensures
        r as int == le_i16(lo, hi),
{
    let combined: i32 = (hi as i32) * 0x100 + (lo as i32);
    if combined >= 0x8000 {
        (combined - 0x1_0000) as i16
    } else {
        combined as i16
    }
}

/// Decode a big-endian signed 16-bit word from its two bytes.
pub fn i16_from_be_bytes(hi: u8, lo: u8) -> (r: i16)
    ensures
        r as int == be_i16(hi, lo),
{
    i16_from_le_bytes(lo, hi)
}

} // verus!
