//! The actions a driver issues on its transport, and the exact traces the
//! 4-bit nibble/pulse protocol produces.
//!
//! Expander bit layout: bits 4-7 carry the data nibble, bit 3 the backlight,
//! bit 2 the enable line, bit 1 is unused (read/write), bit 0 register-select
//! (0 = command, 1 = data).

use vstd::prelude::*;

verus! {

/// Enable bit on the expander.
pub const EN: u8 = 0b0000_0100;

/// Register-select bit on the expander (set for data, clear for commands).
pub const RS: u8 = 0b0000_0001;

/// One action on the transport: a single-byte I2C write to the configured
/// address, or a timed suspension of the given length.
#[derive(Clone, Copy, Debug, PartialEq, Eq, Structural)]
pub enum BusOp {
    Write(u8),
    DelayMicros(u64),
    DelayMillis(u64),
}

/// Trace of one expander write: the backlight bits are OR'd into the raw byte
/// and a single byte goes out on the bus.
pub open spec fn expander_ops(light: u8, data: u8) -> Seq<BusOp> {
    seq![BusOp::Write(light | data)]
}

/// Trace of one enable pulse: write the data with the enable bit set, hold
/// 1 microsecond, write it with the enable bit cleared through a bitwise
/// complement (which drives every other expander line high), settle
/// 50 microseconds.
pub open spec fn pulse_enable_ops(light: u8, data: u8) -> Seq<BusOp> {
    expander_ops(light, data | EN) + seq![BusOp::DelayMicros(1)] + expander_ops(light, data | !EN)
        + seq![BusOp::DelayMicros(50)]
}

/// Trace of one nibble transmission: present the nibble, then latch it with
/// an enable pulse.
pub open spec fn write_4_bits_ops(light: u8, data: u8) -> Seq<BusOp> {
    expander_ops(light, data) + pulse_enable_ops(light, data)
}

/// Trace of one full byte in 4-bit mode: high nibble first, then the low
/// nibble shifted up, each OR'd with the register-select `mode` bits.
pub open spec fn send_ops(light: u8, data: u8, mode: u8) -> Seq<BusOp> {
    write_4_bits_ops(light, (data & 0xf0) | mode) + write_4_bits_ops(
        light,
        ((data << 4) & 0xf0) | mode,
    )
}

} // verus!
