//! Register map of the MLX90615.
//!
//! A location is the opcode of the memory it lives in combined with the
//! cell's index: EEPROM cells carry [`EEPROM_COMMAND`] in their upper bits,
//! RAM cells carry [`RAM_COMMAND`].

use vstd::prelude::*;

verus! {

/// Opcode bits that select the EEPROM.
pub const EEPROM_COMMAND: u8 = 0x10;

/// Opcode bits that select the RAM.
pub const RAM_COMMAND: u8 = 0x20;

/// Address the chip answers to when it leaves the factory.
pub const DEV_ADDR: u8 = 0x5B;

/// Command byte that puts the chip to sleep.
pub const SLEEP_COMMAND: u8 = 0xC6;

/// Raw infrared data (RAM cell 0x05).
pub const RAW_IR: u8 = 0x25;

/// Ambient temperature (RAM cell 0x06).
pub const TA: u8 = 0x26;

/// Object temperature (RAM cell 0x07).
pub const TOBJ: u8 = 0x27;

/// Bus address of the device (EEPROM cell 0x00).
pub const ADDRESS: u8 = 0x10;

} // verus!
