//! Register map of the MLX90614.
//!
//! A location is the opcode of the memory it lives in combined with the
//! cell's index: RAM cells are addressed directly, EEPROM cells carry
//! [`EEPROM_COMMAND`] in their upper bits.

use vstd::prelude::*;

verus! {

/// Opcode bits that select the EEPROM.
pub const EEPROM_COMMAND: u8 = 0x20;

/// Address the chip answers to when it leaves the factory.
pub const DEV_ADDR: u8 = 0x5A;

/// Command byte that puts the chip to sleep.
pub const SLEEP_COMMAND: u8 = 0xFF;

/// Raw data of the first infrared channel (RAM cell 0x04).
pub const RAW_IR1: u8 = 0x04;

/// Raw data of the second infrared channel (RAM cell 0x05).
pub const RAW_IR2: u8 = 0x05;

/// Ambient temperature (RAM cell 0x06).
pub const TA: u8 = 0x06;

/// Temperature of the first object (RAM cell 0x07).
pub const TOBJ1: u8 = 0x07;

/// Temperature of the second object (RAM cell 0x08).
pub const TOBJ2: u8 = 0x08;

/// Bus address of the device (EEPROM cell 0x0E).
pub const ADDRESS: u8 = 0x2E;

} // verus!
