//! The transfers the driver asks for, byte for byte, and the meaning of
//! what comes back.
//!
//! A read sends the one-byte register pointer and reads the value back in
//! the same transaction; a 16-bit value travels low byte first. A write
//! sends the register pointer (or command byte) followed by the payload.

use vstd::prelude::*;
use crate::types::Error;

verus! {

/// The low byte of a 16-bit word.
pub open spec fn low_byte(word: u16) -> u8 {
    (word % 256) as u8
}

/// The high byte of a 16-bit word.
pub open spec fn high_byte(word: u16) -> u8 {
    (word / 256) as u8
}

/// The 16-bit word that travels as `low` followed by `high`.
pub open spec fn word_from_bytes(low: u8, high: u8) -> u16 {
    (low + 256 * high) as u16
}

/// Splitting a word into its two bytes and joining them again gives the
/// word back, and the other way round.
pub proof fn word_bytes_round_trip(word: u16, low: u8, high: u8)
    ensures
        word_from_bytes(low_byte(word), high_byte(word)) == word,
        low_byte(word_from_bytes(low, high)) == low,
        high_byte(word_from_bytes(low, high)) == high,
{
}

/// A write of a single command byte.
#[derive(Debug, Clone, Copy, PartialEq, Eq, Structural)]
pub struct Command {
    /// Bus address of the device.
    pub address: u8,
    /// The command byte.
    pub command: u8,
}

/// A write of a 16-bit value into a register.
#[derive(Debug, Clone, Copy, PartialEq, Eq, Structural)]
pub struct WordWrite {
    /// Bus address of the device.
    pub address: u8,
    /// Location of the register.
    pub register: u8,
    /// The value to store.
    pub value: u16,
}

/// A read of one byte from a register.
#[derive(Debug, Clone, Copy, PartialEq, Eq, Structural)]
pub struct ByteRead {
    /// Bus address of the device.
    pub address: u8,
    /// Location of the register.
    pub register: u8,
}

/// A read of a 16-bit value from a register.
#[derive(Debug, Clone, Copy, PartialEq, Eq, Structural)]
pub struct WordRead {
    /// Bus address of the device.
    pub address: u8,
    /// Location of the register.
    pub register: u8,
}

impl Command {
    /// The bytes that go over the bus: the command byte alone.
    pub open spec fn wire(self) -> Seq<u8> {
        seq![self.command]
    }

    /// The bytes to hand to the bus's write primitive.
    pub fn bytes(&self) -> (out: [u8; 1])
        ensures
            out@ == self.wire(),
    {
        let out = [self.command];
        assert(out@ =~= self.wire());
        out
    }
}

impl WordWrite {
    /// The bytes that go over the bus: the register pointer, then the value
    /// with its low byte first.
    pub open spec fn wire(self) -> Seq<u8> {
        seq![self.register, low_byte(self.value), high_byte(self.value)]
    }

    /// The bytes to hand to the bus's write primitive.
    pub fn bytes(&self) -> (out: [u8; 3])
        ensures
            out@ == self.wire(),
    {
        let value: u16 = self.value;
        let low: u8 = (value & 0xFF) as u8;
        let high: u8 = (value >> 8) as u8;
        assert(value & 0xFF == value % 256 && value >> 8 == value / 256) by (bit_vector);
        let out = [self.register, low, high];
        assert(out@ =~= self.wire());
        out
    }
}

impl ByteRead {
    /// The bytes written before the read: the register pointer.
    pub open spec fn pointer(self) -> Seq<u8> {
        seq![self.register]
    }

    /// The bytes to hand to the bus as the write half of the transaction.
    pub fn bytes(&self) -> (out: [u8; 1])
        ensures
            out@ == self.pointer(),
    {
        let out = [self.register];
        assert(out@ =~= self.pointer());
        out
    }
}

impl WordRead {
    /// The bytes written before the read: the register pointer.
    pub open spec fn pointer(self) -> Seq<u8> {
        seq![self.register]
    }

    /// The bytes to hand to the bus as the write half of the transaction.
    pub fn bytes(&self) -> (out: [u8; 1])
        ensures
            out@ == self.pointer(),
    {
        let out = [self.register];
        assert(out@ =~= self.pointer());
        out
    }
}

/// What a finished write amounts to: nothing on success, the bus's error
/// wrapped unchanged on failure.
pub fn write_reply<E>(outcome: Result<(), E>) -> (done: Result<(), Error<E>>)
    ensures
        outcome is Ok ==> done is Ok,
        outcome matches Err(e) ==> done == Err::<(), Error<E>>(Error::BusError(e)),
{
    match outcome {
        Ok(()) => Ok(()),
        Err(e) => Err(Error::BusError(e)),
    }
}

/// What a finished one-byte read amounts to: the byte as it was read, or
/// the bus's error wrapped unchanged.
pub fn byte_reply<E>(reply: Result<[u8; 1], E>) -> (byte: Result<u8, Error<E>>)
    ensures
        reply matches Ok(data) ==> byte == Ok::<u8, Error<E>>(data[0]),
        reply matches Err(e) ==> byte == Err::<u8, Error<E>>(Error::BusError(e)),
{
    match reply {
        Ok(data) => Ok(data[0]),
        Err(e) => Err(Error::BusError(e)),
    }
}

/// What a finished two-byte read amounts to: the word whose low byte came
/// first, or the bus's error wrapped unchanged.
pub fn word_reply<E>(reply: Result<[u8; 2], E>) -> (word: Result<u16, Error<E>>)
    ensures
        reply matches Ok(data) ==> word == Ok::<u16, Error<E>>(word_from_bytes(data[0], data[1])),
        reply matches Err(e) ==> word == Err::<u16, Error<E>>(Error::BusError(e)),
{
    match reply {
        Ok(data) => {
            let low: u16 = data[0] as u16;
            let high: u16 = data[1] as u16;
            assert(low | (high << 8) == low + 256 * high) by (bit_vector)
                requires
                    low < 256,
                    high < 256,
            ;
            Ok(low | (high << 8))
        },
        Err(e) => Err(Error::BusError(e)),
    }
}

} // verus!
