//! What only the MLX90614 has: its constructor and its readings.

use vstd::prelude::*;
use crate::address::{get_address, resolve, valid_address};
use crate::device::{Mlx9061x, DeviceView};
use crate::ic::{default_address, Mlx90614};
use crate::register_access::mlx90614::{DEV_ADDR, RAW_IR1, RAW_IR2, TA, TOBJ1, TOBJ2};
use crate::temperature::{celsius_hundredths, temperature_reply};
use crate::transfer::{word_from_bytes, WordRead};
use crate::types::{Error, SlaveAddr};

verus! {

impl<I2C, D> Mlx9061x<I2C, D, Mlx90614> {
    /// Makes a handle for an MLX90614.
    ///
    /// The address must be the one stored in the device's EEPROM; to change
    /// it, make the handle first and go on with `set_address`. An explicit
    /// address outside the legal range is rejected with
    /// [`Error::InvalidInputData`]. Nothing is asked of the bus: the address
    /// is taken on trust.
    pub fn new_mlx90614<E>(
        i2c: I2C,
        address: SlaveAddr,
        delay_ms: D,
        eeprom_write_delay_ms: u8,
    ) -> (device: Result<Self, Error<E>>)
        ensures
            resolve(address, DEV_ADDR) matches Some(resolved) ==> device is Ok && device->Ok_0@
                == (DeviceView { bus: i2c, delay: delay_ms, address: resolved, eeprom_write_delay_ms }),
            resolve(address, DEV_ADDR) is None ==> device matches Err(Error::InvalidInputData),
    {
        match get_address::<E>(address, default_address::<Mlx90614>()) {
            Ok(resolved) => Ok(Mlx9061x::assemble(i2c, delay_ms, resolved, eeprom_write_delay_ms)),
            Err(e) => Err(e),
        }
    }

    /// The transfer that reads the ambient temperature.
    pub fn ambient_temperature_request(&self) -> (request: WordRead)
        ensures
            request == (WordRead { address: self@.address, register: TA }),
            valid_address(request.address),
    {
        self.read_word_request(TA)
    }

    /// The ambient temperature in hundredths of a degree Celsius, from what
    /// the read of it came to.
    pub fn ambient_temperature<E>(&self, reply: Result<[u8; 2], E>) -> (temperature: Result<
        i32,
        Error<E>,
    >)
        ensures
            reply matches Ok(data) ==> temperature is Ok && temperature->Ok_0
                == celsius_hundredths(word_from_bytes(data[0], data[1])),
            reply matches Err(e) ==> temperature == Err::<i32, Error<E>>(Error::BusError(e)),
    {
        temperature_reply(reply)
    }

    /// The transfer that reads the temperature of object 1.
    pub fn object1_temperature_request(&self) -> (request: WordRead)
        ensures
            request == (WordRead { address: self@.address, register: TOBJ1 }),
            valid_address(request.address),
    {
        self.read_word_request(TOBJ1)
    }

    /// The temperature of object 1 in hundredths of a degree Celsius, from what
    /// the read of it came to.
    pub fn object1_temperature<E>(&self, reply: Result<[u8; 2], E>) -> (temperature: Result<
        i32,
        Error<E>,
    >)
        ensures
            reply matches Ok(data) ==> temperature is Ok && temperature->Ok_0
                == celsius_hundredths(word_from_bytes(data[0], data[1])),
            reply matches Err(e) ==> temperature == Err::<i32, Error<E>>(Error::BusError(e)),
    {
        temperature_reply(reply)
    }

    /// The transfer that reads the temperature of object 2.
    pub fn object2_temperature_request(&self) -> (request: WordRead)
        ensures
            request == (WordRead { address: self@.address, register: TOBJ2 }),
            valid_address(request.address),
    {
        self.read_word_request(TOBJ2)
    }

    /// The temperature of object 2 in hundredths of a degree Celsius, from what
    /// the read of it came to.
    pub fn object2_temperature<E>(&self, reply: Result<[u8; 2], E>) -> (temperature: Result<
        i32,
        Error<E>,
    >)
        ensures
            reply matches Ok(data) ==> temperature is Ok && temperature->Ok_0
                == celsius_hundredths(word_from_bytes(data[0], data[1])),
            reply matches Err(e) ==> temperature == Err::<i32, Error<E>>(Error::BusError(e)),
    {
        temperature_reply(reply)
    }

    /// The transfer that reads the raw data of infrared channel 1.
    pub fn raw_ir_channel1_request(&self) -> (request: WordRead)
        ensures
            request == (WordRead { address: self@.address, register: RAW_IR1 }),
            valid_address(request.address),
    {
        self.read_word_request(RAW_IR1)
    }

    /// The raw data of infrared channel 1 as it stands in the register, from what the
    /// read of it came to.
    pub fn raw_ir_channel1<E>(&self, reply: Result<[u8; 2], E>) -> (raw: Result<u16, Error<E>>)
        ensures
            reply matches Ok(data) ==> raw == Ok::<u16, Error<E>>(
                word_from_bytes(data[0], data[1]),
            ),
            reply matches Err(e) ==> raw == Err::<u16, Error<E>>(Error::BusError(e)),
    {
        self.read_word(reply)
    }
    /// The transfer that reads the raw data of infrared channel 2.
    pub fn raw_ir_channel2_request(&self) -> (request: WordRead)
        ensures
            request == (WordRead { address: self@.address, register: RAW_IR2 }),
            valid_address(request.address),
    {
        self.read_word_request(RAW_IR2)
    }

    /// The raw data of infrared channel 2 as it stands in the register, from what the
    /// read of it came to.
    pub fn raw_ir_channel2<E>(&self, reply: Result<[u8; 2], E>) -> (raw: Result<u16, Error<E>>)
        ensures
            reply matches Ok(data) ==> raw == Ok::<u16, Error<E>>(
                word_from_bytes(data[0], data[1]),
            ),
            reply matches Err(e) ==> raw == Err::<u16, Error<E>>(Error::BusError(e)),
    {
        self.read_word(reply)
    }
}

} // verus!
