//! What only the MLX90615 has: its constructor and its readings.

use vstd::prelude::*;
use crate::address::{get_address, resolve, valid_address};
use crate::device::{Mlx9061x, DeviceView};
use crate::ic::{default_address, Mlx90615};
use crate::register_access::mlx90615::{DEV_ADDR, RAW_IR, TA, TOBJ};
use crate::temperature::{celsius_hundredths, temperature_reply};
use crate::transfer::{word_from_bytes, WordRead};
use crate::types::{Error, SlaveAddr};

verus! {

impl<I2C, D> Mlx9061x<I2C, D, Mlx90615> {
    /// Makes a handle for an MLX90615.
    ///
    /// The address must be the one stored in the device's EEPROM; to change
    /// it, make the handle first and go on with `set_address`. An explicit
    /// address outside the legal range is rejected with
    /// [`Error::InvalidInputData`]. Nothing is asked of the bus: the address
    /// is taken on trust.
    pub fn new_mlx90615<E>(
        i2c: I2C,
        address: SlaveAddr,
        delay_ms: D,
        eeprom_write_delay_ms: u8,
    ) -> (device: Result<Self, Error<E>>)
        ensures
            resolve(address, DEV_ADDR) matches Some(resolved) ==> device is Ok && device->Ok_0@
                == (DeviceView { bus: i2c, delay: delay_ms, address: resolved, eeprom_write_delay_ms }),
            resolve(address, DEV_ADDR) is None ==> device matches Err(Error::InvalidInputData),
    {
        match get_address::<E>(address, default_address::<Mlx90615>()) {
            Ok(resolved) => Ok(Mlx9061x::assemble(i2c, delay_ms, resolved, eeprom_write_delay_ms)),
            Err(e) => Err(e),
        }
    }

    /// The transfer that reads the ambient temperature.
    pub fn ambient_temperature_request(&self) -> (request: WordRead)
        ensures
            request == (WordRead { address: self@.address, register: TA }),
            valid_address(request.address),
    {
        self.read_word_request(TA)
    }

    /// The ambient temperature in hundredths of a degree Celsius, from what
    /// the read of it came to.
    pub fn ambient_temperature<E>(&self, reply: Result<[u8; 2], E>) -> (temperature: Result<
        i32,
        Error<E>,
    >)
        ensures
            reply matches Ok(data) ==> temperature is Ok && temperature->Ok_0
                == celsius_hundredths(word_from_bytes(data[0], data[1])),
            reply matches Err(e) ==> temperature == Err::<i32, Error<E>>(Error::BusError(e)),
    {
        temperature_reply(reply)
    }

    /// The transfer that reads the object temperature.
    pub fn object_temperature_request(&self) -> (request: WordRead)
        ensures
            request == (WordRead { address: self@.address, register: TOBJ }),
            valid_address(request.address),
    {
        self.read_word_request(TOBJ)
    }

    /// The object temperature in hundredths of a degree Celsius, from what
    /// the read of it came to.
    pub fn object_temperature<E>(&self, reply: Result<[u8; 2], E>) -> (temperature: Result<
        i32,
        Error<E>,
    >)
        ensures
            reply matches Ok(data) ==> temperature is Ok && temperature->Ok_0
                == celsius_hundredths(word_from_bytes(data[0], data[1])),
            reply matches Err(e) ==> temperature == Err::<i32, Error<E>>(Error::BusError(e)),
    {
        temperature_reply(reply)
    }

    /// The transfer that reads the raw infrared data.
    pub fn raw_ir_request(&self) -> (request: WordRead)
        ensures
            request == (WordRead { address: self@.address, register: RAW_IR }),
            valid_address(request.address),
    {
        self.read_word_request(RAW_IR)
    }

    /// The raw infrared data as it stands in the register, from what the
    /// read of it came to.
    pub fn raw_ir<E>(&self, reply: Result<[u8; 2], E>) -> (raw: Result<u16, Error<E>>)
        ensures
            reply matches Ok(data) ==> raw == Ok::<u16, Error<E>>(
                word_from_bytes(data[0], data[1]),
            ),
            reply matches Err(e) ==> raw == Err::<u16, Error<E>>(Error::BusError(e)),
    {
        self.read_word(reply)
    }
}

} // verus!
