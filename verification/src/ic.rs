//! The chip variants, as types.
//!
//! Which variant a driver handle talks to is part of the handle's type, so
//! an operation a variant lacks is simply not there to call.

use vstd::prelude::*;
use crate::address::{valid_address, ResolvedAddress};
use crate::register_access::{mlx90614, mlx90615};

mod sealed;

verus! {

/// The part of a register map that both variants have.
#[derive(Debug, Clone, Copy, PartialEq, Eq, Structural)]
pub struct RegisterMap {
    /// Address the chip answers to when it leaves the factory.
    pub default_address: u8,
    /// Location of the EEPROM cell holding the chip's bus address.
    pub address: u8,
    /// Command byte that puts the chip to sleep.
    pub sleep_command: u8,
}

/// A chip variant: the register map that operations common to the whole
/// family are carried out with.
///
/// The two variants of this crate are the only ones there are: the trait
/// cannot be implemented elsewhere.
pub trait Variant: sealed::Sealed {
    /// The variant's register map.
    spec fn register_map() -> RegisterMap;

    /// The factory default of every variant is itself a legal address.
    proof fn default_address_is_valid()
        ensures
            valid_address(Self::register_map().default_address),
    ;

    /// The variant's register map, as data.
    fn registers() -> (map: RegisterMap)
        ensures
            map == Self::register_map(),
    ;
}

/// The factory default of variant `IC`, as a resolved address.
pub fn default_address<IC: Variant>() -> (address: ResolvedAddress)
    ensures
        address@ == IC::register_map().default_address,
{
    let map = IC::registers();
    proof {
        IC::default_address_is_valid();
    }
    ResolvedAddress::from_valid(map.default_address)
}

/// Marker for the MLX90614.
#[derive(Debug)]
pub struct Mlx90614(());

/// Marker for the MLX90615.
#[derive(Debug)]
pub struct Mlx90615(());

impl Variant for Mlx90614 {
    open spec fn register_map() -> RegisterMap {
        RegisterMap {
            default_address: mlx90614::DEV_ADDR,
            address: mlx90614::ADDRESS,
            sleep_command: mlx90614::SLEEP_COMMAND,
        }
    }

    proof fn default_address_is_valid() {
    }

    fn registers() -> (map: RegisterMap) {
        RegisterMap {
            default_address: mlx90614::DEV_ADDR,
            address: mlx90614::ADDRESS,
            sleep_command: mlx90614::SLEEP_COMMAND,
        }
    }
}

impl Variant for Mlx90615 {
    open spec fn register_map() -> RegisterMap {
        RegisterMap {
            default_address: mlx90615::DEV_ADDR,
            address: mlx90615::ADDRESS,
            sleep_command: mlx90615::SLEEP_COMMAND,
        }
    }

    proof fn default_address_is_valid() {
    }

    fn registers() -> (map: RegisterMap) {
        RegisterMap {
            default_address: mlx90615::DEV_ADDR,
            address: mlx90615::ADDRESS,
            sleep_command: mlx90615::SLEEP_COMMAND,
        }
    }
}

} // verus!
