//! Resolution of an address selector into the 7-bit address used on the bus.

use vstd::prelude::*;
use crate::types::{Error, SlaveAddr};

verus! {

/// Lowest address a device of this family can be given.
pub const MIN_ADDRESS: u8 = 0x01;

/// Highest address a device of this family can be given.
pub const MAX_ADDRESS: u8 = 0x7F;

/// Whether `address` is a 7-bit address the chip family accepts.
pub open spec fn valid_address(address: u8) -> bool {
    MIN_ADDRESS <= address <= MAX_ADDRESS
}

/// The address a selector stands for, or `None` where it names an address
/// the chip family does not accept.
pub open spec fn resolve(selector: SlaveAddr, default: u8) -> Option<u8> {
    match selector {
        SlaveAddr::Default => Some(default),
        SlaveAddr::Alternative(a) => if valid_address(a) {
            Some(a)
        } else {
            None
        },
    }
}

/// A bus address that has passed validation.
///
/// A value of this type always lies within the family's legal range, so
/// whatever holds one never has to check it again.
#[derive(Debug, Clone, Copy)]
pub struct ResolvedAddress {
    value: u8,
}

impl View for ResolvedAddress {
    type V = u8;

    closed spec fn view(&self) -> u8 {
        self.value
    }
}

impl ResolvedAddress {
    #[verifier::type_invariant]
    spec fn in_range(self) -> bool {
        valid_address(self.value)
    }

    /// Wraps an address already known to be valid.
    pub(crate) fn from_valid(value: u8) -> (address: Self)
        requires
            valid_address(value),
        ensures
            address@ == value,
    {
        ResolvedAddress { value }
    }

    /// The 7-bit address to put on the bus.
    pub fn get(&self) -> (value: u8)
        ensures
            value == self@,
            valid_address(value),
    {
        proof {
            use_type_invariant(self);
        }
        self.value
    }
}

/// Resolves `selector` against a variant's factory default.
///
/// The default is taken as it is. An explicit address is returned unchanged
/// when it is valid and rejected with [`Error::InvalidInputData`] otherwise.
/// Nothing but the two arguments is consulted.
pub fn get_address<E>(selector: SlaveAddr, default: ResolvedAddress) -> (resolved: Result<
    ResolvedAddress,
    Error<E>,
>)
    ensures
        selector is Default ==> resolved == Ok::<ResolvedAddress, Error<E>>(default),
        selector matches SlaveAddr::Alternative(a) ==> (valid_address(a) ==> resolved is Ok
            && resolved->Ok_0@ == a),
        selector matches SlaveAddr::Alternative(a) ==> (!valid_address(a) ==> resolved == Err::<
            ResolvedAddress,
            Error<E>,
        >(Error::InvalidInputData)),
        resolved is Ok ==> resolve(selector, default@) == Some(resolved->Ok_0@),
        resolved is Err ==> resolve(selector, default@) is None,
{
    match selector {
        SlaveAddr::Default => Ok(default),
        SlaveAddr::Alternative(a) => {
            if a < MIN_ADDRESS || a > MAX_ADDRESS {
                Err(Error::InvalidInputData)
            } else {
                Ok(ResolvedAddress::from_valid(a))
            }
        },
    }
}

} // verus!
