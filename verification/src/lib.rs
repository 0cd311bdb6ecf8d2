//! Bus-agnostic core of a driver for the MLX90614 and MLX90615 infrared
//! thermometers.
//!
//! The chips sit on a two-wire register bus. This crate decides *what* goes
//! over that bus and what the answers mean; it never touches the bus
//! itself. Every operation comes in two parts: the transfer to make, and
//! what the outcome of that transfer amounts to. The caller that owns the
//! hardware makes the transfer in between. A change of address, which takes
//! several transfers with delays between them, is carried forward one
//! outcome at a time.

pub mod types;
pub mod address;
pub mod register_access;
pub mod ic;
pub mod transfer;
pub mod eeprom;
pub mod temperature;
pub mod device;
pub mod mlx90614;
pub mod mlx90615;

pub use crate::device::{AddressChange, Mlx9061x};
pub use crate::types::{Error, SlaveAddr};
