//! Keeps the set of chip variants closed.

use vstd::prelude::*;
use crate::ic::{Mlx90614, Mlx90615};

verus! {

/// Implemented by the variants of this crate and by nothing else.
pub trait Sealed {

}

impl Sealed for Mlx90614 {

}

impl Sealed for Mlx90615 {

}

} // verus!
