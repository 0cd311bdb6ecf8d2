//! Register maps of the two chip variants.

pub mod mlx90614;
pub mod mlx90615;
