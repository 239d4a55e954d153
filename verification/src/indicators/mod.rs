//! Moving averages over the closes of a bar sequence.

pub mod adaptive_moving_average;
pub mod simple_moving_average;
pub mod tri_average;
pub mod xaverage;

pub use adaptive_moving_average::AMA;
pub use simple_moving_average::SMA;
pub use tri_average::TMA;
pub use xaverage::XAverage;
