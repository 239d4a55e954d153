//! Volume bars and streaming indicators over trade ticks.
//!
//! Ticks are folded into bars that each hold exactly one interval of traded
//! volume; moving averages are then computed over the closes of those bars.
//! Prices and volumes are IEEE 754 single-precision numbers carried by their
//! bit patterns; toward a bar, volume is counted exactly, without rounding.

pub mod amount;
pub mod binary32;
pub mod datafeed;
pub mod domain;
pub mod indicators;
pub mod text;
pub mod routes;
pub mod storage;
