//! Driver core for a combined temperature/pressure/humidity sensor on a
//! two-wire bus: register-level decoding of the manufacturer calibration
//! coefficients, unpacking of raw measurement blocks, the measurement
//! control bytes and conversion wait time, and the integer half of the
//! compensation pipeline (fine temperature and the centi-degree reading).
//!
//! Bus traffic and the floating-point pressure/humidity compensation live
//! outside this crate; everything here is a pure function of plain values.

pub mod calibration;
pub mod device;
pub mod engine;
pub mod ident;
pub mod sample;
