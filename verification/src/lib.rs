//! Core logic of a low-power environmental telemetry node: CRC-8 validation
//! and fixed-point decoding of raw HTU21 sensor readings, a fixed-topology
//! radio frame encoder, and the sampling-loop policy that decides when a
//! fresh reading is worth transmitting.

pub mod ds1307;
pub mod htu21;
pub mod sampling;
pub mod xbee;
