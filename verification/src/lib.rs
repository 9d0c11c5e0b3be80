//! Verified core of a battery-powered load-cell sensor node.
//!
//! The crate models the timing-critical part of the node: the bit-clock
//! serial protocol that shifts a 24-bit two's-complement sample out of the
//! analog-to-digital converter, the tare/calibration logic that establishes
//! a zero reference, and the retained-memory offset cell that carries that
//! reference across low-power sleep cycles.  Hardware access (GPIO lines,
//! microsecond delays, the interrupt guard around a transfer, Wi-Fi and the
//! upstream report) lives outside this crate; the functions here take the
//! observed line levels and decoded samples as plain values and are verified
//! for every such input.

pub mod calib;
pub mod persist;
pub mod reader;
pub mod scale;
