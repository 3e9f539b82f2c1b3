//! Register-level model of a 3-axis digital accelerometer reachable over a
//! byte-addressed peripheral bus.
//!
//! The crate holds the device's register address map, the bitfield constants
//! used to read and build register bytes, the closed configuration fields
//! (output data rate, full-scale range, FIFO mode, resolution mode) with a
//! total `encode` and a fallible `decode`, and the conversion from a raw
//! left-justified two's-complement sample to a physical acceleration value.
//! Bus transport is a caller's concern: the crate only consumes and produces
//! plain bytes and integers.
#![allow(non_upper_case_globals)]

pub mod reg;
