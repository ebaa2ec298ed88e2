//! Arm PrimeCell UART (PL011): the driver's decisions, verified.
//!
//! Every operation of the PL011 driver either reads a register and
//! interprets the value, or computes values and writes them to registers.
//! This crate holds the interpretation and the computation; the volatile
//! register accesses themselves are performed by the caller, which hands
//! the values read to these functions and writes what they return.

pub mod error;
pub mod ident;
pub mod baud;
pub mod config;
pub mod registers;
pub mod driver;
pub mod serial;
