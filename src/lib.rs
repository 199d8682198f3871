//! A 6502 processor emulator whose core is specified and verified with Verus.
pub mod bus;
pub mod cpu;
pub mod devices;
