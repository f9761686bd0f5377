//! An instruction-level emulator core for the WDC W65C02S microprocessor.
//!
//! The crate is split in three layers, leaves first: paged memory segments
//! ([`memory`]), the address decoder that routes a 16-bit address to a segment
//! ([`bus`]), and the processor itself ([`cpu`]). Beside them stand the
//! decisions of the command line ([`cli`]).
pub mod bus;
pub mod cli;
pub mod cpu;
pub mod memory;
