//! A cycle-counting 6502-family CPU core with a hookable 64 KiB bus.

pub mod addresses;
pub mod addressing;
pub mod alu;
pub mod bus;
pub mod cpu;
pub mod handlers;
pub mod instructions;
pub mod registers;
