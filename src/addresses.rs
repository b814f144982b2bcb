//! The fixed vectors in high memory.

use vstd::prelude::*;

verus! {

/// Little-endian entry point of the non-maskable interrupt handler.
pub const NMI_VECTOR: u16 = 0xFFFA;

/// Little-endian entry point taken at reset.
pub const RESET_VECTOR: u16 = 0xFFFC;

/// Little-endian entry point of the maskable interrupt handler and of BRK.
pub const IRQ_VECTOR: u16 = 0xFFFE;

} // verus!
