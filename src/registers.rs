//! The processor-visible register file and its status flags.

use vstd::prelude::*;

verus! {

/// One bit of the status register.
#[derive(Clone, Copy, Debug, PartialEq, Eq, Structural)]
pub enum Flag {
    Carry,
    Zero,
    InterruptDisable,
    DecimalMode,
    Break,
    Unused,
    Overflow,
    Negative,
}

impl Flag {
    /// The bit that this flag occupies in the status byte.
    pub open spec fn mask(self) -> u8 {
        match self {
            Flag::Carry => 0x01,
            Flag::Zero => 0x02,
            Flag::InterruptDisable => 0x04,
            Flag::DecimalMode => 0x08,
            Flag::Break => 0x10,
            Flag::Unused => 0x20,
            Flag::Overflow => 0x40,
            Flag::Negative => 0x80,
        }
    }

    pub fn bit(self) -> (r: u8)
        ensures
            r == self.mask(),
    {
        match self {
            Flag::Carry => 0x01,
            Flag::Zero => 0x02,
            Flag::InterruptDisable => 0x04,
            Flag::DecimalMode => 0x08,
            Flag::Break => 0x10,
            Flag::Unused => 0x20,
            Flag::Overflow => 0x40,
            Flag::Negative => 0x80,
        }
    }
}

/// Whether `f` is set in the status byte `flags`.
pub open spec fn flag_is_set(flags: u8, f: Flag) -> bool {
    flags & f.mask() != 0
}

/// The status byte `flags` with `f` set to `v`.
pub open spec fn with_flag(flags: u8, f: Flag, v: bool) -> u8 {
    if v {
        flags | f.mask()
    } else {
        flags & !f.mask()
    }
}

/// `flags` with Zero and Negative describing the byte `v`.
pub open spec fn with_zn(flags: u8, v: u8) -> u8 {
    with_flag(with_flag(flags, Flag::Zero, v == 0), Flag::Negative, v & 0x80 != 0)
}

/// `v + 1` modulo 256.
pub open spec fn inc8(v: u8) -> u8 {
    if v == 0xFF {
        0
    } else {
        (v + 1) as u8
    }
}

/// `v - 1` modulo 256.
pub open spec fn dec8(v: u8) -> u8 {
    if v == 0 {
        0xFF
    } else {
        (v - 1) as u8
    }
}

/// Computes `with_flag(flags, f, v)`.
pub fn flags_with(flags: u8, f: Flag, v: bool) -> (r: u8)
    ensures
        r == with_flag(flags, f, v),
{
    if v {
        flags | f.bit()
    } else {
        flags & !f.bit()
    }
}

/// Computes `with_zn(flags, v)`.
pub fn flags_zn(flags: u8, v: u8) -> (r: u8)
    ensures
        r == with_zn(flags, v),
{
    flags_with(flags_with(flags, Flag::Zero, v == 0), Flag::Negative, v & 0x80 != 0)
}

/// Computes `flag_is_set(flags, f)`.
pub fn flag_in(flags: u8, f: Flag) -> (r: bool)
    ensures
        r == flag_is_set(flags, f),
{
    flags & f.bit() != 0
}

#[derive(Clone, Copy, Debug, PartialEq, Eq)]
pub struct Registers {
    /// Accumulator.
    pub a: u8,
    pub x: u8,
    pub y: u8,
    /// Program counter.
    pub pc: u16,
    /// Stack pointer: an offset into page one.
    pub sp: u8,
    /// Status byte, one bit per `Flag`.
    pub flags: u8,
}

impl Registers {
    pub fn new() -> (r: Registers)
        ensures
            r == (Registers { a: 0, x: 0, y: 0, pc: 0, sp: 0, flags: 0 }),
    {
        Registers { a: 0x00, x: 0x00, y: 0x00, pc: 0x0000, sp: 0x00, flags: 0x00 }
    }

    pub fn set_flag(&mut self, flag: Flag, value: bool)
        ensures
            *final(self) == (Registers { flags: with_flag(old(self).flags, flag, value), ..*old(self) }),
    {
        if value {
            self.flags = self.flags | flag.bit();
        } else {
            self.flags = self.flags & !flag.bit();
        }
    }

    pub fn get_flag(&self, flag: Flag) -> (r: bool)
        ensures
            r == flag_is_set(self.flags, flag),
    {
        (self.flags & flag.bit()) != 0
    }

    pub fn increment_sp(&mut self)
        ensures
            *final(self) == (Registers { sp: inc8(old(self).sp), ..*old(self) }),
    {
        self.sp = self.sp.wrapping_add(1);
    }

    pub fn decrement_sp(&mut self)
        ensures
            *final(self) == (Registers { sp: dec8(old(self).sp), ..*old(self) }),
    {
        self.sp = self.sp.wrapping_sub(1);
    }
}

proof fn lemma_single_bits(p: u8, m: u8, n: u8)
    by (bit_vector)
    requires
        m == 1 || m == 2 || m == 4 || m == 8 || m == 16 || m == 32 || m == 64 || m == 128,
        n == 1 || n == 2 || n == 4 || n == 8 || n == 16 || n == 32 || n == 64 || n == 128,
        m != n,
    ensures
        (p | m) & m != 0,
        (p & !m) & m == 0,
        ((p | m) & n != 0) == (p & n != 0),
        ((p & !m) & n != 0) == (p & n != 0),
{
}

/// Setting a flag gives it the value asked for and leaves every other flag as it was.
pub proof fn lemma_set_flag_touches_one_bit(flags: u8, f: Flag, g: Flag, v: bool)
    ensures
        flag_is_set(with_flag(flags, f, v), f) == v,
        f != g ==> flag_is_set(with_flag(flags, f, v), g) == flag_is_set(flags, g),
{
    let other = if f == Flag::Carry { Flag::Zero } else { Flag::Carry };
    lemma_single_bits(flags, f.mask(), other.mask());
    if f != g {
        lemma_single_bits(flags, f.mask(), g.mask());
    }
}

} // verus!
