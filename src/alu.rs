//! The byte arithmetic of the instruction set: add and subtract with carry (binary
//! and decimal), compares, shifts and rotates. Each operation is a spec function
//! and an executable function proved equal to it.

use vstd::prelude::*;

use crate::registers::{flag_in, flag_is_set, flags_with, flags_zn, with_flag, with_zn, Flag, Registers};

verus! {

/// `a - b` modulo 256.
pub open spec fn wsub8(a: u8, b: u8) -> u8 {
    if a >= b {
        (a - b) as u8
    } else {
        (a + 256 - b) as u8
    }
}

/// The registers after adding `m` and the carry to the accumulator. Zero, Negative
/// and Overflow follow the binary sum; in decimal mode the accumulator and Carry
/// follow the packed-BCD sum.
pub open spec fn adc_spec(r: Registers, m: u8, decimal: bool) -> Registers {
    let c: u16 = if flag_is_set(r.flags, Flag::Carry) { 1 } else { 0 };
    let sum: u16 = (r.a as u16 + m as u16 + c) as u16;
    let bin = sum as u8;
    let overflow = (!(r.a ^ m) & (r.a ^ bin) & 0x80) != 0;
    let lo: u16 = ((r.a & 0x0F) as u16 + (m & 0x0F) as u16 + c) as u16;
    let adj: u16 = if decimal && lo > 9 { (sum + 6) as u16 } else { sum };
    let carry = if decimal { adj > 0x99 } else { sum > 0xFF };
    let res: u8 = if decimal && carry { (adj + 0x60) as u8 } else { adj as u8 };
    Registers {
        a: res,
        flags: with_flag(with_flag(with_zn(r.flags, bin), Flag::Carry, carry), Flag::Overflow, overflow),
        ..r
    }
}

pub fn adc_value(r: Registers, m: u8, decimal: bool) -> (o: Registers)
    ensures
        o == adc_spec(r, m, decimal),
{
    let c: u16 = if flag_in(r.flags, Flag::Carry) { 1 } else { 0 };
    let sum: u16 = r.a as u16 + m as u16 + c;
    let bin = sum as u8;
    let overflow = (!(r.a ^ m) & (r.a ^ bin) & 0x80) != 0;
    let lo: u16 = (r.a & 0x0F) as u16 + (m & 0x0F) as u16 + c;
    let adj: u16 = if decimal && lo > 9 { sum + 6 } else { sum };
    let carry = if decimal { adj > 0x99 } else { sum > 0xFF };
    let res: u8 = if decimal && carry { (adj + 0x60) as u8 } else { adj as u8 };
    let flags = flags_with(flags_with(flags_zn(r.flags, bin), Flag::Carry, carry), Flag::Overflow, overflow);
    Registers { a: res, flags, ..r }
}

/// The registers after subtracting `m` and the borrow (the inverted carry) from the
/// accumulator. The flags follow the binary difference; in decimal mode the
/// accumulator is the packed-BCD difference.
pub open spec fn sbc_spec(r: Registers, m: u8, decimal: bool) -> Registers {
    let bin = adc_spec(r, m ^ 0xFF, false);
    if decimal {
        let b: u8 = if flag_is_set(r.flags, Flag::Carry) { 0 } else { 1 };
        let x1 = if (r.a & 0x0F) < (m & 0x0F) + b { wsub8(bin.a, 6) } else { bin.a };
        let x2 = if !flag_is_set(bin.flags, Flag::Carry) { wsub8(x1, 0x60) } else { x1 };
        Registers { a: x2, ..bin }
    } else {
        bin
    }
}

pub fn sbc_value(r: Registers, m: u8, decimal: bool) -> (o: Registers)
    ensures
        o == sbc_spec(r, m, decimal),
{
    let bin = adc_value(r, m ^ 0xFF, false);
    if decimal {
        let b: u8 = if flag_in(r.flags, Flag::Carry) { 0 } else { 1 };
        let x1 = if ((r.a & 0x0F) as u16) < (m & 0x0F) as u16 + b as u16 {
            bin.a.wrapping_sub(6)
        } else {
            bin.a
        };
        let x2 = if !flag_in(bin.flags, Flag::Carry) { x1.wrapping_sub(0x60) } else { x1 };
        Registers { a: x2, ..bin }
    } else {
        bin
    }
}

/// The status after comparing `reg` with `m`: Carry when `reg >= m`, Zero and
/// Negative from `reg - m`.
pub open spec fn compare_spec(flags: u8, reg: u8, m: u8) -> u8 {
    with_flag(with_zn(flags, wsub8(reg, m)), Flag::Carry, reg >= m)
}

pub fn compare_value(flags: u8, reg: u8, m: u8) -> (r: u8)
    ensures
        r == compare_spec(flags, reg, m),
{
    flags_with(flags_zn(flags, reg.wrapping_sub(m)), Flag::Carry, reg >= m)
}

/// Shift left: the result and the status; bit 7 goes to Carry.
pub open spec fn asl_spec(v: u8, flags: u8) -> (u8, u8) {
    let r = v << 1;
    (r, with_flag(with_zn(flags, r), Flag::Carry, v & 0x80 != 0))
}

pub fn asl_value(v: u8, flags: u8) -> (o: (u8, u8))
    ensures
        o == asl_spec(v, flags),
{
    let r = v << 1;
    (r, flags_with(flags_zn(flags, r), Flag::Carry, v & 0x80 != 0))
}

/// Shift right: the result and the status; bit 0 goes to Carry.
pub open spec fn lsr_spec(v: u8, flags: u8) -> (u8, u8) {
    let r = v >> 1;
    (r, with_flag(with_zn(flags, r), Flag::Carry, v & 0x01 != 0))
}

pub fn lsr_value(v: u8, flags: u8) -> (o: (u8, u8))
    ensures
        o == lsr_spec(v, flags),
{
    let r = v >> 1;
    (r, flags_with(flags_zn(flags, r), Flag::Carry, v & 0x01 != 0))
}

/// Rotate left through Carry.
pub open spec fn rol_spec(v: u8, flags: u8) -> (u8, u8) {
    let r = (v << 1) | (if flag_is_set(flags, Flag::Carry) { 1u8 } else { 0u8 });
    (r, with_flag(with_zn(flags, r), Flag::Carry, v & 0x80 != 0))
}

pub fn rol_value(v: u8, flags: u8) -> (o: (u8, u8))
    ensures
        o == rol_spec(v, flags),
{
    let r = (v << 1) | (if flag_in(flags, Flag::Carry) { 1u8 } else { 0u8 });
    (r, flags_with(flags_zn(flags, r), Flag::Carry, v & 0x80 != 0))
}

/// Rotate right. With `chained`, Carry goes into bit 7 and bit 0 into Carry; without,
/// as on the early NMOS part, a zero goes into bit 7 and Carry is left alone.
pub open spec fn ror_spec(v: u8, flags: u8, chained: bool) -> (u8, u8) {
    if chained {
        let r = (v >> 1) | (if flag_is_set(flags, Flag::Carry) { 0x80u8 } else { 0u8 });
        (r, with_flag(with_zn(flags, r), Flag::Carry, v & 0x01 != 0))
    } else {
        let r = v >> 1;
        (r, with_zn(flags, r))
    }
}

pub fn ror_value(v: u8, flags: u8, chained: bool) -> (o: (u8, u8))
    ensures
        o == ror_spec(v, flags, chained),
{
    if chained {
        let r = (v >> 1) | (if flag_in(flags, Flag::Carry) { 0x80u8 } else { 0u8 });
        (r, flags_with(flags_zn(flags, r), Flag::Carry, v & 0x01 != 0))
    } else {
        let r = v >> 1;
        (r, flags_zn(flags, r))
    }
}

} // verus!
