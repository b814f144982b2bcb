//! Addressing-mode resolution: where the current instruction's operand lives.

use vstd::prelude::*;

use crate::bus::Device;
use crate::cpu::{next16, word, Cpu, Variant};
use crate::instructions::AddressingMode;
use crate::registers::Registers;

verus! {

/// Zero-page address `base + index`, wrapped within page zero.
pub open spec fn zp_index(base: u8, index: u8) -> u16 {
    (((base as u16) + (index as u16)) as u16) & 0x00FF
}

/// `base + index` modulo 0x10000.
pub open spec fn add16(base: u16, index: u8) -> u16 {
    if base + index > 0xFFFF {
        (base + index - 0x10000) as u16
    } else {
        (base + index) as u16
    }
}

/// 1 where indexing moved `target` off the page whose high byte is `hi`, else 0.
pub open spec fn page_penalty(target: u16, hi: u8) -> u8 {
    if (target & 0xFF00) != ((hi as u16) << 8) {
        1
    } else {
        0
    }
}

/// The byte `b` sign-extended to 16 bits.
pub open spec fn sign_extend(b: u8) -> u16 {
    if (b as u16) & 0x80 != 0 {
        (b as u16) | 0xFF00
    } else {
        b as u16
    }
}

impl<D: Device> Cpu<D> {
    /// This core with the effective address `addr` and the program counter `pc`.
    pub open spec fn with_target(self, addr: u16, pc: u16) -> Self {
        Cpu { addr_abs: addr, registers: Registers { pc, ..self.registers }, ..self }
    }

    /// The state after resolving `mode` at the program counter, and the extra cycles
    /// that the resolution costs. The addressing-mode latch is left as it was.
    pub open spec fn addressed(self, mode: AddressingMode) -> (Self, u8) {
        let r = self.registers;
        let pc1 = next16(r.pc);
        let pc2 = next16(pc1);
        let b0 = self.bus.peek(r.pc);
        let b1 = self.bus.peek(pc1);
        let base = word(b0, b1);
        match mode {
            AddressingMode::Implied => (Cpu { fetched: r.a, ..self }, 0),
            AddressingMode::Immediate => (self.with_target(r.pc, pc1), 0),
            AddressingMode::ZeroPage => (self.with_target(b0 as u16, pc1), 0),
            AddressingMode::ZeroPageX => (self.with_target(zp_index(b0, r.x), pc1), 0),
            AddressingMode::ZeroPageY => (self.with_target(zp_index(b0, r.y), pc1), 0),
            AddressingMode::Relative => (
                Cpu { addr_rel: sign_extend(b0), registers: Registers { pc: pc1, ..r }, ..self },
                0,
            ),
            AddressingMode::Absolute => (self.with_target(base, pc2), 0),
            AddressingMode::AbsoluteX => (
                self.with_target(add16(base, r.x), pc2),
                page_penalty(add16(base, r.x), b1),
            ),
            AddressingMode::AbsoluteY => (
                self.with_target(add16(base, r.y), pc2),
                page_penalty(add16(base, r.y), b1),
            ),
            AddressingMode::Indirect => {
                let hi_at = if self.variant == Variant::NMOS && b0 == 0xFF {
                    base & 0xFF00
                } else {
                    next16(base)
                };
                (self.with_target(word(self.bus.peek(base), self.bus.peek(hi_at)), pc2), 0)
            },
            AddressingMode::IndexedIndirect => {
                let lo = self.bus.peek(zp_index(b0, r.x));
                let hi = self.bus.peek(zp_index(b0, crate::registers::inc8(r.x)));
                (self.with_target(word(lo, hi), pc1), 0)
            },
            AddressingMode::IndirectIndexed => {
                let lo = self.bus.peek(zp_index(b0, 0));
                let hi = self.bus.peek(zp_index(b0, 1));
                (self.with_target(add16(word(lo, hi), r.y), pc1), page_penalty(
                    add16(word(lo, hi), r.y),
                    hi,
                ))
            },
        }
    }

    /// Resolves `mode`, recording it as the current mode; returns the extra cycles.
    pub fn execute_addr_mode(&mut self, mode: AddressingMode) -> (r: u8)
        ensures
            (*final(self), r) == (Cpu { addr_mode: mode, ..*old(self) }).addressed(mode),
    {
        self.addr_mode = mode;
        match mode {
            AddressingMode::Implied => self.addr_implied(),
            AddressingMode::Immediate => self.addr_immediate(),
            AddressingMode::ZeroPage => self.addr_zero_page(),
            AddressingMode::ZeroPageX => self.addr_zero_page_x(),
            AddressingMode::ZeroPageY => self.addr_zero_page_y(),
            AddressingMode::Relative => self.addr_relative(),
            AddressingMode::Absolute => self.addr_absolute(),
            AddressingMode::AbsoluteX => self.addr_absolute_x(),
            AddressingMode::AbsoluteY => self.addr_absolute_y(),
            AddressingMode::Indirect => self.addr_indirect(),
            AddressingMode::IndexedIndirect => self.addr_indexed_indirect(),
            AddressingMode::IndirectIndexed => self.addr_indirect_indexed(),
        }
    }

    /// No address: the operand is the accumulator.
    pub fn addr_implied(&mut self) -> (r: u8)
        ensures
            (*final(self), r) == old(self).addressed(AddressingMode::Implied),
    {
        self.fetched = self.registers.a;
        0
    }

    /// The operand is the byte after the opcode.
    pub fn addr_immediate(&mut self) -> (r: u8)
        ensures
            (*final(self), r) == old(self).addressed(AddressingMode::Immediate),
    {
        self.addr_abs = self.registers.pc;
        self.registers.pc = self.registers.pc.wrapping_add(1);
        0
    }

    fn zero_page_indexed(&mut self, index: u8) -> (r: u8)
        ensures
            (*final(self), r) == (old(self).with_target(
                zp_index(old(self).bus.peek(old(self).registers.pc), index),
                next16(old(self).registers.pc),
            ), 0u8),
    {
        let b0 = self.read(self.registers.pc);
        self.addr_abs = ((b0 as u16) + (index as u16)) & 0x00FF;
        self.registers.pc = self.registers.pc.wrapping_add(1);
        0
    }

    pub fn addr_zero_page(&mut self) -> (r: u8)
        ensures
            (*final(self), r) == old(self).addressed(AddressingMode::ZeroPage),
    {
        let r = self.zero_page_indexed(0);
        proof {
            let b0 = old(self).bus.peek(old(self).registers.pc);
            assert(zp_index(b0, 0) == b0 as u16) by (bit_vector);
        }
        r
    }

    pub fn addr_zero_page_x(&mut self) -> (r: u8)
        ensures
            (*final(self), r) == old(self).addressed(AddressingMode::ZeroPageX),
    {
        let x = self.registers.x;
        self.zero_page_indexed(x)
    }

    pub fn addr_zero_page_y(&mut self) -> (r: u8)
        ensures
            (*final(self), r) == old(self).addressed(AddressingMode::ZeroPageY),
    {
        let y = self.registers.y;
        self.zero_page_indexed(y)
    }

    /// A signed branch displacement, sign-extended into `addr_rel`.
    pub fn addr_relative(&mut self) -> (r: u8)
        ensures
            (*final(self), r) == old(self).addressed(AddressingMode::Relative),
    {
        let mut rel = self.read(self.registers.pc) as u16;
        self.registers.pc = self.registers.pc.wrapping_add(1);
        if rel & 0x80 != 0 {
            rel = rel | 0xFF00;
        }
        self.addr_rel = rel;
        0
    }

    /// The little-endian word after the opcode, plus `index`; 1 extra cycle where the
    /// sum leaves the word's page.
    fn absolute_indexed(&mut self, index: u8) -> (r: u8)
        ensures
            ({
                let pc = old(self).registers.pc;
                let b1 = old(self).bus.peek(next16(pc));
                let target = add16(word(old(self).bus.peek(pc), b1), index);
                (*final(self), r) == (old(self).with_target(target, next16(next16(pc))),
                page_penalty(target, b1))
            }),
    {
        let lo = self.read(self.registers.pc) as u16;
        let hi = self.read(self.registers.pc.wrapping_add(1)) as u16;
        self.addr_abs = ((hi << 8) | lo).wrapping_add(index as u16);
        self.registers.pc = self.registers.pc.wrapping_add(2);
        if (self.addr_abs & 0xFF00) != (hi << 8) {
            1
        } else {
            0
        }
    }

    pub fn addr_absolute(&mut self) -> (r: u8)
        ensures
            (*final(self), r) == old(self).addressed(AddressingMode::Absolute),
    {
        let lo = self.read(self.registers.pc);
        let hi = self.read(self.registers.pc.wrapping_add(1));
        self.addr_abs = ((hi as u16) << 8) | (lo as u16);
        self.registers.pc = self.registers.pc.wrapping_add(2);
        0
    }

    pub fn addr_absolute_x(&mut self) -> (r: u8)
        ensures
            (*final(self), r) == old(self).addressed(AddressingMode::AbsoluteX),
    {
        let x = self.registers.x;
        self.absolute_indexed(x)
    }

    pub fn addr_absolute_y(&mut self) -> (r: u8)
        ensures
            (*final(self), r) == old(self).addressed(AddressingMode::AbsoluteY),
    {
        let y = self.registers.y;
        self.absolute_indexed(y)
    }

    /// The word stored at the pointer after the opcode. On the NMOS part a pointer
    /// ending in 0xFF takes its high byte from the start of the same page.
    pub fn addr_indirect(&mut self) -> (r: u8)
        ensures
            (*final(self), r) == old(self).addressed(AddressingMode::Indirect),
    {
        let ptr_lo = self.read(self.registers.pc);
        let ptr_hi = self.read(self.registers.pc.wrapping_add(1));
        let ptr = ((ptr_hi as u16) << 8) | (ptr_lo as u16);
        let hi_at = if self.variant == Variant::NMOS && ptr_lo == 0xFF {
            ptr & 0xFF00
        } else {
            ptr.wrapping_add(1)
        };
        let lo = self.read(ptr);
        let hi = self.read(hi_at);
        self.addr_abs = ((hi as u16) << 8) | (lo as u16);
        self.registers.pc = self.registers.pc.wrapping_add(2);
        0
    }

    /// The word at the zero-page pointer `operand + X`, both bytes within page zero.
    pub fn addr_indexed_indirect(&mut self) -> (r: u8)
        ensures
            (*final(self), r) == old(self).addressed(AddressingMode::IndexedIndirect),
    {
        let t = self.read(self.registers.pc) as u16;
        let x = self.registers.x;
        let lo = self.read((t + x as u16) & 0x00FF);
        let hi = self.read((t + x.wrapping_add(1) as u16) & 0x00FF);
        self.addr_abs = ((hi as u16) << 8) | (lo as u16);
        self.registers.pc = self.registers.pc.wrapping_add(1);
        0
    }

    /// The word at the zero-page pointer after the opcode, plus Y; 1 extra cycle where
    /// adding Y leaves the word's page.
    pub fn addr_indirect_indexed(&mut self) -> (r: u8)
        ensures
            (*final(self), r) == old(self).addressed(AddressingMode::IndirectIndexed),
    {
        let t = self.read(self.registers.pc) as u16;
        let lo = self.read((t + 0) & 0x00FF) as u16;
        let hi = self.read((t + 1) & 0x00FF) as u16;
        self.addr_abs = ((hi << 8) | lo).wrapping_add(self.registers.y as u16);
        self.registers.pc = self.registers.pc.wrapping_add(1);
        if (self.addr_abs & 0xFF00) != (hi << 8) {
            1
        } else {
            0
        }
    }
}

} // verus!
