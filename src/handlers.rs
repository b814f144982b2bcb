//! Instruction handlers: what each mnemonic does to the registers and the bus.

use vstd::prelude::*;

use crate::addresses::IRQ_VECTOR;
use crate::alu::{
    adc_spec, adc_value, asl_spec, asl_value, compare_spec, compare_value, lsr_spec, lsr_value,
    rol_spec, rol_value, ror_spec, ror_value, sbc_spec, sbc_value, wsub8,
};
use crate::bus::Device;
use crate::cpu::{next16, stack_addr, word, word_push_writes, Cpu, State, Variant};
use crate::instructions::{AddressingMode, Mnemonic};
use crate::registers::{dec8, flag_in, flag_is_set, flags_with, flags_zn, inc8, with_flag, with_zn, Flag, Registers};

verus! {

/// `a + b` modulo 0x10000.
pub open spec fn wadd16(a: u16, b: u16) -> u16 {
    if a + b > 0xFFFF {
        (a + b - 0x10000) as u16
    } else {
        (a + b) as u16
    }
}

/// `a - 1` modulo 0x10000.
pub open spec fn prev16(a: u16) -> u16 {
    if a == 0 {
        0xFFFF
    } else {
        (a - 1) as u16
    }
}

/// The status byte as PLP and RTI restore it: Break cleared, Unused set.
pub open spec fn pulled_flags(v: u8) -> u8 {
    (v & 0xEF) | 0x20
}

/// The value that SHX, SHY and AHX store: `v` masked by one more than the target's
/// high byte.
pub open spec fn high_masked(v: u8, addr: u16) -> u8 {
    v & inc8((addr >> 8) as u8)
}

impl<D: Device> Cpu<D> {
    /// Whether undocumented opcodes act: enabled, and not on the CMOS part, where they
    /// are no-ops.
    pub open spec fn illegal_active(self) -> bool {
        self.enable_illegal_opcodes && self.variant != Variant::CMOS
    }

    /// Whether ADC and SBC work in decimal with status `flags`: DecimalMode set, and
    /// not on the NES part, which has no decimal mode.
    pub open spec fn decimal_active(self, flags: u8) -> bool {
        flag_is_set(flags, Flag::DecimalMode) && self.variant != Variant::NES
    }

    /// Where the result of a read-modify-write goes: the accumulator in implied mode,
    /// else the resolved address. These are the registers with the result and `flags`.
    pub open spec fn written_back(self, result: u8, flags: u8) -> Registers {
        if self.addr_mode == AddressingMode::Implied {
            Registers { a: result, flags, ..self.registers }
        } else {
            Registers { flags, ..self.registers }
        }
    }

    /// `post` has read the operand and has the registers `regs`; nothing else changed.
    pub open spec fn loads(self, post: Self, regs: Registers) -> bool {
        post == Cpu { registers: regs, fetched: self.operand(), ..self }
    }

    /// `post` has only the registers `regs` changed.
    pub open spec fn sets(self, post: Self, regs: Registers) -> bool {
        post == Cpu { registers: regs, ..self }
    }

    /// `post` has stored `v` at the resolved address and has the registers `regs`.
    pub open spec fn stores(self, post: Self, v: u8, regs: Registers) -> bool {
        &&& self.bus.writes_to(seq![(self.addr_abs, v)], post.bus)
        &&& post == Cpu { registers: regs, bus: post.bus, ..self }
    }

    /// `post` has read the operand, written `result` back where it came from, and has
    /// the registers `regs`.
    pub open spec fn modifies(self, post: Self, result: u8, regs: Registers) -> bool {
        &&& if self.addr_mode == AddressingMode::Implied {
            post.bus == self.bus
        } else {
            self.bus.writes_to(seq![(self.addr_abs, result)], post.bus)
        }
        &&& post == Cpu { registers: regs, fetched: self.operand(), bus: post.bus, ..self }
    }

    /// `post` has pushed `v` and has the registers `regs` (whose stack pointer is one
    /// slot lower).
    pub open spec fn pushes(self, post: Self, v: u8, regs: Registers) -> bool {
        &&& self.bus.writes_to(seq![(stack_addr(self.registers.sp), v)], post.bus)
        &&& post == Cpu { registers: regs, bus: post.bus, ..self }
    }

    /// A relative branch taken when `cond` holds: one extra cycle, and one more where the
    /// target lies on another page than the next instruction.
    pub open spec fn branches(self, post: Self, extra: u8, cond: bool) -> bool {
        let pc = self.registers.pc;
        let target = wadd16(pc, self.addr_rel);
        if cond {
            &&& post == Cpu { registers: Registers { pc: target, ..self.registers }, ..self }
            &&& extra == if (target & 0xFF00) != (pc & 0xFF00) { 2u8 } else { 1u8 }
        } else {
            post == self && extra == 0
        }
    }

    /// An undocumented operation: does what `acts` says where undocumented opcodes are
    /// active, and nothing otherwise.
    pub open spec fn undocumented(self, post: Self, acts: bool) -> bool {
        if self.illegal_active() {
            acts
        } else {
            post == self
        }
    }

    /// What the handler of `mn` does: `pre` is the core once the operand's address is
    /// resolved, `post` the core after the handler, `extra` the cycles it adds.
    #[verifier::opaque]
    pub open spec fn performs(mn: Mnemonic, pre: Self, post: Self, extra: u8) -> bool {
        let p = pre.registers;
        let m = pre.operand();
        let carry = flag_is_set(p.flags, Flag::Carry);
        let zero = flag_is_set(p.flags, Flag::Zero);
        let negative = flag_is_set(p.flags, Flag::Negative);
        let overflow = flag_is_set(p.flags, Flag::Overflow);
        let chained = pre.variant != Variant::NMOS;
        let s1 = inc8(p.sp);
        let s2 = inc8(s1);
        let s3 = inc8(s2);
        &&& (mn != Mnemonic::Bcc && mn != Mnemonic::Bcs && mn != Mnemonic::Beq && mn != Mnemonic::Bne
            && mn != Mnemonic::Bmi && mn != Mnemonic::Bpl && mn != Mnemonic::Bvc && mn != Mnemonic::Bvs)
            ==> extra == 0
        &&& match mn {
            // loads, transfers, counters
            Mnemonic::Lda => pre.loads(post, Registers { a: m, flags: with_zn(p.flags, m), ..p }),
            Mnemonic::Ldx => pre.loads(post, Registers { x: m, flags: with_zn(p.flags, m), ..p }),
            Mnemonic::Ldy => pre.loads(post, Registers { y: m, flags: with_zn(p.flags, m), ..p }),
            Mnemonic::Tax => pre.sets(post, Registers { x: p.a, flags: with_zn(p.flags, p.a), ..p }),
            Mnemonic::Tay => pre.sets(post, Registers { y: p.a, flags: with_zn(p.flags, p.a), ..p }),
            Mnemonic::Txa => pre.sets(post, Registers { a: p.x, flags: with_zn(p.flags, p.x), ..p }),
            Mnemonic::Tya => pre.sets(post, Registers { a: p.y, flags: with_zn(p.flags, p.y), ..p }),
            Mnemonic::Tsx => pre.sets(post, Registers { x: p.sp, flags: with_zn(p.flags, p.sp), ..p }),
            Mnemonic::Txs => pre.sets(post, Registers { sp: p.x, ..p }),
            Mnemonic::Inx => pre.sets(post, Registers { x: inc8(p.x), flags: with_zn(p.flags, inc8(p.x)), ..p }),
            Mnemonic::Iny => pre.sets(post, Registers { y: inc8(p.y), flags: with_zn(p.flags, inc8(p.y)), ..p }),
            Mnemonic::Dex => pre.sets(post, Registers { x: dec8(p.x), flags: with_zn(p.flags, dec8(p.x)), ..p }),
            Mnemonic::Dey => pre.sets(post, Registers { y: dec8(p.y), flags: with_zn(p.flags, dec8(p.y)), ..p }),
            // stores
            Mnemonic::Sta => pre.stores(post, p.a, p),
            Mnemonic::Stx => pre.stores(post, p.x, p),
            Mnemonic::Sty => pre.stores(post, p.y, p),
            // logic and arithmetic on the accumulator
            Mnemonic::Ora => pre.loads(post, Registers { a: p.a | m, flags: with_zn(p.flags, p.a | m), ..p }),
            Mnemonic::And => pre.loads(post, Registers { a: p.a & m, flags: with_zn(p.flags, p.a & m), ..p }),
            Mnemonic::Eor => pre.loads(post, Registers { a: p.a ^ m, flags: with_zn(p.flags, p.a ^ m), ..p }),
            Mnemonic::Adc => pre.loads(post, adc_spec(p, m, pre.decimal_active(p.flags))),
            Mnemonic::Sbc => pre.loads(post, sbc_spec(p, m, pre.decimal_active(p.flags))),
            Mnemonic::Cmp => pre.loads(post, Registers { flags: compare_spec(p.flags, p.a, m), ..p }),
            Mnemonic::Cpx => pre.loads(post, Registers { flags: compare_spec(p.flags, p.x, m), ..p }),
            Mnemonic::Cpy => pre.loads(post, Registers { flags: compare_spec(p.flags, p.y, m), ..p }),
            Mnemonic::Bit => pre.loads(post, Registers {
                flags: with_flag(
                    with_flag(with_flag(p.flags, Flag::Zero, p.a & m == 0), Flag::Negative, m & 0x80 != 0),
                    Flag::Overflow,
                    m & 0x40 != 0,
                ),
                ..p
            }),
            // read-modify-write
            Mnemonic::Asl => {
                let (r, f) = asl_spec(m, p.flags);
                pre.modifies(post, r, pre.written_back(r, f))
            },
            Mnemonic::Lsr => {
                let (r, f) = lsr_spec(m, p.flags);
                pre.modifies(post, r, pre.written_back(r, f))
            },
            Mnemonic::Rol => {
                let (r, f) = rol_spec(m, p.flags);
                pre.modifies(post, r, pre.written_back(r, f))
            },
            Mnemonic::Ror => {
                let (r, f) = ror_spec(m, p.flags, chained);
                pre.modifies(post, r, pre.written_back(r, f))
            },
            Mnemonic::RorA => {
                let (r, f) = ror_spec(p.a, p.flags, chained);
                pre.sets(post, Registers { a: r, flags: f, ..p })
            },
            Mnemonic::Inc => pre.modifies(post, inc8(m), pre.written_back(inc8(m), with_zn(p.flags, inc8(m)))),
            Mnemonic::Dec => pre.modifies(post, dec8(m), pre.written_back(dec8(m), with_zn(p.flags, dec8(m)))),
            // branches
            Mnemonic::Bcc => pre.branches(post, extra, !carry),
            Mnemonic::Bcs => pre.branches(post, extra, carry),
            Mnemonic::Bne => pre.branches(post, extra, !zero),
            Mnemonic::Beq => pre.branches(post, extra, zero),
            Mnemonic::Bpl => pre.branches(post, extra, !negative),
            Mnemonic::Bmi => pre.branches(post, extra, negative),
            Mnemonic::Bvc => pre.branches(post, extra, !overflow),
            Mnemonic::Bvs => pre.branches(post, extra, overflow),
            // status flags
            Mnemonic::Clc => pre.sets(post, Registers { flags: with_flag(p.flags, Flag::Carry, false), ..p }),
            Mnemonic::Sec => pre.sets(post, Registers { flags: with_flag(p.flags, Flag::Carry, true), ..p }),
            Mnemonic::Cli => pre.sets(post, Registers { flags: with_flag(p.flags, Flag::InterruptDisable, false), ..p }),
            Mnemonic::Sei => pre.sets(post, Registers { flags: with_flag(p.flags, Flag::InterruptDisable, true), ..p }),
            Mnemonic::Cld => pre.sets(post, Registers { flags: with_flag(p.flags, Flag::DecimalMode, false), ..p }),
            Mnemonic::Sed => pre.sets(post, Registers { flags: with_flag(p.flags, Flag::DecimalMode, true), ..p }),
            Mnemonic::Clv => pre.sets(post, Registers { flags: with_flag(p.flags, Flag::Overflow, false), ..p }),
            // stack
            Mnemonic::Pha => pre.pushes(post, p.a, Registers { sp: dec8(p.sp), ..p }),
            Mnemonic::Php => pre.pushes(post, p.flags | 0x30, Registers { sp: dec8(p.sp), ..p }),
            Mnemonic::Pla => {
                let v = pre.bus.peek(stack_addr(s1));
                pre.sets(post, Registers { a: v, sp: s1, flags: with_zn(p.flags, v), ..p })
            },
            Mnemonic::Plp => {
                let v = pre.bus.peek(stack_addr(s1));
                pre.sets(post, Registers { sp: s1, flags: pulled_flags(v), ..p })
            },
            // jumps, calls, returns
            Mnemonic::Jmp => pre.sets(post, Registers { pc: pre.addr_abs, ..p }),
            Mnemonic::Jsr => {
                &&& pre.bus.writes_to(word_push_writes(p.sp, prev16(p.pc)), post.bus)
                &&& post == Cpu {
                    registers: Registers { sp: dec8(dec8(p.sp)), pc: pre.addr_abs, ..p },
                    bus: post.bus,
                    ..pre
                }
            },
            Mnemonic::Rts => pre.sets(post, Registers {
                sp: s2,
                pc: next16(word(pre.bus.peek(stack_addr(s1)), pre.bus.peek(stack_addr(s2)))),
                ..p
            }),
            Mnemonic::Rti => pre.sets(post, Registers {
                sp: s3,
                flags: pulled_flags(pre.bus.peek(stack_addr(s1))),
                pc: word(pre.bus.peek(stack_addr(s2)), pre.bus.peek(stack_addr(s3))),
                ..p
            }),
            Mnemonic::Brk => pre.enters_interrupt(post, IRQ_VECTOR, next16(p.pc)) && pre.same_latches(post),
            Mnemonic::Nop => post == pre,
            // undocumented
            Mnemonic::Kil => pre.undocumented(post, post == Cpu { state: State::Halted, ..pre }),
            Mnemonic::Lax => pre.undocumented(
                post,
                pre.loads(post, Registers { a: m, x: m, flags: with_zn(p.flags, m), ..p }),
            ),
            Mnemonic::Las => pre.undocumented(post, {
                let v = m & p.sp;
                pre.loads(post, Registers { a: v, x: v, sp: v, flags: with_zn(p.flags, v), ..p })
            }),
            Mnemonic::Sax => pre.undocumented(post, pre.stores(post, p.a & p.x, p)),
            Mnemonic::Ahx => pre.undocumented(post, pre.stores(post, high_masked(p.a & p.x, pre.addr_abs), p)),
            Mnemonic::Shx => pre.undocumented(post, pre.stores(post, high_masked(p.x, pre.addr_abs), p)),
            Mnemonic::Shy => pre.undocumented(post, pre.stores(post, high_masked(p.y, pre.addr_abs), p)),
            Mnemonic::Tas => pre.undocumented(
                post,
                pre.stores(post, high_masked(p.a & p.x, pre.addr_abs), Registers { sp: p.a & p.x, ..p }),
            ),
            Mnemonic::Anc => pre.undocumented(post, pre.loads(post, Registers {
                a: p.a & m,
                flags: with_flag(with_zn(p.flags, p.a & m), Flag::Carry, (p.a & m) & 0x80 != 0),
                ..p
            })),
            Mnemonic::Alr => pre.undocumented(post, {
                let (r, f) = lsr_spec(p.a & m, p.flags);
                pre.loads(post, Registers { a: r, flags: f, ..p })
            }),
            Mnemonic::Arr => pre.undocumented(post, {
                let r = ((p.a & m) >> 1) | (if carry { 0x80u8 } else { 0u8 });
                pre.loads(post, Registers {
                    a: r,
                    flags: with_flag(
                        with_flag(with_zn(p.flags, r), Flag::Carry, r & 0x40 != 0),
                        Flag::Overflow,
                        ((r >> 6) ^ (r >> 5)) & 0x01 != 0,
                    ),
                    ..p
                })
            }),
            Mnemonic::Xaa => pre.undocumented(post, pre.loads(post, Registers {
                a: (p.a | 0xEE) & p.x & m,
                flags: with_zn(p.flags, (p.a | 0xEE) & p.x & m),
                ..p
            })),
            Mnemonic::Axs => pre.undocumented(post, pre.loads(post, Registers {
                x: wsub8(p.a & p.x, m),
                flags: with_flag(with_zn(p.flags, wsub8(p.a & p.x, m)), Flag::Carry, (p.a & p.x) >= m),
                ..p
            })),
            Mnemonic::Slo => pre.undocumented(post, {
                let (r, f) = asl_spec(m, p.flags);
                let w = pre.written_back(r, f);
                pre.modifies(post, r, Registers { a: w.a | r, flags: with_zn(w.flags, w.a | r), ..w })
            }),
            Mnemonic::Rla => pre.undocumented(post, {
                let (r, f) = rol_spec(m, p.flags);
                let w = pre.written_back(r, f);
                pre.modifies(post, r, Registers { a: w.a & r, flags: with_zn(w.flags, w.a & r), ..w })
            }),
            Mnemonic::Sre => pre.undocumented(post, {
                let (r, f) = lsr_spec(m, p.flags);
                let w = pre.written_back(r, f);
                pre.modifies(post, r, Registers { a: w.a ^ r, flags: with_zn(w.flags, w.a ^ r), ..w })
            }),
            Mnemonic::Rra => pre.undocumented(post, {
                let (r, f) = ror_spec(m, p.flags, chained);
                let w = pre.written_back(r, f);
                pre.modifies(post, r, adc_spec(w, r, pre.decimal_active(w.flags)))
            }),
            Mnemonic::Dcp => pre.undocumented(post, {
                let r = dec8(m);
                let w = pre.written_back(r, with_zn(p.flags, r));
                pre.modifies(post, r, Registers { flags: compare_spec(w.flags, w.a, r), ..w })
            }),
            Mnemonic::Isc => pre.undocumented(post, {
                let r = inc8(m);
                let w = pre.written_back(r, with_zn(p.flags, r));
                pre.modifies(post, r, sbc_spec(w, r, pre.decimal_active(w.flags)))
            }),
        }
    }

    pub fn illegal_on(&self) -> (r: bool)
        ensures
            r == self.illegal_active(),
    {
        self.enable_illegal_opcodes && self.variant != Variant::CMOS
    }

    pub fn decimal_on(&self, flags: u8) -> (r: bool)
        ensures
            r == self.decimal_active(flags),
    {
        flag_in(flags, Flag::DecimalMode) && self.variant != Variant::NES
    }

    /// Puts the result of a read-modify-write where its operand came from, and sets the
    /// status to `flags`.
    fn write_back(&mut self, result: u8, flags: u8)
        ensures
            if old(self).addr_mode == AddressingMode::Implied {
                final(self).bus == old(self).bus
            } else {
                old(self).bus.writes_to(seq![(old(self).addr_abs, result)], final(self).bus)
            },
            *final(self) == (Cpu {
                registers: old(self).written_back(result, flags),
                bus: final(self).bus,
                ..*old(self)
            }),
    {
        if self.addr_mode == AddressingMode::Implied {
            self.registers.a = result;
        } else {
            self.write(self.addr_abs, result);
        }
        self.registers.flags = flags;
    }

    /// Takes the branch when `cond` holds; returns the extra cycles.
    fn branch(&mut self, cond: bool) -> (r: u8)
        ensures
            old(self).branches(*final(self), r, cond),
    {
        if !cond {
            return 0;
        }
        let pc = self.registers.pc;
        let target = pc.wrapping_add(self.addr_rel);
        self.registers.pc = target;
        if (target & 0xFF00) != (pc & 0xFF00) {
            2
        } else {
            1
        }
    }

    pub fn lda(&mut self) -> (r: u8)
        ensures
            Self::performs(Mnemonic::Lda, *old(self), *final(self), r),
    {
        proof {
            reveal(Cpu::performs);
        }
        let m = self.fetch();
        let p = self.registers;
        self.registers = Registers { a: m, flags: flags_zn(p.flags, m), ..p };
        0
    }

    pub fn ldx(&mut self) -> (r: u8)
        ensures
            Self::performs(Mnemonic::Ldx, *old(self), *final(self), r),
    {
        proof {
            reveal(Cpu::performs);
        }
        let m = self.fetch();
        let p = self.registers;
        self.registers = Registers { x: m, flags: flags_zn(p.flags, m), ..p };
        0
    }

    pub fn ldy(&mut self) -> (r: u8)
        ensures
            Self::performs(Mnemonic::Ldy, *old(self), *final(self), r),
    {
        proof {
            reveal(Cpu::performs);
        }
        let m = self.fetch();
        let p = self.registers;
        self.registers = Registers { y: m, flags: flags_zn(p.flags, m), ..p };
        0
    }

    pub fn tax(&mut self) -> (r: u8)
        ensures
            Self::performs(Mnemonic::Tax, *old(self), *final(self), r),
    {
        proof {
            reveal(Cpu::performs);
        }
        let p = self.registers;
        self.registers = Registers { x: p.a, flags: flags_zn(p.flags, p.a), ..p };
        0
    }

    pub fn tay(&mut self) -> (r: u8)
        ensures
            Self::performs(Mnemonic::Tay, *old(self), *final(self), r),
    {
        proof {
            reveal(Cpu::performs);
        }
        let p = self.registers;
        self.registers = Registers { y: p.a, flags: flags_zn(p.flags, p.a), ..p };
        0
    }

    pub fn txa(&mut self) -> (r: u8)
        ensures
            Self::performs(Mnemonic::Txa, *old(self), *final(self), r),
    {
        proof {
            reveal(Cpu::performs);
        }
        let p = self.registers;
        self.registers = Registers { a: p.x, flags: flags_zn(p.flags, p.x), ..p };
        0
    }

    pub fn tya(&mut self) -> (r: u8)
        ensures
            Self::performs(Mnemonic::Tya, *old(self), *final(self), r),
    {
        proof {
            reveal(Cpu::performs);
        }
        let p = self.registers;
        self.registers = Registers { a: p.y, flags: flags_zn(p.flags, p.y), ..p };
        0
    }

    pub fn tsx(&mut self) -> (r: u8)
        ensures
            Self::performs(Mnemonic::Tsx, *old(self), *final(self), r),
    {
        proof {
            reveal(Cpu::performs);
        }
        let p = self.registers;
        self.registers = Registers { x: p.sp, flags: flags_zn(p.flags, p.sp), ..p };
        0
    }

    pub fn txs(&mut self) -> (r: u8)
        ensures
            Self::performs(Mnemonic::Txs, *old(self), *final(self), r),
    {
        proof {
            reveal(Cpu::performs);
        }
        let p = self.registers;
        self.registers = Registers { sp: p.x, ..p };
        0
    }

    pub fn inx(&mut self) -> (r: u8)
        ensures
            Self::performs(Mnemonic::Inx, *old(self), *final(self), r),
    {
        proof {
            reveal(Cpu::performs);
        }
        let p = self.registers;
        let v = p.x.wrapping_add(1);
        self.registers = Registers { x: v, flags: flags_zn(p.flags, v), ..p };
        0
    }

    pub fn iny(&mut self) -> (r: u8)
        ensures
            Self::performs(Mnemonic::Iny, *old(self), *final(self), r),
    {
        proof {
            reveal(Cpu::performs);
        }
        let p = self.registers;
        let v = p.y.wrapping_add(1);
        self.registers = Registers { y: v, flags: flags_zn(p.flags, v), ..p };
        0
    }

    pub fn dex(&mut self) -> (r: u8)
        ensures
            Self::performs(Mnemonic::Dex, *old(self), *final(self), r),
    {
        proof {
            reveal(Cpu::performs);
        }
        let p = self.registers;
        let v = p.x.wrapping_sub(1);
        self.registers = Registers { x: v, flags: flags_zn(p.flags, v), ..p };
        0
    }

    pub fn dey(&mut self) -> (r: u8)
        ensures
            Self::performs(Mnemonic::Dey, *old(self), *final(self), r),
    {
        proof {
            reveal(Cpu::performs);
        }
        let p = self.registers;
        let v = p.y.wrapping_sub(1);
        self.registers = Registers { y: v, flags: flags_zn(p.flags, v), ..p };
        0
    }

    pub fn sta(&mut self) -> (r: u8)
        ensures
            Self::performs(Mnemonic::Sta, *old(self), *final(self), r),
    {
        proof {
            reveal(Cpu::performs);
        }
        let v = self.registers.a;
        self.write(self.addr_abs, v);
        0
    }

    pub fn stx(&mut self) -> (r: u8)
        ensures
            Self::performs(Mnemonic::Stx, *old(self), *final(self), r),
    {
        proof {
            reveal(Cpu::performs);
        }
        let v = self.registers.x;
        self.write(self.addr_abs, v);
        0
    }

    pub fn sty(&mut self) -> (r: u8)
        ensures
            Self::performs(Mnemonic::Sty, *old(self), *final(self), r),
    {
        proof {
            reveal(Cpu::performs);
        }
        let v = self.registers.y;
        self.write(self.addr_abs, v);
        0
    }

    pub fn ora(&mut self) -> (r: u8)
        ensures
            Self::performs(Mnemonic::Ora, *old(self), *final(self), r),
    {
        proof {
            reveal(Cpu::performs);
        }
        let m = self.fetch();
        let p = self.registers;
        self.registers = Registers { a: p.a | m, flags: flags_zn(p.flags, p.a | m), ..p };
        0
    }

    pub fn and(&mut self) -> (r: u8)
        ensures
            Self::performs(Mnemonic::And, *old(self), *final(self), r),
    {
        proof {
            reveal(Cpu::performs);
        }
        let m = self.fetch();
        let p = self.registers;
        self.registers = Registers { a: p.a & m, flags: flags_zn(p.flags, p.a & m), ..p };
        0
    }

    pub fn eor(&mut self) -> (r: u8)
        ensures
            Self::performs(Mnemonic::Eor, *old(self), *final(self), r),
    {
        proof {
            reveal(Cpu::performs);
        }
        let m = self.fetch();
        let p = self.registers;
        self.registers = Registers { a: p.a ^ m, flags: flags_zn(p.flags, p.a ^ m), ..p };
        0
    }

    /// Adds the operand and Carry to the accumulator; decimal where DecimalMode is set, except on the NES part.
    pub fn adc(&mut self) -> (r: u8)
        ensures
            Self::performs(Mnemonic::Adc, *old(self), *final(self), r),
    {
        proof {
            reveal(Cpu::performs);
        }
        let m = self.fetch();
        let p = self.registers;
        let decimal = self.decimal_on(p.flags);
        self.registers = adc_value(p, m, decimal);
        0
    }

    /// Subtracts the operand and the borrow from the accumulator; decimal where DecimalMode is set, except on the NES part.
    pub fn sbc(&mut self) -> (r: u8)
        ensures
            Self::performs(Mnemonic::Sbc, *old(self), *final(self), r),
    {
        proof {
            reveal(Cpu::performs);
        }
        let m = self.fetch();
        let p = self.registers;
        let decimal = self.decimal_on(p.flags);
        self.registers = sbc_value(p, m, decimal);
        0
    }

    pub fn cmp(&mut self) -> (r: u8)
        ensures
            Self::performs(Mnemonic::Cmp, *old(self), *final(self), r),
    {
        proof {
            reveal(Cpu::performs);
        }
        let m = self.fetch();
        let p = self.registers;
        self.registers = Registers { flags: compare_value(p.flags, p.a, m), ..p };
        0
    }

    pub fn cpx(&mut self) -> (r: u8)
        ensures
            Self::performs(Mnemonic::Cpx, *old(self), *final(self), r),
    {
        proof {
            reveal(Cpu::performs);
        }
        let m = self.fetch();
        let p = self.registers;
        self.registers = Registers { flags: compare_value(p.flags, p.x, m), ..p };
        0
    }

    pub fn cpy(&mut self) -> (r: u8)
        ensures
            Self::performs(Mnemonic::Cpy, *old(self), *final(self), r),
    {
        proof {
            reveal(Cpu::performs);
        }
        let m = self.fetch();
        let p = self.registers;
        self.registers = Registers { flags: compare_value(p.flags, p.y, m), ..p };
        0
    }

    pub fn bit(&mut self) -> (r: u8)
        ensures
            Self::performs(Mnemonic::Bit, *old(self), *final(self), r),
    {
        proof {
            reveal(Cpu::performs);
        }
        let m = self.fetch();
        let p = self.registers;
        self.registers = Registers {
            flags: flags_with(
                flags_with(flags_with(p.flags, Flag::Zero, p.a & m == 0), Flag::Negative, m & 0x80 != 0),
                Flag::Overflow,
                m & 0x40 != 0,
            ),
            ..p
        };
        0
    }

    pub fn asl(&mut self) -> (r: u8)
        ensures
            Self::performs(Mnemonic::Asl, *old(self), *final(self), r),
    {
        proof {
            reveal(Cpu::performs);
        }
        let m = self.fetch();
        let p = self.registers;
        let (r, f) = asl_value(m, p.flags);
        self.write_back(r, f);
        0
    }

    pub fn lsr(&mut self) -> (r: u8)
        ensures
            Self::performs(Mnemonic::Lsr, *old(self), *final(self), r),
    {
        proof {
            reveal(Cpu::performs);
        }
        let m = self.fetch();
        let p = self.registers;
        let (r, f) = lsr_value(m, p.flags);
        self.write_back(r, f);
        0
    }

    pub fn rol(&mut self) -> (r: u8)
        ensures
            Self::performs(Mnemonic::Rol, *old(self), *final(self), r),
    {
        proof {
            reveal(Cpu::performs);
        }
        let m = self.fetch();
        let p = self.registers;
        let (r, f) = rol_value(m, p.flags);
        self.write_back(r, f);
        0
    }

    /// Rotates the operand right: through Carry, except on the NMOS part, which shifts in a zero and leaves Carry alone.
    pub fn ror(&mut self) -> (r: u8)
        ensures
            Self::performs(Mnemonic::Ror, *old(self), *final(self), r),
    {
        proof {
            reveal(Cpu::performs);
        }
        let m = self.fetch();
        let p = self.registers;
        let chained = self.variant != Variant::NMOS;
        let (r, f) = ror_value(m, p.flags, chained);
        self.write_back(r, f);
        0
    }

    /// Rotates the accumulator right, as `ror` does its operand.
    pub fn ror_a(&mut self) -> (r: u8)
        ensures
            Self::performs(Mnemonic::RorA, *old(self), *final(self), r),
    {
        proof {
            reveal(Cpu::performs);
        }
        let p = self.registers;
        let chained = self.variant != Variant::NMOS;
        let (r, f) = ror_value(p.a, p.flags, chained);
        self.registers = Registers { a: r, flags: f, ..p };
        0
    }

    pub fn inc(&mut self) -> (r: u8)
        ensures
            Self::performs(Mnemonic::Inc, *old(self), *final(self), r),
    {
        proof {
            reveal(Cpu::performs);
        }
        let m = self.fetch();
        let p = self.registers;
        let r = m.wrapping_add(1);
        self.write_back(r, flags_zn(p.flags, r));
        0
    }

    pub fn dec(&mut self) -> (r: u8)
        ensures
            Self::performs(Mnemonic::Dec, *old(self), *final(self), r),
    {
        proof {
            reveal(Cpu::performs);
        }
        let m = self.fetch();
        let p = self.registers;
        let r = m.wrapping_sub(1);
        self.write_back(r, flags_zn(p.flags, r));
        0
    }

    pub fn bcc(&mut self) -> (r: u8)
        ensures
            Self::performs(Mnemonic::Bcc, *old(self), *final(self), r),
    {
        proof {
            reveal(Cpu::performs);
        }
        let cond = !self.registers.get_flag(Flag::Carry);
        self.branch(cond)
    }

    pub fn bcs(&mut self) -> (r: u8)
        ensures
            Self::performs(Mnemonic::Bcs, *old(self), *final(self), r),
    {
        proof {
            reveal(Cpu::performs);
        }
        let cond = self.registers.get_flag(Flag::Carry);
        self.branch(cond)
    }

    pub fn bne(&mut self) -> (r: u8)
        ensures
            Self::performs(Mnemonic::Bne, *old(self), *final(self), r),
    {
        proof {
            reveal(Cpu::performs);
        }
        let cond = !self.registers.get_flag(Flag::Zero);
        self.branch(cond)
    }

    pub fn beq(&mut self) -> (r: u8)
        ensures
            Self::performs(Mnemonic::Beq, *old(self), *final(self), r),
    {
        proof {
            reveal(Cpu::performs);
        }
        let cond = self.registers.get_flag(Flag::Zero);
        self.branch(cond)
    }

    pub fn bpl(&mut self) -> (r: u8)
        ensures
            Self::performs(Mnemonic::Bpl, *old(self), *final(self), r),
    {
        proof {
            reveal(Cpu::performs);
        }
        let cond = !self.registers.get_flag(Flag::Negative);
        self.branch(cond)
    }

    pub fn bmi(&mut self) -> (r: u8)
        ensures
            Self::performs(Mnemonic::Bmi, *old(self), *final(self), r),
    {
        proof {
            reveal(Cpu::performs);
        }
        let cond = self.registers.get_flag(Flag::Negative);
        self.branch(cond)
    }

    pub fn bvc(&mut self) -> (r: u8)
        ensures
            Self::performs(Mnemonic::Bvc, *old(self), *final(self), r),
    {
        proof {
            reveal(Cpu::performs);
        }
        let cond = !self.registers.get_flag(Flag::Overflow);
        self.branch(cond)
    }

    pub fn bvs(&mut self) -> (r: u8)
        ensures
            Self::performs(Mnemonic::Bvs, *old(self), *final(self), r),
    {
        proof {
            reveal(Cpu::performs);
        }
        let cond = self.registers.get_flag(Flag::Overflow);
        self.branch(cond)
    }

    pub fn clc(&mut self) -> (r: u8)
        ensures
            Self::performs(Mnemonic::Clc, *old(self), *final(self), r),
    {
        proof {
            reveal(Cpu::performs);
        }
        self.registers.set_flag(Flag::Carry, false);
        0
    }

    pub fn sec(&mut self) -> (r: u8)
        ensures
            Self::performs(Mnemonic::Sec, *old(self), *final(self), r),
    {
        proof {
            reveal(Cpu::performs);
        }
        self.registers.set_flag(Flag::Carry, true);
        0
    }

    pub fn cli(&mut self) -> (r: u8)
        ensures
            Self::performs(Mnemonic::Cli, *old(self), *final(self), r),
    {
        proof {
            reveal(Cpu::performs);
        }
        self.registers.set_flag(Flag::InterruptDisable, false);
        0
    }

    pub fn sei(&mut self) -> (r: u8)
        ensures
            Self::performs(Mnemonic::Sei, *old(self), *final(self), r),
    {
        proof {
            reveal(Cpu::performs);
        }
        self.registers.set_flag(Flag::InterruptDisable, true);
        0
    }

    pub fn cld(&mut self) -> (r: u8)
        ensures
            Self::performs(Mnemonic::Cld, *old(self), *final(self), r),
    {
        proof {
            reveal(Cpu::performs);
        }
        self.registers.set_flag(Flag::DecimalMode, false);
        0
    }

    pub fn sed(&mut self) -> (r: u8)
        ensures
            Self::performs(Mnemonic::Sed, *old(self), *final(self), r),
    {
        proof {
            reveal(Cpu::performs);
        }
        self.registers.set_flag(Flag::DecimalMode, true);
        0
    }

    pub fn clv(&mut self) -> (r: u8)
        ensures
            Self::performs(Mnemonic::Clv, *old(self), *final(self), r),
    {
        proof {
            reveal(Cpu::performs);
        }
        self.registers.set_flag(Flag::Overflow, false);
        0
    }

    pub fn pha(&mut self) -> (r: u8)
        ensures
            Self::performs(Mnemonic::Pha, *old(self), *final(self), r),
    {
        proof {
            reveal(Cpu::performs);
        }
        let a = self.registers.a;
        self.push(a);
        0
    }

    /// Pushes the status with Break and Unused set.
    pub fn php(&mut self) -> (r: u8)
        ensures
            Self::performs(Mnemonic::Php, *old(self), *final(self), r),
    {
        proof {
            reveal(Cpu::performs);
        }
        let flags = self.registers.flags;
        self.push(flags | 0x30);
        0
    }

    pub fn pla(&mut self) -> (r: u8)
        ensures
            Self::performs(Mnemonic::Pla, *old(self), *final(self), r),
    {
        proof {
            reveal(Cpu::performs);
        }
        let v = self.pop();
        let p = self.registers;
        self.registers = Registers { a: v, flags: flags_zn(p.flags, v), ..p };
        0
    }

    /// Pulls the status; Break is cleared and Unused set.
    pub fn plp(&mut self) -> (r: u8)
        ensures
            Self::performs(Mnemonic::Plp, *old(self), *final(self), r),
    {
        proof {
            reveal(Cpu::performs);
        }
        let v = self.pop();
        self.registers.flags = (v & 0xEF) | 0x20;
        0
    }

    pub fn jmp(&mut self) -> (r: u8)
        ensures
            Self::performs(Mnemonic::Jmp, *old(self), *final(self), r),
    {
        proof {
            reveal(Cpu::performs);
        }
        self.registers.pc = self.addr_abs;
        0
    }

    /// Pushes the address of the call's last byte and jumps.
    pub fn jsr(&mut self) -> (r: u8)
        ensures
            Self::performs(Mnemonic::Jsr, *old(self), *final(self), r),
    {
        proof {
            reveal(Cpu::performs);
        }
        let ret = self.registers.pc.wrapping_sub(1);
        self.push_word(ret);
        self.registers.pc = self.addr_abs;
        0
    }

    pub fn rts(&mut self) -> (r: u8)
        ensures
            Self::performs(Mnemonic::Rts, *old(self), *final(self), r),
    {
        proof {
            reveal(Cpu::performs);
        }
        let ret = self.pop_word();
        self.registers.pc = ret.wrapping_add(1);
        0
    }

    /// Pulls the status, then the return address.
    pub fn rti(&mut self) -> (r: u8)
        ensures
            Self::performs(Mnemonic::Rti, *old(self), *final(self), r),
    {
        proof {
            reveal(Cpu::performs);
        }
        let v = self.pop();
        self.registers.flags = (v & 0xEF) | 0x20;
        let pc = self.pop_word();
        self.registers.pc = pc;
        0
    }

    /// Software interrupt: skips the signature byte, then enters the IRQ handler as `irq` does.
    pub fn brk(&mut self) -> (r: u8)
        ensures
            Self::performs(Mnemonic::Brk, *old(self), *final(self), r),
    {
        proof {
            reveal(Cpu::performs);
        }
        let pc = self.registers.pc.wrapping_add(1);
        self.interrupt(IRQ_VECTOR, pc);
        0
    }

    pub fn nop(&mut self) -> (r: u8)
        ensures
            Self::performs(Mnemonic::Nop, *old(self), *final(self), r),
    {
        proof {
            reveal(Cpu::performs);
        }
        0
    }

    /// Jams the processor: it halts until the next reset.
    pub fn kil(&mut self) -> (r: u8)
        ensures
            Self::performs(Mnemonic::Kil, *old(self), *final(self), r),
    {
        proof {
            reveal(Cpu::performs);
        }
        if !self.illegal_on() {
            return 0;
        }
        self.state = State::Halted;
        0
    }

    pub fn lax(&mut self) -> (r: u8)
        ensures
            Self::performs(Mnemonic::Lax, *old(self), *final(self), r),
    {
        proof {
            reveal(Cpu::performs);
        }
        if !self.illegal_on() {
            return 0;
        }
        let m = self.fetch();
        let p = self.registers;
        self.registers = Registers { a: m, x: m, flags: flags_zn(p.flags, m), ..p };
        0
    }

    pub fn las(&mut self) -> (r: u8)
        ensures
            Self::performs(Mnemonic::Las, *old(self), *final(self), r),
    {
        proof {
            reveal(Cpu::performs);
        }
        if !self.illegal_on() {
            return 0;
        }
        let m = self.fetch();
        let p = self.registers;
        let v = m & p.sp;
        self.registers = Registers { a: v, x: v, sp: v, flags: flags_zn(p.flags, v), ..p };
        0
    }

    pub fn sax(&mut self) -> (r: u8)
        ensures
            Self::performs(Mnemonic::Sax, *old(self), *final(self), r),
    {
        proof {
            reveal(Cpu::performs);
        }
        if !self.illegal_on() {
            return 0;
        }
        let v = self.registers.a & self.registers.x;
        self.write(self.addr_abs, v);
        0
    }

    pub fn ahx(&mut self) -> (r: u8)
        ensures
            Self::performs(Mnemonic::Ahx, *old(self), *final(self), r),
    {
        proof {
            reveal(Cpu::performs);
        }
        if !self.illegal_on() {
            return 0;
        }
        let v = (self.registers.a & self.registers.x) & ((self.addr_abs >> 8) as u8).wrapping_add(1);
        self.write(self.addr_abs, v);
        0
    }

    pub fn shx(&mut self) -> (r: u8)
        ensures
            Self::performs(Mnemonic::Shx, *old(self), *final(self), r),
    {
        proof {
            reveal(Cpu::performs);
        }
        if !self.illegal_on() {
            return 0;
        }
        let v = self.registers.x & ((self.addr_abs >> 8) as u8).wrapping_add(1);
        self.write(self.addr_abs, v);
        0
    }

    pub fn shy(&mut self) -> (r: u8)
        ensures
            Self::performs(Mnemonic::Shy, *old(self), *final(self), r),
    {
        proof {
            reveal(Cpu::performs);
        }
        if !self.illegal_on() {
            return 0;
        }
        let v = self.registers.y & ((self.addr_abs >> 8) as u8).wrapping_add(1);
        self.write(self.addr_abs, v);
        0
    }

    pub fn tas(&mut self) -> (r: u8)
        ensures
            Self::performs(Mnemonic::Tas, *old(self), *final(self), r),
    {
        proof {
            reveal(Cpu::performs);
        }
        if !self.illegal_on() {
            return 0;
        }
        let p = self.registers;
        let v = (p.a & p.x) & ((self.addr_abs >> 8) as u8).wrapping_add(1);
        self.write(self.addr_abs, v);
        self.registers.sp = p.a & p.x;
        0
    }

    pub fn anc(&mut self) -> (r: u8)
        ensures
            Self::performs(Mnemonic::Anc, *old(self), *final(self), r),
    {
        proof {
            reveal(Cpu::performs);
        }
        if !self.illegal_on() {
            return 0;
        }
        let m = self.fetch();
        let p = self.registers;
        self.registers = Registers {
            a: p.a & m,
            flags: flags_with(flags_zn(p.flags, p.a & m), Flag::Carry, (p.a & m) & 0x80 != 0),
            ..p
        };
        0
    }

    pub fn alr(&mut self) -> (r: u8)
        ensures
            Self::performs(Mnemonic::Alr, *old(self), *final(self), r),
    {
        proof {
            reveal(Cpu::performs);
        }
        if !self.illegal_on() {
            return 0;
        }
        let m = self.fetch();
        let p = self.registers;
        let (r, f) = lsr_value(p.a & m, p.flags);
        self.registers = Registers { a: r, flags: f, ..p };
        0
    }

    pub fn arr(&mut self) -> (r: u8)
        ensures
            Self::performs(Mnemonic::Arr, *old(self), *final(self), r),
    {
        proof {
            reveal(Cpu::performs);
        }
        if !self.illegal_on() {
            return 0;
        }
        let m = self.fetch();
        let p = self.registers;
        let r = ((p.a & m) >> 1) | (if flag_in(p.flags, Flag::Carry) { 0x80u8 } else { 0u8 });
        let f = flags_with(
            flags_with(flags_zn(p.flags, r), Flag::Carry, r & 0x40 != 0),
            Flag::Overflow,
            ((r >> 6) ^ (r >> 5)) & 0x01 != 0,
        );
        self.registers = Registers { a: r, flags: f, ..p };
        0
    }

    pub fn xaa(&mut self) -> (r: u8)
        ensures
            Self::performs(Mnemonic::Xaa, *old(self), *final(self), r),
    {
        proof {
            reveal(Cpu::performs);
        }
        if !self.illegal_on() {
            return 0;
        }
        let m = self.fetch();
        let p = self.registers;
        self.registers = Registers { a: (p.a | 0xEE) & p.x & m, flags: flags_zn(p.flags, (p.a | 0xEE) & p.x & m), ..p };
        0
    }

    pub fn axs(&mut self) -> (r: u8)
        ensures
            Self::performs(Mnemonic::Axs, *old(self), *final(self), r),
    {
        proof {
            reveal(Cpu::performs);
        }
        if !self.illegal_on() {
            return 0;
        }
        let m = self.fetch();
        let p = self.registers;
        let t = p.a & p.x;
        let r = t.wrapping_sub(m);
        self.registers = Registers { x: r, flags: flags_with(flags_zn(p.flags, r), Flag::Carry, t >= m), ..p };
        0
    }

    /// Shifts the operand left, then ORs it into the accumulator.
    pub fn slo(&mut self) -> (r: u8)
        ensures
            Self::performs(Mnemonic::Slo, *old(self), *final(self), r),
    {
        proof {
            reveal(Cpu::performs);
        }
        if !self.illegal_on() {
            return 0;
        }
        let m = self.fetch();
        let p = self.registers;
        let (r, f) = asl_value(m, p.flags);
        self.write_back(r, f);
        let w = self.registers;
        self.registers = Registers { a: w.a | r, flags: flags_zn(w.flags, w.a | r), ..w };
        0
    }

    /// Rotates the operand left, then ANDs it into the accumulator.
    pub fn rla(&mut self) -> (r: u8)
        ensures
            Self::performs(Mnemonic::Rla, *old(self), *final(self), r),
    {
        proof {
            reveal(Cpu::performs);
        }
        if !self.illegal_on() {
            return 0;
        }
        let m = self.fetch();
        let p = self.registers;
        let (r, f) = rol_value(m, p.flags);
        self.write_back(r, f);
        let w = self.registers;
        self.registers = Registers { a: w.a & r, flags: flags_zn(w.flags, w.a & r), ..w };
        0
    }

    /// Shifts the operand right, then XORs it into the accumulator.
    pub fn sre(&mut self) -> (r: u8)
        ensures
            Self::performs(Mnemonic::Sre, *old(self), *final(self), r),
    {
        proof {
            reveal(Cpu::performs);
        }
        if !self.illegal_on() {
            return 0;
        }
        let m = self.fetch();
        let p = self.registers;
        let (r, f) = lsr_value(m, p.flags);
        self.write_back(r, f);
        let w = self.registers;
        self.registers = Registers { a: w.a ^ r, flags: flags_zn(w.flags, w.a ^ r), ..w };
        0
    }

    /// Rotates the operand right, then adds it to the accumulator.
    pub fn rra(&mut self) -> (r: u8)
        ensures
            Self::performs(Mnemonic::Rra, *old(self), *final(self), r),
    {
        proof {
            reveal(Cpu::performs);
        }
        if !self.illegal_on() {
            return 0;
        }
        let m = self.fetch();
        let p = self.registers;
        let chained = self.variant != Variant::NMOS;
        let (r, f) = ror_value(m, p.flags, chained);
        self.write_back(r, f);
        let w = self.registers;
        let decimal = self.decimal_on(w.flags);
        self.registers = adc_value(w, r, decimal);
        0
    }

    /// Decrements the operand, then compares the accumulator with it.
    pub fn dcp(&mut self) -> (r: u8)
        ensures
            Self::performs(Mnemonic::Dcp, *old(self), *final(self), r),
    {
        proof {
            reveal(Cpu::performs);
        }
        if !self.illegal_on() {
            return 0;
        }
        let m = self.fetch();
        let p = self.registers;
        let r = m.wrapping_sub(1);
        let f = flags_zn(p.flags, r);
        self.write_back(r, f);
        let w = self.registers;
        self.registers = Registers { flags: compare_value(w.flags, w.a, r), ..w };
        0
    }

    /// Increments the operand, then subtracts it from the accumulator.
    pub fn isc(&mut self) -> (r: u8)
        ensures
            Self::performs(Mnemonic::Isc, *old(self), *final(self), r),
    {
        proof {
            reveal(Cpu::performs);
        }
        if !self.illegal_on() {
            return 0;
        }
        let m = self.fetch();
        let p = self.registers;
        let r = m.wrapping_add(1);
        let f = flags_zn(p.flags, r);
        self.write_back(r, f);
        let w = self.registers;
        let decimal = self.decimal_on(w.flags);
        self.registers = sbc_value(w, r, decimal);
        0
    }

    /// Runs the handler of `mn`; returns the cycles it adds.
    pub fn execute(&mut self, mn: Mnemonic) -> (r: u8)
        ensures
            Self::performs(mn, *old(self), *final(self), r),
            r <= 2,
            final(self).cycles == old(self).cycles,
    {
        proof {
            reveal(Cpu::performs);
        }
        match mn {
            Mnemonic::Lda => self.lda(),
            Mnemonic::Ldx => self.ldx(),
            Mnemonic::Ldy => self.ldy(),
            Mnemonic::Tax => self.tax(),
            Mnemonic::Tay => self.tay(),
            Mnemonic::Txa => self.txa(),
            Mnemonic::Tya => self.tya(),
            Mnemonic::Tsx => self.tsx(),
            Mnemonic::Txs => self.txs(),
            Mnemonic::Inx => self.inx(),
            Mnemonic::Iny => self.iny(),
            Mnemonic::Dex => self.dex(),
            Mnemonic::Dey => self.dey(),
            Mnemonic::Sta => self.sta(),
            Mnemonic::Stx => self.stx(),
            Mnemonic::Sty => self.sty(),
            Mnemonic::Ora => self.ora(),
            Mnemonic::And => self.and(),
            Mnemonic::Eor => self.eor(),
            Mnemonic::Adc => self.adc(),
            Mnemonic::Sbc => self.sbc(),
            Mnemonic::Cmp => self.cmp(),
            Mnemonic::Cpx => self.cpx(),
            Mnemonic::Cpy => self.cpy(),
            Mnemonic::Bit => self.bit(),
            Mnemonic::Asl => self.asl(),
            Mnemonic::Lsr => self.lsr(),
            Mnemonic::Rol => self.rol(),
            Mnemonic::Ror => self.ror(),
            Mnemonic::RorA => self.ror_a(),
            Mnemonic::Inc => self.inc(),
            Mnemonic::Dec => self.dec(),
            Mnemonic::Bcc => self.bcc(),
            Mnemonic::Bcs => self.bcs(),
            Mnemonic::Bne => self.bne(),
            Mnemonic::Beq => self.beq(),
            Mnemonic::Bpl => self.bpl(),
            Mnemonic::Bmi => self.bmi(),
            Mnemonic::Bvc => self.bvc(),
            Mnemonic::Bvs => self.bvs(),
            Mnemonic::Clc => self.clc(),
            Mnemonic::Sec => self.sec(),
            Mnemonic::Cli => self.cli(),
            Mnemonic::Sei => self.sei(),
            Mnemonic::Cld => self.cld(),
            Mnemonic::Sed => self.sed(),
            Mnemonic::Clv => self.clv(),
            Mnemonic::Pha => self.pha(),
            Mnemonic::Php => self.php(),
            Mnemonic::Pla => self.pla(),
            Mnemonic::Plp => self.plp(),
            Mnemonic::Jmp => self.jmp(),
            Mnemonic::Jsr => self.jsr(),
            Mnemonic::Rts => self.rts(),
            Mnemonic::Rti => self.rti(),
            Mnemonic::Brk => self.brk(),
            Mnemonic::Nop => self.nop(),
            Mnemonic::Kil => self.kil(),
            Mnemonic::Lax => self.lax(),
            Mnemonic::Las => self.las(),
            Mnemonic::Sax => self.sax(),
            Mnemonic::Ahx => self.ahx(),
            Mnemonic::Shx => self.shx(),
            Mnemonic::Shy => self.shy(),
            Mnemonic::Tas => self.tas(),
            Mnemonic::Anc => self.anc(),
            Mnemonic::Alr => self.alr(),
            Mnemonic::Arr => self.arr(),
            Mnemonic::Xaa => self.xaa(),
            Mnemonic::Axs => self.axs(),
            Mnemonic::Slo => self.slo(),
            Mnemonic::Rla => self.rla(),
            Mnemonic::Sre => self.sre(),
            Mnemonic::Rra => self.rra(),
            Mnemonic::Dcp => self.dcp(),
            Mnemonic::Isc => self.isc(),
        }
    }
}

/// Loading the accumulator sets Zero exactly when the value is 0 and Negative exactly
/// when its bit 7 is set, and leaves every other flag as it was.
pub proof fn lemma_load_sets_zn<D: Device>(pre: Cpu<D>, post: Cpu<D>, extra: u8)
    requires
        Cpu::performs(Mnemonic::Lda, pre, post, extra),
    ensures
        post.registers.a == pre.operand(),
        flag_is_set(post.registers.flags, Flag::Zero) == (pre.operand() == 0),
        flag_is_set(post.registers.flags, Flag::Negative) == (pre.operand() & 0x80 != 0),
        forall|g: Flag|
            g != Flag::Zero && g != Flag::Negative ==> flag_is_set(post.registers.flags, g)
                == flag_is_set(pre.registers.flags, g),
{
    reveal(Cpu::performs);
    let p = pre.registers.flags;
    let m = pre.operand();
    let f1 = with_flag(p, Flag::Zero, m == 0);
    crate::registers::lemma_set_flag_touches_one_bit(p, Flag::Zero, Flag::Zero, m == 0);
    crate::registers::lemma_set_flag_touches_one_bit(f1, Flag::Negative, Flag::Zero, m & 0x80 != 0);
    crate::registers::lemma_set_flag_touches_one_bit(f1, Flag::Negative, Flag::Negative, m & 0x80 != 0);
    assert forall|g: Flag| g != Flag::Zero && g != Flag::Negative implies flag_is_set(
        post.registers.flags,
        g,
    ) == flag_is_set(p, g) by {
        crate::registers::lemma_set_flag_touches_one_bit(p, Flag::Zero, g, m == 0);
        crate::registers::lemma_set_flag_touches_one_bit(f1, Flag::Negative, g, m & 0x80 != 0);
    }
}

} // verus!
