//! The CPU core: its state, bus access, the stack, reset and interrupts.

use vstd::prelude::*;

use crate::addresses::{IRQ_VECTOR, NMI_VECTOR, RESET_VECTOR};
use crate::bus::{Bus, Device};
use crate::instructions::{instruction, instruction_spec, AddressingMode};
use crate::registers::{Flag, Registers};

verus! {

/// The hardware revision being modelled.
#[derive(Clone, Copy, Debug, PartialEq, Eq, Structural)]
pub enum Variant {
    /// The first 6502: indirect-jump page bug, ROR without carry, decimal mode.
    NMOS,
    /// The 65C02: no indirect-jump bug, decimal mode, undocumented opcodes are no-ops.
    CMOS,
    /// The 2A03: no indirect-jump bug, no decimal mode.
    NES,
}

impl Variant {
    /// The variant's name.
    pub open spec fn name_spec(self) -> Seq<char> {
        match self {
            Variant::NMOS => seq!['N', 'M', 'O', 'S'],
            Variant::CMOS => seq!['C', 'M', 'O', 'S'],
            Variant::NES => seq!['N', 'E', 'S'],
        }
    }

    /// The variant called `variant`, if any is.
    pub fn from_string(variant: String) -> (r: Option<Variant>)
        ensures
            r == Some(Variant::NMOS) <==> variant@ == Variant::NMOS.name_spec(),
            r == Some(Variant::CMOS) <==> variant@ == Variant::CMOS.name_spec(),
            r == Some(Variant::NES) <==> variant@ == Variant::NES.name_spec(),
    {
        proof {
            reveal_strlit("NMOS");
            reveal_strlit("CMOS");
            reveal_strlit("NES");
            assert("NMOS"@ =~= Variant::NMOS.name_spec());
            assert("CMOS"@ =~= Variant::CMOS.name_spec());
            assert("NES"@ =~= Variant::NES.name_spec());
        }
        if variant == "NMOS".to_owned() {
            Some(Variant::NMOS)
        } else if variant == "CMOS".to_owned() {
            Some(Variant::CMOS)
        } else if variant == "NES".to_owned() {
            Some(Variant::NES)
        } else {
            None
        }
    }

    pub fn to_string(&self) -> (r: String)
        ensures
            r@ == self.name_spec(),
    {
        proof {
            reveal_strlit("NMOS");
            reveal_strlit("CMOS");
            reveal_strlit("NES");
        }
        match self {
            Variant::NMOS => "NMOS".to_owned(),
            Variant::CMOS => "CMOS".to_owned(),
            Variant::NES => "NES".to_owned(),
        }
    }
}

/// Where the core stands in its cycle.
#[derive(Clone, Copy, Debug, PartialEq, Eq, Structural)]
pub enum State {
    /// Built, not yet reset.
    Stopped,
    Fetching,
    Executing,
    /// Entered an interrupt handler.
    Interrupt,
    /// Stopped by a jam opcode; only a reset leaves it.
    Halted,
}

pub struct Cpu<D> {
    pub variant: Variant,
    pub state: State,
    pub registers: Registers,
    pub bus: Bus<D>,
    /// Cycles left before the next instruction is fetched.
    pub cycles: u8,
    /// Effective address resolved for the current instruction.
    pub addr_abs: u16,
    /// Sign-extended branch displacement of the current instruction.
    pub addr_rel: u16,
    pub addr_mode: AddressingMode,
    pub opcode: u8,
    /// The operand last fetched.
    pub fetched: u8,
    /// Whether undocumented opcodes do what the hardware does, rather than nothing.
    pub enable_illegal_opcodes: bool,
}

/// `a + 1` modulo 0x10000.
pub open spec fn next16(a: u16) -> u16 {
    if a == 0xFFFF {
        0
    } else {
        (a + 1) as u16
    }
}

/// The little-endian word made of `lo` and `hi`.
pub open spec fn word(lo: u8, hi: u8) -> u16 {
    ((hi as u16) << 8) | (lo as u16)
}

/// The address of stack slot `sp`, in page one.
pub open spec fn stack_addr(sp: u8) -> u16 {
    (0x0100 + sp) as u16
}

/// High byte of a word.
pub open spec fn hi_byte(v: u16) -> u8 {
    (v >> 8) as u8
}

/// Low byte of a word.
pub open spec fn lo_byte(v: u16) -> u8 {
    v as u8
}

/// The bytes that pushing `v` onto a stack at `sp` writes: high byte first.
pub open spec fn word_push_writes(sp: u8, v: u16) -> Seq<(u16, u8)> {
    seq![(stack_addr(sp), hi_byte(v)), (stack_addr(crate::registers::dec8(sp)), lo_byte(v))]
}

/// The bytes that entering an interrupt writes: the return address, then the status
/// with Break and Unused set.
pub open spec fn interrupt_writes(sp: u8, pc: u16, flags: u8) -> Seq<(u16, u8)> {
    word_push_writes(sp, pc) + seq![
        (stack_addr(crate::registers::dec8(crate::registers::dec8(sp))), flags | 0x30),
    ]
}

/// `sp` three slots lower.
pub open spec fn sp_minus3(sp: u8) -> u8 {
    crate::registers::dec8(crate::registers::dec8(crate::registers::dec8(sp)))
}

impl<D: Device> Cpu<D> {
    /// Every field but the registers and the bus is the same in `o`.
    pub open spec fn same_latches(self, o: Self) -> bool {
        &&& o.variant == self.variant
        &&& o.state == self.state
        &&& o.cycles == self.cycles
        &&& o.addr_abs == self.addr_abs
        &&& o.addr_rel == self.addr_rel
        &&& o.addr_mode == self.addr_mode
        &&& o.opcode == self.opcode
        &&& o.fetched == self.fetched
        &&& o.enable_illegal_opcodes == self.enable_illegal_opcodes
    }

    /// `post` is this core after pushing the word `v`.
    pub open spec fn pushed_word(self, v: u16, post: Self) -> bool {
        &&& self.bus.writes_to(word_push_writes(self.registers.sp, v), post.bus)
        &&& post.registers == Registers {
            sp: crate::registers::dec8(crate::registers::dec8(self.registers.sp)),
            ..self.registers
        }
        &&& self.same_latches(post)
    }

    /// `post` is this core after popping the byte `r`.
    pub open spec fn popped(self, post: Self, r: u8) -> bool {
        let sp = crate::registers::inc8(self.registers.sp);
        &&& r == self.bus.peek(stack_addr(sp))
        &&& post == Cpu { registers: Registers { sp, ..self.registers }, ..self }
    }

    /// `post` is this core after popping the word `r`, low byte first.
    pub open spec fn popped_word(self, post: Self, r: u16) -> bool {
        let s1 = crate::registers::inc8(self.registers.sp);
        let s2 = crate::registers::inc8(s1);
        &&& r == word(self.bus.peek(stack_addr(s1)), self.bus.peek(stack_addr(s2)))
        &&& post == Cpu { registers: Registers { sp: s2, ..self.registers }, ..self }
    }

    /// The word that two reads at `a` and the address after it return.
    pub open spec fn peek_word(self, a: u16) -> u16 {
        word(self.bus.peek(a), self.bus.peek(next16(a)))
    }

    /// The operand of the current instruction: the accumulator's copy in implied mode,
    /// else the byte at the resolved address.
    pub open spec fn operand(self) -> u8 {
        if self.addr_mode == AddressingMode::Implied {
            self.fetched
        } else {
            self.bus.peek(self.addr_abs)
        }
    }

    /// `post` is `pre` having pushed the interrupt frame for return address `pc` and
    /// loaded the program counter from `vector`, with interrupts disabled.
    pub open spec fn enters_interrupt(self, post: Self, vector: u16, pc: u16) -> bool {
        &&& self.bus.writes_to(
            interrupt_writes(self.registers.sp, pc, self.registers.flags),
            post.bus,
        )
        &&& post.registers == Registers {
            sp: sp_minus3(self.registers.sp),
            flags: crate::registers::with_flag(self.registers.flags, Flag::InterruptDisable, true),
            pc: post.peek_word(vector),
            ..self.registers
        }
    }

    /// A core on `bus`, with cleared registers, in the `Stopped` state.
    pub fn new(bus: Bus<D>) -> (r: Cpu<D>)
        ensures
            r.bus == bus,
            r.registers == (Registers { a: 0, x: 0, y: 0, pc: 0, sp: 0, flags: 0 }),
            r.variant == Variant::CMOS,
            r.state == State::Stopped,
            r.cycles == 0,
            r.addr_abs == 0,
            r.addr_rel == 0,
            r.addr_mode == AddressingMode::Implied,
            r.opcode == 0,
            r.fetched == 0,
            !r.enable_illegal_opcodes,
    {
        Cpu {
            registers: Registers::new(),
            variant: Variant::CMOS,
            state: State::Stopped,
            bus,
            cycles: 0,
            addr_abs: 0,
            addr_rel: 0,
            addr_mode: AddressingMode::Implied,
            opcode: 0,
            fetched: 0,
            enable_illegal_opcodes: false,
        }
    }

    pub fn change_variant(&mut self, variant: Variant)
        ensures
            *final(self) == (Cpu { variant, ..*old(self) }),
    {
        self.variant = variant;
    }

    pub fn set_illegal_opcodes(&mut self, enable: bool)
        ensures
            *final(self) == (Cpu { enable_illegal_opcodes: enable, ..*old(self) }),
    {
        self.enable_illegal_opcodes = enable;
    }

    /// The base cycle count of `opcode`.
    pub fn get_cycles(&self, opcode: u8) -> (r: u8)
        ensures
            r == crate::instructions::instruction_spec(opcode).cycles,
    {
        crate::instructions::get_cycles(opcode)
    }

    /// Reads `address` on the bus.
    pub fn read_byte(&self, address: u16) -> (r: u8)
        ensures
            r == self.bus.peek(address),
    {
        self.bus.read_byte(address)
    }

    /// Writes `value` to `address` on the bus.
    pub fn write_byte(&mut self, address: u16, value: u8)
        ensures
            old(self).bus.writes_to(seq![(address, value)], final(self).bus),
            final(self).registers == old(self).registers,
            old(self).same_latches(*final(self)),
    {
        self.bus.write_byte(address, value);
    }

    pub fn read(&self, address: u16) -> (r: u8)
        ensures
            r == self.bus.peek(address),
    {
        self.read_byte(address)
    }

    pub fn write(&mut self, address: u16, data: u8)
        ensures
            old(self).bus.writes_to(seq![(address, data)], final(self).bus),
            final(self).registers == old(self).registers,
            old(self).same_latches(*final(self)),
    {
        self.write_byte(address, data);
    }

    /// The little-endian word at `address`; the high byte comes from the next address,
    /// modulo 0x10000.
    pub fn read_word(&self, address: u16) -> (r: u16)
        ensures
            r == self.peek_word(address),
    {
        let lo = self.read(address);
        let hi = self.read(address.wrapping_add(1));
        ((hi as u16) << 8) | (lo as u16)
    }

    /// Writes `data` little-endian at `address` and the address after it.
    pub fn write_word(&mut self, address: u16, data: u16)
        ensures
            old(self).bus.writes_to(
                seq![(address, lo_byte(data)), (next16(address), hi_byte(data))],
                final(self).bus,
            ),
            final(self).registers == old(self).registers,
            old(self).same_latches(*final(self)),
    {
        let ghost b0 = self.bus;
        self.write(address, data as u8);
        let ghost b1 = self.bus;
        self.write(address.wrapping_add(1), (data >> 8) as u8);
        proof {
            crate::bus::lemma_writes_compose(
                b0,
                seq![(address, lo_byte(data))],
                b1,
                seq![(next16(address), hi_byte(data))],
                self.bus,
            );
            assert(seq![(address, lo_byte(data))] + seq![(next16(address), hi_byte(data))]
                =~= seq![(address, lo_byte(data)), (next16(address), hi_byte(data))]);
        }
    }

    /// Reads the current operand into `fetched`: the byte at the resolved address,
    /// or, in implied mode, the accumulator copy already there.
    pub fn fetch(&mut self) -> (r: u8)
        ensures
            r == old(self).operand(),
            *final(self) == (Cpu { fetched: old(self).operand(), ..*old(self) }),
    {
        if self.addr_mode != AddressingMode::Implied {
            self.fetched = self.read(self.addr_abs);
        }
        self.fetched
    }

    /// Pushes `data` at the stack pointer, then moves it down one slot.
    pub fn push(&mut self, data: u8)
        ensures
            old(self).bus.writes_to(seq![(stack_addr(old(self).registers.sp), data)], final(self).bus),
            final(self).registers == (Registers {
                sp: crate::registers::dec8(old(self).registers.sp),
                ..old(self).registers
            }),
            old(self).same_latches(*final(self)),
    {
        self.write(0x0100 + self.registers.sp as u16, data);
        self.registers.decrement_sp();
    }

    /// Pushes `data` high byte first.
    pub fn push_word(&mut self, data: u16)
        ensures
            old(self).pushed_word(data, *final(self)),
    {
        let ghost b0 = self.bus;
        let ghost sp = self.registers.sp;
        self.push((data >> 8) as u8);
        let ghost b1 = self.bus;
        self.push(data as u8);
        proof {
            crate::bus::lemma_writes_compose(
                b0,
                seq![(stack_addr(sp), hi_byte(data))],
                b1,
                seq![(stack_addr(crate::registers::dec8(sp)), lo_byte(data))],
                self.bus,
            );
            assert(seq![(stack_addr(sp), hi_byte(data))] + seq![
                (stack_addr(crate::registers::dec8(sp)), lo_byte(data)),
            ] =~= word_push_writes(sp, data));
        }
    }

    /// Moves the stack pointer up one slot and reads the byte there.
    pub fn pop(&mut self) -> (r: u8)
        ensures
            old(self).popped(*final(self), r),
    {
        self.registers.increment_sp();
        self.read(0x0100 + self.registers.sp as u16)
    }

    /// Pops a word, low byte first.
    pub fn pop_word(&mut self) -> (r: u16)
        ensures
            old(self).popped_word(*final(self), r),
    {
        let lo = self.pop();
        let hi = self.pop();
        ((hi as u16) << 8) | (lo as u16)
    }

    /// Pushes the frame for return address `pc`, disables interrupts and jumps through
    /// `vector`.
    pub(crate) fn interrupt(&mut self, vector: u16, pc: u16)
        ensures
            old(self).enters_interrupt(*final(self), vector, pc),
            old(self).same_latches(*final(self)),
    {
        let ghost b0 = self.bus;
        let ghost sp = self.registers.sp;
        let flags = self.registers.flags;
        self.push_word(pc);
        let ghost b1 = self.bus;
        self.push(flags | 0x30);
        self.registers.set_flag(Flag::InterruptDisable, true);
        self.registers.pc = self.read_word(vector);
        proof {
            crate::bus::lemma_writes_compose(
                b0,
                word_push_writes(sp, pc),
                b1,
                seq![(stack_addr(crate::registers::dec8(crate::registers::dec8(sp))), flags | 0x30)],
                self.bus,
            );
        }
    }

    /// Power-on sequence: clears A, X and Y, loads the program counter from the reset
    /// vector, sets the stack pointer to 0xFD and the status to 0x24 (Unused and
    /// InterruptDisable), and waits seven cycles before the first fetch.
    pub fn reset(&mut self)
        ensures
            final(self).registers == (Registers {
                a: 0,
                x: 0,
                y: 0,
                pc: old(self).peek_word(RESET_VECTOR),
                sp: 0xFD,
                flags: 0x24,
            }),
            *final(self) == (Cpu {
                registers: final(self).registers,
                cycles: 7,
                state: State::Fetching,
                ..*old(self)
            }),
    {
        self.registers.a = 0x00;
        self.registers.x = 0x00;
        self.registers.y = 0x00;
        self.registers.pc = self.read_word(RESET_VECTOR);
        self.registers.sp = 0xFD;
        self.registers.flags = 0x24;
        self.cycles = 7;
        self.state = State::Fetching;
    }

    /// Maskable interrupt: ignored while InterruptDisable is set; else pushes the
    /// return address and status and jumps through the IRQ vector.
    pub fn irq(&mut self)
        ensures
            crate::registers::flag_is_set(old(self).registers.flags, Flag::InterruptDisable)
                ==> *final(self) == *old(self),
            !crate::registers::flag_is_set(old(self).registers.flags, Flag::InterruptDisable) ==> {
                &&& old(self).enters_interrupt(*final(self), IRQ_VECTOR, old(self).registers.pc)
                &&& *final(self) == (Cpu {
                    registers: final(self).registers,
                    bus: final(self).bus,
                    state: State::Interrupt,
                    cycles: 7,
                    ..*old(self)
                })
            },
    {
        if !self.registers.get_flag(Flag::InterruptDisable) {
            let pc = self.registers.pc;
            self.interrupt(IRQ_VECTOR, pc);
            self.state = State::Interrupt;
            self.cycles = 7;
        }
    }

    /// Non-maskable interrupt: pushes the return address and status and jumps through
    /// the NMI vector, whatever InterruptDisable holds.
    pub fn nmi(&mut self)
        ensures
            old(self).enters_interrupt(*final(self), NMI_VECTOR, old(self).registers.pc),
            *final(self) == (Cpu {
                registers: final(self).registers,
                bus: final(self).bus,
                state: State::Interrupt,
                cycles: 7,
                ..*old(self)
            }),
    {
        let pc = self.registers.pc;
        self.interrupt(NMI_VECTOR, pc);
        self.state = State::Interrupt;
        self.cycles = 7;
    }

    /// The core just after fetching the opcode at the program counter, with the table's
    /// addressing mode recorded and the program counter past the opcode.
    pub open spec fn decoded(self) -> Self {
        let op = self.bus.peek(self.registers.pc);
        Cpu {
            opcode: op,
            state: State::Executing,
            addr_mode: instruction_spec(op).mode,
            registers: Registers { pc: next16(self.registers.pc), ..self.registers },
            ..self
        }
    }

    /// `post` is `pre` after one whole instruction: decode, resolve the operand, run the
    /// handler, and charge base + addressing + handler cycles, of which this one is the
    /// first.
    pub open spec fn steps(pre: Self, post: Self) -> bool {
        let d = pre.decoded();
        let ins = instruction_spec(d.opcode);
        let (resolved, address_extra) = d.addressed(ins.mode);
        exists|handler_extra: u8|
            {
                &&& #[trigger] Self::performs(
                    ins.mnemonic,
                    resolved,
                    Cpu { cycles: resolved.cycles, ..post },
                    handler_extra,
                )
                &&& post.cycles == ins.cycles + address_extra + handler_extra - 1
            }
    }

    /// Advances one cycle. A halted core does nothing; otherwise, with cycles still owed,
    /// one is taken off; with none owed, the next instruction runs.
    pub fn clock(&mut self)
        ensures
            old(self).state == State::Halted ==> *final(self) == *old(self),
            old(self).state != State::Halted && old(self).cycles > 0 ==> *final(self) == (Cpu {
                cycles: (old(self).cycles - 1) as u8,
                ..*old(self)
            }),
            old(self).state != State::Halted && old(self).cycles == 0 ==> Self::steps(
                *old(self),
                *final(self),
            ),
    {
        if self.state == State::Halted {
            return ;
        }
        if self.cycles == 0 {
            let ghost pre = *self;
            let op = self.read(self.registers.pc);
            self.opcode = op;
            self.registers.pc = self.registers.pc.wrapping_add(1);
            let ins = instruction(op);
            self.state = State::Executing;
            proof {
                crate::instructions::lemma_cycles_bounded(op);
                assert(*self == (Cpu { addr_mode: self.addr_mode, ..pre.decoded() }));
            }
            let address_extra = self.execute_addr_mode(ins.mode);
            let ghost resolved = *self;
            let handler_extra = self.execute(ins.mnemonic);
            proof {
                assert(*self == (Cpu { cycles: resolved.cycles, ..*self }));
            }
            self.cycles = ins.cycles + address_extra + handler_extra;
        }
        self.cycles = self.cycles - 1;
    }
}

proof fn lemma_word_split(v: u16)
    by (bit_vector)
    ensures
        ((((v >> 8) as u8) as u16) << 8) | ((v as u8) as u16) == v,
{
}

/// Pushing a word and popping one gives the word back and restores the stack pointer,
/// where the two stack slots have no read hook.
pub proof fn lemma_push_pop_word<D: Device>(c0: Cpu<D>, v: u16, c1: Cpu<D>, c2: Cpu<D>, r: u16)
    requires
        c0.pushed_word(v, c1),
        c1.popped_word(c2, r),
        !c0.bus.reads_hooked(stack_addr(c0.registers.sp)),
        !c0.bus.reads_hooked(stack_addr(crate::registers::dec8(c0.registers.sp))),
    ensures
        r == v,
        c2.registers.sp == c0.registers.sp,
{
    reveal_with_fuel(crate::bus::apply_writes, 3);
    let w = word_push_writes(c0.registers.sp, v);
    assert(w.drop_last().drop_last() =~= Seq::<(u16, u8)>::empty());
    assert(w.drop_last() =~= seq![w[0]]);
    lemma_word_split(v);
}

/// After an interrupt is taken, popping a byte gives the status pushed (the old status
/// with Break and Unused set), and popping a word then gives the interrupted program
/// counter, with the stack pointer back where it was; where the three stack slots have
/// no read hook.
pub proof fn lemma_irq_frame<D: Device>(
    c0: Cpu<D>,
    c1: Cpu<D>,
    c2: Cpu<D>,
    f: u8,
    c3: Cpu<D>,
    pc: u16,
)
    requires
        c0.enters_interrupt(c1, IRQ_VECTOR, c0.registers.pc),
        c1.popped(c2, f),
        c2.popped_word(c3, pc),
        !c0.bus.reads_hooked(stack_addr(c0.registers.sp)),
        !c0.bus.reads_hooked(stack_addr(crate::registers::dec8(c0.registers.sp))),
        !c0.bus.reads_hooked(stack_addr(crate::registers::dec8(crate::registers::dec8(c0.registers.sp)))),
    ensures
        f == c0.registers.flags | 0x30,
        pc == c0.registers.pc,
        c3.registers.sp == c0.registers.sp,
{
    reveal_with_fuel(crate::bus::apply_writes, 4);
    let w = interrupt_writes(c0.registers.sp, c0.registers.pc, c0.registers.flags);
    assert(w.drop_last().drop_last().drop_last() =~= Seq::<(u16, u8)>::empty());
    assert(w.drop_last().drop_last() =~= seq![w[0]]);
    assert(w.drop_last() =~= seq![w[0], w[1]]);
    lemma_word_split(c0.registers.pc);
}

} // verus!
