use cpu::bus::{Bus, Device, Hook, NoDevice};
use cpu::cpu::{Cpu, State, Variant};
use cpu::instructions::{execute_instruction, get_addr_mode, get_cycles, instruction, AddressingMode, Mnemonic};
use cpu::registers::Flag;

/// A bus holding `program` at `at`, with the reset vector pointing there.
fn machine(program: &[u8], at: u16) -> Cpu<NoDevice> {
    let mut bus = Bus::new(NoDevice);
    bus.load_rom_at(program, at).unwrap();
    bus.load_rom_at(&[(at & 0xFF) as u8, (at >> 8) as u8], 0xFFFC).unwrap();
    let mut cpu = Cpu::new(bus);
    cpu.reset();
    cpu
}

/// Runs one whole instruction and returns the cycles it took.
fn run_one<D: Device>(cpu: &mut Cpu<D>) -> u8 {
    cpu.cycles = 0;
    cpu.clock();
    cpu.cycles + 1
}

#[test]
fn base_cycles_match_the_table() {
    let expected: [(u8, u8); 14] = [
        (0x00, 7),
        (0x01, 6),
        (0x02, 2),
        (0x20, 6),
        (0x40, 6),
        (0x60, 6),
        (0x6C, 5),
        (0x91, 6),
        (0xA9, 2),
        (0xAD, 4),
        (0xB1, 5),
        (0xBD, 4),
        (0xEA, 2),
        (0xFE, 7),
    ];
    for (op, cycles) in expected {
        assert_eq!(get_cycles(op), cycles, "opcode {:02X}", op);
    }
    let cpu = Cpu::new(Bus::new(NoDevice));
    for op in 0..=255u8 {
        let c = get_cycles(op);
        assert!((2..=8).contains(&c));
        assert_eq!(cpu.get_cycles(op), c);
        assert_eq!(get_cycles(op), c);
        assert_eq!(instruction(op).opcode, op);
    }
}

#[test]
fn table_modes_and_names() {
    assert_eq!(get_addr_mode(0x6C), AddressingMode::Indirect);
    assert_eq!(get_addr_mode(0xB1), AddressingMode::IndirectIndexed);
    assert_eq!(get_addr_mode(0xA1), AddressingMode::IndexedIndirect);
    assert_eq!(get_addr_mode(0x0A), AddressingMode::Implied);
    assert_eq!(instruction(0x6A).mnemonic, Mnemonic::RorA);
    assert_eq!(instruction(0x6A).mnemonic.name(), "ROR");
    assert_eq!(instruction(0xA9).mnemonic.name(), "LDA");
    assert_eq!(instruction(0x02).mnemonic, Mnemonic::Kil);
}

#[test]
fn reset_loads_vector_and_fixed_state() {
    let mut cpu = machine(&[0xEA], 0xC000);
    cpu.registers.a = 0x12;
    cpu.registers.x = 0x34;
    cpu.registers.y = 0x56;
    cpu.registers.sp = 0x10;
    cpu.registers.flags = 0xFF;
    cpu.registers.pc = 0x1234;
    cpu.reset();
    assert_eq!(cpu.registers.pc, 0xC000);
    assert_eq!(cpu.registers.sp, 0xFD);
    assert_eq!(cpu.registers.flags, 0x24);
    assert_eq!((cpu.registers.a, cpu.registers.x, cpu.registers.y), (0, 0, 0));
    assert_eq!(cpu.cycles, 7);
    assert_eq!(cpu.state, State::Fetching);
}

#[test]
fn first_instruction_runs_after_the_reset_cycles() {
    let mut cpu = machine(&[0xA9, 0x42], 0xC000);
    for _ in 0..7 {
        cpu.clock();
        assert_eq!(cpu.registers.a, 0);
    }
    cpu.clock();
    assert_eq!(cpu.registers.a, 0x42);
    assert_eq!(cpu.registers.pc, 0xC002);
    assert_eq!(cpu.cycles, 1);
    cpu.clock();
    assert_eq!(cpu.cycles, 0);
}

#[test]
fn absolute_x_page_crossing() {
    let mut cpu = machine(&[0xFF, 0x01, 0x01, 0x01], 0x0200);
    cpu.registers.pc = 0x0200;
    cpu.registers.x = 0x01;
    assert_eq!(cpu.addr_absolute_x(), 1);
    assert_eq!(cpu.addr_abs, 0x0200);
    assert_eq!(cpu.registers.pc, 0x0202);
    assert_eq!(cpu.addr_absolute_x(), 0);
    assert_eq!(cpu.addr_abs, 0x0102);
}

#[test]
fn indirect_y_page_crossing() {
    let mut cpu = machine(&[0x10], 0x0300);
    cpu.bus.load_rom_at(&[0xFF, 0x20], 0x0010).unwrap();
    cpu.registers.pc = 0x0300;
    cpu.registers.y = 0x01;
    assert_eq!(cpu.addr_indirect_indexed(), 1);
    assert_eq!(cpu.addr_abs, 0x2100);
    assert_eq!(cpu.registers.pc, 0x0301);
}

#[test]
fn indexed_indirect_wraps_in_zero_page() {
    let mut cpu = machine(&[0xFE], 0x0300);
    cpu.bus.load_rom_at(&[0x34], 0x00FF).unwrap();
    cpu.bus.load_rom_at(&[0x12], 0x0000).unwrap();
    cpu.registers.pc = 0x0300;
    cpu.registers.x = 0x01;
    assert_eq!(cpu.addr_indexed_indirect(), 0);
    assert_eq!(cpu.addr_abs, 0x1234);
}

#[test]
fn zero_page_x_wraps() {
    let mut cpu = machine(&[0xF0], 0x0300);
    cpu.registers.pc = 0x0300;
    cpu.registers.x = 0x20;
    assert_eq!(cpu.addr_zero_page_x(), 0);
    assert_eq!(cpu.addr_abs, 0x0010);
}

#[test]
fn relative_is_sign_extended() {
    let mut cpu = machine(&[0xFE, 0x05], 0x0300);
    cpu.registers.pc = 0x0300;
    cpu.addr_relative();
    assert_eq!(cpu.addr_rel, 0xFFFE);
    cpu.addr_relative();
    assert_eq!(cpu.addr_rel, 0x0005);
}

fn indirect_target(variant: Variant) -> u16 {
    let mut cpu = machine(&[0x6C, 0xFF, 0x30], 0xC000);
    cpu.bus.load_rom_at(&[0x50], 0x3000).unwrap();
    cpu.bus.load_rom_at(&[0x80], 0x30FF).unwrap();
    cpu.bus.load_rom_at(&[0x40], 0x3100).unwrap();
    cpu.change_variant(variant);
    run_one(&mut cpu);
    cpu.registers.pc
}

#[test]
fn indirect_jump_page_bug_on_nmos() {
    assert_eq!(indirect_target(Variant::NMOS), 0x5080);
}

#[test]
fn indirect_jump_without_bug_on_cmos_and_nes() {
    assert_eq!(indirect_target(Variant::CMOS), 0x4080);
    assert_eq!(indirect_target(Variant::NES), 0x4080);
}

fn load(value: u8) -> Cpu<NoDevice> {
    let mut cpu = machine(&[0xA9, value], 0xC000);
    assert_eq!(run_one(&mut cpu), 2);
    cpu
}

#[test]
fn load_sets_zero_and_negative() {
    let cpu = load(0x00);
    assert!(cpu.registers.get_flag(Flag::Zero));
    assert!(!cpu.registers.get_flag(Flag::Negative));
    let cpu = load(0x80);
    assert!(!cpu.registers.get_flag(Flag::Zero));
    assert!(cpu.registers.get_flag(Flag::Negative));
    assert_eq!(cpu.registers.a, 0x80);
    let cpu = load(0x7F);
    assert!(!cpu.registers.get_flag(Flag::Zero));
    assert!(!cpu.registers.get_flag(Flag::Negative));
    assert!(cpu.registers.get_flag(Flag::InterruptDisable));
}

#[test]
fn push_word_then_pop_word() {
    let mut cpu = machine(&[0xEA], 0xC000);
    let sp = cpu.registers.sp;
    cpu.push_word(0xABCD);
    assert_eq!(cpu.registers.sp, sp.wrapping_sub(2));
    assert_eq!(cpu.read(0x0100 + sp as u16), 0xAB);
    assert_eq!(cpu.pop_word(), 0xABCD);
    assert_eq!(cpu.registers.sp, sp);
}

#[test]
fn stack_wraps_within_page_one() {
    let mut cpu = machine(&[0xEA], 0xC000);
    cpu.registers.sp = 0x00;
    cpu.push(0x11);
    assert_eq!(cpu.registers.sp, 0xFF);
    assert_eq!(cpu.read(0x0100), 0x11);
    assert_eq!(cpu.pop(), 0x11);
    assert_eq!(cpu.registers.sp, 0x00);
}

#[test]
fn read_and_write_words() {
    let mut cpu = machine(&[0xEA], 0xC000);
    cpu.write_word(0x2000, 0xBEEF);
    assert_eq!(cpu.read(0x2000), 0xEF);
    assert_eq!(cpu.read(0x2001), 0xBE);
    assert_eq!(cpu.read_word(0x2000), 0xBEEF);
    cpu.write_byte(0x2002, 0x01);
    assert_eq!(cpu.read_byte(0x2002), 0x01);
}

fn with_irq_vector() -> Cpu<NoDevice> {
    let mut cpu = machine(&[0xEA], 0xC000);
    cpu.bus.load_rom_at(&[0x00, 0xE0], 0xFFFE).unwrap();
    cpu.bus.load_rom_at(&[0x00, 0xF0], 0xFFFA).unwrap();
    cpu
}

#[test]
fn irq_is_masked_by_interrupt_disable() {
    let mut cpu = with_irq_vector();
    assert!(cpu.registers.get_flag(Flag::InterruptDisable));
    let before = cpu.registers;
    cpu.irq();
    assert_eq!(cpu.registers, before);
    assert_eq!(cpu.cycles, 7);
    assert_eq!(cpu.state, State::Fetching);
}

#[test]
fn irq_pushes_frame_and_jumps() {
    let mut cpu = with_irq_vector();
    cpu.registers.set_flag(Flag::InterruptDisable, false);
    cpu.registers.pc = 0xC123;
    cpu.registers.flags = 0xC3;
    let sp = cpu.registers.sp;
    cpu.irq();
    assert_eq!(cpu.registers.pc, 0xE000);
    assert_eq!(cpu.state, State::Interrupt);
    assert_eq!(cpu.cycles, 7);
    assert!(cpu.registers.get_flag(Flag::InterruptDisable));
    assert_eq!(cpu.registers.sp, sp.wrapping_sub(3));
    assert_eq!(cpu.pop(), 0xC3 | 0x30);
    assert_eq!(cpu.pop_word(), 0xC123);
    assert_eq!(cpu.registers.sp, sp);
}

#[test]
fn nmi_ignores_interrupt_disable() {
    let mut cpu = with_irq_vector();
    cpu.registers.pc = 0xC200;
    cpu.nmi();
    assert_eq!(cpu.registers.pc, 0xF000);
    assert_eq!(cpu.state, State::Interrupt);
    assert_eq!(cpu.pop(), 0x24 | 0x30);
    assert_eq!(cpu.pop_word(), 0xC200);
}

#[test]
fn brk_skips_its_signature_byte() {
    let mut cpu = machine(&[0x00, 0xFF, 0xEA], 0xC000);
    cpu.bus.load_rom_at(&[0x00, 0xE0], 0xFFFE).unwrap();
    cpu.registers.flags = 0x00;
    assert_eq!(run_one(&mut cpu), 7);
    assert_eq!(cpu.registers.pc, 0xE000);
    assert!(cpu.registers.get_flag(Flag::InterruptDisable));
    assert_eq!(cpu.pop(), 0x30);
    assert_eq!(cpu.pop_word(), 0xC002);
}

#[test]
fn jsr_and_rts() {
    let mut cpu = machine(&[0x20, 0x00, 0xD0], 0xC000);
    cpu.bus.load_rom_at(&[0x60], 0xD000).unwrap();
    assert_eq!(run_one(&mut cpu), 6);
    assert_eq!(cpu.registers.pc, 0xD000);
    assert_eq!(cpu.registers.sp, 0xFB);
    assert_eq!(cpu.read_word(0x01FC), 0xC002);
    assert_eq!(run_one(&mut cpu), 6);
    assert_eq!(cpu.registers.pc, 0xC003);
    assert_eq!(cpu.registers.sp, 0xFD);
}

#[test]
fn rti_restores_status_and_pc() {
    let mut cpu = machine(&[0x40], 0xC000);
    cpu.push_word(0x1234);
    cpu.push(0xFF);
    run_one(&mut cpu);
    assert_eq!(cpu.registers.pc, 0x1234);
    assert_eq!(cpu.registers.flags, 0xEF);
    assert_eq!(cpu.registers.sp, 0xFD);
}

#[test]
fn php_and_plp() {
    let mut cpu = machine(&[0x08, 0x28], 0xC000);
    cpu.registers.flags = 0x01;
    run_one(&mut cpu);
    assert_eq!(cpu.read(0x01FD), 0x31);
    cpu.write(0x01FD, 0xD3);
    run_one(&mut cpu);
    assert_eq!(cpu.registers.flags, 0xE3);
}

#[test]
fn pha_and_pla() {
    let mut cpu = machine(&[0x48, 0xA9, 0x00, 0x68], 0xC000);
    cpu.registers.a = 0x90;
    run_one(&mut cpu);
    run_one(&mut cpu);
    assert!(cpu.registers.get_flag(Flag::Zero));
    run_one(&mut cpu);
    assert_eq!(cpu.registers.a, 0x90);
    assert!(cpu.registers.get_flag(Flag::Negative));
    assert!(!cpu.registers.get_flag(Flag::Zero));
}

fn adc(variant: Variant, decimal: bool, carry: bool, a: u8, m: u8) -> Cpu<NoDevice> {
    let mut cpu = machine(&[0x69, m], 0xC000);
    cpu.change_variant(variant);
    cpu.registers.a = a;
    cpu.registers.set_flag(Flag::DecimalMode, decimal);
    cpu.registers.set_flag(Flag::Carry, carry);
    run_one(&mut cpu);
    cpu
}

#[test]
fn adc_binary_sets_overflow_and_carry() {
    let cpu = adc(Variant::CMOS, false, false, 0x50, 0x50);
    assert_eq!(cpu.registers.a, 0xA0);
    assert!(cpu.registers.get_flag(Flag::Overflow));
    assert!(cpu.registers.get_flag(Flag::Negative));
    assert!(!cpu.registers.get_flag(Flag::Carry));
    let cpu = adc(Variant::CMOS, false, true, 0xFF, 0x00);
    assert_eq!(cpu.registers.a, 0x00);
    assert!(cpu.registers.get_flag(Flag::Carry));
    assert!(cpu.registers.get_flag(Flag::Zero));
    assert!(!cpu.registers.get_flag(Flag::Overflow));
}

#[test]
fn adc_decimal() {
    let cpu = adc(Variant::CMOS, true, false, 0x19, 0x28);
    assert_eq!(cpu.registers.a, 0x47);
    assert!(!cpu.registers.get_flag(Flag::Carry));
    let cpu = adc(Variant::NMOS, true, false, 0x58, 0x46);
    assert_eq!(cpu.registers.a, 0x04);
    assert!(cpu.registers.get_flag(Flag::Carry));
}

#[test]
fn adc_decimal_is_ignored_on_nes() {
    let cpu = adc(Variant::NES, true, false, 0x19, 0x28);
    assert_eq!(cpu.registers.a, 0x41);
}

fn sbc(variant: Variant, decimal: bool, carry: bool, a: u8, m: u8) -> Cpu<NoDevice> {
    let mut cpu = machine(&[0xE9, m], 0xC000);
    cpu.change_variant(variant);
    cpu.registers.a = a;
    cpu.registers.set_flag(Flag::DecimalMode, decimal);
    cpu.registers.set_flag(Flag::Carry, carry);
    run_one(&mut cpu);
    cpu
}

#[test]
fn sbc_binary_and_decimal() {
    let cpu = sbc(Variant::CMOS, false, true, 0x50, 0x30);
    assert_eq!(cpu.registers.a, 0x20);
    assert!(cpu.registers.get_flag(Flag::Carry));
    let cpu = sbc(Variant::CMOS, false, true, 0x30, 0x50);
    assert_eq!(cpu.registers.a, 0xE0);
    assert!(!cpu.registers.get_flag(Flag::Carry));
    let cpu = sbc(Variant::CMOS, true, true, 0x42, 0x15);
    assert_eq!(cpu.registers.a, 0x27);
    let cpu = sbc(Variant::NES, true, true, 0x42, 0x15);
    assert_eq!(cpu.registers.a, 0x2D);
}

#[test]
fn compare_sets_carry_zero_negative() {
    let mut cpu = machine(&[0xC9, 0x10, 0xC9, 0x20, 0xC9, 0x30], 0xC000);
    cpu.registers.a = 0x20;
    run_one(&mut cpu);
    assert!(cpu.registers.get_flag(Flag::Carry));
    assert!(!cpu.registers.get_flag(Flag::Zero));
    run_one(&mut cpu);
    assert!(cpu.registers.get_flag(Flag::Carry));
    assert!(cpu.registers.get_flag(Flag::Zero));
    run_one(&mut cpu);
    assert!(!cpu.registers.get_flag(Flag::Carry));
    assert!(cpu.registers.get_flag(Flag::Negative));
}

fn ror_accumulator(variant: Variant) -> Cpu<NoDevice> {
    let mut cpu = machine(&[0x6A], 0xC000);
    cpu.change_variant(variant);
    cpu.registers.a = 0x03;
    cpu.registers.set_flag(Flag::Carry, true);
    run_one(&mut cpu);
    cpu
}

#[test]
fn ror_chains_carry_on_cmos_and_nes() {
    for variant in [Variant::CMOS, Variant::NES] {
        let cpu = ror_accumulator(variant);
        assert_eq!(cpu.registers.a, 0x81);
        assert!(cpu.registers.get_flag(Flag::Carry));
        assert!(cpu.registers.get_flag(Flag::Negative));
    }
}

#[test]
fn ror_on_nmos_shifts_in_zero() {
    let cpu = ror_accumulator(Variant::NMOS);
    assert_eq!(cpu.registers.a, 0x01);
    assert!(cpu.registers.get_flag(Flag::Carry));
    assert!(!cpu.registers.get_flag(Flag::Negative));
}

#[test]
fn ror_memory() {
    let mut cpu = machine(&[0x66, 0x10], 0xC000);
    cpu.write(0x0010, 0x02);
    cpu.registers.set_flag(Flag::Carry, true);
    assert_eq!(run_one(&mut cpu), 5);
    assert_eq!(cpu.read(0x0010), 0x81);
    assert!(!cpu.registers.get_flag(Flag::Carry));
}

#[test]
fn shifts_and_rotates() {
    let mut cpu = machine(&[0x0A, 0x4A, 0x2A, 0x06, 0x20], 0xC000);
    cpu.registers.a = 0x81;
    run_one(&mut cpu);
    assert_eq!(cpu.registers.a, 0x02);
    assert!(cpu.registers.get_flag(Flag::Carry));
    run_one(&mut cpu);
    assert_eq!(cpu.registers.a, 0x01);
    assert!(!cpu.registers.get_flag(Flag::Carry));
    run_one(&mut cpu);
    assert_eq!(cpu.registers.a, 0x02);
    cpu.write(0x0020, 0x40);
    run_one(&mut cpu);
    assert_eq!(cpu.read(0x0020), 0x80);
    assert!(cpu.registers.get_flag(Flag::Negative));
}

#[test]
fn branch_cycles() {
    let mut cpu = machine(&[0xD0, 0x02], 0xC000);
    cpu.registers.set_flag(Flag::Zero, false);
    assert_eq!(run_one(&mut cpu), 3);
    assert_eq!(cpu.registers.pc, 0xC004);

    let mut cpu = machine(&[0xD0, 0x05], 0xC0FD);
    cpu.registers.set_flag(Flag::Zero, false);
    assert_eq!(run_one(&mut cpu), 4);
    assert_eq!(cpu.registers.pc, 0xC104);

    let mut cpu = machine(&[0xF0, 0x05], 0xC000);
    cpu.registers.set_flag(Flag::Zero, false);
    assert_eq!(run_one(&mut cpu), 2);
    assert_eq!(cpu.registers.pc, 0xC002);

    let mut cpu = machine(&[0x90, 0xFC], 0xC010);
    cpu.registers.set_flag(Flag::Carry, false);
    assert_eq!(run_one(&mut cpu), 3);
    assert_eq!(cpu.registers.pc, 0xC00E);
}

#[test]
fn page_crossing_adds_a_cycle() {
    let mut cpu = machine(&[0xBD, 0xFF, 0x20, 0xBD, 0x00, 0x20], 0xC000);
    cpu.registers.x = 1;
    cpu.write(0x2100, 0x33);
    assert_eq!(run_one(&mut cpu), 5);
    assert_eq!(cpu.registers.a, 0x33);
    assert_eq!(run_one(&mut cpu), 4);
}

#[test]
fn transfers_and_counters() {
    let mut cpu = machine(&[0xAA, 0xE8, 0x8A, 0xA8, 0x88, 0xBA, 0x9A], 0xC000);
    cpu.registers.a = 0xFF;
    run_one(&mut cpu);
    assert_eq!(cpu.registers.x, 0xFF);
    run_one(&mut cpu);
    assert_eq!(cpu.registers.x, 0x00);
    assert!(cpu.registers.get_flag(Flag::Zero));
    run_one(&mut cpu);
    assert_eq!(cpu.registers.a, 0x00);
    run_one(&mut cpu);
    assert_eq!(cpu.registers.y, 0x00);
    run_one(&mut cpu);
    assert_eq!(cpu.registers.y, 0xFF);
    run_one(&mut cpu);
    assert_eq!(cpu.registers.x, 0xFD);
    cpu.registers.x = 0x40;
    run_one(&mut cpu);
    assert_eq!(cpu.registers.sp, 0x40);
}

#[test]
fn flag_instructions() {
    let mut cpu = machine(&[0x38, 0xF8, 0x58, 0x18, 0xD8, 0x78, 0xB8], 0xC000);
    run_one(&mut cpu);
    assert!(cpu.registers.get_flag(Flag::Carry));
    run_one(&mut cpu);
    assert!(cpu.registers.get_flag(Flag::DecimalMode));
    run_one(&mut cpu);
    assert!(!cpu.registers.get_flag(Flag::InterruptDisable));
    run_one(&mut cpu);
    assert!(!cpu.registers.get_flag(Flag::Carry));
    run_one(&mut cpu);
    assert!(!cpu.registers.get_flag(Flag::DecimalMode));
    run_one(&mut cpu);
    assert!(cpu.registers.get_flag(Flag::InterruptDisable));
    cpu.registers.set_flag(Flag::Overflow, true);
    run_one(&mut cpu);
    assert!(!cpu.registers.get_flag(Flag::Overflow));
}

#[test]
fn bit_test() {
    let mut cpu = machine(&[0x24, 0x10], 0xC000);
    cpu.write(0x0010, 0xC0);
    cpu.registers.a = 0x01;
    run_one(&mut cpu);
    assert!(cpu.registers.get_flag(Flag::Zero));
    assert!(cpu.registers.get_flag(Flag::Negative));
    assert!(cpu.registers.get_flag(Flag::Overflow));
    assert_eq!(cpu.registers.a, 0x01);
}

#[test]
fn stores_and_memory_increments() {
    let mut cpu = machine(&[0x85, 0x10, 0x86, 0x11, 0x84, 0x12, 0xE6, 0x10, 0xC6, 0x11], 0xC000);
    cpu.registers.a = 0xFF;
    cpu.registers.x = 0x01;
    cpu.registers.y = 0x02;
    for _ in 0..3 {
        run_one(&mut cpu);
    }
    assert_eq!(cpu.read(0x0010), 0xFF);
    assert_eq!(cpu.read(0x0011), 0x01);
    assert_eq!(cpu.read(0x0012), 0x02);
    run_one(&mut cpu);
    assert_eq!(cpu.read(0x0010), 0x00);
    assert!(cpu.registers.get_flag(Flag::Zero));
    run_one(&mut cpu);
    assert_eq!(cpu.read(0x0011), 0x00);
}

#[test]
fn kil_halts_when_undocumented_opcodes_act() {
    let mut cpu = machine(&[0x02, 0xEA], 0xC000);
    cpu.change_variant(Variant::NMOS);
    cpu.set_illegal_opcodes(true);
    run_one(&mut cpu);
    assert_eq!(cpu.state, State::Halted);
    let pc = cpu.registers.pc;
    let cycles = cpu.cycles;
    for _ in 0..10 {
        cpu.clock();
    }
    assert_eq!(cpu.registers.pc, pc);
    assert_eq!(cpu.cycles, cycles);
    cpu.reset();
    assert_eq!(cpu.state, State::Fetching);
    assert_eq!(cpu.registers.pc, 0xC000);
}

#[test]
fn kil_is_a_no_op_when_disabled_or_on_cmos() {
    let mut cpu = machine(&[0x02, 0xEA], 0xC000);
    cpu.change_variant(Variant::NMOS);
    run_one(&mut cpu);
    assert_eq!(cpu.state, State::Executing);
    assert_eq!(cpu.registers.pc, 0xC001);

    let mut cpu = machine(&[0x02, 0xEA], 0xC000);
    cpu.change_variant(Variant::CMOS);
    cpu.set_illegal_opcodes(true);
    run_one(&mut cpu);
    assert_eq!(cpu.state, State::Executing);
}

#[test]
fn undocumented_loads_and_stores() {
    let mut cpu = machine(&[0xA7, 0x10, 0x87, 0x11], 0xC000);
    cpu.change_variant(Variant::NES);
    cpu.set_illegal_opcodes(true);
    cpu.write(0x0010, 0x8F);
    run_one(&mut cpu);
    assert_eq!(cpu.registers.a, 0x8F);
    assert_eq!(cpu.registers.x, 0x8F);
    assert!(cpu.registers.get_flag(Flag::Negative));
    cpu.registers.x = 0x0F;
    run_one(&mut cpu);
    assert_eq!(cpu.read(0x0011), 0x0F);
}

#[test]
fn undocumented_opcode_does_nothing_when_disabled() {
    let mut cpu = machine(&[0xA7, 0x10], 0xC000);
    cpu.change_variant(Variant::NMOS);
    cpu.write(0x0010, 0x8F);
    let before = cpu.registers;
    assert_eq!(run_one(&mut cpu), 3);
    assert_eq!(cpu.registers.a, before.a);
    assert_eq!(cpu.registers.x, before.x);
    assert_eq!(cpu.registers.pc, 0xC002);
}

#[test]
fn undocumented_read_modify_write() {
    let mut cpu = machine(&[0x07, 0x10, 0xC7, 0x11], 0xC000);
    cpu.change_variant(Variant::NMOS);
    cpu.set_illegal_opcodes(true);
    cpu.write(0x0010, 0x41);
    cpu.write(0x0011, 0x06);
    cpu.registers.a = 0x01;
    run_one(&mut cpu);
    assert_eq!(cpu.read(0x0010), 0x82);
    assert_eq!(cpu.registers.a, 0x83);
    cpu.registers.a = 0x05;
    run_one(&mut cpu);
    assert_eq!(cpu.read(0x0011), 0x05);
    assert!(cpu.registers.get_flag(Flag::Zero));
    assert!(cpu.registers.get_flag(Flag::Carry));
}

#[test]
fn execute_instruction_runs_the_handler() {
    let mut cpu = machine(&[0xEA], 0xC000);
    cpu.addr_mode = AddressingMode::Immediate;
    cpu.addr_abs = 0x3000;
    cpu.write(0x3000, 0x99);
    assert_eq!(execute_instruction(0xA2, &mut cpu), 0);
    assert_eq!(cpu.registers.x, 0x99);
    assert_eq!(cpu.fetched, 0x99);
}

#[test]
fn execute_addr_mode_records_mode() {
    let mut cpu = machine(&[0x34, 0x12], 0xC000);
    assert_eq!(cpu.execute_addr_mode(AddressingMode::Absolute), 0);
    assert_eq!(cpu.addr_mode, AddressingMode::Absolute);
    assert_eq!(cpu.addr_abs, 0x1234);
    assert_eq!(cpu.execute_addr_mode(AddressingMode::Implied), 0);
    assert_eq!(cpu.fetched, cpu.registers.a);
}

#[test]
fn variant_names() {
    assert_eq!(Variant::from_string(String::from("NMOS")), Some(Variant::NMOS));
    assert_eq!(Variant::from_string(String::from("CMOS")), Some(Variant::CMOS));
    assert_eq!(Variant::from_string(String::from("NES")), Some(Variant::NES));
    assert_eq!(Variant::from_string(String::from("6502")), None);
    assert_eq!(Variant::from_string(String::from("nes")), None);
    assert_eq!(Variant::NES.to_string(), "NES");
    assert_eq!(Variant::NMOS.to_string(), "NMOS");
    assert_eq!(Variant::CMOS.to_string(), "CMOS");
}

/// Records every write that reaches it.
#[derive(Clone)]
struct Latch {
    writes: Vec<(u16, u8)>,
}

impl Device for Latch {
    fn read_spec(&self, address: u16) -> u8 {
        self.read(address)
    }

    fn after_write(&self, address: u16, value: u8) -> Self {
        let mut next = self.clone();
        next.write(address, value);
        next
    }

    fn read(&self, _address: u16) -> u8 {
        0xA5
    }

    fn write(&mut self, address: u16, value: u8) {
        self.writes.push((address, value));
    }
}

#[test]
fn cpu_reaches_devices_through_hooks() {
    let mut bus = Bus::new(Latch { writes: Vec::new() });
    bus.load_rom_at(&[0xAD, 0x00, 0x60, 0x8D, 0x02, 0x60], 0xC000).unwrap();
    bus.load_rom_at(&[0x00, 0xC0], 0xFFFC).unwrap();
    bus.add_hook_range(0x6000, 0x6002, Hook { read: true, write: true });
    let mut cpu = Cpu::new(bus);
    cpu.reset();
    run_one(&mut cpu);
    assert_eq!(cpu.registers.a, 0xA5);
    run_one(&mut cpu);
    assert_eq!(cpu.bus.device.writes, vec![(0x6002, 0xA5)]);
    cpu.registers.sp = 0x00;
    cpu.bus.add_hook(0x0100, Hook { read: false, write: true });
    cpu.push_word(0x1234);
    assert_eq!(cpu.bus.device.writes, vec![(0x6002, 0xA5), (0x0100, 0x12)]);
    assert_eq!(cpu.bus.ram[0x0100], 0x12);
    assert_eq!(cpu.bus.ram[0x01FF], 0x34);
    assert_eq!(cpu.bus.ram[0x6002], 0xA5);
}

#[test]
fn every_opcode_runs_on_every_variant() {
    for variant in [Variant::NMOS, Variant::CMOS, Variant::NES] {
        for illegal in [false, true] {
            for op in 0..=255u8 {
                let mut cpu = machine(&[op, 0xFF, 0x20], 0xC000);
                cpu.change_variant(variant);
                cpu.set_illegal_opcodes(illegal);
                cpu.registers.x = 0x01;
                cpu.registers.y = 0x01;
                let cycles = run_one(&mut cpu);
                let base = get_cycles(op);
                assert!(cycles >= base && cycles <= base + 3, "opcode {:02X}", op);
                let halted = cpu.state == State::Halted;
                assert_eq!(halted, illegal && variant != Variant::CMOS && instruction(op).mnemonic == Mnemonic::Kil);
            }
        }
    }
}
