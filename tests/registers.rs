use cpu::registers::{Flag, Registers};

#[test]
fn test_set_flag() {
    let mut registers = Registers::new();
    registers.set_flag(Flag::Negative, true);
    assert_eq!(registers.get_flag(Flag::Negative), true);
    registers.set_flag(Flag::Negative, false);
    assert_eq!(registers.get_flag(Flag::Negative), false);
}

#[test]
fn test_get_flag() {
    let mut registers = Registers::new();
    registers.set_flag(Flag::Negative, true);
    assert_eq!(registers.get_flag(Flag::Negative), true);
    registers.set_flag(Flag::Negative, false);
    assert_eq!(registers.get_flag(Flag::Negative), false);
}

#[test]
fn test_set_registers() {
    let mut registers = Registers::new();
    registers.a = 0x01;
    registers.x = 0x02;
    registers.y = 0x03;
    registers.pc = 0x0405;
    registers.sp = 0x06;
    registers.flags = 0x07;
    assert_eq!(registers.a, 0x01);
    assert_eq!(registers.x, 0x02);
    assert_eq!(registers.y, 0x03);
    assert_eq!(registers.pc, 0x0405);
    assert_eq!(registers.sp, 0x06);
    assert_eq!(registers.flags, 0x07);
}

#[test]
fn set_flag_touches_only_its_bit() {
    let mut registers = Registers::new();
    registers.flags = 0b1010_0101;
    registers.set_flag(Flag::Zero, true);
    assert_eq!(registers.flags, 0b1010_0111);
    registers.set_flag(Flag::Carry, false);
    assert_eq!(registers.flags, 0b1010_0110);
    registers.set_flag(Flag::Negative, false);
    assert_eq!(registers.flags, 0b0010_0110);
    assert!(registers.get_flag(Flag::Unused));
    assert!(!registers.get_flag(Flag::Overflow));
}

#[test]
fn stack_pointer_wraps() {
    let mut registers = Registers::new();
    registers.decrement_sp();
    assert_eq!(registers.sp, 0xFF);
    registers.increment_sp();
    assert_eq!(registers.sp, 0x00);
}
