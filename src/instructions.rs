//! The opcode table: for each of the 256 opcode bytes, its mnemonic, addressing mode
//! and base cycle count.

use vstd::prelude::*;

use crate::bus::Device;
use crate::cpu::Cpu;

verus! {

/// How an instruction finds its operand.
#[derive(Clone, Copy, Debug, PartialEq, Eq, Structural)]
pub enum AddressingMode {
    Absolute,
    AbsoluteX,
    AbsoluteY,
    Immediate,
    Implied,
    IndexedIndirect,
    Indirect,
    IndirectIndexed,
    Relative,
    ZeroPage,
    ZeroPageX,
    ZeroPageY,
}

/// The operation an opcode performs; each has one handler on the CPU.
#[derive(Clone, Copy, Debug, PartialEq, Eq, Structural)]
pub enum Mnemonic {
    Adc,
    Ahx,
    Alr,
    Anc,
    And,
    Arr,
    Asl,
    Axs,
    Bcc,
    Bcs,
    Beq,
    Bit,
    Bmi,
    Bne,
    Bpl,
    Brk,
    Bvc,
    Bvs,
    Clc,
    Cld,
    Cli,
    Clv,
    Cmp,
    Cpx,
    Cpy,
    Dcp,
    Dec,
    Dex,
    Dey,
    Eor,
    Inc,
    Inx,
    Iny,
    Isc,
    Jmp,
    Jsr,
    Kil,
    Las,
    Lax,
    Lda,
    Ldx,
    Ldy,
    Lsr,
    Nop,
    Ora,
    Pha,
    Php,
    Pla,
    Plp,
    Rla,
    Rol,
    Ror,
    RorA,
    Rra,
    Rti,
    Rts,
    Sax,
    Sbc,
    Sec,
    Sed,
    Sei,
    Shx,
    Shy,
    Slo,
    Sre,
    Sta,
    Stx,
    Sty,
    Tas,
    Tax,
    Tay,
    Tsx,
    Txa,
    Txs,
    Tya,
    Xaa,
}

impl Mnemonic {
    /// Whether the operation is one of the undocumented ones.
    pub open spec fn is_illegal(self) -> bool {
        match self {
            Mnemonic::Ahx => true,
            Mnemonic::Alr => true,
            Mnemonic::Anc => true,
            Mnemonic::Arr => true,
            Mnemonic::Axs => true,
            Mnemonic::Dcp => true,
            Mnemonic::Isc => true,
            Mnemonic::Kil => true,
            Mnemonic::Las => true,
            Mnemonic::Lax => true,
            Mnemonic::Rla => true,
            Mnemonic::Rra => true,
            Mnemonic::Sax => true,
            Mnemonic::Shx => true,
            Mnemonic::Shy => true,
            Mnemonic::Slo => true,
            Mnemonic::Sre => true,
            Mnemonic::Tas => true,
            Mnemonic::Xaa => true,
            _ => false,
        }
    }

    /// The three-letter name of the operation.
    pub open spec fn name_spec(self) -> Seq<char> {
        match self {
            Mnemonic::Adc => seq!['A', 'D', 'C'],
            Mnemonic::Ahx => seq!['A', 'H', 'X'],
            Mnemonic::Alr => seq!['A', 'L', 'R'],
            Mnemonic::Anc => seq!['A', 'N', 'C'],
            Mnemonic::And => seq!['A', 'N', 'D'],
            Mnemonic::Arr => seq!['A', 'R', 'R'],
            Mnemonic::Asl => seq!['A', 'S', 'L'],
            Mnemonic::Axs => seq!['A', 'X', 'S'],
            Mnemonic::Bcc => seq!['B', 'C', 'C'],
            Mnemonic::Bcs => seq!['B', 'C', 'S'],
            Mnemonic::Beq => seq!['B', 'E', 'Q'],
            Mnemonic::Bit => seq!['B', 'I', 'T'],
            Mnemonic::Bmi => seq!['B', 'M', 'I'],
            Mnemonic::Bne => seq!['B', 'N', 'E'],
            Mnemonic::Bpl => seq!['B', 'P', 'L'],
            Mnemonic::Brk => seq!['B', 'R', 'K'],
            Mnemonic::Bvc => seq!['B', 'V', 'C'],
            Mnemonic::Bvs => seq!['B', 'V', 'S'],
            Mnemonic::Clc => seq!['C', 'L', 'C'],
            Mnemonic::Cld => seq!['C', 'L', 'D'],
            Mnemonic::Cli => seq!['C', 'L', 'I'],
            Mnemonic::Clv => seq!['C', 'L', 'V'],
            Mnemonic::Cmp => seq!['C', 'M', 'P'],
            Mnemonic::Cpx => seq!['C', 'P', 'X'],
            Mnemonic::Cpy => seq!['C', 'P', 'Y'],
            Mnemonic::Dcp => seq!['D', 'C', 'P'],
            Mnemonic::Dec => seq!['D', 'E', 'C'],
            Mnemonic::Dex => seq!['D', 'E', 'X'],
            Mnemonic::Dey => seq!['D', 'E', 'Y'],
            Mnemonic::Eor => seq!['E', 'O', 'R'],
            Mnemonic::Inc => seq!['I', 'N', 'C'],
            Mnemonic::Inx => seq!['I', 'N', 'X'],
            Mnemonic::Iny => seq!['I', 'N', 'Y'],
            Mnemonic::Isc => seq!['I', 'S', 'C'],
            Mnemonic::Jmp => seq!['J', 'M', 'P'],
            Mnemonic::Jsr => seq!['J', 'S', 'R'],
            Mnemonic::Kil => seq!['K', 'I', 'L'],
            Mnemonic::Las => seq!['L', 'A', 'S'],
            Mnemonic::Lax => seq!['L', 'A', 'X'],
            Mnemonic::Lda => seq!['L', 'D', 'A'],
            Mnemonic::Ldx => seq!['L', 'D', 'X'],
            Mnemonic::Ldy => seq!['L', 'D', 'Y'],
            Mnemonic::Lsr => seq!['L', 'S', 'R'],
            Mnemonic::Nop => seq!['N', 'O', 'P'],
            Mnemonic::Ora => seq!['O', 'R', 'A'],
            Mnemonic::Pha => seq!['P', 'H', 'A'],
            Mnemonic::Php => seq!['P', 'H', 'P'],
            Mnemonic::Pla => seq!['P', 'L', 'A'],
            Mnemonic::Plp => seq!['P', 'L', 'P'],
            Mnemonic::Rla => seq!['R', 'L', 'A'],
            Mnemonic::Rol => seq!['R', 'O', 'L'],
            Mnemonic::Ror => seq!['R', 'O', 'R'],
            Mnemonic::RorA => seq!['R', 'O', 'R'],
            Mnemonic::Rra => seq!['R', 'R', 'A'],
            Mnemonic::Rti => seq!['R', 'T', 'I'],
            Mnemonic::Rts => seq!['R', 'T', 'S'],
            Mnemonic::Sax => seq!['S', 'A', 'X'],
            Mnemonic::Sbc => seq!['S', 'B', 'C'],
            Mnemonic::Sec => seq!['S', 'E', 'C'],
            Mnemonic::Sed => seq!['S', 'E', 'D'],
            Mnemonic::Sei => seq!['S', 'E', 'I'],
            Mnemonic::Shx => seq!['S', 'H', 'X'],
            Mnemonic::Shy => seq!['S', 'H', 'Y'],
            Mnemonic::Slo => seq!['S', 'L', 'O'],
            Mnemonic::Sre => seq!['S', 'R', 'E'],
            Mnemonic::Sta => seq!['S', 'T', 'A'],
            Mnemonic::Stx => seq!['S', 'T', 'X'],
            Mnemonic::Sty => seq!['S', 'T', 'Y'],
            Mnemonic::Tas => seq!['T', 'A', 'S'],
            Mnemonic::Tax => seq!['T', 'A', 'X'],
            Mnemonic::Tay => seq!['T', 'A', 'Y'],
            Mnemonic::Tsx => seq!['T', 'S', 'X'],
            Mnemonic::Txa => seq!['T', 'X', 'A'],
            Mnemonic::Txs => seq!['T', 'X', 'S'],
            Mnemonic::Tya => seq!['T', 'Y', 'A'],
            Mnemonic::Xaa => seq!['X', 'A', 'A'],
        }
    }

    pub fn name(self) -> (r: &'static str)
        ensures
            r@ == self.name_spec(),
    {
        match self {
            Mnemonic::Adc => {
                proof {
                    reveal_strlit("ADC");
                    assert("ADC"@ =~= self.name_spec());
                }
                "ADC"
            },
            Mnemonic::Ahx => {
                proof {
                    reveal_strlit("AHX");
                    assert("AHX"@ =~= self.name_spec());
                }
                "AHX"
            },
            Mnemonic::Alr => {
                proof {
                    reveal_strlit("ALR");
                    assert("ALR"@ =~= self.name_spec());
                }
                "ALR"
            },
            Mnemonic::Anc => {
                proof {
                    reveal_strlit("ANC");
                    assert("ANC"@ =~= self.name_spec());
                }
                "ANC"
            },
            Mnemonic::And => {
                proof {
                    reveal_strlit("AND");
                    assert("AND"@ =~= self.name_spec());
                }
                "AND"
            },
            Mnemonic::Arr => {
                proof {
                    reveal_strlit("ARR");
                    assert("ARR"@ =~= self.name_spec());
                }
                "ARR"
            },
            Mnemonic::Asl => {
                proof {
                    reveal_strlit("ASL");
                    assert("ASL"@ =~= self.name_spec());
                }
                "ASL"
            },
            Mnemonic::Axs => {
                proof {
                    reveal_strlit("AXS");
                    assert("AXS"@ =~= self.name_spec());
                }
                "AXS"
            },
            Mnemonic::Bcc => {
                proof {
                    reveal_strlit("BCC");
                    assert("BCC"@ =~= self.name_spec());
                }
                "BCC"
            },
            Mnemonic::Bcs => {
                proof {
                    reveal_strlit("BCS");
                    assert("BCS"@ =~= self.name_spec());
                }
                "BCS"
            },
            Mnemonic::Beq => {
                proof {
                    reveal_strlit("BEQ");
                    assert("BEQ"@ =~= self.name_spec());
                }
                "BEQ"
            },
            Mnemonic::Bit => {
                proof {
                    reveal_strlit("BIT");
                    assert("BIT"@ =~= self.name_spec());
                }
                "BIT"
            },
            Mnemonic::Bmi => {
                proof {
                    reveal_strlit("BMI");
                    assert("BMI"@ =~= self.name_spec());
                }
                "BMI"
            },
            Mnemonic::Bne => {
                proof {
                    reveal_strlit("BNE");
                    assert("BNE"@ =~= self.name_spec());
                }
                "BNE"
            },
            Mnemonic::Bpl => {
                proof {
                    reveal_strlit("BPL");
                    assert("BPL"@ =~= self.name_spec());
                }
                "BPL"
            },
            Mnemonic::Brk => {
                proof {
                    reveal_strlit("BRK");
                    assert("BRK"@ =~= self.name_spec());
                }
                "BRK"
            },
            Mnemonic::Bvc => {
                proof {
                    reveal_strlit("BVC");
                    assert("BVC"@ =~= self.name_spec());
                }
                "BVC"
            },
            Mnemonic::Bvs => {
                proof {
                    reveal_strlit("BVS");
                    assert("BVS"@ =~= self.name_spec());
                }
                "BVS"
            },
            Mnemonic::Clc => {
                proof {
                    reveal_strlit("CLC");
                    assert("CLC"@ =~= self.name_spec());
                }
                "CLC"
            },
            Mnemonic::Cld => {
                proof {
                    reveal_strlit("CLD");
                    assert("CLD"@ =~= self.name_spec());
                }
                "CLD"
            },
            Mnemonic::Cli => {
                proof {
                    reveal_strlit("CLI");
                    assert("CLI"@ =~= self.name_spec());
                }
                "CLI"
            },
            Mnemonic::Clv => {
                proof {
                    reveal_strlit("CLV");
                    assert("CLV"@ =~= self.name_spec());
                }
                "CLV"
            },
            Mnemonic::Cmp => {
                proof {
                    reveal_strlit("CMP");
                    assert("CMP"@ =~= self.name_spec());
                }
                "CMP"
            },
            Mnemonic::Cpx => {
                proof {
                    reveal_strlit("CPX");
                    assert("CPX"@ =~= self.name_spec());
                }
                "CPX"
            },
            Mnemonic::Cpy => {
                proof {
                    reveal_strlit("CPY");
                    assert("CPY"@ =~= self.name_spec());
                }
                "CPY"
            },
            Mnemonic::Dcp => {
                proof {
                    reveal_strlit("DCP");
                    assert("DCP"@ =~= self.name_spec());
                }
                "DCP"
            },
            Mnemonic::Dec => {
                proof {
                    reveal_strlit("DEC");
                    assert("DEC"@ =~= self.name_spec());
                }
                "DEC"
            },
            Mnemonic::Dex => {
                proof {
                    reveal_strlit("DEX");
                    assert("DEX"@ =~= self.name_spec());
                }
                "DEX"
            },
            Mnemonic::Dey => {
                proof {
                    reveal_strlit("DEY");
                    assert("DEY"@ =~= self.name_spec());
                }
                "DEY"
            },
            Mnemonic::Eor => {
                proof {
                    reveal_strlit("EOR");
                    assert("EOR"@ =~= self.name_spec());
                }
                "EOR"
            },
            Mnemonic::Inc => {
                proof {
                    reveal_strlit("INC");
                    assert("INC"@ =~= self.name_spec());
                }
                "INC"
            },
            Mnemonic::Inx => {
                proof {
                    reveal_strlit("INX");
                    assert("INX"@ =~= self.name_spec());
                }
                "INX"
            },
            Mnemonic::Iny => {
                proof {
                    reveal_strlit("INY");
                    assert("INY"@ =~= self.name_spec());
                }
                "INY"
            },
            Mnemonic::Isc => {
                proof {
                    reveal_strlit("ISC");
                    assert("ISC"@ =~= self.name_spec());
                }
                "ISC"
            },
            Mnemonic::Jmp => {
                proof {
                    reveal_strlit("JMP");
                    assert("JMP"@ =~= self.name_spec());
                }
                "JMP"
            },
            Mnemonic::Jsr => {
                proof {
                    reveal_strlit("JSR");
                    assert("JSR"@ =~= self.name_spec());
                }
                "JSR"
            },
            Mnemonic::Kil => {
                proof {
                    reveal_strlit("KIL");
                    assert("KIL"@ =~= self.name_spec());
                }
                "KIL"
            },
            Mnemonic::Las => {
                proof {
                    reveal_strlit("LAS");
                    assert("LAS"@ =~= self.name_spec());
                }
                "LAS"
            },
            Mnemonic::Lax => {
                proof {
                    reveal_strlit("LAX");
                    assert("LAX"@ =~= self.name_spec());
                }
                "LAX"
            },
            Mnemonic::Lda => {
                proof {
                    reveal_strlit("LDA");
                    assert("LDA"@ =~= self.name_spec());
                }
                "LDA"
            },
            Mnemonic::Ldx => {
                proof {
                    reveal_strlit("LDX");
                    assert("LDX"@ =~= self.name_spec());
                }
                "LDX"
            },
            Mnemonic::Ldy => {
                proof {
                    reveal_strlit("LDY");
                    assert("LDY"@ =~= self.name_spec());
                }
                "LDY"
            },
            Mnemonic::Lsr => {
                proof {
                    reveal_strlit("LSR");
                    assert("LSR"@ =~= self.name_spec());
                }
                "LSR"
            },
            Mnemonic::Nop => {
                proof {
                    reveal_strlit("NOP");
                    assert("NOP"@ =~= self.name_spec());
                }
                "NOP"
            },
            Mnemonic::Ora => {
                proof {
                    reveal_strlit("ORA");
                    assert("ORA"@ =~= self.name_spec());
                }
                "ORA"
            },
            Mnemonic::Pha => {
                proof {
                    reveal_strlit("PHA");
                    assert("PHA"@ =~= self.name_spec());
                }
                "PHA"
            },
            Mnemonic::Php => {
                proof {
                    reveal_strlit("PHP");
                    assert("PHP"@ =~= self.name_spec());
                }
                "PHP"
            },
            Mnemonic::Pla => {
                proof {
                    reveal_strlit("PLA");
                    assert("PLA"@ =~= self.name_spec());
                }
                "PLA"
            },
            Mnemonic::Plp => {
                proof {
                    reveal_strlit("PLP");
                    assert("PLP"@ =~= self.name_spec());
                }
                "PLP"
            },
            Mnemonic::Rla => {
                proof {
                    reveal_strlit("RLA");
                    assert("RLA"@ =~= self.name_spec());
                }
                "RLA"
            },
            Mnemonic::Rol => {
                proof {
                    reveal_strlit("ROL");
                    assert("ROL"@ =~= self.name_spec());
                }
                "ROL"
            },
            Mnemonic::Ror => {
                proof {
                    reveal_strlit("ROR");
                    assert("ROR"@ =~= self.name_spec());
                }
                "ROR"
            },
            Mnemonic::RorA => {
                proof {
                    reveal_strlit("ROR");
                    assert("ROR"@ =~= self.name_spec());
                }
                "ROR"
            },
            Mnemonic::Rra => {
                proof {
                    reveal_strlit("RRA");
                    assert("RRA"@ =~= self.name_spec());
                }
                "RRA"
            },
            Mnemonic::Rti => {
                proof {
                    reveal_strlit("RTI");
                    assert("RTI"@ =~= self.name_spec());
                }
                "RTI"
            },
            Mnemonic::Rts => {
                proof {
                    reveal_strlit("RTS");
                    assert("RTS"@ =~= self.name_spec());
                }
                "RTS"
            },
            Mnemonic::Sax => {
                proof {
                    reveal_strlit("SAX");
                    assert("SAX"@ =~= self.name_spec());
                }
                "SAX"
            },
            Mnemonic::Sbc => {
                proof {
                    reveal_strlit("SBC");
                    assert("SBC"@ =~= self.name_spec());
                }
                "SBC"
            },
            Mnemonic::Sec => {
                proof {
                    reveal_strlit("SEC");
                    assert("SEC"@ =~= self.name_spec());
                }
                "SEC"
            },
            Mnemonic::Sed => {
                proof {
                    reveal_strlit("SED");
                    assert("SED"@ =~= self.name_spec());
                }
                "SED"
            },
            Mnemonic::Sei => {
                proof {
                    reveal_strlit("SEI");
                    assert("SEI"@ =~= self.name_spec());
                }
                "SEI"
            },
            Mnemonic::Shx => {
                proof {
                    reveal_strlit("SHX");
                    assert("SHX"@ =~= self.name_spec());
                }
                "SHX"
            },
            Mnemonic::Shy => {
                proof {
                    reveal_strlit("SHY");
                    assert("SHY"@ =~= self.name_spec());
                }
                "SHY"
            },
            Mnemonic::Slo => {
                proof {
                    reveal_strlit("SLO");
                    assert("SLO"@ =~= self.name_spec());
                }
                "SLO"
            },
            Mnemonic::Sre => {
                proof {
                    reveal_strlit("SRE");
                    assert("SRE"@ =~= self.name_spec());
                }
                "SRE"
            },
            Mnemonic::Sta => {
                proof {
                    reveal_strlit("STA");
                    assert("STA"@ =~= self.name_spec());
                }
                "STA"
            },
            Mnemonic::Stx => {
                proof {
                    reveal_strlit("STX");
                    assert("STX"@ =~= self.name_spec());
                }
                "STX"
            },
            Mnemonic::Sty => {
                proof {
                    reveal_strlit("STY");
                    assert("STY"@ =~= self.name_spec());
                }
                "STY"
            },
            Mnemonic::Tas => {
                proof {
                    reveal_strlit("TAS");
                    assert("TAS"@ =~= self.name_spec());
                }
                "TAS"
            },
            Mnemonic::Tax => {
                proof {
                    reveal_strlit("TAX");
                    assert("TAX"@ =~= self.name_spec());
                }
                "TAX"
            },
            Mnemonic::Tay => {
                proof {
                    reveal_strlit("TAY");
                    assert("TAY"@ =~= self.name_spec());
                }
                "TAY"
            },
            Mnemonic::Tsx => {
                proof {
                    reveal_strlit("TSX");
                    assert("TSX"@ =~= self.name_spec());
                }
                "TSX"
            },
            Mnemonic::Txa => {
                proof {
                    reveal_strlit("TXA");
                    assert("TXA"@ =~= self.name_spec());
                }
                "TXA"
            },
            Mnemonic::Txs => {
                proof {
                    reveal_strlit("TXS");
                    assert("TXS"@ =~= self.name_spec());
                }
                "TXS"
            },
            Mnemonic::Tya => {
                proof {
                    reveal_strlit("TYA");
                    assert("TYA"@ =~= self.name_spec());
                }
                "TYA"
            },
            Mnemonic::Xaa => {
                proof {
                    reveal_strlit("XAA");
                    assert("XAA"@ =~= self.name_spec());
                }
                "XAA"
            },
        }
    }
}

/// One row of the opcode table.
#[derive(Clone, Copy, Debug, PartialEq, Eq)]
pub struct Instruction {
    pub opcode: u8,
    pub mnemonic: Mnemonic,
    pub mode: AddressingMode,
    /// Cycles taken before any page-crossing or branch penalty.
    pub cycles: u8,
}

/// The opcode table.
pub open spec fn instruction_spec(opcode: u8) -> Instruction {
    match opcode {
        0x00u8 => Instruction { opcode: 0x00, mnemonic: Mnemonic::Brk, mode: AddressingMode::Implied, cycles: 7 },
        0x01u8 => Instruction { opcode: 0x01, mnemonic: Mnemonic::Ora, mode: AddressingMode::IndexedIndirect, cycles: 6 },
        0x02u8 => Instruction { opcode: 0x02, mnemonic: Mnemonic::Kil, mode: AddressingMode::Implied, cycles: 2 },
        0x03u8 => Instruction { opcode: 0x03, mnemonic: Mnemonic::Slo, mode: AddressingMode::IndexedIndirect, cycles: 8 },
        0x04u8 => Instruction { opcode: 0x04, mnemonic: Mnemonic::Nop, mode: AddressingMode::ZeroPage, cycles: 3 },
        0x05u8 => Instruction { opcode: 0x05, mnemonic: Mnemonic::Ora, mode: AddressingMode::ZeroPage, cycles: 3 },
        0x06u8 => Instruction { opcode: 0x06, mnemonic: Mnemonic::Asl, mode: AddressingMode::ZeroPage, cycles: 5 },
        0x07u8 => Instruction { opcode: 0x07, mnemonic: Mnemonic::Slo, mode: AddressingMode::ZeroPage, cycles: 5 },
        0x08u8 => Instruction { opcode: 0x08, mnemonic: Mnemonic::Php, mode: AddressingMode::Implied, cycles: 3 },
        0x09u8 => Instruction { opcode: 0x09, mnemonic: Mnemonic::Ora, mode: AddressingMode::Immediate, cycles: 2 },
        0x0Au8 => Instruction { opcode: 0x0A, mnemonic: Mnemonic::Asl, mode: AddressingMode::Implied, cycles: 2 },
        0x0Bu8 => Instruction { opcode: 0x0B, mnemonic: Mnemonic::Anc, mode: AddressingMode::Immediate, cycles: 2 },
        0x0Cu8 => Instruction { opcode: 0x0C, mnemonic: Mnemonic::Nop, mode: AddressingMode::Absolute, cycles: 4 },
        0x0Du8 => Instruction { opcode: 0x0D, mnemonic: Mnemonic::Ora, mode: AddressingMode::Absolute, cycles: 4 },
        0x0Eu8 => Instruction { opcode: 0x0E, mnemonic: Mnemonic::Asl, mode: AddressingMode::Absolute, cycles: 6 },
        0x0Fu8 => Instruction { opcode: 0x0F, mnemonic: Mnemonic::Slo, mode: AddressingMode::Absolute, cycles: 6 },
        0x10u8 => Instruction { opcode: 0x10, mnemonic: Mnemonic::Bpl, mode: AddressingMode::Relative, cycles: 2 },
        0x11u8 => Instruction { opcode: 0x11, mnemonic: Mnemonic::Ora, mode: AddressingMode::IndirectIndexed, cycles: 5 },
        0x12u8 => Instruction { opcode: 0x12, mnemonic: Mnemonic::Kil, mode: AddressingMode::Implied, cycles: 2 },
        0x13u8 => Instruction { opcode: 0x13, mnemonic: Mnemonic::Slo, mode: AddressingMode::IndirectIndexed, cycles: 8 },
        0x14u8 => Instruction { opcode: 0x14, mnemonic: Mnemonic::Nop, mode: AddressingMode::ZeroPageX, cycles: 4 },
        0x15u8 => Instruction { opcode: 0x15, mnemonic: Mnemonic::Ora, mode: AddressingMode::ZeroPageX, cycles: 4 },
        0x16u8 => Instruction { opcode: 0x16, mnemonic: Mnemonic::Asl, mode: AddressingMode::ZeroPageX, cycles: 6 },
        0x17u8 => Instruction { opcode: 0x17, mnemonic: Mnemonic::Slo, mode: AddressingMode::ZeroPageX, cycles: 6 },
        0x18u8 => Instruction { opcode: 0x18, mnemonic: Mnemonic::Clc, mode: AddressingMode::Implied, cycles: 2 },
        0x19u8 => Instruction { opcode: 0x19, mnemonic: Mnemonic::Ora, mode: AddressingMode::AbsoluteY, cycles: 4 },
        0x1Au8 => Instruction { opcode: 0x1A, mnemonic: Mnemonic::Nop, mode: AddressingMode::Implied, cycles: 2 },
        0x1Bu8 => Instruction { opcode: 0x1B, mnemonic: Mnemonic::Slo, mode: AddressingMode::AbsoluteY, cycles: 7 },
        0x1Cu8 => Instruction { opcode: 0x1C, mnemonic: Mnemonic::Nop, mode: AddressingMode::AbsoluteX, cycles: 4 },
        0x1Du8 => Instruction { opcode: 0x1D, mnemonic: Mnemonic::Ora, mode: AddressingMode::AbsoluteX, cycles: 4 },
        0x1Eu8 => Instruction { opcode: 0x1E, mnemonic: Mnemonic::Asl, mode: AddressingMode::AbsoluteX, cycles: 7 },
        0x1Fu8 => Instruction { opcode: 0x1F, mnemonic: Mnemonic::Slo, mode: AddressingMode::AbsoluteX, cycles: 7 },
        0x20u8 => Instruction { opcode: 0x20, mnemonic: Mnemonic::Jsr, mode: AddressingMode::Absolute, cycles: 6 },
        0x21u8 => Instruction { opcode: 0x21, mnemonic: Mnemonic::And, mode: AddressingMode::IndexedIndirect, cycles: 6 },
        0x22u8 => Instruction { opcode: 0x22, mnemonic: Mnemonic::Kil, mode: AddressingMode::Implied, cycles: 2 },
        0x23u8 => Instruction { opcode: 0x23, mnemonic: Mnemonic::Rla, mode: AddressingMode::IndexedIndirect, cycles: 8 },
        0x24u8 => Instruction { opcode: 0x24, mnemonic: Mnemonic::Bit, mode: AddressingMode::ZeroPage, cycles: 3 },
        0x25u8 => Instruction { opcode: 0x25, mnemonic: Mnemonic::And, mode: AddressingMode::ZeroPage, cycles: 3 },
        0x26u8 => Instruction { opcode: 0x26, mnemonic: Mnemonic::Rol, mode: AddressingMode::ZeroPage, cycles: 5 },
        0x27u8 => Instruction { opcode: 0x27, mnemonic: Mnemonic::Rla, mode: AddressingMode::ZeroPage, cycles: 5 },
        0x28u8 => Instruction { opcode: 0x28, mnemonic: Mnemonic::Plp, mode: AddressingMode::Implied, cycles: 4 },
        0x29u8 => Instruction { opcode: 0x29, mnemonic: Mnemonic::And, mode: AddressingMode::Immediate, cycles: 2 },
        0x2Au8 => Instruction { opcode: 0x2A, mnemonic: Mnemonic::Rol, mode: AddressingMode::Implied, cycles: 2 },
        0x2Bu8 => Instruction { opcode: 0x2B, mnemonic: Mnemonic::Anc, mode: AddressingMode::Immediate, cycles: 2 },
        0x2Cu8 => Instruction { opcode: 0x2C, mnemonic: Mnemonic::Bit, mode: AddressingMode::Absolute, cycles: 4 },
        0x2Du8 => Instruction { opcode: 0x2D, mnemonic: Mnemonic::And, mode: AddressingMode::Absolute, cycles: 4 },
        0x2Eu8 => Instruction { opcode: 0x2E, mnemonic: Mnemonic::Rol, mode: AddressingMode::Absolute, cycles: 6 },
        0x2Fu8 => Instruction { opcode: 0x2F, mnemonic: Mnemonic::Rla, mode: AddressingMode::Absolute, cycles: 6 },
        0x30u8 => Instruction { opcode: 0x30, mnemonic: Mnemonic::Bmi, mode: AddressingMode::Relative, cycles: 2 },
        0x31u8 => Instruction { opcode: 0x31, mnemonic: Mnemonic::And, mode: AddressingMode::IndirectIndexed, cycles: 5 },
        0x32u8 => Instruction { opcode: 0x32, mnemonic: Mnemonic::Kil, mode: AddressingMode::Implied, cycles: 2 },
        0x33u8 => Instruction { opcode: 0x33, mnemonic: Mnemonic::Rla, mode: AddressingMode::IndirectIndexed, cycles: 8 },
        0x34u8 => Instruction { opcode: 0x34, mnemonic: Mnemonic::Nop, mode: AddressingMode::ZeroPageX, cycles: 4 },
        0x35u8 => Instruction { opcode: 0x35, mnemonic: Mnemonic::And, mode: AddressingMode::ZeroPageX, cycles: 4 },
        0x36u8 => Instruction { opcode: 0x36, mnemonic: Mnemonic::Rol, mode: AddressingMode::ZeroPageX, cycles: 6 },
        0x37u8 => Instruction { opcode: 0x37, mnemonic: Mnemonic::Rla, mode: AddressingMode::ZeroPageX, cycles: 6 },
        0x38u8 => Instruction { opcode: 0x38, mnemonic: Mnemonic::Sec, mode: AddressingMode::Implied, cycles: 2 },
        0x39u8 => Instruction { opcode: 0x39, mnemonic: Mnemonic::And, mode: AddressingMode::AbsoluteY, cycles: 4 },
        0x3Au8 => Instruction { opcode: 0x3A, mnemonic: Mnemonic::Nop, mode: AddressingMode::Implied, cycles: 2 },
        0x3Bu8 => Instruction { opcode: 0x3B, mnemonic: Mnemonic::Rla, mode: AddressingMode::AbsoluteY, cycles: 7 },
        0x3Cu8 => Instruction { opcode: 0x3C, mnemonic: Mnemonic::Nop, mode: AddressingMode::AbsoluteX, cycles: 4 },
        0x3Du8 => Instruction { opcode: 0x3D, mnemonic: Mnemonic::And, mode: AddressingMode::AbsoluteX, cycles: 4 },
        0x3Eu8 => Instruction { opcode: 0x3E, mnemonic: Mnemonic::Rol, mode: AddressingMode::AbsoluteX, cycles: 7 },
        0x3Fu8 => Instruction { opcode: 0x3F, mnemonic: Mnemonic::Rla, mode: AddressingMode::AbsoluteX, cycles: 7 },
        0x40u8 => Instruction { opcode: 0x40, mnemonic: Mnemonic::Rti, mode: AddressingMode::Implied, cycles: 6 },
        0x41u8 => Instruction { opcode: 0x41, mnemonic: Mnemonic::Eor, mode: AddressingMode::IndexedIndirect, cycles: 6 },
        0x42u8 => Instruction { opcode: 0x42, mnemonic: Mnemonic::Kil, mode: AddressingMode::Implied, cycles: 2 },
        0x43u8 => Instruction { opcode: 0x43, mnemonic: Mnemonic::Sre, mode: AddressingMode::IndexedIndirect, cycles: 8 },
        0x44u8 => Instruction { opcode: 0x44, mnemonic: Mnemonic::Nop, mode: AddressingMode::ZeroPage, cycles: 3 },
        0x45u8 => Instruction { opcode: 0x45, mnemonic: Mnemonic::Eor, mode: AddressingMode::ZeroPage, cycles: 3 },
        0x46u8 => Instruction { opcode: 0x46, mnemonic: Mnemonic::Lsr, mode: AddressingMode::ZeroPage, cycles: 5 },
        0x47u8 => Instruction { opcode: 0x47, mnemonic: Mnemonic::Sre, mode: AddressingMode::ZeroPage, cycles: 5 },
        0x48u8 => Instruction { opcode: 0x48, mnemonic: Mnemonic::Pha, mode: AddressingMode::Implied, cycles: 3 },
        0x49u8 => Instruction { opcode: 0x49, mnemonic: Mnemonic::Eor, mode: AddressingMode::Immediate, cycles: 2 },
        0x4Au8 => Instruction { opcode: 0x4A, mnemonic: Mnemonic::Lsr, mode: AddressingMode::Implied, cycles: 2 },
        0x4Bu8 => Instruction { opcode: 0x4B, mnemonic: Mnemonic::Alr, mode: AddressingMode::Immediate, cycles: 2 },
        0x4Cu8 => Instruction { opcode: 0x4C, mnemonic: Mnemonic::Jmp, mode: AddressingMode::Absolute, cycles: 3 },
        0x4Du8 => Instruction { opcode: 0x4D, mnemonic: Mnemonic::Eor, mode: AddressingMode::Absolute, cycles: 4 },
        0x4Eu8 => Instruction { opcode: 0x4E, mnemonic: Mnemonic::Lsr, mode: AddressingMode::Absolute, cycles: 6 },
        0x4Fu8 => Instruction { opcode: 0x4F, mnemonic: Mnemonic::Sre, mode: AddressingMode::Absolute, cycles: 6 },
        0x50u8 => Instruction { opcode: 0x50, mnemonic: Mnemonic::Bvc, mode: AddressingMode::Relative, cycles: 2 },
        0x51u8 => Instruction { opcode: 0x51, mnemonic: Mnemonic::Eor, mode: AddressingMode::IndirectIndexed, cycles: 5 },
        0x52u8 => Instruction { opcode: 0x52, mnemonic: Mnemonic::Kil, mode: AddressingMode::Implied, cycles: 2 },
        0x53u8 => Instruction { opcode: 0x53, mnemonic: Mnemonic::Sre, mode: AddressingMode::IndirectIndexed, cycles: 8 },
        0x54u8 => Instruction { opcode: 0x54, mnemonic: Mnemonic::Nop, mode: AddressingMode::ZeroPageX, cycles: 4 },
        0x55u8 => Instruction { opcode: 0x55, mnemonic: Mnemonic::Eor, mode: AddressingMode::ZeroPageX, cycles: 4 },
        0x56u8 => Instruction { opcode: 0x56, mnemonic: Mnemonic::Lsr, mode: AddressingMode::ZeroPageX, cycles: 6 },
        0x57u8 => Instruction { opcode: 0x57, mnemonic: Mnemonic::Sre, mode: AddressingMode::ZeroPageX, cycles: 6 },
        0x58u8 => Instruction { opcode: 0x58, mnemonic: Mnemonic::Cli, mode: AddressingMode::Implied, cycles: 2 },
        0x59u8 => Instruction { opcode: 0x59, mnemonic: Mnemonic::Eor, mode: AddressingMode::AbsoluteY, cycles: 4 },
        0x5Au8 => Instruction { opcode: 0x5A, mnemonic: Mnemonic::Nop, mode: AddressingMode::Implied, cycles: 2 },
        0x5Bu8 => Instruction { opcode: 0x5B, mnemonic: Mnemonic::Sre, mode: AddressingMode::AbsoluteY, cycles: 7 },
        0x5Cu8 => Instruction { opcode: 0x5C, mnemonic: Mnemonic::Nop, mode: AddressingMode::AbsoluteX, cycles: 4 },
        0x5Du8 => Instruction { opcode: 0x5D, mnemonic: Mnemonic::Eor, mode: AddressingMode::AbsoluteX, cycles: 4 },
        0x5Eu8 => Instruction { opcode: 0x5E, mnemonic: Mnemonic::Lsr, mode: AddressingMode::AbsoluteX, cycles: 7 },
        0x5Fu8 => Instruction { opcode: 0x5F, mnemonic: Mnemonic::Sre, mode: AddressingMode::AbsoluteX, cycles: 7 },
        0x60u8 => Instruction { opcode: 0x60, mnemonic: Mnemonic::Rts, mode: AddressingMode::Implied, cycles: 6 },
        0x61u8 => Instruction { opcode: 0x61, mnemonic: Mnemonic::Adc, mode: AddressingMode::IndexedIndirect, cycles: 6 },
        0x62u8 => Instruction { opcode: 0x62, mnemonic: Mnemonic::Kil, mode: AddressingMode::Implied, cycles: 2 },
        0x63u8 => Instruction { opcode: 0x63, mnemonic: Mnemonic::Rra, mode: AddressingMode::IndexedIndirect, cycles: 8 },
        0x64u8 => Instruction { opcode: 0x64, mnemonic: Mnemonic::Nop, mode: AddressingMode::ZeroPage, cycles: 3 },
        0x65u8 => Instruction { opcode: 0x65, mnemonic: Mnemonic::Adc, mode: AddressingMode::ZeroPage, cycles: 3 },
        0x66u8 => Instruction { opcode: 0x66, mnemonic: Mnemonic::Ror, mode: AddressingMode::ZeroPage, cycles: 5 },
        0x67u8 => Instruction { opcode: 0x67, mnemonic: Mnemonic::Rra, mode: AddressingMode::ZeroPage, cycles: 5 },
        0x68u8 => Instruction { opcode: 0x68, mnemonic: Mnemonic::Pla, mode: AddressingMode::Implied, cycles: 4 },
        0x69u8 => Instruction { opcode: 0x69, mnemonic: Mnemonic::Adc, mode: AddressingMode::Immediate, cycles: 2 },
        0x6Au8 => Instruction { opcode: 0x6A, mnemonic: Mnemonic::RorA, mode: AddressingMode::Implied, cycles: 2 },
        0x6Bu8 => Instruction { opcode: 0x6B, mnemonic: Mnemonic::Arr, mode: AddressingMode::Immediate, cycles: 2 },
        0x6Cu8 => Instruction { opcode: 0x6C, mnemonic: Mnemonic::Jmp, mode: AddressingMode::Indirect, cycles: 5 },
        0x6Du8 => Instruction { opcode: 0x6D, mnemonic: Mnemonic::Adc, mode: AddressingMode::Absolute, cycles: 4 },
        0x6Eu8 => Instruction { opcode: 0x6E, mnemonic: Mnemonic::Ror, mode: AddressingMode::Absolute, cycles: 6 },
        0x6Fu8 => Instruction { opcode: 0x6F, mnemonic: Mnemonic::Rra, mode: AddressingMode::Absolute, cycles: 6 },
        0x70u8 => Instruction { opcode: 0x70, mnemonic: Mnemonic::Bvs, mode: AddressingMode::Relative, cycles: 2 },
        0x71u8 => Instruction { opcode: 0x71, mnemonic: Mnemonic::Adc, mode: AddressingMode::IndirectIndexed, cycles: 5 },
        0x72u8 => Instruction { opcode: 0x72, mnemonic: Mnemonic::Kil, mode: AddressingMode::Implied, cycles: 2 },
        0x73u8 => Instruction { opcode: 0x73, mnemonic: Mnemonic::Rra, mode: AddressingMode::IndirectIndexed, cycles: 8 },
        0x74u8 => Instruction { opcode: 0x74, mnemonic: Mnemonic::Nop, mode: AddressingMode::ZeroPageX, cycles: 4 },
        0x75u8 => Instruction { opcode: 0x75, mnemonic: Mnemonic::Adc, mode: AddressingMode::ZeroPageX, cycles: 4 },
        0x76u8 => Instruction { opcode: 0x76, mnemonic: Mnemonic::Ror, mode: AddressingMode::ZeroPageX, cycles: 6 },
        0x77u8 => Instruction { opcode: 0x77, mnemonic: Mnemonic::Rra, mode: AddressingMode::ZeroPageX, cycles: 6 },
        0x78u8 => Instruction { opcode: 0x78, mnemonic: Mnemonic::Sei, mode: AddressingMode::Implied, cycles: 2 },
        0x79u8 => Instruction { opcode: 0x79, mnemonic: Mnemonic::Adc, mode: AddressingMode::AbsoluteY, cycles: 4 },
        0x7Au8 => Instruction { opcode: 0x7A, mnemonic: Mnemonic::Nop, mode: AddressingMode::Implied, cycles: 2 },
        0x7Bu8 => Instruction { opcode: 0x7B, mnemonic: Mnemonic::Rra, mode: AddressingMode::AbsoluteY, cycles: 7 },
        0x7Cu8 => Instruction { opcode: 0x7C, mnemonic: Mnemonic::Nop, mode: AddressingMode::AbsoluteX, cycles: 4 },
        0x7Du8 => Instruction { opcode: 0x7D, mnemonic: Mnemonic::Adc, mode: AddressingMode::AbsoluteX, cycles: 4 },
        0x7Eu8 => Instruction { opcode: 0x7E, mnemonic: Mnemonic::Ror, mode: AddressingMode::AbsoluteX, cycles: 7 },
        0x7Fu8 => Instruction { opcode: 0x7F, mnemonic: Mnemonic::Rra, mode: AddressingMode::AbsoluteX, cycles: 7 },
        0x80u8 => Instruction { opcode: 0x80, mnemonic: Mnemonic::Nop, mode: AddressingMode::Immediate, cycles: 2 },
        0x81u8 => Instruction { opcode: 0x81, mnemonic: Mnemonic::Sta, mode: AddressingMode::IndexedIndirect, cycles: 6 },
        0x82u8 => Instruction { opcode: 0x82, mnemonic: Mnemonic::Nop, mode: AddressingMode::Immediate, cycles: 2 },
        0x83u8 => Instruction { opcode: 0x83, mnemonic: Mnemonic::Sax, mode: AddressingMode::IndexedIndirect, cycles: 6 },
        0x84u8 => Instruction { opcode: 0x84, mnemonic: Mnemonic::Sty, mode: AddressingMode::ZeroPage, cycles: 3 },
        0x85u8 => Instruction { opcode: 0x85, mnemonic: Mnemonic::Sta, mode: AddressingMode::ZeroPage, cycles: 3 },
        0x86u8 => Instruction { opcode: 0x86, mnemonic: Mnemonic::Stx, mode: AddressingMode::ZeroPage, cycles: 3 },
        0x87u8 => Instruction { opcode: 0x87, mnemonic: Mnemonic::Sax, mode: AddressingMode::ZeroPage, cycles: 3 },
        0x88u8 => Instruction { opcode: 0x88, mnemonic: Mnemonic::Dey, mode: AddressingMode::Implied, cycles: 2 },
        0x89u8 => Instruction { opcode: 0x89, mnemonic: Mnemonic::Nop, mode: AddressingMode::Immediate, cycles: 2 },
        0x8Au8 => Instruction { opcode: 0x8A, mnemonic: Mnemonic::Txa, mode: AddressingMode::Implied, cycles: 2 },
        0x8Bu8 => Instruction { opcode: 0x8B, mnemonic: Mnemonic::Xaa, mode: AddressingMode::Immediate, cycles: 2 },
        0x8Cu8 => Instruction { opcode: 0x8C, mnemonic: Mnemonic::Sty, mode: AddressingMode::Absolute, cycles: 4 },
        0x8Du8 => Instruction { opcode: 0x8D, mnemonic: Mnemonic::Sta, mode: AddressingMode::Absolute, cycles: 4 },
        0x8Eu8 => Instruction { opcode: 0x8E, mnemonic: Mnemonic::Stx, mode: AddressingMode::Absolute, cycles: 4 },
        0x8Fu8 => Instruction { opcode: 0x8F, mnemonic: Mnemonic::Sax, mode: AddressingMode::Absolute, cycles: 4 },
        0x90u8 => Instruction { opcode: 0x90, mnemonic: Mnemonic::Bcc, mode: AddressingMode::Relative, cycles: 2 },
        0x91u8 => Instruction { opcode: 0x91, mnemonic: Mnemonic::Sta, mode: AddressingMode::IndirectIndexed, cycles: 6 },
        0x92u8 => Instruction { opcode: 0x92, mnemonic: Mnemonic::Kil, mode: AddressingMode::Implied, cycles: 2 },
        0x93u8 => Instruction { opcode: 0x93, mnemonic: Mnemonic::Ahx, mode: AddressingMode::IndirectIndexed, cycles: 6 },
        0x94u8 => Instruction { opcode: 0x94, mnemonic: Mnemonic::Sty, mode: AddressingMode::ZeroPageX, cycles: 4 },
        0x95u8 => Instruction { opcode: 0x95, mnemonic: Mnemonic::Sta, mode: AddressingMode::ZeroPageX, cycles: 4 },
        0x96u8 => Instruction { opcode: 0x96, mnemonic: Mnemonic::Stx, mode: AddressingMode::ZeroPageY, cycles: 4 },
        0x97u8 => Instruction { opcode: 0x97, mnemonic: Mnemonic::Sax, mode: AddressingMode::ZeroPageY, cycles: 4 },
        0x98u8 => Instruction { opcode: 0x98, mnemonic: Mnemonic::Tya, mode: AddressingMode::Implied, cycles: 2 },
        0x99u8 => Instruction { opcode: 0x99, mnemonic: Mnemonic::Sta, mode: AddressingMode::AbsoluteY, cycles: 5 },
        0x9Au8 => Instruction { opcode: 0x9A, mnemonic: Mnemonic::Txs, mode: AddressingMode::Implied, cycles: 2 },
        0x9Bu8 => Instruction { opcode: 0x9B, mnemonic: Mnemonic::Tas, mode: AddressingMode::AbsoluteY, cycles: 5 },
        0x9Cu8 => Instruction { opcode: 0x9C, mnemonic: Mnemonic::Shy, mode: AddressingMode::AbsoluteX, cycles: 5 },
        0x9Du8 => Instruction { opcode: 0x9D, mnemonic: Mnemonic::Sta, mode: AddressingMode::AbsoluteX, cycles: 5 },
        0x9Eu8 => Instruction { opcode: 0x9E, mnemonic: Mnemonic::Shx, mode: AddressingMode::AbsoluteY, cycles: 5 },
        0x9Fu8 => Instruction { opcode: 0x9F, mnemonic: Mnemonic::Ahx, mode: AddressingMode::AbsoluteY, cycles: 5 },
        0xA0u8 => Instruction { opcode: 0xA0, mnemonic: Mnemonic::Ldy, mode: AddressingMode::Immediate, cycles: 2 },
        0xA1u8 => Instruction { opcode: 0xA1, mnemonic: Mnemonic::Lda, mode: AddressingMode::IndexedIndirect, cycles: 6 },
        0xA2u8 => Instruction { opcode: 0xA2, mnemonic: Mnemonic::Ldx, mode: AddressingMode::Immediate, cycles: 2 },
        0xA3u8 => Instruction { opcode: 0xA3, mnemonic: Mnemonic::Lax, mode: AddressingMode::IndexedIndirect, cycles: 6 },
        0xA4u8 => Instruction { opcode: 0xA4, mnemonic: Mnemonic::Ldy, mode: AddressingMode::ZeroPage, cycles: 3 },
        0xA5u8 => Instruction { opcode: 0xA5, mnemonic: Mnemonic::Lda, mode: AddressingMode::ZeroPage, cycles: 3 },
        0xA6u8 => Instruction { opcode: 0xA6, mnemonic: Mnemonic::Ldx, mode: AddressingMode::ZeroPage, cycles: 3 },
        0xA7u8 => Instruction { opcode: 0xA7, mnemonic: Mnemonic::Lax, mode: AddressingMode::ZeroPage, cycles: 3 },
        0xA8u8 => Instruction { opcode: 0xA8, mnemonic: Mnemonic::Tay, mode: AddressingMode::Implied, cycles: 2 },
        0xA9u8 => Instruction { opcode: 0xA9, mnemonic: Mnemonic::Lda, mode: AddressingMode::Immediate, cycles: 2 },
        0xAAu8 => Instruction { opcode: 0xAA, mnemonic: Mnemonic::Tax, mode: AddressingMode::Implied, cycles: 2 },
        0xABu8 => Instruction { opcode: 0xAB, mnemonic: Mnemonic::Lax, mode: AddressingMode::Immediate, cycles: 2 },
        0xACu8 => Instruction { opcode: 0xAC, mnemonic: Mnemonic::Ldy, mode: AddressingMode::Absolute, cycles: 4 },
        0xADu8 => Instruction { opcode: 0xAD, mnemonic: Mnemonic::Lda, mode: AddressingMode::Absolute, cycles: 4 },
        0xAEu8 => Instruction { opcode: 0xAE, mnemonic: Mnemonic::Ldx, mode: AddressingMode::Absolute, cycles: 4 },
        0xAFu8 => Instruction { opcode: 0xAF, mnemonic: Mnemonic::Lax, mode: AddressingMode::Absolute, cycles: 4 },
        0xB0u8 => Instruction { opcode: 0xB0, mnemonic: Mnemonic::Bcs, mode: AddressingMode::Relative, cycles: 2 },
        0xB1u8 => Instruction { opcode: 0xB1, mnemonic: Mnemonic::Lda, mode: AddressingMode::IndirectIndexed, cycles: 5 },
        0xB2u8 => Instruction { opcode: 0xB2, mnemonic: Mnemonic::Kil, mode: AddressingMode::Implied, cycles: 2 },
        0xB3u8 => Instruction { opcode: 0xB3, mnemonic: Mnemonic::Lax, mode: AddressingMode::IndirectIndexed, cycles: 5 },
        0xB4u8 => Instruction { opcode: 0xB4, mnemonic: Mnemonic::Ldy, mode: AddressingMode::ZeroPageX, cycles: 4 },
        0xB5u8 => Instruction { opcode: 0xB5, mnemonic: Mnemonic::Lda, mode: AddressingMode::ZeroPageX, cycles: 4 },
        0xB6u8 => Instruction { opcode: 0xB6, mnemonic: Mnemonic::Ldx, mode: AddressingMode::ZeroPageY, cycles: 4 },
        0xB7u8 => Instruction { opcode: 0xB7, mnemonic: Mnemonic::Lax, mode: AddressingMode::ZeroPageY, cycles: 4 },
        0xB8u8 => Instruction { opcode: 0xB8, mnemonic: Mnemonic::Clv, mode: AddressingMode::Implied, cycles: 2 },
        0xB9u8 => Instruction { opcode: 0xB9, mnemonic: Mnemonic::Lda, mode: AddressingMode::AbsoluteY, cycles: 4 },
        0xBAu8 => Instruction { opcode: 0xBA, mnemonic: Mnemonic::Tsx, mode: AddressingMode::Implied, cycles: 2 },
        0xBBu8 => Instruction { opcode: 0xBB, mnemonic: Mnemonic::Las, mode: AddressingMode::AbsoluteY, cycles: 4 },
        0xBCu8 => Instruction { opcode: 0xBC, mnemonic: Mnemonic::Ldy, mode: AddressingMode::AbsoluteX, cycles: 4 },
        0xBDu8 => Instruction { opcode: 0xBD, mnemonic: Mnemonic::Lda, mode: AddressingMode::AbsoluteX, cycles: 4 },
        0xBEu8 => Instruction { opcode: 0xBE, mnemonic: Mnemonic::Ldx, mode: AddressingMode::AbsoluteY, cycles: 4 },
        0xBFu8 => Instruction { opcode: 0xBF, mnemonic: Mnemonic::Lax, mode: AddressingMode::AbsoluteY, cycles: 4 },
        0xC0u8 => Instruction { opcode: 0xC0, mnemonic: Mnemonic::Cpy, mode: AddressingMode::Immediate, cycles: 2 },
        0xC1u8 => Instruction { opcode: 0xC1, mnemonic: Mnemonic::Cmp, mode: AddressingMode::IndexedIndirect, cycles: 6 },
        0xC2u8 => Instruction { opcode: 0xC2, mnemonic: Mnemonic::Nop, mode: AddressingMode::Immediate, cycles: 2 },
        0xC3u8 => Instruction { opcode: 0xC3, mnemonic: Mnemonic::Dcp, mode: AddressingMode::IndexedIndirect, cycles: 8 },
        0xC4u8 => Instruction { opcode: 0xC4, mnemonic: Mnemonic::Cpy, mode: AddressingMode::ZeroPage, cycles: 3 },
        0xC5u8 => Instruction { opcode: 0xC5, mnemonic: Mnemonic::Cmp, mode: AddressingMode::ZeroPage, cycles: 3 },
        0xC6u8 => Instruction { opcode: 0xC6, mnemonic: Mnemonic::Dec, mode: AddressingMode::ZeroPage, cycles: 5 },
        0xC7u8 => Instruction { opcode: 0xC7, mnemonic: Mnemonic::Dcp, mode: AddressingMode::ZeroPage, cycles: 5 },
        0xC8u8 => Instruction { opcode: 0xC8, mnemonic: Mnemonic::Iny, mode: AddressingMode::Implied, cycles: 2 },
        0xC9u8 => Instruction { opcode: 0xC9, mnemonic: Mnemonic::Cmp, mode: AddressingMode::Immediate, cycles: 2 },
        0xCAu8 => Instruction { opcode: 0xCA, mnemonic: Mnemonic::Dex, mode: AddressingMode::Implied, cycles: 2 },
        0xCBu8 => Instruction { opcode: 0xCB, mnemonic: Mnemonic::Axs, mode: AddressingMode::Immediate, cycles: 2 },
        0xCCu8 => Instruction { opcode: 0xCC, mnemonic: Mnemonic::Cpy, mode: AddressingMode::Absolute, cycles: 4 },
        0xCDu8 => Instruction { opcode: 0xCD, mnemonic: Mnemonic::Cmp, mode: AddressingMode::Absolute, cycles: 4 },
        0xCEu8 => Instruction { opcode: 0xCE, mnemonic: Mnemonic::Dec, mode: AddressingMode::Absolute, cycles: 6 },
        0xCFu8 => Instruction { opcode: 0xCF, mnemonic: Mnemonic::Dcp, mode: AddressingMode::Absolute, cycles: 6 },
        0xD0u8 => Instruction { opcode: 0xD0, mnemonic: Mnemonic::Bne, mode: AddressingMode::Relative, cycles: 2 },
        0xD1u8 => Instruction { opcode: 0xD1, mnemonic: Mnemonic::Cmp, mode: AddressingMode::IndirectIndexed, cycles: 5 },
        0xD2u8 => Instruction { opcode: 0xD2, mnemonic: Mnemonic::Kil, mode: AddressingMode::Implied, cycles: 2 },
        0xD3u8 => Instruction { opcode: 0xD3, mnemonic: Mnemonic::Dcp, mode: AddressingMode::IndirectIndexed, cycles: 8 },
        0xD4u8 => Instruction { opcode: 0xD4, mnemonic: Mnemonic::Nop, mode: AddressingMode::ZeroPageX, cycles: 4 },
        0xD5u8 => Instruction { opcode: 0xD5, mnemonic: Mnemonic::Cmp, mode: AddressingMode::ZeroPageX, cycles: 4 },
        0xD6u8 => Instruction { opcode: 0xD6, mnemonic: Mnemonic::Dec, mode: AddressingMode::ZeroPageX, cycles: 6 },
        0xD7u8 => Instruction { opcode: 0xD7, mnemonic: Mnemonic::Dcp, mode: AddressingMode::ZeroPageX, cycles: 6 },
        0xD8u8 => Instruction { opcode: 0xD8, mnemonic: Mnemonic::Cld, mode: AddressingMode::Implied, cycles: 2 },
        0xD9u8 => Instruction { opcode: 0xD9, mnemonic: Mnemonic::Cmp, mode: AddressingMode::AbsoluteY, cycles: 4 },
        0xDAu8 => Instruction { opcode: 0xDA, mnemonic: Mnemonic::Nop, mode: AddressingMode::Implied, cycles: 2 },
        0xDBu8 => Instruction { opcode: 0xDB, mnemonic: Mnemonic::Dcp, mode: AddressingMode::AbsoluteY, cycles: 7 },
        0xDCu8 => Instruction { opcode: 0xDC, mnemonic: Mnemonic::Nop, mode: AddressingMode::AbsoluteX, cycles: 4 },
        0xDDu8 => Instruction { opcode: 0xDD, mnemonic: Mnemonic::Cmp, mode: AddressingMode::AbsoluteX, cycles: 4 },
        0xDEu8 => Instruction { opcode: 0xDE, mnemonic: Mnemonic::Dec, mode: AddressingMode::AbsoluteX, cycles: 7 },
        0xDFu8 => Instruction { opcode: 0xDF, mnemonic: Mnemonic::Dcp, mode: AddressingMode::AbsoluteX, cycles: 7 },
        0xE0u8 => Instruction { opcode: 0xE0, mnemonic: Mnemonic::Cpx, mode: AddressingMode::Immediate, cycles: 2 },
        0xE1u8 => Instruction { opcode: 0xE1, mnemonic: Mnemonic::Sbc, mode: AddressingMode::IndexedIndirect, cycles: 6 },
        0xE2u8 => Instruction { opcode: 0xE2, mnemonic: Mnemonic::Nop, mode: AddressingMode::Immediate, cycles: 2 },
        0xE3u8 => Instruction { opcode: 0xE3, mnemonic: Mnemonic::Isc, mode: AddressingMode::IndexedIndirect, cycles: 8 },
        0xE4u8 => Instruction { opcode: 0xE4, mnemonic: Mnemonic::Cpx, mode: AddressingMode::ZeroPage, cycles: 3 },
        0xE5u8 => Instruction { opcode: 0xE5, mnemonic: Mnemonic::Sbc, mode: AddressingMode::ZeroPage, cycles: 3 },
        0xE6u8 => Instruction { opcode: 0xE6, mnemonic: Mnemonic::Inc, mode: AddressingMode::ZeroPage, cycles: 5 },
        0xE7u8 => Instruction { opcode: 0xE7, mnemonic: Mnemonic::Isc, mode: AddressingMode::ZeroPage, cycles: 5 },
        0xE8u8 => Instruction { opcode: 0xE8, mnemonic: Mnemonic::Inx, mode: AddressingMode::Implied, cycles: 2 },
        0xE9u8 => Instruction { opcode: 0xE9, mnemonic: Mnemonic::Sbc, mode: AddressingMode::Immediate, cycles: 2 },
        0xEAu8 => Instruction { opcode: 0xEA, mnemonic: Mnemonic::Nop, mode: AddressingMode::Implied, cycles: 2 },
        0xEBu8 => Instruction { opcode: 0xEB, mnemonic: Mnemonic::Sbc, mode: AddressingMode::Immediate, cycles: 2 },
        0xECu8 => Instruction { opcode: 0xEC, mnemonic: Mnemonic::Cpx, mode: AddressingMode::Absolute, cycles: 4 },
        0xEDu8 => Instruction { opcode: 0xED, mnemonic: Mnemonic::Sbc, mode: AddressingMode::Absolute, cycles: 4 },
        0xEEu8 => Instruction { opcode: 0xEE, mnemonic: Mnemonic::Inc, mode: AddressingMode::Absolute, cycles: 6 },
        0xEFu8 => Instruction { opcode: 0xEF, mnemonic: Mnemonic::Isc, mode: AddressingMode::Absolute, cycles: 6 },
        0xF0u8 => Instruction { opcode: 0xF0, mnemonic: Mnemonic::Beq, mode: AddressingMode::Relative, cycles: 2 },
        0xF1u8 => Instruction { opcode: 0xF1, mnemonic: Mnemonic::Sbc, mode: AddressingMode::IndirectIndexed, cycles: 5 },
        0xF2u8 => Instruction { opcode: 0xF2, mnemonic: Mnemonic::Kil, mode: AddressingMode::Implied, cycles: 2 },
        0xF3u8 => Instruction { opcode: 0xF3, mnemonic: Mnemonic::Isc, mode: AddressingMode::IndirectIndexed, cycles: 8 },
        0xF4u8 => Instruction { opcode: 0xF4, mnemonic: Mnemonic::Nop, mode: AddressingMode::ZeroPageX, cycles: 4 },
        0xF5u8 => Instruction { opcode: 0xF5, mnemonic: Mnemonic::Sbc, mode: AddressingMode::ZeroPageX, cycles: 4 },
        0xF6u8 => Instruction { opcode: 0xF6, mnemonic: Mnemonic::Inc, mode: AddressingMode::ZeroPageX, cycles: 6 },
        0xF7u8 => Instruction { opcode: 0xF7, mnemonic: Mnemonic::Isc, mode: AddressingMode::ZeroPageX, cycles: 6 },
        0xF8u8 => Instruction { opcode: 0xF8, mnemonic: Mnemonic::Sed, mode: AddressingMode::Implied, cycles: 2 },
        0xF9u8 => Instruction { opcode: 0xF9, mnemonic: Mnemonic::Sbc, mode: AddressingMode::AbsoluteY, cycles: 4 },
        0xFAu8 => Instruction { opcode: 0xFA, mnemonic: Mnemonic::Nop, mode: AddressingMode::Implied, cycles: 2 },
        0xFBu8 => Instruction { opcode: 0xFB, mnemonic: Mnemonic::Isc, mode: AddressingMode::AbsoluteY, cycles: 7 },
        0xFCu8 => Instruction { opcode: 0xFC, mnemonic: Mnemonic::Nop, mode: AddressingMode::AbsoluteX, cycles: 4 },
        0xFDu8 => Instruction { opcode: 0xFD, mnemonic: Mnemonic::Sbc, mode: AddressingMode::AbsoluteX, cycles: 4 },
        0xFEu8 => Instruction { opcode: 0xFE, mnemonic: Mnemonic::Inc, mode: AddressingMode::AbsoluteX, cycles: 7 },
        0xFFu8 => Instruction { opcode: 0xFF, mnemonic: Mnemonic::Isc, mode: AddressingMode::AbsoluteX, cycles: 7 },
    }
}

/// Looks `opcode` up in the opcode table.
pub fn instruction(opcode: u8) -> (r: Instruction)
    ensures
        r == instruction_spec(opcode),
{
    match opcode {
        0x00u8 => Instruction { opcode: 0x00, mnemonic: Mnemonic::Brk, mode: AddressingMode::Implied, cycles: 7 },
        0x01u8 => Instruction { opcode: 0x01, mnemonic: Mnemonic::Ora, mode: AddressingMode::IndexedIndirect, cycles: 6 },
        0x02u8 => Instruction { opcode: 0x02, mnemonic: Mnemonic::Kil, mode: AddressingMode::Implied, cycles: 2 },
        0x03u8 => Instruction { opcode: 0x03, mnemonic: Mnemonic::Slo, mode: AddressingMode::IndexedIndirect, cycles: 8 },
        0x04u8 => Instruction { opcode: 0x04, mnemonic: Mnemonic::Nop, mode: AddressingMode::ZeroPage, cycles: 3 },
        0x05u8 => Instruction { opcode: 0x05, mnemonic: Mnemonic::Ora, mode: AddressingMode::ZeroPage, cycles: 3 },
        0x06u8 => Instruction { opcode: 0x06, mnemonic: Mnemonic::Asl, mode: AddressingMode::ZeroPage, cycles: 5 },
        0x07u8 => Instruction { opcode: 0x07, mnemonic: Mnemonic::Slo, mode: AddressingMode::ZeroPage, cycles: 5 },
        0x08u8 => Instruction { opcode: 0x08, mnemonic: Mnemonic::Php, mode: AddressingMode::Implied, cycles: 3 },
        0x09u8 => Instruction { opcode: 0x09, mnemonic: Mnemonic::Ora, mode: AddressingMode::Immediate, cycles: 2 },
        0x0Au8 => Instruction { opcode: 0x0A, mnemonic: Mnemonic::Asl, mode: AddressingMode::Implied, cycles: 2 },
        0x0Bu8 => Instruction { opcode: 0x0B, mnemonic: Mnemonic::Anc, mode: AddressingMode::Immediate, cycles: 2 },
        0x0Cu8 => Instruction { opcode: 0x0C, mnemonic: Mnemonic::Nop, mode: AddressingMode::Absolute, cycles: 4 },
        0x0Du8 => Instruction { opcode: 0x0D, mnemonic: Mnemonic::Ora, mode: AddressingMode::Absolute, cycles: 4 },
        0x0Eu8 => Instruction { opcode: 0x0E, mnemonic: Mnemonic::Asl, mode: AddressingMode::Absolute, cycles: 6 },
        0x0Fu8 => Instruction { opcode: 0x0F, mnemonic: Mnemonic::Slo, mode: AddressingMode::Absolute, cycles: 6 },
        0x10u8 => Instruction { opcode: 0x10, mnemonic: Mnemonic::Bpl, mode: AddressingMode::Relative, cycles: 2 },
        0x11u8 => Instruction { opcode: 0x11, mnemonic: Mnemonic::Ora, mode: AddressingMode::IndirectIndexed, cycles: 5 },
        0x12u8 => Instruction { opcode: 0x12, mnemonic: Mnemonic::Kil, mode: AddressingMode::Implied, cycles: 2 },
        0x13u8 => Instruction { opcode: 0x13, mnemonic: Mnemonic::Slo, mode: AddressingMode::IndirectIndexed, cycles: 8 },
        0x14u8 => Instruction { opcode: 0x14, mnemonic: Mnemonic::Nop, mode: AddressingMode::ZeroPageX, cycles: 4 },
        0x15u8 => Instruction { opcode: 0x15, mnemonic: Mnemonic::Ora, mode: AddressingMode::ZeroPageX, cycles: 4 },
        0x16u8 => Instruction { opcode: 0x16, mnemonic: Mnemonic::Asl, mode: AddressingMode::ZeroPageX, cycles: 6 },
        0x17u8 => Instruction { opcode: 0x17, mnemonic: Mnemonic::Slo, mode: AddressingMode::ZeroPageX, cycles: 6 },
        0x18u8 => Instruction { opcode: 0x18, mnemonic: Mnemonic::Clc, mode: AddressingMode::Implied, cycles: 2 },
        0x19u8 => Instruction { opcode: 0x19, mnemonic: Mnemonic::Ora, mode: AddressingMode::AbsoluteY, cycles: 4 },
        0x1Au8 => Instruction { opcode: 0x1A, mnemonic: Mnemonic::Nop, mode: AddressingMode::Implied, cycles: 2 },
        0x1Bu8 => Instruction { opcode: 0x1B, mnemonic: Mnemonic::Slo, mode: AddressingMode::AbsoluteY, cycles: 7 },
        0x1Cu8 => Instruction { opcode: 0x1C, mnemonic: Mnemonic::Nop, mode: AddressingMode::AbsoluteX, cycles: 4 },
        0x1Du8 => Instruction { opcode: 0x1D, mnemonic: Mnemonic::Ora, mode: AddressingMode::AbsoluteX, cycles: 4 },
        0x1Eu8 => Instruction { opcode: 0x1E, mnemonic: Mnemonic::Asl, mode: AddressingMode::AbsoluteX, cycles: 7 },
        0x1Fu8 => Instruction { opcode: 0x1F, mnemonic: Mnemonic::Slo, mode: AddressingMode::AbsoluteX, cycles: 7 },
        0x20u8 => Instruction { opcode: 0x20, mnemonic: Mnemonic::Jsr, mode: AddressingMode::Absolute, cycles: 6 },
        0x21u8 => Instruction { opcode: 0x21, mnemonic: Mnemonic::And, mode: AddressingMode::IndexedIndirect, cycles: 6 },
        0x22u8 => Instruction { opcode: 0x22, mnemonic: Mnemonic::Kil, mode: AddressingMode::Implied, cycles: 2 },
        0x23u8 => Instruction { opcode: 0x23, mnemonic: Mnemonic::Rla, mode: AddressingMode::IndexedIndirect, cycles: 8 },
        0x24u8 => Instruction { opcode: 0x24, mnemonic: Mnemonic::Bit, mode: AddressingMode::ZeroPage, cycles: 3 },
        0x25u8 => Instruction { opcode: 0x25, mnemonic: Mnemonic::And, mode: AddressingMode::ZeroPage, cycles: 3 },
        0x26u8 => Instruction { opcode: 0x26, mnemonic: Mnemonic::Rol, mode: AddressingMode::ZeroPage, cycles: 5 },
        0x27u8 => Instruction { opcode: 0x27, mnemonic: Mnemonic::Rla, mode: AddressingMode::ZeroPage, cycles: 5 },
        0x28u8 => Instruction { opcode: 0x28, mnemonic: Mnemonic::Plp, mode: AddressingMode::Implied, cycles: 4 },
        0x29u8 => Instruction { opcode: 0x29, mnemonic: Mnemonic::And, mode: AddressingMode::Immediate, cycles: 2 },
        0x2Au8 => Instruction { opcode: 0x2A, mnemonic: Mnemonic::Rol, mode: AddressingMode::Implied, cycles: 2 },
        0x2Bu8 => Instruction { opcode: 0x2B, mnemonic: Mnemonic::Anc, mode: AddressingMode::Immediate, cycles: 2 },
        0x2Cu8 => Instruction { opcode: 0x2C, mnemonic: Mnemonic::Bit, mode: AddressingMode::Absolute, cycles: 4 },
        0x2Du8 => Instruction { opcode: 0x2D, mnemonic: Mnemonic::And, mode: AddressingMode::Absolute, cycles: 4 },
        0x2Eu8 => Instruction { opcode: 0x2E, mnemonic: Mnemonic::Rol, mode: AddressingMode::Absolute, cycles: 6 },
        0x2Fu8 => Instruction { opcode: 0x2F, mnemonic: Mnemonic::Rla, mode: AddressingMode::Absolute, cycles: 6 },
        0x30u8 => Instruction { opcode: 0x30, mnemonic: Mnemonic::Bmi, mode: AddressingMode::Relative, cycles: 2 },
        0x31u8 => Instruction { opcode: 0x31, mnemonic: Mnemonic::And, mode: AddressingMode::IndirectIndexed, cycles: 5 },
        0x32u8 => Instruction { opcode: 0x32, mnemonic: Mnemonic::Kil, mode: AddressingMode::Implied, cycles: 2 },
        0x33u8 => Instruction { opcode: 0x33, mnemonic: Mnemonic::Rla, mode: AddressingMode::IndirectIndexed, cycles: 8 },
        0x34u8 => Instruction { opcode: 0x34, mnemonic: Mnemonic::Nop, mode: AddressingMode::ZeroPageX, cycles: 4 },
        0x35u8 => Instruction { opcode: 0x35, mnemonic: Mnemonic::And, mode: AddressingMode::ZeroPageX, cycles: 4 },
        0x36u8 => Instruction { opcode: 0x36, mnemonic: Mnemonic::Rol, mode: AddressingMode::ZeroPageX, cycles: 6 },
        0x37u8 => Instruction { opcode: 0x37, mnemonic: Mnemonic::Rla, mode: AddressingMode::ZeroPageX, cycles: 6 },
        0x38u8 => Instruction { opcode: 0x38, mnemonic: Mnemonic::Sec, mode: AddressingMode::Implied, cycles: 2 },
        0x39u8 => Instruction { opcode: 0x39, mnemonic: Mnemonic::And, mode: AddressingMode::AbsoluteY, cycles: 4 },
        0x3Au8 => Instruction { opcode: 0x3A, mnemonic: Mnemonic::Nop, mode: AddressingMode::Implied, cycles: 2 },
        0x3Bu8 => Instruction { opcode: 0x3B, mnemonic: Mnemonic::Rla, mode: AddressingMode::AbsoluteY, cycles: 7 },
        0x3Cu8 => Instruction { opcode: 0x3C, mnemonic: Mnemonic::Nop, mode: AddressingMode::AbsoluteX, cycles: 4 },
        0x3Du8 => Instruction { opcode: 0x3D, mnemonic: Mnemonic::And, mode: AddressingMode::AbsoluteX, cycles: 4 },
        0x3Eu8 => Instruction { opcode: 0x3E, mnemonic: Mnemonic::Rol, mode: AddressingMode::AbsoluteX, cycles: 7 },
        0x3Fu8 => Instruction { opcode: 0x3F, mnemonic: Mnemonic::Rla, mode: AddressingMode::AbsoluteX, cycles: 7 },
        0x40u8 => Instruction { opcode: 0x40, mnemonic: Mnemonic::Rti, mode: AddressingMode::Implied, cycles: 6 },
        0x41u8 => Instruction { opcode: 0x41, mnemonic: Mnemonic::Eor, mode: AddressingMode::IndexedIndirect, cycles: 6 },
        0x42u8 => Instruction { opcode: 0x42, mnemonic: Mnemonic::Kil, mode: AddressingMode::Implied, cycles: 2 },
        0x43u8 => Instruction { opcode: 0x43, mnemonic: Mnemonic::Sre, mode: AddressingMode::IndexedIndirect, cycles: 8 },
        0x44u8 => Instruction { opcode: 0x44, mnemonic: Mnemonic::Nop, mode: AddressingMode::ZeroPage, cycles: 3 },
        0x45u8 => Instruction { opcode: 0x45, mnemonic: Mnemonic::Eor, mode: AddressingMode::ZeroPage, cycles: 3 },
        0x46u8 => Instruction { opcode: 0x46, mnemonic: Mnemonic::Lsr, mode: AddressingMode::ZeroPage, cycles: 5 },
        0x47u8 => Instruction { opcode: 0x47, mnemonic: Mnemonic::Sre, mode: AddressingMode::ZeroPage, cycles: 5 },
        0x48u8 => Instruction { opcode: 0x48, mnemonic: Mnemonic::Pha, mode: AddressingMode::Implied, cycles: 3 },
        0x49u8 => Instruction { opcode: 0x49, mnemonic: Mnemonic::Eor, mode: AddressingMode::Immediate, cycles: 2 },
        0x4Au8 => Instruction { opcode: 0x4A, mnemonic: Mnemonic::Lsr, mode: AddressingMode::Implied, cycles: 2 },
        0x4Bu8 => Instruction { opcode: 0x4B, mnemonic: Mnemonic::Alr, mode: AddressingMode::Immediate, cycles: 2 },
        0x4Cu8 => Instruction { opcode: 0x4C, mnemonic: Mnemonic::Jmp, mode: AddressingMode::Absolute, cycles: 3 },
        0x4Du8 => Instruction { opcode: 0x4D, mnemonic: Mnemonic::Eor, mode: AddressingMode::Absolute, cycles: 4 },
        0x4Eu8 => Instruction { opcode: 0x4E, mnemonic: Mnemonic::Lsr, mode: AddressingMode::Absolute, cycles: 6 },
        0x4Fu8 => Instruction { opcode: 0x4F, mnemonic: Mnemonic::Sre, mode: AddressingMode::Absolute, cycles: 6 },
        0x50u8 => Instruction { opcode: 0x50, mnemonic: Mnemonic::Bvc, mode: AddressingMode::Relative, cycles: 2 },
        0x51u8 => Instruction { opcode: 0x51, mnemonic: Mnemonic::Eor, mode: AddressingMode::IndirectIndexed, cycles: 5 },
        0x52u8 => Instruction { opcode: 0x52, mnemonic: Mnemonic::Kil, mode: AddressingMode::Implied, cycles: 2 },
        0x53u8 => Instruction { opcode: 0x53, mnemonic: Mnemonic::Sre, mode: AddressingMode::IndirectIndexed, cycles: 8 },
        0x54u8 => Instruction { opcode: 0x54, mnemonic: Mnemonic::Nop, mode: AddressingMode::ZeroPageX, cycles: 4 },
        0x55u8 => Instruction { opcode: 0x55, mnemonic: Mnemonic::Eor, mode: AddressingMode::ZeroPageX, cycles: 4 },
        0x56u8 => Instruction { opcode: 0x56, mnemonic: Mnemonic::Lsr, mode: AddressingMode::ZeroPageX, cycles: 6 },
        0x57u8 => Instruction { opcode: 0x57, mnemonic: Mnemonic::Sre, mode: AddressingMode::ZeroPageX, cycles: 6 },
        0x58u8 => Instruction { opcode: 0x58, mnemonic: Mnemonic::Cli, mode: AddressingMode::Implied, cycles: 2 },
        0x59u8 => Instruction { opcode: 0x59, mnemonic: Mnemonic::Eor, mode: AddressingMode::AbsoluteY, cycles: 4 },
        0x5Au8 => Instruction { opcode: 0x5A, mnemonic: Mnemonic::Nop, mode: AddressingMode::Implied, cycles: 2 },
        0x5Bu8 => Instruction { opcode: 0x5B, mnemonic: Mnemonic::Sre, mode: AddressingMode::AbsoluteY, cycles: 7 },
        0x5Cu8 => Instruction { opcode: 0x5C, mnemonic: Mnemonic::Nop, mode: AddressingMode::AbsoluteX, cycles: 4 },
        0x5Du8 => Instruction { opcode: 0x5D, mnemonic: Mnemonic::Eor, mode: AddressingMode::AbsoluteX, cycles: 4 },
        0x5Eu8 => Instruction { opcode: 0x5E, mnemonic: Mnemonic::Lsr, mode: AddressingMode::AbsoluteX, cycles: 7 },
        0x5Fu8 => Instruction { opcode: 0x5F, mnemonic: Mnemonic::Sre, mode: AddressingMode::AbsoluteX, cycles: 7 },
        0x60u8 => Instruction { opcode: 0x60, mnemonic: Mnemonic::Rts, mode: AddressingMode::Implied, cycles: 6 },
        0x61u8 => Instruction { opcode: 0x61, mnemonic: Mnemonic::Adc, mode: AddressingMode::IndexedIndirect, cycles: 6 },
        0x62u8 => Instruction { opcode: 0x62, mnemonic: Mnemonic::Kil, mode: AddressingMode::Implied, cycles: 2 },
        0x63u8 => Instruction { opcode: 0x63, mnemonic: Mnemonic::Rra, mode: AddressingMode::IndexedIndirect, cycles: 8 },
        0x64u8 => Instruction { opcode: 0x64, mnemonic: Mnemonic::Nop, mode: AddressingMode::ZeroPage, cycles: 3 },
        0x65u8 => Instruction { opcode: 0x65, mnemonic: Mnemonic::Adc, mode: AddressingMode::ZeroPage, cycles: 3 },
        0x66u8 => Instruction { opcode: 0x66, mnemonic: Mnemonic::Ror, mode: AddressingMode::ZeroPage, cycles: 5 },
        0x67u8 => Instruction { opcode: 0x67, mnemonic: Mnemonic::Rra, mode: AddressingMode::ZeroPage, cycles: 5 },
        0x68u8 => Instruction { opcode: 0x68, mnemonic: Mnemonic::Pla, mode: AddressingMode::Implied, cycles: 4 },
        0x69u8 => Instruction { opcode: 0x69, mnemonic: Mnemonic::Adc, mode: AddressingMode::Immediate, cycles: 2 },
        0x6Au8 => Instruction { opcode: 0x6A, mnemonic: Mnemonic::RorA, mode: AddressingMode::Implied, cycles: 2 },
        0x6Bu8 => Instruction { opcode: 0x6B, mnemonic: Mnemonic::Arr, mode: AddressingMode::Immediate, cycles: 2 },
        0x6Cu8 => Instruction { opcode: 0x6C, mnemonic: Mnemonic::Jmp, mode: AddressingMode::Indirect, cycles: 5 },
        0x6Du8 => Instruction { opcode: 0x6D, mnemonic: Mnemonic::Adc, mode: AddressingMode::Absolute, cycles: 4 },
        0x6Eu8 => Instruction { opcode: 0x6E, mnemonic: Mnemonic::Ror, mode: AddressingMode::Absolute, cycles: 6 },
        0x6Fu8 => Instruction { opcode: 0x6F, mnemonic: Mnemonic::Rra, mode: AddressingMode::Absolute, cycles: 6 },
        0x70u8 => Instruction { opcode: 0x70, mnemonic: Mnemonic::Bvs, mode: AddressingMode::Relative, cycles: 2 },
        0x71u8 => Instruction { opcode: 0x71, mnemonic: Mnemonic::Adc, mode: AddressingMode::IndirectIndexed, cycles: 5 },
        0x72u8 => Instruction { opcode: 0x72, mnemonic: Mnemonic::Kil, mode: AddressingMode::Implied, cycles: 2 },
        0x73u8 => Instruction { opcode: 0x73, mnemonic: Mnemonic::Rra, mode: AddressingMode::IndirectIndexed, cycles: 8 },
        0x74u8 => Instruction { opcode: 0x74, mnemonic: Mnemonic::Nop, mode: AddressingMode::ZeroPageX, cycles: 4 },
        0x75u8 => Instruction { opcode: 0x75, mnemonic: Mnemonic::Adc, mode: AddressingMode::ZeroPageX, cycles: 4 },
        0x76u8 => Instruction { opcode: 0x76, mnemonic: Mnemonic::Ror, mode: AddressingMode::ZeroPageX, cycles: 6 },
        0x77u8 => Instruction { opcode: 0x77, mnemonic: Mnemonic::Rra, mode: AddressingMode::ZeroPageX, cycles: 6 },
        0x78u8 => Instruction { opcode: 0x78, mnemonic: Mnemonic::Sei, mode: AddressingMode::Implied, cycles: 2 },
        0x79u8 => Instruction { opcode: 0x79, mnemonic: Mnemonic::Adc, mode: AddressingMode::AbsoluteY, cycles: 4 },
        0x7Au8 => Instruction { opcode: 0x7A, mnemonic: Mnemonic::Nop, mode: AddressingMode::Implied, cycles: 2 },
        0x7Bu8 => Instruction { opcode: 0x7B, mnemonic: Mnemonic::Rra, mode: AddressingMode::AbsoluteY, cycles: 7 },
        0x7Cu8 => Instruction { opcode: 0x7C, mnemonic: Mnemonic::Nop, mode: AddressingMode::AbsoluteX, cycles: 4 },
        0x7Du8 => Instruction { opcode: 0x7D, mnemonic: Mnemonic::Adc, mode: AddressingMode::AbsoluteX, cycles: 4 },
        0x7Eu8 => Instruction { opcode: 0x7E, mnemonic: Mnemonic::Ror, mode: AddressingMode::AbsoluteX, cycles: 7 },
        0x7Fu8 => Instruction { opcode: 0x7F, mnemonic: Mnemonic::Rra, mode: AddressingMode::AbsoluteX, cycles: 7 },
        0x80u8 => Instruction { opcode: 0x80, mnemonic: Mnemonic::Nop, mode: AddressingMode::Immediate, cycles: 2 },
        0x81u8 => Instruction { opcode: 0x81, mnemonic: Mnemonic::Sta, mode: AddressingMode::IndexedIndirect, cycles: 6 },
        0x82u8 => Instruction { opcode: 0x82, mnemonic: Mnemonic::Nop, mode: AddressingMode::Immediate, cycles: 2 },
        0x83u8 => Instruction { opcode: 0x83, mnemonic: Mnemonic::Sax, mode: AddressingMode::IndexedIndirect, cycles: 6 },
        0x84u8 => Instruction { opcode: 0x84, mnemonic: Mnemonic::Sty, mode: AddressingMode::ZeroPage, cycles: 3 },
        0x85u8 => Instruction { opcode: 0x85, mnemonic: Mnemonic::Sta, mode: AddressingMode::ZeroPage, cycles: 3 },
        0x86u8 => Instruction { opcode: 0x86, mnemonic: Mnemonic::Stx, mode: AddressingMode::ZeroPage, cycles: 3 },
        0x87u8 => Instruction { opcode: 0x87, mnemonic: Mnemonic::Sax, mode: AddressingMode::ZeroPage, cycles: 3 },
        0x88u8 => Instruction { opcode: 0x88, mnemonic: Mnemonic::Dey, mode: AddressingMode::Implied, cycles: 2 },
        0x89u8 => Instruction { opcode: 0x89, mnemonic: Mnemonic::Nop, mode: AddressingMode::Immediate, cycles: 2 },
        0x8Au8 => Instruction { opcode: 0x8A, mnemonic: Mnemonic::Txa, mode: AddressingMode::Implied, cycles: 2 },
        0x8Bu8 => Instruction { opcode: 0x8B, mnemonic: Mnemonic::Xaa, mode: AddressingMode::Immediate, cycles: 2 },
        0x8Cu8 => Instruction { opcode: 0x8C, mnemonic: Mnemonic::Sty, mode: AddressingMode::Absolute, cycles: 4 },
        0x8Du8 => Instruction { opcode: 0x8D, mnemonic: Mnemonic::Sta, mode: AddressingMode::Absolute, cycles: 4 },
        0x8Eu8 => Instruction { opcode: 0x8E, mnemonic: Mnemonic::Stx, mode: AddressingMode::Absolute, cycles: 4 },
        0x8Fu8 => Instruction { opcode: 0x8F, mnemonic: Mnemonic::Sax, mode: AddressingMode::Absolute, cycles: 4 },
        0x90u8 => Instruction { opcode: 0x90, mnemonic: Mnemonic::Bcc, mode: AddressingMode::Relative, cycles: 2 },
        0x91u8 => Instruction { opcode: 0x91, mnemonic: Mnemonic::Sta, mode: AddressingMode::IndirectIndexed, cycles: 6 },
        0x92u8 => Instruction { opcode: 0x92, mnemonic: Mnemonic::Kil, mode: AddressingMode::Implied, cycles: 2 },
        0x93u8 => Instruction { opcode: 0x93, mnemonic: Mnemonic::Ahx, mode: AddressingMode::IndirectIndexed, cycles: 6 },
        0x94u8 => Instruction { opcode: 0x94, mnemonic: Mnemonic::Sty, mode: AddressingMode::ZeroPageX, cycles: 4 },
        0x95u8 => Instruction { opcode: 0x95, mnemonic: Mnemonic::Sta, mode: AddressingMode::ZeroPageX, cycles: 4 },
        0x96u8 => Instruction { opcode: 0x96, mnemonic: Mnemonic::Stx, mode: AddressingMode::ZeroPageY, cycles: 4 },
        0x97u8 => Instruction { opcode: 0x97, mnemonic: Mnemonic::Sax, mode: AddressingMode::ZeroPageY, cycles: 4 },
        0x98u8 => Instruction { opcode: 0x98, mnemonic: Mnemonic::Tya, mode: AddressingMode::Implied, cycles: 2 },
        0x99u8 => Instruction { opcode: 0x99, mnemonic: Mnemonic::Sta, mode: AddressingMode::AbsoluteY, cycles: 5 },
        0x9Au8 => Instruction { opcode: 0x9A, mnemonic: Mnemonic::Txs, mode: AddressingMode::Implied, cycles: 2 },
        0x9Bu8 => Instruction { opcode: 0x9B, mnemonic: Mnemonic::Tas, mode: AddressingMode::AbsoluteY, cycles: 5 },
        0x9Cu8 => Instruction { opcode: 0x9C, mnemonic: Mnemonic::Shy, mode: AddressingMode::AbsoluteX, cycles: 5 },
        0x9Du8 => Instruction { opcode: 0x9D, mnemonic: Mnemonic::Sta, mode: AddressingMode::AbsoluteX, cycles: 5 },
        0x9Eu8 => Instruction { opcode: 0x9E, mnemonic: Mnemonic::Shx, mode: AddressingMode::AbsoluteY, cycles: 5 },
        0x9Fu8 => Instruction { opcode: 0x9F, mnemonic: Mnemonic::Ahx, mode: AddressingMode::AbsoluteY, cycles: 5 },
        0xA0u8 => Instruction { opcode: 0xA0, mnemonic: Mnemonic::Ldy, mode: AddressingMode::Immediate, cycles: 2 },
        0xA1u8 => Instruction { opcode: 0xA1, mnemonic: Mnemonic::Lda, mode: AddressingMode::IndexedIndirect, cycles: 6 },
        0xA2u8 => Instruction { opcode: 0xA2, mnemonic: Mnemonic::Ldx, mode: AddressingMode::Immediate, cycles: 2 },
        0xA3u8 => Instruction { opcode: 0xA3, mnemonic: Mnemonic::Lax, mode: AddressingMode::IndexedIndirect, cycles: 6 },
        0xA4u8 => Instruction { opcode: 0xA4, mnemonic: Mnemonic::Ldy, mode: AddressingMode::ZeroPage, cycles: 3 },
        0xA5u8 => Instruction { opcode: 0xA5, mnemonic: Mnemonic::Lda, mode: AddressingMode::ZeroPage, cycles: 3 },
        0xA6u8 => Instruction { opcode: 0xA6, mnemonic: Mnemonic::Ldx, mode: AddressingMode::ZeroPage, cycles: 3 },
        0xA7u8 => Instruction { opcode: 0xA7, mnemonic: Mnemonic::Lax, mode: AddressingMode::ZeroPage, cycles: 3 },
        0xA8u8 => Instruction { opcode: 0xA8, mnemonic: Mnemonic::Tay, mode: AddressingMode::Implied, cycles: 2 },
        0xA9u8 => Instruction { opcode: 0xA9, mnemonic: Mnemonic::Lda, mode: AddressingMode::Immediate, cycles: 2 },
        0xAAu8 => Instruction { opcode: 0xAA, mnemonic: Mnemonic::Tax, mode: AddressingMode::Implied, cycles: 2 },
        0xABu8 => Instruction { opcode: 0xAB, mnemonic: Mnemonic::Lax, mode: AddressingMode::Immediate, cycles: 2 },
        0xACu8 => Instruction { opcode: 0xAC, mnemonic: Mnemonic::Ldy, mode: AddressingMode::Absolute, cycles: 4 },
        0xADu8 => Instruction { opcode: 0xAD, mnemonic: Mnemonic::Lda, mode: AddressingMode::Absolute, cycles: 4 },
        0xAEu8 => Instruction { opcode: 0xAE, mnemonic: Mnemonic::Ldx, mode: AddressingMode::Absolute, cycles: 4 },
        0xAFu8 => Instruction { opcode: 0xAF, mnemonic: Mnemonic::Lax, mode: AddressingMode::Absolute, cycles: 4 },
        0xB0u8 => Instruction { opcode: 0xB0, mnemonic: Mnemonic::Bcs, mode: AddressingMode::Relative, cycles: 2 },
        0xB1u8 => Instruction { opcode: 0xB1, mnemonic: Mnemonic::Lda, mode: AddressingMode::IndirectIndexed, cycles: 5 },
        0xB2u8 => Instruction { opcode: 0xB2, mnemonic: Mnemonic::Kil, mode: AddressingMode::Implied, cycles: 2 },
        0xB3u8 => Instruction { opcode: 0xB3, mnemonic: Mnemonic::Lax, mode: AddressingMode::IndirectIndexed, cycles: 5 },
        0xB4u8 => Instruction { opcode: 0xB4, mnemonic: Mnemonic::Ldy, mode: AddressingMode::ZeroPageX, cycles: 4 },
        0xB5u8 => Instruction { opcode: 0xB5, mnemonic: Mnemonic::Lda, mode: AddressingMode::ZeroPageX, cycles: 4 },
        0xB6u8 => Instruction { opcode: 0xB6, mnemonic: Mnemonic::Ldx, mode: AddressingMode::ZeroPageY, cycles: 4 },
        0xB7u8 => Instruction { opcode: 0xB7, mnemonic: Mnemonic::Lax, mode: AddressingMode::ZeroPageY, cycles: 4 },
        0xB8u8 => Instruction { opcode: 0xB8, mnemonic: Mnemonic::Clv, mode: AddressingMode::Implied, cycles: 2 },
        0xB9u8 => Instruction { opcode: 0xB9, mnemonic: Mnemonic::Lda, mode: AddressingMode::AbsoluteY, cycles: 4 },
        0xBAu8 => Instruction { opcode: 0xBA, mnemonic: Mnemonic::Tsx, mode: AddressingMode::Implied, cycles: 2 },
        0xBBu8 => Instruction { opcode: 0xBB, mnemonic: Mnemonic::Las, mode: AddressingMode::AbsoluteY, cycles: 4 },
        0xBCu8 => Instruction { opcode: 0xBC, mnemonic: Mnemonic::Ldy, mode: AddressingMode::AbsoluteX, cycles: 4 },
        0xBDu8 => Instruction { opcode: 0xBD, mnemonic: Mnemonic::Lda, mode: AddressingMode::AbsoluteX, cycles: 4 },
        0xBEu8 => Instruction { opcode: 0xBE, mnemonic: Mnemonic::Ldx, mode: AddressingMode::AbsoluteY, cycles: 4 },
        0xBFu8 => Instruction { opcode: 0xBF, mnemonic: Mnemonic::Lax, mode: AddressingMode::AbsoluteY, cycles: 4 },
        0xC0u8 => Instruction { opcode: 0xC0, mnemonic: Mnemonic::Cpy, mode: AddressingMode::Immediate, cycles: 2 },
        0xC1u8 => Instruction { opcode: 0xC1, mnemonic: Mnemonic::Cmp, mode: AddressingMode::IndexedIndirect, cycles: 6 },
        0xC2u8 => Instruction { opcode: 0xC2, mnemonic: Mnemonic::Nop, mode: AddressingMode::Immediate, cycles: 2 },
        0xC3u8 => Instruction { opcode: 0xC3, mnemonic: Mnemonic::Dcp, mode: AddressingMode::IndexedIndirect, cycles: 8 },
        0xC4u8 => Instruction { opcode: 0xC4, mnemonic: Mnemonic::Cpy, mode: AddressingMode::ZeroPage, cycles: 3 },
        0xC5u8 => Instruction { opcode: 0xC5, mnemonic: Mnemonic::Cmp, mode: AddressingMode::ZeroPage, cycles: 3 },
        0xC6u8 => Instruction { opcode: 0xC6, mnemonic: Mnemonic::Dec, mode: AddressingMode::ZeroPage, cycles: 5 },
        0xC7u8 => Instruction { opcode: 0xC7, mnemonic: Mnemonic::Dcp, mode: AddressingMode::ZeroPage, cycles: 5 },
        0xC8u8 => Instruction { opcode: 0xC8, mnemonic: Mnemonic::Iny, mode: AddressingMode::Implied, cycles: 2 },
        0xC9u8 => Instruction { opcode: 0xC9, mnemonic: Mnemonic::Cmp, mode: AddressingMode::Immediate, cycles: 2 },
        0xCAu8 => Instruction { opcode: 0xCA, mnemonic: Mnemonic::Dex, mode: AddressingMode::Implied, cycles: 2 },
        0xCBu8 => Instruction { opcode: 0xCB, mnemonic: Mnemonic::Axs, mode: AddressingMode::Immediate, cycles: 2 },
        0xCCu8 => Instruction { opcode: 0xCC, mnemonic: Mnemonic::Cpy, mode: AddressingMode::Absolute, cycles: 4 },
        0xCDu8 => Instruction { opcode: 0xCD, mnemonic: Mnemonic::Cmp, mode: AddressingMode::Absolute, cycles: 4 },
        0xCEu8 => Instruction { opcode: 0xCE, mnemonic: Mnemonic::Dec, mode: AddressingMode::Absolute, cycles: 6 },
        0xCFu8 => Instruction { opcode: 0xCF, mnemonic: Mnemonic::Dcp, mode: AddressingMode::Absolute, cycles: 6 },
        0xD0u8 => Instruction { opcode: 0xD0, mnemonic: Mnemonic::Bne, mode: AddressingMode::Relative, cycles: 2 },
        0xD1u8 => Instruction { opcode: 0xD1, mnemonic: Mnemonic::Cmp, mode: AddressingMode::IndirectIndexed, cycles: 5 },
        0xD2u8 => Instruction { opcode: 0xD2, mnemonic: Mnemonic::Kil, mode: AddressingMode::Implied, cycles: 2 },
        0xD3u8 => Instruction { opcode: 0xD3, mnemonic: Mnemonic::Dcp, mode: AddressingMode::IndirectIndexed, cycles: 8 },
        0xD4u8 => Instruction { opcode: 0xD4, mnemonic: Mnemonic::Nop, mode: AddressingMode::ZeroPageX, cycles: 4 },
        0xD5u8 => Instruction { opcode: 0xD5, mnemonic: Mnemonic::Cmp, mode: AddressingMode::ZeroPageX, cycles: 4 },
        0xD6u8 => Instruction { opcode: 0xD6, mnemonic: Mnemonic::Dec, mode: AddressingMode::ZeroPageX, cycles: 6 },
        0xD7u8 => Instruction { opcode: 0xD7, mnemonic: Mnemonic::Dcp, mode: AddressingMode::ZeroPageX, cycles: 6 },
        0xD8u8 => Instruction { opcode: 0xD8, mnemonic: Mnemonic::Cld, mode: AddressingMode::Implied, cycles: 2 },
        0xD9u8 => Instruction { opcode: 0xD9, mnemonic: Mnemonic::Cmp, mode: AddressingMode::AbsoluteY, cycles: 4 },
        0xDAu8 => Instruction { opcode: 0xDA, mnemonic: Mnemonic::Nop, mode: AddressingMode::Implied, cycles: 2 },
        0xDBu8 => Instruction { opcode: 0xDB, mnemonic: Mnemonic::Dcp, mode: AddressingMode::AbsoluteY, cycles: 7 },
        0xDCu8 => Instruction { opcode: 0xDC, mnemonic: Mnemonic::Nop, mode: AddressingMode::AbsoluteX, cycles: 4 },
        0xDDu8 => Instruction { opcode: 0xDD, mnemonic: Mnemonic::Cmp, mode: AddressingMode::AbsoluteX, cycles: 4 },
        0xDEu8 => Instruction { opcode: 0xDE, mnemonic: Mnemonic::Dec, mode: AddressingMode::AbsoluteX, cycles: 7 },
        0xDFu8 => Instruction { opcode: 0xDF, mnemonic: Mnemonic::Dcp, mode: AddressingMode::AbsoluteX, cycles: 7 },
        0xE0u8 => Instruction { opcode: 0xE0, mnemonic: Mnemonic::Cpx, mode: AddressingMode::Immediate, cycles: 2 },
        0xE1u8 => Instruction { opcode: 0xE1, mnemonic: Mnemonic::Sbc, mode: AddressingMode::IndexedIndirect, cycles: 6 },
        0xE2u8 => Instruction { opcode: 0xE2, mnemonic: Mnemonic::Nop, mode: AddressingMode::Immediate, cycles: 2 },
        0xE3u8 => Instruction { opcode: 0xE3, mnemonic: Mnemonic::Isc, mode: AddressingMode::IndexedIndirect, cycles: 8 },
        0xE4u8 => Instruction { opcode: 0xE4, mnemonic: Mnemonic::Cpx, mode: AddressingMode::ZeroPage, cycles: 3 },
        0xE5u8 => Instruction { opcode: 0xE5, mnemonic: Mnemonic::Sbc, mode: AddressingMode::ZeroPage, cycles: 3 },
        0xE6u8 => Instruction { opcode: 0xE6, mnemonic: Mnemonic::Inc, mode: AddressingMode::ZeroPage, cycles: 5 },
        0xE7u8 => Instruction { opcode: 0xE7, mnemonic: Mnemonic::Isc, mode: AddressingMode::ZeroPage, cycles: 5 },
        0xE8u8 => Instruction { opcode: 0xE8, mnemonic: Mnemonic::Inx, mode: AddressingMode::Implied, cycles: 2 },
        0xE9u8 => Instruction { opcode: 0xE9, mnemonic: Mnemonic::Sbc, mode: AddressingMode::Immediate, cycles: 2 },
        0xEAu8 => Instruction { opcode: 0xEA, mnemonic: Mnemonic::Nop, mode: AddressingMode::Implied, cycles: 2 },
        0xEBu8 => Instruction { opcode: 0xEB, mnemonic: Mnemonic::Sbc, mode: AddressingMode::Immediate, cycles: 2 },
        0xECu8 => Instruction { opcode: 0xEC, mnemonic: Mnemonic::Cpx, mode: AddressingMode::Absolute, cycles: 4 },
        0xEDu8 => Instruction { opcode: 0xED, mnemonic: Mnemonic::Sbc, mode: AddressingMode::Absolute, cycles: 4 },
        0xEEu8 => Instruction { opcode: 0xEE, mnemonic: Mnemonic::Inc, mode: AddressingMode::Absolute, cycles: 6 },
        0xEFu8 => Instruction { opcode: 0xEF, mnemonic: Mnemonic::Isc, mode: AddressingMode::Absolute, cycles: 6 },
        0xF0u8 => Instruction { opcode: 0xF0, mnemonic: Mnemonic::Beq, mode: AddressingMode::Relative, cycles: 2 },
        0xF1u8 => Instruction { opcode: 0xF1, mnemonic: Mnemonic::Sbc, mode: AddressingMode::IndirectIndexed, cycles: 5 },
        0xF2u8 => Instruction { opcode: 0xF2, mnemonic: Mnemonic::Kil, mode: AddressingMode::Implied, cycles: 2 },
        0xF3u8 => Instruction { opcode: 0xF3, mnemonic: Mnemonic::Isc, mode: AddressingMode::IndirectIndexed, cycles: 8 },
        0xF4u8 => Instruction { opcode: 0xF4, mnemonic: Mnemonic::Nop, mode: AddressingMode::ZeroPageX, cycles: 4 },
        0xF5u8 => Instruction { opcode: 0xF5, mnemonic: Mnemonic::Sbc, mode: AddressingMode::ZeroPageX, cycles: 4 },
        0xF6u8 => Instruction { opcode: 0xF6, mnemonic: Mnemonic::Inc, mode: AddressingMode::ZeroPageX, cycles: 6 },
        0xF7u8 => Instruction { opcode: 0xF7, mnemonic: Mnemonic::Isc, mode: AddressingMode::ZeroPageX, cycles: 6 },
        0xF8u8 => Instruction { opcode: 0xF8, mnemonic: Mnemonic::Sed, mode: AddressingMode::Implied, cycles: 2 },
        0xF9u8 => Instruction { opcode: 0xF9, mnemonic: Mnemonic::Sbc, mode: AddressingMode::AbsoluteY, cycles: 4 },
        0xFAu8 => Instruction { opcode: 0xFA, mnemonic: Mnemonic::Nop, mode: AddressingMode::Implied, cycles: 2 },
        0xFBu8 => Instruction { opcode: 0xFB, mnemonic: Mnemonic::Isc, mode: AddressingMode::AbsoluteY, cycles: 7 },
        0xFCu8 => Instruction { opcode: 0xFC, mnemonic: Mnemonic::Nop, mode: AddressingMode::AbsoluteX, cycles: 4 },
        0xFDu8 => Instruction { opcode: 0xFD, mnemonic: Mnemonic::Sbc, mode: AddressingMode::AbsoluteX, cycles: 4 },
        0xFEu8 => Instruction { opcode: 0xFE, mnemonic: Mnemonic::Inc, mode: AddressingMode::AbsoluteX, cycles: 7 },
        0xFFu8 => Instruction { opcode: 0xFF, mnemonic: Mnemonic::Isc, mode: AddressingMode::AbsoluteX, cycles: 7 },
    }
}

/// Every base cycle count lies between 2 and 8.
pub proof fn lemma_cycles_bounded(opcode: u8)
    ensures
        2 <= instruction_spec(opcode).cycles <= 8,
{
}

/// Runs the handler that the table gives `opcode` on `cpu`, whose operand address is
/// already resolved; returns the cycles that the handler adds.
pub fn execute_instruction<D: Device>(opcode: u8, cpu: &mut Cpu<D>) -> (r: u8)
    ensures
        Cpu::performs(instruction_spec(opcode).mnemonic, *old(cpu), *final(cpu), r),
{
    cpu.execute(instruction(opcode).mnemonic)
}

/// The base cycle count of `opcode`.
pub fn get_cycles(opcode: u8) -> (r: u8)
    ensures
        r == instruction_spec(opcode).cycles,
{
    instruction(opcode).cycles
}

/// The addressing mode of `opcode`.
pub fn get_addr_mode(opcode: u8) -> (r: AddressingMode)
    ensures
        r == instruction_spec(opcode).mode,
{
    instruction(opcode).mode
}

} // verus!
