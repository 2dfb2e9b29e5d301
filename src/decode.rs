use vstd::prelude::*;

verus! {

/// How an instruction finds its operand.
#[derive(Clone, Copy, Debug, PartialEq, Eq, Structural)]
pub enum AddressingMode {
    Implied,
    Accumulator,
    Immediate,
    ZeroPage,
    ZeroPageX,
    ZeroPageY,
    Relative,
    Absolute,
    AbsoluteX,
    AbsoluteY,
    Indirect,
    IndexedIndirect,
    IndirectIndexed,
}

/// The 56 official 6502 instructions.
#[derive(Clone, Copy, Debug, PartialEq, Eq, Structural)]
pub enum Mnemonic {
    Adc,
    And,
    Asl,
    Bcc,
    Bcs,
    Beq,
    Bit,
    Bmi,
    Bne,
    Bpl,
    Brk,
    Bvc,
    Bvs,
    Clc,
    Cld,
    Cli,
    Clv,
    Cmp,
    Cpx,
    Cpy,
    Dec,
    Dex,
    Dey,
    Eor,
    Inc,
    Inx,
    Iny,
    Jmp,
    Jsr,
    Lda,
    Ldx,
    Ldy,
    Lsr,
    Nop,
    Ora,
    Pha,
    Php,
    Pla,
    Plp,
    Rol,
    Ror,
    Rti,
    Rts,
    Sbc,
    Sec,
    Sed,
    Sei,
    Sta,
    Stx,
    Sty,
    Tax,
    Tay,
    Tsx,
    Txa,
    Txs,
    Tya,
}

impl Mnemonic {
    /// The assembler name of the instruction.
    pub fn name(&self) -> &'static str {
        match self {
            Mnemonic::Adc => "ADC",
            Mnemonic::And => "AND",
            Mnemonic::Asl => "ASL",
            Mnemonic::Bcc => "BCC",
            Mnemonic::Bcs => "BCS",
            Mnemonic::Beq => "BEQ",
            Mnemonic::Bit => "BIT",
            Mnemonic::Bmi => "BMI",
            Mnemonic::Bne => "BNE",
            Mnemonic::Bpl => "BPL",
            Mnemonic::Brk => "BRK",
            Mnemonic::Bvc => "BVC",
            Mnemonic::Bvs => "BVS",
            Mnemonic::Clc => "CLC",
            Mnemonic::Cld => "CLD",
            Mnemonic::Cli => "CLI",
            Mnemonic::Clv => "CLV",
            Mnemonic::Cmp => "CMP",
            Mnemonic::Cpx => "CPX",
            Mnemonic::Cpy => "CPY",
            Mnemonic::Dec => "DEC",
            Mnemonic::Dex => "DEX",
            Mnemonic::Dey => "DEY",
            Mnemonic::Eor => "EOR",
            Mnemonic::Inc => "INC",
            Mnemonic::Inx => "INX",
            Mnemonic::Iny => "INY",
            Mnemonic::Jmp => "JMP",
            Mnemonic::Jsr => "JSR",
            Mnemonic::Lda => "LDA",
            Mnemonic::Ldx => "LDX",
            Mnemonic::Ldy => "LDY",
            Mnemonic::Lsr => "LSR",
            Mnemonic::Nop => "NOP",
            Mnemonic::Ora => "ORA",
            Mnemonic::Pha => "PHA",
            Mnemonic::Php => "PHP",
            Mnemonic::Pla => "PLA",
            Mnemonic::Plp => "PLP",
            Mnemonic::Rol => "ROL",
            Mnemonic::Ror => "ROR",
            Mnemonic::Rti => "RTI",
            Mnemonic::Rts => "RTS",
            Mnemonic::Sbc => "SBC",
            Mnemonic::Sec => "SEC",
            Mnemonic::Sed => "SED",
            Mnemonic::Sei => "SEI",
            Mnemonic::Sta => "STA",
            Mnemonic::Stx => "STX",
            Mnemonic::Sty => "STY",
            Mnemonic::Tax => "TAX",
            Mnemonic::Tay => "TAY",
            Mnemonic::Tsx => "TSX",
            Mnemonic::Txa => "TXA",
            Mnemonic::Txs => "TXS",
            Mnemonic::Tya => "TYA",
        }
    }
}

/// One row of the opcode table: what the opcode does, where its operand is,
/// and how many cycles it costs before any penalty.
#[derive(Clone, Copy, Debug, PartialEq, Eq, Structural)]
pub struct Instruction {
    pub mnemonic: Mnemonic,
    pub mode: AddressingMode,
    pub cycles: u16,
}

/// The official opcode table; `None` for every opcode outside it.
pub open spec fn decode_spec(op: u8) -> Option<Instruction> {
    match op {
        0x00 => Some(Instruction { mnemonic: Mnemonic::Brk, mode: AddressingMode::Implied, cycles: 7 }),
        0x01 => Some(Instruction { mnemonic: Mnemonic::Ora, mode: AddressingMode::IndexedIndirect, cycles: 6 }),
        0x05 => Some(Instruction { mnemonic: Mnemonic::Ora, mode: AddressingMode::ZeroPage, cycles: 3 }),
        0x06 => Some(Instruction { mnemonic: Mnemonic::Asl, mode: AddressingMode::ZeroPage, cycles: 5 }),
        0x08 => Some(Instruction { mnemonic: Mnemonic::Php, mode: AddressingMode::Implied, cycles: 3 }),
        0x09 => Some(Instruction { mnemonic: Mnemonic::Ora, mode: AddressingMode::Immediate, cycles: 2 }),
        0x0A => Some(Instruction { mnemonic: Mnemonic::Asl, mode: AddressingMode::Accumulator, cycles: 2 }),
        0x0D => Some(Instruction { mnemonic: Mnemonic::Ora, mode: AddressingMode::Absolute, cycles: 4 }),
        0x0E => Some(Instruction { mnemonic: Mnemonic::Asl, mode: AddressingMode::Absolute, cycles: 6 }),
        0x10 => Some(Instruction { mnemonic: Mnemonic::Bpl, mode: AddressingMode::Relative, cycles: 2 }),
        0x11 => Some(Instruction { mnemonic: Mnemonic::Ora, mode: AddressingMode::IndirectIndexed, cycles: 5 }),
        0x15 => Some(Instruction { mnemonic: Mnemonic::Ora, mode: AddressingMode::ZeroPageX, cycles: 4 }),
        0x16 => Some(Instruction { mnemonic: Mnemonic::Asl, mode: AddressingMode::ZeroPageX, cycles: 6 }),
        0x18 => Some(Instruction { mnemonic: Mnemonic::Clc, mode: AddressingMode::Implied, cycles: 2 }),
        0x19 => Some(Instruction { mnemonic: Mnemonic::Ora, mode: AddressingMode::AbsoluteY, cycles: 4 }),
        0x1D => Some(Instruction { mnemonic: Mnemonic::Ora, mode: AddressingMode::AbsoluteX, cycles: 4 }),
        0x1E => Some(Instruction { mnemonic: Mnemonic::Asl, mode: AddressingMode::AbsoluteX, cycles: 7 }),
        0x20 => Some(Instruction { mnemonic: Mnemonic::Jsr, mode: AddressingMode::Absolute, cycles: 6 }),
        0x21 => Some(Instruction { mnemonic: Mnemonic::And, mode: AddressingMode::IndexedIndirect, cycles: 6 }),
        0x24 => Some(Instruction { mnemonic: Mnemonic::Bit, mode: AddressingMode::ZeroPage, cycles: 3 }),
        0x25 => Some(Instruction { mnemonic: Mnemonic::And, mode: AddressingMode::ZeroPage, cycles: 3 }),
        0x26 => Some(Instruction { mnemonic: Mnemonic::Rol, mode: AddressingMode::ZeroPage, cycles: 5 }),
        0x28 => Some(Instruction { mnemonic: Mnemonic::Plp, mode: AddressingMode::Implied, cycles: 4 }),
        0x29 => Some(Instruction { mnemonic: Mnemonic::And, mode: AddressingMode::Immediate, cycles: 2 }),
        0x2A => Some(Instruction { mnemonic: Mnemonic::Rol, mode: AddressingMode::Accumulator, cycles: 2 }),
        0x2C => Some(Instruction { mnemonic: Mnemonic::Bit, mode: AddressingMode::Absolute, cycles: 4 }),
        0x2D => Some(Instruction { mnemonic: Mnemonic::And, mode: AddressingMode::Absolute, cycles: 4 }),
        0x2E => Some(Instruction { mnemonic: Mnemonic::Rol, mode: AddressingMode::Absolute, cycles: 6 }),
        0x30 => Some(Instruction { mnemonic: Mnemonic::Bmi, mode: AddressingMode::Relative, cycles: 2 }),
        0x31 => Some(Instruction { mnemonic: Mnemonic::And, mode: AddressingMode::IndirectIndexed, cycles: 5 }),
        0x35 => Some(Instruction { mnemonic: Mnemonic::And, mode: AddressingMode::ZeroPageX, cycles: 4 }),
        0x36 => Some(Instruction { mnemonic: Mnemonic::Rol, mode: AddressingMode::ZeroPageX, cycles: 6 }),
        0x38 => Some(Instruction { mnemonic: Mnemonic::Sec, mode: AddressingMode::Implied, cycles: 2 }),
        0x39 => Some(Instruction { mnemonic: Mnemonic::And, mode: AddressingMode::AbsoluteY, cycles: 4 }),
        0x3D => Some(Instruction { mnemonic: Mnemonic::And, mode: AddressingMode::AbsoluteX, cycles: 4 }),
        0x3E => Some(Instruction { mnemonic: Mnemonic::Rol, mode: AddressingMode::AbsoluteX, cycles: 7 }),
        0x40 => Some(Instruction { mnemonic: Mnemonic::Rti, mode: AddressingMode::Implied, cycles: 6 }),
        0x41 => Some(Instruction { mnemonic: Mnemonic::Eor, mode: AddressingMode::IndexedIndirect, cycles: 6 }),
        0x45 => Some(Instruction { mnemonic: Mnemonic::Eor, mode: AddressingMode::ZeroPage, cycles: 3 }),
        0x46 => Some(Instruction { mnemonic: Mnemonic::Lsr, mode: AddressingMode::ZeroPage, cycles: 5 }),
        0x48 => Some(Instruction { mnemonic: Mnemonic::Pha, mode: AddressingMode::Implied, cycles: 3 }),
        0x49 => Some(Instruction { mnemonic: Mnemonic::Eor, mode: AddressingMode::Immediate, cycles: 2 }),
        0x4A => Some(Instruction { mnemonic: Mnemonic::Lsr, mode: AddressingMode::Accumulator, cycles: 2 }),
        0x4C => Some(Instruction { mnemonic: Mnemonic::Jmp, mode: AddressingMode::Absolute, cycles: 3 }),
        0x4D => Some(Instruction { mnemonic: Mnemonic::Eor, mode: AddressingMode::Absolute, cycles: 4 }),
        0x4E => Some(Instruction { mnemonic: Mnemonic::Lsr, mode: AddressingMode::Absolute, cycles: 6 }),
        0x50 => Some(Instruction { mnemonic: Mnemonic::Bvc, mode: AddressingMode::Relative, cycles: 2 }),
        0x51 => Some(Instruction { mnemonic: Mnemonic::Eor, mode: AddressingMode::IndirectIndexed, cycles: 5 }),
        0x55 => Some(Instruction { mnemonic: Mnemonic::Eor, mode: AddressingMode::ZeroPageX, cycles: 4 }),
        0x56 => Some(Instruction { mnemonic: Mnemonic::Lsr, mode: AddressingMode::ZeroPageX, cycles: 6 }),
        0x58 => Some(Instruction { mnemonic: Mnemonic::Cli, mode: AddressingMode::Implied, cycles: 2 }),
        0x59 => Some(Instruction { mnemonic: Mnemonic::Eor, mode: AddressingMode::AbsoluteY, cycles: 4 }),
        0x5D => Some(Instruction { mnemonic: Mnemonic::Eor, mode: AddressingMode::AbsoluteX, cycles: 4 }),
        0x5E => Some(Instruction { mnemonic: Mnemonic::Lsr, mode: AddressingMode::AbsoluteX, cycles: 7 }),
        0x60 => Some(Instruction { mnemonic: Mnemonic::Rts, mode: AddressingMode::Implied, cycles: 6 }),
        0x61 => Some(Instruction { mnemonic: Mnemonic::Adc, mode: AddressingMode::IndexedIndirect, cycles: 6 }),
        0x65 => Some(Instruction { mnemonic: Mnemonic::Adc, mode: AddressingMode::ZeroPage, cycles: 3 }),
        0x66 => Some(Instruction { mnemonic: Mnemonic::Ror, mode: AddressingMode::ZeroPage, cycles: 5 }),
        0x68 => Some(Instruction { mnemonic: Mnemonic::Pla, mode: AddressingMode::Implied, cycles: 4 }),
        0x69 => Some(Instruction { mnemonic: Mnemonic::Adc, mode: AddressingMode::Immediate, cycles: 2 }),
        0x6A => Some(Instruction { mnemonic: Mnemonic::Ror, mode: AddressingMode::Accumulator, cycles: 2 }),
        0x6C => Some(Instruction { mnemonic: Mnemonic::Jmp, mode: AddressingMode::Indirect, cycles: 5 }),
        0x6D => Some(Instruction { mnemonic: Mnemonic::Adc, mode: AddressingMode::Absolute, cycles: 4 }),
        0x6E => Some(Instruction { mnemonic: Mnemonic::Ror, mode: AddressingMode::Absolute, cycles: 6 }),
        0x70 => Some(Instruction { mnemonic: Mnemonic::Bvs, mode: AddressingMode::Relative, cycles: 2 }),
        0x71 => Some(Instruction { mnemonic: Mnemonic::Adc, mode: AddressingMode::IndirectIndexed, cycles: 5 }),
        0x75 => Some(Instruction { mnemonic: Mnemonic::Adc, mode: AddressingMode::ZeroPageX, cycles: 4 }),
        0x76 => Some(Instruction { mnemonic: Mnemonic::Ror, mode: AddressingMode::ZeroPageX, cycles: 6 }),
        0x78 => Some(Instruction { mnemonic: Mnemonic::Sei, mode: AddressingMode::Implied, cycles: 2 }),
        0x79 => Some(Instruction { mnemonic: Mnemonic::Adc, mode: AddressingMode::AbsoluteY, cycles: 4 }),
        0x7D => Some(Instruction { mnemonic: Mnemonic::Adc, mode: AddressingMode::AbsoluteX, cycles: 4 }),
        0x7E => Some(Instruction { mnemonic: Mnemonic::Ror, mode: AddressingMode::AbsoluteX, cycles: 7 }),
        0x81 => Some(Instruction { mnemonic: Mnemonic::Sta, mode: AddressingMode::IndexedIndirect, cycles: 6 }),
        0x84 => Some(Instruction { mnemonic: Mnemonic::Sty, mode: AddressingMode::ZeroPage, cycles: 3 }),
        0x85 => Some(Instruction { mnemonic: Mnemonic::Sta, mode: AddressingMode::ZeroPage, cycles: 3 }),
        0x86 => Some(Instruction { mnemonic: Mnemonic::Stx, mode: AddressingMode::ZeroPage, cycles: 3 }),
        0x88 => Some(Instruction { mnemonic: Mnemonic::Dey, mode: AddressingMode::Implied, cycles: 2 }),
        0x8A => Some(Instruction { mnemonic: Mnemonic::Txa, mode: AddressingMode::Implied, cycles: 2 }),
        0x8C => Some(Instruction { mnemonic: Mnemonic::Sty, mode: AddressingMode::Absolute, cycles: 4 }),
        0x8D => Some(Instruction { mnemonic: Mnemonic::Sta, mode: AddressingMode::Absolute, cycles: 4 }),
        0x8E => Some(Instruction { mnemonic: Mnemonic::Stx, mode: AddressingMode::Absolute, cycles: 4 }),
        0x90 => Some(Instruction { mnemonic: Mnemonic::Bcc, mode: AddressingMode::Relative, cycles: 2 }),
        0x91 => Some(Instruction { mnemonic: Mnemonic::Sta, mode: AddressingMode::IndirectIndexed, cycles: 6 }),
        0x94 => Some(Instruction { mnemonic: Mnemonic::Sty, mode: AddressingMode::ZeroPageX, cycles: 4 }),
        0x95 => Some(Instruction { mnemonic: Mnemonic::Sta, mode: AddressingMode::ZeroPageX, cycles: 4 }),
        0x96 => Some(Instruction { mnemonic: Mnemonic::Stx, mode: AddressingMode::ZeroPageY, cycles: 4 }),
        0x98 => Some(Instruction { mnemonic: Mnemonic::Tya, mode: AddressingMode::Implied, cycles: 2 }),
        0x99 => Some(Instruction { mnemonic: Mnemonic::Sta, mode: AddressingMode::AbsoluteY, cycles: 5 }),
        0x9A => Some(Instruction { mnemonic: Mnemonic::Txs, mode: AddressingMode::Implied, cycles: 2 }),
        0x9D => Some(Instruction { mnemonic: Mnemonic::Sta, mode: AddressingMode::AbsoluteX, cycles: 5 }),
        0xA0 => Some(Instruction { mnemonic: Mnemonic::Ldy, mode: AddressingMode::Immediate, cycles: 2 }),
        0xA1 => Some(Instruction { mnemonic: Mnemonic::Lda, mode: AddressingMode::IndexedIndirect, cycles: 6 }),
        0xA2 => Some(Instruction { mnemonic: Mnemonic::Ldx, mode: AddressingMode::Immediate, cycles: 2 }),
        0xA4 => Some(Instruction { mnemonic: Mnemonic::Ldy, mode: AddressingMode::ZeroPage, cycles: 3 }),
        0xA5 => Some(Instruction { mnemonic: Mnemonic::Lda, mode: AddressingMode::ZeroPage, cycles: 3 }),
        0xA6 => Some(Instruction { mnemonic: Mnemonic::Ldx, mode: AddressingMode::ZeroPage, cycles: 3 }),
        0xA8 => Some(Instruction { mnemonic: Mnemonic::Tay, mode: AddressingMode::Implied, cycles: 2 }),
        0xA9 => Some(Instruction { mnemonic: Mnemonic::Lda, mode: AddressingMode::Immediate, cycles: 2 }),
        0xAA => Some(Instruction { mnemonic: Mnemonic::Tax, mode: AddressingMode::Implied, cycles: 2 }),
        0xAC => Some(Instruction { mnemonic: Mnemonic::Ldy, mode: AddressingMode::Absolute, cycles: 4 }),
        0xAD => Some(Instruction { mnemonic: Mnemonic::Lda, mode: AddressingMode::Absolute, cycles: 4 }),
        0xAE => Some(Instruction { mnemonic: Mnemonic::Ldx, mode: AddressingMode::Absolute, cycles: 4 }),
        0xB0 => Some(Instruction { mnemonic: Mnemonic::Bcs, mode: AddressingMode::Relative, cycles: 2 }),
        0xB1 => Some(Instruction { mnemonic: Mnemonic::Lda, mode: AddressingMode::IndirectIndexed, cycles: 5 }),
        0xB4 => Some(Instruction { mnemonic: Mnemonic::Ldy, mode: AddressingMode::ZeroPageX, cycles: 4 }),
        0xB5 => Some(Instruction { mnemonic: Mnemonic::Lda, mode: AddressingMode::ZeroPageX, cycles: 4 }),
        0xB6 => Some(Instruction { mnemonic: Mnemonic::Ldx, mode: AddressingMode::ZeroPageY, cycles: 4 }),
        0xB8 => Some(Instruction { mnemonic: Mnemonic::Clv, mode: AddressingMode::Implied, cycles: 2 }),
        0xB9 => Some(Instruction { mnemonic: Mnemonic::Lda, mode: AddressingMode::AbsoluteY, cycles: 4 }),
        0xBA => Some(Instruction { mnemonic: Mnemonic::Tsx, mode: AddressingMode::Implied, cycles: 2 }),
        0xBC => Some(Instruction { mnemonic: Mnemonic::Ldy, mode: AddressingMode::AbsoluteX, cycles: 4 }),
        0xBD => Some(Instruction { mnemonic: Mnemonic::Lda, mode: AddressingMode::AbsoluteX, cycles: 4 }),
        0xBE => Some(Instruction { mnemonic: Mnemonic::Ldx, mode: AddressingMode::AbsoluteY, cycles: 4 }),
        0xC0 => Some(Instruction { mnemonic: Mnemonic::Cpy, mode: AddressingMode::Immediate, cycles: 2 }),
        0xC1 => Some(Instruction { mnemonic: Mnemonic::Cmp, mode: AddressingMode::IndexedIndirect, cycles: 6 }),
        0xC4 => Some(Instruction { mnemonic: Mnemonic::Cpy, mode: AddressingMode::ZeroPage, cycles: 3 }),
        0xC5 => Some(Instruction { mnemonic: Mnemonic::Cmp, mode: AddressingMode::ZeroPage, cycles: 3 }),
        0xC6 => Some(Instruction { mnemonic: Mnemonic::Dec, mode: AddressingMode::ZeroPage, cycles: 5 }),
        0xC8 => Some(Instruction { mnemonic: Mnemonic::Iny, mode: AddressingMode::Implied, cycles: 2 }),
        0xC9 => Some(Instruction { mnemonic: Mnemonic::Cmp, mode: AddressingMode::Immediate, cycles: 2 }),
        0xCA => Some(Instruction { mnemonic: Mnemonic::Dex, mode: AddressingMode::Implied, cycles: 2 }),
        0xCC => Some(Instruction { mnemonic: Mnemonic::Cpy, mode: AddressingMode::Absolute, cycles: 4 }),
        0xCD => Some(Instruction { mnemonic: Mnemonic::Cmp, mode: AddressingMode::Absolute, cycles: 4 }),
        0xCE => Some(Instruction { mnemonic: Mnemonic::Dec, mode: AddressingMode::Absolute, cycles: 6 }),
        0xD0 => Some(Instruction { mnemonic: Mnemonic::Bne, mode: AddressingMode::Relative, cycles: 2 }),
        0xD1 => Some(Instruction { mnemonic: Mnemonic::Cmp, mode: AddressingMode::IndirectIndexed, cycles: 5 }),
        0xD5 => Some(Instruction { mnemonic: Mnemonic::Cmp, mode: AddressingMode::ZeroPageX, cycles: 4 }),
        0xD6 => Some(Instruction { mnemonic: Mnemonic::Dec, mode: AddressingMode::ZeroPageX, cycles: 6 }),
        0xD8 => Some(Instruction { mnemonic: Mnemonic::Cld, mode: AddressingMode::Implied, cycles: 2 }),
        0xD9 => Some(Instruction { mnemonic: Mnemonic::Cmp, mode: AddressingMode::AbsoluteY, cycles: 4 }),
        0xDD => Some(Instruction { mnemonic: Mnemonic::Cmp, mode: AddressingMode::AbsoluteX, cycles: 4 }),
        0xDE => Some(Instruction { mnemonic: Mnemonic::Dec, mode: AddressingMode::AbsoluteX, cycles: 7 }),
        0xE0 => Some(Instruction { mnemonic: Mnemonic::Cpx, mode: AddressingMode::Immediate, cycles: 2 }),
        0xE1 => Some(Instruction { mnemonic: Mnemonic::Sbc, mode: AddressingMode::IndexedIndirect, cycles: 6 }),
        0xE4 => Some(Instruction { mnemonic: Mnemonic::Cpx, mode: AddressingMode::ZeroPage, cycles: 3 }),
        0xE5 => Some(Instruction { mnemonic: Mnemonic::Sbc, mode: AddressingMode::ZeroPage, cycles: 3 }),
        0xE6 => Some(Instruction { mnemonic: Mnemonic::Inc, mode: AddressingMode::ZeroPage, cycles: 5 }),
        0xE8 => Some(Instruction { mnemonic: Mnemonic::Inx, mode: AddressingMode::Implied, cycles: 2 }),
        0xE9 => Some(Instruction { mnemonic: Mnemonic::Sbc, mode: AddressingMode::Immediate, cycles: 2 }),
        0xEA => Some(Instruction { mnemonic: Mnemonic::Nop, mode: AddressingMode::Implied, cycles: 2 }),
        0xEC => Some(Instruction { mnemonic: Mnemonic::Cpx, mode: AddressingMode::Absolute, cycles: 4 }),
        0xED => Some(Instruction { mnemonic: Mnemonic::Sbc, mode: AddressingMode::Absolute, cycles: 4 }),
        0xEE => Some(Instruction { mnemonic: Mnemonic::Inc, mode: AddressingMode::Absolute, cycles: 6 }),
        0xF0 => Some(Instruction { mnemonic: Mnemonic::Beq, mode: AddressingMode::Relative, cycles: 2 }),
        0xF1 => Some(Instruction { mnemonic: Mnemonic::Sbc, mode: AddressingMode::IndirectIndexed, cycles: 5 }),
        0xF5 => Some(Instruction { mnemonic: Mnemonic::Sbc, mode: AddressingMode::ZeroPageX, cycles: 4 }),
        0xF6 => Some(Instruction { mnemonic: Mnemonic::Inc, mode: AddressingMode::ZeroPageX, cycles: 6 }),
        0xF8 => Some(Instruction { mnemonic: Mnemonic::Sed, mode: AddressingMode::Implied, cycles: 2 }),
        0xF9 => Some(Instruction { mnemonic: Mnemonic::Sbc, mode: AddressingMode::AbsoluteY, cycles: 4 }),
        0xFD => Some(Instruction { mnemonic: Mnemonic::Sbc, mode: AddressingMode::AbsoluteX, cycles: 4 }),
        0xFE => Some(Instruction { mnemonic: Mnemonic::Inc, mode: AddressingMode::AbsoluteX, cycles: 7 }),
        _ => None,
    }
}

/// Number of bytes an instruction in this mode occupies, opcode included.
pub open spec fn operand_length_spec(mode: AddressingMode) -> u16 {
    match mode {
        AddressingMode::Implied | AddressingMode::Accumulator => 1,
        AddressingMode::Absolute | AddressingMode::AbsoluteX | AddressingMode::AbsoluteY
        | AddressingMode::Indirect => 3,
        _ => 2,
    }
}

/// Looks an opcode up in the official table.
pub fn decode(op: u8) -> (r: Option<Instruction>)
    ensures
        r == decode_spec(op),
        r.is_some() ==> 2 <= r.unwrap().cycles <= 7,
{
    match op {
        0x00 => Some(Instruction { mnemonic: Mnemonic::Brk, mode: AddressingMode::Implied, cycles: 7 }),
        0x01 => Some(Instruction { mnemonic: Mnemonic::Ora, mode: AddressingMode::IndexedIndirect, cycles: 6 }),
        0x05 => Some(Instruction { mnemonic: Mnemonic::Ora, mode: AddressingMode::ZeroPage, cycles: 3 }),
        0x06 => Some(Instruction { mnemonic: Mnemonic::Asl, mode: AddressingMode::ZeroPage, cycles: 5 }),
        0x08 => Some(Instruction { mnemonic: Mnemonic::Php, mode: AddressingMode::Implied, cycles: 3 }),
        0x09 => Some(Instruction { mnemonic: Mnemonic::Ora, mode: AddressingMode::Immediate, cycles: 2 }),
        0x0A => Some(Instruction { mnemonic: Mnemonic::Asl, mode: AddressingMode::Accumulator, cycles: 2 }),
        0x0D => Some(Instruction { mnemonic: Mnemonic::Ora, mode: AddressingMode::Absolute, cycles: 4 }),
        0x0E => Some(Instruction { mnemonic: Mnemonic::Asl, mode: AddressingMode::Absolute, cycles: 6 }),
        0x10 => Some(Instruction { mnemonic: Mnemonic::Bpl, mode: AddressingMode::Relative, cycles: 2 }),
        0x11 => Some(Instruction { mnemonic: Mnemonic::Ora, mode: AddressingMode::IndirectIndexed, cycles: 5 }),
        0x15 => Some(Instruction { mnemonic: Mnemonic::Ora, mode: AddressingMode::ZeroPageX, cycles: 4 }),
        0x16 => Some(Instruction { mnemonic: Mnemonic::Asl, mode: AddressingMode::ZeroPageX, cycles: 6 }),
        0x18 => Some(Instruction { mnemonic: Mnemonic::Clc, mode: AddressingMode::Implied, cycles: 2 }),
        0x19 => Some(Instruction { mnemonic: Mnemonic::Ora, mode: AddressingMode::AbsoluteY, cycles: 4 }),
        0x1D => Some(Instruction { mnemonic: Mnemonic::Ora, mode: AddressingMode::AbsoluteX, cycles: 4 }),
        0x1E => Some(Instruction { mnemonic: Mnemonic::Asl, mode: AddressingMode::AbsoluteX, cycles: 7 }),
        0x20 => Some(Instruction { mnemonic: Mnemonic::Jsr, mode: AddressingMode::Absolute, cycles: 6 }),
        0x21 => Some(Instruction { mnemonic: Mnemonic::And, mode: AddressingMode::IndexedIndirect, cycles: 6 }),
        0x24 => Some(Instruction { mnemonic: Mnemonic::Bit, mode: AddressingMode::ZeroPage, cycles: 3 }),
        0x25 => Some(Instruction { mnemonic: Mnemonic::And, mode: AddressingMode::ZeroPage, cycles: 3 }),
        0x26 => Some(Instruction { mnemonic: Mnemonic::Rol, mode: AddressingMode::ZeroPage, cycles: 5 }),
        0x28 => Some(Instruction { mnemonic: Mnemonic::Plp, mode: AddressingMode::Implied, cycles: 4 }),
        0x29 => Some(Instruction { mnemonic: Mnemonic::And, mode: AddressingMode::Immediate, cycles: 2 }),
        0x2A => Some(Instruction { mnemonic: Mnemonic::Rol, mode: AddressingMode::Accumulator, cycles: 2 }),
        0x2C => Some(Instruction { mnemonic: Mnemonic::Bit, mode: AddressingMode::Absolute, cycles: 4 }),
        0x2D => Some(Instruction { mnemonic: Mnemonic::And, mode: AddressingMode::Absolute, cycles: 4 }),
        0x2E => Some(Instruction { mnemonic: Mnemonic::Rol, mode: AddressingMode::Absolute, cycles: 6 }),
        0x30 => Some(Instruction { mnemonic: Mnemonic::Bmi, mode: AddressingMode::Relative, cycles: 2 }),
        0x31 => Some(Instruction { mnemonic: Mnemonic::And, mode: AddressingMode::IndirectIndexed, cycles: 5 }),
        0x35 => Some(Instruction { mnemonic: Mnemonic::And, mode: AddressingMode::ZeroPageX, cycles: 4 }),
        0x36 => Some(Instruction { mnemonic: Mnemonic::Rol, mode: AddressingMode::ZeroPageX, cycles: 6 }),
        0x38 => Some(Instruction { mnemonic: Mnemonic::Sec, mode: AddressingMode::Implied, cycles: 2 }),
        0x39 => Some(Instruction { mnemonic: Mnemonic::And, mode: AddressingMode::AbsoluteY, cycles: 4 }),
        0x3D => Some(Instruction { mnemonic: Mnemonic::And, mode: AddressingMode::AbsoluteX, cycles: 4 }),
        0x3E => Some(Instruction { mnemonic: Mnemonic::Rol, mode: AddressingMode::AbsoluteX, cycles: 7 }),
        0x40 => Some(Instruction { mnemonic: Mnemonic::Rti, mode: AddressingMode::Implied, cycles: 6 }),
        0x41 => Some(Instruction { mnemonic: Mnemonic::Eor, mode: AddressingMode::IndexedIndirect, cycles: 6 }),
        0x45 => Some(Instruction { mnemonic: Mnemonic::Eor, mode: AddressingMode::ZeroPage, cycles: 3 }),
        0x46 => Some(Instruction { mnemonic: Mnemonic::Lsr, mode: AddressingMode::ZeroPage, cycles: 5 }),
        0x48 => Some(Instruction { mnemonic: Mnemonic::Pha, mode: AddressingMode::Implied, cycles: 3 }),
        0x49 => Some(Instruction { mnemonic: Mnemonic::Eor, mode: AddressingMode::Immediate, cycles: 2 }),
        0x4A => Some(Instruction { mnemonic: Mnemonic::Lsr, mode: AddressingMode::Accumulator, cycles: 2 }),
        0x4C => Some(Instruction { mnemonic: Mnemonic::Jmp, mode: AddressingMode::Absolute, cycles: 3 }),
        0x4D => Some(Instruction { mnemonic: Mnemonic::Eor, mode: AddressingMode::Absolute, cycles: 4 }),
        0x4E => Some(Instruction { mnemonic: Mnemonic::Lsr, mode: AddressingMode::Absolute, cycles: 6 }),
        0x50 => Some(Instruction { mnemonic: Mnemonic::Bvc, mode: AddressingMode::Relative, cycles: 2 }),
        0x51 => Some(Instruction { mnemonic: Mnemonic::Eor, mode: AddressingMode::IndirectIndexed, cycles: 5 }),
        0x55 => Some(Instruction { mnemonic: Mnemonic::Eor, mode: AddressingMode::ZeroPageX, cycles: 4 }),
        0x56 => Some(Instruction { mnemonic: Mnemonic::Lsr, mode: AddressingMode::ZeroPageX, cycles: 6 }),
        0x58 => Some(Instruction { mnemonic: Mnemonic::Cli, mode: AddressingMode::Implied, cycles: 2 }),
        0x59 => Some(Instruction { mnemonic: Mnemonic::Eor, mode: AddressingMode::AbsoluteY, cycles: 4 }),
        0x5D => Some(Instruction { mnemonic: Mnemonic::Eor, mode: AddressingMode::AbsoluteX, cycles: 4 }),
        0x5E => Some(Instruction { mnemonic: Mnemonic::Lsr, mode: AddressingMode::AbsoluteX, cycles: 7 }),
        0x60 => Some(Instruction { mnemonic: Mnemonic::Rts, mode: AddressingMode::Implied, cycles: 6 }),
        0x61 => Some(Instruction { mnemonic: Mnemonic::Adc, mode: AddressingMode::IndexedIndirect, cycles: 6 }),
        0x65 => Some(Instruction { mnemonic: Mnemonic::Adc, mode: AddressingMode::ZeroPage, cycles: 3 }),
        0x66 => Some(Instruction { mnemonic: Mnemonic::Ror, mode: AddressingMode::ZeroPage, cycles: 5 }),
        0x68 => Some(Instruction { mnemonic: Mnemonic::Pla, mode: AddressingMode::Implied, cycles: 4 }),
        0x69 => Some(Instruction { mnemonic: Mnemonic::Adc, mode: AddressingMode::Immediate, cycles: 2 }),
        0x6A => Some(Instruction { mnemonic: Mnemonic::Ror, mode: AddressingMode::Accumulator, cycles: 2 }),
        0x6C => Some(Instruction { mnemonic: Mnemonic::Jmp, mode: AddressingMode::Indirect, cycles: 5 }),
        0x6D => Some(Instruction { mnemonic: Mnemonic::Adc, mode: AddressingMode::Absolute, cycles: 4 }),
        0x6E => Some(Instruction { mnemonic: Mnemonic::Ror, mode: AddressingMode::Absolute, cycles: 6 }),
        0x70 => Some(Instruction { mnemonic: Mnemonic::Bvs, mode: AddressingMode::Relative, cycles: 2 }),
        0x71 => Some(Instruction { mnemonic: Mnemonic::Adc, mode: AddressingMode::IndirectIndexed, cycles: 5 }),
        0x75 => Some(Instruction { mnemonic: Mnemonic::Adc, mode: AddressingMode::ZeroPageX, cycles: 4 }),
        0x76 => Some(Instruction { mnemonic: Mnemonic::Ror, mode: AddressingMode::ZeroPageX, cycles: 6 }),
        0x78 => Some(Instruction { mnemonic: Mnemonic::Sei, mode: AddressingMode::Implied, cycles: 2 }),
        0x79 => Some(Instruction { mnemonic: Mnemonic::Adc, mode: AddressingMode::AbsoluteY, cycles: 4 }),
        0x7D => Some(Instruction { mnemonic: Mnemonic::Adc, mode: AddressingMode::AbsoluteX, cycles: 4 }),
        0x7E => Some(Instruction { mnemonic: Mnemonic::Ror, mode: AddressingMode::AbsoluteX, cycles: 7 }),
        0x81 => Some(Instruction { mnemonic: Mnemonic::Sta, mode: AddressingMode::IndexedIndirect, cycles: 6 }),
        0x84 => Some(Instruction { mnemonic: Mnemonic::Sty, mode: AddressingMode::ZeroPage, cycles: 3 }),
        0x85 => Some(Instruction { mnemonic: Mnemonic::Sta, mode: AddressingMode::ZeroPage, cycles: 3 }),
        0x86 => Some(Instruction { mnemonic: Mnemonic::Stx, mode: AddressingMode::ZeroPage, cycles: 3 }),
        0x88 => Some(Instruction { mnemonic: Mnemonic::Dey, mode: AddressingMode::Implied, cycles: 2 }),
        0x8A => Some(Instruction { mnemonic: Mnemonic::Txa, mode: AddressingMode::Implied, cycles: 2 }),
        0x8C => Some(Instruction { mnemonic: Mnemonic::Sty, mode: AddressingMode::Absolute, cycles: 4 }),
        0x8D => Some(Instruction { mnemonic: Mnemonic::Sta, mode: AddressingMode::Absolute, cycles: 4 }),
        0x8E => Some(Instruction { mnemonic: Mnemonic::Stx, mode: AddressingMode::Absolute, cycles: 4 }),
        0x90 => Some(Instruction { mnemonic: Mnemonic::Bcc, mode: AddressingMode::Relative, cycles: 2 }),
        0x91 => Some(Instruction { mnemonic: Mnemonic::Sta, mode: AddressingMode::IndirectIndexed, cycles: 6 }),
        0x94 => Some(Instruction { mnemonic: Mnemonic::Sty, mode: AddressingMode::ZeroPageX, cycles: 4 }),
        0x95 => Some(Instruction { mnemonic: Mnemonic::Sta, mode: AddressingMode::ZeroPageX, cycles: 4 }),
        0x96 => Some(Instruction { mnemonic: Mnemonic::Stx, mode: AddressingMode::ZeroPageY, cycles: 4 }),
        0x98 => Some(Instruction { mnemonic: Mnemonic::Tya, mode: AddressingMode::Implied, cycles: 2 }),
        0x99 => Some(Instruction { mnemonic: Mnemonic::Sta, mode: AddressingMode::AbsoluteY, cycles: 5 }),
        0x9A => Some(Instruction { mnemonic: Mnemonic::Txs, mode: AddressingMode::Implied, cycles: 2 }),
        0x9D => Some(Instruction { mnemonic: Mnemonic::Sta, mode: AddressingMode::AbsoluteX, cycles: 5 }),
        0xA0 => Some(Instruction { mnemonic: Mnemonic::Ldy, mode: AddressingMode::Immediate, cycles: 2 }),
        0xA1 => Some(Instruction { mnemonic: Mnemonic::Lda, mode: AddressingMode::IndexedIndirect, cycles: 6 }),
        0xA2 => Some(Instruction { mnemonic: Mnemonic::Ldx, mode: AddressingMode::Immediate, cycles: 2 }),
        0xA4 => Some(Instruction { mnemonic: Mnemonic::Ldy, mode: AddressingMode::ZeroPage, cycles: 3 }),
        0xA5 => Some(Instruction { mnemonic: Mnemonic::Lda, mode: AddressingMode::ZeroPage, cycles: 3 }),
        0xA6 => Some(Instruction { mnemonic: Mnemonic::Ldx, mode: AddressingMode::ZeroPage, cycles: 3 }),
        0xA8 => Some(Instruction { mnemonic: Mnemonic::Tay, mode: AddressingMode::Implied, cycles: 2 }),
        0xA9 => Some(Instruction { mnemonic: Mnemonic::Lda, mode: AddressingMode::Immediate, cycles: 2 }),
        0xAA => Some(Instruction { mnemonic: Mnemonic::Tax, mode: AddressingMode::Implied, cycles: 2 }),
        0xAC => Some(Instruction { mnemonic: Mnemonic::Ldy, mode: AddressingMode::Absolute, cycles: 4 }),
        0xAD => Some(Instruction { mnemonic: Mnemonic::Lda, mode: AddressingMode::Absolute, cycles: 4 }),
        0xAE => Some(Instruction { mnemonic: Mnemonic::Ldx, mode: AddressingMode::Absolute, cycles: 4 }),
        0xB0 => Some(Instruction { mnemonic: Mnemonic::Bcs, mode: AddressingMode::Relative, cycles: 2 }),
        0xB1 => Some(Instruction { mnemonic: Mnemonic::Lda, mode: AddressingMode::IndirectIndexed, cycles: 5 }),
        0xB4 => Some(Instruction { mnemonic: Mnemonic::Ldy, mode: AddressingMode::ZeroPageX, cycles: 4 }),
        0xB5 => Some(Instruction { mnemonic: Mnemonic::Lda, mode: AddressingMode::ZeroPageX, cycles: 4 }),
        0xB6 => Some(Instruction { mnemonic: Mnemonic::Ldx, mode: AddressingMode::ZeroPageY, cycles: 4 }),
        0xB8 => Some(Instruction { mnemonic: Mnemonic::Clv, mode: AddressingMode::Implied, cycles: 2 }),
        0xB9 => Some(Instruction { mnemonic: Mnemonic::Lda, mode: AddressingMode::AbsoluteY, cycles: 4 }),
        0xBA => Some(Instruction { mnemonic: Mnemonic::Tsx, mode: AddressingMode::Implied, cycles: 2 }),
        0xBC => Some(Instruction { mnemonic: Mnemonic::Ldy, mode: AddressingMode::AbsoluteX, cycles: 4 }),
        0xBD => Some(Instruction { mnemonic: Mnemonic::Lda, mode: AddressingMode::AbsoluteX, cycles: 4 }),
        0xBE => Some(Instruction { mnemonic: Mnemonic::Ldx, mode: AddressingMode::AbsoluteY, cycles: 4 }),
        0xC0 => Some(Instruction { mnemonic: Mnemonic::Cpy, mode: AddressingMode::Immediate, cycles: 2 }),
        0xC1 => Some(Instruction { mnemonic: Mnemonic::Cmp, mode: AddressingMode::IndexedIndirect, cycles: 6 }),
        0xC4 => Some(Instruction { mnemonic: Mnemonic::Cpy, mode: AddressingMode::ZeroPage, cycles: 3 }),
        0xC5 => Some(Instruction { mnemonic: Mnemonic::Cmp, mode: AddressingMode::ZeroPage, cycles: 3 }),
        0xC6 => Some(Instruction { mnemonic: Mnemonic::Dec, mode: AddressingMode::ZeroPage, cycles: 5 }),
        0xC8 => Some(Instruction { mnemonic: Mnemonic::Iny, mode: AddressingMode::Implied, cycles: 2 }),
        0xC9 => Some(Instruction { mnemonic: Mnemonic::Cmp, mode: AddressingMode::Immediate, cycles: 2 }),
        0xCA => Some(Instruction { mnemonic: Mnemonic::Dex, mode: AddressingMode::Implied, cycles: 2 }),
        0xCC => Some(Instruction { mnemonic: Mnemonic::Cpy, mode: AddressingMode::Absolute, cycles: 4 }),
        0xCD => Some(Instruction { mnemonic: Mnemonic::Cmp, mode: AddressingMode::Absolute, cycles: 4 }),
        0xCE => Some(Instruction { mnemonic: Mnemonic::Dec, mode: AddressingMode::Absolute, cycles: 6 }),
        0xD0 => Some(Instruction { mnemonic: Mnemonic::Bne, mode: AddressingMode::Relative, cycles: 2 }),
        0xD1 => Some(Instruction { mnemonic: Mnemonic::Cmp, mode: AddressingMode::IndirectIndexed, cycles: 5 }),
        0xD5 => Some(Instruction { mnemonic: Mnemonic::Cmp, mode: AddressingMode::ZeroPageX, cycles: 4 }),
        0xD6 => Some(Instruction { mnemonic: Mnemonic::Dec, mode: AddressingMode::ZeroPageX, cycles: 6 }),
        0xD8 => Some(Instruction { mnemonic: Mnemonic::Cld, mode: AddressingMode::Implied, cycles: 2 }),
        0xD9 => Some(Instruction { mnemonic: Mnemonic::Cmp, mode: AddressingMode::AbsoluteY, cycles: 4 }),
        0xDD => Some(Instruction { mnemonic: Mnemonic::Cmp, mode: AddressingMode::AbsoluteX, cycles: 4 }),
        0xDE => Some(Instruction { mnemonic: Mnemonic::Dec, mode: AddressingMode::AbsoluteX, cycles: 7 }),
        0xE0 => Some(Instruction { mnemonic: Mnemonic::Cpx, mode: AddressingMode::Immediate, cycles: 2 }),
        0xE1 => Some(Instruction { mnemonic: Mnemonic::Sbc, mode: AddressingMode::IndexedIndirect, cycles: 6 }),
        0xE4 => Some(Instruction { mnemonic: Mnemonic::Cpx, mode: AddressingMode::ZeroPage, cycles: 3 }),
        0xE5 => Some(Instruction { mnemonic: Mnemonic::Sbc, mode: AddressingMode::ZeroPage, cycles: 3 }),
        0xE6 => Some(Instruction { mnemonic: Mnemonic::Inc, mode: AddressingMode::ZeroPage, cycles: 5 }),
        0xE8 => Some(Instruction { mnemonic: Mnemonic::Inx, mode: AddressingMode::Implied, cycles: 2 }),
        0xE9 => Some(Instruction { mnemonic: Mnemonic::Sbc, mode: AddressingMode::Immediate, cycles: 2 }),
        0xEA => Some(Instruction { mnemonic: Mnemonic::Nop, mode: AddressingMode::Implied, cycles: 2 }),
        0xEC => Some(Instruction { mnemonic: Mnemonic::Cpx, mode: AddressingMode::Absolute, cycles: 4 }),
        0xED => Some(Instruction { mnemonic: Mnemonic::Sbc, mode: AddressingMode::Absolute, cycles: 4 }),
        0xEE => Some(Instruction { mnemonic: Mnemonic::Inc, mode: AddressingMode::Absolute, cycles: 6 }),
        0xF0 => Some(Instruction { mnemonic: Mnemonic::Beq, mode: AddressingMode::Relative, cycles: 2 }),
        0xF1 => Some(Instruction { mnemonic: Mnemonic::Sbc, mode: AddressingMode::IndirectIndexed, cycles: 5 }),
        0xF5 => Some(Instruction { mnemonic: Mnemonic::Sbc, mode: AddressingMode::ZeroPageX, cycles: 4 }),
        0xF6 => Some(Instruction { mnemonic: Mnemonic::Inc, mode: AddressingMode::ZeroPageX, cycles: 6 }),
        0xF8 => Some(Instruction { mnemonic: Mnemonic::Sed, mode: AddressingMode::Implied, cycles: 2 }),
        0xF9 => Some(Instruction { mnemonic: Mnemonic::Sbc, mode: AddressingMode::AbsoluteY, cycles: 4 }),
        0xFD => Some(Instruction { mnemonic: Mnemonic::Sbc, mode: AddressingMode::AbsoluteX, cycles: 4 }),
        0xFE => Some(Instruction { mnemonic: Mnemonic::Inc, mode: AddressingMode::AbsoluteX, cycles: 7 }),
        _ => None,
    }
}

/// Number of bytes an instruction in this mode occupies, opcode included.
pub fn operand_length(mode: AddressingMode) -> (r: u16)
    ensures
        r == operand_length_spec(mode),
        1 <= r <= 3,
{
    match mode {
        AddressingMode::Implied | AddressingMode::Accumulator => 1,
        AddressingMode::Absolute | AddressingMode::AbsoluteX | AddressingMode::AbsoluteY
        | AddressingMode::Indirect => 3,
        _ => 2,
    }
}

} // verus!
