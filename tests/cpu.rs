use nes::cpu::{NESCpu, StatusRegister};
use nes::debug::disassemble;
use nes::decode::{decode, AddressingMode, Mnemonic};
use nes::system::Core;
use nes::{Mirroring, NesError};

/// A console whose PRG ROM holds `program` at $8000 and whose reset vector
/// points there, after reset, with the stack pointer at $FF.
fn console(program: &[u8]) -> Core {
    let mut prg = vec![0xEAu8; 32768];
    prg[..program.len()].copy_from_slice(program);
    prg[0x7FFC] = 0x00;
    prg[0x7FFD] = 0x80;
    let mut core = Core::new(0, Mirroring::Horizontal).unwrap();
    core.load_prg(&prg);
    core.reset();
    core.cpu.sp = 0xFF;
    core
}

/// Ticks the CPU until the next instruction has been executed.
fn run_instruction(cpu: &mut NESCpu) {
    while cpu.wait_cycles > 0 {
        cpu.tick().unwrap();
    }
    cpu.tick().unwrap();
}

#[test]
fn reset_vector() {
    let mut prg = vec![0u8; 16384];
    let n = prg.len();
    prg[n - 6..].copy_from_slice(&[0xCD, 0xAB, 0x34, 0x12, 0x78, 0x56]);
    let mut core = Core::new(0, Mirroring::Vertical).unwrap();
    core.load_prg(&prg);
    core.reset();
    assert_eq!(core.cpu.pc, 0x1234);
    assert!(core.cpu.status.interrupt_disable);
    assert_eq!(core.cpu.status.bits(false) & 0x20, 0x20);
}

#[test]
fn lda_immediate() {
    let mut core = console(&[0xA9, 0x7F]);
    let start = core.cpu.cycle;
    run_instruction(&mut core.cpu);
    assert_eq!(core.cpu.a, 0x7F);
    assert!(!core.cpu.status.zero);
    assert!(!core.cpu.status.negative);
    assert_eq!(core.cpu.pc, 0x8002);
    assert_eq!(core.cpu.wait_cycles, 1);
    core.cpu.tick().unwrap();
    assert_eq!(core.cpu.cycle - start, 2);
}

#[test]
fn lda_sets_zero_and_negative() {
    let mut core = console(&[0xA9, 0x00, 0xA9, 0x80]);
    run_instruction(&mut core.cpu);
    assert!(core.cpu.status.zero);
    assert!(!core.cpu.status.negative);
    run_instruction(&mut core.cpu);
    assert!(!core.cpu.status.zero);
    assert!(core.cpu.status.negative);
}

#[test]
fn adc_with_overflow() {
    let mut core = console(&[0xA9, 0x50, 0x18, 0x69, 0x50]);
    run_instruction(&mut core.cpu);
    run_instruction(&mut core.cpu);
    run_instruction(&mut core.cpu);
    assert_eq!(core.cpu.a, 0xA0);
    assert!(core.cpu.status.negative);
    assert!(core.cpu.status.overflow);
    assert!(!core.cpu.status.zero);
    assert!(!core.cpu.status.carry);
}

#[test]
fn sec_adc_zero_wraps_to_zero() {
    let mut core = console(&[0xA9, 0xFF, 0x38, 0x69, 0x00]);
    for _ in 0..3 {
        run_instruction(&mut core.cpu);
    }
    assert_eq!(core.cpu.a, 0x00);
    assert!(core.cpu.status.carry);
    assert!(core.cpu.status.zero);
}

#[test]
fn clc_sbc_zero_borrows() {
    let mut core = console(&[0xA9, 0x00, 0x18, 0xE9, 0x00]);
    for _ in 0..3 {
        run_instruction(&mut core.cpu);
    }
    assert_eq!(core.cpu.a, 0xFF);
    assert!(!core.cpu.status.carry);
    assert!(!core.cpu.status.overflow);
    assert!(core.cpu.status.negative);
}

#[test]
fn branch_taken_within_page() {
    // BEQ +4 at $80FE: the next instruction is at $8100, the target at $8104.
    let mut program = vec![0xEAu8; 0x100];
    program[0] = 0x4C; // JMP $80FE
    program[1] = 0xFE;
    program[2] = 0x80;
    program[0xFE] = 0xF0;
    program[0xFF] = 0x04;
    let mut core = console(&program);
    run_instruction(&mut core.cpu);
    assert_eq!(core.cpu.pc, 0x80FE);
    core.cpu.status.zero = true;
    run_instruction(&mut core.cpu);
    assert_eq!(core.cpu.pc, 0x8104);
    assert_eq!(core.cpu.wait_cycles, 2);
}

#[test]
fn branch_taken_across_page() {
    // BEQ +$10 at $80F0: from $80F2 to $8102, another page.
    let mut program = vec![0xEAu8; 0x100];
    program[0] = 0x4C;
    program[1] = 0xF0;
    program[2] = 0x80;
    program[0xF0] = 0xF0;
    program[0xF1] = 0x10;
    let mut core = console(&program);
    run_instruction(&mut core.cpu);
    core.cpu.status.zero = true;
    run_instruction(&mut core.cpu);
    assert_eq!(core.cpu.pc, 0x8102);
    assert_eq!(core.cpu.wait_cycles, 3);
}

#[test]
fn branch_not_taken() {
    let mut core = console(&[0xF0, 0x10]);
    core.cpu.status.zero = false;
    run_instruction(&mut core.cpu);
    assert_eq!(core.cpu.pc, 0x8002);
    assert_eq!(core.cpu.wait_cycles, 1);
}

#[test]
fn branch_backwards() {
    let mut core = console(&[0xEA, 0xEA, 0xD0, 0xFC]);
    core.cpu.status.zero = false;
    run_instruction(&mut core.cpu);
    run_instruction(&mut core.cpu);
    run_instruction(&mut core.cpu);
    assert_eq!(core.cpu.pc, 0x8000);
}

#[test]
fn absolute_y_page_cross_costs_a_cycle() {
    // LDA $80F0,Y with Y = $20 crosses into $81xx; with Y = 1 it does not.
    let mut core = console(&[0xB9, 0xF0, 0x80]);
    core.cpu.y = 0x20;
    run_instruction(&mut core.cpu);
    assert_eq!(core.cpu.wait_cycles, 4);

    let mut core = console(&[0xB9, 0xF0, 0x80]);
    core.cpu.y = 0x01;
    run_instruction(&mut core.cpu);
    assert_eq!(core.cpu.wait_cycles, 3);
}

#[test]
fn indirect_jump_page_bug() {
    // JMP ($02FF): low byte from $02FF, high byte from $0200, not $0300.
    let mut core = console(&[0x6C, 0xFF, 0x02]);
    core.cpu.memory.write(0x02FF, 0x34);
    core.cpu.memory.write(0x0200, 0x12);
    core.cpu.memory.write(0x0300, 0x56);
    run_instruction(&mut core.cpu);
    assert_eq!(core.cpu.pc, 0x1234);
}

#[test]
fn indexed_indirect_wraps_in_zero_page() {
    // LDA ($FF,X) with X = 0: pointer bytes at $FF and $00.
    let mut core = console(&[0xA1, 0xFF]);
    core.cpu.memory.write(0x00FF, 0x00);
    core.cpu.memory.write(0x0000, 0x03);
    core.cpu.memory.write(0x0300, 0x99);
    run_instruction(&mut core.cpu);
    assert_eq!(core.cpu.a, 0x99);
}

#[test]
fn indirect_indexed_adds_y() {
    let mut core = console(&[0xB1, 0x10]);
    core.cpu.memory.write(0x0010, 0xFF);
    core.cpu.memory.write(0x0011, 0x02);
    core.cpu.memory.write(0x0301, 0x42);
    core.cpu.y = 2;
    run_instruction(&mut core.cpu);
    assert_eq!(core.cpu.a, 0x42);
    assert_eq!(core.cpu.wait_cycles, 5);
}

#[test]
fn pha_pla_round_trip() {
    let mut core = console(&[0x48, 0xA9, 0x00, 0x68]);
    core.cpu.a = 0x85;
    run_instruction(&mut core.cpu);
    assert_eq!(core.cpu.sp, 0xFE);
    assert_eq!(core.cpu.memory.observe(0x01FF), 0x85);
    run_instruction(&mut core.cpu);
    assert_eq!(core.cpu.a, 0);
    run_instruction(&mut core.cpu);
    assert_eq!(core.cpu.a, 0x85);
    assert_eq!(core.cpu.sp, 0xFF);
    assert!(core.cpu.status.negative);
    assert!(!core.cpu.status.zero);
}

#[test]
fn php_plp_round_trip() {
    let mut core = console(&[0x08, 0x18, 0xB8, 0x28]);
    core.cpu.status = StatusRegister {
        carry: true,
        zero: false,
        interrupt_disable: true,
        decimal_mode: true,
        overflow: true,
        negative: false,
    };
    let before = core.cpu.status;
    run_instruction(&mut core.cpu);
    let pushed = core.cpu.memory.observe(0x01FF);
    assert_eq!(pushed & 0x30, 0x30);
    run_instruction(&mut core.cpu);
    run_instruction(&mut core.cpu);
    assert!(!core.cpu.status.carry);
    run_instruction(&mut core.cpu);
    assert_eq!(core.cpu.status, before);
    assert_eq!(core.cpu.sp, 0xFF);
}

#[test]
fn plp_drops_break_bits() {
    let mut core = console(&[0x28]);
    core.cpu.memory.write(0x0100, 0xFF);
    run_instruction(&mut core.cpu);
    assert_eq!(core.cpu.sp, 0x00);
    assert_eq!(core.cpu.status.bits(false), 0xEF);
    assert_eq!(core.cpu.status.bits(true), 0xFF);
}

#[test]
fn jsr_rts_round_trip() {
    let mut program = vec![0xEAu8; 0x20];
    program[0] = 0x20; // JSR $8010
    program[1] = 0x10;
    program[2] = 0x80;
    program[0x10] = 0x60; // RTS
    let mut core = console(&program);
    run_instruction(&mut core.cpu);
    assert_eq!(core.cpu.pc, 0x8010);
    assert_eq!(core.cpu.memory.observe(0x01FF), 0x80);
    assert_eq!(core.cpu.memory.observe(0x01FE), 0x02);
    assert_eq!(core.cpu.sp, 0xFD);
    run_instruction(&mut core.cpu);
    assert_eq!(core.cpu.pc, 0x8003);
    assert_eq!(core.cpu.sp, 0xFF);
}

#[test]
fn brk_uses_irq_vector() {
    let mut prg = vec![0xEAu8; 32768];
    prg[0] = 0x00;
    prg[0x7FFC] = 0x00;
    prg[0x7FFD] = 0x80;
    prg[0x7FFE] = 0x00;
    prg[0x7FFF] = 0x90;
    let mut core = Core::new(0, Mirroring::Horizontal).unwrap();
    core.load_prg(&prg);
    core.reset();
    core.cpu.sp = 0xFF;
    core.cpu.status.interrupt_disable = false;
    run_instruction(&mut core.cpu);
    assert_eq!(core.cpu.pc, 0x9000);
    assert_eq!(core.cpu.memory.observe(0x01FF), 0x80);
    assert_eq!(core.cpu.memory.observe(0x01FE), 0x02);
    assert_eq!(core.cpu.memory.observe(0x01FD) & 0x30, 0x30);
    assert!(core.cpu.status.interrupt_disable);
    assert_eq!(core.cpu.sp, 0xFC);
}

#[test]
fn rti_restores_flags_and_pc() {
    let mut core = console(&[0x40]);
    core.cpu.sp = 0xFC;
    core.cpu.memory.write(0x01FD, 0x01);
    core.cpu.memory.write(0x01FE, 0x34);
    core.cpu.memory.write(0x01FF, 0x12);
    run_instruction(&mut core.cpu);
    assert_eq!(core.cpu.pc, 0x1234);
    assert!(core.cpu.status.carry);
    assert!(!core.cpu.status.interrupt_disable);
    assert_eq!(core.cpu.sp, 0xFF);
}

#[test]
fn shifts_and_rotates() {
    // SEC; ROL A (0x80 -> 0x01, C=1); LSR A (0x01 -> 0x00, C=1, Z=1)
    let mut core = console(&[0x38, 0x2A, 0x4A, 0x6A]);
    core.cpu.a = 0x80;
    run_instruction(&mut core.cpu);
    run_instruction(&mut core.cpu);
    assert_eq!(core.cpu.a, 0x01);
    assert!(core.cpu.status.carry);
    run_instruction(&mut core.cpu);
    assert_eq!(core.cpu.a, 0x00);
    assert!(core.cpu.status.carry);
    assert!(core.cpu.status.zero);
    // ROR A with C=1: 0x00 -> 0x80
    run_instruction(&mut core.cpu);
    assert_eq!(core.cpu.a, 0x80);
    assert!(!core.cpu.status.carry);
    assert!(core.cpu.status.negative);
}

#[test]
fn inc_dec_memory_wrap() {
    // INC $10 (0xFF -> 0x00); DEC $11 (0x00 -> 0xFF)
    let mut core = console(&[0xE6, 0x10, 0xC6, 0x11]);
    core.cpu.memory.write(0x0010, 0xFF);
    run_instruction(&mut core.cpu);
    assert_eq!(core.cpu.memory.observe(0x0010), 0x00);
    assert!(core.cpu.status.zero);
    run_instruction(&mut core.cpu);
    assert_eq!(core.cpu.memory.observe(0x0011), 0xFF);
    assert!(core.cpu.status.negative);
}

#[test]
fn compare_sets_carry_zero_negative() {
    // CMP #$10 with A = $10, then CPX #$20 with X = $10
    let mut core = console(&[0xC9, 0x10, 0xE0, 0x20]);
    core.cpu.a = 0x10;
    core.cpu.x = 0x10;
    run_instruction(&mut core.cpu);
    assert!(core.cpu.status.carry && core.cpu.status.zero && !core.cpu.status.negative);
    run_instruction(&mut core.cpu);
    assert!(!core.cpu.status.carry && !core.cpu.status.zero && core.cpu.status.negative);
}

#[test]
fn transfers_and_txs() {
    // TAX; TXS; TSX
    let mut core = console(&[0xAA, 0x9A, 0xBA]);
    core.cpu.a = 0x00;
    core.cpu.status.zero = false;
    run_instruction(&mut core.cpu);
    assert_eq!(core.cpu.x, 0);
    assert!(core.cpu.status.zero);
    core.cpu.x = 0x80;
    core.cpu.status.negative = false;
    run_instruction(&mut core.cpu);
    assert_eq!(core.cpu.sp, 0x80);
    assert!(!core.cpu.status.negative);
    run_instruction(&mut core.cpu);
    assert_eq!(core.cpu.x, 0x80);
    assert!(core.cpu.status.negative);
}

#[test]
fn bit_test() {
    let mut core = console(&[0x24, 0x10]);
    core.cpu.memory.write(0x0010, 0xC0);
    core.cpu.a = 0x01;
    run_instruction(&mut core.cpu);
    assert!(core.cpu.status.zero);
    assert!(core.cpu.status.overflow);
    assert!(core.cpu.status.negative);
}

#[test]
fn unknown_opcode_is_a_decode_error() {
    let mut core = console(&[0x02]);
    let r = core.cpu.tick();
    assert_eq!(r, Err(NesError::DecodeError { pc: 0x8000, opcode: 0x02 }));
}

#[test]
fn push_with_empty_stack_underflows() {
    let mut core = console(&[0x48]);
    core.cpu.sp = 0;
    assert_eq!(core.cpu.tick(), Err(NesError::StackUnderflow));
    assert_eq!(core.cpu.op_stack_push(false), Err(NesError::StackUnderflow));
    core.cpu.sp = 1;
    assert_eq!(core.cpu.op_stack_push(false), Ok(()));
    assert_eq!(core.cpu.sp, 0);
}

#[test]
fn nmi_needs_three_stack_bytes() {
    let mut core = console(&[0xEA]);
    core.cpu.sp = 2;
    assert_eq!(core.cpu.nmi(), Err(NesError::StackUnderflow));
    core.cpu.sp = 3;
    assert_eq!(core.cpu.nmi(), Ok(()));
    assert_eq!(core.cpu.sp, 0);
    assert_eq!(core.cpu.wait_cycles, 6);
}

#[test]
fn unsupported_mapper_is_refused() {
    assert!(matches!(NESCpu::new(1, Mirroring::Horizontal), Err(NesError::UnsupportedMapper)));
    assert!(matches!(Core::new(0, Mirroring::FourScreen), Err(NesError::UnsupportedMapper)));
    assert!(Core::new(0, Mirroring::Vertical).is_ok());
}

#[test]
fn opcode_table() {
    let i = decode(0x6C).unwrap();
    assert_eq!(i.mnemonic, Mnemonic::Jmp);
    assert_eq!(i.mode, AddressingMode::Indirect);
    assert_eq!(i.cycles, 5);
    assert_eq!(decode(0x59).unwrap().cycles, 4);
    assert_eq!(i.mnemonic.name(), "JMP");
    assert!(decode(0xFF).is_none());
    let count = (0..=255u8).filter(|op| decode(*op).is_some()).count();
    assert_eq!(count, 151);
}

#[test]
fn disassemble_reads_operands_silently() {
    let core = console(&[0x6C, 0xFF, 0x02, 0xA9, 0x7F, 0xEA, 0x02]);
    let d = disassemble(0x8000, &core.cpu.memory).unwrap();
    assert_eq!(d.instruction.mnemonic, Mnemonic::Jmp);
    assert_eq!(d.operand, 0x02FF);
    assert_eq!(d.length, 3);
    let d = disassemble(0x8003, &core.cpu.memory).unwrap();
    assert_eq!((d.instruction.mode, d.operand, d.length), (AddressingMode::Immediate, 0x7F, 2));
    let d = disassemble(0x8005, &core.cpu.memory).unwrap();
    assert_eq!((d.operand, d.length), (0, 1));
    assert!(disassemble(0x8006, &core.cpu.memory).is_none());
}

#[test]
fn decode_error_changes_nothing() {
    let mut core = console(&[0x02]);
    core.cpu.a = 0x11;
    let (pc, sp, a, status) = (core.cpu.pc, core.cpu.sp, core.cpu.a, core.cpu.status);
    assert!(core.cpu.tick().is_err());
    assert_eq!((core.cpu.pc, core.cpu.sp, core.cpu.a, core.cpu.status), (pc, sp, a, status));
    assert_eq!(core.cpu.wait_cycles, 0);
}
