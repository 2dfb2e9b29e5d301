use nes::cpu::NESCpu;
use nes::mapper::CPUMapper000;
use nes::system::Core;
use nes::{Mirroring, NESHeaderMetadata};

/// A console running `program` from $8000 with the NMI handler at $9000.
fn console(program: &[u8]) -> Core {
    let mut prg = vec![0xEAu8; 32768];
    prg[..program.len()].copy_from_slice(program);
    prg[0x7FFA] = 0x00;
    prg[0x7FFB] = 0x90;
    prg[0x7FFC] = 0x00;
    prg[0x7FFD] = 0x80;
    let mut core = Core::new(0, Mirroring::Horizontal).unwrap();
    core.load_prg(&prg);
    core.load_chr(&vec![0u8; 8192]);
    core.reset();
    core.cpu.sp = 0xFF;
    core
}

fn run_instruction(cpu: &mut NESCpu) {
    while cpu.wait_cycles > 0 {
        cpu.tick().unwrap();
    }
    cpu.tick().unwrap();
}

#[test]
fn oam_dma_copies_a_page() {
    // LDA #$10; STA $2003 (OAMADDR); LDA #$03; STA $4014
    let mut core = console(&[0xA9, 0x10, 0x8D, 0x03, 0x20, 0xA9, 0x03, 0x8D, 0x14, 0x40, 0xA9, 0x77]);
    for i in 0..256u16 {
        core.cpu.memory.write(0x0300 + i, (i as u8).wrapping_mul(3));
    }
    for _ in 0..4 {
        run_instruction(&mut core.cpu);
    }
    assert!(core.cpu.dma_halt);
    let pending = core.cpu.wait_cycles;
    for _ in 0..256 {
        assert!(core.cpu.dma_halt);
        core.cpu.tick().unwrap();
    }
    assert!(!core.cpu.dma_halt);
    assert_eq!(core.cpu.wait_cycles, pending);
    for i in 0..256usize {
        assert_eq!(core.cpu.memory.ppu.poam[(0x10 + i) % 256], (i as u8).wrapping_mul(3));
    }
    // the next instruction runs only now
    assert_ne!(core.cpu.a, 0x77);
    run_instruction(&mut core.cpu);
    assert_eq!(core.cpu.a, 0x77);
}

#[test]
fn frame_timing_through_the_console() {
    let mut core = console(&[0x4C, 0x00, 0x80]);
    let mut frames = 0;
    for _ in 0..(89342 / 3) {
        core.step_tick().unwrap();
        if core.take_frame().is_some() {
            frames += 1;
        }
    }
    assert_eq!(frames, 0);
    assert_eq!(core.cpu.memory.ppu.scanline, 261);
    core.step_tick().unwrap();
    let frame = core.take_frame().unwrap();
    assert_eq!(frame.len(), 256 * 240);
    assert!(core.take_frame().is_none());
}

#[test]
fn nmi_delivery() {
    // Enable NMI, then spin: LDA #$80; STA $2000; JMP $8005
    let mut core = console(&[0xA9, 0x80, 0x8D, 0x00, 0x20, 0x4C, 0x05, 0x80]);
    core.cpu.status.negative = false;
    let mut steps = 0;
    while !core.cpu.do_nmi {
        core.step_tick().unwrap();
        steps += 1;
        assert!(steps < 40000);
    }
    assert!(core.cpu.memory.ppu.vblank);
    let pc = core.cpu.pc;
    let sp = core.cpu.sp;
    core.cpu.tick().unwrap();
    assert!(!core.cpu.do_nmi);
    assert_eq!(core.cpu.pc, 0x9000);
    assert_eq!(core.cpu.memory.observe(0x0100 + sp as u16), (pc >> 8) as u8);
    assert_eq!(core.cpu.memory.observe(0x0100 + sp as u16 - 1), pc as u8);
    assert_eq!(core.cpu.memory.observe(0x0100 + sp as u16 - 2) & 0x30, 0x20);
    assert!(core.cpu.status.interrupt_disable);
    assert_eq!(core.cpu.sp, sp - 3);
    assert_eq!(core.cpu.wait_cycles, 6);
}

#[test]
fn controller_reads_buttons_in_order() {
    let mut core = console(&[]);
    core.set_controller1(0b1010_0101);
    core.cpu.memory.write(0x4016, 1);
    assert_eq!(core.cpu.memory.read(0x4016), 1);
    assert_eq!(core.cpu.memory.read(0x4016), 1);
    core.cpu.memory.write(0x4016, 0);
    let bits: Vec<u8> = (0..8).map(|_| core.cpu.memory.read(0x4016)).collect();
    assert_eq!(bits, vec![1, 0, 1, 0, 0, 1, 0, 1]);
    assert_eq!(core.cpu.memory.observe(0x4016), 0);
}

#[test]
fn internal_ram_is_mirrored() {
    let mut core = console(&[]);
    core.cpu.memory.write(0x0005, 0xAB);
    assert_eq!(core.cpu.memory.read(0x0805), 0xAB);
    assert_eq!(core.cpu.memory.read(0x1005), 0xAB);
    assert_eq!(core.cpu.memory.observe(0x1805), 0xAB);
    core.cpu.memory.write(0x1FFF, 0xCD);
    assert_eq!(core.cpu.memory.read(0x07FF), 0xCD);
}

#[test]
fn prg_ram_write_then_read() {
    let mut core = console(&[]);
    core.cpu.memory.write(0x6000, 0x11);
    core.cpu.memory.write(0x7FFF, 0x22);
    assert_eq!(core.cpu.memory.read(0x6000), 0x11);
    assert_eq!(core.cpu.memory.read(0x7FFF), 0x22);
    // ROM ignores writes
    core.cpu.memory.write(0x8000, 0x33);
    assert_eq!(core.cpu.memory.read(0x8000), 0xEA);
}

#[test]
fn nrom_128_is_mirrored() {
    let mut m = CPUMapper000::new();
    let mut prg = vec![0u8; 16384];
    prg[0] = 0x12;
    prg[0x3FFF] = 0x34;
    m.load_rom(&prg);
    assert_eq!(m.read(0x8000), 0x12);
    assert_eq!(m.read(0xC000), 0x12);
    assert_eq!(m.read(0xFFFF), 0x34);
    assert_eq!(m.read(0x5000), 0);
}

#[test]
fn silent_read_of_ppu_registers_is_zero() {
    let mut core = console(&[]);
    core.cpu.memory.ppu.vblank = true;
    assert_eq!(core.cpu.memory.observe(0x2002), 0);
    assert!(core.cpu.memory.ppu.vblank);
    assert_eq!(core.cpu.memory.read(0x2002) & 0x80, 0x80);
    assert!(!core.cpu.memory.ppu.vblank);
}

#[test]
fn word_reads() {
    let mut core = console(&[]);
    core.cpu.memory.write(0x0010, 0x34);
    core.cpu.memory.write(0x0011, 0x12);
    assert_eq!(core.cpu.memory.observe_16(0x0010), 0x1234);
    assert_eq!(core.cpu.memory.read_16(0x0010), 0x1234);
}

#[test]
fn apu_registers_read_as_zero() {
    let mut core = console(&[]);
    core.cpu.memory.write(0x4000, 0x3F);
    assert_eq!(core.cpu.memory.io_registers[0], 0x3F);
    assert_eq!(core.cpu.memory.read(0x4000), 0);
    assert_eq!(core.cpu.memory.read(0x4018), 0);
}

fn header(flags6: u8, flags7: u8) -> Vec<u8> {
    let mut h = vec![0x4E, 0x45, 0x53, 0x1A, 2, 1, flags6, flags7];
    h.resize(16, 0);
    h
}

#[test]
fn parse_header_fields() {
    let m = NESHeaderMetadata::parse_header(&header(0x01, 0x00)).unwrap();
    assert_eq!(m.prg_rom_size, 32768);
    assert_eq!(m.chr_rom_size, 8192);
    assert_eq!(m.mapper_id, 0);
    assert_eq!(m.hardwired_mirroring, Mirroring::Vertical);
    assert!(!m.has_trainer);

    let m = NESHeaderMetadata::parse_header(&header(0x14, 0x20)).unwrap();
    assert_eq!(m.mapper_id, 0x21);
    assert_eq!(m.hardwired_mirroring, Mirroring::Horizontal);
    assert!(m.has_trainer);

    let m = NESHeaderMetadata::parse_header(&header(0x09, 0x00)).unwrap();
    assert_eq!(m.hardwired_mirroring, Mirroring::FourScreen);
}

#[test]
fn parse_header_rejects_bad_input() {
    let mut h = header(0, 0);
    h[3] = 0x00;
    assert!(NESHeaderMetadata::parse_header(&h).is_err());
    assert!(NESHeaderMetadata::parse_header(&vec![0x4E, 0x45, 0x53, 0x1A]).is_err());
}

#[test]
fn word_read_wraps_at_top_of_memory() {
    let mut core = console(&[]);
    core.cpu.memory.write(0x0000, 0x12);
    // $FFFF holds the high byte of the IRQ vector (NOP fill: $EA)
    assert_eq!(core.cpu.memory.read_16(0xFFFF), 0x12EA);
}
