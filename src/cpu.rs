use vstd::prelude::*;

use crate::decode::{
    decode, decode_spec, operand_length, operand_length_spec, AddressingMode, Instruction, Mnemonic,
};
use crate::mapper::CPUMapper000;
use crate::mem::{is_ppu_register, CPUMemory, JOY1};
use crate::ppu::NESPpu;
use crate::{Mirroring, NesError};

verus! {

pub const NMI_VECTOR: u16 = 0xFFFA;
pub const RESET_VECTOR: u16 = 0xFFFC;
pub const IRQ_VECTOR: u16 = 0xFFFE;
pub const OAM_DMA: u16 = 0x4014;

/// The processor status flags. The two B bits exist only in pushed copies:
/// B-high is always 1 there, B-low tells a BRK/PHP push from an IRQ/NMI push.
#[derive(Clone, Copy, Debug, PartialEq, Eq, Structural)]
pub struct StatusRegister {
    pub carry: bool,
    pub zero: bool,
    pub interrupt_disable: bool,
    pub decimal_mode: bool,
    pub overflow: bool,
    pub negative: bool,
}

impl StatusRegister {
    /// The status byte as pushed, with the given B-low bit and B-high set.
    pub open spec fn bits_spec(&self, break_low: bool) -> u8 {
        (if self.carry { 0x01u8 } else { 0u8 }) | (if self.zero { 0x02u8 } else { 0u8 }) | (
        if self.interrupt_disable {
            0x04u8
        } else {
            0u8
        }) | (if self.decimal_mode { 0x08u8 } else { 0u8 }) | (if break_low { 0x10u8 } else { 0u8 })
            | 0x20u8 | (if self.overflow { 0x40u8 } else { 0u8 }) | (if self.negative {
            0x80u8
        } else {
            0u8
        })
    }

    /// Flags restored from a byte pulled off the stack; the B bits are dropped.
    pub open spec fn from_bits_spec(b: u8) -> StatusRegister {
        StatusRegister {
            carry: b & 0x01 != 0,
            zero: b & 0x02 != 0,
            interrupt_disable: b & 0x04 != 0,
            decimal_mode: b & 0x08 != 0,
            overflow: b & 0x40 != 0,
            negative: b & 0x80 != 0,
        }
    }

    /// Z and N set from a result: Z when it is zero, N from its bit 7.
    pub open spec fn with_nz(self, v: u8) -> StatusRegister {
        StatusRegister { zero: v == 0, negative: v >= 0x80, ..self }
    }

    pub fn empty() -> (r: Self)
        ensures
            !r.carry && !r.zero && !r.interrupt_disable && !r.decimal_mode && !r.overflow
                && !r.negative,
    {
        StatusRegister {
            carry: false,
            zero: false,
            interrupt_disable: false,
            decimal_mode: false,
            overflow: false,
            negative: false,
        }
    }

    /// The status byte as pushed (see `bits_spec`).
    pub fn bits(&self, break_low: bool) -> (r: u8)
        ensures
            r == self.bits_spec(break_low),
    {
        (if self.carry { 0x01u8 } else { 0u8 }) | (if self.zero { 0x02u8 } else { 0u8 }) | (
        if self.interrupt_disable {
            0x04u8
        } else {
            0u8
        }) | (if self.decimal_mode { 0x08u8 } else { 0u8 }) | (if break_low { 0x10u8 } else { 0u8 })
            | 0x20u8 | (if self.overflow { 0x40u8 } else { 0u8 }) | (if self.negative {
            0x80u8
        } else {
            0u8
        })
    }

    /// The flags in a pulled byte (see `from_bits_spec`).
    pub fn from_bits(b: u8) -> (r: Self)
        ensures
            r == Self::from_bits_spec(b),
    {
        StatusRegister {
            carry: b & 0x01 != 0,
            zero: b & 0x02 != 0,
            interrupt_disable: b & 0x04 != 0,
            decimal_mode: b & 0x08 != 0,
            overflow: b & 0x40 != 0,
            negative: b & 0x80 != 0,
        }
    }

    fn set_nz(&mut self, v: u8)
        ensures
            *final(self) == old(self).with_nz(v),
    {
        self.zero = v == 0;
        self.negative = v >= 0x80;
    }
}

/// A pushed status byte always has B-high set, and B-low says which kind of push it was.
pub proof fn lemma_pushed_break_bits(s: StatusRegister, break_low: bool)
    ensures
        s.bits_spec(break_low) & 0x20 == 0x20,
        (s.bits_spec(break_low) & 0x10 == 0x10) == break_low,
{
    let c = s.carry;
    let z = s.zero;
    let i = s.interrupt_disable;
    let d = s.decimal_mode;
    let v = s.overflow;
    let n = s.negative;
    let b = break_low;
    let x = s.bits_spec(break_low);
    assert(x & 0x20 == 0x20 && ((x & 0x10 == 0x10) == b)) by (bit_vector)
        requires
            x == (if c { 0x01u8 } else { 0u8 }) | (if z { 0x02u8 } else { 0u8 }) | (if i {
                0x04u8
            } else {
                0u8
            }) | (if d { 0x08u8 } else { 0u8 }) | (if b { 0x10u8 } else { 0u8 }) | 0x20u8 | (if v {
                0x40u8
            } else {
                0u8
            }) | (if n { 0x80u8 } else { 0u8 }),
    ;
}

/// Pulling a pushed status byte gives back every flag.
pub proof fn lemma_status_round_trip(s: StatusRegister, break_low: bool)
    ensures
        StatusRegister::from_bits_spec(s.bits_spec(break_low)) == s,
{
    let c = s.carry;
    let z = s.zero;
    let i = s.interrupt_disable;
    let d = s.decimal_mode;
    let v = s.overflow;
    let n = s.negative;
    let b = break_low;
    let x = s.bits_spec(break_low);
    assert((x & 0x01 != 0) == c && (x & 0x02 != 0) == z && (x & 0x04 != 0) == i && (x & 0x08 != 0)
        == d && (x & 0x40 != 0) == v && (x & 0x80 != 0) == n) by (bit_vector)
        requires
            x == (if c { 0x01u8 } else { 0u8 }) | (if z { 0x02u8 } else { 0u8 }) | (if i {
                0x04u8
            } else {
                0u8
            }) | (if d { 0x08u8 } else { 0u8 }) | (if b { 0x10u8 } else { 0u8 }) | 0x20u8 | (if v {
                0x40u8
            } else {
                0u8
            }) | (if n { 0x80u8 } else { 0u8 }),
    ;
}

/// The 6502 core with its bus.
pub struct NESCpu {
    pub status: StatusRegister,
    pub pc: u16,
    pub sp: u8,
    pub a: u8,
    pub x: u8,
    pub y: u8,
    /// Idle cycles left before the next instruction fetch.
    pub wait_cycles: u16,
    /// An OAM DMA is copying a page into sprite memory; the CPU is stalled.
    pub dma_halt: bool,
    /// Next source address of the running DMA.
    pub next_dma_addr: u16,
    pub memory: CPUMemory,
    pub last_legal_instruction: Option<u16>,
    /// NMI line latched by the PPU, taken at the next instruction boundary.
    pub do_nmi: bool,
    /// Ticks since power-on, wrapping.
    pub cycle: u32,
}

/// `a + b` on the 16-bit address bus.
pub open spec fn add16(a: int, b: int) -> u16 {
    ((a + b) % 0x10000) as u16
}

/// Signed value of a branch displacement byte.
pub open spec fn displacement(off: u8) -> int {
    if off < 128 {
        off as int
    } else {
        off as int - 256
    }
}

/// The extra cycle that indexed reads pay when indexing crosses a page.
pub open spec fn page_penalty(mode: AddressingMode, cross: bool) -> u16 {
    if cross && (mode == AddressingMode::AbsoluteX || mode == AddressingMode::AbsoluteY || mode
        == AddressingMode::IndirectIndexed) {
        1
    } else {
        0
    }
}

/// A and P as the ADC/SBC adder leaves them: `operand` is the byte added
/// (already complemented for SBC). Returns (result, carry, overflow).
pub open spec fn adc_spec(a: u8, operand: u8, carry_in: bool) -> (u8, bool, bool) {
    let sum = a as int + operand as int + (if carry_in { 1int } else { 0int });
    let result = (sum % 256) as u8;
    (result, sum > 255, (a < 128) == (operand < 128) && (result < 128) != (a < 128))
}

impl NESCpu {
    pub open spec fn wf(&self) -> bool {
        &&& self.memory.wf()
        &&& self.wait_cycles <= 8
    }

    /// Byte `i` after the opcode, read silently.
    pub open spec fn operand_byte(&self) -> u8 {
        self.memory.peek_spec(add16(self.pc as int, 1))
    }

    /// Word after the opcode, read silently.
    pub open spec fn operand_word(&self) -> u16 {
        self.memory.peek16_spec(add16(self.pc as int, 1))
    }

    /// Target of a relative branch and whether it lies on another page than
    /// the instruction after the branch.
    pub open spec fn relative_spec(&self) -> (u16, bool) {
        let next = add16(self.pc as int, 2);
        let target = add16(next as int, displacement(self.operand_byte()));
        (target, next / 256 != target / 256)
    }

    /// Absolute address plus an index, and whether the index carries out of the low byte.
    pub open spec fn absolute_indexed_spec(&self, index: u8) -> (u16, bool) {
        let w = self.operand_word();
        (add16(w as int, index as int), w % 256 + index as int > 255)
    }

    /// Target of JMP (indirect). The high byte comes from the same page as
    /// the low byte: a pointer at $xxFF takes it from $xx00.
    pub open spec fn indirect_spec(&self) -> (u16, bool) {
        let w = self.operand_word();
        let hi_addr = (w - w % 256 + (w % 256 + 1) % 256) as u16;
        ((self.memory.peek_spec(w) as int + 256 * self.memory.peek_spec(hi_addr) as int) as u16, false)
    }

    /// (zp,X): a pointer in zero page at operand + X, both bytes wrapping in zero page.
    pub open spec fn indexed_indirect_spec(&self) -> (u16, bool) {
        let zp = (self.operand_byte() as int + self.x as int) % 256;
        ((self.memory.peek_spec(zp as u16) as int + 256 * self.memory.peek_spec(((zp + 1) % 256) as u16) as int) as u16,
         false)
    }

    /// (zp),Y: a zero-page pointer plus Y; crossing when Y carries out of the pointer's low byte.
    pub open spec fn indirect_indexed_spec(&self) -> (u16, bool) {
        let b = self.operand_byte();
        let lo = self.memory.peek_spec(b as u16);
        let hi = self.memory.peek_spec(((b as int + 1) % 256) as u16);
        (add16(lo as int + 256 * hi as int, self.y as int), lo as int + self.y as int > 255)
    }

    /// Effective address and page-cross flag of the current instruction's
    /// operand. Operand bytes are read without side effects.
    #[verifier::opaque]
    pub open spec fn address_spec(&self, mode: AddressingMode) -> (u16, bool) {
        match mode {
            AddressingMode::Immediate => (add16(self.pc as int, 1), false),
            AddressingMode::ZeroPage => (self.operand_byte() as u16, false),
            AddressingMode::ZeroPageX => (((self.operand_byte() as int + self.x as int) % 256) as u16, false),
            AddressingMode::ZeroPageY => (((self.operand_byte() as int + self.y as int) % 256) as u16, false),
            AddressingMode::Relative => self.relative_spec(),
            AddressingMode::Absolute => (self.operand_word(), false),
            AddressingMode::AbsoluteX => self.absolute_indexed_spec(self.x),
            AddressingMode::AbsoluteY => self.absolute_indexed_spec(self.y),
            AddressingMode::Indirect => self.indirect_spec(),
            AddressingMode::IndexedIndirect => self.indexed_indirect_spec(),
            AddressingMode::IndirectIndexed => self.indirect_indexed_spec(),
            _ => (0, false),
        }
    }

    /// The PPU's position and frame flag are unchanged: CPU work never moves the PPU's clock.
    pub open spec fn same_ppu_timing(&self, n: NESCpu) -> bool {
        &&& n.memory.ppu.scanline == self.memory.ppu.scanline
        &&& n.memory.ppu.dot == self.memory.ppu.dot
        &&& n.memory.ppu.frame_ready == self.memory.ppu.frame_ready
    }

    /// Registers, flags and control state other than the bus are unchanged.
    pub open spec fn same_registers(&self, n: NESCpu) -> bool {
        &&& n.status == self.status
        &&& n.pc == self.pc
        &&& n.sp == self.sp
        &&& n.a == self.a
        &&& n.x == self.x
        &&& n.y == self.y
        &&& n.wait_cycles == self.wait_cycles
        &&& n.dma_halt == self.dma_halt
        &&& n.next_dma_addr == self.next_dma_addr
        &&& n.last_legal_instruction == self.last_legal_instruction
        &&& n.do_nmi == self.do_nmi
        &&& n.cycle == self.cycle
    }

    /// Stack byte at `0x0100 + sp`.
    pub open spec fn stack_byte(&self, sp: u8) -> u8 {
        self.memory.internal_ram@[0x100 + sp as int]
    }

    /// A CPU on an NROM cartridge with the given mirroring; other mappers,
    /// and four-screen mirroring, are refused.
    pub fn new(mapper_id: usize, mirroring: Mirroring) -> (r: Result<Self, NesError>)
        ensures
            r is Err <==> (mapper_id != 0 || mirroring == Mirroring::FourScreen),
            r is Err ==> r == Err::<Self, NesError>(NesError::UnsupportedMapper),
            r matches Ok(c) ==> {
                &&& c.wf()
                &&& c.pc == 0 && c.sp == 0 && c.a == 0 && c.x == 0 && c.y == 0
                &&& c.wait_cycles == 0 && !c.dma_halt && !c.do_nmi && c.cycle == 0
                &&& c.status == StatusRegister::empty_spec()
                &&& c.memory.ppu.is_power_on()
                &&& c.memory.ppu.mapper.mirroring == mirroring
                &&& c.memory.joy1_in == 0 && c.memory.joy1_shift == 0 && !c.memory.joy_freeze
                &&& forall|i: int| 0 <= i < 2048 ==> c.memory.internal_ram@[i] == 0
                &&& c.memory.mapper.prg_rom@.len() == 0
            },
    {
        let ppu = match NESPpu::new(mapper_id, mirroring) {
            Ok(p) => p,
            Err(e) => {
                return Err(e);
            },
        };
        let memory = CPUMemory::new(CPUMapper000::new(), ppu);
        Ok(NESCpu {
            status: StatusRegister::empty(),
            pc: 0,
            sp: 0,
            a: 0,
            x: 0,
            y: 0,
            wait_cycles: 0,
            dma_halt: false,
            next_dma_addr: 0,
            memory,
            last_legal_instruction: None,
            do_nmi: false,
            cycle: 0,
        })
    }

    /// The reset signal: interrupts off, PC from the reset vector.
    pub fn reset(&mut self)
        requires
            old(self).wf(),
        ensures
            final(self).wf(),
            final(self).pc == old(self).memory.peek16_spec(RESET_VECTOR),
            final(self).status == (StatusRegister { interrupt_disable: true, ..old(self).status }),
            final(self).memory == old(self).memory,
            final(self).sp == old(self).sp && final(self).a == old(self).a,
            final(self).x == old(self).x && final(self).y == old(self).y,
            final(self).wait_cycles == old(self).wait_cycles,
    {
        self.status.interrupt_disable = true;
        self.pc = self.memory.observe_16(RESET_VECTOR);
    }

    /// Effective address and page cross of the current instruction's operand
    /// (see `address_spec`).
    fn resolve_address(&self, mode: AddressingMode) -> (r: (u16, bool))
        requires
            self.wf(),
        ensures
            r == self.address_spec(mode),
    {
        reveal(NESCpu::address_spec);
        let pc1: u16 = self.pc.wrapping_add(1);
        match mode {
            AddressingMode::Immediate => (pc1, false),
            AddressingMode::ZeroPage => (self.memory.observe(pc1) as u16, false),
            AddressingMode::ZeroPageX => ((self.memory.observe(pc1) as u16 + self.x as u16) % 256, false),
            AddressingMode::ZeroPageY => ((self.memory.observe(pc1) as u16 + self.y as u16) % 256, false),
            AddressingMode::Relative => self.resolve_relative(),
            AddressingMode::Absolute => (self.memory.observe_16(pc1), false),
            AddressingMode::AbsoluteX => self.resolve_absolute_indexed(self.x),
            AddressingMode::AbsoluteY => self.resolve_absolute_indexed(self.y),
            AddressingMode::Indirect => self.resolve_indirect(),
            AddressingMode::IndexedIndirect => self.resolve_indexed_indirect(),
            AddressingMode::IndirectIndexed => self.resolve_indirect_indexed(),
            _ => (0, false),
        }
    }

    #[verifier::rlimit(40)]
    fn resolve_relative(&self) -> (r: (u16, bool))
        requires
            self.wf(),
        ensures
            r == self.relative_spec(),
    {
        let off: u8 = self.memory.observe(self.pc.wrapping_add(1));
        let next: u16 = self.pc.wrapping_add(2);
        let target: u16 = if off < 128 {
            next.wrapping_add(off as u16)
        } else {
            next.wrapping_sub(256 - off as u16)
        };
        (target, next / 256 != target / 256)
    }

    #[verifier::rlimit(40)]
    fn resolve_absolute_indexed(&self, index: u8) -> (r: (u16, bool))
        requires
            self.wf(),
        ensures
            r == self.absolute_indexed_spec(index),
    {
        let w: u16 = self.memory.observe_16(self.pc.wrapping_add(1));
        (w.wrapping_add(index as u16), w % 256 + index as u16 > 255)
    }

    fn resolve_indirect(&self) -> (r: (u16, bool))
        requires
            self.wf(),
        ensures
            r == self.indirect_spec(),
    {
        let w: u16 = self.memory.observe_16(self.pc.wrapping_add(1));
        let hi_addr: u16 = w - w % 256 + (w % 256 + 1) % 256;
        let lo: u8 = self.memory.observe(w);
        let hi: u8 = self.memory.observe(hi_addr);
        (lo as u16 + 256 * hi as u16, false)
    }

    fn resolve_indexed_indirect(&self) -> (r: (u16, bool))
        requires
            self.wf(),
        ensures
            r == self.indexed_indirect_spec(),
    {
        let zp: u16 = (self.memory.observe(self.pc.wrapping_add(1)) as u16 + self.x as u16) % 256;
        let lo: u8 = self.memory.observe(zp);
        let hi: u8 = self.memory.observe((zp + 1) % 256);
        (lo as u16 + 256 * hi as u16, false)
    }

    #[verifier::rlimit(40)]
    fn resolve_indirect_indexed(&self) -> (r: (u16, bool))
        requires
            self.wf(),
        ensures
            r == self.indirect_indexed_spec(),
    {
        let b: u8 = self.memory.observe(self.pc.wrapping_add(1));
        let lo: u8 = self.memory.observe(b as u16);
        let hi: u8 = self.memory.observe((b as u16 + 1) % 256);
        let base: u16 = lo as u16 + 256 * hi as u16;
        let target: u16 = base.wrapping_add(self.y as u16);
        assert(target == add16(lo as int + 256 * hi as int, self.y as int));
        (target, lo as u16 + self.y as u16 > 255)
    }
}

/// The three two-operand logic instructions.
#[derive(Clone, Copy, Debug, PartialEq, Eq, Structural)]
pub enum BitwiseOp {
    And,
    Eor,
    Ora,
}

pub open spec fn bitwise_spec(op: BitwiseOp, a: u8, m: u8) -> u8 {
    match op {
        BitwiseOp::And => a & m,
        BitwiseOp::Eor => a ^ m,
        BitwiseOp::Ora => a | m,
    }
}

/// Result and carry of a shift or rotate of `data`: left or right, and
/// arithmetic (ASL/LSR: a zero comes in) or rotating (ROL/ROR: the carry comes in).
pub open spec fn rotate_spec(data: u8, left: bool, arith: bool, carry: bool) -> (u8, bool) {
    let c: int = if carry && !arith { 1 } else { 0 };
    if left {
        (((data as int * 2) % 256 + c) as u8, data >= 128)
    } else {
        ((data as int / 2 + 128 * c) as u8, data % 2 == 1)
    }
}

/// Stack push of `v`: the byte lands at $0100 + SP and SP moves down;
/// nothing else changes.
pub open spec fn push_post(o: NESCpu, n: NESCpu, v: u8) -> bool {
    &&& n.memory.internal_ram@ == o.memory.internal_ram@.update(0x100 + o.sp as int, v)
    &&& n.memory.ppu == o.memory.ppu
    &&& n.memory.mapper == o.memory.mapper
    &&& n.memory.io_registers == o.memory.io_registers
    &&& n.memory.joy1_in == o.memory.joy1_in
    &&& n.memory.joy1_shift == o.memory.joy1_shift
    &&& n.memory.joy_freeze == o.memory.joy_freeze
    &&& n.sp == o.sp - 1
    &&& n.status == o.status
    &&& n.pc == o.pc
    &&& n.a == o.a
    &&& n.x == o.x
    &&& n.y == o.y
    &&& n.wait_cycles == o.wait_cycles
    &&& n.dma_halt == o.dma_halt
    &&& n.do_nmi == o.do_nmi
}

/// Stack pull: SP moves up (wrapping) and `r` is the byte at $0100 + SP;
/// nothing else changes.
pub open spec fn pull_post(o: NESCpu, n: NESCpu, r: u8) -> bool {
    &&& n.sp == (o.sp + 1) % 256
    &&& r == o.stack_byte(n.sp)
    &&& n.memory == o.memory
    &&& n.status == o.status
    &&& n.pc == o.pc
    &&& n.a == o.a
    &&& n.x == o.x
    &&& n.y == o.y
    &&& n.wait_cycles == o.wait_cycles
    &&& n.dma_halt == o.dma_halt
    &&& n.do_nmi == o.do_nmi
}

/// Entry into an interrupt handler: the return address (high byte, then low)
/// and the status byte are pushed, interrupts are disabled, and PC comes from
/// `vector`.
pub open spec fn interrupt_post(o: NESCpu, n: NESCpu, ret: u16, p: u8, vector: u16) -> bool {
    &&& n.memory.internal_ram@ == o.memory.internal_ram@.update(0x100 + o.sp as int, (ret / 256) as u8).update(
        0x100 + o.sp as int - 1,
        (ret % 256) as u8,
    ).update(0x100 + o.sp as int - 2, p)
    &&& n.memory.ppu == o.memory.ppu
    &&& n.memory.mapper == o.memory.mapper
    &&& n.sp == o.sp - 3
    &&& n.status == (StatusRegister { interrupt_disable: true, ..o.status })
    &&& n.pc == o.memory.peek16_spec(vector)
    &&& n.a == o.a
    &&& n.x == o.x
    &&& n.y == o.y
}

/// Branch timing: a branch not taken costs nothing extra, a taken one costs
/// one cycle, and one more when the target is on another page.
pub open spec fn branch_penalty(taken: bool, cross: bool) -> u16 {
    if !taken {
        0
    } else if cross {
        2
    } else {
        1
    }
}

impl NESCpu {
    /// An active bus read.
    fn bus_read(&mut self, addr: u16) -> (r: u8)
        requires
            old(self).wf(),
        ensures
            final(self).wf(),
            r == old(self).memory.read_result(addr),
            old(self).memory.read_post(final(self).memory, addr),
            old(self).same_registers(*final(self)),
    {
        self.memory.read(addr)
    }

    /// A bus write; a write to $4014 also starts an OAM DMA from page `data`.
    fn bus_write(&mut self, addr: u16, data: u8)
        requires
            old(self).wf(),
        ensures
            final(self).wf(),
            old(self).memory.write_post(final(self).memory, addr, data),
            addr == OAM_DMA ==> final(self).dma_halt && final(self).next_dma_addr == data as u16 * 256,
            addr != OAM_DMA ==> final(self).dma_halt == old(self).dma_halt
                && final(self).next_dma_addr == old(self).next_dma_addr,
            final(self).status == old(self).status,
            final(self).pc == old(self).pc,
            final(self).sp == old(self).sp,
            final(self).a == old(self).a,
            final(self).x == old(self).x,
            final(self).y == old(self).y,
            final(self).wait_cycles == old(self).wait_cycles,
            final(self).do_nmi == old(self).do_nmi,
            final(self).cycle == old(self).cycle,
            final(self).last_legal_instruction == old(self).last_legal_instruction,
    {
        self.memory.write(addr, data);
        if addr == OAM_DMA {
            self.dma_halt = true;
            self.next_dma_addr = data as u16 * 256;
        }
    }

    /// LDA, LDX, LDY: returns the operand; Z and N follow it.
    fn op_load(&mut self, mode: AddressingMode) -> (r: u8)
        requires
            old(self).wf(),
            old(self).wait_cycles <= 5,
        ensures
            final(self).wf(),
            ({
                let (ea, cross) = old(self).address_spec(mode);
                &&& r == old(self).memory.read_result(ea)
                &&& old(self).memory.read_post(final(self).memory, ea)
                &&& final(self).wait_cycles == old(self).wait_cycles + page_penalty(mode, cross)
            }),
            final(self).status == old(self).status.with_nz(r),
            (NESCpu { status: old(self).status, wait_cycles: old(self).wait_cycles, memory: old(self).memory, ..*final(self) }) == *old(self),
    {
        let (addr, cross) = self.resolve_address(mode);
        let data: u8 = self.bus_read(addr);
        self.status.set_nz(data);
        if cross && (matches!(mode, AddressingMode::AbsoluteX) || matches!(mode, AddressingMode::AbsoluteY) || matches!(mode, AddressingMode::IndirectIndexed)) {
            self.wait_cycles = self.wait_cycles + 1;
        }
        data
    }

    /// AND, EOR, ORA: returns A combined with the operand; Z and N follow it.
    fn op_bitwise(&mut self, mode: AddressingMode, op: BitwiseOp) -> (r: u8)
        requires
            old(self).wf(),
            old(self).wait_cycles <= 5,
        ensures
            final(self).wf(),
            ({
                let (ea, cross) = old(self).address_spec(mode);
                &&& r == bitwise_spec(op, old(self).a, old(self).memory.read_result(ea))
                &&& old(self).memory.read_post(final(self).memory, ea)
                &&& final(self).wait_cycles == old(self).wait_cycles + page_penalty(mode, cross)
            }),
            final(self).status == old(self).status.with_nz(r),
            (NESCpu { status: old(self).status, wait_cycles: old(self).wait_cycles, memory: old(self).memory, ..*final(self) }) == *old(self),
    {
        let (addr, cross) = self.resolve_address(mode);
        let data: u8 = self.bus_read(addr);
        let result: u8 = match op {
            BitwiseOp::And => self.a & data,
            BitwiseOp::Eor => self.a ^ data,
            BitwiseOp::Ora => self.a | data,
        };
        self.status.set_nz(result);
        if cross && (matches!(mode, AddressingMode::AbsoluteX) || matches!(mode, AddressingMode::AbsoluteY) || matches!(mode, AddressingMode::IndirectIndexed)) {
            self.wait_cycles = self.wait_cycles + 1;
        }
        result
    }

    /// ADC (and SBC, which adds the one's complement of the operand): returns
    /// the sum; C, V, Z and N as the 6502 adder sets them.
    #[verifier::rlimit(80)]
    fn op_arithmetic(&mut self, mode: AddressingMode, add: bool) -> (r: u8)
        requires
            old(self).wf(),
            old(self).wait_cycles <= 5,
        ensures
            final(self).wf(),
            ({
                let (ea, cross) = old(self).address_spec(mode);
                let m = old(self).memory.read_result(ea);
                let operand = if add { m } else { (255 - m) as u8 };
                let (sum, carry, overflow) = adc_spec(old(self).a, operand, old(self).status.carry);
                &&& r == sum
                &&& final(self).status == (StatusRegister { carry: carry, overflow: overflow, ..old(self).status.with_nz(sum) })
                &&& old(self).memory.read_post(final(self).memory, ea)
                &&& final(self).wait_cycles == old(self).wait_cycles + page_penalty(mode, cross)
            }),
            (NESCpu { status: old(self).status, wait_cycles: old(self).wait_cycles, memory: old(self).memory, ..*final(self) }) == *old(self),
    {
        let (addr, cross) = self.resolve_address(mode);
        let m: u8 = self.bus_read(addr);
        let operand: u8 = if add { m } else { 255 - m };
        let sum: u16 = self.a as u16 + operand as u16 + if self.status.carry { 1 } else { 0 };
        let result: u8 = (sum % 256) as u8;
        self.status.set_nz(result);
        self.status.carry = sum > 255;
        self.status.overflow = (self.a < 128) == (operand < 128) && (result < 128) != (self.a < 128);
        if cross && (matches!(mode, AddressingMode::AbsoluteX) || matches!(mode, AddressingMode::AbsoluteY) || matches!(mode, AddressingMode::IndirectIndexed)) {
            self.wait_cycles = self.wait_cycles + 1;
        }
        result
    }

    /// CMP, CPX, CPY: C when `lhs` >= operand, Z when equal, N from bit 7 of the difference.
    fn op_compare(&mut self, lhs: u8, mode: AddressingMode)
        requires
            old(self).wf(),
            old(self).wait_cycles <= 5,
        ensures
            final(self).wf(),
            ({
                let (ea, cross) = old(self).address_spec(mode);
                let m = old(self).memory.read_result(ea);
                &&& final(self).status == (StatusRegister {
                    carry: lhs >= m,
                    zero: lhs == m,
                    negative: (lhs as int - m as int + 256) % 256 >= 128,
                    ..old(self).status
                })
                &&& old(self).memory.read_post(final(self).memory, ea)
                &&& final(self).wait_cycles == old(self).wait_cycles + page_penalty(mode, cross)
            }),
            (NESCpu { status: old(self).status, wait_cycles: old(self).wait_cycles, memory: old(self).memory, ..*final(self) }) == *old(self),
    {
        let (addr, cross) = self.resolve_address(mode);
        let rhs: u8 = self.bus_read(addr);
        self.status.carry = lhs >= rhs;
        self.status.zero = lhs == rhs;
        self.status.negative = lhs.wrapping_sub(rhs) >= 128;
        if cross && (matches!(mode, AddressingMode::AbsoluteX) || matches!(mode, AddressingMode::AbsoluteY) || matches!(mode, AddressingMode::IndirectIndexed)) {
            self.wait_cycles = self.wait_cycles + 1;
        }
    }

    /// BIT: Z from A AND operand, V and N from bits 6 and 7 of the operand.
    fn op_bit(&mut self, mode: AddressingMode)
        requires
            old(self).wf(),
        ensures
            final(self).wf(),
            ({
                let (ea, _cross) = old(self).address_spec(mode);
                let m = old(self).memory.read_result(ea);
                &&& final(self).status == (StatusRegister {
                    zero: old(self).a & m == 0,
                    overflow: m & 0x40 != 0,
                    negative: m >= 128,
                    ..old(self).status
                })
                &&& old(self).memory.read_post(final(self).memory, ea)
            }),
            (NESCpu { status: old(self).status, memory: old(self).memory, ..*final(self) }) == *old(self),
    {
        let (addr, _cross) = self.resolve_address(mode);
        let data: u8 = self.bus_read(addr);
        self.status.zero = self.a & data == 0;
        self.status.overflow = data & 0x40 != 0;
        self.status.negative = data >= 128;
    }

    /// INC, DEC: read the operand, write it back plus or minus one (wrapping); Z and N follow.
    #[verifier::rlimit(80)]
    fn op_incdec_addr(&mut self, inc: bool, mode: AddressingMode)
        requires
            old(self).wf(),
        ensures
            old(self).same_ppu_timing(*final(self)),
            final(self).wf(),
            ({
                let (ea, _cross) = old(self).address_spec(mode);
                let m = old(self).memory.read_result(ea);
                let v = (if inc { (m as int + 1) % 256 } else { (m as int + 255) % 256 }) as u8;
                &&& final(self).status == old(self).status.with_nz(v)
                &&& exists|mid: CPUMemory| #[trigger] old(self).memory.read_post(mid, ea) && mid.write_post(final(self).memory, ea, v)
            }),
            final(self).pc == old(self).pc && final(self).sp == old(self).sp,
            final(self).a == old(self).a && final(self).x == old(self).x && final(self).y == old(self).y,
            final(self).wait_cycles == old(self).wait_cycles,
            final(self).do_nmi == old(self).do_nmi,
    {
        let (addr, _cross) = self.resolve_address(mode);
        let data: u8 = self.bus_read(addr);
        let ghost mid = self.memory;
        let result: u8 = if inc { data.wrapping_add(1) } else { data.wrapping_sub(1) };
        self.bus_write(addr, result);
        self.status.set_nz(result);
        assert(old(self).memory.read_post(mid, addr) && mid.write_post(self.memory, addr, result));
    }

    /// INX, INY, DEX, DEY: `data` plus or minus one (wrapping); Z and N follow.
    fn op_incdec(&mut self, data: u8, inc: bool) -> (r: u8)
        ensures
            r == (if inc { (data as int + 1) % 256 } else { (data as int + 255) % 256 }) as u8,
            final(self).status == old(self).status.with_nz(r),
            (NESCpu { status: old(self).status, ..*final(self) }) == *old(self),
    {
        let result: u8 = if inc { data.wrapping_add(1) } else { data.wrapping_sub(1) };
        self.status.set_nz(result);
        result
    }

    /// ASL, LSR, ROL, ROR on A or on memory; C takes the bit shifted out, Z and N follow the result.
    #[verifier::rlimit(80)]
    fn op_rotate(&mut self, mode: AddressingMode, left: bool, arith: bool)
        requires
            old(self).wf(),
        ensures
            old(self).same_ppu_timing(*final(self)),
            final(self).wf(),
            mode == AddressingMode::Accumulator ==> ({
                let (v, c) = rotate_spec(old(self).a, left, arith, old(self).status.carry);
                &&& final(self).a == v
                &&& final(self).status == (StatusRegister { carry: c, ..old(self).status.with_nz(v) })
                &&& final(self).memory == old(self).memory
            }),
            mode != AddressingMode::Accumulator ==> ({
                let (ea, _cross) = old(self).address_spec(mode);
                let m = old(self).memory.read_result(ea);
                let (v, c) = rotate_spec(m, left, arith, old(self).status.carry);
                &&& final(self).a == old(self).a
                &&& final(self).status == (StatusRegister { carry: c, ..old(self).status.with_nz(v) })
                &&& exists|mid: CPUMemory| #[trigger] old(self).memory.read_post(mid, ea) && mid.write_post(final(self).memory, ea, v)
            }),
            final(self).pc == old(self).pc && final(self).sp == old(self).sp,
            final(self).x == old(self).x && final(self).y == old(self).y,
            final(self).wait_cycles == old(self).wait_cycles,
            final(self).do_nmi == old(self).do_nmi,
    {
        let accumulator: bool = matches!(mode, AddressingMode::Accumulator);
        let mut addr: u16 = 0;
        let data: u8 = if accumulator {
            self.a
        } else {
            let (ea, _cross) = self.resolve_address(mode);
            addr = ea;
            self.bus_read(ea)
        };
        let ghost mid = self.memory;
        let carry_in: u8 = if self.status.carry && !arith { 1 } else { 0 };
        let (result, carry_out): (u8, bool) = if left {
            ((((data as u16 * 2) % 256) as u8) + carry_in, data >= 128)
        } else {
            (data / 2 + 128 * carry_in, data % 2 == 1)
        };
        self.status.carry = carry_out;
        self.status.set_nz(result);
        if accumulator {
            self.a = result;
        } else {
            self.bus_write(addr, result);
            assert(old(self).memory.read_post(mid, addr) && mid.write_post(self.memory, addr, result));
        }
    }

    /// TAX, TAY, TSX, TXA, TYA, TXS: returns `from`; Z and N follow it except for TXS.
    fn op_transfer_a(&mut self, from: u8, txs: bool) -> (r: u8)
        ensures
            r == from,
            !txs ==> final(self).status == old(self).status.with_nz(from),
            txs ==> final(self).status == old(self).status,
            (NESCpu { status: old(self).status, ..*final(self) }) == *old(self),
    {
        if !txs {
            self.status.set_nz(from);
        }
        from
    }

    /// Conditional branch on a flag: taken when the flag equals `set`.
    fn op_branch(&mut self, flag: bool, set: bool)
        requires
            old(self).wf(),
            old(self).wait_cycles <= 6,
        ensures
            final(self).wf(),
            ({
                let (target, cross) = old(self).relative_spec();
                let taken = flag == set;
                &&& final(self).pc == (if taken { target } else { add16(old(self).pc as int, 2) })
                &&& final(self).wait_cycles == old(self).wait_cycles + branch_penalty(taken, cross)
            }),
            (NESCpu { pc: old(self).pc, wait_cycles: old(self).wait_cycles, ..*final(self) }) == *old(self),
    {
        let (target, cross) = self.resolve_relative();
        if flag == set {
            self.wait_cycles = self.wait_cycles + if cross { 2 } else { 1 };
            self.pc = target;
        } else {
            self.pc = self.pc.wrapping_add(2);
        }
    }

    /// JMP: PC takes the effective address.
    fn op_jump(&mut self, mode: AddressingMode)
        requires
            old(self).wf(),
        ensures
            final(self).wf(),
            final(self).pc == old(self).address_spec(mode).0,
            (NESCpu { pc: old(self).pc, ..*final(self) }) == *old(self),
    {
        let (addr, _cross) = self.resolve_address(mode);
        self.pc = addr;
    }

    /// PHA (`status` false) or PHP (`status` true, pushed with both B bits set).
    /// Fails without a change when SP is already 0.
    pub fn op_stack_push(&mut self, status: bool) -> (r: Result<(), NesError>)
        requires
            old(self).wf(),
        ensures
            final(self).wf(),
            r is Err <==> old(self).sp == 0,
            r is Err ==> r == Err::<(), NesError>(NesError::StackUnderflow) && *final(self) == *old(self),
            r is Ok ==> push_post(*old(self), *final(self), if status {
                old(self).status.bits_spec(true)
            } else {
                old(self).a
            }),
            r is Ok ==> final(self).cycle == old(self).cycle,
    {
        if self.sp == 0 {
            return Err(NesError::StackUnderflow);
        }
        let v: u8 = if status { self.status.bits(true) } else { self.a };
        self.bus_write(0x0100 + self.sp as u16, v);
        self.sp = self.sp - 1;
        Ok(())
    }

    /// Pops one byte (SP wraps past $FF).
    fn op_stack_pull(&mut self) -> (r: u8)
        requires
            old(self).wf(),
        ensures
            final(self).wf(),
            pull_post(*old(self), *final(self), r),
            final(self).cycle == old(self).cycle,
    {
        self.sp = self.sp.wrapping_add(1);
        self.memory.internal_ram[0x100 + self.sp as usize]
    }

    /// Pushes three bytes for an interrupt: return address high, low, then `p`.
    /// Needs SP >= 3.
    fn push_interrupt_frame(&mut self, ret: u16, p: u8)
        requires
            old(self).wf(),
            old(self).sp >= 3,
        ensures
            final(self).wf(),
            final(self).memory.internal_ram@ == old(self).memory.internal_ram@.update(
                0x100 + old(self).sp as int,
                (ret / 256) as u8,
            ).update(0x100 + old(self).sp as int - 1, (ret % 256) as u8).update(0x100 + old(self).sp as int - 2, p),
            final(self).memory.ppu == old(self).memory.ppu,
            final(self).memory.mapper == old(self).memory.mapper,
            final(self).sp == old(self).sp - 3,
            (NESCpu { sp: old(self).sp, memory: old(self).memory, ..*final(self) }) == *old(self),
    {
        let s: u16 = 0x0100 + self.sp as u16;
        self.memory.write(s, (ret / 256) as u8);
        self.memory.write(s - 1, (ret % 256) as u8);
        self.memory.write(s - 2, p);
        self.sp = self.sp - 3;
    }

    /// Non-maskable interrupt entry: pushes PC and P (B-low clear), sets I,
    /// jumps through $FFFA, and charges seven cycles. Fails without a change
    /// when fewer than three stack bytes are left.
    pub fn nmi(&mut self) -> (r: Result<(), NesError>)
        requires
            old(self).wf(),
        ensures
            old(self).same_ppu_timing(*final(self)),
            final(self).wf(),
            r is Err <==> old(self).sp < 3,
            r is Err ==> r == Err::<(), NesError>(NesError::StackUnderflow) && *final(self) == *old(self),
            r is Ok ==> interrupt_post(*old(self), *final(self), old(self).pc, old(self).status.bits_spec(false), NMI_VECTOR),
            r is Ok ==> final(self).wait_cycles == 6,
            final(self).dma_halt == old(self).dma_halt,
            final(self).do_nmi == old(self).do_nmi,
            final(self).cycle == old(self).cycle,
    {
        if self.sp < 3 {
            return Err(NesError::StackUnderflow);
        }
        let p: u8 = self.status.bits(false);
        let ret: u16 = self.pc;
        self.push_interrupt_frame(ret, p);
        self.status.interrupt_disable = true;
        self.pc = self.memory.observe_16(NMI_VECTOR);
        self.wait_cycles = 6;
        Ok(())
    }

    /// BRK: pushes the address two past the opcode (skipping the signature
    /// byte) and P with B-low set, sets I, and jumps through $FFFE.
    fn op_brk(&mut self) -> (r: Result<(), NesError>)
        requires
            old(self).wf(),
        ensures
            final(self).wf(),
            r is Err <==> old(self).sp < 3,
            r is Err ==> r == Err::<(), NesError>(NesError::StackUnderflow) && *final(self) == *old(self),
            r is Ok ==> interrupt_post(*old(self), *final(self), add16(old(self).pc as int, 2), old(self).status.bits_spec(true), IRQ_VECTOR),
            final(self).wait_cycles == old(self).wait_cycles,
            final(self).do_nmi == old(self).do_nmi,
    {
        if self.sp < 3 {
            return Err(NesError::StackUnderflow);
        }
        let p: u8 = self.status.bits(true);
        let ret: u16 = self.pc.wrapping_add(2);
        self.push_interrupt_frame(ret, p);
        self.status.interrupt_disable = true;
        self.pc = self.memory.observe_16(IRQ_VECTOR);
        Ok(())
    }

    /// JSR: pushes the address of its own last byte (high, then low) and jumps.
    fn op_jsr(&mut self) -> (r: Result<(), NesError>)
        requires
            old(self).wf(),
        ensures
            final(self).wf(),
            r is Err <==> old(self).sp < 2,
            r is Err ==> r == Err::<(), NesError>(NesError::StackUnderflow) && *final(self) == *old(self),
            r is Ok ==> ({
                let ret = add16(old(self).pc as int, 2);
                &&& final(self).memory.internal_ram@ == old(self).memory.internal_ram@.update(
                    0x100 + old(self).sp as int,
                    (ret / 256) as u8,
                ).update(0x100 + old(self).sp as int - 1, (ret % 256) as u8)
                &&& final(self).sp == old(self).sp - 2
                &&& final(self).pc == old(self).operand_word()
                &&& final(self).status == old(self).status
                &&& final(self).memory.ppu == old(self).memory.ppu
                &&& final(self).memory.mapper == old(self).memory.mapper
            }),
            final(self).wait_cycles == old(self).wait_cycles,
            final(self).do_nmi == old(self).do_nmi,
    {
        if self.sp < 2 {
            return Err(NesError::StackUnderflow);
        }
        let target: u16 = self.memory.observe_16(self.pc.wrapping_add(1));
        let ret: u16 = self.pc.wrapping_add(2);
        let s: u16 = 0x0100 + self.sp as u16;
        self.memory.write(s, (ret / 256) as u8);
        self.memory.write(s - 1, (ret % 256) as u8);
        self.sp = self.sp - 2;
        self.pc = target;
        Ok(())
    }

    /// RTS (`rti` false) pulls PC and resumes one past it; RTI pulls P, then
    /// PC, and resumes exactly there.
    fn leave_subroutine(&mut self, rti: bool)
        requires
            old(self).wf(),
        ensures
            final(self).wf(),
            final(self).memory == old(self).memory,
            ({
                let o = *old(self);
                let s0 = o.sp as int;
                let k: int = if rti { 1 } else { 0 };
                let lo = o.stack_byte(((s0 + k + 1) % 256) as u8);
                let hi = o.stack_byte(((s0 + k + 2) % 256) as u8);
                &&& final(self).sp == ((s0 + k + 2) % 256) as u8
                &&& rti ==> final(self).status == StatusRegister::from_bits_spec(o.stack_byte(((s0 + 1) % 256) as u8))
                &&& !rti ==> final(self).status == o.status
                &&& final(self).pc == add16(lo as int + 256 * hi as int, if rti { 0 } else { 1 })
            }),
            final(self).a == old(self).a && final(self).x == old(self).x && final(self).y == old(self).y,
            final(self).wait_cycles == old(self).wait_cycles,
            final(self).do_nmi == old(self).do_nmi,
    {
        if rti {
            let p: u8 = self.op_stack_pull();
            self.status = StatusRegister::from_bits(p);
        }
        let lo: u8 = self.op_stack_pull();
        let hi: u8 = self.op_stack_pull();
        let target: u16 = lo as u16 + 256 * hi as u16;
        self.pc = if rti { target } else { target.wrapping_add(1) };
    }
}

/// PHA followed by PLA gives A back in A, restores SP, and sets Z and N from A.
pub proof fn lemma_pha_pla(c0: NESCpu, c1: NESCpu, c2: NESCpu, pulled: u8)
    requires
        c0.memory.wf(),
        c0.sp > 0,
        push_post(c0, c1, c0.a),
        pull_post(c1, c2, pulled),
    ensures
        pulled == c0.a,
        c2.sp == c0.sp,
        c2.status.with_nz(pulled) == c0.status.with_nz(c0.a),
{
}

/// PHP followed by PLP restores every flag and SP.
pub proof fn lemma_php_plp(c0: NESCpu, c1: NESCpu, c2: NESCpu, pulled: u8)
    requires
        c0.memory.wf(),
        c0.sp > 0,
        push_post(c0, c1, c0.status.bits_spec(true)),
        pull_post(c1, c2, pulled),
    ensures
        StatusRegister::from_bits_spec(pulled) == c0.status,
        c2.sp == c0.sp,
{
    lemma_status_round_trip(c0.status, true);
}

/// JMP through a pointer at the last byte of a page takes the high byte of
/// the target from the first byte of that same page.
pub proof fn lemma_indirect_jump_page_wrap(c: NESCpu)
    requires
        c.operand_word() % 256 == 255,
    ensures
        c.indirect_spec().0 == (c.memory.peek_spec(c.operand_word()) as int + 256 * c.memory.peek_spec(
            (c.operand_word() - 255) as u16,
        ) as int) as u16,
{
}

/// A taken branch costs two extra cycles across a page and one within it;
/// an untaken branch costs none.
pub proof fn lemma_branch_cycles(taken: bool, cross: bool)
    ensures
        taken && cross ==> branch_penalty(taken, cross) == 2,
        taken && !cross ==> branch_penalty(taken, cross) == 1,
        !taken ==> branch_penalty(taken, cross) == 0,
{
}

/// Absolute,Y pays one extra cycle exactly when adding Y carries out of the
/// low byte of the base address.
pub proof fn lemma_absolute_y_penalty(c: NESCpu)
    ensures
        page_penalty(AddressingMode::AbsoluteY, c.address_spec(AddressingMode::AbsoluteY).1) == (
        if c.operand_word() % 256 + c.y as int > 255 {
            1u16
        } else {
            0u16
        }),
{
    reveal(NESCpu::address_spec);
}

/// A, X, Y and SP hold the given values.
pub open spec fn regs_are(n: NESCpu, a: u8, x: u8, y: u8, sp: u8) -> bool {
    n.a == a && n.x == x && n.y == y && n.sp == sp
}

/// Flags after a compare of `lhs` with `m`.
pub open spec fn compare_flags(s: StatusRegister, lhs: u8, m: u8) -> StatusRegister {
    StatusRegister {
        carry: lhs >= m,
        zero: lhs == m,
        negative: (lhs as int - m as int + 256) % 256 >= 128,
        ..s
    }
}

/// A, P and the bus after an instruction that reads an operand (loads,
/// logic, ADC/SBC, compares, BIT). `m` is the operand the active read returns.
pub open spec fn read_effect(o: NESCpu, n: NESCpu, i: Instruction) -> bool {
    let ea = o.address_spec(i.mode).0;
    let m = o.memory.read_result(ea);
    let adc = adc_spec(o.a, m, o.status.carry);
    let sbc = adc_spec(o.a, (255 - m) as u8, o.status.carry);
    let bus = o.memory.read_post(n.memory, ea);
    match i.mnemonic {
        Mnemonic::Lda => bus && regs_are(n, m, o.x, o.y, o.sp) && n.status == o.status.with_nz(m),
        Mnemonic::Ldx => bus && regs_are(n, o.a, m, o.y, o.sp) && n.status == o.status.with_nz(m),
        Mnemonic::Ldy => bus && regs_are(n, o.a, o.x, m, o.sp) && n.status == o.status.with_nz(m),
        Mnemonic::Adc => bus && regs_are(n, adc.0, o.x, o.y, o.sp) && n.status == (StatusRegister {
            carry: adc.1,
            overflow: adc.2,
            ..o.status.with_nz(adc.0)
        }),
        Mnemonic::Sbc => bus && regs_are(n, sbc.0, o.x, o.y, o.sp) && n.status == (StatusRegister {
            carry: sbc.1,
            overflow: sbc.2,
            ..o.status.with_nz(sbc.0)
        }),
        Mnemonic::And => bus && regs_are(n, o.a & m, o.x, o.y, o.sp) && n.status == o.status.with_nz(
            o.a & m,
        ),
        Mnemonic::Eor => bus && regs_are(n, o.a ^ m, o.x, o.y, o.sp) && n.status == o.status.with_nz(
            o.a ^ m,
        ),
        Mnemonic::Ora => bus && regs_are(n, o.a | m, o.x, o.y, o.sp) && n.status == o.status.with_nz(
            o.a | m,
        ),
        Mnemonic::Cmp => bus && regs_are(n, o.a, o.x, o.y, o.sp) && n.status == compare_flags(
            o.status,
            o.a,
            m,
        ),
        Mnemonic::Cpx => bus && regs_are(n, o.a, o.x, o.y, o.sp) && n.status == compare_flags(
            o.status,
            o.x,
            m,
        ),
        Mnemonic::Cpy => bus && regs_are(n, o.a, o.x, o.y, o.sp) && n.status == compare_flags(
            o.status,
            o.y,
            m,
        ),
        Mnemonic::Bit => bus && regs_are(n, o.a, o.x, o.y, o.sp) && n.status == (StatusRegister {
            zero: o.a & m == 0,
            overflow: m & 0x40 != 0,
            negative: m >= 128,
            ..o.status
        }),
        _ => true,
    }
}

/// A store to $4014 starts an OAM DMA from page `data`; any other leaves
/// the DMA state alone.
pub open spec fn dma_start_post(o: NESCpu, n: NESCpu, ea: u16, data: u8) -> bool {
    &&& ea == OAM_DMA ==> n.dma_halt && n.next_dma_addr == data as u16 * 256
    &&& ea != OAM_DMA ==> n.dma_halt == o.dma_halt && n.next_dma_addr == o.next_dma_addr
}

/// Registers and flags after a store, a shift or rotate, or INC/DEC.
pub open spec fn write_effect(o: NESCpu, n: NESCpu, i: Instruction) -> bool {
    let ea = o.address_spec(i.mode).0;
    let m = o.memory.read_result(ea);
    let left = i.mnemonic == Mnemonic::Asl || i.mnemonic == Mnemonic::Rol;
    let arith = i.mnemonic == Mnemonic::Asl || i.mnemonic == Mnemonic::Lsr;
    let acc = rotate_spec(o.a, left, arith, o.status.carry);
    let mem = rotate_spec(m, left, arith, o.status.carry);
    match i.mnemonic {
        Mnemonic::Sta => o.memory.write_post(n.memory, ea, o.a) && regs_are(n, o.a, o.x, o.y, o.sp)
            && n.status == o.status && dma_start_post(o, n, ea, o.a),
        Mnemonic::Stx => o.memory.write_post(n.memory, ea, o.x) && regs_are(n, o.a, o.x, o.y, o.sp)
            && n.status == o.status && dma_start_post(o, n, ea, o.x),
        Mnemonic::Sty => o.memory.write_post(n.memory, ea, o.y) && regs_are(n, o.a, o.x, o.y, o.sp)
            && n.status == o.status && dma_start_post(o, n, ea, o.y),
        Mnemonic::Asl | Mnemonic::Lsr | Mnemonic::Rol | Mnemonic::Ror => if i.mode
            == AddressingMode::Accumulator {
            regs_are(n, acc.0, o.x, o.y, o.sp) && n.status == (StatusRegister {
                carry: acc.1,
                ..o.status.with_nz(acc.0)
            }) && n.memory == o.memory
        } else {
            regs_are(n, o.a, o.x, o.y, o.sp) && n.status == (StatusRegister {
                carry: mem.1,
                ..o.status.with_nz(mem.0)
            })
        },
        Mnemonic::Inc => regs_are(n, o.a, o.x, o.y, o.sp) && n.status == o.status.with_nz(
            ((m as int + 1) % 256) as u8,
        ),
        Mnemonic::Dec => regs_are(n, o.a, o.x, o.y, o.sp) && n.status == o.status.with_nz(
            ((m as int + 255) % 256) as u8,
        ),
        _ => true,
    }
}

/// PC (and the stack) after a branch, jump, call, return or BRK.
pub open spec fn flow_effect(o: NESCpu, n: NESCpu, i: Instruction) -> bool {
    let (target, _cross) = o.relative_spec();
    let not_taken = add16(o.pc as int, 2);
    let s0 = o.sp as int;
    let k: int = if i.mnemonic == Mnemonic::Rti { 1 } else { 0 };
    let lo = o.stack_byte(((s0 + k + 1) % 256) as u8);
    let hi = o.stack_byte(((s0 + k + 2) % 256) as u8);
    match i.mnemonic {
        Mnemonic::Bcc => n.pc == (if !o.status.carry { target } else { not_taken }),
        Mnemonic::Bcs => n.pc == (if o.status.carry { target } else { not_taken }),
        Mnemonic::Bne => n.pc == (if !o.status.zero { target } else { not_taken }),
        Mnemonic::Beq => n.pc == (if o.status.zero { target } else { not_taken }),
        Mnemonic::Bpl => n.pc == (if !o.status.negative { target } else { not_taken }),
        Mnemonic::Bmi => n.pc == (if o.status.negative { target } else { not_taken }),
        Mnemonic::Bvc => n.pc == (if !o.status.overflow { target } else { not_taken }),
        Mnemonic::Bvs => n.pc == (if o.status.overflow { target } else { not_taken }),
        Mnemonic::Jmp => n.pc == o.address_spec(i.mode).0 && regs_are(n, o.a, o.x, o.y, o.sp),
        Mnemonic::Jsr => n.pc == o.operand_word() && n.sp == o.sp - 2 && n.status == o.status,
        Mnemonic::Rts => n.pc == add16(lo as int + 256 * hi as int, 1) && n.sp == ((s0 + 2) % 256) as u8
            && n.memory == o.memory && n.status == o.status,
        Mnemonic::Rti => n.pc == add16(lo as int + 256 * hi as int, 0) && n.sp == ((s0 + 3) % 256) as u8
            && n.memory == o.memory && n.status == StatusRegister::from_bits_spec(
            o.stack_byte(((s0 + 1) % 256) as u8),
        ),
        Mnemonic::Brk => interrupt_post(o, n, not_taken, o.status.bits_spec(true), IRQ_VECTOR),
        _ => true,
    }
}

/// Registers, flags and the stack after a one-byte instruction.
pub open spec fn misc_effect(o: NESCpu, n: NESCpu, i: Instruction) -> bool {
    let up = ((o.sp as int + 1) % 256) as u8;
    match i.mnemonic {
        Mnemonic::Clc => regs_are(n, o.a, o.x, o.y, o.sp) && n.status == (StatusRegister { carry: false, ..o.status }),
        Mnemonic::Sec => regs_are(n, o.a, o.x, o.y, o.sp) && n.status == (StatusRegister { carry: true, ..o.status }),
        Mnemonic::Cld => regs_are(n, o.a, o.x, o.y, o.sp) && n.status == (StatusRegister { decimal_mode: false, ..o.status }),
        Mnemonic::Sed => regs_are(n, o.a, o.x, o.y, o.sp) && n.status == (StatusRegister { decimal_mode: true, ..o.status }),
        Mnemonic::Cli => regs_are(n, o.a, o.x, o.y, o.sp) && n.status == (StatusRegister { interrupt_disable: false, ..o.status }),
        Mnemonic::Sei => regs_are(n, o.a, o.x, o.y, o.sp) && n.status == (StatusRegister { interrupt_disable: true, ..o.status }),
        Mnemonic::Clv => regs_are(n, o.a, o.x, o.y, o.sp) && n.status == (StatusRegister { overflow: false, ..o.status }),
        Mnemonic::Inx => regs_are(n, o.a, ((o.x as int + 1) % 256) as u8, o.y, o.sp) && n.status == o.status.with_nz(n.x),
        Mnemonic::Dex => regs_are(n, o.a, ((o.x as int + 255) % 256) as u8, o.y, o.sp) && n.status == o.status.with_nz(n.x),
        Mnemonic::Iny => regs_are(n, o.a, o.x, ((o.y as int + 1) % 256) as u8, o.sp) && n.status == o.status.with_nz(n.y),
        Mnemonic::Dey => regs_are(n, o.a, o.x, ((o.y as int + 255) % 256) as u8, o.sp) && n.status == o.status.with_nz(n.y),
        Mnemonic::Tax => regs_are(n, o.a, o.a, o.y, o.sp) && n.status == o.status.with_nz(o.a),
        Mnemonic::Tay => regs_are(n, o.a, o.x, o.a, o.sp) && n.status == o.status.with_nz(o.a),
        Mnemonic::Tsx => regs_are(n, o.a, o.sp, o.y, o.sp) && n.status == o.status.with_nz(o.sp),
        Mnemonic::Txa => regs_are(n, o.x, o.x, o.y, o.sp) && n.status == o.status.with_nz(o.x),
        Mnemonic::Tya => regs_are(n, o.y, o.x, o.y, o.sp) && n.status == o.status.with_nz(o.y),
        Mnemonic::Txs => regs_are(n, o.a, o.x, o.y, o.x) && n.status == o.status,
        Mnemonic::Pha => n.memory.internal_ram@ == o.memory.internal_ram@.update(0x100 + o.sp as int, o.a)
            && regs_are(n, o.a, o.x, o.y, (o.sp - 1) as u8) && n.status == o.status,
        Mnemonic::Php => n.memory.internal_ram@ == o.memory.internal_ram@.update(
            0x100 + o.sp as int,
            o.status.bits_spec(true),
        ) && regs_are(n, o.a, o.x, o.y, (o.sp - 1) as u8) && n.status == o.status,
        Mnemonic::Pla => regs_are(n, o.stack_byte(up), o.x, o.y, up) && n.status == o.status.with_nz(
            o.stack_byte(up),
        ) && n.memory == o.memory,
        Mnemonic::Plp => regs_are(n, o.a, o.x, o.y, up) && n.status == StatusRegister::from_bits_spec(
            o.stack_byte(up),
        ) && n.memory == o.memory,
        Mnemonic::Nop => regs_are(n, o.a, o.x, o.y, o.sp) && n.status == o.status && n.memory == o.memory,
        _ => true,
    }
}

/// What an instruction does to registers, flags and memory (PC and cycle
/// accounting are stated apart).
pub open spec fn instruction_effect(o: NESCpu, n: NESCpu, i: Instruction) -> bool {
    &&& read_effect(o, n, i)
    &&& write_effect(o, n, i)
    &&& flow_effect(o, n, i)
    &&& misc_effect(o, n, i)
}

/// Whether a conditional branch is taken in state `o`.
pub open spec fn branch_taken(o: NESCpu, m: Mnemonic) -> bool {
    match m {
        Mnemonic::Bcc => !o.status.carry,
        Mnemonic::Bcs => o.status.carry,
        Mnemonic::Bne => !o.status.zero,
        Mnemonic::Beq => o.status.zero,
        Mnemonic::Bpl => !o.status.negative,
        Mnemonic::Bmi => o.status.negative,
        Mnemonic::Bvc => !o.status.overflow,
        Mnemonic::Bvs => o.status.overflow,
        _ => false,
    }
}

/// True for the eight conditional branches.
pub open spec fn is_branch(m: Mnemonic) -> bool {
    m == Mnemonic::Bcc || m == Mnemonic::Bcs || m == Mnemonic::Bne || m == Mnemonic::Beq || m
        == Mnemonic::Bpl || m == Mnemonic::Bmi || m == Mnemonic::Bvc || m == Mnemonic::Bvs
}

/// Cycles an instruction costs beyond its base count: the page-cross
/// penalty of indexed reads, and the taken (and page-cross) cycles of branches.
pub open spec fn extra_cycles(o: NESCpu, i: Instruction) -> u16 {
    if is_branch(i.mnemonic) {
        branch_penalty(branch_taken(o, i.mnemonic), o.relative_spec().1)
    } else if i.mnemonic == Mnemonic::Adc || i.mnemonic == Mnemonic::Sbc || i.mnemonic == Mnemonic::And
        || i.mnemonic == Mnemonic::Eor || i.mnemonic == Mnemonic::Ora || i.mnemonic == Mnemonic::Lda
        || i.mnemonic == Mnemonic::Ldx || i.mnemonic == Mnemonic::Ldy || i.mnemonic == Mnemonic::Cmp
        || i.mnemonic == Mnemonic::Cpx || i.mnemonic == Mnemonic::Cpy {
        page_penalty(i.mode, o.address_spec(i.mode).1)
    } else {
        0
    }
}

/// Instructions that set PC themselves instead of stepping past their operand.
pub open spec fn sets_pc(m: Mnemonic) -> bool {
    match m {
        Mnemonic::Bcc | Mnemonic::Bcs | Mnemonic::Beq | Mnemonic::Bne | Mnemonic::Bmi | Mnemonic::Bpl
        | Mnemonic::Bvc | Mnemonic::Bvs | Mnemonic::Jmp | Mnemonic::Jsr | Mnemonic::Rts | Mnemonic::Rti
        | Mnemonic::Brk => true,
        _ => false,
    }
}

/// Stack bytes an instruction pushes: it fails when SP is smaller.
pub open spec fn stack_needed(m: Mnemonic) -> u8 {
    match m {
        Mnemonic::Pha | Mnemonic::Php => 1,
        Mnemonic::Jsr => 2,
        Mnemonic::Brk => 3,
        _ => 0,
    }
}

/// One stall cycle of OAM DMA: the next source byte, read without side
/// effects, is copied to OAM at OAMADDR plus the source's low byte (wrapping);
/// the DMA ends after the byte at $xxFF.
pub open spec fn dma_step_post(o: NESCpu, n: NESCpu) -> bool {
    let src = o.next_dma_addr;
    let index = (o.memory.ppu.oam_address as int + src as int % 256) % 256;
    &&& n.memory.ppu.poam@ == o.memory.ppu.poam@.update(index, o.memory.peek_spec(src))
    &&& n.dma_halt == (src % 256 != 255)
    &&& n.next_dma_addr == add16(src as int, 1)
    &&& n.pc == o.pc && n.sp == o.sp && n.a == o.a && n.x == o.x && n.y == o.y
    &&& n.status == o.status
    &&& n.wait_cycles == o.wait_cycles
    &&& n.do_nmi == o.do_nmi
    &&& n.memory.internal_ram == o.memory.internal_ram
    &&& n.memory.mapper == o.memory.mapper
}

impl NESCpu {
    /// STA, STX, STY: writes `data` to the effective address; no flags change.
    fn op_store(&mut self, data: u8, mode: AddressingMode)
        requires
            old(self).wf(),
        ensures
            final(self).wf(),
            ({
                let (ea, _cross) = old(self).address_spec(mode);
                &&& old(self).memory.write_post(final(self).memory, ea, data)
                &&& ea == OAM_DMA ==> final(self).dma_halt && final(self).next_dma_addr == data as u16 * 256
                &&& ea != OAM_DMA ==> final(self).dma_halt == old(self).dma_halt
                &&& ea != OAM_DMA ==> final(self).next_dma_addr == old(self).next_dma_addr
            }),
            final(self).status == old(self).status,
            final(self).pc == old(self).pc && final(self).sp == old(self).sp,
            final(self).a == old(self).a && final(self).x == old(self).x && final(self).y == old(self).y,
            final(self).wait_cycles == old(self).wait_cycles,
            final(self).do_nmi == old(self).do_nmi,
    {
        let (addr, _cross) = self.resolve_address(mode);
        self.bus_write(addr, data);
    }

    /// Carries out one decoded instruction, PC update included.
    fn execute(&mut self, instr: Instruction) -> (r: Result<(), NesError>)
        requires
            old(self).wf(),
            old(self).wait_cycles == 0,
        ensures
            old(self).same_ppu_timing(*final(self)),
            final(self).wf(),
            final(self).wait_cycles <= 2,
            r is Ok ==> final(self).wait_cycles == extra_cycles(*old(self), instr),
            r is Err <==> old(self).sp < stack_needed(instr.mnemonic),
            r is Err ==> r == Err::<(), NesError>(NesError::StackUnderflow),
            r is Ok ==> instruction_effect(*old(self), *final(self), instr),
            r is Ok && !sets_pc(instr.mnemonic) ==> final(self).pc == add16(old(self).pc as int, operand_length_spec(instr.mode) as int),
    {
        match instr.mnemonic {
            Mnemonic::Adc | Mnemonic::Sbc | Mnemonic::And | Mnemonic::Eor | Mnemonic::Ora | Mnemonic::Lda | Mnemonic::Ldx | Mnemonic::Ldy | Mnemonic::Cmp | Mnemonic::Cpx | Mnemonic::Cpy | Mnemonic::Bit => self.execute_read(instr),
            Mnemonic::Asl | Mnemonic::Lsr | Mnemonic::Rol | Mnemonic::Ror | Mnemonic::Inc | Mnemonic::Dec | Mnemonic::Sta | Mnemonic::Stx | Mnemonic::Sty => self.execute_write(instr),
            Mnemonic::Bcc | Mnemonic::Bcs | Mnemonic::Beq | Mnemonic::Bne | Mnemonic::Bmi | Mnemonic::Bpl | Mnemonic::Bvc | Mnemonic::Bvs | Mnemonic::Jmp | Mnemonic::Jsr | Mnemonic::Rts | Mnemonic::Rti | Mnemonic::Brk => self.execute_flow(instr),
            _ => self.execute_misc(instr),
        }
    }

    /// Instructions that read an operand: loads, logic, arithmetic, compares and BIT.
    #[verifier::rlimit(100)]
    fn execute_read(&mut self, instr: Instruction) -> (r: Result<(), NesError>)
        requires
            old(self).wf(),
            old(self).wait_cycles == 0,
            instr.mnemonic == Mnemonic::Adc
                || instr.mnemonic == Mnemonic::Sbc
                || instr.mnemonic == Mnemonic::And
                || instr.mnemonic == Mnemonic::Eor
                || instr.mnemonic == Mnemonic::Ora
                || instr.mnemonic == Mnemonic::Lda
                || instr.mnemonic == Mnemonic::Ldx
                || instr.mnemonic == Mnemonic::Ldy
                || instr.mnemonic == Mnemonic::Cmp
                || instr.mnemonic == Mnemonic::Cpx
                || instr.mnemonic == Mnemonic::Cpy
                || instr.mnemonic == Mnemonic::Bit,
        ensures
            old(self).same_ppu_timing(*final(self)),
            final(self).wf(),
            final(self).wait_cycles <= 2,
            r is Ok ==> final(self).wait_cycles == extra_cycles(*old(self), instr),
            r is Err <==> old(self).sp < stack_needed(instr.mnemonic),
            r is Err ==> r == Err::<(), NesError>(NesError::StackUnderflow),
            r is Ok ==> final(self).pc == add16(old(self).pc as int, operand_length_spec(instr.mode) as int),
            r is Ok ==> instruction_effect(*old(self), *final(self), instr),
    {
        let mode: AddressingMode = instr.mode;
        match instr.mnemonic {
            Mnemonic::Adc => {
                let v = self.op_arithmetic(mode, true);
                self.a = v;
            },
            Mnemonic::Sbc => {
                let v = self.op_arithmetic(mode, false);
                self.a = v;
            },
            Mnemonic::And => {
                let v = self.op_bitwise(mode, BitwiseOp::And);
                self.a = v;
            },
            Mnemonic::Eor => {
                let v = self.op_bitwise(mode, BitwiseOp::Eor);
                self.a = v;
            },
            Mnemonic::Ora => {
                let v = self.op_bitwise(mode, BitwiseOp::Ora);
                self.a = v;
            },
            Mnemonic::Lda => {
                let v = self.op_load(mode);
                self.a = v;
            },
            Mnemonic::Ldx => {
                let v = self.op_load(mode);
                self.x = v;
            },
            Mnemonic::Ldy => {
                let v = self.op_load(mode);
                self.y = v;
            },
            Mnemonic::Cmp => {
                let l = self.a;
                self.op_compare(l, mode);
            },
            Mnemonic::Cpx => {
                let l = self.x;
                self.op_compare(l, mode);
            },
            Mnemonic::Cpy => {
                let l = self.y;
                self.op_compare(l, mode);
            },
            Mnemonic::Bit => self.op_bit(mode),
            _ => {},
        }
        self.pc = self.pc.wrapping_add(operand_length(instr.mode));
        Ok(())
    }

    /// Instructions that write memory or shift A: stores, INC/DEC, shifts and rotates.
    #[verifier::rlimit(100)]
    fn execute_write(&mut self, instr: Instruction) -> (r: Result<(), NesError>)
        requires
            old(self).wf(),
            old(self).wait_cycles == 0,
            instr.mnemonic == Mnemonic::Asl
                || instr.mnemonic == Mnemonic::Lsr
                || instr.mnemonic == Mnemonic::Rol
                || instr.mnemonic == Mnemonic::Ror
                || instr.mnemonic == Mnemonic::Inc
                || instr.mnemonic == Mnemonic::Dec
                || instr.mnemonic == Mnemonic::Sta
                || instr.mnemonic == Mnemonic::Stx
                || instr.mnemonic == Mnemonic::Sty,
        ensures
            old(self).same_ppu_timing(*final(self)),
            final(self).wf(),
            final(self).wait_cycles <= 2,
            r is Ok ==> final(self).wait_cycles == extra_cycles(*old(self), instr),
            r is Err <==> old(self).sp < stack_needed(instr.mnemonic),
            r is Err ==> r == Err::<(), NesError>(NesError::StackUnderflow),
            r is Ok ==> final(self).pc == add16(old(self).pc as int, operand_length_spec(instr.mode) as int),
            r is Ok ==> instruction_effect(*old(self), *final(self), instr),
    {
        let mode: AddressingMode = instr.mode;
        match instr.mnemonic {
            Mnemonic::Asl => self.op_rotate(mode, true, true),
            Mnemonic::Lsr => self.op_rotate(mode, false, true),
            Mnemonic::Rol => self.op_rotate(mode, true, false),
            Mnemonic::Ror => self.op_rotate(mode, false, false),
            Mnemonic::Inc => self.op_incdec_addr(true, mode),
            Mnemonic::Dec => self.op_incdec_addr(false, mode),
            Mnemonic::Sta => {
                let d = self.a;
                self.op_store(d, mode);
            },
            Mnemonic::Stx => {
                let d = self.x;
                self.op_store(d, mode);
            },
            Mnemonic::Sty => {
                let d = self.y;
                self.op_store(d, mode);
            },
            _ => {},
        }
        self.pc = self.pc.wrapping_add(operand_length(instr.mode));
        Ok(())
    }

    /// Instructions that set PC themselves: branches, jumps, calls, returns and BRK.
    #[verifier::rlimit(100)]
    fn execute_flow(&mut self, instr: Instruction) -> (r: Result<(), NesError>)
        requires
            old(self).wf(),
            old(self).wait_cycles == 0,
            instr.mnemonic == Mnemonic::Bcc
                || instr.mnemonic == Mnemonic::Bcs
                || instr.mnemonic == Mnemonic::Beq
                || instr.mnemonic == Mnemonic::Bne
                || instr.mnemonic == Mnemonic::Bmi
                || instr.mnemonic == Mnemonic::Bpl
                || instr.mnemonic == Mnemonic::Bvc
                || instr.mnemonic == Mnemonic::Bvs
                || instr.mnemonic == Mnemonic::Jmp
                || instr.mnemonic == Mnemonic::Jsr
                || instr.mnemonic == Mnemonic::Rts
                || instr.mnemonic == Mnemonic::Rti
                || instr.mnemonic == Mnemonic::Brk,
        ensures
            old(self).same_ppu_timing(*final(self)),
            final(self).wf(),
            final(self).wait_cycles <= 2,
            r is Ok ==> final(self).wait_cycles == extra_cycles(*old(self), instr),
            r is Err <==> old(self).sp < stack_needed(instr.mnemonic),
            r is Err ==> r == Err::<(), NesError>(NesError::StackUnderflow),
            r is Ok ==> instruction_effect(*old(self), *final(self), instr),
    {
        let mode: AddressingMode = instr.mode;
        match instr.mnemonic {
            Mnemonic::Bcc => {
                let f = self.status.carry;
                self.op_branch(f, false);
            },
            Mnemonic::Bcs => {
                let f = self.status.carry;
                self.op_branch(f, true);
            },
            Mnemonic::Beq => {
                let f = self.status.zero;
                self.op_branch(f, true);
            },
            Mnemonic::Bne => {
                let f = self.status.zero;
                self.op_branch(f, false);
            },
            Mnemonic::Bmi => {
                let f = self.status.negative;
                self.op_branch(f, true);
            },
            Mnemonic::Bpl => {
                let f = self.status.negative;
                self.op_branch(f, false);
            },
            Mnemonic::Bvc => {
                let f = self.status.overflow;
                self.op_branch(f, false);
            },
            Mnemonic::Bvs => {
                let f = self.status.overflow;
                self.op_branch(f, true);
            },
            Mnemonic::Jmp => {
                self.op_jump(mode);
            },
            Mnemonic::Jsr => {
                match self.op_jsr() {
                    Ok(()) => {},
                    Err(e) => {
                        return Err(e);
                    },
                }
            },
            Mnemonic::Rts => {
                self.leave_subroutine(false);
            },
            Mnemonic::Rti => {
                self.leave_subroutine(true);
            },
            Mnemonic::Brk => {
                match self.op_brk() {
                    Ok(()) => {},
                    Err(e) => {
                        return Err(e);
                    },
                }
            },
            _ => {},
        }
        Ok(())
    }

    /// Single-byte instructions: flag changes, register steps and transfers, stack pushes and pulls, NOP.
    #[verifier::rlimit(100)]
    fn execute_misc(&mut self, instr: Instruction) -> (r: Result<(), NesError>)
        requires
            old(self).wf(),
            old(self).wait_cycles == 0,
            instr.mnemonic == Mnemonic::Clc
                || instr.mnemonic == Mnemonic::Cld
                || instr.mnemonic == Mnemonic::Cli
                || instr.mnemonic == Mnemonic::Clv
                || instr.mnemonic == Mnemonic::Sec
                || instr.mnemonic == Mnemonic::Sed
                || instr.mnemonic == Mnemonic::Sei
                || instr.mnemonic == Mnemonic::Dex
                || instr.mnemonic == Mnemonic::Dey
                || instr.mnemonic == Mnemonic::Inx
                || instr.mnemonic == Mnemonic::Iny
                || instr.mnemonic == Mnemonic::Nop
                || instr.mnemonic == Mnemonic::Pha
                || instr.mnemonic == Mnemonic::Php
                || instr.mnemonic == Mnemonic::Pla
                || instr.mnemonic == Mnemonic::Plp
                || instr.mnemonic == Mnemonic::Tax
                || instr.mnemonic == Mnemonic::Tay
                || instr.mnemonic == Mnemonic::Tsx
                || instr.mnemonic == Mnemonic::Txa
                || instr.mnemonic == Mnemonic::Tya
                || instr.mnemonic == Mnemonic::Txs,
        ensures
            old(self).same_ppu_timing(*final(self)),
            final(self).wf(),
            final(self).wait_cycles <= 2,
            r is Ok ==> final(self).wait_cycles == extra_cycles(*old(self), instr),
            r is Err <==> old(self).sp < stack_needed(instr.mnemonic),
            r is Err ==> r == Err::<(), NesError>(NesError::StackUnderflow),
            r is Ok ==> final(self).pc == add16(old(self).pc as int, operand_length_spec(instr.mode) as int),
            r is Ok ==> instruction_effect(*old(self), *final(self), instr),
    {
        let mode: AddressingMode = instr.mode;
        match instr.mnemonic {
            Mnemonic::Clc => self.status.carry = false,
            Mnemonic::Cld => self.status.decimal_mode = false,
            Mnemonic::Cli => self.status.interrupt_disable = false,
            Mnemonic::Clv => self.status.overflow = false,
            Mnemonic::Sec => self.status.carry = true,
            Mnemonic::Sed => self.status.decimal_mode = true,
            Mnemonic::Sei => self.status.interrupt_disable = true,
            Mnemonic::Dex => {
                let d = self.x;
                let v = self.op_incdec(d, false);
                self.x = v;
            },
            Mnemonic::Dey => {
                let d = self.y;
                let v = self.op_incdec(d, false);
                self.y = v;
            },
            Mnemonic::Inx => {
                let d = self.x;
                let v = self.op_incdec(d, true);
                self.x = v;
            },
            Mnemonic::Iny => {
                let d = self.y;
                let v = self.op_incdec(d, true);
                self.y = v;
            },
            Mnemonic::Nop => {},
            Mnemonic::Pha => {
                match self.op_stack_push(false) {
                    Ok(()) => {},
                    Err(e) => {
                        return Err(e);
                    },
                }
            },
            Mnemonic::Php => {
                match self.op_stack_push(true) {
                    Ok(()) => {},
                    Err(e) => {
                        return Err(e);
                    },
                }
            },
            Mnemonic::Pla => {
                let v = self.op_stack_pull();
                self.a = v;
                self.status.set_nz(v);
            },
            Mnemonic::Plp => {
                let v = self.op_stack_pull();
                self.status = StatusRegister::from_bits(v);
            },
            Mnemonic::Tax => {
                let v = self.op_transfer_a(self.a, false);
                self.x = v;
            },
            Mnemonic::Tay => {
                let v = self.op_transfer_a(self.a, false);
                self.y = v;
            },
            Mnemonic::Tsx => {
                let v = self.op_transfer_a(self.sp, false);
                self.x = v;
            },
            Mnemonic::Txa => {
                let v = self.op_transfer_a(self.x, false);
                self.a = v;
            },
            Mnemonic::Tya => {
                let v = self.op_transfer_a(self.y, false);
                self.a = v;
            },
            Mnemonic::Txs => {
                let v = self.op_transfer_a(self.x, true);
                self.sp = v;
            },
            _ => {},
        }
        self.pc = self.pc.wrapping_add(operand_length(instr.mode));
        Ok(())
    }

    /// One stall cycle of a running OAM DMA (see `dma_step_post`).
    fn dma_step(&mut self)
        requires
            old(self).wf(),
            old(self).dma_halt,
        ensures
            old(self).same_ppu_timing(*final(self)),
            final(self).wf(),
            dma_step_post(*old(self), *final(self)),
            final(self).cycle == old(self).cycle,
    {
        let src: u16 = self.next_dma_addr;
        let data: u8 = self.memory.observe(src);
        let index: usize = ((self.memory.ppu.oam_address as u16 + src % 256) % 256) as usize;
        self.memory.ppu.poam[index] = data;
        if src % 256 == 255 {
            self.dma_halt = false;
        }
        self.next_dma_addr = src.wrapping_add(1);
    }

    /// One CPU cycle. A running DMA copies one byte; otherwise a pending NMI
    /// is entered; otherwise an outstanding wait cycle is spent; otherwise the
    /// next instruction is fetched, decoded and carried out, and its remaining
    /// cycles are charged to `wait_cycles`.
    #[verifier::rlimit(100)]
    fn tick_inner(&mut self) -> (r: Result<(), NesError>)
        requires
            old(self).wf(),
        ensures
            old(self).same_ppu_timing(*final(self)),
            final(self).wf(),
            old(self).dma_halt ==> r is Ok && dma_step_post(*old(self), *final(self)),
            !old(self).dma_halt && old(self).do_nmi ==> {
                &&& !final(self).do_nmi
                &&& (r is Err <==> old(self).sp < 3)
                &&& r is Ok ==> interrupt_post(*old(self), *final(self), old(self).pc, old(self).status.bits_spec(false), NMI_VECTOR)
                &&& r is Ok ==> final(self).wait_cycles == 6
            },
            !old(self).dma_halt && !old(self).do_nmi && old(self).wait_cycles > 0 ==> {
                &&& r is Ok
                &&& final(self).wait_cycles == old(self).wait_cycles - 1
                &&& (NESCpu { wait_cycles: old(self).wait_cycles, cycle: old(self).cycle, ..*final(self) }) == *old(self)
            },
            !old(self).dma_halt && !old(self).do_nmi && old(self).wait_cycles == 0 ==> fetch_post(
                *old(self),
                *final(self),
                r,
            ),
    {
        if self.dma_halt {
            self.dma_step();
            return Ok(());
        }
        if self.do_nmi {
            self.do_nmi = false;
            return self.nmi();
        }
        if self.wait_cycles > 0 {
            self.wait_cycles = self.wait_cycles - 1;
            return Ok(());
        }
        self.fetch_execute()
    }

    /// Fetches, decodes and carries out the instruction at PC (see `fetch_post`).
    #[verifier::rlimit(100)]
    fn fetch_execute(&mut self) -> (r: Result<(), NesError>)
        requires
            old(self).wf(),
            !old(self).dma_halt,
            !old(self).do_nmi,
            old(self).wait_cycles == 0,
        ensures
            old(self).same_ppu_timing(*final(self)),
            final(self).wf(),
            fetch_post(*old(self), *final(self), r),
    {
        let pc: u16 = self.pc;
        let op: u8 = self.bus_read(pc);
        match decode(op) {
            None => Err(NesError::DecodeError { pc, opcode: op }),
            Some(instr) => {
                let result = self.execute(instr);
                self.last_legal_instruction = Some(pc);
                match result {
                    Ok(()) => {},
                    Err(e) => {
                        return Err(e);
                    },
                }
                self.wait_cycles = self.wait_cycles + (instr.cycles - 1);
                Ok(())
            },
        }
    }

    pub fn tick(&mut self) -> (r: Result<(), NesError>)
        requires
            old(self).wf(),
        ensures
            final(self).wf(),
            tick_post(*old(self), *final(self), r),
    {
        let next_cycle: u32 = self.cycle.wrapping_add(1);
        let r = self.tick_inner();
        self.cycle = next_cycle;
        r
    }
}

/// The fetch, decode and execute of one instruction from `o` to `n` with
/// result `r`: a decode error exactly for an unofficial opcode, a stack
/// error exactly when the pushes do not fit, otherwise the instruction's
/// effect, its PC step and its exact cycle cost.
pub open spec fn fetch_post(o: NESCpu, n: NESCpu, r: Result<(), NesError>) -> bool {
        let op = o.memory.read_result(o.pc);
        &&& decode_spec(op) is None <==> r == Err::<(), NesError>(NesError::DecodeError { pc: o.pc, opcode: op })
        &&& decode_spec(op) is Some ==> n.last_legal_instruction == Some(o.pc)
        &&& decode_spec(op) is Some ==> (r is Err <==> o.sp < stack_needed(decode_spec(op).unwrap().mnemonic))
        &&& r is Ok ==> decode_spec(op).unwrap().cycles - 1 <= n.wait_cycles <= decode_spec(op).unwrap().cycles + 1
        &&& r is Ok && !sets_pc(decode_spec(op).unwrap().mnemonic) ==> n.pc == add16(o.pc as int, operand_length_spec(decode_spec(op).unwrap().mode) as int)
        &&& r is Ok && !is_ppu_register(o.pc) && o.pc != JOY1 ==> instruction_effect(o, n, decode_spec(op).unwrap())
        &&& r is Ok && !is_ppu_register(o.pc) && o.pc != JOY1 ==> n.wait_cycles == decode_spec(op).unwrap().cycles - 1 + extra_cycles(o, decode_spec(op).unwrap())
        &&& decode_spec(op) is None && !is_ppu_register(o.pc) && o.pc != JOY1 ==> (NESCpu { cycle: o.cycle, ..n }) == o
}

/// One CPU cycle from `o` to `n` with result `r` (see `NESCpu::tick`).
pub open spec fn tick_post(o: NESCpu, n: NESCpu, r: Result<(), NesError>) -> bool {
    &&& (o.same_ppu_timing(n))
    &&& (n.cycle == (o.cycle as int + 1) % 0x1_0000_0000)
    &&& (o.dma_halt ==> r is Ok && dma_step_post(o, n))
    &&& (!o.dma_halt && o.do_nmi ==> {
                &&& !n.do_nmi
                &&& (r is Err <==> o.sp < 3)
                &&& r is Ok ==> interrupt_post(o, n, o.pc, o.status.bits_spec(false), NMI_VECTOR)
                &&& r is Ok ==> n.wait_cycles == 6
            })
    &&& (!o.dma_halt && !o.do_nmi && o.wait_cycles > 0 ==> {
                &&& r is Ok
                &&& n.wait_cycles == o.wait_cycles - 1
                &&& (NESCpu { wait_cycles: o.wait_cycles, cycle: o.cycle, ..n }) == o
            })
    &&& (!o.dma_halt && !o.do_nmi && o.wait_cycles == 0 ==> fetch_post(o, n, r))
}

impl StatusRegister {
    pub open spec fn empty_spec() -> StatusRegister {
        StatusRegister {
            carry: false,
            zero: false,
            interrupt_disable: false,
            decimal_mode: false,
            overflow: false,
            negative: false,
        }
    }
}

} // verus!
