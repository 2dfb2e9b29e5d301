use vstd::prelude::*;

use crate::mapper::CPUMapper000;
use crate::ppu::NESPpu;

verus! {

pub const INTERNAL_RAM_SIZE: usize = 2048;
pub const IO_REGISTER_COUNT: usize = 24;
pub const JOY1: u16 = 0x4016;

/// The CPU's view of the address space: 2 KiB of internal RAM, the PPU's
/// eight registers, the APU and I/O registers, and the cartridge.
pub struct CPUMemory {
    pub internal_ram: Vec<u8>,
    /// Last values written to $4000-$4017.
    pub io_registers: Vec<u8>,
    pub mapper: CPUMapper000,
    pub ppu: NESPpu,
    /// Buttons the host presents on controller 1 (bit 0 = A ... bit 7 = Right).
    pub joy1_in: u8,
    /// Controller 1 shift register, read one bit at a time through $4016.
    pub joy1_shift: u8,
    /// Strobe held high: the shift register does not shift.
    pub joy_freeze: bool,
}

/// True for addresses that land in the PPU register window.
pub open spec fn is_ppu_register(addr: u16) -> bool {
    0x2000 <= addr < 0x4000
}

impl CPUMemory {
    pub open spec fn wf(&self) -> bool {
        &&& self.internal_ram@.len() == INTERNAL_RAM_SIZE
        &&& self.io_registers@.len() == IO_REGISTER_COUNT
        &&& self.mapper.wf()
        &&& self.ppu.wf()
    }

    /// What a read without side effects sees at `addr`. The PPU registers
    /// cannot be read that way and show zero.
    pub open spec fn peek_spec(&self, addr: u16) -> u8 {
        if addr < 0x2000 {
            self.internal_ram@[addr as int % 0x800]
        } else if addr < 0x4000 {
            0
        } else if addr == JOY1 {
            self.joy1_shift % 2
        } else if addr < 0x4020 {
            0
        } else {
            self.mapper.read_spec(addr)
        }
    }

    /// The byte an active read of `addr` returns.
    pub open spec fn read_result(&self, addr: u16) -> u8 {
        if is_ppu_register(addr) {
            self.ppu.register_read_spec(addr)
        } else {
            self.peek_spec(addr)
        }
    }

    /// Little-endian word at `addr` and `addr + 1` (wrapping), read silently.
    pub open spec fn peek16_spec(&self, addr: u16) -> u16 {
        (self.peek_spec(addr) as int + 256 * self.peek_spec(((addr + 1) % 0x10000) as u16) as int) as u16
    }

    /// Everything but the PPU is unchanged.
    pub open spec fn same_but_ppu(&self, n: CPUMemory) -> bool {
        &&& n.internal_ram == self.internal_ram
        &&& n.io_registers == self.io_registers
        &&& n.mapper == self.mapper
        &&& n.joy1_in == self.joy1_in
        &&& n.joy1_shift == self.joy1_shift
        &&& n.joy_freeze == self.joy_freeze
    }

    /// How an active read of `addr` changes the bus: a PPU register read
    /// acts on the PPU alone; a $4016 read shifts the controller register
    /// unless the strobe is high; anything else changes nothing.
    pub open spec fn read_post(&self, n: CPUMemory, addr: u16) -> bool {
        &&& n.wf()
        &&& self.same_but_ppu(n) || addr == JOY1
        &&& !is_ppu_register(addr) ==> n.ppu == self.ppu
        &&& addr == JOY1 ==> {
            &&& n.internal_ram == self.internal_ram
            &&& n.io_registers == self.io_registers
            &&& n.mapper == self.mapper
            &&& n.joy1_in == self.joy1_in
            &&& n.joy_freeze == self.joy_freeze
            &&& n.joy1_shift == (if self.joy_freeze {
                self.joy1_shift
            } else {
                self.joy1_shift / 2
            })
        }
        &&& is_ppu_register(addr) ==> {
            &&& self.ppu.register_read_post(n.ppu, addr)
            &&& n.ppu.scanline == self.ppu.scanline
            &&& n.ppu.dot == self.ppu.dot
            &&& n.ppu.frame_ready == self.ppu.frame_ready
            &&& n.ppu.nmi_requested == self.ppu.nmi_requested
            &&& n.ppu.poam == self.ppu.poam
        }
    }

    /// How a write of `data` to `addr` changes the bus.
    pub open spec fn write_post(&self, n: CPUMemory, addr: u16, data: u8) -> bool {
        &&& n.wf()
        &&& addr < 0x2000 ==> {
            &&& n.internal_ram@ == self.internal_ram@.update(addr as int % 0x800, data)
            &&& n.io_registers == self.io_registers
            &&& n.mapper == self.mapper
            &&& n.ppu == self.ppu
            &&& n.joy1_in == self.joy1_in
            &&& n.joy1_shift == self.joy1_shift
            &&& n.joy_freeze == self.joy_freeze
        }
        &&& is_ppu_register(addr) ==> {
            &&& self.same_but_ppu(n)
            &&& self.ppu.register_write_post(n.ppu, addr, data)
            &&& n.ppu.scanline == self.ppu.scanline
            &&& n.ppu.dot == self.ppu.dot
            &&& n.ppu.frame_ready == self.ppu.frame_ready
            &&& n.ppu.nmi_requested == self.ppu.nmi_requested
        }
        &&& 0x4000 <= addr < 0x4018 ==> {
            &&& n.internal_ram == self.internal_ram
            &&& n.io_registers@ == self.io_registers@.update(addr - 0x4000, data)
            &&& n.mapper == self.mapper
            &&& n.ppu == self.ppu
            &&& n.joy1_in == self.joy1_in
            &&& addr == JOY1 ==> n.joy_freeze == (data % 2 == 1)
            &&& addr == JOY1 ==> n.joy1_shift == (if data % 2 == 1 {
                self.joy1_in
            } else {
                self.joy1_shift
            })
            &&& addr != JOY1 ==> n.joy_freeze == self.joy_freeze && n.joy1_shift == self.joy1_shift
        }
        &&& 0x4018 <= addr < 0x4020 ==> n == *self
        &&& addr >= 0x4020 ==> {
            &&& n.internal_ram == self.internal_ram
            &&& n.io_registers == self.io_registers
            &&& n.ppu == self.ppu
            &&& n.joy1_in == self.joy1_in
            &&& n.joy1_shift == self.joy1_shift
            &&& n.joy_freeze == self.joy_freeze
            &&& n.mapper.prg_rom@ == self.mapper.prg_rom@
            &&& 0x6000 <= addr <= 0x7FFF ==> n.mapper.prg_ram@ == self.mapper.prg_ram@.update(
                addr - 0x6000,
                data,
            )
            &&& !(0x6000 <= addr <= 0x7FFF) ==> n.mapper.prg_ram@ == self.mapper.prg_ram@
        }
    }

    /// A bus with zeroed RAM around the given cartridge and PPU.
    pub fn new(mapper: CPUMapper000, ppu: NESPpu) -> (r: Self)
        requires
            mapper.wf(),
            ppu.wf(),
        ensures
            r.wf(),
            r.mapper == mapper,
            r.ppu == ppu,
            r.joy1_in == 0 && r.joy1_shift == 0 && !r.joy_freeze,
            forall|i: int| 0 <= i < INTERNAL_RAM_SIZE ==> r.internal_ram@[i] == 0,
    {
        Self {
            internal_ram: vec![0u8; INTERNAL_RAM_SIZE],
            io_registers: vec![0u8; IO_REGISTER_COUNT],
            mapper,
            ppu,
            joy1_in: 0,
            joy1_shift: 0,
            joy_freeze: false,
        }
    }

    /// A read without side effects, for debuggers and traces. The PPU
    /// registers read as zero here.
    pub fn observe(&self, addr: u16) -> (r: u8)
        requires
            self.wf(),
        ensures
            r == self.peek_spec(addr),
    {
        if addr < 0x2000 {
            self.internal_ram[(addr % 0x800) as usize]
        } else if addr < 0x4000 {
            0
        } else if addr == JOY1 {
            self.joy1_shift % 2
        } else if addr < 0x4020 {
            0
        } else {
            self.mapper.read(addr)
        }
    }

    /// Little-endian word at `addr`, read without side effects.
    pub fn observe_16(&self, addr: u16) -> (r: u16)
        requires
            self.wf(),
        ensures
            r == self.peek16_spec(addr),
    {
        let lo: u8 = self.observe(addr);
        let hi: u8 = self.observe(addr.wrapping_add(1));
        lo as u16 + 256 * (hi as u16)
    }

    /// A read with the side effects the hardware has.
    pub fn read(&mut self, addr: u16) -> (r: u8)
        requires
            old(self).wf(),
        ensures
            r == old(self).read_result(addr),
            old(self).read_post(*final(self), addr),
    {
        if is_ppu_register_exec(addr) {
            self.ppu.ppu_register_read(addr)
        } else if addr == JOY1 {
            let data: u8 = self.joy1_shift % 2;
            if !self.joy_freeze {
                self.joy1_shift = self.joy1_shift / 2;
            }
            data
        } else {
            self.observe(addr)
        }
    }

    /// Little-endian word at `addr` and `addr + 1` (wrapping), with the side
    /// effects of both reads, low byte first.
    pub fn read_16(&mut self, addr: u16) -> (r: u16)
        requires
            old(self).wf(),
        ensures
            final(self).wf(),
            exists|mid: CPUMemory| #[trigger]
                old(self).read_post(mid, addr) && mid.read_post(
                    *final(self),
                    ((addr + 1) % 0x10000) as u16,
                ) && r == old(self).read_result(addr) as int + 256 * mid.read_result(
                    ((addr + 1) % 0x10000) as u16,
                ) as int,
    {
        let lo: u8 = self.read(addr);
        let ghost mid = *self;
        let hi: u8 = self.read(addr.wrapping_add(1));
        assert(old(self).read_post(mid, addr) && mid.read_post(*self, ((addr + 1) % 0x10000) as u16));
        lo as u16 + 256 * (hi as u16)
    }

    /// A write, routed by address.
    pub fn write(&mut self, addr: u16, data: u8)
        requires
            old(self).wf(),
        ensures
            old(self).write_post(*final(self), addr, data),
    {
        if addr < 0x2000 {
            self.internal_ram[(addr % 0x800) as usize] = data;
        } else if addr < 0x4000 {
            self.ppu.ppu_register_write(addr, data);
        } else if addr < 0x4018 {
            if addr == JOY1 {
                if data % 2 == 1 {
                    self.joy_freeze = true;
                    self.joy1_shift = self.joy1_in;
                } else {
                    self.joy_freeze = false;
                }
            }
            self.io_registers[(addr - 0x4000) as usize] = data;
        } else if addr >= 0x4020 {
            self.mapper.write(addr, data);
        }
    }
}

fn is_ppu_register_exec(addr: u16) -> (r: bool)
    ensures
        r == is_ppu_register(addr),
{
    0x2000 <= addr && addr < 0x4000
}

/// Reading internal RAM at any of its four mirrors gives the same byte.
pub proof fn lemma_ram_mirroring(m: CPUMemory, addr: u16)
    requires
        m.wf(),
        addr < 0x2000,
    ensures
        m.peek_spec(addr) == m.peek_spec((addr % 0x800) as u16),
        m.read_result(addr) == m.read_result((addr % 0x800) as u16),
        m.read_result(addr) == m.internal_ram@[addr as int % 0x800],
{
}

/// A write to internal RAM or to PRG RAM is read back unchanged, silently or not.
pub proof fn lemma_write_then_read(m: CPUMemory, n: CPUMemory, addr: u16, data: u8)
    requires
        m.wf(),
        m.write_post(n, addr, data),
        addr < 0x2000 || (0x6000 <= addr <= 0x7FFF),
    ensures
        n.peek_spec(addr) == data,
        n.read_result(addr) == data,
{
}

} // verus!
