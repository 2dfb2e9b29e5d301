use vstd::prelude::*;

use crate::cpu::{tick_post, NESCpu, StatusRegister};
use crate::mem::CPUMemory;
use crate::mapper::{copy_bytes, valid_prg_size};
use crate::ppu::{dots_until, frame_position, vblank_start, CTRL_NMI_ENABLED};
use crate::{Mirroring, NesError};

verus! {

/// PPU dots per CPU cycle.
pub const DOTS_PER_CPU_TICK: usize = 3;

/// A whole console: the CPU, and through its bus the PPU and the cartridge.
pub struct Core {
    pub cpu: NESCpu,
}

impl Core {
    pub open spec fn wf(&self) -> bool {
        self.cpu.wf()
    }

    /// A console with an NROM cartridge of the given mirroring; other
    /// mappers and four-screen mirroring are refused.
    pub fn new(mapper_id: usize, mirroring: Mirroring) -> (r: Result<Core, NesError>)
        ensures
            r is Err <==> (mapper_id != 0 || mirroring == Mirroring::FourScreen),
            r is Err ==> r == Err::<Core, NesError>(NesError::UnsupportedMapper),
            r matches Ok(c) ==> {
                &&& c.wf()
                &&& c.cpu.status == StatusRegister::empty_spec()
                &&& c.cpu.pc == 0 && c.cpu.sp == 0 && c.cpu.a == 0 && c.cpu.x == 0 && c.cpu.y == 0
                &&& c.cpu.memory.ppu.is_power_on()
                &&& c.cpu.memory.ppu.mapper.mirroring == mirroring
                &&& c.cpu.memory.mapper.prg_rom@.len() == 0
            },
    {
        match NESCpu::new(mapper_id, mirroring) {
            Ok(cpu) => Ok(Core { cpu }),
            Err(e) => Err(e),
        }
    }

    /// Installs a 16 or 32 KiB PRG ROM.
    pub fn load_prg(&mut self, prg: &Vec<u8>)
        requires
            old(self).wf(),
            valid_prg_size(prg@.len()),
        ensures
            final(self).wf(),
            final(self).cpu.memory.mapper.prg_rom@ == prg@,
            final(self).cpu.memory.mapper.prg_ram@ == old(self).cpu.memory.mapper.prg_ram@,
            final(self).cpu.memory.ppu == old(self).cpu.memory.ppu,
    {
        self.cpu.memory.mapper.load_rom(prg);
    }

    /// Installs the CHR image.
    pub fn load_chr(&mut self, chr: &Vec<u8>)
        requires
            old(self).wf(),
        ensures
            final(self).wf(),
            final(self).cpu.memory.ppu.mapper.chr_rom@ == chr@,
            final(self).cpu.memory.ppu.mapper.mirroring == old(self).cpu.memory.ppu.mapper.mirroring,
            final(self).cpu.memory.mapper == old(self).cpu.memory.mapper,
    {
        self.cpu.memory.ppu.mapper.load_rom(chr);
    }

    /// The reset signal (see `NESCpu::reset`).
    pub fn reset(&mut self)
        requires
            old(self).wf(),
        ensures
            final(self).wf(),
            final(self).cpu.pc == old(self).cpu.memory.peek16_spec(crate::cpu::RESET_VECTOR),
            final(self).cpu.status.interrupt_disable,
            final(self).cpu.memory == old(self).cpu.memory,
    {
        self.cpu.reset();
    }

    /// The buttons held on controller 1, bit 0 = A through bit 7 = Right.
    pub fn set_controller1(&mut self, buttons: u8)
        requires
            old(self).wf(),
        ensures
            final(self).wf(),
            final(self).cpu.memory.joy1_in == buttons,
            final(self).cpu.memory.joy1_shift == old(self).cpu.memory.joy1_shift,
            final(self).cpu.memory.ppu == old(self).cpu.memory.ppu,
    {
        self.cpu.memory.joy1_in = buttons;
    }

    /// One CPU cycle followed by three PPU dots. An NMI the PPU raises is
    /// handed to the CPU for its next cycle. A CPU error stops the step
    /// before the PPU runs.
    pub fn step_tick(&mut self) -> (r: Result<(), NesError>)
        requires
            old(self).wf(),
        ensures
            final(self).wf(),
            exists|mid: NESCpu| #[trigger]
                tick_post(old(self).cpu, mid, r) && (r is Err ==> final(self).cpu == mid) && (r is Ok
                    ==> final(self).cpu == (NESCpu {
                    memory: CPUMemory { ppu: final(self).cpu.memory.ppu, ..mid.memory },
                    do_nmi: final(self).cpu.do_nmi,
                    ..mid
                })),
            r is Ok ==> frame_position(final(self).cpu.memory.ppu.scanline, final(self).cpu.memory.ppu.dot)
                == (frame_position(old(self).cpu.memory.ppu.scanline, old(self).cpu.memory.ppu.dot)
                + 3) % 89342,
            r is Ok ==> !final(self).cpu.memory.ppu.nmi_requested,
            r is Ok && old(self).cpu.do_nmi && old(self).cpu.dma_halt ==> final(self).cpu.do_nmi,
            r is Ok && final(self).cpu.memory.ppu.ppu_ctrl & CTRL_NMI_ENABLED != 0 && dots_until(
                frame_position(old(self).cpu.memory.ppu.scanline, old(self).cpu.memory.ppu.dot),
                vblank_start(),
            ) < 3 ==> final(self).cpu.do_nmi,
    {
        let result = self.cpu.tick();
        let ghost mid = self.cpu;
        if result.is_err() {
            assert(tick_post(old(self).cpu, mid, result));
            return result;
        }
        self.cpu.memory.ppu.ppu_tick(DOTS_PER_CPU_TICK);
        if self.cpu.memory.ppu.nmi_requested {
            self.cpu.memory.ppu.nmi_requested = false;
            self.cpu.do_nmi = true;
        }
        assert(self.cpu == (NESCpu {
            memory: CPUMemory { ppu: self.cpu.memory.ppu, ..mid.memory },
            do_nmi: self.cpu.do_nmi,
            ..mid
        }));
        assert(tick_post(old(self).cpu, mid, result));
        result
    }

    /// The finished frame, once per frame: `Some` (and the flag cleared) when
    /// a frame completed since the last call, else `None`.
    pub fn take_frame(&mut self) -> (r: Option<Vec<u8>>)
        requires
            old(self).wf(),
        ensures
            final(self).wf(),
            !final(self).cpu.memory.ppu.frame_ready,
            old(self).cpu.memory.ppu.frame_ready ==> r is Some && r.unwrap()@
                == old(self).cpu.memory.ppu.frame@,
            !old(self).cpu.memory.ppu.frame_ready ==> r is None,
    {
        if self.cpu.memory.ppu.frame_ready {
            self.cpu.memory.ppu.frame_ready = false;
            Some(copy_bytes(&self.cpu.memory.ppu.frame))
        } else {
            None
        }
    }
}

} // verus!
