use vstd::prelude::*;

use crate::Mirroring;

verus! {

/// Size of the PRG RAM window at $6000-$7FFF.
pub const PRG_RAM_SIZE: usize = 8192;

/// What a PPU-side cartridge access resolves to: a byte delivered by the
/// cartridge itself, or an index into the console's 2 KiB nametable RAM.
#[derive(Clone, Copy, Debug, PartialEq, Eq, Structural)]
pub enum PpuBusTarget {
    Byte(u8),
    NameTableIndex(u16),
}

/// CPU side of an NROM cartridge: 16 or 32 KiB of PRG ROM and 8 KiB of PRG RAM.
pub struct CPUMapper000 {
    pub prg_rom: Vec<u8>,
    pub prg_ram: Vec<u8>,
}

/// PPU side of an NROM cartridge: CHR memory and the hardwired mirroring.
pub struct PPUMapper000 {
    pub chr_rom: Vec<u8>,
    pub mirroring: Mirroring,
}

/// True for the PRG ROM sizes that NROM boards carry.
pub open spec fn valid_prg_size(n: nat) -> bool {
    n == 16384 || n == 32768
}

impl CPUMapper000 {
    pub open spec fn wf(&self) -> bool {
        &&& self.prg_ram@.len() == PRG_RAM_SIZE
        &&& (self.prg_rom@.len() == 0 || valid_prg_size(self.prg_rom@.len()))
    }

    /// The byte the cartridge puts on the bus for a CPU read at `addr`.
    /// A 16 KiB ROM appears twice in $8000-$FFFF; nothing loaded reads as zero.
    pub open spec fn read_spec(&self, addr: u16) -> u8 {
        if 0x6000 <= addr <= 0x7FFF {
            self.prg_ram@[addr - 0x6000]
        } else if 0x8000 <= addr && self.prg_rom@.len() > 0 {
            self.prg_rom@[(addr - 0x8000) % (self.prg_rom@.len() as int)]
        } else {
            0
        }
    }

    pub fn new() -> (r: Self)
        ensures
            r.wf(),
            r.prg_rom@.len() == 0,
            forall|i: int| 0 <= i < PRG_RAM_SIZE ==> r.prg_ram@[i] == 0,
    {
        Self { prg_rom: Vec::new(), prg_ram: vec![0u8; PRG_RAM_SIZE] }
    }

    pub fn read(&self, addr: u16) -> (r: u8)
        requires
            self.wf(),
        ensures
            r == self.read_spec(addr),
    {
        if 0x6000 <= addr && addr <= 0x7FFF {
            self.prg_ram[(addr - 0x6000) as usize]
        } else if 0x8000 <= addr && self.prg_rom.len() > 0 {
            self.prg_rom[(addr as usize - 0x8000) % self.prg_rom.len()]
        } else {
            0
        }
    }

    /// Writes land in PRG RAM; the ROM ignores them.
    pub fn write(&mut self, addr: u16, data: u8)
        requires
            old(self).wf(),
        ensures
            final(self).wf(),
            final(self).prg_rom@ == old(self).prg_rom@,
            0x6000 <= addr <= 0x7FFF ==> final(self).prg_ram@ == old(self).prg_ram@.update(
                addr - 0x6000,
                data,
            ),
            !(0x6000 <= addr <= 0x7FFF) ==> final(self).prg_ram@ == old(self).prg_ram@,
    {
        if 0x6000 <= addr && addr <= 0x7FFF {
            self.prg_ram[(addr - 0x6000) as usize] = data;
        }
    }

    /// Installs the PRG ROM image.
    pub fn load_rom(&mut self, rom: &Vec<u8>)
        requires
            old(self).wf(),
            valid_prg_size(rom@.len()),
        ensures
            final(self).wf(),
            final(self).prg_rom@ == rom@,
            final(self).prg_ram@ == old(self).prg_ram@,
    {
        self.prg_rom = copy_bytes(rom);
    }
}

/// Nametable RAM index for a PPU address in $2000-$3EFF under the given
/// mirroring. $3000-$3EFF repeats $2000-$2EFF. Horizontal mirroring folds the
/// bottom pair of nametables onto the second kilobyte; vertical mirroring
/// drops the high nametable bit.
pub open spec fn nametable_index(m: Mirroring, addr: u16) -> u16 {
    let a = ((addr - 0x2000) % 0x1000) as u16;
    match m {
        Mirroring::Horizontal => ((a / 0x800) * 0x400 + a % 0x400) as u16,
        _ => (a % 0x800) as u16,
    }
}

impl PPUMapper000 {
    pub open spec fn wf(&self) -> bool {
        self.mirroring != Mirroring::FourScreen
    }

    /// The target of a PPU-side read at `addr` (below $3F00).
    pub open spec fn read_spec(&self, addr: u16) -> PpuBusTarget {
        if addr < 0x2000 {
            if (addr as int) < self.chr_rom@.len() {
                PpuBusTarget::Byte(self.chr_rom@[addr as int])
            } else {
                PpuBusTarget::Byte(0)
            }
        } else {
            PpuBusTarget::NameTableIndex(nametable_index(self.mirroring, addr))
        }
    }

    pub fn new(mirroring: Mirroring) -> (r: Self)
        requires
            mirroring != Mirroring::FourScreen,
        ensures
            r.wf(),
            r.mirroring == mirroring,
            r.chr_rom@.len() == 0,
    {
        Self { chr_rom: Vec::new(), mirroring }
    }

    /// Installs the CHR image.
    pub fn load_rom(&mut self, rom: &Vec<u8>)
        requires
            old(self).wf(),
        ensures
            final(self).wf(),
            final(self).chr_rom@ == rom@,
            final(self).mirroring == old(self).mirroring,
    {
        self.chr_rom = copy_bytes(rom);
    }

    pub fn read(&self, addr: u16) -> (r: PpuBusTarget)
        requires
            self.wf(),
            addr < 0x3F00,
        ensures
            r == self.read_spec(addr),
            r matches PpuBusTarget::NameTableIndex(i) ==> i < 0x800,
    {
        if addr < 0x2000 {
            if (addr as usize) < self.chr_rom.len() {
                PpuBusTarget::Byte(self.chr_rom[addr as usize])
            } else {
                PpuBusTarget::Byte(0)
            }
        } else {
            PpuBusTarget::NameTableIndex(mirror_nametable(self.mirroring, addr))
        }
    }

    /// A PPU-side write. Pattern-table writes go to CHR memory (when present)
    /// and yield `None`; nametable writes yield the RAM index to store at.
    pub fn write(&mut self, addr: u16, data: u8) -> (r: Option<u16>)
        requires
            old(self).wf(),
            addr < 0x3F00,
        ensures
            final(self).wf(),
            final(self).mirroring == old(self).mirroring,
            addr < 0x2000 && (addr as int) < old(self).chr_rom@.len() ==> final(self).chr_rom@
                == old(self).chr_rom@.update(addr as int, data),
            !(addr < 0x2000 && (addr as int) < old(self).chr_rom@.len()) ==> final(self).chr_rom@
                == old(self).chr_rom@,
            addr < 0x2000 ==> r is None,
            addr >= 0x2000 ==> r == Some(nametable_index(old(self).mirroring, addr)),
            r matches Some(i) ==> i < 0x800,
    {
        if addr < 0x2000 {
            if (addr as usize) < self.chr_rom.len() {
                self.chr_rom[addr as usize] = data;
            }
            None
        } else {
            Some(mirror_nametable(self.mirroring, addr))
        }
    }
}

fn mirror_nametable(m: Mirroring, addr: u16) -> (r: u16)
    requires
        0x2000 <= addr < 0x3F00,
        m != Mirroring::FourScreen,
    ensures
        r == nametable_index(m, addr),
        r < 0x800,
{
    let a: u16 = (addr - 0x2000) % 0x1000;
    match m {
        Mirroring::Horizontal => (a / 0x800) * 0x400 + a % 0x400,
        _ => a % 0x800,
    }
}

/// A fresh vector with the same bytes.
pub fn copy_bytes(src: &Vec<u8>) -> (r: Vec<u8>)
    ensures
        r@ == src@,
{
    let mut r: Vec<u8> = Vec::new();
    let mut i: usize = 0;
    while i < src.len()
        invariant
            i <= src@.len(),
            r@ == src@.subrange(0, i as int),
        decreases src@.len() - i,
    {
        r.push(src[i]);
        i += 1;
        proof {
            assert(r@ =~= src@.subrange(0, i as int));
        }
    }
    assert(r@ =~= src@);
    r
}

} // verus!
