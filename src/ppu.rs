use vstd::prelude::*;

use crate::mapper::{PPUMapper000, PpuBusTarget};
use crate::{Mirroring, NesError};

verus! {

pub const CTRL_VRAM_INCREMENT: u8 = 0x04;
pub const CTRL_SPRITE_TABLE: u8 = 0x08;
pub const CTRL_BACKGROUND_TABLE: u8 = 0x10;
pub const CTRL_NMI_ENABLED: u8 = 0x80;

pub const MASK_GREYSCALE: u8 = 0x01;
pub const MASK_LEFT_BACKGROUND: u8 = 0x02;
pub const MASK_LEFT_SPRITES: u8 = 0x04;
pub const MASK_BACKGROUND: u8 = 0x08;
pub const MASK_SPRITES: u8 = 0x10;

/// Dots in one complete frame.
pub const DOTS_PER_FRAME: u32 = 89342;
pub const FRAME_WIDTH: usize = 256;
pub const FRAME_HEIGHT: usize = 240;
pub const FRAME_SIZE: usize = 61440;

/// The 2C02 picture processing unit.
pub struct NESPpu {
    /// Palette RAM. $3F10/$3F14/$3F18/$3F1C are stored at $3F00/$3F04/$3F08/$3F0C.
    pub palette: Vec<u8>,
    /// The console's 2 KiB of nametable RAM.
    pub vram: Vec<u8>,
    /// Primary OAM: 64 sprites of four bytes {y, tile, attribute, x}.
    pub poam: Vec<u8>,
    /// Secondary OAM: the up to eight sprites found for the next scanline.
    pub soam: Vec<u8>,
    /// Write toggle shared by PPUSCROLL and PPUADDR.
    pub write_toggle: bool,
    /// Scanline being drawn: 0-239 visible, 240 post-render, 241-260 VBLANK, 261 pre-render.
    pub scanline: u16,
    /// Dot within the scanline, 0-340.
    pub dot: u16,
    /// Current VRAM address, laid out as yyy NN YYYYY XXXXX.
    pub vram_v: u16,
    /// Temporary VRAM address, same layout.
    pub vram_t: u16,
    /// Fine X scroll, 0-7.
    pub vram_x: u8,
    pub ppu_ctrl: u8,
    pub ppu_mask: u8,
    /// The three bits of PPUSTATUS.
    pub vblank: bool,
    pub sprite_zero_hit: bool,
    pub sprite_overflow: bool,
    pub oam_address: u8,
    pub bg_pattern_shift_hi: u16,
    pub bg_pattern_shift_lo: u16,
    pub bg_attribute_shift_hi: u16,
    pub bg_attribute_shift_lo: u16,
    pub bg_pattern_next_hi: u8,
    pub bg_pattern_next_lo: u8,
    pub bg_next_tile: u8,
    /// Two-bit palette number of the next tile.
    pub bg_next_attr: u8,
    /// PPUDATA read buffer.
    pub data_buffer: u8,
    /// Sprite evaluation: last byte read from primary OAM, sprite index n,
    /// byte index m, next free secondary slot, stage (1-4), and whether the
    /// remaining bytes of an in-range sprite are being copied.
    pub poam_data: u8,
    pub poam_sprite_index: usize,
    pub poam_byte_index: usize,
    pub soam_slot: usize,
    pub eval_stage: u8,
    pub eval_write_rest: bool,
    /// Sprite fetch latches for the slot being fetched.
    pub sprite_y: u8,
    pub sprite_tile: u8,
    pub sprite_attr: u8,
    pub sprite_x: u8,
    /// Per-slot sprite output units.
    pub sprite_pattern_hi: Vec<u8>,
    pub sprite_pattern_lo: Vec<u8>,
    pub sprite_attribute_latch: Vec<u8>,
    pub sprite_x_counter: Vec<u8>,
    /// Whether slot 0 holds sprite 0 of primary OAM on this scanline.
    pub sprite_zero_on_line: bool,
    pub sprite_zero_next_line: bool,
    /// One palette index per pixel, row after row.
    pub frame: Vec<u8>,
    pub frame_ready: bool,
    /// Raised when VBLANK starts with NMI enabled; the CPU takes it from here.
    pub nmi_requested: bool,
    pub mapper: PPUMapper000,
}

/// Palette RAM slot that a PPU address in $3F00-$3FFF selects.
pub open spec fn palette_slot(addr: u16) -> int {
    let a = addr as int % 32;
    if a >= 16 && a % 4 == 0 {
        a - 16
    } else {
        a
    }
}

/// Position of a (scanline, dot) pair within the frame, counted in dots.
pub open spec fn frame_position(scanline: u16, dot: u16) -> int {
    scanline as int * 341 + dot as int
}

impl NESPpu {
    pub open spec fn wf(&self) -> bool {
        &&& self.palette@.len() == 32
        &&& self.vram@.len() == 2048
        &&& self.poam@.len() == 256
        &&& self.soam@.len() == 32
        &&& self.sprite_pattern_hi@.len() == 8
        &&& self.sprite_pattern_lo@.len() == 8
        &&& self.sprite_attribute_latch@.len() == 8
        &&& self.sprite_x_counter@.len() == 8
        &&& self.frame@.len() == FRAME_SIZE
        &&& self.scanline < 262
        &&& self.dot < 341
        &&& self.vram_v < 0x8000
        &&& self.vram_t < 0x8000
        &&& self.vram_x < 8
        &&& self.bg_next_attr < 4
        &&& self.poam_sprite_index < 64
        &&& self.poam_byte_index < 4
        &&& self.soam_slot <= 8
        &&& 1 <= self.eval_stage <= 4
        &&& (self.eval_write_rest ==> self.soam_slot < 8)
        &&& (self.eval_stage == 1 ==> self.soam_slot < 8)
        &&& self.mapper.wf()
    }

    pub open spec fn greyscale(&self) -> bool {
        self.ppu_mask & MASK_GREYSCALE != 0
    }

    pub open spec fn rendering_enabled(&self) -> bool {
        self.ppu_mask & (MASK_BACKGROUND | MASK_SPRITES) != 0
    }

    /// The PPUSTATUS byte.
    pub open spec fn status_spec(&self) -> u8 {
        ((if self.vblank { 0x80u8 } else { 0u8 }) | (if self.sprite_zero_hit { 0x40u8 } else { 0u8 })
            | (if self.sprite_overflow { 0x20u8 } else { 0u8 }))
    }

    /// Amount PPUDATA accesses add to v.
    pub open spec fn vram_increment(&self) -> u16 {
        if self.ppu_ctrl & CTRL_VRAM_INCREMENT != 0 {
            32
        } else {
            1
        }
    }

    /// What the PPU reads at `addr` of its own 14-bit address space.
    pub open spec fn read_spec(&self, addr: u16) -> u8 {
        let a = (addr % 0x4000) as u16;
        if a < 0x3F00 {
            match self.mapper.read_spec(a) {
                PpuBusTarget::Byte(b) => b,
                PpuBusTarget::NameTableIndex(i) => self.vram@[i as int],
            }
        } else {
            self.palette@[palette_slot(a)] & (if self.greyscale() { 0x30u8 } else { 0x3Fu8 })
        }
    }

    /// The state at power-on: position (0, 0), all registers, flags, latches
    /// and memories zero, nothing loaded.
    pub open spec fn is_power_on(&self) -> bool {
        &&& self.scanline == 0 && self.dot == 0
        &&& !self.vblank && !self.sprite_zero_hit && !self.sprite_overflow
        &&& !self.frame_ready && !self.nmi_requested && !self.write_toggle
        &&& self.ppu_ctrl == 0 && self.ppu_mask == 0 && self.oam_address == 0
        &&& self.vram_v == 0 && self.vram_t == 0 && self.vram_x == 0 && self.data_buffer == 0
        &&& self.mapper.chr_rom@.len() == 0
        &&& forall|i: int| 0 <= i < 32 ==> self.palette@[i] == 0
        &&& forall|i: int| 0 <= i < 2048 ==> self.vram@[i] == 0
        &&& forall|i: int| 0 <= i < 256 ==> self.poam@[i] == 0
        &&& forall|i: int| 0 <= i < FRAME_SIZE ==> self.frame@[i] == 0
    }

    /// A fresh PPU at scanline 0, dot 0, for an NROM cartridge with the given mirroring.
    pub fn new(mapper_id: usize, mirroring: Mirroring) -> (r: Result<Self, NesError>)
        ensures
            r is Err <==> (mapper_id != 0 || mirroring == Mirroring::FourScreen),
            r is Err ==> r == Err::<Self, NesError>(NesError::UnsupportedMapper),
            r matches Ok(p) ==> p.wf() && p.is_power_on() && p.mapper.mirroring == mirroring,
    {
        if mapper_id != 0 {
            return Err(NesError::UnsupportedMapper);
        }
        if let Mirroring::FourScreen = mirroring {
            return Err(NesError::UnsupportedMapper);
        }
        Ok(Self {
            palette: vec![0u8; 32],
            vram: vec![0u8; 2048],
            poam: vec![0u8; 256],
            soam: vec![0u8; 32],
            write_toggle: false,
            scanline: 0,
            dot: 0,
            vram_v: 0,
            vram_t: 0,
            vram_x: 0,
            ppu_ctrl: 0,
            ppu_mask: 0,
            vblank: false,
            sprite_zero_hit: false,
            sprite_overflow: false,
            oam_address: 0,
            bg_pattern_shift_hi: 0,
            bg_pattern_shift_lo: 0,
            bg_attribute_shift_hi: 0,
            bg_attribute_shift_lo: 0,
            bg_pattern_next_hi: 0,
            bg_pattern_next_lo: 0,
            bg_next_tile: 0,
            bg_next_attr: 0,
            data_buffer: 0,
            poam_data: 0xFF,
            poam_sprite_index: 0,
            poam_byte_index: 0,
            soam_slot: 0,
            eval_stage: 1,
            eval_write_rest: false,
            sprite_y: 0,
            sprite_tile: 0,
            sprite_attr: 0,
            sprite_x: 0,
            sprite_pattern_hi: vec![0u8; 8],
            sprite_pattern_lo: vec![0u8; 8],
            sprite_attribute_latch: vec![0u8; 8],
            sprite_x_counter: vec![0u8; 8],
            sprite_zero_on_line: false,
            sprite_zero_next_line: false,
            frame: vec![0u8; FRAME_SIZE],
            frame_ready: false,
            nmi_requested: false,
            mapper: PPUMapper000::new(mirroring),
        })
    }

    /// The PPUSTATUS byte: VBLANK in bit 7, sprite-0 hit in bit 6, overflow in bit 5.
    pub fn status(&self) -> (r: u8)
        ensures
            r == self.status_spec(),
    {
        (if self.vblank { 0x80u8 } else { 0u8 }) | (if self.sprite_zero_hit { 0x40u8 } else { 0u8 })
            | (if self.sprite_overflow { 0x20u8 } else { 0u8 })
    }

    /// A read of the PPU address space, without side effects.
    pub fn read(&self, addr: u16) -> (r: u8)
        requires
            self.wf(),
        ensures
            r == self.read_spec(addr),
    {
        let a: u16 = addr % 0x4000;
        if a < 0x3F00 {
            match self.mapper.read(a) {
                PpuBusTarget::Byte(b) => b,
                PpuBusTarget::NameTableIndex(i) => self.vram[i as usize],
            }
        } else {
            let slot: usize = palette_index(a);
            let mask: u8 = if self.ppu_mask & MASK_GREYSCALE != 0 { 0x30 } else { 0x3F };
            self.palette[slot] & mask
        }
    }

    /// A write to the PPU address space. Palette mirrors share storage, so a
    /// write to $3F10 is seen at $3F00 and the other way round.
    pub fn write(&mut self, addr: u16, data: u8)
        requires
            old(self).wf(),
        ensures
            final(self).wf(),
            ({
                let a = (addr % 0x4000) as u16;
                &&& a >= 0x3F00 ==> final(self).palette@ == old(self).palette@.update(
                    palette_slot(a),
                    data,
                )
                &&& a >= 0x3F00 ==> final(self).vram@ == old(self).vram@
                &&& a >= 0x3F00 ==> final(self).mapper == old(self).mapper
                &&& 0x2000 <= a < 0x3F00 ==> final(self).vram@ == old(self).vram@.update(
                    crate::mapper::nametable_index(old(self).mapper.mirroring, a) as int,
                    data,
                )
                &&& a < 0x3F00 ==> final(self).palette@ == old(self).palette@
                &&& a < 0x2000 ==> final(self).vram@ == old(self).vram@
            }),
            final(self).mapper.mirroring == old(self).mapper.mirroring,
            chr_after_write(old(self).mapper.chr_rom@, final(self).mapper.chr_rom@, addr, data),
            final(self).poam == old(self).poam,
            final(self).scanline == old(self).scanline,
            final(self).dot == old(self).dot,
            final(self).vblank == old(self).vblank,
            final(self).ppu_ctrl == old(self).ppu_ctrl,
            final(self).ppu_mask == old(self).ppu_mask,
            final(self).vram_v == old(self).vram_v,
            final(self).vram_t == old(self).vram_t,
            final(self).write_toggle == old(self).write_toggle,
            final(self).oam_address == old(self).oam_address,
            final(self).data_buffer == old(self).data_buffer,
            final(self).frame_ready == old(self).frame_ready,
            final(self).nmi_requested == old(self).nmi_requested,
            final(self).frame == old(self).frame,
            final(self).sprite_zero_hit == old(self).sprite_zero_hit,
            final(self).sprite_overflow == old(self).sprite_overflow,
    {
        let a: u16 = addr % 0x4000;
        if a < 0x3F00 {
            match self.mapper.write(a, data) {
                Some(i) => {
                    self.vram[i as usize] = data;
                },
                None => {},
            }
        } else {
            let slot: usize = palette_index(a);
            self.palette[slot] = data;
        }
    }

    /// How a CPU write of `data` to PPU register `addr % 8` changes the PPU.
    pub open spec fn register_write_post(&self, n: NESPpu, addr: u16, data: u8) -> bool {
        let o = *self;
        &&& n.scanline == o.scanline
        &&& n.dot == o.dot
        &&& n.vblank == o.vblank
        &&& n.frame_ready == o.frame_ready
        &&& n.nmi_requested == o.nmi_requested
        &&& n.mapper.mirroring == o.mapper.mirroring
        &&& addr % 8 == 0 ==> (n.vram_t == t_after_ctrl(o.vram_t, data) && n.ppu_ctrl == data && n.ppu_mask == o.ppu_mask && n.vram_v == o.vram_v && n.write_toggle == o.write_toggle && n.poam == o.poam)
        &&& addr % 8 == 1 ==> (n.ppu_mask == data && n.ppu_ctrl == o.ppu_ctrl && n.vram_t == o.vram_t && n.vram_v == o.vram_v && n.write_toggle == o.write_toggle && n.poam == o.poam)
        &&& addr % 8 == 3 ==> (n.oam_address == data && n.ppu_ctrl == o.ppu_ctrl && n.ppu_mask == o.ppu_mask && n.poam == o.poam)
        &&& addr % 8 == 4 ==> (n.poam@ == o.poam@.update(o.oam_address as int, data) && n.oam_address == (o.oam_address + 1) % 256 && n.ppu_ctrl == o.ppu_ctrl && n.ppu_mask == o.ppu_mask)
        &&& addr % 8 == 5 ==> (n.write_toggle == !o.write_toggle && n.vram_v == o.vram_v && n.ppu_ctrl == o.ppu_ctrl && n.ppu_mask == o.ppu_mask && n.poam == o.poam && (!o.write_toggle ==> n.vram_x == data % 8 && n.vram_t == t_after_scroll_x(o.vram_t, data)) && (o.write_toggle ==> n.vram_x == o.vram_x && n.vram_t == t_after_scroll_y(o.vram_t, data)))
        &&& addr % 8 == 6 ==> (n.write_toggle == !o.write_toggle && n.ppu_ctrl == o.ppu_ctrl && n.ppu_mask == o.ppu_mask && n.poam == o.poam && (!o.write_toggle ==> n.vram_t == t_after_addr_high(o.vram_t, data) && n.vram_v == o.vram_v) && (o.write_toggle ==> n.vram_t == t_after_addr_low(o.vram_t, data) && n.vram_v == n.vram_t))
        &&& addr % 8 == 7 ==> (n.vram_v == (o.vram_v + o.vram_increment()) % 0x8000 && n.ppu_ctrl == o.ppu_ctrl && n.ppu_mask == o.ppu_mask && n.poam == o.poam && n.write_toggle == o.write_toggle && (o.vram_v % 0x4000 >= 0x3F00 ==> n.palette@ == o.palette@.update( palette_slot((o.vram_v % 0x4000) as u16), data)) && (0x2000 <= o.vram_v % 0x4000 < 0x3F00 ==> n.vram@ == o.vram@.update( crate::mapper::nametable_index(o.mapper.mirroring, (o.vram_v % 0x4000) as u16) as int, data)))
        &&& addr % 8 == 2 ==> (n.vram_v == o.vram_v && n.vram_t == o.vram_t && n.ppu_ctrl == o.ppu_ctrl && n.ppu_mask == o.ppu_mask && n.write_toggle == o.write_toggle && n.poam == o.poam)
        &&& n.data_buffer == o.data_buffer
        &&& n.sprite_zero_hit == o.sprite_zero_hit
        &&& n.sprite_overflow == o.sprite_overflow
        &&& n.frame == o.frame
        &&& addr % 8 != 7 ==> n.palette == o.palette && n.vram == o.vram && n.mapper == o.mapper
    }

    /// Effect of a CPU write to PPU register `addr % 8` ($2000-$2007).
    pub fn ppu_register_write(&mut self, addr: u16, data: u8)
        requires
            old(self).wf(),
        ensures
            final(self).wf(),
            old(self).register_write_post(*final(self), addr, data),
    {
        proof {
            lemma_loopy_bounds(self.vram_t, data);
        }
        let reg: u16 = addr % 8;
        if reg == 0 {
            self.vram_t = (self.vram_t & 0xF3FF) | (((data & 0x3) as u16) << 10);
            self.ppu_ctrl = data;
        } else if reg == 1 {
            self.ppu_mask = data;
        } else if reg == 3 {
            self.oam_address = data;
        } else if reg == 4 {
            self.poam[self.oam_address as usize] = data;
            self.oam_address = if self.oam_address == 255 { 0 } else { self.oam_address + 1 };
        } else if reg == 5 {
            if !self.write_toggle {
                self.vram_x = data % 8;
                self.vram_t = (self.vram_t & 0xFFE0) | ((data >> 3) as u16);
            } else {
                self.vram_t = (self.vram_t & 0x8C1F) | (((data & 0x07) as u16) << 12) | (((data
                    & 0xF8) as u16) << 2);
            }
            self.write_toggle = !self.write_toggle;
        } else if reg == 6 {
            if !self.write_toggle {
                self.vram_t = (self.vram_t & 0x00FF) | (((data & 0x3F) as u16) << 8);
            } else {
                self.vram_t = (self.vram_t & 0xFF00) | (data as u16);
                self.vram_v = self.vram_t;
            }
            self.write_toggle = !self.write_toggle;
        } else if reg == 7 {
            let v: u16 = self.vram_v;
            self.write(v, data);
            self.vram_v = (v + self.increment()) % 0x8000;
        }
    }

    /// Amount PPUDATA accesses add to v: 32 when PPUCTRL selects going down, else 1.
    fn increment(&self) -> (r: u16)
        ensures
            r == self.vram_increment(),
    {
        if self.ppu_ctrl & CTRL_VRAM_INCREMENT != 0 {
            32
        } else {
            1
        }
    }

    /// The byte a CPU read of PPU register `addr % 8` returns.
    pub open spec fn register_read_spec(&self, addr: u16) -> u8 {
        match addr % 8 {
            2 => self.status_spec(),
            4 => self.poam@[self.oam_address as int],
            7 => if self.vram_v % 0x4000 < 0x3F00 {
                self.data_buffer
            } else {
                self.read_spec(self.vram_v)
            },
            _ => 0,
        }
    }

    /// How a CPU read of PPU register `addr % 8` changes the PPU.
    pub open spec fn register_read_post(&self, n: NESPpu, addr: u16) -> bool {
        let o = *self;
        &&& n.scanline == o.scanline
        &&& n.dot == o.dot
        &&& n.frame_ready == o.frame_ready
        &&& n.nmi_requested == o.nmi_requested
        &&& n.ppu_ctrl == o.ppu_ctrl
        &&& n.ppu_mask == o.ppu_mask
        &&& n.poam == o.poam
        &&& n.palette == o.palette
        &&& n.vram == o.vram
        &&& n.mapper == o.mapper
        &&& n.vram_t == o.vram_t
        &&& addr % 8 == 2 ==> !n.vblank && !n.write_toggle && n.sprite_zero_hit == o.sprite_zero_hit && n.sprite_overflow == o.sprite_overflow && n.vram_v == o.vram_v
        &&& addr % 8 == 7 ==> n.vram_v == (o.vram_v + o.vram_increment()) % 0x8000 && n.vblank == o.vblank && n.write_toggle == o.write_toggle && n.data_buffer == (if o.vram_v % 0x4000 < 0x3F00 { o.read_spec(o.vram_v) } else { o.read_spec((o.vram_v % 0x4000 - 0x1000) as u16) })
        &&& addr % 8 != 2 && addr % 8 != 7 ==> n.vblank == o.vblank && n.write_toggle == o.write_toggle && n.vram_v == o.vram_v && n.data_buffer == o.data_buffer
        &&& n.sprite_zero_hit == o.sprite_zero_hit
        &&& n.sprite_overflow == o.sprite_overflow
        &&& n.frame == o.frame
    }

    /// A CPU read of PPU register `addr % 8`, with its side effects: reading
    /// PPUSTATUS clears VBLANK and the write toggle; reading PPUDATA refills
    /// the buffer and advances v. Write-only registers read as zero.
    pub fn ppu_register_read(&mut self, addr: u16) -> (r: u8)
        requires
            old(self).wf(),
        ensures
            final(self).wf(),
            r == old(self).register_read_spec(addr),
            old(self).register_read_post(*final(self), addr),
    {
        let reg: u16 = addr % 8;
        if reg == 2 {
            let data = self.status();
            self.vblank = false;
            self.write_toggle = false;
            data
        } else if reg == 4 {
            self.poam[self.oam_address as usize]
        } else if reg == 7 {
            let v: u16 = self.vram_v;
            let data: u8;
            if v % 0x4000 < 0x3F00 {
                data = self.data_buffer;
                self.data_buffer = self.read(v);
            } else {
                data = self.read(v);
                self.data_buffer = self.read(v % 0x4000 - 0x1000);
            }
            self.vram_v = (v + self.increment()) % 0x8000;
            data
        } else {
            0
        }
    }

    /// Background fetch and shift work of one dot (dots 2-257 and 321-337 of a
    /// rendering scanline; the reload at 337 lines up the second prefetched tile).
    fn background_dot(&mut self)
        requires
            old(self).wf(),
        ensures
            final(self).wf(),
            same_timing(*old(self), *final(self)),
            same_eval(*old(self), *final(self)),
            final(self).sprite_overflow == old(self).sprite_overflow,
            final(self).sprite_zero_hit == old(self).sprite_zero_hit,
            ({
                let o = *old(self);
                let phase = (o.dot as int + 7) % 8;
                &&& phase == 0 ==> final(self).bg_next_tile == o.read_spec(tile_address(o.vram_v))
                &&& phase == 2 ==> final(self).bg_next_attr == attribute_palette(
                    o.vram_v,
                    o.read_spec(attribute_address(o.vram_v)),
                )
                &&& (phase == 7 && o.rendering_enabled()) ==> final(self).vram_v == coarse_x_step(
                    o.vram_v,
                )
                &&& !(phase == 7 && o.rendering_enabled()) ==> final(self).vram_v == o.vram_v
            }),
    {
        proof {
            lemma_scroll_bounds(self.vram_v, self.vram_t);
        }
        if self.ppu_mask & MASK_BACKGROUND != 0 {
            self.bg_pattern_shift_hi = self.bg_pattern_shift_hi << 1;
            self.bg_pattern_shift_lo = self.bg_pattern_shift_lo << 1;
            self.bg_attribute_shift_hi = self.bg_attribute_shift_hi << 1;
            self.bg_attribute_shift_lo = self.bg_attribute_shift_lo << 1;
        }
        let v: u16 = self.vram_v;
        let phase: u16 = (self.dot + 7) % 8;
        if phase == 0 {
            self.bg_pattern_shift_hi = (self.bg_pattern_shift_hi & 0xFF00) | (self.bg_pattern_next_hi as u16);
            self.bg_pattern_shift_lo = (self.bg_pattern_shift_lo & 0xFF00) | (self.bg_pattern_next_lo as u16);
            let attr_lo: u16 = if self.bg_next_attr % 2 == 1 { 0xFF } else { 0 };
            let attr_hi: u16 = if self.bg_next_attr >= 2 { 0xFF } else { 0 };
            self.bg_attribute_shift_lo = (self.bg_attribute_shift_lo & 0xFF00) | attr_lo;
            self.bg_attribute_shift_hi = (self.bg_attribute_shift_hi & 0xFF00) | attr_hi;
            let (tile_addr, _attr_addr) = tile_attr_from_vram_addr(v);
            self.bg_next_tile = self.read(tile_addr);
        } else if phase == 2 {
            let (_tile_addr, attr_addr) = tile_attr_from_vram_addr(v);
            let attr: u8 = self.read(attr_addr);
            let shift: u8 = (if (v / 64) % 2 == 1 { 4u8 } else { 0u8 }) + (if (v / 2) % 2 == 1 {
                2u8
            } else {
                0u8
            });
            self.bg_next_attr = (attr >> shift) % 4;
        } else if phase == 4 {
            let table: u16 = if self.ppu_ctrl & CTRL_BACKGROUND_TABLE != 0 { 0x1000 } else { 0 };
            self.bg_pattern_next_lo = self.read(table | ((self.bg_next_tile as u16) << 4) | (v >> 12));
        } else if phase == 6 {
            let table: u16 = if self.ppu_ctrl & CTRL_BACKGROUND_TABLE != 0 { 0x1000 } else { 0 };
            self.bg_pattern_next_hi = self.read(table | ((self.bg_next_tile as u16) << 4) | ((v >> 12) + 8));
        } else if phase == 7 {
            if self.ppu_mask & (MASK_BACKGROUND | MASK_SPRITES) != 0 {
                self.vram_v = increment_coarse_x(v);
            }
        }
    }

    /// One read of the overflow scan: look at byte m of sprite n as if it
    /// were a Y coordinate.
    fn overflow_scan_dot(&mut self)
        requires
            old(self).wf(),
            old(self).eval_stage == 3,
        ensures
            final(self).wf(),
            same_timing(*old(self), *final(self)),
            final(self).sprite_zero_hit == old(self).sprite_zero_hit,
            final(self).vram_v == old(self).vram_v,
            ({
                let o = *old(self);
                let data = o.poam@[4 * o.poam_sprite_index + o.poam_byte_index];
                let r = overflow_scan(
                    sprite_in_range(data, o.scanline),
                    o.poam_sprite_index,
                    o.poam_byte_index,
                );
                &&& final(self).sprite_overflow == (o.sprite_overflow || r.0)
                &&& final(self).poam_sprite_index == r.1
                &&& final(self).poam_byte_index == r.2
                &&& final(self).eval_stage == r.3
                &&& final(self).poam_data == data
            }),
            final(self).soam == old(self).soam,
            final(self).soam_slot == old(self).soam_slot,
            final(self).eval_write_rest == old(self).eval_write_rest,
            same_background(*old(self), *final(self)),
    {
        let n: usize = self.poam_sprite_index;
        let m: usize = self.poam_byte_index;
        let data: u8 = self.poam[4 * n + m];
        self.poam_data = data;
        if (data as u16) <= self.scanline && self.scanline < (data as u16) + 8 {
            self.sprite_overflow = true;
            self.eval_stage = 4;
        } else {
            self.poam_byte_index = (m + 1) % 4;
            if n + 1 >= 64 {
                self.poam_sprite_index = 0;
                self.eval_stage = 4;
            } else {
                self.poam_sprite_index = n + 1;
            }
        }
    }

    /// Sprite evaluation and sprite fetch work of one dot of a visible
    /// scanline with rendering on.
    fn sprite_dot(&mut self)
        requires
            old(self).wf(),
            old(self).scanline < 240,
            old(self).rendering_enabled(),
        ensures
            final(self).wf(),
            same_timing(*old(self), *final(self)),
            final(self).sprite_zero_hit == old(self).sprite_zero_hit,
            final(self).vram_v == old(self).vram_v,
            eval_after_dot(*old(self), *final(self)),
            final(self).sprite_overflow == overflow_after_dot(*old(self)),
            same_background(*old(self), *final(self)),
    {
        let d: u16 = self.dot;
        if 1 <= d && d <= 32 {
            self.soam[(d - 1) as usize] = 0xFF;
            assert(same_eval(NESPpu { soam: self.soam, ..*old(self) }, *self));
        } else if 65 <= d && d <= 256 {
            if d % 2 == 1 {
                if self.eval_stage == 1 {
                    self.poam_data = self.poam[4 * self.poam_sprite_index + self.poam_byte_index];
                } else if self.eval_stage == 3 {
                    self.overflow_scan_dot();
                }
            } else {
                self.sprite_eval_write();
            }
        } else if 257 <= d && d <= 320 {
            if d == 257 {
                self.eval_stage = 1;
                self.soam_slot = 0;
                self.poam_sprite_index = 0;
                self.poam_byte_index = 0;
                self.eval_write_rest = false;
                self.sprite_zero_on_line = self.sprite_zero_next_line;
                self.sprite_zero_next_line = false;
            }
            self.sprite_fetch_dot();
        }
    }

    /// The write half of sprite evaluation (even dots 66-256).
    fn sprite_eval_write(&mut self)
        requires
            old(self).wf(),
        ensures
            final(self).wf(),
            same_timing(*old(self), *final(self)),
            final(self).sprite_zero_hit == old(self).sprite_zero_hit,
            final(self).sprite_overflow == old(self).sprite_overflow,
            final(self).vram_v == old(self).vram_v,
            eval_write_post(*old(self), *final(self)),
            same_background(*old(self), *final(self)),
    {
        if self.eval_stage == 1 {
            let slot: usize = self.soam_slot;
            if self.eval_write_rest {
                let m: usize = self.poam_byte_index;
                self.soam[4 * slot + m] = self.poam_data;
                if m + 1 >= 4 {
                    self.eval_write_rest = false;
                    self.poam_byte_index = 0;
                    self.soam_slot = slot + 1;
                    self.eval_stage = 2;
                } else {
                    self.poam_byte_index = m + 1;
                }
            } else {
                let y: u8 = self.poam_data;
                self.soam[4 * slot] = y;
                if (y as u16) <= self.scanline && self.scanline < (y as u16) + 8 {
                    if self.poam_sprite_index == 0 {
                        self.sprite_zero_next_line = true;
                    }
                    self.poam_byte_index = 1;
                    self.eval_write_rest = true;
                } else {
                    self.poam_byte_index = 0;
                    self.eval_stage = 2;
                }
            }
        } else if self.eval_stage == 2 {
            if self.poam_sprite_index + 1 >= 64 {
                self.poam_sprite_index = 0;
                self.eval_stage = 4;
            } else {
                self.poam_sprite_index = self.poam_sprite_index + 1;
                if self.soam_slot < 8 {
                    self.eval_stage = 1;
                } else {
                    self.poam_byte_index = 0;
                    self.eval_stage = 3;
                }
            }
        }
    }

    /// Pattern row of the latched sprite on the current scanline, flipped
    /// vertically when attribute bit 7 is set.
    fn sprite_row(&self) -> (r: u16)
        ensures
            r < 8,
    {
        let row: u16 = self.scanline.wrapping_sub(self.sprite_y as u16) % 8;
        if self.sprite_attr & 0x80 != 0 {
            7 - row
        } else {
            row
        }
    }

    /// Sprite fetch for the next scanline: eight slots of eight dots each
    /// (dots 257-320).
    fn sprite_fetch_dot(&mut self)
        requires
            old(self).wf(),
            257 <= old(self).dot <= 320,
        ensures
            final(self).wf(),
            same_timing(*old(self), *final(self)),
            final(self).sprite_zero_hit == old(self).sprite_zero_hit,
            final(self).sprite_overflow == old(self).sprite_overflow,
            final(self).vram_v == old(self).vram_v,
            final(self).eval_stage == old(self).eval_stage,
            final(self).soam_slot == old(self).soam_slot,
            final(self).eval_write_rest == old(self).eval_write_rest,
            final(self).poam_sprite_index == old(self).poam_sprite_index,
            final(self).poam_byte_index == old(self).poam_byte_index,
            same_eval(*old(self), *final(self)),
            same_background(*old(self), *final(self)),
    {
        let slot: usize = ((self.dot - 257) / 8) as usize;
        let phase: u16 = (self.dot - 257) % 8;
        if phase == 0 {
            self.sprite_y = self.soam[slot * 4];
            self.sprite_tile = self.soam[slot * 4 + 1];
            self.sprite_attr = self.soam[slot * 4 + 2];
            self.sprite_x = self.soam[slot * 4 + 3];
        } else if phase == 2 {
            self.sprite_attribute_latch[slot] = self.sprite_attr;
        } else if phase == 3 {
            self.sprite_x_counter[slot] = self.sprite_x;
        } else if phase == 4 || phase == 6 {
            let table: u16 = if self.ppu_ctrl & CTRL_SPRITE_TABLE != 0 { 0x1000 } else { 0 };
            let plane: u16 = if phase == 4 { 0 } else { 8 };
            let addr: u16 = table | ((self.sprite_tile as u16) << 4) | (self.sprite_row() + plane);
            let mut bits: u8 = self.read(addr);
            if self.sprite_attr & 0x40 != 0 {
                bits = reverse_byte(bits);
            }
            if self.sprite_y == 0xFF {
                bits = 0;
            }
            if phase == 4 {
                self.sprite_pattern_lo[slot] = bits;
            } else {
                self.sprite_pattern_hi[slot] = bits;
            }
        }
    }

    /// Runs the eight sprite output units for one visible dot. Returns the
    /// winning sprite's (pixel, palette, behind background, is sprite 0).
    fn sprite_pixel(&mut self) -> (r: (u8, u8, bool, bool))
        requires
            old(self).wf(),
        ensures
            final(self).wf(),
            same_timing(*old(self), *final(self)),
            final(self).sprite_zero_hit == old(self).sprite_zero_hit,
            final(self).sprite_overflow == old(self).sprite_overflow,
            final(self).vram_v == old(self).vram_v,
            same_eval(*old(self), *final(self)),
            same_background(*old(self), *final(self)),
            r.0 < 4,
            r.1 < 8,
    {
        let ghost o = *self;
        let mut pixel: u8 = 0;
        let mut palette: u8 = 0;
        let mut behind: bool = false;
        let mut zero: bool = false;
        let mut i: usize = 0;
        while i < 8
            invariant
                self.wf(),
                same_timing(o, *self),
                self.sprite_zero_hit == o.sprite_zero_hit,
                self.sprite_overflow == o.sprite_overflow,
                self.vram_v == o.vram_v,
                same_eval(o, *self),
                same_background(o, *self),
                i <= 8,
                pixel < 4,
                palette < 8,
            decreases 8 - i,
        {
            let counter: u8 = self.sprite_x_counter[i];
            if counter > 0 {
                self.sprite_x_counter[i] = counter - 1;
            } else {
                let hi: u8 = self.sprite_pattern_hi[i];
                let lo: u8 = self.sprite_pattern_lo[i];
                let p: u8 = (hi / 128) * 2 + lo / 128;
                if pixel == 0 && p != 0 {
                    let attr: u8 = self.sprite_attribute_latch[i];
                    pixel = p;
                    palette = attr % 4 + 4;
                    behind = attr & 0x20 != 0;
                    zero = i == 0 && self.sprite_zero_on_line;
                }
                self.sprite_pattern_hi[i] = hi << 1;
                self.sprite_pattern_lo[i] = lo << 1;
            }
            i += 1;
        }
        (pixel, palette, behind, zero)
    }

    /// The background (pixel, palette) under fine X.
    fn background_pixel(&self) -> (r: (u8, u8))
        requires
            self.wf(),
        ensures
            r == background_pixel_spec(*self),
            r.0 < 4,
            r.1 < 4,
    {
        let bit: u16 = 15 - self.vram_x as u16;
        let p: u16 = ((self.bg_pattern_shift_hi >> bit) % 2) * 2 + (self.bg_pattern_shift_lo >> bit) % 2;
        let a: u16 = ((self.bg_attribute_shift_hi >> bit) % 2) * 2 + (self.bg_attribute_shift_lo >> bit)
            % 2;
        (p as u8, a as u8)
    }

    /// Stores the colour of the muxed pixel at the current visible dot.
    fn store_pixel(&mut self, bg: (u8, u8), sp: (u8, u8, bool))
        requires
            old(self).wf(),
            old(self).scanline < 240,
            1 <= old(self).dot <= 256,
            bg.0 < 4 && bg.1 < 4 && sp.0 < 4 && sp.1 < 8,
        ensures
            final(self).wf(),
            final(self).frame@ == old(self).frame@.update(
                old(self).scanline as int * 256 + old(self).dot as int - 1,
                pixel_colour(*old(self), bg, sp),
            ),
            *final(self) == (NESPpu { frame: final(self).frame, ..*old(self) }),
    {
        let (pixel, palette) = mux_pixel(bg.0, bg.1, sp.0, sp.1, sp.2);
        let addr: u16 = if pixel == 0 {
            0x3F00
        } else {
            0x3F00 + (palette as u16) * 4 + (pixel as u16)
        };
        let mask: u8 = if self.ppu_mask & MASK_GREYSCALE != 0 { 0x30 } else { 0x3F };
        let colour: u8 = self.palette[palette_index(addr)] & mask;
        self.frame[(self.scanline as usize) * 256 + (self.dot as usize - 1)] = colour;
    }

    /// Pixel work of one dot: run the sprite units on visible dots, mux with
    /// the background, detect a sprite-0 hit, and store the colour.
    #[verifier::rlimit(100)]
    fn output_pixel(&mut self)
        requires
            old(self).wf(),
        ensures
            final(self).wf(),
            same_timing(*old(self), NESPpu { frame: old(self).frame, ..*final(self) }),
            same_eval(*old(self), *final(self)),
            same_background(*old(self), *final(self)),
            frame_after_dot(*old(self), *final(self), *final(self)),
            final(self).sprite_overflow == old(self).sprite_overflow,
            final(self).vram_v == old(self).vram_v,
            old(self).sprite_zero_hit ==> final(self).sprite_zero_hit,
            old(self).scanline >= 240 ==> final(self).sprite_zero_hit == old(self).sprite_zero_hit,
    {
        let s: u16 = self.scanline;
        let d: u16 = self.dot;
        let visible: bool = s < 240 && 1 <= d && d <= 256;
        let mut sp: (u8, u8, bool, bool) = (0, 0, false, false);
        if visible && self.ppu_mask & MASK_SPRITES != 0 {
            sp = self.sprite_pixel();
            if d <= 8 && self.ppu_mask & MASK_LEFT_SPRITES == 0 {
                sp = (0, 0, false, false);
            }
        }
        let mut bg: (u8, u8) = (0, 0);
        if self.ppu_mask & MASK_BACKGROUND != 0 {
            bg = self.background_pixel();
            if visible && d <= 8 && self.ppu_mask & MASK_LEFT_BACKGROUND == 0 {
                bg = (0, 0);
            }
        }
        let (sp_pixel, sp_palette, sp_behind, sp_zero) = sp;
        let (bg_pixel, bg_palette) = bg;
        if visible && sp_zero && sp_pixel != 0 && bg_pixel != 0 && d < 256 {
            self.sprite_zero_hit = true;
        }
        if visible {
            let ghost sp_out = (sp_pixel, sp_palette, sp_behind);
            let ghost mid = *self;
            assert((bg_pixel, bg_palette) == background_output(*self, d));
            self.store_pixel((bg_pixel, bg_palette), (sp_pixel, sp_palette, sp_behind));
            assert(pixel_colour(mid, background_output(mid, d), sp_out) == pixel_colour(
                *old(self),
                background_output(*self, d),
                sp_out,
            ));
            assert(sp_out.0 < 4 && (old(self).ppu_mask & MASK_SPRITES == 0 ==> sp_out.0 == 0)
                && self.frame@ == old(self).frame@.update(
                s as int * 256 + d as int - 1,
                pixel_colour(*old(self), background_output(*self, d), sp_out),
            ));
        }
    }

    /// Moves to the next dot, wrapping scanlines and frames.
    fn advance(&mut self)
        requires
            old(self).wf(),
        ensures
            final(self).wf(),
            (final(self).scanline, final(self).dot) == next_position(old(self).scanline, old(self).dot),
            final(self).frame_ready == (old(self).frame_ready || (old(self).scanline == 261
                && old(self).dot == 340)),
            frame_position(final(self).scanline, final(self).dot) == (frame_position(
                old(self).scanline,
                old(self).dot,
            ) + 1) % 89342,
            final(self).vblank == old(self).vblank,
            final(self).nmi_requested == old(self).nmi_requested,
            final(self).ppu_ctrl == old(self).ppu_ctrl,
            final(self).ppu_mask == old(self).ppu_mask,
            final(self).mapper == old(self).mapper,
            final(self).palette == old(self).palette,
            final(self).vram == old(self).vram,
            final(self).poam == old(self).poam,
            final(self).vram_t == old(self).vram_t,
            final(self).sprite_zero_hit == old(self).sprite_zero_hit,
            final(self).sprite_overflow == old(self).sprite_overflow,
            final(self).frame == old(self).frame,
            final(self).vram_x == old(self).vram_x,
            final(self).vram_v == old(self).vram_v,
            same_eval(*old(self), *final(self)),
            same_background(*old(self), *final(self)),
    {
        if self.dot + 1 < 341 {
            self.dot = self.dot + 1;
        } else {
            self.dot = 0;
            if self.scanline + 1 < 262 {
                self.scanline = self.scanline + 1;
            } else {
                self.scanline = 0;
                self.frame_ready = true;
            }
        }
    }

    /// Background fetches and scroll-register steps of one dot of a rendering
    /// scanline (see `v_after_dot`).
    fn fetch_dot(&mut self)
        requires
            old(self).wf(),
            rendering_line(old(self).scanline),
        ensures
            final(self).wf(),
            same_timing(*old(self), *final(self)),
            same_eval(*old(self), *final(self)),
            final(self).vram_v == v_after_dot(*old(self)),
            final(self).sprite_overflow == old(self).sprite_overflow,
            final(self).sprite_zero_hit == old(self).sprite_zero_hit,
    {
        let s: u16 = self.scanline;
        let d: u16 = self.dot;
        let rendering: bool = self.ppu_mask & (MASK_BACKGROUND | MASK_SPRITES) != 0;
        if (2 <= d && d <= 257) || (321 <= d && d <= 337) {
            self.background_dot();
        }
        proof {
            assert(((d as int + 7) % 8 == 7) == (d % 8 == 0));
            lemma_scroll_bounds(self.vram_v, self.vram_t);
        }
        if rendering {
            if d == 256 {
                self.vram_v = increment_fine_y(self.vram_v);
            } else if d == 257 {
                self.vram_v = (self.vram_v & !0x041Fu16) | (self.vram_t & 0x041F);
            } else if s == 261 && 280 <= d && d <= 304 {
                self.vram_v = (self.vram_v & !0x7BE0u16) | (self.vram_t & 0x7BE0);
            }
        }
        if d == 338 || d == 340 {
            let (tile_addr, _attr_addr) = tile_attr_from_vram_addr(self.vram_v);
            self.bg_next_tile = self.read(tile_addr);
        }
    }

    /// One PPU dot.
    #[verifier::rlimit(100)]
    fn step_dot(&mut self)
        requires
            old(self).wf(),
        ensures
            final(self).wf(),
            (final(self).scanline, final(self).dot) == next_position(old(self).scanline, old(self).dot),
            frame_position(final(self).scanline, final(self).dot) == (frame_position(
                old(self).scanline,
                old(self).dot,
            ) + 1) % 89342,
            final(self).frame_ready == (old(self).frame_ready || (old(self).scanline == 261
                && old(self).dot == 340)),
            final(self).vblank == vblank_after_dot(old(self).vblank, old(self).scanline, old(self).dot),
            final(self).nmi_requested == (old(self).nmi_requested || (old(self).scanline == 241
                && old(self).dot == 1 && old(self).ppu_ctrl & CTRL_NMI_ENABLED != 0)),
            old(self).scanline == 261 && old(self).dot == 1 ==> !final(self).sprite_zero_hit
                && !final(self).sprite_overflow,
            final(self).ppu_ctrl == old(self).ppu_ctrl,
            final(self).ppu_mask == old(self).ppu_mask,
            final(self).mapper == old(self).mapper,
            final(self).palette == old(self).palette,
            final(self).vram == old(self).vram,
            final(self).poam == old(self).poam,
            final(self).vram_t == old(self).vram_t,
            dot_post(*old(self), *final(self)),
    {
        let s: u16 = self.scanline;
        let d: u16 = self.dot;
        if s == 261 && d == 1 {
            self.vblank = false;
            self.sprite_zero_hit = false;
            self.sprite_overflow = false;
        }
        if s == 241 && d == 1 {
            self.vblank = true;
            if self.ppu_ctrl & CTRL_NMI_ENABLED != 0 {
                self.nmi_requested = true;
            }
        }
        let rendering: bool = self.ppu_mask & (MASK_BACKGROUND | MASK_SPRITES) != 0;
        if s < 240 || s == 261 {
            self.fetch_dot();
            if s < 240 && rendering {
                self.sprite_dot();
            }
        }
        let ghost before_output = *self;
        self.output_pixel();
        let ghost after_output = *self;
        self.advance();
        proof {
            if s < 240 && 1 <= d && d <= 256 {
                let sp = choose|sp: (u8, u8, bool)|
                    #![trigger pixel_colour(before_output, background_output(after_output, d), sp)]
                    sp.0 < 4 && (before_output.ppu_mask & MASK_SPRITES == 0 ==> sp.0 == 0)
                        && after_output.frame@ == before_output.frame@.update(
                        s as int * 256 + d as int - 1,
                        pixel_colour(before_output, background_output(after_output, d), sp),
                    );
                assert(background_output(after_output, d) == background_output(*self, d));
                assert(pixel_colour(before_output, background_output(*self, d), sp) == pixel_colour(
                    *old(self),
                    background_output(*self, d),
                    sp,
                ));
                assert(self.frame@ == old(self).frame@.update(
                    s as int * 256 + d as int - 1,
                    pixel_colour(*old(self), background_output(*self, d), sp),
                ));
            }
        }
    }

    /// Advances the PPU by `count` dots. The position moves `count` dots
    /// around the 89,342-dot frame; `frame_ready` is raised when a frame
    /// boundary is crossed; PPUSTATUS.VBLANK rises only at scanline 241 dot 1.
    pub fn ppu_tick(&mut self, count: usize)
        requires
            old(self).wf(),
        ensures
            final(self).wf(),
            frame_position(final(self).scanline, final(self).dot) == (frame_position(
                old(self).scanline,
                old(self).dot,
            ) + count) % 89342,
            final(self).frame_ready == (old(self).frame_ready || frame_position(
                old(self).scanline,
                old(self).dot,
            ) + count >= 89342),
            count == 1 ==> dot_post(*old(self), *final(self)),
            count <= 89342 ==> final(self).vblank == vblank_after(
                old(self).vblank,
                frame_position(old(self).scanline, old(self).dot),
                count as int,
            ),
            count == 1 ==> final(self).vblank == vblank_after_dot(
                old(self).vblank,
                old(self).scanline,
                old(self).dot,
            ),
            count == 1 ==> final(self).nmi_requested == (old(self).nmi_requested || (
            old(self).scanline == 241 && old(self).dot == 1 && old(self).ppu_ctrl & CTRL_NMI_ENABLED
                != 0)),
            final(self).nmi_requested == (old(self).nmi_requested || (old(self).ppu_ctrl
                & CTRL_NMI_ENABLED != 0 && dots_until(
                frame_position(old(self).scanline, old(self).dot),
                vblank_start(),
            ) < count)),
            final(self).ppu_ctrl == old(self).ppu_ctrl,
            final(self).ppu_mask == old(self).ppu_mask,
            final(self).mapper == old(self).mapper,
            final(self).palette == old(self).palette,
            final(self).vram == old(self).vram,
            final(self).poam == old(self).poam,
    {
        let ghost start = frame_position(self.scanline, self.dot);
        let ghost o = *self;
        let mut i: usize = 0;
        while i < count
            invariant
                self.wf(),
                i <= count,
                0 <= start < 89342,
                start == frame_position(o.scanline, o.dot),
                frame_position(self.scanline, self.dot) == (start + i) % 89342,
                self.frame_ready == (o.frame_ready || start + i >= 89342),
                i == 1 ==> self.vblank == vblank_after_dot(o.vblank, o.scanline, o.dot),
                i == 1 ==> dot_post(o, *self),
                i <= 89342 ==> self.vblank == vblank_after(o.vblank, start, i as int),
                i == 1 ==> self.nmi_requested == (o.nmi_requested || (o.scanline == 241 && o.dot
                    == 1 && o.ppu_ctrl & CTRL_NMI_ENABLED != 0)),
                self.nmi_requested == (o.nmi_requested || (o.ppu_ctrl & CTRL_NMI_ENABLED != 0
                    && dots_until(start, vblank_start()) < i)),
                i == 0 ==> *self == o,
                self.ppu_ctrl == o.ppu_ctrl,
                self.ppu_mask == o.ppu_mask,
                self.mapper == o.mapper,
                self.palette == o.palette,
                self.vram == o.vram,
                self.poam == o.poam,
            decreases count - i,
        {
            let ghost before = frame_position(self.scanline, self.dot);
            let ghost was_wrap = self.scanline == 261 && self.dot == 340;
            self.step_dot();
            proof {
                assert(before == (start + i) % 89342);
                assert(was_wrap <==> before == 89341);
                if dots_until(start, vblank_start()) >= i {
                    lemma_position_after(start, vblank_start(), i as int);
                }
                if i < 89342 {
                    lemma_position_after(start, vblank_start(), i as int);
                    lemma_position_after(start, vblank_end(), i as int);
                }
            }
            i += 1;
        }
    }
}


/// t after a PPUCTRL write: the nametable-select bits come from the data.
pub open spec fn t_after_ctrl(t: u16, d: u8) -> u16 {
    (t & 0xF3FF) | (((d & 0x3) as u16) << 10)
}

/// t after the first PPUSCROLL write: coarse X from the data's top five bits.
pub open spec fn t_after_scroll_x(t: u16, d: u8) -> u16 {
    (t & 0xFFE0) | ((d >> 3) as u16)
}

/// t after the second PPUSCROLL write: fine Y and coarse Y from the data.
pub open spec fn t_after_scroll_y(t: u16, d: u8) -> u16 {
    (t & 0x8C1F) | (((d & 0x07) as u16) << 12) | (((d & 0xF8) as u16) << 2)
}

/// t after the first PPUADDR write: the high six bits, bit 14 cleared.
pub open spec fn t_after_addr_high(t: u16, d: u8) -> u16 {
    (t & 0x00FF) | (((d & 0x3F) as u16) << 8)
}

/// t after the second PPUADDR write: the low byte.
pub open spec fn t_after_addr_low(t: u16, d: u8) -> u16 {
    (t & 0xFF00) | (d as u16)
}

proof fn lemma_loopy_bounds(t: u16, d: u8)
    requires
        t < 0x8000,
    ensures
        t_after_ctrl(t, d) < 0x8000,
        t_after_scroll_x(t, d) < 0x8000,
        t_after_scroll_y(t, d) < 0x8000,
        t_after_addr_high(t, d) < 0x8000,
        t_after_addr_low(t, d) < 0x8000,
{
    assert(t_after_ctrl(t, d) < 0x8000 && t_after_scroll_x(t, d) < 0x8000 && t_after_scroll_y(t, d)
        < 0x8000 && t_after_addr_high(t, d) < 0x8000 && t_after_addr_low(t, d) < 0x8000)
        by (bit_vector)
        requires
            t < 0x8000,
    ;
}


/// v after the coarse-X step at the end of each tile: wrapping from tile 31
/// switches to the horizontally adjacent nametable.
pub open spec fn coarse_x_step(v: u16) -> u16 {
    if v & 0x001F == 31 {
        (v & !0x001Fu16) ^ 0x0400
    } else {
        (v + 1) as u16
    }
}

/// v after the fine-Y step at dot 256: fine Y counts up and carries into
/// coarse Y; row 29 wraps to 0 and switches nametable vertically, row 31
/// wraps to 0 without switching.
pub open spec fn fine_y_step(v: u16) -> u16 {
    if v & 0x7000 != 0x7000 {
        (v + 0x1000) as u16
    } else {
        let w = v & !0x7000u16;
        let y = (w & 0x03E0) >> 5;
        if y == 29 {
            (w & !0x03E0u16) ^ 0x0800
        } else if y == 31 {
            w & !0x03E0u16
        } else {
            (w & !0x03E0u16) | (((y + 1) as u16) << 5)
        }
    }
}

/// v with the horizontal bits (coarse X, horizontal nametable) copied from t.
pub open spec fn copy_horizontal(v: u16, t: u16) -> u16 {
    (v & !0x041Fu16) | (t & 0x041F)
}

/// v with the vertical bits (fine Y, coarse Y, vertical nametable) copied from t.
pub open spec fn copy_vertical(v: u16, t: u16) -> u16 {
    (v & !0x7BE0u16) | (t & 0x7BE0)
}

/// Address of the nametable byte for the tile v points at.
pub open spec fn tile_address(v: u16) -> u16 {
    0x2000 | (v & 0x0FFF)
}

/// Address of the attribute byte covering the tile v points at.
pub open spec fn attribute_address(v: u16) -> u16 {
    0x23C0 | (v & 0x0C00) | ((v >> 4) & 0x38) | ((v >> 2) & 0x07)
}

/// The two-bit palette number for the tile v points at, out of its attribute byte.
pub open spec fn attribute_palette(v: u16, attr: u8) -> u8 {
    (attr >> attribute_shift(v)) % 4
}

/// Which two bits of an attribute byte belong to the tile v points at: bit 1
/// of coarse Y picks the bottom half, bit 1 of coarse X the right half.
pub open spec fn attribute_shift(v: u16) -> u8 {
    ((if (v / 64) % 2 == 1 { 4u8 } else { 0u8 }) + (if (v / 2) % 2 == 1 { 2u8 } else { 0u8 })) as u8
}

/// Priority mux: the sprite pixel shows when it is opaque and either the
/// background is transparent or the sprite is in front.
/// Returns (pixel, palette).
pub open spec fn mux_spec(bg_pixel: u8, bg_palette: u8, sp_pixel: u8, sp_palette: u8, sp_behind: bool) -> (u8, u8) {
    if sp_pixel != 0 && (bg_pixel == 0 || !sp_behind) {
        (sp_pixel, sp_palette)
    } else {
        (bg_pixel, bg_palette)
    }
}

/// Palette RAM address of an output pixel; transparent pixels show the backdrop.
pub open spec fn colour_address(pixel: u8, palette: u8) -> u16 {
    if pixel == 0 {
        0x3F00
    } else {
        (0x3F00 + palette as int * 4 + pixel as int) as u16
    }
}

/// Whether a sprite whose top row is `y` covers `scanline`.
pub open spec fn sprite_in_range(y: u8, scanline: u16) -> bool {
    y as int <= scanline as int && (scanline as int) < y as int + 8
}

/// The byte with its bit order reversed.
pub open spec fn reversed_byte(b: u8) -> u8 {
    ((b & 0x01) << 7) | ((b & 0x02) << 5) | ((b & 0x04) << 3) | ((b & 0x08) << 1) | ((b & 0x10) >> 1)
        | ((b & 0x20) >> 3) | ((b & 0x40) >> 5) | ((b & 0x80) >> 7)
}

proof fn lemma_scroll_bounds(v: u16, t: u16)
    requires
        v < 0x8000,
        t < 0x8000,
    ensures
        coarse_x_step(v) < 0x8000,
        fine_y_step(v) < 0x8000,
        copy_horizontal(v, t) < 0x8000,
        copy_vertical(v, t) < 0x8000,
        v & 0x001F != 31 ==> v + 1 < 0x8000,
        v & 0x7000 != 0x7000 ==> v + 0x1000 < 0x8000,
        ((v & !0x7000u16) & 0x03E0) >> 5 <= 31,
        v >> 12 < 8,
{
    assert(coarse_x_step(v) < 0x8000 && fine_y_step(v) < 0x8000 && copy_horizontal(v, t) < 0x8000
        && copy_vertical(v, t) < 0x8000 && (v & 0x001F != 31 ==> v + 1 < 0x8000) && (v & 0x7000
        != 0x7000 ==> v + 0x1000 < 0x8000) && ((v & !0x7000u16) & 0x03E0) >> 5 <= 31 && v >> 12 < 8)
        by (bit_vector)
        requires
            v < 0x8000,
            t < 0x8000,
    ;
}

/// The coarse-X step of v (see `coarse_x_step`).
pub fn increment_coarse_x(v: u16) -> (r: u16)
    requires
        v < 0x8000,
    ensures
        r == coarse_x_step(v),
        r < 0x8000,
{
    proof {
        lemma_scroll_bounds(v, 0);
    }
    if v & 0x001F == 31 {
        (v & !0x001Fu16) ^ 0x0400
    } else {
        v + 1
    }
}

/// The fine-Y step of v (see `fine_y_step`).
pub fn increment_fine_y(v: u16) -> (r: u16)
    requires
        v < 0x8000,
    ensures
        r == fine_y_step(v),
        r < 0x8000,
{
    proof {
        lemma_scroll_bounds(v, 0);
    }
    if v & 0x7000 != 0x7000 {
        v + 0x1000
    } else {
        let w: u16 = v & !0x7000u16;
        let y: u16 = (w & 0x03E0) >> 5;
        if y == 29 {
            (w & !0x03E0u16) ^ 0x0800
        } else if y == 31 {
            w & !0x03E0u16
        } else {
            (w & !0x03E0u16) | ((y + 1) << 5)
        }
    }
}

/// Addresses of the nametable byte and the attribute byte for the tile v points at.
pub fn tile_attr_from_vram_addr(v: u16) -> (r: (u16, u16))
    ensures
        r == (tile_address(v), attribute_address(v)),
{
    (0x2000 | (v & 0x0FFF), 0x23C0 | (v & 0x0C00) | ((v >> 4) & 0x38) | ((v >> 2) & 0x07))
}

/// The priority mux (see `mux_spec`).
pub fn mux_pixel(bg_pixel: u8, bg_palette: u8, sp_pixel: u8, sp_palette: u8, sp_behind: bool) -> (r: (u8, u8))
    ensures
        r == mux_spec(bg_pixel, bg_palette, sp_pixel, sp_palette, sp_behind),
{
    if sp_pixel != 0 && (bg_pixel == 0 || !sp_behind) {
        (sp_pixel, sp_palette)
    } else {
        (bg_pixel, bg_palette)
    }
}

/// Reverses the bit order of a byte, for horizontally flipped sprites.
pub fn reverse_byte(b: u8) -> (r: u8)
    ensures
        r == reversed_byte(b),
{
    let t1: u8 = (b & 0xF0) >> 4 | (b & 0x0F) << 4;
    let t2: u8 = (t1 & 0xCC) >> 2 | (t1 & 0x33) << 2;
    let t3: u8 = (t2 & 0xAA) >> 1 | (t2 & 0x55) << 1;
    assert(t3 == reversed_byte(b)) by (bit_vector)
        requires
            t1 == (b & 0xF0) >> 4 | (b & 0x0F) << 4,
            t2 == (t1 & 0xCC) >> 2 | (t1 & 0x33) << 2,
            t3 == (t2 & 0xAA) >> 1 | (t2 & 0x55) << 1,
    ;
    t3
}


/// Sprite-evaluation state other than the overflow flag is unchanged.
pub open spec fn same_eval(o: NESPpu, n: NESPpu) -> bool {
    &&& n.soam == o.soam
    &&& n.poam_data == o.poam_data
    &&& n.poam_sprite_index == o.poam_sprite_index
    &&& n.poam_byte_index == o.poam_byte_index
    &&& n.soam_slot == o.soam_slot
    &&& n.eval_stage == o.eval_stage
    &&& n.eval_write_rest == o.eval_write_rest
}

/// The four background shift registers are unchanged.
pub open spec fn same_background(o: NESPpu, n: NESPpu) -> bool {
    &&& n.bg_pattern_shift_hi == o.bg_pattern_shift_hi
    &&& n.bg_pattern_shift_lo == o.bg_pattern_shift_lo
    &&& n.bg_attribute_shift_hi == o.bg_attribute_shift_hi
    &&& n.bg_attribute_shift_lo == o.bg_attribute_shift_lo
}

/// True on the scanlines that fetch (visible lines and the pre-render line).
pub open spec fn rendering_line(scanline: u16) -> bool {
    scanline < 240 || scanline == 261
}

/// v after one dot. On a rendering line with rendering on: the coarse-X step
/// at the end of each fetched tile (dots 8, 16, ..., 256 and 328, 336), the
/// fine-Y step at dot 256, the horizontal copy from t at dot 257, and the
/// vertical copy from t on dots 280-304 of the pre-render line.
pub open spec fn v_after_dot(o: NESPpu) -> u16 {
    let d = o.dot;
    if !rendering_line(o.scanline) || !o.rendering_enabled() {
        o.vram_v
    } else {
        let fetching = (2 <= d <= 257) || (321 <= d <= 337);
        let v1 = if fetching && d % 8 == 0 {
            coarse_x_step(o.vram_v)
        } else {
            o.vram_v
        };
        if d == 256 {
            fine_y_step(v1)
        } else if d == 257 {
            copy_horizontal(v1, o.vram_t)
        } else if o.scanline == 261 && 280 <= d <= 304 {
            copy_vertical(v1, o.vram_t)
        } else {
            v1
        }
    }
}

/// The background (pixel, palette) under fine X.
pub open spec fn background_pixel_spec(p: NESPpu) -> (u8, u8) {
    let bit = (15 - p.vram_x as u16) as u16;
    (
        (((p.bg_pattern_shift_hi >> bit) % 2) * 2 + (p.bg_pattern_shift_lo >> bit) % 2) as u8,
        (((p.bg_attribute_shift_hi >> bit) % 2) * 2 + (p.bg_attribute_shift_lo >> bit) % 2) as u8,
    )
}

/// The background's contribution to the pixel at `dot`: nothing when the
/// background is off or clipped in the leftmost eight pixels.
pub open spec fn background_output(p: NESPpu, dot: u16) -> (u8, u8) {
    if p.ppu_mask & MASK_BACKGROUND != 0 && !(dot <= 8 && p.ppu_mask & MASK_LEFT_BACKGROUND == 0) {
        background_pixel_spec(p)
    } else {
        (0, 0)
    }
}

/// The palette entry shown at `addr` ($3F00-$3F1F), with greyscale applied.
pub open spec fn palette_colour(p: NESPpu, addr: u16) -> u8 {
    p.palette@[palette_slot(addr)] & (if p.greyscale() { 0x30u8 } else { 0x3Fu8 })
}

/// Colour of a pixel from the background output and a sprite output
/// (pixel, palette, behind background), after the priority mux.
pub open spec fn pixel_colour(p: NESPpu, bg: (u8, u8), sp: (u8, u8, bool)) -> u8 {
    let m = mux_spec(bg.0, bg.1, sp.0, sp.1, sp.2);
    palette_colour(p, colour_address(m.0, m.1))
}

/// The frame after one dot. A visible dot (scanline 0-239, dot 1-256) stores
/// the colour of the muxed pixel at its place; the background part comes
/// from the shift registers `bg_from` holds, the sprite part is some sprite
/// unit's output, transparent when sprites are off. Other dots leave the
/// frame alone.
pub open spec fn frame_after_dot(o: NESPpu, n: NESPpu, bg_from: NESPpu) -> bool {
    let visible = o.scanline < 240 && 1 <= o.dot <= 256;
    let index = o.scanline as int * 256 + o.dot as int - 1;
    if !visible {
        n.frame == o.frame
    } else {
        exists|sp: (u8, u8, bool)|
            #![trigger pixel_colour(o, background_output(bg_from, o.dot), sp)]
            sp.0 < 4 && (o.ppu_mask & MASK_SPRITES == 0 ==> sp.0 == 0) && n.frame@ == o.frame@.update(
                index,
                pixel_colour(o, background_output(bg_from, o.dot), sp),
            )
    }
}

/// The write half of sprite evaluation (even dots 66-256): copies Y, and the
/// rest of an in-range sprite, into the next secondary slot; then moves on to
/// the next sprite, to the overflow scan once eight are found, or stops after
/// sprite 63.
pub open spec fn eval_write_post(o: NESPpu, n: NESPpu) -> bool {
    let slot = o.soam_slot as int;
    let m = o.poam_byte_index as int;
    let idx = o.poam_sprite_index;
    &&& n.poam_data == o.poam_data
    &&& o.eval_stage == 1 && o.eval_write_rest ==> {
        &&& n.soam@ == o.soam@.update(4 * slot + m, o.poam_data)
        &&& n.poam_sprite_index == idx
        &&& (m + 1 >= 4 ==> !n.eval_write_rest && n.poam_byte_index == 0 && n.soam_slot == slot
            + 1 && n.eval_stage == 2)
        &&& (m + 1 < 4 ==> n.eval_write_rest && n.poam_byte_index == m + 1 && n.soam_slot
            == o.soam_slot && n.eval_stage == 1)
    }
    &&& o.eval_stage == 1 && !o.eval_write_rest ==> {
        &&& n.soam@ == o.soam@.update(4 * slot, o.poam_data)
        &&& n.poam_sprite_index == idx
        &&& n.soam_slot == o.soam_slot
        &&& (sprite_in_range(o.poam_data, o.scanline) ==> n.eval_write_rest && n.poam_byte_index
            == 1 && n.eval_stage == 1)
        &&& (!sprite_in_range(o.poam_data, o.scanline) ==> !n.eval_write_rest
            && n.poam_byte_index == 0 && n.eval_stage == 2)
    }
    &&& o.eval_stage == 2 ==> {
        &&& n.soam == o.soam
        &&& n.soam_slot == o.soam_slot
        &&& n.eval_write_rest == o.eval_write_rest
        &&& (idx + 1 >= 64 ==> n.poam_sprite_index == 0 && n.eval_stage == 4 && n.poam_byte_index
            == o.poam_byte_index)
        &&& (idx + 1 < 64 && o.soam_slot < 8 ==> n.poam_sprite_index == idx + 1 && n.eval_stage == 1
            && n.poam_byte_index == o.poam_byte_index)
        &&& (idx + 1 < 64 && o.soam_slot >= 8 ==> n.poam_sprite_index == idx + 1 && n.eval_stage
            == 3 && n.poam_byte_index == 0)
    }
    &&& o.eval_stage > 2 ==> same_eval(o, n)
}

/// True on the dots where sprite evaluation works: a visible scanline with
/// rendering on.
pub open spec fn evaluating(o: NESPpu) -> bool {
    o.scanline < 240 && o.rendering_enabled()
}

/// Sprite-evaluation state after one dot: secondary OAM cleared to $FF on
/// dots 1-32, primary OAM read on odd dots 65-255 (or scanned for overflow
/// in stage 3), secondary OAM written on even dots 66-256, and the state
/// reset at dot 257.
pub open spec fn eval_after_dot(o: NESPpu, n: NESPpu) -> bool {
    let d = o.dot;
    let data = o.poam@[4 * o.poam_sprite_index + o.poam_byte_index];
    let scan = overflow_scan(sprite_in_range(data, o.scanline), o.poam_sprite_index, o.poam_byte_index);
    if !evaluating(o) {
        same_eval(o, n)
    } else if 1 <= d <= 32 {
        &&& n.soam@ == o.soam@.update(d - 1, 0xFF)
        &&& same_eval(NESPpu { soam: n.soam, ..o }, n)
    } else if 65 <= d <= 256 && d % 2 == 1 && o.eval_stage == 1 {
        &&& n.poam_data == data
        &&& same_eval(NESPpu { poam_data: n.poam_data, ..o }, n)
    } else if 65 <= d <= 256 && d % 2 == 1 && o.eval_stage == 3 {
        &&& n.poam_data == data
        &&& n.poam_sprite_index == scan.1
        &&& n.poam_byte_index == scan.2
        &&& n.eval_stage == scan.3
        &&& n.soam == o.soam
        &&& n.soam_slot == o.soam_slot
        &&& n.eval_write_rest == o.eval_write_rest
    } else if 65 <= d <= 256 && d % 2 == 1 {
        same_eval(o, n)
    } else if 65 <= d <= 256 {
        eval_write_post(o, n)
    } else if d == 257 {
        &&& n.eval_stage == 1 && n.soam_slot == 0 && n.poam_sprite_index == 0
        &&& n.poam_byte_index == 0 && !n.eval_write_rest
        &&& n.soam == o.soam
        &&& n.poam_data == o.poam_data
    } else {
        same_eval(o, n)
    }
}

/// The sprite-overflow flag after one dot: cleared at scanline 261 dot 1, set
/// when the overflow scan reads an in-range byte, otherwise kept.
pub open spec fn overflow_after_dot(o: NESPpu) -> bool {
    let d = o.dot;
    let data = o.poam@[4 * o.poam_sprite_index + o.poam_byte_index];
    if o.scanline == 261 && d == 1 {
        false
    } else if evaluating(o) && 65 <= d <= 256 && d % 2 == 1 && o.eval_stage == 3 {
        o.sprite_overflow || sprite_in_range(data, o.scanline)
    } else {
        o.sprite_overflow
    }
}

/// Everything one dot does beyond timing: the scroll register, the frame,
/// sprite evaluation, the overflow and sprite-0 flags, and VBLANK.
pub open spec fn dot_post(o: NESPpu, n: NESPpu) -> bool {
    &&& n.vram_v == v_after_dot(o)
    &&& n.vram_t == o.vram_t
    &&& frame_after_dot(o, n, n)
    &&& eval_after_dot(o, n)
    &&& n.sprite_overflow == overflow_after_dot(o)
    &&& (o.scanline == 261 && o.dot == 1 ==> !n.sprite_zero_hit)
    &&& n.vblank == vblank_after_dot(o.vblank, o.scanline, o.dot)
}

/// The fields one dot of rendering work leaves alone: timing, control
/// registers, VBLANK and NMI, memories the CPU writes, and the frame flag.
pub open spec fn same_timing(o: NESPpu, n: NESPpu) -> bool {
    &&& n.scanline == o.scanline
    &&& n.dot == o.dot
    &&& n.vblank == o.vblank
    &&& n.nmi_requested == o.nmi_requested
    &&& n.frame_ready == o.frame_ready
    &&& n.ppu_ctrl == o.ppu_ctrl
    &&& n.ppu_mask == o.ppu_mask
    &&& n.mapper == o.mapper
    &&& n.palette == o.palette
    &&& n.vram == o.vram
    &&& n.poam == o.poam
    &&& n.vram_t == o.vram_t
    &&& n.vram_x == o.vram_x
    &&& n.oam_address == o.oam_address
    &&& n.write_toggle == o.write_toggle
    &&& n.data_buffer == o.data_buffer
    &&& n.frame == o.frame
}

/// The (scanline, dot) after one dot: 341 dots per scanline, 262 scanlines per frame.
pub open spec fn next_position(scanline: u16, dot: u16) -> (u16, u16) {
    if dot + 1 < 341 {
        (scanline, (dot + 1) as u16)
    } else if scanline + 1 < 262 {
        ((scanline + 1) as u16, 0)
    } else {
        (0, 0)
    }
}

/// Position of scanline 241 dot 1, where VBLANK starts.
pub open spec fn vblank_start() -> int {
    frame_position(241, 1)
}

/// Position of scanline 261 dot 1, where VBLANK ends.
pub open spec fn vblank_end() -> int {
    frame_position(261, 1)
}

/// VBLANK after `count` dots (at most one frame) from frame position `p`:
/// of the two edges the batch passes, the later one decides.
pub open spec fn vblank_after(vblank: bool, p: int, count: int) -> bool {
    let s = dots_until(p, vblank_start());
    let e = dots_until(p, vblank_end());
    if s < count && (e >= count || e < s) {
        true
    } else if e < count {
        false
    } else {
        vblank
    }
}

/// Dots from frame position `p` until the PPU is at frame position `q`.
pub open spec fn dots_until(p: int, q: int) -> int {
    (q - p + 89342) % 89342
}

/// Within one frame of `p`, the PPU is at `q` after `i` dots exactly when
/// `i` is the distance from `p` to `q`.
proof fn lemma_position_after(p: int, q: int, i: int)
    requires
        0 <= p < 89342,
        0 <= q < 89342,
        0 <= i < 89342,
    ensures
        ((p + i) % 89342 == q) <==> (i == dots_until(p, q)),
{
    if p + i < 89342 {
        assert((p + i) % 89342 == p + i);
    } else {
        assert((p + i) % 89342 == p + i - 89342);
    }
    if q >= p {
        assert((q - p + 89342) % 89342 == q - p);
    } else {
        assert((q - p + 89342) % 89342 == q - p + 89342);
    }
}

/// VBLANK after one dot: set at scanline 241 dot 1, cleared at scanline 261 dot 1.
pub open spec fn vblank_after_dot(vblank: bool, scanline: u16, dot: u16) -> bool {
    if scanline == 241 && dot == 1 {
        true
    } else if scanline == 261 && dot == 1 {
        false
    } else {
        vblank
    }
}

/// One read of the overflow scan (stage 3 of sprite evaluation), given
/// whether the byte read is an in-range Y coordinate. Returns (overflow
/// found, n, m, stage). A miss advances n and, by the hardware's fault, m
/// too, so later reads look at the wrong byte of each sprite.
pub open spec fn overflow_scan(in_range: bool, n: usize, m: usize) -> (bool, usize, usize, u8) {
    if in_range {
        (true, n, m, 4)
    } else if n + 1 >= 64 {
        (false, 0, ((m + 1) % 4) as usize, 4)
    } else {
        (false, (n + 1) as usize, ((m + 1) % 4) as usize, 3)
    }
}

/// How a PPU write at `addr` changes CHR memory: only a pattern-table address
/// inside the loaded image changes, to `data`.
pub open spec fn chr_after_write(before: Seq<u8>, after: Seq<u8>, addr: u16, data: u8) -> bool {
    let a = (addr % 0x4000) as u16;
    if a < 0x2000 && (a as int) < before.len() {
        after == before.update(a as int, data)
    } else {
        after == before
    }
}

fn palette_index(a: u16) -> (r: usize)
    ensures
        r == palette_slot(a),
        r < 32,
{
    let p: u16 = a % 32;
    if p >= 16 && p % 4 == 0 {
        (p - 16) as usize
    } else {
        p as usize
    }
}

/// Every well-formed PPU is at a dot in 0-340 of a scanline in 0-261.
pub proof fn lemma_position_in_range(p: NESPpu)
    requires
        p.wf(),
    ensures
        0 <= p.dot <= 340,
        0 <= p.scanline <= 261,
        0 <= frame_position(p.scanline, p.dot) < 89342,
{
}

/// The sprite backdrop entries $3F10, $3F14, $3F18 and $3F1C read the same
/// as $3F00, $3F04, $3F08 and $3F0C.
pub proof fn lemma_palette_mirrors(p: NESPpu, k: u16)
    requires
        p.wf(),
        k == 0 || k == 4 || k == 8 || k == 12,
    ensures
        p.read_spec((0x3F10 + k) as u16) == p.read_spec((0x3F00 + k) as u16),
{
}

/// VBLANK goes from clear to set on a dot exactly when that dot is
/// scanline 241, dot 1: one position of the frame.
pub proof fn lemma_vblank_onset(vblank: bool, scanline: u16, dot: u16)
    ensures
        (!vblank && vblank_after_dot(vblank, scanline, dot)) <==> (!vblank && scanline == 241
            && dot == 1),
        frame_position(241, 1) == 82182,
{
}

/// A frame is 341 x 262 = 89,342 dots: that many dots bring the PPU back to
/// the same position, and cross the frame boundary once.
pub proof fn lemma_frame_length(scanline: u16, dot: u16)
    requires
        scanline < 262,
        dot < 341,
    ensures
        DOTS_PER_FRAME == 341 * 262,
        (frame_position(scanline, dot) + DOTS_PER_FRAME) % 89342 == frame_position(scanline, dot),
        frame_position(scanline, dot) + DOTS_PER_FRAME >= 89342,
        frame_position(scanline, dot) + DOTS_PER_FRAME < 2 * 89342,
{
}

/// In the overflow scan an in-range byte sets the overflow flag; a miss
/// moves to the next sprite and, as the hardware does, to the next byte
/// within the sprite as well.
pub proof fn lemma_overflow_scan(in_range: bool, n: usize, m: usize)
    requires
        n < 64,
        m < 4,
    ensures
        in_range ==> overflow_scan(in_range, n, m).0,
        !in_range ==> !overflow_scan(in_range, n, m).0,
        !in_range && n + 1 < 64 ==> overflow_scan(in_range, n, m).1 == n + 1 && overflow_scan(
            in_range,
            n,
            m,
        ).2 == (m + 1) % 4,
{
}

} // verus!
