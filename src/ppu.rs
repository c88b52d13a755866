//! The picture processing unit: its eight CPU-visible registers and its dot clock.
use vstd::prelude::*;

verus! {

pub const DOTS_PER_SCANLINE: u16 = 341;
pub const SCANLINES_PER_FRAME: u16 = 262;
pub const VBLANK_SCANLINE: u64 = 241;
pub const PRE_RENDER_SCANLINE: u64 = 261;
pub const VBLANK_BIT: u8 = 0x80;

pub const PPU_CTRL: u8 = 0;
pub const PPU_MASK: u8 = 1;
pub const PPU_STATUS: u8 = 2;
pub const OAM_ADDR: u8 = 3;
pub const OAM_DATA: u8 = 4;
pub const PPU_SCROLL: u8 = 5;
pub const PPU_ADDR: u8 = 6;
pub const PPU_DATA: u8 = 7;

/// Register file and timing counters of the PPU. Pattern fetches are not modelled.
#[derive(Debug, Clone, Copy, PartialEq, Eq, Structural)]
pub struct Ppu {
    pub ctrl: u8,
    pub mask: u8,
    pub status: u8,
    pub oam_addr: u8,
    pub oam_data: u8,
    pub scroll: u8,
    pub addr: u8,
    pub data: u8,
    pub oam_dma: u8,
    /// Dot within the current scanline, 0..=340.
    pub dot: u16,
    /// Current scanline, 0..=261.
    pub scanline: u16,
    /// Frames completed.
    pub frame: u64,
}

impl Ppu {
    pub open spec fn wf(self) -> bool {
        self.dot < DOTS_PER_SCANLINE && self.scanline < SCANLINES_PER_FRAME
    }

    /// The value register `r` holds.
    pub open spec fn reg_value(self, r: u8) -> u8 {
        match r {
            0 => self.ctrl,
            1 => self.mask,
            2 => self.status,
            3 => self.oam_addr,
            4 => self.oam_data,
            5 => self.scroll,
            6 => self.addr,
            _ => self.data,
        }
    }

    /// The state after the CPU reads register `r`: reading the status clears its bit 7.
    pub open spec fn after_reg_read(self, r: u8) -> Ppu {
        if r == PPU_STATUS {
            Ppu { status: self.status & 0x7F, ..self }
        } else {
            self
        }
    }

    /// The state after the CPU writes `v` to register `r`.
    pub open spec fn with_reg(self, r: u8, v: u8) -> Ppu {
        match r {
            0 => Ppu { ctrl: v, ..self },
            1 => Ppu { mask: v, ..self },
            2 => Ppu { status: v, ..self },
            3 => Ppu { oam_addr: v, ..self },
            4 => Ppu { oam_data: v, ..self },
            5 => Ppu { scroll: v, ..self },
            6 => Ppu { addr: v, ..self },
            _ => Ppu { data: v, ..self },
        }
    }

    /// The status after one dot on scanline `line`: vblank starts at dot 1 of
    /// scanline 241 and ends at dot 1 of the pre-render scanline.
    pub open spec fn status_after_dot(self, line: u64) -> u8 {
        if line == VBLANK_SCANLINE && self.dot == 1 {
            self.status | VBLANK_BIT
        } else if line == PRE_RENDER_SCANLINE && self.dot == 1 {
            self.status & 0x7F
        } else {
            self.status
        }
    }

    /// The state after one dot, told that the current scanline is `scanline`.
    pub open spec fn after_step(self, scanline: u64) -> Ppu {
        let status = self.status_after_dot(scanline % 262);
        if self.dot + 1 < DOTS_PER_SCANLINE {
            Ppu { status, dot: (self.dot + 1) as u16, ..self }
        } else if self.scanline + 1 < SCANLINES_PER_FRAME {
            Ppu { status, dot: 0, scanline: (self.scanline + 1) as u16, ..self }
        } else {
            Ppu { status, dot: 0, scanline: 0, frame: self.frame.wrapping_add(1), ..self }
        }
    }

    /// The power-on state: registers clear, at dot 0 of scanline 0.
    pub open spec fn new_spec() -> Ppu {
        Ppu {
            ctrl: 0,
            mask: 0,
            status: 0,
            oam_addr: 0,
            oam_data: 0,
            scroll: 0,
            addr: 0,
            data: 0,
            oam_dma: 0,
            dot: 0,
            scanline: 0,
            frame: 0,
        }
    }

    /// A PPU at power-on.
    pub fn new() -> (r: Ppu)
        ensures
            r.wf(),
            r == Ppu::new_spec(),
    {
        Ppu {
            ctrl: 0,
            mask: 0,
            status: 0,
            oam_addr: 0,
            oam_data: 0,
            scroll: 0,
            addr: 0,
            data: 0,
            oam_dma: 0,
            dot: 0,
            scanline: 0,
            frame: 0,
        }
    }

    /// Reads register `register` (0..8). The value returned is the one held
    /// before the read; reading the status then clears its bit 7.
    pub fn register(&mut self, register: u8) -> (r: u8)
        requires
            register < 8,
        ensures
            r == old(self).reg_value(register),
            *final(self) == old(self).after_reg_read(register),
    {
        let value = match register {
            0 => self.ctrl,
            1 => self.mask,
            2 => self.status,
            3 => self.oam_addr,
            4 => self.oam_data,
            5 => self.scroll,
            6 => self.addr,
            _ => self.data,
        };
        if register == PPU_STATUS {
            self.status = self.status & 0x7F;
        }
        value
    }

    /// Writes `value` to register `register` (0..8).
    pub fn set_register(&mut self, register: u8, value: u8)
        requires
            register < 8,
        ensures
            *final(self) == old(self).with_reg(register, value),
    {
        match register {
            0 => self.ctrl = value,
            1 => self.mask = value,
            2 => self.status = value,
            3 => self.oam_addr = value,
            4 => self.oam_data = value,
            5 => self.scroll = value,
            6 => self.addr = value,
            _ => self.data = value,
        }
    }

    /// Whether the vblank bit of the status is set.
    pub fn in_vblank(&self) -> (r: bool)
        ensures
            r == (self.status & VBLANK_BIT != 0),
    {
        self.status & VBLANK_BIT != 0
    }

    /// Advances one dot. Visible scanlines would fetch tiles here; only the
    /// timing and the vblank bit are kept.
    pub fn step(&mut self, scanline: u64)
        requires
            old(self).wf(),
        ensures
            final(self).wf(),
            *final(self) == old(self).after_step(scanline),
    {
        let line = scanline % 262;
        if line == VBLANK_SCANLINE && self.dot == 1 {
            self.status = self.status | VBLANK_BIT;
        } else if line == PRE_RENDER_SCANLINE && self.dot == 1 {
            self.status = self.status & 0x7F;
        }
        if self.dot + 1 < DOTS_PER_SCANLINE {
            self.dot = self.dot + 1;
        } else if self.scanline + 1 < SCANLINES_PER_FRAME {
            self.dot = 0;
            self.scanline = self.scanline + 1;
        } else {
            self.dot = 0;
            self.scanline = 0;
            self.frame = self.frame.wrapping_add(1);
        }
    }
}

/// Reading the status twice in a row: the second read sees bit 7 clear,
/// whatever the status held before the first.
pub proof fn lemma_status_read_twice(p: Ppu)
    ensures
        p.after_reg_read(PPU_STATUS).reg_value(PPU_STATUS) & VBLANK_BIT == 0,
        p.reg_value(PPU_STATUS) == p.status,
{
    let s = p.status;
    assert((s & 0x7F) & 0x80 == 0) by (bit_vector);
}

} // verus!
