//! The CPU's 16-bit address space: RAM, PPU registers and the cartridge.
use crate::ppu::Ppu;
use crate::rom::Cartridge;
use vstd::prelude::*;

verus! {

pub const RAM_SIZE: usize = 0x0800;

/// What the bus holds: internal RAM, the cartridge's PRG banks and the PPU.
pub struct BusView {
    pub ram: Seq<u8>,
    pub prg: Seq<u8>,
    pub ppu: Ppu,
}

/// Writes here reach the CPU test mode, which the NES keeps disabled.
pub open spec fn write_disabled(addr: u16) -> bool {
    0x4018 <= addr <= 0x401F
}

impl BusView {
    pub open spec fn wf(self) -> bool {
        &&& self.ram.len() == RAM_SIZE
        &&& self.prg.len() == 0x4000 || self.prg.len() == 0x8000
        &&& self.ppu.wf()
    }

    /// What a read at `addr` returns. RAM repeats every 2 KiB, the PPU's eight
    /// registers repeat over 0x2000..0x4000, a 16 KiB PRG bank appears twice;
    /// the APU, I/O and unused cartridge space read as 0.
    pub open spec fn read_value(self, addr: u16) -> u8 {
        if addr < 0x2000 {
            self.ram[(addr % 0x800) as int]
        } else if addr < 0x4000 {
            self.ppu.reg_value((addr % 8) as u8)
        } else if addr >= 0x8000 {
            self.prg[(addr - 0x8000) as int % self.prg.len() as int]
        } else {
            0
        }
    }

    /// The state after a read at `addr`: only the PPU status reacts to being read.
    pub open spec fn after_read(self, addr: u16) -> BusView {
        if 0x2000 <= addr < 0x4000 {
            BusView { ppu: self.ppu.after_reg_read((addr % 8) as u8), ..self }
        } else {
            self
        }
    }

    /// The state after writing `v` at `addr`: ROM and unmapped space ignore writes.
    pub open spec fn after_write(self, addr: u16, v: u8) -> BusView {
        if addr < 0x2000 {
            BusView { ram: self.ram.update((addr % 0x800) as int, v), ..self }
        } else if addr < 0x4000 {
            BusView { ppu: self.ppu.with_reg((addr % 8) as u8, v), ..self }
        } else {
            self
        }
    }

    /// The bytes that `n` reads from `start` on return, and the state after them.
    pub open spec fn read_chunk(self, start: u16, n: nat) -> (Seq<u8>, BusView)
        decreases n,
    {
        if n == 0 {
            (Seq::empty(), self)
        } else {
            let (bytes, b) = self.read_chunk(start, (n - 1) as nat);
            let a = ((start + n - 1) % 0x10000) as u16;
            (bytes.push(b.read_value(a)), b.after_read(a))
        }
    }
}

/// Routes the CPU's reads and writes; owns the RAM and the PPU.
pub struct Bus {
    pub ppu: Ppu,
    rom: Cartridge,
    pub ram: Vec<u8>,
}

impl View for Bus {
    type V = BusView;

    closed spec fn view(&self) -> BusView {
        BusView { ram: self.ram@, prg: self.rom@.prg, ppu: self.ppu }
    }
}

impl Bus {
    pub open spec fn wf(&self) -> bool {
        self@.wf()
    }

    /// A bus with zeroed RAM, a fresh PPU and the given cartridge.
    pub fn new(cartridge: Cartridge) -> (r: Bus)
        ensures
            r.wf(),
            r@.ram == Seq::new(RAM_SIZE as nat, |i: int| 0u8),
            r@.prg == cartridge@.prg,
            r@.ppu == Ppu::new_spec(),
    {
        let _ = cartridge.rom_len();
        let ram: Vec<u8> = vec![0u8; RAM_SIZE];
        let ppu = Ppu::new();
        let r = Bus { ppu, rom: cartridge, ram };
        assert(r@.ram =~= Seq::new(RAM_SIZE as nat, |i: int| 0u8));
        r
    }

    /// Advances the PPU one dot on the given scanline.
    pub fn step_ppu(&mut self, scanline: u64)
        requires
            old(self).wf(),
        ensures
            final(self).wf(),
            final(self)@ == (BusView { ppu: old(self)@.ppu.after_step(scanline), ..old(self)@ }),
    {
        self.ppu.step(scanline);
    }

    /// PRG length in bytes.
    pub fn rom_len(&self) -> (r: usize)
        ensures
            r == self@.prg.len(),
    {
        self.rom.rom_len()
    }

    /// Reads one byte.
    pub fn read_8(&mut self, addr: u16) -> (r: u8)
        requires
            old(self).wf(),
        ensures
            final(self).wf(),
            r == old(self)@.read_value(addr),
            final(self)@ == old(self)@.after_read(addr),
    {
        if addr < 0x2000 {
            self.ram[(addr % 0x800) as usize]
        } else if addr < 0x4000 {
            self.ppu.register((addr % 8) as u8)
        } else if addr >= 0x8000 {
            let len = self.rom.rom_len();
            let prg = self.rom.prg();
            prg[((addr - 0x8000) as usize) % len]
        } else {
            0
        }
    }

    /// Reads a little-endian word: the byte at `addr`, then the byte after it.
    pub fn read_16(&mut self, addr: u16) -> (r: u16)
        requires
            old(self).wf(),
        ensures
            final(self).wf(),
            r == word(
                old(self)@.read_value(addr),
                old(self)@.after_read(addr).read_value(addr.wrapping_add(1)),
            ),
            final(self)@ == old(self)@.after_read(addr).after_read(addr.wrapping_add(1)),
    {
        let lsb = self.read_8(addr);
        let msb = self.read_8(addr.wrapping_add(1));
        (msb as u16) * 256 + lsb as u16
    }

    /// Writes one byte. The test-mode range is disabled and must not be written.
    pub fn write(&mut self, addr: u16, value: u8)
        requires
            old(self).wf(),
            !write_disabled(addr),
        ensures
            final(self).wf(),
            final(self)@ == old(self)@.after_write(addr, value),
    {
        if addr < 0x2000 {
            self.ram.set((addr % 0x800) as usize, value);
        } else if addr < 0x4000 {
            self.ppu.set_register((addr % 8) as u8, value);
        }
    }

    /// Reads `size` consecutive bytes from `start_addr` on, wrapping at the end of
    /// the address space.
    pub fn memory_chunk(&mut self, start_addr: u16, size: usize) -> (r: Vec<u8>)
        requires
            old(self).wf(),
        ensures
            final(self).wf(),
            (r@, final(self)@) == old(self)@.read_chunk(start_addr, size as nat),
    {
        let mut result: Vec<u8> = Vec::new();
        let mut i: usize = 0;
        let mut addr: u16 = start_addr;
        while i < size
            invariant
                self.wf(),
                i <= size,
                addr == ((start_addr + i) % 0x10000) as u16,
                (result@, self@) == old(self)@.read_chunk(start_addr, i as nat),
            decreases size - i,
        {
            let v = self.read_8(addr);
            result.push(v);
            addr = addr.wrapping_add(1);
            i = i + 1;
        }
        result
    }
}

/// The 16-bit value of a little-endian byte pair.
pub open spec fn word(lo: u8, hi: u8) -> u16 {
    (hi * 256 + lo) as u16
}

} // verus!
