//! Cartridges in the iNES 1.0 file format.
use vstd::prelude::*;

verus! {

pub const HEADER_LEN: usize = 16;
pub const TRAINER_LEN: usize = 512;
pub const PRG_BANK: usize = 16384;
pub const CHR_BANK: usize = 8192;

#[derive(Debug, Clone, Copy, PartialEq, Eq, Structural)]
pub enum Mirroring {
    Horizontal,
    Vertical,
}

#[derive(Debug, Clone, Copy, PartialEq, Eq, Structural)]
pub enum TvSystem {
    Ntsc,
    Pal,
}

/// Why a byte blob is not a cartridge this core can run.
#[derive(Debug, Clone, Copy, PartialEq, Eq, Structural)]
pub enum CartridgeError {
    /// Fewer bytes than the 16-byte header.
    TooShort,
    /// The first four bytes are not "NES" followed by 0x1A.
    BadMagic,
    /// The header names a mapper other than 0.
    UnsupportedMapper(u8),
    /// Mapper 0 holds one or two 16 KiB PRG banks; the header declares another count.
    BadPrgSize(u8),
    /// The blob ends before the banks that the header declares.
    Truncated,
}

/// What a cartridge holds.
pub struct CartridgeView {
    pub prg: Seq<u8>,
    pub chr: Seq<u8>,
    pub mapper: u8,
    pub mirroring: Mirroring,
    pub trainer: bool,
    pub battery: bool,
    pub tv_system: TvSystem,
}

pub open spec fn mapper_of(flags6: u8, flags7: u8) -> u8 {
    (flags6 >> 4u8) | (flags7 & 0xF0)
}

pub open spec fn has_magic(b: Seq<u8>) -> bool {
    b[0] == 0x4E && b[1] == 0x45 && b[2] == 0x53 && b[3] == 0x1A
}

/// Where the PRG banks start: after the header and the trainer, if any.
pub open spec fn prg_start(b: Seq<u8>) -> int {
    HEADER_LEN + if b[6] & 0x04 != 0 { TRAINER_LEN as int } else { 0 }
}

/// The iNES file format, restricted to what mapper 0 can run.
pub open spec fn parse(b: Seq<u8>) -> Result<CartridgeView, CartridgeError> {
    if b.len() < HEADER_LEN {
        Err(CartridgeError::TooShort)
    } else if !has_magic(b) {
        Err(CartridgeError::BadMagic)
    } else if mapper_of(b[6], b[7]) != 0 {
        Err(CartridgeError::UnsupportedMapper(mapper_of(b[6], b[7])))
    } else if b[4] != 1 && b[4] != 2 {
        Err(CartridgeError::BadPrgSize(b[4]))
    } else {
        let start = prg_start(b);
        let prg_len = b[4] * PRG_BANK;
        let chr_len = b[5] * CHR_BANK;
        if b.len() < start + prg_len + chr_len {
            Err(CartridgeError::Truncated)
        } else {
            Ok(
                CartridgeView {
                    prg: b.subrange(start, start + prg_len),
                    chr: b.subrange(start + prg_len, start + prg_len + chr_len),
                    mapper: 0,
                    mirroring: if b[6] & 0x01 != 0 {
                        Mirroring::Vertical
                    } else {
                        Mirroring::Horizontal
                    },
                    trainer: b[6] & 0x04 != 0,
                    battery: b[6] & 0x02 != 0,
                    tv_system: if b[9] & 0x01 != 0 {
                        TvSystem::Pal
                    } else {
                        TvSystem::Ntsc
                    },
                },
            )
        }
    }
}

/// An NROM cartridge: immutable PRG and CHR banks and the header's flags.
#[derive(Debug)]
#[verifier::type_invariant]
pub struct Cartridge {
    prg_rom: Vec<u8>,
    chr_rom: Vec<u8>,
    mapper: u8,
    mirroring: Mirroring,
    trainer: bool,
    battery: bool,
    tv_system: TvSystem,
}

impl View for Cartridge {
    type V = CartridgeView;

    closed spec fn view(&self) -> CartridgeView {
        CartridgeView {
            prg: self.prg_rom@,
            chr: self.chr_rom@,
            mapper: self.mapper,
            mirroring: self.mirroring,
            trainer: self.trainer,
            battery: self.battery,
            tv_system: self.tv_system,
        }
    }
}

/// A copy of `len` bytes of `bytes` from `start` on.
fn copy_range(bytes: &Vec<u8>, start: usize, len: usize) -> (r: Vec<u8>)
    requires
        start + len <= bytes.len(),
    ensures
        r@ == bytes@.subrange(start as int, start + len),
{
    let mut out: Vec<u8> = Vec::new();
    let mut i: usize = 0;
    while i < len
        invariant
            start + len <= bytes.len(),
            i <= len,
            out@ == bytes@.subrange(start as int, start + i),
        decreases len - i,
    {
        out.push(bytes[start + i]);
        i = i + 1;
        assert(out@ =~= bytes@.subrange(start as int, start + i));
    }
    out
}

impl Cartridge {
    #[verifier::type_invariant]
    spec fn banks_fit_mapper_zero(&self) -> bool {
        &&& self.prg_rom.len() == 0x4000 || self.prg_rom.len() == 0x8000
        &&& self.mapper == 0
    }

    /// Reads an iNES image: header, optional trainer, PRG banks, CHR banks.
    pub fn new(bytes: Vec<u8>) -> (r: Result<Cartridge, CartridgeError>)
        ensures
            match r {
                Ok(c) => parse(bytes@) == Ok::<CartridgeView, CartridgeError>(c@),
                Err(e) => parse(bytes@) == Err::<CartridgeView, CartridgeError>(e),
            },
    {
        if bytes.len() < HEADER_LEN {
            return Err(CartridgeError::TooShort);
        }
        if !(bytes[0] == 0x4E && bytes[1] == 0x45 && bytes[2] == 0x53 && bytes[3] == 0x1A) {
            return Err(CartridgeError::BadMagic);
        }
        let mapper = (bytes[6] >> 4u8) | (bytes[7] & 0xF0);
        if mapper != 0 {
            return Err(CartridgeError::UnsupportedMapper(mapper));
        }
        let prg_units = bytes[4];
        if prg_units != 1 && prg_units != 2 {
            return Err(CartridgeError::BadPrgSize(prg_units));
        }
        let trainer = bytes[6] & 0x04 != 0;
        let start: usize = if trainer { HEADER_LEN + TRAINER_LEN } else { HEADER_LEN };
        let prg_len: usize = prg_units as usize * PRG_BANK;
        let chr_len: usize = bytes[5] as usize * CHR_BANK;
        if bytes.len() < start || bytes.len() - start < prg_len + chr_len {
            return Err(CartridgeError::Truncated);
        }
        let prg_rom = copy_range(&bytes, start, prg_len);
        let chr_rom = copy_range(&bytes, start + prg_len, chr_len);
        let c = Cartridge {
            prg_rom,
            chr_rom,
            mapper,
            mirroring: if bytes[6] & 0x01 != 0 {
                Mirroring::Vertical
            } else {
                Mirroring::Horizontal
            },
            trainer,
            battery: bytes[6] & 0x02 != 0,
            tv_system: if bytes[9] & 0x01 != 0 {
                TvSystem::Pal
            } else {
                TvSystem::Ntsc
            },
        };
        Ok(c)
    }

    /// The PRG banks.
    pub fn prg(&self) -> (r: &Vec<u8>)
        ensures
            r@ == self@.prg,
    {
        &self.prg_rom
    }

    /// The CHR banks.
    pub fn chr(&self) -> (r: &Vec<u8>)
        ensures
            r@ == self@.chr,
    {
        &self.chr_rom
    }

    /// PRG length in bytes: one or two 16 KiB banks.
    pub fn rom_len(&self) -> (r: usize)
        ensures
            r == self@.prg.len(),
            r == 0x4000 || r == 0x8000,
    {
        proof {
            use_type_invariant(self);
        }
        self.prg_rom.len()
    }

    pub fn mapper(&self) -> (r: u8)
        ensures
            r == self@.mapper,
    {
        self.mapper
    }

    pub fn mirroring(&self) -> (r: Mirroring)
        ensures
            r == self@.mirroring,
    {
        self.mirroring
    }

    pub fn has_trainer(&self) -> (r: bool)
        ensures
            r == self@.trainer,
    {
        self.trainer
    }

    pub fn tv_system(&self) -> (r: TvSystem)
        ensures
            r == self@.tv_system,
    {
        self.tv_system
    }
}

} // verus!
