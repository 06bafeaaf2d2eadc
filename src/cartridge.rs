use vstd::prelude::*;

use crate::mbc::{Mbc, MbcKind};

verus! {

/// Why a cartridge image was refused.
#[derive(Clone, Copy, PartialEq, Eq, Structural, Debug)]
pub enum CartridgeError {
    /// The image is shorter than its header.
    Truncated,
    /// The header checksum at 0x14d does not match the header.
    BadHeaderChecksum,
    /// The image needs a memory bank controller other than MBC1 or MBC5,
    /// or declares a ROM or RAM size that does not exist.
    UnsupportedMapper,
}

/// The publisher code in the header: the old one-byte code, or the new
/// two-character code used when the old code is 0x33.
#[derive(Clone, Copy, PartialEq, Eq, Structural, Debug)]
pub enum LicenseeCode {
    Old(u8),
    New(u8, u8),
}

/// The sum of `rom[i] + 1` over the header bytes 0x134 up to `end`.
pub open spec fn header_sum(rom: Seq<u8>, end: int) -> int
    decreases end - 0x134,
{
    if end <= 0x134 { 0 } else { header_sum(rom, end - 1) + rom[end - 1] + 1 }
}

/// The header checksum of an image: 0 minus the sum of `rom[i] + 1` over
/// 0x134..0x14c, modulo 256.
pub open spec fn header_checksum(rom: Seq<u8>) -> u8 {
    ((65536 - header_sum(rom, 0x14d)) % 256) as u8
}

/// The sum of the title bytes 0x134 up to `end`, modulo 256.
pub open spec fn title_sum(rom: Seq<u8>, end: int) -> u8
    decreases end - 0x134,
{
    if end <= 0x134 { 0 } else { ((title_sum(rom, end - 1) + rom[end - 1]) % 256) as u8 }
}

/// The bank controller that cartridge type `t` (header byte 0x147) names;
/// MBC2 carries its own 512 half-bytes of RAM.
pub open spec fn mbc_kind_of(t: u8) -> Option<MbcKind> {
    if t == 0 {
        Some(MbcKind::RomOnly)
    } else if 1 <= t <= 3 {
        Some(MbcKind::Mbc1)
    } else if t == 5 || t == 6 {
        Some(MbcKind::Mbc2)
    } else if 0x0f <= t <= 0x13 {
        Some(MbcKind::Mbc3)
    } else if 0x19 <= t <= 0x1e {
        Some(MbcKind::Mbc5)
    } else {
        None
    }
}

/// The number of 16 KiB ROM banks that size code `code` (0..8, header byte 0x148) names.
pub open spec fn rom_banks_of(code: u8) -> int
    decreases code,
{
    if code == 0 { 2 } else { 2 * rom_banks_of((code - 1) as u8) }
}

/// The number of 8 KiB RAM banks that size code `code` (header byte 0x149) names.
pub open spec fn ram_banks_of(code: u8) -> Option<u16> {
    if code == 0 {
        Some(0)
    } else if code == 1 || code == 2 {
        Some(1)
    } else if code == 3 {
        Some(4)
    } else if code == 4 {
        Some(16)
    } else if code == 5 {
        Some(8)
    } else {
        None
    }
}

/// Whether an image is accepted: a full header and a matching header
/// checksum; a supported controller with existing ROM and RAM sizes (no
/// banking without a controller); and exactly as many bytes as the ROM size says.
pub open spec fn cartridge_error(rom: Seq<u8>) -> Option<CartridgeError> {
    if rom.len() < 0x150 {
        Some(CartridgeError::Truncated)
    } else if rom[0x14d] != header_checksum(rom) {
        Some(CartridgeError::BadHeaderChecksum)
    } else if mbc_kind_of(rom[0x147]) is None || rom[0x148] > 8 || ram_banks_of(rom[0x149]) is None {
        Some(CartridgeError::UnsupportedMapper)
    } else if mbc_kind_of(rom[0x147]) == Some(MbcKind::RomOnly) && (rom[0x148] != 0 || ram_banks_of(rom[0x149]).unwrap() > 1) {
        Some(CartridgeError::UnsupportedMapper)
    } else if rom.len() != rom_banks_of(rom[0x148]) * 0x4000 {
        Some(CartridgeError::Truncated)
    } else {
        None
    }
}

fn mbc_kind(t: u8) -> (r: Option<MbcKind>)
    ensures
        r == mbc_kind_of(t),
{
    if t == 0 {
        Some(MbcKind::RomOnly)
    } else if 1 <= t && t <= 3 {
        Some(MbcKind::Mbc1)
    } else if t == 5 || t == 6 {
        Some(MbcKind::Mbc2)
    } else if 0x0f <= t && t <= 0x13 {
        Some(MbcKind::Mbc3)
    } else if 0x19 <= t && t <= 0x1e {
        Some(MbcKind::Mbc5)
    } else {
        None
    }
}

fn rom_banks(code: u8) -> (r: u16)
    requires
        code <= 8,
    ensures
        r as int == rom_banks_of(code),
        2 <= r <= 512,
{
    proof {
        reveal_with_fuel(rom_banks_of, 9);
    }
    if code == 0 { 2 } else if code == 1 { 4 } else if code == 2 { 8 } else if code == 3 { 16 }
    else if code == 4 { 32 } else if code == 5 { 64 } else if code == 6 { 128 } else if code == 7 { 256 }
    else { 512 }
}

fn ram_banks(code: u8) -> (r: Option<u16>)
    ensures
        r == ram_banks_of(code),
{
    if code == 0 {
        Some(0)
    } else if code == 1 || code == 2 {
        Some(1)
    } else if code == 3 {
        Some(4)
    } else if code == 4 {
        Some(16)
    } else if code == 5 {
        Some(8)
    } else {
        None
    }
}

/// A cartridge image whose header was checked.
#[derive(Clone, Debug)]
pub struct Cartridge {
    rom: Vec<u8>,
}

impl View for Cartridge {
    type V = Seq<u8>;

    closed spec fn view(&self) -> Seq<u8> {
        self.rom@
    }
}

proof fn lemma_header_sum_bound(rom: Seq<u8>, end: int)
    requires
        0x134 <= end <= rom.len(),
    ensures
        0 <= header_sum(rom, end) <= 256 * (end - 0x134),
    decreases end - 0x134,
{
    if end > 0x134 {
        lemma_header_sum_bound(rom, end - 1);
    }
}

impl Cartridge {
    pub open spec fn wf(&self) -> bool {
        cartridge_error(self@).is_none()
    }

    /// Checks a cartridge image and keeps it.
    pub fn from_bytes(bytes: &[u8]) -> (r: Result<Cartridge, CartridgeError>)
        ensures
            r.is_ok() <==> cartridge_error(bytes@).is_none(),
            r.is_ok() ==> r.unwrap()@ == bytes@,
            r matches Err(e) ==> Some(e) == cartridge_error(bytes@),
    {
        if bytes.len() < 0x150 {
            return Err(CartridgeError::Truncated);
        }
        let mut sum: u32 = 0;
        let mut i: usize = 0x134;
        while i < 0x14d
            invariant
                0x134 <= i <= 0x14d,
                bytes@.len() >= 0x150,
                sum == header_sum(bytes@, i as int),
                sum <= 256 * (i - 0x134),
            decreases 0x14d - i,
        {
            sum = sum + bytes[i] as u32 + 1;
            i = i + 1;
        }
        let checksum = ((65536 - sum) % 256) as u8;
        if bytes[0x14d] != checksum {
            return Err(CartridgeError::BadHeaderChecksum);
        }
        let kind = match mbc_kind(bytes[0x147]) {
            Some(k) => k,
            None => {
                return Err(CartridgeError::UnsupportedMapper);
            },
        };
        if bytes[0x148] > 8 {
            return Err(CartridgeError::UnsupportedMapper);
        }
        let ram = match ram_banks(bytes[0x149]) {
            Some(r) => r,
            None => {
                return Err(CartridgeError::UnsupportedMapper);
            },
        };
        if kind == MbcKind::RomOnly && (bytes[0x148] != 0 || ram > 1) {
            return Err(CartridgeError::UnsupportedMapper);
        }
        if bytes.len() != rom_banks(bytes[0x148]) as usize * 0x4000 {
            return Err(CartridgeError::Truncated);
        }
        let mut rom: Vec<u8> = Vec::new();
        let mut k: usize = 0;
        while k < bytes.len()
            invariant
                k <= bytes@.len(),
                rom@ == bytes@.take(k as int),
            decreases bytes@.len() - k,
        {
            rom.push(bytes[k]);
            k = k + 1;
            assert(rom@ =~= bytes@.take(k as int));
        }
        assert(bytes@.take(bytes@.len() as int) =~= bytes@);
        Ok(Cartridge { rom })
    }

    /// The bank controller the header names, in its power-on state.
    pub fn mbc(&self) -> (r: Mbc)
        requires
            self.wf(),
        ensures
            r.wf(),
            Some(r.kind) == mbc_kind_of(self@[0x147]),
            r.rom_banks == rom_banks_of(self@[0x148]),
            r.kind == MbcKind::Mbc2 ==> r.ram_banks == 1,
            r.kind != MbcKind::Mbc2 ==> Some(r.ram_banks) == ram_banks_of(self@[0x149]),
            r.rom_bank == 1 && r.upper == 0 && !r.ram_enabled && !r.mode && !r.latch_armed && r.rtc_cycles == 0,
    {
        let kind = match mbc_kind(self.rom[0x147]) {
            Some(k) => k,
            None => MbcKind::RomOnly,
        };
        let ram = match ram_banks(self.rom[0x149]) {
            Some(r) => r,
            None => 0,
        };
        Mbc::new(kind, rom_banks(self.rom[0x148]), if kind == MbcKind::Mbc2 { 1 } else { ram })
    }

    /// The image.
    pub fn as_slice(&self) -> (r: &[u8])
        ensures
            r@ == self@,
    {
        self.rom.as_slice()
    }

    /// The sum of the title bytes 0x134..0x143, modulo 256.
    pub fn compute_title_checksum(&self) -> (r: u8)
        requires
            self.wf(),
        ensures
            r == title_sum(self@, 0x144),
    {
        let mut sum: u8 = 0;
        let mut i: usize = 0x134;
        while i < 0x144
            invariant
                0x134 <= i <= 0x144,
                self.rom@.len() >= 0x150,
                sum == title_sum(self.rom@, i as int),
            decreases 0x144 - i,
        {
            sum = ((sum as u16 + self.rom[i] as u16) % 256) as u8;
            i = i + 1;
        }
        sum
    }

    /// The publisher code of the header.
    pub fn get_licensee_code(&self) -> (r: LicenseeCode)
        requires
            self.wf(),
        ensures
            self@[0x14b] == 0x33 ==> r == LicenseeCode::New(self@[0x144], self@[0x145]),
            self@[0x14b] != 0x33 ==> r == LicenseeCode::Old(self@[0x14b]),
    {
        let old_code = self.rom[0x14b];
        if old_code == 0x33 {
            LicenseeCode::New(self.rom[0x144], self.rom[0x145])
        } else {
            LicenseeCode::Old(old_code)
        }
    }

    /// Whether the licensee code is 1, in either form; the title checksum
    /// seeds register B then.
    pub fn is_licensee_one(&self) -> (r: bool)
        requires
            self.wf(),
        ensures
            r == (self@[0x14b] == 1 || (self@[0x14b] == 0x33 && self@[0x144] == 0x30 && self@[0x145] == 0x31)),
    {
        match self.get_licensee_code() {
            LicenseeCode::Old(c) => c == 1,
            LicenseeCode::New(a, b) => a == 0x30 && b == 0x31,
        }
    }
}

} // verus!
