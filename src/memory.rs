use vstd::prelude::*;

use crate::boot_rom::BootRom;
use crate::mbc::{Mbc, MbcKind, mbc_after_write, ram_offset, rom_offset, rtc_register, rtc_selected, rtc_write};

verus! {

/// Number of addressable bytes on the bus.
pub const MEMORY_SIZE: usize = 0x10000;

pub const MEMORY_LOCATION_VRAM_BEGIN: u16 = 0x8000;
pub const MEMORY_LOCATION_WRAM_BEGIN: u16 = 0xc000;
pub const MEMORY_LOCATION_WRAM_END: u16 = 0xdfff;
pub const MEMORY_LOCATION_ECHO_BEGIN: u16 = 0xe000;
pub const MEMORY_LOCATION_ECHO_END: u16 = 0xfdff;
pub const MEMORY_LOCATION_OAM_BEGIN: u16 = 0xfe00;
pub const MEMORY_LOCATION_OAM_END: u16 = 0xfe9f;
pub const MEMORY_LOCATION_UNUSABLE_BEGIN: u16 = 0xfea0;
pub const MEMORY_LOCATION_UNUSABLE_END: u16 = 0xfeff;
pub const MEMORY_LOCATION_JOYP: u16 = 0xff00;
pub const MEMORY_LOCATION_SB: u16 = 0xff01;
pub const MEMORY_LOCATION_SC: u16 = 0xff02;
pub const MEMORY_LOCATION_DIV: u16 = 0xff04;
pub const MEMORY_LOCATION_TIMA: u16 = 0xff05;
pub const MEMORY_LOCATION_TMA: u16 = 0xff06;
pub const MEMORY_LOCATION_TAC: u16 = 0xff07;
pub const MEMORY_LOCATION_INTERRUPTS_FLAGGED: u16 = 0xff0f;
pub const MEMORY_LOCATION_LCD_CONTROL: u16 = 0xff40;
pub const MEMORY_LOCATION_LCD_STATUS: u16 = 0xff41;
pub const MEMORY_LOCATION_SCY: u16 = 0xff42;
pub const MEMORY_LOCATION_SCX: u16 = 0xff43;
pub const MEMORY_LOCATION_LY: u16 = 0xff44;
pub const MEMORY_LOCATION_LYC: u16 = 0xff45;
pub const MEMORY_LOCATION_DMA: u16 = 0xff46;
pub const MEMORY_LOCATION_PALETTE_BG: u16 = 0xff47;
pub const MEMORY_LOCATION_PALETTE_OBP0: u16 = 0xff48;
pub const MEMORY_LOCATION_PALETTE_OBP1: u16 = 0xff49;
pub const MEMORY_LOCATION_WY: u16 = 0xff4a;
pub const MEMORY_LOCATION_WX: u16 = 0xff4b;
pub const MEMORY_LOCATION_BOOT_ROM_DISABLE: u16 = 0xff50;
pub const MEMORY_LOCATION_INTERRUPTS_ENABLED: u16 = 0xffff;

/// The five interrupt sources, in decreasing priority.
#[derive(Clone, Copy, PartialEq, Eq, Structural, Debug)]
pub enum Interrupt {
    VBlank,
    LcdStat,
    Timer,
    Serial,
    Joypad,
}

impl Interrupt {
    /// The bit of this interrupt within IE and IF.
    pub open spec fn bit_spec(&self) -> u8 {
        match *self {
            Interrupt::VBlank => 0,
            Interrupt::LcdStat => 1,
            Interrupt::Timer => 2,
            Interrupt::Serial => 3,
            Interrupt::Joypad => 4,
        }
    }

    /// The bit of this interrupt within IE and IF.
    pub fn bit(&self) -> (r: u8)
        ensures
            r == self.bit_spec(),
            r < 5,
    {
        match *self {
            Interrupt::VBlank => 0,
            Interrupt::LcdStat => 1,
            Interrupt::Timer => 2,
            Interrupt::Serial => 3,
            Interrupt::Joypad => 4,
        }
    }

    /// The address the CPU jumps to when dispatching this interrupt.
    pub fn vector(&self) -> (r: u16)
        ensures
            r == 0x40 + 8 * self.bit_spec(),
    {
        match *self {
            Interrupt::VBlank => 0x40,
            Interrupt::LcdStat => 0x48,
            Interrupt::Timer => 0x50,
            Interrupt::Serial => 0x58,
            Interrupt::Joypad => 0x60,
        }
    }
}

/// The bits of an I/O register that a program can write; zero for
/// locations that are not masked registers.
pub open spec fn io_write_mask(address: u16) -> u8 {
    if address == MEMORY_LOCATION_JOYP {
        0x30
    } else if address == MEMORY_LOCATION_SC {
        0x81
    } else if address == MEMORY_LOCATION_TAC {
        0x07
    } else if address == MEMORY_LOCATION_INTERRUPTS_FLAGGED {
        0x1f
    } else if address == MEMORY_LOCATION_LCD_STATUS {
        0x78
    } else {
        0xff
    }
}

/// The unused bits of an I/O register, which always read as 1.
pub open spec fn io_unused_bits(address: u16) -> u8 {
    if address == MEMORY_LOCATION_JOYP {
        0xc0
    } else if address == MEMORY_LOCATION_SC {
        0x7e
    } else if address == MEMORY_LOCATION_TAC {
        0xf8
    } else if address == MEMORY_LOCATION_INTERRUPTS_FLAGGED {
        0xe0
    } else if address == MEMORY_LOCATION_LCD_STATUS {
        0x80
    } else {
        0x00
    }
}

/// The I/O registers with read-only or unused bits.
pub open spec fn is_masked_register(address: u16) -> bool {
    address == MEMORY_LOCATION_JOYP || address == MEMORY_LOCATION_SC || address
        == MEMORY_LOCATION_TAC || address == MEMORY_LOCATION_INTERRUPTS_FLAGGED || address
        == MEMORY_LOCATION_LCD_STATUS
}

/// Whether `address` lies in the echo of work RAM.
pub open spec fn is_echo(address: u16) -> bool {
    MEMORY_LOCATION_ECHO_BEGIN <= address <= MEMORY_LOCATION_ECHO_END
}

/// Whether `address` lies in the cartridge's external RAM.
pub open spec fn is_cartridge_ram(address: u16) -> bool {
    0xa000 <= address <= 0xbfff
}

/// Whether `address` lies in the unusable area behind OAM.
pub open spec fn is_unusable(address: u16) -> bool {
    MEMORY_LOCATION_UNUSABLE_BEGIN <= address <= MEMORY_LOCATION_UNUSABLE_END
}

/// Whether `address` lies in work RAM.
pub open spec fn is_work_ram(address: u16) -> bool {
    MEMORY_LOCATION_WRAM_BEGIN <= address <= MEMORY_LOCATION_WRAM_END
}

/// The start of the block an OAM DMA copies from, for the value written to
/// the DMA register; sources above 0xdfff read the echo of work RAM.
pub open spec fn dma_source(page: u8) -> int {
    if page >= 0xe0 {
        (page - 0x20) * 256
    } else {
        page * 256
    }
}

/// The byte store after an OAM DMA from `page`: each of the 160 OAM bytes
/// takes the byte at the same offset of the source block.
pub open spec fn dma_copy(s: Seq<u8>, page: u8) -> Seq<u8> {
    Seq::new(
        s.len(),
        |i: int|
            if 0xfe00 <= i < 0xfea0 {
                s[dma_source(page) + (i - 0xfe00)]
            } else {
                s[i]
            },
    )
}

/// The byte store after the CPU writes `value` to `address`.
pub open spec fn write_bytes(s: Seq<u8>, address: u16, value: u8) -> Seq<u8> {
    if address < MEMORY_LOCATION_VRAM_BEGIN || is_cartridge_ram(address) || is_unusable(address)
        || address == MEMORY_LOCATION_LY {
        s
    } else if is_echo(address) {
        s.update(address - 0x2000, value)
    } else if is_masked_register(address) {
        s.update(
            address as int,
            (s[address as int] & !io_write_mask(address)) | (value & io_write_mask(address)),
        )
    } else if address == MEMORY_LOCATION_DIV {
        s.update(address as int, 0)
    } else if address == MEMORY_LOCATION_DMA {
        dma_copy(s.update(address as int, value), value)
    } else {
        s.update(address as int, value)
    }
}

/// The low nibble of JOYP: each selected line reads 0 while its button is held.
/// Bits 0..3 of `buttons` are the directions, bits 4..7 the action buttons.
pub open spec fn joypad_lines(select: u8, buttons: u8) -> u8 {
    let dirs: u8 = if select & 0x10 == 0 { buttons & 0x0f } else { 0 };
    let acts: u8 = if select & 0x20 == 0 { (buttons >> 4) & 0x0f } else { 0 };
    !(dirs | acts) & 0x0f
}

/// The memory bus seen by the CPU and the peripherals that work on memory.
#[derive(Clone)]
pub struct Memory {
    bytes: Vec<u8>,
    boot_rom: Option<BootRom>,
    boot_rom_mapped: bool,
    buttons: u8,
    div_written: bool,
    tima_written: bool,
    cart_rom: Vec<u8>,
    cart_ram: Vec<u8>,
    mbc: Mbc,
    dma_remaining: u16,
}

impl View for Memory {
    type V = Seq<u8>;

    /// The stored bytes, indexed by address.
    closed spec fn view(&self) -> Seq<u8> {
        self.bytes@
    }
}

impl Memory {
    /// The invariant of the bus: one stored byte for each address.
    pub open spec fn wf(&self) -> bool {
        self@.len() == MEMORY_SIZE && self.mbc_spec().wf()
    }

    /// The cycles left of a running OAM DMA burst; 0 when none runs.
    pub closed spec fn dma_remaining_spec(&self) -> u16 {
        self.dma_remaining
    }

    /// The cartridge's bank controller.
    pub closed spec fn mbc_spec(&self) -> Mbc {
        self.mbc
    }

    /// The cartridge's ROM image; empty without a cartridge.
    pub closed spec fn cart_rom_spec(&self) -> Seq<u8> {
        self.cart_rom@
    }

    /// The cartridge's external RAM.
    pub closed spec fn cart_ram_spec(&self) -> Seq<u8> {
        self.cart_ram@
    }

    /// What the CPU reads from the cartridge ROM at `address` (below 0x8000):
    /// 0xff beyond the image.
    pub open spec fn rom_read_spec(&self, address: u16) -> u8 {
        let o = rom_offset(self.mbc_spec(), address);
        if 0 <= o < self.cart_rom_spec().len() { self.cart_rom_spec()[o] } else { 0xff }
    }

    /// What the CPU reads from the cartridge RAM at `address`: 0xff while
    /// RAM is disabled or absent.
    pub open spec fn ram_read_spec(&self, address: u16) -> u8 {
        if rtc_selected(self.mbc_spec()) {
            rtc_register(self.mbc_spec().latched, self.mbc_spec().upper)
        } else {
            match ram_offset(self.mbc_spec(), address) {
                Some(o) => if 0 <= o < self.cart_ram_spec().len() {
                    if self.mbc_spec().kind == MbcKind::Mbc2 {
                        self.cart_ram_spec()[o] | 0xf0
                    } else {
                        self.cart_ram_spec()[o]
                    }
                } else {
                    0xff
                },
                None => 0xff,
            }
        }
    }

    /// Whether the boot ROM currently covers 0x0000..0x00ff.
    pub closed spec fn boot_rom_active(&self) -> bool {
        self.boot_rom_mapped && self.boot_rom.is_some()
    }

    /// Whether a boot ROM was given.
    pub closed spec fn has_boot_rom_spec(&self) -> bool {
        self.boot_rom.is_some()
    }

    /// The boot ROM's image, where one was given.
    pub closed spec fn boot_rom_image(&self) -> Seq<u8> {
        match self.boot_rom {
            Some(b) => b@,
            None => Seq::empty(),
        }
    }

    /// The buttons currently held.
    pub closed spec fn buttons_spec(&self) -> u8 {
        self.buttons
    }

    /// Whether DIV was written since the timer last looked.
    pub closed spec fn div_written_spec(&self) -> bool {
        self.div_written
    }

    /// Whether TIMA was written since the timer last looked.
    pub closed spec fn tima_written_spec(&self) -> bool {
        self.tima_written
    }

    /// `self` and `other` agree on everything but the stored bytes.
    pub open spec fn same_extras(&self, other: &Memory) -> bool {
        &&& self.boot_rom_active() == other.boot_rom_active()
        &&& self.boot_rom_image() == other.boot_rom_image()
        &&& self.buttons_spec() == other.buttons_spec()
        &&& self.div_written_spec() == other.div_written_spec()
        &&& self.tima_written_spec() == other.tima_written_spec()
        &&& self.dma_remaining_spec() == other.dma_remaining_spec()
        &&& self.mbc_spec() == other.mbc_spec()
        &&& self.cart_rom_spec() == other.cart_rom_spec()
        &&& self.cart_ram_spec() == other.cart_ram_spec()
    }

    /// What the CPU reads at `address`.
    pub open spec fn read_spec(&self, address: u16) -> u8 {
        if self.boot_rom_active() && address < 0x100 {
            self.boot_rom_image()[address as int]
        } else if address < 0x8000 {
            self.rom_read_spec(address)
        } else if is_cartridge_ram(address) {
            self.ram_read_spec(address)
        } else if is_echo(address) {
            self@[address - 0x2000]
        } else if is_unusable(address) {
            0xff
        } else if address == MEMORY_LOCATION_JOYP {
            (self@[address as int] & 0x30) | 0xc0 | joypad_lines(
                self@[address as int],
                self.buttons_spec(),
            )
        } else {
            self@[address as int] | io_unused_bits(address)
        }
    }

    /// A bus with every byte 0 and no boot ROM.
    pub fn new() -> (r: Memory)
        ensures
            r.wf(),
            r@ == Seq::new(MEMORY_SIZE as nat, |i: int| 0u8),
            !r.boot_rom_active(),
            r.buttons_spec() == 0,
            !r.div_written_spec(),
            !r.tima_written_spec(),
            r.cart_rom_spec().len() == 0,
            r.cart_ram_spec().len() == 0,
            r.dma_remaining_spec() == 0,
    {
        let mut bytes: Vec<u8> = Vec::new();
        let mut i: usize = 0;
        while i < MEMORY_SIZE
            invariant
                i <= MEMORY_SIZE,
                bytes@.len() == i,
                forall|j: int| 0 <= j < i ==> bytes@[j] == 0u8,
            decreases MEMORY_SIZE - i,
        {
            bytes.push(0u8);
            i = i + 1;
        }
        let r = Memory { bytes, boot_rom: None, boot_rom_mapped: false, buttons: 0,
            div_written: false,
            tima_written: false,
            cart_rom: Vec::new(),
            cart_ram: Vec::new(),
            mbc: Mbc::new(MbcKind::RomOnly, 2, 0),
            dma_remaining: 0,
        };
        assert(r@ =~= Seq::new(MEMORY_SIZE as nat, |i: int| 0u8));
        r
    }

    /// Maps a boot ROM over the start of the address space.
    pub fn set_boot_rom(&mut self, boot_rom: BootRom)
        ensures
            final(self)@ == old(self)@,
            final(self).wf() == old(self).wf(),
            final(self).boot_rom_active(),
            final(self).boot_rom_image() == boot_rom@,
            final(self).buttons_spec() == old(self).buttons_spec(),
            final(self).div_written_spec() == old(self).div_written_spec(),
            final(self).tima_written_spec() == old(self).tima_written_spec(),
            final(self).dma_remaining_spec() == old(self).dma_remaining_spec(),
            final(self).mbc_spec() == old(self).mbc_spec(),
            final(self).cart_rom_spec() == old(self).cart_rom_spec(),
            final(self).cart_ram_spec() == old(self).cart_ram_spec(),
    {
        self.boot_rom = Some(boot_rom);
        self.boot_rom_mapped = true;
    }

    /// Whether a boot ROM was given.
    pub fn has_boot_rom(&self) -> (r: bool)
        ensures
            r == self.has_boot_rom_spec(),
    {
        self.boot_rom.is_some()
    }

    /// Reads a byte as the CPU sees it.
    pub fn read_u8(&self, address: u16) -> (r: u8)
        requires
            self.wf(),
        ensures
            r == self.read_spec(address),
    {
        if self.boot_rom_mapped && address < 0x100 {
            match &self.boot_rom {
                Some(b) => {
                    return b.read(address);
                },
                None => {},
            }
        }
        if address < 0x8000 {
            let o = self.mbc.translate_rom(address);
            if o < self.cart_rom.len() { self.cart_rom[o] } else { 0xff }
        } else if 0xa000 <= address && address <= 0xbfff {
            if self.mbc.is_rtc_selected() {
                return self.mbc.read_rtc();
            }
            match self.mbc.translate_ram(address) {
                Some(o) => if o < self.cart_ram.len() {
                    if self.mbc.kind == MbcKind::Mbc2 { self.cart_ram[o] | 0xf0 } else { self.cart_ram[o] }
                } else {
                    0xff
                },
                None => 0xff,
            }
        } else if MEMORY_LOCATION_ECHO_BEGIN <= address && address <= MEMORY_LOCATION_ECHO_END {
            self.bytes[(address - 0x2000) as usize]
        } else if MEMORY_LOCATION_UNUSABLE_BEGIN <= address && address
            <= MEMORY_LOCATION_UNUSABLE_END {
            0xff
        } else if address == MEMORY_LOCATION_JOYP {
            let select = self.bytes[address as usize];
            let dirs: u8 = if select & 0x10 == 0 { self.buttons & 0x0f } else { 0 };
            let acts: u8 = if select & 0x20 == 0 { (self.buttons >> 4) & 0x0f } else { 0 };
            (select & 0x30) | 0xc0 | (!(dirs | acts) & 0x0f)
        } else {
            let unused: u8 = if address == MEMORY_LOCATION_SC {
                0x7e
            } else if address == MEMORY_LOCATION_TAC {
                0xf8
            } else if address == MEMORY_LOCATION_INTERRUPTS_FLAGGED {
                0xe0
            } else if address == MEMORY_LOCATION_LCD_STATUS {
                0x80
            } else {
                0x00
            };
            self.bytes[address as usize] | unused
        }
    }

    /// Reads the stored byte at `address`, as the peripherals see their registers.
    pub fn get(&self, address: u16) -> (r: u8)
        requires
            self.wf(),
        ensures
            r == self@[address as int],
    {
        self.bytes[address as usize]
    }

    /// Stores a byte at `address` without any of the CPU's write rules; this is
    /// how the peripherals update their own registers.
    pub fn set(&mut self, address: u16, value: u8)
        requires
            old(self).wf(),
        ensures
            final(self).wf(),
            final(self)@ == old(self)@.update(address as int, value),
            final(self).boot_rom_active() == old(self).boot_rom_active(),
            final(self).boot_rom_image() == old(self).boot_rom_image(),
            final(self).buttons_spec() == old(self).buttons_spec(),
            final(self).div_written_spec() == old(self).div_written_spec(),
            final(self).tima_written_spec() == old(self).tima_written_spec(),
            final(self).dma_remaining_spec() == old(self).dma_remaining_spec(),
            final(self).mbc_spec() == old(self).mbc_spec(),
            final(self).cart_rom_spec() == old(self).cart_rom_spec(),
            final(self).cart_ram_spec() == old(self).cart_ram_spec(),
    {
        self.bytes.set(address as usize, value);
    }

    /// Sets the request bit of `interrupt` in IF.
    pub fn request_interrupt(&mut self, interrupt: Interrupt)
        requires
            old(self).wf(),
        ensures
            final(self).wf(),
            final(self)@ == old(self)@.update(
                MEMORY_LOCATION_INTERRUPTS_FLAGGED as int,
                old(self)@[MEMORY_LOCATION_INTERRUPTS_FLAGGED as int] | (1u8 << interrupt.bit_spec()),
            ),
            final(self).boot_rom_active() == old(self).boot_rom_active(),
            final(self).boot_rom_image() == old(self).boot_rom_image(),
            final(self).buttons_spec() == old(self).buttons_spec(),
            final(self).div_written_spec() == old(self).div_written_spec(),
            final(self).tima_written_spec() == old(self).tima_written_spec(),
            final(self).dma_remaining_spec() == old(self).dma_remaining_spec(),
            final(self).mbc_spec() == old(self).mbc_spec(),
            final(self).cart_rom_spec() == old(self).cart_rom_spec(),
            final(self).cart_ram_spec() == old(self).cart_ram_spec(),
    {
        let flags = self.bytes[MEMORY_LOCATION_INTERRUPTS_FLAGGED as usize];
        let bit = interrupt.bit();
        self.bytes.set(MEMORY_LOCATION_INTERRUPTS_FLAGGED as usize, flags | (1u8 << bit));
    }

    /// Writes a byte as the CPU does: ROM, LY and the unusable area ignore
    /// writes, echo RAM writes through to work RAM, masked registers keep their
    /// read-only bits, a write to DIV clears it, a write to the DMA register
    /// copies a block into OAM, and a write with bit 0 set to 0xff50 unmaps
    /// the boot ROM.
    pub fn write_u8(&mut self, address: u16, value: u8)
        requires
            old(self).wf(),
        ensures
            final(self).wf(),
            final(self)@ == write_bytes(old(self)@, address, value),
            final(self).boot_rom_active() == (old(self).boot_rom_active() && !(address
                == MEMORY_LOCATION_BOOT_ROM_DISABLE && value & 1 == 1)),
            final(self).boot_rom_image() == old(self).boot_rom_image(),
            final(self).buttons_spec() == old(self).buttons_spec(),
            final(self).div_written_spec() == (old(self).div_written_spec() || address
                == MEMORY_LOCATION_DIV),
            final(self).tima_written_spec() == (old(self).tima_written_spec() || address
                == MEMORY_LOCATION_TIMA),
            final(self).dma_remaining_spec() == (if address == MEMORY_LOCATION_DMA { 160 } else {
                old(self).dma_remaining_spec()
            }),
            final(self).mbc_spec() == (if address < 0x8000 {
                mbc_after_write(old(self).mbc_spec(), address, value)
            } else if is_cartridge_ram(address) && rtc_selected(old(self).mbc_spec()) {
                Mbc { rtc: rtc_write(old(self).mbc_spec().rtc, old(self).mbc_spec().upper, value), ..old(self).mbc_spec() }
            } else {
                old(self).mbc_spec()
            }),
            final(self).cart_rom_spec() == old(self).cart_rom_spec(),
            final(self).cart_ram_spec() == (if is_cartridge_ram(address) {
                match ram_offset(old(self).mbc_spec(), address) {
                    Some(o) => if 0 <= o < old(self).cart_ram_spec().len() {
                        old(self).cart_ram_spec().update(o, value)
                    } else {
                        old(self).cart_ram_spec()
                    },
                    None => old(self).cart_ram_spec(),
                }
            } else {
                old(self).cart_ram_spec()
            }),
    {
        if address == MEMORY_LOCATION_BOOT_ROM_DISABLE && value & 1 == 1 {
            self.boot_rom_mapped = false;
        }
        if address < MEMORY_LOCATION_VRAM_BEGIN {
            self.mbc.intercept_write(address, value);
        } else if 0xa000 <= address && address <= 0xbfff {
            if self.mbc.is_rtc_selected() {
                self.mbc.write_rtc(value);
                return;
            }
            match self.mbc.translate_ram(address) {
                Some(o) => {
                    if o < self.cart_ram.len() {
                        self.cart_ram.set(o, value);
                    }
                },
                None => {},
            }
        } else if (MEMORY_LOCATION_UNUSABLE_BEGIN <= address && address <= MEMORY_LOCATION_UNUSABLE_END)
            || address == MEMORY_LOCATION_LY {
        } else if MEMORY_LOCATION_ECHO_BEGIN <= address && address <= MEMORY_LOCATION_ECHO_END {
            self.bytes.set((address - 0x2000) as usize, value);
        } else if address == MEMORY_LOCATION_JOYP || address == MEMORY_LOCATION_SC || address
            == MEMORY_LOCATION_TAC || address == MEMORY_LOCATION_INTERRUPTS_FLAGGED || address
            == MEMORY_LOCATION_LCD_STATUS {
            let mask: u8 = if address == MEMORY_LOCATION_JOYP {
                0x30
            } else if address == MEMORY_LOCATION_SC {
                0x81
            } else if address == MEMORY_LOCATION_TAC {
                0x07
            } else if address == MEMORY_LOCATION_INTERRUPTS_FLAGGED {
                0x1f
            } else {
                0x78
            };
            let stored = self.bytes[address as usize];
            self.bytes.set(address as usize, (stored & !mask) | (value & mask));
        } else if address == MEMORY_LOCATION_DIV {
            self.bytes.set(address as usize, 0);
            self.div_written = true;
        } else if address == MEMORY_LOCATION_DMA {
            self.bytes.set(address as usize, value);
            self.run_dma(value);
            self.dma_remaining = 160;
        } else if address == MEMORY_LOCATION_TIMA {
            self.bytes.set(address as usize, value);
            self.tima_written = true;
        } else {
            self.bytes.set(address as usize, value);
        }
    }

    /// Copies the 160 bytes of the block selected by `page` into OAM.
    fn run_dma(&mut self, page: u8)
        requires
            old(self).wf(),
        ensures
            final(self).wf(),
            final(self)@ == dma_copy(old(self)@, page),
            final(self).boot_rom_mapped == old(self).boot_rom_mapped,
            final(self).boot_rom == old(self).boot_rom,
            final(self).buttons == old(self).buttons,
            final(self).div_written == old(self).div_written,
            final(self).tima_written == old(self).tima_written,
            final(self).mbc == old(self).mbc,
            final(self).cart_rom == old(self).cart_rom,
            final(self).cart_ram == old(self).cart_ram,
            final(self).dma_remaining == old(self).dma_remaining,
    {
        let source: usize = if page >= 0xe0 {
            (page as usize - 0x20) * 256
        } else {
            page as usize * 256
        };
        assert(source == dma_source(page));
        assert(source + 160 <= 0xe000);
        let ghost before = self.bytes@;
        let mut i: usize = 0;
        while i < 160
            invariant
                i <= 160,
                source == dma_source(page),
                source + 160 <= 0xe000,
                self.bytes@.len() == MEMORY_SIZE,
                before.len() == MEMORY_SIZE,
                forall|j: int|
                    0 <= j < MEMORY_SIZE ==> #[trigger] self.bytes@[j] == (if 0xfe00 <= j < 0xfe00
                        + i { before[source + (j - 0xfe00)] } else { before[j] }),
                self.boot_rom_mapped == old(self).boot_rom_mapped,
                self.boot_rom == old(self).boot_rom,
                self.buttons == old(self).buttons,
                self.div_written == old(self).div_written,
                self.tima_written == old(self).tima_written,
                self.mbc == old(self).mbc,
                self.cart_rom == old(self).cart_rom,
                self.cart_ram == old(self).cart_ram,
                self.dma_remaining == old(self).dma_remaining,
                before == old(self).bytes@,
            decreases 160 - i,
        {
            let b = self.bytes[source + i];
            self.bytes.set(0xfe00 + i, b);
            i = i + 1;
        }
        assert(self.bytes@ =~= dma_copy(before, page));
    }

    /// Records which buttons are held (bits 0..3: right, left, up, down;
    /// bits 4..7: A, B, select, start) and requests the joypad interrupt when
    /// a selected line falls from 1 to 0.
    pub fn set_buttons(&mut self, buttons: u8)
        requires
            old(self).wf(),
        ensures
            final(self).wf(),
            final(self).buttons_spec() == buttons,
            ({
                let select = old(self)@[MEMORY_LOCATION_JOYP as int];
                let before = joypad_lines(select, old(self).buttons_spec());
                let after = joypad_lines(select, buttons);
                let flags = old(self)@[MEMORY_LOCATION_INTERRUPTS_FLAGGED as int];
                final(self)@ == (if before & !after != 0 {
                    old(self)@.update(MEMORY_LOCATION_INTERRUPTS_FLAGGED as int, flags | (1u8 << 4u8))
                } else {
                    old(self)@
                })
            }),
            final(self).boot_rom_active() == old(self).boot_rom_active(),
            final(self).boot_rom_image() == old(self).boot_rom_image(),
            final(self).div_written_spec() == old(self).div_written_spec(),
            final(self).tima_written_spec() == old(self).tima_written_spec(),
            final(self).dma_remaining_spec() == old(self).dma_remaining_spec(),
            final(self).mbc_spec() == old(self).mbc_spec(),
            final(self).cart_rom_spec() == old(self).cart_rom_spec(),
            final(self).cart_ram_spec() == old(self).cart_ram_spec(),
    {
        let select = self.bytes[MEMORY_LOCATION_JOYP as usize];
        let old_buttons = self.buttons;
        let dirs0: u8 = if select & 0x10 == 0 { old_buttons & 0x0f } else { 0 };
        let acts0: u8 = if select & 0x20 == 0 { (old_buttons >> 4) & 0x0f } else { 0 };
        let before: u8 = !(dirs0 | acts0) & 0x0f;
        let dirs1: u8 = if select & 0x10 == 0 { buttons & 0x0f } else { 0 };
        let acts1: u8 = if select & 0x20 == 0 { (buttons >> 4) & 0x0f } else { 0 };
        let after: u8 = !(dirs1 | acts1) & 0x0f;
        self.buttons = buttons;
        if before & !after != 0 {
            self.request_interrupt(Interrupt::Joypad);
        }
    }

    /// Inserts a cartridge: its ROM image behind the bank controller `mbc`,
    /// and cleared external RAM of the controller's size.
    pub fn load_cartridge(&mut self, rom: &[u8], mbc: Mbc)
        requires
            old(self).wf(),
            mbc.wf(),
        ensures
            final(self).wf(),
            final(self)@ == old(self)@,
            final(self).cart_rom_spec() == rom@,
            final(self).mbc_spec() == mbc,
            final(self).cart_ram_spec() == Seq::new(mbc.ram_banks as nat * 0x2000, |i: int| 0u8),
            final(self).boot_rom_active() == old(self).boot_rom_active(),
            final(self).boot_rom_image() == old(self).boot_rom_image(),
            final(self).buttons_spec() == old(self).buttons_spec(),
            final(self).div_written_spec() == old(self).div_written_spec(),
            final(self).tima_written_spec() == old(self).tima_written_spec(),
            final(self).dma_remaining_spec() == old(self).dma_remaining_spec(),
    {
        let mut image: Vec<u8> = Vec::new();
        let mut i: usize = 0;
        while i < rom.len()
            invariant
                i <= rom@.len(),
                image@ == rom@.take(i as int),
            decreases rom@.len() - i,
        {
            image.push(rom[i]);
            i = i + 1;
            assert(image@ =~= rom@.take(i as int));
        }
        assert(rom@.take(rom@.len() as int) =~= rom@);
        let size: usize = mbc.ram_banks as usize * 0x2000;
        let mut ram: Vec<u8> = Vec::new();
        let mut k: usize = 0;
        while k < size
            invariant
                k <= size,
                ram@ == Seq::new(k as nat, |i: int| 0u8),
            decreases size - k,
        {
            ram.push(0);
            k = k + 1;
            assert(ram@ =~= Seq::new(k as nat, |i: int| 0u8));
        }
        self.cart_rom = image;
        self.cart_ram = ram;
        self.mbc = mbc;
    }

    /// Whether an OAM DMA burst is running.
    pub fn dma_active(&self) -> (r: bool)
        ensures
            r == (self.dma_remaining_spec() > 0),
    {
        self.dma_remaining > 0
    }

    /// Lets `cycles` cycles of a running OAM DMA burst pass.
    pub fn tick_dma(&mut self, cycles: u64)
        requires
            old(self).wf(),
        ensures
            final(self).wf(),
            final(self)@ == old(self)@,
            final(self).dma_remaining_spec() == (if old(self).dma_remaining_spec() > cycles {
                old(self).dma_remaining_spec() - cycles
            } else {
                0
            }),
            final(self).boot_rom_active() == old(self).boot_rom_active(),
            final(self).boot_rom_image() == old(self).boot_rom_image(),
            final(self).buttons_spec() == old(self).buttons_spec(),
            final(self).div_written_spec() == old(self).div_written_spec(),
            final(self).tima_written_spec() == old(self).tima_written_spec(),
            final(self).mbc_spec() == old(self).mbc_spec(),
            final(self).cart_rom_spec() == old(self).cart_rom_spec(),
            final(self).cart_ram_spec() == old(self).cart_ram_spec(),
    {
        if self.dma_remaining as u64 > cycles {
            self.dma_remaining = self.dma_remaining - cycles as u16;
        } else {
            self.dma_remaining = 0;
        }
    }

    /// Lets `cycles` cycles pass on the cartridge's real-time clock, if it has one.
    pub fn tick_rtc(&mut self, cycles: u64)
        requires
            old(self).wf(),
            cycles <= 24,
        ensures
            final(self).wf(),
            final(self)@ == old(self)@,
            final(self).boot_rom_active() == old(self).boot_rom_active(),
            final(self).boot_rom_image() == old(self).boot_rom_image(),
            final(self).buttons_spec() == old(self).buttons_spec(),
            final(self).div_written_spec() == old(self).div_written_spec(),
            final(self).tima_written_spec() == old(self).tima_written_spec(),
            final(self).dma_remaining_spec() == old(self).dma_remaining_spec(),
            final(self).cart_rom_spec() == old(self).cart_rom_spec(),
            final(self).cart_ram_spec() == old(self).cart_ram_spec(),
            final(self).mbc_spec().kind == old(self).mbc_spec().kind,
            final(self).mbc_spec().latched == old(self).mbc_spec().latched,
    {
        self.mbc.tick_rtc(cycles);
    }

    /// Reports whether DIV was written since the last call, and clears that record.
    pub fn take_div_written(&mut self) -> (r: bool)
        requires
            old(self).wf(),
        ensures
            r == old(self).div_written_spec(),
            !final(self).div_written_spec(),
            final(self).wf(),
            final(self)@ == old(self)@,
            final(self).boot_rom_active() == old(self).boot_rom_active(),
            final(self).boot_rom_image() == old(self).boot_rom_image(),
            final(self).buttons_spec() == old(self).buttons_spec(),
            final(self).tima_written_spec() == old(self).tima_written_spec(),
            final(self).dma_remaining_spec() == old(self).dma_remaining_spec(),
            final(self).mbc_spec() == old(self).mbc_spec(),
            final(self).cart_rom_spec() == old(self).cart_rom_spec(),
            final(self).cart_ram_spec() == old(self).cart_ram_spec(),
    {
        let r = self.div_written;
        self.div_written = false;
        r
    }

    /// Reports whether TIMA was written since the last call, and clears that record.
    pub fn take_tima_written(&mut self) -> (r: bool)
        requires
            old(self).wf(),
        ensures
            r == old(self).tima_written_spec(),
            !final(self).tima_written_spec(),
            final(self).wf(),
            final(self)@ == old(self)@,
            final(self).boot_rom_active() == old(self).boot_rom_active(),
            final(self).boot_rom_image() == old(self).boot_rom_image(),
            final(self).buttons_spec() == old(self).buttons_spec(),
            final(self).div_written_spec() == old(self).div_written_spec(),
            final(self).dma_remaining_spec() == old(self).dma_remaining_spec(),
            final(self).mbc_spec() == old(self).mbc_spec(),
            final(self).cart_rom_spec() == old(self).cart_rom_spec(),
            final(self).cart_ram_spec() == old(self).cart_ram_spec(),
    {
        let r = self.tima_written;
        self.tima_written = false;
        r
    }
}

/// Writing a byte to work RAM and reading it back yields that byte.
pub proof fn lemma_work_ram_round_trip(m: Memory, address: u16, value: u8, after: Memory)
    requires
        m.wf(),
        is_work_ram(address),
        after@ == write_bytes(m@, address, value),
        after.boot_rom_active() == m.boot_rom_active(),
        after.buttons_spec() == m.buttons_spec(),
    ensures
        after.read_spec(address) == value,
{
    assert(value | 0u8 == value) by (bit_vector);
}

/// Writing a byte to echo RAM and reading it back, through the echo or
/// through work RAM, yields that byte.
pub proof fn lemma_echo_round_trip(m: Memory, address: u16, value: u8, after: Memory)
    requires
        m.wf(),
        is_echo(address),
        after@ == write_bytes(m@, address, value),
        after.boot_rom_active() == m.boot_rom_active(),
        after.buttons_spec() == m.buttons_spec(),
    ensures
        after.read_spec(address) == value,
        after.read_spec((address - 0x2000) as u16) == value,
{
    assert(value | 0u8 == value) by (bit_vector);
}

proof fn lemma_masked_bits(stored: u8, value: u8, mask: u8, unused: u8)
    by (bit_vector)
    requires
        unused & mask == 0,
    ensures
        (((stored & !mask) | (value & mask)) | unused) & mask == value & mask,
        (((stored & !mask) | (value & mask)) | unused) & unused == unused,
{
}

/// Writing a value to a register with read-only or unused bits and reading it
/// back yields the value in the register's writable bits, and 1 in its unused bits.
pub proof fn lemma_io_register_round_trip(m: Memory, address: u16, value: u8, after: Memory)
    requires
        m.wf(),
        is_masked_register(address),
        address != MEMORY_LOCATION_JOYP,
        after@ == write_bytes(m@, address, value),
        after.boot_rom_active() == m.boot_rom_active(),
    ensures
        after.read_spec(address) & io_write_mask(address) == value & io_write_mask(address),
        after.read_spec(address) & io_unused_bits(address) == io_unused_bits(address),
{
    let s = m@[address as int];
    let mask = io_write_mask(address);
    let unused = io_unused_bits(address);
    assert(unused & mask == 0) by (bit_vector)
        requires
            (mask == 0x81u8 && unused == 0x7eu8) || (mask == 0x07u8 && unused == 0xf8u8) || (mask
                == 0x1fu8 && unused == 0xe0u8) || (mask == 0x78u8 && unused == 0x80u8),
    ;
    lemma_masked_bits(s, value, mask, unused);
}

/// Writing a value to a plain read/write register and reading it back yields the value.
pub proof fn lemma_plain_register_round_trip(m: Memory, address: u16, value: u8, after: Memory)
    requires
        m.wf(),
        0xff00 <= address <= 0xffff,
        !is_masked_register(address),
        address != MEMORY_LOCATION_DIV,
        address != MEMORY_LOCATION_LY,
        address != MEMORY_LOCATION_DMA,
        after@ == write_bytes(m@, address, value),
        after.boot_rom_active() == m.boot_rom_active(),
    ensures
        after.read_spec(address) == value,
{
    assert(value | 0u8 == value) by (bit_vector);
}

} // verus!
