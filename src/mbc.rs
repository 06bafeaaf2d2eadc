use vstd::prelude::*;

use crate::cpu::CPU_CLOCK_SPEED;

verus! {

/// The memory bank controllers the cartridge slot supports.
#[derive(Clone, Copy, PartialEq, Eq, Structural, Debug)]
pub enum MbcKind {
    /// No controller: 32 KiB of ROM, no banking.
    RomOnly,
    /// MBC1: 5-bit ROM bank, 2 more bits for ROM or RAM, and a banking mode.
    Mbc1,
    /// MBC2: 4-bit ROM bank and 512 half-bytes of built-in RAM.
    Mbc2,
    /// MBC3: 7-bit ROM bank, 2-bit RAM bank or a register of the real-time clock.
    Mbc3,
    /// MBC5: 9-bit ROM bank and 4-bit RAM bank.
    Mbc5,
}

/// The registers of MBC3's real-time clock.
#[derive(Clone, Copy, PartialEq, Eq, Structural, Debug)]
pub struct Rtc {
    pub seconds: u8,
    pub minutes: u8,
    pub hours: u8,
    /// The 9-bit day counter.
    pub days: u16,
    /// Whether the clock is stopped.
    pub halted: bool,
    /// Set when the day counter overflows.
    pub carry: bool,
}

impl Rtc {
    pub open spec fn wf(&self) -> bool {
        self.seconds < 60 && self.minutes < 60 && self.hours < 24 && self.days < 512
    }
}

/// The clock one second later.
pub open spec fn rtc_second(r: Rtc) -> Rtc {
    if r.seconds < 59 {
        Rtc { seconds: (r.seconds + 1) as u8, ..r }
    } else if r.minutes < 59 {
        Rtc { seconds: 0, minutes: (r.minutes + 1) as u8, ..r }
    } else if r.hours < 23 {
        Rtc { seconds: 0, minutes: 0, hours: (r.hours + 1) as u8, ..r }
    } else if r.days < 511 {
        Rtc { seconds: 0, minutes: 0, hours: 0, days: (r.days + 1) as u16, ..r }
    } else {
        Rtc { seconds: 0, minutes: 0, hours: 0, days: 0, carry: true, ..r }
    }
}

/// Register `select` (0x08..0x0c) of the clock, as the CPU reads it.
pub open spec fn rtc_register(r: Rtc, select: u8) -> u8 {
    if select == 0x08 {
        r.seconds
    } else if select == 0x09 {
        r.minutes
    } else if select == 0x0a {
        r.hours
    } else if select == 0x0b {
        (r.days % 256) as u8
    } else {
        ((r.days / 256) + (if r.halted { 0x40int } else { 0 }) + (if r.carry { 0x80int } else { 0 })) as u8
    }
}

/// The clock after the CPU writes `value` to its register `select`.
pub open spec fn rtc_write(r: Rtc, select: u8, value: u8) -> Rtc {
    if select == 0x08 {
        Rtc { seconds: value % 60, ..r }
    } else if select == 0x09 {
        Rtc { minutes: value % 60, ..r }
    } else if select == 0x0a {
        Rtc { hours: value % 24, ..r }
    } else if select == 0x0b {
        Rtc { days: ((r.days / 256) * 256 + value) as u16, ..r }
    } else {
        Rtc { days: (r.days % 256 + (value % 2) * 256) as u16, halted: (value / 64) % 2 == 1, carry: value >= 128, ..r }
    }
}

/// The state of a cartridge's memory bank controller.
#[derive(Clone, Copy, PartialEq, Eq, Structural, Debug)]
pub struct Mbc {
    pub kind: MbcKind,
    /// The ROM bank register (5 bits on MBC1, 9 bits on MBC5).
    pub rom_bank: u16,
    /// The second bank register: upper ROM bits or RAM bank on MBC1, RAM bank on MBC5.
    pub upper: u8,
    /// Whether external RAM is enabled.
    pub ram_enabled: bool,
    /// MBC1's banking mode: whether the second register also banks 0x0000..0x3fff and RAM.
    pub mode: bool,
    /// The number of 16 KiB ROM banks of the cartridge.
    pub rom_banks: u16,
    /// The number of 8 KiB RAM banks of the cartridge.
    pub ram_banks: u16,
    /// MBC3's running clock.
    pub rtc: Rtc,
    /// MBC3's clock registers as last latched; these are what the CPU reads.
    pub latched: Rtc,
    /// Whether 0 was the last value written to the latch register.
    pub latch_armed: bool,
    /// Cycles since the clock's last second.
    pub rtc_cycles: u64,
}

/// The offset into the ROM image that `address` (below 0x8000) reads.
pub open spec fn rom_offset(m: Mbc, address: u16) -> int {
    match m.kind {
        MbcKind::RomOnly => address as int,
        MbcKind::Mbc1 => if address < 0x4000 {
            let bank: int = if m.mode { m.upper * 32 } else { 0 };
            (bank % m.rom_banks as int) * 0x4000 + address
        } else {
            let low: int = if m.rom_bank == 0 { 1 } else { m.rom_bank as int };
            ((m.upper * 32 + low) % m.rom_banks as int) * 0x4000 + (address - 0x4000)
        },
        MbcKind::Mbc2 | MbcKind::Mbc3 => if address < 0x4000 {
            address as int
        } else {
            let bank: int = if m.rom_bank == 0 { 1 } else { m.rom_bank as int };
            (bank % m.rom_banks as int) * 0x4000 + (address - 0x4000)
        },
        MbcKind::Mbc5 => if address < 0x4000 {
            address as int
        } else {
            (m.rom_bank % m.rom_banks) * 0x4000 + (address - 0x4000)
        },
    }
}

/// Whether `address` (0xa000..0xbfff) reaches a register of MBC3's clock.
pub open spec fn rtc_selected(m: Mbc) -> bool {
    m.kind == MbcKind::Mbc3 && m.ram_enabled && 0x08 <= m.upper <= 0x0c
}

/// The offset into the RAM image that `address` (0xa000..0xbfff) reaches,
/// or none while RAM is disabled or absent.
pub open spec fn ram_offset(m: Mbc, address: u16) -> Option<int> {
    if m.ram_banks == 0 || (m.kind != MbcKind::RomOnly && !m.ram_enabled) || rtc_selected(m) {
        None
    } else if m.kind == MbcKind::Mbc2 {
        Some((address - 0xa000) % 512)
    } else {
        let bank: int = match m.kind {
            MbcKind::Mbc1 => if m.mode { m.upper as int } else { 0 },
            MbcKind::Mbc3 | MbcKind::Mbc5 => m.upper as int,
            _ => 0,
        };
        Some((bank % m.ram_banks as int) * 0x2000 + (address - 0xa000))
    }
}

/// The controller after the CPU writes `value` to ROM address `address`.
pub open spec fn mbc_after_write(m: Mbc, address: u16, value: u8) -> Mbc {
    match m.kind {
        MbcKind::RomOnly => m,
        MbcKind::Mbc1 => if address < 0x2000 {
            Mbc { ram_enabled: value % 16 == 0x0a, ..m }
        } else if address < 0x4000 {
            Mbc { rom_bank: (value % 32) as u16, ..m }
        } else if address < 0x6000 {
            Mbc { upper: value % 4, ..m }
        } else {
            Mbc { mode: value % 2 == 1, ..m }
        },
        MbcKind::Mbc2 => if address >= 0x4000 {
            m
        } else if (address / 256) % 2 == 0 {
            Mbc { ram_enabled: value % 16 == 0x0a, ..m }
        } else {
            Mbc { rom_bank: (value % 16) as u16, ..m }
        },
        MbcKind::Mbc3 => if address < 0x2000 {
            Mbc { ram_enabled: value % 16 == 0x0a, ..m }
        } else if address < 0x4000 {
            Mbc { rom_bank: (value % 128) as u16, ..m }
        } else if address < 0x6000 {
            Mbc { upper: value % 16, ..m }
        } else if m.latch_armed && value == 1 {
            Mbc { latched: m.rtc, latch_armed: false, ..m }
        } else {
            Mbc { latch_armed: value == 0, ..m }
        },
        MbcKind::Mbc5 => if address < 0x2000 {
            Mbc { ram_enabled: value == 0x0a, ..m }
        } else if address < 0x3000 {
            Mbc { rom_bank: ((m.rom_bank / 256) * 256 + value) as u16, ..m }
        } else if address < 0x4000 {
            Mbc { rom_bank: (m.rom_bank % 256 + (value % 2) * 256) as u16, ..m }
        } else if address < 0x6000 {
            Mbc { upper: value % 16, ..m }
        } else {
            m
        },
    }
}

impl Mbc {
    pub open spec fn wf(&self) -> bool {
        &&& 2 <= self.rom_banks <= 512
        &&& self.ram_banks <= 16
        &&& self.rom_bank < 512
        &&& self.upper < 16
        &&& (self.kind == MbcKind::RomOnly ==> self.rom_banks == 2 && self.ram_banks <= 1)
        &&& (self.kind == MbcKind::Mbc2 ==> self.ram_banks == 1)
        &&& self.rtc.wf()
        &&& self.latched.wf()
        &&& self.rtc_cycles < CPU_CLOCK_SPEED
    }

    /// A controller in its power-on state: bank 1 at 0x4000, RAM disabled.
    pub fn new(kind: MbcKind, rom_banks: u16, ram_banks: u16) -> (r: Mbc)
        requires
            2 <= rom_banks <= 512,
            ram_banks <= 16,
            kind == MbcKind::RomOnly ==> rom_banks == 2 && ram_banks <= 1,
            kind == MbcKind::Mbc2 ==> ram_banks == 1,
        ensures
            r.wf(),
            r.kind == kind && r.rom_bank == 1 && r.upper == 0 && !r.ram_enabled && !r.mode,
            r.rom_banks == rom_banks && r.ram_banks == ram_banks,
            r.rtc == r.latched && r.rtc == (Rtc { seconds: 0, minutes: 0, hours: 0, days: 0, halted: false, carry: false }),
            !r.latch_armed && r.rtc_cycles == 0,
    {
        let rtc = Rtc { seconds: 0, minutes: 0, hours: 0, days: 0, halted: false, carry: false };
        Mbc {
            kind,
            rom_bank: 1,
            upper: 0,
            ram_enabled: false,
            mode: false,
            rom_banks,
            ram_banks,
            rtc,
            latched: rtc,
            latch_armed: false,
            rtc_cycles: 0,
        }
    }

    /// Takes a CPU write to the ROM area as a write to the controller's registers.
    pub fn intercept_write(&mut self, address: u16, value: u8)
        requires
            old(self).wf(),
            address < 0x8000,
        ensures
            final(self).wf(),
            *final(self) == mbc_after_write(*old(self), address, value),
    {
        match self.kind {
            MbcKind::RomOnly => {},
            MbcKind::Mbc1 => {
                if address < 0x2000 {
                    self.ram_enabled = value % 16 == 0x0a;
                } else if address < 0x4000 {
                    self.rom_bank = (value % 32) as u16;
                } else if address < 0x6000 {
                    self.upper = value % 4;
                } else {
                    self.mode = value % 2 == 1;
                }
            },
            MbcKind::Mbc2 => {
                if address < 0x4000 {
                    if (address / 256) % 2 == 0 {
                        self.ram_enabled = value % 16 == 0x0a;
                    } else {
                        self.rom_bank = (value % 16) as u16;
                    }
                }
            },
            MbcKind::Mbc3 => {
                if address < 0x2000 {
                    self.ram_enabled = value % 16 == 0x0a;
                } else if address < 0x4000 {
                    self.rom_bank = (value % 128) as u16;
                } else if address < 0x6000 {
                    self.upper = value % 16;
                } else if self.latch_armed && value == 1 {
                    self.latched = self.rtc;
                    self.latch_armed = false;
                } else {
                    self.latch_armed = value == 0;
                }
            },
            MbcKind::Mbc5 => {
                if address < 0x2000 {
                    self.ram_enabled = value == 0x0a;
                } else if address < 0x3000 {
                    self.rom_bank = (self.rom_bank / 256) * 256 + value as u16;
                } else if address < 0x4000 {
                    self.rom_bank = self.rom_bank % 256 + (value % 2) as u16 * 256;
                } else if address < 0x6000 {
                    self.upper = value % 16;
                }
            },
        }
    }

    /// The offset into the ROM image that `address` reads.
    pub fn translate_rom(&self, address: u16) -> (r: usize)
        requires
            self.wf(),
            address < 0x8000,
        ensures
            r as int == rom_offset(*self, address),
            r < self.rom_banks as int * 0x4000,
    {
        let banks = self.rom_banks as usize;
        match self.kind {
            MbcKind::RomOnly => address as usize,
            MbcKind::Mbc1 => {
                if address < 0x4000 {
                    let bank: usize = if self.mode { self.upper as usize * 32 } else { 0 };
                    (bank % banks) * 0x4000 + address as usize
                } else {
                    let low: usize = if self.rom_bank == 0 { 1 } else { self.rom_bank as usize };
                    ((self.upper as usize * 32 + low) % banks) * 0x4000 + (address as usize - 0x4000)
                }
            },
            MbcKind::Mbc2 | MbcKind::Mbc3 => {
                if address < 0x4000 {
                    address as usize
                } else {
                    let bank: usize = if self.rom_bank == 0 { 1 } else { self.rom_bank as usize };
                    (bank % banks) * 0x4000 + (address as usize - 0x4000)
                }
            },
            MbcKind::Mbc5 => {
                if address < 0x4000 {
                    address as usize
                } else {
                    (self.rom_bank as usize % banks) * 0x4000 + (address as usize - 0x4000)
                }
            },
        }
    }

    /// The offset into the RAM image that `address` (0xa000..0xbfff) reaches.
    pub fn translate_ram(&self, address: u16) -> (r: Option<usize>)
        requires
            self.wf(),
            0xa000 <= address <= 0xbfff,
        ensures
            r matches Some(o) ==> ram_offset(*self, address) == Some(o as int) && o < self.ram_banks as int * 0x2000,
            r is None ==> ram_offset(*self, address) is None,
    {
        if self.ram_banks == 0 || (self.kind != MbcKind::RomOnly && !self.ram_enabled) || self.is_rtc_selected() {
            return None;
        }
        if self.kind == MbcKind::Mbc2 {
            return Some((address as usize - 0xa000) % 512);
        }
        let bank: usize = match self.kind {
            MbcKind::Mbc1 => if self.mode { self.upper as usize } else { 0 },
            MbcKind::Mbc3 | MbcKind::Mbc5 => self.upper as usize,
            _ => 0,
        };
        Some((bank % self.ram_banks as usize) * 0x2000 + (address as usize - 0xa000))
    }

    /// Whether the cartridge RAM window shows a register of MBC3's clock.
    pub fn is_rtc_selected(&self) -> (r: bool)
        ensures
            r == rtc_selected(*self),
    {
        self.kind == MbcKind::Mbc3 && self.ram_enabled && 0x08 <= self.upper && self.upper <= 0x0c
    }

    /// Reads the latched clock register the RAM window shows.
    pub fn read_rtc(&self) -> (r: u8)
        requires
            self.wf(),
            rtc_selected(*self),
        ensures
            r == rtc_register(self.latched, self.upper),
    {
        let l = self.latched;
        if self.upper == 0x08 {
            l.seconds
        } else if self.upper == 0x09 {
            l.minutes
        } else if self.upper == 0x0a {
            l.hours
        } else if self.upper == 0x0b {
            (l.days % 256) as u8
        } else {
            (l.days / 256) as u8 + (if l.halted { 0x40u8 } else { 0 }) + (if l.carry { 0x80u8 } else { 0 })
        }
    }

    /// Writes the running clock's register that the RAM window shows.
    pub fn write_rtc(&mut self, value: u8)
        requires
            old(self).wf(),
            rtc_selected(*old(self)),
        ensures
            final(self).wf(),
            *final(self) == (Mbc { rtc: rtc_write(old(self).rtc, old(self).upper, value), ..*old(self) }),
    {
        let select = self.upper;
        if select == 0x08 {
            self.rtc.seconds = value % 60;
        } else if select == 0x09 {
            self.rtc.minutes = value % 60;
        } else if select == 0x0a {
            self.rtc.hours = value % 24;
        } else if select == 0x0b {
            self.rtc.days = (self.rtc.days / 256) * 256 + value as u16;
        } else {
            self.rtc.days = self.rtc.days % 256 + (value % 2) as u16 * 256;
            self.rtc.halted = (value / 64) % 2 == 1;
            self.rtc.carry = value >= 128;
        }
    }

    /// Lets `cycles` cycles pass on MBC3's clock: a second passes every
    /// 4194304 cycles unless the clock is halted.
    pub fn tick_rtc(&mut self, cycles: u64)
        requires
            old(self).wf(),
            cycles <= 24,
        ensures
            final(self).wf(),
            old(self).kind != MbcKind::Mbc3 ==> *final(self) == *old(self),
            old(self).kind == MbcKind::Mbc3 ==> {
                let total = old(self).rtc_cycles + cycles;
                &&& total >= CPU_CLOCK_SPEED ==> final(self).rtc_cycles == total - CPU_CLOCK_SPEED
                    && final(self).rtc == (if old(self).rtc.halted { old(self).rtc } else { rtc_second(old(self).rtc) })
                &&& total < CPU_CLOCK_SPEED ==> final(self).rtc_cycles == total && final(self).rtc == old(self).rtc
                &&& *final(self) == (Mbc { rtc: final(self).rtc, rtc_cycles: final(self).rtc_cycles, ..*old(self) })
            },
    {
        if self.kind != MbcKind::Mbc3 {
            return;
        }
        let total = self.rtc_cycles + cycles;
        if total >= CPU_CLOCK_SPEED {
            self.rtc_cycles = total - CPU_CLOCK_SPEED;
            if !self.rtc.halted {
                let r = self.rtc;
                if r.seconds < 59 {
                    self.rtc.seconds = r.seconds + 1;
                } else if r.minutes < 59 {
                    self.rtc.seconds = 0;
                    self.rtc.minutes = r.minutes + 1;
                } else if r.hours < 23 {
                    self.rtc.seconds = 0;
                    self.rtc.minutes = 0;
                    self.rtc.hours = r.hours + 1;
                } else if r.days < 511 {
                    self.rtc.seconds = 0;
                    self.rtc.minutes = 0;
                    self.rtc.hours = 0;
                    self.rtc.days = r.days + 1;
                } else {
                    self.rtc.seconds = 0;
                    self.rtc.minutes = 0;
                    self.rtc.hours = 0;
                    self.rtc.days = 0;
                    self.rtc.carry = true;
                }
            }
        } else {
            self.rtc_cycles = total;
        }
    }
}

} // verus!
