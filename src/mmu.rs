use vstd::prelude::*;

use crate::apu::Apu;
use crate::memory::{Memory, write_bytes, MEMORY_LOCATION_LCD_CONTROL};
use crate::ppu::{Mode, Ppu};
use crate::serial::SerialPort;
use crate::timer::Timer;
use crate::utils::bit_of;

verus! {

/// The components connected to the memory bus.
#[derive(Clone)]
pub struct Peripherals {
    pub apu: Apu,
    pub ppu: Ppu,
    pub mem: Memory,
    pub timer: Timer,
    pub serial: SerialPort,
}

impl Peripherals {
    pub open spec fn wf(&self) -> bool {
        &&& self.apu.wf()
        &&& self.ppu.wf()
        &&& self.ppu.at_rest()
        &&& self.mem.wf()
        &&& self.timer.wf()
        &&& self.serial.wf()
    }
}

/// Whether `address` is one of the sound registers or wave RAM.
pub open spec fn is_apu_address(address: u16) -> bool {
    0xff10 <= address <= 0xff3f
}

/// Whether `address` is kept away from the CPU: everything but HRAM while
/// an OAM DMA burst runs; and, while the LCD is on, VRAM while the PPU draws
/// and OAM while it scans or draws.
pub open spec fn is_blocked(p: Peripherals, address: u16) -> bool {
    let lcd_on = bit_of(p.mem@[MEMORY_LOCATION_LCD_CONTROL as int], 7);
    let mode = p.ppu.mode_spec();
    (p.mem.dma_remaining_spec() > 0 && !(0xff80 <= address <= 0xfffe)) || lcd_on && ((0x8000 <= address <= 0x9fff && mode == Mode::DrawLine) || (0xfe00 <= address <= 0xfe9f && (
    mode == Mode::OamScan || mode == Mode::DrawLine)))
}

/// The memory bus: routes CPU reads and writes to the component behind each address.
#[derive(Clone)]
pub struct Mmu {
    pub peripherals: Peripherals,
}

impl Mmu {
    pub open spec fn wf(&self) -> bool {
        self.peripherals.wf()
    }

    /// What the CPU reads at `address`.
    pub open spec fn read_spec(&self, address: u16) -> u8 {
        if is_apu_address(address) {
            self.peripherals.apu.read_spec(address)
        } else if is_blocked(self.peripherals, address) {
            0xff
        } else {
            self.peripherals.mem.read_spec(address)
        }
    }

    pub fn new(peripherals: Peripherals) -> (r: Mmu)
        ensures
            r.peripherals == peripherals,
    {
        Mmu { peripherals }
    }

    /// Get the components connected to the bus.
    pub fn get_peripherals(&self) -> (r: &Peripherals)
        ensures
            *r == self.peripherals,
    {
        &self.peripherals
    }

    /// Get the components connected to the bus.
    pub fn get_peripherals_mut(&mut self) -> (r: &mut Peripherals)
        ensures
            *r == old(self).peripherals,
            final(self).peripherals == *final(r),
    {
        &mut self.peripherals
    }

    /// Reads a byte as the CPU sees it.
    pub fn read_u8(&self, address: u16) -> (r: u8)
        requires
            self.wf(),
        ensures
            r == self.read_spec(address),
    {
        if 0xff10 <= address && address <= 0xff3f {
            self.peripherals.apu.on_read(address)
        } else if self.is_blocked_exec(address) {
            0xff
        } else {
            self.peripherals.mem.read_u8(address)
        }
    }

    fn is_blocked_exec(&self, address: u16) -> (r: bool)
        requires
            self.wf(),
        ensures
            r == is_blocked(self.peripherals, address),
    {
        let lcdc = self.peripherals.mem.get(MEMORY_LOCATION_LCD_CONTROL);
        let lcd_on = crate::utils::get_bit(lcdc, 7);
        let mode = self.peripherals.ppu.get_mode();
        (self.peripherals.mem.dma_active() && !(0xff80 <= address && address <= 0xfffe)) || lcd_on && ((0x8000 <= address && address <= 0x9fff && mode == Mode::DrawLine) || (0xfe00 <= address
            && address <= 0xfe9f && (mode == Mode::OamScan || mode == Mode::DrawLine)))
    }

    /// Writes a byte as the CPU does.
    pub fn write_u8(&mut self, address: u16, value: u8)
        requires
            old(self).wf(),
        ensures
            final(self).wf(),
            final(self).peripherals.ppu == old(self).peripherals.ppu,
            final(self).peripherals.timer == old(self).peripherals.timer,
            final(self).peripherals.serial == old(self).peripherals.serial,
            is_apu_address(address) ==> final(self).peripherals.mem == old(self).peripherals.mem,
            !is_apu_address(address) ==> final(self).peripherals.apu == old(self).peripherals.apu,
            !is_apu_address(address) && is_blocked(old(self).peripherals, address) ==> final(self).peripherals
                == old(self).peripherals,
            !is_apu_address(address) && !is_blocked(old(self).peripherals, address) ==> {
                &&& final(self).peripherals.mem@ == write_bytes(old(self).peripherals.mem@, address, value)
                &&& final(self).peripherals.mem.buttons_spec() == old(self).peripherals.mem.buttons_spec()
                &&& final(self).peripherals.mem.boot_rom_image() == old(self).peripherals.mem.boot_rom_image()
                &&& final(self).peripherals.mem.boot_rom_active() == (old(self).peripherals.mem.boot_rom_active()
                    && !(address == 0xff50 && value & 1 == 1))
            },
    {
        if 0xff10 <= address && address <= 0xff3f {
            self.peripherals.apu.on_write(address, value);
        } else if self.is_blocked_exec(address) {
        } else {
            self.peripherals.mem.write_u8(address, value);
        }
    }
}

/// Writing a byte to work RAM through the bus and reading it back, with no
/// OAM DMA burst running, yields that byte.
pub proof fn lemma_bus_work_ram_round_trip(before: Mmu, after: Mmu, address: u16, value: u8)
    requires
        before.wf(),
        0xc000 <= address <= 0xdfff,
        !is_apu_address(address),
        after.wf(),
        after.peripherals.mem@ == write_bytes(before.peripherals.mem@, address, value),
        after.peripherals.ppu == before.peripherals.ppu,
        after.peripherals.mem.boot_rom_active() == before.peripherals.mem.boot_rom_active(),
        after.peripherals.mem.buttons_spec() == before.peripherals.mem.buttons_spec(),
        after.peripherals.mem.dma_remaining_spec() == 0,
    ensures
        after.read_spec(address) == value,
{
    crate::memory::lemma_work_ram_round_trip(before.peripherals.mem, address, value, after.peripherals.mem);
}

} // verus!
