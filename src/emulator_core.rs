use vstd::prelude::*;

use crate::apu::Apu;
use crate::boot_rom::BootRom;
use crate::cartridge::Cartridge;
use crate::cpu::{Cpu, Registers, StepResult, dispatch_effect, execute_effect, flags_byte, make_flags, pending_spec, same_clocks};
use crate::device_type::{DeviceConfig, DeviceType, EmulationType};
use crate::memory::{Memory, MEMORY_LOCATION_INTERRUPTS_FLAGGED, MEMORY_LOCATION_LCD_CONTROL, MEMORY_LOCATION_TIMA, MEMORY_LOCATION_TMA, MEMORY_LOCATION_TAC, MEMORY_LOCATION_DIV, MEMORY_LOCATION_SC, MEMORY_LOCATION_SB, MEMORY_LOCATION_LY, MEMORY_LOCATION_LCD_STATUS};
use crate::mmu::{Mmu, Peripherals};
use crate::ppu::{FrameState, Ppu, CPU_CYCLES_PER_FRAME, mode_bits, vblank_requested};
use crate::serial::transfer_armed;
use crate::timer::{TimerRun, after_div_write, timer_run};
use crate::utils::{bit_of, get_bit};
use vstd::arithmetic::div_mod::lemma_fundamental_div_mod_converse;
use crate::serial::SerialPort;
use crate::timer::Timer;

verus! {

/// The events a step or a frame produced.
#[derive(Clone, Copy, PartialEq, Eq, Structural, Debug)]
pub struct DebugEvents {
    /// The PPU completed a frame.
    pub ppu_frame_completed: bool,
    /// The CPU ran into an invalid opcode and locked up.
    pub invalid_opcode: bool,
    /// The components advanced while the LCD was off (LCDC bit 7 clear).
    pub lcd_disabled: bool,
}

/// What running the emulator produced.
#[derive(Clone, Copy, PartialEq, Eq, Structural, Debug)]
pub struct EmulatorUpdateResults {
    /// The number of cycles processed.
    pub cycles: u64,
    /// The events that occurred.
    pub events: DebugEvents,
}

impl EmulatorUpdateResults {
    /// Adds the results of a later run: cycles add up, events combine.
    pub fn add(&mut self, rhs: EmulatorUpdateResults)
        requires
            old(self).cycles + rhs.cycles <= u64::MAX,
        ensures
            final(self).cycles == old(self).cycles + rhs.cycles,
            final(self).events.ppu_frame_completed == (old(self).events.ppu_frame_completed || rhs.events.ppu_frame_completed),
            final(self).events.invalid_opcode == (old(self).events.invalid_opcode || rhs.events.invalid_opcode),
            final(self).events.lcd_disabled == (old(self).events.lcd_disabled || rhs.events.lcd_disabled),
    {
        self.events.lcd_disabled = self.events.lcd_disabled || rhs.events.lcd_disabled;
        self.cycles = self.cycles + rhs.cycles;
        self.events.ppu_frame_completed = self.events.ppu_frame_completed || rhs.events.ppu_frame_completed;
        self.events.invalid_opcode = self.events.invalid_opcode || rhs.events.invalid_opcode;
    }
}

/// The upper bound of the cycle counter that keeps a frame from overflowing it.
pub const MAX_TOTAL_CYCLES: u64 = 0xffff_ffff_ff00_0000;

/// The emulator: the CPU with its bus and peripherals, and the clock they share.
#[derive(Clone)]
pub struct EmulatorCore {
    device_config: DeviceConfig,
    cpu: Cpu,
    cartridge: Option<Cartridge>,
    total_cycles: u64,
}

/// The values of A, F, B, C, D, E, H, L that the boot ROM leaves, by device
/// and mode, for the header checksum byte and the title checksum (0xff
/// without a cartridge, 0 unless the licensee code is 1).
pub open spec fn initial_registers(config: DeviceConfig, header_checksum: u8, title_checksum: u8) -> (u8, u8, u8, u8, u8, u8, u8, u8) {
    let ch = header_checksum != 0;
    match (config.device, config.emulation) {
        (DeviceType::GameBoyDmg, _) | (DeviceType::GameBoyPocket, _) => (0x01, flags_byte(true, false, ch, ch), 0x00, 0x13, 0x00, 0xd8, 0x01, 0x4d),
        (DeviceType::GameBoyColor, EmulationType::DMG) => {
            let b = title_checksum;
            let (h, l): (u8, u8) = if b == 0x43 || b == 0x58 { (0x99, 0x1a) } else { (0x00, 0x7c) };
            (0x11, flags_byte(true, false, false, false), b, 0x00, 0x00, 0x08, h, l)
        },
        (DeviceType::GameBoyColor, EmulationType::GBC) => (0x11, flags_byte(true, false, false, false), 0x00, 0x00, 0xff, 0x56, 0x00, 0x0d),
        (DeviceType::GameBoyAdvance, EmulationType::DMG) | (DeviceType::GameBoyAdvanceSP, EmulationType::DMG) => {
            let b = ((title_checksum + 1) % 256) as u8;
            let (h, l): (u8, u8) = if b == 0x44 || b == 0x59 { (0x99, 0x1a) } else { (0x00, 0x7c) };
            (0x11, flags_byte(b == 0, false, title_checksum % 16 == 15, false), b, 0x00, 0x00, 0x08, h, l)
        },
        (DeviceType::GameBoyAdvance, EmulationType::GBC) | (DeviceType::GameBoyAdvanceSP, EmulationType::GBC) =>
            (0x11, flags_byte(false, false, false, false), 0x01, 0x00, 0xff, 0x56, 0x00, 0x0d),
        (DeviceType::SuperGameBoy, _) => (0x01, flags_byte(false, false, false, false), 0x00, 0x14, 0x00, 0x00, 0xc0, 0x60),
        (DeviceType::SuperGameBoy2, _) => (0xff, flags_byte(false, false, false, false), 0x00, 0x14, 0x00, 0x00, 0xc0, 0x60),
    }
}

impl EmulatorCore {
    pub open spec fn wf(&self) -> bool {
        &&& self.cpu_spec().wf()
        &&& self.total_cycles_spec() <= MAX_TOTAL_CYCLES
        &&& self.cartridge_wf()
    }

    /// The inserted cartridge, if any, passed its header check.
    pub closed spec fn cartridge_wf(&self) -> bool {
        self.cartridge matches Some(c) ==> c.wf()
    }

    /// The CPU, with the bus and peripherals it owns.
    pub closed spec fn cpu_spec(&self) -> Cpu {
        self.cpu
    }

    /// The cycles processed since the emulator started.
    pub closed spec fn total_cycles_spec(&self) -> u64 {
        self.total_cycles
    }

    /// The title checksum that seeds register B: the title's byte sum when
    /// the licensee code is 1, 0 for other cartridges, 0xff without one.
    pub closed spec fn title_checksum_spec(&self) -> u8 {
        match self.cartridge {
            Some(c) => if c@[0x14b] == 1 || (c@[0x14b] == 0x33 && c@[0x144] == 0x30 && c@[0x145] == 0x31) {
                crate::cartridge::title_sum(c@, 0x144)
            } else {
                0
            },
            None => 0xff,
        }
    }

    /// The registers the boot ROM leaves, for this device and cartridge.
    pub open spec fn post_boot_registers(&self) -> Registers {
        let (a, f, b, c, d, e, h, l) = initial_registers(
            self.config_spec(),
            self.cpu_spec().mmu.read_spec(0x14d),
            self.title_checksum_spec(),
        );
        Registers { a, f, b, c, d, e, h, l, sp: 0xfffe, pc: 0x100 }
    }

    /// The device configuration.
    pub closed spec fn config_spec(&self) -> DeviceConfig {
        self.device_config
    }

    /// Creates an emulator for `device_config`, with cleared memory.
    pub fn new(device_config: DeviceConfig) -> (r: Self)
        ensures
            r.wf(),
            r.total_cycles_spec() == 0,
            r.config_spec() == device_config,
            r.cpu_spec().regs == (Registers { a: 0, f: 0, b: 0, c: 0, d: 0, e: 0, h: 0, l: 0, sp: 0, pc: 0 }),
            !r.cpu_spec().halted && !r.cpu_spec().locked && !r.cpu_spec().ime,
    {
        let peripherals = Peripherals {
            apu: Apu::new(device_config),
            ppu: Ppu::new(),
            mem: Memory::new(),
            timer: Timer::new(),
            serial: SerialPort::new(),
        };
        Self { device_config, cpu: Cpu::new(Mmu::new(peripherals)), cartridge: None, total_cycles: 0 }
    }

    /// Maps a boot ROM, to run at the next `initialize`.
    pub fn set_boot_rom(&mut self, boot_rom: BootRom)
        requires
            old(self).wf(),
        ensures
            final(self).config_spec() == old(self).config_spec(),
            final(self).wf(),
            final(self).total_cycles_spec() == old(self).total_cycles_spec(),
            final(self).cpu_spec().mmu.peripherals.mem.boot_rom_active(),
            final(self).cpu_spec().regs == old(self).cpu_spec().regs,
    {
        self.cpu.mmu.peripherals.mem.set_boot_rom(boot_rom);
    }

    /// Inserts a cartridge: its image appears at 0x0000..0x7fff.
    pub fn set_cartridge(&mut self, cartridge: Cartridge)
        requires
            old(self).wf(),
            cartridge.wf(),
        ensures
            final(self).config_spec() == old(self).config_spec(),
            final(self).wf(),
            final(self).total_cycles_spec() == old(self).total_cycles_spec(),
            final(self).cpu_spec().regs == old(self).cpu_spec().regs,
            final(self).cpu_spec().mmu.peripherals.mem.cart_rom_spec() == cartridge@,
            final(self).cpu_spec().mmu.peripherals.mem.mbc_spec().rom_banks == crate::cartridge::rom_banks_of(cartridge@[0x148]),
    {
        let mbc = cartridge.mbc();
        self.cpu.mmu.peripherals.mem.load_cartridge(cartridge.as_slice(), mbc);
        self.cartridge = Some(cartridge);
    }

    /// Boots the device: with a boot ROM execution starts at 0x0000, otherwise
    /// the registers are set as the boot ROM would have left them.
    pub fn initialize(&mut self)
        requires
            old(self).wf(),
        ensures
            final(self).config_spec() == old(self).config_spec(),
            final(self).wf(),
            final(self).total_cycles_spec() == old(self).total_cycles_spec(),
            old(self).cpu_spec().mmu.peripherals.mem.has_boot_rom_spec() ==> final(self).cpu_spec().regs == (Registers {
                pc: 0,
                ..old(self).cpu_spec().regs
            }),
            !old(self).cpu_spec().mmu.peripherals.mem.has_boot_rom_spec() ==> final(self).cpu_spec().regs == old(self).post_boot_registers(),
    {
        if self.cpu.mmu.peripherals.mem.has_boot_rom() {
            self.cpu.set_instruction_pointer(0x0000);
        } else {
            self.setup_initial_values();
        }
    }

    /// Sets registers, I/O registers and the timer as the boot ROM leaves them.
    fn setup_initial_values(&mut self)
        requires
            old(self).wf(),
        ensures
            final(self).wf(),
            final(self).total_cycles_spec() == old(self).total_cycles_spec(),
            final(self).cpu_spec().regs == old(self).post_boot_registers(),
            final(self).config_spec() == old(self).config_spec(),
            final(self).cpu_spec().mmu.peripherals.mem@[MEMORY_LOCATION_LCD_CONTROL as int] == 0x91,
            final(self).cpu_spec().mmu.peripherals.mem@[MEMORY_LOCATION_LCD_STATUS as int] == 0x85,
            final(self).cpu_spec().mmu.peripherals.mem@[MEMORY_LOCATION_DIV as int] == 0xab,
            final(self).cpu_spec().mmu.peripherals.mem@[MEMORY_LOCATION_TAC as int] == 0xf8,
            final(self).cpu_spec().mmu.peripherals.timer.counter_spec() == 0xabf0,
    {
        let title_checksum: u8 = match &self.cartridge {
            Some(cartridge) => if cartridge.is_licensee_one() { cartridge.compute_title_checksum() } else { 0x00 },
            None => 0xff,
        };
        let header_checksum = self.cpu.mmu.read_u8(0x14d);
        let (a, f, b, c, d, e, h, l) = initial_register_values(self.device_config, header_checksum, title_checksum);
        self.cpu.regs = Registers { a, f, b, c, d, e, h, l, sp: 0xfffe, pc: 0x100 };

        let dma: u8 = match self.device_config.device {
            DeviceType::GameBoyColor | DeviceType::GameBoyAdvance => 0x00,
            _ => 0xff,
        };
        let vbk: u8 = match self.device_config.emulation {
            EmulationType::DMG => 0xff,
            EmulationType::GBC => 0xfe,
        };
        let opri = vbk;
        let timer_counter: u16 = 0xabf0;
        let tac: u8 = 0xf8;
        let lcds: u8 = 0x85;
        let ly: u8 = 0x00;
        let div: u8 = 0xab;
        let io_reg_data = initial_io_registers(dma, vbk, opri, tac, lcds, ly, div);
        write_io_registers(&mut self.cpu.mmu, &io_reg_data);
        let p = &mut self.cpu.mmu.peripherals;
        p.mem.set(MEMORY_LOCATION_LCD_CONTROL, 0x91);
        p.mem.set(MEMORY_LOCATION_LCD_STATUS, lcds);
        p.timer.initialize_counter(&mut p.mem, timer_counter, tac);
        let _ = p.mem.take_div_written();
        assert((0xabf0u16 >> 8u16) as u8 == 0xab) by (bit_vector);
    }

    /// Get the number of cycles processed since the emulator started.
    pub fn get_total_cycles_processed(&self) -> (r: u64)
        ensures
            r == self.total_cycles_spec(),
    {
        self.total_cycles
    }

    /// Get the device configuration.
    pub fn get_config(&self) -> (r: &DeviceConfig)
        ensures
            *r == self.config_spec(),
    {
        &self.device_config
    }

    /// Get the CPU.
    pub fn get_cpu(&self) -> (r: &Cpu)
        ensures
            *r == self.cpu_spec(),
    {
        &self.cpu
    }

    /// Get the CPU, to set registers before running.
    pub fn get_cpu_mut(&mut self) -> (r: &mut Cpu)
        ensures
            *r == old(self).cpu_spec(),
            final(self).cpu_spec() == *final(r),
            final(self).total_cycles_spec() == old(self).total_cycles_spec(),
            final(self).config_spec() == old(self).config_spec(),
            final(self).cartridge_wf() == old(self).cartridge_wf(),
    {
        &mut self.cpu
    }

    /// Get the memory bus.
    pub fn get_mmu(&self) -> (r: &Mmu)
        ensures
            *r == self.cpu_spec().mmu,
    {
        self.cpu.get_mmu()
    }

    /// Get the memory bus, to write to memory as the CPU would.
    pub fn get_mmu_mut(&mut self) -> (r: &mut Mmu)
        ensures
            *r == old(self).cpu_spec().mmu,
            final(self).cpu_spec() == (Cpu { mmu: *final(r), ..old(self).cpu_spec() }),
            final(self).total_cycles_spec() == old(self).total_cycles_spec(),
            final(self).config_spec() == old(self).config_spec(),
            final(self).cartridge_wf() == old(self).cartridge_wf(),
    {
        &mut self.cpu.mmu
    }

    /// Get the peripheral components.
    pub fn get_peripherals(&self) -> (r: &Peripherals)
        ensures
            *r == self.cpu_spec().mmu.peripherals,
    {
        self.cpu.mmu.get_peripherals()
    }

    /// Records which buttons are held (bits: right, left, up, down, A, B, select, start).
    pub fn set_buttons(&mut self, buttons: u8)
        requires
            old(self).wf(),
        ensures
            final(self).config_spec() == old(self).config_spec(),
            final(self).wf(),
            final(self).total_cycles_spec() == old(self).total_cycles_spec(),
            final(self).cpu_spec().mmu.peripherals.mem.buttons_spec() == buttons,
    {
        self.cpu.mmu.peripherals.mem.set_buttons(buttons);
    }

    /// Enables the serial port's output queue.
    pub fn enable_serial_output(&mut self, enabled: bool)
        requires
            old(self).wf(),
        ensures
            final(self).config_spec() == old(self).config_spec(),
            final(self).wf(),
            final(self).total_cycles_spec() == old(self).total_cycles_spec(),
            final(self).cpu_spec().mmu.peripherals.serial.queue_enabled() == enabled,
    {
        self.cpu.mmu.peripherals.serial.enable_output_queue(enabled);
    }

    /// Takes the bytes the serial port sent, as text.
    pub fn take_serial_output_as_text(&mut self) -> (r: String)
        requires
            old(self).wf(),
        ensures
            final(self).config_spec() == old(self).config_spec(),
            final(self).wf(),
            final(self).total_cycles_spec() == old(self).total_cycles_spec(),
            r@ == crate::serial::bytes_as_text(old(self).cpu_spec().mmu.peripherals.serial@),
    {
        self.cpu.mmu.peripherals.serial.take_output_as_text()
    }

    /// Advances every component by `cycles` and the clock with them.
    fn update_components(&mut self, cycles: u64) -> (r: DebugEvents)
        requires
            old(self).wf(),
            cycles <= 24,
            old(self).total_cycles + cycles <= MAX_TOTAL_CYCLES,
        ensures
            final(self).wf(),
            final(self).total_cycles == old(self).total_cycles + cycles,
            final(self).device_config == old(self).device_config,
            same_cpu_state(final(self).cpu, old(self).cpu),
            !r.invalid_opcode,
            peripherals_advanced(old(self).cpu.mmu.peripherals, final(self).cpu.mmu.peripherals, cycles, r.ppu_frame_completed, r.lcd_disabled),
    {
        let ghost p0 = self.cpu.mmu.peripherals;
        let p = &mut self.cpu.mmu.peripherals;
        let lcd_on = get_bit(p.mem.get(MEMORY_LOCATION_LCD_CONTROL), 7);
        p.apu.update(cycles);
        let frame = p.ppu.update(&mut p.mem, cycles);
        let ghost m_ppu = p.mem;
        p.timer.update(&mut p.mem, cycles);
        let ghost m_timer = p.mem;
        p.serial.update(&mut p.mem, cycles);
        p.mem.tick_rtc(cycles);
        p.mem.tick_dma(cycles);
        proof {
            lemma_interrupt_bits(m_ppu@[MEMORY_LOCATION_INTERRUPTS_FLAGGED as int]);
            lemma_interrupt_bits(m_timer@[MEMORY_LOCATION_INTERRUPTS_FLAGGED as int]);
            reveal(peripherals_advanced);
        }
        self.total_cycles = self.total_cycles + cycles;
        DebugEvents {
            ppu_frame_completed: frame == FrameState::FrameCompleted,
            invalid_opcode: false,
            lcd_disabled: !lcd_on,
        }
    }

    /// Ends HALT when an interrupt is pending, and STOP when a joypad
    /// interrupt is requested.
    fn wake(&mut self)
        requires
            old(self).wf(),
        ensures
            final(self).wf(),
            final(self).cpu == woken(old(self).cpu),
            final(self).total_cycles == old(self).total_cycles,
            final(self).device_config == old(self).device_config,
    {
        if self.cpu.halted && self.cpu.pending_interrupts() != 0 {
            self.cpu.halted = false;
        }
        if self.cpu.stopped {
            let flagged = self.cpu.mmu.peripherals.mem.get(MEMORY_LOCATION_INTERRUPTS_FLAGGED);
            if flagged & 0x10 != 0 {
                self.cpu.stopped = false;
            }
        }
    }

    /// Lets 4 cycles pass while the CPU idles.
    fn idle_step(&mut self) -> (r: (EmulatorUpdateResults, Ghost<Cpu>))
        requires
            old(self).wf(),
            old(self).total_cycles + 24 <= MAX_TOTAL_CYCLES,
        ensures
            final(self).wf(),
            final(self).total_cycles == old(self).total_cycles + r.0.cycles,
            final(self).device_config == old(self).device_config,
            r.1@.wf(),
            same_clocks(r.1@.mmu, old(self).cpu.mmu),
            same_cpu_state(final(self).cpu, r.1@),
            peripherals_advanced(r.1@.mmu.peripherals, final(self).cpu.mmu.peripherals, r.0.cycles, r.0.events.ppu_frame_completed, r.0.events.lcd_disabled),
            r.0.cycles == 4,
            r.1@ == old(self).cpu,
            !r.0.events.invalid_opcode,
    {
        let ghost mid = self.cpu;
        let halt_cycle: u64 = 4;
        let events = self.update_components(halt_cycle);
        (EmulatorUpdateResults { cycles: halt_cycle, events }, Ghost(mid))
    }

    /// Dispatches the pending interrupt and advances the components by its 20 cycles.
    fn dispatch_step(&mut self) -> (r: (EmulatorUpdateResults, Ghost<Cpu>))
        requires
            old(self).wf(),
            old(self).cpu.ime,
            pending_spec(old(self).cpu.mmu) != 0,
            old(self).total_cycles + 24 <= MAX_TOTAL_CYCLES,
        ensures
            final(self).wf(),
            final(self).total_cycles == old(self).total_cycles + r.0.cycles,
            final(self).device_config == old(self).device_config,
            r.1@.wf(),
            same_clocks(r.1@.mmu, old(self).cpu.mmu),
            same_cpu_state(final(self).cpu, r.1@),
            peripherals_advanced(r.1@.mmu.peripherals, final(self).cpu.mmu.peripherals, r.0.cycles, r.0.events.ppu_frame_completed, r.0.events.lcd_disabled),
            r.0.cycles == 20,
            dispatch_effect(old(self).cpu, r.1@),
            !r.0.events.invalid_opcode,
    {
        let cycles: u64 = 20;
        let _ = self.cpu.handle_interrupts();
        let ghost mid = self.cpu;
        let events = self.update_components(cycles);
        (EmulatorUpdateResults { cycles, events }, Ghost(mid))
    }

    /// Runs one step: wakes a halted CPU when an interrupt is pending (and a
    /// stopped one when a button interrupt is requested), then dispatches an
    /// interrupt, executes one instruction, or idles 4 cycles; the components
    /// then advance by the step's cycles. The returned ghost value is the CPU
    /// after its part of the step, before the components advanced.
    fn process_next(&mut self) -> (r: (EmulatorUpdateResults, Ghost<Cpu>))
        requires
            old(self).wf(),
            old(self).total_cycles + 24 <= MAX_TOTAL_CYCLES,
        ensures
            final(self).wf(),
            final(self).total_cycles == old(self).total_cycles + r.0.cycles,
            final(self).device_config == old(self).device_config,
            4 <= r.0.cycles <= 24,
            step_effect(old(self).cpu, r.1@, final(self).cpu, r.0),
    {
        self.wake();
        if self.cpu.is_running() {
            if self.cpu.ime && self.cpu.pending_interrupts() != 0 {
                self.dispatch_step()
            } else {
                self.process_next_opcode()
            }
        } else {
            self.idle_step()
        }
    }

    /// Executes the next instruction and advances the components by its
    /// cycles. The returned ghost value is the CPU right after the instruction.
    fn process_next_opcode(&mut self) -> (r: (EmulatorUpdateResults, Ghost<Cpu>))
        requires
            old(self).wf(),
            !old(self).cpu.halted,
            old(self).total_cycles + 24 <= MAX_TOTAL_CYCLES,
        ensures
            final(self).wf(),
            final(self).total_cycles == old(self).total_cycles + r.0.cycles,
            final(self).device_config == old(self).device_config,
            4 <= r.0.cycles <= 24,
            execute_effect(old(self).cpu, r.1@, StepResult { cycles: r.0.cycles, invalid_opcode: r.0.events.invalid_opcode }),
            r.1@.wf(),
            same_clocks(r.1@.mmu, old(self).cpu.mmu),
            same_cpu_state(final(self).cpu, r.1@),
            peripherals_advanced(r.1@.mmu.peripherals, final(self).cpu.mmu.peripherals, r.0.cycles, r.0.events.ppu_frame_completed, r.0.events.lcd_disabled),
    {
        let step = self.cpu.execute_next();
        let ghost mid = self.cpu;
        let mut events = self.update_components(step.cycles);
        events.invalid_opcode = step.invalid_opcode;
        (EmulatorUpdateResults { cycles: step.cycles, events }, Ghost(mid))
    }

    /// Runs a single step: one instruction, one interrupt dispatch, or 4 idle
    /// cycles, and advances the components by its cycles.
    pub fn run_single_step(&mut self) -> (r: EmulatorUpdateResults)
        requires
            old(self).wf(),
            old(self).total_cycles_spec() + 24 <= MAX_TOTAL_CYCLES,
        ensures
            final(self).wf(),
            final(self).total_cycles_spec() == old(self).total_cycles_spec() + r.cycles,
            final(self).config_spec() == old(self).config_spec(),
            4 <= r.cycles <= 24,
            exists|mid: Cpu| #[trigger] step_effect(old(self).cpu_spec(), mid, final(self).cpu_spec(), r),
    {
        let (r, mid) = self.process_next();
        assert(step_effect(old(self).cpu, mid@, self.cpu, r));
        r
    }

    /// Runs until the PPU completes a frame, or until the time of one frame
    /// (70224 cycles) has passed, as when the LCD is off. While the LCD stays
    /// on the frame completes, and the PPU's frame position moves on by the
    /// cycles run.
    pub fn run_frame(&mut self) -> (r: EmulatorUpdateResults)
        requires
            old(self).wf(),
            old(self).total_cycles_spec() + 0x20000 <= MAX_TOTAL_CYCLES,
        ensures
            final(self).wf(),
            final(self).total_cycles_spec() == old(self).total_cycles_spec() + r.cycles,
            final(self).config_spec() == old(self).config_spec(),
            r.events.ppu_frame_completed || r.cycles >= CPU_CYCLES_PER_FRAME,
            r.cycles < CPU_CYCLES_PER_FRAME + 24,
            !r.events.lcd_disabled ==> r.events.ppu_frame_completed && final(self).cpu_spec().mmu.peripherals.ppu.frame_position()
                == (old(self).cpu_spec().mmu.peripherals.ppu.frame_position() + r.cycles) % 70224,
    {
        let ghost pos0 = self.cpu.mmu.peripherals.ppu.frame_position();
        let mut results = EmulatorUpdateResults {
            cycles: 0,
            events: DebugEvents { ppu_frame_completed: false, invalid_opcode: false, lcd_disabled: false },
        };
        proof {
            self.cpu.mmu.peripherals.ppu.lemma_position_in_frame();
        }
        loop
            invariant_except_break
                results.cycles < CPU_CYCLES_PER_FRAME,
                !results.events.ppu_frame_completed,
                !results.events.lcd_disabled ==> self.cpu.mmu.peripherals.ppu.frame_position() == pos0 + results.cycles
                    && pos0 + results.cycles < 70224,
            invariant
                self.wf(),
                self.total_cycles == old(self).total_cycles + results.cycles,
                self.device_config == old(self).device_config,
                old(self).total_cycles + 0x20000 <= MAX_TOTAL_CYCLES,
                pos0 == old(self).cpu.mmu.peripherals.ppu.frame_position(),
                0 <= pos0 < 70224,
            ensures
                self.wf(),
                self.total_cycles == old(self).total_cycles + results.cycles,
                self.device_config == old(self).device_config,
                results.events.ppu_frame_completed || results.cycles >= CPU_CYCLES_PER_FRAME,
                results.cycles < CPU_CYCLES_PER_FRAME + 24,
                !results.events.lcd_disabled ==> results.events.ppu_frame_completed
                    && self.cpu.mmu.peripherals.ppu.frame_position() == (pos0 + results.cycles) % 70224,
            decreases CPU_CYCLES_PER_FRAME - results.cycles,
        {
            let ghost before = results;
            let (step, _mid) = self.process_next();
            results.add(step);
            proof {
                reveal(peripherals_advanced);
                if !results.events.lcd_disabled {
                    let x = pos0 + results.cycles;
                    if x < 70224 {
                        lemma_fundamental_div_mod_converse(x, 70224, 0, x);
                    } else {
                        lemma_fundamental_div_mod_converse(x, 70224, 1, x - 70224);
                    }
                }
            }
            if results.events.ppu_frame_completed {
                break;
            }
            if results.cycles >= CPU_CYCLES_PER_FRAME {
                break;
            }
        }
        results
    }
}

/// `a` and `b` agree on everything but the bus and the peripherals.
pub open spec fn same_cpu_state(a: Cpu, b: Cpu) -> bool {
    &&& a.regs == b.regs
    &&& a.ime == b.ime
    &&& a.halted == b.halted
    &&& a.stopped == b.stopped
    &&& a.ei_pending == b.ei_pending
    &&& a.halt_bug == b.halt_bug
    &&& a.locked == b.locked
}

/// The CPU at the start of a step, once a pending interrupt has ended HALT
/// and a requested joypad interrupt has ended STOP.
pub open spec fn woken(c: Cpu) -> Cpu {
    Cpu {
        halted: c.halted && pending_spec(c.mmu) == 0,
        stopped: c.stopped && c.mmu.peripherals.mem@[MEMORY_LOCATION_INTERRUPTS_FLAGGED as int] & 0x10 == 0,
        ..c
    }
}

/// The CPU's part of a step from `old` to `mid`: idling 4 cycles while
/// halted, stopped or locked; dispatching the pending interrupt in 20 cycles
/// when IME is set; otherwise executing the instruction at PC.
pub open spec fn cpu_step(old: Cpu, mid: Cpu, r: EmulatorUpdateResults) -> bool {
    let w = woken(old);
    if w.halted || w.stopped || w.locked {
        r.cycles == 4 && mid == w && !r.events.invalid_opcode
    } else if w.ime && pending_spec(w.mmu) != 0 {
        r.cycles == 20 && dispatch_effect(w, mid) && !r.events.invalid_opcode
    } else {
        execute_effect(w, mid, StepResult { cycles: r.cycles, invalid_opcode: r.events.invalid_opcode })
    }
}

/// A whole step from `old` to `new` through `mid`: the CPU's part, after
/// which the peripherals advance by the step's cycles while the CPU waits.
pub open spec fn step_effect(old: Cpu, mid: Cpu, new: Cpu, r: EmulatorUpdateResults) -> bool {
    &&& cpu_step(old, mid, r)
    &&& mid.wf()
    &&& same_clocks(mid.mmu, old.mmu)
    &&& same_cpu_state(new, mid)
    &&& peripherals_advanced(mid.mmu.peripherals, new.mmu.peripherals, r.cycles, r.events.ppu_frame_completed, r.events.lcd_disabled)
}

/// The peripherals after advancing by `cycles`: the PPU moves on through the
/// frame (or holds LY at 0 with the LCD off), the timer runs `cycles` ticks,
/// the serial port finishes a pending transfer when its slot ends, and the
/// frame sequencer moves on while the APU is powered.
#[verifier::opaque]
pub open spec fn peripherals_advanced(before: Peripherals, after: Peripherals, cycles: u64, frame_completed: bool, lcd_disabled: bool) -> bool {
    let m0 = before.mem@;
    let m1 = after.mem@;
    let lcd_on = bit_of(m0[MEMORY_LOCATION_LCD_CONTROL as int], 7);
    let p0 = before.ppu.frame_position();
    let tac = m0[MEMORY_LOCATION_TAC as int];
    let delay0: u8 = if before.mem.tima_written_spec() { 0 } else { before.timer.delay_spec() };
    let start = if before.mem.div_written_spec() {
        after_div_write(before.timer.counter_spec(), delay0, m0[MEMORY_LOCATION_TIMA as int], tac)
    } else {
        TimerRun { counter: before.timer.counter_spec(), delay: delay0, tima: m0[MEMORY_LOCATION_TIMA as int], irqs: 0 }
    };
    let end = timer_run(start, m0[MEMORY_LOCATION_TMA as int], tac, cycles as nat);
    let sent = before.serial.clock_spec() + cycles >= 4096 && transfer_armed(m0[MEMORY_LOCATION_SC as int]);
    &&& lcd_disabled == !lcd_on
    &&& lcd_on ==> {
        &&& after.ppu.frame_position() == (p0 + cycles) % 70224
        &&& frame_completed == (p0 + cycles >= 70224)
        &&& vblank_requested(m1) == (vblank_requested(m0) || (p0 < 65664 && p0 + cycles >= 65664) || p0 + cycles >= 135888)
        &&& m1[MEMORY_LOCATION_LY as int] == after.ppu.ly_spec()
        &&& m1[MEMORY_LOCATION_LCD_STATUS as int] & 3 == mode_bits(after.ppu.mode_spec())
    }
    &&& !lcd_on ==> {
        &&& !frame_completed
        &&& after.ppu.ly_spec() == 0
        &&& m1[MEMORY_LOCATION_LY as int] == 0
        &&& after.ppu.lcd_spec() == before.ppu.lcd_spec()
        &&& vblank_requested(m1) == vblank_requested(m0)
    }
    &&& after.timer.counter_spec() == end.counter
    &&& m1[MEMORY_LOCATION_TIMA as int] == end.tima
    &&& m1[MEMORY_LOCATION_DIV as int] == (end.counter >> 8u16) as u8
    &&& end.irqs > 0 ==> m1[MEMORY_LOCATION_INTERRUPTS_FLAGGED as int] & 4 == 4
    &&& sent && before.serial.queue_enabled() ==> after.serial@ == before.serial@.push(m0[MEMORY_LOCATION_SB as int])
    &&& !(sent && before.serial.queue_enabled()) ==> after.serial@ == before.serial@
    &&& sent ==> m1[MEMORY_LOCATION_INTERRUPTS_FLAGGED as int] & 8 == 8
    &&& after.serial.clock_spec() == (before.serial.clock_spec() + cycles) % 4096
    &&& after.apu.state.apu_on == before.apu.state.apu_on
    &&& before.apu.state.apu_on ==> after.apu.state.fs_clock == (before.apu.state.fs_clock + cycles) % 8192
}

proof fn lemma_interrupt_bits(v: u8)
    by (bit_vector)
    ensures
        (v | (1u8 << 2u8)) & 1 == v & 1,
        (v | (1u8 << 3u8)) & 1 == v & 1,
        (v | (1u8 << 2u8)) & 4 == 4,
        (v | (1u8 << 3u8)) & 4 == v & 4,
        (v | (1u8 << 3u8)) & 8 == 8,
{
}

/// Writes `values` to 0xff00..0xffff through the bus, as the CPU would;
/// the DMA register is only stored, as the boot ROM leaves no transfer running.
fn write_io_registers(mmu: &mut Mmu, values: &[u8; 256])
    requires
        old(mmu).wf(),
    ensures
        final(mmu).wf(),
{
    let mut i: usize = 0;
    while i < 256
        invariant
            i <= 256,
            mmu.wf(),
        decreases 256 - i,
    {
        if i == 0x46 {
            mmu.peripherals.mem.set(0xff46, values[i]);
        } else {
            mmu.write_u8(0xff00 + i as u16, values[i]);
        }
        i = i + 1;
    }
}

/// The I/O register values the boot ROM leaves at 0xff00..0xffff; 0xff
/// stands for registers it leaves undefined.
fn initial_io_registers(dma: u8, vbk: u8, opri: u8, tac: u8, lcds: u8, ly: u8, div: u8) -> (r: [u8; 256])
    ensures
        r@.len() == 256,
{
    let x: u8 = 0xff;
    [
        0xcf, 0x00, 0x7e, x, div, 0x00, 0x00, tac, x, x, x, x, x, x, x, 0xe1,
        0x80, 0xbf, 0xf3, 0xff, 0xbf, x, 0x3f, 0x00, 0xff, 0xbf, 0x7f, 0xff, 0x9f, 0xff, 0xbf, x,
        0xff, 0x00, 0x00, 0xbf, 0x77, 0xf3, 0xf1, x, x, x, x, x, x, x, x, x,
        x, x, x, x, x, x, x, x, x, x, x, x, x, x, x, x,
        0x91, lcds, 0x00, 0x00, ly, 0x00, dma, 0xfc, 0x00, 0x00, 0x00, 0x00, x, 0xff, x, vbk,
        x, 0xff, 0xff, 0xff, 0xff, 0xff, 0xff, x, x, x, x, x, x, x, x, x,
        x, x, x, x, x, x, x, x, 0xff, 0xff, 0xff, 0xff, opri, x, x, x,
        0xff, x, x, x, x, x, x, x, x, x, x, x, x, x, x, x,
        x, x, x, x, x, x, x, x, x, x, x, x, x, x, x, x,
        x, x, x, x, x, x, x, x, x, x, x, x, x, x, x, x,
        x, x, x, x, x, x, x, x, x, x, x, x, x, x, x, x,
        x, x, x, x, x, x, x, x, x, x, x, x, x, x, x, x,
        x, x, x, x, x, x, x, x, x, x, x, x, x, x, x, x,
        x, x, x, x, x, x, x, x, x, x, x, x, x, x, x, x,
        x, x, x, x, x, x, x, x, x, x, x, x, x, x, x, x,
        x, x, x, x, x, x, x, x, x, x, x, x, x, x, x, 0x00,
    ]
}

/// The register values of `initial_registers`.
fn initial_register_values(config: DeviceConfig, header_checksum: u8, title_checksum: u8) -> (r: (u8, u8, u8, u8, u8, u8, u8, u8))
    ensures
        r == initial_registers(config, header_checksum, title_checksum),
{
    let ch = header_checksum != 0;
    match (config.device, config.emulation) {
        (DeviceType::GameBoyDmg, _) | (DeviceType::GameBoyPocket, _) => (0x01, make_flags(true, false, ch, ch), 0x00, 0x13, 0x00, 0xd8, 0x01, 0x4d),
        (DeviceType::GameBoyColor, EmulationType::DMG) => {
            let b = title_checksum;
            let (h, l): (u8, u8) = if b == 0x43 || b == 0x58 { (0x99, 0x1a) } else { (0x00, 0x7c) };
            (0x11, make_flags(true, false, false, false), b, 0x00, 0x00, 0x08, h, l)
        },
        (DeviceType::GameBoyColor, EmulationType::GBC) => (0x11, make_flags(true, false, false, false), 0x00, 0x00, 0xff, 0x56, 0x00, 0x0d),
        (DeviceType::GameBoyAdvance, EmulationType::DMG) | (DeviceType::GameBoyAdvanceSP, EmulationType::DMG) => {
            let b = ((title_checksum as u16 + 1) % 256) as u8;
            let (h, l): (u8, u8) = if b == 0x44 || b == 0x59 { (0x99, 0x1a) } else { (0x00, 0x7c) };
            (0x11, make_flags(b == 0, false, title_checksum % 16 == 15, false), b, 0x00, 0x00, 0x08, h, l)
        },
        (DeviceType::GameBoyAdvance, EmulationType::GBC) | (DeviceType::GameBoyAdvanceSP, EmulationType::GBC) =>
            (0x11, make_flags(false, false, false, false), 0x01, 0x00, 0xff, 0x56, 0x00, 0x0d),
        (DeviceType::SuperGameBoy, _) => (0x01, make_flags(false, false, false, false), 0x00, 0x14, 0x00, 0x00, 0xc0, 0x60),
        (DeviceType::SuperGameBoy2, _) => (0xff, make_flags(false, false, false, false), 0x00, 0x14, 0x00, 0x00, 0xc0, 0x60),
    }
}

} // verus!
