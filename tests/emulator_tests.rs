use gemi_core::cartridge::Cartridge;
use gemi_core::cpu::{add_hl, alu, daa, sp_offset, CPU_CLOCK_SPEED};
use gemi_core::device_type::{DeviceConfig, DeviceType, EmulationType};
use gemi_core::emulator_core::EmulatorCore;
use gemi_core::ppu::Mode;

fn dmg() -> DeviceConfig {
    DeviceConfig { device: DeviceType::GameBoyDmg, emulation: EmulationType::DMG, print_opcodes: false }
}

/// A 32 KiB ROM-only image holding `program` at 0x100, with a valid header checksum.
fn rom_with_program(program: &[u8]) -> Vec<u8> {
    let mut rom = vec![0u8; 0x8000];
    for (i, b) in program.iter().enumerate() {
        rom[0x100 + i] = *b;
    }
    let mut x: u8 = 0;
    for i in 0x134..0x14d {
        x = x.wrapping_sub(rom[i]).wrapping_sub(1);
    }
    rom[0x14d] = x;
    rom
}

fn emulator_with_program(program: &[u8]) -> EmulatorCore {
    let cartridge = Cartridge::from_bytes(&rom_with_program(program)).unwrap();
    let mut emulator = EmulatorCore::new(dmg());
    emulator.set_cartridge(cartridge);
    emulator.initialize();
    emulator
}

#[test]
fn nop_frame_takes_one_frame_of_cycles() {
    let mut emulator = emulator_with_program(&[]);
    let results = emulator.run_frame();
    assert_eq!(results.cycles, 70_224);
    assert!(results.events.ppu_frame_completed);
    assert!(!results.events.invalid_opcode);
    let lcd = emulator.get_peripherals().ppu.get_lcd();
    for y in 0..144 {
        for x in 0..160 {
            assert_eq!(lcd.get_pixel(x, y), 0);
        }
    }
    assert_eq!(emulator.get_total_cycles_processed(), 70_224);
}

#[test]
fn post_boot_registers_on_dmg() {
    let emulator = emulator_with_program(&[]);
    let regs = emulator.get_cpu().regs;
    assert_eq!(regs.a, 0x01);
    assert_eq!(regs.f, 0xb0);
    assert_eq!((regs.b, regs.c, regs.d, regs.e, regs.h, regs.l), (0x00, 0x13, 0x00, 0xd8, 0x01, 0x4d));
    assert_eq!(regs.sp, 0xfffe);
    assert_eq!(regs.pc, 0x0100);
    assert_eq!(emulator.get_mmu().read_u8(0xff40), 0x91);
    assert_eq!(emulator.get_mmu().read_u8(0xff04), 0xab);
}

#[test]
fn halt_bug_executes_next_instruction_twice() {
    // HALT; INC A
    let mut emulator = emulator_with_program(&[0x76, 0x3c, 0x00]);
    {
        let cpu = emulator.get_cpu_mut();
        cpu.regs.a = 0x00;
        cpu.ime = false;
        cpu.mmu.write_u8(0xffff, 0x01);
        cpu.mmu.write_u8(0xff0f, 0x01);
    }
    emulator.run_single_step();
    assert!(!emulator.get_cpu().halted);
    emulator.run_single_step();
    emulator.run_single_step();
    assert_eq!(emulator.get_cpu().regs.a, 0x02);
    assert_eq!(emulator.get_cpu().regs.pc, 0x0102);
}

#[test]
fn halt_without_pending_interrupt_halts() {
    let mut emulator = emulator_with_program(&[0x76, 0x3c]);
    emulator.get_cpu_mut().mmu.write_u8(0xffff, 0x00);
    let results = emulator.run_single_step();
    assert_eq!(results.cycles, 4);
    assert!(emulator.get_cpu().halted);
    let idle = emulator.run_single_step();
    assert_eq!(idle.cycles, 4);
    assert_eq!(emulator.get_cpu().regs.pc, 0x0101);
}

#[test]
fn pop_af_clears_low_flag_bits() {
    // POP AF
    let mut emulator = emulator_with_program(&[0xf1]);
    {
        let cpu = emulator.get_cpu_mut();
        cpu.regs.sp = 0xc000;
        cpu.mmu.write_u8(0xc000, 0xff);
        cpu.mmu.write_u8(0xc001, 0x12);
    }
    emulator.run_single_step();
    assert_eq!(emulator.get_cpu().regs.a, 0x12);
    assert_eq!(emulator.get_cpu().regs.f, 0xf0);
    assert_eq!(emulator.get_cpu().regs.f & 0x0f, 0);
}

#[test]
fn add_sets_zero_half_carry_and_carry() {
    // LD A,0x3a; LD B,0xc6; ADD A,B
    let mut emulator = emulator_with_program(&[0x3e, 0x3a, 0x06, 0xc6, 0x80]);
    emulator.run_single_step();
    emulator.run_single_step();
    let r = emulator.run_single_step();
    assert_eq!(r.cycles, 4);
    assert_eq!(emulator.get_cpu().regs.a, 0x00);
    assert_eq!(emulator.get_cpu().regs.f, 0xb0);
}

#[test]
fn alu_operations_give_exact_results() {
    assert_eq!(alu(0, 0x3a, 0xc6, 0x00), (0x00, 0xb0));
    assert_eq!(alu(1, 0xe1, 0x0f, 0x10), (0xf1, 0x20));
    assert_eq!(alu(2, 0x3e, 0x3e, 0x00), (0x00, 0xc0));
    assert_eq!(alu(2, 0x3e, 0x0f, 0x00), (0x2f, 0x60));
    assert_eq!(alu(3, 0x3b, 0x2a, 0x10), (0x10, 0x40));
    assert_eq!(alu(4, 0x5a, 0x3f, 0x00), (0x1a, 0x20));
    assert_eq!(alu(5, 0xff, 0xff, 0x00), (0x00, 0x80));
    assert_eq!(alu(6, 0x5a, 0x03, 0x00), (0x5b, 0x00));
    assert_eq!(alu(7, 0x3c, 0x40, 0x00), (0x3c, 0x50));
}

#[test]
fn daa_and_sixteen_bit_arithmetic() {
    // 0x15 + 0x27 = 0x3c, adjusted to BCD 0x42
    assert_eq!(daa(0x3c, 0x00), (0x42, 0x00));
    // 0x99 + 0x01 = 0x9a, adjusted to 0x00 with carry
    assert_eq!(daa(0x9a, 0x00), (0x00, 0x90));
    assert_eq!(add_hl(0x8a23, 0x0605, 0x00), (0x9028, 0x20));
    assert_eq!(add_hl(0x8a23, 0x8a23, 0x80), (0x1446, 0xb0));
    assert_eq!(sp_offset(0xfff8, 0x08), (0x0000, 0x30));
    assert_eq!(sp_offset(0x0005, 0xfe), (0x0003, 0x30));
}

#[test]
fn invalid_opcode_locks_the_cpu() {
    let mut emulator = emulator_with_program(&[0xd3, 0x3c]);
    let results = emulator.run_single_step();
    assert!(results.events.invalid_opcode);
    assert!(emulator.get_cpu().locked);
    let idle = emulator.run_single_step();
    assert_eq!(idle.cycles, 4);
    assert!(!idle.events.invalid_opcode);
    assert_eq!(emulator.get_cpu().regs.pc, 0x0101);
}

#[test]
fn interrupt_dispatch_jumps_to_vector() {
    let mut emulator = emulator_with_program(&[0x00, 0x00]);
    {
        let cpu = emulator.get_cpu_mut();
        cpu.ime = true;
        cpu.mmu.write_u8(0xffff, 0x05);
        cpu.mmu.write_u8(0xff0f, 0x04);
    }
    let results = emulator.run_single_step();
    assert_eq!(results.cycles, 20);
    assert_eq!(emulator.get_cpu().regs.pc, 0x0050);
    assert!(!emulator.get_cpu().ime);
    assert_eq!(emulator.get_mmu().read_u8(0xff0f) & 0x1f, 0x00);
    assert_eq!(emulator.get_cpu().regs.sp, 0xfffc);
}

#[test]
fn ei_enables_interrupts_after_next_instruction() {
    // EI; NOP; NOP
    let mut emulator = emulator_with_program(&[0xfb, 0x00, 0x00]);
    emulator.get_cpu_mut().mmu.write_u8(0xffff, 0x00);
    emulator.run_single_step();
    assert!(!emulator.get_cpu().ime);
    emulator.run_single_step();
    assert!(emulator.get_cpu().ime);
}

#[test]
fn serial_output_collects_sent_bytes() {
    // LD A,'O'; LDH (0x01),A; LD A,0x81; LDH (0x02),A; JR -2
    let mut emulator = emulator_with_program(&[0x3e, 0x4f, 0xe0, 0x01, 0x3e, 0x81, 0xe0, 0x02, 0x18, 0xfe]);
    emulator.enable_serial_output(true);
    emulator.run_frame();
    assert_eq!(emulator.take_serial_output_as_text(), "O");
    assert_eq!(emulator.get_mmu().read_u8(0xff02) & 0x80, 0);
}

#[test]
fn cycles_add_up_over_steps() {
    let mut emulator = emulator_with_program(&[0x3e, 0x3a, 0x06, 0xc6, 0x80, 0xc3, 0x00, 0x01]);
    let mut sum = 0u64;
    for _ in 0..1000 {
        sum += emulator.run_single_step().cycles;
    }
    assert_eq!(emulator.get_total_cycles_processed(), sum);
    assert_eq!(CPU_CLOCK_SPEED, 4_194_304);
}

#[test]
fn saved_state_replays_the_same_frame() {
    // a loop that keeps changing the background palette
    let mut emulator = emulator_with_program(&[0x3c, 0xe0, 0x47, 0x18, 0xfb]);
    emulator.run_frame();
    let mut saved = emulator.clone();
    let a = emulator.run_frame();
    let b = saved.run_frame();
    assert_eq!(a, b);
    assert_eq!(emulator.get_total_cycles_processed(), saved.get_total_cycles_processed());
    let la = emulator.get_peripherals().ppu.get_lcd();
    let lb = saved.get_peripherals().ppu.get_lcd();
    assert_eq!(la.get_pixels(), lb.get_pixels());
}

#[test]
fn stop_waits_for_a_button() {
    // STOP
    let mut emulator = emulator_with_program(&[0x10, 0x00, 0x3c]);
    emulator.get_cpu_mut().mmu.write_u8(0xff00, 0x20);
    emulator.run_single_step();
    assert!(emulator.get_cpu().stopped);
    emulator.run_single_step();
    assert!(emulator.get_cpu().stopped);
    emulator.set_buttons(0x01);
    emulator.run_single_step();
    assert!(!emulator.get_cpu().stopped);
}

#[test]
fn ld_copies_registers() {
    // LD B,0x42; LD D,B; LD A,D
    let mut emulator = emulator_with_program(&[0x06, 0x42, 0x50, 0x7a]);
    emulator.run_single_step();
    emulator.run_single_step();
    emulator.run_single_step();
    assert_eq!(emulator.get_cpu().regs.d, 0x42);
    assert_eq!(emulator.get_cpu().regs.a, 0x42);
}

#[test]
fn vram_reads_ff_while_the_ppu_draws() {
    // JR -2
    let mut emulator = emulator_with_program(&[0x18, 0xfe]);
    emulator.get_cpu_mut().mmu.write_u8(0x8000, 0x12);
    while emulator.get_peripherals().ppu.get_mode() != Mode::DrawLine {
        emulator.run_single_step();
    }
    assert_eq!(emulator.get_mmu().read_u8(0x8000), 0xff);
    assert_eq!(emulator.get_mmu().read_u8(0xfe00), 0xff);
    while emulator.get_peripherals().ppu.get_mode() != Mode::HBlank {
        emulator.run_single_step();
    }
    assert_eq!(emulator.get_mmu().read_u8(0x8000), 0x12);
}

#[test]
fn lcd_off_frame_runs_one_frame_of_time() {
    // LD A,0x11; LDH (0x40),A; JR -2
    let mut emulator = emulator_with_program(&[0x3e, 0x11, 0xe0, 0x40, 0x18, 0xfe]);
    let results = emulator.run_frame();
    assert!(results.events.lcd_disabled);
    assert!(!results.events.ppu_frame_completed);
    assert!(results.cycles >= 70_224);
    assert_eq!(emulator.get_mmu().read_u8(0xff44), 0);
}

#[test]
fn work_ram_round_trip_through_the_emulator() {
    let mut emulator = emulator_with_program(&[]);
    emulator.get_mmu_mut().write_u8(0xc123, 0x5e);
    assert_eq!(emulator.get_mmu().read_u8(0xc123), 0x5e);
    assert_eq!(emulator.get_mmu().read_u8(0xe123), 0x5e);
    assert_eq!(emulator.get_mmu().read_u8(0xff41), 0x85 | 0x80);
}

#[test]
fn oam_dma_blocks_all_but_hram_for_160_cycles() {
    // JR -2, run from ROM; the burst makes the CPU read 0xff meanwhile
    let mut emulator = emulator_with_program(&[0x18, 0xfe]);
    emulator.get_mmu_mut().write_u8(0xc000, 0x42);
    emulator.get_mmu_mut().write_u8(0xff90, 0x24);
    emulator.get_mmu_mut().write_u8(0xff46, 0xc0);
    assert_eq!(emulator.get_mmu().read_u8(0xc000), 0xff);
    assert_eq!(emulator.get_mmu().read_u8(0xff90), 0x24);
    let mut cycles = 0;
    while cycles < 160 {
        cycles += emulator.run_single_step().cycles;
    }
    assert_eq!(emulator.get_mmu().read_u8(0xc000), 0x42);
    assert_eq!(emulator.get_peripherals().mem.read_u8(0xfe00), 0x42);
}
