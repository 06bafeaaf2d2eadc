use gemi_core::cartridge::{Cartridge, CartridgeError, LicenseeCode};
use gemi_core::mbc::MbcKind;
use gemi_core::audio::{advance_sample_clock, SampleClock};
use gemi_core::memory::Memory;
use gemi_core::serial::SerialPort;
use gemi_core::timer::Timer;

#[test]
fn tima_overflow_reloads_tma_and_requests_interrupt() {
    let mut mem = Memory::new();
    let mut timer = Timer::new();
    // the counter at 12, so that its bit 3 falls four cycles in
    timer.initialize_counter(&mut mem, 0x000c, 0x05);
    mem.write_u8(0xff06, 0xfe);
    mem.write_u8(0xff05, 0xfe);
    mem.write_u8(0xff0f, 0x00);
    timer.update(&mut mem, 24);
    assert_eq!(mem.read_u8(0xff05), 0xfe);
    assert_eq!(mem.read_u8(0xff0f) & 0x04, 0x04);
    assert_eq!(mem.read_u8(0xff06), 0xfe);
}

#[test]
fn tima_reads_zero_during_reload_delay() {
    let mut mem = Memory::new();
    let mut timer = Timer::new();
    timer.initialize_counter(&mut mem, 0x000c, 0x05);
    mem.write_u8(0xff06, 0x33);
    mem.write_u8(0xff05, 0xff);
    mem.write_u8(0xff0f, 0x00);
    timer.update(&mut mem, 5);
    assert_eq!(mem.read_u8(0xff05), 0x00);
    assert_eq!(mem.read_u8(0xff0f) & 0x04, 0x00);
    timer.update(&mut mem, 3);
    assert_eq!(mem.read_u8(0xff05), 0x33);
    assert_eq!(mem.read_u8(0xff0f) & 0x04, 0x04);
}

#[test]
fn one_interrupt_per_overflow() {
    let mut mem = Memory::new();
    let mut timer = Timer::new();
    timer.initialize_counter(&mut mem, 0, 0x05);
    mem.write_u8(0xff06, 0x00);
    mem.write_u8(0xff05, 0x00);
    mem.write_u8(0xff0f, 0x00);
    let mut interrupts = 0;
    for _ in 0..(12_300 / 4) {
        timer.update(&mut mem, 4);
        if mem.read_u8(0xff0f) & 0x04 != 0 {
            interrupts += 1;
            mem.write_u8(0xff0f, 0x00);
        }
    }
    assert_eq!(interrupts, 3);
}

#[test]
fn div_counts_and_resets() {
    let mut mem = Memory::new();
    let mut timer = Timer::new();
    timer.update(&mut mem, 256 * 3);
    assert_eq!(mem.read_u8(0xff04), 3);
    mem.write_u8(0xff04, 0x77);
    timer.update(&mut mem, 10);
    assert_eq!(mem.read_u8(0xff04), 0);
}

#[test]
fn div_write_can_increment_tima() {
    let mut mem = Memory::new();
    let mut timer = Timer::new();
    timer.initialize_counter(&mut mem, 0x0008, 0x05);
    mem.write_u8(0xff05, 0x10);
    mem.write_u8(0xff04, 0x00);
    timer.update(&mut mem, 0);
    assert_eq!(mem.read_u8(0xff05), 0x11);
}

#[test]
fn serial_transfer_sends_sb() {
    let mut mem = Memory::new();
    let mut serial = SerialPort::new();
    serial.enable_output_queue(true);
    mem.write_u8(0xff0f, 0x00);
    mem.write_u8(0xff01, 0x42);
    mem.write_u8(0xff02, 0x81);
    serial.update(&mut mem, 4095);
    assert_eq!(serial.take_output(), Vec::<u8>::new());
    serial.update(&mut mem, 1);
    assert_eq!(mem.read_u8(0xff02) & 0x80, 0x00);
    assert_eq!(mem.read_u8(0xff0f) & 0x08, 0x08);
    assert_eq!(serial.take_next(), Some(0x42));
    assert_eq!(serial.take_next(), None);
    mem.write_u8(0xff01, 0x48);
    mem.write_u8(0xff02, 0x81);
    serial.update(&mut mem, 4096);
    mem.write_u8(0xff01, 0x69);
    mem.write_u8(0xff02, 0x81);
    serial.update(&mut mem, 4096);
    assert_eq!(serial.take_output_as_text(), "Hi");
}

#[test]
fn serial_queue_is_off_by_default() {
    let mut mem = Memory::new();
    let mut serial = SerialPort::new();
    mem.write_u8(0xff01, 0x42);
    mem.write_u8(0xff02, 0x81);
    serial.update(&mut mem, 4096);
    assert_eq!(serial.take_output().len(), 0);
}

fn valid_header() -> Vec<u8> {
    let mut rom = vec![0u8; 0x8000];
    for (i, b) in b"TESTGAME".iter().enumerate() {
        rom[0x134 + i] = *b;
    }
    rom[0x14b] = 0x01;
    let mut x: u8 = 0;
    for i in 0x134..0x14d {
        x = x.wrapping_sub(rom[i]).wrapping_sub(1);
    }
    rom[0x14d] = x;
    rom
}

#[test]
fn cartridge_header_is_checked() {
    assert_eq!(Cartridge::from_bytes(&[0u8; 0x100]).unwrap_err(), CartridgeError::Truncated);
    let mut bad = valid_header();
    bad[0x14d] = bad[0x14d].wrapping_add(1);
    assert_eq!(Cartridge::from_bytes(&bad).unwrap_err(), CartridgeError::BadHeaderChecksum);
    let mut mbc2 = valid_header();
    mbc2[0x147] = 0x20;
    mbc2[0x14d] = mbc2[0x14d].wrapping_sub(0x20);
    assert_eq!(Cartridge::from_bytes(&mbc2).unwrap_err(), CartridgeError::UnsupportedMapper);
    let mut short = valid_header();
    short.truncate(0x4000);
    assert_eq!(Cartridge::from_bytes(&short).unwrap_err(), CartridgeError::Truncated);
    let cartridge = Cartridge::from_bytes(&valid_header()).unwrap();
    assert_eq!(cartridge.get_licensee_code(), LicenseeCode::Old(1));
    let sum = b"TESTGAME".iter().fold(0u8, |s, b| s.wrapping_add(*b));
    assert_eq!(cartridge.compute_title_checksum(), sum);
    assert!(cartridge.is_licensee_one());
}

/// An image of `banks` 16 KiB banks for cartridge type `kind`, each bank
/// starting with its own number, and RAM size code `ram`.
fn banked_image(kind: u8, size_code: u8, ram: u8) -> Vec<u8> {
    let banks = 2usize << size_code;
    let mut rom = vec![0u8; banks * 0x4000];
    for b in 0..banks {
        rom[b * 0x4000] = b as u8;
        rom[b * 0x4000 + 1] = (b >> 8) as u8;
    }
    rom[0x147] = kind;
    rom[0x148] = size_code;
    rom[0x149] = ram;
    let mut x: u8 = 0;
    for i in 0x134..0x14d {
        x = x.wrapping_sub(rom[i]).wrapping_sub(1);
    }
    rom[0x14d] = x;
    rom
}

#[test]
fn mbc1_switches_rom_and_ram_banks() {
    let cartridge = Cartridge::from_bytes(&banked_image(0x03, 5, 0x03)).unwrap();
    let mbc = cartridge.mbc();
    assert_eq!(mbc.kind, MbcKind::Mbc1);
    assert_eq!(mbc.rom_banks, 64);
    assert_eq!(mbc.ram_banks, 4);
    let mut mem = Memory::new();
    mem.load_cartridge(cartridge.as_slice(), mbc);
    assert_eq!(mem.read_u8(0x0000), 0);
    assert_eq!(mem.read_u8(0x4000), 1);
    mem.write_u8(0x2000, 0x05);
    assert_eq!(mem.read_u8(0x4000), 5);
    mem.write_u8(0x2000, 0x00);
    assert_eq!(mem.read_u8(0x4000), 1);
    mem.write_u8(0x2000, 0x02);
    mem.write_u8(0x4000, 0x01);
    assert_eq!(mem.read_u8(0x4000), 34);
    // RAM stays disabled until 0x0a is written to 0x0000..0x1fff
    mem.write_u8(0xa000, 0x12);
    assert_eq!(mem.read_u8(0xa000), 0xff);
    mem.write_u8(0x0000, 0x0a);
    mem.write_u8(0xa000, 0x12);
    assert_eq!(mem.read_u8(0xa000), 0x12);
    mem.write_u8(0x6000, 0x01);
    mem.write_u8(0x4000, 0x02);
    assert_eq!(mem.read_u8(0xa000), 0x00);
    mem.write_u8(0x4000, 0x00);
    assert_eq!(mem.read_u8(0xa000), 0x12);
}

#[test]
fn mbc5_selects_nine_bit_rom_banks() {
    let cartridge = Cartridge::from_bytes(&banked_image(0x19, 8, 0x00)).unwrap();
    let mut mem = Memory::new();
    mem.load_cartridge(cartridge.as_slice(), cartridge.mbc());
    mem.write_u8(0x2000, 0x00);
    assert_eq!(mem.read_u8(0x4000), 0);
    mem.write_u8(0x2000, 0x34);
    mem.write_u8(0x3000, 0x01);
    assert_eq!(mem.read_u8(0x4000), 0x34);
    assert_eq!(mem.read_u8(0x4001), 0x01);
}

#[test]
fn tima_write_cancels_pending_reload() {
    let mut mem = Memory::new();
    let mut timer = Timer::new();
    timer.initialize_counter(&mut mem, 0x000c, 0x05);
    mem.write_u8(0xff06, 0x33);
    mem.write_u8(0xff05, 0xff);
    mem.write_u8(0xff0f, 0x00);
    timer.update(&mut mem, 5);
    assert_eq!(mem.read_u8(0xff05), 0x00);
    mem.write_u8(0xff05, 0x42);
    timer.update(&mut mem, 3);
    assert_eq!(mem.read_u8(0xff05), 0x42);
    assert_eq!(mem.read_u8(0xff0f) & 0x04, 0x00);
}

#[test]
fn mbc2_has_half_byte_ram_and_four_bit_banks() {
    let cartridge = Cartridge::from_bytes(&banked_image(0x06, 3, 0x00)).unwrap();
    let mbc = cartridge.mbc();
    assert_eq!(mbc.kind, MbcKind::Mbc2);
    let mut mem = Memory::new();
    mem.load_cartridge(cartridge.as_slice(), mbc);
    // bit 8 of the address set: ROM bank register
    mem.write_u8(0x2100, 0x07);
    assert_eq!(mem.read_u8(0x4000), 7);
    // bit 8 clear: RAM enable
    mem.write_u8(0x0000, 0x0a);
    mem.write_u8(0xa000, 0x3c);
    assert_eq!(mem.read_u8(0xa000), 0xfc);
    assert_eq!(mem.read_u8(0xa200), 0xfc);
}

#[test]
fn mbc3_clock_latches_and_ticks() {
    let cartridge = Cartridge::from_bytes(&banked_image(0x10, 2, 0x03)).unwrap();
    let mbc = cartridge.mbc();
    assert_eq!(mbc.kind, MbcKind::Mbc3);
    let mut mem = Memory::new();
    mem.load_cartridge(cartridge.as_slice(), mbc);
    mem.write_u8(0x2000, 0x05);
    assert_eq!(mem.read_u8(0x4000), 5);
    mem.write_u8(0x0000, 0x0a);
    mem.write_u8(0x4000, 0x08);
    mem.write_u8(0xa000, 58);
    for _ in 0..(4_194_304 / 16 * 2) {
        mem.tick_rtc(16);
    }
    // nothing latched yet
    assert_eq!(mem.read_u8(0xa000), 0);
    mem.write_u8(0x6000, 0x00);
    mem.write_u8(0x6000, 0x01);
    assert_eq!(mem.read_u8(0xa000), 0);
    mem.write_u8(0x4000, 0x09);
    assert_eq!(mem.read_u8(0xa000), 1);
    mem.write_u8(0x4000, 0x01);
    mem.write_u8(0xa000, 0x77);
    assert_eq!(mem.read_u8(0xa000), 0x77);
}

#[test]
fn sample_clock_schedules_samples() {
    let mut clock = SampleClock { time_passed: 0, next_sample_time: 0 };
    assert_eq!(advance_sample_clock(&mut clock, 100, 48_000), (1, true));
    assert_eq!(clock.next_sample_time, 87);
    assert_eq!(advance_sample_clock(&mut clock, 10, 48_000), (10, false));
    assert_eq!(clock.time_passed, 11);
    assert_eq!(advance_sample_clock(&mut clock, 1000, 48_000), (76, true));
    assert_eq!(clock.next_sample_time, 174);
    let mut samples = 0;
    let mut clock = SampleClock { time_passed: 0, next_sample_time: 0 };
    let mut remaining: u64 = 4_194_304;
    while remaining > 0 {
        let (run, due) = advance_sample_clock(&mut clock, remaining, 48_000);
        if due {
            samples += 1;
        }
        remaining -= run;
    }
    assert!((47_999..=48_001).contains(&samples));
}
