use gemi_core::boot_rom::BootRom;
use gemi_core::memory::Memory;
use gemi_core::memory_data::{MemoryData, MemoryDataDynamic, MemoryDataFixedSize, MemoryDataMapped};
use gemi_core::ioerr::{Error, ErrorCode, InvalidFileSizeError, Source};
use gemi_core::serializable_buffer::SerializableBuffer;

#[test]
fn work_ram_round_trip() {
    let mut mem = Memory::new();
    for (i, address) in [0xc000u16, 0xc123, 0xcfff, 0xd000, 0xdfff].iter().enumerate() {
        let value = 0x11u8.wrapping_mul(i as u8 + 3);
        mem.write_u8(*address, value);
        assert_eq!(mem.read_u8(*address), value);
    }
}

#[test]
fn echo_ram_mirrors_work_ram() {
    let mut mem = Memory::new();
    mem.write_u8(0xe010, 0x5a);
    assert_eq!(mem.read_u8(0xc010), 0x5a);
    assert_eq!(mem.read_u8(0xe010), 0x5a);
    mem.write_u8(0xc020, 0xa5);
    assert_eq!(mem.read_u8(0xe020), 0xa5);
}

#[test]
fn io_registers_keep_their_writable_bits() {
    let mut mem = Memory::new();
    mem.write_u8(0xff0f, 0x00);
    assert_eq!(mem.read_u8(0xff0f), 0xe0);
    mem.write_u8(0xff0f, 0xff);
    assert_eq!(mem.read_u8(0xff0f), 0xff);
    mem.write_u8(0xff07, 0x05);
    assert_eq!(mem.read_u8(0xff07), 0xfd);
    mem.write_u8(0xff02, 0xff);
    assert_eq!(mem.read_u8(0xff02), 0xff);
    mem.write_u8(0xff02, 0x00);
    assert_eq!(mem.read_u8(0xff02), 0x7e);
    mem.write_u8(0xff41, 0xff);
    assert_eq!(mem.read_u8(0xff41) & 0x78, 0x78);
    assert_eq!(mem.read_u8(0xff41) & 0x80, 0x80);
    mem.write_u8(0xff42, 0x37);
    assert_eq!(mem.read_u8(0xff42), 0x37);
}

#[test]
fn rom_ly_and_unusable_area_ignore_writes() {
    let mut mem = Memory::new();
    mem.write_u8(0x1234, 0x99);
    assert_eq!(mem.read_u8(0x1234), 0xff);
    mem.write_u8(0xff44, 0x99);
    assert_eq!(mem.read_u8(0xff44), 0x00);
    mem.write_u8(0xfea0, 0x12);
    assert_eq!(mem.read_u8(0xfea0), 0xff);
}

#[test]
fn writing_div_clears_it() {
    let mut mem = Memory::new();
    mem.set(0xff04, 0xab);
    mem.write_u8(0xff04, 0x55);
    assert_eq!(mem.read_u8(0xff04), 0x00);
    assert!(mem.take_div_written());
    assert!(!mem.take_div_written());
}

#[test]
fn dma_copies_a_block_into_oam() {
    let mut mem = Memory::new();
    for i in 0..160u16 {
        mem.write_u8(0xc100 + i, (i as u8).wrapping_mul(3));
    }
    mem.write_u8(0xff46, 0xc1);
    for i in 0..160u16 {
        assert_eq!(mem.read_u8(0xfe00 + i), (i as u8).wrapping_mul(3));
    }
}

#[test]
fn joypad_reads_selected_row_and_requests_interrupt() {
    let mut mem = Memory::new();
    mem.write_u8(0xff0f, 0x00);
    mem.write_u8(0xff00, 0x20);
    assert_eq!(mem.read_u8(0xff00) & 0x0f, 0x0f);
    mem.set_buttons(0x05);
    assert_eq!(mem.read_u8(0xff00) & 0x0f, 0x0a);
    assert_eq!(mem.read_u8(0xff0f) & 0x10, 0x10);
    mem.write_u8(0xff00, 0x10);
    assert_eq!(mem.read_u8(0xff00) & 0x0f, 0x0f);
}

#[test]
fn boot_rom_overlays_until_unmapped() {
    let mut image = [0u8; 256];
    image[0] = 0x31;
    image[255] = 0x50;
    let mut mem = Memory::new();
    assert!(!mem.has_boot_rom());
    mem.set_boot_rom(BootRom::new(image));
    assert!(mem.has_boot_rom());
    assert_eq!(mem.read_u8(0x0000), 0x31);
    assert_eq!(mem.read_u8(0x00ff), 0x50);
    mem.write_u8(0xff50, 0x01);
    // with the boot ROM unmapped and no cartridge inserted, the ROM area reads 0xff
    assert_eq!(mem.read_u8(0x0000), 0xff);
}

#[test]
fn boot_rom_image_must_be_256_bytes() {
    assert!(BootRom::from_bytes(&[0u8; 255]).is_none());
    let rom = BootRom::from_bytes(&[7u8; 256]).unwrap();
    assert_eq!(rom.read(0x10), 7);
    assert_eq!(rom.read(0x100), 0xff);
}

#[test]
fn memory_data_round_trips() {
    let mut dynamic = MemoryDataDynamic::allocate(16);
    assert_eq!(dynamic.size(), 16);
    assert_eq!(dynamic.get_at(3), 0xff);
    dynamic.set_at(3, 0x42);
    assert_eq!(dynamic.get_at(3), 0x42);
    assert_eq!(dynamic.to_vec()[3], 0x42);
    let err = dynamic.read_from_bytes(&[1, 2, 3]).unwrap_err();
    assert_eq!(
        err,
        Error {
            error_code: ErrorCode::InvalidFileSize(InvalidFileSizeError { actual: 3, expected: 16 }),
            source: Source::RamImage,
        }
    );
    assert!(dynamic.read_from_bytes(&[9u8; 16]).is_ok());
    assert_eq!(dynamic.to_vec(), vec![9u8; 16]);

    let mut fixed: MemoryDataFixedSize<8> = MemoryDataFixedSize::new();
    assert_eq!(fixed.size(), 8);
    assert_eq!(fixed.get_at(7), 0);
    fixed.set_at(7, 1);
    assert_eq!(fixed.to_vec(), vec![0, 0, 0, 0, 0, 0, 0, 1]);

    let mut mapped = MemoryDataMapped::new(5u32);
    *mapped.get_mut() += 1;
    assert_eq!(*mapped.get(), 6);

    let buffer = SerializableBuffer::from_vec(vec![1, 2, 3]);
    assert_eq!(buffer.to_vec(), vec![1, 2, 3]);
    assert_eq!(buffer.as_slice(), &[1, 2, 3]);
}
