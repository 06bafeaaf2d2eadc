//! A cycle-driven Game Boy core: memory bus, picture processing unit,
//! audio channels, timer, serial port and CPU, stepped in lockstep.

pub mod apu;
pub mod audio;
pub mod boot_rom;
pub mod cartridge;
pub mod channel;
pub mod cpu;
pub mod device_type;
pub mod dummy_apu;
pub mod emulator_core;
pub mod ioerr;
pub mod mbc;
pub mod memory;
pub mod memory_data;
pub mod mmu;
pub mod noise;
pub mod ppu;
pub mod serial;
pub mod serializable_buffer;
pub mod timer;
pub mod utils;
