use vstd::prelude::*;

verus! {

/// Size in bytes of a DMG boot ROM image.
pub const BOOT_ROM_SIZE: usize = 256;

/// A 256 byte boot ROM image, mapped over 0x0000..0x00ff until the
/// program unmaps it by writing to 0xff50.
#[derive(Clone)]
pub struct BootRom {
    rom: [u8; 256],
}

impl View for BootRom {
    type V = Seq<u8>;

    closed spec fn view(&self) -> Seq<u8> {
        self.rom@
    }
}

impl BootRom {
    /// Creates a boot ROM from its image.
    pub fn new(data: [u8; 256]) -> (r: BootRom)
        ensures
            r@ == data@,
    {
        BootRom { rom: data }
    }

    /// Reads one byte of the image; addresses beyond the image read 0xff.
    pub fn read(&self, address: u16) -> (r: u8)
        ensures
            (address as int) < 256 ==> r == self@[address as int],
            (address as int) >= 256 ==> r == 0xff,
    {
        if (address as usize) < BOOT_ROM_SIZE {
            self.rom[address as usize]
        } else {
            0xff
        }
    }

    /// Builds a boot ROM from a byte image, which must be exactly 256 bytes long.
    pub fn from_bytes(bytes: &[u8]) -> (r: Option<BootRom>)
        ensures
            r.is_some() <==> bytes@.len() == 256,
            r.is_some() ==> r.unwrap()@ == bytes@,
    {
        if bytes.len() != BOOT_ROM_SIZE {
            return None;
        }
        let mut rom: [u8; 256] = [0u8; 256];
        let mut i: usize = 0;
        while i < BOOT_ROM_SIZE
            invariant
                bytes@.len() == 256,
                i <= 256,
                rom@.len() == 256,
                forall|j: int| 0 <= j < i ==> rom@[j] == bytes@[j],
            decreases 256 - i,
        {
            rom[i] = bytes[i];
            i = i + 1;
        }
        assert(rom@ =~= bytes@);
        Some(BootRom { rom })
    }
}

} // verus!
