use vstd::prelude::*;

use crate::device_type::DeviceConfig;

verus! {

/// A stand-in for the APU that ignores writes and reads 0xff everywhere,
/// for builds that go without sound.
pub struct DummyApu {}

impl DummyApu {
    /// Creates the stand-in.
    pub fn new(device_config: DeviceConfig) -> (r: Self) {
        let _ = device_config;
        Self {}
    }

    /// Every sound register reads 0xff.
    pub fn on_read(&self, address: u16) -> (r: u8)
        ensures
            r == 0xff,
    {
        let _ = address;
        0xff
    }

    /// Writes have no effect.
    pub fn on_write(&mut self, address: u16, value: u8)
        ensures
            *final(self) == *old(self),
    {
        let _ = (address, value);
    }
}

} // verus!
