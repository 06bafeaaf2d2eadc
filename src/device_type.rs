use vstd::prelude::*;

verus! {

/// The hardware models the core can behave as.
#[derive(Clone, Copy, PartialEq, Eq, Structural, Debug)]
pub enum DeviceType {
    GameBoyDmg,
    GameBoyPocket,
    GameBoyColor,
    GameBoyAdvance,
    GameBoyAdvanceSP,
    SuperGameBoy,
    SuperGameBoy2,
}

/// Whether the device runs in classic or in color mode.
#[derive(Clone, Copy, PartialEq, Eq, Structural, Debug)]
pub enum EmulationType {
    DMG,
    GBC,
}

/// The setup of the running device; fixed once the emulator is built.
#[derive(Clone, Copy, PartialEq, Eq, Structural, Debug)]
pub struct DeviceConfig {
    /// The device being emulated.
    pub device: DeviceType,
    /// The emulation mode (DMG compatibility or color support).
    pub emulation: EmulationType,
    /// Whether executed opcodes should be printed.
    pub print_opcodes: bool,
}

impl DeviceConfig {
    /// Checks whether the device runs with Game Boy Color support enabled.
    pub fn is_gbc_enabled(&self) -> (r: bool)
        ensures
            r == (self.emulation == EmulationType::GBC),
    {
        match self.emulation {
            EmulationType::DMG => false,
            EmulationType::GBC => true,
        }
    }
}

} // verus!
