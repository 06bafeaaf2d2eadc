use vstd::prelude::*;

use crate::channel::{Channel, ChannelType, channel_after_write, channel_sample};
use crate::device_type::DeviceConfig;
use crate::utils::{bit_of, get_bit};

verus! {

/// The number of cycles between two steps of the frame sequencer.
pub const APU_UPDATE_PERIOD: u64 = 8_192;

pub const MEMORY_LOCATION_APU_NR10: u16 = 0xff10;
pub const MEMORY_LOCATION_APU_NR50: u16 = 0xff24;
pub const MEMORY_LOCATION_APU_NR51: u16 = 0xff25;
pub const MEMORY_LOCATION_APU_NR52: u16 = 0xff26;
pub const MEMORY_LOCATION_APU_WAVE_RAM_BEGIN: u16 = 0xff30;
pub const MEMORY_LOCATION_APU_WAVE_RAM_END: u16 = 0xff3f;

/// The frame sequencer: an 8-step counter that gates the channels' length
/// timers, frequency sweep and volume envelopes.
#[derive(Clone, Copy, PartialEq, Eq, Structural, Debug)]
pub struct FrameSequencer {
    /// The next step; only its low three bits count.
    pub fs_next_step: u8,
}

impl FrameSequencer {
    pub fn new() -> (r: Self)
        ensures
            r.fs_next_step == 0,
    {
        Self { fs_next_step: 0 }
    }

    /// Resets the next step to zero.
    pub fn reset(&mut self)
        ensures
            final(self).fs_next_step == 0,
    {
        self.fs_next_step = 0;
    }

    /// Moves to the next step.
    pub fn increment(&mut self)
        ensures
            final(self).fs_next_step == (old(self).fs_next_step + 1) % 256,
    {
        self.fs_next_step = self.fs_next_step.wrapping_add(1);
    }

    /// Length timers tick on steps 0, 2, 4 and 6.
    pub fn is_length_timer_active(&self) -> (r: bool)
        ensures
            r == (self.fs_next_step % 2 == 0),
    {
        self.fs_next_step % 2 == 0
    }

    /// The frequency sweep ticks on steps 2 and 6.
    pub fn is_freq_sweep_active(&self) -> (r: bool)
        ensures
            r == (self.fs_next_step % 4 == 2),
    {
        self.fs_next_step % 4 == 2
    }

    /// Volume envelopes tick on step 7.
    pub fn is_volume_envelope_active(&self) -> (r: bool)
        ensures
            r == (self.fs_next_step % 8 == 7),
    {
        self.fs_next_step % 8 == 7
    }
}

/// Whether the APU is powered, and the frame sequencer's state.
#[derive(Clone)]
pub struct ApuState {
    pub apu_on: bool,
    /// The current device config.
    pub device_config: DeviceConfig,
    /// Cycles since the frame sequencer's last step.
    pub fs_clock: u64,
    pub fs: FrameSequencer,
}

/// The bits of NR10..NR51 that always read as 1.
pub open spec fn apu_read_mask(i: int) -> u8 {
    seq![
        0x80u8, 0x3f, 0x00, 0xff, 0xbf,
        0xff, 0x3f, 0x00, 0xff, 0xbf,
        0x7f, 0xff, 0x9f, 0xff, 0xbf,
        0xff, 0xff, 0x00, 0x00, 0xbf,
        0x00, 0x00,
    ][i]
}

/// The audio processing unit: four channels, the frame sequencer, the
/// sound registers and wave RAM, and a stereo mixer.
#[derive(Clone)]
pub struct Apu {
    pub state: ApuState,
    pub ch1: Channel,
    pub ch2: Channel,
    pub ch3: Channel,
    pub ch4: Channel,
    /// NR10..NR51 as last written, at offsets 0x00..0x15.
    pub regs: Vec<u8>,
    /// The 16 bytes of wave RAM.
    pub wave_ram: Vec<u8>,
}

/// The stereo sample the mixer outputs: each channel routed by NR51 to the
/// left (bits 4..7) and right (bits 0..3) sides, each side scaled by its NR50
/// volume plus one; a powered-off APU outputs silence.
pub open spec fn mixed_sample(a: Apu) -> (i16, i16) {
    if !a.state.apu_on {
        (0, 0)
    } else {
        let nr50 = a.regs@[0x14];
        let nr51 = a.regs@[0x15];
        let s1 = channel_sample(a.ch1, a.wave_ram@);
        let s2 = channel_sample(a.ch2, a.wave_ram@);
        let s3 = channel_sample(a.ch3, a.wave_ram@);
        let s4 = channel_sample(a.ch4, a.wave_ram@);
        let left = (if bit_of(nr51, 4) { s1 } else { 0 }) + (if bit_of(nr51, 5) { s2 } else { 0 }) + (
        if bit_of(nr51, 6) { s3 } else { 0 }) + (if bit_of(nr51, 7) { s4 } else { 0 });
        let right = (if bit_of(nr51, 0) { s1 } else { 0 }) + (if bit_of(nr51, 1) { s2 } else { 0 }) + (
        if bit_of(nr51, 2) { s3 } else { 0 }) + (if bit_of(nr51, 3) { s4 } else { 0 });
        ((left * (((nr50 >> 4u8) & 7) + 1)) as i16, (right * ((nr50 & 7) + 1)) as i16)
    }
}

impl Apu {
    pub open spec fn wf(&self) -> bool {
        self.channels_wf() && self.state.fs_clock < APU_UPDATE_PERIOD
    }

    /// The channels, registers and wave RAM are well formed.
    pub open spec fn channels_wf(&self) -> bool {
        &&& self.ch1.wf() && self.ch1.channel_type == ChannelType::Ch1Pulse1
        &&& self.ch2.wf() && self.ch2.channel_type == ChannelType::Ch2Pulse2
        &&& self.ch3.wf() && self.ch3.channel_type == ChannelType::Ch3Wave
        &&& self.ch4.wf() && self.ch4.channel_type == ChannelType::Ch4Noise
        &&& self.regs@.len() == 0x16
        &&& self.wave_ram@.len() == 16
    }

    /// Creates a powered APU with silent channels and cleared registers.
    pub fn new(device_config: DeviceConfig) -> (r: Self)
        ensures
            r.wf(),
            r.state.apu_on,
            r.state.fs_clock == 0,
            r.state.fs.fs_next_step == 0,
            r.state.device_config == device_config,
            !r.ch1.channel_enabled && !r.ch2.channel_enabled && !r.ch3.channel_enabled && !r.ch4.channel_enabled,
            forall|i: int| 0 <= i < 0x16 ==> r.regs@[i] == 0,
    {
        Self {
            state: ApuState { apu_on: true, device_config, fs_clock: 0, fs: FrameSequencer::new() },
            ch1: Channel::new(ChannelType::Ch1Pulse1),
            ch2: Channel::new(ChannelType::Ch2Pulse2),
            ch3: Channel::new(ChannelType::Ch3Wave),
            ch4: Channel::new(ChannelType::Ch4Noise),
            regs: zeroed(0x16),
            wave_ram: zeroed(16),
        }
    }

    /// Runs one step of the frame sequencer, then moves it on.
    fn next_frame_sequencer_step(&mut self)
        requires
            old(self).channels_wf(),
        ensures
            final(self).channels_wf(),
            final(self).state.fs.fs_next_step == (old(self).state.fs.fs_next_step + 1) % 256,
            final(self).state.apu_on == old(self).state.apu_on,
            final(self).state.fs_clock == old(self).state.fs_clock,
            final(self).regs == old(self).regs,
            final(self).wave_ram == old(self).wave_ram,
    {
        if self.state.fs.is_length_timer_active() {
            self.ch1.tick_length_timer();
            self.ch2.tick_length_timer();
            self.ch3.tick_length_timer();
            self.ch4.tick_length_timer();
        }
        if self.state.fs.is_freq_sweep_active() {
            self.ch1.tick_freq_sweep();
            self.ch2.tick_freq_sweep();
            self.ch3.tick_freq_sweep();
            self.ch4.tick_freq_sweep();
        }
        if self.state.fs.is_volume_envelope_active() {
            self.ch1.tick_envelope_sweep();
            self.ch2.tick_envelope_sweep();
            self.ch3.tick_envelope_sweep();
            self.ch4.tick_envelope_sweep();
        }
        self.state.fs.increment();
    }

    /// Lets `cycles` cycles pass: the frame sequencer steps every 8192
    /// cycles while the APU is powered, and the channels' generators run.
    pub fn update(&mut self, cycles: u64)
        requires
            old(self).wf(),
            cycles <= 0xffff_ffff,
        ensures
            final(self).wf(),
            final(self).state.apu_on == old(self).state.apu_on,
            final(self).regs == old(self).regs,
            final(self).wave_ram == old(self).wave_ram,
            old(self).state.apu_on ==> final(self).state.fs_clock == (old(self).state.fs_clock + cycles) % 8192,
            old(self).state.apu_on ==> final(self).state.fs.fs_next_step == (old(self).state.fs.fs_next_step
                + (old(self).state.fs_clock + cycles) / 8192) % 256,
            !old(self).state.apu_on ==> final(self).state.fs == old(self).state.fs
                && final(self).state.fs_clock == old(self).state.fs_clock,
    {
        if self.state.apu_on {
            let total = self.state.fs_clock + cycles;
            self.state.fs_clock = total;
            let ghost mut steps: int = 0;
            while self.state.fs_clock >= APU_UPDATE_PERIOD
                invariant
                    self.channels_wf(),
                    self.regs == old(self).regs,
                    self.wave_ram == old(self).wave_ram,
                    self.state.apu_on,
                    steps >= 0,
                    total == old(self).state.fs_clock + cycles,
                    self.state.fs_clock + 8192 * steps == total,
                    self.state.fs.fs_next_step == (old(self).state.fs.fs_next_step + steps) % 256,
                decreases self.state.fs_clock,
            {
                self.state.fs_clock = self.state.fs_clock - APU_UPDATE_PERIOD;
                self.next_frame_sequencer_step();
                proof {
                    steps = steps + 1;
                }
            }
            proof {
                vstd::arithmetic::div_mod::lemma_fundamental_div_mod_converse(total as int, 8192, steps, self.state.fs_clock as int);
            }
        }
        self.ch1.update(cycles);
        self.ch2.update(cycles);
        self.ch3.update(cycles);
        self.ch4.update(cycles);
    }

    /// Check whether the DAC of at least one channel is on.
    pub fn is_any_dac_enabled(&self) -> (r: bool)
        ensures
            r == (self.ch1.dac_enabled || self.ch2.dac_enabled || self.ch3.dac_enabled || self.ch4.dac_enabled),
    {
        self.ch1.dac_enabled || self.ch2.dac_enabled || self.ch3.dac_enabled || self.ch4.dac_enabled
    }

    /// The current stereo sample of the mixer.
    pub fn get_sample(&self) -> (r: (i16, i16))
        requires
            self.wf(),
        ensures
            r == mixed_sample(*self),
    {
        if !self.state.apu_on {
            return (0, 0);
        }
        let nr50 = self.regs[0x14];
        let nr51 = self.regs[0x15];
        let wave = self.wave_ram.as_slice();
        let s1 = self.ch1.get_sample(wave);
        let s2 = self.ch2.get_sample(wave);
        let s3 = self.ch3.get_sample(wave);
        let s4 = self.ch4.get_sample(wave);
        let left: i16 = (if get_bit(nr51, 4) { s1 } else { 0 }) + (if get_bit(nr51, 5) { s2 } else { 0 }) + (
        if get_bit(nr51, 6) { s3 } else { 0 }) + (if get_bit(nr51, 7) { s4 } else { 0 });
        let right: i16 = (if get_bit(nr51, 0) { s1 } else { 0 }) + (if get_bit(nr51, 1) { s2 } else { 0 }) + (
        if get_bit(nr51, 2) { s3 } else { 0 }) + (if get_bit(nr51, 3) { s4 } else { 0 });
        let left_volume = ((nr50 >> 4) & 7) as i16 + 1;
        let right_volume = (nr50 & 7) as i16 + 1;
        proof {
            crate::channel::lemma_volume_bits(nr50);
            assert(-60 <= left <= 60 && -60 <= right <= 60);
            assert(-480 <= left * left_volume <= 480) by (nonlinear_arith)
                requires
                    -60 <= left <= 60,
                    1 <= left_volume <= 8,
            ;
            assert(-480 <= right * right_volume <= 480) by (nonlinear_arith)
                requires
                    -60 <= right <= 60,
                    1 <= right_volume <= 8,
            ;
        }
        (left * left_volume, right * right_volume)
    }

    /// The APU with `c` as the channel at `ordinal`.
    pub open spec fn with_channel(self, ordinal: int, c: Channel) -> Apu {
        if ordinal == 0 {
            Apu { ch1: c, ..self }
        } else if ordinal == 1 {
            Apu { ch2: c, ..self }
        } else if ordinal == 2 {
            Apu { ch3: c, ..self }
        } else {
            Apu { ch4: c, ..self }
        }
    }

    /// The channel at `ordinal`.
    pub open spec fn channel_at(self, ordinal: int) -> Channel {
        if ordinal == 0 {
            self.ch1
        } else if ordinal == 1 {
            self.ch2
        } else if ordinal == 2 {
            self.ch3
        } else {
            self.ch4
        }
    }

    /// Handles a CPU write to the sound registers 0xff10..0xff3f. Wave RAM is
    /// always writable; NR52 bit 7 powers the APU on or off, and powering off
    /// clears NR10..NR51 and silences every channel; while off, writes to
    /// NR10..NR51 are ignored; otherwise the register is stored and the
    /// channel it belongs to takes the write.
    pub fn on_write(&mut self, address: u16, value: u8)
        requires
            old(self).wf(),
            0xff10 <= address <= 0xff3f,
        ensures
            final(self).wf(),
            address >= MEMORY_LOCATION_APU_WAVE_RAM_BEGIN ==> *final(self) == (Apu {
                wave_ram: final(self).wave_ram,
                ..*old(self)
            }) && final(self).wave_ram@ == old(self).wave_ram@.update(address - 0xff30, value),
            address == MEMORY_LOCATION_APU_NR52 ==> {
                &&& final(self).state.apu_on == bit_of(value, 7)
                &&& final(self).wave_ram == old(self).wave_ram
                &&& old(self).state.apu_on && !bit_of(value, 7) ==> {
                    &&& forall|i: int| 0 <= i < 0x16 ==> final(self).regs@[i] == 0
                    &&& !final(self).ch1.channel_enabled && !final(self).ch2.channel_enabled
                    &&& !final(self).ch3.channel_enabled && !final(self).ch4.channel_enabled
                }
                &&& !old(self).state.apu_on && bit_of(value, 7) ==> final(self).state.fs.fs_next_step == 0
            },
            address < MEMORY_LOCATION_APU_NR52 && !old(self).state.apu_on ==> *final(self) == *old(self),
            0xff26 < address < 0xff30 ==> *final(self) == *old(self),
            address < MEMORY_LOCATION_APU_NR52 && old(self).state.apu_on ==> {
                let i = address - 0xff10;
                let ordinal = i / 5;
                &&& final(self).regs@ == old(self).regs@.update(i, value)
                &&& final(self).state == old(self).state
                &&& final(self).wave_ram == old(self).wave_ram
                &&& i < 20 ==> *final(self) == (Apu { regs: final(self).regs, ..old(self).with_channel(
                    ordinal,
                    channel_after_write(old(self).channel_at(ordinal), (i % 5) as u8, value),
                ) })
                &&& i >= 20 ==> *final(self) == (Apu { regs: final(self).regs, ..*old(self) })
            },
    {
        if address >= MEMORY_LOCATION_APU_WAVE_RAM_BEGIN {
            self.wave_ram.set((address - MEMORY_LOCATION_APU_WAVE_RAM_BEGIN) as usize, value);
        } else if address == MEMORY_LOCATION_APU_NR52 {
            let enabled = get_bit(value, 7);
            if self.state.apu_on != enabled {
                self.state.apu_on = enabled;
                if enabled {
                    self.state.fs.reset();
                } else {
                    self.regs = zeroed(0x16);
                    self.ch1 = Channel::new(ChannelType::Ch1Pulse1);
                    self.ch2 = Channel::new(ChannelType::Ch2Pulse2);
                    self.ch3 = Channel::new(ChannelType::Ch3Wave);
                    self.ch4 = Channel::new(ChannelType::Ch4Noise);
                }
            }
        } else if address > MEMORY_LOCATION_APU_NR52 {
        } else if self.state.apu_on {
            let i = (address - MEMORY_LOCATION_APU_NR10) as usize;
            self.regs.set(i, value);
            let number = (i % 5) as u8;
            if i < 5 {
                self.ch1.fire_register_changed(number, value);
            } else if i < 10 {
                self.ch2.fire_register_changed(number, value);
            } else if i < 15 {
                self.ch3.fire_register_changed(number, value);
            } else if i < 20 {
                self.ch4.fire_register_changed(number, value);
            }
        }
    }

    /// What the CPU reads from the sound register at `address`: NR10..NR51
    /// with their unused bits set, NR52 with the power and channel status
    /// bits, 0xff for the unused 0xff27..0xff2f, and wave RAM as stored.
    pub open spec fn read_spec(&self, address: u16) -> u8 {
        if address >= MEMORY_LOCATION_APU_WAVE_RAM_BEGIN {
            self.wave_ram@[address - 0xff30]
        } else if address == MEMORY_LOCATION_APU_NR52 {
            if self.state.apu_on {
                0xf0u8 | (if self.ch1.channel_enabled { 1u8 } else { 0u8 }) | (if self.ch2.channel_enabled { 2u8 } else { 0u8 })
                    | (if self.ch3.channel_enabled { 4u8 } else { 0u8 }) | (if self.ch4.channel_enabled { 8u8 } else { 0u8 })
            } else {
                0x70u8
            }
        } else if address > MEMORY_LOCATION_APU_NR52 {
            0xff
        } else {
            self.regs@[address - 0xff10] | apu_read_mask(address - 0xff10)
        }
    }

    /// Handles a CPU read of the sound registers 0xff10..0xff3f.
    pub fn on_read(&self, address: u16) -> (r: u8)
        requires
            self.wf(),
            0xff10 <= address <= 0xff3f,
        ensures
            r == self.read_spec(address),
    {
        if address >= MEMORY_LOCATION_APU_WAVE_RAM_BEGIN {
            self.wave_ram[(address - MEMORY_LOCATION_APU_WAVE_RAM_BEGIN) as usize]
        } else if address == MEMORY_LOCATION_APU_NR52 {
            if self.state.apu_on {
                0xf0u8 | (if self.ch1.channel_enabled { 1u8 } else { 0u8 }) | (if self.ch2.channel_enabled { 2u8 } else { 0u8 })
                    | (if self.ch3.channel_enabled { 4u8 } else { 0u8 }) | (if self.ch4.channel_enabled { 8u8 } else { 0u8 })
            } else {
                0x70
            }
        } else if address > MEMORY_LOCATION_APU_NR52 {
            0xff
        } else {
            let masks: [u8; 22] = [
                0x80, 0x3f, 0x00, 0xff, 0xbf,
                0xff, 0x3f, 0x00, 0xff, 0xbf,
                0x7f, 0xff, 0x9f, 0xff, 0xbf,
                0xff, 0xff, 0x00, 0x00, 0xbf,
                0x00, 0x00,
            ];
            let i = (address - MEMORY_LOCATION_APU_NR10) as usize;
            assert(masks@ =~= seq![
                0x80u8, 0x3f, 0x00, 0xff, 0xbf,
                0xff, 0x3f, 0x00, 0xff, 0xbf,
                0x7f, 0xff, 0x9f, 0xff, 0xbf,
                0xff, 0xff, 0x00, 0x00, 0xbf,
                0x00, 0x00,
            ]);
            self.regs[i] | masks[i]
        }
    }
}

/// A vector of `n` zero bytes.
fn zeroed(n: usize) -> (r: Vec<u8>)
    ensures
        r@.len() == n,
        forall|i: int| 0 <= i < n ==> r@[i] == 0,
{
    let mut v: Vec<u8> = Vec::new();
    let mut i: usize = 0;
    while i < n
        invariant
            i <= n,
            v@.len() == i,
            forall|j: int| 0 <= j < i ==> v@[j] == 0,
        decreases n - i,
    {
        v.push(0);
        i = i + 1;
    }
    v
}

/// A powered-off APU outputs silence.
pub proof fn lemma_powered_off_apu_is_silent(a: Apu)
    requires
        !a.state.apu_on,
    ensures
        mixed_sample(a) == (0i16, 0i16),
{
}

/// A disabled channel outputs the DAC midpoint, 0.
pub proof fn lemma_disabled_channel_is_silent(c: Channel, wave_ram: Seq<u8>)
    requires
        !c.channel_enabled,
    ensures
        channel_sample(c, wave_ram) == 0,
{
}

} // verus!
