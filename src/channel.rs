use vstd::prelude::*;

use crate::noise::NoiseGenerator;
use crate::utils::{bit_of, get_bit};

verus! {

/// The type of a channel.
#[derive(Clone, Copy, PartialEq, Eq, Structural, Debug)]
pub enum ChannelType {
    Ch1Pulse1,
    Ch2Pulse2,
    Ch3Wave,
    Ch4Noise,
}

/// The ordinal of a channel type, starting with zero.
pub open spec fn ordinal_of(t: ChannelType) -> u8 {
    match t {
        ChannelType::Ch1Pulse1 => 0,
        ChannelType::Ch2Pulse2 => 1,
        ChannelType::Ch3Wave => 2,
        ChannelType::Ch4Noise => 3,
    }
}

/// The length a channel's timer counts down from: 256 for the wave channel, 64 otherwise.
pub open spec fn length_max(t: ChannelType) -> u16 {
    if t == ChannelType::Ch3Wave { 256 } else { 64 }
}

/// Counts down the time a channel plays; stops the channel at zero when enabled.
#[derive(Clone, Copy, PartialEq, Eq, Structural, Debug)]
pub struct LengthTimer {
    pub enabled: bool,
    pub counter: u16,
}

/// Raises or lowers a channel's volume periodically.
#[derive(Clone, Copy, PartialEq, Eq, Structural, Debug)]
pub struct Envelope {
    pub initial_volume: u8,
    pub increase: bool,
    pub period: u8,
    pub timer: u8,
    pub volume: u8,
}

/// Changes channel 1's frequency periodically.
#[derive(Clone, Copy, PartialEq, Eq, Structural, Debug)]
pub struct FrequencySweep {
    pub period: u8,
    pub negate: bool,
    pub shift: u8,
    pub timer: u8,
    pub shadow: u16,
    pub enabled: bool,
}

/// A square wave generator of channels 1 and 2.
#[derive(Clone, Copy, PartialEq, Eq, Structural, Debug)]
pub struct PulseGenerator {
    pub duty: u8,
    pub frequency: u16,
    pub timer: u32,
    pub position: u8,
}

/// The wave RAM player of channel 3.
#[derive(Clone, Copy, PartialEq, Eq, Structural, Debug)]
pub struct WaveGenerator {
    pub frequency: u16,
    pub timer: u32,
    pub position: u8,
    pub output_level: u8,
}

/// The sound generator of a channel.
#[derive(Clone)]
pub enum Generator {
    Pulse(PulseGenerator),
    Wave(WaveGenerator),
    Noise(NoiseGenerator),
}

/// Bit `position` (0..7, left to right) of the square wave for `duty`.
pub open spec fn duty_bit(duty: u8, position: u8) -> u8 {
    let pattern: u8 = if duty == 0 {
        0x01
    } else if duty == 1 {
        0x81
    } else if duty == 2 {
        0x87
    } else {
        0x7e
    };
    (pattern >> (7 - position) as u8) & 1
}

/// The pulse generator after one cycle.
pub open spec fn pulse_step(g: PulseGenerator) -> PulseGenerator {
    if g.timer <= 1 {
        PulseGenerator { timer: ((2048 - g.frequency) * 4) as u32, position: ((g.position + 1) % 8) as u8, ..g }
    } else {
        PulseGenerator { timer: (g.timer - 1) as u32, ..g }
    }
}

/// The pulse generator after `n` cycles.
pub open spec fn pulse_run(g: PulseGenerator, n: nat) -> PulseGenerator
    decreases n,
{
    if n == 0 { g } else { pulse_step(pulse_run(g, (n - 1) as nat)) }
}

/// The wave generator after one cycle.
pub open spec fn wave_step(g: WaveGenerator) -> WaveGenerator {
    if g.timer <= 1 {
        WaveGenerator { timer: ((2048 - g.frequency) * 2) as u32, position: ((g.position + 1) % 32) as u8, ..g }
    } else {
        WaveGenerator { timer: (g.timer - 1) as u32, ..g }
    }
}

/// The wave generator after `n` cycles.
pub open spec fn wave_run(g: WaveGenerator, n: nat) -> WaveGenerator
    decreases n,
{
    if n == 0 { g } else { wave_step(wave_run(g, (n - 1) as nat)) }
}

/// The 4-bit sample at `position` of wave RAM: high nibble first.
pub open spec fn wave_nibble(ram: Seq<u8>, position: u8) -> u8 {
    let b = ram[(position / 2) as int];
    if position % 2 == 0 { b >> 4u8 } else { b & 0x0f }
}

/// The right shift NR32's output level applies to wave samples.
pub open spec fn wave_shift(level: u8) -> u8 {
    if level == 0 { 4 } else { (level - 1) as u8 }
}

impl PulseGenerator {
    pub open spec fn wf(&self) -> bool {
        self.duty < 4 && self.frequency < 2048 && self.position < 8 && self.timer <= 8192
    }

    /// Lets `cycles` cycles pass.
    pub fn update(&mut self, cycles: u64)
        requires
            old(self).wf(),
        ensures
            final(self).wf(),
            *final(self) == pulse_run(*old(self), cycles as nat),
    {
        let mut done: u64 = 0;
        while done < cycles
            invariant
                done <= cycles,
                self.wf(),
                *self == pulse_run(*old(self), done as nat),
            decreases cycles - done,
        {
            if self.timer <= 1 {
                self.timer = (2048 - self.frequency as u32) * 4;
                self.position = (self.position + 1) % 8;
            } else {
                self.timer = self.timer - 1;
            }
            done = done + 1;
        }
    }

    /// The current bit of the square wave.
    pub fn get_sample(&self) -> (r: u8)
        requires
            self.wf(),
        ensures
            r == duty_bit(self.duty, self.position),
            r <= 1,
    {
        let pattern: u8 = if self.duty == 0 {
            0x01
        } else if self.duty == 1 {
            0x81
        } else if self.duty == 2 {
            0x87
        } else {
            0x7e
        };
        let shift = 7 - self.position;
        let r = (pattern >> shift) & 1;
        assert(r <= 1) by (bit_vector)
            requires
                r == (pattern >> shift) & 1u8,
        ;
        r
    }
}

impl WaveGenerator {
    pub open spec fn wf(&self) -> bool {
        self.frequency < 2048 && self.position < 32 && self.timer <= 4096 && self.output_level < 4
    }

    /// Lets `cycles` cycles pass.
    pub fn update(&mut self, cycles: u64)
        requires
            old(self).wf(),
        ensures
            final(self).wf(),
            *final(self) == wave_run(*old(self), cycles as nat),
    {
        let mut done: u64 = 0;
        while done < cycles
            invariant
                done <= cycles,
                self.wf(),
                *self == wave_run(*old(self), done as nat),
            decreases cycles - done,
        {
            if self.timer <= 1 {
                self.timer = (2048 - self.frequency as u32) * 2;
                self.position = (self.position + 1) % 32;
            } else {
                self.timer = self.timer - 1;
            }
            done = done + 1;
        }
    }

    /// The current sample of wave RAM, shifted by the output level.
    pub fn get_sample(&self, wave_ram: &[u8]) -> (r: u8)
        requires
            self.wf(),
            wave_ram@.len() == 16,
        ensures
            r == wave_nibble(wave_ram@, self.position) >> wave_shift(self.output_level),
            r <= 15,
    {
        let b = wave_ram[(self.position / 2) as usize];
        let nibble = if self.position % 2 == 0 { b >> 4 } else { b & 0x0f };
        let shift: u8 = if self.output_level == 0 { 4 } else { self.output_level - 1 };
        let r = nibble >> shift;
        assert(r <= 15) by (bit_vector)
            requires
                r == nibble >> shift,
                nibble == b >> 4u8 || nibble == b & 0x0fu8,
        ;
        r
    }
}

/// One audio channel: a sound generator with its length timer, volume
/// envelope, frequency sweep (channel 1 only) and DAC.
#[derive(Clone)]
pub struct Channel {
    /// Whether the channel is playing.
    pub channel_enabled: bool,
    /// The channel's type.
    pub channel_type: ChannelType,
    /// Whether the channel's DAC is on; with the DAC off the channel is off.
    pub dac_enabled: bool,
    pub length_timer: LengthTimer,
    pub freq_sweep: FrequencySweep,
    pub vol_envelope: Envelope,
    pub generator: Generator,
}

/// The generator that belongs to a channel type.
pub open spec fn generator_fits(t: ChannelType, g: Generator) -> bool {
    match g {
        Generator::Pulse(p) => (t == ChannelType::Ch1Pulse1 || t == ChannelType::Ch2Pulse2) && p.wf(),
        Generator::Wave(w) => t == ChannelType::Ch3Wave && w.wf(),
        Generator::Noise(n) => t == ChannelType::Ch4Noise && n.wf(),
    }
}

/// The digital value (0..15) a channel's generator and envelope produce.
pub open spec fn digital_value(c: Channel, wave_ram: Seq<u8>) -> u8 {
    match c.generator {
        Generator::Pulse(p) => if duty_bit(p.duty, p.position) == 1 { c.vol_envelope.volume } else { 0 },
        Generator::Wave(w) => wave_nibble(wave_ram, w.position) >> wave_shift(w.output_level),
        Generator::Noise(n) => if n.lfsr & 1 == 1 { c.vol_envelope.volume } else { 0 },
    }
}

/// The sample a channel outputs: its DAC maps 0..15 to -15..15, and a
/// disabled channel outputs the midpoint 0.
pub open spec fn channel_sample(c: Channel, wave_ram: Seq<u8>) -> i16 {
    if c.channel_enabled && c.dac_enabled {
        (2 * digital_value(c, wave_ram) - 15) as i16
    } else {
        0
    }
}

/// The frequency the sweep computes from `shadow`.
pub open spec fn sweep_target(shadow: u16, shift: u8, negate: bool) -> int {
    let delta = shadow >> shift;
    if negate { shadow - delta } else { shadow + delta }
}

impl Channel {
    pub open spec fn wf(&self) -> bool {
        &&& generator_fits(self.channel_type, self.generator)
        &&& (self.channel_enabled ==> self.dac_enabled)
        &&& self.length_timer.counter <= length_max(self.channel_type)
        &&& self.vol_envelope.volume <= 15
        &&& self.vol_envelope.initial_volume <= 15
        &&& self.vol_envelope.period <= 7
        &&& self.vol_envelope.timer <= 7
        &&& self.freq_sweep.shift <= 7
        &&& self.freq_sweep.period <= 7
        &&& self.freq_sweep.timer <= 7
        &&& self.freq_sweep.shadow < 2048
    }

    /// Creates a silent channel of type `channel_type`.
    pub fn new(channel_type: ChannelType) -> (r: Self)
        ensures
            r.wf(),
            r.channel_type == channel_type,
            !r.channel_enabled,
            !r.dac_enabled,
    {
        let generator = match channel_type {
            ChannelType::Ch1Pulse1 | ChannelType::Ch2Pulse2 => Generator::Pulse(
                PulseGenerator { duty: 0, frequency: 0, timer: 8192, position: 0 },
            ),
            ChannelType::Ch3Wave => Generator::Wave(
                WaveGenerator { frequency: 0, timer: 4096, position: 0, output_level: 0 },
            ),
            ChannelType::Ch4Noise => Generator::Noise(NoiseGenerator::new()),
        };
        Self {
            channel_enabled: false,
            channel_type,
            dac_enabled: false,
            length_timer: LengthTimer { enabled: false, counter: 0 },
            freq_sweep: FrequencySweep { period: 0, negate: false, shift: 0, timer: 0, shadow: 0, enabled: false },
            vol_envelope: Envelope { initial_volume: 0, increase: false, period: 0, timer: 0, volume: 0 },
            generator,
        }
    }

    /// Checks whether this channel has a length timer; all four have one.
    pub fn has_feature_length_timer(&self) -> (r: bool)
        ensures
            r,
    {
        true
    }

    /// Checks whether this channel has a frequency sweep: channel 1 only.
    pub fn has_feature_frequency_sweep(&self) -> (r: bool)
        ensures
            r == (self.channel_type == ChannelType::Ch1Pulse1),
    {
        self.channel_type == ChannelType::Ch1Pulse1
    }

    /// Checks whether this channel has a volume envelope: all but channel 3.
    pub fn has_feature_volume_envelope(&self) -> (r: bool)
        ensures
            r == (self.channel_type != ChannelType::Ch3Wave),
    {
        self.channel_type != ChannelType::Ch3Wave
    }

    /// Get the type of this channel.
    pub fn get_channel_type(&self) -> (r: &ChannelType)
        ensures
            *r == self.channel_type,
    {
        &self.channel_type
    }

    /// Get the ordinal number of this channel, starting with zero.
    pub fn get_channel_ordinal(&self) -> (r: u8)
        ensures
            r == ordinal_of(self.channel_type),
    {
        match self.channel_type {
            ChannelType::Ch1Pulse1 => 0,
            ChannelType::Ch2Pulse2 => 1,
            ChannelType::Ch3Wave => 2,
            ChannelType::Ch4Noise => 3,
        }
    }

    /// Checks whether the channel is playing.
    pub fn is_channel_enabled(&self) -> (r: bool)
        ensures
            r == self.channel_enabled,
    {
        self.channel_enabled
    }

    /// Get the sound generator of this channel.
    pub fn get_generator_mut(&mut self) -> (r: &mut Generator)
        ensures
            *r == old(self).generator,
            *final(self) == (Channel { generator: *final(r), ..*old(self) }),
    {
        &mut self.generator
    }

    /// Called by the frame sequencer: counts the length timer down and
    /// stops the channel when it reaches zero.
    pub fn tick_length_timer(&mut self)
        requires
            old(self).wf(),
        ensures
            final(self).wf(),
            old(self).length_timer.enabled && old(self).length_timer.counter > 0 ==> {
                &&& final(self).length_timer.counter == old(self).length_timer.counter - 1
                &&& final(self).channel_enabled == (old(self).channel_enabled && old(self).length_timer.counter > 1)
            },
            !(old(self).length_timer.enabled && old(self).length_timer.counter > 0) ==> *final(self) == *old(self),
            final(self).dac_enabled == old(self).dac_enabled,
            final(self).generator == old(self).generator,
            final(self).vol_envelope == old(self).vol_envelope,
            final(self).freq_sweep == old(self).freq_sweep,
            final(self).channel_type == old(self).channel_type,
            final(self).length_timer.enabled == old(self).length_timer.enabled,
    {
        if self.length_timer.enabled && self.length_timer.counter > 0 {
            self.length_timer.counter = self.length_timer.counter - 1;
            if self.length_timer.counter == 0 {
                self.channel_enabled = false;
            }
        }
    }

    /// Called by the frame sequencer for channel 1: moves the frequency by
    /// the sweep, and stops the channel when the new frequency overflows.
    pub fn tick_freq_sweep(&mut self)
        requires
            old(self).wf(),
        ensures
            final(self).wf(),
            final(self).channel_type == old(self).channel_type,
            final(self).dac_enabled == old(self).dac_enabled,
            final(self).length_timer == old(self).length_timer,
            final(self).vol_envelope == old(self).vol_envelope,
            !(old(self).channel_type == ChannelType::Ch1Pulse1 && old(self).freq_sweep.enabled
                && old(self).freq_sweep.period != 0) ==> *final(self) == *old(self),
            ({
                let s = old(self).freq_sweep;
                let fires = old(self).channel_type == ChannelType::Ch1Pulse1 && s.enabled && s.period != 0 && s.timer <= 1;
                let target = sweep_target(s.shadow, s.shift, s.negate);
                fires && target > 2047 ==> !final(self).channel_enabled
            }),
            ({
                let s = old(self).freq_sweep;
                let fires = old(self).channel_type == ChannelType::Ch1Pulse1 && s.enabled && s.period != 0 && s.timer <= 1;
                let target = sweep_target(s.shadow, s.shift, s.negate);
                fires && target <= 2047 && s.shift != 0 ==> (final(self).freq_sweep.shadow == target
                    && (final(self).generator matches Generator::Pulse(p) && p.frequency == target)
                    && final(self).channel_enabled == (old(self).channel_enabled
                        && sweep_target(target as u16, s.shift, s.negate) <= 2047))
            }),
            ({
                let s = old(self).freq_sweep;
                let fires = old(self).channel_type == ChannelType::Ch1Pulse1 && s.enabled && s.period != 0 && s.timer <= 1;
                !fires || (s.shift == 0 && sweep_target(s.shadow, s.shift, s.negate) <= 2047)
                    ==> final(self).channel_enabled == old(self).channel_enabled
            }),
    {
        if self.channel_type == ChannelType::Ch1Pulse1 && self.freq_sweep.enabled && self.freq_sweep.period != 0 {
            if self.freq_sweep.timer > 1 {
                self.freq_sweep.timer = self.freq_sweep.timer - 1;
            } else {
                self.freq_sweep.timer = self.freq_sweep.period;
                let shadow = self.freq_sweep.shadow;
                let shift = self.freq_sweep.shift;
                let delta = shadow >> shift;
                assert(delta <= shadow) by (bit_vector)
                    requires
                        delta == shadow >> shift,
                ;
                let target: u32 = if self.freq_sweep.negate {
                    (shadow - delta) as u32
                } else {
                    shadow as u32 + delta as u32
                };
                if target > 2047 {
                    self.channel_enabled = false;
                } else if shift != 0 {
                    let next = target as u16;
                    self.freq_sweep.shadow = next;
                    match &mut self.generator {
                        Generator::Pulse(p) => {
                            p.frequency = next;
                        },
                        _ => {},
                    }
                    let next_delta = next >> shift;
                    assert(next_delta <= next) by (bit_vector)
                        requires
                            next_delta == next >> shift,
                    ;
                    let overflow = !self.freq_sweep.negate && next as u32 + next_delta as u32 > 2047;
                    if overflow {
                        self.channel_enabled = false;
                    }
                }
            }
        }
    }

    /// Called by the frame sequencer: steps the volume envelope.
    pub fn tick_envelope_sweep(&mut self)
        requires
            old(self).wf(),
        ensures
            final(self).wf(),
            old(self).channel_type == ChannelType::Ch3Wave || old(self).vol_envelope.period == 0 ==> *final(self) == *old(self),
            final(self).vol_envelope.period == old(self).vol_envelope.period,
            final(self).vol_envelope.initial_volume == old(self).vol_envelope.initial_volume,
            final(self).vol_envelope.increase == old(self).vol_envelope.increase,
            ({
                let e = old(self).vol_envelope;
                let ticking = old(self).channel_type != ChannelType::Ch3Wave && e.period != 0;
                &&& ticking && e.timer > 1 ==> final(self).vol_envelope.timer == e.timer - 1
                &&& ticking && e.timer <= 1 ==> final(self).vol_envelope.timer == e.period
            }),
            final(self).channel_enabled == old(self).channel_enabled,
            final(self).channel_type == old(self).channel_type,
            final(self).dac_enabled == old(self).dac_enabled,
            final(self).length_timer == old(self).length_timer,
            final(self).freq_sweep == old(self).freq_sweep,
            final(self).generator == old(self).generator,
            ({
                let e = old(self).vol_envelope;
                let fires = old(self).channel_type != ChannelType::Ch3Wave && e.period != 0 && e.timer <= 1;
                &&& fires && e.increase && e.volume < 15 ==> final(self).vol_envelope.volume == e.volume + 1
                &&& fires && !e.increase && e.volume > 0 ==> final(self).vol_envelope.volume == e.volume - 1
                &&& !(fires && ((e.increase && e.volume < 15) || (!e.increase && e.volume > 0)))
                    ==> final(self).vol_envelope.volume == e.volume
            }),
    {
        if self.channel_type != ChannelType::Ch3Wave && self.vol_envelope.period != 0 {
            if self.vol_envelope.timer > 1 {
                self.vol_envelope.timer = self.vol_envelope.timer - 1;
            } else {
                self.vol_envelope.timer = self.vol_envelope.period;
                if self.vol_envelope.increase && self.vol_envelope.volume < 15 {
                    self.vol_envelope.volume = self.vol_envelope.volume + 1;
                } else if !self.vol_envelope.increase && self.vol_envelope.volume > 0 {
                    self.vol_envelope.volume = self.vol_envelope.volume - 1;
                }
            }
        }
    }

    /// Lets `cycles` cycles pass on the channel's generator.
    pub fn update(&mut self, cycles: u64)
        requires
            old(self).wf(),
        ensures
            final(self).wf(),
            final(self).channel_enabled == old(self).channel_enabled,
            final(self).channel_type == old(self).channel_type,
            final(self).dac_enabled == old(self).dac_enabled,
            final(self).length_timer == old(self).length_timer,
            final(self).freq_sweep == old(self).freq_sweep,
            final(self).vol_envelope == old(self).vol_envelope,
            match (old(self).generator, final(self).generator) {
                (Generator::Pulse(a), Generator::Pulse(b)) => b == pulse_run(a, cycles as nat),
                (Generator::Wave(a), Generator::Wave(b)) => b == wave_run(a, cycles as nat),
                (Generator::Noise(a), Generator::Noise(b)) => (b.lfsr, b.frequency_timer) == crate::noise::noise_run(
                    a.lfsr, a.short_mode, a.frequency_timer, a.period(), cycles as nat)
                    && b.short_mode == a.short_mode && b.frequency_divider == a.frequency_divider
                    && b.frequency_shift == a.frequency_shift,
                _ => false,
            },
    {
        match &mut self.generator {
            Generator::Pulse(p) => p.update(cycles),
            Generator::Wave(w) => w.update(cycles),
            Generator::Noise(n) => n.update(cycles),
        }
    }

    /// The sample this channel outputs, for the wave RAM `wave_ram`.
    pub fn get_sample(&self, wave_ram: &[u8]) -> (r: i16)
        requires
            self.wf(),
            wave_ram@.len() == 16,
        ensures
            r == channel_sample(*self, wave_ram@),
            -15 <= r <= 15,
    {
        if self.channel_enabled && self.dac_enabled {
            let value: u8 = match &self.generator {
                Generator::Pulse(p) => if p.get_sample() == 1 { self.vol_envelope.volume } else { 0 },
                Generator::Wave(w) => w.get_sample(wave_ram),
                Generator::Noise(n) => if n.get_sample() == 1 { self.vol_envelope.volume } else { 0 },
            };
            2 * (value as i16) - 15
        } else {
            0
        }
    }

    /// Applies a write of `value` to register NRx`number` (0..4) of this
    /// channel, and triggers the channel when bit 7 of NRx4 is set.
    pub fn fire_register_changed(&mut self, number: u8, value: u8)
        requires
            old(self).wf(),
            number <= 4,
        ensures
            final(self).wf(),
            *final(self) == channel_after_write(*old(self), number, value),
    {
        let ch1 = self.channel_type == ChannelType::Ch1Pulse1;
        let ch3 = self.channel_type == ChannelType::Ch3Wave;
        if number == 0 {
            if ch1 {
                self.freq_sweep.period = (value >> 4) & 7;
                self.freq_sweep.negate = get_bit(value, 3);
                self.freq_sweep.shift = value & 7;
                proof { lemma_field_bounds(value); }
            } else if ch3 {
                let dac = get_bit(value, 7);
                self.dac_enabled = dac;
                self.channel_enabled = self.channel_enabled && dac;
            }
        } else if number == 1 {
            proof { lemma_field_bounds(value); }
            self.length_timer.counter = if ch3 { 256 - value as u16 } else { 64 - (value & 63) as u16 };
            match &mut self.generator {
                Generator::Pulse(p) => {
                    p.duty = value >> 6;
                },
                _ => {},
            }
        } else if number == 2 {
            proof { lemma_field_bounds(value); }
            if ch3 {
                match &mut self.generator {
                    Generator::Wave(w) => {
                        w.output_level = (value >> 5) & 3;
                    },
                    _ => {},
                }
            } else {
                self.vol_envelope.initial_volume = value >> 4;
                self.vol_envelope.increase = get_bit(value, 3);
                self.vol_envelope.period = value & 7;
                let dac = (value & 0xf8) != 0;
                self.dac_enabled = dac;
                self.channel_enabled = self.channel_enabled && dac;
            }
        } else if number == 3 {
            match &mut self.generator {
                Generator::Pulse(p) => {
                    p.frequency = (p.frequency / 256) * 256 + value as u16;
                },
                Generator::Wave(w) => {
                    w.frequency = (w.frequency / 256) * 256 + value as u16;
                },
                Generator::Noise(n) => {
                    n.on_register_changed(value);
                },
            }
        } else {
            proof { lemma_field_bounds(value); }
            self.length_timer.enabled = get_bit(value, 6);
            match &mut self.generator {
                Generator::Pulse(p) => {
                    p.frequency = p.frequency % 256 + (value & 7) as u16 * 256;
                },
                Generator::Wave(w) => {
                    w.frequency = w.frequency % 256 + (value & 7) as u16 * 256;
                },
                _ => {},
            }
            if get_bit(value, 7) {
                self.fire_trigger_event();
            }
        }
    }

    /// Starts the channel: enables it if its DAC is on, reloads an expired
    /// length timer, restarts envelope, generator and (channel 1) sweep.
    pub fn fire_trigger_event(&mut self)
        requires
            old(self).wf(),
        ensures
            final(self).wf(),
            *final(self) == triggered(*old(self)),
    {
        self.channel_enabled = self.dac_enabled;
        if self.length_timer.counter == 0 {
            self.length_timer.counter = if self.channel_type == ChannelType::Ch3Wave { 256 } else { 64 };
        }
        self.vol_envelope.volume = self.vol_envelope.initial_volume;
        self.vol_envelope.timer = self.vol_envelope.period;
        let mut frequency: u16 = 0;
        match &mut self.generator {
            Generator::Pulse(p) => {
                p.timer = (2048 - p.frequency as u32) * 4;
                frequency = p.frequency;
            },
            Generator::Wave(w) => {
                w.timer = (2048 - w.frequency as u32) * 2;
                w.position = 0;
            },
            Generator::Noise(n) => {
                n.on_trigger_event();
            },
        }
        if self.channel_type == ChannelType::Ch1Pulse1 {
            self.freq_sweep.shadow = frequency;
            self.freq_sweep.timer = self.freq_sweep.period;
            self.freq_sweep.enabled = self.freq_sweep.period != 0 || self.freq_sweep.shift != 0;
            let shift = self.freq_sweep.shift;
            let delta = frequency >> shift;
            assert(delta <= frequency) by (bit_vector)
                requires
                    delta == frequency >> shift,
            ;
            let target: u32 = if self.freq_sweep.negate {
                (frequency - delta) as u32
            } else {
                frequency as u32 + delta as u32
            };
            if shift != 0 && target > 2047 {
                self.channel_enabled = false;
            }
        }
    }
}

proof fn lemma_field_bounds(v: u8)
    by (bit_vector)
    ensures
        (v >> 4u8) & 7 <= 7,
        v & 7 <= 7,
        v & 63 <= 63,
        v >> 6u8 <= 3,
        (v >> 5u8) & 3 <= 3,
        v >> 4u8 <= 15,
{
}

/// The frequency a generator plays at; noise has none.
pub open spec fn generator_frequency(g: Generator) -> u16 {
    match g {
        Generator::Pulse(p) => p.frequency,
        Generator::Wave(w) => w.frequency,
        Generator::Noise(_) => 0,
    }
}

/// The channel after a write of `v` to its register NRx`n`, before any trigger.
pub open spec fn with_register(c: Channel, n: u8, v: u8) -> Channel {
    let ch1 = c.channel_type == ChannelType::Ch1Pulse1;
    let ch3 = c.channel_type == ChannelType::Ch3Wave;
    if n == 0 {
        if ch1 {
            Channel {
                freq_sweep: FrequencySweep { period: (v >> 4u8) & 7, negate: bit_of(v, 3), shift: v & 7, ..c.freq_sweep },
                ..c
            }
        } else if ch3 {
            Channel { dac_enabled: bit_of(v, 7), channel_enabled: c.channel_enabled && bit_of(v, 7), ..c }
        } else {
            c
        }
    } else if n == 1 {
        let c1 = Channel {
            length_timer: LengthTimer {
                counter: if ch3 { (256 - v) as u16 } else { (64 - (v & 63)) as u16 },
                ..c.length_timer
            },
            ..c
        };
        match c1.generator {
            Generator::Pulse(p) => Channel { generator: Generator::Pulse(PulseGenerator { duty: v >> 6u8, ..p }), ..c1 },
            _ => c1,
        }
    } else if n == 2 {
        if ch3 {
            match c.generator {
                Generator::Wave(w) => Channel {
                    generator: Generator::Wave(WaveGenerator { output_level: (v >> 5u8) & 3, ..w }),
                    ..c
                },
                _ => c,
            }
        } else {
            Channel {
                vol_envelope: Envelope { initial_volume: v >> 4u8, increase: bit_of(v, 3), period: v & 7, ..c.vol_envelope },
                dac_enabled: v & 0xf8 != 0,
                channel_enabled: c.channel_enabled && v & 0xf8 != 0,
                ..c
            }
        }
    } else if n == 3 {
        match c.generator {
            Generator::Pulse(p) => Channel {
                generator: Generator::Pulse(PulseGenerator { frequency: ((p.frequency / 256) * 256 + v) as u16, ..p }),
                ..c
            },
            Generator::Wave(w) => Channel {
                generator: Generator::Wave(WaveGenerator { frequency: ((w.frequency / 256) * 256 + v) as u16, ..w }),
                ..c
            },
            Generator::Noise(g) => Channel {
                generator: Generator::Noise(
                    NoiseGenerator {
                        frequency_shift: (v >> 4u8) as u64,
                        frequency_divider: crate::noise::noise_divider(v & 7),
                        short_mode: bit_of(v, 3),
                        ..g
                    },
                ),
                ..c
            },
        }
    } else {
        let c1 = Channel { length_timer: LengthTimer { enabled: bit_of(v, 6), ..c.length_timer }, ..c };
        match c1.generator {
            Generator::Pulse(p) => Channel {
                generator: Generator::Pulse(PulseGenerator { frequency: (p.frequency % 256 + (v & 7) * 256) as u16, ..p }),
                ..c1
            },
            Generator::Wave(w) => Channel {
                generator: Generator::Wave(WaveGenerator { frequency: (w.frequency % 256 + (v & 7) * 256) as u16, ..w }),
                ..c1
            },
            _ => c1,
        }
    }
}

/// The channel after a trigger.
pub open spec fn triggered(c: Channel) -> Channel {
    let f = generator_frequency(c.generator);
    let s = c.freq_sweep;
    let c1 = Channel {
        channel_enabled: c.dac_enabled,
        length_timer: if c.length_timer.counter == 0 {
            LengthTimer { counter: length_max(c.channel_type), ..c.length_timer }
        } else {
            c.length_timer
        },
        vol_envelope: Envelope { volume: c.vol_envelope.initial_volume, timer: c.vol_envelope.period, ..c.vol_envelope },
        generator: match c.generator {
            Generator::Pulse(p) => Generator::Pulse(PulseGenerator { timer: ((2048 - p.frequency) * 4) as u32, ..p }),
            Generator::Wave(w) => Generator::Wave(WaveGenerator { timer: ((2048 - w.frequency) * 2) as u32, position: 0, ..w }),
            Generator::Noise(n) => Generator::Noise(NoiseGenerator { lfsr: 0, frequency_timer: n.period(), ..n }),
        },
        ..c
    };
    if c.channel_type == ChannelType::Ch1Pulse1 {
        Channel {
            freq_sweep: FrequencySweep { shadow: f, timer: s.period, enabled: s.period != 0 || s.shift != 0, ..s },
            channel_enabled: c1.channel_enabled && !(s.shift != 0 && sweep_target(f, s.shift, s.negate) > 2047),
            ..c1
        }
    } else {
        c1
    }
}

/// The channel after a write of `v` to NRx`n`, including the trigger of NRx4 bit 7.
pub open spec fn channel_after_write(c: Channel, n: u8, v: u8) -> Channel {
    if n == 4 && bit_of(v, 7) {
        triggered(with_register(c, n, v))
    } else {
        with_register(c, n, v)
    }
}


/// The two NR50 volumes are at most 7.
pub proof fn lemma_volume_bits(nr50: u8)
    by (bit_vector)
    ensures
        (nr50 >> 4u8) & 7 <= 7,
        nr50 & 7 <= 7,
{
}

} // verus!
