use gemi_core::apu::{Apu, FrameSequencer};
use gemi_core::channel::{Channel, ChannelType, Generator};
use gemi_core::device_type::{DeviceConfig, DeviceType, EmulationType};
use gemi_core::dummy_apu::DummyApu;
use gemi_core::noise::NoiseGenerator;

fn dmg() -> DeviceConfig {
    DeviceConfig { device: DeviceType::GameBoyDmg, emulation: EmulationType::DMG, print_opcodes: false }
}

fn noise_bit(apu: &Apu) -> u16 {
    match &apu.ch4.generator {
        Generator::Noise(n) => n.lfsr & 1,
        _ => panic!("channel 4 holds the noise generator"),
    }
}

#[test]
fn noise_stream_follows_the_lfsr() {
    let mut apu = Apu::new(dmg());
    apu.on_write(0xff22, 0x00);
    apu.on_write(0xff21, 0xf0);
    apu.on_write(0xff23, 0x80);
    assert!(apu.ch4.is_channel_enabled());

    // the register starts cleared; each period the XNOR of bits 0 and 1 enters at bit 14
    let mut lfsr: u16 = 0;
    let mut expected = vec![];
    for _ in 0..32 {
        let bit = (lfsr ^ (lfsr >> 1) ^ 1) & 1;
        lfsr = (lfsr >> 1) | (bit << 14);
        expected.push(lfsr & 1);
    }
    let mut emitted = vec![];
    for _ in 0..32 {
        apu.update(8);
        emitted.push(noise_bit(&apu));
    }
    assert_eq!(emitted, expected);
}

#[test]
fn short_noise_register_feeds_bit_6() {
    let mut noise = NoiseGenerator::new();
    noise.on_register_changed(0x08);
    assert!(noise.short_mode);
    noise.on_trigger_event();
    assert_eq!(noise.get_frequency(), 8);
    noise.update(8);
    assert_eq!(noise.lfsr, 0x4040);
    assert_eq!(noise.get_sample(), 0);
    noise.on_register_changed(0x21);
    assert_eq!(noise.frequency_divider, 16);
    assert_eq!(noise.frequency_shift, 2);
    noise.reset_timer();
    assert_eq!(noise.frequency_timer, 64);
}

#[test]
fn powered_off_apu_is_silent() {
    let mut apu = Apu::new(dmg());
    apu.on_write(0xff25, 0xff);
    apu.on_write(0xff24, 0x77);
    apu.on_write(0xff21, 0xf0);
    apu.on_write(0xff23, 0x80);
    apu.update(100);
    apu.on_write(0xff26, 0x00);
    assert_eq!(apu.get_sample(), (0, 0));
    assert!(!apu.ch4.is_channel_enabled());
    assert_eq!(apu.on_read(0xff26), 0x70);
    apu.on_write(0xff21, 0xf0);
    assert_eq!(apu.on_read(0xff21), 0x00);
}

#[test]
fn disabled_channel_outputs_the_midpoint() {
    let wave = [0u8; 16];
    let channel = Channel::new(ChannelType::Ch1Pulse1);
    assert!(!channel.is_channel_enabled());
    assert_eq!(channel.get_sample(&wave), 0);
}

#[test]
fn mixer_routes_and_scales_channels() {
    let mut apu = Apu::new(dmg());
    apu.on_write(0xff24, 0x70);
    apu.on_write(0xff25, 0x80);
    apu.on_write(0xff21, 0xf0);
    apu.on_write(0xff23, 0x80);
    let bit = noise_bit(&apu);
    let expected: i16 = if bit == 1 { 15 } else { -15 };
    assert_eq!(apu.get_sample(), (expected * 8, 0));
}

#[test]
fn dac_off_disables_the_channel() {
    let mut apu = Apu::new(dmg());
    apu.on_write(0xff12, 0xf0);
    apu.on_write(0xff14, 0x80);
    assert!(apu.ch1.is_channel_enabled());
    assert_eq!(apu.on_read(0xff26), 0xf1);
    apu.on_write(0xff12, 0x00);
    assert!(!apu.ch1.is_channel_enabled());
    assert!(!apu.is_any_dac_enabled());
}

#[test]
fn length_timer_stops_the_channel() {
    let mut apu = Apu::new(dmg());
    apu.on_write(0xff17, 0xf0);
    apu.on_write(0xff16, 0x3f);
    apu.on_write(0xff19, 0xc0);
    assert!(apu.ch2.is_channel_enabled());
    assert_eq!(apu.ch2.length_timer.counter, 1);
    apu.update(8192);
    assert!(!apu.ch2.is_channel_enabled());
}

#[test]
fn registers_read_back_with_unused_bits_set() {
    let mut apu = Apu::new(dmg());
    apu.on_write(0xff11, 0x80);
    assert_eq!(apu.on_read(0xff11), 0xbf);
    apu.on_write(0xff13, 0x12);
    assert_eq!(apu.on_read(0xff13), 0xff);
    apu.on_write(0xff24, 0x35);
    assert_eq!(apu.on_read(0xff24), 0x35);
    assert_eq!(apu.on_read(0xff27), 0xff);
    apu.on_write(0xff30, 0xab);
    assert_eq!(apu.on_read(0xff30), 0xab);
}

#[test]
fn frame_sequencer_steps() {
    let mut fs = FrameSequencer::new();
    let mut length = 0;
    let mut sweep = 0;
    let mut envelope = 0;
    for _ in 0..8 {
        if fs.is_length_timer_active() {
            length += 1;
        }
        if fs.is_freq_sweep_active() {
            sweep += 1;
        }
        if fs.is_volume_envelope_active() {
            envelope += 1;
        }
        fs.increment();
    }
    assert_eq!((length, sweep, envelope), (4, 2, 1));
    fs.reset();
    assert_eq!(fs.fs_next_step, 0);
    let mut apu = Apu::new(dmg());
    apu.update(8192 * 3 + 5);
    assert_eq!(apu.state.fs.fs_next_step, 3);
    assert_eq!(apu.state.fs_clock, 5);
}

#[test]
fn channel_features() {
    let c1 = Channel::new(ChannelType::Ch1Pulse1);
    let c3 = Channel::new(ChannelType::Ch3Wave);
    let c4 = Channel::new(ChannelType::Ch4Noise);
    assert!(c1.has_feature_frequency_sweep());
    assert!(!c4.has_feature_frequency_sweep());
    assert!(!c3.has_feature_volume_envelope());
    assert!(c3.has_feature_length_timer());
    assert_eq!(c3.get_channel_ordinal(), 2);
    assert_eq!(*c4.get_channel_type(), ChannelType::Ch4Noise);
}

#[test]
fn frequency_sweep_overflow_disables_channel_1() {
    let mut apu = Apu::new(dmg());
    apu.on_write(0xff10, 0x11);
    apu.on_write(0xff12, 0xf0);
    apu.on_write(0xff13, 0xff);
    apu.on_write(0xff14, 0x83);
    assert!(apu.ch1.is_channel_enabled());
    apu.update(8192 * 3);
    assert!(!apu.ch1.is_channel_enabled());
}

#[test]
fn dummy_apu_reads_ff() {
    let mut apu = DummyApu::new(dmg());
    apu.on_write(0xff10, 0x12);
    assert_eq!(apu.on_read(0xff10), 0xff);
}
