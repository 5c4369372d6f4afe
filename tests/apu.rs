use gameboy::io::apu::Apu;
use gameboy::io::apu::sweep::Sweep;
use gameboy::io::apu::noise::Noise;
use gameboy::io::apu::timer::Timer;

#[test]
fn frame_sequencer_length() {
    let mut apu = Apu::new();
    apu.set_nr52(0x80);
    apu.set_nr22(0xf0);
    apu.set_nr21(0x3f);
    apu.set_nr24(0xc0);
    assert!(apu.ch2.enable);
    assert_eq!(apu.ch2.length.counter, 1);
    for _ in 0..8191 {
        apu.tick();
    }
    assert!(apu.ch2.enable);
    for _ in 0..(16384 - 8191) {
        apu.tick();
    }
    assert!(!apu.ch2.enable);
}

#[test]
fn trigger_reloads_empty_length() {
    let mut apu = Apu::new();
    apu.set_nr52(0x80);
    apu.set_nr12(0xf3);
    apu.set_nr14(0x80);
    assert!(apu.ch1.enable);
    assert_eq!(apu.ch1.length.counter, 64);
    assert_eq!(apu.ch1.envelope.volume, 15);
    apu.set_nr30(0x80);
    apu.set_nr34(0x80);
    assert_eq!(apu.ch3.length.counter, 256);
}

#[test]
fn dac_off_blocks_trigger() {
    let mut apu = Apu::new();
    apu.set_nr52(0x80);
    apu.set_nr42(0x00);
    apu.set_nr44(0x80);
    assert!(!apu.ch4.enable);
    apu.set_nr42(0x08);
    apu.set_nr44(0x80);
    assert!(apu.ch4.enable);
    assert_eq!(apu.ch4.noise.lfsr, 0x7fff);
}

#[test]
fn samples_every_87_clocks() {
    let mut apu = Apu::new();
    apu.set_nr52(0x80);
    for _ in 0..86 {
        apu.tick();
    }
    assert_eq!(apu.drain_samples().len(), 0);
    apu.tick();
    assert!(apu.update);
    let samples = apu.drain_samples();
    assert_eq!(samples, vec![0, 0]);
    assert_eq!(apu.drain_samples().len(), 0);
}

#[test]
fn full_queue_drops_samples() {
    let mut apu = Apu::new();
    apu.set_nr52(0x80);
    for _ in 0..(87 * 5000) {
        apu.tick();
    }
    assert_eq!(apu.drain_samples().len(), 8192);
}

#[test]
fn mixer_routes_by_nr51() {
    let mut apu = Apu::new();
    apu.set_nr52(0x80);
    apu.set_nr50(0x77);
    apu.set_nr51(0x20);
    apu.set_nr22(0xf0);
    apu.set_nr21(0xc0);
    apu.set_nr24(0x87);
    assert!(apu.ch2.left && !apu.ch2.right);
    let mut high_left = false;
    for _ in 0..(87 * 200) {
        apu.tick();
        if apu.update && apu.output_left > 0 {
            high_left = true;
            assert_eq!(apu.output_left as i32, 31 * 15 * 7 - 255);
            assert_eq!(apu.output_right, -255);
        }
    }
    assert!(high_left);
}

#[test]
fn power_off_clears_channels() {
    let mut apu = Apu::new();
    apu.set_nr52(0x80);
    apu.set_nr22(0xf0);
    apu.set_nr24(0x80);
    apu.wave[3] = 0x12;
    assert!(apu.ch2.enable);
    apu.set_nr52(0x00);
    assert!(!apu.ch2.enable);
    assert_eq!(apu.nr22, 0);
    assert_eq!(apu.wave[3], 0x12);
}

#[test]
fn sweep_frequency_step() {
    let mut sweep = Sweep::new();
    sweep.frequency = 0x400;
    sweep.shift = 1;
    assert_eq!(sweep.calc_frequency(), 0x600);
    sweep.decreasing = true;
    assert_eq!(sweep.calc_frequency(), 0x200);
    assert_eq!(sweep.frequency, 0x400);
}

#[test]
fn sweep_overflow_silences_channel_one() {
    let mut apu = Apu::new();
    apu.set_nr52(0x80);
    apu.set_nr12(0xf0);
    apu.set_nr10(0x11);
    apu.set_nr13(0xff);
    apu.set_nr14(0x87);
    assert!(!apu.ch1.enable);
}

#[test]
fn noise_register_step() {
    let mut noise = Noise::new();
    noise.lfsr = 0x7fff;
    noise.tick();
    assert_eq!(noise.lfsr, 0x3fff);
    assert!(!noise.state);
    noise.width_mode = true;
    noise.lfsr = 0x0001;
    noise.tick();
    assert_eq!(noise.lfsr, 0x4040);
    assert!(noise.state);
}

#[test]
fn channel_timer_reload() {
    let mut timer = Timer::new();
    timer.period = 2;
    assert!(timer.tick());
    assert_eq!(timer.counter, 2);
    assert!(!timer.tick());
    assert!(!timer.tick());
    assert!(timer.tick());
}

#[test]
fn noise_period_from_nr43() {
    let mut apu = Apu::new();
    apu.set_nr43(0x35);
    assert_eq!(apu.ch4.noise.timer.period, 80 << 3);
    assert!(!apu.ch4.noise.width_mode);
    apu.set_nr43(0x08);
    assert_eq!(apu.ch4.noise.timer.period, 8);
    assert!(apu.ch4.noise.width_mode);
}

#[test]
fn sweep_direction_change_keeps_channel_one() {
    let mut apu = Apu::new();
    apu.set_nr52(0x80);
    apu.set_nr12(0xf0);
    apu.set_nr10(0x19);
    apu.set_nr13(0x00);
    apu.set_nr14(0x84);
    assert!(apu.ch1.enable);
    apu.set_nr10(0x11);
    assert!(apu.ch1.enable);
    assert_eq!(apu.ch1.sweep.frequency, 0x400);
}
