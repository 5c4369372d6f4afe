use gameboy::cpu::interrupt::Interrupt;
use gameboy::io::joypad::Joypad;
use gameboy::io::ppu::{Lcdc, PpuStatus};
use gameboy::io::timer::Timer;

#[test]
fn joypad_neither_group_reads_cf() {
    let pad = Joypad::default();
    assert_eq!(pad.select_matrix(), 0xcf);
}

#[test]
fn joypad_groups() {
    let mut pad = Joypad::default();
    pad.set_actions(true, false, false, true);
    pad.set_matrix(false, true);
    assert_eq!(pad.select_matrix(), 0xc0 | 0x20 | 0x06);
    pad.set_directions(true, false, true, false);
    pad.set_matrix(true, false);
    assert_eq!(pad.select_matrix(), 0xc0 | 0x10 | 0x0a);
}

#[test]
fn joypad_opposite_directions_read_released() {
    let mut pad = Joypad::default();
    pad.set_directions(true, true, true, true);
    assert_eq!(pad.select_directions(), 0x0f);
    pad.set_directions(true, true, false, true);
    assert_eq!(pad.select_directions(), 0x07);
}

#[test]
fn joypad_press_raises_interrupt_when_selected() {
    let mut pad = Joypad::default();
    pad.set_actions(true, false, false, false);
    assert!(!pad.interrupt);
    pad.set_matrix(false, true);
    pad.set_actions(true, true, false, false);
    assert!(pad.interrupt);
}

#[test]
fn lcdc_round_trip() {
    for v in 0..=255u8 {
        assert_eq!(Lcdc::from_u8(v).to_u8(), v);
        let l = Lcdc::from_u8(v);
        assert_eq!(Lcdc::from_u8(l.to_u8()), l);
    }
}

#[test]
fn stat_round_trip() {
    for v in 0..=127u8 {
        let s = PpuStatus::from_u8(v);
        assert_eq!(s.to_u8(), v);
        assert_eq!(PpuStatus::from_u8(s.to_u8()), s);
    }
}

#[test]
fn interrupt_round_trip() {
    for v in 0..=255u8 {
        assert_eq!(Interrupt::from_u8(v).to_u8(), v & 0x1f);
        let i = Interrupt::from_u8(v);
        assert_eq!(Interrupt::from_u8(i.to_u8()), i);
    }
}

#[test]
fn tima_wrap() {
    let mut timer = Timer::new();
    timer.counter = 0xff;
    timer.modulo = 0xab;
    timer.set_control(0x05);
    assert_eq!(timer.get_control(), 0x05);
    for _ in 0..15 {
        timer.tick();
        assert_eq!(timer.counter, 0xff);
        assert!(!timer.interrupt);
    }
    timer.tick();
    assert_eq!(timer.counter, 0xab);
    assert!(timer.interrupt);
}

#[test]
fn timer_rates() {
    let rates: [(u8, u32); 4] = [(0x04, 1024), (0x05, 16), (0x06, 64), (0x07, 256)];
    for &(tac, period) in rates.iter() {
        let mut timer = Timer::new();
        timer.set_control(tac);
        for _ in 0..period * 3 {
            timer.tick();
        }
        assert_eq!(timer.counter, 3, "tac {:02x}", tac);
    }
}

#[test]
fn timer_disabled_keeps_tima() {
    let mut timer = Timer::new();
    timer.set_control(0x01);
    for _ in 0..100 {
        timer.tick();
    }
    assert_eq!(timer.counter, 0);
    assert_eq!(timer.get_div(), 0);
    for _ in 0..200 {
        timer.tick();
    }
    assert_eq!(timer.get_div(), 1);
}

#[test]
fn div_reset_reads_zero() {
    let mut timer = Timer::new();
    for _ in 0..5000 {
        timer.tick();
    }
    assert_eq!(timer.get_div(), (5000 >> 8) as u8);
    timer.reset_div();
    assert_eq!(timer.get_div(), 0);
}
