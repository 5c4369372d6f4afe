use gameboy::io::ppu::render::dmg_colour;
use gameboy::io::ppu::{Lcdc, Ppu, PpuStage};

#[test]
fn scanline_takes_456_clocks() {
    let mut ppu = Ppu::new();
    for _ in 0..455 {
        ppu.tick();
        assert_eq!(ppu.ly, 0);
    }
    ppu.tick();
    assert_eq!(ppu.ly, 1);
    assert_eq!(ppu.stage, PpuStage::OamSearch);
    assert_eq!(ppu.ticks, 0);
}

#[test]
fn line_143_enters_vblank() {
    let mut ppu = Ppu::new();
    ppu.ly = 143;
    for _ in 0..456 {
        ppu.tick();
    }
    assert_eq!(ppu.ly, 144);
    assert_eq!(ppu.stage, PpuStage::VBlank);
    assert!(ppu.vblank_int);
    assert_eq!(ppu.stat.mode_flag, 1);
}

#[test]
fn frame_takes_70224_clocks() {
    let mut ppu = Ppu::new();
    for _ in 0..70223 {
        ppu.tick();
    }
    assert_eq!(ppu.frame, 0);
    ppu.tick();
    assert_eq!(ppu.frame, 1);
    assert_eq!(ppu.ly, 0);
    assert_eq!(ppu.stage, PpuStage::OamSearch);
    for _ in 0..70224 {
        ppu.tick();
    }
    assert_eq!(ppu.frame, 2);
}

#[test]
fn lcd_off_rests_at_line_zero() {
    let mut ppu = Ppu::new();
    for _ in 0..1000 {
        ppu.tick();
    }
    assert_eq!(ppu.ly, 2);
    ppu.lcdc = Lcdc::from_u8(0x00);
    ppu.tick();
    assert_eq!(ppu.ly, 0);
    assert_eq!(ppu.stage, PpuStage::HBlank);
    assert_eq!(ppu.frame, 0);
}

#[test]
fn stat_mode_and_coincidence() {
    let mut ppu = Ppu::new();
    ppu.lyc = 1;
    ppu.stat.lyc_check = true;
    for _ in 0..80 {
        ppu.tick();
    }
    assert_eq!(ppu.stat.mode_flag, 3);
    assert!(!ppu.lcd_stat_int);
    for _ in 0..376 {
        ppu.tick();
    }
    assert!(ppu.stat.coincidence_flag);
    assert!(ppu.lcd_stat_int);
    assert_eq!(ppu.stat.mode_flag, 2);
}

#[test]
fn sprite_rendering() {
    let mut ppu = Ppu::new();
    ppu.oam[0] = 16;
    ppu.oam[1] = 8;
    ppu.oam[2] = 0;
    ppu.oam[3] = 0;
    for i in 0..16 {
        ppu.vram[i] = 0xff;
    }
    ppu.bgp = 0x00;
    ppu.obp0 = 0xe4;
    ppu.lcdc = Lcdc::from_u8(0x83);
    for _ in 0..252 {
        ppu.tick();
    }
    assert_eq!(ppu.get_pixel(0, 0), dmg_colour(3));
    assert_eq!(ppu.get_pixel(7, 0), dmg_colour(3));
    assert_eq!(ppu.get_pixel(8, 0), dmg_colour(0));
}

#[test]
fn sprite_behind_background() {
    let mut ppu = Ppu::new();
    ppu.oam[0] = 16;
    ppu.oam[1] = 8;
    ppu.oam[3] = 0x80;
    for i in 0..16 {
        ppu.vram[i] = 0xff;
    }
    // background tile 0 in unsigned mode is the same opaque tile
    ppu.bgp = 0xe4;
    ppu.obp0 = 0x00;
    ppu.lcdc = Lcdc::from_u8(0x93);
    for _ in 0..252 {
        ppu.tick();
    }
    assert_eq!(ppu.get_pixel(0, 0), dmg_colour(3));
}

#[test]
fn background_tile_and_scroll() {
    let mut ppu = Ppu::new();
    // tile 1 (unsigned mode): first row has colour 1 in its leftmost pixel
    ppu.vram[16] = 0x80;
    ppu.vram[0x1800 + 1] = 1;
    ppu.bgp = 0xe4;
    ppu.lcdc = Lcdc::from_u8(0x91);
    ppu.scx = 8;
    for _ in 0..252 {
        ppu.tick();
    }
    assert_eq!(ppu.get_pixel(0, 0), dmg_colour(1));
    assert_eq!(ppu.get_pixel(1, 0), dmg_colour(0));
}

#[test]
fn signed_tile_data() {
    let mut ppu = Ppu::new();
    // tile id 0x80 in signed mode sits at 0x8800
    ppu.vram[0x800] = 0x00;
    ppu.vram[0x801] = 0x80;
    ppu.vram[0x1800] = 0x80;
    ppu.bgp = 0xe4;
    ppu.lcdc = Lcdc::from_u8(0x81);
    for _ in 0..252 {
        ppu.tick();
    }
    assert_eq!(ppu.get_pixel(0, 0), dmg_colour(2));
}

#[test]
fn window_covers_background() {
    let mut ppu = Ppu::new();
    ppu.vram[16] = 0xff;
    ppu.vram[17] = 0xff;
    ppu.vram[0x1c00] = 1;
    ppu.bgp = 0xe4;
    ppu.wx = 7 + 4;
    ppu.wy = 0;
    ppu.lcdc = Lcdc::from_u8(0x80 | 0x40 | 0x20 | 0x10 | 0x01);
    for _ in 0..252 {
        ppu.tick();
    }
    assert_eq!(ppu.get_pixel(3, 0), dmg_colour(0));
    assert_eq!(ppu.get_pixel(4, 0), dmg_colour(3));
}
