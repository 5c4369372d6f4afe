pub mod lcdc;
pub mod render;
pub mod status;

use vstd::prelude::*;
pub use self::lcdc::Lcdc;
pub use self::status::PpuStatus;
use self::render::{Colour, LCD_WIDTH, LCD_HEIGHT, VRAM_SIZE, OAM_SIZE};

verus! {

/// Clocks spent searching OAM at the start of a visible line.
pub const OAM_ACCESS: u32 = 80;
/// Clocks spent transferring pixels.
pub const PIXEL_TRANSFER: u32 = 172;
/// Clocks of horizontal blank that close a visible line.
pub const HBLANK: u32 = 204;
/// Clocks of one whole line.
pub const SCANLINE: u32 = 456;
/// Last line of a frame; lines 144 to 153 are vertical blank.
pub const SCANLINE_MAX: u8 = 153;

#[derive(Clone, Copy, Debug, PartialEq, Eq, Structural)]
pub enum PpuStage {
    HBlank,
    VBlank,
    OamSearch,
    PixelTransfer,
}

/// The part of the PPU state that the line timing moves.
pub struct PpuClock {
    pub stage: PpuStage,
    pub ly: u8,
    pub ticks: u32,
    pub frame: u32,
}

/// Mode bits of STAT for each stage.
pub open spec fn mode_of(stage: PpuStage) -> u8 {
    match stage {
        PpuStage::HBlank => 0,
        PpuStage::VBlank => 1,
        PpuStage::OamSearch => 2,
        PpuStage::PixelTransfer => 3,
    }
}

/// Clocks a stage lasts.
pub open spec fn duration(stage: PpuStage) -> u32 {
    match stage {
        PpuStage::HBlank => HBLANK,
        PpuStage::VBlank => SCANLINE,
        PpuStage::OamSearch => OAM_ACCESS,
        PpuStage::PixelTransfer => PIXEL_TRANSFER,
    }
}

pub open spec fn wrapping_inc32(x: u32) -> u32 {
    if x == 0xffff_ffff { 0 } else { (x + 1) as u32 }
}

/// Where a well-formed clock can be: visible lines outside vertical blank,
/// and time within the current stage.
pub open spec fn clock_wf(c: PpuClock) -> bool {
    &&& c.ticks < duration(c.stage)
    &&& c.stage != PpuStage::VBlank ==> c.ly < 144
    &&& c.stage == PpuStage::VBlank ==> 144 <= c.ly <= SCANLINE_MAX
}

/// One clock of the line state machine with the display on.
pub open spec fn step(c: PpuClock) -> PpuClock {
    let t = c.ticks + 1;
    if t < duration(c.stage) {
        PpuClock { ticks: t as u32, ..c }
    } else {
        match c.stage {
            PpuStage::OamSearch => PpuClock { stage: PpuStage::PixelTransfer, ticks: 0, ..c },
            PpuStage::PixelTransfer => PpuClock { stage: PpuStage::HBlank, ticks: 0, ..c },
            PpuStage::HBlank => PpuClock {
                stage: if c.ly + 1 == 144 {
                    PpuStage::VBlank
                } else {
                    PpuStage::OamSearch
                },
                ly: (c.ly + 1) as u8,
                ticks: 0,
                frame: c.frame,
            },
            PpuStage::VBlank => if c.ly == SCANLINE_MAX {
                PpuClock { stage: PpuStage::OamSearch, ly: 0, ticks: 0, frame: wrapping_inc32(c.frame) }
            } else {
                PpuClock { ly: (c.ly + 1) as u8, ticks: 0, ..c }
            },
        }
    }
}

/// The clock after `n` steps.
pub open spec fn run(c: PpuClock, n: nat) -> PpuClock
    decreases n,
{
    if n == 0 {
        c
    } else {
        run(step(c), (n - 1) as nat)
    }
}

/// Whether a step starts a stage whose STAT source is enabled, or moves LY onto LYC
/// with that source enabled.
pub open spec fn stat_raised(c: PpuClock, n: PpuClock, stat: PpuStatus, lyc: u8) -> bool {
    ||| (n.stage != c.stage && n.stage == PpuStage::HBlank && stat.m0_hblank_interrupt)
    ||| (n.stage != c.stage && n.stage == PpuStage::VBlank && stat.m1_vblank_interrupt)
    ||| (n.stage != c.stage && n.stage == PpuStage::OamSearch && stat.m2_oam_interrupt)
    ||| (n.ly != c.ly && n.ly == lyc && stat.lyc_check)
}

/// The picture processing unit.
pub struct Ppu {
    pub stage: PpuStage,
    pub ly: u8,
    pub lyc: u8,
    pub scx: u8,
    pub scy: u8,
    pub wx: u8,
    pub wy: u8,
    pub bgp: u8,
    pub obp0: u8,
    pub obp1: u8,
    pub lcdc: Lcdc,
    pub stat: PpuStatus,
    pub vblank_int: bool,
    pub lcd_stat_int: bool,
    pub vram: Vec<u8>,
    pub oam: Vec<u8>,
    pub framebuffer: Vec<Colour>,
    pub frame: u32,
    pub ticks: u32,
}

impl Ppu {
    pub open spec fn clock(&self) -> PpuClock {
        PpuClock { stage: self.stage, ly: self.ly, ticks: self.ticks, frame: self.frame }
    }

    pub open spec fn wf(&self) -> bool {
        &&& clock_wf(self.clock())
        &&& self.stat.wf()
        &&& self.vram@.len() == VRAM_SIZE
        &&& self.oam@.len() == OAM_SIZE
        &&& self.framebuffer@.len() == LCD_WIDTH * LCD_HEIGHT
    }

    /// Everything the CPU can set, and the memories, are the same.
    pub open spec fn same_registers(&self, o: &Ppu) -> bool {
        &&& self.lyc == o.lyc
        &&& self.scx == o.scx
        &&& self.scy == o.scy
        &&& self.wx == o.wx
        &&& self.wy == o.wy
        &&& self.bgp == o.bgp
        &&& self.obp0 == o.obp0
        &&& self.obp1 == o.obp1
        &&& self.lcdc == o.lcdc
        &&& self.vram == o.vram
        &&& self.oam == o.oam
        &&& self.stat.lyc_check == o.stat.lyc_check
        &&& self.stat.m2_oam_interrupt == o.stat.m2_oam_interrupt
        &&& self.stat.m1_vblank_interrupt == o.stat.m1_vblank_interrupt
        &&& self.stat.m0_hblank_interrupt == o.stat.m0_hblank_interrupt
    }

    /// The framebuffer with line LY drawn from the current registers and memories.
    pub open spec fn rendered(&self) -> Seq<Colour> {
        Seq::new(
            self.framebuffer@.len(),
            |i: int|
                if self.ly * LCD_WIDTH <= i < self.ly * LCD_WIDTH + LCD_WIDTH {
                    self.spec_pixel((i - self.ly * LCD_WIDTH) as u8)
                } else {
                    self.framebuffer@[i]
                },
        )
    }

    pub fn new() -> (r: Ppu)
        ensures
            r.wf(),
            r.stage == PpuStage::OamSearch,
            r.ly == 0 && r.ticks == 0 && r.frame == 0,
            r.lyc == 0 && r.scx == 0 && r.scy == 0 && r.wx == 0 && r.wy == 0,
            r.bgp == 0 && r.obp0 == 0 && r.obp1 == 0,
            r.lcdc == Lcdc::spec_from_u8(0x80),
            r.stat == PpuStatus::spec_from_u8(0),
            !r.vblank_int && !r.lcd_stat_int,
            forall|i: int| 0 <= i < VRAM_SIZE ==> #[trigger] r.vram@[i] == 0,
            forall|i: int| 0 <= i < OAM_SIZE ==> #[trigger] r.oam@[i] == 0,
    {
        let framebuffer = vec![Colour { r: 0, g: 0, b: 0 }; LCD_WIDTH * LCD_HEIGHT];
        let vram = vec![0u8; VRAM_SIZE];
        let oam = vec![0u8; OAM_SIZE];
        Ppu {
            stage: PpuStage::OamSearch,
            ly: 0,
            lyc: 0,
            scx: 0,
            scy: 0,
            wx: 0,
            wy: 0,
            bgp: 0,
            obp0: 0,
            obp1: 0,
            lcdc: Lcdc::default(),
            stat: PpuStatus::from_u8(0),
            vblank_int: false,
            lcd_stat_int: false,
            vram,
            oam,
            framebuffer,
            frame: 0,
            ticks: 0,
        }
    }

    fn update_ly(&mut self)
        requires
            old(self).ly < SCANLINE_MAX,
        ensures
            final(self).ly == old(self).ly + 1,
            final(self).stage == old(self).stage,
            final(self).ticks == old(self).ticks,
            final(self).frame == old(self).frame,
            final(self).stat == old(self).stat,
            final(self).lcd_stat_int == old(self).lcd_stat_int,
            final(self).vblank_int == old(self).vblank_int,
            final(self).same_registers(old(self)),
            final(self).framebuffer == old(self).framebuffer,
    {
        self.ly = self.ly + 1;
    }

    /// Raises the status interrupt when LY has reached LYC and that source is enabled.
    fn compare_ly_lyc(&mut self)
        ensures
            final(self).lcd_stat_int == (old(self).lcd_stat_int || (old(self).ly == old(self).lyc
                && old(self).stat.lyc_check)),
            final(self).stat == old(self).stat,
            final(self).stage == old(self).stage,
            final(self).ly == old(self).ly,
            final(self).ticks == old(self).ticks,
            final(self).frame == old(self).frame,
            final(self).vblank_int == old(self).vblank_int,
            final(self).same_registers(old(self)),
            final(self).framebuffer == old(self).framebuffer,
    {
        if self.ly == self.lyc && self.stat.lyc_check {
            self.lcd_stat_int = true;
        }
    }

    /// Raises the status interrupt when the source of the stage just entered is enabled;
    /// pixel transfer has none.
    fn update_stat_interrupt(&mut self)
        ensures
            final(self).lcd_stat_int == (old(self).lcd_stat_int || match old(self).stage {
                PpuStage::HBlank => old(self).stat.m0_hblank_interrupt,
                PpuStage::VBlank => old(self).stat.m1_vblank_interrupt,
                PpuStage::OamSearch => old(self).stat.m2_oam_interrupt,
                PpuStage::PixelTransfer => false,
            }),
            final(self).stat == old(self).stat,
            final(self).stage == old(self).stage,
            final(self).ly == old(self).ly,
            final(self).ticks == old(self).ticks,
            final(self).frame == old(self).frame,
            final(self).vblank_int == old(self).vblank_int,
            final(self).same_registers(old(self)),
            final(self).framebuffer == old(self).framebuffer,
    {
        let raise = match self.stage {
            PpuStage::HBlank => self.stat.m0_hblank_interrupt,
            PpuStage::VBlank => self.stat.m1_vblank_interrupt,
            PpuStage::OamSearch => self.stat.m2_oam_interrupt,
            PpuStage::PixelTransfer => false,
        };
        if raise {
            self.lcd_stat_int = true;
        }
    }

    /// Advances one clock. With the display off the PPU rests in horizontal blank
    /// at line 0; otherwise the line clock takes one step, the line is drawn as pixel
    /// transfer ends, and the interrupts of the stages entered are raised.
    pub fn tick(&mut self)
        requires
            old(self).wf(),
        ensures
            final(self).wf(),
            final(self).same_registers(old(self)),
            final(self).stat.mode_flag == mode_of(final(self).stage),
            !old(self).lcdc.lcd_enable ==> {
                &&& final(self).stage == PpuStage::HBlank
                &&& final(self).ly == 0
                &&& final(self).ticks == 0
                &&& final(self).frame == old(self).frame
                &&& final(self).vblank_int == old(self).vblank_int
                &&& final(self).lcd_stat_int == old(self).lcd_stat_int
                &&& final(self).stat.coincidence_flag == old(self).stat.coincidence_flag
                &&& final(self).framebuffer == old(self).framebuffer
            },
            old(self).lcdc.lcd_enable ==> {
                &&& final(self).clock() == step(old(self).clock())
                &&& final(self).vblank_int == (old(self).vblank_int || (final(self).stage
                    == PpuStage::VBlank && old(self).stage != PpuStage::VBlank))
                &&& final(self).lcd_stat_int == (old(self).lcd_stat_int || stat_raised(
                    old(self).clock(),
                    final(self).clock(),
                    old(self).stat,
                    old(self).lyc,
                ))
                &&& final(self).stat.coincidence_flag == (final(self).ly == old(self).lyc)
                &&& final(self).framebuffer@ == if old(self).stage == PpuStage::PixelTransfer
                    && final(self).stage == PpuStage::HBlank {
                    old(self).rendered()
                } else {
                    old(self).framebuffer@
                }
            },
    {
        if !self.lcdc.lcd_enable {
            self.stage = PpuStage::HBlank;
            self.ly = 0;
            self.ticks = 0;
            self.stat.mode_flag = 0;
            return;
        }
        let t = self.ticks + 1;
        match self.stage {
            PpuStage::OamSearch => {
                if t == OAM_ACCESS {
                    self.stage = PpuStage::PixelTransfer;
                    self.ticks = 0;
                } else {
                    self.ticks = t;
                }
            },
            PpuStage::PixelTransfer => {
                if t == PIXEL_TRANSFER {
                    self.render_line();
                    self.stage = PpuStage::HBlank;
                    self.ticks = 0;
                    self.update_stat_interrupt();
                } else {
                    self.ticks = t;
                }
            },
            PpuStage::HBlank => {
                if t == HBLANK {
                    self.update_ly();
                    self.compare_ly_lyc();
                    if self.ly == 144 {
                        self.vblank_int = true;
                        self.stage = PpuStage::VBlank;
                    } else {
                        self.stage = PpuStage::OamSearch;
                    }
                    self.update_stat_interrupt();
                    self.ticks = 0;
                } else {
                    self.ticks = t;
                }
            },
            PpuStage::VBlank => {
                if t == SCANLINE {
                    if self.ly == SCANLINE_MAX {
                        self.ly = 0;
                    } else {
                        self.update_ly();
                    }
                    self.compare_ly_lyc();
                    if self.ly == 0 {
                        self.frame = self.frame.wrapping_add(1);
                        self.stage = PpuStage::OamSearch;
                        self.update_stat_interrupt();
                    }
                    self.ticks = 0;
                } else {
                    self.ticks = t;
                }
            },
        }
        self.stat.mode_flag = match self.stage {
            PpuStage::HBlank => 0,
            PpuStage::VBlank => 1,
            PpuStage::OamSearch => 2,
            PpuStage::PixelTransfer => 3,
        };
        self.stat.coincidence_flag = self.ly == self.lyc;
    }
}

/// Running `a` clocks and then `b` more is running `a + b`.
pub proof fn lemma_run_add(c: PpuClock, a: nat, b: nat)
    ensures
        run(c, a + b) == run(run(c, a), b),
    decreases a,
{
    if a > 0 {
        lemma_run_add(step(c), (a - 1) as nat, b);
        assert((a - 1) as nat + b == (a + b - 1) as nat);
    }
}

proof fn lemma_wait(c: PpuClock, k: nat)
    requires
        c.ticks + k < duration(c.stage),
    ensures
        run(c, k) == (PpuClock { ticks: (c.ticks + k) as u32, ..c }),
    decreases k,
{
    if k > 0 {
        lemma_wait(step(c), (k - 1) as nat);
    }
}

/// A stage entered at its first clock ends after its whole duration.
proof fn lemma_stage(c: PpuClock)
    requires
        c.ticks == 0,
    ensures
        run(c, duration(c.stage) as nat) == step(PpuClock { ticks: (duration(c.stage) - 1) as u32, ..c }),
{
    let d = duration(c.stage) as nat;
    lemma_wait(c, (d - 1) as nat);
    lemma_run_add(c, (d - 1) as nat, 1);
    let w = run(c, (d - 1) as nat);
    assert(run(w, 1) == run(step(w), 0));
}

/// From the start of OAM search on a visible line, one line of 456 clocks later LY
/// has advanced by one and the PPU is back in OAM search, or in vertical blank at
/// line 144.
pub proof fn lemma_scanline(c: PpuClock)
    requires
        c.stage == PpuStage::OamSearch,
        c.ticks == 0,
        c.ly < 144,
    ensures
        run(c, SCANLINE as nat) == (PpuClock {
            stage: if c.ly + 1 == 144 {
                PpuStage::VBlank
            } else {
                PpuStage::OamSearch
            },
            ly: (c.ly + 1) as u8,
            ticks: 0,
            frame: c.frame,
        }),
{
    lemma_stage(c);
    let p = run(c, 80);
    lemma_stage(p);
    let h = run(p, 172);
    lemma_stage(h);
    lemma_run_add(c, 80, 172);
    lemma_run_add(c, 252, 204);
}

/// A line of vertical blank lasts 456 clocks; the last one starts a new frame.
pub proof fn lemma_vblank_line(c: PpuClock)
    requires
        c.stage == PpuStage::VBlank,
        c.ticks == 0,
        144 <= c.ly <= SCANLINE_MAX,
    ensures
        run(c, SCANLINE as nat) == if c.ly == SCANLINE_MAX {
            PpuClock { stage: PpuStage::OamSearch, ly: 0, ticks: 0, frame: wrapping_inc32(c.frame) }
        } else {
            PpuClock { ly: (c.ly + 1) as u8, ..c }
        },
{
    lemma_stage(c);
}

proof fn lemma_visible_lines(c: PpuClock, k: nat)
    requires
        c.stage == PpuStage::OamSearch,
        c.ticks == 0,
        c.ly + k < 144,
    ensures
        run(c, 456 * k) == (PpuClock { ly: (c.ly + k) as u8, ..c }),
    decreases k,
{
    if k > 0 {
        lemma_scanline(c);
        let n = run(c, 456);
        lemma_visible_lines(n, (k - 1) as nat);
        lemma_run_add(c, 456, 456 * (k - 1) as nat);
        assert(456 + 456 * (k - 1) as nat == 456 * k);
    }
}

proof fn lemma_vblank_lines(c: PpuClock, k: nat)
    requires
        c.stage == PpuStage::VBlank,
        c.ticks == 0,
        144 <= c.ly,
        c.ly + k <= SCANLINE_MAX,
    ensures
        run(c, 456 * k) == (PpuClock { ly: (c.ly + k) as u8, ..c }),
    decreases k,
{
    if k > 0 {
        lemma_vblank_line(c);
        let n = run(c, 456);
        lemma_vblank_lines(n, (k - 1) as nat);
        lemma_run_add(c, 456, 456 * (k - 1) as nat);
        assert(456 + 456 * (k - 1) as nat == 456 * k);
    }
}

/// From the start of a frame, 70224 clocks later the frame counter has advanced by
/// exactly one and the PPU is at the start of the next frame.
pub proof fn lemma_frame(c: PpuClock)
    requires
        c.stage == PpuStage::OamSearch,
        c.ticks == 0,
        c.ly == 0,
    ensures
        run(c, 70224) == (PpuClock { frame: wrapping_inc32(c.frame), ..c }),
{
    lemma_visible_lines(c, 143);
    let l143 = run(c, 456 * 143);
    lemma_scanline(l143);
    let v144 = run(l143, 456);
    lemma_vblank_lines(v144, 9);
    let v153 = run(v144, 456 * 9);
    lemma_vblank_line(v153);
    lemma_run_add(c, 456 * 143, 456);
    lemma_run_add(c, 456 * 144, 456 * 9);
    lemma_run_add(c, 456 * 153, 456);
}

/// The clock at the start of a frame.
pub open spec fn frame_start(frame: u32) -> PpuClock {
    PpuClock { stage: PpuStage::OamSearch, ly: 0, ticks: 0, frame: frame }
}

/// Clocks from the start of the frame to `c`.
pub open spec fn frame_offset(c: PpuClock) -> nat {
    let line = 456 * (c.ly as nat);
    (line + match c.stage {
        PpuStage::OamSearch => c.ticks as nat,
        PpuStage::PixelTransfer => 80 + c.ticks as nat,
        PpuStage::HBlank => 252 + c.ticks as nat,
        PpuStage::VBlank => c.ticks as nat,
    }) as nat
}

/// Every well-formed clock is reached from the start of its frame.
proof fn lemma_reach(c: PpuClock)
    requires
        clock_wf(c),
    ensures
        frame_offset(c) < 70224,
        run(frame_start(c.frame), frame_offset(c)) == c,
{
    let s = frame_start(c.frame);
    let t = c.ticks as nat;
    if c.stage != PpuStage::VBlank {
        let ly = c.ly as nat;
        let line = PpuClock { stage: PpuStage::OamSearch, ly: c.ly, ticks: 0, frame: c.frame };
        lemma_visible_lines(s, ly);
        assert(run(s, 456 * ly) == line);
        if c.stage == PpuStage::OamSearch {
            lemma_wait(line, t);
            lemma_run_add(s, 456 * ly, t);
        } else {
            lemma_stage(line);
            let p = PpuClock { stage: PpuStage::PixelTransfer, ..line };
            assert(run(line, 80) == p);
            lemma_run_add(s, 456 * ly, 80);
            if c.stage == PpuStage::PixelTransfer {
                lemma_wait(p, t);
                lemma_run_add(s, 456 * ly + 80, t);
            } else {
                lemma_stage(p);
                let h = PpuClock { stage: PpuStage::HBlank, ..line };
                assert(run(p, 172) == h);
                lemma_run_add(s, 456 * ly + 80, 172);
                lemma_wait(h, t);
                lemma_run_add(s, 456 * ly + 252, t);
            }
        }
    } else {
        let k = (c.ly - 144) as nat;
        lemma_visible_lines(s, 143);
        let l143 = run(s, 456 * 143);
        lemma_scanline(l143);
        let v144 = run(l143, 456);
        lemma_run_add(s, 456 * 143, 456);
        lemma_vblank_lines(v144, k);
        let vly = run(v144, 456 * k);
        lemma_run_add(s, 456 * 144, 456 * k);
        assert(456 * 144 + 456 * k == 456 * (c.ly as nat));
        lemma_wait(vly, t);
        lemma_run_add(s, 456 * (c.ly as nat), t);
    }
}

/// From any well-formed clock with the display on, 70224 clocks later the frame
/// counter has advanced by exactly one and the PPU is where it started.
pub proof fn lemma_any_frame(c: PpuClock)
    requires
        clock_wf(c),
    ensures
        run(c, 70224) == (PpuClock { frame: wrapping_inc32(c.frame), ..c }),
{
    let s = frame_start(c.frame);
    let off = frame_offset(c);
    lemma_reach(c);
    lemma_run_add(s, off, 70224);
    lemma_run_add(s, 70224, off);
    lemma_frame(s);
    let moved = PpuClock { frame: wrapping_inc32(c.frame), ..c };
    lemma_reach(moved);
    assert(frame_start(wrapping_inc32(c.frame)) == (PpuClock { frame: wrapping_inc32(s.frame), ..s }));
}

} // verus!
