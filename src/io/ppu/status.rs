use vstd::prelude::*;
use crate::cpu::interrupt::{bit, flag_bit};

verus! {

/// The STAT register: interrupt sources, coincidence flag and current mode.
#[derive(Clone, Copy, Default, Debug, PartialEq, Eq, Structural)]
pub struct PpuStatus {
    /// bit 6: interrupt on LY == LYC
    pub lyc_check: bool,
    /// bit 5: interrupt on entering OAM search
    pub m2_oam_interrupt: bool,
    /// bit 4: interrupt on entering vertical blank
    pub m1_vblank_interrupt: bool,
    /// bit 3: interrupt on entering horizontal blank
    pub m0_hblank_interrupt: bool,
    /// bit 2: LY == LYC
    pub coincidence_flag: bool,
    /// bits 1-0: current mode
    pub mode_flag: u8,
}

impl PpuStatus {
    /// A status value whose mode fits in its two bits.
    pub open spec fn wf(self) -> bool {
        self.mode_flag < 4
    }

    pub open spec fn spec_from_u8(value: u8) -> PpuStatus {
        PpuStatus {
            lyc_check: bit(value, 0x40),
            m2_oam_interrupt: bit(value, 0x20),
            m1_vblank_interrupt: bit(value, 0x10),
            m0_hblank_interrupt: bit(value, 0x08),
            coincidence_flag: bit(value, 0x04),
            mode_flag: value & 3,
        }
    }

    pub open spec fn spec_to_u8(self) -> u8 {
        flag_bit(self.lyc_check, 0x40) | flag_bit(self.m2_oam_interrupt, 0x20) | flag_bit(
            self.m1_vblank_interrupt,
            0x10,
        ) | flag_bit(self.m0_hblank_interrupt, 0x08) | flag_bit(self.coincidence_flag, 0x04)
            | self.mode_flag
    }

    pub fn from_u8(value: u8) -> (r: PpuStatus)
        ensures
            r == PpuStatus::spec_from_u8(value),
            r.wf(),
    {
        assert(value & 3 < 4) by (bit_vector);
        PpuStatus {
            lyc_check: value & 0x40 != 0,
            m2_oam_interrupt: value & 0x20 != 0,
            m1_vblank_interrupt: value & 0x10 != 0,
            m0_hblank_interrupt: value & 0x08 != 0,
            coincidence_flag: value & 0x04 != 0,
            mode_flag: value & 3,
        }
    }

    pub fn to_u8(self) -> (r: u8)
        ensures
            r == self.spec_to_u8(),
    {
        let b6: u8 = if self.lyc_check { 0x40 } else { 0 };
        let b5: u8 = if self.m2_oam_interrupt { 0x20 } else { 0 };
        let b4: u8 = if self.m1_vblank_interrupt { 0x10 } else { 0 };
        let b3: u8 = if self.m0_hblank_interrupt { 0x08 } else { 0 };
        let b2: u8 = if self.coincidence_flag { 0x04 } else { 0 };
        b6 | b5 | b4 | b3 | b2 | self.mode_flag
    }
}

/// A well-formed STAT value taken to its byte and back is unchanged.
pub proof fn lemma_stat_round_trip(s: PpuStatus)
    requires
        s.wf(),
    ensures
        PpuStatus::spec_from_u8(s.spec_to_u8()) == s,
{
    let x = s.spec_to_u8();
    let m = s.mode_flag;
    let (a, b, c, d, e) = (s.lyc_check, s.m2_oam_interrupt, s.m1_vblank_interrupt,
    s.m0_hblank_interrupt, s.coincidence_flag);
    assert(bit(x, 0x40) == a && bit(x, 0x20) == b && bit(x, 0x10) == c && bit(x, 0x08) == d
        && bit(x, 0x04) == e && x & 3 == m) by (bit_vector)
        requires
            m < 4,
            x == (if a { 0x40u8 } else { 0u8 }) | (if b { 0x20u8 } else { 0u8 }) | (if c { 0x10u8 } else { 0u8 })
                | (if d { 0x08u8 } else { 0u8 }) | (if e { 0x04u8 } else { 0u8 }) | m,
    ;
}

/// A byte read as STAT and written back keeps its low seven bits.
pub proof fn lemma_stat_byte_round_trip(value: u8)
    ensures
        PpuStatus::spec_from_u8(value).spec_to_u8() == value & 0x7f,
{
    assert(((if value & 0x40 != 0 { 0x40u8 } else { 0u8 }) | (if value & 0x20 != 0 { 0x20u8 } else { 0u8 })
        | (if value & 0x10 != 0 { 0x10u8 } else { 0u8 }) | (if value & 0x08 != 0 { 0x08u8 } else { 0u8 })
        | (if value & 0x04 != 0 { 0x04u8 } else { 0u8 }) | (value & 3)) == value & 0x7f) by (bit_vector);
}

} // verus!
