use vstd::prelude::*;
use crate::cpu::interrupt::{bit, flag_bit};

verus! {

/// The LCD control register, one field per bit.
#[derive(Clone, Copy, Debug, PartialEq, Eq, Structural)]
pub struct Lcdc {
    /// bit 7
    pub lcd_enable: bool,
    /// bit 6: window tile map at 0x9c00
    pub win_map: bool,
    /// bit 5
    pub win_enable: bool,
    /// bit 4: tile data at 0x8000, unsigned ids
    pub bg_win_map: bool,
    /// bit 3: background tile map at 0x9c00
    pub bg_map: bool,
    /// bit 2: 8x16 sprites
    pub obj_size: bool,
    /// bit 1
    pub obj_enable: bool,
    /// bit 0
    pub bg_win_enable: bool,
}

impl Lcdc {
    pub open spec fn spec_from_u8(value: u8) -> Lcdc {
        Lcdc {
            lcd_enable: bit(value, 0x80),
            win_map: bit(value, 0x40),
            win_enable: bit(value, 0x20),
            bg_win_map: bit(value, 0x10),
            bg_map: bit(value, 0x08),
            obj_size: bit(value, 0x04),
            obj_enable: bit(value, 0x02),
            bg_win_enable: bit(value, 0x01),
        }
    }

    pub open spec fn spec_to_u8(self) -> u8 {
        flag_bit(self.lcd_enable, 0x80) | flag_bit(self.win_map, 0x40) | flag_bit(self.win_enable, 0x20)
            | flag_bit(self.bg_win_map, 0x10) | flag_bit(self.bg_map, 0x08) | flag_bit(
            self.obj_size,
            0x04,
        ) | flag_bit(self.obj_enable, 0x02) | flag_bit(self.bg_win_enable, 0x01)
    }

    /// The value at power-on: display enabled, every other bit clear.
    pub fn default() -> (r: Lcdc)
        ensures
            r == Lcdc::spec_from_u8(0x80),
    {
        assert(bit(0x80, 0x80) && !bit(0x80, 0x40) && !bit(0x80, 0x20) && !bit(0x80, 0x10)
            && !bit(0x80, 0x08) && !bit(0x80, 0x04) && !bit(0x80, 0x02) && !bit(0x80, 0x01))
            by (bit_vector);
        Lcdc {
            lcd_enable: true,
            win_map: false,
            win_enable: false,
            bg_win_map: false,
            bg_map: false,
            obj_size: false,
            obj_enable: false,
            bg_win_enable: false,
        }
    }

    pub fn from_u8(value: u8) -> (r: Lcdc)
        ensures
            r == Lcdc::spec_from_u8(value),
    {
        Lcdc {
            lcd_enable: value & 0x80 != 0,
            win_map: value & 0x40 != 0,
            win_enable: value & 0x20 != 0,
            bg_win_map: value & 0x10 != 0,
            bg_map: value & 0x08 != 0,
            obj_size: value & 0x04 != 0,
            obj_enable: value & 0x02 != 0,
            bg_win_enable: value & 0x01 != 0,
        }
    }

    pub fn to_u8(self) -> (r: u8)
        ensures
            r == self.spec_to_u8(),
    {
        let b7: u8 = if self.lcd_enable { 0x80 } else { 0 };
        let b6: u8 = if self.win_map { 0x40 } else { 0 };
        let b5: u8 = if self.win_enable { 0x20 } else { 0 };
        let b4: u8 = if self.bg_win_map { 0x10 } else { 0 };
        let b3: u8 = if self.bg_map { 0x08 } else { 0 };
        let b2: u8 = if self.obj_size { 0x04 } else { 0 };
        let b1: u8 = if self.obj_enable { 0x02 } else { 0 };
        let b0: u8 = if self.bg_win_enable { 0x01 } else { 0 };
        b7 | b6 | b5 | b4 | b3 | b2 | b1 | b0
    }
}

/// LCDC taken to its byte and back is unchanged.
pub proof fn lemma_lcdc_round_trip(l: Lcdc)
    ensures
        Lcdc::spec_from_u8(l.spec_to_u8()) == l,
{
    let x = l.spec_to_u8();
    let (a, b, c, d, e, f, g, h) = (l.lcd_enable, l.win_map, l.win_enable, l.bg_win_map, l.bg_map,
    l.obj_size, l.obj_enable, l.bg_win_enable);
    assert(bit(x, 0x80) == a && bit(x, 0x40) == b && bit(x, 0x20) == c && bit(x, 0x10) == d
        && bit(x, 0x08) == e && bit(x, 0x04) == f && bit(x, 0x02) == g && bit(x, 0x01) == h)
        by (bit_vector)
        requires
            x == (if a { 0x80u8 } else { 0u8 }) | (if b { 0x40u8 } else { 0u8 }) | (if c { 0x20u8 } else { 0u8 })
                | (if d { 0x10u8 } else { 0u8 }) | (if e { 0x08u8 } else { 0u8 }) | (if f { 0x04u8 } else { 0u8 })
                | (if g { 0x02u8 } else { 0u8 }) | (if h { 0x01u8 } else { 0u8 }),
    ;
}

/// Every byte read as LCDC and written back is unchanged.
pub proof fn lemma_lcdc_byte_round_trip(value: u8)
    ensures
        Lcdc::spec_from_u8(value).spec_to_u8() == value,
{
    assert(((if value & 0x80 != 0 { 0x80u8 } else { 0u8 }) | (if value & 0x40 != 0 { 0x40u8 } else { 0u8 })
        | (if value & 0x20 != 0 { 0x20u8 } else { 0u8 }) | (if value & 0x10 != 0 { 0x10u8 } else { 0u8 })
        | (if value & 0x08 != 0 { 0x08u8 } else { 0u8 }) | (if value & 0x04 != 0 { 0x04u8 } else { 0u8 })
        | (if value & 0x02 != 0 { 0x02u8 } else { 0u8 }) | (if value & 0x01 != 0 { 0x01u8 } else { 0u8 }))
        == value) by (bit_vector);
}

} // verus!
