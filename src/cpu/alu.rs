use vstd::prelude::*;
use super::interrupt::{bit, flag_bit};

verus! {

/// The four flags packed in the high nibble of F.
#[derive(Clone, Copy, Default, Debug, PartialEq, Eq, Structural)]
pub struct Flags {
    pub z: bool,
    pub n: bool,
    pub h: bool,
    pub c: bool,
}

impl Flags {
    pub open spec fn spec_from_u8(value: u8) -> Flags {
        Flags { z: bit(value, 0x80), n: bit(value, 0x40), h: bit(value, 0x20), c: bit(value, 0x10) }
    }

    pub open spec fn spec_to_u8(self) -> u8 {
        flag_bit(self.z, 0x80) | flag_bit(self.n, 0x40) | flag_bit(self.h, 0x20) | flag_bit(self.c, 0x10)
    }

    pub fn from_u8(value: u8) -> (r: Flags)
        ensures
            r == Flags::spec_from_u8(value),
    {
        Flags {
            z: value & 0x80 != 0,
            n: value & 0x40 != 0,
            h: value & 0x20 != 0,
            c: value & 0x10 != 0,
        }
    }

    pub fn to_u8(self) -> (r: u8)
        ensures
            r == self.spec_to_u8(),
    {
        let z: u8 = if self.z { 0x80 } else { 0 };
        let n: u8 = if self.n { 0x40 } else { 0 };
        let h: u8 = if self.h { 0x20 } else { 0 };
        let c: u8 = if self.c { 0x10 } else { 0 };
        z | n | h | c
    }
}

/// Flags written into F and read back are unchanged.
pub proof fn lemma_flags_round_trip(f: Flags)
    ensures
        Flags::spec_from_u8(f.spec_to_u8()) == f,
{
    let x = f.spec_to_u8();
    let (z, n, h, c) = (f.z, f.n, f.h, f.c);
    assert(bit(x, 0x80) == z && bit(x, 0x40) == n && bit(x, 0x20) == h && bit(x, 0x10) == c)
        by (bit_vector)
        requires
            x == (if z { 0x80u8 } else { 0u8 }) | (if n { 0x40u8 } else { 0u8 }) | (if h { 0x20u8 } else { 0u8 })
                | (if c { 0x10u8 } else { 0u8 }),
    ;
}

/// F read as flags and written back keeps its high nibble.
pub proof fn lemma_flags_byte_round_trip(value: u8)
    ensures
        Flags::spec_from_u8(value).spec_to_u8() == value & 0xf0,
{
    assert(((if value & 0x80 != 0 { 0x80u8 } else { 0u8 }) | (if value & 0x40 != 0 { 0x40u8 } else { 0u8 })
        | (if value & 0x20 != 0 { 0x20u8 } else { 0u8 }) | (if value & 0x10 != 0 { 0x10u8 } else { 0u8 }))
        == value & 0xf0) by (bit_vector);
}

pub open spec fn carry_in(c: bool) -> int {
    if c { 1 } else { 0 }
}

/// `a + v + carry`: the low byte, Z, N clear, H from bit 3, C from bit 7.
pub open spec fn add8(a: u8, v: u8, carry: bool) -> (u8, Flags) {
    let wide = a + v + carry_in(carry);
    let r = (wide % 256) as u8;
    (r, Flags { z: r == 0, n: false, h: (a % 16) + (v % 16) + carry_in(carry) > 15, c: wide > 255 })
}

/// `a - v - carry`: the low byte, Z, N set, H on a borrow from bit 4, C on a borrow.
pub open spec fn sub8(a: u8, v: u8, carry: bool) -> (u8, Flags) {
    let wide = a - v - carry_in(carry);
    let r = (if wide < 0 { wide + 256 } else { wide }) as u8;
    (r, Flags { z: r == 0, n: true, h: (a % 16) - (v % 16) - carry_in(carry) < 0, c: wide < 0 })
}

pub open spec fn and8(a: u8, v: u8) -> (u8, Flags) {
    let r = a & v;
    (r, Flags { z: r == 0, n: false, h: true, c: false })
}

pub open spec fn xor8(a: u8, v: u8) -> (u8, Flags) {
    let r = a ^ v;
    (r, Flags { z: r == 0, n: false, h: false, c: false })
}

pub open spec fn or8(a: u8, v: u8) -> (u8, Flags) {
    let r = a | v;
    (r, Flags { z: r == 0, n: false, h: false, c: false })
}

/// The eight-bit operations of the ALU group, by their three-bit code:
/// ADD, ADC, SUB, SBC, AND, XOR, OR, CP (which keeps A).
pub open spec fn alu8(op: u8, a: u8, v: u8, f: Flags) -> (u8, Flags) {
    if op == 0 {
        add8(a, v, false)
    } else if op == 1 {
        add8(a, v, f.c)
    } else if op == 2 {
        sub8(a, v, false)
    } else if op == 3 {
        sub8(a, v, f.c)
    } else if op == 4 {
        and8(a, v)
    } else if op == 5 {
        xor8(a, v)
    } else if op == 6 {
        or8(a, v)
    } else {
        (a, sub8(a, v, false).1)
    }
}

pub fn alu8_exec(op: u8, a: u8, v: u8, f: Flags) -> (r: (u8, Flags))
    requires
        op < 8,
    ensures
        r == alu8(op, a, v, f),
{
    let carry: u16 = if f.c && (op == 1 || op == 3) { 1 } else { 0 };
    if op == 0 || op == 1 {
        let wide: u16 = a as u16 + v as u16 + carry;
        let r = (wide % 256) as u8;
        (r, Flags { z: r == 0, n: false, h: (a % 16) as u16 + (v % 16) as u16 + carry > 15, c: wide > 255 })
    } else if op == 2 || op == 3 || op == 7 {
        let sub: u16 = v as u16 + carry;
        let r: u8 = if (a as u16) < sub {
            (a as u16 + 256 - sub) as u8
        } else {
            (a as u16 - sub) as u8
        };
        let flags = Flags {
            z: r == 0,
            n: true,
            h: ((a % 16) as u16) < (v % 16) as u16 + carry,
            c: (a as u16) < sub,
        };
        if op == 7 {
            (a, flags)
        } else {
            (r, flags)
        }
    } else if op == 4 {
        let r = a & v;
        (r, Flags { z: r == 0, n: false, h: true, c: false })
    } else if op == 5 {
        let r = a ^ v;
        (r, Flags { z: r == 0, n: false, h: false, c: false })
    } else {
        let r = a | v;
        (r, Flags { z: r == 0, n: false, h: false, c: false })
    }
}

/// INC r8: Z, N clear, H when the low nibble was 0xf; C kept.
pub open spec fn inc8(v: u8, f: Flags) -> (u8, Flags) {
    let r = if v == 255 { 0u8 } else { (v + 1) as u8 };
    (r, Flags { z: r == 0, n: false, h: v % 16 == 15, c: f.c })
}

/// DEC r8: Z, N set, H when the low nibble was 0; C kept.
pub open spec fn dec8(v: u8, f: Flags) -> (u8, Flags) {
    let r = if v == 0 { 255u8 } else { (v - 1) as u8 };
    (r, Flags { z: r == 0, n: true, h: v % 16 == 0, c: f.c })
}

pub fn inc8_exec(v: u8, f: Flags) -> (r: (u8, Flags))
    ensures
        r == inc8(v, f),
{
    let r: u8 = if v == 255 { 0 } else { v + 1 };
    (r, Flags { z: r == 0, n: false, h: v % 16 == 15, c: f.c })
}

pub fn dec8_exec(v: u8, f: Flags) -> (r: (u8, Flags))
    ensures
        r == dec8(v, f),
{
    let r: u8 = if v == 0 { 255 } else { v - 1 };
    (r, Flags { z: r == 0, n: true, h: v % 16 == 0, c: f.c })
}

/// ADD HL, r16: N clear, H from bit 11, C from bit 15; Z kept.
pub open spec fn add16(hl: u16, v: u16, f: Flags) -> (u16, Flags) {
    let wide = hl + v;
    ((wide % 65536) as u16, Flags { z: f.z, n: false, h: (hl % 4096) + (v % 4096) > 4095, c: wide > 65535 })
}

pub fn add16_exec(hl: u16, v: u16, f: Flags) -> (r: (u16, Flags))
    ensures
        r == add16(hl, v, f),
{
    let wide: u32 = hl as u32 + v as u32;
    ((wide % 65536) as u16, Flags { z: f.z, n: false, h: (hl % 4096) + (v % 4096) > 4095, c: wide > 65535 })
}

/// SP plus a signed byte, as ADD SP,e8 and LD HL,SP+e8 compute it: Z and N clear,
/// H and C from the unsigned addition of the low byte of SP and the offset byte.
pub open spec fn add_sp(sp: u16, e: u8) -> (u16, Flags) {
    let offset: int = if e < 128 { e as int } else { e - 256 };
    let wide = sp + offset;
    let r = (if wide < 0 { wide + 65536 } else if wide > 65535 { wide - 65536 } else { wide }) as u16;
    (r, Flags { z: false, n: false, h: (sp % 16) + (e % 16) > 15, c: (sp % 256) + e > 255 })
}

pub fn add_sp_exec(sp: u16, e: u8) -> (r: (u16, Flags))
    ensures
        r == add_sp(sp, e),
{
    let flags = Flags { z: false, n: false, h: (sp % 16) + (e % 16) as u16 > 15, c: (sp % 256) + e as u16 > 255 };
    let r: u16 = if e < 128 {
        if sp as u32 + e as u32 > 65535 {
            (sp as u32 + e as u32 - 65536) as u16
        } else {
            sp + e as u16
        }
    } else {
        let back: u16 = 256 - e as u16;
        if sp < back {
            (sp as u32 + 65536 - back as u32) as u16
        } else {
            sp - back
        }
    };
    (r, flags)
}

/// DAA: corrects A after a BCD addition or subtraction. After an addition 0x06 is
/// added when H is set or the low nibble is above 9, and 0x60 when C is set or A is
/// above 0x99, which sets C; after a subtraction the offsets H and C call for are
/// taken away. Z follows the result, H is cleared.
pub open spec fn daa(a: u8, f: Flags) -> (u8, Flags) {
    let low_fix = f.h || (!f.n && a % 16 > 9);
    let high_fix = f.c || (!f.n && a > 0x99);
    let adjust: int = (if low_fix { 0x06int } else { 0 }) + (if high_fix { 0x60int } else { 0 });
    let wide = if f.n { a - adjust } else { a + adjust };
    let r = (if wide < 0 { wide + 256 } else if wide > 255 { wide - 256 } else { wide }) as u8;
    (r, Flags { z: r == 0, n: f.n, h: false, c: high_fix })
}

pub fn daa_exec(a: u8, f: Flags) -> (r: (u8, Flags))
    ensures
        r == daa(a, f),
{
    let low_fix = f.h || (!f.n && a % 16 > 9);
    let high_fix = f.c || (!f.n && a > 0x99);
    let adjust: u16 = (if low_fix { 0x06 } else { 0 }) + (if high_fix { 0x60 } else { 0 });
    let r: u8 = if f.n {
        if (a as u16) < adjust {
            (a as u16 + 256 - adjust) as u8
        } else {
            (a as u16 - adjust) as u8
        }
    } else {
        if a as u16 + adjust > 255 {
            (a as u16 + adjust - 256) as u8
        } else {
            (a as u16 + adjust) as u8
        }
    };
    (r, Flags { z: r == 0, n: f.n, h: false, c: high_fix })
}

/// The shifts and rotations of the CB table, by their three-bit code: RLC, RRC, RL,
/// RR, SLA, SRA, SWAP, SRL. Z follows the result, N and H are cleared, C takes the
/// bit shifted out (cleared by SWAP).
pub open spec fn shift8(op: u8, v: u8, f: Flags) -> (u8, Flags) {
    let v = v as int;
    let top = v / 128 == 1;
    let bottom = v % 2 == 1;
    let cin: int = if f.c { 1 } else { 0 };
    let (r, c): (int, bool) = if op == 0 {
        ((v * 2) % 256 + v / 128, top)
    } else if op == 1 {
        (v / 2 + (v % 2) * 128, bottom)
    } else if op == 2 {
        ((v * 2) % 256 + cin, top)
    } else if op == 3 {
        (v / 2 + cin * 128, bottom)
    } else if op == 4 {
        ((v * 2) % 256, top)
    } else if op == 5 {
        (v / 2 + (v / 128) * 128, bottom)
    } else if op == 6 {
        ((v % 16) * 16 + v / 16, false)
    } else {
        (v / 2, bottom)
    };
    (r as u8, Flags { z: r == 0, n: false, h: false, c: c })
}

pub fn shift8_exec(op: u8, v: u8, f: Flags) -> (r: (u8, Flags))
    requires
        op < 8,
    ensures
        r == shift8(op, v, f),
{
    let top = v / 128 == 1;
    let bottom = v % 2 == 1;
    let cin: u8 = if f.c { 1 } else { 0 };
    let (r, c): (u8, bool) = if op == 0 {
        ((v % 128) * 2 + v / 128, top)
    } else if op == 1 {
        (v / 2 + (v % 2) * 128, bottom)
    } else if op == 2 {
        ((v % 128) * 2 + cin, top)
    } else if op == 3 {
        (v / 2 + cin * 128, bottom)
    } else if op == 4 {
        ((v % 128) * 2, top)
    } else if op == 5 {
        (v / 2 + (v / 128) * 128, bottom)
    } else if op == 6 {
        ((v % 16) * 16 + v / 16, false)
    } else {
        (v / 2, bottom)
    };
    (r, Flags { z: r == 0, n: false, h: false, c: c })
}

/// The half-carry of an eight-bit addition is bit 4 of `a ^ b ^ (a + b)`.
pub proof fn lemma_add_half_carry(a: u8, b: u8)
    ensures
        add8(a, b, false).1.h == (((a as u16 ^ b as u16 ^ (a as u16 + b as u16) as u16) & 0x10) != 0),
{
    let (x, y) = (a as u16, b as u16);
    assert(((x % 16) + (y % 16) > 15) == (((x ^ y ^ (x + y) as u16) & 0x10) != 0)) by (bit_vector)
        requires
            x < 256,
            y < 256,
    ;
}

} // verus!
