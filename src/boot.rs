use vstd::prelude::*;

verus! {

/// Size of the boot program mapped over the start of the cartridge.
pub const BOOTROM_SIZE: u16 = 0x100;

/// The boot program: it sets the stack, turns the display on with a plain palette,
/// runs through to its last bytes, and there writes 1 to 0xff50, which unmaps it
/// just as execution reaches 0x0100.
///
///     0x00  ld sp, 0xfffe
///     0x03  ld a, 0x91 ; ldh (0x40), a
///     0x07  ld a, 0xfc ; ldh (0x47), a
///     0x0b  nop ...
///     0xfc  ld a, 0x01 ; ldh (0x50), a
pub open spec fn boot_rom(address: u16) -> u8 {
    if address == 0x00 {
        0x31
    } else if address == 0x01 {
        0xfe
    } else if address == 0x02 {
        0xff
    } else if address == 0x03 {
        0x3e
    } else if address == 0x04 {
        0x91
    } else if address == 0x05 {
        0xe0
    } else if address == 0x06 {
        0x40
    } else if address == 0x07 {
        0x3e
    } else if address == 0x08 {
        0xfc
    } else if address == 0x09 {
        0xe0
    } else if address == 0x0a {
        0x47
    } else if address == 0xfc {
        0x3e
    } else if address == 0xfd {
        0x01
    } else if address == 0xfe {
        0xe0
    } else if address == 0xff {
        0x50
    } else {
        0x00
    }
}

pub fn boot_byte(address: u16) -> (r: u8)
    ensures
        r == boot_rom(address),
{
    if address == 0x00 {
        0x31
    } else if address == 0x01 {
        0xfe
    } else if address == 0x02 {
        0xff
    } else if address == 0x03 {
        0x3e
    } else if address == 0x04 {
        0x91
    } else if address == 0x05 {
        0xe0
    } else if address == 0x06 {
        0x40
    } else if address == 0x07 {
        0x3e
    } else if address == 0x08 {
        0xfc
    } else if address == 0x09 {
        0xe0
    } else if address == 0x0a {
        0x47
    } else if address == 0xfc {
        0x3e
    } else if address == 0xfd {
        0x01
    } else if address == 0xfe {
        0xe0
    } else if address == 0xff {
        0x50
    } else {
        0x00
    }
}

} // verus!
