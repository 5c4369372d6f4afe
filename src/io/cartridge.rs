pub mod mbc;

use vstd::prelude::*;
use self::mbc::{Mbc, mbc_type_of, ROM_BANK};

verus! {

/// Offset of the cartridge type code in the ROM header.
pub const TYPE_OFFSET: usize = 0x147;
/// Largest ROM image a controller can address.
pub const ROM_MAX: usize = 0x80_0000;

/// Why a ROM image cannot be used.
#[derive(Clone, Copy, Debug, PartialEq, Eq, Structural)]
pub enum CartridgeError {
    /// shorter than two banks
    TooSmall,
    /// longer than any controller can address
    TooLarge,
    /// the type code names no supported controller
    UnknownController(u8),
}

/// Whether a cartridge type code names a supported controller.
pub open spec fn known_type(id: u8) -> bool {
    id == 0x00 || id == 0x08 || id == 0x09 || (0x01 <= id <= 0x03) || (0x19 <= id <= 0x1e)
}

/// A loaded cartridge.
pub struct Cartridge {
    /// memory bank controller (mbc)
    pub controller: Mbc,
}

impl Cartridge {
    pub open spec fn wf(&self) -> bool {
        self.controller.wf()
    }

    /// Builds a cartridge from a ROM image, with its controller chosen by the header.
    pub fn from_rom(rom: Vec<u8>) -> (r: Result<Cartridge, CartridgeError>)
        ensures
            rom@.len() < 2 * ROM_BANK ==> r == Err::<Cartridge, CartridgeError>(
                CartridgeError::TooSmall,
            ),
            rom@.len() > ROM_MAX ==> r == Err::<Cartridge, CartridgeError>(CartridgeError::TooLarge),
            2 * ROM_BANK <= rom@.len() <= ROM_MAX && !known_type(rom@[TYPE_OFFSET as int]) ==> r
                == Err::<Cartridge, CartridgeError>(
                CartridgeError::UnknownController(rom@[TYPE_OFFSET as int]),
            ),
            2 * ROM_BANK <= rom@.len() <= ROM_MAX && known_type(rom@[TYPE_OFFSET as int]) ==> r
                is Ok && r->Ok_0.wf() && r->Ok_0.controller.rom@ == rom@
                && r->Ok_0.controller.mbc_type == mbc_type_of(rom@[TYPE_OFFSET as int])
                && r->Ok_0.controller.rom_bank == 1 && r->Ok_0.controller.bank_high == 0
                && r->Ok_0.controller.ram_bank == 0 && !r->Ok_0.controller.mode
                && !r->Ok_0.controller.ram_enable,
    {
        if rom.len() < 2 * ROM_BANK {
            return Err(CartridgeError::TooSmall);
        }
        if rom.len() > ROM_MAX {
            return Err(CartridgeError::TooLarge);
        }
        let id = rom[TYPE_OFFSET];
        let known = id == 0x00 || id == 0x08 || id == 0x09 || (0x01 <= id && id <= 0x03) || (0x19
            <= id && id <= 0x1e);
        if !known {
            return Err(CartridgeError::UnknownController(id));
        }
        Ok(Cartridge { controller: Mbc::new(rom, id) })
    }

    /// The external RAM, every bank in order, as a save file holds it.
    pub fn save_data(&self) -> (r: Vec<u8>)
        ensures
            r@ == self.controller.ram@,
    {
        self.controller.ram.clone()
    }

    /// Restores external RAM from a save file: as many bytes as both hold.
    pub fn load_save_data(&mut self, data: &Vec<u8>)
        requires
            old(self).wf(),
        ensures
            final(self).wf(),
            final(self).controller.same_banking(&old(self).controller),
            final(self).controller.ram@.len() == old(self).controller.ram@.len(),
            forall|i: int|
                0 <= i < final(self).controller.ram@.len() ==> #[trigger] final(self).controller.ram@[i]
                    == if i < data@.len() {
                    data@[i]
                } else {
                    old(self).controller.ram@[i]
                },
    {
        let n = self.controller.ram.len();
        let mut i: usize = 0;
        while i < n && i < data.len()
            invariant
                n == self.controller.ram@.len(),
                self.wf(),
                self.controller.same_banking(&old(self).controller),
                self.controller.ram@.len() == old(self).controller.ram@.len(),
                forall|j: int|
                    0 <= j < n ==> #[trigger] self.controller.ram@[j] == if j < i && j < data@.len() {
                        data@[j]
                    } else {
                        old(self).controller.ram@[j]
                    },
            decreases n - i,
        {
            self.controller.ram.set(i, data[i]);
            i = i + 1;
        }
    }
}

} // verus!
