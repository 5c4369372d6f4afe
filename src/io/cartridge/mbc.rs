use vstd::prelude::*;

verus! {

/// Size of one ROM bank.
pub const ROM_BANK: usize = 0x4000;
/// Size of one RAM bank.
pub const RAM_BANK: usize = 0x2000;
/// Number of RAM banks held.
pub const RAM_COUNT: usize = 16;

#[derive(Clone, Copy, Debug, PartialEq, Eq, Structural)]
pub enum MbcType {
    RomOnly,
    Mbc1,
    Mbc5,
}

/// The memory bank controller with the cartridge's ROM and RAM.
pub struct Mbc {
    /// cartridge read only memory
    pub rom: Vec<u8>,
    /// cartridge random access memory, all banks
    pub ram: Vec<u8>,
    /// ROM bank register: five bits on MBC1, nine on MBC5
    pub rom_bank: u16,
    /// MBC1 two-bit register: upper ROM bank bits, or RAM bank in mode 1
    pub bank_high: u8,
    /// MBC5 RAM bank register
    pub ram_bank: u8,
    /// MBC1 banking mode
    pub mode: bool,
    /// external RAM enabled
    pub ram_enable: bool,
    /// type of controller
    pub mbc_type: MbcType,
}

/// The controller that a cartridge type code selects.
pub open spec fn mbc_type_of(id: u8) -> MbcType {
    if id == 0 || id == 8 || id == 9 {
        MbcType::RomOnly
    } else if 1 <= id <= 3 {
        MbcType::Mbc1
    } else {
        MbcType::Mbc5
    }
}

impl Mbc {
    pub open spec fn wf(&self) -> bool {
        &&& self.rom@.len() >= 2 * ROM_BANK
        &&& self.rom@.len() <= 0x80_0000
        &&& self.ram@.len() == RAM_BANK * RAM_COUNT
        &&& self.rom_bank < 0x200
        &&& self.bank_high < 4
        &&& self.ram_bank < 16
        &&& self.mbc_type == MbcType::Mbc1 ==> self.rom_bank < 32
    }

    /// The bank seen at 0x4000-0x7fff.
    pub open spec fn high_bank(&self) -> int {
        match self.mbc_type {
            MbcType::RomOnly => 1,
            MbcType::Mbc1 => self.bank_high as int * 32 + if self.rom_bank == 0 {
                1
            } else {
                self.rom_bank as int
            },
            MbcType::Mbc5 => self.rom_bank as int,
        }
    }

    /// The bank seen at 0x0000-0x3fff.
    pub open spec fn low_bank(&self) -> int {
        if self.mbc_type == MbcType::Mbc1 && self.mode {
            self.bank_high as int * 32
        } else {
            0
        }
    }

    /// The RAM bank seen at 0xa000-0xbfff.
    pub open spec fn ram_bank_number(&self) -> int {
        match self.mbc_type {
            MbcType::RomOnly => 0,
            MbcType::Mbc1 => if self.mode {
                self.bank_high as int
            } else {
                0
            },
            MbcType::Mbc5 => self.ram_bank as int,
        }
    }

    /// Offset into the ROM image of a read at `address`, wrapping past its end.
    pub open spec fn rom_offset(&self, address: u16) -> int {
        let raw = if address < 0x4000 {
            self.low_bank() * ROM_BANK + address
        } else {
            self.high_bank() * ROM_BANK + (address - 0x4000)
        };
        raw % (self.rom@.len() as int)
    }

    pub open spec fn ram_offset(&self, address: u16) -> int {
        self.ram_bank_number() * RAM_BANK + address
    }

    /// Whether 0xa000-0xbfff reaches the RAM.
    pub open spec fn ram_accessible(&self) -> bool {
        self.mbc_type == MbcType::RomOnly || self.ram_enable
    }

    pub open spec fn spec_fetch_rom(&self, address: u16) -> u8 {
        self.rom@[self.rom_offset(address)]
    }

    pub open spec fn spec_fetch_ram(&self, address: u16) -> u8 {
        if self.ram_accessible() {
            self.ram@[self.ram_offset(address)]
        } else {
            0xff
        }
    }

    /// Everything but the RAM contents.
    pub open spec fn same_banking(&self, o: &Mbc) -> bool {
        &&& self.rom == o.rom
        &&& self.rom_bank == o.rom_bank
        &&& self.bank_high == o.bank_high
        &&& self.ram_bank == o.ram_bank
        &&& self.mode == o.mode
        &&& self.ram_enable == o.ram_enable
        &&& self.mbc_type == o.mbc_type
    }

    pub fn new(rom: Vec<u8>, id: u8) -> (r: Mbc)
        requires
            rom@.len() >= 2 * ROM_BANK,
            rom@.len() <= 0x80_0000,
            crate::io::cartridge::known_type(id),
        ensures
            r.wf(),
            r.rom@ == rom@,
            r.ram@ == Seq::new((RAM_BANK * RAM_COUNT) as nat, |i: int| 0u8),
            r.mbc_type == mbc_type_of(id),
            r.rom_bank == 1,
            r.bank_high == 0,
            r.ram_bank == 0,
            !r.mode,
            !r.ram_enable,
    {
        let mbc_type = if id == 0 || id == 8 || id == 9 {
            MbcType::RomOnly
        } else if 1 <= id && id <= 3 {
            MbcType::Mbc1
        } else {
            MbcType::Mbc5
        };
        let ram: Vec<u8> = vec![0u8; RAM_BANK * RAM_COUNT];
        assert(ram@ =~= Seq::new((RAM_BANK * RAM_COUNT) as nat, |i: int| 0u8));
        Mbc {
            rom,
            ram,
            rom_bank: 1,
            bank_high: 0,
            ram_bank: 0,
            mode: false,
            ram_enable: false,
            mbc_type,
        }
    }

    fn high_bank_exec(&self) -> (r: usize)
        requires
            self.wf(),
        ensures
            r == self.high_bank(),
            r < 0x200,
    {
        match self.mbc_type {
            MbcType::RomOnly => 1,
            MbcType::Mbc1 => {
                let low: usize = if self.rom_bank == 0 {
                    1
                } else {
                    self.rom_bank as usize
                };
                self.bank_high as usize * 32 + low
            },
            MbcType::Mbc5 => self.rom_bank as usize,
        }
    }

    pub fn fetch_rom_byte(&self, address: u16) -> (r: u8)
        requires
            self.wf(),
            address < 0x8000,
        ensures
            r == self.spec_fetch_rom(address),
    {
        let len = self.rom.len();
        let raw: usize = if address < 0x4000 {
            let low: usize = if self.mbc_type == MbcType::Mbc1 && self.mode {
                self.bank_high as usize * 32
            } else {
                0
            };
            low * ROM_BANK + address as usize
        } else {
            self.high_bank_exec() * ROM_BANK + (address as usize - 0x4000)
        };
        self.rom[raw % len]
    }

    /// A write into the ROM area: it sets the controller's registers.
    pub fn store_rom_byte(&mut self, address: u16, value: u8)
        requires
            old(self).wf(),
            address < 0x8000,
        ensures
            final(self).wf(),
            final(self).rom == old(self).rom,
            final(self).ram == old(self).ram,
            final(self).mbc_type == old(self).mbc_type,
            final(self).mbc_type == MbcType::RomOnly ==> final(self).same_banking(old(self)),
            final(self).mbc_type == MbcType::Mbc1 ==> {
                &&& final(self).ram_bank == old(self).ram_bank
                &&& final(self).ram_enable == if address < 0x2000 {
                    value & 0xf == 0xa
                } else {
                    old(self).ram_enable
                }
                &&& final(self).rom_bank == if 0x2000 <= address < 0x4000 {
                    (value & 0x1f) as u16
                } else {
                    old(self).rom_bank
                }
                &&& final(self).bank_high == if 0x4000 <= address < 0x6000 {
                    value & 3
                } else {
                    old(self).bank_high
                }
                &&& final(self).mode == if 0x6000 <= address {
                    value & 1 != 0
                } else {
                    old(self).mode
                }
            },
            final(self).mbc_type == MbcType::Mbc5 ==> {
                &&& final(self).bank_high == old(self).bank_high
                &&& final(self).mode == old(self).mode
                &&& final(self).ram_enable == if address < 0x2000 {
                    value & 0xf == 0xa
                } else {
                    old(self).ram_enable
                }
                &&& final(self).rom_bank == if 0x2000 <= address < 0x3000 {
                    (old(self).rom_bank & 0x100) | value as u16
                } else if 0x3000 <= address < 0x4000 {
                    (old(self).rom_bank & 0xff) | (((value & 1) as u16) << 8)
                } else {
                    old(self).rom_bank
                }
                &&& final(self).ram_bank == if 0x4000 <= address < 0x6000 {
                    value & 0xf
                } else {
                    old(self).ram_bank
                }
            },
    {
        match self.mbc_type {
            MbcType::RomOnly => {},
            MbcType::Mbc1 => {
                if address < 0x2000 {
                    self.ram_enable = value & 0xf == 0xa;
                } else if address < 0x4000 {
                    self.rom_bank = (value & 0x1f) as u16;
                    assert(value & 0x1f < 32) by (bit_vector);
                } else if address < 0x6000 {
                    self.bank_high = value & 3;
                    assert(value & 3 < 4) by (bit_vector);
                } else {
                    self.mode = value & 1 != 0;
                }
            },
            MbcType::Mbc5 => {
                if address < 0x2000 {
                    self.ram_enable = value & 0xf == 0xa;
                } else if address < 0x3000 {
                    let old_bank = self.rom_bank;
                    self.rom_bank = (self.rom_bank & 0x100) | value as u16;
                    assert(((old_bank & 0x100) | (value as u16)) < 0x200) by (bit_vector);
                } else if address < 0x4000 {
                    let old_bank = self.rom_bank;
                    self.rom_bank = (self.rom_bank & 0xff) | (((value & 1) as u16) << 8);
                    assert(((old_bank & 0xff) | (((value & 1) as u16) << 8)) < 0x200) by (bit_vector);
                } else if address < 0x6000 {
                    self.ram_bank = value & 0xf;
                    assert(value & 0xf < 16) by (bit_vector);
                }
            },
        }
    }

    pub fn fetch_ram_byte(&self, address: u16) -> (r: u8)
        requires
            self.wf(),
            address < 0x2000,
        ensures
            r == self.spec_fetch_ram(address),
    {
        if !self.ram_accessible_exec() {
            return 0xff;
        }
        self.ram[self.ram_bank_exec() * RAM_BANK + address as usize]
    }

    pub fn store_ram_byte(&mut self, address: u16, value: u8)
        requires
            old(self).wf(),
            address < 0x2000,
        ensures
            final(self).wf(),
            final(self).same_banking(old(self)),
            old(self).ram_accessible() ==> final(self).ram@ == old(self).ram@.update(
                old(self).ram_offset(address),
                value,
            ),
            !old(self).ram_accessible() ==> final(self).ram == old(self).ram,
    {
        if !self.ram_accessible_exec() {
            return;
        }
        let index = self.ram_bank_exec() * RAM_BANK + address as usize;
        self.ram.set(index, value);
    }

    fn ram_accessible_exec(&self) -> (r: bool)
        ensures
            r == self.ram_accessible(),
    {
        self.mbc_type == MbcType::RomOnly || self.ram_enable
    }

    fn ram_bank_exec(&self) -> (r: usize)
        requires
            self.wf(),
        ensures
            r == self.ram_bank_number(),
            r < RAM_COUNT,
    {
        match self.mbc_type {
            MbcType::RomOnly => 0,
            MbcType::Mbc1 => if self.mode {
                self.bank_high as usize
            } else {
                0
            },
            MbcType::Mbc5 => self.ram_bank as usize,
        }
    }
}

} // verus!
