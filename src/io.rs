pub mod apu;
pub mod cartridge;
pub mod io_regs;
pub mod joypad;
pub mod ppu;
pub mod timer;

use vstd::prelude::*;
use crate::boot::{boot_byte, boot_rom, BOOTROM_SIZE};
use crate::cpu::interrupt::Interrupt;
use self::apu::Apu;
use self::cartridge::Cartridge;
use self::joypad::Joypad;
use self::ppu::Ppu;
use self::ppu::render::OAM_SIZE;
use self::timer::Timer;
use self::io_regs::io_writable;
use crate::cpu::interrupt::lemma_interrupt_byte_round_trip;

verus! {

/// Size of work RAM.
pub const WRAM_SIZE: usize = 0x2000;
/// Size of high RAM.
pub const HRAM_SIZE: usize = 0x7f;

/// Plain memory: video RAM, work RAM and its echo, high RAM.
pub open spec fn memory(a: u16) -> bool {
    (0x8000 <= a < 0xa000) || (0xc000 <= a < 0xfe00) || (0xff80 <= a <= 0xfffe)
}

/// Work RAM or its echo.
pub open spec fn wram_region(a: u16) -> bool {
    0xc000 <= a < 0xfe00
}

pub open spec fn wram_index(a: u16) -> int {
    if a < 0xe000 { a - 0xc000 } else { a - 0xe000 }
}

/// Two addresses that reach the same byte.
pub open spec fn same_cell(a: u16, b: u16) -> bool {
    a == b || (wram_region(a) && wram_region(b) && wram_index(a) == wram_index(b))
}

/// Addresses whose contents a clock of the peripherals never changes: everything
/// below OAM, high RAM, and IE.
pub open spec fn stable(a: u16) -> bool {
    a < 0xfe00 || 0xff80 <= a
}

/// Addresses that nothing answers: they read 0xff and ignore writes.
pub open spec fn unmapped(a: u16) -> bool {
    ||| 0xfea0 <= a < 0xff00
    ||| 0xff01 <= a <= 0xff03
    ||| 0xff08 <= a <= 0xff0e
    ||| a == 0xff15 || a == 0xff1f
    ||| 0xff27 <= a <= 0xff2f
    ||| 0xff4c <= a < 0xff80
}

/// The memory bus: it owns every peripheral and decodes the address space.
pub struct Bus {
    pub cart: Cartridge,
    pub wram: Vec<u8>,
    pub hram: Vec<u8>,
    /// last value written to the DMA register
    pub dma_reg: u8,
    /// next source address of a running OAM transfer
    pub dma_src: u16,
    /// next OAM index of a running transfer; OAM_SIZE when none runs
    pub dma_idx: u16,
    /// clocks since the transfer last copied a byte: one byte per machine cycle
    pub dma_delay: u8,
    /// interrupt enable (IE)
    pub it_enable: Interrupt,
    /// pending serial interrupt
    pub serial_int: bool,
    pub apu: Apu,
    pub ppu: Ppu,
    pub joypad: Joypad,
    pub timer: Timer,
    /// the boot program is mapped over the cartridge
    pub boot: bool,
}

impl Bus {
    pub open spec fn wf(&self) -> bool {
        &&& self.cart.wf()
        &&& self.wram@.len() == WRAM_SIZE
        &&& self.hram@.len() == HRAM_SIZE
        &&& self.apu.wf()
        &&& self.ppu.wf()
        &&& self.dma_idx <= OAM_SIZE
        &&& self.dma_delay < 4
        &&& self.dma_src == (self.dma_reg as int) * 256 + self.dma_idx
    }

    /// The pending interrupt lines, as IF reads.
    pub open spec fn pending(&self) -> Interrupt {
        Interrupt {
            vblank: self.ppu.vblank_int,
            lcdc: self.ppu.lcd_stat_int,
            timer: self.timer.interrupt,
            serial: self.serial_int,
            joypad: self.joypad.interrupt,
        }
    }

    /// The byte a read of `a` returns.
    pub open spec fn read_spec(&self, a: u16) -> u8 {
        if a < 0x8000 {
            if self.boot && a < BOOTROM_SIZE {
                boot_rom(a)
            } else {
                self.cart.controller.spec_fetch_rom(a)
            }
        } else if a < 0xa000 {
            self.ppu.vram@[a - 0x8000]
        } else if a < 0xc000 {
            self.cart.controller.spec_fetch_ram((a - 0xa000) as u16)
        } else if a < 0xfe00 {
            self.wram@[wram_index(a)]
        } else if a < 0xfea0 {
            self.ppu.oam@[a - 0xfe00]
        } else if a < 0xff00 {
            0xff
        } else if a < 0xff80 {
            self.io_read(a)
        } else if a < 0xffff {
            self.hram@[a - 0xff80]
        } else {
            self.it_enable.spec_to_u8()
        }
    }

    /// Addresses that read back exactly the byte last written: plain memory, OAM,
    /// enabled cartridge RAM, and the plain I/O registers.
    pub open spec fn writable(&self, a: u16) -> bool {
        ||| memory(a)
        ||| 0xfe00 <= a < 0xfea0
        ||| (0xa000 <= a < 0xc000 && self.cart.controller.ram_accessible())
        ||| io_writable(a)
    }

    pub fn new(cart: Cartridge) -> (r: Bus)
        requires
            cart.wf(),
        ensures
            r.wf(),
            r.boot,
            r.dma_idx == OAM_SIZE,
            r.cart == cart,
            r.it_enable == Interrupt::spec_from_u8(0),
            r.pending() == Interrupt::spec_from_u8(0),
            forall|i: int| 0 <= i < WRAM_SIZE ==> #[trigger] r.wram@[i] == 0,
            forall|i: int| 0 <= i < HRAM_SIZE ==> #[trigger] r.hram@[i] == 0,
            r.ppu.stage == ppu::PpuStage::OamSearch && r.ppu.ly == 0 && r.ppu.ticks == 0,
            r.ppu.frame == 0,
            r.ppu.lcdc == ppu::Lcdc::spec_from_u8(0x80),
            !r.apu.enable,
            r.timer.counter_16k == 0 && !r.timer.enable,
            !r.joypad.directions && !r.joypad.actions,
    {
        let joypad = Joypad {
            directions: false,
            actions: false,
            right: false,
            left: false,
            up: false,
            down: false,
            a: false,
            b: false,
            select: false,
            start: false,
            interrupt: false,
        };
        let r = Bus {
            cart,
            wram: vec![0u8; WRAM_SIZE],
            hram: vec![0u8; HRAM_SIZE],
            dma_reg: 0,
            dma_src: OAM_SIZE as u16,
            dma_idx: OAM_SIZE as u16,
            dma_delay: 0,
            it_enable: Interrupt::from_u8(0),
            serial_int: false,
            apu: Apu::new(),
            ppu: Ppu::new(),
            joypad,
            timer: Timer::new(),
            boot: true,
        };
        assert(!crate::cpu::interrupt::bit(0, 0x01) && !crate::cpu::interrupt::bit(0, 0x02)
            && !crate::cpu::interrupt::bit(0, 0x04) && !crate::cpu::interrupt::bit(0, 0x08)
            && !crate::cpu::interrupt::bit(0, 0x10)) by (bit_vector);
        r
    }

    /// Reads one byte; unmapped addresses read 0xff.
    pub fn fetch_byte(&self, address: u16) -> (r: u8)
        requires
            self.wf(),
        ensures
            r == self.read_spec(address),
    {
        if address < 0x8000 {
            if self.boot && address < BOOTROM_SIZE {
                boot_byte(address)
            } else {
                self.cart.controller.fetch_rom_byte(address)
            }
        } else if address < 0xa000 {
            self.ppu.vram[(address - 0x8000) as usize]
        } else if address < 0xc000 {
            self.cart.controller.fetch_ram_byte(address - 0xa000)
        } else if address < 0xe000 {
            self.wram[(address - 0xc000) as usize]
        } else if address < 0xfe00 {
            self.wram[(address - 0xe000) as usize]
        } else if address < 0xfea0 {
            self.ppu.oam[(address - 0xfe00) as usize]
        } else if address < 0xff00 {
            0xff
        } else if address < 0xff80 {
            self.fetch_io(address)
        } else if address < 0xffff {
            self.hram[(address - 0xff80) as usize]
        } else {
            self.it_enable.to_u8()
        }
    }

    /// Writes one byte. A writable address then reads the byte back; DIV reads 0, TAC
    /// its low three bits, IE and IF their low five bits, and unmapped addresses 0xff.
    /// No other byte of plain memory changes. Writes into the ROM area drive the bank
    /// controller, and writing 1 to 0xff50 unmaps the boot program for good.
    pub fn store_byte(&mut self, address: u16, value: u8)
        requires
            old(self).wf(),
        ensures
            final(self).wf(),
            old(self).writable(address) ==> final(self).read_spec(address) == value,
            address == 0xff04 ==> final(self).read_spec(address) == 0,
            address == 0xff07 ==> final(self).read_spec(address) == value & 7,
            address == 0xff0f || address == 0xffff ==> final(self).read_spec(address) == value & 0x1f,
            unmapped(address) ==> final(self).read_spec(address) == 0xff,
            forall|b: u16|
                memory(b) && !same_cell(address, b) ==> #[trigger] final(self).read_spec(b)
                    == old(self).read_spec(b),
            address == 0xff50 && value == 1 ==> !final(self).boot,
            !(address == 0xff50 && value == 1) ==> final(self).boot == old(self).boot,
            address >= 0x8000 ==> final(self).cart.controller.same_banking(&old(self).cart.controller),
            final(self).cart.controller.rom == old(self).cart.controller.rom,
            final(self).cart.controller.mbc_type == old(self).cart.controller.mbc_type,
            address < 0x8000 && old(self).cart.controller.mbc_type == cartridge::mbc::MbcType::RomOnly ==> forall|b: u16|
                b < 0xc000 ==> #[trigger] final(self).read_spec(b) == old(self).read_spec(b),
            !(0xa000 <= address < 0xc000) ==> final(self).cart.controller.ram == old(self).cart.controller.ram,
            address != 0xffff ==> final(self).it_enable == old(self).it_enable,
            address == 0xffff ==> final(self).it_enable == Interrupt::spec_from_u8(value),
            address == 0xff0f ==> final(self).pending() == Interrupt::spec_from_u8(value),
            !(0xff00 <= address < 0xff80) ==> final(self).pending() == old(self).pending(),
            address == 0xff46 ==> final(self).dma_reg == value && final(self).dma_idx == 0
                && final(self).dma_delay == 0 && final(self).dma_src == value as int * 256,
            address != 0xff46 ==> final(self).dma_reg == old(self).dma_reg && final(self).dma_idx
                == old(self).dma_idx && final(self).dma_delay == old(self).dma_delay,
    {
        if address < 0x8000 {
            self.cart.controller.store_rom_byte(address, value);
        } else if address < 0xa000 {
            self.ppu.vram.set((address - 0x8000) as usize, value);
        } else if address < 0xc000 {
            self.cart.controller.store_ram_byte(address - 0xa000, value);
        } else if address < 0xe000 {
            self.wram.set((address - 0xc000) as usize, value);
        } else if address < 0xfe00 {
            self.wram.set((address - 0xe000) as usize, value);
        } else if address < 0xfea0 {
            self.ppu.oam.set((address - 0xfe00) as usize, value);
        } else if address < 0xff00 {
        } else if address < 0xff80 {
            self.store_io(address, value);
        } else if address < 0xffff {
            self.hram.set((address - 0xff80) as usize, value);
        } else {
            self.it_enable = Interrupt::from_u8(value);
            proof {
                lemma_interrupt_byte_round_trip(value);
            }
        }
    }

    /// Advances the peripherals by one clock: timer, PPU, APU, then a running OAM
    /// transfer, which copies one byte on every fourth clock.
    pub fn tick(&mut self)
        requires
            old(self).wf(),
        ensures
            final(self).wf(),
            forall|b: u16| stable(b) ==> #[trigger] final(self).read_spec(b) == old(self).read_spec(b),
            final(self).cart == old(self).cart,
            final(self).wram == old(self).wram && final(self).hram == old(self).hram,
            final(self).ppu.vram == old(self).ppu.vram,
            final(self).boot == old(self).boot,
            final(self).it_enable == old(self).it_enable,
            final(self).serial_int == old(self).serial_int,
            final(self).joypad == old(self).joypad,
            final(self).timer == old(self).timer.spec_tick(),
            final(self).ppu.lcdc == old(self).ppu.lcdc,
            old(self).ppu.lcdc.lcd_enable ==> final(self).ppu.clock() == ppu::step(old(self).ppu.clock()),
            final(self).ppu.vblank_int == (old(self).ppu.vblank_int || (old(self).ppu.lcdc.lcd_enable
                && final(self).ppu.stage == ppu::PpuStage::VBlank && old(self).ppu.stage
                != ppu::PpuStage::VBlank)),
            old(self).timer.interrupt ==> final(self).timer.interrupt,
            old(self).ppu.lcd_stat_int ==> final(self).ppu.lcd_stat_int,
            final(self).dma_reg == old(self).dma_reg,
            ({
                let copies = old(self).dma_idx < OAM_SIZE && old(self).dma_delay == 3;
                &&& final(self).dma_idx == if copies {
                    old(self).dma_idx + 1
                } else {
                    old(self).dma_idx as int
                }
                &&& final(self).dma_delay == if old(self).dma_idx < OAM_SIZE {
                    (old(self).dma_delay + 1) % 4
                } else {
                    old(self).dma_delay as int
                }
                &&& copies && stable(old(self).dma_src) ==> final(self).ppu.oam@ == old(self).ppu.oam@.update(
                    old(self).dma_idx as int,
                    old(self).read_spec(old(self).dma_src),
                )
                &&& !copies ==> final(self).ppu.oam == old(self).ppu.oam
            }),
    {
        self.timer.tick();
        self.ppu.tick();
        self.apu.tick();

        if self.dma_idx < OAM_SIZE as u16 && self.dma_delay < 3 {
            self.dma_delay = self.dma_delay + 1;
        } else if self.dma_idx < OAM_SIZE as u16 {
            self.dma_delay = 0;
            let direct_byte = self.fetch_byte(self.dma_src);
            self.ppu.oam.set(self.dma_idx as usize, direct_byte);

            self.dma_idx = self.dma_idx + 1;
            self.dma_src = self.dma_src + 1;
        }
    }
}

} // verus!
