use vstd::prelude::*;
use super::Bus;
use super::ppu::{Lcdc, PpuStatus};
use super::ppu::lcdc::lemma_lcdc_byte_round_trip;
use super::timer::{divider_code, lemma_control_round_trip};
use crate::cpu::interrupt::{Interrupt, lemma_interrupt_byte_round_trip};

verus! {

/// I/O registers that read back what was written.
pub open spec fn io_writable(a: u16) -> bool {
    ||| a == 0xff05 || a == 0xff06
    ||| 0xff10 <= a <= 0xff14
    ||| 0xff16 <= a <= 0xff19
    ||| 0xff1a <= a <= 0xff1e
    ||| 0xff20 <= a <= 0xff25
    ||| 0xff30 <= a <= 0xff3f
    ||| a == 0xff40
    ||| 0xff42 <= a <= 0xff43
    ||| 0xff45 <= a <= 0xff4b
}

impl Bus {
    /// The byte a read of I/O register `a` returns; unknown registers read 0xff.
    pub open spec fn io_read(&self, a: u16) -> u8 {
        if 0xff30 <= a <= 0xff3f {
            self.apu.wave@[a - 0xff30]
        } else {
            self.io_register(a)
        }
    }

    pub open spec fn io_register(&self, a: u16) -> u8 {
        match a {
            0xff00 => self.joypad.spec_matrix(),
            0xff04 => self.timer.spec_div(),
            0xff05 => self.timer.counter,
            0xff06 => self.timer.modulo,
            0xff07 => (if self.timer.enable { 4u8 } else { 0u8 }) | divider_code(self.timer.divider),
            0xff0f => self.pending().spec_to_u8(),
            0xff10 => self.apu.nr10,
            0xff11 => self.apu.nr11,
            0xff12 => self.apu.nr12,
            0xff13 => self.apu.nr13,
            0xff14 => self.apu.nr14,
            0xff16 => self.apu.nr21,
            0xff17 => self.apu.nr22,
            0xff18 => self.apu.nr23,
            0xff19 => self.apu.nr24,
            0xff1a => self.apu.nr30,
            0xff1b => self.apu.nr31,
            0xff1c => self.apu.nr32,
            0xff1d => self.apu.nr33,
            0xff1e => self.apu.nr34,
            0xff20 => self.apu.nr41,
            0xff21 => self.apu.nr42,
            0xff22 => self.apu.nr43,
            0xff23 => self.apu.nr44,
            0xff24 => self.apu.nr50,
            0xff25 => self.apu.nr51,
            0xff26 => self.apu.nr52,
            0xff40 => self.ppu.lcdc.spec_to_u8(),
            0xff41 => self.ppu.stat.spec_to_u8(),
            0xff42 => self.ppu.scy,
            0xff43 => self.ppu.scx,
            0xff44 => self.ppu.ly,
            0xff45 => self.ppu.lyc,
            0xff46 => self.dma_reg,
            0xff47 => self.ppu.bgp,
            0xff48 => self.ppu.obp0,
            0xff49 => self.ppu.obp1,
            0xff4a => self.ppu.wy,
            0xff4b => self.ppu.wx,
            _ => 0xff,
        }
    }

    pub fn fetch_io(&self, address: u16) -> (r: u8)
        requires
            self.wf(),
        ensures
            r == self.io_read(address),
    {
        if 0xff30 <= address && address <= 0xff3f {
            return self.apu.wave[(address - 0xff30) as usize];
        }
        match address {
            0xff00 => self.joypad.select_matrix(),
            0xff04 => self.timer.get_div(),
            0xff05 => self.timer.counter,
            0xff06 => self.timer.modulo,
            0xff07 => self.timer.get_control(),
            0xff0f => {
                let pending = Interrupt {
                    vblank: self.ppu.vblank_int,
                    lcdc: self.ppu.lcd_stat_int,
                    timer: self.timer.interrupt,
                    serial: self.serial_int,
                    joypad: self.joypad.interrupt,
                };
                pending.to_u8()
            },
            0xff10 => self.apu.nr10,
            0xff11 => self.apu.nr11,
            0xff12 => self.apu.nr12,
            0xff13 => self.apu.nr13,
            0xff14 => self.apu.nr14,
            0xff16 => self.apu.nr21,
            0xff17 => self.apu.nr22,
            0xff18 => self.apu.nr23,
            0xff19 => self.apu.nr24,
            0xff1a => self.apu.nr30,
            0xff1b => self.apu.nr31,
            0xff1c => self.apu.nr32,
            0xff1d => self.apu.nr33,
            0xff1e => self.apu.nr34,
            0xff20 => self.apu.nr41,
            0xff21 => self.apu.nr42,
            0xff22 => self.apu.nr43,
            0xff23 => self.apu.nr44,
            0xff24 => self.apu.nr50,
            0xff25 => self.apu.nr51,
            0xff26 => self.apu.nr52,
            0xff40 => self.ppu.lcdc.to_u8(),
            0xff41 => self.ppu.stat.to_u8(),
            0xff42 => self.ppu.scy,
            0xff43 => self.ppu.scx,
            0xff44 => self.ppu.ly,
            0xff45 => self.ppu.lyc,
            0xff46 => self.dma_reg,
            0xff47 => self.ppu.bgp,
            0xff48 => self.ppu.obp0,
            0xff49 => self.ppu.obp1,
            0xff4a => self.ppu.wy,
            0xff4b => self.ppu.wx,
            _ => 0xff,
        }
    }

    /// Writes one I/O register.
    pub fn store_io(&mut self, address: u16, value: u8)
        requires
            old(self).wf(),
            0xff00 <= address < 0xff80,
        ensures
            final(self).wf(),
            io_writable(address) ==> final(self).io_read(address) == value,
            address == 0xff04 ==> final(self).io_read(address) == 0,
            address == 0xff07 ==> final(self).io_read(address) == value & 7,
            address == 0xff0f ==> final(self).io_read(address) == value & 0x1f,
            address == 0xff0f ==> final(self).pending() == Interrupt::spec_from_u8(value),
            address != 0xff0f ==> final(self).serial_int == old(self).serial_int,
            address == 0xff50 && value == 1 ==> !final(self).boot,
            !(address == 0xff50 && value == 1) ==> final(self).boot == old(self).boot,
            final(self).cart == old(self).cart,
            final(self).wram == old(self).wram && final(self).hram == old(self).hram,
            final(self).ppu.vram == old(self).ppu.vram && final(self).ppu.oam == old(self).ppu.oam,
            final(self).it_enable == old(self).it_enable,
            address == 0xff46 ==> final(self).dma_idx == 0 && final(self).dma_reg == value && final(self).dma_delay == 0,
            address != 0xff46 ==> final(self).dma_idx == old(self).dma_idx && final(self).dma_reg
                == old(self).dma_reg && final(self).dma_delay == old(self).dma_delay,
            address == 0xff04 ==> final(self).timer.counter_16k == 0,
    {
        if 0xff10 <= address && address <= 0xff3f {
            self.store_apu_reg(address, value);
        } else if 0xff40 <= address && address <= 0xff4b {
            self.store_ppu_reg(address, value);
        } else {
            self.store_misc_reg(address, value);
        }
    }

    /// Writes a sound register or wave RAM.
    fn store_apu_reg(&mut self, address: u16, value: u8)
        requires
            old(self).wf(),
            0xff10 <= address <= 0xff3f,
        ensures
            final(self).wf(),
            io_writable(address) ==> final(self).io_read(address) == value,
            final(self).cart == old(self).cart,
            final(self).wram == old(self).wram && final(self).hram == old(self).hram,
            final(self).it_enable == old(self).it_enable,
            final(self).boot == old(self).boot,
            final(self).serial_int == old(self).serial_int,
            final(self).ppu == old(self).ppu,
            final(self).timer == old(self).timer,
            final(self).joypad == old(self).joypad,
            final(self).dma_idx == old(self).dma_idx && final(self).dma_reg == old(self).dma_reg
                && final(self).dma_delay == old(self).dma_delay,
    {
        if 0xff30 <= address {
            self.apu.wave.set((address - 0xff30) as usize, value);
            return;
        }
        match address {
            0xff10 => self.apu.set_nr10(value),
            0xff11 => self.apu.set_nr11(value),
            0xff12 => self.apu.set_nr12(value),
            0xff13 => self.apu.set_nr13(value),
            0xff14 => self.apu.set_nr14(value),
            0xff16 => self.apu.set_nr21(value),
            0xff17 => self.apu.set_nr22(value),
            0xff18 => self.apu.set_nr23(value),
            0xff19 => self.apu.set_nr24(value),
            0xff1a => self.apu.set_nr30(value),
            0xff1b => self.apu.set_nr31(value),
            0xff1c => self.apu.set_nr32(value),
            0xff1d => self.apu.set_nr33(value),
            0xff1e => self.apu.set_nr34(value),
            0xff20 => self.apu.set_nr41(value),
            0xff21 => self.apu.set_nr42(value),
            0xff22 => self.apu.set_nr43(value),
            0xff23 => self.apu.set_nr44(value),
            0xff24 => self.apu.set_nr50(value),
            0xff25 => self.apu.set_nr51(value),
            0xff26 => self.apu.set_nr52(value),
            _ => {},
        }
    }

    /// Writes a display register.
    fn store_ppu_reg(&mut self, address: u16, value: u8)
        requires
            old(self).wf(),
            0xff40 <= address <= 0xff4b,
        ensures
            final(self).wf(),
            io_writable(address) ==> final(self).io_read(address) == value,
            final(self).cart == old(self).cart,
            final(self).wram == old(self).wram && final(self).hram == old(self).hram,
            final(self).it_enable == old(self).it_enable,
            final(self).boot == old(self).boot,
            final(self).serial_int == old(self).serial_int,
            final(self).apu == old(self).apu,
            final(self).timer == old(self).timer,
            final(self).joypad == old(self).joypad,
            final(self).ppu.vram == old(self).ppu.vram && final(self).ppu.oam == old(self).ppu.oam,
            final(self).ppu.vblank_int == old(self).ppu.vblank_int,
            final(self).ppu.lcd_stat_int == old(self).ppu.lcd_stat_int,
            address == 0xff46 ==> final(self).dma_idx == 0 && final(self).dma_reg == value && final(self).dma_delay == 0,
            address != 0xff46 ==> final(self).dma_idx == old(self).dma_idx && final(self).dma_reg
                == old(self).dma_reg && final(self).dma_delay == old(self).dma_delay,
    {
        match address {
            0xff40 => {
                self.ppu.lcdc = Lcdc::from_u8(value);
                proof {
                    lemma_lcdc_byte_round_trip(value);
                }
            },
            0xff41 => {
                // only the interrupt sources are writable
                let stat = self.ppu.stat;
                self.ppu.stat = PpuStatus {
                    lyc_check: value & 0x40 != 0,
                    m2_oam_interrupt: value & 0x20 != 0,
                    m1_vblank_interrupt: value & 0x10 != 0,
                    m0_hblank_interrupt: value & 0x08 != 0,
                    coincidence_flag: stat.coincidence_flag,
                    mode_flag: stat.mode_flag,
                };
            },
            0xff42 => self.ppu.scy = value,
            0xff43 => self.ppu.scx = value,
            0xff45 => self.ppu.lyc = value,
            0xff46 => {
                self.dma_reg = value;
                self.dma_idx = 0;
                self.dma_delay = 0;
                self.dma_src = (value as u16) * 256;
            },
            0xff47 => self.ppu.bgp = value,
            0xff48 => self.ppu.obp0 = value,
            0xff49 => self.ppu.obp1 = value,
            0xff4a => self.ppu.wy = value,
            0xff4b => self.ppu.wx = value,
            _ => {},
        }
    }

    /// Writes the joypad, timer, interrupt flag or boot registers.
    fn store_misc_reg(&mut self, address: u16, value: u8)
        requires
            old(self).wf(),
            0xff00 <= address < 0xff80,
            !(0xff10 <= address <= 0xff4b),
        ensures
            final(self).wf(),
            address == 0xff04 ==> final(self).io_read(address) == 0,
            address == 0xff07 ==> final(self).io_read(address) == value & 7,
            address == 0xff0f ==> final(self).io_read(address) == value & 0x1f,
            address == 0xff05 || address == 0xff06 ==> final(self).io_read(address) == value,
            address == 0xff0f ==> final(self).pending() == Interrupt::spec_from_u8(value),
            address != 0xff0f ==> final(self).serial_int == old(self).serial_int,
            address == 0xff50 && value == 1 ==> !final(self).boot,
            !(address == 0xff50 && value == 1) ==> final(self).boot == old(self).boot,
            final(self).cart == old(self).cart,
            final(self).wram == old(self).wram && final(self).hram == old(self).hram,
            final(self).it_enable == old(self).it_enable,
            final(self).apu == old(self).apu,
            final(self).ppu.vram == old(self).ppu.vram && final(self).ppu.oam == old(self).ppu.oam,
            final(self).ppu.lcdc == old(self).ppu.lcdc && final(self).ppu.stat == old(self).ppu.stat,
            final(self).ppu.clock() == old(self).ppu.clock(),
            final(self).dma_idx == old(self).dma_idx && final(self).dma_reg == old(self).dma_reg
                && final(self).dma_delay == old(self).dma_delay,
            address == 0xff04 ==> final(self).timer.counter_16k == 0,
    {
        match address {
            0xff00 => self.joypad.set_matrix(value & 0x20 != 0, value & 0x10 != 0),
            0xff04 => self.timer.reset_div(),
            0xff05 => self.timer.counter = value,
            0xff06 => self.timer.modulo = value,
            0xff07 => {
                self.timer.set_control(value);
                proof {
                    lemma_control_round_trip(value);
                }
            },
            0xff0f => {
                let flags = Interrupt::from_u8(value);
                self.ppu.vblank_int = flags.vblank;
                self.ppu.lcd_stat_int = flags.lcdc;
                self.timer.interrupt = flags.timer;
                self.serial_int = flags.serial;
                self.joypad.interrupt = flags.joypad;
                proof {
                    lemma_interrupt_byte_round_trip(value);
                }
            },
            0xff50 => {
                if self.boot && value == 1 {
                    self.boot = false;
                }
            },
            _ => {},
        }
    }
}

} // verus!
