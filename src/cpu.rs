pub mod alu;
pub mod decode;
pub mod interrupt;
pub mod opcodes;

use vstd::prelude::*;
use crate::io::{Bus, memory, same_cell, stable};
use crate::io::cartridge::Cartridge;
use self::alu::Flags;
use self::decode::{execute, defined, executed, operand_fetched};
use self::interrupt::Interrupt;

verus! {

/// All registers but the flags.
#[derive(Clone, Copy, Default, Debug, PartialEq, Eq, Structural)]
pub struct Registers {
    pub a: u8,
    pub b: u8,
    pub c: u8,
    pub d: u8,
    pub e: u8,
    pub h: u8,
    pub l: u8,
    pub pc: u16,
    pub sp: u16,
}

/// An opcode the instruction set does not define; running it stops the core.
#[derive(Clone, Copy, Debug, PartialEq, Eq, Structural)]
pub struct CpuFault {
    /// address of the opcode
    pub pc: u16,
    pub opcode: u8,
}

pub open spec fn pair(high: u8, low: u8) -> u16 {
    (high as u16 * 256 + low as u16) as u16
}

pub open spec fn high(v: u16) -> u8 {
    (v / 256) as u8
}

pub open spec fn low(v: u16) -> u8 {
    (v % 256) as u8
}

pub open spec fn inc16(v: u16) -> u16 {
    if v == 0xffff { 0 } else { (v + 1) as u16 }
}

pub open spec fn dec16(v: u16) -> u16 {
    if v == 0 { 0xffff } else { (v - 1) as u16 }
}

/// The bus after some clocks of the peripherals: plain memory and everything else
/// below OAM reads as before, and the parts the CPU does not touch are kept.
pub open spec fn ticked(after: &Bus, before: &Bus) -> bool {
    &&& after.wf()
    &&& forall|b: u16| stable(b) ==> #[trigger] after.read_spec(b) == before.read_spec(b)
    &&& after.cart == before.cart
    &&& after.boot == before.boot
    &&& after.it_enable == before.it_enable
    &&& pending_kept(after, before)
}

/// The state after the opcode fetch of a dispatch step: a pending EI has set the
/// master enable, one machine cycle has passed, and PC is one on.
pub open spec fn instruction_fetched(after: &Cpu, before: &Cpu) -> bool {
    &&& ticked(&after.bus, &before.bus)
    &&& after.registers == (Registers { pc: inc16(before.registers.pc), ..before.registers })
    &&& after.flags == before.flags
    &&& after.it_master_enable == (before.it_master_enable || before.it_master_enable_next)
    &&& !after.it_master_enable_next
    &&& after.halted == before.halted
    &&& after.cycles == 4
}

/// One of the five interrupt vectors.
pub open spec fn is_vector(w: u16) -> bool {
    w == interrupt::VBLANK || w == interrupt::LCDC || w == interrupt::TIMER || w == interrupt::SERIAL
        || w == interrupt::JOYPAD
}

/// Whether interrupt line `vector` is pending in `p`.
pub open spec fn line_pending(p: Interrupt, vector: u16) -> bool {
    if vector == interrupt::VBLANK {
        p.vblank
    } else if vector == interrupt::LCDC {
        p.lcdc
    } else if vector == interrupt::TIMER {
        p.timer
    } else if vector == interrupt::SERIAL {
        p.serial
    } else {
        p.joypad
    }
}

/// The bus after clocks and a store of `v` at `a`: `a` reads `v` back if it was
/// writable, and every other byte of plain memory is kept.
pub open spec fn stored(after: &Bus, before: &Bus, a: u16, v: u8) -> bool {
    &&& after.wf()
    &&& before.writable(a) ==> after.read_spec(a) == v
    &&& forall|b: u16| memory(b) && !same_cell(a, b) ==> #[trigger] after.read_spec(b) == before.read_spec(b)
    &&& !(0xff00 <= a < 0xff80) && a != 0xffff ==> pending_kept(after, before) && after.it_enable
        == before.it_enable
    &&& (memory(a) || (0xfe00 <= a < 0xff00) || (0xff80 <= a && a != 0xffff)) ==> {
        &&& forall|b: u16| stable(b) && !same_cell(a, b) ==> #[trigger] after.read_spec(b) == before.read_spec(b)
        &&& after.cart == before.cart
        &&& after.boot == before.boot
        &&& after.it_enable == before.it_enable
        &&& pending_kept(after, before)
    }
}

/// No pending interrupt bit has been cleared.
pub open spec fn pending_kept(after: &Bus, before: &Bus) -> bool {
    &&& before.pending().vblank ==> after.pending().vblank
    &&& before.pending().lcdc ==> after.pending().lcdc
    &&& before.pending().timer ==> after.pending().timer
    &&& after.pending().serial == before.pending().serial
    &&& after.pending().joypad == before.pending().joypad
}

/// Neither byte of a push from `sp` lands on the I/O registers or IE.
pub open spec fn stack_outside_io(sp: u16) -> bool {
    let s1 = dec16(sp);
    let s2 = dec16(s1);
    &&& !(0xff00 <= s1 < 0xff80) && s1 != 0xffff
    &&& !(0xff00 <= s2 < 0xff80) && s2 != 0xffff
}

/// The registers with r8 register `reg` (not (HL)) set to `v`.
pub open spec fn with_reg8(r: Registers, reg: u8, v: u8) -> Registers {
    if reg == 0 {
        Registers { b: v, ..r }
    } else if reg == 1 {
        Registers { c: v, ..r }
    } else if reg == 2 {
        Registers { d: v, ..r }
    } else if reg == 3 {
        Registers { e: v, ..r }
    } else if reg == 4 {
        Registers { h: v, ..r }
    } else if reg == 5 {
        Registers { l: v, ..r }
    } else {
        Registers { a: v, ..r }
    }
}

/// The registers with r16 pair `reg` (BC, DE, HL, SP) set to `v`.
pub open spec fn with_r16_sp(r: Registers, reg: u8, v: u16) -> Registers {
    if reg == 0 {
        Registers { b: high(v), c: low(v), ..r }
    } else if reg == 1 {
        Registers { d: high(v), e: low(v), ..r }
    } else if reg == 2 {
        Registers { h: high(v), l: low(v), ..r }
    } else {
        Registers { sp: v, ..r }
    }
}

/// A push of `v`: SP two lower, the high byte above the low byte, no other byte of
/// plain memory changed.
pub open spec fn pushed(after: &Cpu, before: &Cpu, v: u16) -> bool {
    let s1 = dec16(before.registers.sp);
    let s2 = dec16(s1);
    &&& after.wf()
    &&& after.registers == (Registers { sp: s2, ..before.registers })
    &&& after.flags == before.flags
    &&& after.same_control(before)
    &&& after.cycles == before.cycles + 8
    &&& memory(s1) ==> after.bus.read_spec(s1) == high(v)
    &&& memory(s2) ==> after.bus.read_spec(s2) == low(v)
    &&& forall|b: u16|
        memory(b) && !same_cell(s1, b) && !same_cell(s2, b) ==> #[trigger] after.bus.read_spec(b)
            == before.bus.read_spec(b)
    &&& stack_outside_io(before.registers.sp) ==> pending_kept(&after.bus, &before.bus)
        && after.bus.it_enable == before.bus.it_enable
}

/// A pop: the value is the byte at SP under the byte above it, read before the
/// clocks of the pop where they cannot change it; SP two higher.
pub open spec fn popped(after: &Cpu, before: &Cpu, r: u16) -> bool {
    let s0 = before.registers.sp;
    let s1 = inc16(s0);
    &&& ticked(&after.bus, &before.bus)
    &&& after.registers == (Registers { sp: inc16(s1), ..before.registers })
    &&& after.flags == before.flags
    &&& after.same_control(before)
    &&& after.cycles == before.cycles + 8
    &&& stable(s0) && stable(s1) ==> r == pair(before.bus.read_spec(s1), before.bus.read_spec(s0))
}

proof fn lemma_ticked_trans(a: &Bus, b: &Bus, c: &Bus)
    requires
        ticked(b, a),
        ticked(c, b),
    ensures
        ticked(c, a),
{
}

/// The processor, with the bus it drives.
pub struct Cpu {
    pub registers: Registers,
    /// the F register
    pub flags: Flags,
    /// interrupt master enable
    pub it_master_enable: bool,
    /// set by EI: the master enable is set before the next instruction
    pub it_master_enable_next: bool,
    /// waiting for an interrupt
    pub halted: bool,
    /// access to the other parts of the machine
    pub bus: Bus,
    /// clocks elapsed in the current step
    pub cycles: u32,
}

impl Cpu {
    pub open spec fn wf(&self) -> bool {
        self.bus.wf()
    }

    pub open spec fn spec_af(&self) -> u16 {
        pair(self.registers.a, self.flags.spec_to_u8())
    }

    pub open spec fn spec_bc(&self) -> u16 {
        pair(self.registers.b, self.registers.c)
    }

    pub open spec fn spec_de(&self) -> u16 {
        pair(self.registers.d, self.registers.e)
    }

    pub open spec fn spec_hl(&self) -> u16 {
        pair(self.registers.h, self.registers.l)
    }

    /// Register `reg` of the r8 encoding: B, C, D, E, H, L, (HL), A; not defined for (HL).
    pub open spec fn reg8(&self, reg: u8) -> u8 {
        let r = self.registers;
        if reg == 0 {
            r.b
        } else if reg == 1 {
            r.c
        } else if reg == 2 {
            r.d
        } else if reg == 3 {
            r.e
        } else if reg == 4 {
            r.h
        } else if reg == 5 {
            r.l
        } else {
            r.a
        }
    }

    /// Register pair `reg` of the r16 encoding: BC, DE, HL, SP.
    pub open spec fn r16_sp(&self, reg: u8) -> u16 {
        if reg == 0 {
            self.spec_bc()
        } else if reg == 1 {
            self.spec_de()
        } else if reg == 2 {
            self.spec_hl()
        } else {
            self.registers.sp
        }
    }

    /// Register pair `reg` of the stack encoding: BC, DE, HL, AF.
    pub open spec fn r16_af(&self, reg: u8) -> u16 {
        if reg == 3 {
            self.spec_af()
        } else {
            self.r16_sp(reg)
        }
    }

    /// Condition `cond`: NZ, Z, NC, C.
    pub open spec fn condition(&self, cond: u8) -> bool {
        if cond == 0 {
            !self.flags.z
        } else if cond == 1 {
            self.flags.z
        } else if cond == 2 {
            !self.flags.c
        } else {
            self.flags.c
        }
    }

    /// The pending interrupts that are enabled.
    pub open spec fn requested(&self) -> bool {
        let p = self.bus.pending();
        let e = self.bus.it_enable;
        (p.vblank && e.vblank) || (p.lcdc && e.lcdc) || (p.timer && e.timer) || (p.serial
            && e.serial) || (p.joypad && e.joypad)
    }

    /// The vector of the highest-priority requested interrupt: VBlank, LCD status,
    /// timer, serial, joypad.
    pub open spec fn service_vector(&self) -> u16 {
        let p = self.bus.pending();
        let e = self.bus.it_enable;
        if p.vblank && e.vblank {
            interrupt::VBLANK
        } else if p.lcdc && e.lcdc {
            interrupt::LCDC
        } else if p.timer && e.timer {
            interrupt::TIMER
        } else if p.serial && e.serial {
            interrupt::SERIAL
        } else {
            interrupt::JOYPAD
        }
    }

    /// The interrupt state is as in `o`.
    pub open spec fn same_control(&self, o: &Cpu) -> bool {
        &&& self.it_master_enable == o.it_master_enable
        &&& self.it_master_enable_next == o.it_master_enable_next
        &&& self.halted == o.halted
    }

    pub fn new(cart: Cartridge) -> (r: Cpu)
        requires
            cart.wf(),
        ensures
            r.wf(),
            r.registers == (Registers { a: 0, b: 0, c: 0, d: 0, e: 0, h: 0, l: 0, pc: 0, sp: 0 }),
            r.flags == Flags::spec_from_u8(0),
            !r.it_master_enable && !r.it_master_enable_next && !r.halted,
            r.cycles == 0,
            r.bus.boot,
            r.bus.cart == cart,
    {
        let flags = Flags::from_u8(0);
        Cpu {
            registers: Registers { a: 0, b: 0, c: 0, d: 0, e: 0, h: 0, l: 0, pc: 0, sp: 0 },
            flags,
            it_master_enable: false,
            it_master_enable_next: false,
            halted: false,
            bus: Bus::new(cart),
            cycles: 0,
        }
    }

    pub fn get_af(&self) -> (r: u16)
        ensures
            r == self.spec_af(),
    {
        self.registers.a as u16 * 256 + self.flags.to_u8() as u16
    }

    pub fn get_bc(&self) -> (r: u16)
        ensures
            r == self.spec_bc(),
    {
        self.registers.b as u16 * 256 + self.registers.c as u16
    }

    pub fn get_de(&self) -> (r: u16)
        ensures
            r == self.spec_de(),
    {
        self.registers.d as u16 * 256 + self.registers.e as u16
    }

    pub fn get_hl(&self) -> (r: u16)
        ensures
            r == self.spec_hl(),
    {
        self.registers.h as u16 * 256 + self.registers.l as u16
    }

    pub fn set_af(&mut self, value: u16)
        ensures
            final(self).registers == (Registers { a: high(value), ..old(self).registers }),
            final(self).flags == Flags::spec_from_u8(low(value)),
            final(self).bus == old(self).bus && final(self).cycles == old(self).cycles,
            final(self).same_control(old(self)),
    {
        self.registers.a = (value / 256) as u8;
        self.flags = Flags::from_u8((value % 256) as u8);
    }

    pub fn set_bc(&mut self, value: u16)
        ensures
            final(self).registers == (Registers { b: high(value), c: low(value), ..old(self).registers }),
            final(self).flags == old(self).flags,
            final(self).bus == old(self).bus && final(self).cycles == old(self).cycles,
            final(self).same_control(old(self)),
    {
        self.registers.b = (value / 256) as u8;
        self.registers.c = (value % 256) as u8;
    }

    pub fn set_de(&mut self, value: u16)
        ensures
            final(self).registers == (Registers { d: high(value), e: low(value), ..old(self).registers }),
            final(self).flags == old(self).flags,
            final(self).bus == old(self).bus && final(self).cycles == old(self).cycles,
            final(self).same_control(old(self)),
    {
        self.registers.d = (value / 256) as u8;
        self.registers.e = (value % 256) as u8;
    }

    pub fn set_hl(&mut self, value: u16)
        ensures
            final(self).registers == (Registers { h: high(value), l: low(value), ..old(self).registers }),
            final(self).flags == old(self).flags,
            final(self).bus == old(self).bus && final(self).cycles == old(self).cycles,
            final(self).same_control(old(self)),
    {
        self.registers.h = (value / 256) as u8;
        self.registers.l = (value % 256) as u8;
    }

    /// Clocks the bus `clocks` times.
    fn advance(&mut self, clocks: u32)
        requires
            old(self).wf(),
            old(self).cycles + clocks <= u32::MAX,
        ensures
            ticked(&final(self).bus, &old(self).bus),
            final(self).cycles == old(self).cycles + clocks,
            final(self).registers == old(self).registers && final(self).flags == old(self).flags,
            final(self).same_control(old(self)),
    {
        let mut i: u32 = 0;
        while i < clocks
            invariant
                i <= clocks,
                ticked(&self.bus, &old(self).bus),
                self.cycles == old(self).cycles,
                self.registers == old(self).registers && self.flags == old(self).flags,
                self.same_control(old(self)),
            decreases clocks - i,
        {
            let ghost before = self.bus;
            self.bus.tick();
            proof {
                lemma_ticked_trans(&old(self).bus, &before, &self.bus);
            }
            i = i + 1;
        }
        self.cycles = self.cycles + clocks;
    }

    /// Spends `machine_cycles` machine cycles of four clocks.
    pub fn delay(&mut self, machine_cycles: u32)
        requires
            old(self).wf(),
            old(self).cycles + 4 * machine_cycles <= u32::MAX,
        ensures
            ticked(&final(self).bus, &old(self).bus),
            final(self).cycles == old(self).cycles + 4 * machine_cycles,
            final(self).registers == old(self).registers && final(self).flags == old(self).flags,
            final(self).same_control(old(self)),
    {
        self.advance(machine_cycles * 4);
    }

    /// Reads a byte: one machine cycle passes, then the bus answers.
    pub fn fetch_byte(&mut self, address: u16) -> (r: u8)
        requires
            old(self).wf(),
            old(self).cycles <= u32::MAX - 4,
        ensures
            ticked(&final(self).bus, &old(self).bus),
            r == final(self).bus.read_spec(address),
            stable(address) ==> r == old(self).bus.read_spec(address),
            final(self).cycles == old(self).cycles + 4,
            final(self).registers == old(self).registers && final(self).flags == old(self).flags,
            final(self).same_control(old(self)),
    {
        self.delay(1);
        self.bus.fetch_byte(address)
    }

    /// Writes a byte: one machine cycle passes, then the bus takes it.
    pub fn store_byte(&mut self, address: u16, value: u8)
        requires
            old(self).wf(),
            old(self).cycles <= u32::MAX - 4,
        ensures
            stored(&final(self).bus, &old(self).bus, address, value),
            final(self).cycles == old(self).cycles + 4,
            final(self).registers == old(self).registers && final(self).flags == old(self).flags,
            final(self).same_control(old(self)),
    {
        self.delay(1);
        self.bus.store_byte(address, value);
    }

    /// One dispatch step: services a requested interrupt when the master enable is
    /// set (20 clocks); otherwise applies a pending EI, then either waits one machine
    /// cycle while halted, leaving HALT once an interrupt is requested, or runs one
    /// instruction. Returns the clocks spent, always a whole number of machine
    /// cycles, or the fault of an undefined opcode, with the state left at it.
    pub fn machine_cycle(&mut self) -> (r: Result<u8, CpuFault>)
        requires
            old(self).wf(),
        ensures
            final(self).wf(),
            r is Ok ==> 0 < r->Ok_0 <= 24 && r->Ok_0 % 4 == 0 && final(self).cycles == r->Ok_0,
            old(self).it_master_enable && old(self).requested() ==> {
                let s1 = dec16(old(self).registers.sp);
                let s2 = dec16(s1);
                let v = old(self).service_vector();
                &&& r == Ok::<u8, CpuFault>(20)
                &&& final(self).registers == (Registers { pc: v, sp: s2, ..old(self).registers })
                &&& !final(self).it_master_enable && !final(self).halted
                &&& memory(s1) ==> final(self).bus.read_spec(s1) == high(old(self).registers.pc)
                &&& memory(s2) ==> final(self).bus.read_spec(s2) == low(old(self).registers.pc)
                &&& !line_pending(final(self).bus.pending(), v)
                &&& stack_outside_io(old(self).registers.sp) ==> forall|w: u16|
                    is_vector(w) && w != v && line_pending(old(self).bus.pending(), w) ==> #[trigger] line_pending(
                        final(self).bus.pending(),
                        w,
                    )
            },
            !(old(self).it_master_enable && old(self).requested()) && old(self).halted ==> {
                &&& r == Ok::<u8, CpuFault>(4)
                &&& final(self).halted == !final(self).requested()
                &&& final(self).registers == old(self).registers
                &&& final(self).it_master_enable == (old(self).it_master_enable
                    || old(self).it_master_enable_next)
            },
            !(old(self).it_master_enable && old(self).requested()) && !old(self).halted ==> {
                let pc = old(self).registers.pc;
                let op = old(self).bus.read_spec(pc);
                &&& r is Err ==> r->Err_0.pc == pc && !defined(r->Err_0.opcode) && final(self).registers
                    == old(self).registers
                &&& stable(pc) ==> (r is Err <==> !defined(op))
                &&& stable(pc) && r is Err ==> r->Err_0.opcode == op
                &&& r is Ok ==> exists|mid: Cpu|
                    #[trigger] instruction_fetched(&mid, old(self)) && executed(
                        final(self),
                        &mid,
                        mid.bus.read_spec(pc),
                    )
                &&& r is Ok && stable(pc) && op != 0xf3 && (old(self).it_master_enable
                    || old(self).it_master_enable_next) ==> final(self).it_master_enable
                &&& r is Ok && stable(pc) && op == 0xf3 ==> !final(self).it_master_enable
                    && !final(self).it_master_enable_next
            },
    {
        self.cycles = 0;

        if self.it_master_enable && self.check_interrupt() {
            self.handle_interrupt();
            return Ok(self.cycles as u8);
        }
        if self.it_master_enable_next {
            self.it_master_enable = true;
            self.it_master_enable_next = false;
        }

        if self.halted {
            self.delay(1);
            // the wait ends on a request even with the master enable clear
            if self.check_interrupt() {
                self.halted = false;
            }
            return Ok(self.cycles as u8);
        }

        let ghost latched = *self;
        let result = self.execute_next();
        proof {
            if result is Ok {
                let mid = choose|mid: Cpu|
                    #[trigger] operand_fetched(&mid, &latched) && executed(
                        self,
                        &mid,
                        mid.bus.read_spec(latched.registers.pc),
                    );
                assert(instruction_fetched(&mid, old(self)));
                let code = mid.bus.read_spec(latched.registers.pc);
                lemma_executed_control(self, &mid, code);
            }
        }
        match result {
            Ok(()) => Ok(self.cycles as u8),
            Err(fault) => Err(fault),
        }
    }

    /// Fetches the opcode at the program counter, steps past it and runs it; an
    /// undefined opcode is reported with its address, PC left on it.
    pub fn execute_next(&mut self) -> (r: Result<(), CpuFault>)
        requires
            old(self).wf(),
            old(self).cycles <= u32::MAX - 40,
        ensures
            final(self).wf(),
            r is Ok ==> old(self).cycles + 4 <= final(self).cycles <= old(self).cycles + 24
                && (final(self).cycles - old(self).cycles) % 4 == 0,
            r is Err ==> r->Err_0.pc == old(self).registers.pc && final(self).registers == old(self).registers
                && final(self).cycles == old(self).cycles + 4 && !defined(r->Err_0.opcode)
                && final(self).same_control(old(self)),
            stable(old(self).registers.pc) ==> (r is Err <==> !defined(old(self).bus.read_spec(old(self).registers.pc))),
            stable(old(self).registers.pc) && r is Err ==> r->Err_0.opcode == old(self).bus.read_spec(old(self).registers.pc),
            r is Ok ==> exists|mid: Cpu|
                #[trigger] operand_fetched(&mid, old(self)) && executed(
                    final(self),
                    &mid,
                    mid.bus.read_spec(old(self).registers.pc),
                ),
    {
        let pc = self.registers.pc;
        let opcode = self.fetch_byte(pc);
        if !(opcode != 0xd3 && opcode != 0xdb && opcode != 0xdd && opcode != 0xe3 && opcode != 0xe4
            && opcode != 0xeb && opcode != 0xec && opcode != 0xed && opcode != 0xf4 && opcode != 0xfc
            && opcode != 0xfd) {
            return Err(CpuFault { pc, opcode });
        }
        self.registers.pc = pc.wrapping_add(1);
        let ghost mid = *self;
        execute(self, opcode);
        assert(operand_fetched(&mid, old(self)) && executed(self, &mid, mid.bus.read_spec(pc)));
        Ok(())
    }

    /// Whether an enabled interrupt is pending.
    pub fn check_interrupt(&self) -> (r: bool)
        ensures
            r == self.requested(),
    {
        let e = self.bus.it_enable;
        (self.bus.ppu.vblank_int && e.vblank) || (self.bus.ppu.lcd_stat_int && e.lcdc) || (
        self.bus.timer.interrupt && e.timer) || (self.bus.serial_int && e.serial) || (
        self.bus.joypad.interrupt && e.joypad)
    }

    /// Services the highest-priority requested interrupt; its pending bit is clear
    /// when the handler is entered, and the other pending bits stay.
    fn handle_interrupt(&mut self)
        requires
            old(self).wf(),
            old(self).cycles == 0,
            old(self).requested(),
        ensures
            final(self).wf(),
            final(self).cycles == 20,
            final(self).registers == (Registers {
                pc: old(self).service_vector(),
                sp: dec16(dec16(old(self).registers.sp)),
                ..old(self).registers
            }),
            !final(self).it_master_enable && !final(self).it_master_enable_next && !final(self).halted,
            memory(dec16(old(self).registers.sp)) ==> final(self).bus.read_spec(dec16(old(self).registers.sp))
                == high(old(self).registers.pc),
            memory(dec16(dec16(old(self).registers.sp))) ==> final(self).bus.read_spec(
                dec16(dec16(old(self).registers.sp)),
            ) == low(old(self).registers.pc),
            !line_pending(final(self).bus.pending(), old(self).service_vector()),
            stack_outside_io(old(self).registers.sp) ==> forall|w: u16|
                is_vector(w) && w != old(self).service_vector() && line_pending(old(self).bus.pending(), w)
                    ==> #[trigger] line_pending(final(self).bus.pending(), w),
    {
        let e = self.bus.it_enable;
        let vector: u16 = if self.bus.ppu.vblank_int && e.vblank {
            interrupt::VBLANK
        } else if self.bus.ppu.lcd_stat_int && e.lcdc {
            interrupt::LCDC
        } else if self.bus.timer.interrupt && e.timer {
            interrupt::TIMER
        } else if self.bus.serial_int && e.serial {
            interrupt::SERIAL
        } else {
            interrupt::JOYPAD
        };
        self.interrupt(vector);
        let ghost entered = self.bus;
        if vector == interrupt::VBLANK {
            self.bus.ppu.vblank_int = false;
        } else if vector == interrupt::LCDC {
            self.bus.ppu.lcd_stat_int = false;
        } else if vector == interrupt::TIMER {
            self.bus.timer.interrupt = false;
        } else if vector == interrupt::SERIAL {
            self.bus.serial_int = false;
        } else {
            self.bus.joypad.interrupt = false;
        }
        proof {
            assert(forall|b: u16| memory(b) ==> #[trigger] self.bus.read_spec(b) == entered.read_spec(b));
            if stack_outside_io(old(self).registers.sp) {
                assert(pending_kept(&entered, &old(self).bus));
                assert forall|w: u16|
                    is_vector(w) && w != vector && line_pending(old(self).bus.pending(), w) implies #[trigger] line_pending(
                    self.bus.pending(),
                    w,
                ) by {
                    assert(line_pending(entered.pending(), w));
                }
            }
        }
    }

    /// Enters an interrupt handler: the master enable is cleared, the program
    /// counter pushed, and execution moves to `address`; five machine cycles in all.
    fn interrupt(&mut self, address: u16)
        requires
            old(self).wf(),
            old(self).cycles == 0,
        ensures
            final(self).wf(),
            final(self).cycles == 20,
            final(self).registers == (Registers { pc: address, sp: dec16(dec16(old(self).registers.sp)), ..old(self).registers }),
            !final(self).it_master_enable && !final(self).it_master_enable_next && !final(self).halted,
            memory(dec16(old(self).registers.sp)) ==> final(self).bus.read_spec(dec16(old(self).registers.sp))
                == high(old(self).registers.pc),
            memory(dec16(dec16(old(self).registers.sp))) ==> final(self).bus.read_spec(
                dec16(dec16(old(self).registers.sp)),
            ) == low(old(self).registers.pc),
            stack_outside_io(old(self).registers.sp) ==> pending_kept(&final(self).bus, &old(self).bus)
                && final(self).bus.it_enable == old(self).bus.it_enable,
    {
        self.halted = false;
        self.it_master_enable = false;
        self.it_master_enable_next = false;

        self.delay(2);
        self.push_word(self.registers.pc);
        self.delay(1);
        self.registers.pc = address;
    }

    /// Reads r8 register `reg`; (HL) reads memory.
    pub fn get_r8(&mut self, reg: u8) -> (r: u8)
        requires
            old(self).wf(),
            old(self).cycles <= u32::MAX - 4,
            reg < 8,
        ensures
            reg != 6 ==> r == old(self).reg8(reg) && *final(self) == *old(self),
            reg == 6 && stable(old(self).spec_hl()) ==> r == old(self).bus.read_spec(old(self).spec_hl()),
            reg == 6 ==> r == final(self).bus.read_spec(old(self).spec_hl()) && ticked(
                &final(self).bus,
                &old(self).bus,
            ) && final(self).cycles == old(self).cycles + 4 && final(self).registers == old(
                self,
            ).registers && final(self).flags == old(self).flags && final(self).same_control(old(self)),
    {
        match reg {
            0 => self.registers.b,
            1 => self.registers.c,
            2 => self.registers.d,
            3 => self.registers.e,
            4 => self.registers.h,
            5 => self.registers.l,
            6 => {
                let hl = self.get_hl();
                self.fetch_byte(hl)
            },
            _ => self.registers.a,
        }
    }

    /// Writes r8 register `reg`; (HL) writes memory.
    pub fn set_r8(&mut self, reg: u8, value: u8)
        requires
            old(self).wf(),
            old(self).cycles <= u32::MAX - 4,
            reg < 8,
        ensures
            final(self).wf(),
            final(self).flags == old(self).flags,
            final(self).same_control(old(self)),
            reg != 6 ==> final(self).registers == with_reg8(old(self).registers, reg, value)
                && final(self).bus == old(self).bus && final(self).cycles == old(self).cycles,
            reg == 6 ==> final(self).registers == old(self).registers && stored(
                &final(self).bus,
                &old(self).bus,
                old(self).spec_hl(),
                value,
            ) && final(self).cycles == old(self).cycles + 4,
    {
        match reg {
            0 => self.registers.b = value,
            1 => self.registers.c = value,
            2 => self.registers.d = value,
            3 => self.registers.e = value,
            4 => self.registers.h = value,
            5 => self.registers.l = value,
            6 => {
                let hl = self.get_hl();
                self.store_byte(hl, value);
            },
            _ => self.registers.a = value,
        }
    }

    pub fn get_r16_sp(&self, reg: u8) -> (r: u16)
        requires
            reg < 4,
        ensures
            r == self.r16_sp(reg),
    {
        match reg {
            0 => self.get_bc(),
            1 => self.get_de(),
            2 => self.get_hl(),
            _ => self.registers.sp,
        }
    }

    pub fn get_r16_af(&self, reg: u8) -> (r: u16)
        requires
            reg < 4,
        ensures
            r == self.r16_af(reg),
    {
        match reg {
            0 => self.get_bc(),
            1 => self.get_de(),
            2 => self.get_hl(),
            _ => self.get_af(),
        }
    }

    pub fn get_flag(&self, cond: u8) -> (r: bool)
        requires
            cond < 4,
        ensures
            r == self.condition(cond),
    {
        match cond {
            0 => !self.flags.z,
            1 => self.flags.z,
            2 => !self.flags.c,
            _ => self.flags.c,
        }
    }

    pub fn set_r16_sp(&mut self, reg: u8, value: u16)
        requires
            reg < 4,
        ensures
            final(self).registers == with_r16_sp(old(self).registers, reg, value),
            final(self).flags == old(self).flags,
            final(self).bus == old(self).bus && final(self).cycles == old(self).cycles,
            final(self).same_control(old(self)),
    {
        match reg {
            0 => self.set_bc(value),
            1 => self.set_de(value),
            2 => self.set_hl(value),
            _ => self.registers.sp = value,
        }
    }

    pub fn set_r16_af(&mut self, reg: u8, value: u16)
        requires
            reg < 4,
        ensures
            reg < 3 ==> final(self).registers == with_r16_sp(old(self).registers, reg, value)
                && final(self).flags == old(self).flags,
            reg == 3 ==> final(self).registers == (Registers { a: high(value), ..old(self).registers })
                && final(self).flags == Flags::spec_from_u8(low(value)),
            final(self).bus == old(self).bus && final(self).cycles == old(self).cycles,
            final(self).same_control(old(self)),
    {
        match reg {
            0 => self.set_bc(value),
            1 => self.set_de(value),
            2 => self.set_hl(value),
            _ => self.set_af(value),
        }
    }

    /// Writes a word, low byte first.
    pub fn store_word(&mut self, address: u16, value: u16)
        requires
            old(self).wf(),
            old(self).cycles <= u32::MAX - 8,
        ensures
            final(self).wf(),
            final(self).cycles == old(self).cycles + 8,
            final(self).registers == old(self).registers && final(self).flags == old(self).flags,
            final(self).same_control(old(self)),
            memory(address) ==> final(self).bus.read_spec(address) == low(value),
            memory(inc16(address)) ==> final(self).bus.read_spec(inc16(address)) == high(value),
            forall|b: u16|
                memory(b) && !same_cell(address, b) && !same_cell(inc16(address), b)
                    ==> #[trigger] final(self).bus.read_spec(b) == old(self).bus.read_spec(b),
    {
        self.store_byte(address, (value % 256) as u8);
        self.store_byte(address.wrapping_add(1), (value / 256) as u8);
    }

    pub fn push_byte(&mut self, value: u8)
        requires
            old(self).wf(),
            old(self).cycles <= u32::MAX - 4,
        ensures
            final(self).registers == (Registers { sp: dec16(old(self).registers.sp), ..old(self).registers }),
            stored(&final(self).bus, &old(self).bus, dec16(old(self).registers.sp), value),
            final(self).cycles == old(self).cycles + 4,
            final(self).flags == old(self).flags,
            final(self).same_control(old(self)),
    {
        self.registers.sp = self.registers.sp.wrapping_sub(1);
        self.store_byte(self.registers.sp, value);
    }

    /// Pushes a word: high byte first, so the low byte ends at the lower address.
    pub fn push_word(&mut self, value: u16)
        requires
            old(self).wf(),
            old(self).cycles <= u32::MAX - 8,
        ensures
            pushed(final(self), old(self), value),
    {
        self.push_byte((value / 256) as u8);
        self.push_byte((value % 256) as u8);
    }

    pub fn pop_byte(&mut self) -> (r: u8)
        requires
            old(self).wf(),
            old(self).cycles <= u32::MAX - 4,
        ensures
            ticked(&final(self).bus, &old(self).bus),
            final(self).registers == (Registers { sp: inc16(old(self).registers.sp), ..old(self).registers }),
            stable(old(self).registers.sp) ==> r == old(self).bus.read_spec(old(self).registers.sp),
            final(self).cycles == old(self).cycles + 4,
            final(self).flags == old(self).flags,
            final(self).same_control(old(self)),
    {
        let value = self.fetch_byte(self.registers.sp);
        self.registers.sp = self.registers.sp.wrapping_add(1);
        value
    }

    pub fn pop_word(&mut self) -> (r: u16)
        requires
            old(self).wf(),
            old(self).cycles <= u32::MAX - 8,
        ensures
            popped(final(self), old(self), r),
    {
        let low = self.pop_byte() as u16;
        let high = self.pop_byte() as u16;
        high * 256 + low
    }
}

/// An executed instruction leaves the master enable set, but DI, which clears it.
proof fn lemma_executed_control(after: &Cpu, before: &Cpu, opcode: u8)
    requires
        executed(after, before, opcode),
    ensures
        opcode != 0xf3 && before.it_master_enable ==> after.it_master_enable,
        opcode == 0xf3 ==> !after.it_master_enable && !after.it_master_enable_next,
{
    reveal(executed);
    let y = (opcode / 8) % 8;
    let z = opcode % 8;
    if opcode < 0x40 {
        lemma_block0_control(after, before, y, z);
    } else if opcode == 0x76 {
        assert(opcodes::halt_effect(after, before));
    } else if opcode < 0x80 {
        assert(opcodes::ld_r8_r8_effect(after, before, y, z));
    } else if opcode < 0xc0 {
        assert(opcodes::alu_a_r8_effect(after, before, y, z));
    } else if opcode == 0xcb {
        let mid = choose|mid: Cpu|
            #[trigger] operand_fetched(&mid, before) && decode::cb_executed(
                after,
                &mid,
                mid.bus.read_spec(before.registers.pc),
            );
        lemma_cb_control(after, &mid, mid.bus.read_spec(before.registers.pc));
    } else if z < 3 {
        lemma_block3_low_control(after, before, y, z);
    } else {
        lemma_block3_high_control(after, before, y, z);
    }
}

#[verifier::rlimit(50)]
proof fn lemma_block0_control(after: &Cpu, before: &Cpu, y: u8, z: u8)
    requires
        decode::block0_effect(after, before, y, z),
    ensures
        after.same_control(before),
{
}

#[verifier::rlimit(50)]
proof fn lemma_cb_control(after: &Cpu, before: &Cpu, opcode: u8)
    requires
        decode::cb_executed(after, before, opcode),
    ensures
        after.same_control(before),
{
}

#[verifier::rlimit(50)]
proof fn lemma_block3_low_control(after: &Cpu, before: &Cpu, y: u8, z: u8)
    requires
        decode::block3_low_effect(after, before, y, z),
    ensures
        before.it_master_enable ==> after.it_master_enable,
{
}

#[verifier::rlimit(50)]
proof fn lemma_block3_high_control(after: &Cpu, before: &Cpu, y: u8, z: u8)
    requires
        decode::block3_high_effect(after, before, y, z),
    ensures
        !(z == 3 && y == 6) && before.it_master_enable ==> after.it_master_enable,
        z == 3 && y == 6 ==> !after.it_master_enable && !after.it_master_enable_next,
{
}

/// Popping right after a push gives the pushed value back and restores every
/// register, when both stack bytes are plain memory.
pub proof fn lemma_push_pop(c0: &Cpu, c1: &Cpu, c2: &Cpu, v: u16, r: u16)
    requires
        pushed(c1, c0, v),
        popped(c2, c1, r),
        memory(dec16(c0.registers.sp)),
        memory(dec16(dec16(c0.registers.sp))),
    ensures
        r == v,
        c2.registers == c0.registers,
        c2.flags == c0.flags,
        c2.same_control(c0),
{
    let s1 = dec16(c0.registers.sp);
    let s2 = dec16(s1);
    assert(!same_cell(s2, s1));
    assert(r == pair(high(v), low(v)));
}

} // verus!
