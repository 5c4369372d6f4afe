use vstd::prelude::*;
use super::{Cpu, Registers, ticked, stored, pair, high, low, inc16, dec16,
    with_reg8, with_r16_sp};
use super::alu::{Flags, alu8, alu8_exec, inc8, inc8_exec, dec8, dec8_exec, add16, add16_exec,
    add_sp, add_sp_exec, daa_exec, shift8, shift8_exec};
use crate::io::{memory, stable};

verus! {

/// The byte after the program counter.
pub open spec fn imm8(c: &Cpu) -> u8 {
    c.bus.read_spec(c.registers.pc)
}

/// The little-endian word after the program counter.
pub open spec fn imm16(c: &Cpu) -> u16 {
    pair(c.bus.read_spec(inc16(c.registers.pc)), c.bus.read_spec(c.registers.pc))
}

/// Whether the operand bytes after the program counter cannot change while they are read.
pub open spec fn code_stable(c: &Cpu, n: int) -> bool {
    &&& n >= 1 ==> stable(c.registers.pc)
    &&& n >= 2 ==> stable(inc16(c.registers.pc))
}

/// The program counter advanced past `n` operand bytes.
pub open spec fn pc_plus(pc: u16, n: int) -> u16 {
    if n == 0 { pc } else if n == 1 { inc16(pc) } else { inc16(inc16(pc)) }
}

/// A step that only changes registers and flags and takes `clocks`.
pub open spec fn moved(after: &Cpu, before: &Cpu, r: Registers, f: Flags, clocks: int) -> bool {
    &&& after.registers == r
    &&& after.flags == f
    &&& after.cycles == before.cycles + clocks
    &&& after.same_control(before)
    &&& after.bus == before.bus
}

/// A step that changes registers and flags, reads memory and takes `clocks`.
pub open spec fn read_moved(after: &Cpu, before: &Cpu, r: Registers, f: Flags, clocks: int) -> bool {
    &&& after.registers == r
    &&& after.flags == f
    &&& after.cycles == before.cycles + clocks
    &&& after.same_control(before)
    &&& ticked(&after.bus, &before.bus)
}

/// The value of r8 operand `reg` for a step that read (HL) last: the byte the bus
/// holds at HL afterwards, or the register.
pub open spec fn operand(after: &Cpu, before: &Cpu, reg: u8) -> u8 {
    if reg == 6 { after.bus.read_spec(before.spec_hl()) } else { before.reg8(reg) }
}

pub open spec fn r8_clocks(reg: u8) -> int {
    if reg == 6 { 4 } else { 0 }
}

/// Reads the byte at the program counter and steps past it.
fn next_byte(cpu: &mut Cpu) -> (r: u8)
    requires
        old(cpu).wf(),
        old(cpu).cycles <= u32::MAX - 4,
    ensures
        read_moved(final(cpu), old(cpu), Registers { pc: inc16(old(cpu).registers.pc), ..old(cpu).registers },
            old(cpu).flags, 4),
        stable(old(cpu).registers.pc) ==> r == imm8(old(cpu)),
{
    let fetched = cpu.fetch_byte(cpu.registers.pc);
    cpu.registers.pc = cpu.registers.pc.wrapping_add(1);
    fetched
}

/// Reads the little-endian word at the program counter and steps past it.
fn next_word(cpu: &mut Cpu) -> (r: u16)
    requires
        old(cpu).wf(),
        old(cpu).cycles <= u32::MAX - 8,
    ensures
        read_moved(final(cpu), old(cpu), Registers { pc: pc_plus(old(cpu).registers.pc, 2), ..old(cpu).registers },
            old(cpu).flags, 8),
        code_stable(old(cpu), 2) ==> r == imm16(old(cpu)),
{
    let lo = next_byte(cpu) as u16;
    let hi = next_byte(cpu) as u16;
    hi * 256 + lo
}

pub fn nop() {
}

/// What `di` does.
pub open spec fn di_effect(after: &Cpu, before: &Cpu) -> bool {
    &&& (*after == (Cpu { it_master_enable: false, it_master_enable_next: false, ..*before }))
}

/// DI: the master enable is cleared at once.
pub fn di(cpu: &mut Cpu)
    ensures
        di_effect(final(cpu), old(cpu)),
{
    cpu.it_master_enable = false;
    cpu.it_master_enable_next = false;
}

/// What `ei` does.
pub open spec fn ei_effect(after: &Cpu, before: &Cpu) -> bool {
    &&& (*after == (Cpu { it_master_enable_next: true, ..*before }))
}

/// EI: the master enable is set before the next instruction.
pub fn ei(cpu: &mut Cpu)
    ensures
        ei_effect(final(cpu), old(cpu)),
{
    cpu.it_master_enable_next = true;
}

/// What `halt` does.
pub open spec fn halt_effect(after: &Cpu, before: &Cpu) -> bool {
    &&& (*after == (Cpu { halted: true, ..*before }))
}

/// HALT: the processor waits for an interrupt.
pub fn halt(cpu: &mut Cpu)
    ensures
        halt_effect(final(cpu), old(cpu)),
{
    cpu.halted = true;
}

/// What `stop` does.
pub open spec fn stop_effect(after: &Cpu, before: &Cpu) -> bool {
    &&& (read_moved(after, before, Registers { pc: inc16(before.registers.pc), ..before.registers },
                before.flags, 4))
}

/// STOP: its operand byte is skipped and nothing else happens.
pub fn stop(cpu: &mut Cpu)
    requires
        old(cpu).wf(),
        old(cpu).cycles <= u32::MAX - 24,
    ensures
        stop_effect(final(cpu), old(cpu)),
{
    next_byte(cpu);
}

/// What `scf` does.
pub open spec fn scf_effect(after: &Cpu, before: &Cpu) -> bool {
    &&& (moved(after, before, before.registers, Flags { n: false, h: false, c: true, ..before.flags }, 0))
}

/// SCF: C set, N and H cleared.
pub fn scf(cpu: &mut Cpu)
    ensures
        scf_effect(final(cpu), old(cpu)),
{
    cpu.flags = Flags { z: cpu.flags.z, n: false, h: false, c: true };
}

/// What `ccf` does.
pub open spec fn ccf_effect(after: &Cpu, before: &Cpu) -> bool {
    &&& (moved(after, before, before.registers, Flags { n: false, h: false, c: !before.flags.c, ..before.flags }, 0))
}

/// CCF: C inverted, N and H cleared.
pub fn ccf(cpu: &mut Cpu)
    ensures
        ccf_effect(final(cpu), old(cpu)),
{
    cpu.flags = Flags { z: cpu.flags.z, n: false, h: false, c: !cpu.flags.c };
}

/// What `cpl` does.
pub open spec fn cpl_effect(after: &Cpu, before: &Cpu) -> bool {
    &&& (moved(after, before, Registers { a: !before.registers.a, ..before.registers },
                Flags { n: true, h: true, ..before.flags }, 0))
}

/// CPL: A inverted, N and H set.
pub fn cpl(cpu: &mut Cpu)
    ensures
        cpl_effect(final(cpu), old(cpu)),
{
    cpu.registers.a = !cpu.registers.a;
    cpu.flags = Flags { z: cpu.flags.z, n: true, h: true, c: cpu.flags.c };
}

/// What `daa` does.
pub open spec fn daa_effect(after: &Cpu, before: &Cpu) -> bool {
    &&& (moved(after, before, Registers { a: super::alu::daa(before.registers.a, before.flags).0, ..before.registers },
                super::alu::daa(before.registers.a, before.flags).1, 0))
}

/// DAA: decimal correction of A.
pub fn daa(cpu: &mut Cpu)
    ensures
        daa_effect(final(cpu), old(cpu)),
{
    let (a, f) = daa_exec(cpu.registers.a, cpu.flags);
    cpu.registers.a = a;
    cpu.flags = f;
}

/// What `ld_r16_u16` does.
pub open spec fn ld_r16_u16_effect(after: &Cpu, before: &Cpu, dest: u8) -> bool {
    &&& (code_stable(before, 2) ==> read_moved(after, before, with_r16_sp(
                Registers { pc: pc_plus(before.registers.pc, 2), ..before.registers },
                dest,
                imm16(before),
            ), before.flags, 8))
    &&& (after.wf())
    &&& (after.cycles == before.cycles + 8)
    &&& (after.same_control(before))
}

/// LD r16, u16
pub fn ld_r16_u16(cpu: &mut Cpu, dest: u8)
    requires
        old(cpu).wf(),
        old(cpu).cycles <= u32::MAX - 24,
        dest < 4,
    ensures
        ld_r16_u16_effect(final(cpu), old(cpu), dest),
{
    let imm = next_word(cpu);
    cpu.set_r16_sp(dest, imm);
}

/// What `ld_r8_u8` does.
pub open spec fn ld_r8_u8_effect(after: &Cpu, before: &Cpu, reg: u8) -> bool {
    &&& (after.wf())
    &&& (after.cycles == before.cycles + 4 + r8_clocks(reg))
    &&& (after.same_control(before))
    &&& (after.flags == before.flags)
    &&& (code_stable(before, 1) && reg != 6 ==> read_moved(after, before, with_reg8(
                Registers { pc: inc16(before.registers.pc), ..before.registers },
                reg,
                imm8(before),
            ), before.flags, 4))
    &&& (reg == 6 ==> after.registers == (Registers { pc: inc16(before.registers.pc), ..before.registers }))
    &&& (code_stable(before, 1) && reg == 6 ==> before.bus.writable(before.spec_hl())
                ==> after.bus.read_spec(before.spec_hl()) == imm8(before))
}

/// LD r8, u8
pub fn ld_r8_u8(cpu: &mut Cpu, reg: u8)
    requires
        old(cpu).wf(),
        old(cpu).cycles <= u32::MAX - 24,
        reg < 8,
    ensures
        ld_r8_u8_effect(final(cpu), old(cpu), reg),
{
    let imm = next_byte(cpu);
    cpu.set_r8(reg, imm);
}

/// What `ld_mr16_a` does.
pub open spec fn ld_mr16_a_effect(after: &Cpu, before: &Cpu, dest: u8) -> bool {
    &&& (stored(&after.bus, &before.bus, before.r16_sp(dest), before.registers.a))
    &&& (after.registers == before.registers && after.flags == before.flags)
    &&& (after.cycles == before.cycles + 4)
    &&& (after.same_control(before))
}

/// LD (r16), A with BC or DE; LD (HL+), A and LD (HL-), A step HL after.
pub fn ld_mr16_a(cpu: &mut Cpu, dest: u8)
    requires
        old(cpu).wf(),
        old(cpu).cycles <= u32::MAX - 24,
        dest < 2,
    ensures
        ld_mr16_a_effect(final(cpu), old(cpu), dest),
{
    let address = cpu.get_r16_sp(dest);
    cpu.store_byte(address, cpu.registers.a);
}

/// What `ld_a_mr16` does.
pub open spec fn ld_a_mr16_effect(after: &Cpu, before: &Cpu, src: u8) -> bool {
    &&& (read_moved(after, before, Registers { a: after.bus.read_spec(before.r16_sp(src)), ..before.registers },
                before.flags, 4))
}

/// LD A, (r16) with BC or DE.
pub fn ld_a_mr16(cpu: &mut Cpu, src: u8)
    requires
        old(cpu).wf(),
        old(cpu).cycles <= u32::MAX - 24,
        src < 2,
    ensures
        ld_a_mr16_effect(final(cpu), old(cpu), src),
{
    let address = cpu.get_r16_sp(src);
    cpu.registers.a = cpu.fetch_byte(address);
}

/// What `ldi_mhl_a` does.
pub open spec fn ldi_mhl_a_effect(after: &Cpu, before: &Cpu) -> bool {
    &&& (stored(&after.bus, &before.bus, before.spec_hl(), before.registers.a))
    &&& (after.registers == with_r16_sp(before.registers, 2, inc16(before.spec_hl())))
    &&& (after.flags == before.flags)
    &&& (after.cycles == before.cycles + 4)
    &&& (after.same_control(before))
}

/// LD (HL+), A
pub fn ldi_mhl_a(cpu: &mut Cpu)
    requires
        old(cpu).wf(),
        old(cpu).cycles <= u32::MAX - 24,
    ensures
        ldi_mhl_a_effect(final(cpu), old(cpu)),
{
    let hl = cpu.get_hl();
    cpu.store_byte(hl, cpu.registers.a);
    cpu.set_hl(hl.wrapping_add(1));
}

/// What `ldi_a_mhl` does.
pub open spec fn ldi_a_mhl_effect(after: &Cpu, before: &Cpu) -> bool {
    &&& (read_moved(after, before, with_r16_sp(
                Registers { a: after.bus.read_spec(before.spec_hl()), ..before.registers },
                2,
                inc16(before.spec_hl()),
            ), before.flags, 4))
}

/// LD A, (HL+)
pub fn ldi_a_mhl(cpu: &mut Cpu)
    requires
        old(cpu).wf(),
        old(cpu).cycles <= u32::MAX - 24,
    ensures
        ldi_a_mhl_effect(final(cpu), old(cpu)),
{
    let hl = cpu.get_hl();
    cpu.registers.a = cpu.fetch_byte(hl);
    cpu.set_hl(hl.wrapping_add(1));
}

/// What `ldd_mhl_a` does.
pub open spec fn ldd_mhl_a_effect(after: &Cpu, before: &Cpu) -> bool {
    &&& (stored(&after.bus, &before.bus, before.spec_hl(), before.registers.a))
    &&& (after.registers == with_r16_sp(before.registers, 2, dec16(before.spec_hl())))
    &&& (after.flags == before.flags)
    &&& (after.cycles == before.cycles + 4)
    &&& (after.same_control(before))
}

/// LD (HL-), A
pub fn ldd_mhl_a(cpu: &mut Cpu)
    requires
        old(cpu).wf(),
        old(cpu).cycles <= u32::MAX - 24,
    ensures
        ldd_mhl_a_effect(final(cpu), old(cpu)),
{
    let hl = cpu.get_hl();
    cpu.store_byte(hl, cpu.registers.a);
    cpu.set_hl(hl.wrapping_sub(1));
}

/// What `ldd_a_mhl` does.
pub open spec fn ldd_a_mhl_effect(after: &Cpu, before: &Cpu) -> bool {
    &&& (read_moved(after, before, with_r16_sp(
                Registers { a: after.bus.read_spec(before.spec_hl()), ..before.registers },
                2,
                dec16(before.spec_hl()),
            ), before.flags, 4))
}

/// LD A, (HL-)
pub fn ldd_a_mhl(cpu: &mut Cpu)
    requires
        old(cpu).wf(),
        old(cpu).cycles <= u32::MAX - 24,
    ensures
        ldd_a_mhl_effect(final(cpu), old(cpu)),
{
    let hl = cpu.get_hl();
    cpu.registers.a = cpu.fetch_byte(hl);
    cpu.set_hl(hl.wrapping_sub(1));
}

/// What `ld_mu16_sp` does.
pub open spec fn ld_mu16_sp_effect(after: &Cpu, before: &Cpu) -> bool {
    &&& (after.wf())
    &&& (after.registers == (Registers { pc: pc_plus(before.registers.pc, 2), ..before.registers }))
    &&& (after.flags == before.flags)
    &&& (after.cycles == before.cycles + 16)
    &&& (after.same_control(before))
    &&& (code_stable(before, 2) && memory(imm16(before)) ==> after.bus.read_spec(
                imm16(before),
            ) == low(before.registers.sp))
}

/// LD (u16), SP: the low byte first.
pub fn ld_mu16_sp(cpu: &mut Cpu)
    requires
        old(cpu).wf(),
        old(cpu).cycles <= u32::MAX - 24,
    ensures
        ld_mu16_sp_effect(final(cpu), old(cpu)),
{
    let address = next_word(cpu);
    cpu.store_word(address, cpu.registers.sp);
}

/// What `ld_r8_r8` does.
pub open spec fn ld_r8_r8_effect(after: &Cpu, before: &Cpu, dst: u8, src: u8) -> bool {
    &&& (after.wf())
    &&& (after.cycles == before.cycles + r8_clocks(dst) + r8_clocks(src))
    &&& (after.same_control(before))
    &&& (after.flags == before.flags)
    &&& (dst != 6 ==> read_moved(after, before, with_reg8(before.registers, dst, operand(after, before, src)),
                before.flags, r8_clocks(src)))
    &&& (dst == 6 ==> stored(&after.bus, &before.bus, before.spec_hl(), before.reg8(src))
                && after.registers == before.registers)
}

/// LD r8, r8; the (HL), (HL) encoding is HALT and never reaches here.
pub fn ld_r8_r8(cpu: &mut Cpu, dst: u8, src: u8)
    requires
        old(cpu).wf(),
        old(cpu).cycles <= u32::MAX - 24,
        dst < 8,
        src < 8,
        !(dst == 6 && src == 6),
    ensures
        ld_r8_r8_effect(final(cpu), old(cpu), dst, src),
{
    let value = cpu.get_r8(src);
    cpu.set_r8(dst, value);
}

/// What `ldh_mu8_a` does.
pub open spec fn ldh_mu8_a_effect(after: &Cpu, before: &Cpu) -> bool {
    &&& (after.wf())
    &&& (after.registers == (Registers { pc: inc16(before.registers.pc), ..before.registers }))
    &&& (after.flags == before.flags)
    &&& (after.cycles == before.cycles + 8)
    &&& (after.same_control(before))
    &&& (code_stable(before, 1) && before.bus.writable((0xff00 + imm8(before)) as u16) ==> after.bus.read_spec(
                (0xff00 + imm8(before)) as u16,
            ) == before.registers.a)
}

/// LDH (u8), A
pub fn ldh_mu8_a(cpu: &mut Cpu)
    requires
        old(cpu).wf(),
        old(cpu).cycles <= u32::MAX - 24,
    ensures
        ldh_mu8_a_effect(final(cpu), old(cpu)),
{
    let imm = next_byte(cpu);
    cpu.store_byte(0xff00 + imm as u16, cpu.registers.a);
}

/// What `ldh_mc_a` does.
pub open spec fn ldh_mc_a_effect(after: &Cpu, before: &Cpu) -> bool {
    &&& (stored(&after.bus, &before.bus, (0xff00 + before.registers.c) as u16, before.registers.a))
    &&& (after.registers == before.registers && after.flags == before.flags)
    &&& (after.cycles == before.cycles + 4)
    &&& (after.same_control(before))
}

/// LDH (C), A
pub fn ldh_mc_a(cpu: &mut Cpu)
    requires
        old(cpu).wf(),
        old(cpu).cycles <= u32::MAX - 24,
    ensures
        ldh_mc_a_effect(final(cpu), old(cpu)),
{
    cpu.store_byte(0xff00 + cpu.registers.c as u16, cpu.registers.a);
}

/// What `ld_mu16_a` does.
pub open spec fn ld_mu16_a_effect(after: &Cpu, before: &Cpu) -> bool {
    &&& (after.wf())
    &&& (after.registers == (Registers { pc: pc_plus(before.registers.pc, 2), ..before.registers }))
    &&& (after.flags == before.flags)
    &&& (after.cycles == before.cycles + 12)
    &&& (after.same_control(before))
    &&& (code_stable(before, 2) && before.bus.writable(imm16(before)) && memory(imm16(before))
                ==> after.bus.read_spec(imm16(before)) == before.registers.a)
}

/// LD (u16), A
pub fn ld_mu16_a(cpu: &mut Cpu)
    requires
        old(cpu).wf(),
        old(cpu).cycles <= u32::MAX - 24,
    ensures
        ld_mu16_a_effect(final(cpu), old(cpu)),
{
    let address = next_word(cpu);
    cpu.store_byte(address, cpu.registers.a);
}

/// What `ldh_a_mc` does.
pub open spec fn ldh_a_mc_effect(after: &Cpu, before: &Cpu) -> bool {
    &&& (read_moved(after, before, Registers {
                a: after.bus.read_spec((0xff00 + before.registers.c) as u16),
                ..before.registers
            }, before.flags, 4))
}

/// LDH A, (C)
pub fn ldh_a_mc(cpu: &mut Cpu)
    requires
        old(cpu).wf(),
        old(cpu).cycles <= u32::MAX - 24,
    ensures
        ldh_a_mc_effect(final(cpu), old(cpu)),
{
    cpu.registers.a = cpu.fetch_byte(0xff00 + cpu.registers.c as u16);
}

/// What `ldh_a_mu8` does.
pub open spec fn ldh_a_mu8_effect(after: &Cpu, before: &Cpu) -> bool {
    &&& (after.wf())
    &&& (ticked(&after.bus, &before.bus))
    &&& (after.registers == (Registers { pc: inc16(before.registers.pc), a: after.registers.a, ..before.registers }))
    &&& (code_stable(before, 1) ==> after.registers.a == after.bus.read_spec((0xff00 + imm8(before)) as u16))
    &&& (after.flags == before.flags)
    &&& (after.cycles == before.cycles + 8)
    &&& (after.same_control(before))
}

/// LDH A, (u8)
pub fn ldh_a_mu8(cpu: &mut Cpu)
    requires
        old(cpu).wf(),
        old(cpu).cycles <= u32::MAX - 24,
    ensures
        ldh_a_mu8_effect(final(cpu), old(cpu)),
{
    let imm = next_byte(cpu);
    cpu.registers.a = cpu.fetch_byte(0xff00 + imm as u16);
}

/// What `ld_a_mu16` does.
pub open spec fn ld_a_mu16_effect(after: &Cpu, before: &Cpu) -> bool {
    &&& (after.wf())
    &&& (ticked(&after.bus, &before.bus))
    &&& (after.registers == (Registers { pc: pc_plus(before.registers.pc, 2), a: after.registers.a, ..before.registers }))
    &&& (code_stable(before, 2) ==> after.registers.a == after.bus.read_spec(imm16(before)))
    &&& (after.flags == before.flags)
    &&& (after.cycles == before.cycles + 12)
    &&& (after.same_control(before))
}

/// LD A, (u16)
pub fn ld_a_mu16(cpu: &mut Cpu)
    requires
        old(cpu).wf(),
        old(cpu).cycles <= u32::MAX - 24,
    ensures
        ld_a_mu16_effect(final(cpu), old(cpu)),
{
    let address = next_word(cpu);
    cpu.registers.a = cpu.fetch_byte(address);
}

/// What `pop_r16` does.
pub open spec fn pop_r16_effect(after: &Cpu, before: &Cpu, reg: u8) -> bool {
    &&& (after.wf())
    &&& (ticked(&after.bus, &before.bus))
    &&& (after.cycles == before.cycles + 8)
    &&& (after.same_control(before))
    &&& (({
                let s0 = before.registers.sp;
                let v = pair(before.bus.read_spec(inc16(s0)), before.bus.read_spec(s0));
                let moved_sp = Registers { sp: inc16(inc16(s0)), ..before.registers };
                stable(s0) && stable(inc16(s0)) ==> if reg < 3 {
                    after.registers == with_r16_sp(moved_sp, reg, v) && after.flags == before.flags
                } else {
                    after.registers == (Registers { a: high(v), ..moved_sp })
                        && after.flags == Flags::spec_from_u8(low(v))
                }
            }))
}

/// POP r16 (BC, DE, HL, AF); F keeps only its high nibble.
pub fn pop_r16(cpu: &mut Cpu, reg: u8)
    requires
        old(cpu).wf(),
        old(cpu).cycles <= u32::MAX - 24,
        reg < 4,
    ensures
        pop_r16_effect(final(cpu), old(cpu), reg),
{
    let popped_value = cpu.pop_word();
    cpu.set_r16_af(reg, popped_value);
}

/// What `push_r16` does.
pub open spec fn push_r16_effect(after: &Cpu, before: &Cpu, reg: u8) -> bool {
    &&& (after.wf())
    &&& (after.cycles == before.cycles + 12)
    &&& (after.registers == (Registers { sp: dec16(dec16(before.registers.sp)), ..before.registers }))
    &&& (after.flags == before.flags)
    &&& (after.same_control(before))
    &&& (memory(dec16(before.registers.sp)) ==> after.bus.read_spec(dec16(before.registers.sp))
                == high(before.r16_af(reg)))
    &&& (memory(dec16(dec16(before.registers.sp))) ==> after.bus.read_spec(dec16(dec16(before.registers.sp)))
                == low(before.r16_af(reg)))
}

/// PUSH r16 (BC, DE, HL, AF): one internal cycle, then the two stores.
pub fn push_r16(cpu: &mut Cpu, reg: u8)
    requires
        old(cpu).wf(),
        old(cpu).cycles <= u32::MAX - 24,
        reg < 4,
    ensures
        push_r16_effect(final(cpu), old(cpu), reg),
{
    let value = cpu.get_r16_af(reg);
    cpu.delay(1);
    cpu.push_word(value);
}

/// What `ld_sp_hl` does.
pub open spec fn ld_sp_hl_effect(after: &Cpu, before: &Cpu) -> bool {
    &&& (read_moved(after, before, Registers { sp: before.spec_hl(), ..before.registers }, before.flags, 4))
}

/// LD SP, HL
pub fn ld_sp_hl(cpu: &mut Cpu)
    requires
        old(cpu).wf(),
        old(cpu).cycles <= u32::MAX - 24,
    ensures
        ld_sp_hl_effect(final(cpu), old(cpu)),
{
    let hl = cpu.get_hl();
    cpu.registers.sp = hl;
    cpu.delay(1);
}

/// What `ld_hl_sp_i8` does.
pub open spec fn ld_hl_sp_i8_effect(after: &Cpu, before: &Cpu) -> bool {
    &&& (code_stable(before, 1) ==> read_moved(after, before, with_r16_sp(
                Registers { pc: inc16(before.registers.pc), ..before.registers },
                2,
                add_sp(before.registers.sp, imm8(before)).0,
            ), add_sp(before.registers.sp, imm8(before)).1, 8))
    &&& (after.wf())
    &&& (after.cycles == before.cycles + 8)
    &&& (after.same_control(before))
}

/// LD HL, SP+i8
pub fn ld_hl_sp_i8(cpu: &mut Cpu)
    requires
        old(cpu).wf(),
        old(cpu).cycles <= u32::MAX - 24,
    ensures
        ld_hl_sp_i8_effect(final(cpu), old(cpu)),
{
    let e = next_byte(cpu);
    let (r, f) = add_sp_exec(cpu.registers.sp, e);
    cpu.set_hl(r);
    cpu.flags = f;
    cpu.delay(1);
}

/// What `add_sp_i8` does.
pub open spec fn add_sp_i8_effect(after: &Cpu, before: &Cpu) -> bool {
    &&& (code_stable(before, 1) ==> read_moved(after, before, Registers {
                pc: inc16(before.registers.pc),
                sp: add_sp(before.registers.sp, imm8(before)).0,
                ..before.registers
            }, add_sp(before.registers.sp, imm8(before)).1, 12))
    &&& (after.wf())
    &&& (after.cycles == before.cycles + 12)
    &&& (after.same_control(before))
}

/// ADD SP, i8
pub fn add_sp_i8(cpu: &mut Cpu)
    requires
        old(cpu).wf(),
        old(cpu).cycles <= u32::MAX - 24,
    ensures
        add_sp_i8_effect(final(cpu), old(cpu)),
{
    let e = next_byte(cpu);
    let (r, f) = add_sp_exec(cpu.registers.sp, e);
    cpu.registers.sp = r;
    cpu.flags = f;
    cpu.delay(2);
}

/// What `alu_a_r8` does.
pub open spec fn alu_a_r8_effect(after: &Cpu, before: &Cpu, op: u8, reg: u8) -> bool {
    &&& (after.wf())
    &&& (reg != 6 ==> after.bus == before.bus)
    &&& (({
                let (a, f) = alu8(op, before.registers.a, operand(after, before, reg), before.flags);
                read_moved(after, before, Registers { a: a, ..before.registers }, f, r8_clocks(reg))
            }))
}

/// The ALU group with an r8 operand: ADD, ADC, SUB, SBC, AND, XOR, OR, CP by `op`.
pub fn alu_a_r8(cpu: &mut Cpu, op: u8, reg: u8)
    requires
        old(cpu).wf(),
        old(cpu).cycles <= u32::MAX - 24,
        op < 8,
        reg < 8,
    ensures
        alu_a_r8_effect(final(cpu), old(cpu), op, reg),
{
    let value = cpu.get_r8(reg);
    alu_a_v8(cpu, op, value);
}

/// What `alu_a_u8` does.
pub open spec fn alu_a_u8_effect(after: &Cpu, before: &Cpu, op: u8) -> bool {
    &&& (after.wf())
    &&& (after.cycles == before.cycles + 4)
    &&& (after.same_control(before))
    &&& (code_stable(before, 1) ==> ({
                let (a, f) = alu8(op, before.registers.a, imm8(before), before.flags);
                read_moved(after, before, Registers { a: a, pc: inc16(before.registers.pc), ..before.registers }, f, 4)
            }))
}

/// The ALU group with an immediate operand.
pub fn alu_a_u8(cpu: &mut Cpu, op: u8)
    requires
        old(cpu).wf(),
        old(cpu).cycles <= u32::MAX - 24,
        op < 8,
    ensures
        alu_a_u8_effect(final(cpu), old(cpu), op),
{
    let value = next_byte(cpu);
    alu_a_v8(cpu, op, value);
}

/// What `alu_a_v8` does.
pub open spec fn alu_a_v8_effect(after: &Cpu, before: &Cpu, op: u8, val: u8) -> bool {
    &&& (({
                let (a, f) = alu8(op, before.registers.a, val, before.flags);
                moved(after, before, Registers { a: a, ..before.registers }, f, 0)
            }))
}

/// The ALU group on A and a value.
pub fn alu_a_v8(cpu: &mut Cpu, op: u8, val: u8)
    requires
        op < 8,
    ensures
        alu_a_v8_effect(final(cpu), old(cpu), op, val),
{
    let (a, f) = alu8_exec(op, cpu.registers.a, val, cpu.flags);
    cpu.registers.a = a;
    cpu.flags = f;
}

/// What `add_hl_r16` does.
pub open spec fn add_hl_r16_effect(after: &Cpu, before: &Cpu, reg: u8) -> bool {
    &&& (({
                let (r, f) = add16(before.spec_hl(), before.r16_sp(reg), before.flags);
                read_moved(after, before, with_r16_sp(before.registers, 2, r), f, 4)
            }))
}

/// ADD HL, r16
pub fn add_hl_r16(cpu: &mut Cpu, reg: u8)
    requires
        old(cpu).wf(),
        old(cpu).cycles <= u32::MAX - 24,
        reg < 4,
    ensures
        add_hl_r16_effect(final(cpu), old(cpu), reg),
{
    let (r, f) = add16_exec(cpu.get_hl(), cpu.get_r16_sp(reg), cpu.flags);
    cpu.set_hl(r);
    cpu.flags = f;
    cpu.delay(1);
}

/// What `inc_r16` does.
pub open spec fn inc_r16_effect(after: &Cpu, before: &Cpu, reg: u8) -> bool {
    &&& (read_moved(after, before, with_r16_sp(before.registers, reg, inc16(before.r16_sp(reg))), before.flags, 4))
}

/// INC r16
pub fn inc_r16(cpu: &mut Cpu, reg: u8)
    requires
        old(cpu).wf(),
        old(cpu).cycles <= u32::MAX - 24,
        reg < 4,
    ensures
        inc_r16_effect(final(cpu), old(cpu), reg),
{
    let value = cpu.get_r16_sp(reg);
    cpu.set_r16_sp(reg, value.wrapping_add(1));
    cpu.delay(1);
}

/// What `dec_r16` does.
pub open spec fn dec_r16_effect(after: &Cpu, before: &Cpu, reg: u8) -> bool {
    &&& (read_moved(after, before, with_r16_sp(before.registers, reg, dec16(before.r16_sp(reg))), before.flags, 4))
}

/// DEC r16
pub fn dec_r16(cpu: &mut Cpu, reg: u8)
    requires
        old(cpu).wf(),
        old(cpu).cycles <= u32::MAX - 24,
        reg < 4,
    ensures
        dec_r16_effect(final(cpu), old(cpu), reg),
{
    let value = cpu.get_r16_sp(reg);
    cpu.set_r16_sp(reg, value.wrapping_sub(1));
    cpu.delay(1);
}

/// What `inc_r8` does.
pub open spec fn inc_r8_effect(after: &Cpu, before: &Cpu, reg: u8) -> bool {
    &&& (after.wf())
    &&& (after.cycles == before.cycles + 2 * r8_clocks(reg))
    &&& (after.same_control(before))
    &&& (reg != 6 ==> moved(after, before, with_reg8(before.registers, reg, inc8(before.reg8(reg), before.flags).0),
                inc8(before.reg8(reg), before.flags).1, 0))
    &&& (reg == 6 ==> after.registers == before.registers)
    &&& (reg == 6 && memory(before.spec_hl()) ==> after.bus.read_spec(before.spec_hl()) == inc8(before.bus.read_spec(before.spec_hl()), before.flags).0
                && after.flags == inc8(before.bus.read_spec(before.spec_hl()), before.flags).1)
}

/// INC r8
pub fn inc_r8(cpu: &mut Cpu, reg: u8)
    requires
        old(cpu).wf(),
        old(cpu).cycles <= u32::MAX - 24,
        reg < 8,
    ensures
        inc_r8_effect(final(cpu), old(cpu), reg),
{
    let value = cpu.get_r8(reg);
    let (r, f) = inc8_exec(value, cpu.flags);
    cpu.set_r8(reg, r);
    cpu.flags = f;
}

/// What `dec_r8` does.
pub open spec fn dec_r8_effect(after: &Cpu, before: &Cpu, reg: u8) -> bool {
    &&& (after.wf())
    &&& (after.cycles == before.cycles + 2 * r8_clocks(reg))
    &&& (after.same_control(before))
    &&& (reg != 6 ==> moved(after, before, with_reg8(before.registers, reg, dec8(before.reg8(reg), before.flags).0),
                dec8(before.reg8(reg), before.flags).1, 0))
    &&& (reg == 6 ==> after.registers == before.registers)
    &&& (reg == 6 && memory(before.spec_hl()) ==> after.bus.read_spec(before.spec_hl()) == dec8(before.bus.read_spec(before.spec_hl()), before.flags).0
                && after.flags == dec8(before.bus.read_spec(before.spec_hl()), before.flags).1)
}

/// DEC r8
pub fn dec_r8(cpu: &mut Cpu, reg: u8)
    requires
        old(cpu).wf(),
        old(cpu).cycles <= u32::MAX - 24,
        reg < 8,
    ensures
        dec_r8_effect(final(cpu), old(cpu), reg),
{
    let value = cpu.get_r8(reg);
    let (r, f) = dec8_exec(value, cpu.flags);
    cpu.set_r8(reg, r);
    cpu.flags = f;
}

/// What `rotate_a` does.
pub open spec fn rotate_a_effect(after: &Cpu, before: &Cpu, op: u8) -> bool {
    &&& (moved(after, before, Registers { a: shift8(op, before.registers.a, before.flags).0, ..before.registers },
                Flags { z: false, ..shift8(op, before.registers.a, before.flags).1 }, 0))
}

/// RLCA, RRCA, RLA, RRA by `op` 0 to 3: the CB rotation of A, with Z cleared.
pub fn rotate_a(cpu: &mut Cpu, op: u8)
    requires
        op < 4,
    ensures
        rotate_a_effect(final(cpu), old(cpu), op),
{
    let (r, f) = shift8_exec(op, cpu.registers.a, cpu.flags);
    cpu.registers.a = r;
    cpu.flags = Flags { z: false, n: f.n, h: f.h, c: f.c };
}

/// What `rlca` does.
pub open spec fn rlca_effect(after: &Cpu, before: &Cpu) -> bool {
    &&& (moved(after, before, Registers { a: shift8(0, before.registers.a, before.flags).0, ..before.registers },
                Flags { z: false, ..shift8(0, before.registers.a, before.flags).1 }, 0))
}

pub fn rlca(cpu: &mut Cpu)
    ensures
        rlca_effect(final(cpu), old(cpu)),
{
    rotate_a(cpu, 0);
}

/// What `rrca` does.
pub open spec fn rrca_effect(after: &Cpu, before: &Cpu) -> bool {
    &&& (moved(after, before, Registers { a: shift8(1, before.registers.a, before.flags).0, ..before.registers },
                Flags { z: false, ..shift8(1, before.registers.a, before.flags).1 }, 0))
}

pub fn rrca(cpu: &mut Cpu)
    ensures
        rrca_effect(final(cpu), old(cpu)),
{
    rotate_a(cpu, 1);
}

/// What `rla` does.
pub open spec fn rla_effect(after: &Cpu, before: &Cpu) -> bool {
    &&& (moved(after, before, Registers { a: shift8(2, before.registers.a, before.flags).0, ..before.registers },
                Flags { z: false, ..shift8(2, before.registers.a, before.flags).1 }, 0))
}

pub fn rla(cpu: &mut Cpu)
    ensures
        rla_effect(final(cpu), old(cpu)),
{
    rotate_a(cpu, 2);
}

/// What `rra` does.
pub open spec fn rra_effect(after: &Cpu, before: &Cpu) -> bool {
    &&& (moved(after, before, Registers { a: shift8(3, before.registers.a, before.flags).0, ..before.registers },
                Flags { z: false, ..shift8(3, before.registers.a, before.flags).1 }, 0))
}

pub fn rra(cpu: &mut Cpu)
    ensures
        rra_effect(final(cpu), old(cpu)),
{
    rotate_a(cpu, 3);
}

/// The target of a relative jump: `pc` plus the signed offset `e`.
pub open spec fn relative(pc: u16, e: u8) -> u16 {
    add_sp(pc, e).0
}

/// What `jr_i8` does.
pub open spec fn jr_i8_effect(after: &Cpu, before: &Cpu) -> bool {
    &&& (after.wf())
    &&& (after.cycles == before.cycles + 8)
    &&& (after.same_control(before))
    &&& (code_stable(before, 1) ==> read_moved(after, before, Registers {
                pc: relative(inc16(before.registers.pc), imm8(before)),
                ..before.registers
            }, before.flags, 8))
}

/// JR i8
pub fn jr_i8(cpu: &mut Cpu)
    requires
        old(cpu).wf(),
        old(cpu).cycles <= u32::MAX - 24,
    ensures
        jr_i8_effect(final(cpu), old(cpu)),
{
    let e = next_byte(cpu);
    let (target, _) = add_sp_exec(cpu.registers.pc, e);
    cpu.registers.pc = target;
    cpu.delay(1);
}

/// What `jr_f_i8` does.
pub open spec fn jr_f_i8_effect(after: &Cpu, before: &Cpu, cond: u8) -> bool {
    &&& (after.wf())
    &&& (after.cycles == before.cycles + if before.condition(cond) { 8int } else { 4 })
    &&& (after.same_control(before))
    &&& (code_stable(before, 1) ==> read_moved(after, before, Registers {
                pc: if before.condition(cond) {
                    relative(inc16(before.registers.pc), imm8(before))
                } else {
                    inc16(before.registers.pc)
                },
                ..before.registers
            }, before.flags, if before.condition(cond) { 8int } else { 4 }))
}

/// JR cc, i8: the jump costs one more machine cycle when taken.
pub fn jr_f_i8(cpu: &mut Cpu, cond: u8)
    requires
        old(cpu).wf(),
        old(cpu).cycles <= u32::MAX - 24,
        cond < 4,
    ensures
        jr_f_i8_effect(final(cpu), old(cpu), cond),
{
    let e = next_byte(cpu);
    if cpu.get_flag(cond) {
        let (target, _) = add_sp_exec(cpu.registers.pc, e);
        cpu.registers.pc = target;
        cpu.delay(1);
    }
}

/// What `ret_f` does.
pub open spec fn ret_f_effect(after: &Cpu, before: &Cpu, cond: u8) -> bool {
    &&& (after.wf())
    &&& (ticked(&after.bus, &before.bus))
    &&& (after.cycles == before.cycles + if before.condition(cond) { 16int } else { 4 })
    &&& (after.same_control(before))
    &&& (after.flags == before.flags)
    &&& (!before.condition(cond) ==> after.registers == before.registers)
    &&& (before.condition(cond) ==> ({
                let s0 = before.registers.sp;
                &&& after.registers.sp == inc16(inc16(s0))
                &&& stable(s0) && stable(inc16(s0)) ==> after.registers.pc == pair(
                    before.bus.read_spec(inc16(s0)),
                    before.bus.read_spec(s0),
                )
            }))
}

/// RET cc
pub fn ret_f(cpu: &mut Cpu, cond: u8)
    requires
        old(cpu).wf(),
        old(cpu).cycles <= u32::MAX - 24,
        cond < 4,
    ensures
        ret_f_effect(final(cpu), old(cpu), cond),
{
    cpu.delay(1);
    if cpu.get_flag(cond) {
        let address = cpu.pop_word();
        cpu.registers.pc = address;
        cpu.delay(1);
    }
}

/// What `jp_a16_f` does.
pub open spec fn jp_a16_f_effect(after: &Cpu, before: &Cpu, cond: u8) -> bool {
    &&& (after.wf())
    &&& (after.cycles == before.cycles + if before.condition(cond) { 12int } else { 8 })
    &&& (after.same_control(before))
    &&& (code_stable(before, 2) ==> read_moved(after, before, Registers {
                pc: if before.condition(cond) { imm16(before) } else { pc_plus(before.registers.pc, 2) },
                ..before.registers
            }, before.flags, if before.condition(cond) { 12int } else { 8 }))
}

/// JP cc, u16
pub fn jp_a16_f(cpu: &mut Cpu, cond: u8)
    requires
        old(cpu).wf(),
        old(cpu).cycles <= u32::MAX - 24,
        cond < 4,
    ensures
        jp_a16_f_effect(final(cpu), old(cpu), cond),
{
    let address = next_word(cpu);
    if cpu.get_flag(cond) {
        cpu.registers.pc = address;
        cpu.delay(1);
    }
}

/// What `jp_a16` does.
pub open spec fn jp_a16_effect(after: &Cpu, before: &Cpu) -> bool {
    &&& (after.wf())
    &&& (after.cycles == before.cycles + 12)
    &&& (after.same_control(before))
    &&& (code_stable(before, 2) ==> read_moved(after, before, Registers { pc: imm16(before), ..before.registers },
                before.flags, 12))
}

/// JP u16
pub fn jp_a16(cpu: &mut Cpu)
    requires
        old(cpu).wf(),
        old(cpu).cycles <= u32::MAX - 24,
    ensures
        jp_a16_effect(final(cpu), old(cpu)),
{
    let address = next_word(cpu);
    cpu.registers.pc = address;
    cpu.delay(1);
}

/// What `ret` does.
pub open spec fn ret_effect(after: &Cpu, before: &Cpu) -> bool {
    &&& (after.wf())
    &&& (ticked(&after.bus, &before.bus))
    &&& (after.cycles == before.cycles + 12)
    &&& (after.same_control(before))
    &&& (after.flags == before.flags)
    &&& (after.registers.sp == inc16(inc16(before.registers.sp)))
    &&& (stable(before.registers.sp) && stable(inc16(before.registers.sp)) ==> after.registers.pc
                == pair(before.bus.read_spec(inc16(before.registers.sp)), before.bus.read_spec(before.registers.sp)))
}

/// RET
pub fn ret(cpu: &mut Cpu)
    requires
        old(cpu).wf(),
        old(cpu).cycles <= u32::MAX - 24,
    ensures
        ret_effect(final(cpu), old(cpu)),
{
    let address = cpu.pop_word();
    cpu.registers.pc = address;
    cpu.delay(1);
}

/// What `reti` does.
pub open spec fn reti_effect(after: &Cpu, before: &Cpu) -> bool {
    &&& (after.wf())
    &&& (after.cycles == before.cycles + 12)
    &&& (after.it_master_enable)
    &&& (after.halted == before.halted)
    &&& (after.flags == before.flags)
    &&& (after.registers.sp == inc16(inc16(before.registers.sp)))
    &&& (stable(before.registers.sp) && stable(inc16(before.registers.sp)) ==> after.registers.pc
                == pair(before.bus.read_spec(inc16(before.registers.sp)), before.bus.read_spec(before.registers.sp)))
}

/// RETI: RET that also sets the master enable at once.
pub fn reti(cpu: &mut Cpu)
    requires
        old(cpu).wf(),
        old(cpu).cycles <= u32::MAX - 24,
    ensures
        reti_effect(final(cpu), old(cpu)),
{
    ret(cpu);
    cpu.it_master_enable = true;
    cpu.it_master_enable_next = false;
}

/// What `call_u16` does.
pub open spec fn call_u16_effect(after: &Cpu, before: &Cpu) -> bool {
    &&& (after.wf())
    &&& (after.cycles == before.cycles + 20)
    &&& (after.same_control(before))
    &&& (after.flags == before.flags)
    &&& (after.registers.sp == dec16(dec16(before.registers.sp)))
    &&& (code_stable(before, 2) ==> after.registers.pc == imm16(before))
}

/// CALL u16: the address after the operand is pushed.
pub fn call_u16(cpu: &mut Cpu)
    requires
        old(cpu).wf(),
        old(cpu).cycles <= u32::MAX - 24,
    ensures
        call_u16_effect(final(cpu), old(cpu)),
{
    let address = next_word(cpu);
    cpu.delay(1);
    cpu.push_word(cpu.registers.pc);
    cpu.registers.pc = address;
}

/// What `call_f_u16` does.
pub open spec fn call_f_u16_effect(after: &Cpu, before: &Cpu, cond: u8) -> bool {
    &&& (after.wf())
    &&& (after.cycles == before.cycles + if before.condition(cond) { 20int } else { 8 })
    &&& (after.same_control(before))
    &&& (after.flags == before.flags)
    &&& (after.registers.sp == if before.condition(cond) {
                dec16(dec16(before.registers.sp))
            } else {
                before.registers.sp
            })
    &&& (code_stable(before, 2) ==> after.registers.pc == if before.condition(cond) {
                imm16(before)
            } else {
                pc_plus(before.registers.pc, 2)
            })
}

/// CALL cc, u16
pub fn call_f_u16(cpu: &mut Cpu, cond: u8)
    requires
        old(cpu).wf(),
        old(cpu).cycles <= u32::MAX - 24,
        cond < 4,
    ensures
        call_f_u16_effect(final(cpu), old(cpu), cond),
{
    let address = next_word(cpu);
    if cpu.get_flag(cond) {
        cpu.delay(1);
        cpu.push_word(cpu.registers.pc);
        cpu.registers.pc = address;
    }
}

/// What `rst_u8` does.
pub open spec fn rst_u8_effect(after: &Cpu, before: &Cpu, n: u8) -> bool {
    &&& (after.wf())
    &&& (after.cycles == before.cycles + 12)
    &&& (after.same_control(before))
    &&& (after.flags == before.flags)
    &&& (after.registers == (Registers { pc: (n * 8) as u16, sp: dec16(dec16(before.registers.sp)), ..before.registers }))
    &&& (memory(dec16(before.registers.sp)) ==> after.bus.read_spec(dec16(before.registers.sp))
                == high(before.registers.pc))
    &&& (memory(dec16(dec16(before.registers.sp))) ==> after.bus.read_spec(dec16(dec16(before.registers.sp)))
                == low(before.registers.pc))
}

/// RST n: calls address n * 8.
pub fn rst_u8(cpu: &mut Cpu, n: u8)
    requires
        old(cpu).wf(),
        old(cpu).cycles <= u32::MAX - 24,
        n < 8,
    ensures
        rst_u8_effect(final(cpu), old(cpu), n),
{
    cpu.delay(1);
    cpu.push_word(cpu.registers.pc);
    cpu.registers.pc = n as u16 * 8;
}

/// What `jp_hl` does.
pub open spec fn jp_hl_effect(after: &Cpu, before: &Cpu) -> bool {
    &&& (moved(after, before, Registers { pc: before.spec_hl(), ..before.registers }, before.flags, 0))
}

/// JP HL
pub fn jp_hl(cpu: &mut Cpu)
    ensures
        jp_hl_effect(final(cpu), old(cpu)),
{
    cpu.registers.pc = cpu.get_hl();
}

/// What `shift_r8` does.
pub open spec fn shift_r8_effect(after: &Cpu, before: &Cpu, op: u8, reg: u8) -> bool {
    &&& (after.wf())
    &&& (after.cycles == before.cycles + 2 * r8_clocks(reg))
    &&& (after.same_control(before))
    &&& (reg != 6 ==> moved(after, before, with_reg8(before.registers, reg, shift8(op, before.reg8(reg), before.flags).0),
                shift8(op, before.reg8(reg), before.flags).1, 0))
    &&& (reg == 6 ==> after.registers == before.registers)
    &&& (reg == 6 && memory(before.spec_hl()) ==> after.bus.read_spec(before.spec_hl()) == shift8(op, before.bus.read_spec(before.spec_hl()), before.flags).0
                && after.flags == shift8(op, before.bus.read_spec(before.spec_hl()), before.flags).1)
}

/// The shifts and rotations of the CB table on an r8 operand.
pub fn shift_r8(cpu: &mut Cpu, op: u8, reg: u8)
    requires
        old(cpu).wf(),
        old(cpu).cycles <= u32::MAX - 24,
        op < 8,
        reg < 8,
    ensures
        shift_r8_effect(final(cpu), old(cpu), op, reg),
{
    let value = cpu.get_r8(reg);
    let (r, f) = shift8_exec(op, value, cpu.flags);
    cpu.set_r8(reg, r);
    cpu.flags = f;
}

/// What `bit_u8_r8` does.
pub open spec fn bit_u8_r8_effect(after: &Cpu, before: &Cpu, bit: u8, reg: u8) -> bool {
    &&& (read_moved(after, before, before.registers, Flags {
                z: (operand(after, before, reg) >> bit) & 1 == 0,
                n: false,
                h: true,
                c: before.flags.c,
            }, r8_clocks(reg)))
    &&& (reg != 6 ==> after.bus == before.bus)
}

/// BIT b, r8: Z is set when the bit is clear; N cleared, H set, C kept.
pub fn bit_u8_r8(cpu: &mut Cpu, bit: u8, reg: u8)
    requires
        old(cpu).wf(),
        old(cpu).cycles <= u32::MAX - 24,
        bit < 8,
        reg < 8,
    ensures
        bit_u8_r8_effect(final(cpu), old(cpu), bit, reg),
{
    let value = cpu.get_r8(reg);
    cpu.flags = Flags { z: (value >> bit) & 1 == 0, n: false, h: true, c: cpu.flags.c };
}

/// What `res_u8_r8` does.
pub open spec fn res_u8_r8_effect(after: &Cpu, before: &Cpu, bit: u8, reg: u8) -> bool {
    &&& (after.wf())
    &&& (after.cycles == before.cycles + 2 * r8_clocks(reg))
    &&& (after.same_control(before))
    &&& (after.flags == before.flags)
    &&& (reg != 6 ==> moved(after, before, with_reg8(before.registers, reg, before.reg8(reg) & !(1u8 << bit)),
                before.flags, 0))
    &&& (reg == 6 ==> after.registers == before.registers)
    &&& (reg == 6 && memory(before.spec_hl()) ==> after.bus.read_spec(before.spec_hl())
                == before.bus.read_spec(before.spec_hl()) & !(1u8 << bit))
}

/// RES b, r8
pub fn res_u8_r8(cpu: &mut Cpu, bit: u8, reg: u8)
    requires
        old(cpu).wf(),
        old(cpu).cycles <= u32::MAX - 24,
        bit < 8,
        reg < 8,
    ensures
        res_u8_r8_effect(final(cpu), old(cpu), bit, reg),
{
    let value = cpu.get_r8(reg);
    cpu.set_r8(reg, value & !(1u8 << bit));
}

/// What `set_u8_r8` does.
pub open spec fn set_u8_r8_effect(after: &Cpu, before: &Cpu, bit: u8, reg: u8) -> bool {
    &&& (after.wf())
    &&& (after.cycles == before.cycles + 2 * r8_clocks(reg))
    &&& (after.same_control(before))
    &&& (after.flags == before.flags)
    &&& (reg != 6 ==> moved(after, before, with_reg8(before.registers, reg, before.reg8(reg) | (1u8 << bit)),
                before.flags, 0))
    &&& (reg == 6 ==> after.registers == before.registers)
    &&& (reg == 6 && memory(before.spec_hl()) ==> after.bus.read_spec(before.spec_hl())
                == before.bus.read_spec(before.spec_hl()) | (1u8 << bit))
}

/// SET b, r8
pub fn set_u8_r8(cpu: &mut Cpu, bit: u8, reg: u8)
    requires
        old(cpu).wf(),
        old(cpu).cycles <= u32::MAX - 24,
        bit < 8,
        reg < 8,
    ensures
        set_u8_r8_effect(final(cpu), old(cpu), bit, reg),
{
    let value = cpu.get_r8(reg);
    cpu.set_r8(reg, value | (1u8 << bit));
}

/// PUSH r16 followed at once by POP of the same pair restores every register and
/// flag, when both stack bytes are plain memory.
pub proof fn lemma_push_pop_r16(c0: &Cpu, c1: &Cpu, c2: &Cpu, reg: u8)
    requires
        reg < 4,
        push_r16_effect(c1, c0, reg),
        pop_r16_effect(c2, c1, reg),
        memory(dec16(c0.registers.sp)),
        memory(dec16(dec16(c0.registers.sp))),
    ensures
        c2.registers == c0.registers,
        c2.flags == c0.flags,
        c2.same_control(c0),
{
    let v = c0.r16_af(reg);
    let s2 = c1.registers.sp;
    assert(inc16(s2) == dec16(c0.registers.sp));
    assert(inc16(inc16(s2)) == c0.registers.sp);
    assert(pair(high(v), low(v)) == v);
    if reg == 3 {
        super::alu::lemma_flags_round_trip(c0.flags);
        assert(low(v) == c0.flags.spec_to_u8());
    }
}

} // verus!
