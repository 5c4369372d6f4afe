use vstd::prelude::*;
use super::{Cpu, Registers, ticked, inc16};
use super::opcodes::{moved, imm8};
use crate::io::stable;
use super::opcodes::{
    nop, ld_mu16_sp, stop, jr_i8, jr_f_i8, ld_r16_u16, add_hl_r16, ld_mr16_a, ldi_mhl_a,
    ldd_mhl_a, ld_a_mr16, ldi_a_mhl, ldd_a_mhl, inc_r16, dec_r16, inc_r8, dec_r8, ld_r8_u8,
    rotate_a, daa, cpl, scf, ccf, halt, ld_r8_r8, alu_a_r8, ret_f, ldh_mu8_a, add_sp_i8,
    ldh_a_mu8, ld_hl_sp_i8, pop_r16, ret, reti, jp_hl, ld_sp_hl, jp_a16_f, ldh_mc_a,
    ld_mu16_a, ldh_a_mc, ld_a_mu16, jp_a16, di, ei, call_f_u16, push_r16, call_u16,
    alu_a_u8, rst_u8, shift_r8, bit_u8_r8, res_u8_r8, set_u8_r8,
};
use super::opcodes::{ld_mu16_sp_effect, stop_effect, jr_i8_effect, jr_f_i8_effect, ld_r16_u16_effect, add_hl_r16_effect, ld_mr16_a_effect, ldi_mhl_a_effect, ldd_mhl_a_effect, ld_a_mr16_effect, ldi_a_mhl_effect, ldd_a_mhl_effect, inc_r16_effect, dec_r16_effect, inc_r8_effect, dec_r8_effect, ld_r8_u8_effect, rotate_a_effect, daa_effect, cpl_effect, scf_effect, ccf_effect, halt_effect, ld_r8_r8_effect, alu_a_r8_effect, ret_f_effect, ldh_mu8_a_effect, add_sp_i8_effect, ldh_a_mu8_effect, ld_hl_sp_i8_effect, pop_r16_effect, ret_effect, reti_effect, jp_hl_effect, ld_sp_hl_effect, jp_a16_f_effect, ldh_mc_a_effect, ld_mu16_a_effect, ldh_a_mc_effect, ld_a_mu16_effect, jp_a16_effect, di_effect, ei_effect, call_f_u16_effect, push_r16_effect, call_u16_effect, alu_a_u8_effect, rst_u8_effect, shift_r8_effect, bit_u8_r8_effect, res_u8_r8_effect, set_u8_r8_effect};

verus! {

/// Whether an opcode of the unprefixed table is defined; eleven are not.
pub open spec fn defined(opcode: u8) -> bool {
    !(opcode == 0xd3 || opcode == 0xdb || opcode == 0xdd || opcode == 0xe3 || opcode == 0xe4
        || opcode == 0xeb || opcode == 0xec || opcode == 0xed || opcode == 0xf4 || opcode == 0xfc
        || opcode == 0xfd)
}

/// The clocks of a step: a whole number of machine cycles, at most `max` clocks.
pub open spec fn spent(after: &Cpu, before: &Cpu, max: int) -> bool {
    &&& after.wf()
    &&& before.cycles <= after.cycles <= before.cycles + max
    &&& (after.cycles - before.cycles) % 4 == 0
}

/// One byte at the program counter read and stepped past: a machine cycle passes.
pub open spec fn operand_fetched(after: &Cpu, before: &Cpu) -> bool {
    &&& ticked(&after.bus, &before.bus)
    &&& after.registers == (Registers { pc: inc16(before.registers.pc), ..before.registers })
    &&& after.flags == before.flags
    &&& after.same_control(before)
    &&& after.cycles == before.cycles + 4
}

/// What opcodes 0x00 to 0x3f do, by bits 5-3 (`y`) and 2-0 (`z`).
pub open spec fn block0_effect(after: &Cpu, before: &Cpu, y: u8, z: u8) -> bool {
    let p = y / 2;
    let q = y % 2;
    if z == 0 {
        if y == 0 {
            moved(after, before, before.registers, before.flags, 0)
        } else if y == 1 {
            ld_mu16_sp_effect(after, before)
        } else if y == 2 {
            stop_effect(after, before)
        } else if y == 3 {
            jr_i8_effect(after, before)
        } else {
            jr_f_i8_effect(after, before, (y - 4) as u8)
        }
    } else if z == 1 {
        if q == 0 { ld_r16_u16_effect(after, before, p) } else { add_hl_r16_effect(after, before, p) }
    } else if z == 2 {
        if q == 0 {
            if p < 2 {
                ld_mr16_a_effect(after, before, p)
            } else if p == 2 {
                ldi_mhl_a_effect(after, before)
            } else {
                ldd_mhl_a_effect(after, before)
            }
        } else {
            if p < 2 {
                ld_a_mr16_effect(after, before, p)
            } else if p == 2 {
                ldi_a_mhl_effect(after, before)
            } else {
                ldd_a_mhl_effect(after, before)
            }
        }
    } else if z == 3 {
        if q == 0 { inc_r16_effect(after, before, p) } else { dec_r16_effect(after, before, p) }
    } else if z == 4 {
        inc_r8_effect(after, before, y)
    } else if z == 5 {
        dec_r8_effect(after, before, y)
    } else if z == 6 {
        ld_r8_u8_effect(after, before, y)
    } else if y < 4 {
        rotate_a_effect(after, before, y)
    } else if y == 4 {
        daa_effect(after, before)
    } else if y == 5 {
        cpl_effect(after, before)
    } else if y == 6 {
        scf_effect(after, before)
    } else {
        ccf_effect(after, before)
    }
}

/// What opcodes 0xc0 to 0xff ending in 0, 1 or 2 do.
pub open spec fn block3_low_effect(after: &Cpu, before: &Cpu, y: u8, z: u8) -> bool {
    let p = y / 2;
    let q = y % 2;
    if z == 0 {
        if y < 4 {
            ret_f_effect(after, before, y)
        } else if y == 4 {
            ldh_mu8_a_effect(after, before)
        } else if y == 5 {
            add_sp_i8_effect(after, before)
        } else if y == 6 {
            ldh_a_mu8_effect(after, before)
        } else {
            ld_hl_sp_i8_effect(after, before)
        }
    } else if z == 1 {
        if q == 0 {
            pop_r16_effect(after, before, p)
        } else if p == 0 {
            ret_effect(after, before)
        } else if p == 1 {
            reti_effect(after, before)
        } else if p == 2 {
            jp_hl_effect(after, before)
        } else {
            ld_sp_hl_effect(after, before)
        }
    } else if y < 4 {
        jp_a16_f_effect(after, before, y)
    } else if y == 4 {
        ldh_mc_a_effect(after, before)
    } else if y == 5 {
        ld_mu16_a_effect(after, before)
    } else if y == 6 {
        ldh_a_mc_effect(after, before)
    } else {
        ld_a_mu16_effect(after, before)
    }
}

/// What the defined opcodes 0xc0 to 0xff ending in 3 to 7 do; the undefined ones
/// have no effect that could hold.
pub open spec fn block3_high_effect(after: &Cpu, before: &Cpu, y: u8, z: u8) -> bool {
    let p = y / 2;
    let q = y % 2;
    if z == 3 {
        if y == 0 {
            jp_a16_effect(after, before)
        } else if y == 6 {
            di_effect(after, before)
        } else if y == 7 {
            ei_effect(after, before)
        } else {
            false
        }
    } else if z == 4 {
        if y < 4 { call_f_u16_effect(after, before, y) } else { false }
    } else if z == 5 {
        if q == 0 {
            push_r16_effect(after, before, p)
        } else if p == 0 {
            call_u16_effect(after, before)
        } else {
            false
        }
    } else if z == 6 {
        alu_a_u8_effect(after, before, y)
    } else {
        rst_u8_effect(after, before, y)
    }
}

/// What an opcode of the CB table does.
pub open spec fn cb_executed(after: &Cpu, before: &Cpu, opcode: u8) -> bool {
    let y = (opcode / 8) % 8;
    let z = opcode % 8;
    if opcode < 0x40 {
        shift_r8_effect(after, before, y, z)
    } else if opcode < 0x80 {
        bit_u8_r8_effect(after, before, y, z)
    } else if opcode < 0xc0 {
        res_u8_r8_effect(after, before, y, z)
    } else {
        set_u8_r8_effect(after, before, y, z)
    }
}

/// What an opcode does, from the state just after it was fetched. The CB prefix
/// fetches a second byte and runs it from the CB table.
#[verifier::opaque]
pub open spec fn executed(after: &Cpu, before: &Cpu, opcode: u8) -> bool {
    let y = (opcode / 8) % 8;
    let z = opcode % 8;
    if opcode < 0x40 {
        block0_effect(after, before, y, z)
    } else if opcode == 0x76 {
        halt_effect(after, before)
    } else if opcode < 0x80 {
        ld_r8_r8_effect(after, before, y, z)
    } else if opcode < 0xc0 {
        alu_a_r8_effect(after, before, y, z)
    } else if opcode == 0xcb {
        exists|mid: Cpu|
            #[trigger] operand_fetched(&mid, before) && cb_executed(
                after,
                &mid,
                mid.bus.read_spec(before.registers.pc),
            )
    } else if z < 3 {
        block3_low_effect(after, before, y, z)
    } else {
        block3_high_effect(after, before, y, z)
    }
}

/// Runs a defined opcode whose byte has been fetched and stepped past.
pub fn execute(cpu: &mut Cpu, opcode: u8)
    requires
        old(cpu).wf(),
        old(cpu).cycles <= u32::MAX - 32,
        defined(opcode),
    ensures
        spent(final(cpu), old(cpu), 20),
        executed(final(cpu), old(cpu), opcode),
{
    reveal(executed);
    let block = opcode / 64;
    let y = (opcode / 8) % 8;
    let z = opcode % 8;
    if block == 0 {
        execute_block0(cpu, y, z);
    } else if block == 1 {
        if opcode == 0x76 {
            halt(cpu);
        } else {
            ld_r8_r8(cpu, y, z);
        }
    } else if block == 2 {
        alu_a_r8(cpu, y, z);
    } else if opcode == 0xcb {
        let ghost start = *cpu;
        let bitwise_opcode = next_opcode(cpu);
        let ghost mid = *cpu;
        execute_cb(cpu, bitwise_opcode);
        assert(operand_fetched(&mid, &start) && cb_executed(cpu, &mid, mid.bus.read_spec(start.registers.pc)));
    } else if z < 3 {
        execute_block3_low(cpu, y, z);
    } else {
        execute_block3_high(cpu, opcode, y, z);
    }
}

fn next_opcode(cpu: &mut Cpu) -> (r: u8)
    requires
        old(cpu).wf(),
        old(cpu).cycles <= u32::MAX - 32,
    ensures
        spent(final(cpu), old(cpu), 4),
        operand_fetched(final(cpu), old(cpu)),
        r == final(cpu).bus.read_spec(old(cpu).registers.pc),
        stable(old(cpu).registers.pc) ==> r == imm8(old(cpu)),
{
    let opcode = cpu.fetch_byte(cpu.registers.pc);
    cpu.registers.pc = cpu.registers.pc.wrapping_add(1);
    opcode
}

/// Opcodes 0x00 to 0x3f: loads of immediates, 16-bit arithmetic, INC and DEC,
/// relative jumps and the operations on A alone.
fn execute_block0(cpu: &mut Cpu, y: u8, z: u8)
    requires
        old(cpu).wf(),
        old(cpu).cycles <= u32::MAX - 32,
        y < 8,
        z < 8,
    ensures
        spent(final(cpu), old(cpu), 16),
        block0_effect(final(cpu), old(cpu), y, z),
{
    let p = y / 2;
    let q = y % 2;
    if z == 0 {
        if y == 0 {
            nop();
        } else if y == 1 {
            ld_mu16_sp(cpu);
        } else if y == 2 {
            stop(cpu);
        } else if y == 3 {
            jr_i8(cpu);
        } else {
            jr_f_i8(cpu, y - 4);
        }
    } else if z == 1 {
        if q == 0 {
            ld_r16_u16(cpu, p);
        } else {
            add_hl_r16(cpu, p);
        }
    } else if z == 2 {
        if q == 0 {
            if p < 2 {
                ld_mr16_a(cpu, p);
            } else if p == 2 {
                ldi_mhl_a(cpu);
            } else {
                ldd_mhl_a(cpu);
            }
        } else {
            if p < 2 {
                ld_a_mr16(cpu, p);
            } else if p == 2 {
                ldi_a_mhl(cpu);
            } else {
                ldd_a_mhl(cpu);
            }
        }
    } else if z == 3 {
        if q == 0 {
            inc_r16(cpu, p);
        } else {
            dec_r16(cpu, p);
        }
    } else if z == 4 {
        inc_r8(cpu, y);
    } else if z == 5 {
        dec_r8(cpu, y);
    } else if z == 6 {
        ld_r8_u8(cpu, y);
    } else {
        if y < 4 {
            rotate_a(cpu, y);
        } else if y == 4 {
            daa(cpu);
        } else if y == 5 {
            cpl(cpu);
        } else if y == 6 {
            scf(cpu);
        } else {
            ccf(cpu);
        }
    }
}

/// Opcodes 0xc0 to 0xff ending in 0, 1 or 2: conditional returns and jumps, POP,
/// RET, RETI, JP HL, LD SP,HL, the SP-relative forms and the high-page loads.
fn execute_block3_low(cpu: &mut Cpu, y: u8, z: u8)
    requires
        old(cpu).wf(),
        old(cpu).cycles <= u32::MAX - 32,
        y < 8,
        z < 3,
    ensures
        spent(final(cpu), old(cpu), 16),
        block3_low_effect(final(cpu), old(cpu), y, z),
{
    let p = y / 2;
    let q = y % 2;
    if z == 0 {
        if y < 4 {
            ret_f(cpu, y);
        } else if y == 4 {
            ldh_mu8_a(cpu);
        } else if y == 5 {
            add_sp_i8(cpu);
        } else if y == 6 {
            ldh_a_mu8(cpu);
        } else {
            ld_hl_sp_i8(cpu);
        }
    } else if z == 1 {
        if q == 0 {
            pop_r16(cpu, p);
        } else if p == 0 {
            ret(cpu);
        } else if p == 1 {
            reti(cpu);
        } else if p == 2 {
            jp_hl(cpu);
        } else {
            ld_sp_hl(cpu);
        }
    } else if z == 2 {
        if y < 4 {
            jp_a16_f(cpu, y);
        } else if y == 4 {
            ldh_mc_a(cpu);
        } else if y == 5 {
            ld_mu16_a(cpu);
        } else if y == 6 {
            ldh_a_mc(cpu);
        } else {
            ld_a_mu16(cpu);
        }
    }
}

/// Opcodes 0xc0 to 0xff ending in 3 to 7: JP, DI, EI, calls, PUSH, the immediate
/// ALU group and RST.
fn execute_block3_high(cpu: &mut Cpu, opcode: u8, y: u8, z: u8)
    requires
        old(cpu).wf(),
        old(cpu).cycles <= u32::MAX - 32,
        opcode >= 0xc0,
        defined(opcode),
        opcode != 0xcb,
        y == (opcode / 8) % 8,
        z == opcode % 8,
        z >= 3,
    ensures
        spent(final(cpu), old(cpu), 20),
        block3_high_effect(final(cpu), old(cpu), y, z),
{
    let p = y / 2;
    let q = y % 2;
    if z == 3 {
        if y == 0 {
            jp_a16(cpu);
        } else if y == 6 {
            di(cpu);
        } else if y == 7 {
            ei(cpu);
        } else {
        }
    } else if z == 4 {
        if y < 4 {
            call_f_u16(cpu, y);
        } else {
        }
    } else if z == 5 {
        if q == 0 {
            push_r16(cpu, p);
        } else if p == 0 {
            call_u16(cpu);
        } else {
        }
    } else if z == 6 {
        alu_a_u8(cpu, y);
    } else {
        rst_u8(cpu, y);
    }
}

/// Runs an opcode of the CB table: shifts and rotations, BIT, RES and SET.
pub fn execute_cb(cpu: &mut Cpu, opcode: u8)
    requires
        old(cpu).wf(),
        old(cpu).cycles <= u32::MAX - 28,
    ensures
        spent(final(cpu), old(cpu), 8),
        cb_executed(final(cpu), old(cpu), opcode),
{
    let block = opcode / 64;
    let y = (opcode / 8) % 8;
    let z = opcode % 8;
    if block == 0 {
        shift_r8(cpu, y, z);
    } else if block == 1 {
        bit_u8_r8(cpu, y, z);
    } else if block == 2 {
        res_u8_r8(cpu, y, z);
    } else {
        set_u8_r8(cpu, y, z);
    }
}

} // verus!
