use gameboy::cpu::alu::{alu8_exec, daa_exec, Flags};
use gameboy::cpu::{Cpu, CpuFault, Registers};
use gameboy::io::cartridge::Cartridge;

/// A machine with `program` at 0x0100, the boot program unmapped, PC at 0x0100.
fn machine(program: &[u8]) -> Cpu {
    let mut rom = vec![0u8; 0x8000];
    rom[0x100..0x100 + program.len()].copy_from_slice(program);
    let mut cpu = Cpu::new(Cartridge::from_rom(rom).unwrap());
    cpu.bus.store_byte(0xff50, 1);
    cpu.registers.pc = 0x0100;
    cpu.registers.sp = 0xfffe;
    cpu
}

#[test]
fn jr_conditional_taken() {
    let mut cpu = machine(&[0x28, 0x05]);
    cpu.flags.z = true;
    assert_eq!(cpu.machine_cycle(), Ok(12));
    assert_eq!(cpu.registers.pc, 0x0107);
}

#[test]
fn jr_conditional_not_taken() {
    let mut cpu = machine(&[0x28, 0x05]);
    cpu.flags.z = false;
    assert_eq!(cpu.machine_cycle(), Ok(8));
    assert_eq!(cpu.registers.pc, 0x0102);
}

#[test]
fn jr_backwards() {
    let mut cpu = machine(&[0x18, 0xfe]);
    assert_eq!(cpu.machine_cycle(), Ok(12));
    assert_eq!(cpu.registers.pc, 0x0100);
}

#[test]
fn cycle_counts_are_whole_machine_cycles() {
    let program = [
        0x3e, 0x05, // ld a, 5
        0x47, // ld b, a
        0x80, // add a, b
        0x21, 0x00, 0xc0, // ld hl, 0xc000
        0x77, // ld (hl), a
        0xc5, // push bc
        0xd1, // pop de
        0xcd, 0x00, 0x02, // call 0x0200
        0xcb, 0x37, // swap a
        0x34, // inc (hl)
    ];
    let mut rom_program = program.to_vec();
    rom_program.resize(0x101, 0);
    rom_program[0x100] = 0xc9; // ret at 0x0200
    let mut cpu = machine(&rom_program);
    let expected = [8u8, 4, 4, 12, 8, 16, 12, 24, 16, 8, 12];
    for &clocks in expected.iter() {
        let r = cpu.machine_cycle().unwrap();
        assert_eq!(r, clocks);
        assert_eq!(r % 4, 0);
    }
    assert_eq!(cpu.registers.a, 0xa0);
    assert_eq!(cpu.get_de(), 0x0500);
    assert_eq!(cpu.bus.fetch_byte(0xc000), 0x0b);
    assert_eq!(cpu.registers.pc, 0x0110);
    assert_eq!(cpu.registers.sp, 0xfffe);
}

#[test]
fn push_then_pop_restores_registers() {
    let mut cpu = machine(&[]);
    cpu.registers.sp = 0xd000;
    let before = cpu.registers;
    cpu.push_word(0xbeef);
    assert_eq!(cpu.registers.sp, 0xcffe);
    assert_eq!(cpu.bus.fetch_byte(0xcfff), 0xbe);
    assert_eq!(cpu.bus.fetch_byte(0xcffe), 0xef);
    assert_eq!(cpu.pop_word(), 0xbeef);
    assert_eq!(cpu.registers, before);
}

#[test]
fn push_pop_af_keeps_flags() {
    let mut cpu = machine(&[0xf5, 0xc1, 0xc5, 0xf1]);
    cpu.registers.a = 0x12;
    cpu.flags = Flags { z: true, n: false, h: true, c: true };
    for _ in 0..4 {
        cpu.machine_cycle().unwrap();
    }
    assert_eq!(cpu.get_bc(), 0x12b0);
    assert_eq!(cpu.get_af(), 0x12b0);
    assert_eq!(cpu.flags, Flags { z: true, n: false, h: true, c: true });
}

#[test]
fn half_carry_of_addition() {
    for a in 0..=255u8 {
        for b in 0..=255u8 {
            let (_, f) = alu8_exec(0, a, b, Flags::default());
            let wide = a as u16 + b as u16;
            assert_eq!(f.h, (a as u16 ^ b as u16 ^ wide) & 0x10 != 0);
            assert_eq!(f.c, wide > 0xff);
        }
    }
}

#[test]
fn daa_after_addition() {
    let (sum, f) = alu8_exec(0, 0x99, 0x01, Flags::default());
    assert_eq!(sum, 0x9a);
    let (a, f) = daa_exec(sum, f);
    assert_eq!(a, 0x00);
    assert!(f.z);
    assert!(f.c);
}

#[test]
fn daa_after_subtraction() {
    let (diff, f) = alu8_exec(2, 0x00, 0x01, Flags::default());
    assert_eq!(diff, 0xff);
    assert!(f.n);
    let (a, f) = daa_exec(diff, f);
    assert_eq!(a, 0x99);
    assert!(f.c);
}

#[test]
fn daa_program() {
    // ld a, 0x45 ; add a, 0x38 ; daa
    let mut cpu = machine(&[0x3e, 0x45, 0xc6, 0x38, 0x27]);
    for _ in 0..3 {
        cpu.machine_cycle().unwrap();
    }
    assert_eq!(cpu.registers.a, 0x83);
    assert!(!cpu.flags.c);
}

#[test]
fn alu_group() {
    let f = Flags::default();
    assert_eq!(alu8_exec(1, 0xff, 0x00, Flags { c: true, ..f }).0, 0x00);
    assert_eq!(alu8_exec(3, 0x10, 0x0f, Flags { c: true, ..f }), (0x00, Flags { z: true, n: true, h: true, c: false }));
    assert_eq!(alu8_exec(4, 0xf0, 0x3c, f), (0x30, Flags { z: false, n: false, h: true, c: false }));
    assert_eq!(alu8_exec(5, 0xff, 0xff, f), (0x00, Flags { z: true, n: false, h: false, c: false }));
    assert_eq!(alu8_exec(6, 0x0f, 0xf0, f).0, 0xff);
    assert_eq!(alu8_exec(7, 0x20, 0x21, f), (0x20, Flags { z: false, n: true, h: true, c: true }));
}

#[test]
fn undefined_opcode_faults() {
    let mut cpu = machine(&[0x00, 0xd3]);
    assert_eq!(cpu.machine_cycle(), Ok(4));
    assert_eq!(cpu.machine_cycle(), Err(CpuFault { pc: 0x0101, opcode: 0xd3 }));
}

#[test]
fn cb_bit_operations() {
    // ld b, 0 ; set 3, b ; bit 3, b ; swap b ; res 7, b ; rlc b ... srl b
    let mut cpu = machine(&[0x06, 0x00, 0xcb, 0xd8, 0xcb, 0x58, 0xcb, 0x30, 0xcb, 0xb8, 0xcb, 0x10, 0xcb, 0x38]);
    cpu.machine_cycle().unwrap();
    assert_eq!(cpu.machine_cycle(), Ok(8));
    assert_eq!(cpu.registers.b, 0x08);
    cpu.machine_cycle().unwrap();
    assert!(!cpu.flags.z && cpu.flags.h);
    cpu.machine_cycle().unwrap();
    assert_eq!(cpu.registers.b, 0x80);
    cpu.machine_cycle().unwrap();
    assert_eq!(cpu.registers.b, 0x00);
    cpu.flags.c = true;
    cpu.machine_cycle().unwrap(); // rl b
    assert_eq!(cpu.registers.b, 0x01);
    assert!(!cpu.flags.c);
    cpu.machine_cycle().unwrap(); // srl b
    assert_eq!(cpu.registers.b, 0x00);
    assert!(cpu.flags.z && cpu.flags.c);
}

#[test]
fn rotate_a_clears_zero() {
    // xor a ; rlca
    let mut cpu = machine(&[0xaf, 0x07]);
    cpu.machine_cycle().unwrap();
    assert!(cpu.flags.z);
    cpu.machine_cycle().unwrap();
    assert!(!cpu.flags.z);
}

#[test]
fn sixteen_bit_arithmetic() {
    // ld hl, 0x0fff ; ld bc, 0x0001 ; add hl, bc ; ld sp, 0xfff8 ; add sp, 8 ; ld hl, sp-1
    let mut cpu = machine(&[0x21, 0xff, 0x0f, 0x01, 0x01, 0x00, 0x09, 0x31, 0xf8, 0xff, 0xe8, 0x08, 0xf8, 0xff]);
    cpu.machine_cycle().unwrap();
    cpu.machine_cycle().unwrap();
    assert_eq!(cpu.machine_cycle(), Ok(8));
    assert_eq!(cpu.get_hl(), 0x1000);
    assert!(cpu.flags.h && !cpu.flags.c && !cpu.flags.n);
    cpu.machine_cycle().unwrap();
    assert_eq!(cpu.machine_cycle(), Ok(16));
    assert_eq!(cpu.registers.sp, 0x0000);
    assert!(cpu.flags.c && cpu.flags.h);
    assert_eq!(cpu.machine_cycle(), Ok(12));
    assert_eq!(cpu.get_hl(), 0xffff);
}

#[test]
fn halt_waits_for_interrupt_without_master_enable() {
    let mut cpu = machine(&[0x76, 0x00]);
    assert_eq!(cpu.machine_cycle(), Ok(4));
    assert!(cpu.halted);
    assert_eq!(cpu.machine_cycle(), Ok(4));
    assert!(cpu.halted);
    cpu.bus.store_byte(0xffff, 0x04);
    cpu.bus.store_byte(0xff0f, 0x04);
    assert_eq!(cpu.machine_cycle(), Ok(4));
    assert!(!cpu.halted);
    assert_eq!(cpu.registers.pc, 0x0101);
}

#[test]
fn ei_takes_effect_after_next_instruction() {
    // ei ; nop ; nop
    let mut cpu = machine(&[0xfb, 0x00, 0x00]);
    cpu.bus.store_byte(0xffff, 0x04);
    cpu.bus.store_byte(0xff0f, 0x04);
    cpu.machine_cycle().unwrap();
    assert!(!cpu.it_master_enable);
    cpu.machine_cycle().unwrap();
    assert!(cpu.it_master_enable);
    assert_eq!(cpu.machine_cycle(), Ok(20));
    assert_eq!(cpu.registers.pc, 0x0050);
    assert!(!cpu.it_master_enable);
}

#[test]
fn vblank_interrupt_delivery() {
    let mut cpu = machine(&[]);
    cpu.bus.ppu.ly = 143;
    let mut clocks = 0;
    while cpu.bus.ppu.ly != 144 {
        cpu.bus.tick();
        clocks += 1;
    }
    assert_eq!(clocks, 456);
    assert_eq!(cpu.bus.fetch_byte(0xff0f) & 1, 1);
    cpu.bus.store_byte(0xffff, 0x01);
    cpu.it_master_enable = true;
    cpu.registers.pc = 0x1234;
    assert_eq!(cpu.machine_cycle(), Ok(20));
    assert_eq!(cpu.registers.pc, 0x0040);
    assert_eq!(cpu.registers.sp, 0xfffc);
    assert_eq!(cpu.bus.fetch_byte(0xfffd), 0x12);
    assert_eq!(cpu.bus.fetch_byte(0xfffc), 0x34);
    assert_eq!(cpu.bus.fetch_byte(0xff0f) & 1, 0);
}

#[test]
fn boot_program_hands_off_at_0100() {
    let mut rom = vec![0u8; 0x8000];
    rom[0x100] = 0x00;
    let mut cpu = Cpu::new(Cartridge::from_rom(rom).unwrap());
    let mut steps = 0;
    while cpu.registers.pc != 0x0100 {
        cpu.machine_cycle().unwrap();
        steps += 1;
        assert!(steps < 1000);
    }
    assert!(!cpu.bus.boot);
    assert_eq!(cpu.registers.sp, 0xfffe);
    assert_eq!(cpu.bus.fetch_byte(0xff40), 0x91);
    assert_eq!(cpu.bus.fetch_byte(0xff47), 0xfc);
}

#[test]
fn registers_start_cleared() {
    let cpu = Cpu::new(Cartridge::from_rom(vec![0u8; 0x8000]).unwrap());
    assert_eq!(cpu.registers, Registers::default());
    assert_eq!(cpu.get_af(), 0);
}
