use gbcore::alu;
use gbcore::alu::{AluOp, ShiftKind};
use gbcore::cartridge::Cartridge;
use gbcore::cpu::{Cpu, CpuError, Flags, PlainRam, Registers};
use gbcore::opcode;
use gbcore::opcode::{OpcodePrefixed, OpcodeUnprefixed};

const LOGO: [u8; 48] = [
    0xCE, 0xED, 0x66, 0x66, 0xCC, 0x0D, 0x00, 0x0B, 0x03, 0x73, 0x00, 0x83, 0x00, 0x0C, 0x00, 0x0D,
    0x00, 0x08, 0x11, 0x1F, 0x88, 0x89, 0x00, 0x0E, 0xDC, 0xCC, 0x6E, 0xE6, 0xDD, 0xDD, 0xD9, 0x99,
    0xBB, 0xBB, 0x67, 0x63, 0x6E, 0x0E, 0xEC, 0xCC, 0xDD, 0xDC, 0x99, 0x9F, 0xBB, 0xB9, 0x33, 0x3E,
];

/// An engine over a valid 32 KiB image with `program` placed at 0x150,
/// just past the header, and the program counter moved there.
fn cpu_with_program(program: &[u8]) -> Cpu<PlainRam> {
    let mut rom = vec![0u8; 32768];
    rom[0x104..0x134].copy_from_slice(&LOGO);
    rom[0x150..0x150 + program.len()].copy_from_slice(program);
    let cart = Cartridge::new("prog.gb", rom).unwrap();
    let mut cpu = Cpu::new(cart);
    cpu.jump(0x150);
    cpu
}

#[test]
fn f_reg() {
    let mut regs = Registers::default();
    regs.flags.zero = false;
    regs.flags.neg = true;
    regs.flags.half_carry = true;
    regs.flags.carry = false;

    println!("{:b}", regs.flags.f_reg())
}

#[test]
fn flag_byte_packs_high_nibble() {
    let f = Flags { zero: true, neg: false, half_carry: true, carry: true };
    assert_eq!(f.f_reg(), 0b1011_0000);
    let mut g = Flags::default();
    g.set_from_byte(0b0100_1111);
    assert_eq!((g.zero, g.neg, g.half_carry, g.carry), (false, true, false, false));
}

#[test]
fn af_masks_low_nibble() {
    let mut regs = Registers::default();
    regs.set_af(0x12FF);
    assert_eq!(regs.af(), 0x12F0);
    regs.set_af(0xABCD);
    assert_eq!(regs.af(), 0xABC0);
}

#[test]
fn boot_values_match_documentation() {
    let regs = Registers::with_boot_values();
    assert_eq!(regs.af(), 0x01B0);
    assert_eq!(regs.bc.as_both(), 0x0013);
    assert_eq!(regs.de.as_both(), 0x00D8);
    assert_eq!(regs.hl.as_both(), 0x014D);
    assert_eq!(regs.pc, 0x0100);
    assert_eq!(regs.sp, 0xFFFE);
}

#[test]
fn daa_adds_low_correction() {
    let mut regs = Registers::default();
    regs.a = 0x0F;
    regs.flags.neg = false;
    regs.flags.half_carry = true;
    regs.flags.carry = false;
    regs.decimal_adjust_a();
    assert_eq!(regs.a, 0x15);
    assert!(!regs.flags.carry);
    assert!(!regs.flags.half_carry);
    assert!(!regs.flags.zero);
}

#[test]
fn daa_sets_carry_on_high_correction() {
    let mut regs = Registers::default();
    regs.a = 0x9A;
    regs.decimal_adjust_a();
    assert_eq!(regs.a, 0x00);
    assert!(regs.flags.carry);
    assert!(regs.flags.zero);
}

#[test]
fn alu_add_wraps_and_flags() {
    assert_eq!(alu::alu8(AluOp::Add, 0x3A, 0xC6, false), (0x00, true, false, true, true));
    assert_eq!(alu::alu8(AluOp::Add, 0x08, 0x08, false), (0x10, false, false, true, false));
    assert_eq!(alu::alu8(AluOp::Adc, 0xFF, 0x00, true), (0x00, true, false, true, true));
}

#[test]
fn alu_sub_borrows_and_flags() {
    assert_eq!(alu::alu8(AluOp::Sub, 0x10, 0x01, false), (0x0F, false, true, true, false));
    assert_eq!(alu::alu8(AluOp::Sbc, 0x00, 0x00, true), (0xFF, false, true, true, true));
    assert_eq!(alu::alu8(AluOp::Cp, 0x42, 0x42, false), (0x42, true, true, false, false));
}

#[test]
fn alu_logic_flags() {
    assert_eq!(alu::alu8(AluOp::And, 0xF0, 0x0F, false), (0x00, true, false, false, false));
    assert_eq!(alu::alu8(AluOp::Xor, 0xFF, 0x0F, false), (0xF0, false, false, false, false));
    assert_eq!(alu::alu8(AluOp::Or, 0x80, 0x01, false), (0x81, false, false, false, false));
}

#[test]
fn add16_carries_out_of_bit_11_and_15() {
    assert_eq!(alu::add16(0x0FFF, 0x0001), (0x1000, true, false));
    assert_eq!(alu::add16(0xFFFF, 0x0001), (0x0000, true, true));
    assert_eq!(alu::add16(0x1000, 0x2000), (0x3000, false, false));
}

#[test]
fn sign_ext_widens_negative_displacements() {
    assert_eq!(alu::sign_ext(0x05), 0x0005);
    assert_eq!(alu::sign_ext(0xFB), 0xFFFB);
    assert_eq!(0x0200u16.wrapping_add(alu::sign_ext(0xFB)), 0x01FB);
}

#[test]
fn shift_families_move_one_bit() {
    assert_eq!(alu::shift(ShiftKind::Rlc, 0b1000_0001, false), (0b0000_0011, true));
    assert_eq!(alu::shift(ShiftKind::Rrc, 0b1000_0001, false), (0b1100_0000, true));
    assert_eq!(alu::shift(ShiftKind::Rl, 0b1000_0000, false), (0b0000_0000, true));
    assert_eq!(alu::shift(ShiftKind::Rl, 0b0000_0000, true), (0b0000_0001, false));
    assert_eq!(alu::shift(ShiftKind::Rr, 0b0000_0001, true), (0b1000_0000, true));
    assert_eq!(alu::shift(ShiftKind::Sla, 0b1100_0000, false), (0b1000_0000, true));
    assert_eq!(alu::shift(ShiftKind::Sra, 0b1000_0010, false), (0b1100_0001, false));
    assert_eq!(alu::shift(ShiftKind::Srl, 0b1000_0010, false), (0b0100_0001, false));
    assert_eq!(alu::shift(ShiftKind::Swap, 0xA7, true), (0x7A, false));
}

#[test]
fn lookup_tables_carry_the_documented_entries() {
    assert_eq!(opcode::lookup(0x00).mnemonic, "NOP");
    assert_eq!(opcode::lookup(0x00).cycles, 4);
    assert!(matches!(opcode::lookup(0x3E).inst, OpcodeUnprefixed::Ld8(..)));
    assert!(matches!(opcode::lookup(0xD3).inst, OpcodeUnprefixed::Illegal));
    assert_eq!(opcode::lookup(0x20).cycles_no_branch, 8);
    assert_eq!(opcode::lookup_prefixed(0x37).mnemonic, "SWAP A");
    assert!(matches!(opcode::lookup_prefixed(0x37).inst, OpcodePrefixed::Swap(..)));
    assert_eq!(opcode::lookup_prefixed(0x46).cycles, 12);
    assert!(matches!(opcode::lookup_prefixed(0xFF).inst, OpcodePrefixed::SetBit(7, _)));
}

#[test]
fn nop_advances_pc_and_nothing_else() {
    let mut cpu = cpu_with_program(&[0x00]);
    let before = cpu.registers;
    assert!(cpu.exec_next().is_ok());
    assert_eq!(cpu.registers.pc, 0x151);
    assert_eq!(cpu.registers.a, before.a);
    assert_eq!(cpu.registers.bc, before.bc);
    assert_eq!(cpu.registers.de, before.de);
    assert_eq!(cpu.registers.hl, before.hl);
    assert_eq!(cpu.registers.sp, before.sp);
    assert_eq!(cpu.registers.flags, before.flags);
    assert_eq!(cpu.cycles_passed, 4);
}

#[test]
fn ld_a_u8_loads_the_immediate() {
    let mut cpu = cpu_with_program(&[0x3E, 0x42]);
    assert!(cpu.exec_next().is_ok());
    assert_eq!(cpu.registers.a, 0x42);
    assert_eq!(cpu.registers.pc, 0x152);
}

#[test]
fn illegal_opcode_is_reported_not_fatal_to_host() {
    let mut cpu = cpu_with_program(&[0xD3]);
    assert_eq!(cpu.exec_next(), Err(CpuError::IllegalOpcode(0xD3)));
    assert_eq!(cpu.registers.pc, 0x151);
}

#[test]
fn store_and_reload_through_work_ram() {
    // LD HL,0xC000; LD (HL),0x77; LD A,(HL)
    let mut cpu = cpu_with_program(&[0x21, 0x00, 0xC0, 0x36, 0x77, 0x7E]);
    assert!(cpu.exec_next().is_ok());
    assert_eq!(cpu.registers.hl.as_both(), 0xC000);
    assert!(cpu.exec_next().is_ok());
    assert_eq!(cpu.addr_space.bytes[0xC000], 0x77);
    assert!(cpu.exec_next().is_ok());
    assert_eq!(cpu.registers.a, 0x77);
}

#[test]
fn push_pop_round_trip_through_stack() {
    // LD SP,0xD000; LD BC,0x1234; PUSH BC; POP DE
    let mut cpu = cpu_with_program(&[0x31, 0x00, 0xD0, 0x01, 0x34, 0x12, 0xC5, 0xD1]);
    for _ in 0..4 {
        assert!(cpu.exec_next().is_ok());
    }
    assert_eq!(cpu.registers.de.as_both(), 0x1234);
    assert_eq!(cpu.registers.sp, 0xD000);
    assert_eq!(cpu.addr_space.bytes[0xCFFF], 0x12);
    assert_eq!(cpu.addr_space.bytes[0xCFFE], 0x34);
}

#[test]
fn call_pushes_return_address_and_ret_returns() {
    // LD SP,0xD000; CALL 0x01A0; at 0x1A0: RET
    let mut prog = vec![0u8; 0x51];
    prog[..6].copy_from_slice(&[0x31, 0x00, 0xD0, 0xCD, 0xA0, 0x01]);
    prog[0x50] = 0xC9;
    let mut cpu = cpu_with_program(&prog);
    assert!(cpu.exec_next().is_ok());
    assert!(cpu.exec_next().is_ok());
    assert_eq!(cpu.registers.pc, 0x01A0);
    assert_eq!(cpu.registers.sp, 0xCFFE);
    assert!(cpu.exec_next().is_ok());
    assert_eq!(cpu.registers.pc, 0x0156);
    assert_eq!(cpu.registers.sp, 0xD000);
}

#[test]
fn conditional_relative_jump_takes_and_falls_through() {
    // INC B (clears zero); JR NZ,+2; then two NOPs
    let mut cpu = cpu_with_program(&[0x04, 0x20, 0x02, 0x00, 0x00, 0x00]);
    assert!(cpu.exec_next().is_ok());
    assert!(!cpu.z_flag());
    assert!(cpu.exec_next().is_ok());
    assert_eq!(cpu.registers.pc, 0x155);
    assert_eq!(cpu.cycles_passed, 4 + 12);

    // SUB A (sets zero); JR NZ,+2 falls through at the cheaper cost
    let mut cpu2 = cpu_with_program(&[0x97, 0x20, 0x02, 0x00]);
    assert!(cpu2.exec_next().is_ok());
    assert!(cpu2.z_flag());
    assert!(cpu2.exec_next().is_ok());
    assert_eq!(cpu2.registers.pc, 0x153);
    assert_eq!(cpu2.cycles_passed, 4 + 8);
}

#[test]
fn backward_relative_jump_wraps_displacement() {
    // JR -2 loops back onto itself
    let mut cpu = cpu_with_program(&[0x18, 0xFE]);
    assert!(cpu.exec_next().is_ok());
    assert_eq!(cpu.registers.pc, 0x150);
}

#[test]
fn add_updates_all_four_flags() {
    // LD A,0x3A; LD B,0xC6; ADD A,B
    let mut cpu = cpu_with_program(&[0x3E, 0x3A, 0x06, 0xC6, 0x80]);
    for _ in 0..3 {
        assert!(cpu.exec_next().is_ok());
    }
    assert_eq!(cpu.registers.a, 0x00);
    assert!(cpu.z_flag());
    assert!(!cpu.n_flag());
    assert!(cpu.h_flag());
    assert!(cpu.c_flag());
}

#[test]
fn prefixed_swap_and_bit_test() {
    // LD A,0xA7; SWAP A; BIT 7,A
    let mut cpu = cpu_with_program(&[0x3E, 0xA7, 0xCB, 0x37, 0xCB, 0x7F]);
    assert!(cpu.exec_next().is_ok());
    assert!(cpu.exec_next().is_ok());
    assert_eq!(cpu.registers.a, 0x7A);
    assert!(!cpu.c_flag());
    assert!(cpu.exec_next().is_ok());
    assert!(cpu.z_flag());
    assert!(cpu.h_flag());
    assert!(!cpu.n_flag());
    assert_eq!(cpu.registers.a, 0x7A);
}

#[test]
fn prefixed_set_and_res_touch_one_bit() {
    // SET 3,B; RES 3,B
    let mut cpu = cpu_with_program(&[0xCB, 0xD8, 0xCB, 0x98]);
    let flags_before = cpu.registers.flags;
    assert!(cpu.exec_next().is_ok());
    assert_eq!(cpu.registers.bc.hi, 0x08);
    assert_eq!(cpu.registers.flags, flags_before);
    assert!(cpu.exec_next().is_ok());
    assert_eq!(cpu.registers.bc.hi, 0x00);
}

#[test]
fn hl_post_increment_load_moves_hl() {
    // LD HL,0x0104; LD A,(HL+)
    let mut cpu = cpu_with_program(&[0x21, 0x04, 0x01, 0x2A]);
    assert!(cpu.exec_next().is_ok());
    assert!(cpu.exec_next().is_ok());
    assert_eq!(cpu.registers.a, LOGO[0]);
    assert_eq!(cpu.registers.hl.as_both(), 0x0105);
}

#[test]
fn high_page_store_uses_c_register() {
    // LD C,0x80; LD A,0x5A; LD (C),A
    let mut cpu = cpu_with_program(&[0x0E, 0x80, 0x3E, 0x5A, 0xE2]);
    for _ in 0..3 {
        assert!(cpu.exec_next().is_ok());
    }
    assert_eq!(cpu.addr_space.bytes[0xFF80], 0x5A);
    assert_eq!(cpu.registers.pc, 0x155);
}

#[test]
fn store_sp_at_immediate_address() {
    // LD (0xC100),SP
    let mut cpu = cpu_with_program(&[0x08, 0x00, 0xC1]);
    assert!(cpu.exec_next().is_ok());
    assert_eq!(cpu.addr_space.bytes[0xC100], 0xFE);
    assert_eq!(cpu.addr_space.bytes[0xC101], 0xFF);
}

#[test]
fn interrupt_and_mode_placeholders_toggle() {
    // EI; DI; HALT; STOP
    let mut cpu = cpu_with_program(&[0xFB, 0xF3, 0x76, 0x10]);
    assert!(cpu.exec_next().is_ok());
    assert!(cpu.ime);
    assert!(cpu.exec_next().is_ok());
    assert!(!cpu.ime);
    assert!(cpu.exec_next().is_ok());
    assert!(cpu.halted);
    assert!(cpu.exec_next().is_ok());
    assert!(cpu.stopped);
}

#[test]
fn jump_sets_pc_directly() {
    let mut cpu = cpu_with_program(&[0x00]);
    cpu.jump(0x1234);
    assert_eq!(cpu.registers.pc, 0x1234);
}

#[test]
fn flag_accessors_round_trip() {
    let mut cpu = cpu_with_program(&[0x00]);
    cpu.set_z_flag(false);
    cpu.set_n_flag(true);
    cpu.set_h_flag(false);
    cpu.set_c_flag(true);
    assert!(!cpu.z_flag());
    assert!(cpu.n_flag());
    assert!(!cpu.h_flag());
    assert!(cpu.c_flag());
}

#[test]
fn plain_ram_reads_back_writes() {
    let ram = PlainRam::new();
    assert_eq!(ram.bytes.len(), 65536);
    assert!(ram.bytes.iter().all(|&b| b == 0));
}

#[test]
fn push_af_pop_af_masks_flag_nibble() {
    // LD SP,0xD000; POP AF would need a push first: PUSH AF; POP BC
    let mut cpu = cpu_with_program(&[0x31, 0x00, 0xD0, 0xF5, 0xC1]);
    for _ in 0..3 {
        assert!(cpu.exec_next().is_ok());
    }
    assert_eq!(cpu.registers.bc.as_both(), 0x01B0);
}

#[test]
fn pop_af_unpacks_flags() {
    // LD SP,0xD000; LD BC,0x55FF; PUSH BC; POP AF
    let mut cpu = cpu_with_program(&[0x31, 0x00, 0xD0, 0x01, 0xFF, 0x55, 0xC5, 0xF1]);
    for _ in 0..4 {
        assert!(cpu.exec_next().is_ok());
    }
    assert_eq!(cpu.registers.a, 0x55);
    assert_eq!(cpu.registers.af(), 0x55F0);
}

#[test]
fn rst_is_a_call_to_a_fixed_vector() {
    // LD SP,0xD000; RST 0x28
    let mut cpu = cpu_with_program(&[0x31, 0x00, 0xD0, 0xEF]);
    assert!(cpu.exec_next().is_ok());
    assert!(cpu.exec_next().is_ok());
    assert_eq!(cpu.registers.pc, 0x0028);
    // the pushed return address points past the restart opcode
    assert_eq!(cpu.addr_space.bytes[0xCFFF], 0x01);
    assert_eq!(cpu.addr_space.bytes[0xCFFE], 0x54);
}

#[test]
fn ret_not_taken_leaves_pc_alone() {
    // INC B (clears zero); RET Z
    let mut cpu = cpu_with_program(&[0x04, 0xC8]);
    assert!(cpu.exec_next().is_ok());
    assert!(cpu.exec_next().is_ok());
    assert_eq!(cpu.registers.pc, 0x152);
    assert_eq!(cpu.cycles_passed, 4 + 8);
}

#[test]
fn add_sp_signed_displacement() {
    // LD SP,0xD000; ADD SP,-3
    let mut cpu = cpu_with_program(&[0x31, 0x00, 0xD0, 0xE8, 0xFD]);
    assert!(cpu.exec_next().is_ok());
    assert!(cpu.exec_next().is_ok());
    assert_eq!(cpu.registers.sp, 0xCFFD);
}

#[test]
fn add_hl_bc_sets_sixteen_bit_carries() {
    // LD HL,0x0FFF; LD BC,0x0001; ADD HL,BC
    let mut cpu = cpu_with_program(&[0x21, 0xFF, 0x0F, 0x01, 0x01, 0x00, 0x09]);
    for _ in 0..3 {
        assert!(cpu.exec_next().is_ok());
    }
    assert_eq!(cpu.registers.hl.as_both(), 0x1000);
    assert!(cpu.h_flag());
    assert!(!cpu.c_flag());
    assert!(!cpu.n_flag());
}

#[test]
fn sixteen_bit_inc_dec_touch_no_flags() {
    // INC DE; DEC DE
    let mut cpu = cpu_with_program(&[0x13, 0x1B]);
    let flags_before = cpu.registers.flags;
    assert!(cpu.exec_next().is_ok());
    assert_eq!(cpu.registers.de.as_both(), 0x00D9);
    assert!(cpu.exec_next().is_ok());
    assert_eq!(cpu.registers.de.as_both(), 0x00D8);
    assert_eq!(cpu.registers.flags, flags_before);
}

#[test]
fn accumulator_rotate_shortcuts() {
    // LD A,0x85; RLCA
    let mut cpu = cpu_with_program(&[0x3E, 0x85, 0x07]);
    assert!(cpu.exec_next().is_ok());
    assert!(cpu.exec_next().is_ok());
    assert_eq!(cpu.registers.a, 0x0B);
    assert!(cpu.c_flag());

    // SCF; LD A,0x01; RRA rotates the old carry into bit 7
    let mut cpu2 = cpu_with_program(&[0x37, 0x3E, 0x01, 0x1F]);
    for _ in 0..3 {
        assert!(cpu2.exec_next().is_ok());
    }
    assert_eq!(cpu2.registers.a, 0x80);
    assert!(cpu2.c_flag());
}

#[test]
fn complement_and_carry_flag_instructions() {
    // LD A,0x35; CPL; SCF; CCF
    let mut cpu = cpu_with_program(&[0x3E, 0x35, 0x2F, 0x37, 0x3F]);
    assert!(cpu.exec_next().is_ok());
    let flags_before = cpu.registers.flags;
    assert!(cpu.exec_next().is_ok());
    assert_eq!(cpu.registers.a, 0xCA);
    assert_eq!(cpu.registers.flags, flags_before);
    assert!(cpu.exec_next().is_ok());
    assert!(cpu.c_flag());
    assert!(cpu.exec_next().is_ok());
    assert!(!cpu.c_flag());
}

#[test]
fn reti_returns_and_enables_interrupts() {
    // LD SP,0xD000; LD BC,0x0177; PUSH BC; RETI
    let mut cpu = cpu_with_program(&[0x31, 0x00, 0xD0, 0x01, 0x77, 0x01, 0xC5, 0xD9]);
    for _ in 0..4 {
        assert!(cpu.exec_next().is_ok());
    }
    assert_eq!(cpu.registers.pc, 0x0177);
    assert!(cpu.ime);
}

#[test]
fn memory_increment_writes_into_rom_bank() {
    // LD HL,0x0000; INC (HL): the address bus routes the write into the
    // fixed bank of the cartridge buffer
    let mut cpu = cpu_with_program(&[0x21, 0x00, 0x00, 0x34]);
    assert!(cpu.exec_next().is_ok());
    assert!(cpu.exec_next().is_ok());
    assert_eq!(cpu.cartridge.rom[0], 1);
    assert!(!cpu.z_flag());
}

#[test]
fn jp_hl_jumps_to_register() {
    // LD HL,0x0234; JP HL
    let mut cpu = cpu_with_program(&[0x21, 0x34, 0x02, 0xE9]);
    assert!(cpu.exec_next().is_ok());
    assert!(cpu.exec_next().is_ok());
    assert_eq!(cpu.registers.pc, 0x0234);
}

#[test]
fn ld_hl_sp_plus_displacement() {
    // LD HL,SP-2 with boot SP 0xFFFE
    let mut cpu = cpu_with_program(&[0xF8, 0xFE]);
    assert!(cpu.exec_next().is_ok());
    assert_eq!(cpu.registers.hl.as_both(), 0xFFFC);
}
