use rgb_emu::Cpu;
use rgb_emu::ExecutionError;
use rgb_emu::Gui;
use rgb_emu::MemBus;
use rgb_emu::Rom;

fn cpu_with(program: &[u8]) -> Cpu {
    let mut bytes: Vec<u8> = vec![0u8; 32768];
    bytes[0x134] = b'T';
    bytes[0x135] = b'E';
    bytes[0x136] = b'S';
    bytes[0x137] = b'T';
    for (i, b) in program.iter().enumerate() {
        bytes[0x100 + i] = *b;
    }
    Cpu::new(MemBus::new(Rom::new(bytes).unwrap()))
}

#[test]
fn register_pair_round_trip() {
    let mut cpu = cpu_with(&[]);
    let mut v: u32 = 0;
    while v <= 0xFFFF {
        cpu.set_bc(v as u16);
        assert_eq!(cpu.get_bc(), v as u16);
        cpu.set_de(v as u16);
        assert_eq!(cpu.get_de(), v as u16);
        cpu.set_hl(v as u16);
        assert_eq!(cpu.get_hl(), v as u16);
        v += 1;
    }
}

#[test]
fn nop_advances_pc_only() {
    let mut cpu = cpu_with(&[0x00]);
    let before = cpu.snapshot();
    assert_eq!(cpu.step(), Ok(1));
    let after = cpu.snapshot();
    assert_eq!(after.pc, 0x101);
    assert_eq!(before.a, after.a);
    assert_eq!(before.b, after.b);
    assert_eq!(before.c, after.c);
    assert_eq!(before.d, after.d);
    assert_eq!(before.e, after.e);
    assert_eq!(before.f, after.f);
    assert_eq!(before.h, after.h);
    assert_eq!(before.l, after.l);
    assert_eq!(before.sp, after.sp);
}

#[test]
fn ld_bc_imm16_is_little_endian() {
    let mut cpu = cpu_with(&[0x01, 0x34, 0x12]);
    assert_eq!(cpu.step(), Ok(3));
    assert_eq!(cpu.get_bc(), 0x1234);
    assert_eq!(cpu.get_pc(), 0x103);
}

#[test]
fn push_pop_discipline() {
    let mut cpu = cpu_with(&[0xC5, 0xD1]);
    cpu.set_bc(0x1234);
    assert_eq!(cpu.step(), Ok(4));
    assert_eq!(cpu.get_sp(), 0xFFFC);
    assert_eq!(cpu.membus().read(0xFFFD), 0x12);
    assert_eq!(cpu.membus().read(0xFFFC), 0x34);
    assert_eq!(cpu.step(), Ok(3));
    assert_eq!(cpu.get_de(), 0x1234);
    assert_eq!(cpu.get_sp(), 0xFFFE);
}

#[test]
fn unknown_opcode_reported_and_state_kept() {
    let mut cpu = cpu_with(&[0xD3]);
    assert_eq!(cpu.step(), Err(ExecutionError::UnimplementedOpcode(0xD3)));
    assert_eq!(cpu.get_pc(), 0x100);
}

#[test]
fn halt_suspends_fetching() {
    let mut cpu = cpu_with(&[0x76, 0xD3]);
    assert_eq!(cpu.step(), Ok(1));
    assert!(cpu.is_halted());
    assert_eq!(cpu.get_pc(), 0x101);
    assert_eq!(cpu.step(), Ok(1));
    assert_eq!(cpu.get_pc(), 0x101);
}

#[test]
fn stop_suspends_and_skips_pad_byte() {
    let mut cpu = cpu_with(&[0x10, 0x00]);
    assert_eq!(cpu.step(), Ok(1));
    assert!(cpu.is_halted());
    assert_eq!(cpu.get_pc(), 0x102);
}

#[test]
fn add_sets_half_carry() {
    let mut cpu = cpu_with(&[0x80]);
    cpu.set_af(0x0F00);
    cpu.set_bc(0x0100);
    assert_eq!(cpu.step(), Ok(1));
    let s = cpu.snapshot();
    assert_eq!(s.a, 0x10);
    assert_eq!(s.f, 0x02);
}

#[test]
fn add_sets_zero_and_carry() {
    let mut cpu = cpu_with(&[0x80]);
    cpu.set_af(0x8000);
    cpu.set_bc(0x8000);
    assert_eq!(cpu.step(), Ok(1));
    let s = cpu.snapshot();
    assert_eq!(s.a, 0x00);
    assert_eq!(s.f, 0x09);
}

#[test]
fn adc_consumes_carry() {
    let mut cpu = cpu_with(&[0x88]);
    cpu.set_af(0x0001);
    cpu.set_bc(0xFF00);
    assert_eq!(cpu.step(), Ok(1));
    let s = cpu.snapshot();
    assert_eq!(s.a, 0x00);
    assert_eq!(s.f, 0x0B);
}

#[test]
fn sub_sets_subtract_and_half_borrow() {
    let mut cpu = cpu_with(&[0x90]);
    cpu.set_af(0x1000);
    cpu.set_bc(0x0100);
    assert_eq!(cpu.step(), Ok(1));
    let s = cpu.snapshot();
    assert_eq!(s.a, 0x0F);
    assert_eq!(s.f, 0x06);
}

#[test]
fn cp_leaves_a_untouched() {
    let mut cpu = cpu_with(&[0xB8]);
    cpu.set_af(0x4200);
    cpu.set_bc(0x4200);
    assert_eq!(cpu.step(), Ok(1));
    let s = cpu.snapshot();
    assert_eq!(s.a, 0x42);
    assert_eq!(s.f, 0x0C);
}

#[test]
fn and_or_xor_flags() {
    let mut cpu = cpu_with(&[0xA0, 0xB0, 0xAF]);
    cpu.set_af(0xF000);
    cpu.set_bc(0x0F00);
    assert_eq!(cpu.step(), Ok(1));
    assert_eq!(cpu.snapshot().a, 0x00);
    assert_eq!(cpu.snapshot().f, 0x0A);
    cpu.set_af(0xF000);
    assert_eq!(cpu.step(), Ok(1));
    assert_eq!(cpu.snapshot().a, 0xFF);
    assert_eq!(cpu.snapshot().f, 0x00);
    assert_eq!(cpu.step(), Ok(1));
    assert_eq!(cpu.snapshot().a, 0x00);
    assert_eq!(cpu.snapshot().f, 0x08);
}

#[test]
fn inc_keeps_carry() {
    let mut cpu = cpu_with(&[0x04]);
    cpu.set_af(0x0001);
    cpu.set_bc(0xFF00);
    assert_eq!(cpu.step(), Ok(1));
    let s = cpu.snapshot();
    assert_eq!(s.b, 0x00);
    assert_eq!(s.f, 0x0B);
}

#[test]
fn dec_sets_zero_and_subtract() {
    let mut cpu = cpu_with(&[0x05]);
    cpu.set_bc(0x0100);
    assert_eq!(cpu.step(), Ok(1));
    let s = cpu.snapshot();
    assert_eq!(s.b, 0x00);
    assert_eq!(s.f, 0x0C);
}

#[test]
fn ld_r8_imm_and_copy() {
    let mut cpu = cpu_with(&[0x06, 0x42, 0x78]);
    assert_eq!(cpu.step(), Ok(2));
    assert_eq!(cpu.snapshot().b, 0x42);
    assert_eq!(cpu.get_pc(), 0x102);
    assert_eq!(cpu.step(), Ok(1));
    assert_eq!(cpu.snapshot().a, 0x42);
}

#[test]
fn ld_through_hl_memory() {
    let mut cpu = cpu_with(&[0x21, 0x00, 0x80, 0x36, 0x5A, 0x7E]);
    assert_eq!(cpu.step(), Ok(3));
    assert_eq!(cpu.get_hl(), 0x8000);
    assert_eq!(cpu.step(), Ok(3));
    assert_eq!(cpu.membus().read(0x8000), 0x5A);
    assert_eq!(cpu.step(), Ok(2));
    assert_eq!(cpu.snapshot().a, 0x5A);
}

#[test]
fn ld_hl_inc_dec_indirect() {
    let mut cpu = cpu_with(&[0x21, 0x00, 0x80, 0x22, 0x32]);
    cpu.set_af(0x3300);
    assert_eq!(cpu.step(), Ok(3));
    assert_eq!(cpu.step(), Ok(2));
    assert_eq!(cpu.membus().read(0x8000), 0x33);
    assert_eq!(cpu.get_hl(), 0x8001);
    assert_eq!(cpu.step(), Ok(2));
    assert_eq!(cpu.membus().read(0x8001), 0x33);
    assert_eq!(cpu.get_hl(), 0x8000);
}

#[test]
fn jr_taken_costs_more_than_not_taken() {
    let mut cpu = cpu_with(&[0x20, 0x10]);
    assert_eq!(cpu.step(), Ok(3));
    assert_eq!(cpu.get_pc(), 0x112);
    let mut cpu2 = cpu_with(&[0x20, 0x10]);
    cpu2.set_af(0x0008);
    assert_eq!(cpu2.step(), Ok(2));
    assert_eq!(cpu2.get_pc(), 0x102);
}

#[test]
fn jr_backwards_offset() {
    let mut cpu = cpu_with(&[0x18, 0xFE]);
    assert_eq!(cpu.step(), Ok(3));
    assert_eq!(cpu.get_pc(), 0x100);
}

#[test]
fn add_hl_sets_half_carry_from_bit_eleven() {
    let mut cpu = cpu_with(&[0x09]);
    cpu.set_hl(0x0FFF);
    cpu.set_bc(0x0001);
    assert_eq!(cpu.step(), Ok(2));
    assert_eq!(cpu.get_hl(), 0x1000);
    assert_eq!(cpu.snapshot().f, 0x02);
}

#[test]
fn call_and_ret() {
    let mut program = [0u8; 0x20];
    program[0x00] = 0xCD;
    program[0x01] = 0x10;
    program[0x02] = 0x01;
    program[0x10] = 0xC9;
    let mut cpu = cpu_with(&program);
    assert_eq!(cpu.step(), Ok(6));
    assert_eq!(cpu.get_pc(), 0x0110);
    assert_eq!(cpu.get_sp(), 0xFFFC);
    assert_eq!(cpu.membus().read(0xFFFC), 0x03);
    assert_eq!(cpu.membus().read(0xFFFD), 0x01);
    assert_eq!(cpu.step(), Ok(4));
    assert_eq!(cpu.get_pc(), 0x0103);
    assert_eq!(cpu.get_sp(), 0xFFFE);
}

#[test]
fn rst_pushes_return_address() {
    let mut cpu = cpu_with(&[0xFF]);
    assert_eq!(cpu.step(), Ok(4));
    assert_eq!(cpu.get_pc(), 0x38);
    assert_eq!(cpu.get_sp(), 0xFFFC);
    assert_eq!(cpu.membus().read(0xFFFC), 0x01);
    assert_eq!(cpu.membus().read(0xFFFD), 0x01);
}

#[test]
fn cb_bit_tests_a_bit() {
    let mut cpu = cpu_with(&[0xCB, 0x40]);
    cpu.set_bc(0x0100);
    assert_eq!(cpu.step(), Ok(2));
    assert_eq!(cpu.snapshot().f, 0x02);
    assert_eq!(cpu.get_pc(), 0x102);
    let mut cpu2 = cpu_with(&[0xCB, 0x40]);
    assert_eq!(cpu2.step(), Ok(2));
    assert_eq!(cpu2.snapshot().f, 0x0A);
}

#[test]
fn cb_set_on_memory_operand() {
    let mut cpu = cpu_with(&[0x21, 0x00, 0x80, 0xCB, 0xC6]);
    assert_eq!(cpu.step(), Ok(3));
    assert_eq!(cpu.step(), Ok(4));
    assert_eq!(cpu.membus().read(0x8000), 0x01);
}

#[test]
fn cb_swap_exchanges_nibbles() {
    let mut cpu = cpu_with(&[0xCB, 0x37]);
    cpu.set_af(0xF000);
    assert_eq!(cpu.step(), Ok(2));
    assert_eq!(cpu.snapshot().a, 0x0F);
    assert_eq!(cpu.snapshot().f, 0x00);
}

#[test]
fn rlca_rotates_into_carry() {
    let mut cpu = cpu_with(&[0x07]);
    cpu.set_af(0x8500);
    assert_eq!(cpu.step(), Ok(1));
    assert_eq!(cpu.snapshot().a, 0x0B);
    assert_eq!(cpu.snapshot().f, 0x01);
}

#[test]
fn rra_shifts_into_carry_without_zero_flag() {
    let mut cpu = cpu_with(&[0x1F]);
    cpu.set_af(0x0100);
    assert_eq!(cpu.step(), Ok(1));
    assert_eq!(cpu.snapshot().a, 0x00);
    assert_eq!(cpu.snapshot().f, 0x01);
}

#[test]
fn daa_adjusts_binary_coded_decimal() {
    let mut cpu = cpu_with(&[0x27]);
    cpu.set_af(0x0A00);
    assert_eq!(cpu.step(), Ok(1));
    assert_eq!(cpu.snapshot().a, 0x10);
    assert_eq!(cpu.snapshot().f, 0x00);
}

#[test]
fn ldh_writes_and_reads_high_memory() {
    let mut cpu = cpu_with(&[0xE0, 0x80, 0x3E, 0x00, 0xF0, 0x80]);
    cpu.set_af(0x4200);
    assert_eq!(cpu.step(), Ok(3));
    assert_eq!(cpu.membus().read(0xFF80), 0x42);
    assert_eq!(cpu.step(), Ok(2));
    assert_eq!(cpu.snapshot().a, 0x00);
    assert_eq!(cpu.step(), Ok(3));
    assert_eq!(cpu.snapshot().a, 0x42);
}

#[test]
fn ld_absolute_address() {
    let mut cpu = cpu_with(&[0xEA, 0x00, 0x90]);
    cpu.set_af(0x7700);
    assert_eq!(cpu.step(), Ok(4));
    assert_eq!(cpu.membus().read(0x9000), 0x77);
    assert_eq!(cpu.get_pc(), 0x103);
}

#[test]
fn add_sp_wraps_with_low_byte_flags() {
    let mut cpu = cpu_with(&[0xE8, 0x02]);
    assert_eq!(cpu.step(), Ok(4));
    assert_eq!(cpu.get_sp(), 0x0000);
    assert_eq!(cpu.snapshot().f, 0x03);
    assert_eq!(cpu.get_pc(), 0x102);
}

#[test]
fn ld_hl_sp_with_negative_offset() {
    let mut cpu = cpu_with(&[0xF8, 0xFE]);
    assert_eq!(cpu.step(), Ok(3));
    assert_eq!(cpu.get_hl(), 0xFFFC);
    assert_eq!(cpu.snapshot().f, 0x03);
}

#[test]
fn store_sp_to_memory() {
    let mut cpu = cpu_with(&[0x08, 0x00, 0x90]);
    assert_eq!(cpu.step(), Ok(5));
    assert_eq!(cpu.membus().read(0x9000), 0xFE);
    assert_eq!(cpu.membus().read(0x9001), 0xFF);
}

#[test]
fn ei_and_di_toggle_interrupt_master() {
    let mut cpu = cpu_with(&[0xFB, 0xF3]);
    assert!(!cpu.interrupts_enabled());
    assert_eq!(cpu.step(), Ok(1));
    assert!(cpu.interrupts_enabled());
    assert_eq!(cpu.step(), Ok(1));
    assert!(!cpu.interrupts_enabled());
}

#[test]
fn jp_and_conditional_jp_costs() {
    let mut cpu = cpu_with(&[0xC3, 0x50, 0x01]);
    assert_eq!(cpu.step(), Ok(4));
    assert_eq!(cpu.get_pc(), 0x0150);
    let mut cpu2 = cpu_with(&[0xDA, 0x50, 0x01]);
    assert_eq!(cpu2.step(), Ok(3));
    assert_eq!(cpu2.get_pc(), 0x103);
    let mut cpu3 = cpu_with(&[0xDA, 0x50, 0x01]);
    cpu3.set_af(0x0001);
    assert_eq!(cpu3.step(), Ok(4));
    assert_eq!(cpu3.get_pc(), 0x0150);
}

#[test]
fn jp_hl_and_ld_sp_hl() {
    let mut cpu = cpu_with(&[0xF9, 0xE9]);
    cpu.set_hl(0x0150);
    assert_eq!(cpu.step(), Ok(2));
    assert_eq!(cpu.get_sp(), 0x0150);
    assert_eq!(cpu.step(), Ok(1));
    assert_eq!(cpu.get_pc(), 0x0150);
}

#[test]
fn inc_dec_register_pairs_wrap() {
    let mut cpu = cpu_with(&[0x03, 0x0B, 0x0B]);
    assert_eq!(cpu.step(), Ok(2));
    assert_eq!(cpu.get_bc(), 0x0001);
    assert_eq!(cpu.step(), Ok(2));
    assert_eq!(cpu.get_bc(), 0x0000);
    assert_eq!(cpu.step(), Ok(2));
    assert_eq!(cpu.get_bc(), 0xFFFF);
}

#[test]
fn pc_wraps_around_address_space() {
    let mut cpu = cpu_with(&[0xC3, 0xFF, 0xFF]);
    assert_eq!(cpu.step(), Ok(4));
    assert_eq!(cpu.get_pc(), 0xFFFF);
    assert_eq!(cpu.step(), Ok(1));
    assert_eq!(cpu.get_pc(), 0x0000);
}

#[test]
fn pop_af_keeps_flag_nibble_clean() {
    let mut cpu = cpu_with(&[0xC5, 0xF1]);
    cpu.set_bc(0x12FF);
    assert_eq!(cpu.step(), Ok(4));
    assert_eq!(cpu.step(), Ok(3));
    assert_eq!(cpu.snapshot().a, 0x12);
    assert_eq!(cpu.snapshot().f, 0x0F);
    assert_eq!(cpu.get_af(), 0x120F);
}

#[test]
fn run_reports_first_bad_opcode() {
    let mut cpu = cpu_with(&[0x00, 0xD3]);
    assert_eq!(cpu.run(10), Some(ExecutionError::UnimplementedOpcode(0xD3)));
    assert_eq!(cpu.get_pc(), 0x101);
    let mut cpu2 = cpu_with(&[0x00, 0xD3]);
    assert_eq!(cpu2.run(1), None);
    assert_eq!(cpu2.get_pc(), 0x101);
}

#[test]
fn gui_exposes_snapshot_and_title() {
    let mut cpu = cpu_with(&[]);
    cpu.set_bc(0x1234);
    let gui = Gui::new(cpu);
    let s = gui.snapshot();
    assert_eq!(s.b, 0x12);
    assert_eq!(s.c, 0x34);
    assert_eq!(s.pc, 0x0100);
    assert_eq!(s.sp, 0xFFFE);
    assert_eq!(gui.title().as_str(), "TEST");
}

#[test]
fn sbc_borrows_through_carry() {
    let mut cpu = cpu_with(&[0x98]);
    cpu.set_af(0x1001);
    cpu.set_bc(0x0F00);
    assert_eq!(cpu.step(), Ok(1));
    let s = cpu.snapshot();
    assert_eq!(s.a, 0x00);
    assert_eq!(s.f, 0x0E);
}

#[test]
fn cpl_scf_ccf_flag_behaviour() {
    let mut cpu = cpu_with(&[0x2F, 0x37, 0x3F]);
    cpu.set_af(0x3500);
    assert_eq!(cpu.step(), Ok(1));
    assert_eq!(cpu.snapshot().a, 0xCA);
    assert_eq!(cpu.snapshot().f, 0x06);
    assert_eq!(cpu.step(), Ok(1));
    assert_eq!(cpu.snapshot().f, 0x01);
    assert_eq!(cpu.step(), Ok(1));
    assert_eq!(cpu.snapshot().f, 0x00);
}

#[test]
fn ret_cc_costs_differ() {
    let mut cpu = cpu_with(&[0xC0]);
    cpu.set_af(0x0008);
    assert_eq!(cpu.step(), Ok(2));
    assert_eq!(cpu.get_pc(), 0x101);
    let mut program = [0u8; 1];
    program[0] = 0xC8;
    let mut cpu2 = cpu_with(&program);
    cpu2.set_af(0x0008);
    assert_eq!(cpu2.step(), Ok(5));
    assert_eq!(cpu2.get_sp(), 0x0000);
}

#[test]
fn cb_rlc_and_rl_on_register() {
    let mut cpu = cpu_with(&[0xCB, 0x00, 0xCB, 0x10]);
    cpu.set_bc(0x8000);
    assert_eq!(cpu.step(), Ok(2));
    assert_eq!(cpu.snapshot().b, 0x01);
    assert_eq!(cpu.snapshot().f, 0x01);
    cpu.set_bc(0x0000);
    assert_eq!(cpu.step(), Ok(2));
    assert_eq!(cpu.snapshot().b, 0x01);
    assert_eq!(cpu.snapshot().f, 0x00);
}

#[test]
fn cb_srl_and_sra_keep_sign_correctly() {
    let mut cpu = cpu_with(&[0xCB, 0x38, 0xCB, 0x28]);
    cpu.set_bc(0x8100);
    assert_eq!(cpu.step(), Ok(2));
    assert_eq!(cpu.snapshot().b, 0x40);
    assert_eq!(cpu.snapshot().f, 0x01);
    cpu.set_bc(0x8200);
    assert_eq!(cpu.step(), Ok(2));
    assert_eq!(cpu.snapshot().b, 0xC1);
    assert_eq!(cpu.snapshot().f, 0x00);
}

#[test]
fn cb_res_clears_a_bit() {
    let mut cpu = cpu_with(&[0xCB, 0x87]);
    cpu.set_af(0xFF00);
    assert_eq!(cpu.step(), Ok(2));
    assert_eq!(cpu.snapshot().a, 0xFE);
}

#[test]
fn ld_a_from_bc_indirect() {
    let mut cpu = cpu_with(&[0x0A]);
    cpu.set_bc(0x0147);
    assert_eq!(cpu.step(), Ok(2));
    assert_eq!(cpu.snapshot().a, 0x00);
    let mut cpu2 = cpu_with(&[0x1A]);
    cpu2.set_de(0x0100);
    assert_eq!(cpu2.step(), Ok(2));
    assert_eq!(cpu2.snapshot().a, 0x1A);
}

#[test]
fn ld_c_indirect_high_memory() {
    let mut cpu = cpu_with(&[0xE2, 0xF2]);
    cpu.set_af(0x5500);
    cpu.set_bc(0x0090);
    assert_eq!(cpu.step(), Ok(2));
    assert_eq!(cpu.membus().read(0xFF90), 0x55);
    cpu.set_af(0x0000);
    assert_eq!(cpu.step(), Ok(2));
    assert_eq!(cpu.snapshot().a, 0x55);
}
