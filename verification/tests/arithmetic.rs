use gbc_emulator::cpu::{Cpu, Reg8bit};

const REG_A: usize = 7;
const REG_B: usize = 0;
const REG_F: usize = 6;

fn cpu_with(a: u8, b: u8, f: u8) -> Cpu {
    let mut cpu = Cpu::new();
    cpu.write_reg8(REG_A, a);
    cpu.write_reg8(REG_B, b);
    cpu.write_reg8(REG_F, f);
    cpu
}

#[test]
fn register_slots_follow_the_register_file() {
    assert_eq!(Reg8bit::B.index(), 0);
    assert_eq!(Reg8bit::C.index(), 1);
    assert_eq!(Reg8bit::D.index(), 2);
    assert_eq!(Reg8bit::E.index(), 3);
    assert_eq!(Reg8bit::H.index(), 4);
    assert_eq!(Reg8bit::L.index(), 5);
    assert_eq!(Reg8bit::F.index(), 6);
    assert_eq!(Reg8bit::A.index(), 7);
}

#[test]
fn add_sets_all_flags_on_wrap_to_zero() {
    let mut cpu = cpu_with(0x3A, 0xC6, 0x00);
    cpu.add_a_r(REG_B, false);
    assert_eq!(cpu.read_reg8(REG_A), 0x00);
    assert!(cpu.get_zero_flag());
    assert!(cpu.get_half_carry_flag());
    assert!(cpu.get_carry_flag());
    assert!(!cpu.get_add_sub_flag());
    assert_eq!(cpu.read_reg8(REG_F), 0xB0);
}

#[test]
fn add_without_carry_ignores_the_carry_flag() {
    let mut cpu = cpu_with(0x01, 0x01, 0x10);
    cpu.add_a_r(REG_B, false);
    assert_eq!(cpu.read_reg8(REG_A), 0x02);
    assert_eq!(cpu.read_reg8(REG_F), 0x00);
}

#[test]
fn adc_adds_the_carry_flag() {
    let mut cpu = cpu_with(0xE1, 0x0F, 0x10);
    cpu.add_a_r(REG_B, true);
    assert_eq!(cpu.read_reg8(REG_A), 0xF1);
    assert!(!cpu.get_zero_flag());
    assert!(cpu.get_half_carry_flag());
    assert!(!cpu.get_carry_flag());
}

#[test]
fn add_flags_agree_with_the_sums_for_all_bytes() {
    for a in 0..=255u8 {
        for b in 0..=255u8 {
            for c in 0..=1u8 {
                let mut cpu = cpu_with(a, b, if c == 1 { 0x10 } else { 0x00 });
                cpu.add_a_r(REG_B, true);
                let sum: u16 = a as u16 + b as u16 + c as u16;
                assert_eq!(cpu.get_carry_flag(), sum > 255);
                assert_eq!(cpu.get_half_carry_flag(), (a & 0xF) + (b & 0xF) + c > 0xF);
                assert_eq!(cpu.get_zero_flag(), sum & 0xFF == 0);
                assert!(!cpu.get_add_sub_flag());
                assert_eq!(cpu.read_reg8(REG_A) as u16, sum & 0xFF);
                assert_eq!(cpu.read_reg8(REG_F) & 0x0F, 0);
            }
        }
    }
}

#[test]
fn sub_flags_agree_with_the_differences_for_all_bytes() {
    for a in 0..=255u8 {
        for b in 0..=255u8 {
            for c in 0..=1u8 {
                let mut cpu = cpu_with(a, b, if c == 1 { 0x10 } else { 0x00 });
                cpu.sub_a_r(REG_B, true);
                let difference: i16 = a as i16 - b as i16 - c as i16;
                let half: i16 = (a & 0xF) as i16 - (b & 0xF) as i16 - c as i16;
                assert_eq!(cpu.get_carry_flag(), difference < 0);
                assert_eq!(cpu.get_half_carry_flag(), half < 0);
                assert_eq!(cpu.get_zero_flag(), difference & 0xFF == 0);
                assert!(cpu.get_add_sub_flag());
                assert_eq!(cpu.read_reg8(REG_A) as i16, difference & 0xFF);
            }
        }
    }
}

#[test]
fn sub_borrows_below_zero() {
    let mut cpu = cpu_with(0x3B, 0x4F, 0x00);
    cpu.sub_a_r(REG_B, true);
    assert_eq!(cpu.read_reg8(REG_A), 0xEC);
    assert!(cpu.get_carry_flag());
    assert!(cpu.get_half_carry_flag());
    assert!(cpu.get_add_sub_flag());
    assert!(!cpu.get_zero_flag());
}

#[test]
fn sub_of_equal_values_is_zero() {
    let mut cpu = cpu_with(0x3E, 0x3E, 0x00);
    cpu.sub_a_r(REG_B, false);
    assert_eq!(cpu.read_reg8(REG_A), 0x00);
    assert_eq!(cpu.read_reg8(REG_F), 0xC0);
}

#[test]
fn and_sets_half_carry_and_clears_carry() {
    let mut cpu = cpu_with(0x5A, 0x3F, 0x10);
    cpu.and_a_r(REG_B);
    assert_eq!(cpu.read_reg8(REG_A), 0x1A);
    assert_eq!(cpu.read_reg8(REG_F), 0x20);
}

#[test]
fn xor_of_a_with_itself_is_zero() {
    let mut cpu = cpu_with(0xFF, 0x00, 0x70);
    cpu.xor_a_r(REG_A);
    assert_eq!(cpu.read_reg8(REG_A), 0x00);
    assert_eq!(cpu.read_reg8(REG_F), 0x80);
}

#[test]
fn or_clears_all_but_zero() {
    let mut cpu = cpu_with(0x5A, 0x0F, 0xF0);
    cpu.or_a_r(REG_B);
    assert_eq!(cpu.read_reg8(REG_A), 0x5F);
    assert_eq!(cpu.read_reg8(REG_F), 0x00);
}

#[test]
fn flag_operations_clear_the_lower_half_of_f() {
    let mut cpu = cpu_with(0x01, 0x01, 0x0F);
    cpu.add_a_r(REG_B, false);
    assert_eq!(cpu.read_reg8(REG_F), 0x00);
    cpu.write_reg8(REG_F, 0x0F);
    cpu.sub_a_r(REG_B, false);
    assert_eq!(cpu.read_reg8(REG_F), 0x40);
}

#[test]
fn every_flag_setting_operation_clears_the_lower_half_of_f() {
    let operations: [fn(&mut Cpu); 22] = [
        |cpu| cpu.add_a_r(REG_B, true),
        |cpu| cpu.sub_a_r(REG_B, true),
        |cpu| cpu.and_a_r(REG_B),
        |cpu| cpu.xor_a_r(REG_B),
        |cpu| cpu.or_a_r(REG_B),
        |cpu| cpu.increment_r(REG_B),
        |cpu| cpu.decrement_r(REG_B),
        |cpu| cpu.increment_memory(0xC000),
        |cpu| cpu.decrement_memory(0xC000),
        |cpu| cpu.complement_a(),
        |cpu| cpu.add_hl_rr(0),
        |cpu| cpu.add_hl_sp(),
        |cpu| cpu.daa(),
        |cpu| {
            cpu.add_sp_dd();
        },
        |cpu| {
            cpu.rlc_n(0x81, true);
        },
        |cpu| {
            cpu.rr_n(0x81, false);
        },
        |cpu| {
            cpu.shift_right_arithmetic(0x81);
        },
        |cpu| {
            cpu.swap(0x81);
        },
        |cpu| cpu.ccf(),
        |cpu| cpu.scf(),
        |cpu| cpu.bit_check(0x81, 3),
        |cpu| cpu.pop_af(),
    ];
    for operation in operations.iter() {
        for f in [0x0Fu8, 0xFF, 0x5A, 0xA5].iter() {
            let mut cpu = cpu_with(0x3C, 0xC4, *f);
            operation(&mut cpu);
            assert_eq!(cpu.read_reg8(REG_F) & 0x0F, 0);
        }
    }
}

#[test]
fn addition_then_decimal_adjustment_adds_decimal_numbers() {
    for x in 0..100u8 {
        for y in 0..100u8 {
            for c in 0..=1u8 {
                let a: u8 = (x / 10) * 16 + x % 10;
                let b: u8 = (y / 10) * 16 + y % 10;
                let mut cpu = cpu_with(a, b, if c == 1 { 0x10 } else { 0x00 });
                cpu.add_a_r(REG_B, true);
                cpu.daa();
                let sum: u8 = x + y + c;
                let expected: u8 = ((sum % 100) / 10) * 16 + sum % 10;
                assert_eq!(cpu.read_reg8(REG_A), expected);
                assert_eq!(cpu.get_carry_flag(), sum >= 100);
                assert_eq!(cpu.get_zero_flag(), expected == 0);
                assert!(!cpu.get_half_carry_flag());
            }
        }
    }
}

#[test]
fn increment_keeps_the_carry() {
    let mut cpu = cpu_with(0x00, 0x0F, 0x10);
    cpu.increment_r(REG_B);
    assert_eq!(cpu.read_reg8(REG_B), 0x10);
    assert!(cpu.get_half_carry_flag());
    assert!(cpu.get_carry_flag());
    assert!(!cpu.get_zero_flag());
    assert!(!cpu.get_add_sub_flag());
}

#[test]
fn increment_wraps_to_zero() {
    let mut cpu = cpu_with(0x00, 0xFF, 0x00);
    cpu.increment_r(REG_B);
    assert_eq!(cpu.read_reg8(REG_B), 0x00);
    assert_eq!(cpu.read_reg8(REG_F), 0xA0);
}

#[test]
fn decrement_wraps_below_zero() {
    let mut cpu = cpu_with(0x00, 0x00, 0x00);
    cpu.decrement_r(REG_B);
    assert_eq!(cpu.read_reg8(REG_B), 0xFF);
    assert_eq!(cpu.read_reg8(REG_F), 0x60);
}

#[test]
fn decrement_to_zero_sets_zero() {
    let mut cpu = cpu_with(0x00, 0x01, 0x10);
    cpu.decrement_r(REG_B);
    assert_eq!(cpu.read_reg8(REG_B), 0x00);
    assert_eq!(cpu.read_reg8(REG_F), 0xD0);
}

#[test]
fn increment_and_decrement_memory() {
    let mut cpu = Cpu::new();
    cpu.write_reg8(REG_F, 0x00);
    cpu.write_memory(0xC000, 0x0F);
    cpu.increment_memory(0xC000);
    assert_eq!(cpu.read_memory(0xC000), 0x10);
    assert_eq!(cpu.read_reg8(REG_F), 0x20);
    cpu.decrement_memory(0xC000);
    assert_eq!(cpu.read_memory(0xC000), 0x0F);
    assert_eq!(cpu.read_reg8(REG_F), 0x60);
}

#[test]
fn complement_flips_a() {
    let mut cpu = cpu_with(0x35, 0x00, 0x90);
    cpu.complement_a();
    assert_eq!(cpu.read_reg8(REG_A), 0xCA);
    assert_eq!(cpu.read_reg8(REG_F), 0xF0);
}

#[test]
fn add_hl_sets_carry_from_bit_15_and_half_carry_from_bit_11() {
    let mut cpu = Cpu::new();
    cpu.write_reg8(REG_F, 0x80);
    cpu.write_reg16(4, 0x8A23);
    cpu.write_reg16(0, 0x0605);
    cpu.add_hl_rr(0);
    assert_eq!(cpu.read_reg16(4), 0x9028);
    assert_eq!(cpu.read_reg8(REG_F), 0xA0);

    cpu.write_reg16(4, 0x8A23);
    cpu.add_hl_rr(4);
    assert_eq!(cpu.read_reg16(4), 0x1446);
    assert_eq!(cpu.read_reg8(REG_F), 0xB0);
}

#[test]
fn add_hl_sp_adds_the_stack_pointer() {
    let mut cpu = Cpu::new();
    cpu.write_reg8(REG_F, 0x00);
    cpu.write_reg16(4, 0x0001);
    cpu.write_sp(0xFFFF);
    cpu.add_hl_sp();
    assert_eq!(cpu.read_reg16(4), 0x0000);
    assert_eq!(cpu.read_reg8(REG_F), 0x30);
}

#[test]
fn stack_pointer_wraps_both_ways() {
    let mut cpu = Cpu::new();
    cpu.write_sp(0xFFFF);
    cpu.increment_sp();
    assert_eq!(cpu.read_sp(), 0x0000);
    cpu.decrement_sp();
    assert_eq!(cpu.read_sp(), 0xFFFF);
}

#[test]
fn daa_after_addition() {
    let mut cpu = cpu_with(0x7D, 0x00, 0x00);
    cpu.daa();
    assert_eq!(cpu.read_reg8(REG_A), 0x83);
    assert_eq!(cpu.read_reg8(REG_F), 0x00);

    let mut cpu = cpu_with(0x9A, 0x00, 0x00);
    cpu.daa();
    assert_eq!(cpu.read_reg8(REG_A), 0x00);
    assert_eq!(cpu.read_reg8(REG_F), 0x90);

    let mut cpu = cpu_with(0x12, 0x00, 0x20);
    cpu.daa();
    assert_eq!(cpu.read_reg8(REG_A), 0x18);
    assert_eq!(cpu.read_reg8(REG_F), 0x00);
}

#[test]
fn daa_after_subtraction() {
    let mut cpu = cpu_with(0x3F, 0x00, 0x60);
    cpu.daa();
    assert_eq!(cpu.read_reg8(REG_A), 0x39);
    assert_eq!(cpu.read_reg8(REG_F), 0x40);

    let mut cpu = cpu_with(0x60, 0x00, 0x50);
    cpu.daa();
    assert_eq!(cpu.read_reg8(REG_A), 0x00);
    assert_eq!(cpu.read_reg8(REG_F), 0xD0);
}

#[test]
fn add_sp_dd_takes_flags_from_the_lower_byte() {
    let mut cpu = Cpu::new();
    cpu.write_reg8(REG_F, 0xC0);
    cpu.write_memory(0xC000, 0x08);
    cpu.write_pc(0xC001);
    cpu.write_sp(0xFFF8);
    let sum: u16 = cpu.add_sp_dd();
    assert_eq!(sum, 0x0000);
    assert_eq!(cpu.read_sp(), 0xFFF8);
    assert_eq!(cpu.read_reg8(REG_F), 0x30);
}

#[test]
fn add_sp_dd_with_a_negative_operand() {
    let mut cpu = Cpu::new();
    cpu.write_reg8(REG_F, 0x00);
    cpu.write_memory(0xC000, 0xFE);
    cpu.write_pc(0xC001);
    cpu.write_sp(0x1000);
    let sum: u16 = cpu.add_sp_dd();
    assert_eq!(sum, 0x0FFE);
    assert_eq!(cpu.read_reg8(REG_F), 0x00);

    cpu.write_sp(0x0001);
    cpu.write_memory(0xC000, 0xFF);
    let sum: u16 = cpu.add_sp_dd();
    assert_eq!(sum, 0x0000);
    assert_eq!(cpu.read_reg8(REG_F), 0x30);
}

#[test]
fn rotates_move_the_pushed_out_bit_to_the_carry() {
    let mut cpu = cpu_with(0, 0, 0x00);
    assert_eq!(cpu.rlc_n(0x85, true), 0x0B);
    assert_eq!(cpu.read_reg8(REG_F), 0x10);
    assert_eq!(cpu.rrc_n(0x01, true), 0x80);
    assert_eq!(cpu.read_reg8(REG_F), 0x10);
    assert_eq!(cpu.rrc_n(0x02, true), 0x01);
    assert_eq!(cpu.read_reg8(REG_F), 0x00);
    assert_eq!(cpu.rl_n(0x80, true), 0x00);
    assert_eq!(cpu.read_reg8(REG_F), 0x90);
    assert_eq!(cpu.rl_n(0x01, true), 0x03);
    assert_eq!(cpu.read_reg8(REG_F), 0x00);
    assert_eq!(cpu.rr_n(0x01, true), 0x00);
    assert_eq!(cpu.read_reg8(REG_F), 0x90);
    assert_eq!(cpu.rr_n(0x02, true), 0x81);
    assert_eq!(cpu.read_reg8(REG_F), 0x00);
}

#[test]
fn accumulator_rotates_clear_the_zero_flag() {
    let mut cpu = cpu_with(0, 0, 0xE0);
    assert_eq!(cpu.rlc_n(0x00, false), 0x00);
    assert_eq!(cpu.read_reg8(REG_F), 0x00);
    assert_eq!(cpu.rlc_n(0x00, true), 0x00);
    assert_eq!(cpu.read_reg8(REG_F), 0x80);
}

#[test]
fn shifts_and_swap() {
    let mut cpu = cpu_with(0, 0, 0x60);
    assert_eq!(cpu.shift_left_arithmetic(0xFF), 0xFE);
    assert_eq!(cpu.read_reg8(REG_F), 0x10);
    assert_eq!(cpu.shift_left_arithmetic(0x80), 0x00);
    assert_eq!(cpu.read_reg8(REG_F), 0x90);
    assert_eq!(cpu.shift_right_arithmetic(0x81), 0xC0);
    assert_eq!(cpu.read_reg8(REG_F), 0x10);
    assert_eq!(cpu.shift_right_arithmetic(0x7E), 0x3F);
    assert_eq!(cpu.read_reg8(REG_F), 0x00);
    assert_eq!(cpu.shift_right_logical(0x01), 0x00);
    assert_eq!(cpu.read_reg8(REG_F), 0x90);
    assert_eq!(cpu.shift_right_logical(0xFF), 0x7F);
    assert_eq!(cpu.read_reg8(REG_F), 0x10);
    assert_eq!(cpu.swap(0xF1), 0x1F);
    assert_eq!(cpu.read_reg8(REG_F), 0x00);
    assert_eq!(cpu.swap(0x00), 0x00);
    assert_eq!(cpu.read_reg8(REG_F), 0x80);
}

#[test]
fn carry_flag_operations() {
    let mut cpu = cpu_with(0, 0, 0xE0);
    cpu.scf();
    assert_eq!(cpu.read_reg8(REG_F), 0x90);
    cpu.ccf();
    assert_eq!(cpu.read_reg8(REG_F), 0x80);
    cpu.ccf();
    assert_eq!(cpu.read_reg8(REG_F), 0x90);
}

#[test]
fn bit_operations() {
    let mut cpu = cpu_with(0, 0, 0x50);
    cpu.bit_check(0x80, 7);
    assert_eq!(cpu.read_reg8(REG_F), 0x30);
    cpu.bit_check(0xEF, 4);
    assert_eq!(cpu.read_reg8(REG_F), 0xB0);
    assert_eq!(cpu.bit_set(0x80, 3), 0x88);
    assert_eq!(cpu.bit_set(0x88, 3), 0x88);
    assert_eq!(cpu.bit_clear(0xFF, 0), 0xFE);
    assert_eq!(cpu.bit_clear(0x7F, 7), 0x7F);
    assert_eq!(cpu.read_reg8(REG_F), 0xB0);
}
