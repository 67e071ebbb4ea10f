use gbc_emulator::cpu::Cpu;
use gbc_emulator::instructions::{Handler, Opcode};

fn entry(opcode: u8, handler: Handler) -> Opcode {
    Opcode::new(opcode, "test".to_string(), 1, 1, handler)
}

// A processor with the program counter behind two operand bytes in work RAM.
fn cpu_with_operand(low: u8, high: u8) -> Cpu {
    let mut cpu = Cpu::new();
    cpu.write_memory(0xC001, low);
    cpu.write_memory(0xC002, high);
    cpu.write_pc(0xC003);
    cpu.write_reg8(6, 0x00);
    cpu
}

#[test]
fn load_register_from_register() {
    let mut cpu = Cpu::new();
    cpu.write_reg8(1, 0x42);
    entry(0x41, Handler::LoadRR).load_r_r(&mut cpu);
    assert_eq!(cpu.read_reg8(0), 0x42);
    entry(0x78, Handler::LoadRR).execute(&mut cpu);
    assert_eq!(cpu.read_reg8(7), 0x42);
}

#[test]
fn load_register_from_operand() {
    let mut cpu = cpu_with_operand(0x00, 0x99);
    entry(0x16, Handler::LoadRN).load_r_n(&mut cpu);
    assert_eq!(cpu.read_reg8(2), 0x99);
    assert_eq!(cpu.read_pc(), 0xC003);
}

#[test]
fn operand_is_read_behind_a_wrapped_program_counter() {
    let mut cpu = Cpu::new();
    cpu.write_memory(0xFFFF, 0x5A);
    cpu.write_memory(0xFFFE, 0xA5);
    cpu.write_pc(0x0000);
    assert_eq!(cpu.read_operand(), 0x5A);
    assert_eq!(cpu.read_first_operand(), 0xA5);
    assert_eq!(cpu.read_operand_nn(), 0x5AA5);
    entry(0x3E, Handler::LoadRN).load_r_n(&mut cpu);
    assert_eq!(cpu.read_reg8(7), 0x5A);
}

#[test]
fn loads_through_hl() {
    let mut cpu = cpu_with_operand(0x00, 0x77);
    cpu.write_reg16(4, 0xC100);
    cpu.write_memory(0xC100, 0x11);
    entry(0x4E, Handler::LoadRHl).load_r_hl(&mut cpu);
    assert_eq!(cpu.read_reg8(1), 0x11);
    cpu.write_reg8(3, 0x22);
    entry(0x73, Handler::LoadHlR).load_hl_r(&mut cpu);
    assert_eq!(cpu.read_memory(0xC100), 0x22);
    entry(0x36, Handler::LoadHlN).load_hl_n(&mut cpu);
    assert_eq!(cpu.read_memory(0xC100), 0x77);
}

#[test]
fn loads_of_a_through_pairs() {
    let mut cpu = Cpu::new();
    cpu.write_reg16(0, 0xC200);
    cpu.write_reg16(2, 0xC300);
    cpu.write_memory(0xC200, 0x0B);
    cpu.write_memory(0xC300, 0x0D);
    entry(0x0A, Handler::LoadABc).load_a_bc(&mut cpu);
    assert_eq!(cpu.read_reg8(7), 0x0B);
    entry(0x1A, Handler::LoadADe).load_a_de(&mut cpu);
    assert_eq!(cpu.read_reg8(7), 0x0D);
    cpu.write_reg8(7, 0xEE);
    entry(0x02, Handler::LoadBcA).load_bc_a(&mut cpu);
    entry(0x12, Handler::LoadDeA).load_de_a(&mut cpu);
    assert_eq!(cpu.read_memory(0xC200), 0xEE);
    assert_eq!(cpu.read_memory(0xC300), 0xEE);
}

#[test]
fn loads_of_a_through_an_address() {
    let mut cpu = cpu_with_operand(0x50, 0xC4);
    cpu.write_memory(0xC450, 0x66);
    entry(0xFA, Handler::LoadANn).load_a_nn(&mut cpu);
    assert_eq!(cpu.read_reg8(7), 0x66);
    cpu.write_reg8(7, 0x67);
    entry(0xEA, Handler::LoadNnA).load_nn_a(&mut cpu);
    assert_eq!(cpu.read_memory(0xC450), 0x67);
}

#[test]
fn loads_through_the_top_page() {
    let mut cpu = cpu_with_operand(0x00, 0x80);
    cpu.write_memory(0xFF80, 0x31);
    entry(0xF0, Handler::LdhAN).ldh_a_n(&mut cpu);
    assert_eq!(cpu.read_reg8(7), 0x31);
    cpu.write_reg8(7, 0x32);
    entry(0xE0, Handler::LdhNA).ldh_n_a(&mut cpu);
    assert_eq!(cpu.read_memory(0xFF80), 0x32);
    cpu.write_reg8(1, 0x81);
    entry(0xE2, Handler::LdhCA).ldh_c_a(&mut cpu);
    assert_eq!(cpu.read_memory(0xFF81), 0x32);
    cpu.write_memory(0xFF81, 0x33);
    entry(0xF2, Handler::LdhAC).ldh_a_c(&mut cpu);
    assert_eq!(cpu.read_reg8(7), 0x33);
}

#[test]
fn loads_with_increment_and_decrement_of_hl() {
    let mut cpu = Cpu::new();
    cpu.write_reg16(4, 0xC000);
    cpu.write_reg8(7, 0x01);
    entry(0x22, Handler::LoadHlAInc).load_hl_a_inc(&mut cpu);
    assert_eq!(cpu.read_memory(0xC000), 0x01);
    assert_eq!(cpu.read_reg16(4), 0xC001);
    cpu.write_reg8(7, 0x02);
    entry(0x32, Handler::LoadHlADec).load_hl_a_dec(&mut cpu);
    assert_eq!(cpu.read_memory(0xC001), 0x02);
    assert_eq!(cpu.read_reg16(4), 0xC000);
    entry(0x2A, Handler::LoadAHlInc).load_a_hl_inc(&mut cpu);
    assert_eq!(cpu.read_reg8(7), 0x01);
    assert_eq!(cpu.read_reg16(4), 0xC001);
    entry(0x3A, Handler::LoadAHlDec).load_a_hl_dec(&mut cpu);
    assert_eq!(cpu.read_reg8(7), 0x02);
    assert_eq!(cpu.read_reg16(4), 0xC000);
}

#[test]
fn hl_wraps_when_it_is_stepped() {
    let mut cpu = Cpu::new();
    cpu.write_reg16(4, 0x0000);
    entry(0x3A, Handler::LoadAHlDec).load_a_hl_dec(&mut cpu);
    assert_eq!(cpu.read_reg16(4), 0xFFFF);
    entry(0x2A, Handler::LoadAHlInc).load_a_hl_inc(&mut cpu);
    assert_eq!(cpu.read_reg16(4), 0x0000);
}

#[test]
fn loads_of_16_bit_operands() {
    let mut cpu = cpu_with_operand(0x34, 0x12);
    entry(0x01, Handler::LoadBcNn).load_bc_nn(&mut cpu);
    entry(0x11, Handler::LoadDeNn).load_de_nn(&mut cpu);
    entry(0x21, Handler::LoadHlNn).load_hl_nn(&mut cpu);
    entry(0x31, Handler::LoadSpNn).load_sp_nn(&mut cpu);
    assert_eq!(cpu.read_reg16(0), 0x1234);
    assert_eq!(cpu.read_reg16(2), 0x1234);
    assert_eq!(cpu.read_reg16(4), 0x1234);
    assert_eq!(cpu.read_sp(), 0x1234);
}

#[test]
fn stack_pointer_loads() {
    let mut cpu = cpu_with_operand(0x00, 0xC5);
    cpu.write_sp(0xABCD);
    entry(0x08, Handler::LoadNnSp).load_nn_sp(&mut cpu);
    assert_eq!(cpu.read_memory(0xC500), 0xCD);
    assert_eq!(cpu.read_memory(0xC501), 0xAB);
    cpu.write_reg16(4, 0xD000);
    entry(0xF9, Handler::LoadSpHl).load_sp_hl(&mut cpu);
    assert_eq!(cpu.read_sp(), 0xD000);
}

#[test]
fn push_and_pop_handlers() {
    let mut cpu = Cpu::new();
    cpu.write_reg16(0, 0x1111);
    cpu.write_reg16(2, 0x2222);
    cpu.write_reg16(4, 0x3333);
    cpu.write_reg8(7, 0x44);
    cpu.write_reg8(6, 0x5F);
    entry(0xC5, Handler::PushBc).push_bc(&mut cpu);
    entry(0xD5, Handler::PushDe).push_de(&mut cpu);
    entry(0xE5, Handler::PushHl).push_hl(&mut cpu);
    entry(0xF5, Handler::PushAf).push_af(&mut cpu);
    assert_eq!(cpu.read_sp(), 0xFFF6);
    assert_eq!(cpu.read_memory(0xFFF7), 0x44);
    assert_eq!(cpu.read_memory(0xFFF6), 0x50);
    entry(0xC1, Handler::PopBc).pop_bc(&mut cpu);
    entry(0xD1, Handler::PopDe).pop_de(&mut cpu);
    entry(0xE1, Handler::PopHl).pop_hl(&mut cpu);
    entry(0xF1, Handler::PopAf).pop_af(&mut cpu);
    assert_eq!(cpu.read_reg16(0), 0x4450);
    assert_eq!(cpu.read_reg16(2), 0x3333);
    assert_eq!(cpu.read_reg16(4), 0x2222);
    assert_eq!(cpu.read_reg8(7), 0x11);
    assert_eq!(cpu.read_reg8(6), 0x10);
    assert_eq!(cpu.read_sp(), 0xFFFE);
}

#[test]
fn arithmetic_handlers_take_register_operand_and_memory() {
    let mut cpu = cpu_with_operand(0x00, 0x03);
    cpu.write_reg16(4, 0xC100);
    cpu.write_memory(0xC100, 0x05);
    cpu.write_reg8(7, 0x10);
    cpu.write_reg8(0, 0x01);
    entry(0x80, Handler::AddAR).add_a_r(&mut cpu);
    assert_eq!(cpu.read_reg8(7), 0x11);
    entry(0xC6, Handler::AddAN).add_a_n(&mut cpu);
    assert_eq!(cpu.read_reg8(7), 0x14);
    entry(0x86, Handler::AddAHl).add_a_hl(&mut cpu);
    assert_eq!(cpu.read_reg8(7), 0x19);
    cpu.write_reg8(6, 0x10);
    entry(0x88, Handler::AdcAR).adc_a_r(&mut cpu);
    assert_eq!(cpu.read_reg8(7), 0x1B);
    cpu.write_reg8(6, 0x10);
    entry(0xCE, Handler::AdcAN).adc_a_n(&mut cpu);
    assert_eq!(cpu.read_reg8(7), 0x1F);
    cpu.write_reg8(6, 0x10);
    entry(0x8E, Handler::AdcAHl).adc_a_hl(&mut cpu);
    assert_eq!(cpu.read_reg8(7), 0x25);
    entry(0x90, Handler::SubAR).sub_a_r(&mut cpu);
    assert_eq!(cpu.read_reg8(7), 0x24);
    entry(0xD6, Handler::SubAN).sub_a_n(&mut cpu);
    assert_eq!(cpu.read_reg8(7), 0x21);
    entry(0x96, Handler::SubAHl).sub_a_hl(&mut cpu);
    assert_eq!(cpu.read_reg8(7), 0x1C);
    cpu.write_reg8(6, 0x10);
    entry(0x98, Handler::SbcAR).sbc_a_r(&mut cpu);
    assert_eq!(cpu.read_reg8(7), 0x1A);
    cpu.write_reg8(6, 0x10);
    entry(0xDE, Handler::SbcAN).sbc_a_n(&mut cpu);
    assert_eq!(cpu.read_reg8(7), 0x16);
    cpu.write_reg8(6, 0x10);
    entry(0x9E, Handler::SbcAHl).sbc_a_hl(&mut cpu);
    assert_eq!(cpu.read_reg8(7), 0x10);
}

#[test]
fn logic_handlers_take_register_operand_and_memory() {
    let mut cpu = cpu_with_operand(0x00, 0x0F);
    cpu.write_reg16(4, 0xC100);
    cpu.write_memory(0xC100, 0x3C);
    cpu.write_reg8(7, 0xFF);
    cpu.write_reg8(0, 0x7E);
    entry(0xA0, Handler::AndAR).and_a_r(&mut cpu);
    assert_eq!(cpu.read_reg8(7), 0x7E);
    entry(0xA6, Handler::AndAHl).and_a_hl(&mut cpu);
    assert_eq!(cpu.read_reg8(7), 0x3C);
    entry(0xE6, Handler::AndAN).and_a_n(&mut cpu);
    assert_eq!(cpu.read_reg8(7), 0x0C);
    assert_eq!(cpu.read_reg8(6), 0x20);
    entry(0xA8, Handler::XorAR).xor_a_r(&mut cpu);
    assert_eq!(cpu.read_reg8(7), 0x72);
    entry(0xAE, Handler::XorAHl).xor_a_hl(&mut cpu);
    assert_eq!(cpu.read_reg8(7), 0x4E);
    entry(0xEE, Handler::XorAN).xor_a_n(&mut cpu);
    assert_eq!(cpu.read_reg8(7), 0x41);
    assert_eq!(cpu.read_reg8(6), 0x00);
    entry(0xB0, Handler::OrAR).or_a_r(&mut cpu);
    assert_eq!(cpu.read_reg8(7), 0x7F);
    cpu.write_reg8(7, 0x00);
    entry(0xB6, Handler::OrAHl).or_a_hl(&mut cpu);
    assert_eq!(cpu.read_reg8(7), 0x3C);
    entry(0xF6, Handler::OrAN).or_a_n(&mut cpu);
    assert_eq!(cpu.read_reg8(7), 0x3F);
}

#[test]
fn compare_keeps_a() {
    let mut cpu = cpu_with_operand(0x00, 0x40);
    cpu.write_reg16(4, 0xC100);
    cpu.write_memory(0xC100, 0x3C);
    cpu.write_reg8(7, 0x3C);
    cpu.write_reg8(0, 0x2F);
    entry(0xB8, Handler::CpAR).cp_a_r(&mut cpu);
    assert_eq!(cpu.read_reg8(7), 0x3C);
    assert_eq!(cpu.read_reg8(6), 0x60);
    entry(0xBE, Handler::CpAHl).cp_a_hl(&mut cpu);
    assert_eq!(cpu.read_reg8(7), 0x3C);
    assert_eq!(cpu.read_reg8(6), 0xC0);
    entry(0xFE, Handler::CpAN).cp_a_n(&mut cpu);
    assert_eq!(cpu.read_reg8(7), 0x3C);
    assert_eq!(cpu.read_reg8(6), 0x50);
}

#[test]
fn increments_and_decrements() {
    let mut cpu = Cpu::new();
    cpu.write_reg8(6, 0x00);
    cpu.write_reg8(2, 0x0F);
    entry(0x14, Handler::IncR).inc_r(&mut cpu);
    assert_eq!(cpu.read_reg8(2), 0x10);
    entry(0x15, Handler::DecR).dec_r(&mut cpu);
    assert_eq!(cpu.read_reg8(2), 0x0F);
    cpu.write_reg16(4, 0xC000);
    entry(0x34, Handler::IncHl).inc_hl(&mut cpu);
    assert_eq!(cpu.read_memory(0xC000), 0x01);
    entry(0x35, Handler::DecHl).dec_hl(&mut cpu);
    assert_eq!(cpu.read_memory(0xC000), 0x00);
    assert!(cpu.get_zero_flag());
    cpu.write_reg16(0, 0xFFFF);
    let flags: u8 = cpu.read_reg8(6);
    entry(0x03, Handler::IncRr).inc_rr(&mut cpu);
    assert_eq!(cpu.read_reg16(0), 0x0000);
    entry(0x0B, Handler::DecRr).dec_rr(&mut cpu);
    assert_eq!(cpu.read_reg16(0), 0xFFFF);
    entry(0x23, Handler::IncRr).inc_rr(&mut cpu);
    assert_eq!(cpu.read_reg16(4), 0xC001);
    cpu.write_sp(0xFFFF);
    entry(0x33, Handler::IncSp).inc_sp(&mut cpu);
    assert_eq!(cpu.read_sp(), 0x0000);
    entry(0x3B, Handler::DecSp).dec_sp(&mut cpu);
    assert_eq!(cpu.read_sp(), 0xFFFF);
    assert_eq!(cpu.read_reg8(6), flags);
}

#[test]
fn decimal_adjust_and_complement_handlers() {
    let mut cpu = Cpu::new();
    cpu.write_reg8(7, 0x7D);
    cpu.write_reg8(6, 0x00);
    entry(0x27, Handler::Daa).daa(&mut cpu);
    assert_eq!(cpu.read_reg8(7), 0x83);
    entry(0x2F, Handler::Cpl).cpl(&mut cpu);
    assert_eq!(cpu.read_reg8(7), 0x7C);
    assert_eq!(cpu.read_reg8(6), 0x60);
}

#[test]
fn sixteen_bit_additions() {
    let mut cpu = cpu_with_operand(0x00, 0xFE);
    cpu.write_reg16(4, 0x1000);
    cpu.write_reg16(2, 0x0234);
    entry(0x19, Handler::AddHlRr).add_hl_rr(&mut cpu);
    assert_eq!(cpu.read_reg16(4), 0x1234);
    cpu.write_sp(0x0100);
    entry(0x39, Handler::AddHlSp).add_hl_sp(&mut cpu);
    assert_eq!(cpu.read_reg16(4), 0x1334);
    entry(0xF8, Handler::LdHlSpDd).ld_hl_sp_dd(&mut cpu);
    assert_eq!(cpu.read_reg16(4), 0x00FE);
    assert_eq!(cpu.read_sp(), 0x0100);
    entry(0xE8, Handler::AddSpDd).add_sp_dd(&mut cpu);
    assert_eq!(cpu.read_sp(), 0x00FE);
    assert_eq!(cpu.read_reg8(6), 0x00);
}

#[test]
fn accumulator_rotate_handlers() {
    let mut cpu = Cpu::new();
    cpu.write_reg8(6, 0x80);
    cpu.write_reg8(7, 0x85);
    entry(0x07, Handler::Rlca).rlca(&mut cpu);
    assert_eq!(cpu.read_reg8(7), 0x0B);
    assert_eq!(cpu.read_reg8(6), 0x10);
    entry(0x17, Handler::Rla).rla(&mut cpu);
    assert_eq!(cpu.read_reg8(7), 0x17);
    assert_eq!(cpu.read_reg8(6), 0x00);
    entry(0x0F, Handler::Rrca).rrca(&mut cpu);
    assert_eq!(cpu.read_reg8(7), 0x8B);
    assert_eq!(cpu.read_reg8(6), 0x10);
    entry(0x1F, Handler::Rra).rra(&mut cpu);
    assert_eq!(cpu.read_reg8(7), 0xC5);
    assert_eq!(cpu.read_reg8(6), 0x10);
    cpu.write_reg8(7, 0x00);
    cpu.write_reg8(6, 0x00);
    entry(0x07, Handler::Rlca).rlca(&mut cpu);
    assert_eq!(cpu.read_reg8(6), 0x00);
}

#[test]
fn register_rotate_and_shift_handlers() {
    let mut cpu = Cpu::new();
    cpu.write_reg8(6, 0x00);
    cpu.write_reg8(0, 0x85);
    entry(0x00, Handler::RlcR).rlc_r(&mut cpu);
    assert_eq!(cpu.read_reg8(0), 0x0B);
    cpu.write_reg8(1, 0x01);
    entry(0x09, Handler::RrcR).rrc_r(&mut cpu);
    assert_eq!(cpu.read_reg8(1), 0x80);
    cpu.write_reg8(2, 0x80);
    entry(0x12, Handler::RlR).rl_r(&mut cpu);
    assert_eq!(cpu.read_reg8(2), 0x01);
    assert!(cpu.get_carry_flag());
    cpu.write_reg8(3, 0x00);
    entry(0x1B, Handler::RrR).rr_r(&mut cpu);
    assert_eq!(cpu.read_reg8(3), 0x80);
    assert!(!cpu.get_carry_flag());
    cpu.write_reg8(4, 0xC1);
    entry(0x24, Handler::SlaR).sla_r(&mut cpu);
    assert_eq!(cpu.read_reg8(4), 0x82);
    cpu.write_reg8(5, 0x82);
    entry(0x2D, Handler::SraR).sra_r(&mut cpu);
    assert_eq!(cpu.read_reg8(5), 0xC1);
    cpu.write_reg8(7, 0x82);
    entry(0x3F, Handler::SrlR).srl_r(&mut cpu);
    assert_eq!(cpu.read_reg8(7), 0x41);
    entry(0x37, Handler::SwapR).swap_r(&mut cpu);
    assert_eq!(cpu.read_reg8(7), 0x14);
}

#[test]
fn memory_rotate_and_shift_handlers() {
    let mut cpu = Cpu::new();
    cpu.write_reg8(6, 0x00);
    cpu.write_reg16(4, 0xC000);
    cpu.write_memory(0xC000, 0x85);
    entry(0x06, Handler::RlcHl).rlc_hl(&mut cpu);
    assert_eq!(cpu.read_memory(0xC000), 0x0B);
    entry(0x0E, Handler::RrcHl).rrc_hl(&mut cpu);
    assert_eq!(cpu.read_memory(0xC000), 0x85);
    entry(0x16, Handler::RlHl).rl_hl(&mut cpu);
    assert_eq!(cpu.read_memory(0xC000), 0x0B);
    entry(0x1E, Handler::RrHl).rr_hl(&mut cpu);
    assert_eq!(cpu.read_memory(0xC000), 0x85);
    entry(0x26, Handler::SlaHl).sla_hl(&mut cpu);
    assert_eq!(cpu.read_memory(0xC000), 0x0A);
    cpu.write_memory(0xC000, 0x85);
    entry(0x2E, Handler::SraHl).sra_hl(&mut cpu);
    assert_eq!(cpu.read_memory(0xC000), 0xC2);
    entry(0x3E, Handler::SrlHl).srl_hl(&mut cpu);
    assert_eq!(cpu.read_memory(0xC000), 0x61);
    entry(0x36, Handler::SwapHl).swap_hl(&mut cpu);
    assert_eq!(cpu.read_memory(0xC000), 0x16);
}

#[test]
fn bit_handlers() {
    let mut cpu = Cpu::new();
    cpu.write_reg8(6, 0x10);
    cpu.write_reg8(7, 0x80);
    entry(0x7F, Handler::BitR).bit_r(&mut cpu);
    assert_eq!(cpu.read_reg8(6), 0x30);
    entry(0x77, Handler::BitR).bit_r(&mut cpu);
    assert_eq!(cpu.read_reg8(6), 0xB0);
    cpu.write_reg16(4, 0xC000);
    cpu.write_memory(0xC000, 0x01);
    entry(0x46, Handler::BitHl).bit_hl(&mut cpu);
    assert!(!cpu.get_zero_flag());
    entry(0x4E, Handler::BitHl).bit_hl(&mut cpu);
    assert!(cpu.get_zero_flag());
    let flags: u8 = cpu.read_reg8(6);
    entry(0xDF, Handler::SetR).set_r(&mut cpu);
    assert_eq!(cpu.read_reg8(7), 0x88);
    entry(0xBF, Handler::ResR).res_r(&mut cpu);
    assert_eq!(cpu.read_reg8(7), 0x08);
    entry(0xFE, Handler::SetHl).set_hl(&mut cpu);
    assert_eq!(cpu.read_memory(0xC000), 0x81);
    entry(0x86, Handler::ResHl).res_hl(&mut cpu);
    assert_eq!(cpu.read_memory(0xC000), 0x80);
    assert_eq!(cpu.read_reg8(6), flags);
}

#[test]
fn control_handlers() {
    let mut cpu = Cpu::new();
    cpu.write_reg8(6, 0x00);
    entry(0x37, Handler::Scf).scf(&mut cpu);
    assert_eq!(cpu.read_reg8(6), 0x10);
    entry(0x3F, Handler::Ccf).ccf(&mut cpu);
    assert_eq!(cpu.read_reg8(6), 0x00);
    let before = cpu.snapshot();
    entry(0x00, Handler::Nop).nop(&mut cpu);
    entry(0x10, Handler::Stop).stop(&mut cpu);
    let after = cpu.snapshot();
    assert_eq!(before.registers, after.registers);
    assert_eq!(before.pc, after.pc);
    assert_eq!(before.sp, after.sp);
    assert!(!cpu.is_halted());
    entry(0xFB, Handler::Ei).ei(&mut cpu);
    assert!(cpu.interrupts_enabled());
    entry(0xF3, Handler::Di).di(&mut cpu);
    assert!(!cpu.interrupts_enabled());
    entry(0x76, Handler::Halt).halt(&mut cpu);
    assert!(cpu.is_halted());
}

#[test]
fn jumps() {
    let mut cpu = cpu_with_operand(0x34, 0x12);
    entry(0xC3, Handler::JpNn).jp_nn(&mut cpu);
    assert_eq!(cpu.read_pc(), 0x1234);
    cpu.write_reg16(4, 0x4321);
    entry(0xE9, Handler::JpHl).jp_hl(&mut cpu);
    assert_eq!(cpu.read_pc(), 0x4321);
}

#[test]
fn conditional_jumps_follow_zero_and_carry() {
    let cases: [(u8, u8, bool); 8] = [
        (0xC2, 0x00, true),
        (0xC2, 0x80, false),
        (0xCA, 0x80, true),
        (0xCA, 0x00, false),
        (0xD2, 0x00, true),
        (0xD2, 0x10, false),
        (0xDA, 0x10, true),
        (0xDA, 0x00, false),
    ];
    for (opcode, flags, taken) in cases.iter() {
        let mut cpu = cpu_with_operand(0x34, 0x12);
        cpu.write_reg8(6, *flags);
        entry(*opcode, Handler::JpConditional).jp_conditional(&mut cpu);
        assert_eq!(cpu.read_pc(), if *taken { 0x1234 } else { 0xC003 });
    }
}

#[test]
fn relative_jumps() {
    let mut cpu = cpu_with_operand(0x00, 0x05);
    entry(0x18, Handler::JrDd).jr_dd(&mut cpu);
    assert_eq!(cpu.read_pc(), 0xC008);
    let mut cpu = cpu_with_operand(0x00, 0xFD);
    entry(0x18, Handler::JrDd).jr_dd(&mut cpu);
    assert_eq!(cpu.read_pc(), 0xC000);
    let mut cpu = cpu_with_operand(0x00, 0x80);
    entry(0x18, Handler::JrDd).jr_dd(&mut cpu);
    assert_eq!(cpu.read_pc(), 0xBF83);
}

#[test]
fn conditional_relative_jumps_follow_zero_and_carry() {
    let cases: [(u8, u8, bool); 8] = [
        (0x20, 0x00, true),
        (0x20, 0x80, false),
        (0x28, 0x80, true),
        (0x28, 0x00, false),
        (0x30, 0x00, true),
        (0x30, 0x10, false),
        (0x38, 0x10, true),
        (0x38, 0x00, false),
    ];
    for (opcode, flags, taken) in cases.iter() {
        let mut cpu = cpu_with_operand(0x00, 0x10);
        cpu.write_reg8(6, *flags);
        entry(*opcode, Handler::JrConditional).jr_conditional(&mut cpu);
        assert_eq!(cpu.read_pc(), if *taken { 0xC013 } else { 0xC003 });
    }
}

#[test]
fn conditional_handlers_on_other_opcodes_do_nothing() {
    let mut cpu = cpu_with_operand(0x34, 0x12);
    entry(0x00, Handler::JrConditional).jr_conditional(&mut cpu);
    entry(0x18, Handler::JrConditional).jr_conditional(&mut cpu);
    entry(0xE2, Handler::JpConditional).jp_conditional(&mut cpu);
    entry(0xFC, Handler::CallConditional).call_conditional(&mut cpu);
    entry(0xF8, Handler::RetConditional).ret_conditional(&mut cpu);
    assert_eq!(cpu.read_pc(), 0xC003);
    assert_eq!(cpu.read_sp(), 0xFFFE);
}

#[test]
fn calls_and_returns() {
    let mut cpu = cpu_with_operand(0x00, 0xD0);
    entry(0xCD, Handler::CallNn).call_nn(&mut cpu);
    assert_eq!(cpu.read_pc(), 0xD000);
    assert_eq!(cpu.read_sp(), 0xFFFC);
    assert_eq!(cpu.read_memory(0xFFFD), 0xC0);
    assert_eq!(cpu.read_memory(0xFFFC), 0x03);
    entry(0xC9, Handler::Ret).ret(&mut cpu);
    assert_eq!(cpu.read_pc(), 0xC003);
    assert_eq!(cpu.read_sp(), 0xFFFE);

    cpu.write_reg8(6, 0x80);
    entry(0xC4, Handler::CallConditional).call_conditional(&mut cpu);
    assert_eq!(cpu.read_pc(), 0xC003);
    entry(0xCC, Handler::CallConditional).call_conditional(&mut cpu);
    assert_eq!(cpu.read_pc(), 0xD000);
    entry(0xC0, Handler::RetConditional).ret_conditional(&mut cpu);
    assert_eq!(cpu.read_pc(), 0xD000);
    entry(0xC8, Handler::RetConditional).ret_conditional(&mut cpu);
    assert_eq!(cpu.read_pc(), 0xC003);

    entry(0xCD, Handler::CallNn).call_nn(&mut cpu);
    entry(0xD9, Handler::Reti).reti(&mut cpu);
    assert_eq!(cpu.read_pc(), 0xC003);
    assert!(cpu.interrupts_enabled());
}

#[test]
fn restarts_call_the_fixed_vectors() {
    for y in 0..8u8 {
        let mut cpu = Cpu::new();
        cpu.write_pc(0xC123);
        entry(0xC7 + 8 * y, Handler::Rst).rst(&mut cpu);
        assert_eq!(cpu.read_pc(), 8 * y as u16);
        assert_eq!(cpu.read_sp(), 0xFFFC);
        assert_eq!(cpu.read_memory(0xFFFD), 0xC1);
        assert_eq!(cpu.read_memory(0xFFFC), 0x23);
    }
}
