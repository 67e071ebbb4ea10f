use gbc_emulator::cpu::Cpu;
use gbc_emulator::opcode_table::OpcodeTable;

fn machine_with_program(program: &[u8]) -> Cpu {
    let mut cpu = Cpu::new();
    for (offset, byte) in program.iter().enumerate() {
        cpu.load_read_only_data(offset, *byte);
    }
    cpu.write_pc(0);
    cpu
}

fn run(cpu: &mut Cpu, steps: usize) {
    let unprefixed = OpcodeTable::init_unprefix_insturction_table();
    let prefixed = OpcodeTable::init_prefix_instruction_table();
    for _ in 0..steps {
        cpu.execute_step(&unprefixed, &prefixed);
    }
}

#[test]
fn two_loads_of_operands() {
    let mut cpu = machine_with_program(&[0x3E, 0x05, 0x06, 0x03]);
    run(&mut cpu, 2);
    assert_eq!(cpu.read_reg8(7), 5);
    assert_eq!(cpu.read_reg8(0), 3);
    assert_eq!(cpu.read_pc(), 4);
}

#[test]
fn increment_of_a_full_accumulator() {
    let mut cpu = machine_with_program(&[0x3E, 0xFF, 0x3C]);
    run(&mut cpu, 2);
    assert_eq!(cpu.read_reg8(7), 0x00);
    assert!(cpu.get_zero_flag());
    assert!(cpu.get_half_carry_flag());
    assert!(!cpu.get_add_sub_flag());
    assert_eq!(cpu.read_pc(), 3);
}

#[test]
fn rom_image_runs_after_loading() {
    let mut cpu = Cpu::new();
    let image: Vec<u8> = vec![0x3E, 0x05, 0x06, 0x03];
    assert!(cpu.load_rom(&image).is_ok());
    cpu.write_pc(0);
    run(&mut cpu, 2);
    assert_eq!(cpu.read_reg8(7), 5);
    assert_eq!(cpu.read_reg8(0), 3);
    assert_eq!(cpu.read_pc(), 4);
}

#[test]
fn three_byte_instruction_reads_its_operand_behind_the_program_counter() {
    let mut cpu = Cpu::new();
    cpu.write_memory(0xC000, 0x01);
    cpu.write_memory(0xC001, 0x34);
    cpu.write_memory(0xC002, 0x12);
    cpu.write_memory(0xC003, 0xFF);
    cpu.write_pc(0xC000);
    run(&mut cpu, 1);
    assert_eq!(cpu.read_pc(), 0xC003);
    assert_eq!(cpu.read_reg16(0), 0x1234);
}

#[test]
fn call_pushes_the_address_after_its_three_bytes() {
    let mut cpu = Cpu::new();
    cpu.write_memory(0xC000, 0xCD);
    cpu.write_memory(0xC001, 0x00);
    cpu.write_memory(0xC002, 0xD0);
    cpu.write_memory(0xD000, 0xC9);
    cpu.write_pc(0xC000);
    run(&mut cpu, 1);
    assert_eq!(cpu.read_pc(), 0xD000);
    assert_eq!(cpu.read_sp(), 0xFFFC);
    assert_eq!(cpu.read_memory_nn(0xFFFC), 0xC003);
    run(&mut cpu, 1);
    assert_eq!(cpu.read_pc(), 0xC003);
    assert_eq!(cpu.read_sp(), 0xFFFE);
}

#[test]
fn jump_takes_the_address_from_the_operand() {
    let mut cpu = machine_with_program(&[0xC3, 0x10, 0x20]);
    run(&mut cpu, 1);
    assert_eq!(cpu.read_pc(), 0x2010);
}

#[test]
fn program_counter_wraps_past_the_top_of_memory() {
    let mut cpu = Cpu::new();
    cpu.write_memory(0xFFFF, 0x3E);
    cpu.load_read_only_data(0x0000, 0x77);
    cpu.write_pc(0xFFFF);
    run(&mut cpu, 1);
    assert_eq!(cpu.read_pc(), 0x0001);
    assert_eq!(cpu.read_reg8(7), 0x77);
}

#[test]
fn prefixed_instruction_is_selected_by_the_second_byte() {
    // LD A, 0xF1; SWAP A; BIT 7, A; RES 0, A; SET 1, B
    let mut cpu = machine_with_program(&[
        0x3E, 0xF1, 0xCB, 0x37, 0xCB, 0x7F, 0xCB, 0x87, 0xCB, 0xC8,
    ]);
    run(&mut cpu, 2);
    assert_eq!(cpu.read_reg8(7), 0x1F);
    assert_eq!(cpu.read_reg8(6) & 0xF0, 0x00);
    assert_eq!(cpu.read_pc(), 4);
    run(&mut cpu, 1);
    assert!(cpu.get_zero_flag());
    assert!(cpu.get_half_carry_flag());
    assert_eq!(cpu.read_pc(), 6);
    run(&mut cpu, 1);
    assert_eq!(cpu.read_reg8(7), 0x1E);
    run(&mut cpu, 1);
    assert_eq!(cpu.read_reg8(0), 0x02);
    assert_eq!(cpu.read_pc(), 10);
}

#[test]
fn prefixed_instruction_feeds_its_own_cycles_to_the_timer() {
    let mut cpu = machine_with_program(&[0xCB, 0x37, 0xCB, 0x37]);
    cpu.write_memory(0xFF07, 0x05);
    run(&mut cpu, 1);
    assert_eq!(cpu.read_memory(0xFF05), 0);
    run(&mut cpu, 1);
    assert_eq!(cpu.read_memory(0xFF05), 1);
}

#[test]
fn halt_stops_execution_until_the_timer_is_pending() {
    let mut cpu = machine_with_program(&[0x76, 0x3C, 0x3C]);
    run(&mut cpu, 1);
    assert!(cpu.is_halted());
    assert_eq!(cpu.read_pc(), 1);
    run(&mut cpu, 3);
    assert!(cpu.is_halted());
    assert_eq!(cpu.read_pc(), 1);
    assert_eq!(cpu.read_reg8(7), 0x01);
    cpu.set_interrupt_pending(2);
    run(&mut cpu, 1);
    assert!(!cpu.is_halted());
    assert_eq!(cpu.read_pc(), 2);
    assert_eq!(cpu.read_reg8(7), 0x02);
    cpu.write_memory(0xFF0F, 0x00);
    run(&mut cpu, 1);
    assert_eq!(cpu.read_pc(), 3);
    assert_eq!(cpu.read_reg8(7), 0x03);
}

#[test]
fn halted_processor_keeps_feeding_the_timer() {
    let mut cpu = machine_with_program(&[0x76]);
    cpu.write_memory(0xFF07, 0x05);
    run(&mut cpu, 1);
    assert!(cpu.is_halted());
    assert_eq!(cpu.read_memory(0xFF05), 0);
    run(&mut cpu, 4);
    assert_eq!(cpu.read_memory(0xFF05), 1);
    assert_eq!(cpu.read_pc(), 1);
}

#[test]
fn halted_processor_is_woken_by_a_timer_overflow() {
    let mut cpu = machine_with_program(&[0x76, 0x04]);
    cpu.write_memory(0xFF05, 0xFF);
    cpu.write_memory(0xFF07, 0x05);
    run(&mut cpu, 4);
    assert!(cpu.is_halted());
    assert!(cpu.get_interrupt_flag(2));
    assert_eq!(cpu.read_reg8(0), 0x00);
    run(&mut cpu, 1);
    assert!(!cpu.is_halted());
    assert_eq!(cpu.read_reg8(0), 0x01);
    assert_eq!(cpu.read_pc(), 2);
}

#[test]
fn set_halt_halts() {
    let mut cpu = Cpu::new();
    cpu.set_halt();
    assert!(cpu.is_halted());
    cpu.resume();
    assert!(!cpu.is_halted());
}

#[test]
fn interrupt_switches_are_instructions() {
    let mut cpu = machine_with_program(&[0xFB, 0xF3]);
    run(&mut cpu, 1);
    assert!(cpu.interrupts_enabled());
    run(&mut cpu, 1);
    assert!(!cpu.interrupts_enabled());
}

#[test]
fn return_from_interrupt_switches_interrupts_on() {
    let mut cpu = Cpu::new();
    cpu.load_read_only_data(0x0050, 0xD9);
    cpu.write_pc(0xC000);
    cpu.write_memory(0xFFFF, 0x04);
    cpu.write_memory(0xFF0F, 0x04);
    cpu.enable_interupts();
    run(&mut cpu, 1);
    assert_eq!(cpu.read_pc(), 0xC000);
    assert!(cpu.interrupts_enabled());
    assert_eq!(cpu.read_sp(), 0xFFFE);
    assert_eq!(cpu.read_memory(0xFF0F), 0x00);
}

#[test]
fn a_small_loop_counts_down() {
    // LD B, 3; DEC B; JR NZ, -3; LD A, B
    let mut cpu = machine_with_program(&[0x06, 0x03, 0x05, 0x20, 0xFD, 0x78]);
    run(&mut cpu, 1 + 3 * 2 + 1);
    assert_eq!(cpu.read_reg8(0), 0);
    assert_eq!(cpu.read_reg8(7), 0);
    assert_eq!(cpu.read_pc(), 6);
}

#[test]
fn sum_in_memory_through_hl() {
    // LD HL, 0xC000; LD (HL), 0x21; LD A, 0x0F; ADD A, (HL); LD (HL+), A; LD (HL), A
    let mut cpu = machine_with_program(&[
        0x21, 0x00, 0xC0, 0x36, 0x21, 0x3E, 0x0F, 0x86, 0x22, 0x77,
    ]);
    run(&mut cpu, 6);
    assert_eq!(cpu.read_memory(0xC000), 0x30);
    assert_eq!(cpu.read_memory(0xC001), 0x30);
    assert_eq!(cpu.read_reg16(4), 0xC001);
    assert!(cpu.get_half_carry_flag());
    assert_eq!(cpu.read_pc(), 10);
}

#[test]
fn unassigned_opcodes_do_nothing() {
    let opcodes: [u8; 11] = [0xD3, 0xDB, 0xDD, 0xE3, 0xE4, 0xEB, 0xEC, 0xED, 0xF4, 0xFC, 0xFD];
    for opcode in opcodes.iter() {
        let mut cpu = machine_with_program(&[*opcode]);
        let before = cpu.snapshot();
        run(&mut cpu, 1);
        let after = cpu.snapshot();
        assert_eq!(after.registers, before.registers);
        assert_eq!(after.sp, before.sp);
        assert_eq!(after.pc, 1);
    }
}

#[test]
fn lower_half_of_f_stays_clear_through_every_opcode() {
    let unprefixed = OpcodeTable::init_unprefix_insturction_table();
    let prefixed = OpcodeTable::init_prefix_instruction_table();
    for first in 0..=255u8 {
        for second in [0x00u8, 0x36, 0x46, 0x7F, 0x86, 0xC6, 0xFF].iter() {
            let mut cpu = Cpu::new();
            cpu.write_memory(0xC000, first);
            cpu.write_memory(0xC001, *second);
            cpu.write_memory(0xC002, 0xD0);
            cpu.write_memory(0xFFFC, 0xFF);
            cpu.write_memory(0xFFFD, 0xFF);
            cpu.write_reg16(4, 0xD000);
            cpu.write_sp(0xFFFC);
            cpu.write_pc(0xC000);
            assert_eq!(cpu.read_reg8(6) & 0x0F, 0);
            cpu.execute_step(&unprefixed, &prefixed);
            assert_eq!(cpu.read_reg8(6) & 0x0F, 0);
        }
    }
}
