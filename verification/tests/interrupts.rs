use gbc_emulator::cpu::Cpu;
use gbc_emulator::opcode_table::OpcodeTable;

#[test]
fn v_blank_is_taken_before_the_timer() {
    let mut cpu = Cpu::new();
    cpu.write_pc(0xC123);
    cpu.write_memory(0xFFFF, 0x05);
    cpu.write_memory(0xFF0F, 0x05);
    cpu.enable_interupts();
    cpu.check_interrupts();
    assert_eq!(cpu.read_pc(), 0x0040);
    assert_eq!(cpu.read_memory(0xFF0F), 0x04);
    assert!(!cpu.get_interrupt_flag(0));
    assert!(cpu.get_interrupt_flag(2));
    assert!(!cpu.interrupts_enabled());
    assert_eq!(cpu.read_sp(), 0xFFFC);
    assert_eq!(cpu.read_memory(0xFFFD), 0xC1);
    assert_eq!(cpu.read_memory(0xFFFC), 0x23);
}

#[test]
fn one_step_services_one_interrupt() {
    let unprefixed = OpcodeTable::init_unprefix_insturction_table();
    let prefixed = OpcodeTable::init_prefix_instruction_table();
    let mut cpu = Cpu::new();
    cpu.write_pc(0xC123);
    cpu.write_memory(0xFFFF, 0x05);
    cpu.write_memory(0xFF0F, 0x05);
    cpu.enable_interupts();
    cpu.execute_step(&unprefixed, &prefixed);
    assert_eq!(cpu.read_pc(), 0x0041);
    assert_eq!(cpu.read_memory(0xFF0F), 0x04);
    assert!(!cpu.interrupts_enabled());
    assert_eq!(cpu.read_sp(), 0xFFFC);
    cpu.execute_step(&unprefixed, &prefixed);
    assert_eq!(cpu.read_pc(), 0x0042);
    assert_eq!(cpu.read_memory(0xFF0F), 0x04);
}

#[test]
fn each_interrupt_has_its_vector() {
    let vectors: [(u8, u16); 5] = [(0, 0x40), (1, 0x48), (2, 0x50), (3, 0x58), (4, 0x60)];
    for (interrupt, vector) in vectors.iter() {
        let mut cpu = Cpu::new();
        cpu.write_memory(0xFFFF, 0x1F);
        cpu.write_memory(0xFF0F, 0x00);
        cpu.set_interrupt_pending(*interrupt);
        assert!(cpu.interrupt_requested(*interrupt));
        cpu.enable_interupts();
        cpu.check_interrupts();
        assert_eq!(cpu.read_pc(), *vector);
        assert_eq!(cpu.read_memory(0xFF0F), 0x00);
    }
}

#[test]
fn interrupts_are_taken_in_order_of_priority() {
    let mut cpu = Cpu::new();
    cpu.write_memory(0xFFFF, 0x1F);
    cpu.write_memory(0xFF0F, 0x1F);
    let order: [(u16, u8); 5] =
        [(0x40, 0x1E), (0x48, 0x1C), (0x50, 0x18), (0x58, 0x10), (0x60, 0x00)];
    for (vector, left) in order.iter() {
        cpu.enable_interupts();
        cpu.check_interrupts();
        assert_eq!(cpu.read_pc(), *vector);
        assert_eq!(cpu.read_memory(0xFF0F), *left);
    }
}

#[test]
fn pending_interrupt_stays_latched_while_disarmed() {
    let mut cpu = Cpu::new();
    cpu.write_memory(0xFFFF, 0x04);
    cpu.write_memory(0xFF0F, 0x04);
    cpu.check_interrupts();
    assert_eq!(cpu.read_pc(), 0x0100);
    assert_eq!(cpu.read_memory(0xFF0F), 0x04);
    assert_eq!(cpu.read_sp(), 0xFFFE);
    cpu.enable_interupts();
    cpu.check_interrupts();
    assert_eq!(cpu.read_pc(), 0x0050);
    assert_eq!(cpu.read_memory(0xFF0F), 0x00);
}

#[test]
fn pending_interrupt_that_is_not_enabled_is_not_taken() {
    let mut cpu = Cpu::new();
    cpu.write_memory(0xFFFF, 0x02);
    cpu.write_memory(0xFF0F, 0x05);
    cpu.enable_interupts();
    assert!(!cpu.interrupt_requested(0));
    cpu.check_interrupts();
    assert_eq!(cpu.read_pc(), 0x0100);
    assert!(cpu.interrupts_enabled());
    assert_eq!(cpu.read_memory(0xFF0F), 0x05);
}

#[test]
fn set_interrupt_pending_sets_one_bit() {
    let mut cpu = Cpu::new();
    cpu.write_memory(0xFF0F, 0x00);
    cpu.set_interrupt_pending(3);
    assert_eq!(cpu.read_memory(0xFF0F), 0x08);
    cpu.set_interrupt_pending(0);
    assert_eq!(cpu.read_memory(0xFF0F), 0x09);
    assert!(cpu.get_interrupt_flag(3));
    assert!(!cpu.get_interrupt_flag(1));
}

#[test]
fn master_enable_is_switched_by_hand() {
    let mut cpu = Cpu::new();
    cpu.enable_interupts();
    assert!(cpu.interrupts_enabled());
    cpu.disable_interupts();
    assert!(!cpu.interrupts_enabled());
}
