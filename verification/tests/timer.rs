use gbc_emulator::cpu::Cpu;
use gbc_emulator::opcode_table::OpcodeTable;
use gbc_emulator::timer::Timer;

#[test]
fn timer_registers_read_back() {
    let mut timer = Timer::new();
    for address in 0xFF04..=0xFF07usize {
        assert_eq!(timer.read_memory(address), 0);
    }
    timer.write_memory(0xFF04, 1);
    timer.write_memory(0xFF05, 2);
    timer.write_memory(0xFF06, 3);
    timer.write_memory(0xFF07, 4);
    assert_eq!(timer.read_memory(0xFF04), 1);
    assert_eq!(timer.read_memory(0xFF05), 2);
    assert_eq!(timer.read_memory(0xFF06), 3);
    assert_eq!(timer.read_memory(0xFF07), 4);
}

#[test]
fn timer_read_outside_its_registers_gives_the_marker() {
    let mut timer = Timer::new();
    timer.write_memory(0xFF03, 9);
    timer.write_memory(0xFF08, 9);
    assert_eq!(timer.read_memory(0xFF03), 0xED);
    assert_eq!(timer.read_memory(0xFF08), 0xED);
    assert_eq!(timer.read_memory(0), 0xED);
    assert_eq!(timer.read_memory(0xFF04), 0);
    assert_eq!(timer.read_memory(0xFF07), 0);
}

#[test]
fn counter_reloads_from_the_modulo_on_overflow() {
    let mut timer = Timer::new();
    timer.write_memory(0xFF05, 255);
    timer.write_memory(0xFF06, 0x10);
    timer.write_memory(0xFF07, 0x05);
    assert!(!timer.update_timers(3));
    assert_eq!(timer.read_memory(0xFF05), 255);
    assert!(timer.update_timers(1));
    assert_eq!(timer.read_memory(0xFF05), 0x10);
    assert_eq!(timer.read_memory(0xFF06), 0x10);
    assert!(!timer.update_timers(4));
    assert_eq!(timer.read_memory(0xFF05), 0x11);
}

#[test]
fn counter_stands_still_while_switched_off() {
    let mut timer = Timer::new();
    timer.write_memory(0xFF05, 255);
    timer.write_memory(0xFF07, 0x01);
    for _ in 0..64 {
        assert!(!timer.update_timers(4));
    }
    assert_eq!(timer.read_memory(0xFF05), 255);
}

#[test]
fn counter_rate_follows_the_clock_select() {
    let rates: [(u8, u32); 4] = [(0x04, 64), (0x05, 1), (0x06, 4), (0x07, 16)];
    for (tac, ticks) in rates.iter() {
        let mut timer = Timer::new();
        timer.write_memory(0xFF07, *tac);
        for _ in 0..(*ticks - 1) {
            timer.update_timers(4);
        }
        assert_eq!(timer.read_memory(0xFF05), 0);
        timer.update_timers(4);
        assert_eq!(timer.read_memory(0xFF05), 1);
    }
}

#[test]
fn divider_counts_every_sixteenth_tick() {
    let mut timer = Timer::new();
    for _ in 0..15 {
        timer.update_timers(4);
    }
    assert_eq!(timer.read_memory(0xFF04), 0);
    timer.update_timers(4);
    assert_eq!(timer.read_memory(0xFF04), 1);
    for _ in 0..16 {
        timer.update_timers(4);
    }
    assert_eq!(timer.read_memory(0xFF04), 2);
}

#[test]
fn a_call_completes_at_most_one_tick() {
    let mut timer = Timer::new();
    timer.write_memory(0xFF07, 0x05);
    timer.update_timers(12);
    assert_eq!(timer.read_memory(0xFF05), 1);
    timer.update_timers(0);
    assert_eq!(timer.read_memory(0xFF05), 2);
    timer.update_timers(0);
    assert_eq!(timer.read_memory(0xFF05), 3);
    timer.update_timers(0);
    assert_eq!(timer.read_memory(0xFF05), 3);
}

#[test]
fn timer_overflow_in_a_step_sets_the_pending_bit() {
    let unprefixed = OpcodeTable::init_unprefix_insturction_table();
    let prefixed = OpcodeTable::init_prefix_instruction_table();
    let mut cpu = Cpu::new();
    cpu.write_pc(0);
    cpu.write_memory(0xFF05, 255);
    cpu.write_memory(0xFF06, 0x10);
    cpu.write_memory(0xFF07, 0x05);
    for _ in 0..3 {
        cpu.execute_step(&unprefixed, &prefixed);
    }
    assert_eq!(cpu.read_memory(0xFF05), 255);
    assert_eq!(cpu.read_memory(0xFF0F), 0xE0);
    assert!(!cpu.get_interrupt_flag(2));
    cpu.execute_step(&unprefixed, &prefixed);
    assert_eq!(cpu.read_memory(0xFF05), 0x10);
    assert_eq!(cpu.read_memory(0xFF0F), 0xE4);
    assert!(cpu.get_interrupt_flag(2));
    assert_eq!(cpu.read_pc(), 4);
}

#[test]
fn update_timers_on_the_processor_feeds_its_timer() {
    let mut cpu = Cpu::new();
    cpu.write_memory(0xFF05, 255);
    cpu.write_memory(0xFF06, 0x7F);
    cpu.write_memory(0xFF07, 0x05);
    cpu.update_timers(4);
    assert_eq!(cpu.read_memory(0xFF05), 0x7F);
    assert!(cpu.get_interrupt_flag(2));
}

#[test]
fn counter_reloads_from_the_modulo_as_the_instruction_left_it() {
    let unprefixed = OpcodeTable::init_unprefix_insturction_table();
    let prefixed = OpcodeTable::init_prefix_instruction_table();
    let mut cpu = Cpu::new();
    // NOP; NOP; LD (HL), A
    cpu.load_read_only_data(0x0002, 0x77);
    cpu.write_pc(0);
    cpu.write_reg16(4, 0xFF06);
    cpu.write_reg8(7, 0x5A);
    cpu.write_memory(0xFF05, 255);
    cpu.write_memory(0xFF06, 0x10);
    cpu.write_memory(0xFF07, 0x05);
    for _ in 0..3 {
        cpu.execute_step(&unprefixed, &prefixed);
    }
    assert_eq!(cpu.read_memory(0xFF06), 0x5A);
    assert_eq!(cpu.read_memory(0xFF05), 0x5A);
    assert!(cpu.get_interrupt_flag(2));
}
