use gbc_emulator::instructions::{Handler, Opcode};
use gbc_emulator::opcode_table::OpcodeTable;

#[test]
fn every_entry_carries_its_own_opcode() {
    let unprefixed = OpcodeTable::init_unprefix_insturction_table();
    let prefixed = OpcodeTable::init_prefix_instruction_table();
    for opcode in 0..=255u8 {
        assert_eq!(unprefixed.get(opcode).get_opcode(), opcode);
        assert_eq!(prefixed.get(opcode).get_opcode(), opcode);
    }
}

#[test]
fn lengths_are_one_to_three_bytes() {
    let unprefixed = OpcodeTable::init_unprefix_insturction_table();
    let prefixed = OpcodeTable::init_prefix_instruction_table();
    for opcode in 0..=255u8 {
        let length: u8 = unprefixed.get(opcode).get_length();
        assert!(1 <= length && length <= 3);
        assert!(unprefixed.get(opcode).get_cycles() >= 1);
        assert_eq!(prefixed.get(opcode).get_length(), 2);
        assert!(prefixed.get(opcode).get_cycles() >= 2);
    }
}

#[test]
fn entries_of_the_first_table() {
    let table = OpcodeTable::init_unprefix_insturction_table();
    let expected: [(u8, u8, u8, Handler); 24] = [
        (0x00, 1, 1, Handler::Nop),
        (0x01, 3, 3, Handler::LoadBcNn),
        (0x06, 2, 2, Handler::LoadRN),
        (0x08, 5, 3, Handler::LoadNnSp),
        (0x18, 3, 2, Handler::JrDd),
        (0x20, 3, 2, Handler::JrConditional),
        (0x31, 3, 3, Handler::LoadSpNn),
        (0x34, 3, 1, Handler::IncHl),
        (0x36, 3, 2, Handler::LoadHlN),
        (0x39, 2, 1, Handler::AddHlSp),
        (0x3E, 2, 2, Handler::LoadRN),
        (0x46, 2, 1, Handler::LoadRHl),
        (0x70, 2, 1, Handler::LoadHlR),
        (0x76, 1, 1, Handler::Halt),
        (0x7F, 1, 1, Handler::LoadRR),
        (0x8F, 1, 1, Handler::AdcAR),
        (0xA7, 1, 1, Handler::AndAR),
        (0xBE, 2, 1, Handler::CpAHl),
        (0xC3, 4, 3, Handler::JpNn),
        (0xCB, 1, 2, Handler::Nop),
        (0xCD, 6, 3, Handler::CallNn),
        (0xE8, 4, 2, Handler::AddSpDd),
        (0xF1, 3, 1, Handler::PopAf),
        (0xFF, 4, 1, Handler::Rst),
    ];
    for (opcode, cycles, length, handler) in expected.iter() {
        let entry: &Opcode = table.get(*opcode);
        assert_eq!(entry.get_cycles(), *cycles);
        assert_eq!(entry.get_length(), *length);
        assert_eq!(entry.get_handler(), *handler);
        assert_eq!(entry.handler, *handler);
        assert_eq!(entry.number_of_bytes, *length);
    }
}

#[test]
fn entries_of_the_second_table() {
    let table = OpcodeTable::init_prefix_instruction_table();
    let expected: [(u8, u8, Handler); 12] = [
        (0x00, 2, Handler::RlcR),
        (0x0E, 4, Handler::RrcHl),
        (0x17, 2, Handler::RlR),
        (0x1F, 2, Handler::RrR),
        (0x26, 4, Handler::SlaHl),
        (0x2F, 2, Handler::SraR),
        (0x37, 2, Handler::SwapR),
        (0x3E, 4, Handler::SrlHl),
        (0x46, 3, Handler::BitHl),
        (0x7F, 2, Handler::BitR),
        (0x86, 4, Handler::ResHl),
        (0xFF, 2, Handler::SetR),
    ];
    for (opcode, cycles, handler) in expected.iter() {
        let entry: &Opcode = table.get(*opcode);
        assert_eq!(entry.get_cycles(), *cycles);
        assert_eq!(entry.get_handler(), *handler);
    }
}

#[test]
fn entries_carry_their_mnemonics() {
    let unprefixed = OpcodeTable::init_unprefix_insturction_table();
    let prefixed = OpcodeTable::init_prefix_instruction_table();
    assert_eq!(unprefixed.get(0x00).opcode_name, "No Op");
    assert_eq!(unprefixed.get(0x3E).opcode_name, "LD A, u8");
    assert_eq!(unprefixed.get(0x76).opcode_name, "HALT");
    assert_eq!(unprefixed.get(0xFF).opcode_name, "RST 38h");
    assert_eq!(prefixed.get(0x37).opcode_name, "SWAP A");
    assert_eq!(prefixed.get(0x46).opcode_name, "BIT 0, (HL)");
}

#[test]
fn new_entry_holds_what_it_was_given() {
    let entry = Opcode::new(0x3C, "INC A".to_string(), 1, 1, Handler::IncR);
    assert_eq!(entry.get_opcode(), 0x3C);
    assert_eq!(entry.get_cycles(), 1);
    assert_eq!(entry.get_length(), 1);
    assert_eq!(entry.get_handler(), Handler::IncR);
    assert_eq!(entry.opcode_name, "INC A");
}
