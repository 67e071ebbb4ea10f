//! The execution driver: one step of the processor.
//!
//! A step checks for interrupts, fetches the opcode at the program counter,
//! moves the program counter past the instruction, runs the instruction's
//! operation, and feeds the instruction's cycles to the timer. The program
//! counter moves before the operation runs: an operation finds its operand
//! behind the program counter.

use vstd::prelude::*;
use crate::bits::wrap16;
use crate::cpu::Cpu;
use crate::instructions::{effect, OpcodeView};
use crate::machine::{Machine, TIMER};
use crate::opcode_table::{OpcodeTable, PREFIX_CB};

verus! {

/// The opcode at the program counter.
pub open spec fn fetched(m: Machine) -> u8 {
    m.mem[m.pc as int]
}

/// Whether the processor executes an instruction in this step: it is not
/// halted, or it is and the timer interrupt is pending, which wakes it.
pub open spec fn runs(m: Machine) -> bool {
    !m.halted || m.interrupt_pending(TIMER)
}

/// The machine as an operation finds it: awake, and with the program counter
/// moved by the length that the first table gives for the fetched opcode.
pub open spec fn advanced(m: Machine, unprefixed: Seq<OpcodeView>) -> Machine {
    m.set_halted(false).set_pc(wrap16(m.pc + unprefixed[fetched(m) as int].length))
}

/// The entry whose operation runs. After the prefix it is the entry of the
/// second table for the byte behind the moved program counter.
pub open spec fn selected(
    m: Machine,
    unprefixed: Seq<OpcodeView>,
    prefixed: Seq<OpcodeView>,
) -> OpcodeView {
    if fetched(m) != PREFIX_CB {
        unprefixed[fetched(m) as int]
    } else {
        prefixed[advanced(m, unprefixed).imm8() as int]
    }
}

/// The machine after the operation of the instruction at the program counter
/// and before the timer is fed: the operation of the selected entry on the
/// advanced machine. A halted machine that does not wake stays as it is.
pub open spec fn operated(
    m: Machine,
    unprefixed: Seq<OpcodeView>,
    prefixed: Seq<OpcodeView>,
) -> Machine {
    if runs(m) {
        let entry = selected(m, unprefixed, prefixed);
        effect(entry.handler, entry.opcode, advanced(m, unprefixed))
    } else {
        m
    }
}

/// The cycles that the instruction at the program counter feeds to the timer:
/// those of the selected entry, or, for a halted machine that does not wake,
/// those of the opcode that it rests on.
pub open spec fn cycles_fed(
    m: Machine,
    unprefixed: Seq<OpcodeView>,
    prefixed: Seq<OpcodeView>,
) -> u8 {
    if runs(m) {
        selected(m, unprefixed, prefixed).cycles
    } else {
        unprefixed[fetched(m) as int].cycles
    }
}

/// The machine after the instruction at the program counter, interrupts
/// apart: the operation first, then the timer fed with the instruction's
/// cycles.
pub open spec fn after_instruction(
    m: Machine,
    unprefixed: Seq<OpcodeView>,
    prefixed: Seq<OpcodeView>,
) -> Machine {
    operated(m, unprefixed, prefixed).feed_timer(cycles_fed(m, unprefixed, prefixed))
}

/// The machine after one step: the check for interrupts, then the
/// instruction.
pub open spec fn step(
    m: Machine,
    unprefixed: Seq<OpcodeView>,
    prefixed: Seq<OpcodeView>,
) -> Machine {
    after_instruction(m.check_interrupts(), unprefixed, prefixed)
}

impl Cpu {
    /// Advances the processor by one instruction.
    pub fn execute_step(&mut self, unprifxed_instruct: &OpcodeTable, prifxed_instruct: &OpcodeTable)
        ensures
            final(self)@ == step(old(self)@, unprifxed_instruct@, prifxed_instruct@),
    {
        self.check_interrupts();

        let current_opcode = self.read_memory(self.read_pc() as usize);
        let first = unprifxed_instruct.get(current_opcode);

        if !self.is_halted() || self.get_interrupt_flag(TIMER) {
            self.resume();
            let pc = self.read_pc();
            self.write_pc(pc.wrapping_add(first.get_length() as u16));

            let instruction = if current_opcode != PREFIX_CB {
                first
            } else {
                let second_opcode = self.read_operand();
                prifxed_instruct.get(second_opcode)
            };

            instruction.execute(self);
            self.update_timers(instruction.get_cycles());
        } else {
            self.update_timers(first.get_cycles());
        }
    }
}

} // verus!
