//! What every instruction keeps: the shape of the machine, and the lower half
//! of F at 0.
//!
//! An operation that sets flags leaves the lower half of F at 0. One that sets
//! none leaves F alone, unless F is the register that it writes: F is a
//! register slot like the others, so an operation that writes the register
//! that a bit field names can write anything to F when the field is 6. The
//! tables never pair such an operation with such an opcode: where the field is
//! 6 they hold the operation on the byte at HL, on the stack pointer or on AF
//! in its place. So a machine whose lower half of F is 0 keeps it so through
//! every step.

use vstd::prelude::*;
use crate::bits::{p_bits, y_bits, z_bits};
use crate::execute::{advanced, after_instruction, fetched, operated, runs, selected, step};
use crate::flags::{lemma_with_add_sub, lemma_with_carry, lemma_with_half_carry, lemma_with_zero};
use crate::instructions::{effect, Handler, OpcodeView};
use crate::machine::{Machine, MEMORY_SIZE, REGISTER_COUNT, REG_F};
use crate::opcode_table::{
    entry_of, prefixed_rule, prefixed_table, unprefixed_rule, unprefixed_table, PREFIX_CB,
};

verus! {

/// Eight registers, 65536 bytes of memory, and the lower half of F at 0.
pub open spec fn clean(m: Machine) -> bool {
    m.wf() && m.f() & 0x0f == 0
}

/// Whether an operation writes the register that bits 3 to 5 name.
pub open spec fn writes_register_y(handler: Handler) -> bool {
    handler == Handler::LoadRR || handler == Handler::LoadRN || handler == Handler::LoadRHl
        || handler == Handler::IncR || handler == Handler::DecR
}

/// Whether an operation writes the register that bits 0 to 2 name.
pub open spec fn writes_register_z(handler: Handler) -> bool {
    handler == Handler::RlcR || handler == Handler::RrcR || handler == Handler::RlR || handler
        == Handler::RrR || handler == Handler::SlaR || handler == Handler::SraR || handler
        == Handler::SrlR || handler == Handler::SwapR || handler == Handler::SetR || handler
        == Handler::ResR
}

/// Whether an operation writes the register pair that bits 4 and 5 name.
pub open spec fn writes_pair_p(handler: Handler) -> bool {
    handler == Handler::IncRr || handler == Handler::DecRr
}

/// Whether an operation on an opcode writes F as the register, or as part of
/// the pair, that a bit field of the opcode names.
pub open spec fn targets_f(handler: Handler, opcode: u8) -> bool {
    (writes_register_y(handler) && y_bits(opcode) == REG_F) || (writes_register_z(handler)
        && z_bits(opcode) == REG_F) || (writes_pair_p(handler) && p_bits(opcode) == 3)
}

/// The steps that the operations are made of keep a machine clean: a write to
/// a flag, to a register other than F, to memory, to the stack pointer, the
/// program counter, or the two switches.
proof fn lemma_steps_keep_clean()
    ensures
        forall|m: Machine, on: bool| clean(m) ==> clean(#[trigger] m.set_zero(on)),
        forall|m: Machine, on: bool| clean(m) ==> clean(#[trigger] m.set_add_sub(on)),
        forall|m: Machine, on: bool| clean(m) ==> clean(#[trigger] m.set_half_carry(on)),
        forall|m: Machine, on: bool| clean(m) ==> clean(#[trigger] m.set_carry(on)),
        forall|m: Machine, index: int, value: u8|
            clean(m) && 0 <= index < REGISTER_COUNT && index != REG_F ==> clean(
                #[trigger] m.set_reg(index, value),
            ),
        forall|m: Machine, index: int, lsb: u8, msb: u8|
            clean(m) && 0 <= index < REG_F - 1 ==> clean(
                #[trigger] m.set_pair_bytes(index, lsb, msb),
            ),
        forall|m: Machine, address: int, value: u8|
            clean(m) && 0 <= address < MEMORY_SIZE ==> clean(#[trigger] m.write(address, value)),
        forall|m: Machine, sp: u16| clean(m) ==> clean(#[trigger] m.set_sp(sp)),
        forall|m: Machine, pc: u16| clean(m) ==> clean(#[trigger] m.set_pc(pc)),
        forall|m: Machine, ime: bool| clean(m) ==> clean(#[trigger] m.set_ime(ime)),
        forall|m: Machine, halted: bool| clean(m) ==> clean(#[trigger] m.set_halted(halted)),
{
    assert forall|m: Machine, on: bool| clean(m) implies clean(#[trigger] m.set_zero(on)) by {
        lemma_with_zero(m.f(), on);
    }
    assert forall|m: Machine, on: bool| clean(m) implies clean(#[trigger] m.set_add_sub(on)) by {
        lemma_with_add_sub(m.f(), on);
    }
    assert forall|m: Machine, on: bool| clean(m) implies clean(
        #[trigger] m.set_half_carry(on),
    ) by {
        lemma_with_half_carry(m.f(), on);
    }
    assert forall|m: Machine, on: bool| clean(m) implies clean(#[trigger] m.set_carry(on)) by {
        lemma_with_carry(m.f(), on);
    }
}

/// The operations on A, on HL and on the stack pointer keep a machine clean.
proof fn lemma_arithmetic_keeps_clean(m: Machine)
    requires
        clean(m),
    ensures
        forall|v: u8, c: bool| clean(#[trigger] m.add_a(v, c)),
        forall|v: u8, c: bool| clean(#[trigger] m.sub_a(v, c)),
        forall|v: u8| clean(#[trigger] m.cp_a(v)),
        forall|v: u8| clean(#[trigger] m.and_a(v)),
        forall|v: u8| clean(#[trigger] m.xor_a(v)),
        forall|v: u8| clean(#[trigger] m.or_a(v)),
        forall|v: u16| clean(#[trigger] m.add_hl(v)),
        clean(m.daa()),
        clean(m.complement_a()),
        clean(m.add_sp_flags()),
        clean(m.ccf()),
        clean(m.scf()),
{
    lemma_steps_keep_clean();
}

/// Increments and decrements of a register other than F, and of a byte of
/// memory, keep a machine clean.
proof fn lemma_counting_keeps_clean(m: Machine)
    requires
        clean(m),
    ensures
        forall|index: int|
            0 <= index < REGISTER_COUNT && index != REG_F ==> clean(
                #[trigger] m.increment_r(index),
            ),
        forall|index: int|
            0 <= index < REGISTER_COUNT && index != REG_F ==> clean(
                #[trigger] m.decrement_r(index),
            ),
        forall|address: int|
            0 <= address < MEMORY_SIZE ==> clean(#[trigger] m.increment_memory(address)),
        forall|address: int|
            0 <= address < MEMORY_SIZE ==> clean(#[trigger] m.decrement_memory(address)),
{
    lemma_steps_keep_clean();
}

/// The flags of rotates, shifts and bit tests keep a machine clean.
proof fn lemma_shifting_keeps_clean(m: Machine)
    requires
        clean(m),
    ensures
        forall|out: bool, result: u8, check: bool| clean(#[trigger] m.shifted(out, result, check)),
        forall|result: u8| clean(#[trigger] m.swapped(result)),
        forall|value: u8, bit: u8| clean(#[trigger] m.bit_check(value, bit)),
{
    lemma_steps_keep_clean();
}

/// Pushes, pops of BC, DE and HL, the pop of AF, calls and returns keep a
/// machine clean.
proof fn lemma_stack_keeps_clean(m: Machine)
    requires
        clean(m),
    ensures
        forall|msb: u8, lsb: u8| clean(#[trigger] m.push_bytes(msb, lsb)),
        forall|index: int| 0 <= index < REG_F - 1 ==> clean(#[trigger] m.pop_rr(index)),
        clean(m.pop_af()),
        forall|address: u16| clean(#[trigger] m.call(address)),
        clean(m.ret()),
{
    lemma_steps_keep_clean();
    let low = m.stack_low();
    assert((low & 0xf0) & 0x0f == 0) by (bit_vector);
    assert(m.pop_af().regs[REG_F as int] == low & 0xf0);
}

/// The steps that the operations are made of keep the shape of a machine.
proof fn lemma_steps_keep_shape()
    ensures
        forall|m: Machine, on: bool| m.wf() ==> (#[trigger] m.set_zero(on)).wf(),
        forall|m: Machine, on: bool| m.wf() ==> (#[trigger] m.set_add_sub(on)).wf(),
        forall|m: Machine, on: bool| m.wf() ==> (#[trigger] m.set_half_carry(on)).wf(),
        forall|m: Machine, on: bool| m.wf() ==> (#[trigger] m.set_carry(on)).wf(),
        forall|m: Machine, index: int, value: u8|
            m.wf() && 0 <= index < REGISTER_COUNT ==> (#[trigger] m.set_reg(index, value)).wf(),
        forall|m: Machine, index: int, lsb: u8, msb: u8|
            m.wf() && 0 <= index < REGISTER_COUNT - 1 ==> (#[trigger] m.set_pair_bytes(
                index,
                lsb,
                msb,
            )).wf(),
        forall|m: Machine, address: int, value: u8|
            m.wf() && 0 <= address < MEMORY_SIZE ==> (#[trigger] m.write(address, value)).wf(),
        forall|m: Machine, sp: u16| m.wf() ==> (#[trigger] m.set_sp(sp)).wf(),
        forall|m: Machine, pc: u16| m.wf() ==> (#[trigger] m.set_pc(pc)).wf(),
        forall|m: Machine, ime: bool| m.wf() ==> (#[trigger] m.set_ime(ime)).wf(),
        forall|m: Machine, halted: bool| m.wf() ==> (#[trigger] m.set_halted(halted)).wf(),
{
}

/// The operations on A, on HL, on the stack pointer and on the flags keep the
/// shape of a machine.
proof fn lemma_arithmetic_keeps_shape(m: Machine)
    requires
        m.wf(),
    ensures
        forall|v: u8, c: bool| (#[trigger] m.add_a(v, c)).wf(),
        forall|v: u8, c: bool| (#[trigger] m.sub_a(v, c)).wf(),
        forall|v: u8| (#[trigger] m.cp_a(v)).wf(),
        forall|v: u8| (#[trigger] m.and_a(v)).wf(),
        forall|v: u8| (#[trigger] m.xor_a(v)).wf(),
        forall|v: u8| (#[trigger] m.or_a(v)).wf(),
        forall|v: u16| (#[trigger] m.add_hl(v)).wf(),
        m.daa().wf(),
        m.complement_a().wf(),
        m.add_sp_flags().wf(),
        m.ccf().wf(),
        m.scf().wf(),
        forall|index: int| 0 <= index < REGISTER_COUNT ==> (#[trigger] m.increment_r(index)).wf(),
        forall|index: int| 0 <= index < REGISTER_COUNT ==> (#[trigger] m.decrement_r(index)).wf(),
        forall|address: int|
            0 <= address < MEMORY_SIZE ==> (#[trigger] m.increment_memory(address)).wf(),
        forall|address: int|
            0 <= address < MEMORY_SIZE ==> (#[trigger] m.decrement_memory(address)).wf(),
        forall|out: bool, result: u8, check: bool| (#[trigger] m.shifted(out, result, check)).wf(),
        forall|result: u8| (#[trigger] m.swapped(result)).wf(),
        forall|value: u8, bit: u8| (#[trigger] m.bit_check(value, bit)).wf(),
{
    lemma_steps_keep_shape();
}

/// Pushes, pops, calls and returns keep the shape of a machine.
proof fn lemma_stack_keeps_shape(m: Machine)
    requires
        m.wf(),
    ensures
        forall|msb: u8, lsb: u8| (#[trigger] m.push_bytes(msb, lsb)).wf(),
        forall|index: int| 0 <= index < REGISTER_COUNT - 1 ==> (#[trigger] m.push_rr(index)).wf(),
        forall|index: int| 0 <= index < REGISTER_COUNT - 1 ==> (#[trigger] m.pop_rr(index)).wf(),
        m.push_af().wf(),
        m.pop_af().wf(),
        forall|address: u16| (#[trigger] m.call(address)).wf(),
        m.ret().wf(),
{
    lemma_steps_keep_shape();
}

/// Every operation keeps the shape of the machine: eight registers and 65536
/// bytes of memory.
pub proof fn lemma_operation_keeps_shape(handler: Handler, opcode: u8, m: Machine)
    requires
        m.wf(),
    ensures
        effect(handler, opcode, m).wf(),
{
    lemma_steps_keep_shape();
    lemma_arithmetic_keeps_shape(m);
    lemma_stack_keeps_shape(m);
}

/// A step keeps the shape of the machine, whatever the tables hold.
pub proof fn lemma_step_keeps_shape(
    m: Machine,
    unprefixed: Seq<OpcodeView>,
    prefixed: Seq<OpcodeView>,
)
    requires
        m.wf(),
    ensures
        m.check_interrupts().wf(),
        operated(m.check_interrupts(), unprefixed, prefixed).wf(),
        step(m, unprefixed, prefixed).wf(),
{
    let serviced = m.check_interrupts();
    assert(serviced.wf());
    if runs(serviced) {
        let entry = selected(serviced, unprefixed, prefixed);
        lemma_operation_keeps_shape(entry.handler, entry.opcode, advanced(serviced, unprefixed));
    }
}

/// An operation that does not target F keeps the machine clean.
pub proof fn lemma_operation_keeps_clean(handler: Handler, opcode: u8, m: Machine)
    requires
        clean(m),
        !targets_f(handler, opcode),
    ensures
        clean(effect(handler, opcode, m)),
{
    lemma_steps_keep_clean();
    lemma_arithmetic_keeps_clean(m);
    lemma_counting_keeps_clean(m);
    lemma_shifting_keeps_clean(m);
    lemma_stack_keeps_clean(m);
}

/// No entry of the first table targets F.
pub proof fn lemma_unprefixed_never_targets_f(opcode: u8)
    ensures
        !targets_f(unprefixed_rule(opcode).handler, opcode),
{
}

/// No entry of the second table targets F.
pub proof fn lemma_prefixed_never_targets_f(opcode: u8)
    ensures
        !targets_f(prefixed_rule(opcode).handler, opcode),
{
}

/// The check for interrupts keeps the machine clean.
pub proof fn lemma_check_interrupts_keeps_clean(m: Machine)
    requires
        clean(m),
    ensures
        clean(m.check_interrupts()),
{
    lemma_steps_keep_clean();
    lemma_stack_keeps_clean(m.set_ime(false));
}

/// Feeding the timer keeps the machine clean.
pub proof fn lemma_feed_timer_keeps_clean(m: Machine, cycles: u8)
    requires
        clean(m),
    ensures
        clean(m.feed_timer(cycles)),
{
    lemma_steps_keep_clean();
    assert(clean(m.set_timer(m.timer().advance(cycles))));
}

/// The instruction at the program counter keeps the machine clean.
pub proof fn lemma_instruction_keeps_clean(m: Machine)
    requires
        clean(m),
    ensures
        clean(after_instruction(m, unprefixed_table(), prefixed_table())),
{
    let first = unprefixed_table()[fetched(m) as int];
    if runs(m) {
        let ready = advanced(m, unprefixed_table());
        let entry = selected(m, unprefixed_table(), prefixed_table());
        assert(clean(ready));
        if fetched(m) != PREFIX_CB {
            assert(entry == entry_of(fetched(m), unprefixed_rule(fetched(m))));
            lemma_unprefixed_never_targets_f(fetched(m));
        } else {
            assert(entry == entry_of(ready.imm8(), prefixed_rule(ready.imm8())));
            lemma_prefixed_never_targets_f(ready.imm8());
        }
        lemma_operation_keeps_clean(entry.handler, entry.opcode, ready);
        lemma_feed_timer_keeps_clean(effect(entry.handler, entry.opcode, ready), entry.cycles);
    } else {
        lemma_feed_timer_keeps_clean(m, first.cycles);
    }
}

/// A step with the two tables keeps the machine clean: after any number of
/// steps from a clean machine, the lower half of F is 0.
pub proof fn lemma_step_keeps_clean(m: Machine)
    requires
        clean(m),
    ensures
        clean(step(m, unprefixed_table(), prefixed_table())),
{
    lemma_check_interrupts_keeps_clean(m);
    lemma_instruction_keeps_clean(m.check_interrupts());
}

} // verus!
