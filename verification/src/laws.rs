//! What holds of the processor's operations on every machine.

use vstd::prelude::*;
use crate::alu::{
    bit_mask, carry_add, carry_sub, decimal_adjusted, decimal_carry, decimal_value, difference8,
    half_carry_add, half_carry_sub, is_packed_decimal, sum8,
};
use crate::bits::{high_byte, lemma_word_of_bytes, low_byte, word, wrap16};
use crate::execute::{
    advanced, after_instruction, cycles_fed, fetched, operated, runs, selected, step,
};
use crate::flags::{
    lemma_with_add_sub, lemma_with_carry, lemma_with_half_carry, lemma_with_zero, with_add_sub,
    with_carry, with_half_carry, with_zero,
};
use crate::instructions::{effect, OpcodeView};
use crate::invariants::lemma_step_keeps_shape;
use crate::machine::{
    next_address, Machine, INTERRUPT_FLAG_REG, JOYPAD, LCD_STAT, MEMORY_SIZE, PAIR_AF, PAIR_BC,
    PAIR_DE, PAIR_HL, REGISTER_COUNT, REG_B, REG_C, REG_D, REG_E, REG_F, REG_H, REG_L, SERIAL,
    TIMER, V_BLANK, V_BLANK_ADDR,
};
use crate::opcode_table::TABLE_SIZE;
use crate::ppu::{lemma_video_range, video_byte, with_video_byte};
use crate::rom::ROM_BANK_01_END;
use crate::timer::{TimerState, TIMA_ADDR, TMA_ADDR};
use crate::vram::{VRAM_END, VRAM_SIZE, VRAM_START};

verus! {

/// An addition to A, with or without the carry flag, sets the carry exactly
/// where the sum passes 255, the half-carry exactly where the sum of the lower
/// halves passes 15, and the zero flag exactly where the sum is 0 in eight
/// bits. It clears the subtract flag, leaves A with the sum in eight bits, and
/// leaves the lower half of F at 0.
pub proof fn lemma_add_a(m: Machine, addend: u8, add_carry: bool)
    requires
        m.wf(),
    ensures
        m.add_a(addend, add_carry).carry() <==> m.a() + addend + m.carry_in(add_carry) > 255,
        m.add_a(addend, add_carry).half_carry() <==> (m.a() & 0xf) + (addend & 0xf) + m.carry_in(
            add_carry,
        ) > 0xf,
        m.add_a(addend, add_carry).zero() <==> (m.a() + addend + m.carry_in(add_carry)) % 256 == 0,
        !m.add_a(addend, add_carry).add_sub(),
        m.add_a(addend, add_carry).a() == (m.a() + addend + m.carry_in(add_carry)) % 256,
        m.add_a(addend, add_carry).f() & 0x0f == 0,
{
    let carry = m.carry_in(add_carry);
    let sum = sum8(m.a(), addend, carry);
    let f1 = with_carry(m.f(), carry_add(m.a(), addend, carry));
    let f2 = with_half_carry(f1, half_carry_add(m.a(), addend, carry));
    let f3 = with_zero(f2, sum == 0);
    lemma_with_carry(m.f(), carry_add(m.a(), addend, carry));
    lemma_with_half_carry(f1, half_carry_add(m.a(), addend, carry));
    lemma_with_zero(f2, sum == 0);
    lemma_with_add_sub(f3, false);
}

/// A subtraction from A, with or without the carry flag, sets the carry
/// exactly where the difference falls below 0, and the half-carry exactly
/// where the difference of the lower halves does. It sets the zero flag
/// exactly where the difference is 0 in eight bits, sets the subtract flag,
/// leaves A with the difference in eight bits, and leaves the lower half of F
/// at 0.
pub proof fn lemma_sub_a(m: Machine, subtrahend: u8, add_borrow: bool)
    requires
        m.wf(),
    ensures
        m.sub_a(subtrahend, add_borrow).carry() <==> m.a() - subtrahend - m.carry_in(add_borrow)
            < 0,
        m.sub_a(subtrahend, add_borrow).half_carry() <==> (m.a() & 0xf) - (subtrahend & 0xf)
            - m.carry_in(add_borrow) < 0,
        m.sub_a(subtrahend, add_borrow).zero() <==> (m.a() - subtrahend - m.carry_in(add_borrow))
            % 256 == 0,
        m.sub_a(subtrahend, add_borrow).add_sub(),
        m.sub_a(subtrahend, add_borrow).a() == (m.a() - subtrahend - m.carry_in(add_borrow)) % 256,
        m.sub_a(subtrahend, add_borrow).f() & 0x0f == 0,
{
    let borrow = m.carry_in(add_borrow);
    let difference = difference8(m.a(), subtrahend, borrow);
    let f1 = with_carry(m.f(), carry_sub(m.a(), subtrahend, borrow));
    let f2 = with_half_carry(f1, half_carry_sub(m.a(), subtrahend, borrow));
    let f3 = with_zero(f2, difference == 0);
    lemma_with_carry(m.f(), carry_sub(m.a(), subtrahend, borrow));
    lemma_with_half_carry(f1, half_carry_sub(m.a(), subtrahend, borrow));
    lemma_with_zero(f2, difference == 0);
    lemma_with_add_sub(f3, true);
}

/// A comparison sets the flags as the subtraction does and leaves A as it
/// was.
pub proof fn lemma_cp_a(m: Machine, subtrahend: u8)
    requires
        m.wf(),
    ensures
        m.cp_a(subtrahend).a() == m.a(),
        m.cp_a(subtrahend).f() == m.sub_a(subtrahend, false).f(),
        m.cp_a(subtrahend).zero() <==> m.a() == subtrahend,
        m.cp_a(subtrahend).carry() <==> m.a() < subtrahend,
{
    lemma_sub_a(m, subtrahend, false);
}

/// Every operation that sets flags leaves the lower half of F at 0, whatever
/// F held before.
pub proof fn lemma_flag_setting_clears_lower_half(m: Machine)
    requires
        m.wf(),
    ensures
        forall|on: bool| (#[trigger] m.set_zero(on)).f() & 0x0f == 0,
        forall|on: bool| (#[trigger] m.set_add_sub(on)).f() & 0x0f == 0,
        forall|on: bool| (#[trigger] m.set_half_carry(on)).f() & 0x0f == 0,
        forall|on: bool| (#[trigger] m.set_carry(on)).f() & 0x0f == 0,
        forall|v: u8, c: bool| (#[trigger] m.add_a(v, c)).f() & 0x0f == 0,
        forall|v: u8, c: bool| (#[trigger] m.sub_a(v, c)).f() & 0x0f == 0,
        forall|v: u8| (#[trigger] m.cp_a(v)).f() & 0x0f == 0,
        forall|v: u8| (#[trigger] m.and_a(v)).f() & 0x0f == 0,
        forall|v: u8| (#[trigger] m.xor_a(v)).f() & 0x0f == 0,
        forall|v: u8| (#[trigger] m.or_a(v)).f() & 0x0f == 0,
        forall|index: int|
            0 <= index < REGISTER_COUNT ==> (#[trigger] m.increment_r(index)).f() & 0x0f == 0,
        forall|index: int|
            0 <= index < REGISTER_COUNT ==> (#[trigger] m.decrement_r(index)).f() & 0x0f == 0,
        forall|address: int|
            0 <= address < MEMORY_SIZE ==> (#[trigger] m.increment_memory(address)).f() & 0x0f
                == 0,
        forall|address: int|
            0 <= address < MEMORY_SIZE ==> (#[trigger] m.decrement_memory(address)).f() & 0x0f
                == 0,
        forall|v: u16| (#[trigger] m.add_hl(v)).f() & 0x0f == 0,
        m.complement_a().f() & 0x0f == 0,
        m.daa().f() & 0x0f == 0,
        m.add_sp_flags().f() & 0x0f == 0,
        m.ccf().f() & 0x0f == 0,
        m.scf().f() & 0x0f == 0,
        forall|out: bool, result: u8, check: bool|
            (#[trigger] m.shifted(out, result, check)).f() & 0x0f == 0,
        forall|result: u8| (#[trigger] m.swapped(result)).f() & 0x0f == 0,
        forall|value: u8, bit: u8| (#[trigger] m.bit_check(value, bit)).f() & 0x0f == 0,
        m.pop_af().f() & 0x0f == 0,
{
    assert forall|f: u8, on: bool| (#[trigger] with_zero(f, on)) & 0x0f == 0 by {
        lemma_with_zero(f, on);
    }
    assert forall|f: u8, on: bool| (#[trigger] with_add_sub(f, on)) & 0x0f == 0 by {
        lemma_with_add_sub(f, on);
    }
    assert forall|f: u8, on: bool| (#[trigger] with_half_carry(f, on)) & 0x0f == 0 by {
        lemma_with_half_carry(f, on);
    }
    assert forall|f: u8, on: bool| (#[trigger] with_carry(f, on)) & 0x0f == 0 by {
        lemma_with_carry(f, on);
    }
    let low = m.stack_low();
    assert((low & 0xf0) & 0x0f == 0) by (bit_vector);
}

/// Decimal adjustment makes binary addition decimal. Where A and the addend
/// each hold two decimal digits, an addition followed by the adjustment
/// leaves in A the two digits of the sum of the two numbers and the carry
/// taken in, modulo 100, and sets the carry exactly where that sum is 100 or
/// more. The zero flag is set exactly where A is 0 then, and the half-carry is
/// cleared.
pub proof fn lemma_add_then_daa(m: Machine, addend: u8, add_carry: bool)
    requires
        m.wf(),
        is_packed_decimal(m.a()),
        is_packed_decimal(addend),
    ensures
        is_packed_decimal(m.add_a(addend, add_carry).daa().a()),
        decimal_value(m.add_a(addend, add_carry).daa().a()) == (decimal_value(m.a())
            + decimal_value(addend) + m.carry_in(add_carry)) % 100,
        m.add_a(addend, add_carry).daa().carry() <==> decimal_value(m.a()) + decimal_value(addend)
            + m.carry_in(add_carry) >= 100,
        m.add_a(addend, add_carry).daa().zero() <==> m.add_a(addend, add_carry).daa().a() == 0,
        !m.add_a(addend, add_carry).daa().half_carry(),
        !m.add_a(addend, add_carry).daa().add_sub(),
{
    let a = m.a();
    let carry = m.carry_in(add_carry);
    let added = m.add_a(addend, add_carry);
    lemma_add_a(m, addend, add_carry);
    let sum = added.a();
    let adjusted = decimal_adjusted(sum, false, added.half_carry(), added.carry());
    let carried = if decimal_carry(sum, false, added.carry()) {
        added.set_carry(true)
    } else {
        added
    };
    lemma_with_carry(added.f(), true);
    lemma_with_zero(carried.f(), adjusted == 0);
    lemma_with_half_carry(carried.set_zero(adjusted == 0).f(), false);
    lemma_decimal_adjusted_sum(a, addend, carry);
}

/// The arithmetic of `lemma_add_then_daa`, on bytes alone.
proof fn lemma_decimal_adjusted_sum(a: u8, b: u8, carry: u8)
    by (bit_vector)
    requires
        is_packed_decimal(a),
        is_packed_decimal(b),
        carry <= 1,
    ensures
        is_packed_decimal(
            decimal_adjusted(
                sum8(a, b, carry),
                false,
                half_carry_add(a, b, carry),
                carry_add(a, b, carry),
            ),
        ),
        decimal_value(
            decimal_adjusted(
                sum8(a, b, carry),
                false,
                half_carry_add(a, b, carry),
                carry_add(a, b, carry),
            ),
        ) == (decimal_value(a) + decimal_value(b) + carry) % 100,
        decimal_carry(sum8(a, b, carry), false, carry_add(a, b, carry)) <==> decimal_value(a)
            + decimal_value(b) + carry >= 100,
{
}

/// Whether the two bytes that a push writes go to memory that keeps them:
/// both addresses lie above ROM space.
pub open spec fn stack_is_writable(m: Machine) -> bool {
    wrap16(m.sp - 1) > ROM_BANK_01_END && wrap16(m.sp - 2) > ROM_BANK_01_END
}

/// The first register of a pair holds the upper byte: B of BC, D of DE, H of
/// HL and A of AF. A word written to a pair is the word read from it.
pub proof fn lemma_first_register_is_upper_byte(m: Machine, value: u16)
    requires
        m.wf(),
    ensures
        m.pair(PAIR_BC as int) == word(m.regs[REG_B as int], m.regs[REG_C as int]),
        m.pair(PAIR_DE as int) == word(m.regs[REG_D as int], m.regs[REG_E as int]),
        m.pair(PAIR_HL as int) == word(m.regs[REG_H as int], m.regs[REG_L as int]),
        m.pair(PAIR_AF as int) == word(m.a(), m.f()),
        m.set_pair(PAIR_AF as int, value).a() == high_byte(value),
        m.set_pair(PAIR_AF as int, value).f() == low_byte(value),
        forall|index: int|
            0 <= index < REGISTER_COUNT - 1 ==> (#[trigger] m.set_pair(index, value)).pair(index)
                == value,
{
}

/// A register pair that is pushed and popped again holds what it held, and
/// the stack pointer is where it was, wherever the stack lies in memory that
/// keeps what is written to it. Of AF the lower half of F comes back as 0: A
/// is pushed as the upper byte and F, with its lower half cleared, as the
/// lower.
pub proof fn lemma_push_pop_rr(m: Machine, index: int)
    requires
        m.wf(),
        0 <= index < REGISTER_COUNT - 1,
        stack_is_writable(m),
    ensures
        m.push_rr(index).sp == wrap16(m.sp - 2),
        m.push_rr(index).pop_rr(index).sp == m.sp,
        m.push_rr(index).mem[wrap16(m.sp - 1) as int] == high_byte(m.pair(index)),
        index != PAIR_AF ==> m.push_rr(index).pop_rr(index).pair(index) == m.pair(index)
            && m.push_rr(index).pop_rr(index).regs == m.regs,
        index == PAIR_AF ==> m.push_rr(index).pop_rr(index).pair(index) == word(
            m.a(),
            m.f() & 0xf0,
        ) && m.push_rr(index).mem[wrap16(m.sp - 2) as int] == m.f() & 0xf0,
{
    let pushed = m.push_rr(index);
    assert(next_address(pushed.sp as int) == wrap16(m.sp - 1));
    if index != PAIR_AF {
        assert(pushed.pop_rr(index).regs =~= m.regs);
    } else {
        lemma_push_pop_af(m);
    }
}

/// AF that is pushed and popped again holds A as it was and F with its lower
/// half cleared, and the stack pointer is where it was, wherever the stack
/// lies in memory that keeps what is written to it.
pub proof fn lemma_push_pop_af(m: Machine)
    requires
        m.wf(),
        stack_is_writable(m),
    ensures
        m.push_af().pop_af().a() == m.a(),
        m.push_af().pop_af().f() == m.f() & 0xf0,
        m.push_af().pop_af().f() & 0x0f == 0,
        m.push_af().pop_af().sp == m.sp,
        forall|i: int|
            0 <= i < REGISTER_COUNT && i != REG_F ==> m.push_af().pop_af().regs[i] == m.regs[i],
{
    let pushed = m.push_af();
    let f = m.f();
    assert(next_address(pushed.sp as int) == wrap16(m.sp - 1));
    assert((f & 0xf0) & 0xf0 == f & 0xf0 && (f & 0xf0) & 0x0f == 0) by (bit_vector);
}

/// A call and the return from it: execution continues where it was, with the
/// stack pointer where it was, wherever the stack lies in memory that keeps
/// what is written to it.
pub proof fn lemma_call_ret(m: Machine, address: u16)
    requires
        m.wf(),
        stack_is_writable(m),
    ensures
        m.call(address).pc == address,
        m.call(address).ret().pc == m.pc,
        m.call(address).ret().sp == m.sp,
{
    let called = m.call(address);
    assert(next_address(called.sp as int) == wrap16(m.sp - 1));
    lemma_word_of_bytes(m.pc);
}

/// The program counter moves before the operation runs. Where the processor
/// executes, the operation of the selected entry runs on a machine whose
/// program counter has moved past the instruction, by the length that the
/// first table gives; all else of that machine but the halted state is as the
/// check for interrupts left it.
pub proof fn lemma_advance_precedes_operation(
    m: Machine,
    unprefixed: Seq<OpcodeView>,
    prefixed: Seq<OpcodeView>,
)
    requires
        m.wf(),
        unprefixed.len() == TABLE_SIZE,
        prefixed.len() == TABLE_SIZE,
        runs(m),
    ensures
        advanced(m, unprefixed).pc == wrap16(m.pc + unprefixed[fetched(m) as int].length),
        advanced(m, unprefixed).mem == m.mem,
        advanced(m, unprefixed).regs == m.regs,
        advanced(m, unprefixed).sp == m.sp,
        after_instruction(m, unprefixed, prefixed) == effect(
            selected(m, unprefixed, prefixed).handler,
            selected(m, unprefixed, prefixed).opcode,
            advanced(m, unprefixed),
        ).feed_timer(selected(m, unprefixed, prefixed).cycles),
{
}

/// The operand of an instruction is what follows its opcode. For an
/// instruction of three bytes at an address, the operation sees the program
/// counter three past that address, and its 16-bit operand is made of the two
/// bytes after the opcode, lower byte first. For one of two bytes it sees the
/// program counter two past the address, and its operand is the byte after
/// the opcode.
pub proof fn lemma_operands_follow_opcode(m: Machine, unprefixed: Seq<OpcodeView>)
    requires
        m.wf(),
        unprefixed.len() == TABLE_SIZE,
    ensures
        unprefixed[fetched(m) as int].length == 3 ==> advanced(m, unprefixed).pc == wrap16(
            m.pc + 3,
        ) && advanced(m, unprefixed).imm16() == word(
            m.mem[wrap16(m.pc + 2) as int],
            m.mem[wrap16(m.pc + 1) as int],
        ),
        unprefixed[fetched(m) as int].length == 2 ==> advanced(m, unprefixed).pc == wrap16(
            m.pc + 2,
        ) && advanced(m, unprefixed).imm8() == m.mem[wrap16(m.pc + 1) as int],
{
}

/// Taking an interrupt switches the servicing of interrupts off, continues
/// at the vector, and clears that interrupt's pending bit and no other.
pub proof fn lemma_take_interrupt(m: Machine, interrupt: u8, vector: u16)
    requires
        m.wf(),
        interrupt < 8,
    ensures
        m.take_interrupt(interrupt, vector).pc == vector,
        !m.take_interrupt(interrupt, vector).ime,
        m.take_interrupt(interrupt, vector).sp == wrap16(m.sp - 2),
        !m.take_interrupt(interrupt, vector).interrupt_pending(interrupt),
        forall|other: u8|
            other < 8 && other != interrupt ==> (m.take_interrupt(
                interrupt,
                vector,
            ).interrupt_pending(other) <==> #[trigger] m.interrupt_pending(other)),
{
    let flags = m.mem[INTERRUPT_FLAG_REG as int];
    let cleared = flags & !bit_mask(interrupt);
    assert(m.take_interrupt(interrupt, vector).mem[INTERRUPT_FLAG_REG as int] == cleared);
    assert(!((flags & !(1u8 << interrupt)) & (1u8 << interrupt) > 0)) by (bit_vector)
        requires
            interrupt < 8,
    ;
    assert forall|other: u8| other < 8 && other != interrupt implies (m.take_interrupt(
        interrupt,
        vector,
    ).interrupt_pending(other) <==> #[trigger] m.interrupt_pending(other)) by {
        assert(((flags & !(1u8 << interrupt)) & (1u8 << other) > 0) <==> (flags & (1u8 << other)
            > 0)) by (bit_vector)
            requires
                interrupt < 8,
                other < 8,
                other != interrupt,
        ;
    }
}

/// With interrupts switched off the check for interrupts changes nothing,
/// whatever is pending.
pub proof fn lemma_pending_stays_latched(m: Machine)
    requires
        !m.ime,
    ensures
        m.check_interrupts() == m,
{
}

/// V-Blank comes before the timer. Where both are requested and interrupts
/// are switched on, the check for interrupts continues at the V-Blank vector,
/// clears the pending bit of V-Blank and leaves that of the timer set.
pub proof fn lemma_v_blank_before_timer(m: Machine)
    requires
        m.wf(),
        m.ime,
        m.interrupt_requested(V_BLANK),
        m.interrupt_requested(TIMER),
    ensures
        m.check_interrupts() == m.take_interrupt(V_BLANK, V_BLANK_ADDR),
        m.check_interrupts().pc == V_BLANK_ADDR,
        !m.check_interrupts().ime,
        !m.check_interrupts().interrupt_pending(V_BLANK),
        m.check_interrupts().interrupt_pending(TIMER),
{
    lemma_take_interrupt(m, V_BLANK, V_BLANK_ADDR);
    assert(m.interrupt_pending(TIMER));
}

/// At most one interrupt is taken by one check: whatever was pending before
/// and is not the one taken is pending after.
pub proof fn lemma_one_interrupt_per_check(m: Machine, other: u8)
    requires
        m.wf(),
        other < 8,
        m.interrupt_pending(other),
    ensures
        m.check_interrupts().interrupt_pending(other) || (m.ime && m.interrupt_requested(other)
            && m.check_interrupts().pc == 0x40 + 8 * other),
{
    lemma_take_interrupt(m, V_BLANK, 0x40);
    lemma_take_interrupt(m, LCD_STAT, 0x48);
    lemma_take_interrupt(m, TIMER, 0x50);
    lemma_take_interrupt(m, SERIAL, 0x58);
    lemma_take_interrupt(m, JOYPAD, 0x60);
}

/// When TIMA counts from 255 it is loaded from TMA, not with 0, and the timer
/// interrupt is requested; TMA and TAC stay.
pub proof fn lemma_counter_reloads(timer: TimerState, cycles: u8)
    requires
        timer.counts(cycles),
        timer.tima == 255,
    ensures
        timer.advance(cycles).tima == timer.tma,
        timer.overflows(cycles),
        timer.advance(cycles).tma == timer.tma,
        timer.advance(cycles).tac == timer.tac,
{
}

/// TIMA changes only when it counts, and the timer interrupt is requested
/// only when TIMA counts from 255.
pub proof fn lemma_counter_counts_when_enabled(timer: TimerState, cycles: u8)
    ensures
        !timer.counts(cycles) ==> timer.advance(cycles).tima == timer.tima && !timer.overflows(
            cycles,
        ),
        !timer.enabled() ==> !timer.counts(cycles),
        timer.counts(cycles) && timer.tima < 255 ==> timer.advance(cycles).tima == timer.tima + 1
            && !timer.overflows(cycles),
{
}

/// An overflow of TIMA leaves the timer interrupt pending, and TIMA holding
/// what TMA holds.
pub proof fn lemma_overflow_requests_interrupt(m: Machine, cycles: u8)
    requires
        m.wf(),
        m.timer().overflows(cycles),
    ensures
        m.feed_timer(cycles).interrupt_pending(TIMER),
        m.feed_timer(cycles).mem[TIMA_ADDR as int] == m.mem[TMA_ADDR as int],
        m.feed_timer(cycles).mem[TMA_ADDR as int] == m.mem[TMA_ADDR as int],
{
    let advanced = m.set_timer(m.timer().advance(cycles));
    let flags = advanced.mem[INTERRUPT_FLAG_REG as int];
    assert((flags | (1u8 << 2u8)) & (1u8 << 2u8) > 0) by (bit_vector);
}

/// The timer is fed after the operation of the instruction. Where TIMA
/// overflows in a step, it is loaded with TMA as the instruction left it,
/// which is TMA as it was before the step unless the instruction wrote TMA,
/// and the timer interrupt is pending after the step.
pub proof fn lemma_step_reloads_counter(
    m: Machine,
    unprefixed: Seq<OpcodeView>,
    prefixed: Seq<OpcodeView>,
)
    requires
        m.wf(),
        operated(m.check_interrupts(), unprefixed, prefixed).timer().overflows(
            cycles_fed(m.check_interrupts(), unprefixed, prefixed),
        ),
    ensures
        step(m, unprefixed, prefixed).interrupt_pending(TIMER),
        step(m, unprefixed, prefixed).mem[TIMA_ADDR as int] == operated(
            m.check_interrupts(),
            unprefixed,
            prefixed,
        ).mem[TMA_ADDR as int],
{
    lemma_step_keeps_shape(m, unprefixed, prefixed);
    lemma_overflow_requests_interrupt(
        operated(m.check_interrupts(), unprefixed, prefixed),
        cycles_fed(m.check_interrupts(), unprefixed, prefixed),
    );
}

/// Every address resolves to one byte. A write above ROM space changes the
/// byte at its address and no other; a write into ROM space changes none.
pub proof fn lemma_write_changes_one_byte(m: Machine, address: int, value: u8, other: int)
    requires
        m.wf(),
        0 <= address < MEMORY_SIZE,
        0 <= other < MEMORY_SIZE,
    ensures
        m.write(address, value).wf(),
        address > ROM_BANK_01_END ==> m.write(address, value).mem[address] == value,
        address <= ROM_BANK_01_END ==> m.write(address, value) == m,
        other != address ==> m.write(address, value).mem[other] == m.mem[other],
        m.write(address, value).regs == m.regs,
{
}

/// In video memory a byte that is written is the byte that is read at the
/// same address, and a write changes no byte at another address: not in the
/// tile block or the tile map next to it either.
pub proof fn lemma_video_write_changes_one_byte(vram: Seq<u8>, address: int, data: u8, other: int)
    requires
        vram.len() == VRAM_SIZE,
        VRAM_START <= address <= VRAM_END,
        VRAM_START <= other <= VRAM_END,
    ensures
        video_byte(with_video_byte(vram, address, data), address) == data,
        other != address ==> video_byte(with_video_byte(vram, address, data), other) == video_byte(
            vram,
            other,
        ),
{
    lemma_video_range(vram, address, data);
    lemma_video_range(with_video_byte(vram, address, data), address, data);
    lemma_video_range(with_video_byte(vram, address, data), other, data);
    lemma_video_range(vram, other, data);
}

} // verus!
