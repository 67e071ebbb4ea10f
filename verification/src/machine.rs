//! The machine as a mathematical value, and every operation of the processor
//! as a function from machine to machine.
//!
//! Memory is the 65536 bytes that the bus reads, whatever device stands behind
//! an address. Registers are the eight slots B, C, D, E, H, L, F, A in this
//! order. A 16-bit pair is named by the slot it starts at, and its first
//! register holds the upper byte: BC, DE and HL are two neighbouring slots in
//! that order. AF starts at slot 6, where the slots stand the other way round:
//! A, in slot 7, is the upper byte of AF and F, in slot 6, the lower.

use vstd::prelude::*;
use crate::alu::{
    bit_mask, carry_add, carry_add16, carry_sub, decimal_adjusted, decimal_carry, difference8,
    half_carry_add, half_carry_add16, half_carry_sub, sum8,
};
use crate::bits::{high_byte, low_byte, signed, word, wrap16};
use crate::flags::{
    add_sub_flag, carry_flag, half_carry_flag, with_add_sub, with_carry, with_half_carry,
    with_zero, zero_flag,
};
use crate::rom::ROM_BANK_01_END;
use crate::timer::{TimerState, TIMER_ADDR_START};

verus! {

pub const REG_B: usize = 0;

pub const REG_C: usize = 1;

pub const REG_D: usize = 2;

pub const REG_E: usize = 3;

pub const REG_H: usize = 4;

pub const REG_L: usize = 5;

pub const REG_F: usize = 6;

pub const REG_A: usize = 7;

pub const PAIR_BC: usize = 0;

pub const PAIR_DE: usize = 2;

pub const PAIR_HL: usize = 4;

pub const PAIR_AF: usize = 6;

/// The number of register slots.
pub const REGISTER_COUNT: usize = 8;

/// The number of addresses on the bus.
pub const MEMORY_SIZE: usize = 0x10000;

pub const V_BLANK: u8 = 0;

pub const LCD_STAT: u8 = 1;

pub const TIMER: u8 = 2;

pub const SERIAL: u8 = 3;

pub const JOYPAD: u8 = 4;

pub const V_BLANK_ADDR: u16 = 0x40;

pub const LCD_STAT_ADDR: u16 = 0x48;

pub const TIMER_ADDR: u16 = 0x50;

pub const SERIAL_ADDR: u16 = 0x58;

pub const JOYPAD_ADDR: u16 = 0x60;

pub const INTERRUPT_ENABLE_REG: usize = 0xffff;

pub const INTERRUPT_FLAG_REG: usize = 0xff0f;

/// The byte that the serial link sends.
pub const SERIAL_DATA_REG: usize = 0xff01;

/// Nonzero while the serial link has a byte to send.
pub const SERIAL_CONTROL_REG: usize = 0xff02;

/// The address after `address`, wrapping from the top of memory to 0.
pub open spec fn next_address(address: int) -> int {
    (address + 1) % (MEMORY_SIZE as int)
}

pub struct Machine {
    pub regs: Seq<u8>,
    pub sp: u16,
    pub pc: u16,
    pub ime: bool,
    pub halted: bool,
    pub mem: Seq<u8>,
    pub source_timer: u8,
    pub div_prescaler: u8,
    pub update_source: u8,
}

impl Machine {
    /// Eight registers and 65536 bytes of memory.
    pub open spec fn wf(self) -> bool {
        self.regs.len() == REGISTER_COUNT && self.mem.len() == MEMORY_SIZE
    }

    /// The machine after power-on: the registers as the boot program leaves
    /// them, the stack at 0xfffe, execution at 0x0100, interrupts off, and
    /// memory zero but for three I/O bytes.
    pub open spec fn power_on() -> Machine {
        Machine {
            regs: seq![0x00u8, 0x13u8, 0x00u8, 0xD8u8, 0x01u8, 0x4Du8, 0xB0u8, 0x01u8],
            sp: 0xfffe,
            pc: 0x0100,
            ime: false,
            halted: false,
            mem: Seq::new(
                MEMORY_SIZE as nat,
                |a: int|
                    if a == 0xff44 {
                        0x90u8
                    } else if a == 0xff00 {
                        0x0fu8
                    } else if a == INTERRUPT_FLAG_REG {
                        0xe0u8
                    } else {
                        0u8
                    },
            ),
            source_timer: 0,
            div_prescaler: 0,
            update_source: 0,
        }
    }

    // Registers
    pub open spec fn a(self) -> u8 {
        self.regs[REG_A as int]
    }

    pub open spec fn f(self) -> u8 {
        self.regs[REG_F as int]
    }

    pub open spec fn set_reg(self, index: int, value: u8) -> Machine {
        Machine { regs: self.regs.update(index, value), ..self }
    }

    pub open spec fn set_a(self, value: u8) -> Machine {
        self.set_reg(REG_A as int, value)
    }

    /// The slot that holds the upper byte of the pair at a slot: the slot
    /// itself, but A for AF.
    pub open spec fn upper_slot(index: int) -> int {
        if index == PAIR_AF {
            REG_A as int
        } else {
            index
        }
    }

    /// The slot that holds the lower byte of the pair at a slot: the slot
    /// after it, but F for AF.
    pub open spec fn lower_slot(index: int) -> int {
        if index == PAIR_AF {
            REG_F as int
        } else {
            index + 1
        }
    }

    /// The pair at a slot: its first register is the upper byte.
    pub open spec fn pair(self, index: int) -> u16 {
        word(self.regs[Self::upper_slot(index)], self.regs[Self::lower_slot(index)])
    }

    pub open spec fn hl(self) -> u16 {
        self.pair(PAIR_HL as int)
    }

    pub open spec fn set_pair_bytes(self, index: int, lsb: u8, msb: u8) -> Machine {
        Machine {
            regs: self.regs.update(Self::upper_slot(index), msb).update(
                Self::lower_slot(index),
                lsb,
            ),
            ..self
        }
    }

    pub open spec fn set_pair(self, index: int, value: u16) -> Machine {
        self.set_pair_bytes(index, low_byte(value), high_byte(value))
    }

    pub open spec fn set_pc(self, pc: u16) -> Machine {
        Machine { pc, ..self }
    }

    pub open spec fn set_sp(self, sp: u16) -> Machine {
        Machine { sp, ..self }
    }

    pub open spec fn set_ime(self, ime: bool) -> Machine {
        Machine { ime, ..self }
    }

    pub open spec fn set_halted(self, halted: bool) -> Machine {
        Machine { halted, ..self }
    }

    // Flags
    pub open spec fn zero(self) -> bool {
        zero_flag(self.f())
    }

    pub open spec fn add_sub(self) -> bool {
        add_sub_flag(self.f())
    }

    pub open spec fn half_carry(self) -> bool {
        half_carry_flag(self.f())
    }

    pub open spec fn carry(self) -> bool {
        carry_flag(self.f())
    }

    pub open spec fn set_zero(self, on: bool) -> Machine {
        self.set_reg(REG_F as int, with_zero(self.f(), on))
    }

    pub open spec fn set_add_sub(self, on: bool) -> Machine {
        self.set_reg(REG_F as int, with_add_sub(self.f(), on))
    }

    pub open spec fn set_half_carry(self, on: bool) -> Machine {
        self.set_reg(REG_F as int, with_half_carry(self.f(), on))
    }

    pub open spec fn set_carry(self, on: bool) -> Machine {
        self.set_reg(REG_F as int, with_carry(self.f(), on))
    }

    /// The carry that an operation takes in: the carry flag where the operation
    /// asks for it, else 0.
    pub open spec fn carry_in(self, wanted: bool) -> u8 {
        if self.carry() && wanted {
            1
        } else {
            0
        }
    }

    /// Whether a condition code holds: 0 not zero, 1 zero, 2 no carry, 3 carry.
    /// No other code holds.
    pub open spec fn condition(self, code: int) -> bool {
        if code == 0 {
            !self.zero()
        } else if code == 1 {
            self.zero()
        } else if code == 2 {
            !self.carry()
        } else if code == 3 {
            self.carry()
        } else {
            false
        }
    }

    // Memory
    pub open spec fn read(self, address: int) -> u8 {
        self.mem[address]
    }

    /// The little-endian word at an address.
    pub open spec fn read_word(self, address: int) -> u16 {
        word(self.mem[next_address(address)], self.mem[address])
    }

    /// The machine after the program writes a byte. A write into ROM space
    /// reaches the bank controller, not memory.
    pub open spec fn write(self, address: int, value: u8) -> Machine {
        if address <= ROM_BANK_01_END {
            self
        } else {
            Machine { mem: self.mem.update(address, value), ..self }
        }
    }

    /// The machine after the program writes a word, lower byte first.
    pub open spec fn write_word(self, address: int, lsb: u8, msb: u8) -> Machine {
        self.write(address, lsb).write(next_address(address), msb)
    }

    /// The machine after a byte of a ROM image is loaded. Outside ROM space
    /// nothing is loaded.
    pub open spec fn load(self, address: int, value: u8) -> Machine {
        if address <= ROM_BANK_01_END {
            Machine { mem: self.mem.update(address, value), ..self }
        } else {
            self
        }
    }

    /// The machine after a ROM image is loaded at address 0. What lies beyond
    /// ROM space is not loaded.
    pub open spec fn load_image(self, image: Seq<u8>) -> Machine {
        Machine {
            mem: Seq::new(
                MEMORY_SIZE as nat,
                |a: int|
                    if a < image.len() && a <= ROM_BANK_01_END {
                        image[a]
                    } else {
                        self.mem[a]
                    },
            ),
            ..self
        }
    }

    /// The address of the last byte of the instruction that is executing. The
    /// program counter has moved past the instruction by then.
    pub open spec fn operand_address(self) -> int {
        wrap16(self.pc - 1) as int
    }

    /// The address of the byte before the last of the instruction that is
    /// executing.
    pub open spec fn first_operand_address(self) -> int {
        wrap16(self.pc - 2) as int
    }

    /// The 8-bit operand of the instruction that is executing.
    pub open spec fn imm8(self) -> u8 {
        self.mem[self.operand_address()]
    }

    /// The 16-bit operand of the instruction that is executing: lower byte
    /// first.
    pub open spec fn imm16(self) -> u16 {
        word(self.mem[self.operand_address()], self.mem[self.first_operand_address()])
    }

    /// The address in the top page that a byte selects.
    pub open spec fn high_page(offset: u8) -> int {
        0xff00 + offset
    }

    // Stack
    /// The machine after two bytes are pushed: the stack pointer moves down
    /// before each write.
    pub open spec fn push_bytes(self, msb: u8, lsb: u8) -> Machine {
        self.write(wrap16(self.sp - 1) as int, msb).write(wrap16(self.sp - 2) as int, lsb).set_sp(
            wrap16(self.sp - 2),
        )
    }

    /// Pushes a pair, upper byte first. Of AF the lower half of F is pushed
    /// as 0.
    pub open spec fn push_rr(self, index: int) -> Machine {
        if index == PAIR_AF {
            self.push_af()
        } else {
            self.push_bytes(self.regs[index], self.regs[index + 1])
        }
    }

    /// Pushes A, then F with its lower half cleared.
    pub open spec fn push_af(self) -> Machine {
        self.push_bytes(self.a(), self.f() & 0xf0)
    }

    /// The byte on top of the stack.
    pub open spec fn stack_low(self) -> u8 {
        self.mem[self.sp as int]
    }

    /// The byte under the top of the stack.
    pub open spec fn stack_high(self) -> u8 {
        self.mem[next_address(self.sp as int)]
    }

    /// Pops a pair, lower byte first. Of AF the lower half of F is cleared.
    pub open spec fn pop_rr(self, index: int) -> Machine {
        if index == PAIR_AF {
            self.pop_af()
        } else {
            self.set_pair_bytes(index, self.stack_low(), self.stack_high()).set_sp(
                wrap16(self.sp + 2),
            )
        }
    }

    /// Pops F, with its lower half cleared, then A.
    pub open spec fn pop_af(self) -> Machine {
        self.set_pair_bytes(PAIR_AF as int, self.stack_low() & 0xf0, self.stack_high()).set_sp(
            wrap16(self.sp + 2),
        )
    }

    /// Pushes the program counter and goes to an address.
    pub open spec fn call(self, address: u16) -> Machine {
        self.push_bytes(high_byte(self.pc), low_byte(self.pc)).set_pc(address)
    }

    /// Pops the program counter.
    pub open spec fn ret(self) -> Machine {
        self.set_pc(word(self.stack_high(), self.stack_low())).set_sp(wrap16(self.sp + 2))
    }

    // Arithmetic and logic on A
    pub open spec fn add_a(self, addend: u8, add_carry: bool) -> Machine {
        let carry = self.carry_in(add_carry);
        let sum = sum8(self.a(), addend, carry);
        self.set_carry(carry_add(self.a(), addend, carry)).set_half_carry(
            half_carry_add(self.a(), addend, carry),
        ).set_reg(REG_A as int, sum).set_zero(sum == 0).set_add_sub(false)
    }

    pub open spec fn sub_a(self, subtrahend: u8, add_borrow: bool) -> Machine {
        let borrow = self.carry_in(add_borrow);
        let difference = difference8(self.a(), subtrahend, borrow);
        self.set_carry(carry_sub(self.a(), subtrahend, borrow)).set_half_carry(
            half_carry_sub(self.a(), subtrahend, borrow),
        ).set_reg(REG_A as int, difference).set_zero(difference == 0).set_add_sub(true)
    }

    /// A subtraction that keeps A.
    pub open spec fn cp_a(self, subtrahend: u8) -> Machine {
        self.sub_a(subtrahend, false).set_reg(REG_A as int, self.a())
    }

    pub open spec fn and_a(self, operand: u8) -> Machine {
        let result = self.a() & operand;
        self.set_reg(REG_A as int, result).set_zero(result == 0).set_add_sub(false).set_half_carry(
            true,
        ).set_carry(false)
    }

    pub open spec fn xor_a(self, operand: u8) -> Machine {
        let result = self.a() ^ operand;
        self.set_reg(REG_A as int, result).set_zero(result == 0).set_add_sub(false).set_half_carry(
            false,
        ).set_carry(false)
    }

    pub open spec fn or_a(self, operand: u8) -> Machine {
        let result = self.a() | operand;
        self.set_reg(REG_A as int, result).set_zero(result == 0).set_add_sub(false).set_half_carry(
            false,
        ).set_carry(false)
    }

    /// Increments a register. The half-carry comes from the old value, the zero
    /// flag from the new one; the carry stays.
    pub open spec fn increment_r(self, index: int) -> Machine {
        let marked = self.set_half_carry(half_carry_add(self.regs[index], 1, 0));
        let sum = sum8(marked.regs[index], 1, 0);
        marked.set_reg(index, sum).set_zero(sum == 0).set_add_sub(false)
    }

    pub open spec fn increment_memory(self, address: int) -> Machine {
        let sum = sum8(self.mem[address], 1, 0);
        self.set_half_carry(half_carry_add(self.mem[address], 1, 0)).set_zero(sum == 0).write(
            address,
            sum,
        ).set_add_sub(false)
    }

    /// Decrements a register. The half-carry comes from the old value, the zero
    /// flag from the new one; the carry stays.
    pub open spec fn decrement_r(self, index: int) -> Machine {
        let marked = self.set_half_carry(half_carry_sub(self.regs[index], 1, 0));
        let difference = difference8(marked.regs[index], 1, 0);
        marked.set_reg(index, difference).set_zero(difference == 0).set_add_sub(true)
    }

    pub open spec fn decrement_memory(self, address: int) -> Machine {
        let difference = difference8(self.mem[address], 1, 0);
        self.set_half_carry(half_carry_sub(self.mem[address], 1, 0)).set_zero(
            difference == 0,
        ).write(address, difference).set_add_sub(true)
    }

    pub open spec fn complement_a(self) -> Machine {
        self.set_reg(REG_A as int, self.a() ^ 0xff).set_add_sub(true).set_half_carry(true)
    }

    /// The accumulator adjusted to two decimal digits.
    pub open spec fn daa(self) -> Machine {
        let adjusted = decimal_adjusted(self.a(), self.add_sub(), self.half_carry(), self.carry());
        let carried = if decimal_carry(self.a(), self.add_sub(), self.carry()) {
            self.set_carry(true)
        } else {
            self
        };
        carried.set_zero(adjusted == 0).set_half_carry(false).set_reg(REG_A as int, adjusted)
    }

    // 16-bit arithmetic
    /// Adds a word to HL. The zero flag stays.
    pub open spec fn add_hl(self, addend: u16) -> Machine {
        self.set_half_carry(half_carry_add16(self.hl(), addend)).set_carry(
            carry_add16(self.hl(), addend),
        ).set_pair(PAIR_HL as int, wrap16(self.hl() + addend)).set_add_sub(false)
    }

    /// The stack pointer moved by the signed operand of the instruction.
    pub open spec fn sp_plus_operand(self) -> u16 {
        wrap16(self.sp + signed(self.imm8()))
    }

    /// The flags after the signed operand is added to the stack pointer. Carry
    /// and half-carry are those of an 8-bit addition of the operand to the
    /// lower byte of the stack pointer.
    pub open spec fn add_sp_flags(self) -> Machine {
        self.set_half_carry(half_carry_add(low_byte(self.sp), self.imm8(), 0)).set_carry(
            carry_add(low_byte(self.sp), self.imm8(), 0),
        ).set_zero(false).set_add_sub(false)
    }

    // Rotates, shifts and bits
    /// The flags after a rotate or shift: the carry is the bit pushed out, the
    /// zero flag follows the result where it is asked for and is cleared where
    /// not.
    pub open spec fn shifted(self, pushed_out: bool, result: u8, check_zero: bool) -> Machine {
        self.set_carry(pushed_out).set_zero(check_zero && result == 0).set_add_sub(
            false,
        ).set_half_carry(false)
    }

    pub open spec fn swapped(self, result: u8) -> Machine {
        self.set_add_sub(false).set_half_carry(false).set_carry(false).set_zero(result == 0)
    }

    pub open spec fn ccf(self) -> Machine {
        self.set_carry(!self.carry()).set_add_sub(false).set_half_carry(false)
    }

    pub open spec fn scf(self) -> Machine {
        self.set_carry(true).set_add_sub(false).set_half_carry(false)
    }

    /// The flags after a bit is tested: zero where the bit is clear.
    pub open spec fn bit_check(self, value: u8, bit: u8) -> Machine {
        self.set_zero(!(value & bit_mask(bit) > 0)).set_add_sub(false).set_half_carry(true)
    }

    // Interrupts
    pub open spec fn interrupt_enabled(self, interrupt: u8) -> bool {
        self.mem[INTERRUPT_ENABLE_REG as int] & bit_mask(interrupt) > 0
    }

    pub open spec fn interrupt_pending(self, interrupt: u8) -> bool {
        self.mem[INTERRUPT_FLAG_REG as int] & bit_mask(interrupt) > 0
    }

    /// Whether an interrupt is both enabled and pending.
    pub open spec fn interrupt_requested(self, interrupt: u8) -> bool {
        self.interrupt_enabled(interrupt) && self.interrupt_pending(interrupt)
    }

    /// The machine after an interrupt is taken: interrupts are switched off,
    /// the program counter is pushed, execution goes to the vector, and the
    /// interrupt is pending no more.
    pub open spec fn take_interrupt(self, interrupt: u8, vector: u16) -> Machine {
        self.set_ime(false).call(vector).write(
            INTERRUPT_FLAG_REG as int,
            self.mem[INTERRUPT_FLAG_REG as int] & !bit_mask(interrupt),
        )
    }

    /// The machine after the check for interrupts that precedes each
    /// instruction. With interrupts switched off nothing happens. Else the
    /// first requested interrupt is taken, in the order V-Blank, LCD status,
    /// timer, serial, joypad; the others stay pending.
    pub open spec fn check_interrupts(self) -> Machine {
        if !self.ime {
            self
        } else if self.interrupt_requested(V_BLANK) {
            self.take_interrupt(V_BLANK, V_BLANK_ADDR)
        } else if self.interrupt_requested(LCD_STAT) {
            self.take_interrupt(LCD_STAT, LCD_STAT_ADDR)
        } else if self.interrupt_requested(TIMER) {
            self.take_interrupt(TIMER, TIMER_ADDR)
        } else if self.interrupt_requested(SERIAL) {
            self.take_interrupt(SERIAL, SERIAL_ADDR)
        } else if self.interrupt_requested(JOYPAD) {
            self.take_interrupt(JOYPAD, JOYPAD_ADDR)
        } else {
            self
        }
    }

    /// The machine with an interrupt made pending.
    pub open spec fn set_interrupt_pending(self, interrupt: u8) -> Machine {
        self.write(
            INTERRUPT_FLAG_REG as int,
            self.mem[INTERRUPT_FLAG_REG as int] | bit_mask(interrupt),
        )
    }

    // Timer
    /// The timer: its registers from memory, its accumulators from the machine.
    pub open spec fn timer(self) -> TimerState {
        TimerState {
            source_timer: self.source_timer,
            div_prescaler: self.div_prescaler,
            update_source: self.update_source,
            div: self.mem[TIMER_ADDR_START + 0],
            tima: self.mem[TIMER_ADDR_START + 1],
            tma: self.mem[TIMER_ADDR_START + 2],
            tac: self.mem[TIMER_ADDR_START + 3],
        }
    }

    /// The machine with its timer replaced.
    pub open spec fn set_timer(self, timer: TimerState) -> Machine {
        Machine {
            source_timer: timer.source_timer,
            div_prescaler: timer.div_prescaler,
            update_source: timer.update_source,
            mem: self.mem.update(TIMER_ADDR_START + 0, timer.div).update(
                TIMER_ADDR_START + 1,
                timer.tima,
            ).update(TIMER_ADDR_START + 2, timer.tma).update(TIMER_ADDR_START + 3, timer.tac),
            ..self
        }
    }

    /// The machine after the timer has been fed the cycles of an instruction:
    /// the timer advances, and where TIMA overflows the timer interrupt
    /// becomes pending.
    pub open spec fn feed_timer(self, cycles: u8) -> Machine {
        let advanced = self.set_timer(self.timer().advance(cycles));
        if self.timer().overflows(cycles) {
            advanced.set_interrupt_pending(TIMER)
        } else {
            advanced
        }
    }

    // Serial link
    /// Whether the serial link has a byte to send.
    pub open spec fn serial_ready(self) -> bool {
        self.mem[SERIAL_CONTROL_REG as int] > 0
    }

    /// The machine after the byte of the serial link has been taken.
    pub open spec fn serial_taken(self) -> Machine {
        self.write(SERIAL_CONTROL_REG as int, 0)
    }
}

} // verus!
