//! The processor core: the register file, the memory bus with the devices
//! behind it, and the operations that the instructions are made of.
//!
//! A `Cpu` is viewed as a [`Machine`]. Each method states the machine that it
//! leads to, as a function of the machine before.

use vstd::prelude::*;
use crate::bits::{displace, lower, make_word, upper, wrap16};
use crate::flags::{
    lemma_with_add_sub, lemma_with_carry, lemma_with_half_carry, lemma_with_zero, F_ADD_SUB_CLR,
    F_ADD_SUB_SET, F_CARRY_CLR, F_CARRY_SET, F_FLAG_MASK, F_HALF_CARRY_CLR, F_HALF_CARRY_SET,
    F_ZERO_CLR, F_ZERO_SET,
};
use crate::machine::{
    Machine, INTERRUPT_ENABLE_REG, INTERRUPT_FLAG_REG, JOYPAD, JOYPAD_ADDR, LCD_STAT,
    LCD_STAT_ADDR, MEMORY_SIZE, PAIR_AF, PAIR_BC, PAIR_DE, PAIR_HL, REGISTER_COUNT, REG_A, REG_B,
    REG_C, REG_D, REG_E, REG_F, REG_H, REG_L, SERIAL, SERIAL_ADDR, SERIAL_CONTROL_REG,
    SERIAL_DATA_REG, TIMER, TIMER_ADDR, V_BLANK, V_BLANK_ADDR,
};
use crate::memory_bank_controller::Mcb;
use crate::ppu::{lemma_video_range, Lcd, LcdState, LCD_ADDR_END, LCD_ADDR_START, LCD_Y_REG};
use crate::rom::{ROM_BANK_00_END, ROM_BANK_01_END, ROM_BANK_01_START};
use crate::timer::{is_timer_address, Timer, TimerState, TIMER_ADDR_END, TIMER_ADDR_START};
use crate::vram::{VRAM_END, VRAM_START};

verus! {

/// The 8-bit registers, in the order of their slots.
#[derive(Copy, Clone)]
pub enum Reg8bit {
    B,
    C,
    D,
    E,
    H,
    L,
    F,
    A,
}

impl Reg8bit {
    /// The slot of the register.
    pub open spec fn slot(self) -> int {
        match self {
            Reg8bit::B => REG_B as int,
            Reg8bit::C => REG_C as int,
            Reg8bit::D => REG_D as int,
            Reg8bit::E => REG_E as int,
            Reg8bit::H => REG_H as int,
            Reg8bit::L => REG_L as int,
            Reg8bit::F => REG_F as int,
            Reg8bit::A => REG_A as int,
        }
    }

    pub fn index(self) -> (index: usize)
        ensures
            index == self.slot(),
            index < REGISTER_COUNT,
    {
        match self {
            Reg8bit::B => REG_B,
            Reg8bit::C => REG_C,
            Reg8bit::D => REG_D,
            Reg8bit::E => REG_E,
            Reg8bit::H => REG_H,
            Reg8bit::L => REG_L,
            Reg8bit::F => REG_F,
            Reg8bit::A => REG_A,
        }
    }
}

/// The 16-bit register pairs.
#[derive(Copy, Clone)]
pub enum Reg16bit {
    BC,
    DE,
    HL,
    AF,
}

impl Reg16bit {
    /// The slot of the pair's first register.
    pub open spec fn slot(self) -> int {
        match self {
            Reg16bit::BC => PAIR_BC as int,
            Reg16bit::DE => PAIR_DE as int,
            Reg16bit::HL => PAIR_HL as int,
            Reg16bit::AF => PAIR_AF as int,
        }
    }

    pub fn index(self) -> (index: usize)
        ensures
            index == self.slot(),
            index + 1 < REGISTER_COUNT,
    {
        match self {
            Reg16bit::BC => PAIR_BC,
            Reg16bit::DE => PAIR_DE,
            Reg16bit::HL => PAIR_HL,
            Reg16bit::AF => PAIR_AF,
        }
    }
}

/// The byte that the bus reads at an address, from what the devices hold. The
/// ranges are tested in the order of the bus, and no two of them overlap.
pub open spec fn bus_byte(
    bank_00: Seq<u8>,
    bank_n: Seq<u8>,
    timer: TimerState,
    lcd: LcdState,
    ram: Seq<u8>,
    address: int,
) -> u8 {
    if address <= ROM_BANK_00_END {
        bank_00[address]
    } else if address <= ROM_BANK_01_END {
        bank_n[address - ROM_BANK_01_START]
    } else if is_timer_address(address) {
        timer.read(address)
    } else if VRAM_START <= address <= VRAM_END {
        lcd.vram[address - VRAM_START]
    } else if LCD_ADDR_START <= address <= LCD_ADDR_END {
        lcd.registers[address - LCD_ADDR_START]
    } else {
        ram[address]
    }
}

/// Memory as the bus reads it.
pub open spec fn bus_view(
    bank_00: Seq<u8>,
    bank_n: Seq<u8>,
    timer: TimerState,
    lcd: LcdState,
    ram: Seq<u8>,
) -> Seq<u8> {
    Seq::new(MEMORY_SIZE as nat, |address: int| bus_byte(bank_00, bank_n, timer, lcd, ram, address))
}

/// An image reaches the end of video memory at this size, and is refused.
pub const ROM_IMAGE_LIMIT: usize = 0x9fff;

/// Why a ROM image was not loaded.
#[derive(Copy, Clone, Debug, PartialEq, Eq, Structural)]
pub enum LoadError {
    /// The image has this many bytes, which is `ROM_IMAGE_LIMIT` or more.
    ImageTooLarge(usize),
}

/// The values that a diagnostic log shows of a processor.
#[derive(Copy, Clone, Debug)]
pub struct CpuSnapshot {
    /// B, C, D, E, H, L, F, A.
    pub registers: [u8; 8],
    pub sp: u16,
    pub pc: u16,
    /// The bytes at the program counter and the three addresses after it.
    pub next_bytes: [u8; 4],
}

pub struct Cpu {
    // B C D E H L F A
    registers: [u8; 8],
    sp: u16,
    pc: u16,
    timer: Timer,
    mcb: Mcb,
    lcd: Lcd,
    memory: [u8; 0x10000],
    ime: bool,
    halt: bool,
}

impl View for Cpu {
    type V = Machine;

    closed spec fn view(&self) -> Machine {
        Machine {
            regs: self.registers@,
            sp: self.sp,
            pc: self.pc,
            ime: self.ime,
            halted: self.halt,
            mem: bus_view(
                self.mcb.bank_00(),
                self.mcb.bank_n(),
                self.timer@,
                self.lcd@,
                self.memory@,
            ),
            source_timer: self.timer@.source_timer,
            div_prescaler: self.timer@.div_prescaler,
            update_source: self.timer@.update_source,
        }
    }
}

impl Cpu {
    /// The view of a processor always has eight registers and 65536 bytes.
    pub proof fn lemma_wf(&self)
        ensures
            self@.wf(),
    {
    }

    pub fn new() -> (cpu: Cpu)
        ensures
            cpu@ == Machine::power_on(),
    {
        let mut cpu = Cpu {
            registers: [0x00, 0x13, 0x00, 0xD8, 0x01, 0x4D, 0xB0, 0x01],
            sp: 0xfffe,
            pc: 0x0100,
            timer: Timer::new(),
            mcb: Mcb::new(),
            lcd: Lcd::new(),
            memory: [0; 0x10000],
            ime: false,
            halt: false,
        };

        cpu.write_memory(LCD_Y_REG, 0x90);
        cpu.write_memory(0xff00, 0x0f);
        cpu.write_memory(INTERRUPT_ENABLE_REG, 0x00);
        cpu.write_memory(INTERRUPT_FLAG_REG, 0xe0);

        proof {
            assert(cpu@.regs =~= Machine::power_on().regs);
            assert(cpu@.mem =~= Machine::power_on().mem);
        }
        cpu
    }

    #[inline]
    pub fn write_reg8(&mut self, index: usize, n: u8)
        requires
            index < REGISTER_COUNT,
        ensures
            final(self)@ == old(self)@.set_reg(index as int, n),
    {
        self.registers[index] = n;
    }

    #[inline]
    pub fn write_reg8_with_reg8(&mut self, y: usize, z: usize)
        requires
            y < REGISTER_COUNT,
            z < REGISTER_COUNT,
        ensures
            final(self)@ == old(self)@.set_reg(y as int, old(self)@.regs[z as int]),
    {
        self.registers[y] = self.registers[z];
    }

    #[inline]
    pub fn read_reg8(&self, y: usize) -> (n: u8)
        requires
            y < REGISTER_COUNT,
        ensures
            n == self@.regs[y as int],
    {
        self.registers[y]
    }

    /// Reads the register pair at a slot. The first register of the pair is
    /// the upper byte: of AF, at slot 6, that is A.
    #[inline]
    pub fn read_reg16(&self, reg_16: usize) -> (nn: u16)
        requires
            reg_16 + 1 < REGISTER_COUNT,
        ensures
            nn == self@.pair(reg_16 as int),
    {
        if reg_16 == PAIR_AF {
            make_word(self.registers[REG_A], self.registers[REG_F])
        } else {
            make_word(self.registers[reg_16], self.registers[reg_16 + 1])
        }
    }

    /// Writes the register pair at a slot: the upper byte goes to the first
    /// register of the pair, which of AF is A.
    #[inline]
    pub fn write_reg16(&mut self, reg_16: usize, nn: u16)
        requires
            reg_16 + 1 < REGISTER_COUNT,
        ensures
            final(self)@ == old(self)@.set_pair(reg_16 as int, nn),
    {
        let msb = upper(nn);
        let lsb = lower(nn);
        self.write_reg16_fast(reg_16, lsb, msb);
    }

    /// Writes the two bytes of the register pair at a slot: `msb` goes to the
    /// first register of the pair, which of AF is A.
    #[inline]
    pub fn write_reg16_fast(&mut self, reg_16: usize, lsb: u8, msb: u8)
        requires
            reg_16 + 1 < REGISTER_COUNT,
        ensures
            final(self)@ == old(self)@.set_pair_bytes(reg_16 as int, lsb, msb),
    {
        if reg_16 == PAIR_AF {
            self.registers[REG_A] = msb;
            self.registers[REG_F] = lsb;
        } else {
            self.registers[reg_16] = msb;
            self.registers[reg_16 + 1] = lsb;
        }
    }

    #[inline]
    pub fn read_pc(&self) -> (pc: u16)
        ensures
            pc == self@.pc,
    {
        self.pc
    }

    #[inline]
    pub fn write_pc(&mut self, nn: u16)
        ensures
            final(self)@ == old(self)@.set_pc(nn),
    {
        self.pc = nn;
    }

    #[inline]
    pub fn write_sp(&mut self, nn: u16)
        ensures
            final(self)@ == old(self)@.set_sp(nn),
    {
        self.sp = nn;
    }

    #[inline]
    pub fn read_sp(&self) -> (sp: u16)
        ensures
            sp == self@.sp,
    {
        self.sp
    }

    /// Loads a byte of a ROM image into the bank that its offset falls in.
    pub fn load_read_only_data(&mut self, index: usize, data: u8)
        ensures
            final(self)@ == old(self)@.load(index as int, data),
    {
        proof {
            self.mcb.lemma_len();
        }
        if index <= ROM_BANK_00_END {
            self.mcb.write_bank_00(index, data);
        } else if index <= ROM_BANK_01_END {
            self.mcb.write_bank_n(index, data);
        }
        proof {
            if index <= ROM_BANK_01_END {
                assert(final(self)@.mem =~= old(self)@.mem.update(index as int, data));
            }
        }
    }

    /// Writes a byte through the bus.
    #[inline]
    pub fn write_memory(&mut self, index: usize, n: u8)
        requires
            index < MEMORY_SIZE,
        ensures
            final(self)@ == old(self)@.write(index as int, n),
    {
        proof {
            self.lcd.lemma_wf();
        }
        if index <= ROM_BANK_01_END {
            self.mcb.change_bank();
        } else if index >= TIMER_ADDR_START && index <= TIMER_ADDR_END {
            self.timer.write_memory(index, n);
        } else if index >= VRAM_START && index <= VRAM_END {
            self.lcd.write_vram(index, n);
            proof {
                lemma_video_range(old(self).lcd@.vram, index as int, n);
            }
        } else if index >= LCD_ADDR_START && index <= LCD_ADDR_END {
            self.lcd.write_register(index, n);
        } else {
            self.memory[index] = n;
        }
        proof {
            if index > ROM_BANK_01_END {
                assert(final(self)@.mem =~= old(self)@.mem.update(index as int, n));
            }
        }
    }

    /// Reads a byte through the bus.
    #[inline]
    pub fn read_memory(&self, index: usize) -> (n: u8)
        requires
            index < MEMORY_SIZE,
        ensures
            n == self@.read(index as int),
    {
        if index <= ROM_BANK_00_END {
            self.mcb.read_bank_00(index)
        } else if index <= ROM_BANK_01_END {
            self.mcb.read_bank_n(index)
        } else if index >= TIMER_ADDR_START && index <= TIMER_ADDR_END {
            self.timer.read_memory(index)
        } else if index >= VRAM_START && index <= VRAM_END {
            proof {
                lemma_video_range(self.lcd@.vram, index as int, 0);
            }
            self.lcd.read_vram(index)
        } else if index >= LCD_ADDR_START && index <= LCD_ADDR_END {
            self.lcd.read_register(index)
        } else {
            self.memory[index]
        }
    }

    /// Reads a little-endian word through the bus. The upper byte of a word at
    /// the last address is the byte at address 0.
    #[inline]
    pub fn read_memory_nn(&self, index: usize) -> (nn: u16)
        requires
            index < MEMORY_SIZE,
        ensures
            nn == self@.read_word(index as int),
    {
        let msb = self.read_memory((index + 1) % MEMORY_SIZE);
        let lsb = self.read_memory(index);
        make_word(msb, lsb)
    }

    /// Writes a word through the bus, lower byte first.
    #[inline]
    pub fn write_memory_n_n(&mut self, index: usize, lsb: u8, msb: u8)
        requires
            index < MEMORY_SIZE,
        ensures
            final(self)@ == old(self)@.write_word(index as int, lsb, msb),
    {
        self.write_memory(index, lsb);
        self.write_memory((index + 1) % MEMORY_SIZE, msb);
    }

    #[inline]
    pub fn get_zero_flag(&self) -> (on: bool)
        ensures
            on == self@.zero(),
    {
        (self.registers[REG_F] & F_ZERO_SET) > 0
    }

    #[inline]
    pub fn get_carry_flag(&self) -> (on: bool)
        ensures
            on == self@.carry(),
    {
        (self.registers[REG_F] & F_CARRY_SET) > 0
    }

    #[inline]
    pub fn get_half_carry_flag(&self) -> (on: bool)
        ensures
            on == self@.half_carry(),
    {
        (self.registers[REG_F] & F_HALF_CARRY_SET) > 0
    }

    #[inline]
    pub fn get_add_sub_flag(&self) -> (on: bool)
        ensures
            on == self@.add_sub(),
    {
        (self.registers[REG_F] & F_ADD_SUB_SET) > 0
    }

    pub fn enable_interupts(&mut self)
        ensures
            final(self)@ == old(self)@.set_ime(true),
    {
        self.ime = true;
    }

    pub fn disable_interupts(&mut self)
        ensures
            final(self)@ == old(self)@.set_ime(false),
    {
        self.ime = false;
    }

    /// Whether servicing of interrupts is switched on.
    pub fn interrupts_enabled(&self) -> (ime: bool)
        ensures
            ime == self@.ime,
    {
        self.ime
    }

    /// Whether the processor is halted.
    pub fn is_halted(&self) -> (halted: bool)
        ensures
            halted == self@.halted,
    {
        self.halt
    }

    /// Pushes a register pair: the first register of the pair, then the second.
    /// AF is pushed as `push_af` pushes it.
    pub fn push_rr(&mut self, reg_16: Reg16bit)
        ensures
            final(self)@ == old(self)@.push_rr(reg_16.slot()),
    {
        match reg_16 {
            Reg16bit::AF => self.push_af(),
            _ => {
                let index = reg_16.index();
                self.sp = self.sp.wrapping_sub(1);
                self.write_memory(self.sp as usize, self.registers[index]);
                self.sp = self.sp.wrapping_sub(1);
                self.write_memory(self.sp as usize, self.registers[index + 1]);
            },
        }
    }

    /// Pushes A, then F with its lower four bits cleared.
    pub fn push_af(&mut self)
        ensures
            final(self)@ == old(self)@.push_af(),
    {
        self.sp = self.sp.wrapping_sub(1);
        self.write_memory(self.sp as usize, self.registers[REG_A]);

        self.sp = self.sp.wrapping_sub(1);
        self.write_memory(self.sp as usize, self.registers[REG_F] & 0xf0);
    }

    /// Pops a register pair: the second register of the pair, then the first.
    /// AF is popped as `pop_af` pops it.
    pub fn pop_rr(&mut self, reg_16: Reg16bit)
        ensures
            final(self)@ == old(self)@.pop_rr(reg_16.slot()),
    {
        match reg_16 {
            Reg16bit::AF => self.pop_af(),
            _ => {
                let lsb = self.read_memory(self.sp as usize);
                let msb = self.read_memory(self.sp.wrapping_add(1) as usize);
                self.write_reg16_fast(reg_16.index(), lsb, msb);
                self.sp = self.sp.wrapping_add(2);
            },
        }
    }

    /// Pops F, with its lower four bits cleared, then A.
    pub fn pop_af(&mut self)
        ensures
            final(self)@ == old(self)@.pop_af(),
    {
        let a = self.read_memory(self.sp.wrapping_add(1) as usize);
        let f = self.read_memory(self.sp as usize) & 0xf0;
        self.write_reg16_fast(PAIR_AF, f, a);
        self.sp = self.sp.wrapping_add(2);
    }

    /// The 8-bit operand of the instruction that is executing.
    pub fn read_operand(&self) -> (n: u8)
        ensures
            n == self@.imm8(),
    {
        self.read_memory(self.pc.wrapping_sub(1) as usize)
    }

    /// The first byte of the 16-bit operand of the instruction that is
    /// executing: the operand's lower byte.
    pub fn read_first_operand(&self) -> (n: u8)
        ensures
            n == self@.mem[self@.first_operand_address()],
    {
        self.read_memory(self.pc.wrapping_sub(2) as usize)
    }

    /// The 16-bit operand of the instruction that is executing.
    pub fn read_operand_nn(&self) -> (nn: u16)
        ensures
            nn == self@.imm16(),
    {
        let msb = self.read_operand();
        let lsb = self.read_first_operand();
        make_word(msb, lsb)
    }

    fn add_a(&mut self, addend: u8, add_carry: bool)
        ensures
            final(self)@ == old(self)@.add_a(addend, add_carry),
            final(self)@.f() & 0x0f == 0,
    {
        let carry_flag = self.registers[REG_F] & F_CARRY_SET > 0;
        let carry_value: u8 = if carry_flag && add_carry {
            1
        } else {
            0
        };

        self.check_for_carry(self.registers[REG_A], addend, carry_value);
        self.check_for_half_carry(self.registers[REG_A], addend, carry_value);

        self.registers[REG_A] = self.registers[REG_A].wrapping_add(addend).wrapping_add(
            carry_value,
        );

        self.zero_check_reg(REG_A);
        self.clear_add_sub_flag();
    }

    /// Adds a register to A; with `add_carry`, the carry flag too.
    pub fn add_a_r(&mut self, reg_index: usize, add_carry: bool)
        requires
            reg_index < REGISTER_COUNT,
        ensures
            final(self)@ == old(self)@.add_a(old(self)@.regs[reg_index as int], add_carry),
            final(self)@.f() & 0x0f == 0,
    {
        let addend = self.registers[reg_index];
        self.add_a(addend, add_carry);
    }

    /// Adds the byte at HL to A; with `add_carry`, the carry flag too.
    pub fn add_a_hl(&mut self, add_carry: bool)
        ensures
            final(self)@ == old(self)@.add_a(old(self)@.mem[old(self)@.hl() as int], add_carry),
            final(self)@.f() & 0x0f == 0,
    {
        let mem_index = self.read_reg16(PAIR_HL) as usize;
        let addend = self.read_memory(mem_index);
        self.add_a(addend, add_carry);
    }

    /// Adds the operand to A; with `add_carry`, the carry flag too.
    pub fn add_a_n(&mut self, add_carry: bool)
        ensures
            final(self)@ == old(self)@.add_a(old(self)@.imm8(), add_carry),
            final(self)@.f() & 0x0f == 0,
    {
        let addend = self.read_operand();
        self.add_a(addend, add_carry);
    }

    fn sub_a(&mut self, subtrahend: u8, add_barrow: bool)
        ensures
            final(self)@ == old(self)@.sub_a(subtrahend, add_barrow),
            final(self)@.f() & 0x0f == 0,
    {
        let carry_flag = self.registers[REG_F] & F_CARRY_SET > 0;
        let barrow_value: u8 = if carry_flag && add_barrow {
            1
        } else {
            0
        };

        self.check_for_carry_sub(subtrahend, barrow_value);
        self.check_for_half_carry_sub(self.registers[REG_A], subtrahend, barrow_value);

        self.registers[REG_A] = self.registers[REG_A].wrapping_sub(subtrahend).wrapping_sub(
            barrow_value,
        );

        self.zero_check_reg(REG_A);
        self.set_add_sub_flag();
    }

    /// Subtracts a register from A; with `add_barrow`, the carry flag too.
    pub fn sub_a_r(&mut self, reg_index: usize, add_barrow: bool)
        requires
            reg_index < REGISTER_COUNT,
        ensures
            final(self)@ == old(self)@.sub_a(old(self)@.regs[reg_index as int], add_barrow),
            final(self)@.f() & 0x0f == 0,
    {
        let subtrahend = self.registers[reg_index];
        self.sub_a(subtrahend, add_barrow);
    }

    /// Subtracts the byte at HL from A; with `add_barrow`, the carry flag too.
    pub fn sub_a_hl(&mut self, add_barrow: bool)
        ensures
            final(self)@ == old(self)@.sub_a(old(self)@.mem[old(self)@.hl() as int], add_barrow),
            final(self)@.f() & 0x0f == 0,
    {
        let mem_index = self.read_reg16(PAIR_HL) as usize;
        let subtrahend = self.read_memory(mem_index);
        self.sub_a(subtrahend, add_barrow);
    }

    /// Subtracts the operand from A; with `add_barrow`, the carry flag too.
    pub fn sub_a_n(&mut self, add_barrow: bool)
        ensures
            final(self)@ == old(self)@.sub_a(old(self)@.imm8(), add_barrow),
            final(self)@.f() & 0x0f == 0,
    {
        let subtrahend = self.read_operand();
        self.sub_a(subtrahend, add_barrow);
    }

    fn and_a(&mut self, operand: u8)
        ensures
            final(self)@ == old(self)@.and_a(operand),
            final(self)@.f() & 0x0f == 0,
    {
        self.registers[REG_A] = self.registers[REG_A] & operand;

        self.zero_check_reg(REG_A);
        self.clear_add_sub_flag();
        self.set_half_carry_flag();
        self.clear_carry_flag();
    }

    pub fn and_a_r(&mut self, reg_index: usize)
        requires
            reg_index < REGISTER_COUNT,
        ensures
            final(self)@ == old(self)@.and_a(old(self)@.regs[reg_index as int]),
            final(self)@.f() & 0x0f == 0,
    {
        let operand = self.registers[reg_index];
        self.and_a(operand);
    }

    pub fn and_a_n(&mut self)
        ensures
            final(self)@ == old(self)@.and_a(old(self)@.imm8()),
            final(self)@.f() & 0x0f == 0,
    {
        let operand = self.read_operand();
        self.and_a(operand);
    }

    pub fn and_a_hl(&mut self)
        ensures
            final(self)@ == old(self)@.and_a(old(self)@.mem[old(self)@.hl() as int]),
            final(self)@.f() & 0x0f == 0,
    {
        let index = self.read_reg16(PAIR_HL) as usize;
        let operand = self.read_memory(index);
        self.and_a(operand);
    }

    fn xor_a(&mut self, operand: u8)
        ensures
            final(self)@ == old(self)@.xor_a(operand),
            final(self)@.f() & 0x0f == 0,
    {
        self.registers[REG_A] = self.registers[REG_A] ^ operand;

        self.zero_check_reg(REG_A);
        self.clear_add_sub_flag();
        self.clear_half_carry_flag();
        self.clear_carry_flag();
    }

    pub fn xor_a_r(&mut self, reg_index: usize)
        requires
            reg_index < REGISTER_COUNT,
        ensures
            final(self)@ == old(self)@.xor_a(old(self)@.regs[reg_index as int]),
            final(self)@.f() & 0x0f == 0,
    {
        let operand = self.registers[reg_index];
        self.xor_a(operand);
    }

    pub fn xor_a_n(&mut self)
        ensures
            final(self)@ == old(self)@.xor_a(old(self)@.imm8()),
            final(self)@.f() & 0x0f == 0,
    {
        let operand = self.read_operand();
        self.xor_a(operand);
    }

    pub fn xor_a_hl(&mut self)
        ensures
            final(self)@ == old(self)@.xor_a(old(self)@.mem[old(self)@.hl() as int]),
            final(self)@.f() & 0x0f == 0,
    {
        let index = self.read_reg16(PAIR_HL) as usize;
        let operand = self.read_memory(index);
        self.xor_a(operand);
    }

    fn or_a(&mut self, operand: u8)
        ensures
            final(self)@ == old(self)@.or_a(operand),
            final(self)@.f() & 0x0f == 0,
    {
        self.registers[REG_A] = self.registers[REG_A] | operand;

        self.zero_check_reg(REG_A);
        self.clear_add_sub_flag();
        self.clear_half_carry_flag();
        self.clear_carry_flag();
    }

    pub fn or_a_r(&mut self, reg_index: usize)
        requires
            reg_index < REGISTER_COUNT,
        ensures
            final(self)@ == old(self)@.or_a(old(self)@.regs[reg_index as int]),
            final(self)@.f() & 0x0f == 0,
    {
        let operand = self.registers[reg_index];
        self.or_a(operand);
    }

    pub fn or_a_n(&mut self)
        ensures
            final(self)@ == old(self)@.or_a(old(self)@.imm8()),
            final(self)@.f() & 0x0f == 0,
    {
        let operand = self.read_operand();
        self.or_a(operand);
    }

    pub fn or_a_hl(&mut self)
        ensures
            final(self)@ == old(self)@.or_a(old(self)@.mem[old(self)@.hl() as int]),
            final(self)@.f() & 0x0f == 0,
    {
        let index = self.read_reg16(PAIR_HL) as usize;
        let operand = self.read_memory(index);
        self.or_a(operand);
    }

    pub fn increment_r(&mut self, y: usize)
        requires
            y < REGISTER_COUNT,
        ensures
            final(self)@ == old(self)@.increment_r(y as int),
            final(self)@.f() & 0x0f == 0,
    {
        self.check_for_half_carry(self.registers[y], 1, 0);
        self.registers[y] = self.registers[y].wrapping_add(1);

        self.zero_check_reg(y);
        self.clear_add_sub_flag();
    }

    pub fn increment_memory(&mut self, memory_index: usize)
        requires
            memory_index < MEMORY_SIZE,
        ensures
            final(self)@ == old(self)@.increment_memory(memory_index as int),
            final(self)@.f() & 0x0f == 0,
    {
        let addend = self.read_memory(memory_index);
        self.check_for_half_carry(addend, 1, 0);
        let sum = addend.wrapping_add(1);

        self.check_value_for_zero(sum);
        self.write_memory(memory_index, sum);

        self.clear_add_sub_flag();
    }

    pub fn decrement_r(&mut self, y: usize)
        requires
            y < REGISTER_COUNT,
        ensures
            final(self)@ == old(self)@.decrement_r(y as int),
            final(self)@.f() & 0x0f == 0,
    {
        self.check_for_half_carry_sub(self.registers[y], 1, 0);
        self.registers[y] = self.registers[y].wrapping_sub(1);

        self.zero_check_reg(y);
        self.set_add_sub_flag();
    }

    pub fn decrement_memory(&mut self, memory_index: usize)
        requires
            memory_index < MEMORY_SIZE,
        ensures
            final(self)@ == old(self)@.decrement_memory(memory_index as int),
            final(self)@.f() & 0x0f == 0,
    {
        let minuend = self.read_memory(memory_index);
        self.check_for_half_carry_sub(minuend, 1, 0);
        let difference = minuend.wrapping_sub(1);

        self.check_value_for_zero(difference);
        self.write_memory(memory_index, difference);

        self.set_add_sub_flag();
    }

    /// Flips every bit of A.
    pub fn complement_a(&mut self)
        ensures
            final(self)@ == old(self)@.complement_a(),
            final(self)@.f() & 0x0f == 0,
    {
        self.registers[REG_A] = self.registers[REG_A] ^ 0xff;
        self.set_add_sub_flag();
        self.set_half_carry_flag();
    }

    fn add_hl(&mut self, addend: u16)
        ensures
            final(self)@ == old(self)@.add_hl(addend),
            final(self)@.f() & 0x0f == 0,
    {
        let hl = self.read_reg16(PAIR_HL);
        let sum = hl.wrapping_add(addend);

        self.check_for_half_carry_16bit(hl, addend);
        self.check_for_carry_16bit(addend);

        self.write_reg16(PAIR_HL, sum);

        self.clear_add_sub_flag();
    }

    pub fn add_hl_rr(&mut self, register_index: usize)
        requires
            register_index + 1 < REGISTER_COUNT,
        ensures
            final(self)@ == old(self)@.add_hl(old(self)@.pair(register_index as int)),
            final(self)@.f() & 0x0f == 0,
    {
        let addend = self.read_reg16(register_index);
        self.add_hl(addend);
    }

    pub fn add_hl_sp(&mut self)
        ensures
            final(self)@ == old(self)@.add_hl(old(self)@.sp),
            final(self)@.f() & 0x0f == 0,
    {
        let addend = self.sp;
        self.add_hl(addend);
    }

    pub fn increment_sp(&mut self)
        ensures
            final(self)@ == old(self)@.set_sp(wrap16(old(self)@.sp + 1)),
    {
        self.sp = self.sp.wrapping_add(1);
    }

    pub fn decrement_sp(&mut self)
        ensures
            final(self)@ == old(self)@.set_sp(wrap16(old(self)@.sp - 1)),
    {
        self.sp = self.sp.wrapping_sub(1);
    }

    /// Adjusts A to two decimal digits after an addition or a subtraction of
    /// two such numbers.
    pub fn daa(&mut self)
        ensures
            final(self)@ == old(self)@.daa(),
            final(self)@.f() & 0x0f == 0,
    {
        let mut reg_a = self.read_reg8(REG_A);

        proof {
            lemma_with_carry(self@.f(), true);
        }
        if !self.get_add_sub_flag() {
            if self.get_carry_flag() || reg_a > 0x99 {
                reg_a = reg_a.wrapping_add(0x60);
                self.set_carry_flag();
            }
            if self.get_half_carry_flag() || reg_a & 0x0f > 0x09 {
                reg_a = reg_a.wrapping_add(0x06);
            }
        } else {
            if self.get_carry_flag() {
                reg_a = reg_a.wrapping_sub(0x60);
            }
            if self.get_half_carry_flag() {
                reg_a = reg_a.wrapping_sub(0x06);
            }
        }

        self.check_value_for_zero(reg_a);
        self.clear_half_carry_flag();

        self.write_reg8(REG_A, reg_a);
    }

    /// Sets the flags for the stack pointer plus the signed operand, and
    /// returns that sum. The stack pointer stays.
    pub fn add_sp_dd(&mut self) -> (sum: u16)
        ensures
            sum == old(self)@.sp_plus_operand(),
            final(self)@ == old(self)@.add_sp_flags(),
            final(self)@.f() & 0x0f == 0,
    {
        let addend = self.read_operand();

        self.check_for_half_carry(lower(self.sp), addend, 0);
        self.check_for_carry(lower(self.sp), addend, 0);

        let sum = displace(self.sp, addend);

        self.clear_zero_flag();
        self.clear_add_sub_flag();

        sum
    }

    fn shifted(&mut self, pushed_out: bool, result: u8, check_zero: bool)
        ensures
            final(self)@ == old(self)@.shifted(pushed_out, result, check_zero),
            final(self)@.f() & 0x0f == 0,
    {
        if pushed_out {
            self.set_carry_flag()
        } else {
            self.clear_carry_flag()
        }
        if check_zero {
            self.zero_check_u8(result);
        } else {
            self.clear_zero_flag();
        }
        self.clear_add_sub_flag();
        self.clear_half_carry_flag();
    }

    /// Rotates a value to the left; bit 7 goes to bit 0 and to the carry.
    pub fn rlc_n(&mut self, value: u8, check_zero: bool) -> (result: u8)
        ensures
            result == crate::alu::rotate_left(value),
            final(self)@ == old(self)@.shifted(crate::alu::top_bit(value), result, check_zero),
            final(self)@.f() & 0x0f == 0,
    {
        let result: u8 = (value << 1) | (value >> 7);
        self.shifted(value > 0x7f, result, check_zero);
        result
    }

    /// Rotates a value to the right; bit 0 goes to bit 7 and to the carry.
    pub fn rrc_n(&mut self, value: u8, check_zero: bool) -> (result: u8)
        ensures
            result == crate::alu::rotate_right(value),
            final(self)@ == old(self)@.shifted(crate::alu::bottom_bit(value), result, check_zero),
            final(self)@.f() & 0x0f == 0,
    {
        let result: u8 = (value >> 1) | (value << 7);
        self.shifted(value & 0x01 == 1, result, check_zero);
        result
    }

    /// Rotates a value to the left through the carry: the carry goes to bit 0,
    /// bit 7 to the carry.
    pub fn rl_n(&mut self, value: u8, check_zero: bool) -> (result: u8)
        ensures
            result == crate::alu::rotate_left_through(value, old(self)@.carry()),
            final(self)@ == old(self)@.shifted(crate::alu::top_bit(value), result, check_zero),
            final(self)@.f() & 0x0f == 0,
    {
        let carry = self.get_carry_flag();
        let carry_bit: u8 = if carry {
            1
        } else {
            0
        };
        let result: u8 = (value << 1) | carry_bit;
        self.shifted(value > 0x7f, result, check_zero);
        result
    }

    /// Rotates a value to the right through the carry: the carry goes to bit 7,
    /// bit 0 to the carry.
    pub fn rr_n(&mut self, value: u8, check_zero: bool) -> (result: u8)
        ensures
            result == crate::alu::rotate_right_through(value, old(self)@.carry()),
            final(self)@ == old(self)@.shifted(crate::alu::bottom_bit(value), result, check_zero),
            final(self)@.f() & 0x0f == 0,
    {
        let carry = self.get_carry_flag();
        let carry_bit: u8 = if carry {
            0x80
        } else {
            0
        };
        let result: u8 = (value >> 1) | carry_bit;
        self.shifted(value & 0x01 == 1, result, check_zero);
        result
    }

    pub fn shift_left_arithmetic(&mut self, value: u8) -> (result: u8)
        ensures
            result == crate::alu::shift_left(value),
            final(self)@ == old(self)@.shifted(crate::alu::top_bit(value), result, true),
            final(self)@.f() & 0x0f == 0,
    {
        let result: u8 = value << 1;
        self.shifted(value > 0x7f, result, true);
        result
    }

    pub fn swap(&mut self, value: u8) -> (result: u8)
        ensures
            result == crate::alu::swap_halves(value),
            final(self)@ == old(self)@.swapped(result),
            final(self)@.f() & 0x0f == 0,
    {
        let new_upper: u8 = value << 4;
        let new_lower: u8 = value >> 4;

        self.clear_add_sub_flag();
        self.clear_half_carry_flag();
        self.clear_carry_flag();

        let result = new_upper | new_lower;
        self.zero_check_u8(result);
        result
    }

    pub fn shift_right_arithmetic(&mut self, value: u8) -> (result: u8)
        ensures
            result == crate::alu::shift_right_keep_sign(value),
            final(self)@ == old(self)@.shifted(crate::alu::bottom_bit(value), result, true),
            final(self)@.f() & 0x0f == 0,
    {
        let mut result: u8 = value >> 1;
        if value > 0x7f {
            result = result | 0x80;
        }
        self.shifted(value & 0x01 == 1, result, true);
        result
    }

    pub fn shift_right_logical(&mut self, value: u8) -> (result: u8)
        ensures
            result == crate::alu::shift_right(value),
            final(self)@ == old(self)@.shifted(crate::alu::bottom_bit(value), result, true),
            final(self)@.f() & 0x0f == 0,
    {
        let result: u8 = value >> 1;
        self.shifted(value & 0x01 == 1, result, true);
        result
    }

    /// Flips the carry flag.
    pub fn ccf(&mut self)
        ensures
            final(self)@ == old(self)@.ccf(),
            final(self)@.f() & 0x0f == 0,
    {
        let carry_flag = self.get_carry_flag();

        if carry_flag {
            self.clear_carry_flag()
        } else {
            self.set_carry_flag();
        }

        self.clear_add_sub_flag();
        self.clear_half_carry_flag();
    }

    /// Sets the carry flag.
    pub fn scf(&mut self)
        ensures
            final(self)@ == old(self)@.scf(),
            final(self)@.f() & 0x0f == 0,
    {
        self.set_carry_flag();
        self.clear_add_sub_flag();
        self.clear_half_carry_flag();
    }

    /// Pushes the program counter and continues at an address.
    #[inline]
    pub fn call(&mut self, addr: u16)
        ensures
            final(self)@ == old(self)@.call(addr),
    {
        let mut sp = self.read_sp();
        let pc = self.read_pc();

        sp = sp.wrapping_sub(1);
        self.write_memory(sp as usize, upper(pc));
        sp = sp.wrapping_sub(1);
        self.write_memory(sp as usize, lower(pc));

        self.write_sp(sp);
        self.write_pc(addr);
    }

    /// Pops the program counter.
    #[inline]
    pub fn ret(&mut self)
        ensures
            final(self)@ == old(self)@.ret(),
    {
        let mut sp = self.read_sp();

        let lsb = self.read_memory(sp as usize);
        sp = sp.wrapping_add(1);
        let msb = self.read_memory(sp as usize);
        sp = sp.wrapping_add(1);

        self.write_pc(make_word(msb, lsb));
        self.write_sp(sp);
    }

    /// Tests a bit of a value: the zero flag is set where the bit is clear.
    pub fn bit_check(&mut self, value: u8, bit: u8)
        requires
            bit < 8,
        ensures
            final(self)@ == old(self)@.bit_check(value, bit),
            final(self)@.f() & 0x0f == 0,
    {
        if (value & (1u8 << bit)) > 0 {
            self.clear_zero_flag();
        } else {
            self.set_zero_flag();
        }

        self.clear_add_sub_flag();
        self.set_half_carry_flag();
    }

    /// The value with a bit set. The processor stays as it is.
    pub fn bit_set(&mut self, value: u8, bit: u8) -> (result: u8)
        requires
            bit < 8,
        ensures
            result == value | crate::alu::bit_mask(bit),
            final(self)@ == old(self)@,
    {
        value | 1u8 << bit
    }

    /// The value with a bit cleared. The processor stays as it is.
    pub fn bit_clear(&mut self, value: u8, bit: u8) -> (result: u8)
        requires
            bit < 8,
        ensures
            result == value & !crate::alu::bit_mask(bit),
            final(self)@ == old(self)@,
    {
        value & !(1u8 << bit)
    }

    pub fn set_halt(&mut self)
        ensures
            final(self)@ == old(self)@.set_halted(true),
    {
        self.halt = true;
    }

    fn take_interrupt(&mut self, interrupt: u8, vector: u16)
        requires
            interrupt < 8,
        ensures
            final(self)@ == old(self)@.take_interrupt(interrupt, vector),
    {
        let interrupt_flag = self.read_memory(INTERRUPT_FLAG_REG) & !(1u8 << interrupt);
        self.ime = false;
        self.call(vector);
        self.write_memory(INTERRUPT_FLAG_REG, interrupt_flag);
    }

    /// Whether an interrupt is both enabled and pending.
    pub fn interrupt_requested(&self, interrupt: u8) -> (requested: bool)
        requires
            interrupt < 8,
        ensures
            requested == self@.interrupt_requested(interrupt),
    {
        let enable_flag = self.read_memory(INTERRUPT_ENABLE_REG);
        let interrupt_flag = self.read_memory(INTERRUPT_FLAG_REG);
        ((enable_flag & (1u8 << interrupt)) > 0) && ((interrupt_flag & (1u8 << interrupt)) > 0)
    }

    /// Takes the first requested interrupt, if interrupts are switched on and
    /// there is one.
    pub fn check_interrupts(&mut self)
        ensures
            final(self)@ == old(self)@.check_interrupts(),
    {
        if self.ime {
            if self.interrupt_requested(V_BLANK) {
                self.take_interrupt(V_BLANK, V_BLANK_ADDR);
            } else if self.interrupt_requested(LCD_STAT) {
                self.take_interrupt(LCD_STAT, LCD_STAT_ADDR);
            } else if self.interrupt_requested(TIMER) {
                self.take_interrupt(TIMER, TIMER_ADDR);
            } else if self.interrupt_requested(SERIAL) {
                self.take_interrupt(SERIAL, SERIAL_ADDR);
            } else if self.interrupt_requested(JOYPAD) {
                self.take_interrupt(JOYPAD, JOYPAD_ADDR);
            }
        }
    }

    /// Makes an interrupt pending.
    pub fn set_interrupt_pending(&mut self, interrupt: u8)
        requires
            interrupt < 8,
        ensures
            final(self)@ == old(self)@.set_interrupt_pending(interrupt),
    {
        let mut interrupt_flag = self.read_memory(INTERRUPT_FLAG_REG);
        interrupt_flag = interrupt_flag | (1u8 << interrupt);
        self.write_memory(INTERRUPT_FLAG_REG, interrupt_flag);
    }

    /// Whether an interrupt is pending.
    #[inline]
    pub fn get_interrupt_flag(&self, interrupt: u8) -> (pending: bool)
        requires
            interrupt < 8,
        ensures
            pending == self@.interrupt_pending(interrupt),
    {
        let interrupt_flag = self.read_memory(INTERRUPT_FLAG_REG);
        interrupt_flag & (1u8 << interrupt) > 0
    }

    /// Leaves the halted state.
    pub fn resume(&mut self)
        ensures
            final(self)@ == old(self)@.set_halted(false),
    {
        self.halt = false;
    }

    /// Feeds the cycles of one instruction to the timer, and makes the timer
    /// interrupt pending where TIMA overflows.
    pub fn update_timers(&mut self, cycles: u8)
        ensures
            final(self)@ == old(self)@.feed_timer(cycles),
    {
        let interrupt_request = self.timer.update_timers(cycles);
        proof {
            let advanced = old(self)@.set_timer(old(self)@.timer().advance(cycles));
            assert(old(self)@.timer() == old(self).timer@);
            assert(self@.mem =~= advanced.mem);
        }
        if interrupt_request {
            self.set_interrupt_pending(TIMER);
        }
    }

    /// Loads a ROM image at address 0, byte by byte. An image that reaches the
    /// end of video memory is refused, and nothing is loaded of it.
    pub fn load_rom(&mut self, image: &[u8]) -> (result: Result<(), LoadError>)
        ensures
            image@.len() < ROM_IMAGE_LIMIT ==> result.is_ok() && final(self)@ == old(
                self,
            )@.load_image(image@),
            image@.len() >= ROM_IMAGE_LIMIT ==> result == Err::<(), LoadError>(
                LoadError::ImageTooLarge(image@.len() as usize),
            ) && final(self)@ == old(self)@,
    {
        let size = image.len();
        if size >= ROM_IMAGE_LIMIT {
            return Err(LoadError::ImageTooLarge(size));
        }
        proof {
            self.lemma_wf();
            assert(self@.mem =~= old(self)@.load_image(image@.subrange(0, 0)).mem);
        }
        let mut i: usize = 0;
        while i < size
            invariant
                i <= size,
                size == image@.len(),
                size < ROM_IMAGE_LIMIT,
                self@ == old(self)@.load_image(image@.subrange(0, i as int)),
            decreases size - i,
        {
            self.load_read_only_data(i, image[i]);
            proof {
                assert(self@.mem =~= old(self)@.load_image(image@.subrange(0, i + 1)).mem);
            }
            i += 1;
        }
        proof {
            assert(image@.subrange(0, size as int) =~= image@);
        }
        Ok(())
    }

    /// Takes the byte that the serial link has ready, if any: the link is
    /// ready while its control byte is not 0, and taking the byte clears the
    /// control byte.
    pub fn take_serial_byte(&mut self) -> (byte: Option<u8>)
        ensures
            old(self)@.serial_ready() ==> byte == Some(old(self)@.mem[SERIAL_DATA_REG as int])
                && final(self)@ == old(self)@.serial_taken(),
            !old(self)@.serial_ready() ==> byte.is_none() && final(self)@ == old(self)@,
    {
        if self.read_memory(SERIAL_CONTROL_REG) > 0 {
            let byte = self.read_memory(SERIAL_DATA_REG);
            self.write_memory(SERIAL_CONTROL_REG, 0x0);
            Some(byte)
        } else {
            None
        }
    }

    /// What a log line shows: the registers, the stack pointer, the program
    /// counter and the four bytes from the program counter on. The processor
    /// stays as it is.
    pub fn snapshot(&self) -> (snapshot: CpuSnapshot)
        ensures
            snapshot.registers@ == self@.regs,
            snapshot.sp == self@.sp,
            snapshot.pc == self@.pc,
            forall|k: int|
                0 <= k < 4 ==> #[trigger] snapshot.next_bytes@[k] == self@.mem[wrap16(
                    self@.pc + k,
                ) as int],
    {
        let pc = self.pc;
        CpuSnapshot {
            registers: self.registers,
            sp: self.sp,
            pc,
            next_bytes: [
                self.read_memory(pc as usize),
                self.read_memory(pc.wrapping_add(1) as usize),
                self.read_memory(pc.wrapping_add(2) as usize),
                self.read_memory(pc.wrapping_add(3) as usize),
            ],
        }
    }
}

// Helpers
impl Cpu {
    #[inline]
    fn set_carry_flag(&mut self)
        ensures
            final(self)@ == old(self)@.set_carry(true),
            final(self)@.f() & 0x0f == 0,
    {
        proof {
            lemma_with_carry(self@.f(), true);
        }
        self.registers[REG_F] = (self.registers[REG_F] | F_CARRY_SET) & F_FLAG_MASK;
    }

    #[inline]
    fn clear_carry_flag(&mut self)
        ensures
            final(self)@ == old(self)@.set_carry(false),
            final(self)@.f() & 0x0f == 0,
    {
        proof {
            lemma_with_carry(self@.f(), false);
        }
        self.registers[REG_F] = (self.registers[REG_F] & F_CARRY_CLR) & F_FLAG_MASK;
    }

    #[inline]
    fn set_zero_flag(&mut self)
        ensures
            final(self)@ == old(self)@.set_zero(true),
            final(self)@.f() & 0x0f == 0,
    {
        proof {
            lemma_with_zero(self@.f(), true);
        }
        self.registers[REG_F] = (self.registers[REG_F] | F_ZERO_SET) & F_FLAG_MASK;
    }

    #[inline]
    fn clear_zero_flag(&mut self)
        ensures
            final(self)@ == old(self)@.set_zero(false),
            final(self)@.f() & 0x0f == 0,
    {
        proof {
            lemma_with_zero(self@.f(), false);
        }
        self.registers[REG_F] = (self.registers[REG_F] & F_ZERO_CLR) & F_FLAG_MASK;
    }

    #[inline]
    fn set_half_carry_flag(&mut self)
        ensures
            final(self)@ == old(self)@.set_half_carry(true),
            final(self)@.f() & 0x0f == 0,
    {
        proof {
            lemma_with_half_carry(self@.f(), true);
        }
        self.registers[REG_F] = (self.registers[REG_F] | F_HALF_CARRY_SET) & F_FLAG_MASK;
    }

    #[inline]
    fn clear_half_carry_flag(&mut self)
        ensures
            final(self)@ == old(self)@.set_half_carry(false),
            final(self)@.f() & 0x0f == 0,
    {
        proof {
            lemma_with_half_carry(self@.f(), false);
        }
        self.registers[REG_F] = (self.registers[REG_F] & F_HALF_CARRY_CLR) & F_FLAG_MASK;
    }

    #[inline]
    fn set_add_sub_flag(&mut self)
        ensures
            final(self)@ == old(self)@.set_add_sub(true),
            final(self)@.f() & 0x0f == 0,
    {
        proof {
            lemma_with_add_sub(self@.f(), true);
        }
        self.registers[REG_F] = (self.registers[REG_F] | F_ADD_SUB_SET) & F_FLAG_MASK;
    }

    #[inline]
    fn clear_add_sub_flag(&mut self)
        ensures
            final(self)@ == old(self)@.set_add_sub(false),
            final(self)@.f() & 0x0f == 0,
    {
        proof {
            lemma_with_add_sub(self@.f(), false);
        }
        self.registers[REG_F] = (self.registers[REG_F] & F_ADD_SUB_CLR) & F_FLAG_MASK;
    }

    /// Sets the zero flag where a value is 0 and clears it where not.
    #[inline]
    fn zero_check_u8(&mut self, value: u8)
        ensures
            final(self)@ == old(self)@.set_zero(value == 0),
            final(self)@.f() & 0x0f == 0,
    {
        if value == 0 {
            self.set_zero_flag();
        } else {
            self.clear_zero_flag();
        }
    }

    /// Sets the zero flag where a register is 0 and clears it where not.
    #[inline]
    fn zero_check_reg(&mut self, reg_index: usize)
        requires
            reg_index < REGISTER_COUNT,
        ensures
            final(self)@ == old(self)@.set_zero(old(self)@.regs[reg_index as int] == 0),
            final(self)@.f() & 0x0f == 0,
    {
        if self.registers[reg_index] == 0 {
            self.set_zero_flag();
        } else {
            self.clear_zero_flag();
        }
    }

    /// Sets the zero flag where a value is 0 and clears it where not.
    #[inline]
    fn check_value_for_zero(&mut self, value: u8)
        ensures
            final(self)@ == old(self)@.set_zero(value == 0),
            final(self)@.f() & 0x0f == 0,
    {
        if value == 0 {
            self.set_zero_flag();
        } else {
            self.clear_zero_flag();
        }
    }

    /// Sets the carry flag where an 8-bit addition overflows.
    #[inline]
    fn check_for_carry(&mut self, addend_1: u8, addend_2: u8, carry: u8)
        ensures
            final(self)@ == old(self)@.set_carry(crate::alu::carry_add(addend_1, addend_2, carry)),
            final(self)@.f() & 0x0f == 0,
    {
        let z = match addend_1.checked_add(addend_2) {
            Some(x) => x.checked_add(carry),
            None => None,
        };

        match z {
            Some(_) => {
                self.clear_carry_flag();
            },
            None => {
                self.set_carry_flag();
            },
        }
    }

    /// Sets the carry flag where a subtraction from A underflows.
    #[inline]
    fn check_for_carry_sub(&mut self, value: u8, carry: u8)
        ensures
            final(self)@ == old(self)@.set_carry(
                crate::alu::carry_sub(old(self)@.a(), value, carry),
            ),
            final(self)@.f() & 0x0f == 0,
    {
        let z = match self.registers[REG_A].checked_sub(value) {
            Some(x) => x.checked_sub(carry),
            None => None,
        };

        match z {
            Some(_) => {
                self.clear_carry_flag();
            },
            None => {
                self.set_carry_flag();
            },
        }
    }

    /// Sets the half-carry flag where an addition carries out of bit 3.
    #[inline]
    fn check_for_half_carry(&mut self, addend_1: u8, addend_2: u8, carry: u8)
        requires
            carry <= 1,
        ensures
            final(self)@ == old(self)@.set_half_carry(
                crate::alu::half_carry_add(addend_1, addend_2, carry),
            ),
            final(self)@.f() & 0x0f == 0,
    {
        assert(addend_1 & 0xf <= 0xf && addend_2 & 0xf <= 0xf) by (bit_vector);
        let half_carry: u8 = (addend_1 & 0xf) + (addend_2 & 0xf) + carry;

        if half_carry > 0xf {
            self.set_half_carry_flag();
        } else {
            self.clear_half_carry_flag();
        }
    }

    /// Sets the half-carry flag where a subtraction borrows into bit 3.
    #[inline]
    fn check_for_half_carry_sub(&mut self, minuend: u8, subtrahend: u8, carry: u8)
        ensures
            final(self)@ == old(self)@.set_half_carry(
                crate::alu::half_carry_sub(minuend, subtrahend, carry),
            ),
            final(self)@.f() & 0x0f == 0,
    {
        let half_carry: i16 = (minuend & 0xf) as i16 - (subtrahend & 0xf) as i16 - carry as i16;

        if half_carry < 0 {
            self.set_half_carry_flag();
        } else {
            self.clear_half_carry_flag();
        }
    }

    /// Sets the carry flag where an addition to HL overflows.
    #[inline]
    fn check_for_carry_16bit(&mut self, addend: u16)
        ensures
            final(self)@ == old(self)@.set_carry(
                crate::alu::carry_add16(old(self)@.hl(), addend),
            ),
            final(self)@.f() & 0x0f == 0,
    {
        let z = self.read_reg16(PAIR_HL).checked_add(addend);

        match z {
            Some(_) => {
                self.clear_carry_flag();
            },
            None => {
                self.set_carry_flag();
            },
        }
    }

    /// Sets the half-carry flag where a 16-bit addition carries out of bit 11.
    #[inline]
    fn check_for_half_carry_16bit(&mut self, addend_1: u16, addend_2: u16)
        ensures
            final(self)@ == old(self)@.set_half_carry(
                crate::alu::half_carry_add16(addend_1, addend_2),
            ),
            final(self)@.f() & 0x0f == 0,
    {
        assert(addend_1 & 0xfff <= 0xfff && addend_2 & 0xfff <= 0xfff) by (bit_vector);
        let half_carry: u16 = (addend_1 & 0xfff) + (addend_2 & 0xfff);

        if half_carry > 0xfff {
            self.set_half_carry_flag();
        } else {
            self.clear_half_carry_flag();
        }
    }
}

} // verus!
