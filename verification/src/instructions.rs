//! The instruction set: what each instruction does to the machine, and the
//! handlers that do it to a processor.
//!
//! An opcode carries three bit fields. Bits 3 to 5 ("y") name a register, a
//! condition or a bit; bits 0 to 2 ("z") name a register; bits 4 and 5 ("p")
//! name a register pair. A handler runs after the program counter has moved
//! past its instruction, so an 8-bit operand is the byte before the program
//! counter, and a 16-bit operand the two bytes before it, lower byte first.

use vstd::prelude::*;
use crate::alu::{
    bit_mask, bottom_bit, rotate_left, rotate_left_through, rotate_right, rotate_right_through,
    shift_left, shift_right, shift_right_keep_sign, swap_halves, top_bit,
};
use crate::bits::{
    displace, high_byte, low_byte, lower, p_bits, signed, upper, wrap16, y_bits, z_bits,
};
use crate::cpu::{Cpu, Reg16bit};
use crate::machine::{
    Machine, PAIR_BC, PAIR_DE, PAIR_HL, REGISTER_COUNT, REG_A, REG_C,
};

verus! {

const Y_BITS_MASK: u8 = 0x38;

const Z_BITS_MASK: u8 = 0x07;

const P_REG_MASK: u8 = 0x30;

const LDH_ADDR_MSB: usize = 0xff00;

/// The operation that an opcode stands for.
#[derive(Copy, Clone, Debug, PartialEq, Eq, Structural)]
pub enum Handler {
    LoadRR,
    LoadRN,
    LoadRHl,
    LoadHlR,
    LoadHlN,
    LoadABc,
    LoadADe,
    LoadBcA,
    LoadDeA,
    LoadANn,
    LoadNnA,
    LdhAC,
    LdhCA,
    LdhAN,
    LdhNA,
    LoadAHlDec,
    LoadHlADec,
    LoadAHlInc,
    LoadHlAInc,
    LoadBcNn,
    LoadDeNn,
    LoadHlNn,
    LoadSpNn,
    LoadNnSp,
    LoadSpHl,
    PushBc,
    PushDe,
    PushHl,
    PushAf,
    PopBc,
    PopDe,
    PopHl,
    PopAf,
    AddAR,
    AddAN,
    AddAHl,
    AdcAR,
    AdcAN,
    AdcAHl,
    SubAR,
    SubAN,
    SubAHl,
    SbcAR,
    SbcAN,
    SbcAHl,
    AndAR,
    AndAN,
    AndAHl,
    XorAR,
    XorAN,
    XorAHl,
    OrAR,
    OrAN,
    OrAHl,
    CpAR,
    CpAN,
    CpAHl,
    IncR,
    IncHl,
    DecR,
    DecHl,
    Daa,
    Cpl,
    AddHlRr,
    AddHlSp,
    IncRr,
    IncSp,
    DecRr,
    DecSp,
    AddSpDd,
    LdHlSpDd,
    Rlca,
    Rrca,
    Rla,
    Rra,
    RlcR,
    RlcHl,
    RrcR,
    RrcHl,
    RlR,
    RlHl,
    RrR,
    RrHl,
    SlaR,
    SlaHl,
    SraR,
    SraHl,
    SrlR,
    SrlHl,
    SwapR,
    SwapHl,
    BitR,
    BitHl,
    SetR,
    SetHl,
    ResR,
    ResHl,
    Ccf,
    Scf,
    Nop,
    Halt,
    Stop,
    Di,
    Ei,
    JpNn,
    JpHl,
    JpConditional,
    JrDd,
    JrConditional,
    CallNn,
    CallConditional,
    Ret,
    RetConditional,
    Reti,
    Rst,
}

/// What an entry of an opcode table holds, apart from its name.
pub struct OpcodeView {
    pub opcode: u8,
    pub cycles: u8,
    pub length: u8,
    pub handler: Handler,
}

/// The machine after an operation. `opcode` is the byte that selected the
/// operation; its bit fields say which registers, condition or bit are meant.
///
/// In the arms `y`, `z` and `p` are the register, condition, bit or pair that
/// the fields name, `r` is register z, `at_hl` the byte at HL, `n` the 8-bit
/// operand and `nn` the 16-bit operand.
pub open spec fn effect(handler: Handler, opcode: u8, m: Machine) -> Machine {
    let y = y_bits(opcode);
    let z = z_bits(opcode);
    let p = 2 * p_bits(opcode);
    let r = m.regs[z];
    let hl = m.hl() as int;
    let at_hl = m.mem[hl];
    let n = m.imm8();
    let nn = m.imm16();
    match handler {
        Handler::LoadRR => m.set_reg(y, r),
        Handler::LoadRN => m.set_reg(y, n),
        Handler::LoadRHl => m.set_reg(y, at_hl),
        Handler::LoadHlR => m.write(hl, r),
        Handler::LoadHlN => m.write(hl, n),
        Handler::LoadABc => m.set_a(m.mem[m.pair(PAIR_BC as int) as int]),
        Handler::LoadADe => m.set_a(m.mem[m.pair(PAIR_DE as int) as int]),
        Handler::LoadBcA => m.write(m.pair(PAIR_BC as int) as int, m.a()),
        Handler::LoadDeA => m.write(m.pair(PAIR_DE as int) as int, m.a()),
        Handler::LoadANn => m.set_a(m.mem[nn as int]),
        Handler::LoadNnA => m.write(nn as int, m.a()),
        Handler::LdhAC => m.set_a(m.mem[Machine::high_page(m.regs[REG_C as int])]),
        Handler::LdhCA => m.write(Machine::high_page(m.regs[REG_C as int]), m.a()),
        Handler::LdhAN => m.set_a(m.mem[Machine::high_page(n)]),
        Handler::LdhNA => m.write(Machine::high_page(n), m.a()),
        Handler::LoadAHlDec => m.set_a(at_hl).set_pair(PAIR_HL as int, wrap16(m.hl() - 1)),
        Handler::LoadHlADec => m.write(hl, m.a()).set_pair(PAIR_HL as int, wrap16(m.hl() - 1)),
        Handler::LoadAHlInc => m.set_a(at_hl).set_pair(PAIR_HL as int, wrap16(m.hl() + 1)),
        Handler::LoadHlAInc => m.write(hl, m.a()).set_pair(PAIR_HL as int, wrap16(m.hl() + 1)),
        Handler::LoadBcNn => m.set_pair(PAIR_BC as int, nn),
        Handler::LoadDeNn => m.set_pair(PAIR_DE as int, nn),
        Handler::LoadHlNn => m.set_pair(PAIR_HL as int, nn),
        Handler::LoadSpNn => m.set_sp(nn),
        Handler::LoadNnSp => m.write_word(nn as int, low_byte(m.sp), high_byte(m.sp)),
        Handler::LoadSpHl => m.set_sp(m.hl()),
        Handler::PushBc => m.push_rr(PAIR_BC as int),
        Handler::PushDe => m.push_rr(PAIR_DE as int),
        Handler::PushHl => m.push_rr(PAIR_HL as int),
        Handler::PushAf => m.push_af(),
        Handler::PopBc => m.pop_rr(PAIR_BC as int),
        Handler::PopDe => m.pop_rr(PAIR_DE as int),
        Handler::PopHl => m.pop_rr(PAIR_HL as int),
        Handler::PopAf => m.pop_af(),
        Handler::AddAR => m.add_a(r, false),
        Handler::AddAN => m.add_a(n, false),
        Handler::AddAHl => m.add_a(at_hl, false),
        Handler::AdcAR => m.add_a(r, true),
        Handler::AdcAN => m.add_a(n, true),
        Handler::AdcAHl => m.add_a(at_hl, true),
        Handler::SubAR => m.sub_a(r, false),
        Handler::SubAN => m.sub_a(n, false),
        Handler::SubAHl => m.sub_a(at_hl, false),
        Handler::SbcAR => m.sub_a(r, true),
        Handler::SbcAN => m.sub_a(n, true),
        Handler::SbcAHl => m.sub_a(at_hl, true),
        Handler::AndAR => m.and_a(r),
        Handler::AndAN => m.and_a(n),
        Handler::AndAHl => m.and_a(at_hl),
        Handler::XorAR => m.xor_a(r),
        Handler::XorAN => m.xor_a(n),
        Handler::XorAHl => m.xor_a(at_hl),
        Handler::OrAR => m.or_a(r),
        Handler::OrAN => m.or_a(n),
        Handler::OrAHl => m.or_a(at_hl),
        Handler::CpAR => m.cp_a(r),
        Handler::CpAN => m.cp_a(n),
        Handler::CpAHl => m.cp_a(at_hl),
        Handler::IncR => m.increment_r(y),
        Handler::IncHl => m.increment_memory(hl),
        Handler::DecR => m.decrement_r(y),
        Handler::DecHl => m.decrement_memory(hl),
        Handler::Daa => m.daa(),
        Handler::Cpl => m.complement_a(),
        Handler::AddHlRr => m.add_hl(m.pair(p)),
        Handler::AddHlSp => m.add_hl(m.sp),
        Handler::IncRr => m.set_pair(p, wrap16(m.pair(p) + 1)),
        Handler::IncSp => m.set_sp(wrap16(m.sp + 1)),
        Handler::DecRr => m.set_pair(p, wrap16(m.pair(p) - 1)),
        Handler::DecSp => m.set_sp(wrap16(m.sp - 1)),
        Handler::AddSpDd => m.add_sp_flags().set_sp(m.sp_plus_operand()),
        Handler::LdHlSpDd => m.add_sp_flags().set_pair(PAIR_HL as int, m.sp_plus_operand()),
        Handler::Rlca => m.shifted(top_bit(m.a()), rotate_left(m.a()), false)
            .set_reg(REG_A as int, rotate_left(m.a())),
        Handler::Rrca => m.shifted(bottom_bit(m.a()), rotate_right(m.a()), false)
            .set_reg(REG_A as int, rotate_right(m.a())),
        Handler::Rla => m.shifted(top_bit(m.a()), rotate_left_through(m.a(), m.carry()), false)
            .set_reg(REG_A as int, rotate_left_through(m.a(), m.carry())),
        Handler::Rra => m.shifted(bottom_bit(m.a()), rotate_right_through(m.a(), m.carry()), false)
            .set_reg(REG_A as int, rotate_right_through(m.a(), m.carry())),
        Handler::RlcR => m.shifted(top_bit(r), rotate_left(r), true).set_reg(z, rotate_left(r)),
        Handler::RlcHl => m.shifted(top_bit(at_hl), rotate_left(at_hl), true)
            .write(hl, rotate_left(at_hl)),
        Handler::RrcR => m.shifted(bottom_bit(r), rotate_right(r), true)
            .set_reg(z, rotate_right(r)),
        Handler::RrcHl => m.shifted(bottom_bit(at_hl), rotate_right(at_hl), true)
            .write(hl, rotate_right(at_hl)),
        Handler::RlR => m.shifted(top_bit(r), rotate_left_through(r, m.carry()), true)
            .set_reg(z, rotate_left_through(r, m.carry())),
        Handler::RlHl => m.shifted(top_bit(at_hl), rotate_left_through(at_hl, m.carry()), true)
            .write(hl, rotate_left_through(at_hl, m.carry())),
        Handler::RrR => m.shifted(bottom_bit(r), rotate_right_through(r, m.carry()), true)
            .set_reg(z, rotate_right_through(r, m.carry())),
        Handler::RrHl => m.shifted(bottom_bit(at_hl), rotate_right_through(at_hl, m.carry()), true)
            .write(hl, rotate_right_through(at_hl, m.carry())),
        Handler::SlaR => m.shifted(top_bit(r), shift_left(r), true).set_reg(z, shift_left(r)),
        Handler::SlaHl => m.shifted(top_bit(at_hl), shift_left(at_hl), true)
            .write(hl, shift_left(at_hl)),
        Handler::SraR => m.shifted(bottom_bit(r), shift_right_keep_sign(r), true)
            .set_reg(z, shift_right_keep_sign(r)),
        Handler::SraHl => m.shifted(bottom_bit(at_hl), shift_right_keep_sign(at_hl), true)
            .write(hl, shift_right_keep_sign(at_hl)),
        Handler::SrlR => m.shifted(bottom_bit(r), shift_right(r), true).set_reg(z, shift_right(r)),
        Handler::SrlHl => m.shifted(bottom_bit(at_hl), shift_right(at_hl), true)
            .write(hl, shift_right(at_hl)),
        Handler::SwapR => m.swapped(swap_halves(r)).set_reg(z, swap_halves(r)),
        Handler::SwapHl => m.swapped(swap_halves(at_hl)).write(hl, swap_halves(at_hl)),
        Handler::BitR => m.bit_check(r, y as u8),
        Handler::BitHl => m.bit_check(at_hl, y as u8),
        Handler::SetR => m.set_reg(z, r | bit_mask(y as u8)),
        Handler::SetHl => m.write(hl, at_hl | bit_mask(y as u8)),
        Handler::ResR => m.set_reg(z, r & !bit_mask(y as u8)),
        Handler::ResHl => m.write(hl, at_hl & !bit_mask(y as u8)),
        Handler::Ccf => m.ccf(),
        Handler::Scf => m.scf(),
        Handler::Nop => m,
        Handler::Halt => m.set_halted(true),
        Handler::Stop => m,
        Handler::Di => m.set_ime(false),
        Handler::Ei => m.set_ime(true),
        Handler::JpNn => m.set_pc(nn),
        Handler::JpHl => m.set_pc(m.hl()),
        Handler::JpConditional => if m.condition(y) {
            m.set_pc(nn)
        } else {
            m
        },
        Handler::JrDd => m.set_pc(wrap16(m.pc + signed(n))),
        Handler::JrConditional => if y >= 4 && m.condition(y - 4) {
            m.set_pc(wrap16(m.pc + signed(n)))
        } else {
            m
        },
        Handler::CallNn => m.call(nn),
        Handler::CallConditional => if m.condition(y) {
            m.call(nn)
        } else {
            m
        },
        Handler::Ret => m.ret(),
        Handler::RetConditional => if m.condition(y) {
            m.ret()
        } else {
            m
        },
        Handler::Reti => m.ret().set_ime(true),
        Handler::Rst => m.call((8 * y) as u16),
    }
}

pub struct Opcode {
    opcode_byte: u8,
    pub opcode_name: String,
    number_of_cycles: u8,
    pub number_of_bytes: u8,
    pub handler: Handler,
}

impl View for Opcode {
    type V = OpcodeView;

    closed spec fn view(&self) -> OpcodeView {
        OpcodeView {
            opcode: self.opcode_byte,
            cycles: self.number_of_cycles,
            length: self.number_of_bytes,
            handler: self.handler,
        }
    }
}

impl Opcode {
    /// The mnemonic, for diagnostics.
    pub closed spec fn name(&self) -> Seq<char> {
        self.opcode_name@
    }

    pub fn new(opcode: u8, opcode_name: String, cycles: u8, bytes: u8, function: Handler) -> (entry:
        Opcode)
        ensures
            entry@ == (OpcodeView { opcode, cycles, length: bytes, handler: function }),
            entry.name() == opcode_name@,
    {
        Opcode {
            opcode_name: opcode_name,
            opcode_byte: opcode,
            number_of_cycles: cycles,
            number_of_bytes: bytes,
            handler: function,
        }
    }

    /// The length of the instruction in bytes.
    #[inline]
    pub fn get_length(&self) -> (length: u8)
        ensures
            length == self@.length,
    {
        self.number_of_bytes
    }

    /// The cost of the instruction in cycles.
    #[inline]
    pub fn get_cycles(&self) -> (cycles: u8)
        ensures
            cycles == self@.cycles,
    {
        self.number_of_cycles
    }

    /// The byte that selects the instruction.
    #[inline]
    pub fn get_opcode(&self) -> (opcode: u8)
        ensures
            opcode == self@.opcode,
    {
        self.opcode_byte
    }

    /// The operation of the instruction.
    #[inline]
    pub fn get_handler(&self) -> (handler: Handler)
        ensures
            handler == self@.handler,
    {
        self.handler
    }

    /// The register that bits 3 to 5 name.
    fn register_y(&self) -> (index: usize)
        ensures
            index == y_bits(self@.opcode),
            index < REGISTER_COUNT,
    {
        let opcode = self.opcode_byte;
        assert((opcode & Y_BITS_MASK) >> 3 == (opcode / 8) % 8) by (bit_vector);
        ((opcode & Y_BITS_MASK) >> 3) as usize
    }

    /// The condition or the bit that bits 3 to 5 name.
    fn bit_y(&self) -> (bit: u8)
        ensures
            bit == y_bits(self@.opcode),
            bit < 8,
    {
        self.register_y() as u8
    }

    /// The register that bits 0 to 2 name.
    fn register_z(&self) -> (index: usize)
        ensures
            index == z_bits(self@.opcode),
            index < REGISTER_COUNT,
    {
        let opcode = self.opcode_byte;
        assert(opcode & Z_BITS_MASK == opcode % 8) by (bit_vector);
        (opcode & Z_BITS_MASK) as usize
    }

    /// The first slot of the register pair that bits 4 and 5 name.
    fn register_p(&self) -> (index: usize)
        ensures
            index == 2 * p_bits(self@.opcode),
            index + 1 < REGISTER_COUNT,
    {
        let opcode = self.opcode_byte;
        assert((opcode & P_REG_MASK) >> 4 == (opcode / 16) % 4) by (bit_vector);
        (((opcode & P_REG_MASK) >> 4) * 2) as usize
    }

    /// Whether a condition code holds: 0 not zero, 1 zero, 2 no carry, 3 carry.
    #[inline]
    fn check_flag(cpu: &Cpu, check_flag: u8) -> (holds: bool)
        ensures
            holds == cpu@.condition(check_flag as int),
    {
        match check_flag {
            0 => !cpu.get_zero_flag(),
            1 => cpu.get_zero_flag(),
            2 => !cpu.get_carry_flag(),
            3 => cpu.get_carry_flag(),
            _ => false,
        }
    }

    /// Runs the operation of this entry on a processor.
    pub fn execute(&self, cpu: &mut Cpu)
        ensures
            final(cpu)@ == effect(self@.handler, self@.opcode, old(cpu)@),
    {
        match self.handler {
            Handler::LoadRR => self.load_r_r(cpu),
            Handler::LoadRN => self.load_r_n(cpu),
            Handler::LoadRHl => self.load_r_hl(cpu),
            Handler::LoadHlR => self.load_hl_r(cpu),
            Handler::LoadHlN => self.load_hl_n(cpu),
            Handler::LoadABc => self.load_a_bc(cpu),
            Handler::LoadADe => self.load_a_de(cpu),
            Handler::LoadBcA => self.load_bc_a(cpu),
            Handler::LoadDeA => self.load_de_a(cpu),
            Handler::LoadANn => self.load_a_nn(cpu),
            Handler::LoadNnA => self.load_nn_a(cpu),
            Handler::LdhAC => self.ldh_a_c(cpu),
            Handler::LdhCA => self.ldh_c_a(cpu),
            Handler::LdhAN => self.ldh_a_n(cpu),
            Handler::LdhNA => self.ldh_n_a(cpu),
            Handler::LoadAHlDec => self.load_a_hl_dec(cpu),
            Handler::LoadHlADec => self.load_hl_a_dec(cpu),
            Handler::LoadAHlInc => self.load_a_hl_inc(cpu),
            Handler::LoadHlAInc => self.load_hl_a_inc(cpu),
            Handler::LoadBcNn => self.load_bc_nn(cpu),
            Handler::LoadDeNn => self.load_de_nn(cpu),
            Handler::LoadHlNn => self.load_hl_nn(cpu),
            Handler::LoadSpNn => self.load_sp_nn(cpu),
            Handler::LoadNnSp => self.load_nn_sp(cpu),
            Handler::LoadSpHl => self.load_sp_hl(cpu),
            Handler::PushBc => self.push_bc(cpu),
            Handler::PushDe => self.push_de(cpu),
            Handler::PushHl => self.push_hl(cpu),
            Handler::PushAf => self.push_af(cpu),
            Handler::PopBc => self.pop_bc(cpu),
            Handler::PopDe => self.pop_de(cpu),
            Handler::PopHl => self.pop_hl(cpu),
            Handler::PopAf => self.pop_af(cpu),
            Handler::AddAR => self.add_a_r(cpu),
            Handler::AddAN => self.add_a_n(cpu),
            Handler::AddAHl => self.add_a_hl(cpu),
            Handler::AdcAR => self.adc_a_r(cpu),
            Handler::AdcAN => self.adc_a_n(cpu),
            Handler::AdcAHl => self.adc_a_hl(cpu),
            Handler::SubAR => self.sub_a_r(cpu),
            Handler::SubAN => self.sub_a_n(cpu),
            Handler::SubAHl => self.sub_a_hl(cpu),
            Handler::SbcAR => self.sbc_a_r(cpu),
            Handler::SbcAN => self.sbc_a_n(cpu),
            Handler::SbcAHl => self.sbc_a_hl(cpu),
            Handler::AndAR => self.and_a_r(cpu),
            Handler::AndAN => self.and_a_n(cpu),
            Handler::AndAHl => self.and_a_hl(cpu),
            Handler::XorAR => self.xor_a_r(cpu),
            Handler::XorAN => self.xor_a_n(cpu),
            Handler::XorAHl => self.xor_a_hl(cpu),
            Handler::OrAR => self.or_a_r(cpu),
            Handler::OrAN => self.or_a_n(cpu),
            Handler::OrAHl => self.or_a_hl(cpu),
            Handler::CpAR => self.cp_a_r(cpu),
            Handler::CpAN => self.cp_a_n(cpu),
            Handler::CpAHl => self.cp_a_hl(cpu),
            Handler::IncR => self.inc_r(cpu),
            Handler::IncHl => self.inc_hl(cpu),
            Handler::DecR => self.dec_r(cpu),
            Handler::DecHl => self.dec_hl(cpu),
            Handler::Daa => self.daa(cpu),
            Handler::Cpl => self.cpl(cpu),
            Handler::AddHlRr => self.add_hl_rr(cpu),
            Handler::AddHlSp => self.add_hl_sp(cpu),
            Handler::IncRr => self.inc_rr(cpu),
            Handler::IncSp => self.inc_sp(cpu),
            Handler::DecRr => self.dec_rr(cpu),
            Handler::DecSp => self.dec_sp(cpu),
            Handler::AddSpDd => self.add_sp_dd(cpu),
            Handler::LdHlSpDd => self.ld_hl_sp_dd(cpu),
            Handler::Rlca => self.rlca(cpu),
            Handler::Rrca => self.rrca(cpu),
            Handler::Rla => self.rla(cpu),
            Handler::Rra => self.rra(cpu),
            Handler::RlcR => self.rlc_r(cpu),
            Handler::RlcHl => self.rlc_hl(cpu),
            Handler::RrcR => self.rrc_r(cpu),
            Handler::RrcHl => self.rrc_hl(cpu),
            Handler::RlR => self.rl_r(cpu),
            Handler::RlHl => self.rl_hl(cpu),
            Handler::RrR => self.rr_r(cpu),
            Handler::RrHl => self.rr_hl(cpu),
            Handler::SlaR => self.sla_r(cpu),
            Handler::SlaHl => self.sla_hl(cpu),
            Handler::SraR => self.sra_r(cpu),
            Handler::SraHl => self.sra_hl(cpu),
            Handler::SrlR => self.srl_r(cpu),
            Handler::SrlHl => self.srl_hl(cpu),
            Handler::SwapR => self.swap_r(cpu),
            Handler::SwapHl => self.swap_hl(cpu),
            Handler::BitR => self.bit_r(cpu),
            Handler::BitHl => self.bit_hl(cpu),
            Handler::SetR => self.set_r(cpu),
            Handler::SetHl => self.set_hl(cpu),
            Handler::ResR => self.res_r(cpu),
            Handler::ResHl => self.res_hl(cpu),
            Handler::Ccf => self.ccf(cpu),
            Handler::Scf => self.scf(cpu),
            Handler::Nop => self.nop(cpu),
            Handler::Halt => self.halt(cpu),
            Handler::Stop => self.stop(cpu),
            Handler::Di => self.di(cpu),
            Handler::Ei => self.ei(cpu),
            Handler::JpNn => self.jp_nn(cpu),
            Handler::JpHl => self.jp_hl(cpu),
            Handler::JpConditional => self.jp_conditional(cpu),
            Handler::JrDd => self.jr_dd(cpu),
            Handler::JrConditional => self.jr_conditional(cpu),
            Handler::CallNn => self.call_nn(cpu),
            Handler::CallConditional => self.call_conditional(cpu),
            Handler::Ret => self.ret(cpu),
            Handler::RetConditional => self.ret_conditional(cpu),
            Handler::Reti => self.reti(cpu),
            Handler::Rst => self.rst(cpu),
        }
    }

    /// LD r, r': copies register z into register y.
    pub fn load_r_r(&self, cpu: &mut Cpu)
        ensures
            final(cpu)@ == effect(Handler::LoadRR, self@.opcode, old(cpu)@),
    {
        let register_y = self.register_y();
        let register_z = self.register_z();
        cpu.write_reg8_with_reg8(register_y, register_z);
    }

    /// LD r, n: loads the operand into register y.
    pub fn load_r_n(&self, cpu: &mut Cpu)
        ensures
            final(cpu)@ == effect(Handler::LoadRN, self@.opcode, old(cpu)@),
    {
        let register = self.register_y();
        let n = cpu.read_operand();
        cpu.write_reg8(register, n);
    }

    /// LD r, (HL): loads the byte at HL into register y.
    pub fn load_r_hl(&self, cpu: &mut Cpu)
        ensures
            final(cpu)@ == effect(Handler::LoadRHl, self@.opcode, old(cpu)@),
    {
        let register = self.register_y();
        let index = cpu.read_reg16(PAIR_HL) as usize;
        let n = cpu.read_memory(index);
        cpu.write_reg8(register, n);
    }

    /// LD (HL), r: stores register z at HL.
    pub fn load_hl_r(&self, cpu: &mut Cpu)
        ensures
            final(cpu)@ == effect(Handler::LoadHlR, self@.opcode, old(cpu)@),
    {
        let register_z = self.register_z();
        let index = cpu.read_reg16(PAIR_HL) as usize;
        let n = cpu.read_reg8(register_z);
        cpu.write_memory(index, n);
    }

    /// LD (HL), n: stores the operand at HL.
    pub fn load_hl_n(&self, cpu: &mut Cpu)
        ensures
            final(cpu)@ == effect(Handler::LoadHlN, self@.opcode, old(cpu)@),
    {
        let n = cpu.read_operand();
        let index = cpu.read_reg16(PAIR_HL) as usize;
        cpu.write_memory(index, n);
    }

    /// LD A, (BC): loads the byte at BC into A.
    pub fn load_a_bc(&self, cpu: &mut Cpu)
        ensures
            final(cpu)@ == effect(Handler::LoadABc, self@.opcode, old(cpu)@),
    {
        let index = cpu.read_reg16(PAIR_BC) as usize;
        let n = cpu.read_memory(index);
        cpu.write_reg8(REG_A, n);
    }

    /// LD A, (DE): loads the byte at DE into A.
    pub fn load_a_de(&self, cpu: &mut Cpu)
        ensures
            final(cpu)@ == effect(Handler::LoadADe, self@.opcode, old(cpu)@),
    {
        let index = cpu.read_reg16(PAIR_DE) as usize;
        let n = cpu.read_memory(index);
        cpu.write_reg8(REG_A, n);
    }

    /// LD (BC), A: stores A at BC.
    pub fn load_bc_a(&self, cpu: &mut Cpu)
        ensures
            final(cpu)@ == effect(Handler::LoadBcA, self@.opcode, old(cpu)@),
    {
        let index = cpu.read_reg16(PAIR_BC) as usize;
        let n = cpu.read_reg8(REG_A);
        cpu.write_memory(index, n);
    }

    /// LD (DE), A: stores A at DE.
    pub fn load_de_a(&self, cpu: &mut Cpu)
        ensures
            final(cpu)@ == effect(Handler::LoadDeA, self@.opcode, old(cpu)@),
    {
        let index = cpu.read_reg16(PAIR_DE) as usize;
        let n = cpu.read_reg8(REG_A);
        cpu.write_memory(index, n);
    }

    /// LD A, (nn): loads the byte at the address in the operand into A.
    pub fn load_a_nn(&self, cpu: &mut Cpu)
        ensures
            final(cpu)@ == effect(Handler::LoadANn, self@.opcode, old(cpu)@),
    {
        let index = cpu.read_operand_nn() as usize;
        let n = cpu.read_memory(index);
        cpu.write_reg8(REG_A, n);
    }

    /// LD (nn), A: stores A at the address in the operand.
    pub fn load_nn_a(&self, cpu: &mut Cpu)
        ensures
            final(cpu)@ == effect(Handler::LoadNnA, self@.opcode, old(cpu)@),
    {
        let index = cpu.read_operand_nn() as usize;
        let n = cpu.read_reg8(REG_A);
        cpu.write_memory(index, n);
    }

    /// LDH A, (C): loads the byte at 0xff00 + C into A.
    pub fn ldh_a_c(&self, cpu: &mut Cpu)
        ensures
            final(cpu)@ == effect(Handler::LdhAC, self@.opcode, old(cpu)@),
    {
        let index = LDH_ADDR_MSB + cpu.read_reg8(REG_C) as usize;
        let n = cpu.read_memory(index);
        cpu.write_reg8(REG_A, n);
    }

    /// LDH (C), A: stores A at 0xff00 + C.
    pub fn ldh_c_a(&self, cpu: &mut Cpu)
        ensures
            final(cpu)@ == effect(Handler::LdhCA, self@.opcode, old(cpu)@),
    {
        let index = LDH_ADDR_MSB + cpu.read_reg8(REG_C) as usize;
        let n = cpu.read_reg8(REG_A);
        cpu.write_memory(index, n);
    }

    /// LDH A, (n): loads the byte at 0xff00 + the operand into A.
    pub fn ldh_a_n(&self, cpu: &mut Cpu)
        ensures
            final(cpu)@ == effect(Handler::LdhAN, self@.opcode, old(cpu)@),
    {
        let index = LDH_ADDR_MSB + cpu.read_operand() as usize;
        let value = cpu.read_memory(index);
        cpu.write_reg8(REG_A, value);
    }

    /// LDH (n), A: stores A at 0xff00 + the operand.
    pub fn ldh_n_a(&self, cpu: &mut Cpu)
        ensures
            final(cpu)@ == effect(Handler::LdhNA, self@.opcode, old(cpu)@),
    {
        let index = LDH_ADDR_MSB + cpu.read_operand() as usize;
        let n = cpu.read_reg8(REG_A);
        cpu.write_memory(index, n);
    }

    /// LD A, (HL-): loads the byte at HL into A; HL is decremented after.
    pub fn load_a_hl_dec(&self, cpu: &mut Cpu)
        ensures
            final(cpu)@ == effect(Handler::LoadAHlDec, self@.opcode, old(cpu)@),
    {
        let index = cpu.read_reg16(PAIR_HL);
        let n = cpu.read_memory(index as usize);
        cpu.write_reg8(REG_A, n);
        cpu.write_reg16(PAIR_HL, index.wrapping_sub(1));
    }

    /// LD (HL-), A: stores A at HL; HL is decremented after.
    pub fn load_hl_a_dec(&self, cpu: &mut Cpu)
        ensures
            final(cpu)@ == effect(Handler::LoadHlADec, self@.opcode, old(cpu)@),
    {
        let index = cpu.read_reg16(PAIR_HL);
        let n = cpu.read_reg8(REG_A);
        cpu.write_memory(index as usize, n);
        cpu.write_reg16(PAIR_HL, index.wrapping_sub(1));
    }

    /// LD A, (HL+): loads the byte at HL into A; HL is incremented after.
    pub fn load_a_hl_inc(&self, cpu: &mut Cpu)
        ensures
            final(cpu)@ == effect(Handler::LoadAHlInc, self@.opcode, old(cpu)@),
    {
        let index = cpu.read_reg16(PAIR_HL);
        let n = cpu.read_memory(index as usize);
        cpu.write_reg8(REG_A, n);
        cpu.write_reg16(PAIR_HL, index.wrapping_add(1));
    }

    /// LD (HL+), A: stores A at HL; HL is incremented after.
    pub fn load_hl_a_inc(&self, cpu: &mut Cpu)
        ensures
            final(cpu)@ == effect(Handler::LoadHlAInc, self@.opcode, old(cpu)@),
    {
        let index = cpu.read_reg16(PAIR_HL);
        let n = cpu.read_reg8(REG_A);
        cpu.write_memory(index as usize, n);
        cpu.write_reg16(PAIR_HL, index.wrapping_add(1));
    }

    /// LD BC, nn: loads the 16-bit operand into BC.
    pub fn load_bc_nn(&self, cpu: &mut Cpu)
        ensures
            final(cpu)@ == effect(Handler::LoadBcNn, self@.opcode, old(cpu)@),
    {
        let lsb = cpu.read_first_operand();
        let msb = cpu.read_operand();
        cpu.write_reg16_fast(PAIR_BC, lsb, msb);
    }

    /// LD DE, nn: loads the 16-bit operand into DE.
    pub fn load_de_nn(&self, cpu: &mut Cpu)
        ensures
            final(cpu)@ == effect(Handler::LoadDeNn, self@.opcode, old(cpu)@),
    {
        let lsb = cpu.read_first_operand();
        let msb = cpu.read_operand();
        cpu.write_reg16_fast(PAIR_DE, lsb, msb);
    }

    /// LD HL, nn: loads the 16-bit operand into HL.
    pub fn load_hl_nn(&self, cpu: &mut Cpu)
        ensures
            final(cpu)@ == effect(Handler::LoadHlNn, self@.opcode, old(cpu)@),
    {
        let lsb = cpu.read_first_operand();
        let msb = cpu.read_operand();
        cpu.write_reg16_fast(PAIR_HL, lsb, msb);
    }

    /// LD SP, nn: loads the 16-bit operand into the stack pointer.
    pub fn load_sp_nn(&self, cpu: &mut Cpu)
        ensures
            final(cpu)@ == effect(Handler::LoadSpNn, self@.opcode, old(cpu)@),
    {
        let new_sp = cpu.read_operand_nn();
        cpu.write_sp(new_sp);
    }

    /// LD (nn), SP: stores the stack pointer at the address in the operand, lower
    /// byte first.
    pub fn load_nn_sp(&self, cpu: &mut Cpu)
        ensures
            final(cpu)@ == effect(Handler::LoadNnSp, self@.opcode, old(cpu)@),
    {
        let index = cpu.read_operand_nn() as usize;
        let sp = cpu.read_sp();
        cpu.write_memory_n_n(index, lower(sp), upper(sp));
    }

    /// LD SP, HL: copies HL into the stack pointer.
    pub fn load_sp_hl(&self, cpu: &mut Cpu)
        ensures
            final(cpu)@ == effect(Handler::LoadSpHl, self@.opcode, old(cpu)@),
    {
        let hl = cpu.read_reg16(PAIR_HL);
        cpu.write_sp(hl);
    }

    /// PUSH BC.
    pub fn push_bc(&self, cpu: &mut Cpu)
        ensures
            final(cpu)@ == effect(Handler::PushBc, self@.opcode, old(cpu)@),
    {
        cpu.push_rr(Reg16bit::BC);
    }

    /// PUSH DE.
    pub fn push_de(&self, cpu: &mut Cpu)
        ensures
            final(cpu)@ == effect(Handler::PushDe, self@.opcode, old(cpu)@),
    {
        cpu.push_rr(Reg16bit::DE);
    }

    /// PUSH HL.
    pub fn push_hl(&self, cpu: &mut Cpu)
        ensures
            final(cpu)@ == effect(Handler::PushHl, self@.opcode, old(cpu)@),
    {
        cpu.push_rr(Reg16bit::HL);
    }

    /// PUSH AF: pushes A, then F with its lower four bits cleared.
    pub fn push_af(&self, cpu: &mut Cpu)
        ensures
            final(cpu)@ == effect(Handler::PushAf, self@.opcode, old(cpu)@),
    {
        cpu.push_af();
    }

    /// POP BC.
    pub fn pop_bc(&self, cpu: &mut Cpu)
        ensures
            final(cpu)@ == effect(Handler::PopBc, self@.opcode, old(cpu)@),
    {
        cpu.pop_rr(Reg16bit::BC);
    }

    /// POP DE.
    pub fn pop_de(&self, cpu: &mut Cpu)
        ensures
            final(cpu)@ == effect(Handler::PopDe, self@.opcode, old(cpu)@),
    {
        cpu.pop_rr(Reg16bit::DE);
    }

    /// POP HL.
    pub fn pop_hl(&self, cpu: &mut Cpu)
        ensures
            final(cpu)@ == effect(Handler::PopHl, self@.opcode, old(cpu)@),
    {
        cpu.pop_rr(Reg16bit::HL);
    }

    /// POP AF: pops F, with its lower four bits cleared, then A.
    pub fn pop_af(&self, cpu: &mut Cpu)
        ensures
            final(cpu)@ == effect(Handler::PopAf, self@.opcode, old(cpu)@),
    {
        cpu.pop_af();
    }

    /// ADD A, r: adds to A register z.
    pub fn add_a_r(&self, cpu: &mut Cpu)
        ensures
            final(cpu)@ == effect(Handler::AddAR, self@.opcode, old(cpu)@),
    {
        let register_z = self.register_z();
        cpu.add_a_r(register_z, false);
    }

    /// ADD A, n: adds to A the operand.
    pub fn add_a_n(&self, cpu: &mut Cpu)
        ensures
            final(cpu)@ == effect(Handler::AddAN, self@.opcode, old(cpu)@),
    {
        cpu.add_a_n(false);
    }

    /// ADD A, (HL): adds to A the byte at HL.
    pub fn add_a_hl(&self, cpu: &mut Cpu)
        ensures
            final(cpu)@ == effect(Handler::AddAHl, self@.opcode, old(cpu)@),
    {
        cpu.add_a_hl(false);
    }

    /// ADC A, r: adds to A, with the carry flag, register z.
    pub fn adc_a_r(&self, cpu: &mut Cpu)
        ensures
            final(cpu)@ == effect(Handler::AdcAR, self@.opcode, old(cpu)@),
    {
        let register_z = self.register_z();
        cpu.add_a_r(register_z, true);
    }

    /// ADC A, n: adds to A, with the carry flag, the operand.
    pub fn adc_a_n(&self, cpu: &mut Cpu)
        ensures
            final(cpu)@ == effect(Handler::AdcAN, self@.opcode, old(cpu)@),
    {
        cpu.add_a_n(true);
    }

    /// ADC A, (HL): adds to A, with the carry flag, the byte at HL.
    pub fn adc_a_hl(&self, cpu: &mut Cpu)
        ensures
            final(cpu)@ == effect(Handler::AdcAHl, self@.opcode, old(cpu)@),
    {
        cpu.add_a_hl(true);
    }

    /// SUB A, r: subtracts from A register z.
    pub fn sub_a_r(&self, cpu: &mut Cpu)
        ensures
            final(cpu)@ == effect(Handler::SubAR, self@.opcode, old(cpu)@),
    {
        let register_z = self.register_z();
        cpu.sub_a_r(register_z, false);
    }

    /// SUB A, n: subtracts from A the operand.
    pub fn sub_a_n(&self, cpu: &mut Cpu)
        ensures
            final(cpu)@ == effect(Handler::SubAN, self@.opcode, old(cpu)@),
    {
        cpu.sub_a_n(false);
    }

    /// SUB A, (HL): subtracts from A the byte at HL.
    pub fn sub_a_hl(&self, cpu: &mut Cpu)
        ensures
            final(cpu)@ == effect(Handler::SubAHl, self@.opcode, old(cpu)@),
    {
        cpu.sub_a_hl(false);
    }

    /// SBC A, r: subtracts from A, with the carry flag, register z.
    pub fn sbc_a_r(&self, cpu: &mut Cpu)
        ensures
            final(cpu)@ == effect(Handler::SbcAR, self@.opcode, old(cpu)@),
    {
        let register_z = self.register_z();
        cpu.sub_a_r(register_z, true);
    }

    /// SBC A, n: subtracts from A, with the carry flag, the operand.
    pub fn sbc_a_n(&self, cpu: &mut Cpu)
        ensures
            final(cpu)@ == effect(Handler::SbcAN, self@.opcode, old(cpu)@),
    {
        cpu.sub_a_n(true);
    }

    /// SBC A, (HL): subtracts from A, with the carry flag, the byte at HL.
    pub fn sbc_a_hl(&self, cpu: &mut Cpu)
        ensures
            final(cpu)@ == effect(Handler::SbcAHl, self@.opcode, old(cpu)@),
    {
        cpu.sub_a_hl(true);
    }

    /// AND A, r: ands A with register z.
    pub fn and_a_r(&self, cpu: &mut Cpu)
        ensures
            final(cpu)@ == effect(Handler::AndAR, self@.opcode, old(cpu)@),
    {
        let register_z = self.register_z();
        cpu.and_a_r(register_z);
    }

    /// AND A, n: ands A with the operand.
    pub fn and_a_n(&self, cpu: &mut Cpu)
        ensures
            final(cpu)@ == effect(Handler::AndAN, self@.opcode, old(cpu)@),
    {
        cpu.and_a_n();
    }

    /// AND A, (HL): ands A with the byte at HL.
    pub fn and_a_hl(&self, cpu: &mut Cpu)
        ensures
            final(cpu)@ == effect(Handler::AndAHl, self@.opcode, old(cpu)@),
    {
        cpu.and_a_hl();
    }

    /// XOR A, r: xors A with register z.
    pub fn xor_a_r(&self, cpu: &mut Cpu)
        ensures
            final(cpu)@ == effect(Handler::XorAR, self@.opcode, old(cpu)@),
    {
        let register_z = self.register_z();
        cpu.xor_a_r(register_z);
    }

    /// XOR A, n: xors A with the operand.
    pub fn xor_a_n(&self, cpu: &mut Cpu)
        ensures
            final(cpu)@ == effect(Handler::XorAN, self@.opcode, old(cpu)@),
    {
        cpu.xor_a_n();
    }

    /// XOR A, (HL): xors A with the byte at HL.
    pub fn xor_a_hl(&self, cpu: &mut Cpu)
        ensures
            final(cpu)@ == effect(Handler::XorAHl, self@.opcode, old(cpu)@),
    {
        cpu.xor_a_hl();
    }

    /// OR A, r: ors A with register z.
    pub fn or_a_r(&self, cpu: &mut Cpu)
        ensures
            final(cpu)@ == effect(Handler::OrAR, self@.opcode, old(cpu)@),
    {
        let register_z = self.register_z();
        cpu.or_a_r(register_z);
    }

    /// OR A, n: ors A with the operand.
    pub fn or_a_n(&self, cpu: &mut Cpu)
        ensures
            final(cpu)@ == effect(Handler::OrAN, self@.opcode, old(cpu)@),
    {
        cpu.or_a_n();
    }

    /// OR A, (HL): ors A with the byte at HL.
    pub fn or_a_hl(&self, cpu: &mut Cpu)
        ensures
            final(cpu)@ == effect(Handler::OrAHl, self@.opcode, old(cpu)@),
    {
        cpu.or_a_hl();
    }

    /// CP A, r: sets the flags as a subtraction of register z from A does; A
    /// stays.
    pub fn cp_a_r(&self, cpu: &mut Cpu)
        ensures
            final(cpu)@ == effect(Handler::CpAR, self@.opcode, old(cpu)@),
    {
        let value = cpu.read_reg8(REG_A);
        let register_z = self.register_z();
        cpu.sub_a_r(register_z, false);
        cpu.write_reg8(REG_A, value);
    }

    /// CP A, n: sets the flags as a subtraction of the operand from A does; A
    /// stays.
    pub fn cp_a_n(&self, cpu: &mut Cpu)
        ensures
            final(cpu)@ == effect(Handler::CpAN, self@.opcode, old(cpu)@),
    {
        let value = cpu.read_reg8(REG_A);
        cpu.sub_a_n(false);
        cpu.write_reg8(REG_A, value);
    }

    /// CP A, (HL): sets the flags as a subtraction of the byte at HL from A does;
    /// A stays.
    pub fn cp_a_hl(&self, cpu: &mut Cpu)
        ensures
            final(cpu)@ == effect(Handler::CpAHl, self@.opcode, old(cpu)@),
    {
        let value = cpu.read_reg8(REG_A);
        cpu.sub_a_hl(false);
        cpu.write_reg8(REG_A, value);
    }

    /// INC r: increments register y.
    pub fn inc_r(&self, cpu: &mut Cpu)
        ensures
            final(cpu)@ == effect(Handler::IncR, self@.opcode, old(cpu)@),
    {
        let register_y = self.register_y();
        cpu.increment_r(register_y);
    }

    /// INC (HL): increments the byte at HL.
    pub fn inc_hl(&self, cpu: &mut Cpu)
        ensures
            final(cpu)@ == effect(Handler::IncHl, self@.opcode, old(cpu)@),
    {
        let index = cpu.read_reg16(PAIR_HL) as usize;
        cpu.increment_memory(index);
    }

    /// DEC r: decrements register y.
    pub fn dec_r(&self, cpu: &mut Cpu)
        ensures
            final(cpu)@ == effect(Handler::DecR, self@.opcode, old(cpu)@),
    {
        let register_y = self.register_y();
        cpu.decrement_r(register_y);
    }

    /// DEC (HL): decrements the byte at HL.
    pub fn dec_hl(&self, cpu: &mut Cpu)
        ensures
            final(cpu)@ == effect(Handler::DecHl, self@.opcode, old(cpu)@),
    {
        let index = cpu.read_reg16(PAIR_HL) as usize;
        cpu.decrement_memory(index);
    }

    /// DAA: adjusts A to two decimal digits.
    pub fn daa(&self, cpu: &mut Cpu)
        ensures
            final(cpu)@ == effect(Handler::Daa, self@.opcode, old(cpu)@),
    {
        cpu.daa();
    }

    /// CPL: flips every bit of A.
    pub fn cpl(&self, cpu: &mut Cpu)
        ensures
            final(cpu)@ == effect(Handler::Cpl, self@.opcode, old(cpu)@),
    {
        cpu.complement_a();
    }

    /// ADD HL, rr: adds pair p to HL.
    pub fn add_hl_rr(&self, cpu: &mut Cpu)
        ensures
            final(cpu)@ == effect(Handler::AddHlRr, self@.opcode, old(cpu)@),
    {
        let register_p = self.register_p();
        cpu.add_hl_rr(register_p);
    }

    /// ADD HL, SP: adds the stack pointer to HL.
    pub fn add_hl_sp(&self, cpu: &mut Cpu)
        ensures
            final(cpu)@ == effect(Handler::AddHlSp, self@.opcode, old(cpu)@),
    {
        cpu.add_hl_sp();
    }

    /// INC rr: increments pair p. No flag changes.
    pub fn inc_rr(&self, cpu: &mut Cpu)
        ensures
            final(cpu)@ == effect(Handler::IncRr, self@.opcode, old(cpu)@),
    {
        let register_p = self.register_p();
        let value = cpu.read_reg16(register_p);
        cpu.write_reg16(register_p, value.wrapping_add(1));
    }

    /// INC SP: increments the stack pointer. No flag changes.
    pub fn inc_sp(&self, cpu: &mut Cpu)
        ensures
            final(cpu)@ == effect(Handler::IncSp, self@.opcode, old(cpu)@),
    {
        cpu.increment_sp();
    }

    /// DEC rr: decrements pair p. No flag changes.
    pub fn dec_rr(&self, cpu: &mut Cpu)
        ensures
            final(cpu)@ == effect(Handler::DecRr, self@.opcode, old(cpu)@),
    {
        let register_p = self.register_p();
        let value = cpu.read_reg16(register_p);
        cpu.write_reg16(register_p, value.wrapping_sub(1));
    }

    /// DEC SP: decrements the stack pointer. No flag changes.
    pub fn dec_sp(&self, cpu: &mut Cpu)
        ensures
            final(cpu)@ == effect(Handler::DecSp, self@.opcode, old(cpu)@),
    {
        cpu.decrement_sp();
    }

    /// ADD SP, d: adds the signed operand to the stack pointer.
    pub fn add_sp_dd(&self, cpu: &mut Cpu)
        ensures
            final(cpu)@ == effect(Handler::AddSpDd, self@.opcode, old(cpu)@),
    {
        let value = cpu.add_sp_dd();
        cpu.write_sp(value);
    }

    /// LD HL, SP+d: loads the stack pointer plus the signed operand into HL.
    pub fn ld_hl_sp_dd(&self, cpu: &mut Cpu)
        ensures
            final(cpu)@ == effect(Handler::LdHlSpDd, self@.opcode, old(cpu)@),
    {
        let value = cpu.add_sp_dd();
        cpu.write_reg16(PAIR_HL, value);
    }

    /// RLCA: rotates A to the left; bit 7 goes to bit 0 and to the carry. The
    /// zero flag is cleared.
    pub fn rlca(&self, cpu: &mut Cpu)
        ensures
            final(cpu)@ == effect(Handler::Rlca, self@.opcode, old(cpu)@),
    {
        let value = cpu.read_reg8(REG_A);
        let new_value = cpu.rlc_n(value, false);
        cpu.write_reg8(REG_A, new_value);
    }

    /// RRCA: rotates A to the right; bit 0 goes to bit 7 and to the carry. The
    /// zero flag is cleared.
    pub fn rrca(&self, cpu: &mut Cpu)
        ensures
            final(cpu)@ == effect(Handler::Rrca, self@.opcode, old(cpu)@),
    {
        let value = cpu.read_reg8(REG_A);
        let new_value = cpu.rrc_n(value, false);
        cpu.write_reg8(REG_A, new_value);
    }

    /// RLA: rotates A to the left through the carry. The zero flag is cleared.
    pub fn rla(&self, cpu: &mut Cpu)
        ensures
            final(cpu)@ == effect(Handler::Rla, self@.opcode, old(cpu)@),
    {
        let value = cpu.read_reg8(REG_A);
        let new_value = cpu.rl_n(value, false);
        cpu.write_reg8(REG_A, new_value);
    }

    /// RRA: rotates A to the right through the carry. The zero flag is cleared.
    pub fn rra(&self, cpu: &mut Cpu)
        ensures
            final(cpu)@ == effect(Handler::Rra, self@.opcode, old(cpu)@),
    {
        let value = cpu.read_reg8(REG_A);
        let new_value = cpu.rr_n(value, false);
        cpu.write_reg8(REG_A, new_value);
    }

    /// RLC r: rotates register z to the left; bit 7 goes to bit 0 and to the
    /// carry.
    pub fn rlc_r(&self, cpu: &mut Cpu)
        ensures
            final(cpu)@ == effect(Handler::RlcR, self@.opcode, old(cpu)@),
    {
        let reg_index = self.register_z();
        let reg_value = cpu.read_reg8(reg_index);
        let new_value = cpu.rlc_n(reg_value, true);
        cpu.write_reg8(reg_index, new_value);
    }

    /// RLC (HL): rotates the byte at HL to the left; bit 7 goes to bit 0 and to
    /// the carry.
    pub fn rlc_hl(&self, cpu: &mut Cpu)
        ensures
            final(cpu)@ == effect(Handler::RlcHl, self@.opcode, old(cpu)@),
    {
        let mem_index = cpu.read_reg16(PAIR_HL) as usize;
        let mem_value = cpu.read_memory(mem_index);
        let new_value = cpu.rlc_n(mem_value, true);
        cpu.write_memory(mem_index, new_value);
    }

    /// RRC r: rotates register z to the right; bit 0 goes to bit 7 and to the
    /// carry.
    pub fn rrc_r(&self, cpu: &mut Cpu)
        ensures
            final(cpu)@ == effect(Handler::RrcR, self@.opcode, old(cpu)@),
    {
        let reg_index = self.register_z();
        let reg_value = cpu.read_reg8(reg_index);
        let new_value = cpu.rrc_n(reg_value, true);
        cpu.write_reg8(reg_index, new_value);
    }

    /// RRC (HL): rotates the byte at HL to the right; bit 0 goes to bit 7 and to
    /// the carry.
    pub fn rrc_hl(&self, cpu: &mut Cpu)
        ensures
            final(cpu)@ == effect(Handler::RrcHl, self@.opcode, old(cpu)@),
    {
        let mem_index = cpu.read_reg16(PAIR_HL) as usize;
        let mem_value = cpu.read_memory(mem_index);
        let new_value = cpu.rrc_n(mem_value, true);
        cpu.write_memory(mem_index, new_value);
    }

    /// RL r: rotates register z to the left through the carry.
    pub fn rl_r(&self, cpu: &mut Cpu)
        ensures
            final(cpu)@ == effect(Handler::RlR, self@.opcode, old(cpu)@),
    {
        let reg_index = self.register_z();
        let reg_value = cpu.read_reg8(reg_index);
        let new_value = cpu.rl_n(reg_value, true);
        cpu.write_reg8(reg_index, new_value);
    }

    /// RL (HL): rotates the byte at HL to the left through the carry.
    pub fn rl_hl(&self, cpu: &mut Cpu)
        ensures
            final(cpu)@ == effect(Handler::RlHl, self@.opcode, old(cpu)@),
    {
        let mem_index = cpu.read_reg16(PAIR_HL) as usize;
        let mem_value = cpu.read_memory(mem_index);
        let new_value = cpu.rl_n(mem_value, true);
        cpu.write_memory(mem_index, new_value);
    }

    /// RR r: rotates register z to the right through the carry.
    pub fn rr_r(&self, cpu: &mut Cpu)
        ensures
            final(cpu)@ == effect(Handler::RrR, self@.opcode, old(cpu)@),
    {
        let reg_index = self.register_z();
        let reg_value = cpu.read_reg8(reg_index);
        let new_value = cpu.rr_n(reg_value, true);
        cpu.write_reg8(reg_index, new_value);
    }

    /// RR (HL): rotates the byte at HL to the right through the carry.
    pub fn rr_hl(&self, cpu: &mut Cpu)
        ensures
            final(cpu)@ == effect(Handler::RrHl, self@.opcode, old(cpu)@),
    {
        let mem_index = cpu.read_reg16(PAIR_HL) as usize;
        let mem_value = cpu.read_memory(mem_index);
        let new_value = cpu.rr_n(mem_value, true);
        cpu.write_memory(mem_index, new_value);
    }

    /// SLA r: shifts register z to the left; bit 7 goes to the carry.
    pub fn sla_r(&self, cpu: &mut Cpu)
        ensures
            final(cpu)@ == effect(Handler::SlaR, self@.opcode, old(cpu)@),
    {
        let reg_index = self.register_z();
        let reg_value = cpu.read_reg8(reg_index);
        let new_value = cpu.shift_left_arithmetic(reg_value);
        cpu.write_reg8(reg_index, new_value);
    }

    /// SLA (HL): shifts the byte at HL to the left; bit 7 goes to the carry.
    pub fn sla_hl(&self, cpu: &mut Cpu)
        ensures
            final(cpu)@ == effect(Handler::SlaHl, self@.opcode, old(cpu)@),
    {
        let mem_index = cpu.read_reg16(PAIR_HL) as usize;
        let mem_value = cpu.read_memory(mem_index);
        let new_value = cpu.shift_left_arithmetic(mem_value);
        cpu.write_memory(mem_index, new_value);
    }

    /// SRA r: shifts register z to the right; bit 7 stays and bit 0 goes to the
    /// carry.
    pub fn sra_r(&self, cpu: &mut Cpu)
        ensures
            final(cpu)@ == effect(Handler::SraR, self@.opcode, old(cpu)@),
    {
        let reg_index = self.register_z();
        let reg_value = cpu.read_reg8(reg_index);
        let new_value = cpu.shift_right_arithmetic(reg_value);
        cpu.write_reg8(reg_index, new_value);
    }

    /// SRA (HL): shifts the byte at HL to the right; bit 7 stays and bit 0 goes
    /// to the carry.
    pub fn sra_hl(&self, cpu: &mut Cpu)
        ensures
            final(cpu)@ == effect(Handler::SraHl, self@.opcode, old(cpu)@),
    {
        let mem_index = cpu.read_reg16(PAIR_HL) as usize;
        let mem_value = cpu.read_memory(mem_index);
        let new_value = cpu.shift_right_arithmetic(mem_value);
        cpu.write_memory(mem_index, new_value);
    }

    /// SRL r: shifts register z to the right; bit 0 goes to the carry.
    pub fn srl_r(&self, cpu: &mut Cpu)
        ensures
            final(cpu)@ == effect(Handler::SrlR, self@.opcode, old(cpu)@),
    {
        let reg_index = self.register_z();
        let reg_value = cpu.read_reg8(reg_index);
        let new_value = cpu.shift_right_logical(reg_value);
        cpu.write_reg8(reg_index, new_value);
    }

    /// SRL (HL): shifts the byte at HL to the right; bit 0 goes to the carry.
    pub fn srl_hl(&self, cpu: &mut Cpu)
        ensures
            final(cpu)@ == effect(Handler::SrlHl, self@.opcode, old(cpu)@),
    {
        let mem_index = cpu.read_reg16(PAIR_HL) as usize;
        let mem_value = cpu.read_memory(mem_index);
        let new_value = cpu.shift_right_logical(mem_value);
        cpu.write_memory(mem_index, new_value);
    }

    /// SWAP r: exchanges the two halves of register z.
    pub fn swap_r(&self, cpu: &mut Cpu)
        ensures
            final(cpu)@ == effect(Handler::SwapR, self@.opcode, old(cpu)@),
    {
        let reg_index = self.register_z();
        let reg_value = cpu.read_reg8(reg_index);
        let new_value = cpu.swap(reg_value);
        cpu.write_reg8(reg_index, new_value);
    }

    /// SWAP (HL): exchanges the two halves of the byte at HL.
    pub fn swap_hl(&self, cpu: &mut Cpu)
        ensures
            final(cpu)@ == effect(Handler::SwapHl, self@.opcode, old(cpu)@),
    {
        let mem_index = cpu.read_reg16(PAIR_HL) as usize;
        let mem_value = cpu.read_memory(mem_index);
        let new_value = cpu.swap(mem_value);
        cpu.write_memory(mem_index, new_value);
    }

    /// BIT b, r: tests bit y of register z.
    pub fn bit_r(&self, cpu: &mut Cpu)
        ensures
            final(cpu)@ == effect(Handler::BitR, self@.opcode, old(cpu)@),
    {
        let reg_index = self.register_z();
        let bit = self.bit_y();
        let reg_value = cpu.read_reg8(reg_index);
        cpu.bit_check(reg_value, bit);
    }

    /// BIT b, (HL): tests bit y of the byte at HL.
    pub fn bit_hl(&self, cpu: &mut Cpu)
        ensures
            final(cpu)@ == effect(Handler::BitHl, self@.opcode, old(cpu)@),
    {
        let mem_index = cpu.read_reg16(PAIR_HL) as usize;
        let bit = self.bit_y();
        let mem_value = cpu.read_memory(mem_index);
        cpu.bit_check(mem_value, bit);
    }

    /// SET b, r: sets bit y of register z. No flag changes.
    pub fn set_r(&self, cpu: &mut Cpu)
        ensures
            final(cpu)@ == effect(Handler::SetR, self@.opcode, old(cpu)@),
    {
        let reg_index = self.register_z();
        let bit = self.bit_y();
        let reg_value = cpu.read_reg8(reg_index);
        let new_value = cpu.bit_set(reg_value, bit);
        cpu.write_reg8(reg_index, new_value);
    }

    /// SET b, (HL): sets bit y of the byte at HL. No flag changes.
    pub fn set_hl(&self, cpu: &mut Cpu)
        ensures
            final(cpu)@ == effect(Handler::SetHl, self@.opcode, old(cpu)@),
    {
        let mem_index = cpu.read_reg16(PAIR_HL) as usize;
        let bit = self.bit_y();
        let mem_value = cpu.read_memory(mem_index);
        let new_value = cpu.bit_set(mem_value, bit);
        cpu.write_memory(mem_index, new_value);
    }

    /// RES b, r: clears bit y of register z. No flag changes.
    pub fn res_r(&self, cpu: &mut Cpu)
        ensures
            final(cpu)@ == effect(Handler::ResR, self@.opcode, old(cpu)@),
    {
        let reg_index = self.register_z();
        let bit = self.bit_y();
        let reg_value = cpu.read_reg8(reg_index);
        let new_value = cpu.bit_clear(reg_value, bit);
        cpu.write_reg8(reg_index, new_value);
    }

    /// RES b, (HL): clears bit y of the byte at HL. No flag changes.
    pub fn res_hl(&self, cpu: &mut Cpu)
        ensures
            final(cpu)@ == effect(Handler::ResHl, self@.opcode, old(cpu)@),
    {
        let mem_index = cpu.read_reg16(PAIR_HL) as usize;
        let bit = self.bit_y();
        let mem_value = cpu.read_memory(mem_index);
        let new_value = cpu.bit_clear(mem_value, bit);
        cpu.write_memory(mem_index, new_value);
    }

    /// CCF: flips the carry flag.
    pub fn ccf(&self, cpu: &mut Cpu)
        ensures
            final(cpu)@ == effect(Handler::Ccf, self@.opcode, old(cpu)@),
    {
        cpu.ccf();
    }

    /// SCF: sets the carry flag.
    pub fn scf(&self, cpu: &mut Cpu)
        ensures
            final(cpu)@ == effect(Handler::Scf, self@.opcode, old(cpu)@),
    {
        cpu.scf();
    }

    /// NOP: nothing changes.
    pub fn nop(&self, cpu: &mut Cpu)
        ensures
            final(cpu)@ == effect(Handler::Nop, self@.opcode, old(cpu)@),
    {
    }

    /// HALT: stops the processor until the timer interrupt is pending.
    pub fn halt(&self, cpu: &mut Cpu)
        ensures
            final(cpu)@ == effect(Handler::Halt, self@.opcode, old(cpu)@),
    {
        cpu.set_halt();
    }

    /// STOP: standby is not modelled; nothing changes.
    pub fn stop(&self, cpu: &mut Cpu)
        ensures
            final(cpu)@ == effect(Handler::Stop, self@.opcode, old(cpu)@),
    {
    }

    /// DI: switches the servicing of interrupts off.
    pub fn di(&self, cpu: &mut Cpu)
        ensures
            final(cpu)@ == effect(Handler::Di, self@.opcode, old(cpu)@),
    {
        cpu.disable_interupts();
    }

    /// EI: switches the servicing of interrupts on.
    pub fn ei(&self, cpu: &mut Cpu)
        ensures
            final(cpu)@ == effect(Handler::Ei, self@.opcode, old(cpu)@),
    {
        cpu.enable_interupts();
    }

    /// JP nn: continues at the address in the operand.
    #[inline]
    pub fn jp_nn(&self, cpu: &mut Cpu)
        ensures
            final(cpu)@ == effect(Handler::JpNn, self@.opcode, old(cpu)@),
    {
        let new_pc = cpu.read_operand_nn();
        cpu.write_pc(new_pc);
    }

    /// JP HL: continues at HL.
    pub fn jp_hl(&self, cpu: &mut Cpu)
        ensures
            final(cpu)@ == effect(Handler::JpHl, self@.opcode, old(cpu)@),
    {
        let hl = cpu.read_reg16(PAIR_HL);
        cpu.write_pc(hl);
    }

    /// JP cc, nn: continues at the address in the operand where condition y
    /// holds.
    pub fn jp_conditional(&self, cpu: &mut Cpu)
        ensures
            final(cpu)@ == effect(Handler::JpConditional, self@.opcode, old(cpu)@),
    {
        let check_flag = self.bit_y();
        let jump = Self::check_flag(cpu, check_flag);

        if jump {
            self.jp_nn(cpu);
        }
    }

    /// JR d: moves the program counter by the signed operand.
    #[inline]
    pub fn jr_dd(&self, cpu: &mut Cpu)
        ensures
            final(cpu)@ == effect(Handler::JrDd, self@.opcode, old(cpu)@),
    {
        let pc = cpu.read_pc();
        let d = cpu.read_operand();
        cpu.write_pc(displace(pc, d));
    }

    /// JR cc, d: moves the program counter by the signed operand where condition
    /// y - 4 holds.
    pub fn jr_conditional(&self, cpu: &mut Cpu)
        ensures
            final(cpu)@ == effect(Handler::JrConditional, self@.opcode, old(cpu)@),
    {
        let y = self.bit_y();
        if y >= 4 {
            let jump = Self::check_flag(cpu, y - 4);

            if jump {
                self.jr_dd(cpu);
            }
        }
    }

    /// CALL nn: pushes the program counter and continues at the address in the
    /// operand.
    #[inline]
    pub fn call_nn(&self, cpu: &mut Cpu)
        ensures
            final(cpu)@ == effect(Handler::CallNn, self@.opcode, old(cpu)@),
    {
        let address = cpu.read_operand_nn();
        cpu.call(address);
    }

    /// CALL cc, nn: calls the address in the operand where condition y holds.
    pub fn call_conditional(&self, cpu: &mut Cpu)
        ensures
            final(cpu)@ == effect(Handler::CallConditional, self@.opcode, old(cpu)@),
    {
        let check_flag = self.bit_y();
        let call = Self::check_flag(cpu, check_flag);

        if call {
            self.call_nn(cpu);
        }
    }

    /// RET: pops the program counter.
    #[inline]
    pub fn ret(&self, cpu: &mut Cpu)
        ensures
            final(cpu)@ == effect(Handler::Ret, self@.opcode, old(cpu)@),
    {
        cpu.ret();
    }

    /// RET cc: pops the program counter where condition y holds.
    pub fn ret_conditional(&self, cpu: &mut Cpu)
        ensures
            final(cpu)@ == effect(Handler::RetConditional, self@.opcode, old(cpu)@),
    {
        let check_flag = self.bit_y();
        let ret = Self::check_flag(cpu, check_flag);

        if ret {
            self.ret(cpu);
        }
    }

    /// RETI: pops the program counter and switches the servicing of interrupts
    /// on.
    pub fn reti(&self, cpu: &mut Cpu)
        ensures
            final(cpu)@ == effect(Handler::Reti, self@.opcode, old(cpu)@),
    {
        self.ret(cpu);
        self.ei(cpu);
    }

    /// RST: calls the fixed address 8 * y.
    pub fn rst(&self, cpu: &mut Cpu)
        ensures
            final(cpu)@ == effect(Handler::Rst, self@.opcode, old(cpu)@),
    {
        let address = (self.bit_y() * 8) as u16;
        cpu.call(address);
    }
}

} // verus!
