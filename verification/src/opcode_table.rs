//! The two opcode tables: 256 entries for the opcodes that stand alone, and 256
//! for those that follow the prefix 0xcb.
//!
//! The tables are written out entry by entry. What they must hold is stated
//! apart from them, as rules on the bit fields of an opcode, and each table is
//! proved to agree with its rules.

use vstd::prelude::*;
use crate::bits::{y_bits, z_bits};
use crate::instructions::{Handler, Opcode, OpcodeView};

verus! {

/// The number of entries in a table.
pub const TABLE_SIZE: usize = 256;

/// The opcode that selects the second table.
pub const PREFIX_CB: u8 = 0xcb;

/// Cycles, length in bytes and operation of an instruction.
pub struct Rule {
    pub cycles: u8,
    pub length: u8,
    pub handler: Handler,
}

pub open spec fn rule(cycles: u8, length: u8, handler: Handler) -> Rule {
    Rule { cycles, length, handler }
}

/// Bits 6 and 7 of an opcode: the quarter of the table that it lies in.
pub open spec fn x_bits(opcode: u8) -> int {
    opcode as int / 64
}

/// The operation on A and a register that a field selects.
pub open spec fn alu_register(y: int) -> Handler {
    if y == 0 {
        Handler::AddAR
    } else if y == 1 {
        Handler::AdcAR
    } else if y == 2 {
        Handler::SubAR
    } else if y == 3 {
        Handler::SbcAR
    } else if y == 4 {
        Handler::AndAR
    } else if y == 5 {
        Handler::XorAR
    } else if y == 6 {
        Handler::OrAR
    } else {
        Handler::CpAR
    }
}

/// The operation on A and the byte at HL that a field selects.
pub open spec fn alu_memory(y: int) -> Handler {
    if y == 0 {
        Handler::AddAHl
    } else if y == 1 {
        Handler::AdcAHl
    } else if y == 2 {
        Handler::SubAHl
    } else if y == 3 {
        Handler::SbcAHl
    } else if y == 4 {
        Handler::AndAHl
    } else if y == 5 {
        Handler::XorAHl
    } else if y == 6 {
        Handler::OrAHl
    } else {
        Handler::CpAHl
    }
}

/// The operation on A and the operand that a field selects.
pub open spec fn alu_operand(y: int) -> Handler {
    if y == 0 {
        Handler::AddAN
    } else if y == 1 {
        Handler::AdcAN
    } else if y == 2 {
        Handler::SubAN
    } else if y == 3 {
        Handler::SbcAN
    } else if y == 4 {
        Handler::AndAN
    } else if y == 5 {
        Handler::XorAN
    } else if y == 6 {
        Handler::OrAN
    } else {
        Handler::CpAN
    }
}

/// The rotate or shift of a register that a field selects.
pub open spec fn shift_register(y: int) -> Handler {
    if y == 0 {
        Handler::RlcR
    } else if y == 1 {
        Handler::RrcR
    } else if y == 2 {
        Handler::RlR
    } else if y == 3 {
        Handler::RrR
    } else if y == 4 {
        Handler::SlaR
    } else if y == 5 {
        Handler::SraR
    } else if y == 6 {
        Handler::SwapR
    } else {
        Handler::SrlR
    }
}

/// The rotate or shift of the byte at HL that a field selects.
pub open spec fn shift_memory(y: int) -> Handler {
    if y == 0 {
        Handler::RlcHl
    } else if y == 1 {
        Handler::RrcHl
    } else if y == 2 {
        Handler::RlHl
    } else if y == 3 {
        Handler::RrHl
    } else if y == 4 {
        Handler::SlaHl
    } else if y == 5 {
        Handler::SraHl
    } else if y == 6 {
        Handler::SwapHl
    } else {
        Handler::SrlHl
    }
}

/// Opcodes 0x00 to 0x3f: loads of operands, 16-bit arithmetic, increments and
/// decrements, relative jumps, and operations on A alone. Where a register
/// field is 6 the byte at HL is meant, which costs two cycles more. Pair 3 is
/// the stack pointer here.
pub open spec fn rule_quarter_0(y: int, z: int) -> Rule {
    let p = y / 2;
    let q = y % 2;
    if z == 0 {
        if y == 0 {
            rule(1, 1, Handler::Nop)
        } else if y == 1 {
            rule(5, 3, Handler::LoadNnSp)
        } else if y == 2 {
            rule(1, 2, Handler::Stop)
        } else if y == 3 {
            rule(3, 2, Handler::JrDd)
        } else {
            rule(3, 2, Handler::JrConditional)
        }
    } else if z == 1 {
        if q == 0 {
            rule(3, 3, if p == 0 {
                Handler::LoadBcNn
            } else if p == 1 {
                Handler::LoadDeNn
            } else if p == 2 {
                Handler::LoadHlNn
            } else {
                Handler::LoadSpNn
            })
        } else if p == 3 {
            rule(2, 1, Handler::AddHlSp)
        } else {
            rule(2, 1, Handler::AddHlRr)
        }
    } else if z == 2 {
        if q == 0 {
            rule(2, 1, if p == 0 {
                Handler::LoadBcA
            } else if p == 1 {
                Handler::LoadDeA
            } else if p == 2 {
                Handler::LoadHlAInc
            } else {
                Handler::LoadHlADec
            })
        } else {
            rule(2, 1, if p == 0 {
                Handler::LoadABc
            } else if p == 1 {
                Handler::LoadADe
            } else if p == 2 {
                Handler::LoadAHlInc
            } else {
                Handler::LoadAHlDec
            })
        }
    } else if z == 3 {
        if q == 0 {
            rule(
                2,
                1,
                if p == 3 {
                    Handler::IncSp
                } else {
                    Handler::IncRr
                },
            )
        } else {
            rule(
                2,
                1,
                if p == 3 {
                    Handler::DecSp
                } else {
                    Handler::DecRr
                },
            )
        }
    } else if z == 4 {
        if y == 6 {
            rule(3, 1, Handler::IncHl)
        } else {
            rule(1, 1, Handler::IncR)
        }
    } else if z == 5 {
        if y == 6 {
            rule(3, 1, Handler::DecHl)
        } else {
            rule(1, 1, Handler::DecR)
        }
    } else if z == 6 {
        if y == 6 {
            rule(3, 2, Handler::LoadHlN)
        } else {
            rule(2, 2, Handler::LoadRN)
        }
    } else {
        rule(1, 1, if y == 0 {
            Handler::Rlca
        } else if y == 1 {
            Handler::Rrca
        } else if y == 2 {
            Handler::Rla
        } else if y == 3 {
            Handler::Rra
        } else if y == 4 {
            Handler::Daa
        } else if y == 5 {
            Handler::Cpl
        } else if y == 6 {
            Handler::Scf
        } else {
            Handler::Ccf
        })
    }
}

/// Opcodes 0x40 to 0x7f: loads between registers, and HALT where both fields
/// are 6.
pub open spec fn rule_quarter_1(y: int, z: int) -> Rule {
    if y == 6 && z == 6 {
        rule(1, 1, Handler::Halt)
    } else if z == 6 {
        rule(2, 1, Handler::LoadRHl)
    } else if y == 6 {
        rule(2, 1, Handler::LoadHlR)
    } else {
        rule(1, 1, Handler::LoadRR)
    }
}

/// Opcodes 0x80 to 0xbf: arithmetic and logic on A.
pub open spec fn rule_quarter_2(y: int, z: int) -> Rule {
    if z == 6 {
        rule(2, 1, alu_memory(y))
    } else {
        rule(1, 1, alu_register(y))
    }
}

/// Opcodes 0xc0 to 0xff: returns, jumps, calls and restarts, the stack, loads
/// through the top page and 16-bit addresses, and arithmetic on A with an
/// operand. Pair 3 is AF here. An opcode that stands for no instruction does
/// nothing, in one cycle. The prefix does nothing itself and is two bytes
/// long, so that the byte after it is the operand that selects in the second
/// table.
pub open spec fn rule_quarter_3(y: int, z: int) -> Rule {
    let p = y / 2;
    let q = y % 2;
    if z == 0 {
        if y < 4 {
            rule(2, 1, Handler::RetConditional)
        } else if y == 4 {
            rule(3, 2, Handler::LdhNA)
        } else if y == 5 {
            rule(4, 2, Handler::AddSpDd)
        } else if y == 6 {
            rule(3, 2, Handler::LdhAN)
        } else {
            rule(3, 2, Handler::LdHlSpDd)
        }
    } else if z == 1 {
        if q == 0 {
            rule(3, 1, if p == 0 {
                Handler::PopBc
            } else if p == 1 {
                Handler::PopDe
            } else if p == 2 {
                Handler::PopHl
            } else {
                Handler::PopAf
            })
        } else if p == 0 {
            rule(4, 1, Handler::Ret)
        } else if p == 1 {
            rule(4, 1, Handler::Reti)
        } else if p == 2 {
            rule(1, 1, Handler::JpHl)
        } else {
            rule(2, 1, Handler::LoadSpHl)
        }
    } else if z == 2 {
        if y < 4 {
            rule(3, 3, Handler::JpConditional)
        } else if y == 4 {
            rule(2, 1, Handler::LdhCA)
        } else if y == 5 {
            rule(4, 3, Handler::LoadNnA)
        } else if y == 6 {
            rule(2, 1, Handler::LdhAC)
        } else {
            rule(4, 3, Handler::LoadANn)
        }
    } else if z == 3 {
        if y == 0 {
            rule(4, 3, Handler::JpNn)
        } else if y == 1 {
            rule(1, 2, Handler::Nop)
        } else if y == 6 {
            rule(1, 1, Handler::Di)
        } else if y == 7 {
            rule(1, 1, Handler::Ei)
        } else {
            rule(1, 1, Handler::Nop)
        }
    } else if z == 4 {
        if y < 4 {
            rule(3, 3, Handler::CallConditional)
        } else {
            rule(1, 1, Handler::Nop)
        }
    } else if z == 5 {
        if q == 0 {
            rule(4, 1, if p == 0 {
                Handler::PushBc
            } else if p == 1 {
                Handler::PushDe
            } else if p == 2 {
                Handler::PushHl
            } else {
                Handler::PushAf
            })
        } else if p == 0 {
            rule(6, 3, Handler::CallNn)
        } else {
            rule(1, 1, Handler::Nop)
        }
    } else if z == 6 {
        rule(2, 2, alu_operand(y))
    } else {
        rule(4, 1, Handler::Rst)
    }
}

/// What the first table holds for an opcode.
pub open spec fn unprefixed_rule(opcode: u8) -> Rule {
    let x = x_bits(opcode);
    if x == 0 {
        rule_quarter_0(y_bits(opcode), z_bits(opcode))
    } else if x == 1 {
        rule_quarter_1(y_bits(opcode), z_bits(opcode))
    } else if x == 2 {
        rule_quarter_2(y_bits(opcode), z_bits(opcode))
    } else {
        rule_quarter_3(y_bits(opcode), z_bits(opcode))
    }
}

/// What the second table holds for an opcode: rotates and shifts in the first
/// quarter, then the test, the clearing and the setting of a bit. Every entry
/// is two bytes long, the prefix included.
pub open spec fn prefixed_rule(opcode: u8) -> Rule {
    let x = x_bits(opcode);
    let y = y_bits(opcode);
    if z_bits(opcode) == 6 {
        if x == 0 {
            rule(4, 2, shift_memory(y))
        } else if x == 1 {
            rule(3, 2, Handler::BitHl)
        } else if x == 2 {
            rule(4, 2, Handler::ResHl)
        } else {
            rule(4, 2, Handler::SetHl)
        }
    } else {
        if x == 0 {
            rule(2, 2, shift_register(y))
        } else if x == 1 {
            rule(2, 2, Handler::BitR)
        } else if x == 2 {
            rule(2, 2, Handler::ResR)
        } else {
            rule(2, 2, Handler::SetR)
        }
    }
}

/// The entry that a rule gives for an opcode.
pub open spec fn entry_of(opcode: u8, rule: Rule) -> OpcodeView {
    OpcodeView { opcode, cycles: rule.cycles, length: rule.length, handler: rule.handler }
}

/// The first table: the opcodes that stand alone.
pub open spec fn unprefixed_table() -> Seq<OpcodeView> {
    Seq::new(TABLE_SIZE as nat, |i: int| entry_of(i as u8, unprefixed_rule(i as u8)))
}

/// The second table: the opcodes that follow the prefix.
pub open spec fn prefixed_table() -> Seq<OpcodeView> {
    Seq::new(TABLE_SIZE as nat, |i: int| entry_of(i as u8, prefixed_rule(i as u8)))
}

pub struct OpcodeTable {
    table: [Opcode; 256],
}

impl View for OpcodeTable {
    type V = Seq<OpcodeView>;

    closed spec fn view(&self) -> Seq<OpcodeView> {
        Seq::new(TABLE_SIZE as nat, |i: int| self.table[i]@)
    }
}

impl OpcodeTable {
    /// A table has an entry for every opcode.
    pub proof fn lemma_len(&self)
        ensures
            self@.len() == TABLE_SIZE,
    {
    }

    /// The entry of an opcode.
    pub fn get(&self, opcode: u8) -> (entry: &Opcode)
        ensures
            entry@ == self@[opcode as int],
    {
        &self.table[opcode as usize]
    }

    pub fn init_unprefix_insturction_table() -> (table: OpcodeTable)
        ensures
            table@ == unprefixed_table(),
    {
        let table = OpcodeTable {
            table: [
                Opcode::new(0x00, "No Op".to_string(), 1, 1, Handler::Nop),
                Opcode::new(0x01, "LD BC, u16".to_string(), 3, 3, Handler::LoadBcNn),
                Opcode::new(0x02, "LD (BC), A".to_string(), 2, 1, Handler::LoadBcA),
                Opcode::new(0x03, "INC BC".to_string(), 2, 1, Handler::IncRr),
                Opcode::new(0x04, "INC B".to_string(), 1, 1, Handler::IncR),
                Opcode::new(0x05, "DEC B".to_string(), 1, 1, Handler::DecR),
                Opcode::new(0x06, "LD B, u8".to_string(), 2, 2, Handler::LoadRN),
                Opcode::new(0x07, "RLCA".to_string(), 1, 1, Handler::Rlca),
                Opcode::new(0x08, "LD (u16), SP".to_string(), 5, 3, Handler::LoadNnSp),
                Opcode::new(0x09, "ADD HL, BC".to_string(), 2, 1, Handler::AddHlRr),
                Opcode::new(0x0A, "LD A, (BC)".to_string(), 2, 1, Handler::LoadABc),
                Opcode::new(0x0B, "DEC BC".to_string(), 2, 1, Handler::DecRr),
                Opcode::new(0x0C, "INC C".to_string(), 1, 1, Handler::IncR),
                Opcode::new(0x0D, "DEC C".to_string(), 1, 1, Handler::DecR),
                Opcode::new(0x0E, "LD C, u8".to_string(), 2, 2, Handler::LoadRN),
                Opcode::new(0x0F, "RRCA".to_string(), 1, 1, Handler::Rrca),
                Opcode::new(0x10, "STOP".to_string(), 1, 2, Handler::Stop),
                Opcode::new(0x11, "LD DE, u16".to_string(), 3, 3, Handler::LoadDeNn),
                Opcode::new(0x12, "LD (DE), A".to_string(), 2, 1, Handler::LoadDeA),
                Opcode::new(0x13, "INC DE".to_string(), 2, 1, Handler::IncRr),
                Opcode::new(0x14, "INC D".to_string(), 1, 1, Handler::IncR),
                Opcode::new(0x15, "DEC D".to_string(), 1, 1, Handler::DecR),
                Opcode::new(0x16, "LD D, u8".to_string(), 2, 2, Handler::LoadRN),
                Opcode::new(0x17, "RLA".to_string(), 1, 1, Handler::Rla),
                Opcode::new(0x18, "JR i8".to_string(), 3, 2, Handler::JrDd),
                Opcode::new(0x19, "ADD HL, DE".to_string(), 2, 1, Handler::AddHlRr),
                Opcode::new(0x1A, "LD A, (DE)".to_string(), 2, 1, Handler::LoadADe),
                Opcode::new(0x1B, "DEC DE".to_string(), 2, 1, Handler::DecRr),
                Opcode::new(0x1C, "INC E".to_string(), 1, 1, Handler::IncR),
                Opcode::new(0x1D, "DEC E".to_string(), 1, 1, Handler::DecR),
                Opcode::new(0x1E, "LD E, u8".to_string(), 2, 2, Handler::LoadRN),
                Opcode::new(0x1F, "RRA".to_string(), 1, 1, Handler::Rra),
                Opcode::new(0x20, "JR NZ, i8".to_string(), 3, 2, Handler::JrConditional),
                Opcode::new(0x21, "LD HL, u16".to_string(), 3, 3, Handler::LoadHlNn),
                Opcode::new(0x22, "LD (HL+), A".to_string(), 2, 1, Handler::LoadHlAInc),
                Opcode::new(0x23, "INC HL".to_string(), 2, 1, Handler::IncRr),
                Opcode::new(0x24, "INC H".to_string(), 1, 1, Handler::IncR),
                Opcode::new(0x25, "DEC H".to_string(), 1, 1, Handler::DecR),
                Opcode::new(0x26, "LD H, u8".to_string(), 2, 2, Handler::LoadRN),
                Opcode::new(0x27, "DAA".to_string(), 1, 1, Handler::Daa),
                Opcode::new(0x28, "JR Z, i8".to_string(), 3, 2, Handler::JrConditional),
                Opcode::new(0x29, "ADD HL, HL".to_string(), 2, 1, Handler::AddHlRr),
                Opcode::new(0x2A, "LD A, (HL+)".to_string(), 2, 1, Handler::LoadAHlInc),
                Opcode::new(0x2B, "DEC HL".to_string(), 2, 1, Handler::DecRr),
                Opcode::new(0x2C, "INC L".to_string(), 1, 1, Handler::IncR),
                Opcode::new(0x2D, "DEC L".to_string(), 1, 1, Handler::DecR),
                Opcode::new(0x2E, "LD L, u8".to_string(), 2, 2, Handler::LoadRN),
                Opcode::new(0x2F, "CPL".to_string(), 1, 1, Handler::Cpl),
                Opcode::new(0x30, "JR NC, i8".to_string(), 3, 2, Handler::JrConditional),
                Opcode::new(0x31, "LD SP, u16".to_string(), 3, 3, Handler::LoadSpNn),
                Opcode::new(0x32, "LD (HL-), A".to_string(), 2, 1, Handler::LoadHlADec),
                Opcode::new(0x33, "INC SP".to_string(), 2, 1, Handler::IncSp),
                Opcode::new(0x34, "INC (HL)".to_string(), 3, 1, Handler::IncHl),
                Opcode::new(0x35, "DEC (HL)".to_string(), 3, 1, Handler::DecHl),
                Opcode::new(0x36, "LD (HL), u8".to_string(), 3, 2, Handler::LoadHlN),
                Opcode::new(0x37, "SCF".to_string(), 1, 1, Handler::Scf),
                Opcode::new(0x38, "JR C, i8".to_string(), 3, 2, Handler::JrConditional),
                Opcode::new(0x39, "ADD HL, SP".to_string(), 2, 1, Handler::AddHlSp),
                Opcode::new(0x3A, "LD A, (HL-)".to_string(), 2, 1, Handler::LoadAHlDec),
                Opcode::new(0x3B, "DEC SP".to_string(), 2, 1, Handler::DecSp),
                Opcode::new(0x3C, "INC A".to_string(), 1, 1, Handler::IncR),
                Opcode::new(0x3D, "DEC A".to_string(), 1, 1, Handler::DecR),
                Opcode::new(0x3E, "LD A, u8".to_string(), 2, 2, Handler::LoadRN),
                Opcode::new(0x3F, "CCF".to_string(), 1, 1, Handler::Ccf),
                Opcode::new(0x40, "LD B, B".to_string(), 1, 1, Handler::LoadRR),
                Opcode::new(0x41, "LD B, C".to_string(), 1, 1, Handler::LoadRR),
                Opcode::new(0x42, "LD B, D".to_string(), 1, 1, Handler::LoadRR),
                Opcode::new(0x43, "LD B, E".to_string(), 1, 1, Handler::LoadRR),
                Opcode::new(0x44, "LD B, H".to_string(), 1, 1, Handler::LoadRR),
                Opcode::new(0x45, "LD B, L".to_string(), 1, 1, Handler::LoadRR),
                Opcode::new(0x46, "LD B, (HL)".to_string(), 2, 1, Handler::LoadRHl),
                Opcode::new(0x47, "LD B, A".to_string(), 1, 1, Handler::LoadRR),
                Opcode::new(0x48, "LD C, B".to_string(), 1, 1, Handler::LoadRR),
                Opcode::new(0x49, "LD C, C".to_string(), 1, 1, Handler::LoadRR),
                Opcode::new(0x4A, "LD C, D".to_string(), 1, 1, Handler::LoadRR),
                Opcode::new(0x4B, "LD C, E".to_string(), 1, 1, Handler::LoadRR),
                Opcode::new(0x4C, "LD C, H".to_string(), 1, 1, Handler::LoadRR),
                Opcode::new(0x4D, "LD C, L".to_string(), 1, 1, Handler::LoadRR),
                Opcode::new(0x4E, "LD C, (HL)".to_string(), 2, 1, Handler::LoadRHl),
                Opcode::new(0x4F, "LD C, A".to_string(), 1, 1, Handler::LoadRR),
                Opcode::new(0x50, "LD D, B".to_string(), 1, 1, Handler::LoadRR),
                Opcode::new(0x51, "LD D, C".to_string(), 1, 1, Handler::LoadRR),
                Opcode::new(0x52, "LD D, D".to_string(), 1, 1, Handler::LoadRR),
                Opcode::new(0x53, "LD D, E".to_string(), 1, 1, Handler::LoadRR),
                Opcode::new(0x54, "LD D, H".to_string(), 1, 1, Handler::LoadRR),
                Opcode::new(0x55, "LD D, L".to_string(), 1, 1, Handler::LoadRR),
                Opcode::new(0x56, "LD D, (HL)".to_string(), 2, 1, Handler::LoadRHl),
                Opcode::new(0x57, "LD D, A".to_string(), 1, 1, Handler::LoadRR),
                Opcode::new(0x58, "LD E, B".to_string(), 1, 1, Handler::LoadRR),
                Opcode::new(0x59, "LD E, C".to_string(), 1, 1, Handler::LoadRR),
                Opcode::new(0x5A, "LD E, D".to_string(), 1, 1, Handler::LoadRR),
                Opcode::new(0x5B, "LD E, E".to_string(), 1, 1, Handler::LoadRR),
                Opcode::new(0x5C, "LD E, H".to_string(), 1, 1, Handler::LoadRR),
                Opcode::new(0x5D, "LD E, L".to_string(), 1, 1, Handler::LoadRR),
                Opcode::new(0x5E, "LD E, (HL)".to_string(), 2, 1, Handler::LoadRHl),
                Opcode::new(0x5F, "LD E, A".to_string(), 1, 1, Handler::LoadRR),
                Opcode::new(0x60, "LD H, B".to_string(), 1, 1, Handler::LoadRR),
                Opcode::new(0x61, "LD H, C".to_string(), 1, 1, Handler::LoadRR),
                Opcode::new(0x62, "LD H, D".to_string(), 1, 1, Handler::LoadRR),
                Opcode::new(0x63, "LD H, E".to_string(), 1, 1, Handler::LoadRR),
                Opcode::new(0x64, "LD H, H".to_string(), 1, 1, Handler::LoadRR),
                Opcode::new(0x65, "LD H, L".to_string(), 1, 1, Handler::LoadRR),
                Opcode::new(0x66, "LD H, (HL)".to_string(), 2, 1, Handler::LoadRHl),
                Opcode::new(0x67, "LD H, A".to_string(), 1, 1, Handler::LoadRR),
                Opcode::new(0x68, "LD L, B".to_string(), 1, 1, Handler::LoadRR),
                Opcode::new(0x69, "LD L, C".to_string(), 1, 1, Handler::LoadRR),
                Opcode::new(0x6A, "LD L, D".to_string(), 1, 1, Handler::LoadRR),
                Opcode::new(0x6B, "LD L, E".to_string(), 1, 1, Handler::LoadRR),
                Opcode::new(0x6C, "LD L, H".to_string(), 1, 1, Handler::LoadRR),
                Opcode::new(0x6D, "LD L, L".to_string(), 1, 1, Handler::LoadRR),
                Opcode::new(0x6E, "LD L, (HL)".to_string(), 2, 1, Handler::LoadRHl),
                Opcode::new(0x6F, "LD L, A".to_string(), 1, 1, Handler::LoadRR),
                Opcode::new(0x70, "LD (HL), B".to_string(), 2, 1, Handler::LoadHlR),
                Opcode::new(0x71, "LD (HL), C".to_string(), 2, 1, Handler::LoadHlR),
                Opcode::new(0x72, "LD (HL), D".to_string(), 2, 1, Handler::LoadHlR),
                Opcode::new(0x73, "LD (HL), E".to_string(), 2, 1, Handler::LoadHlR),
                Opcode::new(0x74, "LD (HL), H".to_string(), 2, 1, Handler::LoadHlR),
                Opcode::new(0x75, "LD (HL), L".to_string(), 2, 1, Handler::LoadHlR),
                Opcode::new(0x76, "HALT".to_string(), 1, 1, Handler::Halt),
                Opcode::new(0x77, "LD (HL), A".to_string(), 2, 1, Handler::LoadHlR),
                Opcode::new(0x78, "LD A, B".to_string(), 1, 1, Handler::LoadRR),
                Opcode::new(0x79, "LD A, C".to_string(), 1, 1, Handler::LoadRR),
                Opcode::new(0x7A, "LD A, D".to_string(), 1, 1, Handler::LoadRR),
                Opcode::new(0x7B, "LD A, E".to_string(), 1, 1, Handler::LoadRR),
                Opcode::new(0x7C, "LD A, H".to_string(), 1, 1, Handler::LoadRR),
                Opcode::new(0x7D, "LD A, L".to_string(), 1, 1, Handler::LoadRR),
                Opcode::new(0x7E, "LD A, (HL)".to_string(), 2, 1, Handler::LoadRHl),
                Opcode::new(0x7F, "LD A, A".to_string(), 1, 1, Handler::LoadRR),
                Opcode::new(0x80, "ADD A, B".to_string(), 1, 1, Handler::AddAR),
                Opcode::new(0x81, "ADD A, C".to_string(), 1, 1, Handler::AddAR),
                Opcode::new(0x82, "ADD A, D".to_string(), 1, 1, Handler::AddAR),
                Opcode::new(0x83, "ADD A, E".to_string(), 1, 1, Handler::AddAR),
                Opcode::new(0x84, "ADD A, H".to_string(), 1, 1, Handler::AddAR),
                Opcode::new(0x85, "ADD A, L".to_string(), 1, 1, Handler::AddAR),
                Opcode::new(0x86, "ADD A, (HL)".to_string(), 2, 1, Handler::AddAHl),
                Opcode::new(0x87, "ADD A, A".to_string(), 1, 1, Handler::AddAR),
                Opcode::new(0x88, "ADC A, B".to_string(), 1, 1, Handler::AdcAR),
                Opcode::new(0x89, "ADC A, C".to_string(), 1, 1, Handler::AdcAR),
                Opcode::new(0x8A, "ADC A, D".to_string(), 1, 1, Handler::AdcAR),
                Opcode::new(0x8B, "ADC A, E".to_string(), 1, 1, Handler::AdcAR),
                Opcode::new(0x8C, "ADC A, H".to_string(), 1, 1, Handler::AdcAR),
                Opcode::new(0x8D, "ADC A, L".to_string(), 1, 1, Handler::AdcAR),
                Opcode::new(0x8E, "ADC A, (HL)".to_string(), 2, 1, Handler::AdcAHl),
                Opcode::new(0x8F, "ADC A, A".to_string(), 1, 1, Handler::AdcAR),
                Opcode::new(0x90, "SUB A, B".to_string(), 1, 1, Handler::SubAR),
                Opcode::new(0x91, "SUB A, C".to_string(), 1, 1, Handler::SubAR),
                Opcode::new(0x92, "SUB A, D".to_string(), 1, 1, Handler::SubAR),
                Opcode::new(0x93, "SUB A, E".to_string(), 1, 1, Handler::SubAR),
                Opcode::new(0x94, "SUB A, H".to_string(), 1, 1, Handler::SubAR),
                Opcode::new(0x95, "SUB A, L".to_string(), 1, 1, Handler::SubAR),
                Opcode::new(0x96, "SUB A, (HL)".to_string(), 2, 1, Handler::SubAHl),
                Opcode::new(0x97, "SUB A, A".to_string(), 1, 1, Handler::SubAR),
                Opcode::new(0x98, "SBC A, B".to_string(), 1, 1, Handler::SbcAR),
                Opcode::new(0x99, "SBC A, C".to_string(), 1, 1, Handler::SbcAR),
                Opcode::new(0x9A, "SBC A, D".to_string(), 1, 1, Handler::SbcAR),
                Opcode::new(0x9B, "SBC A, E".to_string(), 1, 1, Handler::SbcAR),
                Opcode::new(0x9C, "SBC A, H".to_string(), 1, 1, Handler::SbcAR),
                Opcode::new(0x9D, "SBC A, L".to_string(), 1, 1, Handler::SbcAR),
                Opcode::new(0x9E, "SBC A, (HL)".to_string(), 2, 1, Handler::SbcAHl),
                Opcode::new(0x9F, "SBC A, A".to_string(), 1, 1, Handler::SbcAR),
                Opcode::new(0xA0, "AND A, B".to_string(), 1, 1, Handler::AndAR),
                Opcode::new(0xA1, "AND A, C".to_string(), 1, 1, Handler::AndAR),
                Opcode::new(0xA2, "AND A, D".to_string(), 1, 1, Handler::AndAR),
                Opcode::new(0xA3, "AND A, E".to_string(), 1, 1, Handler::AndAR),
                Opcode::new(0xA4, "AND A, H".to_string(), 1, 1, Handler::AndAR),
                Opcode::new(0xA5, "AND A, L".to_string(), 1, 1, Handler::AndAR),
                Opcode::new(0xA6, "AND A, (HL)".to_string(), 2, 1, Handler::AndAHl),
                Opcode::new(0xA7, "AND A, A".to_string(), 1, 1, Handler::AndAR),
                Opcode::new(0xA8, "XOR A, B".to_string(), 1, 1, Handler::XorAR),
                Opcode::new(0xA9, "XOR A, C".to_string(), 1, 1, Handler::XorAR),
                Opcode::new(0xAA, "XOR A, D".to_string(), 1, 1, Handler::XorAR),
                Opcode::new(0xAB, "XOR A, E".to_string(), 1, 1, Handler::XorAR),
                Opcode::new(0xAC, "XOR A, H".to_string(), 1, 1, Handler::XorAR),
                Opcode::new(0xAD, "XOR A, L".to_string(), 1, 1, Handler::XorAR),
                Opcode::new(0xAE, "XOR A, (HL)".to_string(), 2, 1, Handler::XorAHl),
                Opcode::new(0xAF, "XOR A, A".to_string(), 1, 1, Handler::XorAR),
                Opcode::new(0xB0, "OR A, B".to_string(), 1, 1, Handler::OrAR),
                Opcode::new(0xB1, "OR A, C".to_string(), 1, 1, Handler::OrAR),
                Opcode::new(0xB2, "OR A, D".to_string(), 1, 1, Handler::OrAR),
                Opcode::new(0xB3, "OR A, E".to_string(), 1, 1, Handler::OrAR),
                Opcode::new(0xB4, "OR A, H".to_string(), 1, 1, Handler::OrAR),
                Opcode::new(0xB5, "OR A, L".to_string(), 1, 1, Handler::OrAR),
                Opcode::new(0xB6, "OR A, (HL)".to_string(), 2, 1, Handler::OrAHl),
                Opcode::new(0xB7, "OR A, A".to_string(), 1, 1, Handler::OrAR),
                Opcode::new(0xB8, "CP A, B".to_string(), 1, 1, Handler::CpAR),
                Opcode::new(0xB9, "CP A, C".to_string(), 1, 1, Handler::CpAR),
                Opcode::new(0xBA, "CP A, D".to_string(), 1, 1, Handler::CpAR),
                Opcode::new(0xBB, "CP A, E".to_string(), 1, 1, Handler::CpAR),
                Opcode::new(0xBC, "CP A, H".to_string(), 1, 1, Handler::CpAR),
                Opcode::new(0xBD, "CP A, L".to_string(), 1, 1, Handler::CpAR),
                Opcode::new(0xBE, "CP A, (HL)".to_string(), 2, 1, Handler::CpAHl),
                Opcode::new(0xBF, "CP A, A".to_string(), 1, 1, Handler::CpAR),
                Opcode::new(0xC0, "RET NZ".to_string(), 2, 1, Handler::RetConditional),
                Opcode::new(0xC1, "POP BC".to_string(), 3, 1, Handler::PopBc),
                Opcode::new(0xC2, "JP NZ, u16".to_string(), 3, 3, Handler::JpConditional),
                Opcode::new(0xC3, "JP u16".to_string(), 4, 3, Handler::JpNn),
                Opcode::new(0xC4, "CALL NZ, u16".to_string(), 3, 3, Handler::CallConditional),
                Opcode::new(0xC5, "PUSH BC".to_string(), 4, 1, Handler::PushBc),
                Opcode::new(0xC6, "ADD A, u8".to_string(), 2, 2, Handler::AddAN),
                Opcode::new(0xC7, "RST 00h".to_string(), 4, 1, Handler::Rst),
                Opcode::new(0xC8, "RET Z".to_string(), 2, 1, Handler::RetConditional),
                Opcode::new(0xC9, "RET".to_string(), 4, 1, Handler::Ret),
                Opcode::new(0xCA, "JP Z, u16".to_string(), 3, 3, Handler::JpConditional),
                Opcode::new(0xCB, "PREFIX CB".to_string(), 1, 2, Handler::Nop),
                Opcode::new(0xCC, "CALL Z, u16".to_string(), 3, 3, Handler::CallConditional),
                Opcode::new(0xCD, "CALL u16".to_string(), 6, 3, Handler::CallNn),
                Opcode::new(0xCE, "ADC A, u8".to_string(), 2, 2, Handler::AdcAN),
                Opcode::new(0xCF, "RST 08h".to_string(), 4, 1, Handler::Rst),
                Opcode::new(0xD0, "RET NC".to_string(), 2, 1, Handler::RetConditional),
                Opcode::new(0xD1, "POP DE".to_string(), 3, 1, Handler::PopDe),
                Opcode::new(0xD2, "JP NC, u16".to_string(), 3, 3, Handler::JpConditional),
                Opcode::new(0xD3, "No Op 0xD3".to_string(), 1, 1, Handler::Nop),
                Opcode::new(0xD4, "CALL NC, u16".to_string(), 3, 3, Handler::CallConditional),
                Opcode::new(0xD5, "PUSH DE".to_string(), 4, 1, Handler::PushDe),
                Opcode::new(0xD6, "SUB A, u8".to_string(), 2, 2, Handler::SubAN),
                Opcode::new(0xD7, "RST 10h".to_string(), 4, 1, Handler::Rst),
                Opcode::new(0xD8, "RET C".to_string(), 2, 1, Handler::RetConditional),
                Opcode::new(0xD9, "RETI".to_string(), 4, 1, Handler::Reti),
                Opcode::new(0xDA, "JP C, u16".to_string(), 3, 3, Handler::JpConditional),
                Opcode::new(0xDB, "No Op 0xDB".to_string(), 1, 1, Handler::Nop),
                Opcode::new(0xDC, "CALL C, u16".to_string(), 3, 3, Handler::CallConditional),
                Opcode::new(0xDD, "No Op 0xDD".to_string(), 1, 1, Handler::Nop),
                Opcode::new(0xDE, "SBC A, u8".to_string(), 2, 2, Handler::SbcAN),
                Opcode::new(0xDF, "RST 18h".to_string(), 4, 1, Handler::Rst),
                Opcode::new(0xE0, "LD (FF00+u8), A".to_string(), 3, 2, Handler::LdhNA),
                Opcode::new(0xE1, "POP HL".to_string(), 3, 1, Handler::PopHl),
                Opcode::new(0xE2, "LD (FF00+C), A".to_string(), 2, 1, Handler::LdhCA),
                Opcode::new(0xE3, "No Op 0xE3".to_string(), 1, 1, Handler::Nop),
                Opcode::new(0xE4, "No Op 0xE4".to_string(), 1, 1, Handler::Nop),
                Opcode::new(0xE5, "PUSH HL".to_string(), 4, 1, Handler::PushHl),
                Opcode::new(0xE6, "AND A, u8".to_string(), 2, 2, Handler::AndAN),
                Opcode::new(0xE7, "RST 20h".to_string(), 4, 1, Handler::Rst),
                Opcode::new(0xE8, "ADD SP, i8".to_string(), 4, 2, Handler::AddSpDd),
                Opcode::new(0xE9, "JP HL".to_string(), 1, 1, Handler::JpHl),
                Opcode::new(0xEA, "LD (u16), A".to_string(), 4, 3, Handler::LoadNnA),
                Opcode::new(0xEB, "No Op 0xEB".to_string(), 1, 1, Handler::Nop),
                Opcode::new(0xEC, "No Op 0xEC".to_string(), 1, 1, Handler::Nop),
                Opcode::new(0xED, "No Op 0xED".to_string(), 1, 1, Handler::Nop),
                Opcode::new(0xEE, "XOR A, u8".to_string(), 2, 2, Handler::XorAN),
                Opcode::new(0xEF, "RST 28h".to_string(), 4, 1, Handler::Rst),
                Opcode::new(0xF0, "LD A, (FF00+u8)".to_string(), 3, 2, Handler::LdhAN),
                Opcode::new(0xF1, "POP AF".to_string(), 3, 1, Handler::PopAf),
                Opcode::new(0xF2, "LD A, (FF00+C)".to_string(), 2, 1, Handler::LdhAC),
                Opcode::new(0xF3, "DI".to_string(), 1, 1, Handler::Di),
                Opcode::new(0xF4, "No Op 0xF4".to_string(), 1, 1, Handler::Nop),
                Opcode::new(0xF5, "PUSH AF".to_string(), 4, 1, Handler::PushAf),
                Opcode::new(0xF6, "OR A, u8".to_string(), 2, 2, Handler::OrAN),
                Opcode::new(0xF7, "RST 30h".to_string(), 4, 1, Handler::Rst),
                Opcode::new(0xF8, "LD HL, SP+i8".to_string(), 3, 2, Handler::LdHlSpDd),
                Opcode::new(0xF9, "LD SP, HL".to_string(), 2, 1, Handler::LoadSpHl),
                Opcode::new(0xFA, "LD A, (u16)".to_string(), 4, 3, Handler::LoadANn),
                Opcode::new(0xFB, "EI".to_string(), 1, 1, Handler::Ei),
                Opcode::new(0xFC, "No Op 0xFC".to_string(), 1, 1, Handler::Nop),
                Opcode::new(0xFD, "No Op 0xFD".to_string(), 1, 1, Handler::Nop),
                Opcode::new(0xFE, "CP A, u8".to_string(), 2, 2, Handler::CpAN),
                Opcode::new(0xFF, "RST 38h".to_string(), 4, 1, Handler::Rst),
            ],
        };
        assert(table@ =~= unprefixed_table());
        table
    }

    pub fn init_prefix_instruction_table() -> (table: OpcodeTable)
        ensures
            table@ == prefixed_table(),
    {
        let table = OpcodeTable {
            table: [
                Opcode::new(0x00, "RLC B".to_string(), 2, 2, Handler::RlcR),
                Opcode::new(0x01, "RLC C".to_string(), 2, 2, Handler::RlcR),
                Opcode::new(0x02, "RLC D".to_string(), 2, 2, Handler::RlcR),
                Opcode::new(0x03, "RLC E".to_string(), 2, 2, Handler::RlcR),
                Opcode::new(0x04, "RLC H".to_string(), 2, 2, Handler::RlcR),
                Opcode::new(0x05, "RLC L".to_string(), 2, 2, Handler::RlcR),
                Opcode::new(0x06, "RLC (HL)".to_string(), 4, 2, Handler::RlcHl),
                Opcode::new(0x07, "RLC A".to_string(), 2, 2, Handler::RlcR),
                Opcode::new(0x08, "RRC B".to_string(), 2, 2, Handler::RrcR),
                Opcode::new(0x09, "RRC C".to_string(), 2, 2, Handler::RrcR),
                Opcode::new(0x0A, "RRC D".to_string(), 2, 2, Handler::RrcR),
                Opcode::new(0x0B, "RRC E".to_string(), 2, 2, Handler::RrcR),
                Opcode::new(0x0C, "RRC H".to_string(), 2, 2, Handler::RrcR),
                Opcode::new(0x0D, "RRC L".to_string(), 2, 2, Handler::RrcR),
                Opcode::new(0x0E, "RRC (HL)".to_string(), 4, 2, Handler::RrcHl),
                Opcode::new(0x0F, "RRC A".to_string(), 2, 2, Handler::RrcR),
                Opcode::new(0x10, "RL B".to_string(), 2, 2, Handler::RlR),
                Opcode::new(0x11, "RL C".to_string(), 2, 2, Handler::RlR),
                Opcode::new(0x12, "RL D".to_string(), 2, 2, Handler::RlR),
                Opcode::new(0x13, "RL E".to_string(), 2, 2, Handler::RlR),
                Opcode::new(0x14, "RL H".to_string(), 2, 2, Handler::RlR),
                Opcode::new(0x15, "RL L".to_string(), 2, 2, Handler::RlR),
                Opcode::new(0x16, "RL (HL)".to_string(), 4, 2, Handler::RlHl),
                Opcode::new(0x17, "RL A".to_string(), 2, 2, Handler::RlR),
                Opcode::new(0x18, "RR B".to_string(), 2, 2, Handler::RrR),
                Opcode::new(0x19, "RR C".to_string(), 2, 2, Handler::RrR),
                Opcode::new(0x1A, "RR D".to_string(), 2, 2, Handler::RrR),
                Opcode::new(0x1B, "RR E".to_string(), 2, 2, Handler::RrR),
                Opcode::new(0x1C, "RR H".to_string(), 2, 2, Handler::RrR),
                Opcode::new(0x1D, "RR L".to_string(), 2, 2, Handler::RrR),
                Opcode::new(0x1E, "RR (HL)".to_string(), 4, 2, Handler::RrHl),
                Opcode::new(0x1F, "RR A".to_string(), 2, 2, Handler::RrR),
                Opcode::new(0x20, "SLA B".to_string(), 2, 2, Handler::SlaR),
                Opcode::new(0x21, "SLA C".to_string(), 2, 2, Handler::SlaR),
                Opcode::new(0x22, "SLA D".to_string(), 2, 2, Handler::SlaR),
                Opcode::new(0x23, "SLA E".to_string(), 2, 2, Handler::SlaR),
                Opcode::new(0x24, "SLA H".to_string(), 2, 2, Handler::SlaR),
                Opcode::new(0x25, "SLA L".to_string(), 2, 2, Handler::SlaR),
                Opcode::new(0x26, "SLA (HL)".to_string(), 4, 2, Handler::SlaHl),
                Opcode::new(0x27, "SLA A".to_string(), 2, 2, Handler::SlaR),
                Opcode::new(0x28, "SRA B".to_string(), 2, 2, Handler::SraR),
                Opcode::new(0x29, "SRA C".to_string(), 2, 2, Handler::SraR),
                Opcode::new(0x2A, "SRA D".to_string(), 2, 2, Handler::SraR),
                Opcode::new(0x2B, "SRA E".to_string(), 2, 2, Handler::SraR),
                Opcode::new(0x2C, "SRA H".to_string(), 2, 2, Handler::SraR),
                Opcode::new(0x2D, "SRA L".to_string(), 2, 2, Handler::SraR),
                Opcode::new(0x2E, "SRA (HL)".to_string(), 4, 2, Handler::SraHl),
                Opcode::new(0x2F, "SRA A".to_string(), 2, 2, Handler::SraR),
                Opcode::new(0x30, "SWAP B".to_string(), 2, 2, Handler::SwapR),
                Opcode::new(0x31, "SWAP C".to_string(), 2, 2, Handler::SwapR),
                Opcode::new(0x32, "SWAP D".to_string(), 2, 2, Handler::SwapR),
                Opcode::new(0x33, "SWAP E".to_string(), 2, 2, Handler::SwapR),
                Opcode::new(0x34, "SWAP H".to_string(), 2, 2, Handler::SwapR),
                Opcode::new(0x35, "SWAP L".to_string(), 2, 2, Handler::SwapR),
                Opcode::new(0x36, "SWAP (HL)".to_string(), 4, 2, Handler::SwapHl),
                Opcode::new(0x37, "SWAP A".to_string(), 2, 2, Handler::SwapR),
                Opcode::new(0x38, "SRL B".to_string(), 2, 2, Handler::SrlR),
                Opcode::new(0x39, "SRL C".to_string(), 2, 2, Handler::SrlR),
                Opcode::new(0x3A, "SRL D".to_string(), 2, 2, Handler::SrlR),
                Opcode::new(0x3B, "SRL E".to_string(), 2, 2, Handler::SrlR),
                Opcode::new(0x3C, "SRL H".to_string(), 2, 2, Handler::SrlR),
                Opcode::new(0x3D, "SRL L".to_string(), 2, 2, Handler::SrlR),
                Opcode::new(0x3E, "SRL (HL)".to_string(), 4, 2, Handler::SrlHl),
                Opcode::new(0x3F, "SRL A".to_string(), 2, 2, Handler::SrlR),
                Opcode::new(0x40, "BIT 0, B".to_string(), 2, 2, Handler::BitR),
                Opcode::new(0x41, "BIT 0, C".to_string(), 2, 2, Handler::BitR),
                Opcode::new(0x42, "BIT 0, D".to_string(), 2, 2, Handler::BitR),
                Opcode::new(0x43, "BIT 0, E".to_string(), 2, 2, Handler::BitR),
                Opcode::new(0x44, "BIT 0, H".to_string(), 2, 2, Handler::BitR),
                Opcode::new(0x45, "BIT 0, L".to_string(), 2, 2, Handler::BitR),
                Opcode::new(0x46, "BIT 0, (HL)".to_string(), 3, 2, Handler::BitHl),
                Opcode::new(0x47, "BIT 0, A".to_string(), 2, 2, Handler::BitR),
                Opcode::new(0x48, "BIT 1, B".to_string(), 2, 2, Handler::BitR),
                Opcode::new(0x49, "BIT 1, C".to_string(), 2, 2, Handler::BitR),
                Opcode::new(0x4A, "BIT 1, D".to_string(), 2, 2, Handler::BitR),
                Opcode::new(0x4B, "BIT 1, E".to_string(), 2, 2, Handler::BitR),
                Opcode::new(0x4C, "BIT 1, H".to_string(), 2, 2, Handler::BitR),
                Opcode::new(0x4D, "BIT 1, L".to_string(), 2, 2, Handler::BitR),
                Opcode::new(0x4E, "BIT 1, (HL)".to_string(), 3, 2, Handler::BitHl),
                Opcode::new(0x4F, "BIT 1, A".to_string(), 2, 2, Handler::BitR),
                Opcode::new(0x50, "BIT 2, B".to_string(), 2, 2, Handler::BitR),
                Opcode::new(0x51, "BIT 2, C".to_string(), 2, 2, Handler::BitR),
                Opcode::new(0x52, "BIT 2, D".to_string(), 2, 2, Handler::BitR),
                Opcode::new(0x53, "BIT 2, E".to_string(), 2, 2, Handler::BitR),
                Opcode::new(0x54, "BIT 2, H".to_string(), 2, 2, Handler::BitR),
                Opcode::new(0x55, "BIT 2, L".to_string(), 2, 2, Handler::BitR),
                Opcode::new(0x56, "BIT 2, (HL)".to_string(), 3, 2, Handler::BitHl),
                Opcode::new(0x57, "BIT 2, A".to_string(), 2, 2, Handler::BitR),
                Opcode::new(0x58, "BIT 3, B".to_string(), 2, 2, Handler::BitR),
                Opcode::new(0x59, "BIT 3, C".to_string(), 2, 2, Handler::BitR),
                Opcode::new(0x5A, "BIT 3, D".to_string(), 2, 2, Handler::BitR),
                Opcode::new(0x5B, "BIT 3, E".to_string(), 2, 2, Handler::BitR),
                Opcode::new(0x5C, "BIT 3, H".to_string(), 2, 2, Handler::BitR),
                Opcode::new(0x5D, "BIT 3, L".to_string(), 2, 2, Handler::BitR),
                Opcode::new(0x5E, "BIT 3, (HL)".to_string(), 3, 2, Handler::BitHl),
                Opcode::new(0x5F, "BIT 3, A".to_string(), 2, 2, Handler::BitR),
                Opcode::new(0x60, "BIT 4, B".to_string(), 2, 2, Handler::BitR),
                Opcode::new(0x61, "BIT 4, C".to_string(), 2, 2, Handler::BitR),
                Opcode::new(0x62, "BIT 4, D".to_string(), 2, 2, Handler::BitR),
                Opcode::new(0x63, "BIT 4, E".to_string(), 2, 2, Handler::BitR),
                Opcode::new(0x64, "BIT 4, H".to_string(), 2, 2, Handler::BitR),
                Opcode::new(0x65, "BIT 4, L".to_string(), 2, 2, Handler::BitR),
                Opcode::new(0x66, "BIT 4, (HL)".to_string(), 3, 2, Handler::BitHl),
                Opcode::new(0x67, "BIT 4, A".to_string(), 2, 2, Handler::BitR),
                Opcode::new(0x68, "BIT 5, B".to_string(), 2, 2, Handler::BitR),
                Opcode::new(0x69, "BIT 5, C".to_string(), 2, 2, Handler::BitR),
                Opcode::new(0x6A, "BIT 5, D".to_string(), 2, 2, Handler::BitR),
                Opcode::new(0x6B, "BIT 5, E".to_string(), 2, 2, Handler::BitR),
                Opcode::new(0x6C, "BIT 5, H".to_string(), 2, 2, Handler::BitR),
                Opcode::new(0x6D, "BIT 5, L".to_string(), 2, 2, Handler::BitR),
                Opcode::new(0x6E, "BIT 5, (HL)".to_string(), 3, 2, Handler::BitHl),
                Opcode::new(0x6F, "BIT 5, A".to_string(), 2, 2, Handler::BitR),
                Opcode::new(0x70, "BIT 6, B".to_string(), 2, 2, Handler::BitR),
                Opcode::new(0x71, "BIT 6, C".to_string(), 2, 2, Handler::BitR),
                Opcode::new(0x72, "BIT 6, D".to_string(), 2, 2, Handler::BitR),
                Opcode::new(0x73, "BIT 6, E".to_string(), 2, 2, Handler::BitR),
                Opcode::new(0x74, "BIT 6, H".to_string(), 2, 2, Handler::BitR),
                Opcode::new(0x75, "BIT 6, L".to_string(), 2, 2, Handler::BitR),
                Opcode::new(0x76, "BIT 6, (HL)".to_string(), 3, 2, Handler::BitHl),
                Opcode::new(0x77, "BIT 6, A".to_string(), 2, 2, Handler::BitR),
                Opcode::new(0x78, "BIT 7, B".to_string(), 2, 2, Handler::BitR),
                Opcode::new(0x79, "BIT 7, C".to_string(), 2, 2, Handler::BitR),
                Opcode::new(0x7A, "BIT 7, D".to_string(), 2, 2, Handler::BitR),
                Opcode::new(0x7B, "BIT 7, E".to_string(), 2, 2, Handler::BitR),
                Opcode::new(0x7C, "BIT 7, H".to_string(), 2, 2, Handler::BitR),
                Opcode::new(0x7D, "BIT 7, L".to_string(), 2, 2, Handler::BitR),
                Opcode::new(0x7E, "BIT 7, (HL)".to_string(), 3, 2, Handler::BitHl),
                Opcode::new(0x7F, "BIT 7, A".to_string(), 2, 2, Handler::BitR),
                Opcode::new(0x80, "RES 0, B".to_string(), 2, 2, Handler::ResR),
                Opcode::new(0x81, "RES 0, C".to_string(), 2, 2, Handler::ResR),
                Opcode::new(0x82, "RES 0, D".to_string(), 2, 2, Handler::ResR),
                Opcode::new(0x83, "RES 0, E".to_string(), 2, 2, Handler::ResR),
                Opcode::new(0x84, "RES 0, H".to_string(), 2, 2, Handler::ResR),
                Opcode::new(0x85, "RES 0, L".to_string(), 2, 2, Handler::ResR),
                Opcode::new(0x86, "RES 0, (HL)".to_string(), 4, 2, Handler::ResHl),
                Opcode::new(0x87, "RES 0, A".to_string(), 2, 2, Handler::ResR),
                Opcode::new(0x88, "RES 1, B".to_string(), 2, 2, Handler::ResR),
                Opcode::new(0x89, "RES 1, C".to_string(), 2, 2, Handler::ResR),
                Opcode::new(0x8A, "RES 1, D".to_string(), 2, 2, Handler::ResR),
                Opcode::new(0x8B, "RES 1, E".to_string(), 2, 2, Handler::ResR),
                Opcode::new(0x8C, "RES 1, H".to_string(), 2, 2, Handler::ResR),
                Opcode::new(0x8D, "RES 1, L".to_string(), 2, 2, Handler::ResR),
                Opcode::new(0x8E, "RES 1, (HL)".to_string(), 4, 2, Handler::ResHl),
                Opcode::new(0x8F, "RES 1, A".to_string(), 2, 2, Handler::ResR),
                Opcode::new(0x90, "RES 2, B".to_string(), 2, 2, Handler::ResR),
                Opcode::new(0x91, "RES 2, C".to_string(), 2, 2, Handler::ResR),
                Opcode::new(0x92, "RES 2, D".to_string(), 2, 2, Handler::ResR),
                Opcode::new(0x93, "RES 2, E".to_string(), 2, 2, Handler::ResR),
                Opcode::new(0x94, "RES 2, H".to_string(), 2, 2, Handler::ResR),
                Opcode::new(0x95, "RES 2, L".to_string(), 2, 2, Handler::ResR),
                Opcode::new(0x96, "RES 2, (HL)".to_string(), 4, 2, Handler::ResHl),
                Opcode::new(0x97, "RES 2, A".to_string(), 2, 2, Handler::ResR),
                Opcode::new(0x98, "RES 3, B".to_string(), 2, 2, Handler::ResR),
                Opcode::new(0x99, "RES 3, C".to_string(), 2, 2, Handler::ResR),
                Opcode::new(0x9A, "RES 3, D".to_string(), 2, 2, Handler::ResR),
                Opcode::new(0x9B, "RES 3, E".to_string(), 2, 2, Handler::ResR),
                Opcode::new(0x9C, "RES 3, H".to_string(), 2, 2, Handler::ResR),
                Opcode::new(0x9D, "RES 3, L".to_string(), 2, 2, Handler::ResR),
                Opcode::new(0x9E, "RES 3, (HL)".to_string(), 4, 2, Handler::ResHl),
                Opcode::new(0x9F, "RES 3, A".to_string(), 2, 2, Handler::ResR),
                Opcode::new(0xA0, "RES 4, B".to_string(), 2, 2, Handler::ResR),
                Opcode::new(0xA1, "RES 4, C".to_string(), 2, 2, Handler::ResR),
                Opcode::new(0xA2, "RES 4, D".to_string(), 2, 2, Handler::ResR),
                Opcode::new(0xA3, "RES 4, E".to_string(), 2, 2, Handler::ResR),
                Opcode::new(0xA4, "RES 4, H".to_string(), 2, 2, Handler::ResR),
                Opcode::new(0xA5, "RES 4, L".to_string(), 2, 2, Handler::ResR),
                Opcode::new(0xA6, "RES 4, (HL)".to_string(), 4, 2, Handler::ResHl),
                Opcode::new(0xA7, "RES 4, A".to_string(), 2, 2, Handler::ResR),
                Opcode::new(0xA8, "RES 5, B".to_string(), 2, 2, Handler::ResR),
                Opcode::new(0xA9, "RES 5, C".to_string(), 2, 2, Handler::ResR),
                Opcode::new(0xAA, "RES 5, D".to_string(), 2, 2, Handler::ResR),
                Opcode::new(0xAB, "RES 5, E".to_string(), 2, 2, Handler::ResR),
                Opcode::new(0xAC, "RES 5, H".to_string(), 2, 2, Handler::ResR),
                Opcode::new(0xAD, "RES 5, L".to_string(), 2, 2, Handler::ResR),
                Opcode::new(0xAE, "RES 5, (HL)".to_string(), 4, 2, Handler::ResHl),
                Opcode::new(0xAF, "RES 5, A".to_string(), 2, 2, Handler::ResR),
                Opcode::new(0xB0, "RES 6, B".to_string(), 2, 2, Handler::ResR),
                Opcode::new(0xB1, "RES 6, C".to_string(), 2, 2, Handler::ResR),
                Opcode::new(0xB2, "RES 6, D".to_string(), 2, 2, Handler::ResR),
                Opcode::new(0xB3, "RES 6, E".to_string(), 2, 2, Handler::ResR),
                Opcode::new(0xB4, "RES 6, H".to_string(), 2, 2, Handler::ResR),
                Opcode::new(0xB5, "RES 6, L".to_string(), 2, 2, Handler::ResR),
                Opcode::new(0xB6, "RES 6, (HL)".to_string(), 4, 2, Handler::ResHl),
                Opcode::new(0xB7, "RES 6, A".to_string(), 2, 2, Handler::ResR),
                Opcode::new(0xB8, "RES 7, B".to_string(), 2, 2, Handler::ResR),
                Opcode::new(0xB9, "RES 7, C".to_string(), 2, 2, Handler::ResR),
                Opcode::new(0xBA, "RES 7, D".to_string(), 2, 2, Handler::ResR),
                Opcode::new(0xBB, "RES 7, E".to_string(), 2, 2, Handler::ResR),
                Opcode::new(0xBC, "RES 7, H".to_string(), 2, 2, Handler::ResR),
                Opcode::new(0xBD, "RES 7, L".to_string(), 2, 2, Handler::ResR),
                Opcode::new(0xBE, "RES 7, (HL)".to_string(), 4, 2, Handler::ResHl),
                Opcode::new(0xBF, "RES 7, A".to_string(), 2, 2, Handler::ResR),
                Opcode::new(0xC0, "SET 0, B".to_string(), 2, 2, Handler::SetR),
                Opcode::new(0xC1, "SET 0, C".to_string(), 2, 2, Handler::SetR),
                Opcode::new(0xC2, "SET 0, D".to_string(), 2, 2, Handler::SetR),
                Opcode::new(0xC3, "SET 0, E".to_string(), 2, 2, Handler::SetR),
                Opcode::new(0xC4, "SET 0, H".to_string(), 2, 2, Handler::SetR),
                Opcode::new(0xC5, "SET 0, L".to_string(), 2, 2, Handler::SetR),
                Opcode::new(0xC6, "SET 0, (HL)".to_string(), 4, 2, Handler::SetHl),
                Opcode::new(0xC7, "SET 0, A".to_string(), 2, 2, Handler::SetR),
                Opcode::new(0xC8, "SET 1, B".to_string(), 2, 2, Handler::SetR),
                Opcode::new(0xC9, "SET 1, C".to_string(), 2, 2, Handler::SetR),
                Opcode::new(0xCA, "SET 1, D".to_string(), 2, 2, Handler::SetR),
                Opcode::new(0xCB, "SET 1, E".to_string(), 2, 2, Handler::SetR),
                Opcode::new(0xCC, "SET 1, H".to_string(), 2, 2, Handler::SetR),
                Opcode::new(0xCD, "SET 1, L".to_string(), 2, 2, Handler::SetR),
                Opcode::new(0xCE, "SET 1, (HL)".to_string(), 4, 2, Handler::SetHl),
                Opcode::new(0xCF, "SET 1, A".to_string(), 2, 2, Handler::SetR),
                Opcode::new(0xD0, "SET 2, B".to_string(), 2, 2, Handler::SetR),
                Opcode::new(0xD1, "SET 2, C".to_string(), 2, 2, Handler::SetR),
                Opcode::new(0xD2, "SET 2, D".to_string(), 2, 2, Handler::SetR),
                Opcode::new(0xD3, "SET 2, E".to_string(), 2, 2, Handler::SetR),
                Opcode::new(0xD4, "SET 2, H".to_string(), 2, 2, Handler::SetR),
                Opcode::new(0xD5, "SET 2, L".to_string(), 2, 2, Handler::SetR),
                Opcode::new(0xD6, "SET 2, (HL)".to_string(), 4, 2, Handler::SetHl),
                Opcode::new(0xD7, "SET 2, A".to_string(), 2, 2, Handler::SetR),
                Opcode::new(0xD8, "SET 3, B".to_string(), 2, 2, Handler::SetR),
                Opcode::new(0xD9, "SET 3, C".to_string(), 2, 2, Handler::SetR),
                Opcode::new(0xDA, "SET 3, D".to_string(), 2, 2, Handler::SetR),
                Opcode::new(0xDB, "SET 3, E".to_string(), 2, 2, Handler::SetR),
                Opcode::new(0xDC, "SET 3, H".to_string(), 2, 2, Handler::SetR),
                Opcode::new(0xDD, "SET 3, L".to_string(), 2, 2, Handler::SetR),
                Opcode::new(0xDE, "SET 3, (HL)".to_string(), 4, 2, Handler::SetHl),
                Opcode::new(0xDF, "SET 3, A".to_string(), 2, 2, Handler::SetR),
                Opcode::new(0xE0, "SET 4, B".to_string(), 2, 2, Handler::SetR),
                Opcode::new(0xE1, "SET 4, C".to_string(), 2, 2, Handler::SetR),
                Opcode::new(0xE2, "SET 4, D".to_string(), 2, 2, Handler::SetR),
                Opcode::new(0xE3, "SET 4, E".to_string(), 2, 2, Handler::SetR),
                Opcode::new(0xE4, "SET 4, H".to_string(), 2, 2, Handler::SetR),
                Opcode::new(0xE5, "SET 4, L".to_string(), 2, 2, Handler::SetR),
                Opcode::new(0xE6, "SET 4, (HL)".to_string(), 4, 2, Handler::SetHl),
                Opcode::new(0xE7, "SET 4, A".to_string(), 2, 2, Handler::SetR),
                Opcode::new(0xE8, "SET 5, B".to_string(), 2, 2, Handler::SetR),
                Opcode::new(0xE9, "SET 5, C".to_string(), 2, 2, Handler::SetR),
                Opcode::new(0xEA, "SET 5, D".to_string(), 2, 2, Handler::SetR),
                Opcode::new(0xEB, "SET 5, E".to_string(), 2, 2, Handler::SetR),
                Opcode::new(0xEC, "SET 5, H".to_string(), 2, 2, Handler::SetR),
                Opcode::new(0xED, "SET 5, L".to_string(), 2, 2, Handler::SetR),
                Opcode::new(0xEE, "SET 5, (HL)".to_string(), 4, 2, Handler::SetHl),
                Opcode::new(0xEF, "SET 5, A".to_string(), 2, 2, Handler::SetR),
                Opcode::new(0xF0, "SET 6, B".to_string(), 2, 2, Handler::SetR),
                Opcode::new(0xF1, "SET 6, C".to_string(), 2, 2, Handler::SetR),
                Opcode::new(0xF2, "SET 6, D".to_string(), 2, 2, Handler::SetR),
                Opcode::new(0xF3, "SET 6, E".to_string(), 2, 2, Handler::SetR),
                Opcode::new(0xF4, "SET 6, H".to_string(), 2, 2, Handler::SetR),
                Opcode::new(0xF5, "SET 6, L".to_string(), 2, 2, Handler::SetR),
                Opcode::new(0xF6, "SET 6, (HL)".to_string(), 4, 2, Handler::SetHl),
                Opcode::new(0xF7, "SET 6, A".to_string(), 2, 2, Handler::SetR),
                Opcode::new(0xF8, "SET 7, B".to_string(), 2, 2, Handler::SetR),
                Opcode::new(0xF9, "SET 7, C".to_string(), 2, 2, Handler::SetR),
                Opcode::new(0xFA, "SET 7, D".to_string(), 2, 2, Handler::SetR),
                Opcode::new(0xFB, "SET 7, E".to_string(), 2, 2, Handler::SetR),
                Opcode::new(0xFC, "SET 7, H".to_string(), 2, 2, Handler::SetR),
                Opcode::new(0xFD, "SET 7, L".to_string(), 2, 2, Handler::SetR),
                Opcode::new(0xFE, "SET 7, (HL)".to_string(), 4, 2, Handler::SetHl),
                Opcode::new(0xFF, "SET 7, A".to_string(), 2, 2, Handler::SetR),
            ],
        };
        assert(table@ =~= prefixed_table());
        table
    }
}

} // verus!
