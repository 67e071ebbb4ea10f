//! The bank controller: the fixed bank 0 and the bank that is switched in
//! behind 0x4000. Switching itself is not modelled.

use vstd::prelude::*;
use crate::rom::{
    Rom, ROM_BANK_00_END, ROM_BANK_00_START, ROM_BANK_01_END, ROM_BANK_01_START, ROM_BANK_SIZE,
};

verus! {

pub struct Mcb {
    bank: Vec<Rom>,
    current_bank: usize,
}

impl Mcb {
    #[verifier::type_invariant]
    spec fn well_formed(self) -> bool {
        1 <= self.current_bank < self.bank.len()
    }

    /// The bytes of bank 0, by offset.
    pub closed spec fn bank_00(&self) -> Seq<u8> {
        self.bank[0]@
    }

    /// The bytes of the bank that is switched in, by offset.
    pub closed spec fn bank_n(&self) -> Seq<u8> {
        self.bank[self.current_bank as int]@
    }

    /// Both banks are `ROM_BANK_SIZE` bytes long.
    pub proof fn lemma_len(&self)
        ensures
            self.bank_00().len() == ROM_BANK_SIZE,
            self.bank_n().len() == ROM_BANK_SIZE,
    {
        self.bank[0].lemma_len();
        self.bank[self.current_bank as int].lemma_len();
    }

    pub fn new() -> (mcb: Mcb)
        ensures
            mcb.bank_00() == Seq::new(ROM_BANK_SIZE as nat, |i: int| 0u8),
            mcb.bank_n() == Seq::new(ROM_BANK_SIZE as nat, |i: int| 0u8),
    {
        Mcb { bank: vec![Rom::new(), Rom::new()], current_bank: 1 }
    }

    pub fn read_bank_00(&self, index: usize) -> (data: u8)
        requires
            index <= ROM_BANK_00_END,
        ensures
            data == self.bank_00()[index as int],
    {
        proof {
            use_type_invariant(self);
        }
        self.bank[0].read_memory(index - ROM_BANK_00_START)
    }

    pub fn read_bank_n(&self, index: usize) -> (data: u8)
        requires
            ROM_BANK_01_START <= index <= ROM_BANK_01_END,
        ensures
            data == self.bank_n()[index - ROM_BANK_01_START],
    {
        proof {
            use_type_invariant(self);
        }
        self.bank[self.current_bank].read_memory(index - ROM_BANK_01_START)
    }

    pub fn write_bank_00(&mut self, index: usize, data: u8)
        requires
            index <= ROM_BANK_00_END,
        ensures
            final(self).bank_00() == old(self).bank_00().update(index as int, data),
            final(self).bank_n() == old(self).bank_n(),
    {
        proof {
            use_type_invariant(&*self);
        }
        self.bank[0].write_memory(index - ROM_BANK_00_START, data);
    }

    pub fn write_bank_n(&mut self, index: usize, data: u8)
        requires
            ROM_BANK_01_START <= index <= ROM_BANK_01_END,
        ensures
            final(self).bank_n() == old(self).bank_n().update(index - ROM_BANK_01_START, data),
            final(self).bank_00() == old(self).bank_00(),
    {
        proof {
            use_type_invariant(&*self);
        }
        self.bank[self.current_bank].write_memory(index - ROM_BANK_01_START, data);
    }

    /// The hook that a write into ROM space reaches. Bank switching is not
    /// modelled: the controller stays as it is.
    pub fn change_bank(&self)
    {
    }
}

} // verus!
