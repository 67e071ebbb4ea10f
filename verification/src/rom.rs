//! One 16 KiB bank of cartridge ROM.

use vstd::prelude::*;

verus! {

pub const ROM_BANK_00_START: usize = 0x0000;

pub const ROM_BANK_00_END: usize = 0x3fff;

pub const ROM_BANK_01_START: usize = 0x4000;

pub const ROM_BANK_01_END: usize = 0x7fff;

/// The number of bytes in a bank.
pub const ROM_BANK_SIZE: usize = 0x4000;

#[derive(Copy, Clone)]
pub struct Rom {
    rom: [u8; 0x4000],
}

impl View for Rom {
    type V = Seq<u8>;

    /// The bank's bytes, by offset.
    closed spec fn view(&self) -> Seq<u8> {
        self.rom@
    }
}

impl Rom {
    /// A bank is always `ROM_BANK_SIZE` bytes long.
    pub proof fn lemma_len(&self)
        ensures
            self@.len() == ROM_BANK_SIZE,
    {
    }

    pub fn new() -> (rom: Rom)
        ensures
            rom@ == Seq::new(ROM_BANK_SIZE as nat, |i: int| 0u8),
    {
        let rom = Rom { rom: [0; 0x4000] };
        assert(rom@ =~= Seq::new(ROM_BANK_SIZE as nat, |i: int| 0u8));
        rom
    }

    pub fn read_memory(&self, index: usize) -> (data: u8)
        requires
            index < ROM_BANK_SIZE,
        ensures
            data == self@[index as int],
    {
        self.rom[index]
    }

    pub fn write_memory(&mut self, index: usize, data: u8)
        requires
            index < ROM_BANK_SIZE,
        ensures
            final(self)@ == old(self)@.update(index as int, data),
    {
        self.rom[index] = data;
    }
}

} // verus!
