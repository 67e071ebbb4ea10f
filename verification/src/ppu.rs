//! The LCD register block. It owns video memory and routes an access to it to
//! tile data or to the tile maps. Nothing is rendered here.

use vstd::prelude::*;
use crate::vram::{
    Vram, map_byte, tile_byte, with_map_byte, with_tile_byte, BLOCK_2_END, VRAM_END, VRAM_SIZE,
    VRAM_START,
};

verus! {

pub const LCD_ADDR_START: usize = 0xff40;

pub const LCD_ADDR_END: usize = 0xff4b;

pub const LCD_WIDTH: usize = 160;

pub const LCD_HEIGHT: usize = 144;

pub const SCREEN_RESOLUTION: usize = 23040;

/// The number of LCD registers.
pub const MEM_SIZE: usize = 12;

/// LCD control register.
pub const LCD_CRTL_REG: usize = 0xff40;

/// LCD Y coordinate.
pub const LCD_Y_REG: usize = 0xff44;

/// What the LCD block holds for the bus: its registers, by distance from
/// `LCD_ADDR_START`, and video memory, by distance from `VRAM_START`.
pub struct LcdState {
    pub registers: Seq<u8>,
    pub vram: Seq<u8>,
}

/// The byte that a read of video memory sees: tile data up to the end of block
/// 2, a tile map after it.
pub open spec fn video_byte(vram: Seq<u8>, address: int) -> u8 {
    if address <= BLOCK_2_END {
        tile_byte(vram, address)
    } else {
        map_byte(vram, address)
    }
}

/// Video memory after a write.
pub open spec fn with_video_byte(vram: Seq<u8>, address: int, data: u8) -> Seq<u8> {
    if address <= BLOCK_2_END {
        with_tile_byte(vram, address, data)
    } else {
        with_map_byte(vram, address, data)
    }
}

/// Inside the video range a read sees the byte at the address's distance from
/// the start of the range, and a write changes that byte alone.
pub proof fn lemma_video_range(vram: Seq<u8>, address: int, data: u8)
    requires
        VRAM_START <= address <= VRAM_END,
    ensures
        video_byte(vram, address) == vram[address - VRAM_START],
        with_video_byte(vram, address, data) == vram.update(address - VRAM_START, data),
{
}

impl LcdState {
    pub open spec fn wf(self) -> bool {
        self.registers.len() == MEM_SIZE && self.vram.len() == VRAM_SIZE
    }
}

pub struct Lcd {
    memory_registers: [u8; 12],
    vram: Vram,
    dot_counter: u32,
    current_row: u8,
    current_col: u8,
    screen_buffer_a: [u8; 23040],
    screen_buffer_b: [u8; 23040],
}

impl View for Lcd {
    type V = LcdState;

    closed spec fn view(&self) -> LcdState {
        LcdState { registers: self.memory_registers@, vram: self.vram@ }
    }
}

impl Lcd {
    /// The view always has `MEM_SIZE` registers and `VRAM_SIZE` bytes of video
    /// memory.
    pub proof fn lemma_wf(&self)
        ensures
            self@.wf(),
    {
        self.vram.lemma_len();
    }

    pub fn new() -> (lcd: Lcd)
        ensures
            lcd@.registers == Seq::new(MEM_SIZE as nat, |i: int| 0u8),
            lcd@.vram == Seq::new(VRAM_SIZE as nat, |i: int| 0u8),
    {
        let lcd = Lcd {
            memory_registers: [0; 12],
            vram: Vram::new(),
            dot_counter: 0,
            current_row: 0,
            current_col: 0,
            screen_buffer_a: [0; 23040],
            screen_buffer_b: [0; 23040],
        };
        assert(lcd@.registers =~= Seq::new(MEM_SIZE as nat, |i: int| 0u8));
        lcd
    }

    /// Refreshes the picture. Rendering is not modelled: nothing changes.
    pub fn update_lcd(&mut self)
        ensures
            *final(self) == *old(self),
    {
    }

    pub fn read_vram(&self, address: usize) -> (data: u8)
        ensures
            data == video_byte(self@.vram, address as int),
    {
        let data: u8;
        if address <= BLOCK_2_END {
            data = self.vram.read_vram_tile(address);
        } else {
            data = self.vram.read_vram_map(address);
        }
        data
    }

    pub fn write_vram(&mut self, address: usize, data: u8)
        ensures
            final(self)@.vram == with_video_byte(old(self)@.vram, address as int, data),
            final(self)@.registers == old(self)@.registers,
    {
        if address <= BLOCK_2_END {
            self.vram.write_vram_tile(address, data);
        } else {
            self.vram.write_vram_map(address, data);
        }
    }

    pub fn write_register(&mut self, index: usize, data: u8)
        requires
            LCD_ADDR_START <= index <= LCD_ADDR_END,
        ensures
            final(self)@.registers == old(self)@.registers.update(index - LCD_ADDR_START, data),
            final(self)@.vram == old(self)@.vram,
    {
        self.memory_registers[index - LCD_ADDR_START] = data;
    }

    pub fn read_register(&self, index: usize) -> (data: u8)
        requires
            LCD_ADDR_START <= index <= LCD_ADDR_END,
        ensures
            data == self@.registers[index - LCD_ADDR_START],
    {
        self.memory_registers[index - LCD_ADDR_START]
    }
}

} // verus!
