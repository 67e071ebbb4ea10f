//! Video memory: three blocks of 128 tiles of 16 bytes, then the two tile maps.
//!
//! Seen from the bus it is the 8 KiB from 0x8000 to 0x9fff. Its view is that
//! range as one sequence, indexed by the distance from 0x8000.

use vstd::prelude::*;

verus! {

pub const VRAM_START: usize = 0x8000;

pub const VRAM_END: usize = 0x9fff;

/// The number of bytes of video memory.
pub const VRAM_SIZE: usize = 0x2000;

pub const BLOCK_0_START: usize = 0x8000;

pub const BLOCK_0_END: usize = 0x87ff;

pub const BLOCK_1_START: usize = 0x8800;

pub const BLOCK_1_END: usize = 0x8fff;

pub const BLOCK_2_START: usize = 0x9000;

pub const BLOCK_2_END: usize = 0x97ff;

pub const TILE_MAP_1_START: usize = 0x9800;

pub const TILE_MAP_1_END: usize = 0x9BFF;

pub const TILE_MAP_2_START: usize = 0x9C00;

pub const TILE_MAP2_END: usize = 0x9FFF;

const TILE_RAM_SIZE: usize = 0x800;

pub const BLOCKS_PER_VRAM: usize = 3;

pub const TILES_PER_BANK: usize = 128;

pub const BYTES_PER_TILE: usize = 16;

/// The number of bytes in one block of tiles.
pub const BYTES_PER_BLOCK: usize = 0x800;

/// Where a tile access lands in video memory, if anywhere. An address inside
/// the three blocks lands at its distance from 0x8000. An address below the
/// size of a block is taken as an offset into block 0. Any other address lands
/// nowhere.
pub open spec fn tile_offset(address: int) -> Option<int> {
    if BLOCK_0_START <= address <= BLOCK_2_END {
        Some(address - VRAM_START)
    } else if 0 <= address < BYTES_PER_BLOCK {
        Some(address)
    } else {
        None
    }
}

/// Where a map access lands in video memory, if anywhere: an address inside the
/// two tile maps lands at its distance from 0x8000.
pub open spec fn map_offset(address: int) -> Option<int> {
    if TILE_MAP_1_START <= address <= TILE_MAP2_END {
        Some(address - VRAM_START)
    } else {
        None
    }
}

/// The byte that a tile read sees; 0 where the address lands nowhere.
pub open spec fn tile_byte(vram: Seq<u8>, address: int) -> u8 {
    match tile_offset(address) {
        Some(offset) => vram[offset],
        None => 0,
    }
}

/// Video memory after a tile write; unchanged where the address lands nowhere.
pub open spec fn with_tile_byte(vram: Seq<u8>, address: int, data: u8) -> Seq<u8> {
    match tile_offset(address) {
        Some(offset) => vram.update(offset, data),
        None => vram,
    }
}

/// The byte that a map read sees; 0 where the address lands nowhere.
pub open spec fn map_byte(vram: Seq<u8>, address: int) -> u8 {
    match map_offset(address) {
        Some(offset) => vram[offset],
        None => 0,
    }
}

/// Video memory after a map write; unchanged where the address lands nowhere.
pub open spec fn with_map_byte(vram: Seq<u8>, address: int, data: u8) -> Seq<u8> {
    match map_offset(address) {
        Some(offset) => vram.update(offset, data),
        None => vram,
    }
}

/// Whether the three indices name a line of a tile.
pub open spec fn is_tile_line(block_index: int, tile_index: int, line_index: int) -> bool {
    0 <= block_index < BLOCKS_PER_VRAM && 0 <= tile_index < TILES_PER_BANK && 0 <= line_index < 8
}

/// The offset in video memory of a byte of a tile.
pub open spec fn tile_byte_offset(block_index: int, tile_index: int, byte_index: int) -> int {
    block_index * BYTES_PER_BLOCK + tile_index * BYTES_PER_TILE + byte_index
}

#[derive(Copy, Clone)]
pub struct Tile {
    tile: [u8; 16],
}

impl View for Tile {
    type V = Seq<u8>;

    closed spec fn view(&self) -> Seq<u8> {
        self.tile@
    }
}

impl Tile {
    pub fn new() -> (tile: Tile)
        ensures
            tile@ == Seq::new(BYTES_PER_TILE as nat, |i: int| 0u8),
    {
        let tile = Tile { tile: [0; 16] };
        assert(tile@ =~= Seq::new(BYTES_PER_TILE as nat, |i: int| 0u8));
        tile
    }
}

#[derive(Copy, Clone)]
pub struct Block {
    block: [Tile; 128],
}

impl View for Block {
    type V = Seq<u8>;

    /// The block's bytes, tile after tile.
    closed spec fn view(&self) -> Seq<u8> {
        Seq::new(
            BYTES_PER_BLOCK as nat,
            |i: int| self.block[i / BYTES_PER_TILE as int].tile[i % BYTES_PER_TILE as int],
        )
    }
}

impl Block {
    pub fn new() -> (block: Block)
        ensures
            block@ == Seq::new(BYTES_PER_BLOCK as nat, |i: int| 0u8),
    {
        let block = Block { block: [Tile::new(); 128] };
        assert(block@ =~= Seq::new(BYTES_PER_BLOCK as nat, |i: int| 0u8));
        block
    }
}

/// The two bytes of one line of a tile.
pub struct TilePixelLine {
    pub hight_byte: u8,
    pub low_byte: u8,
}

impl TilePixelLine {
    pub fn new() -> (line: TilePixelLine)
        ensures
            line.hight_byte == 0,
            line.low_byte == 0,
    {
        TilePixelLine { hight_byte: 0, low_byte: 0 }
    }
}

pub struct Vram {
    tile_ram: [Block; 3],
    map_ram: [u8; 0x800],
}

impl View for Vram {
    type V = Seq<u8>;

    closed spec fn view(&self) -> Seq<u8> {
        Seq::new(
            VRAM_SIZE as nat,
            |i: int|
                if i < BLOCKS_PER_VRAM * BYTES_PER_BLOCK {
                    self.tile_ram[i / BYTES_PER_BLOCK as int].block[(i % BYTES_PER_BLOCK as int)
                        / BYTES_PER_TILE as int].tile[i % BYTES_PER_TILE as int]
                } else {
                    self.map_ram[i - BLOCKS_PER_VRAM * BYTES_PER_BLOCK]
                },
        )
    }
}

impl Vram {
    /// Video memory is always `VRAM_SIZE` bytes long.
    pub proof fn lemma_len(&self)
        ensures
            self@.len() == VRAM_SIZE,
    {
    }

    pub fn new() -> (vram: Vram)
        ensures
            vram@ == Seq::new(VRAM_SIZE as nat, |i: int| 0u8),
    {
        let vram = Vram { tile_ram: [Block::new(); 3], map_ram: [0; 0x800] };
        assert(vram@ =~= Seq::new(VRAM_SIZE as nat, |i: int| 0u8)) by {
            assert forall|i: int| 0 <= i < BLOCKS_PER_VRAM * BYTES_PER_BLOCK implies vram@[i]
                == 0u8 by {
                let b = vram.tile_ram[i / BYTES_PER_BLOCK as int];
                let k = i % BYTES_PER_BLOCK as int;
                assert(b@[k] == 0u8);
            }
        }
        vram
    }

    /// The two bytes of a line of a tile: the byte at the line's index and the
    /// one after it. Both are 0 where the indices name no line.
    pub fn cache_tile_line(
        &self,
        block_index: usize,
        title_index: usize,
        line_index: usize,
    ) -> (line: TilePixelLine)
        ensures
            is_tile_line(block_index as int, title_index as int, line_index as int) ==> {
                let offset = tile_byte_offset(
                    block_index as int,
                    title_index as int,
                    line_index as int,
                );
                line.low_byte == self@[offset] && line.hight_byte == self@[offset + 1]
            },
            !is_tile_line(block_index as int, title_index as int, line_index as int)
                ==> line.low_byte == 0 && line.hight_byte == 0,
    {
        let mut pixel_data = TilePixelLine::new();

        if block_index >= BLOCKS_PER_VRAM || title_index >= TILES_PER_BANK || line_index >= 8 {
        } else {
            pixel_data.low_byte = self.tile_ram[block_index].block[title_index].tile[line_index];
            pixel_data.hight_byte = self.tile_ram[block_index].block[title_index].tile[line_index
                + 1];
            proof {
                let low = tile_byte_offset(
                    block_index as int,
                    title_index as int,
                    line_index as int,
                );
                assert(low / BYTES_PER_BLOCK as int == block_index);
                assert((low % BYTES_PER_BLOCK as int) / BYTES_PER_TILE as int == title_index);
                assert(low % BYTES_PER_TILE as int == line_index);
                assert((low + 1) / BYTES_PER_BLOCK as int == block_index);
                assert(((low + 1) % BYTES_PER_BLOCK as int) / BYTES_PER_TILE as int == title_index);
                assert((low + 1) % BYTES_PER_TILE as int == line_index + 1);
            }
        }
        pixel_data
    }

    /// Reads a byte of tile data.
    pub fn read_vram_tile(&self, address: usize) -> (data: u8)
        ensures
            data == tile_byte(self@, address as int),
    {
        let mut offset = address;
        let block_index: usize;
        if address >= BLOCK_0_START && address <= BLOCK_0_END {
            offset -= BLOCK_0_START;
            block_index = 0;
        } else if address >= BLOCK_1_START && address <= BLOCK_1_END {
            offset -= BLOCK_1_START;
            block_index = 1;
        } else if address >= BLOCK_2_START && address <= BLOCK_2_END {
            offset -= BLOCK_2_START;
            block_index = 2;
        } else {
            block_index = 0;
        }
        if offset >= BYTES_PER_BLOCK {
            return 0;
        }
        let tile_index = offset / BYTES_PER_TILE;
        let byte_index = offset % BYTES_PER_TILE;

        self.tile_ram[block_index].block[tile_index].tile[byte_index]
    }

    /// Writes a byte of tile data.
    pub fn write_vram_tile(&mut self, address: usize, data: u8)
        ensures
            final(self)@ == with_tile_byte(old(self)@, address as int, data),
    {
        let mut offset = address;
        let block_index: usize;
        if address >= BLOCK_0_START && address <= BLOCK_0_END {
            offset -= BLOCK_0_START;
            block_index = 0;
        } else if address >= BLOCK_1_START && address <= BLOCK_1_END {
            offset -= BLOCK_1_START;
            block_index = 1;
        } else if address >= BLOCK_2_START && address <= BLOCK_2_END {
            offset -= BLOCK_2_START;
            block_index = 2;
        } else {
            block_index = 0;
        }
        if offset >= BYTES_PER_BLOCK {
            return ;
        }
        let tile_index = offset / BYTES_PER_TILE;
        let byte_index = offset % BYTES_PER_TILE;

        self.tile_ram[block_index].block[tile_index].tile[byte_index] = data;
        assert(final(self)@ =~= with_tile_byte(old(self)@, address as int, data));
    }

    /// Reads a byte of a tile map; 0 outside the maps.
    pub fn read_vram_map(&self, address: usize) -> (data: u8)
        ensures
            data == map_byte(self@, address as int),
    {
        if address < TILE_MAP_1_START || address > TILE_MAP2_END {
            return 0;
        }
        self.map_ram[address - TILE_MAP_1_START]
    }

    /// Writes a byte of a tile map; ignored outside the maps.
    pub fn write_vram_map(&mut self, address: usize, data: u8)
        ensures
            final(self)@ == with_map_byte(old(self)@, address as int, data),
    {
        if address < TILE_MAP_1_START || address > TILE_MAP2_END {
            return ;
        }
        self.map_ram[address - TILE_MAP_1_START] = data;
        assert(final(self)@ =~= with_map_byte(old(self)@, address as int, data));
    }
}

} // verus!
