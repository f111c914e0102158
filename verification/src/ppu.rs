//! The graphics device: video RAM and the tile set decoded from it.

use vstd::prelude::*;
use crate::fault::Fault;

verus! {

/// Number of bytes of video RAM.
pub const VRAM_SIZE: usize = 0x2000;

/// Number of bytes of video RAM that hold tile data.
pub const TILE_DATA_SIZE: usize = 0x1800;

/// Number of tiles in the tile set.
pub const TILE_COUNT: usize = 384;

/// The colour index of one pixel of a tile.
#[derive(Clone, Copy, Debug, PartialEq, Eq, Structural)]
pub enum TilePixelValue {
    Zero,
    One,
    Two,
    Three,
}

/// The pixel whose low bit is `lsb` and whose high bit is `msb`.
pub open spec fn pixel_value(lsb: bool, msb: bool) -> TilePixelValue {
    if lsb && msb {
        TilePixelValue::Three
    } else if msb {
        TilePixelValue::Two
    } else if lsb {
        TilePixelValue::One
    } else {
        TilePixelValue::Zero
    }
}

/// The pixel in column `col` of the tile row that the bytes `byte1` and
/// `byte2` encode. Column 0 is the leftmost pixel and comes from bit 7.
pub open spec fn row_pixel(byte1: u8, byte2: u8, col: int) -> TilePixelValue {
    let mask = 1u8 << ((7 - col) as u8);
    pixel_value(byte1 & mask != 0, byte2 & mask != 0)
}

/// What the graphics device holds. The tile set is a function of the video
/// RAM, so the video RAM is all there is to say.
pub struct GpuState {
    pub vram: Seq<u8>,
}

impl GpuState {
    pub open spec fn wf(self) -> bool {
        self.vram.len() == VRAM_SIZE
    }

    /// Video RAM filled with zeros.
    pub open spec fn blank() -> GpuState {
        GpuState { vram: Seq::new(VRAM_SIZE as nat, |i: int| 0u8) }
    }

    pub open spec fn read(self, offset: u16) -> Result<u8, Fault> {
        if offset < VRAM_SIZE {
            Ok(self.vram[offset as int])
        } else {
            Err(Fault::AddressRangeViolation { address: offset })
        }
    }

    pub open spec fn write(self, offset: u16, data: u8) -> Result<GpuState, Fault> {
        if offset < VRAM_SIZE {
            Ok(GpuState { vram: self.vram.update(offset as int, data) })
        } else {
            Err(Fault::AddressRangeViolation { address: offset })
        }
    }

    /// The pixel at row `row` and column `col` of tile `tile`. A tile takes
    /// sixteen bytes, two for each of its eight rows.
    pub open spec fn pixel(self, tile: int, row: int, col: int) -> TilePixelValue {
        row_pixel(self.vram[tile * 16 + row * 2], self.vram[tile * 16 + row * 2 + 1], col)
    }
}

/// The tile set shows what the video RAM encodes.
spec fn decoded(vram: Seq<u8>, tiles: [[[TilePixelValue; 8]; 8]; 384]) -> bool {
    forall|t: int, r: int, c: int|
        0 <= t < TILE_COUNT && 0 <= r < 8 && 0 <= c < 8 ==> (#[trigger] tiles[t][r][c])
            == (GpuState { vram }).pixel(t, r, c)
}

fn empty_tile() -> (t: [[TilePixelValue; 8]; 8])
    ensures
        forall|r: int, c: int|
            0 <= r < 8 && 0 <= c < 8 ==> (#[trigger] t[r][c]) == TilePixelValue::Zero,
{
    [[TilePixelValue::Zero; 8]; 8]
}

/// Stores `data` at `addr` and decodes the tile row that the byte belongs to.
fn store(
    vram: &mut [u8; 0x2000],
    tiles: &mut [[[TilePixelValue; 8]; 8]; 384],
    addr: u16,
    data: u8,
)
    requires
        addr < VRAM_SIZE,
        decoded(old(vram)@, *old(tiles)),
    ensures
        final(vram)@ == old(vram)@.update(addr as int, data),
        decoded(final(vram)@, *final(tiles)),
    no_unwind
{
    vram[addr as usize] = data;
    if addr as usize >= TILE_DATA_SIZE {
        return ;
    }
    proof {
        crate::bits::lemma_even_address(addr);
    }
    let normalized_index: usize = (addr & 0xFFFE) as usize;
    let byte1: u8 = vram[normalized_index];
    let byte2: u8 = vram[normalized_index + 1];
    let tile_index: usize = (addr / 16) as usize;
    let row_index: usize = ((addr % 16) / 2) as usize;
    let mut pixel_index: u8 = 0;
    while pixel_index < 8
        invariant
            pixel_index <= 8,
            addr < TILE_DATA_SIZE,
            tile_index == addr / 16,
            row_index == (addr % 16) / 2,
            normalized_index == tile_index * 16 + row_index * 2,
            byte1 == vram@[normalized_index as int],
            byte2 == vram@[normalized_index + 1],
            vram@ == old(vram)@.update(addr as int, data),
            forall|t: int, r: int, c: int|
                0 <= t < TILE_COUNT && 0 <= r < 8 && 0 <= c < 8 && (t != tile_index || r
                    != row_index || c < pixel_index) ==> (#[trigger] tiles[t][r][c]) == (GpuState {
                    vram: vram@,
                }).pixel(t, r, c),
        decreases 8 - pixel_index,
    {
        let mask: u8 = 1u8 << (7 - pixel_index);
        let lsb: u8 = byte1 & mask;
        let msb: u8 = byte2 & mask;
        let value = if lsb != 0 && msb != 0 {
            TilePixelValue::Three
        } else if msb != 0 {
            TilePixelValue::Two
        } else if lsb != 0 {
            TilePixelValue::One
        } else {
            TilePixelValue::Zero
        };
        tiles[tile_index][row_index][pixel_index as usize] = value;
        pixel_index += 1;
    }
}

/// The graphics device.
pub struct GPU {
    vram: [u8; 0x2000],
    tile_set: [[[TilePixelValue; 8]; 8]; 384],
}

impl View for GPU {
    type V = GpuState;

    closed spec fn view(&self) -> GpuState {
        GpuState { vram: self.vram@ }
    }
}

impl GPU {
    #[verifier::type_invariant]
    spec fn coherent(&self) -> bool {
        decoded(self.vram@, self.tile_set)
    }

    /// A device whose video RAM is filled with zeros.
    pub fn new() -> (g: Self)
        ensures
            g@ == GpuState::blank(),
    {
        let vram = [0u8; 0x2000];
        let tile_set = [empty_tile(); 384];
        proof {
            assert(vram@ =~= GpuState::blank().vram);
            assert forall|t: int, r: int, c: int|
                0 <= t < TILE_COUNT && 0 <= r < 8 && 0 <= c < 8 implies (#[trigger] tile_set[t][r][c])
                == (GpuState { vram: vram@ }).pixel(t, r, c) by {
                let mask = 1u8 << ((7 - c) as u8);
                assert(0u8 & mask == 0) by (bit_vector);
            }
        }
        Self { vram, tile_set }
    }

    /// The video RAM has its fixed size.
    pub proof fn lemma_wf(&self)
        ensures
            self@.wf(),
    {
    }

    /// Stores `data` at `addr`, an offset into video RAM.
    pub fn write(&mut self, addr: u16, data: u8) -> (r: Result<(), Fault>)
        ensures
            match old(self)@.write(addr, data) {
                Ok(s) => r is Ok && final(self)@ == s,
                Err(e) => r == Err::<(), Fault>(e) && final(self)@ == old(self)@,
            },
    {
        if addr as usize >= VRAM_SIZE {
            return Err(Fault::AddressRangeViolation { address: addr });
        }
        proof {
            use_type_invariant(&*self);
        }
        store(&mut self.vram, &mut self.tile_set, addr, data);
        Ok(())
    }

    pub fn read_vram(&self, address: u16) -> (r: Result<u8, Fault>)
        ensures
            r == self@.read(address),
    {
        if (address as usize) < VRAM_SIZE {
            Ok(self.vram[address as usize])
        } else {
            Err(Fault::AddressRangeViolation { address })
        }
    }

    /// The pixel at row `row` and column `col` of tile `tile`, where there is
    /// one.
    pub fn pixel(&self, tile: usize, row: usize, col: usize) -> (r: Option<TilePixelValue>)
        ensures
            r == if tile < TILE_COUNT && row < 8 && col < 8 {
                Some(self@.pixel(tile as int, row as int, col as int))
            } else {
                None
            },
    {
        if tile < TILE_COUNT && row < 8 && col < 8 {
            proof {
                use_type_invariant(self);
            }
            Some(self.tile_set[tile][row][col])
        } else {
            None
        }
    }
}

} // verus!
