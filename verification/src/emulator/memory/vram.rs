use vstd::prelude::*;

use crate::emulator::memory::{MemoryRegion, ReadMemory, WriteMemory};

verus! {

/// Index of the first tile byte in video RAM.
pub const TILES_START: usize = 0;

/// Index one past the last tile byte: 3 blocks of 128 tiles of 16 bytes.
pub const TILES_END: usize = 6144;

/// The number of tiles that video RAM holds.
pub const TILE_COUNT: usize = 384;

/// The bytes of video RAM, answering `0x8000..=0x9FFF`.
pub type VRamData = MemoryRegion<8192, 0x8000, 0x9FFF>;

/// The 2-bit color index of pixel `i` (0 is leftmost) of a tile row stored as the
/// byte pair `lsb`, `msb`: bit `7 - i` of `msb` is the high bit and of `lsb` the low bit.
pub open spec fn pixel(lsb: u8, msb: u8, i: int) -> u8 {
    let shift = (7 - i) as u8;
    (((msb >> shift) & 1) << 1u8) | ((lsb >> shift) & 1)
}

/// The 8 color indexes of the row stored as `lsb`, `msb`.
pub open spec fn row_colors(lsb: u8, msb: u8) -> Seq<u8> {
    Seq::new(8, |i: int| pixel(lsb, msb, i))
}

/// The 64 color indexes, row by row, of tile `t` of `bytes`.
pub open spec fn tile_colors(bytes: Seq<u8>, t: int) -> Seq<u8> {
    Seq::new(
        64,
        |k: int| pixel(bytes[16 * t + 2 * (k / 8)], bytes[16 * t + 2 * (k / 8) + 1], k % 8),
    )
}

/// One 8x8 tile: its 64 color indexes, row by row.
#[derive(Clone, Debug)]
pub struct Tile {
    pub color_indexes: Vec<u8>,
}

impl Tile {
    pub fn new(color_indexes: Vec<u8>) -> (r: Self)
        ensures
            r.color_indexes@ == color_indexes@,
    {
        Self { color_indexes }
    }
}

/// Video RAM together with the tiles decoded from it.
#[derive(Debug)]
pub struct VRam {
    pub data: VRamData,
    /// Set whenever a tile changed since the flag was last cleared.
    pub dirty_tiles: bool,
    pub tiles: Vec<Tile>,
}

/// The color indexes of one tile row from its byte pair.
pub fn byte_pair_to_idxs(pair: &[u8]) -> (r: [u8; 8])
    requires
        pair@.len() >= 2,
    ensures
        r@ == row_colors(pair@[0], pair@[1]),
{
    let lsb = pair[0];
    let msb = pair[1];
    let mut colors = [0u8; 8];
    let mut i: usize = 0;
    while i < 8
        invariant
            i <= 8,
            colors@.len() == 8,
            forall|j: int| 0 <= j < i ==> #[trigger] colors@[j] == pixel(lsb, msb, j),
        decreases 8 - i,
    {
        let shift: u8 = 7 - i as u8;
        let lsb_bit = (lsb >> shift) & 1;
        let msb_bit = (msb >> shift) & 1;
        colors[i] = msb_bit << 1 | lsb_bit;
        i = i + 1;
    }
    assert(colors@ =~= row_colors(lsb, msb));
    colors
}

/// Writes the 8 colors of `row` into the row `row` of a tile's color indexes.
fn write_row(color_indexes: &mut Vec<u8>, row: usize, colors: [u8; 8])
    requires
        row < 8,
        old(color_indexes)@.len() == 64,
    ensures
        final(color_indexes)@.len() == 64,
        forall|k: int|
            0 <= k < 64 ==> #[trigger] final(color_indexes)@[k] == if k / 8 == row {
                colors@[k % 8]
            } else {
                old(color_indexes)@[k]
            },
{
    let mut i: usize = 0;
    while i < 8
        invariant
            i <= 8,
            row < 8,
            color_indexes@.len() == 64,
            forall|k: int|
                0 <= k < 64 ==> #[trigger] color_indexes@[k] == if k / 8 == row && k % 8 < i {
                    colors@[k % 8]
                } else {
                    old(color_indexes)@[k]
                },
        decreases 8 - i,
    {
        color_indexes.set(row * 8 + i, colors[i]);
        i = i + 1;
    }
}

impl VRam {
    /// The bytes of video RAM, the first answering `0x8000`.
    pub open spec fn bytes(&self) -> Seq<u8> {
        self.data.bytes()
    }

    /// The tiles are the decoding of the tile bytes.
    pub closed spec fn tiles_match(&self) -> bool {
        &&& self.tiles@.len() == TILE_COUNT
        &&& forall|t: int|
            0 <= t < TILE_COUNT ==> (#[trigger] self.tiles@[t]).color_indexes@ == tile_colors(
                self.bytes(),
                t,
            )
    }

    pub open spec fn wf(&self) -> bool {
        &&& self.data.wf()
        &&& self.tiles_match()
    }

    /// Video RAM filled with zeros, its tiles decoded.
    pub fn new() -> (r: Self)
        ensures
            r.wf(),
            r.dirty_tiles,
            forall|i: int| 0 <= i < 8192 ==> #[trigger] r.bytes()[i] == 0,
    {
        let data = VRamData::new();
        let tiles: Vec<Tile> = Vec::with_capacity(TILES_END - TILES_START);
        let mut this = Self { data, dirty_tiles: false, tiles };
        this.init_tiles();
        this
    }

    /// Decodes every tile from the tile bytes.
    fn init_tiles(&mut self)
        requires
            old(self).data.wf(),
        ensures
            final(self).wf(),
            final(self).dirty_tiles,
            final(self).bytes() == old(self).bytes(),
    {
        self.tiles.clear();
        let is_initializing = self.tiles.len() == 0;
        let mut t: usize = 0;
        while t < TILE_COUNT
            invariant
                self.data.wf(),
                self.bytes() == old(self).bytes(),
                is_initializing,
                t <= TILE_COUNT,
                self.tiles@.len() == t,
                forall|u: int|
                    0 <= u < t ==> (#[trigger] self.tiles@[u]).color_indexes@ == tile_colors(
                        self.bytes(),
                        u,
                    ),
            decreases TILE_COUNT - t,
        {
            let tile_bytes = self.data.copy_range(16 * t, 16 * t + 16);
            let mut colors: Vec<u8> = Vec::with_capacity(64);
            let mut row: usize = 0;
            while row < 8
                invariant
                    row <= 8,
                    t < TILE_COUNT,
                    self.data.wf(),
                    tile_bytes@ == self.bytes().subrange(16 * t as int, 16 * t + 16),
                    colors@.len() == 8 * row,
                    forall|k: int|
                        0 <= k < 8 * row ==> #[trigger] colors@[k] == tile_colors(
                            self.bytes(),
                            t as int,
                        )[k],
                decreases 8 - row,
            {
                let pair = tile_bytes.as_slice();
                let sub = slice_pair(pair, 2 * row);
                let idxs = byte_pair_to_idxs(sub.as_slice());
                let mut i: usize = 0;
                while i < 8
                    invariant
                        i <= 8,
                        row < 8,
                        t < TILE_COUNT,
                        self.data.wf(),
                        tile_bytes@ == self.bytes().subrange(16 * t as int, 16 * t + 16),
                        sub@ == tile_bytes@.subrange(2 * row as int, 2 * row + 2),
                        idxs@ == row_colors(sub@[0], sub@[1]),
                        colors@.len() == 8 * row + i,
                        forall|k: int|
                            0 <= k < 8 * row + i ==> #[trigger] colors@[k] == tile_colors(
                                self.bytes(),
                                t as int,
                            )[k],
                    decreases 8 - i,
                {
                    colors.push(idxs[i]);
                    proof {
                        let k = 8 * row + i;
                        assert(k / 8 == row as int);
                        assert(k % 8 == i as int);
                    }
                    i = i + 1;
                }
                row = row + 1;
            }
            assert(colors@ =~= tile_colors(self.bytes(), t as int));
            if is_initializing {
                self.tiles.push(Tile::new(colors));
            }
            t = t + 1;
        }
        self.dirty_tiles = true;
    }

    /// Decodes again the tile row that holds the byte at `address`.
    fn sync_tile(&mut self, address: u16)
        requires
            old(self).data.wf(),
            old(self).tiles@.len() == TILE_COUNT,
            0x8000 <= address,
            address - 0x8000 < TILES_END,
            forall|t: int|
                0 <= t < TILE_COUNT && t != (address - 0x8000) / 16 ==> (
                #[trigger] old(self).tiles@[t]).color_indexes@ == tile_colors(old(self).bytes(), t),
            forall|k: int|
                0 <= k < 64 && k / 8 != ((address - 0x8000) % 16) / 2 ==> #[trigger] old(
                    self,
                ).tiles@[(address - 0x8000) / 16].color_indexes@[k] == tile_colors(
                    old(self).bytes(),
                    (address - 0x8000) / 16,
                )[k],
            old(self).tiles@[(address - 0x8000) / 16].color_indexes@.len() == 64,
        ensures
            final(self).wf(),
            final(self).dirty_tiles,
            final(self).bytes() == old(self).bytes(),
    {
        let actual_idx = VRamData::address_to_idx(address) - TILES_START;
        let tile_idx = actual_idx / 16;
        let idx = actual_idx % 16;
        let row_to_replace = idx / 2;
        let pair_idx = actual_idx - (actual_idx % 2);
        let lsb = self.data.byte_at(pair_idx);
        let msb = self.data.byte_at(pair_idx + 1);
        let pair = [lsb, msb];
        let colors = byte_pair_to_idxs(pair.as_slice());
        assert(pair_idx == 16 * tile_idx + 2 * row_to_replace);
        write_row(&mut self.tiles[tile_idx].color_indexes, row_to_replace, colors);
        proof {
            let t = tile_idx as int;
            assert(self.tiles@[t].color_indexes@ =~= tile_colors(self.bytes(), t));
        }
        self.dirty_tiles = true;
    }
}

/// The two bytes at `start..start + 2` of `bytes`.
fn slice_pair(bytes: &[u8], start: usize) -> (r: Vec<u8>)
    requires
        start + 2 <= bytes@.len(),
    ensures
        r@ == bytes@.subrange(start as int, start + 2),
{
    let mut out: Vec<u8> = Vec::new();
    out.push(bytes[start]);
    out.push(bytes[start + 1]);
    assert(out@ =~= bytes@.subrange(start as int, start + 2));
    out
}

impl ReadMemory for VRam {
    open spec fn can_read(&self, address: u16) -> bool {
        self.wf() && 0x8000 <= address <= 0x9FFF
    }

    open spec fn read_spec(&self, address: u16) -> u8 {
        self.bytes()[address - 0x8000]
    }

    fn read_memory(&self, address: u16) -> (r: u8) {
        self.data.read_memory(address)
    }
}

impl WriteMemory for VRam {
    open spec fn can_write(&self, address: u16) -> bool {
        self.wf() && 0x8000 <= address <= 0x9FFF
    }

    /// The byte lands in video RAM, the tiles follow, and a tile byte marks the tiles dirty.
    open spec fn written(&self, after: Self, address: u16, value: u8) -> bool {
        &&& after.wf()
        &&& after.bytes() == self.bytes().update(address - 0x8000, value)
        &&& after.dirty_tiles == (self.dirty_tiles || address - 0x8000 < TILES_END)
    }

    fn write_memory(&mut self, address: u16, value: u8) {
        let ghost before = self.bytes();
        self.data.write_memory(address, value);
        if VRamData::address_to_idx(address) - TILES_START < TILES_END {
            proof {
                let a = address - 0x8000;
                let after = self.bytes();
                assert(after == before.update(a, value));
                assert forall|t: int|
                    0 <= t < TILE_COUNT && t != a / 16 implies (
                    #[trigger] self.tiles@[t]).color_indexes@ == tile_colors(after, t) by {
                    assert(tile_colors(after, t) =~= tile_colors(before, t));
                }
                assert forall|k: int|
                    0 <= k < 64 && k / 8 != (a % 16) / 2 implies #[trigger] self.tiles@[a
                    / 16].color_indexes@[k] == tile_colors(after, a / 16)[k] by {
                    assert(tile_colors(after, a / 16)[k] == tile_colors(before, a / 16)[k]);
                }
            }
            self.sync_tile(address);
        } else {
            proof {
                let a = address - 0x8000;
                let after = self.bytes();
                assert forall|t: int| 0 <= t < TILE_COUNT implies (
                #[trigger] self.tiles@[t]).color_indexes@ == tile_colors(after, t) by {
                    assert(tile_colors(after, t) =~= tile_colors(before, t));
                }
            }
        }
    }
}

/// In well-formed video RAM every tile is the decoding of its 16 bytes.
pub proof fn lemma_tiles_decoded(v: VRam, t: int)
    requires
        v.wf(),
        0 <= t < TILE_COUNT,
    ensures
        v.tiles@.len() == TILE_COUNT,
        v.tiles@[t].color_indexes@ == tile_colors(v.bytes(), t),
{
}

/// Every decoded pixel is a 2-bit color index.
pub proof fn lemma_pixel_below_4(lsb: u8, msb: u8, i: int)
    requires
        0 <= i < 8,
    ensures
        pixel(lsb, msb, i) < 4,
{
    lemma_pixel_bits(lsb, msb, i);
}

/// Pixel `i` of a tile row (0 is leftmost) takes its low bit from the byte `lsb` and its
/// high bit from the byte `msb`, each at the bit that the mask `0x80 >> i` selects, and
/// nothing else.
pub proof fn lemma_pixel_bits(lsb: u8, msb: u8, i: int)
    requires
        0 <= i < 8,
    ensures
        pixel(lsb, msb, i) < 4,
        (pixel(lsb, msb, i) & 1 == 1) == (lsb & (0x80u8 >> (i as u8)) != 0),
        (pixel(lsb, msb, i) & 2 == 2) == (msb & (0x80u8 >> (i as u8)) != 0),
{
    let shift = (7 - i) as u8;
    let k = i as u8;
    let p = pixel(lsb, msb, i);
    assert(p < 4 && (p & 1 == 1) == (lsb & (0x80u8 >> k) != 0) && (p & 2 == 2) == (msb & (0x80u8
        >> k) != 0)) by (bit_vector)
        requires
            k < 8,
            shift == 7 - k,
            p == (((msb >> shift) & 1) << 1u8) | ((lsb >> shift) & 1),
    ;
}

} // verus!
