//! The pixel pipeline's state: tile matrices and the screen buffer.
//!
//! The scheduler owns one of these and calls `push_line` once per scanline;
//! the build methods redraw the background, window and sprite matrices from
//! tile data between frames.  The composited screen buffer is what the
//! external presentation layer reads.

use vstd::prelude::*;

use crate::hardware::{wadd8, wsub8};
use crate::memory::Memory;

verus! {

/// Matrix selector: the background layer.
pub const BG: u8 = 1;

/// Matrix selector: the window layer.
pub const WINDOW: u8 = 2;

/// Matrix selector: the sprite layer.
pub const SPRITE: u8 = 3;

/// The screen buffer (160 columns of 144 pixels), the three 256 x 256 tile
/// matrices, and the current scanline.
pub struct Gpu {
    pub screen: Vec<Vec<u8>>,
    pub bg_matrix: Vec<Vec<u8>>,
    pub window_matrix: Vec<Vec<u8>>,
    pub sprite_matrix: Vec<Vec<u8>>,
    pub line: u8,
}

/// Whether `m` is a `cols` x `rows` byte matrix.
pub open spec fn matrix_wf(m: Vec<Vec<u8>>, cols: int, rows: int) -> bool {
    &&& m@.len() == cols
    &&& forall|i: int| 0 <= i < cols ==> (#[trigger] m@[i])@.len() == rows
}

/// Builds a zeroed `cols` x `rows` byte matrix.
fn zero_matrix(cols: usize, rows: usize) -> (r: Vec<Vec<u8>>)
    ensures
        matrix_wf(r, cols as int, rows as int),
{
    let mut m: Vec<Vec<u8>> = Vec::new();
    while m.len() < cols
        invariant
            m@.len() <= cols,
            forall|i: int| 0 <= i < m@.len() ==> (#[trigger] m@[i])@.len() == rows,
        decreases cols - m@.len(),
    {
        let mut row: Vec<u8> = Vec::new();
        while row.len() < rows
            invariant
                row@.len() <= rows,
            decreases rows - row@.len(),
        {
            row.push(0);
        }
        m.push(row);
    }
    m
}

/// A cell lies in the 8 x 8 block at (8j, 8i) exactly when its block
/// coordinates are (j, i), and its wrapped offsets inside the block are then
/// its remainders.
proof fn lemma_tile_cell(c: int, r: int, i: u16, j: u16)
    requires
        0 <= c < 256,
        0 <= r < 256,
        i < 32,
        j < 32,
    ensures
        (wsub8(c as u8, (j * 8) as u8) < 8 && wsub8(r as u8, (i * 8) as u8) < 8) == (c / 8 == j
            && r / 8 == i),
        c / 8 == j ==> wsub8(c as u8, (j * 8) as u8) == c % 8,
        r / 8 == i ==> wsub8(r as u8, (i * 8) as u8) == r % 8,
{
}

/// Appending one more sprite to a chain of `count` drawn ones.
proof fn lemma_sprites_snoc(
    mem: Memory,
    count: nat,
    pre: Vec<Vec<u8>>,
    mid: Vec<Vec<u8>>,
    post: Vec<Vec<u8>>,
)
    requires
        Gpu::sprites_drawn(mem, count, pre, mid),
        Gpu::sprite_step(mem, count, mid, post),
    ensures
        Gpu::sprites_drawn(mem, (count + 1) as nat, pre, post),
{
    assert(Gpu::sprites_drawn(mem, ((count + 1) as nat - 1) as nat, pre, mid));
}

impl Gpu {
    /// A well-formed pipeline: the screen is 160 x 144, the matrices are
    /// 256 x 256, and the scanline stays on the screen.
    pub open spec fn wf(self) -> bool {
        &&& matrix_wf(self.screen, 160, 144)
        &&& matrix_wf(self.bg_matrix, 256, 256)
        &&& matrix_wf(self.window_matrix, 256, 256)
        &&& matrix_wf(self.sprite_matrix, 256, 256)
        &&& self.line < 144
    }

    /// A fresh pipeline with everything blank and the scanline at the top.
    pub fn new() -> (r: Gpu)
        ensures
            r.wf(),
            r.line == 0,
    {
        Gpu {
            screen: zero_matrix(160, 144),
            bg_matrix: zero_matrix(256, 256),
            window_matrix: zero_matrix(256, 256),
            sprite_matrix: zero_matrix(256, 256),
            line: 0,
        }
    }

    /// Which of the two tile-data addressing methods the control register
    /// selects.
    pub open spec fn spec_tile_method(mem: Memory) -> u16 {
        if mem.spec_read(0xFF40) & 0b0001_0000 > 0 {
            0x8000u16
        } else {
            0x8800u16
        }
    }

    /// Where the background tile map starts.
    pub open spec fn spec_bg_map_base(mem: Memory) -> u16 {
        if mem.spec_read(0xFF40) & 0b0000_1000 > 0 {
            0x9C00u16
        } else {
            0x9800u16
        }
    }

    /// Where the window tile map starts.
    pub open spec fn spec_window_map_base(mem: Memory) -> u16 {
        if mem.spec_read(0xFF40) & 0b0100_0000 > 0 {
            0x9C00u16
        } else {
            0x9800u16
        }
    }

    /// The address of tile `index` under the given addressing method: a
    /// plain offset from 0x8000, or the split signed scheme around 0x9000.
    pub open spec fn spec_tile_location(method: u16, index: u8) -> u16 {
        if method == 0x8000 {
            (0x8000 + index * 16) as u16
        } else if index > 127 {
            (0x8800 + (index - 128) * 16) as u16
        } else {
            (0x9000 + index * 16) as u16
        }
    }

    /// Which of the two tile-data addressing methods the control register
    /// selects.
    fn get_tile_method(&self, mem: &Memory) -> (r: u16)
        requires
            mem.wf(),
        ensures
            r == Gpu::spec_tile_method(*mem),
    {
        if mem.read(0xFF40) & 0b0001_0000 > 0 {
            0x8000
        } else {
            0x8800
        }
    }

    /// Where the background tile map starts.
    fn get_bg_map_index(&self, mem: &Memory) -> (r: u16)
        requires
            mem.wf(),
        ensures
            r == Gpu::spec_bg_map_base(*mem),
    {
        if mem.read(0xFF40) & 0b0000_1000 > 0 {
            0x9C00
        } else {
            0x9800
        }
    }

    /// Where the window tile map starts.
    fn get_window_map_index(&self, mem: &Memory) -> (r: u16)
        requires
            mem.wf(),
        ensures
            r == Gpu::spec_window_map_base(*mem),
    {
        if mem.read(0xFF40) & 0b0100_0000 > 0 {
            0x9C00
        } else {
            0x9800
        }
    }

    /// The address of tile `index` under the given addressing method: a
    /// plain offset from 0x8000, or the split signed scheme around 0x9000.
    fn get_tile(&self, method: u16, index: u8, _mem: &Memory) -> (r: u16)
        ensures
            0x8000 <= r <= 0x9FF0,
            r == Gpu::spec_tile_location(method, index),
    {
        if method == 0x8000 {
            0x8000 + (index as u16) * 16
        } else {
            if index > 127 {
                let shifted = index - 128;
                0x8800 + (shifted as u16) * 16
            } else {
                0x9000 + (index as u16) * 16
            }
        }
    }

    /// The shade of the pixel at row `i`, column `j` of the 8 x 8 tile at
    /// `location`: bit `7 - j` of the low plane (byte `2 * i`) in bit 0 and
    /// the same bit of the high plane (the following byte) in bit 1.
    pub open spec fn tile_pixel(mem: Memory, location: u16, i: u8, j: u8) -> u8 {
        let low = mem.spec_read((location + 2 * i) as u16);
        let high = mem.spec_read((location + 2 * i + 1) as u16);
        if j < 7 {
            ((low & (0x80u8 >> j)) >> (7 - j)) | ((high & (0x80u8 >> j)) >> (6 - j))
        } else {
            (low & 1) | ((high & 1) << 1)
        }
    }

    /// How drawing the tile at `location` with its top-left corner at
    /// (x, y) relates a 256 x 256 matrix before and after: the 8 x 8 block
    /// (wrapping around the edges) takes the tile's pixels and every other
    /// cell keeps its old value.
    pub open spec fn tile_drawn(
        pre: Vec<Vec<u8>>,
        x: u8,
        y: u8,
        location: u16,
        mem: Memory,
        post: Vec<Vec<u8>>,
    ) -> bool {
        forall|c: int, r: int|
            0 <= c < 256 && 0 <= r < 256 ==> (#[trigger] post@[c]@[r]) == ({
                let j = wsub8(c as u8, x);
                let i = wsub8(r as u8, y);
                if j < 8 && i < 8 {
                    Gpu::tile_pixel(mem, location, i, j)
                } else {
                    pre@[c]@[r]
                }
            })
    }

    /// Draws the 8 x 8 tile at `location` into `mat` with its top-left
    /// corner at (x, y), wrapping around the matrix edges; the pixel
    /// encoding follows the two-plane tile format.
    fn display_tile_into(
        mat: &mut Vec<Vec<u8>>,
        x: u8,
        y: u8,
        location: u16,
        mem: &Memory,
    )
        requires
            old(mat)@.len() == 256,
            forall|i: int| 0 <= i < 256 ==> (#[trigger] old(mat)@[i])@.len() == 256,
            mem.wf(),
            location <= 0x9FF0,
        ensures
            matrix_wf(*final(mat), 256, 256),
            Gpu::tile_drawn(*old(mat), x, y, location, *mem, *final(mat)),
    {
        let mut i: u8 = 0;
        while i < 8
            invariant
                mat@.len() == 256,
                forall|k: int| 0 <= k < 256 ==> (#[trigger] mat@[k])@.len() == 256,
                mem.wf(),
                location <= 0x9FF0,
                i <= 8,
                forall|c: int, r: int|
                    0 <= c < 256 && 0 <= r < 256 ==> (#[trigger] mat@[c]@[r]) == ({
                        let jj = wsub8(c as u8, x);
                        let ii = wsub8(r as u8, y);
                        if jj < 8 && ii < i {
                            Gpu::tile_pixel(*mem, location, ii, jj)
                        } else {
                            old(mat)@[c]@[r]
                        }
                    }),
            decreases 8 - i,
        {
            let low_plane = mem.read(location + 2 * (i as u16));
            let high_plane = mem.read(location + 2 * (i as u16) + 1);
            let mut value: u8 = 0b1000_0000;
            let mut j: u8 = 0;
            proof {
                assert(0x80u8 >> 0u8 == 0x80u8) by (bit_vector);
            }
            while j < 7
                invariant
                    mat@.len() == 256,
                    forall|k: int| 0 <= k < 256 ==> (#[trigger] mat@[k])@.len() == 256,
                    mem.wf(),
                    location <= 0x9FF0,
                    i < 8,
                    j <= 7,
                    value == 0x80u8 >> j,
                    low_plane == mem.spec_read((location + 2 * i) as u16),
                    high_plane == mem.spec_read((location + 2 * i + 1) as u16),
                    forall|c: int, r: int|
                        0 <= c < 256 && 0 <= r < 256 ==> (#[trigger] mat@[c]@[r]) == ({
                            let jj = wsub8(c as u8, x);
                            let ii = wsub8(r as u8, y);
                            if jj < 8 && ii < i {
                                Gpu::tile_pixel(*mem, location, ii, jj)
                            } else if ii == i && jj < j {
                                Gpu::tile_pixel(*mem, location, ii, jj)
                            } else {
                                old(mat)@[c]@[r]
                            }
                        }),
                decreases 7 - j,
            {
                let xi = x.wrapping_add(j) as usize;
                let yi = y.wrapping_add(i) as usize;
                mat[xi][yi] = ((low_plane & value) >> (7 - j)) | ((high_plane & value) >> (6 - j));
                proof {
                    assert(wsub8(wadd8(x, j), x) == j && wsub8(wadd8(y, i), y) == i);
                    assert((0x80u8 >> j) >> 1 == 0x80u8 >> (j + 1) as u8) by (bit_vector)
                        requires
                            j < 7u8,
                    ;
                }
                value = value >> 1;
                j = j + 1;
            }
            let xi = x.wrapping_add(7) as usize;
            let yi = y.wrapping_add(i) as usize;
            mat[xi][yi] = (low_plane & value) | ((high_plane & value) << 1);
            proof {
                assert(0x80u8 >> 7u8 == 1u8 && 0x80u8 >> 6u8 == 2u8) by (bit_vector);
                assert(wsub8(wadd8(x, 7), x) == 7 && wsub8(wadd8(y, i), y) == i);
            }
            i = i + 1;
        }
    }

    /// Draws one tile into the layer `dest` selects.
    fn display_tile(&mut self, dest: u8, x: u8, y: u8, location: u16, mem: &Memory)
        requires
            old(self).wf(),
            mem.wf(),
            location <= 0x9FF0,
        ensures
            final(self).wf(),
            final(self).screen == old(self).screen,
            final(self).line == old(self).line,
            dest == WINDOW ==> final(self).bg_matrix == old(self).bg_matrix && final(self).sprite_matrix == old(self).sprite_matrix && Gpu::tile_drawn(old(self).window_matrix, x, y, location, *mem, final(self).window_matrix),
            dest == SPRITE ==> final(self).bg_matrix == old(self).bg_matrix && final(self).window_matrix == old(self).window_matrix && Gpu::tile_drawn(old(self).sprite_matrix, x, y, location, *mem, final(self).sprite_matrix),
            dest != WINDOW && dest != SPRITE ==> final(self).window_matrix == old(
                self,
            ).window_matrix && final(self).sprite_matrix == old(self).sprite_matrix && Gpu::tile_drawn(old(self).bg_matrix, x, y, location, *mem, final(self).bg_matrix),
    {
        if dest == WINDOW {
            Gpu::display_tile_into(&mut self.window_matrix, x, y, location, mem);
        } else if dest == SPRITE {
            Gpu::display_tile_into(&mut self.sprite_matrix, x, y, location, mem);
        } else {
            Gpu::display_tile_into(&mut self.bg_matrix, x, y, location, mem);
        }
    }

    /// The pixel a map builder leaves at column `c`, row `r` of its matrix:
    /// the map entry at `base` for the 8 x 8 block holding the cell names a
    /// tile, whose pixel at the cell's offsets inside the block is drawn.
    pub open spec fn map_pixel(mem: Memory, base: u16, c: int, r: int) -> u8 {
        let index = mem.spec_read((base + (r / 8) * 32 + (c / 8)) as u16);
        Gpu::tile_pixel(
            mem,
            Gpu::spec_tile_location(Gpu::spec_tile_method(mem), index),
            (r % 8) as u8,
            (c % 8) as u8,
        )
    }

    /// Redraws the background matrix from the background tile map.
    pub fn build_bg(&mut self, mem: &Memory)
        requires
            old(self).wf(),
            mem.wf(),
        ensures
            final(self).wf(),
            final(self).screen == old(self).screen,
            final(self).window_matrix == old(self).window_matrix,
            final(self).sprite_matrix == old(self).sprite_matrix,
            final(self).line == old(self).line,
            forall|c: int, r: int|
                0 <= c < 256 && 0 <= r < 256 ==> (#[trigger] final(self).bg_matrix@[c]@[r])
                    == Gpu::map_pixel(*mem, Gpu::spec_bg_map_base(*mem), c, r),
    {
        let mut n: u16 = 0;

        let index = self.get_bg_map_index(mem);
        let method: u16 = self.get_tile_method(mem);

        let mut i: u16 = 0;
        while i < 32
            invariant
                self.wf(),
                self.screen == old(self).screen,
                self.window_matrix == old(self).window_matrix,
                self.sprite_matrix == old(self).sprite_matrix,
                self.line == old(self).line,
                mem.wf(),
                index == Gpu::spec_bg_map_base(*mem),
                method == Gpu::spec_tile_method(*mem),
                i <= 32,
                n == i * 32,
                forall|c: int, r: int|
                    0 <= c < 256 && 0 <= r < 256 ==> (#[trigger] self.bg_matrix@[c]@[r]) == (if r / 8
                        < i {
                        Gpu::map_pixel(*mem, Gpu::spec_bg_map_base(*mem), c, r)
                    } else {
                        old(self).bg_matrix@[c]@[r]
                    }),
            decreases 32 - i,
        {
            let mut j: u16 = 0;
            while j < 32
                invariant
                    self.wf(),
                    self.screen == old(self).screen,
                    self.window_matrix == old(self).window_matrix,
                    self.sprite_matrix == old(self).sprite_matrix,
                    self.line == old(self).line,
                    mem.wf(),
                    index == Gpu::spec_bg_map_base(*mem),
                    method == Gpu::spec_tile_method(*mem),
                    i < 32,
                    j <= 32,
                    n == i * 32 + j,
                    forall|c: int, r: int|
                        0 <= c < 256 && 0 <= r < 256 ==> (#[trigger] self.bg_matrix@[c]@[r]) == (if r
                            / 8 < i || (r / 8 == i && c / 8 < j) {
                            Gpu::map_pixel(*mem, Gpu::spec_bg_map_base(*mem), c, r)
                        } else {
                            old(self).bg_matrix@[c]@[r]
                        }),
                decreases 32 - j,
            {
                let ghost pre_mat = self.bg_matrix;
                let tile_index = mem.read(index + n);
                let location = self.get_tile(method, tile_index, mem);
                self.display_tile(BG, (j * 8) as u8, (i * 8) as u8, location, mem);
                proof {
                    assert forall|c: int, r: int| 0 <= c < 256 && 0 <= r < 256 implies (
                    #[trigger] self.bg_matrix@[c]@[r]) == (if r / 8 < i || (r / 8 == i && c / 8 < j
                        + 1) {
                        Gpu::map_pixel(*mem, Gpu::spec_bg_map_base(*mem), c, r)
                    } else {
                        old(self).bg_matrix@[c]@[r]
                    }) by {
                        lemma_tile_cell(c, r, i, j);
                        assert(pre_mat@[c]@[r] == (if r / 8 < i || (r / 8 == i && c / 8 < j) {
                            Gpu::map_pixel(*mem, Gpu::spec_bg_map_base(*mem), c, r)
                        } else {
                            old(self).bg_matrix@[c]@[r]
                        }));
                    }
                }
                n = n + 1;
                j = j + 1;
            }
            i = i + 1;
        }
    }

    /// Redraws the window matrix from the window tile map.
    pub fn build_window(&mut self, mem: &Memory)
        requires
            old(self).wf(),
            mem.wf(),
        ensures
            final(self).wf(),
            final(self).screen == old(self).screen,
            final(self).bg_matrix == old(self).bg_matrix,
            final(self).sprite_matrix == old(self).sprite_matrix,
            final(self).line == old(self).line,
            forall|c: int, r: int|
                0 <= c < 256 && 0 <= r < 256 ==> (#[trigger] final(self).window_matrix@[c]@[r])
                    == Gpu::map_pixel(*mem, Gpu::spec_window_map_base(*mem), c, r),
    {
        let mut n: u16 = 0;

        let index = self.get_window_map_index(mem);
        let method: u16 = self.get_tile_method(mem);

        let mut i: u16 = 0;
        while i < 32
            invariant
                self.wf(),
                self.screen == old(self).screen,
                self.bg_matrix == old(self).bg_matrix,
                self.sprite_matrix == old(self).sprite_matrix,
                self.line == old(self).line,
                mem.wf(),
                index == Gpu::spec_window_map_base(*mem),
                method == Gpu::spec_tile_method(*mem),
                i <= 32,
                n == i * 32,
                forall|c: int, r: int|
                    0 <= c < 256 && 0 <= r < 256 ==> (#[trigger] self.window_matrix@[c]@[r]) == (if r / 8
                        < i {
                        Gpu::map_pixel(*mem, Gpu::spec_window_map_base(*mem), c, r)
                    } else {
                        old(self).window_matrix@[c]@[r]
                    }),
            decreases 32 - i,
        {
            let mut j: u16 = 0;
            while j < 32
                invariant
                    self.wf(),
                    self.screen == old(self).screen,
                    self.bg_matrix == old(self).bg_matrix,
                    self.sprite_matrix == old(self).sprite_matrix,
                    self.line == old(self).line,
                    mem.wf(),
                    index == Gpu::spec_window_map_base(*mem),
                    method == Gpu::spec_tile_method(*mem),
                    i < 32,
                    j <= 32,
                    n == i * 32 + j,
                    forall|c: int, r: int|
                        0 <= c < 256 && 0 <= r < 256 ==> (#[trigger] self.window_matrix@[c]@[r]) == (if r
                            / 8 < i || (r / 8 == i && c / 8 < j) {
                            Gpu::map_pixel(*mem, Gpu::spec_window_map_base(*mem), c, r)
                        } else {
                            old(self).window_matrix@[c]@[r]
                        }),
                decreases 32 - j,
            {
                let ghost pre_mat = self.window_matrix;
                let tile_index = mem.read(index + n);
                let location = self.get_tile(method, tile_index, mem);
                self.display_tile(WINDOW, (j * 8) as u8, (i * 8) as u8, location, mem);
                proof {
                    assert forall|c: int, r: int| 0 <= c < 256 && 0 <= r < 256 implies (
                    #[trigger] self.window_matrix@[c]@[r]) == (if r / 8 < i || (r / 8 == i && c / 8 < j
                        + 1) {
                        Gpu::map_pixel(*mem, Gpu::spec_window_map_base(*mem), c, r)
                    } else {
                        old(self).window_matrix@[c]@[r]
                    }) by {
                        lemma_tile_cell(c, r, i, j);
                        assert(pre_mat@[c]@[r] == (if r / 8 < i || (r / 8 == i && c / 8 < j) {
                            Gpu::map_pixel(*mem, Gpu::spec_window_map_base(*mem), c, r)
                        } else {
                            old(self).window_matrix@[c]@[r]
                        }));
                    }
                }
                n = n + 1;
                j = j + 1;
            }
            i = i + 1;
        }
    }

    /// Drawing the `k`-th sprite of the attribute table: its screen
    /// coordinates come from the first two attribute bytes (less the fixed
    /// display offsets), its tile from the third, always under the plain
    /// addressing method.
    pub open spec fn sprite_step(mem: Memory, k: nat, pre: Vec<Vec<u8>>, post: Vec<Vec<u8>>) -> bool {
        let attr = (0xFE00 + 4 * k) as u16;
        Gpu::tile_drawn(
            pre,
            wsub8(mem.spec_read((attr + 1) as u16), 8),
            wsub8(mem.spec_read(attr), 16),
            Gpu::spec_tile_location(0x8000, mem.spec_read((attr + 2) as u16)),
            mem,
            post,
        )
    }

    /// The first `count` sprites of the attribute table drawn in order,
    /// later ones over earlier ones.
    pub open spec fn sprites_drawn(
        mem: Memory,
        count: nat,
        pre: Vec<Vec<u8>>,
        post: Vec<Vec<u8>>,
    ) -> bool
        decreases count,
    {
        if count == 0 {
            post == pre
        } else {
            exists|idx: nat, mid: Vec<Vec<u8>>|
                {
                    &&& idx == count - 1
                    &&& Gpu::sprites_drawn(mem, idx, pre, mid)
                    &&& #[trigger] Gpu::sprite_step(mem, idx, mid, post)
                }
        }
    }

    /// Clears the sprite matrix and redraws every sprite from the sprite
    /// attribute table.
    pub fn build_sprite(&mut self, mem: &Memory)
        requires
            old(self).wf(),
            mem.wf(),
        ensures
            final(self).wf(),
            final(self).screen == old(self).screen,
            final(self).bg_matrix == old(self).bg_matrix,
            final(self).window_matrix == old(self).window_matrix,
            final(self).line == old(self).line,
            exists|cleared: Vec<Vec<u8>>|
                {
                    &&& matrix_wf(cleared, 256, 256)
                    &&& forall|c: int, r: int|
                        0 <= c < 256 && 0 <= r < 256 ==> (#[trigger] cleared@[c]@[r]) == (if c
                            < 255 && r < 255 {
                            0u8
                        } else {
                            old(self).sprite_matrix@[c]@[r]
                        })
                    &&& #[trigger] Gpu::sprites_drawn(*mem, 40, cleared, final(self).sprite_matrix)
                },
    {
        let mut i: usize = 0;
        while i < 255
            invariant
                self.wf(),
                self.screen == old(self).screen,
                self.bg_matrix == old(self).bg_matrix,
                self.window_matrix == old(self).window_matrix,
                self.line == old(self).line,
                i <= 255,
                forall|c: int, r: int|
                    0 <= c < 256 && 0 <= r < 256 ==> (#[trigger] self.sprite_matrix@[c]@[r]) == (
                    if c < i && r < 255 {
                        0u8
                    } else {
                        old(self).sprite_matrix@[c]@[r]
                    }),
            decreases 255 - i,
        {
            let mut j: usize = 0;
            while j < 255
                invariant
                    self.wf(),
                    self.screen == old(self).screen,
                    self.bg_matrix == old(self).bg_matrix,
                    self.window_matrix == old(self).window_matrix,
                    self.line == old(self).line,
                    i < 255,
                    j <= 255,
                    forall|c: int, r: int|
                        0 <= c < 256 && 0 <= r < 256 ==> (#[trigger] self.sprite_matrix@[c]@[r])
                            == (if (c < i && r < 255) || (c == i && r < j) {
                            0u8
                        } else {
                            old(self).sprite_matrix@[c]@[r]
                        }),
                decreases 255 - j,
            {
                self.sprite_matrix[i][j] = 0;
                j = j + 1;
            }
            i = i + 1;
        }
        let ghost cleared = self.sprite_matrix;

        let method: u16 = 0x8000;
        let mut k: u16 = 0;
        while k < 40
            invariant
                self.wf(),
                self.screen == old(self).screen,
                self.bg_matrix == old(self).bg_matrix,
                self.window_matrix == old(self).window_matrix,
                self.line == old(self).line,
                mem.wf(),
                method == 0x8000,
                k <= 40,
                Gpu::sprites_drawn(*mem, k as nat, cleared, self.sprite_matrix),
            decreases 40 - k,
        {
            let ghost pre_mat = self.sprite_matrix;
            let sprite_index: u16 = 0xFE00 + (4 * k);
            let x = mem.read(sprite_index + 1).wrapping_sub(8);
            let y = mem.read(sprite_index).wrapping_sub(16);
            let index = mem.read(sprite_index + 2);
            let location = self.get_tile(method, index, mem);
            self.display_tile(SPRITE, x, y, location, mem);
            proof {
                assert(Gpu::sprite_step(*mem, k as nat, pre_mat, self.sprite_matrix));
                lemma_sprites_snoc(*mem, k as nat, cleared, pre_mat, self.sprite_matrix);
            }
            k = k + 1;
        }
        proof {
            assert(Gpu::sprites_drawn(*mem, 40, cleared, self.sprite_matrix));
        }
    }

    /// The pixel `push_line` composites at column `i` of the current
    /// scanline: with the display enabled, the scrolled background overlaid
    /// by any non-zero sprite pixel; a blank pixel otherwise.
    pub open spec fn line_pixel(self, mem: Memory, i: int) -> u8 {
        if mem.spec_read(0xFF40) & 0b1000_0000 > 0 {
            let scroll_x = mem.spec_read(0xFF43);
            let scroll_y = mem.spec_read(0xFF42);
            let sprite = self.sprite_matrix@[i]@[self.line as int];
            if sprite != 0 {
                sprite
            } else {
                self.bg_matrix@[wadd8(scroll_x, i as u8) as int]@[wadd8(scroll_y, self.line) as int]
            }
        } else {
            0
        }
    }

    /// Composites one scanline into the screen buffer and advances the
    /// scanline counter, wrapping from the last visible line back to zero.
    pub fn push_line(&mut self, mem: &Memory)
        requires
            old(self).wf(),
            mem.wf(),
        ensures
            final(self).wf(),
            final(self).bg_matrix == old(self).bg_matrix,
            final(self).window_matrix == old(self).window_matrix,
            final(self).sprite_matrix == old(self).sprite_matrix,
            final(self).line == if old(self).line == 143 {
                0u8
            } else {
                (old(self).line + 1) as u8
            },
            forall|i: int|
                0 <= i < 160 ==> (#[trigger] final(self).screen@[i])@ == old(
                    self,
                ).screen@[i]@.update(old(self).line as int, old(self).line_pixel(*mem, i)),
    {
        let scroll_x: u8 = mem.read(0xFF43);
        let scroll_y: u8 = mem.read(0xFF42);
        let display_on = mem.read(0xFF40) & 0b1000_0000 > 0;
        let line = self.line;

        let mut i: usize = 0;
        while i < 160
            invariant
                matrix_wf(self.screen, 160, 144),
                self.bg_matrix == old(self).bg_matrix,
                self.window_matrix == old(self).window_matrix,
                self.sprite_matrix == old(self).sprite_matrix,
                self.line == old(self).line,
                *self == (Gpu { screen: self.screen, ..*old(self) }),
                old(self).wf(),
                mem.wf(),
                line == old(self).line,
                scroll_x == mem.spec_read(0xFF43),
                scroll_y == mem.spec_read(0xFF42),
                display_on == (mem.spec_read(0xFF40) & 0b1000_0000 > 0),
                i <= 160,
                forall|k: int|
                    0 <= k < i ==> (#[trigger] self.screen@[k])@ == old(
                        self,
                    ).screen@[k]@.update(old(self).line as int, old(self).line_pixel(*mem, k)),
                forall|k: int| i <= k < 160 ==> (#[trigger] self.screen@[k])@ == old(self).screen@[k]@,
            decreases 160 - i,
        {
            if display_on {
                let sprite = self.sprite_matrix[i][line as usize];
                if sprite != 0 {
                    self.screen[i][line as usize] = sprite;
                } else {
                    let bx = scroll_x.wrapping_add(i as u8) as usize;
                    let by = scroll_y.wrapping_add(line) as usize;
                    let bg = self.bg_matrix[bx][by];
                    self.screen[i][line as usize] = bg;
                }
            } else {
                self.screen[i][line as usize] = 0;
            }
            i = i + 1;
        }

        self.line = self.line + 1;
        if self.line == 144 {
            self.line = 0;
        }
    }
}

} // verus!
