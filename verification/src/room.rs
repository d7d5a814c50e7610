//! The world: a rectangular tile grid plus a texture atlas.
//!
//! Tile id `0` is reserved as "empty/walkable"; ids `1..=TILE_COUNT`
//! are wall textures laid out side by side in the atlas as square
//! tiles of side `TILE_SIZE`.

use vstd::prelude::*;

use crate::color::Color;
use crate::vec2::{FP_ONE, Vec2};

verus! {

/// Texture tile edge length, in atlas pixels.
pub const TILE_SIZE: u32 = 64;

/// Number of distinct wall textures in the atlas.
pub const TILE_COUNT: u8 = 8;

/// The tile grid (row-major, `width * height` tile ids) and the
/// texture atlas (row-major RGB bytes, `atlas_width` pixels wide and
/// `TILE_SIZE` pixels tall). The atlas is empty until loaded.
pub struct Room {
    pub width: u32,
    pub height: u32,
    pub map: Vec<u8>,
    pub atlas: Vec<u8>,
    pub atlas_width: u32,
}

impl Room {
    /// The grid is dense and every tile id it holds is `0` (walkable)
    /// or a valid texture id in `1..=TILE_COUNT`.
    pub open spec fn wf(&self) -> bool {
        &&& self.map@.len() == self.width * self.height
        &&& self.width * self.height <= u32::MAX
        &&& forall|i: int| 0 <= i < self.map@.len() ==> self.map@[i] <= TILE_COUNT
    }

    /// A texture atlas is loaded: `TILE_COUNT` square tiles side by
    /// side, three bytes per pixel.
    pub open spec fn has_atlas(&self) -> bool {
        &&& self.atlas_width == TILE_SIZE * TILE_COUNT as u32
        &&& self.atlas@.len() == self.atlas_width * TILE_SIZE * 3
    }

    /// The tile id stored at grid cell `(x, y)`.
    pub open spec fn spec_tile(&self, x: int, y: int) -> u8 {
        self.map@[y * self.width + x]
    }

    /// Replaces the tile grid. The grid must be dense (`width * height`
    /// ids) and reference only valid tile ids.
    pub fn set_map(&mut self, width: u32, height: u32, map: &[u8])
        requires
            map@.len() == width * height,
            width * height <= u32::MAX,
            forall|i: int| 0 <= i < map@.len() ==> map@[i] <= TILE_COUNT,
        ensures
            final(self).width == width,
            final(self).height == height,
            final(self).map@ == map@,
            final(self).atlas@ == old(self).atlas@,
            final(self).atlas_width == old(self).atlas_width,
            final(self).wf(),
    {
        self.width = width;
        self.height = height;
        self.map = vstd::slice::slice_to_vec(map);
    }

    /// Loads the texture atlas: `atlas_width` must be exactly
    /// `TILE_COUNT` tiles of `TILE_SIZE` pixels, `data` one RGB triple
    /// per pixel.
    pub fn set_atlas(&mut self, atlas_width: u32, data: &[u8])
        requires
            atlas_width == TILE_SIZE * TILE_COUNT as u32,
            data@.len() == atlas_width * TILE_SIZE * 3,
        ensures
            final(self).width == old(self).width,
            final(self).height == old(self).height,
            final(self).map@ == old(self).map@,
            final(self).atlas_width == atlas_width,
            final(self).atlas@ == data@,
            final(self).has_atlas(),
    {
        self.atlas_width = atlas_width;
        self.atlas = vstd::slice::slice_to_vec(data);
    }

    /// Grid width, in tiles.
    pub fn width(&self) -> (w: u32)
        ensures
            w == self.width,
    {
        self.width
    }

    /// Grid height, in tiles.
    pub fn height(&self) -> (h: u32)
        ensures
            h == self.height,
    {
        self.height
    }

    /// The tile under a continuous position: both coordinates floored
    /// to tile indices. The position must lie inside the grid.
    pub fn get_tile(&self, position: &Vec2) -> (t: u8)
        requires
            self.wf(),
            0 <= position.x < self.width * FP_ONE,
            0 <= position.y < self.height * FP_ONE,
        ensures
            t == self.spec_tile(position.x as int / FP_ONE as int, position.y as int / FP_ONE as int),
    {
        proof {
            vstd::arithmetic::div_mod::lemma_multiply_divide_lt(
                position.x as int,
                FP_ONE as int,
                self.width as int,
            );
            vstd::arithmetic::div_mod::lemma_multiply_divide_lt(
                position.y as int,
                FP_ONE as int,
                self.height as int,
            );
            assert(self.width * FP_ONE == FP_ONE * self.width) by (nonlinear_arith);
            assert(self.height * FP_ONE == FP_ONE * self.height) by (nonlinear_arith);
        }
        let x = (position.x / FP_ONE) as u32;
        let y = (position.y / FP_ONE) as u32;
        self.get_tile_xy(x, y)
    }

    /// The tile id at grid cell `(x, y)`. Out-of-range coordinates are
    /// a programming error, excluded by contract: lookups never wrap
    /// to another row.
    pub fn get_tile_xy(&self, x: u32, y: u32) -> (t: u8)
        requires
            self.wf(),
            x < self.width,
            y < self.height,
        ensures
            t == self.spec_tile(x as int, y as int),
            t <= TILE_COUNT,
    {
        proof {
            assert(self.width * y + x < self.width * self.height && y * self.width + x
                < self.width * self.height) by (nonlinear_arith)
                requires
                    x < self.width,
                    y < self.height,
            ;
        }
        let idx = (self.width * y + x) as usize;
        self.map[idx]
    }

    /// Checked tile lookup: `Some` exactly on in-range coordinates,
    /// `None` (never a wrapped read) outside the grid.
    pub fn tile_at(&self, x: u32, y: u32) -> (t: Option<u8>)
        requires
            self.wf(),
        ensures
            x < self.width && y < self.height ==> t == Some(self.spec_tile(x as int, y as int)),
            !(x < self.width && y < self.height) ==> t is None,
    {
        if x < self.width && y < self.height {
            Some(self.get_tile_xy(x, y))
        } else {
            None
        }
    }

    /// The flat debug color for a tile id, used when no texture atlas
    /// is available. An opaque configuration table, not an algorithm.
    pub open spec fn spec_color_for_tile(tile_id: u8) -> Color {
        if tile_id == 1 {
            Color { r: 255u8, g: 0u8, b: 255u8, a: 255u8 }
        } else if tile_id == 2 {
            Color { r: 255u8, g: 0u8, b: 0u8, a: 255u8 }
        } else if tile_id == 4 {
            Color { r: 128u8, g: 128u8, b: 128u8, a: 255u8 }
        } else if tile_id == 6 {
            Color { r: 192u8, g: 192u8, b: 192u8, a: 255u8 }
        } else if tile_id == 7 {
            Color { r: 64u8, g: 64u8, b: 0u8, a: 255u8 }
        } else {
            Color { r: 0u8, g: 0u8, b: 0u8, a: 255u8 }
        }
    }

    /// Flat debug color lookup; any id outside the table (including
    /// walkable `0`) maps to black.
    pub fn color_for_tile(tile_id: u8) -> (c: Color)
        ensures
            c == Room::spec_color_for_tile(tile_id),
    {
        match tile_id {
            1 => Color::rgb(255, 0, 255),
            2 => Color::rgb(255, 0, 0),
            4 => Color::rgb(128, 128, 128),
            6 => Color::rgb(192, 192, 192),
            7 => Color::rgb(64, 64, 0),
            _ => Color::rgb(0, 0, 0),
        }
    }

    /// One atlas texel as a color: pixel `(col, row)` of the atlas,
    /// three consecutive bytes read as R, G, B; alpha is opaque.
    pub open spec fn spec_sample(&self, col: int, row: int) -> Color {
        let idx = (row * self.atlas_width + col) * 3;
        Color {
            r: self.atlas@[idx],
            g: self.atlas@[idx + 1],
            b: self.atlas@[idx + 2],
            a: 255u8,
        }
    }

    /// The vertical strip of `out_height` samples for one on-screen
    /// wall column: atlas column `(tile_id - 1) * TILE_SIZE + local_x`,
    /// each output row `y` sampling atlas row `y * TILE_SIZE /
    /// out_height` (nearest-neighbor vertical scaling).
    pub open spec fn spec_texture_column(&self, tile_id: u8, local_x: u32, out_height: u32)
        -> Seq<Color> {
        Seq::new(
            out_height as nat,
            |yy: int|
                self.spec_sample(
                    (tile_id - 1) * TILE_SIZE + local_x,
                    yy * TILE_SIZE / (out_height as int),
                ),
        )
    }

    /// Samples one wall texture column, stretched to `out_height`
    /// on-screen pixels by nearest-neighbor scaling. Tile id `0` is
    /// walkable and has no texture, so ids outside `1..=TILE_COUNT`
    /// are a contract violation, excluded here rather than read
    /// out of range.
    pub fn texture_column(&self, tile_id: u8, local_x: u32, out_height: u32) -> (col: Vec<Color>)
        requires
            self.has_atlas(),
            1 <= tile_id <= TILE_COUNT,
            local_x < TILE_SIZE,
            out_height >= 1,
        ensures
            col@.len() == out_height,
            col@ == self.spec_texture_column(tile_id, local_x, out_height),
    {
        let colx: u32 = (tile_id as u32 - 1) * TILE_SIZE + local_x;
        let mut col: Vec<Color> = Vec::new();
        let mut y: u32 = 0;
        while y < out_height
            invariant
                y <= out_height,
                out_height >= 1,
                local_x < TILE_SIZE,
                1 <= tile_id <= TILE_COUNT,
                colx == (tile_id - 1) * TILE_SIZE + local_x,
                self.has_atlas(),
                col@.len() == y,
                forall|j: int|
                    0 <= j < y ==> col@[j] == self.spec_sample(
                        colx as int,
                        j * TILE_SIZE / (out_height as int),
                    ),
            decreases out_height - y,
        {
            let row: u32 = (((y as u64) * (TILE_SIZE as u64)) / (out_height as u64)) as u32;
            proof {
                vstd::arithmetic::div_mod::lemma_multiply_divide_lt(
                    (y as int) * (TILE_SIZE as int),
                    out_height as int,
                    TILE_SIZE as int,
                );
                assert((y as int) * (TILE_SIZE as int) < (out_height as int) * (TILE_SIZE as int))
                    by (nonlinear_arith)
                    requires
                        y < out_height,
                ;
                assert(row < TILE_SIZE);
                assert((row * self.atlas_width + colx) * 3 + 2 < self.atlas@.len())
                    by (nonlinear_arith)
                    requires
                        row < TILE_SIZE,
                        colx < TILE_SIZE * TILE_COUNT as u32,
                        self.atlas_width == TILE_SIZE * TILE_COUNT as u32,
                        self.atlas@.len() == self.atlas_width * TILE_SIZE * 3,
                        TILE_SIZE == 64u32,
                        TILE_COUNT == 8u8,
                ;
            }
            let idx = ((row * self.atlas_width + colx) * 3) as usize;
            let c = Color::rgb(self.atlas[idx], self.atlas[idx + 1], self.atlas[idx + 2]);
            col.push(c);
            y = y + 1;
        }
        proof {
            assert(col@ =~= self.spec_texture_column(tile_id, local_x, out_height));
        }
        col
    }
}

/// Texture sampling is deterministic: a column is a pure function of
/// the atlas and the `(tile_id, local_x, out_height)` arguments, so
/// two results for identical arguments are identical. (The exec
/// sampler's contract equates each result with `spec_texture_column`;
/// this states the consequence in one place.)
pub proof fn lemma_texture_column_deterministic(
    room: Room,
    tile_id: u8,
    local_x: u32,
    out_height: u32,
    a: Seq<Color>,
    b: Seq<Color>,
)
    requires
        a == room.spec_texture_column(tile_id, local_x, out_height),
        b == room.spec_texture_column(tile_id, local_x, out_height),
    ensures
        a == b,
{
}

impl Default for Room {
    /// An empty room: zero extents, no tiles, no atlas.
    fn default() -> (r: Room)
        ensures
            r.width == 0,
            r.height == 0,
            r.map@.len() == 0,
            r.atlas@.len() == 0,
            r.wf(),
    {
        Room { width: 0, height: 0, map: Vec::new(), atlas: Vec::new(), atlas_width: 0 }
    }
}

} // verus!
