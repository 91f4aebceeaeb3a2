//! Addressing of tiles in the game's 2D terrain atlas.
use vstd::prelude::*;

verus! {

/// Number of tiles in one row of the 2D terrain atlas.
pub const ATLAS2D_TILES_PER_ROW: usize = 16;

/// Mask that selects the column of a tile from its texture location.
pub const ATLAS2D_MASK: usize = 15;

/// Shift that selects the row of a tile from its texture location.
pub const ATLAS2D_SHIFT: usize = 4;

/// Column of the tile with texture location `tex_loc` within the 2D atlas.
pub fn atlas2d_tile_x(tex_loc: usize) -> (column: usize)
    ensures
        column == tex_loc % ATLAS2D_TILES_PER_ROW,
        column < ATLAS2D_TILES_PER_ROW,
{
    assert(tex_loc & 15 == tex_loc % 16) by (bit_vector);
    tex_loc & ATLAS2D_MASK
}

/// Row of the tile with texture location `tex_loc` within the 2D atlas.
pub fn atlas2d_tile_y(tex_loc: usize) -> (row: usize)
    ensures
        row == tex_loc / ATLAS2D_TILES_PER_ROW,
{
    assert(tex_loc >> 4 == tex_loc / 16) by (bit_vector);
    tex_loc >> ATLAS2D_SHIFT
}

/// Index of the tile with texture location `tex_loc` in row-major order of
/// the 2D atlas, computed from its column and row.
pub fn atlas2d_tile_index(tex_loc: usize) -> (index: usize)
    ensures
        index == tex_loc,
{
    let column: usize = atlas2d_tile_x(tex_loc);
    let row: usize = atlas2d_tile_y(tex_loc);
    proof {
        lemma_atlas2d_tile_roundtrip(tex_loc as int);
    }
    column + row * ATLAS2D_TILES_PER_ROW
}

/// A texture location is recovered from its atlas column and row: the tile
/// in row `t / 16`, column `t % 16` is tile number `t`.
pub proof fn lemma_atlas2d_tile_roundtrip(tex_loc: int)
    requires
        tex_loc >= 0,
    ensures
        tex_loc % 16 + (tex_loc / 16) * 16 == tex_loc,
        0 <= tex_loc % 16 < 16,
{
}

} // verus!
