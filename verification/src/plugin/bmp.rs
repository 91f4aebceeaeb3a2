//! The minimap image: which colour each map column gets, where the player
//! marker goes, and the blank texture the minimap is drawn into.
use vstd::prelude::*;

use crate::plugin::atlas::atlas2d_tile_index;

verus! {

/// Number of map columns along the x axis that the minimap shows.
pub const MAP_WIDTH: usize = 128;

/// Number of map columns along the z axis that the minimap shows.
pub const MAP_LENGTH: usize = 128;

/// Number of block layers, counted from the bottom, that are searched for
/// the top of each column.
pub const SCAN_HEIGHT: usize = 64;

/// Number of faces of a block; each block has one texture per face.
pub const FACE_COUNT: usize = 6;

/// The face whose texture is shown from above (face Y = 1).
pub const FACE_YMAX: usize = 5;

/// Bytes per pixel of an RGBA bitmap.
pub const BYTES_PER_PIXEL: usize = 4;

/// Width, in pixels, of the texture that the minimap is drawn into.
pub const TEXTURE_WIDTH: usize = 1024;

/// Height, in pixels, of the texture that the minimap is drawn into.
pub const TEXTURE_HEIGHT: usize = 1024;

/// Number of block ids in a terrain sample: one per block of the searched
/// region.
pub const SAMPLE_LEN: usize = MAP_WIDTH * MAP_LENGTH * SCAN_HEIGHT;

/// Number of bytes of the minimap image.
pub const MINIMAP_BYTES: usize = BYTES_PER_PIXEL * MAP_WIDTH * MAP_LENGTH;

/// What a map column looks like from above.
#[derive(PartialEq, Eq, Structural, Clone, Copy, Debug)]
pub enum Shade {
    /// The searched part of the column holds only air.
    Clear,
    /// The top block's upper face starts with this colour in the atlas.
    Tile(u8, u8, u8),
    /// The top block's texture or its atlas pixel lies outside the tables.
    OutOfRange,
}

/// Position, in a terrain sample, of the block at `(x, y, z)`: samples are
/// laid out column by column, x major, and bottom to top within a column.
pub open spec fn block_offset(x: int, z: int, y: int) -> int {
    (x * MAP_LENGTH + z) * SCAN_HEIGHT + y
}

/// Position, in the minimap image, of channel `channel` of the pixel that
/// shows column `(x, z)`: rows run along x, one row per z.
pub open spec fn pixel_offset(x: int, z: int, channel: int) -> int {
    (x + z * MAP_WIDTH) * BYTES_PER_PIXEL + channel
}

/// The highest non-air block among the lowest `height` layers of column
/// `(x, z)`, if any.
pub open spec fn top_solid_block(blocks: Seq<u16>, x: int, z: int, height: int) -> Option<u16>
    decreases height,
{
    if height <= 0 {
        None
    } else if blocks[block_offset(x, z, height - 1)] != 0 {
        Some(blocks[block_offset(x, z, height - 1)])
    } else {
        top_solid_block(blocks, x, z, height - 1)
    }
}

/// How block `block` looks from above: the first pixel of the atlas tile
/// of its upper face, found through the block's face texture table.
pub open spec fn block_shade(block: u16, textures: Seq<u16>, atlas: Seq<u8>, tile_size: int) -> Shade {
    let face: int = block * FACE_COUNT + FACE_YMAX;
    if face >= textures.len() {
        Shade::OutOfRange
    } else {
        let first: int = textures[face] * tile_size * BYTES_PER_PIXEL;
        if first + BYTES_PER_PIXEL > atlas.len() {
            Shade::OutOfRange
        } else {
            Shade::Tile(atlas[first], atlas[first + 1], atlas[first + 2])
        }
    }
}

/// How column `(x, z)` of the sample looks from above.
pub open spec fn column_shade(
    blocks: Seq<u16>,
    textures: Seq<u16>,
    atlas: Seq<u8>,
    tile_size: int,
    x: int,
    z: int,
) -> Shade {
    match top_solid_block(blocks, x, z, SCAN_HEIGHT as int) {
        None => Shade::Clear,
        Some(block) => block_shade(block, textures, atlas, tile_size),
    }
}

/// Channel `channel` of the colour `(r, g, b, a)`.
pub open spec fn rgba_channel(r: u8, g: u8, b: u8, a: u8, channel: int) -> u8 {
    if channel == 0 {
        r
    } else if channel == 1 {
        g
    } else if channel == 2 {
        b
    } else {
        a
    }
}

/// Channel `channel` of the opaque pixel that shows a column of shade
/// `shade`; a clear column stays white.
pub open spec fn shade_channel(shade: Shade, channel: int) -> u8 {
    match shade {
        Shade::Tile(r, g, b) => rgba_channel(r, g, b, 255, channel),
        _ => 255,
    }
}

/// Every column of the region can be shaded: no lookup leaves the tables.
pub open spec fn sample_readable(blocks: Seq<u16>, textures: Seq<u16>, atlas: Seq<u8>, tile_size: int) -> bool {
    forall|x: int, z: int|
        0 <= x < MAP_WIDTH && 0 <= z < MAP_LENGTH ==> !(#[trigger] column_shade(
            blocks,
            textures,
            atlas,
            tile_size,
            x,
            z,
        ) is OutOfRange)
}

/// Channel `channel` of the minimap pixel of column `(x, z)`: the player's
/// column is white, every other column shows its shade.
pub open spec fn minimap_channel(
    blocks: Seq<u16>,
    textures: Seq<u16>,
    atlas: Seq<u8>,
    tile_size: int,
    player_x: int,
    player_z: int,
    x: int,
    z: int,
    channel: int,
) -> u8 {
    if x == player_x && z == player_z {
        255
    } else {
        shade_channel(column_shade(blocks, textures, atlas, tile_size, x, z), channel)
    }
}

/// Distinct pixel channels of the minimap image lie at distinct offsets,
/// all inside the image.
pub proof fn lemma_pixel_offset_distinct(x1: int, z1: int, c1: int, x2: int, z2: int, c2: int)
    requires
        0 <= x1 < MAP_WIDTH,
        0 <= z1 < MAP_LENGTH,
        0 <= c1 < BYTES_PER_PIXEL,
        0 <= x2 < MAP_WIDTH,
        0 <= z2 < MAP_LENGTH,
        0 <= c2 < BYTES_PER_PIXEL,
        x1 != x2 || z1 != z2 || c1 != c2,
    ensures
        pixel_offset(x1, z1, c1) != pixel_offset(x2, z2, c2),
        0 <= pixel_offset(x1, z1, c1) < MINIMAP_BYTES,
{
    if z1 < z2 {
        assert(pixel_offset(x1, z1, c1) < pixel_offset(x2, z2, c2));
    } else if z2 < z1 {
        assert(pixel_offset(x2, z2, c2) < pixel_offset(x1, z1, c1));
    } else if x1 < x2 {
        assert(pixel_offset(x1, z1, c1) < pixel_offset(x2, z2, c2));
    } else if x2 < x1 {
        assert(pixel_offset(x2, z2, c2) < pixel_offset(x1, z1, c1));
    }
}

/// Every pixel channel of a column of the region lies inside the image.
pub proof fn lemma_pixel_offset_in_image(x: int, z: int, c: int)
    requires
        0 <= x < MAP_WIDTH,
        0 <= z < MAP_LENGTH,
        0 <= c < BYTES_PER_PIXEL,
    ensures
        0 <= pixel_offset(x, z, c) < MINIMAP_BYTES,
{
}

/// Writes the colour `(r, g, b, a)` into the pixel of column `(x, z)`.
fn paint_cell(pixels: &mut Vec<u8>, x: usize, z: usize, r: u8, g: u8, b: u8, a: u8)
    requires
        old(pixels).len() == MINIMAP_BYTES,
        x < MAP_WIDTH,
        z < MAP_LENGTH,
    ensures
        final(pixels).len() == MINIMAP_BYTES,
        forall|xi: int, zi: int, c: int|
            0 <= xi < MAP_WIDTH && 0 <= zi < MAP_LENGTH && 0 <= c < BYTES_PER_PIXEL ==> #[trigger] final(pixels)@[pixel_offset(xi, zi, c)] == if xi == x && zi == z {
                rgba_channel(r, g, b, a, c)
            } else {
                old(pixels)@[pixel_offset(xi, zi, c)]
            },
{
    let base: usize = (x + z * MAP_WIDTH) * BYTES_PER_PIXEL;
    pixels.set(base, r);
    pixels.set(base + 1, g);
    pixels.set(base + 2, b);
    pixels.set(base + 3, a);
    assert forall|xi: int, zi: int, c: int|
        0 <= xi < MAP_WIDTH && 0 <= zi < MAP_LENGTH && 0 <= c < BYTES_PER_PIXEL implies #[trigger] pixels@[pixel_offset(xi, zi, c)] == if xi == x && zi == z {
            rgba_channel(r, g, b, a, c)
        } else {
            old(pixels)@[pixel_offset(xi, zi, c)]
        } by {
        if !(xi == x && zi == z) {
            lemma_pixel_offset_distinct(xi, zi, c, x as int, z as int, 0);
            lemma_pixel_offset_distinct(xi, zi, c, x as int, z as int, 1);
            lemma_pixel_offset_distinct(xi, zi, c, x as int, z as int, 2);
            lemma_pixel_offset_distinct(xi, zi, c, x as int, z as int, 3);
        }
    }
}

/// Shade of block `block` seen from above, looked up in the face texture
/// table and the atlas; `OutOfRange` where a lookup would leave them.
pub fn block_shade_of(block: u16, textures: &[u16], atlas: &[u8], tile_size: usize) -> (shade: Shade)
    ensures
        shade == block_shade(block, textures@, atlas@, tile_size as int),
{
    let face: usize = block as usize * FACE_COUNT + FACE_YMAX;
    if face >= textures.len() {
        return Shade::OutOfRange;
    }
    let atlas_len: usize = atlas.len();
    let tex_loc: usize = textures[face] as usize;
    let tile: usize = atlas2d_tile_index(tex_loc);
    let ghost first_spec: int = textures@[face as int] * tile_size * BYTES_PER_PIXEL;
    assert(first_spec == (tile * tile_size) * 4);
    let first_pixel: usize = match tile.checked_mul(tile_size) {
        Some(p) => p,
        None => {
            assert(first_spec + BYTES_PER_PIXEL > atlas@.len()) by (nonlinear_arith)
                requires
                    first_spec == (tile * tile_size) * 4,
                    tile * tile_size > usize::MAX,
                    atlas@.len() <= usize::MAX,
            ;
            return Shade::OutOfRange;
        },
    };
    let first_byte: usize = match first_pixel.checked_mul(BYTES_PER_PIXEL) {
        Some(p) => p,
        None => {
            return Shade::OutOfRange;
        },
    };
    let end: usize = match first_byte.checked_add(BYTES_PER_PIXEL) {
        Some(e) => e,
        None => {
            return Shade::OutOfRange;
        },
    };
    if end > atlas_len {
        return Shade::OutOfRange;
    }
    Shade::Tile(atlas[first_byte], atlas[first_byte + 1], atlas[first_byte + 2])
}

/// Shade of column `(x, z)` of the terrain sample: the shade of its
/// highest non-air block among the searched layers, `Clear` if none.
pub fn column_shade_of(
    blocks: &[u16],
    textures: &[u16],
    atlas: &[u8],
    tile_size: usize,
    x: usize,
    z: usize,
) -> (shade: Shade)
    requires
        blocks.len() == SAMPLE_LEN,
        x < MAP_WIDTH,
        z < MAP_LENGTH,
    ensures
        shade == column_shade(blocks@, textures@, atlas@, tile_size as int, x as int, z as int),
{
    let base: usize = (x * MAP_LENGTH + z) * SCAN_HEIGHT;
    let mut y: usize = SCAN_HEIGHT;
    while y > 0
        invariant
            y <= SCAN_HEIGHT,
            blocks.len() == SAMPLE_LEN,
            x < MAP_WIDTH,
            z < MAP_LENGTH,
            base == block_offset(x as int, z as int, 0),
            top_solid_block(blocks@, x as int, z as int, SCAN_HEIGHT as int) == top_solid_block(
                blocks@,
                x as int,
                z as int,
                y as int,
            ),
        decreases y,
    {
        y = y - 1;
        let block: u16 = blocks[base + y];
        if block != 0 {
            return block_shade_of(block, textures, atlas, tile_size);
        }
    }
    Shade::Clear
}

/// Composes the RGBA minimap image of the 128 x 128 columns of the terrain
/// sample: each column shows the first pixel of the atlas tile of its top
/// block's upper face, opaque; columns of air stay white; the player's
/// column is white. `None` where some column's top block has a texture or
/// an atlas pixel outside the given tables.
///
/// `blocks` holds the block ids of the region, laid out as `block_offset`
/// says; `textures` is the face texture table, six entries per block;
/// `atlas` the RGBA pixels of the terrain atlas with `tile_size` pixels per
/// tile; `(player_x, player_z)` the player's column.
pub fn update(
    blocks: &[u16],
    textures: &[u16],
    atlas: &[u8],
    tile_size: usize,
    player_x: usize,
    player_z: usize,
) -> (image: Option<Vec<u8>>)
    requires
        blocks.len() == SAMPLE_LEN,
        player_x < MAP_WIDTH,
        player_z < MAP_LENGTH,
    ensures
        image is Some <==> sample_readable(blocks@, textures@, atlas@, tile_size as int),
        image matches Some(pixels) ==> {
            &&& pixels.len() == MINIMAP_BYTES
            &&& forall|x: int, z: int, c: int|
                0 <= x < MAP_WIDTH && 0 <= z < MAP_LENGTH && 0 <= c < BYTES_PER_PIXEL
                    ==> #[trigger] pixels@[pixel_offset(x, z, c)] == minimap_channel(
                    blocks@,
                    textures@,
                    atlas@,
                    tile_size as int,
                    player_x as int,
                    player_z as int,
                    x,
                    z,
                    c,
                )
        },
{
    let mut pixels: Vec<u8> = vec![255u8; MINIMAP_BYTES];
    assert forall|xi: int, zi: int, c: int|
        0 <= xi < MAP_WIDTH && 0 <= zi < MAP_LENGTH && 0 <= c < BYTES_PER_PIXEL implies #[trigger] pixels@[pixel_offset(xi, zi, c)] == 255u8 by {
        lemma_pixel_offset_in_image(xi, zi, c);
    }
    let mut x: usize = 0;
    while x < MAP_WIDTH
        invariant
            x <= MAP_WIDTH,
            blocks.len() == SAMPLE_LEN,
            player_x < MAP_WIDTH,
            player_z < MAP_LENGTH,
            pixels.len() == MINIMAP_BYTES,
            forall|xi: int, zi: int, c: int|
                0 <= xi < MAP_WIDTH && 0 <= zi < MAP_LENGTH && 0 <= c < BYTES_PER_PIXEL
                    ==> #[trigger] pixels@[pixel_offset(xi, zi, c)] == if xi < x {
                    shade_channel(column_shade(blocks@, textures@, atlas@, tile_size as int, xi, zi), c)
                } else {
                    255u8
                },
            forall|xi: int, zi: int|
                0 <= xi < x && 0 <= zi < MAP_LENGTH ==> !(#[trigger] column_shade(
                    blocks@,
                    textures@,
                    atlas@,
                    tile_size as int,
                    xi,
                    zi,
                ) is OutOfRange),
        decreases MAP_WIDTH - x,
    {
        let mut z: usize = 0;
        while z < MAP_LENGTH
            invariant
                x < MAP_WIDTH,
                z <= MAP_LENGTH,
                blocks.len() == SAMPLE_LEN,
                pixels.len() == MINIMAP_BYTES,
                forall|xi: int, zi: int, c: int|
                    0 <= xi < MAP_WIDTH && 0 <= zi < MAP_LENGTH && 0 <= c < BYTES_PER_PIXEL
                        ==> #[trigger] pixels@[pixel_offset(xi, zi, c)] == if xi < x || (xi == x
                        && zi < z) {
                        shade_channel(
                            column_shade(blocks@, textures@, atlas@, tile_size as int, xi, zi),
                            c,
                        )
                    } else {
                        255u8
                    },
                forall|xi: int, zi: int|
                    0 <= xi < MAP_WIDTH && 0 <= zi < MAP_LENGTH && (xi < x || (xi == x && zi < z))
                        ==> !(#[trigger] column_shade(
                        blocks@,
                        textures@,
                        atlas@,
                        tile_size as int,
                        xi,
                        zi,
                    ) is OutOfRange),
            decreases MAP_LENGTH - z,
        {
            let shade = column_shade_of(blocks, textures, atlas, tile_size, x, z);
            match shade {
                Shade::OutOfRange => {
                    return None;
                },
                Shade::Clear => {},
                Shade::Tile(r, g, b) => {
                    paint_cell(&mut pixels, x, z, r, g, b, 255);
                },
            }
            z = z + 1;
        }
        x = x + 1;
    }
    paint_cell(&mut pixels, player_x, player_z, 255, 255, 255, 255);
    Some(pixels)
}

/// The top block of a column is its highest non-air block: it lies at
/// some layer `y` below `height`, and every layer above `y` up to `height`
/// holds air; a column without top block holds only air there.
pub proof fn lemma_top_solid_block_is_highest(blocks: Seq<u16>, x: int, z: int, height: int)
    ensures
        top_solid_block(blocks, x, z, height) matches Some(block) ==> exists|y: int|
            0 <= y < height && blocks[block_offset(x, z, y)] == block && block != 0 && forall|
                above: int,
            |
                y < above < height ==> blocks[#[trigger] block_offset(x, z, above)] == 0,
        top_solid_block(blocks, x, z, height) is None ==> forall|y: int|
            0 <= y < height ==> blocks[#[trigger] block_offset(x, z, y)] == 0,
    decreases height,
{
    if height > 0 {
        lemma_top_solid_block_is_highest(blocks, x, z, height - 1);
        if blocks[block_offset(x, z, height - 1)] != 0 {
            let y: int = height - 1;
            assert(0 <= y < height && blocks[block_offset(x, z, y)] == blocks[block_offset(x, z, height - 1)]);
        } else {
            if let Some(block) = top_solid_block(blocks, x, z, height - 1) {
                let y: int = choose|y: int|
                    0 <= y < height - 1 && blocks[block_offset(x, z, y)] == block && block != 0
                        && forall|above: int|
                        y < above < height - 1 ==> blocks[#[trigger] block_offset(x, z, above)] == 0;
                assert forall|above: int| y < above < height implies blocks[#[trigger] block_offset(
                    x,
                    z,
                    above,
                )] == 0 by {}
            }
        }
    }
}

/// Every pixel of the minimap is opaque.
pub proof fn lemma_minimap_opaque(
    blocks: Seq<u16>,
    textures: Seq<u16>,
    atlas: Seq<u8>,
    tile_size: int,
    player_x: int,
    player_z: int,
    x: int,
    z: int,
)
    ensures
        minimap_channel(blocks, textures, atlas, tile_size, player_x, player_z, x, z, 3) == 255u8,
{
}

/// The player's column is marked white, whatever the terrain there.
pub proof fn lemma_player_marker_white(
    blocks: Seq<u16>,
    textures: Seq<u16>,
    atlas: Seq<u8>,
    tile_size: int,
    player_x: int,
    player_z: int,
    c: int,
)
    ensures
        minimap_channel(blocks, textures, atlas, tile_size, player_x, player_z, player_x, player_z, c)
            == 255u8,
{
}

/// A column of air stays white; a column with a top block shows the first
/// atlas pixel of that block's upper face.
pub proof fn lemma_column_colour(
    blocks: Seq<u16>,
    textures: Seq<u16>,
    atlas: Seq<u8>,
    tile_size: int,
    player_x: int,
    player_z: int,
    x: int,
    z: int,
    c: int,
)
    requires
        !(x == player_x && z == player_z),
        0 <= c < 3,
    ensures
        top_solid_block(blocks, x, z, SCAN_HEIGHT as int) is None ==> minimap_channel(
            blocks,
            textures,
            atlas,
            tile_size,
            player_x,
            player_z,
            x,
            z,
            c,
        ) == 255u8,
        column_shade(blocks, textures, atlas, tile_size, x, z) !is OutOfRange ==> (top_solid_block(
            blocks,
            x,
            z,
            SCAN_HEIGHT as int,
        ) matches Some(block) ==> minimap_channel(
            blocks,
            textures,
            atlas,
            tile_size,
            player_x,
            player_z,
            x,
            z,
            c,
        ) == atlas[textures[block * FACE_COUNT + FACE_YMAX] * tile_size * BYTES_PER_PIXEL + c]),
{
}

/// The shade of a block is read from the tables: where the block's
/// upper-face entry `block * 6 + 5` lies in the face texture table and the
/// first pixel of that texture's tile, bytes `t * tile_size * 4 .. + 4`,
/// lies in the atlas, the shade is that pixel's red, green and blue bytes,
/// whatever the texture; where either lookup leaves its table, the shade is
/// `OutOfRange`. No block shows as `Clear`.
pub proof fn lemma_block_shade_reads_atlas(block: u16, textures: Seq<u16>, atlas: Seq<u8>, tile_size: int)
    ensures
        block as int * 6 + 5 < textures.len() && textures[block as int * 6 + 5] * tile_size * 4 + 4
            <= atlas.len() ==> block_shade(block, textures, atlas, tile_size) == Shade::Tile(
            atlas[textures[block as int * 6 + 5] * tile_size * 4],
            atlas[textures[block as int * 6 + 5] * tile_size * 4 + 1],
            atlas[textures[block as int * 6 + 5] * tile_size * 4 + 2],
        ),
        block as int * 6 + 5 >= textures.len() || textures[block as int * 6 + 5] * tile_size * 4 + 4
            > atlas.len() ==> block_shade(block, textures, atlas, tile_size) == Shade::OutOfRange,
        block_shade(block, textures, atlas, tile_size) != Shade::Clear,
{
}

/// Scanning the layers below `height` down from the top finds the block at
/// layer `y` when every layer between `y` and `height` holds air.
proof fn lemma_top_solid_block_found(blocks: Seq<u16>, x: int, z: int, y: int, height: int)
    requires
        0 <= y < height,
        blocks[block_offset(x, z, y)] != 0,
        forall|above: int| y < above < height ==> blocks[#[trigger] block_offset(x, z, above)] == 0,
    ensures
        top_solid_block(blocks, x, z, height) == Some(blocks[block_offset(x, z, y)]),
    decreases height,
{
    if height - 1 > y {
        assert(blocks[block_offset(x, z, height - 1)] == 0);
        lemma_top_solid_block_found(blocks, x, z, y, height - 1);
    }
}

/// Scanning layers that hold only air finds no block.
proof fn lemma_top_solid_block_none(blocks: Seq<u16>, x: int, z: int, height: int)
    requires
        forall|y: int| 0 <= y < height ==> blocks[#[trigger] block_offset(x, z, y)] == 0,
    ensures
        top_solid_block(blocks, x, z, height) is None,
    decreases height,
{
    if height > 0 {
        assert(blocks[block_offset(x, z, height - 1)] == 0);
        lemma_top_solid_block_none(blocks, x, z, height - 1);
    }
}

/// A column looks like its highest non-air block among the lowest 64
/// layers, whatever that block's id: where that block is at layer `y`,
/// the column's shade is the block's shade.
pub proof fn lemma_column_shade_is_top_block_shade(
    blocks: Seq<u16>,
    textures: Seq<u16>,
    atlas: Seq<u8>,
    tile_size: int,
    x: int,
    z: int,
    y: int,
)
    requires
        0 <= y < 64,
        blocks[block_offset(x, z, y)] != 0,
        forall|above: int| y < above < 64 ==> blocks[#[trigger] block_offset(x, z, above)] == 0,
    ensures
        column_shade(blocks, textures, atlas, tile_size, x, z) == block_shade(
            blocks[block_offset(x, z, y)],
            textures,
            atlas,
            tile_size,
        ),
{
    lemma_top_solid_block_found(blocks, x, z, y, 64);
}

/// A column whose lowest 64 layers hold only air is clear.
pub proof fn lemma_air_column_is_clear(
    blocks: Seq<u16>,
    textures: Seq<u16>,
    atlas: Seq<u8>,
    tile_size: int,
    x: int,
    z: int,
)
    requires
        forall|y: int| 0 <= y < 64 ==> blocks[#[trigger] block_offset(x, z, y)] == 0,
    ensures
        column_shade(blocks, textures, atlas, tile_size, x, z) == Shade::Clear,
{
    lemma_top_solid_block_none(blocks, x, z, 64);
}

/// The minimap pixel of a column other than the player's, whose highest
/// non-air block at layer `y` has its upper-face texture and that tile's
/// first pixel inside the tables, is that pixel, made opaque.
pub proof fn lemma_minimap_pixel_of_top_block(
    blocks: Seq<u16>,
    textures: Seq<u16>,
    atlas: Seq<u8>,
    tile_size: int,
    player_x: int,
    player_z: int,
    x: int,
    z: int,
    y: int,
)
    requires
        !(x == player_x && z == player_z),
        0 <= y < 64,
        blocks[block_offset(x, z, y)] != 0,
        forall|above: int| y < above < 64 ==> blocks[#[trigger] block_offset(x, z, above)] == 0,
        blocks[block_offset(x, z, y)] * 6 + 5 < textures.len(),
        textures[blocks[block_offset(x, z, y)] * 6 + 5] * tile_size * 4 + 4 <= atlas.len(),
    ensures
        forall|c: int|
            0 <= c < 3 ==> #[trigger] minimap_channel(
                blocks,
                textures,
                atlas,
                tile_size,
                player_x,
                player_z,
                x,
                z,
                c,
            ) == atlas[textures[blocks[block_offset(x, z, y)] * 6 + 5] * tile_size * 4 + c],
        minimap_channel(blocks, textures, atlas, tile_size, player_x, player_z, x, z, 3) == 255u8,
{
    lemma_column_shade_is_top_block_shade(blocks, textures, atlas, tile_size, x, z, y);
    lemma_block_shade_reads_atlas(blocks[block_offset(x, z, y)], textures, atlas, tile_size);
}

/// Keeps the minimap texture `texture` in `texture_slot`, releasing any
/// texture held before.
pub fn init<T>(texture_slot: &mut Option<T>, texture: T)
    ensures
        *final(texture_slot) == Some(texture),
{
    *texture_slot = Some(texture);
}

/// Releases the minimap texture, if one is held.
pub fn free<T>(texture_slot: &mut Option<T>)
    ensures
        *final(texture_slot) == None::<T>,
{
    *texture_slot = None;
}

/// The pixels of the blank minimap texture: `TEXTURE_WIDTH` x
/// `TEXTURE_HEIGHT` RGBA pixels, all opaque white.
pub fn blank_texture_pixels() -> (pixels: Vec<u8>)
    ensures
        pixels.len() == BYTES_PER_PIXEL * TEXTURE_WIDTH * TEXTURE_HEIGHT,
        forall|i: int| 0 <= i < pixels.len() ==> #[trigger] pixels@[i] == 255u8,
{
    vec![255u8; BYTES_PER_PIXEL * TEXTURE_WIDTH * TEXTURE_HEIGHT]
}

} // verus!
