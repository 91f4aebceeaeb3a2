use iso_minimap::plugin::atlas::{atlas2d_tile_index, atlas2d_tile_x, atlas2d_tile_y};
use iso_minimap::plugin::bmp::{
    blank_texture_pixels, block_shade_of, column_shade_of, update, Shade, MINIMAP_BYTES, SAMPLE_LEN,
};

fn block_at(x: usize, z: usize, y: usize) -> usize {
    (x * 128 + z) * 64 + y
}

fn pixel_at(x: usize, z: usize) -> usize {
    (x + z * 128) * 4
}

/// Face textures for blocks 0..4: block `b` shows texture `b + 1` on top.
fn textures() -> Vec<u16> {
    let mut t = vec![0u16; 6 * 4];
    for b in 0..4 {
        t[b * 6 + 5] = (b + 1) as u16;
    }
    t
}

/// An atlas with tiles of 2 pixels; byte `i` holds `i`.
fn atlas() -> Vec<u8> {
    (0..64u32).map(|i| i as u8).collect()
}

#[test]
fn tile_column_and_row() {
    assert_eq!(atlas2d_tile_x(37), 5);
    assert_eq!(atlas2d_tile_y(37), 2);
    assert_eq!(atlas2d_tile_x(15), 15);
    assert_eq!(atlas2d_tile_y(15), 0);
    assert_eq!(atlas2d_tile_x(16), 0);
    assert_eq!(atlas2d_tile_y(16), 1);
    assert_eq!(atlas2d_tile_x(255), 15);
    assert_eq!(atlas2d_tile_y(255), 15);
}

#[test]
fn tile_index_recovers_texture_location() {
    for t in [0usize, 1, 15, 16, 17, 37, 255, 256, 1023, 65535] {
        assert_eq!(atlas2d_tile_index(t), t);
        assert_eq!(atlas2d_tile_x(t) + atlas2d_tile_y(t) * 16, t);
    }
}

#[test]
fn block_shade_reads_first_pixel_of_top_face_tile() {
    // block 2 shows texture 3; tile 3 starts at pixel 3 * 2 = 6, byte 24
    assert_eq!(block_shade_of(2, &textures(), &atlas(), 2), Shade::Tile(24, 25, 26));
    // block 0 shows texture 1: byte 8
    assert_eq!(block_shade_of(0, &textures(), &atlas(), 2), Shade::Tile(8, 9, 10));
}

#[test]
fn block_shade_out_of_range() {
    // block 4 has no entry in the face table
    assert_eq!(block_shade_of(4, &textures(), &atlas(), 2), Shade::OutOfRange);
    // tile 4 of size 4 starts at byte 64: past the atlas
    assert_eq!(block_shade_of(3, &textures(), &atlas(), 4), Shade::OutOfRange);
    // the last tile that fits: tile 3 of size 4 ends at byte 52
    assert_eq!(block_shade_of(2, &textures(), &atlas(), 4), Shade::Tile(48, 49, 50));
    // a tile size that overflows the byte offset
    assert_eq!(block_shade_of(1, &textures(), &atlas(), usize::MAX), Shade::OutOfRange);
}

#[test]
fn column_shade_takes_the_highest_block() {
    let mut blocks = vec![0u16; SAMPLE_LEN];
    blocks[block_at(3, 5, 2)] = 1;
    blocks[block_at(3, 5, 10)] = 2;
    blocks[block_at(3, 5, 64)] = 3; // first layer of the next column
    assert_eq!(column_shade_of(&blocks, &textures(), &atlas(), 2, 3, 5), Shade::Tile(24, 25, 26));
    assert_eq!(column_shade_of(&blocks, &textures(), &atlas(), 2, 3, 6), Shade::Tile(32, 33, 34));
    assert_eq!(column_shade_of(&blocks, &textures(), &atlas(), 2, 4, 5), Shade::Clear);
}

#[test]
fn column_shade_of_top_layer() {
    let mut blocks = vec![0u16; SAMPLE_LEN];
    blocks[block_at(127, 127, 63)] = 1;
    blocks[block_at(127, 127, 0)] = 3;
    assert_eq!(column_shade_of(&blocks, &textures(), &atlas(), 2, 127, 127), Shade::Tile(16, 17, 18));
}

#[test]
fn minimap_of_terrain() {
    let mut blocks = vec![0u16; SAMPLE_LEN];
    blocks[block_at(3, 5, 2)] = 1;
    blocks[block_at(3, 5, 10)] = 2;
    blocks[block_at(0, 0, 0)] = 1;
    blocks[block_at(127, 0, 63)] = 3;
    let image = update(&blocks, &textures(), &atlas(), 2, 0, 0).unwrap();
    assert_eq!(image.len(), MINIMAP_BYTES);
    // column (3, 5): tile of block 2
    assert_eq!(&image[pixel_at(3, 5)..pixel_at(3, 5) + 4], &[24, 25, 26, 255]);
    // column (127, 0): tile of block 3, texture 4, byte 32
    assert_eq!(&image[pixel_at(127, 0)..pixel_at(127, 0) + 4], &[32, 33, 34, 255]);
    // the player's column is white although it holds a block
    assert_eq!(&image[pixel_at(0, 0)..pixel_at(0, 0) + 4], &[255, 255, 255, 255]);
    // air stays white
    assert_eq!(&image[pixel_at(4, 5)..pixel_at(4, 5) + 4], &[255, 255, 255, 255]);
    // every pixel is opaque
    for i in 0..128 * 128 {
        assert_eq!(image[i * 4 + 3], 255);
    }
}

#[test]
fn minimap_of_empty_terrain_is_white() {
    let blocks = vec![0u16; SAMPLE_LEN];
    let image = update(&blocks, &textures(), &atlas(), 2, 64, 64).unwrap();
    assert_eq!(image.len(), 65536);
    assert!(image.iter().all(|&b| b == 255));
}

#[test]
fn minimap_player_marker_over_terrain() {
    let mut blocks = vec![0u16; SAMPLE_LEN];
    for x in 0..128 {
        for z in 0..128 {
            blocks[block_at(x, z, 0)] = 0;
            blocks[block_at(x, z, 1)] = 1;
        }
    }
    let image = update(&blocks, &textures(), &atlas(), 2, 10, 20).unwrap();
    assert_eq!(&image[pixel_at(10, 20)..pixel_at(10, 20) + 4], &[255, 255, 255, 255]);
    assert_eq!(&image[pixel_at(20, 10)..pixel_at(20, 10) + 4], &[16, 17, 18, 255]);
}

#[test]
fn minimap_unreadable_block() {
    let mut blocks = vec![0u16; SAMPLE_LEN];
    blocks[block_at(3, 5, 10)] = 2;
    blocks[block_at(100, 7, 3)] = 9; // no face texture for block 9
    assert!(update(&blocks, &textures(), &atlas(), 2, 0, 0).is_none());
}

#[test]
fn minimap_unreadable_atlas() {
    let mut blocks = vec![0u16; SAMPLE_LEN];
    blocks[block_at(5, 5, 10)] = 3; // texture 4 at tile size 4: byte 64, past the atlas
    assert!(update(&blocks, &textures(), &atlas(), 4, 0, 0).is_none());
    // a block under the player is looked up too
    let mut blocks = vec![0u16; SAMPLE_LEN];
    blocks[block_at(0, 0, 10)] = 3;
    assert!(update(&blocks, &textures(), &atlas(), 4, 0, 0).is_none());
}

#[test]
fn blank_texture_is_white() {
    let pixels = blank_texture_pixels();
    assert_eq!(pixels.len(), 4 * 1024 * 1024);
    assert!(pixels.iter().all(|&b| b == 255));
}
