use raycast_core::color::Color;
use raycast_core::room::{Room, TILE_COUNT, TILE_SIZE};
use raycast_core::vec2::Vec2;

fn room_3x2() -> Room {
    let mut room = Room::default();
    // Row-major: row 0 is [0, 1, 2], row 1 is [3, 4, 5].
    room.set_map(3, 2, &[0, 1, 2, 3, 4, 5]);
    room
}

// A recognizable atlas: red channel is the atlas row, green the atlas
// column modulo 256, blue a constant.
fn atlas_room() -> Room {
    let mut room = Room::default();
    room.set_map(1, 1, &[0]);
    let width = TILE_SIZE * TILE_COUNT as u32;
    let mut data = Vec::new();
    for row in 0..TILE_SIZE {
        for col in 0..width {
            data.push(row as u8);
            data.push((col % 256) as u8);
            data.push(7);
        }
    }
    room.set_atlas(width, &data);
    room
}

#[test]
fn tile_lookup_matches_grid() {
    let room = room_3x2();
    assert_eq!(room.width(), 3);
    assert_eq!(room.height(), 2);
    let mut expected = 0;
    for y in 0..2 {
        for x in 0..3 {
            assert_eq!(room.get_tile_xy(x, y), expected);
            assert_eq!(room.tile_at(x, y), Some(expected));
            expected += 1;
        }
    }
}

#[test]
fn tile_lookup_rejects_out_of_bounds() {
    let room = room_3x2();
    // Never a wrapped read: (3, 0) must not alias (0, 1).
    assert_eq!(room.tile_at(3, 0), None);
    assert_eq!(room.tile_at(0, 2), None);
    assert_eq!(room.tile_at(u32::MAX, 0), None);
    assert_eq!(room.tile_at(0, u32::MAX), None);
}

#[test]
fn get_tile_floors_continuous_position() {
    let room = room_3x2();
    // (1.9, 0.2) floors to tile (1, 0).
    assert_eq!(room.get_tile(&Vec2::new(1945, 204)), 1);
    // (2.0, 1.999..) floors to tile (2, 1).
    assert_eq!(room.get_tile(&Vec2::new(2048, 2047)), 5);
    assert_eq!(room.get_tile(&Vec2::new(0, 0)), 0);
}

#[test]
fn color_for_tile_table() {
    assert_eq!(Room::color_for_tile(1), Color::rgb(255, 0, 255));
    assert_eq!(Room::color_for_tile(2), Color::rgb(255, 0, 0));
    assert_eq!(Room::color_for_tile(4), Color::rgb(128, 128, 128));
    assert_eq!(Room::color_for_tile(6), Color::rgb(192, 192, 192));
    assert_eq!(Room::color_for_tile(7), Color::rgb(64, 64, 0));
    assert_eq!(Room::color_for_tile(0), Color::rgb(0, 0, 0));
    assert_eq!(Room::color_for_tile(3), Color::rgb(0, 0, 0));
    assert_eq!(Room::color_for_tile(5), Color::rgb(0, 0, 0));
    assert_eq!(Room::color_for_tile(255), Color::rgb(0, 0, 0));
}

#[test]
fn texture_column_length() {
    let room = atlas_room();
    for h in [1u32, 2, 63, 64, 65, 100, 129, 1000] {
        let col = room.texture_column(1, 0, h);
        assert_eq!(col.len(), h as usize);
    }
}

#[test]
fn texture_column_deterministic() {
    let room = atlas_room();
    let a = room.texture_column(3, 17, 97);
    let b = room.texture_column(3, 17, 97);
    assert_eq!(a, b);
}

#[test]
fn texture_column_identity_scale() {
    let room = atlas_room();
    // At out_height == TILE_SIZE each output row samples its own
    // atlas row; tile 2 starts at atlas column 64.
    let col = room.texture_column(2, 5, TILE_SIZE);
    for y in 0..TILE_SIZE as usize {
        assert_eq!(col[y], Color::rgb(y as u8, 64 + 5, 7));
    }
}

#[test]
fn texture_column_nearest_neighbor_scaling() {
    let room = atlas_room();
    // Doubled height: rows repeat pairwise (y * 64 / 128 == y / 2).
    let col = room.texture_column(1, 0, 2 * TILE_SIZE);
    for y in 0..(2 * TILE_SIZE) as usize {
        assert_eq!(col[y], Color::rgb((y / 2) as u8, 0, 7));
    }
    // Height 1 samples only atlas row 0.
    let one = room.texture_column(8, 63, 1);
    assert_eq!(one[0], Color::rgb(0, ((7u32 * 64 + 63) % 256) as u8, 7));
}

#[test]
fn default_room_is_empty() {
    let room = Room::default();
    assert_eq!(room.width(), 0);
    assert_eq!(room.height(), 0);
    assert_eq!(room.tile_at(0, 0), None);
}
