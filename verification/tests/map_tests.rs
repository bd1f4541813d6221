//! Tests of the grid index and the map generator.

use rogue_core::constants::{MAP_CELLS, SCREEN_HEIGHT, SCREEN_WIDTH};
use rogue_core::geometry::Rect;
use rogue_core::rooms::{
    apply_horizontal_tunnel, apply_room_to_map, apply_vertical_tunnel, draw_map, new_map_test,
    TileType,
};
use rogue_core::utils::{idx_xy, xy_idx};

#[test]
fn index_round_trip_samples() {
    assert_eq!(xy_idx(0, 0), 0);
    assert_eq!(xy_idx(79, 49), 3999);
    assert_eq!(xy_idx(5, 7), 7 * 80 + 5);
    assert_eq!(idx_xy(0), (0, 0));
    assert_eq!(idx_xy(3999), (79, 49));
    assert_eq!(idx_xy(1234), (34, 15));
    for x in 0..SCREEN_WIDTH {
        for y in 0..SCREEN_HEIGHT {
            assert_eq!(idx_xy(xy_idx(x, y)), (x, y));
        }
    }
}

#[test]
fn bordered_map_has_wall_ring_and_floor_interior() {
    let map = new_map_test();
    assert_eq!(map.len(), MAP_CELLS);
    for x in 0..SCREEN_WIDTH {
        for y in 0..SCREEN_HEIGHT {
            let expected = if x == 0 || x == 79 || y == 0 || y == 49 {
                TileType::Wall
            } else {
                TileType::Floor
            };
            assert_eq!(map[xy_idx(x, y)], expected);
        }
    }
}

#[test]
fn rect_constructor_rejects_degenerate_geometry() {
    assert_eq!(Rect::new(5, 5, 0, 3), None);
    assert_eq!(Rect::new(5, 5, 3, 0), None);
    assert_eq!(Rect::new(5, 5, -1, 4), None);
    let r = Rect::new(20, 15, 10, 15).unwrap();
    assert_eq!(r, Rect { x1: 20, y1: 15, x2: 30, y2: 30 });
}

#[test]
fn room_carve_covers_interior_and_nothing_else() {
    let mut map = vec![TileType::Wall; MAP_CELLS];
    let room = Rect::new(20, 15, 10, 15).unwrap();
    assert_eq!(room, Rect { x1: 20, y1: 15, x2: 30, y2: 30 });
    apply_room_to_map(&room, &mut map);
    assert_eq!(map.len(), MAP_CELLS);
    for x in 0..SCREEN_WIDTH {
        for y in 0..SCREEN_HEIGHT {
            let carved = 20 < x && x <= 30 && 15 < y && y <= 30;
            let expected = if carved { TileType::Floor } else { TileType::Wall };
            assert_eq!(map[xy_idx(x, y)], expected, "cell ({}, {})", x, y);
        }
    }
}

#[test]
fn room_carve_is_idempotent() {
    let mut once = vec![TileType::Wall; MAP_CELLS];
    let room = Rect::new(20, 15, 10, 15).unwrap();
    apply_room_to_map(&room, &mut once);
    let mut twice = once.clone();
    apply_room_to_map(&room, &mut twice);
    assert_eq!(once, twice);
}

#[test]
fn horizontal_tunnel_skips_index_zero() {
    let mut map = vec![TileType::Wall; MAP_CELLS];
    apply_horizontal_tunnel(&mut map, 0, 5, 0);
    assert_eq!(map[0], TileType::Wall);
    for i in 1..=5 {
        assert_eq!(map[i], TileType::Floor);
    }
    for i in 6..MAP_CELLS {
        assert_eq!(map[i], TileType::Wall);
    }
}

#[test]
fn horizontal_tunnel_skips_indices_beyond_map_end() {
    let mut map = vec![TileType::Wall; MAP_CELLS];
    apply_horizontal_tunnel(&mut map, 75, 90, 49);
    assert_eq!(map.len(), MAP_CELLS);
    for x in 75..=79 {
        assert_eq!(map[xy_idx(x, 49)], TileType::Floor);
    }
    let floors = map.iter().filter(|t| **t == TileType::Floor).count();
    assert_eq!(floors, 5);
}

#[test]
fn vertical_tunnel_carves_column() {
    let mut map = vec![TileType::Wall; MAP_CELLS];
    apply_vertical_tunnel(&mut map, 10, 5, 8);
    for y in 5..=8 {
        assert_eq!(map[xy_idx(10, y)], TileType::Floor);
    }
    let floors = map.iter().filter(|t| **t == TileType::Floor).count();
    assert_eq!(floors, 4);
}

#[test]
fn vertical_tunnel_skips_indices_outside_map() {
    let mut map = vec![TileType::Wall; MAP_CELLS];
    apply_vertical_tunnel(&mut map, 0, -3, 60);
    for y in 1..SCREEN_HEIGHT {
        assert_eq!(map[xy_idx(0, y)], TileType::Floor);
    }
    assert_eq!(map[0], TileType::Wall);
    let floors = map.iter().filter(|t| **t == TileType::Floor).count();
    assert_eq!(floors, 49);
}

#[test]
fn rooms_policy_carves_rooms_and_connects_centers() {
    let r1 = Rect::new(5, 5, 10, 10).unwrap();
    let r2 = Rect::new(30, 20, 10, 10).unwrap();
    assert_eq!(r1.center(), (10, 10));
    assert_eq!(r2.center(), (35, 25));
    let map = rogue_core::rooms::new_map_with_rooms(&vec![r1, r2]);
    assert_eq!(map.len(), MAP_CELLS);
    // Interiors of both rooms.
    assert_eq!(map[xy_idx(10, 10)], TileType::Floor);
    assert_eq!(map[xy_idx(6, 6)], TileType::Floor);
    assert_eq!(map[xy_idx(35, 25)], TileType::Floor);
    assert_eq!(map[xy_idx(31, 21)], TileType::Floor);
    // The horizontal tunnel runs along the first center's row.
    assert_eq!(map[xy_idx(20, 10)], TileType::Floor);
    assert_eq!(map[xy_idx(35, 10)], TileType::Floor);
    // The vertical tunnel runs down the second center's column.
    assert_eq!(map[xy_idx(35, 17)], TileType::Floor);
    // Cells outside the rooms and tunnels stay wall.
    assert_eq!(map[xy_idx(0, 0)], TileType::Wall);
    assert_eq!(map[xy_idx(50, 40)], TileType::Wall);
    assert_eq!(map[xy_idx(5, 5)], TileType::Wall);
}

#[test]
fn rooms_policy_with_no_rooms_leaves_all_wall() {
    let map = rogue_core::rooms::new_map_with_rooms(&vec![]);
    assert_eq!(map.len(), MAP_CELLS);
    assert!(map.iter().all(|t| *t == TileType::Wall));
}

#[test]
fn rooms_and_corridors_map_matches_floor_plan() {
    let map = rogue_core::rooms::new_map_rooms_and_corridors();
    assert_eq!(map.len(), MAP_CELLS);
    for x in 0..SCREEN_WIDTH {
        for y in 0..SCREEN_HEIGHT {
            let in_room = 20 < x && x <= 30 && 15 < y && y <= 30;
            let in_tunnel = y == 15 && 30 <= x && x <= 40;
            let expected = if in_room || in_tunnel { TileType::Floor } else { TileType::Wall };
            assert_eq!(map[xy_idx(x, y)], expected, "cell ({}, {})", x, y);
        }
    }
}

#[test]
fn draw_map_emits_one_command_per_cell_in_index_order() {
    let map = new_map_test();
    let cmds = draw_map(&map);
    assert_eq!(cmds.len(), MAP_CELLS);
    for (i, cmd) in cmds.iter().enumerate() {
        let (x, y) = idx_xy(i);
        assert_eq!((cmd.x, cmd.y), (x, y));
        match map[i] {
            TileType::Wall => assert_eq!(cmd.glyph, rogue_core::components::GLYPH_WALL),
            TileType::Floor => assert_eq!(cmd.glyph, rogue_core::components::GLYPH_FLOOR),
        }
    }
}
