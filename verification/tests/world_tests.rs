//! Tests of the component store, the movement systems and the frame
//! driver.

use rogue_core::components::{Color, Position, Renderable, GLYPH_AT};
use rogue_core::constants::MAP_CELLS;
use rogue_core::rooms::{new_map_test, TileType};
use rogue_core::systems::{try_move_player, KeyCode, LeftWalker, State};
use rogue_core::world::{Entity, World};

fn open_map() -> Vec<TileType> {
    vec![TileType::Floor; MAP_CELLS]
}

fn world_with_player(x: i32, y: i32) -> (World, Entity) {
    let mut world = World::new();
    let e = world.create_entity();
    world.set_position(e, Position { x, y });
    world.set_player_tag(e);
    (world, e)
}

fn world_with_mover(x: i32, y: i32) -> (World, Entity) {
    let mut world = World::new();
    let e = world.create_entity();
    world.set_position(e, Position { x, y });
    world.set_mover_tag(e);
    (world, e)
}

#[test]
fn fresh_entity_has_no_components() {
    let mut world = World::new();
    assert_eq!(world.entity_count(), 0);
    let e = world.create_entity();
    assert_eq!(world.entity_count(), 1);
    assert_eq!(world.get_position(e), None);
    assert_eq!(world.get_renderable(e), None);
    assert!(!world.has_player_tag(e));
    assert!(!world.has_mover_tag(e));
}

#[test]
fn unknown_entity_reads_as_empty() {
    let world = World::new();
    let ghost_entity = Entity { id: 7 };
    assert_eq!(world.get_position(ghost_entity), None);
    assert!(!world.has_player_tag(ghost_entity));
}

#[test]
fn attached_components_read_back() {
    let mut world = World::new();
    let e = world.create_entity();
    world.set_position(e, Position { x: 20, y: 30 });
    world.set_renderable(e, Renderable { glyph: GLYPH_AT, fg: Color::Red, bg: Color::Black });
    world.set_player_tag(e);
    assert_eq!(world.get_position(e), Some(Position { x: 20, y: 30 }));
    assert_eq!(
        world.get_renderable(e),
        Some(Renderable { glyph: GLYPH_AT, fg: Color::Red, bg: Color::Black })
    );
    assert!(world.has_player_tag(e));
    assert!(!world.has_mover_tag(e));
}

#[test]
fn player_blocked_by_wall() {
    let map = new_map_test();
    let (mut world, e) = world_with_player(1, 1);
    try_move_player(-1, 0, &mut world, &map);
    assert_eq!(world.get_position(e), Some(Position { x: 1, y: 1 }));
}

#[test]
fn player_moves_onto_floor() {
    let map = new_map_test();
    let (mut world, e) = world_with_player(1, 1);
    try_move_player(1, 0, &mut world, &map);
    assert_eq!(world.get_position(e), Some(Position { x: 2, y: 1 }));
}

#[test]
fn player_clamped_at_edge_of_open_map() {
    let map = open_map();
    let (mut world, e) = world_with_player(0, 5);
    try_move_player(-1, 0, &mut world, &map);
    assert_eq!(world.get_position(e), Some(Position { x: 0, y: 5 }));
}

#[test]
fn untagged_entity_ignores_player_input() {
    let map = open_map();
    let mut world = World::new();
    let e = world.create_entity();
    world.set_position(e, Position { x: 10, y: 10 });
    try_move_player(1, 0, &mut world, &map);
    assert_eq!(world.get_position(e), Some(Position { x: 10, y: 10 }));
}

#[test]
fn mover_at_west_edge_wraps() {
    let (mut world, e) = world_with_mover(0, 7);
    let mut lw = LeftWalker {};
    lw.run(&mut world);
    assert_eq!(world.get_position(e), Some(Position { x: 79, y: 7 }));
}

#[test]
fn mover_drifts_one_cell_left() {
    let (mut world, e) = world_with_mover(5, 7);
    let mut lw = LeftWalker {};
    lw.run(&mut world);
    assert_eq!(world.get_position(e), Some(Position { x: 4, y: 7 }));
}

#[test]
fn mover_drifts_through_walls() {
    let (mut world, e) = world_with_mover(1, 1);
    let mut lw = LeftWalker {};
    lw.run(&mut world);
    assert_eq!(world.get_position(e), Some(Position { x: 0, y: 1 }));
}

#[test]
fn tick_runs_player_phase_then_mover_phase() {
    let mut world = World::new();
    let e = world.create_entity();
    world.set_position(e, Position { x: 5, y: 5 });
    world.set_player_tag(e);
    world.set_mover_tag(e);
    let mut state = State { ecs: world, map: open_map() };
    state.tick(Some(KeyCode::Right));
    // Player phase moves (5, 5) to (6, 5); the mover phase then drifts
    // it back to (5, 5).
    assert_eq!(state.ecs.get_position(e), Some(Position { x: 5, y: 5 }));
}

#[test]
fn tick_without_key_only_moves_movers() {
    let map = new_map_test();
    let mut world = World::new();
    let p = world.create_entity();
    world.set_position(p, Position { x: 3, y: 3 });
    world.set_player_tag(p);
    let m = world.create_entity();
    world.set_position(m, Position { x: 10, y: 10 });
    world.set_mover_tag(m);
    let mut state = State { ecs: world, map };
    state.tick(None);
    assert_eq!(state.ecs.get_position(p), Some(Position { x: 3, y: 3 }));
    assert_eq!(state.ecs.get_position(m), Some(Position { x: 9, y: 10 }));
}

#[test]
fn tick_ignores_non_directional_key() {
    let map = new_map_test();
    let (world, e) = world_with_player(3, 3);
    let mut state = State { ecs: world, map };
    state.tick(Some(KeyCode::Other));
    assert_eq!(state.ecs.get_position(e), Some(Position { x: 3, y: 3 }));
}

#[test]
fn tick_emits_terrain_before_entities() {
    let map = new_map_test();
    let mut world = World::new();
    let e = world.create_entity();
    world.set_position(e, Position { x: 20, y: 30 });
    world.set_renderable(e, Renderable { glyph: GLYPH_AT, fg: Color::Red, bg: Color::Black });
    let mut state = State { ecs: world, map };
    let draws = state.tick(None);
    assert_eq!(draws.len(), MAP_CELLS + 1);
    for (i, cmd) in draws.iter().take(MAP_CELLS).enumerate() {
        let (x, y) = rogue_core::utils::idx_xy(i);
        assert_eq!((cmd.x, cmd.y), (x, y));
        assert!(
            cmd.glyph == rogue_core::components::GLYPH_WALL
                || cmd.glyph == rogue_core::components::GLYPH_FLOOR
        );
    }
    let last = draws[MAP_CELLS];
    assert_eq!((last.x, last.y), (20, 30));
    assert_eq!(last.glyph, GLYPH_AT);
    assert_eq!(last.fg, Color::Red);
}

#[test]
fn tick_leaves_map_and_renderables_untouched() {
    let map = new_map_test();
    let before = map.clone();
    let mut world = World::new();
    let e = world.create_entity();
    world.set_position(e, Position { x: 5, y: 5 });
    world.set_renderable(e, Renderable { glyph: GLYPH_AT, fg: Color::Yellow, bg: Color::Black });
    world.set_mover_tag(e);
    let mut state = State { ecs: world, map };
    state.tick(Some(KeyCode::Down));
    assert_eq!(state.map, before);
    assert_eq!(
        state.ecs.get_renderable(e),
        Some(Renderable { glyph: GLYPH_AT, fg: Color::Yellow, bg: Color::Black })
    );
    assert!(state.ecs.has_mover_tag(e));
}

#[test]
fn state_well_formedness_check() {
    let state = State { ecs: World::new(), map: new_map_test() };
    assert!(state.is_well_formed());
    let broken = State { ecs: World::new(), map: vec![TileType::Wall; 10] };
    assert!(!broken.is_well_formed());
}
