//! The per-tick logic: player movement with collision against the tile
//! map, the autonomous left-walker movement, and the frame driver that
//! sequences input, the two systems and render-data extraction.

use vstd::prelude::*;

use crate::components::{DrawCmd, Position, Renderable};
use crate::constants::{MAP_CELLS, SCREEN_HEIGHT, SCREEN_WIDTH};
use crate::rooms::{draw_map, terrain_draws, tile_draw, TileType};
use crate::utils::{flat_index, in_bounds};
use crate::world::{Entity, World};

verus! {

/// A directional key reported by the input backend, or `Other` for any
/// key without movement meaning. "No key held" is `None` at the caller.
#[derive(Clone, Copy, PartialEq, Eq, Structural, Debug)]
pub enum KeyCode {
    Left,
    Right,
    Up,
    Down,
    Other,
}

/// The movement delta a key press decodes to, if any.
pub open spec fn key_delta(key: Option<KeyCode>) -> Option<(int, int)> {
    match key {
        Some(KeyCode::Left) => Some((-1int, 0int)),
        Some(KeyCode::Right) => Some((1int, 0int)),
        Some(KeyCode::Up) => Some((0int, -1int)),
        Some(KeyCode::Down) => Some((0int, 1int)),
        _ => None,
    }
}

/// Whether `(dx, dy)` is one of the four cardinal unit moves.
pub open spec fn cardinal(dx: int, dy: int) -> bool {
    ||| (dx == -1 && dy == 0)
    ||| (dx == 1 && dy == 0)
    ||| (dx == 0 && dy == -1)
    ||| (dx == 0 && dy == 1)
}

/// Where a player at `p` ends up when asked to move by `(dx, dy)` on
/// `map`: a candidate outside the grid is treated as blocked, a wall
/// candidate is rejected, and any other candidate is committed (the
/// clamp to the grid is the identity on an in-bounds candidate).
pub open spec fn player_dest(p: Position, dx: int, dy: int, map: Seq<TileType>) -> Position {
    let cx = p.x + dx;
    let cy = p.y + dy;
    if !in_bounds(cx, cy) {
        p
    } else if map[flat_index(cx, cy)] == TileType::Wall {
        p
    } else {
        Position { x: cx as i32, y: cy as i32 }
    }
}

/// The position column of one entity after the player-movement phase.
pub open spec fn player_phase_pos(
    p: Option<Position>,
    is_player: bool,
    dx: int,
    dy: int,
    map: Seq<TileType>,
) -> Option<Position> {
    match p {
        Some(pp) => if is_player {
            Some(player_dest(pp, dx, dy, map))
        } else {
            Some(pp)
        },
        None => None,
    }
}

/// Moves every player-tagged entity by the requested cardinal delta,
/// rejecting moves into walls or out of the grid. Every other component
/// is left untouched.
pub fn try_move_player(delta_x: i32, delta_y: i32, world: &mut World, map: &Vec<TileType>)
    requires
        old(world).wf(),
        map@.len() == MAP_CELLS,
        cardinal(delta_x as int, delta_y as int),
    ensures
        final(world).wf(),
        final(world).num_entities() == old(world).num_entities(),
        forall|e: int|
            0 <= e < old(world).num_entities() ==> final(world).pos_at(e) == player_phase_pos(
                old(world).pos_at(e),
                old(world).player_at(e),
                delta_x as int,
                delta_y as int,
                map@,
            ),
        forall|e: int|
            0 <= e < old(world).num_entities() ==> final(world).rend_at(e) == old(world).rend_at(e)
                && final(world).player_at(e) == old(world).player_at(e) && final(world).mover_at(e)
                == old(world).mover_at(e),
{
    let n = world.entity_count();
    let mut e: usize = 0;
    while e < n
        invariant
            world.wf(),
            n == world.num_entities() == old(world).num_entities(),
            e <= n,
            map@.len() == MAP_CELLS,
            cardinal(delta_x as int, delta_y as int),
            forall|j: int|
                0 <= j < e ==> world.pos_at(j) == player_phase_pos(
                    old(world).pos_at(j),
                    old(world).player_at(j),
                    delta_x as int,
                    delta_y as int,
                    map@,
                ),
            forall|j: int| e <= j < n ==> world.pos_at(j) == old(world).pos_at(j),
            forall|j: int|
                0 <= j < n ==> world.rend_at(j) == old(world).rend_at(j) && world.player_at(j)
                    == old(world).player_at(j) && world.mover_at(j) == old(world).mover_at(j),
        decreases n - e,
    {
        let ent = Entity { id: e };
        if world.has_player_tag(ent) {
            if let Some(pos) = world.get_position(ent) {
                let cx: i64 = pos.x as i64 + delta_x as i64;
                let cy: i64 = pos.y as i64 + delta_y as i64;
                if 0 <= cx && cx < SCREEN_WIDTH as i64 && 0 <= cy && cy < SCREEN_HEIGHT as i64 {
                    let idx = crate::utils::xy_idx(cx as i32, cy as i32);
                    if map[idx] != TileType::Wall {
                        let cxi = cx as i32;
                        let cyi = cy as i32;
                        let nx = if cxi > SCREEN_WIDTH - 1 {
                            SCREEN_WIDTH - 1
                        } else if cxi < 0 {
                            0
                        } else {
                            cxi
                        };
                        let ny = if cyi > SCREEN_HEIGHT - 1 {
                            SCREEN_HEIGHT - 1
                        } else if cyi < 0 {
                            0
                        } else {
                            cyi
                        };
                        world.set_position(ent, Position { x: nx, y: ny });
                    }
                }
            }
        }
        e = e + 1;
    }
}

/// Where a left-walking mover at `p` ends up after one tick: one cell to
/// the left, wrapping to the east edge when its column would drop below
/// zero. The tile map is deliberately ignored for this entity class.
pub open spec fn mover_step(p: Position) -> Position {
    if p.x <= 0 {
        Position { x: (SCREEN_WIDTH - 1) as i32, y: p.y }
    } else {
        Position { x: (p.x - 1) as i32, y: p.y }
    }
}

/// The position column of one entity after the autonomous-mover phase.
pub open spec fn mover_phase_pos(p: Option<Position>, is_mover: bool) -> Option<Position> {
    match p {
        Some(pp) => if is_mover {
            Some(mover_step(pp))
        } else {
            Some(pp)
        },
        None => None,
    }
}

/// The autonomous-movement system: drifts every mover-tagged entity one
/// cell to the left each tick, wrapping at the west edge.
pub struct LeftWalker;

impl LeftWalker {
    /// Runs the left-walker rule over every mover-tagged entity. Every
    /// other component is left untouched.
    pub fn run(&mut self, world: &mut World)
        requires
            old(world).wf(),
        ensures
            final(world).wf(),
            final(world).num_entities() == old(world).num_entities(),
            forall|e: int|
                0 <= e < old(world).num_entities() ==> final(world).pos_at(e) == mover_phase_pos(
                    old(world).pos_at(e),
                    old(world).mover_at(e),
                ),
            forall|e: int|
                0 <= e < old(world).num_entities() ==> final(world).rend_at(e) == old(world).rend_at(e) && final(world).player_at(e) == old(world).player_at(e) && final(world).mover_at(e) == old(world).mover_at(e),
    {
        let n = world.entity_count();
        let mut e: usize = 0;
        while e < n
            invariant
                world.wf(),
                n == world.num_entities() == old(world).num_entities(),
                e <= n,
                forall|j: int|
                    0 <= j < e ==> world.pos_at(j) == mover_phase_pos(
                        old(world).pos_at(j),
                        old(world).mover_at(j),
                    ),
                forall|j: int| e <= j < n ==> world.pos_at(j) == old(world).pos_at(j),
                forall|j: int|
                    0 <= j < n ==> world.rend_at(j) == old(world).rend_at(j) && world.player_at(j)
                        == old(world).player_at(j) && world.mover_at(j) == old(world).mover_at(j),
            decreases n - e,
        {
            let ent = Entity { id: e };
            if world.has_mover_tag(ent) {
                if let Some(pos) = world.get_position(ent) {
                    let nx = if pos.x <= 0 {
                        SCREEN_WIDTH - 1
                    } else {
                        pos.x - 1
                    };
                    world.set_position(ent, Position { x: nx, y: pos.y });
                }
            }
            e = e + 1;
        }
    }
}

/// The position column of one entity after the input-decode step and the
/// player-movement phase: a directional key moves the players, any other
/// input (or none) leaves every position alone.
pub open spec fn input_phase_pos(
    p: Option<Position>,
    is_player: bool,
    key: Option<KeyCode>,
    map: Seq<TileType>,
) -> Option<Position> {
    match key_delta(key) {
        Some(d) => player_phase_pos(p, is_player, d.0, d.1, map),
        None => p,
    }
}

/// The whole game state the frame driver owns: the component store and
/// the tile map, generated once at startup and immutable afterwards.
pub struct State {
    pub ecs: World,
    pub map: Vec<TileType>,
}

/// Decodes at most one directional intent from the key press and applies
/// the player-movement rule. A non-directional key, or none, changes
/// nothing.
pub fn player_input(gs: &mut State, key: Option<KeyCode>)
    requires
        old(gs).wf(),
    ensures
        final(gs).wf(),
        final(gs).map == old(gs).map,
        final(gs).ecs.num_entities() == old(gs).ecs.num_entities(),
        forall|e: int|
            0 <= e < old(gs).ecs.num_entities() ==> final(gs).ecs.pos_at(e) == input_phase_pos(
                old(gs).ecs.pos_at(e),
                old(gs).ecs.player_at(e),
                key,
                old(gs).map@,
            ),
        forall|e: int|
            0 <= e < old(gs).ecs.num_entities() ==> final(gs).ecs.rend_at(e) == old(gs).ecs.rend_at(e) && final(gs).ecs.player_at(e) == old(gs).ecs.player_at(e) && final(gs).ecs.mover_at(e) == old(gs).ecs.mover_at(e),
{
    match key {
        None => {},
        Some(k) => match k {
            KeyCode::Left => try_move_player(-1, 0, &mut gs.ecs, &gs.map),
            KeyCode::Right => try_move_player(1, 0, &mut gs.ecs, &gs.map),
            KeyCode::Up => try_move_player(0, -1, &mut gs.ecs, &gs.map),
            KeyCode::Down => try_move_player(0, 1, &mut gs.ecs, &gs.map),
            KeyCode::Other => {},
        },
    }
}

/// The draw command of one renderable entity: its position and its glyph
/// and colors, as created.
pub open spec fn entity_draw(p: Position, r: Renderable) -> DrawCmd {
    DrawCmd { x: p.x, y: p.y, glyph: r.glyph, fg: r.fg, bg: r.bg }
}

/// The draw commands of the first `n` entities that have both a position
/// and a renderable, in entity order.
pub open spec fn entity_draws_upto(w: World, n: int) -> Seq<DrawCmd>
    decreases n,
{
    if n <= 0 {
        Seq::empty()
    } else {
        entity_draws_upto(w, n - 1) + match (w.pos_at(n - 1), w.rend_at(n - 1)) {
            (Some(p), Some(r)) => seq![entity_draw(p, r)],
            _ => Seq::<DrawCmd>::empty(),
        }
    }
}

/// The entity half of a frame's draw sequence: one command per entity
/// with both a position and a renderable, in entity order.
pub open spec fn entity_draws(w: World) -> Seq<DrawCmd> {
    entity_draws_upto(w, w.num_entities() as int)
}

/// The position column of one entity after a whole tick: the player phase
/// first, then the autonomous-mover phase.
pub open spec fn tick_pos(
    p: Option<Position>,
    is_player: bool,
    is_mover: bool,
    key: Option<KeyCode>,
    map: Seq<TileType>,
) -> Option<Position> {
    mover_phase_pos(input_phase_pos(p, is_player, key, map), is_mover)
}

impl State {
    /// Well-formedness: the store's columns agree and the map has one
    /// tile per grid cell.
    pub open spec fn wf(self) -> bool {
        self.ecs.wf() && self.map@.len() == MAP_CELLS
    }

    /// Decides well-formedness at run time, for callers outside the
    /// verified core that must test it before calling in.
    pub fn is_well_formed(&self) -> (b: bool)
        ensures
            b == self.wf(),
    {
        self.ecs.is_well_formed() && self.map.len() == MAP_CELLS
    }

    /// Runs the autonomous systems of one tick: the left-walker pass.
    pub fn run_systems(&mut self)
        requires
            old(self).wf(),
        ensures
            final(self).wf(),
            final(self).map == old(self).map,
            final(self).ecs.num_entities() == old(self).ecs.num_entities(),
            forall|e: int|
                0 <= e < old(self).ecs.num_entities() ==> final(self).ecs.pos_at(e)
                    == mover_phase_pos(old(self).ecs.pos_at(e), old(self).ecs.mover_at(e)),
            forall|e: int|
                0 <= e < old(self).ecs.num_entities() ==> final(self).ecs.rend_at(e) == old(self).ecs.rend_at(e) && final(self).ecs.player_at(e) == old(self).ecs.player_at(e)
                    && final(self).ecs.mover_at(e) == old(self).ecs.mover_at(e),
    {
        let mut lw = LeftWalker {};
        lw.run(&mut self.ecs);
    }

    /// One full tick: decode input and move the players, run the
    /// autonomous movers, then extract the frame's draw sequence —
    /// every terrain cell first, then every renderable entity, so
    /// entities are drawn on top of terrain. Only positions change;
    /// the map, the renderables and the tags are untouched.
    pub fn tick(&mut self, key: Option<KeyCode>) -> (draws: Vec<DrawCmd>)
        requires
            old(self).wf(),
        ensures
            final(self).wf(),
            final(self).map == old(self).map,
            final(self).ecs.num_entities() == old(self).ecs.num_entities(),
            forall|e: int|
                0 <= e < old(self).ecs.num_entities() ==> final(self).ecs.pos_at(e) == tick_pos(
                    old(self).ecs.pos_at(e),
                    old(self).ecs.player_at(e),
                    old(self).ecs.mover_at(e),
                    key,
                    old(self).map@,
                ),
            forall|e: int|
                0 <= e < old(self).ecs.num_entities() ==> final(self).ecs.rend_at(e) == old(self).ecs.rend_at(e) && final(self).ecs.player_at(e) == old(self).ecs.player_at(e)
                    && final(self).ecs.mover_at(e) == old(self).ecs.mover_at(e),
            draws@ == terrain_draws(old(self).map@) + entity_draws(final(self).ecs),
    {
        player_input(self, key);
        self.run_systems();
        let mut draws = draw_map(&self.map);
        let n = self.ecs.entity_count();
        let mut e: usize = 0;
        while e < n
            invariant
                self.ecs.wf(),
                n == self.ecs.num_entities(),
                self.map@.len() == MAP_CELLS,
                e <= n,
                draws@ == terrain_draws(self.map@) + entity_draws_upto(self.ecs, e as int),
            decreases n - e,
        {
            let ent = Entity { id: e };
            let p = self.ecs.get_position(ent);
            let r = self.ecs.get_renderable(ent);
            match (p, r) {
                (Some(pp), Some(rr)) => {
                    draws.push(
                        DrawCmd { x: pp.x, y: pp.y, glyph: rr.glyph, fg: rr.fg, bg: rr.bg },
                    );
                },
                _ => {},
            }
            proof {
                assert(draws@ =~= terrain_draws(self.map@) + entity_draws_upto(
                    self.ecs,
                    e + 1 as int,
                ));
            }
            e = e + 1;
        }
        draws
    }
}

/// Render order: within one frame's draw sequence, the terrain commands
/// stand first — the command at any index below the map's cell count is
/// the terrain command of that very cell — and what follows them is
/// exactly the sequence of entity commands.
pub proof fn lemma_render_order(map: Seq<TileType>, w: World)
    ensures
        forall|i: int|
            0 <= i < map.len() ==> (terrain_draws(map) + entity_draws(w))[i] == tile_draw(
                i,
                map[i],
            ),
        (terrain_draws(map) + entity_draws(w)).skip(map.len() as int) == entity_draws(w),
{
    assert((terrain_draws(map) + entity_draws(w)).skip(map.len() as int) =~= entity_draws(w));
}

} // verus!
