//! The dungeon map: a flat, row-major grid of tile kinds, the carving
//! primitives that turn wall cells to floor, the two generation strategies,
//! and the terrain half of a frame's draw sequence.

use vstd::prelude::*;

use crate::components::{Color, DrawCmd, GLYPH_FLOOR, GLYPH_WALL};
use crate::constants::{MAP_CELLS, SCREEN_HEIGHT, SCREEN_WIDTH};
use crate::geometry::Rect;
use crate::utils::{col_of, flat_index, idx_xy, in_bounds, row_of, xy_idx};

verus! {

/// The kind of one grid cell.
#[derive(PartialEq, Eq, Structural, Copy, Clone, Debug)]
pub enum TileType {
    Wall,
    Floor,
}

/// The cells a room carve turns to floor: the interior `(x1, x2] x (y1, y2]`
/// of the rectangle.
pub open spec fn room_covers(room: Rect, x: int, y: int) -> bool {
    room.x1 < x <= room.x2 && room.y1 < y <= room.y2
}

/// Turns every cell of the room's interior to floor and leaves every other
/// cell as it was. The room must lie inside the grid.
pub fn apply_room_to_map(room: &Rect, map: &mut Vec<TileType>)
    requires
        old(map)@.len() == MAP_CELLS,
        room.wf(),
        0 <= room.x1,
        room.x2 < SCREEN_WIDTH,
        0 <= room.y1,
        room.y2 < SCREEN_HEIGHT,
    ensures
        final(map)@.len() == MAP_CELLS,
        forall|x: int, y: int|
            in_bounds(x, y) ==> final(map)@[#[trigger] flat_index(x, y)] == (if room_covers(
                *room,
                x,
                y,
            ) {
                TileType::Floor
            } else {
                old(map)@[flat_index(x, y)]
            }),
{
    let mut y: i32 = room.y1 + 1;
    while y <= room.y2
        invariant
            map@.len() == MAP_CELLS,
            room.wf(),
            0 <= room.x1,
            room.x2 < SCREEN_WIDTH,
            0 <= room.y1,
            room.y2 < SCREEN_HEIGHT,
            room.y1 + 1 <= y <= room.y2 + 1,
            forall|xx: int, yy: int|
                in_bounds(xx, yy) ==> map@[#[trigger] flat_index(xx, yy)] == (if room.x1 < xx
                    <= room.x2 && room.y1 < yy < y {
                    TileType::Floor
                } else {
                    old(map)@[flat_index(xx, yy)]
                }),
        decreases room.y2 + 1 - y,
    {
        let mut x: i32 = room.x1 + 1;
        while x <= room.x2
            invariant
                map@.len() == MAP_CELLS,
                room.wf(),
                0 <= room.x1,
                room.x2 < SCREEN_WIDTH,
                0 <= room.y1,
                room.y2 < SCREEN_HEIGHT,
                room.y1 + 1 <= y <= room.y2,
                room.x1 + 1 <= x <= room.x2 + 1,
                forall|xx: int, yy: int|
                    in_bounds(xx, yy) ==> map@[#[trigger] flat_index(xx, yy)] == (if (room.x1 < xx
                        <= room.x2 && room.y1 < yy < y) || (yy == y && room.x1 < xx < x) {
                        TileType::Floor
                    } else {
                        old(map)@[flat_index(xx, yy)]
                    }),
            decreases room.x2 + 1 - x,
        {
            let idx = xy_idx(x, y);
            map[idx] = TileType::Floor;
            x = x + 1;
        }
        y = y + 1;
    }
}

/// The cells a horizontal tunnel writes: each linear index `y * width + x`
/// for `x` in the inclusive range, skipping any index that falls at 0 or at
/// or beyond the map's total cell count.
pub open spec fn htunnel_covers(x1: int, x2: int, y: int, i: int) -> bool {
    &&& 0 < i < MAP_CELLS
    &&& vstd::math::min(x1, x2) <= i - y * (SCREEN_WIDTH as int) <= vstd::math::max(x1, x2)
}

/// Carves a horizontal tunnel at row `y` between columns `x1` and `x2`
/// (either order), guarding every write by its computed linear index: an
/// index at 0 or outside the map is skipped, never written.
pub fn apply_horizontal_tunnel(map: &mut Vec<TileType>, x1: i32, x2: i32, y: i32)
    requires
        old(map)@.len() == MAP_CELLS,
    ensures
        final(map)@.len() == MAP_CELLS,
        forall|i: int|
            0 <= i < MAP_CELLS ==> final(map)@[i] == (if htunnel_covers(
                x1 as int,
                x2 as int,
                y as int,
                i,
            ) {
                TileType::Floor
            } else {
                old(map)@[i]
            }),
{
    let lo: i64 = if x1 < x2 {
        x1 as i64
    } else {
        x2 as i64
    };
    let hi: i64 = if x1 < x2 {
        x2 as i64
    } else {
        x1 as i64
    };
    let mut x: i64 = lo;
    while x <= hi
        invariant
            map@.len() == MAP_CELLS,
            lo == vstd::math::min(x1 as int, x2 as int),
            hi == vstd::math::max(x1 as int, x2 as int),
            lo <= x <= hi + 1,
            forall|i: int|
                0 <= i < MAP_CELLS ==> map@[i] == (if 0 < i && lo <= i - (y as int) * (
                SCREEN_WIDTH as int) < x {
                    TileType::Floor
                } else {
                    old(map)@[i]
                }),
        decreases hi + 1 - x,
    {
        let v: i64 = (y as i64) * 80 + x;
        if v > 0 && v < MAP_CELLS as i64 {
            let idx: usize = v as usize;
            map[idx] = TileType::Floor;
        }
        x = x + 1;
    }
}

/// The cells a vertical tunnel writes: each linear index `y * width + x`
/// for `y` in the inclusive range, under the same index guard as the
/// horizontal tunnel.
pub open spec fn vtunnel_covers(x: int, y1: int, y2: int, i: int) -> bool {
    &&& 0 < i < MAP_CELLS
    &&& (i - x) % (SCREEN_WIDTH as int) == 0
    &&& vstd::math::min(y1, y2) <= (i - x) / (SCREEN_WIDTH as int) <= vstd::math::max(y1, y2)
}

/// Carves a vertical tunnel at column `x` between rows `y1` and `y2`
/// (either order), guarding every write by its computed linear index as the
/// horizontal tunnel does.
pub fn apply_vertical_tunnel(map: &mut Vec<TileType>, x: i32, y1: i32, y2: i32)
    requires
        old(map)@.len() == MAP_CELLS,
    ensures
        final(map)@.len() == MAP_CELLS,
        forall|i: int|
            0 <= i < MAP_CELLS ==> final(map)@[i] == (if vtunnel_covers(
                x as int,
                y1 as int,
                y2 as int,
                i,
            ) {
                TileType::Floor
            } else {
                old(map)@[i]
            }),
{
    let lo: i64 = if y1 < y2 {
        y1 as i64
    } else {
        y2 as i64
    };
    let hi: i64 = if y1 < y2 {
        y2 as i64
    } else {
        y1 as i64
    };
    let mut y: i64 = lo;
    while y <= hi
        invariant
            map@.len() == MAP_CELLS,
            lo == vstd::math::min(y1 as int, y2 as int),
            hi == vstd::math::max(y1 as int, y2 as int),
            lo <= y <= hi + 1,
            forall|i: int|
                0 <= i < MAP_CELLS ==> map@[i] == (if 0 < i && (i - x as int) % (SCREEN_WIDTH as int)
                    == 0 && lo <= (i - x as int) / (SCREEN_WIDTH as int) < y {
                    TileType::Floor
                } else {
                    old(map)@[i]
                }),
        decreases hi + 1 - y,
    {
        let v: i64 = y * 80 + (x as i64);
        if v > 0 && v < MAP_CELLS as i64 {
            let idx: usize = v as usize;
            proof {
                vstd::arithmetic::div_mod::lemma_fundamental_div_mod_converse(
                    idx as int - x as int,
                    SCREEN_WIDTH as int,
                    y as int,
                    0,
                );
            }
            map[idx] = TileType::Floor;
        }
        proof {
            assert forall|i: int| 0 <= i < MAP_CELLS implies (i - x as int) == (SCREEN_WIDTH as int)
                * ((i - x as int) / (SCREEN_WIDTH as int)) + (#[trigger] ((i - x as int) % (
            SCREEN_WIDTH as int))) && 0 <= (i - x as int) % (SCREEN_WIDTH as int) < (
            SCREEN_WIDTH as int) by {
                vstd::arithmetic::div_mod::lemma_fundamental_div_mod(
                    i - x as int,
                    SCREEN_WIDTH as int,
                );
                vstd::arithmetic::div_mod::lemma_mod_bound(i - x as int, SCREEN_WIDTH as int);
            }
        }
        y = y + 1;
    }
}

/// Whether `(x, y)` lies on the outermost ring of the grid.
pub open spec fn on_border(x: int, y: int) -> bool {
    x == 0 || x == SCREEN_WIDTH - 1 || y == 0 || y == SCREEN_HEIGHT - 1
}

/// The bordered-floor strategy: one open room the size of the whole grid.
/// Every cell is floor except the outermost ring, which is wall.
pub fn new_map_test() -> (map: Vec<TileType>)
    ensures
        map@.len() == MAP_CELLS,
        forall|x: int, y: int|
            in_bounds(x, y) ==> map@[#[trigger] flat_index(x, y)] == (if on_border(x, y) {
                TileType::Wall
            } else {
                TileType::Floor
            }),
{
    let mut map: Vec<TileType> = Vec::new();
    let mut i: usize = 0;
    while i < MAP_CELLS
        invariant
            map@.len() == i,
            i <= MAP_CELLS,
            forall|j: int| 0 <= j < i ==> map@[j] == TileType::Floor,
        decreases MAP_CELLS - i,
    {
        map.push(TileType::Floor);
        i = i + 1;
    }
    let mut x: i32 = 0;
    while x < SCREEN_WIDTH
        invariant
            map@.len() == MAP_CELLS,
            0 <= x <= SCREEN_WIDTH,
            forall|xx: int, yy: int|
                in_bounds(xx, yy) ==> map@[#[trigger] flat_index(xx, yy)] == (if (yy == 0 || yy
                    == SCREEN_HEIGHT - 1) && xx < x {
                    TileType::Wall
                } else {
                    TileType::Floor
                }),
        decreases SCREEN_WIDTH - x,
    {
        let top = xy_idx(x, 0);
        map[top] = TileType::Wall;
        let bottom = xy_idx(x, SCREEN_HEIGHT - 1);
        map[bottom] = TileType::Wall;
        x = x + 1;
    }
    let mut y: i32 = 0;
    while y < SCREEN_HEIGHT
        invariant
            map@.len() == MAP_CELLS,
            0 <= y <= SCREEN_HEIGHT,
            forall|xx: int, yy: int|
                in_bounds(xx, yy) ==> map@[#[trigger] flat_index(xx, yy)] == (if (yy == 0 || yy
                    == SCREEN_HEIGHT - 1) || ((xx == 0 || xx == SCREEN_WIDTH - 1) && yy < y) {
                    TileType::Wall
                } else {
                    TileType::Floor
                }),
        decreases SCREEN_HEIGHT - y,
    {
        let left = xy_idx(0, y);
        map[left] = TileType::Wall;
        let right = xy_idx(SCREEN_WIDTH - 1, y);
        map[right] = TileType::Wall;
        y = y + 1;
    }
    map
}

/// The floor plan of the starting dungeon: the interior of the one room
/// `(20, 30] x (15, 30]`, and the horizontal tunnel along row 15 between
/// columns 30 and 40.
pub open spec fn starting_floor(x: int, y: int) -> bool {
    (20 < x <= 30 && 15 < y <= 30) || (y == 15 && 30 <= x <= 40)
}

/// The rooms-and-corridors strategy: an all-wall grid with one carved room
/// and one horizontal tunnel joining the room to the east.
pub fn new_map_rooms_and_corridors() -> (map: Vec<TileType>)
    ensures
        map@.len() == MAP_CELLS,
        forall|x: int, y: int|
            in_bounds(x, y) ==> map@[#[trigger] flat_index(x, y)] == (if starting_floor(x, y) {
                TileType::Floor
            } else {
                TileType::Wall
            }),
{
    let mut map: Vec<TileType> = Vec::new();
    let mut i: usize = 0;
    while i < MAP_CELLS
        invariant
            map@.len() == i,
            i <= MAP_CELLS,
            forall|j: int| 0 <= j < i ==> map@[j] == TileType::Wall,
        decreases MAP_CELLS - i,
    {
        map.push(TileType::Wall);
        i = i + 1;
    }
    if let Some(room) = Rect::new(20, 15, 10, 15) {
        apply_room_to_map(&room, &mut map);
    }
    apply_horizontal_tunnel(&mut map, 30, 40, 15);
    map
}

/// One room carve as a whole-map transform, cell by cell.
pub open spec fn room_applied(room: Rect, m: Seq<TileType>) -> Seq<TileType> {
    Seq::new(
        m.len(),
        |i: int|
            if room_covers(room, col_of(i), row_of(i)) {
                TileType::Floor
            } else {
                m[i]
            },
    )
}

/// Carving a room is idempotent: carving the same room a second time
/// changes nothing.
pub proof fn lemma_room_carve_idempotent(room: Rect, m: Seq<TileType>)
    ensures
        room_applied(room, room_applied(room, m)) == room_applied(room, m),
{
    assert(room_applied(room, room_applied(room, m)) =~= room_applied(room, m));
}

/// One horizontal tunnel as a whole-map transform, cell by cell.
pub open spec fn htunnel_applied(x1: int, x2: int, y: int, m: Seq<TileType>) -> Seq<TileType> {
    Seq::new(
        m.len(),
        |i: int|
            if htunnel_covers(x1, x2, y, i) {
                TileType::Floor
            } else {
                m[i]
            },
    )
}

/// One vertical tunnel as a whole-map transform, cell by cell.
pub open spec fn vtunnel_applied(x: int, y1: int, y2: int, m: Seq<TileType>) -> Seq<TileType> {
    Seq::new(
        m.len(),
        |i: int|
            if vtunnel_covers(x, y1, y2, i) {
                TileType::Floor
            } else {
                m[i]
            },
    )
}

/// The midpoint of a room, rounded down: where the generation policy aims
/// tunnels.
pub open spec fn center_of(room: Rect) -> (int, int) {
    ((room.x1 + room.x2) / 2, (room.y1 + room.y2) / 2)
}

/// A room the carving primitives accept: well-formed and inside the grid.
pub open spec fn room_in_grid(room: Rect) -> bool {
    &&& room.wf()
    &&& 0 <= room.x1
    &&& room.x2 < SCREEN_WIDTH
    &&& 0 <= room.y1
    &&& room.y2 < SCREEN_HEIGHT
}

/// An all-wall grid, the blank slate of the rooms-and-corridors strategy.
pub open spec fn all_wall() -> Seq<TileType> {
    Seq::new(MAP_CELLS as nat, |i: int| TileType::Wall)
}

/// The map after carving an ordered sequence of rooms into `m`: each room
/// in turn, and each room after the first joined to its predecessor by a
/// horizontal tunnel at the predecessor's center row, then a vertical
/// tunnel at the new room's center column.
pub open spec fn rooms_carved(rooms: Seq<Rect>, m: Seq<TileType>) -> Seq<TileType>
    decreases rooms.len(),
{
    if rooms.len() == 0 {
        m
    } else {
        let prev = rooms_carved(rooms.drop_last(), m);
        let room = rooms.last();
        let carved = room_applied(room, prev);
        if rooms.len() == 1 {
            carved
        } else {
            let pc = center_of(rooms[rooms.len() - 2]);
            let nc = center_of(room);
            vtunnel_applied(nc.0, pc.1, nc.1, htunnel_applied(pc.0, nc.0, pc.1, carved))
        }
    }
}

/// The general rooms-and-corridors generator: carves the given rooms, in
/// order, into an all-wall grid, connecting each new room's center to the
/// previous room's center.
pub fn new_map_with_rooms(rooms: &Vec<Rect>) -> (map: Vec<TileType>)
    requires
        forall|k: int| 0 <= k < rooms@.len() ==> room_in_grid(#[trigger] rooms@[k]),
    ensures
        map@.len() == MAP_CELLS,
        map@ == rooms_carved(rooms@, all_wall()),
{
    let mut map: Vec<TileType> = Vec::new();
    let mut i: usize = 0;
    while i < MAP_CELLS
        invariant
            map@.len() == i,
            i <= MAP_CELLS,
            forall|j: int| 0 <= j < i ==> map@[j] == TileType::Wall,
        decreases MAP_CELLS - i,
    {
        map.push(TileType::Wall);
        i = i + 1;
    }
    proof {
        assert(map@ =~= all_wall());
    }
    let mut k: usize = 0;
    while k < rooms.len()
        invariant
            map@.len() == MAP_CELLS,
            k <= rooms@.len(),
            forall|k2: int| 0 <= k2 < rooms@.len() ==> room_in_grid(#[trigger] rooms@[k2]),
            map@ == rooms_carved(rooms@.take(k as int), all_wall()),
        decreases rooms@.len() - k,
    {
        let room = rooms[k];
        let ghost before_room = map@;
        apply_room_to_map(&room, &mut map);
        proof {
            assert forall|i2: int| 0 <= i2 < MAP_CELLS implies map@[i2] == room_applied(
                room,
                before_room,
            )[i2] by {
                crate::utils::lemma_flat_of_coord(i2);
            }
            assert(map@ =~= room_applied(room, before_room));
        }
        if k > 0 {
            let prior = rooms[k - 1];
            let (pcx, pcy) = prior.center();
            let (ncx, ncy) = room.center();
            let ghost before_h = map@;
            apply_horizontal_tunnel(&mut map, pcx, ncx, pcy);
            proof {
                assert(map@ =~= htunnel_applied(pcx as int, ncx as int, pcy as int, before_h));
            }
            let ghost before_v = map@;
            apply_vertical_tunnel(&mut map, ncx, pcy, ncy);
            proof {
                assert(map@ =~= vtunnel_applied(ncx as int, pcy as int, ncy as int, before_v));
            }
        }
        proof {
            assert(rooms@.take(k as int + 1).drop_last() =~= rooms@.take(k as int));
            assert(map@ =~= rooms_carved(rooms@.take(k as int + 1), all_wall()));
        }
        k = k + 1;
    }
    proof {
        assert(rooms@.take(rooms@.len() as int) =~= rooms@);
    }
    map
}

/// The draw command of one terrain cell: its coordinate, the glyph of its
/// tile kind, and the palette fixed for terrain.
pub open spec fn tile_draw(i: int, t: TileType) -> DrawCmd {
    match t {
        TileType::Floor => DrawCmd {
            x: col_of(i) as i32,
            y: row_of(i) as i32,
            glyph: GLYPH_FLOOR,
            fg: Color::Gray20,
            bg: Color::Black,
        },
        TileType::Wall => DrawCmd {
            x: col_of(i) as i32,
            y: row_of(i) as i32,
            glyph: GLYPH_WALL,
            fg: Color::Gray50,
            bg: Color::Black,
        },
    }
}

/// The terrain half of a frame's draw sequence: one command per map cell,
/// in index order.
pub open spec fn terrain_draws(map: Seq<TileType>) -> Seq<DrawCmd> {
    Seq::new(map.len(), |i: int| tile_draw(i, map[i]))
}

/// Emits the draw command of every map cell, in index order. The external
/// console performs the writes; this computes them.
pub fn draw_map(map: &Vec<TileType>) -> (cmds: Vec<DrawCmd>)
    requires
        map@.len() == MAP_CELLS,
    ensures
        cmds@ == terrain_draws(map@),
{
    let mut cmds: Vec<DrawCmd> = Vec::new();
    let mut i: usize = 0;
    while i < map.len()
        invariant
            map@.len() == MAP_CELLS,
            i <= MAP_CELLS,
            cmds@.len() == i,
            forall|j: int| 0 <= j < i ==> cmds@[j] == tile_draw(j, map@[j]),
        decreases MAP_CELLS - i,
    {
        let (x, y) = idx_xy(i);
        match map[i] {
            TileType::Floor => cmds.push(
                DrawCmd { x, y, glyph: GLYPH_FLOOR, fg: Color::Gray20, bg: Color::Black },
            ),
            TileType::Wall => cmds.push(
                DrawCmd { x, y, glyph: GLYPH_WALL, fg: Color::Gray50, bg: Color::Black },
            ),
        }
        i = i + 1;
    }
    proof {
        assert(cmds@ =~= terrain_draws(map@));
    }
    cmds
}

} // verus!
