//! The component data attached to entities, and the plain draw command the
//! frame driver hands to the external console.

use vstd::prelude::*;

verus! {

/// Glyph code of a floor cell: `'.'` in the console's character set.
pub const GLYPH_FLOOR: u8 = 46;

/// Glyph code of a wall cell: `'#'` in the console's character set.
pub const GLYPH_WALL: u8 = 35;

/// Glyph code of an actor: `'@'` in the console's character set.
pub const GLYPH_AT: u8 = 64;

/// An integer tile coordinate. One per entity that has it; mutated only by
/// the movement systems.
#[derive(Clone, Copy, PartialEq, Eq, Structural, Debug)]
pub struct Position {
    pub x: i32,
    pub y: i32,
}

/// A named color of the console palette. The exact RGB values are a
/// presentation concern of the backend; the core only asks that each name
/// stays stable across a run.
#[derive(Clone, Copy, PartialEq, Eq, Structural, Debug)]
pub enum Color {
    Black,
    Red,
    Yellow,
    Gray20,
    Gray50,
}

/// How an entity is drawn: a glyph code of the console's character set and
/// its foreground and background colors. Immutable after creation.
#[derive(Clone, Copy, PartialEq, Eq, Structural, Debug)]
pub struct Renderable {
    pub glyph: u8,
    pub fg: Color,
    pub bg: Color,
}

/// One cell write of a frame's draw sequence: set cell `(x, y)` to the
/// given glyph and colors. The external console consumes these in order.
#[derive(Clone, Copy, PartialEq, Eq, Structural, Debug)]
pub struct DrawCmd {
    pub x: i32,
    pub y: i32,
    pub glyph: u8,
    pub fg: Color,
    pub bg: Color,
}

} // verus!
