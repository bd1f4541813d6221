//! The component store: a typed table of columns keyed by entity identity.
//! Each entity owns at most one instance of each component kind; the tags
//! are per-entity flags. Entities are created at startup and never
//! destroyed.

use vstd::prelude::*;

use crate::components::{Position, Renderable};

verus! {

/// An opaque entity identity: the row of the entity in every column.
#[derive(Clone, Copy, PartialEq, Eq, Structural, Debug)]
pub struct Entity {
    pub id: usize,
}

/// The store itself: one column per component kind, all of one length.
/// An entity's row is filled by the creation calls and queried by the
/// systems; `Position` is the only column mutated after creation.
pub struct World {
    positions: Vec<Option<Position>>,
    renderables: Vec<Option<Renderable>>,
    players: Vec<bool>,
    movers: Vec<bool>,
}

impl World {
    /// How many entities have been created.
    pub closed spec fn num_entities(self) -> nat {
        self.positions@.len()
    }

    /// The `Position` component of entity `e`, if it has one.
    pub closed spec fn pos_at(self, e: int) -> Option<Position> {
        self.positions@[e]
    }

    /// The `Renderable` component of entity `e`, if it has one.
    pub closed spec fn rend_at(self, e: int) -> Option<Renderable> {
        self.renderables@[e]
    }

    /// Whether entity `e` carries the player tag.
    pub closed spec fn player_at(self, e: int) -> bool {
        self.players@[e]
    }

    /// Whether entity `e` carries the mover tag.
    pub closed spec fn mover_at(self, e: int) -> bool {
        self.movers@[e]
    }

    /// Well-formedness: every column has one row per entity.
    pub closed spec fn wf(self) -> bool {
        &&& self.renderables@.len() == self.num_entities()
        &&& self.players@.len() == self.num_entities()
        &&& self.movers@.len() == self.num_entities()
    }

    /// An empty store.
    pub fn new() -> (w: World)
        ensures
            w.wf(),
            w.num_entities() == 0,
    {
        World { positions: Vec::new(), renderables: Vec::new(), players: Vec::new(), movers: Vec::new() }
    }

    /// Allocates a fresh entity with no components and no tags. The new
    /// identity is visible to every later query.
    pub fn create_entity(&mut self) -> (e: Entity)
        requires
            old(self).wf(),
            old(self).num_entities() < usize::MAX,
        ensures
            final(self).wf(),
            final(self).num_entities() == old(self).num_entities() + 1,
            e.id == old(self).num_entities(),
            final(self).pos_at(e.id as int) is None,
            final(self).rend_at(e.id as int) is None,
            !final(self).player_at(e.id as int),
            !final(self).mover_at(e.id as int),
            forall|j: int|
                0 <= j < old(self).num_entities() ==> final(self).pos_at(j) == old(self).pos_at(j)
                    && final(self).rend_at(j) == old(self).rend_at(j) && final(self).player_at(j)
                    == old(self).player_at(j) && final(self).mover_at(j) == old(self).mover_at(j),
    {
        let id = self.positions.len();
        self.positions.push(None);
        self.renderables.push(None);
        self.players.push(false);
        self.movers.push(false);
        Entity { id }
    }

    /// Attaches (or replaces) the `Position` component of entity `e`.
    pub fn set_position(&mut self, e: Entity, p: Position)
        requires
            old(self).wf(),
            e.id < old(self).num_entities(),
        ensures
            final(self).wf(),
            final(self).num_entities() == old(self).num_entities(),
            final(self).pos_at(e.id as int) == Some(p),
            forall|j: int|
                0 <= j < old(self).num_entities() && j != e.id ==> final(self).pos_at(j) == old(self).pos_at(j),
            forall|j: int|
                0 <= j < old(self).num_entities() ==> final(self).rend_at(j) == old(self).rend_at(j)
                    && final(self).player_at(j) == old(self).player_at(j) && final(self).mover_at(j) == old(self).mover_at(j),
    {
        self.positions[e.id] = Some(p);
    }

    /// Attaches (or replaces) the `Renderable` component of entity `e`.
    pub fn set_renderable(&mut self, e: Entity, r: Renderable)
        requires
            old(self).wf(),
            e.id < old(self).num_entities(),
        ensures
            final(self).wf(),
            final(self).num_entities() == old(self).num_entities(),
            final(self).rend_at(e.id as int) == Some(r),
            forall|j: int|
                0 <= j < old(self).num_entities() && j != e.id ==> final(self).rend_at(j) == old(self).rend_at(j),
            forall|j: int|
                0 <= j < old(self).num_entities() ==> final(self).pos_at(j) == old(self).pos_at(j)
                    && final(self).player_at(j) == old(self).player_at(j) && final(self).mover_at(j) == old(self).mover_at(j),
    {
        self.renderables[e.id] = Some(r);
    }

    /// Marks entity `e` as the player-controlled actor.
    pub fn set_player_tag(&mut self, e: Entity)
        requires
            old(self).wf(),
            e.id < old(self).num_entities(),
        ensures
            final(self).wf(),
            final(self).num_entities() == old(self).num_entities(),
            final(self).player_at(e.id as int),
            forall|j: int|
                0 <= j < old(self).num_entities() && j != e.id ==> final(self).player_at(j) == old(self).player_at(j),
            forall|j: int|
                0 <= j < old(self).num_entities() ==> final(self).pos_at(j) == old(self).pos_at(j)
                    && final(self).rend_at(j) == old(self).rend_at(j) && final(self).mover_at(j)
                    == old(self).mover_at(j),
    {
        self.players[e.id] = true;
    }

    /// Marks entity `e` as an autonomous left-walking mover.
    pub fn set_mover_tag(&mut self, e: Entity)
        requires
            old(self).wf(),
            e.id < old(self).num_entities(),
        ensures
            final(self).wf(),
            final(self).num_entities() == old(self).num_entities(),
            final(self).mover_at(e.id as int),
            forall|j: int|
                0 <= j < old(self).num_entities() && j != e.id ==> final(self).mover_at(j) == old(self).mover_at(j),
            forall|j: int|
                0 <= j < old(self).num_entities() ==> final(self).pos_at(j) == old(self).pos_at(j)
                    && final(self).rend_at(j) == old(self).rend_at(j) && final(self).player_at(j)
                    == old(self).player_at(j),
    {
        self.movers[e.id] = true;
    }

    /// Decides well-formedness at run time, for callers outside the
    /// verified core that must test it before calling in.
    pub fn is_well_formed(&self) -> (b: bool)
        ensures
            b == self.wf(),
    {
        self.renderables.len() == self.positions.len() && self.players.len()
            == self.positions.len() && self.movers.len() == self.positions.len()
    }

    /// The number of entities, for iterating queries.
    pub fn entity_count(&self) -> (n: usize)
        ensures
            n == self.num_entities(),
    {
        self.positions.len()
    }

    /// Reads the `Position` of entity `e`; `None` for an unknown identity.
    pub fn get_position(&self, e: Entity) -> (r: Option<Position>)
        ensures
            r == (if e.id < self.num_entities() {
                self.pos_at(e.id as int)
            } else {
                None::<Position>
            }),
    {
        if e.id < self.positions.len() {
            self.positions[e.id]
        } else {
            None
        }
    }

    /// Reads the `Renderable` of entity `e`; `None` for an unknown identity.
    pub fn get_renderable(&self, e: Entity) -> (r: Option<Renderable>)
        requires
            self.wf(),
        ensures
            r == (if e.id < self.num_entities() {
                self.rend_at(e.id as int)
            } else {
                None::<Renderable>
            }),
    {
        if e.id < self.renderables.len() {
            self.renderables[e.id]
        } else {
            None
        }
    }

    /// Whether entity `e` carries the player tag; false for an unknown
    /// identity.
    pub fn has_player_tag(&self, e: Entity) -> (r: bool)
        requires
            self.wf(),
        ensures
            r == (e.id < self.num_entities() && self.player_at(e.id as int)),
    {
        e.id < self.players.len() && self.players[e.id]
    }

    /// Whether entity `e` carries the mover tag; false for an unknown
    /// identity.
    pub fn has_mover_tag(&self, e: Entity) -> (r: bool)
        requires
            self.wf(),
        ensures
            r == (e.id < self.num_entities() && self.mover_at(e.id as int)),
    {
        e.id < self.movers.len() && self.movers[e.id]
    }
}

} // verus!
