//! Game state: which structure stands on which tile of the building grid, and which
//! structure is selected for building.

use std::collections::HashMap;
use vstd::prelude::*;

use crate::coords::Int2;

verus! {

broadcast use vstd::std_specs::hash::group_hash_axioms;

/// Structure id (0..10 for the available structures).
pub type StructureId = u8;

/// A placed structure on the grid.
#[derive(Clone, Copy, Debug, PartialEq, Eq, Structural)]
pub struct Placement {
    pub tile: Int2,
    pub structure_id: StructureId,
}

/// Key of a tile in the grid map: `(x + 2^31) * 2^32 + (y + 2^31)`, a bijection between
/// tiles and `u64`.
pub open spec fn tile_key(t: Int2) -> int {
    (t.x + 0x8000_0000) * 0x1_0000_0000 + (t.y + 0x8000_0000)
}

/// Distinct tiles have distinct keys, and every key fits a `u64`.
pub proof fn lemma_tile_key_injective(a: Int2, b: Int2)
    ensures
        0 <= tile_key(a) <= u64::MAX,
        tile_key(a) == tile_key(b) ==> a == b,
{
    let (ax, ay) = (a.x + 0x8000_0000, a.y + 0x8000_0000);
    let (bx, by) = (b.x + 0x8000_0000, b.y + 0x8000_0000);
    assert(0 <= ax * 0x1_0000_0000 <= 0xFFFF_FFFF * 0x1_0000_0000) by (nonlinear_arith)
        requires
            0 <= ax <= 0xFFFF_FFFF,
    ;
    if tile_key(a) == tile_key(b) {
        assert(ax == bx && ay == by) by (nonlinear_arith)
            requires
                ax * 0x1_0000_0000 + ay == bx * 0x1_0000_0000 + by,
                0 <= ay < 0x1_0000_0000,
                0 <= by < 0x1_0000_0000,
        ;
    }
}

fn key_of(t: Int2) -> (k: u64)
    ensures
        k == tile_key(t),
{
    proof {
        lemma_tile_key_injective(t, t);
    }
    let hi = (t.x as i64 + 0x8000_0000) as u64;
    let lo = (t.y as i64 + 0x8000_0000) as u64;
    assert(hi * 0x1_0000_0000 + lo <= u64::MAX) by (nonlinear_arith)
        requires
            hi <= 0xFFFF_FFFF,
            lo <= 0xFFFF_FFFF,
    ;
    hi * 0x1_0000_0000 + lo
}

/// Mathematical content of a game state.
#[verifier::ext_equal]
pub struct GameView {
    /// The placement on each occupied tile.
    pub grid: Map<Int2, Placement>,
    pub selected_structure: Option<StructureId>,
}

/// Game state: grid of structures, selected structure for building.
#[derive(Clone)]
pub struct GameState {
    /// Placed structures, keyed by `tile_key` of their tile.
    pub grid: HashMap<u64, Placement>,
    /// Currently selected structure, `None` = no selection.
    pub selected_structure: Option<StructureId>,
}

/// The tile map seen through the key bijection.
pub open spec fn tiles_of(m: Map<u64, Placement>) -> Map<Int2, Placement> {
    Map::new(
        |t: Int2| m.contains_key(tile_key(t) as u64),
        |t: Int2| m[tile_key(t) as u64],
    )
}

impl View for GameState {
    type V = GameView;

    open spec fn view(&self) -> GameView {
        GameView { grid: tiles_of(self.grid@), selected_structure: self.selected_structure }
    }
}

impl GameState {
    /// Every placement sits under the key of its own tile.
    pub open spec fn wf(&self) -> bool {
        forall|k: u64| #[trigger]
            self.grid@.contains_key(k) ==> tile_key(self.grid@[k].tile) == k
    }

    /// Empty grid, no selection.
    pub fn new() -> (s: GameState)
        ensures
            s.wf(),
            s@.grid == Map::<Int2, Placement>::empty(),
            s.grid@.len() == 0,
            s@.selected_structure is None,
    {
        let s = GameState { grid: HashMap::new(), selected_structure: None };
        assert(s@.grid =~= Map::<Int2, Placement>::empty());
        s
    }

    /// Puts structure `structure_id` on `tile`, replacing whatever stood there.
    pub fn place(&mut self, tile: Int2, structure_id: StructureId)
        ensures
            old(self).wf() ==> final(self).wf(),
            final(self)@.grid == old(self)@.grid.insert(tile, Placement { tile, structure_id }),
            final(self)@.selected_structure == old(self)@.selected_structure,
            final(self).grid@.len() == old(self).grid@.len() + if old(self)@.grid.contains_key(tile) {
                0int
            } else {
                1int
            },
            final(self).grid.len() == final(self).grid@.len(),
    {
        let k = key_of(tile);
        self.grid.insert(k, Placement { tile, structure_id });
        proof {
            assert forall|t: Int2| #![auto] true implies (tile_key(t) as u64 == k <==> t == tile) by {
                lemma_tile_key_injective(t, tile);
            }
            assert(self@.grid =~= old(self)@.grid.insert(tile, Placement { tile, structure_id }));
        }
    }

    /// Removes the structure on `tile`, returning it.
    pub fn remove(&mut self, tile: Int2) -> (r: Option<Placement>)
        ensures
            old(self).wf() ==> final(self).wf(),
            r == (if old(self)@.grid.contains_key(tile) {
                Some(old(self)@.grid[tile])
            } else {
                None
            }),
            final(self)@.grid == old(self)@.grid.remove(tile),
            final(self)@.selected_structure == old(self)@.selected_structure,
            final(self).grid@.len() == old(self).grid@.len() - if old(self)@.grid.contains_key(tile) {
                1int
            } else {
                0int
            },
            final(self).grid.len() == final(self).grid@.len(),
    {
        let k = key_of(tile);
        let r = self.grid.remove(&k);
        proof {
            assert forall|t: Int2| #![auto] true implies (tile_key(t) as u64 == k <==> t == tile) by {
                lemma_tile_key_injective(t, tile);
            }
            assert(self@.grid =~= old(self)@.grid.remove(tile));
        }
        r
    }

    /// The structure on `tile`, if any.
    pub fn get(&self, tile: Int2) -> (r: Option<&Placement>)
        ensures
            r is Some == self@.grid.contains_key(tile),
            r matches Some(p) ==> *p == self@.grid[tile],
    {
        let k = key_of(tile);
        self.grid.get(&k)
    }

    /// Selects structure `id` for building (`None` clears the selection).
    pub fn select_structure(&mut self, id: Option<StructureId>)
        ensures
            final(self).wf() == old(self).wf(),
            final(self)@.grid == old(self)@.grid,
            final(self).grid@ == old(self).grid@,
            final(self)@.selected_structure == id,
    {
        self.selected_structure = id;
    }
}

impl Default for GameState {
    fn default() -> (s: GameState)
        ensures
            s.wf(),
            s@.grid == Map::<Int2, Placement>::empty(),
            s.grid@.len() == 0,
            s@.selected_structure is None,
    {
        GameState::new()
    }
}

/// Reading a tile after placing a structure on it gives that placement; every other tile
/// keeps what it had.
pub proof fn law_get_after_place(g: GameView, tile: Int2, id: StructureId, other: Int2)
    ensures
        g.grid.insert(tile, Placement { tile, structure_id: id }).contains_key(tile),
        g.grid.insert(tile, Placement { tile, structure_id: id })[tile] == (Placement {
            tile,
            structure_id: id,
        }),
        other != tile ==> g.grid.insert(tile, Placement { tile, structure_id: id }).contains_key(
            other,
        ) == g.grid.contains_key(other),
        other != tile && g.grid.contains_key(other) ==> g.grid.insert(
            tile,
            Placement { tile, structure_id: id },
        )[other] == g.grid[other],
{
}

/// Removing a tile right after placing on it returns the placement and leaves the grid as
/// removing from the earlier grid would: the tile empty, every other tile unchanged.
pub proof fn law_remove_after_place(g: GameView, tile: Int2, id: StructureId)
    ensures
        g.grid.insert(tile, Placement { tile, structure_id: id }).remove(tile) == g.grid.remove(
            tile,
        ),
        !g.grid.insert(tile, Placement { tile, structure_id: id }).remove(tile).contains_key(tile),
        !g.grid.contains_key(tile) ==> g.grid.insert(tile, Placement { tile, structure_id: id }).remove(
            tile,
        ) == g.grid,
{
    assert(g.grid.insert(tile, Placement { tile, structure_id: id }).remove(tile) =~= g.grid.remove(
        tile,
    ));
    if !g.grid.contains_key(tile) {
        assert(g.grid.remove(tile) =~= g.grid);
    }
}

} // verus!
