//! The editor session: how key presses and mouse clicks change the game state, the voxel
//! models and the brush, and which effects (mouse capture, camera moves, mesh rebuilds) the
//! window loop has to carry out.

use vstd::prelude::*;

use crate::color::Color;
use crate::coords::{Int2, Int3};
use crate::game::state::{tile_key, GameState, GameView, Placement, StructureId};
use crate::voxel::model::{in_bounds, ModelView, VoxelModel};
use crate::voxel::pick::{raycast_result, raycast_voxels, unit_axis_step, walk_connected};
use crate::voxel::palette::palette_opaque;
use crate::voxel::structures::{get_structure, law_color_test_shows_palette, STRUCTURE_COUNT};

verus! {

/// Side length of the square building grid, in tiles.
pub const GRID_SIZE: i32 = 32;

/// Number of colors in the editor palette.
pub const PALETTE_SIZE: usize = 256;

/// Whether the world view or the voxel editor is shown.
#[derive(Clone, Copy, Debug, PartialEq, Eq, Structural)]
pub enum AppMode {
    World,
    VoxelEditor,
}

/// The keys the session reacts to; `Digit(d)` is the number key `d` (0..10).
#[derive(Clone, Copy, Debug, PartialEq, Eq, Structural)]
pub enum Key {
    E,
    C,
    Escape,
    Q,
    R,
    A,
    D,
    Digit(u8),
    Other,
}

#[derive(Clone, Copy, Debug, PartialEq, Eq, Structural)]
pub enum Button {
    Left,
    Middle,
    Right,
    Other,
}

/// An input event, with what the window loop measured for it: for a click, the palette
/// swatch under the cursor (if the palette is shown), the cell walk of the editor's view ray
/// through the selected model with its step toward the camera, and the grid tile under the
/// cursor in the world view.
pub enum Event {
    Quit,
    KeyDown { key: Key, repeat: bool },
    MouseDown { button: Button, swatch: Option<usize>, walk: Vec<Int3>, toward_camera: Int3, tile: Int2 },
}

/// Turn direction of the world camera around its target (a quarter turn).
#[derive(Clone, Copy, Debug, PartialEq, Eq, Structural)]
pub enum Turn {
    Left,
    Right,
}

/// An effect for the window loop to carry out.
#[derive(Clone, Copy, Debug, PartialEq, Eq, Structural)]
pub enum Action {
    Quit,
    /// Relative mouse mode with hidden cursor (`true`), or free visible cursor (`false`).
    CaptureMouse(bool),
    /// Remember the world camera before entering the editor.
    SaveWorldCamera,
    /// Return to the remembered world camera.
    RestoreWorldCamera,
    /// Place the fly camera in front of model `id`; its viewport is taken from the world
    /// camera when `from_world_viewport`, else kept.
    ResetFlyCamera { id: u8, from_world_viewport: bool },
    RotateCamera(Turn),
    /// Model `id` changed: rebuild its mesh.
    RebuildMesh(u8),
}

/// Mathematical content of a session.
pub struct SessionView {
    pub game: GameView,
    pub mode: AppMode,
    pub palette_open: bool,
    pub brush: Color,
    pub single: bool,
    pub models: Seq<ModelView>,
    pub swatches: Seq<Color>,
}

/// The editor session.
pub struct Session {
    pub game: GameState,
    pub mode: AppMode,
    /// The color palette overlay is shown.
    pub palette_open: bool,
    /// Color placed by a right click in the editor.
    pub brush: Color,
    /// Showing one structure at the grid's center; A and D swap it.
    pub single: bool,
    /// The voxel model of each structure.
    pub models: Vec<VoxelModel>,
    /// The palette colors, by swatch index.
    pub swatches: Vec<Color>,
}

pub open spec fn view_models(models: Seq<VoxelModel>) -> Seq<ModelView> {
    models.map_values(|m: VoxelModel| m@)
}

impl View for Session {
    type V = SessionView;

    open spec fn view(&self) -> SessionView {
        SessionView {
            game: self.game@,
            mode: self.mode,
            palette_open: self.palette_open,
            brush: self.brush,
            single: self.single,
            models: view_models(self.models@),
            swatches: self.swatches@,
        }
    }
}

/// The tile at the center of the grid, where the single structure stands.
pub open spec fn center_tile() -> Int2 {
    Int2 { x: 16, y: 16 }
}

/// Structure before the selection, cycling 0 -> 9; 9 without a selection.
pub open spec fn prev_structure(sel: Option<StructureId>) -> StructureId {
    match sel {
        None => 9,
        Some(s) => if s == 0 {
            9
        } else {
            (s - 1) as u8
        },
    }
}

/// Structure after the selection, cycling 9 -> 0; 0 without a selection.
pub open spec fn next_structure(sel: Option<StructureId>) -> StructureId {
    match sel {
        None => 0,
        Some(s) => if s >= 9 {
            0
        } else {
            (s + 1) as u8
        },
    }
}

/// Structure chosen by number key `d`: keys 1..9 give 0..8, key 0 gives 9.
pub open spec fn digit_structure(d: u8) -> StructureId {
    if d == 0 {
        9
    } else {
        (d - 1) as u8
    }
}

/// Previous structure in the cycle.
pub fn prev_structure_of(sel: Option<StructureId>) -> (r: StructureId)
    ensures
        r == prev_structure(sel),
{
    match sel {
        None => 9,
        Some(s) => if s == 0 {
            9
        } else {
            s - 1
        },
    }
}

/// Next structure in the cycle.
pub fn next_structure_of(sel: Option<StructureId>) -> (r: StructureId)
    ensures
        r == next_structure(sel),
{
    match sel {
        None => 0,
        Some(s) => if s >= 9 {
            0
        } else {
            s + 1
        },
    }
}

/// Structure selected by number key `d` (0..10).
pub fn structure_for_digit(d: u8) -> (r: StructureId)
    ensures
        r == digit_structure(d),
{
    if d == 0 {
        9
    } else {
        d - 1
    }
}

/// The structure asked for on the command line: kept when it names one of the ten
/// structures (below 10), dropped otherwise.
pub fn single_choice(parsed: Option<u8>) -> (r: Option<u8>)
    ensures
        r == (match parsed {
            Some(n) => if n < 10 {
                Some(n)
            } else {
                None
            },
            None => None,
        }),
{
    match parsed {
        Some(n) => if n < 10 {
            Some(n)
        } else {
            None
        },
        None => None,
    }
}

impl SessionView {
    pub open spec fn with_palette(self, open: bool) -> SessionView {
        SessionView { palette_open: open, ..self }
    }

    pub open spec fn with_mode(self, mode: AppMode) -> SessionView {
        SessionView { mode, ..self }
    }

    pub open spec fn with_game(self, game: GameView) -> SessionView {
        SessionView { game, ..self }
    }

    pub open spec fn with_brush(self, brush: Color) -> SessionView {
        SessionView { brush, ..self }
    }

    pub open spec fn with_model(self, id: int, m: ModelView) -> SessionView {
        SessionView { models: self.models.update(id, m), ..self }
    }

    /// The grid after selecting `id` and, in single mode, swapping the center structure for it.
    pub open spec fn cycle_to(self, id: StructureId) -> SessionView {
        let grid = if self.single {
            self.game.grid.remove(center_tile()).insert(
                center_tile(),
                Placement { tile: center_tile(), structure_id: id },
            )
        } else {
            self.game.grid
        };
        self.with_game(GameView { grid, selected_structure: Some(id) })
    }

    /// Effect of pressing `key` (not a repeat).
    pub open spec fn key_step(self, key: Key) -> (SessionView, Seq<Action>) {
        let editor = self.mode == AppMode::VoxelEditor;
        let world = self.mode == AppMode::World;
        if key == Key::Escape {
            if self.palette_open {
                (
                    self.with_palette(false),
                    if editor {
                        seq![Action::CaptureMouse(true)]
                    } else {
                        seq![]
                    },
                )
            } else {
                (self, seq![])
            }
        } else {
            match key {
                Key::E => if world {
                    (
                        self.with_mode(AppMode::VoxelEditor).with_palette(false),
                        seq![Action::SaveWorldCamera] + match self.game.selected_structure {
                            Some(sid) => seq![Action::ResetFlyCamera { id: sid, from_world_viewport: true }],
                            None => seq![],
                        } + if !self.palette_open {
                            seq![Action::CaptureMouse(true)]
                        } else {
                            seq![]
                        },
                    )
                } else {
                    (
                        self.with_mode(AppMode::World).with_palette(false),
                        seq![Action::RestoreWorldCamera, Action::CaptureMouse(false)],
                    )
                },
                Key::C => if editor {
                    (
                        self.with_palette(!self.palette_open),
                        seq![Action::CaptureMouse(self.palette_open)],
                    )
                } else {
                    (self, seq![])
                },
                Key::Q => if world {
                    (self, seq![Action::RotateCamera(Turn::Left)])
                } else {
                    (self, seq![])
                },
                Key::R => if world {
                    (self, seq![Action::RotateCamera(Turn::Right)])
                } else {
                    (self, seq![])
                },
                Key::A => if world {
                    (self.cycle_to(prev_structure(self.game.selected_structure)), seq![])
                } else {
                    (self, seq![])
                },
                Key::D => if world {
                    (self.cycle_to(next_structure(self.game.selected_structure)), seq![])
                } else {
                    (self, seq![])
                },
                Key::Digit(d) => if d < 10 {
                    let id = digit_structure(d);
                    (
                        self.with_game(GameView { selected_structure: Some(id), ..self.game }),
                        if editor {
                            seq![Action::ResetFlyCamera { id, from_world_viewport: false }]
                        } else {
                            seq![]
                        },
                    )
                } else {
                    (self, seq![])
                },
                _ => (self, seq![]),
            }
        }
    }

    /// Effect of a click with `button`, given the measurements of the event.
    pub open spec fn click_step(
        self,
        button: Button,
        swatch: Option<usize>,
        walk: Seq<Int3>,
        toward_camera: Int3,
        tile: Int2,
    ) -> (SessionView, Seq<Action>) {
        if self.palette_open {
            if button == Button::Left && swatch is Some {
                (
                    self.with_brush(self.swatches[swatch->0 as int]).with_palette(false),
                    if self.mode == AppMode::VoxelEditor {
                        seq![Action::CaptureMouse(true)]
                    } else {
                        seq![]
                    },
                )
            } else {
                (self, seq![])
            }
        } else if self.mode == AppMode::VoxelEditor {
            match self.game.selected_structure {
                Some(sid) => {
                    let m = self.models[sid as int];
                    match raycast_result(m, walk, toward_camera) {
                        Some(hit) => if button == Button::Middle {
                            match m.get(hit.solid.x as int, hit.solid.y as int, hit.solid.z as int) {
                                Some(c) => (self.with_brush(c), seq![]),
                                None => (self, seq![]),
                            }
                        } else if button == Button::Left {
                            (
                                self.with_model(
                                    sid as int,
                                    m.set(
                                        hit.solid.x as int,
                                        hit.solid.y as int,
                                        hit.solid.z as int,
                                        Color::zero_spec(),
                                    ),
                                ),
                                seq![Action::RebuildMesh(sid)],
                            )
                        } else if button == Button::Right {
                            let p = hit.air_before;
                            if in_bounds(m.dim, p.x as int, p.y as int, p.z as int) && !m.is_solid(
                                p.x as int,
                                p.y as int,
                                p.z as int,
                            ) {
                                (
                                    self.with_model(
                                        sid as int,
                                        m.set(p.x as int, p.y as int, p.z as int, self.brush),
                                    ),
                                    seq![Action::RebuildMesh(sid)],
                                )
                            } else {
                                (self, seq![])
                            }
                        } else {
                            (self, seq![])
                        },
                        None => (self, seq![]),
                    }
                },
                None => (self, seq![]),
            }
        } else if button == Button::Left && self.game.selected_structure is Some && 0 <= tile.x
            < GRID_SIZE && 0 <= tile.y < GRID_SIZE {
            let id = self.game.selected_structure->0;
            let grid = if self.game.grid.contains_key(tile) {
                self.game.grid.remove(tile)
            } else {
                self.game.grid.insert(tile, Placement { tile, structure_id: id })
            };
            (self.with_game(GameView { grid, ..self.game }), seq![])
        } else {
            (self, seq![])
        }
    }
}

/// Tile `t` lies on the building grid `[0, GRID_SIZE)^2`.
pub open spec fn on_board(t: Int2) -> bool {
    0 <= t.x < GRID_SIZE && 0 <= t.y < GRID_SIZE
}

/// Position of an on-board tile in row-major order.
pub open spec fn board_index(t: Int2) -> int {
    t.x * GRID_SIZE + t.y
}

/// A well-formed grid whose tiles all lie on the board holds at most `GRID_SIZE^2`
/// placements, one per tile.
pub proof fn law_board_bounds_placements(g: &GameState)
    requires
        g.wf(),
        forall|t: Int2| #[trigger] g@.grid.contains_key(t) ==> on_board(t),
    ensures
        g.grid@.len() <= GRID_SIZE * GRID_SIZE,
{
    let m = g.grid@;
    let dom = m.dom();
    let f = |k: u64| board_index(m[k].tile);
    assert(dom.finite());
    assert forall|k: u64| #[trigger] dom.contains(k) implies 0 <= f(k) < GRID_SIZE * GRID_SIZE by {
        let t = m[k].tile;
        assert(tile_key(t) == k);
        crate::game::state::lemma_tile_key_injective(t, t);
        assert(g@.grid.contains_key(t));
    }
    assert(vstd::relations::injective_on(f, dom)) by {
        assert forall|k1: u64, k2: u64|
            dom.contains(k1) && dom.contains(k2) && #[trigger] f(k1) == #[trigger] f(k2) implies k1 == k2 by {
            let t1 = m[k1].tile;
            let t2 = m[k2].tile;
            crate::game::state::lemma_tile_key_injective(t1, t1);
            crate::game::state::lemma_tile_key_injective(t2, t2);
            assert(g@.grid.contains_key(t1));
            assert(g@.grid.contains_key(t2));
            assert(t1 == t2);
        }
    }
    let img = dom.map(f);
    vstd::set_lib::lemma_map_size(dom, img, f);
    vstd::set_lib::lemma_int_range(0, GRID_SIZE * GRID_SIZE);
    assert(img.subset_of(vstd::set_lib::set_int_range(0, GRID_SIZE * GRID_SIZE)));
    vstd::set_lib::lemma_len_subset(img, vstd::set_lib::set_int_range(0, GRID_SIZE * GRID_SIZE));
}

/// The session invariant: one well-formed model per structure, a full palette, a
/// well-formed grid whose tiles all lie on the board, and a valid selection.
pub open spec fn session_wf(s: &Session) -> bool {
    &&& s.game.wf()
    &&& forall|t: Int2| #[trigger] s.game@.grid.contains_key(t) ==> on_board(t)
    &&& s.models@.len() == STRUCTURE_COUNT
    &&& forall|i: int| 0 <= i < s.models@.len() ==> (#[trigger] s.models@[i]).wf()
    &&& s.swatches@.len() == PALETTE_SIZE
    &&& s.game.selected_structure matches Some(sid) && sid < STRUCTURE_COUNT
}

/// Whether an event's measurements are in range: a swatch index names a palette entry, the
/// cells of the walk follow one another face by face, and the step toward the camera is a
/// unit step along an axis.
pub open spec fn event_wf(e: &Event) -> bool {
    match e {
        Event::MouseDown { swatch, walk, toward_camera, .. } => {
            &&& swatch matches Some(i) ==> i < PALETTE_SIZE
            &&& walk_connected(walk@)
            &&& unit_axis_step(*toward_camera)
        },
        _ => true,
    }
}

/// Mathematical content of an event's effect.
pub open spec fn event_step(s: SessionView, e: &Event) -> (SessionView, Seq<Action>) {
    match e {
        Event::Quit => (s, seq![Action::Quit]),
        Event::KeyDown { key, repeat } => if *repeat {
            (s, seq![])
        } else {
            s.key_step(*key)
        },
        Event::MouseDown { button, swatch, walk, toward_camera, tile } => s.click_step(
            *button,
            *swatch,
            walk@,
            *toward_camera,
            *tile,
        ),
    }
}

impl Session {
    pub open spec fn wf(&self) -> bool {
        session_wf(self)
    }

    /// A fresh session: the structure models, the world view, a white brush and the palette
    /// closed. With `single`, that structure (clamped to 9) stands at the grid's center and is
    /// selected; otherwise structure 0 is selected. Structure 0 shows the palette itself:
    /// swatch `i` at `(i % 16, 0, i / 16)`, every cell solid.
    pub fn new(single: Option<u8>, swatches: Vec<Color>) -> (s: Session)
        requires
            swatches@.len() == PALETTE_SIZE,
            palette_opaque(swatches@),
        ensures
            forall|i: int|
                0 <= i < PALETTE_SIZE ==> #[trigger] s@.models[0].get(i % 16, 0, i / 16) == Some(
                    swatches@[i],
                ),
            s.wf(),
            s@.mode == AppMode::World,
            !s@.palette_open,
            s@.brush == Color::white_spec(),
            s@.swatches == swatches@,
            s@.single == (single is Some),
            s@.models.len() == STRUCTURE_COUNT,
            s.game.grid@.len() <= GRID_SIZE * GRID_SIZE,
            forall|i: int| #![auto] 0 <= i < STRUCTURE_COUNT ==> crate::voxel::structures::shaped(
                s@.models[i],
                crate::voxel::structures::structure_dim(i as u8),
                |x: int, y: int, z: int| crate::voxel::structures::structure_color(i as u8, swatches@, x, y, z),
            ),
            match single {
                Some(n) => {
                    let id = if n < 9 { n } else { 9u8 };
                    &&& s@.game.grid == Map::<Int2, Placement>::empty().insert(
                        center_tile(),
                        Placement { tile: center_tile(), structure_id: id },
                    )
                    &&& s@.game.selected_structure == Some(id)
                },
                None => {
                    &&& s@.game.grid == Map::<Int2, Placement>::empty()
                    &&& s@.game.selected_structure == Some(0u8)
                },
            },
    {
        let mut game = GameState::new();
        let single_id = match single {
            Some(n) => Some(if n < 9 { n } else { 9 }),
            None => None,
        };
        match single_id {
            Some(n) => {
                game.place(Int2::new(GRID_SIZE / 2, GRID_SIZE / 2), n);
                game.select_structure(Some(n));
            },
            None => {
                game.select_structure(Some(0));
            },
        }
        let mut models: Vec<VoxelModel> = Vec::new();
        let mut i: u8 = 0;
        while i < 10
            invariant
                i <= 10,
                swatches@.len() == PALETTE_SIZE,
                models@.len() == i,
                forall|j: int| 0 <= j < i ==> (#[trigger] models@[j]).wf(),
                forall|j: int| #![auto] 0 <= j < i ==> crate::voxel::structures::shaped(
                    models@[j]@,
                    crate::voxel::structures::structure_dim(j as u8),
                    |x: int, y: int, z: int| crate::voxel::structures::structure_color(j as u8, swatches@, x, y, z),
                ),
            decreases 10 - i,
        {
            models.push(get_structure(i, swatches.as_slice()));
            i = i + 1;
        }
        let s = Session {
            game,
            mode: AppMode::World,
            palette_open: false,
            brush: Color::white(),
            single: single.is_some(),
            models,
            swatches,
        };
        proof {
            law_board_bounds_placements(&s.game);
            assert forall|i: int| 0 <= i < PALETTE_SIZE implies #[trigger] s@.models[0].get(
                i % 16,
                0,
                i / 16,
            ) == Some(swatches@[i]) by {
                law_color_test_shows_palette(s@.models[0], swatches@, i);
            }
        }
        s
    }

    /// The fly camera follows mouse and keys: editor shown and palette closed.
    pub fn fly_controls_active(&self) -> (b: bool)
        ensures
            b == (self.mode == AppMode::VoxelEditor && !self.palette_open),
    {
        self.mode == AppMode::VoxelEditor && !self.palette_open
    }

    fn apply_key(&mut self, key: Key) -> (actions: Vec<Action>)
        requires
            old(self).wf(),
        ensures
            final(self).wf(),
            (final(self)@, actions@) == old(self)@.key_step(key),
    {
        let mut actions: Vec<Action> = Vec::new();
        let editor = self.mode == AppMode::VoxelEditor;
        let world = self.mode == AppMode::World;
        if key == Key::Escape {
            if self.palette_open {
                self.palette_open = false;
                if editor {
                    actions.push(Action::CaptureMouse(true));
                }
            }
            assert(actions@ =~= old(self)@.key_step(key).1);
            return actions;
        }
        match key {
            Key::E => {
                if world {
                    actions.push(Action::SaveWorldCamera);
                    if let Some(sid) = self.game.selected_structure {
                        actions.push(Action::ResetFlyCamera { id: sid, from_world_viewport: true });
                    }
                    self.mode = AppMode::VoxelEditor;
                    if !self.palette_open {
                        actions.push(Action::CaptureMouse(true));
                    }
                } else {
                    actions.push(Action::RestoreWorldCamera);
                    self.mode = AppMode::World;
                    actions.push(Action::CaptureMouse(false));
                }
                self.palette_open = false;
            },
            Key::C => {
                if editor {
                    self.palette_open = !self.palette_open;
                    actions.push(Action::CaptureMouse(!self.palette_open));
                }
            },
            Key::Q => {
                if world {
                    actions.push(Action::RotateCamera(Turn::Left));
                }
            },
            Key::R => {
                if world {
                    actions.push(Action::RotateCamera(Turn::Right));
                }
            },
            Key::A => {
                if world {
                    let prev = prev_structure_of(self.game.selected_structure);
                    self.cycle_to(prev);
                }
            },
            Key::D => {
                if world {
                    let next = next_structure_of(self.game.selected_structure);
                    self.cycle_to(next);
                }
            },
            Key::Digit(d) => {
                if d < 10 {
                    let id = structure_for_digit(d);
                    self.game.select_structure(Some(id));
                    if editor {
                        actions.push(Action::ResetFlyCamera { id, from_world_viewport: false });
                    }
                }
            },
            _ => {},
        }
        assert(self@.game =~= old(self)@.key_step(key).0.game);
        assert(actions@ =~= old(self)@.key_step(key).1);
        actions
    }

    /// Selects `id`; in single mode also swaps the structure at the center for it.
    fn cycle_to(&mut self, id: StructureId)
        requires
            old(self).wf(),
            id < STRUCTURE_COUNT,
        ensures
            final(self).wf(),
            final(self)@ == old(self)@.cycle_to(id),
    {
        if self.single {
            let center = Int2::new(GRID_SIZE / 2, GRID_SIZE / 2);
            self.game.remove(center);
            self.game.place(center, id);
        }
        self.game.select_structure(Some(id));
        assert(self@.game =~= old(self)@.cycle_to(id).game);
    }

    fn apply_click(
        &mut self,
        button: Button,
        swatch: Option<usize>,
        walk: &Vec<Int3>,
        toward_camera: Int3,
        tile: Int2,
    ) -> (actions: Vec<Action>)
        requires
            old(self).wf(),
            swatch matches Some(i) ==> i < PALETTE_SIZE,
            walk_connected(walk@),
            unit_axis_step(toward_camera),
        ensures
            final(self).wf(),
            (final(self)@, actions@) == old(self)@.click_step(
                button,
                swatch,
                walk@,
                toward_camera,
                tile,
            ),
    {
        let mut actions: Vec<Action> = Vec::new();
        if self.palette_open {
            if button == Button::Left {
                if let Some(idx) = swatch {
                    self.brush = self.swatches[idx];
                    self.palette_open = false;
                    if self.mode == AppMode::VoxelEditor {
                        actions.push(Action::CaptureMouse(true));
                    }
                }
            }
            assert(actions@ =~= old(self)@.click_step(button, swatch, walk@, toward_camera, tile).1);
            return actions;
        }
        if self.mode == AppMode::VoxelEditor {
            if let Some(sid) = self.game.selected_structure {
                let ghost mv = self@.models[sid as int];
                let idx = sid as usize;
                assert(self.models@[idx as int]@ == mv);
                let hit = raycast_voxels(&self.models[idx], walk.as_slice(), toward_camera);
                if let Some(hit) = hit {
                    if button == Button::Middle {
                        if let Some(c) = self.models[idx].get(hit.solid.x, hit.solid.y, hit.solid.z) {
                            self.brush = c;
                        }
                    } else if button == Button::Left {
                        self.models[idx].set(hit.solid.x, hit.solid.y, hit.solid.z, Color::zero());
                        actions.push(Action::RebuildMesh(sid));
                        assert(view_models(self.models@) =~= old(self)@.models.update(
                            sid as int,
                            mv.set(
                                hit.solid.x as int,
                                hit.solid.y as int,
                                hit.solid.z as int,
                                Color::zero_spec(),
                            ),
                        ));
                    } else if button == Button::Right {
                        let p = hit.air_before;
                        let dim = self.models[idx].dim;
                        if p.x >= 0 && p.x < dim.x && p.y >= 0 && p.y < dim.y && p.z >= 0 && p.z < dim.z
                            && !self.models[idx].is_solid(p.x, p.y, p.z) {
                            let brush = self.brush;
                            self.models[idx].set(p.x, p.y, p.z, brush);
                            actions.push(Action::RebuildMesh(sid));
                            assert(view_models(self.models@) =~= old(self)@.models.update(
                                sid as int,
                                mv.set(p.x as int, p.y as int, p.z as int, brush),
                            ));
                        }
                    }
                }
            }
            assert(self@.models =~= old(self)@.click_step(button, swatch, walk@, toward_camera, tile).0.models);
            assert(actions@ =~= old(self)@.click_step(button, swatch, walk@, toward_camera, tile).1);
            return actions;
        }
        if button == Button::Left {
            if let Some(id) = self.game.selected_structure {
                if tile.x >= 0 && tile.x < GRID_SIZE && tile.y >= 0 && tile.y < GRID_SIZE {
                    if self.game.get(tile).is_some() {
                        self.game.remove(tile);
                    } else {
                        self.game.place(tile, id);
                    }
                }
            }
        }
        assert(self@.game =~= old(self)@.click_step(button, swatch, walk@, toward_camera, tile).0.game);
        assert(actions@ =~= old(self)@.click_step(button, swatch, walk@, toward_camera, tile).1);
        actions
    }

    /// Handles one input event: updates the session and returns the effects for the window
    /// loop, in the order they are to be carried out.
    pub fn handle(&mut self, event: &Event) -> (actions: Vec<Action>)
        requires
            old(self).wf(),
            event_wf(event),
        ensures
            final(self).wf(),
            (final(self)@, actions@) == event_step(old(self)@, event),
            final(self).game.grid@.len() <= GRID_SIZE * GRID_SIZE,
    {
        let actions = self.dispatch(event);
        proof {
            law_board_bounds_placements(&self.game);
        }
        actions
    }

    fn dispatch(&mut self, event: &Event) -> (actions: Vec<Action>)
        requires
            old(self).wf(),
            event_wf(event),
        ensures
            final(self).wf(),
            (final(self)@, actions@) == event_step(old(self)@, event),
    {
        match event {
            Event::Quit => {
                let mut actions: Vec<Action> = Vec::new();
                actions.push(Action::Quit);
                assert(actions@ =~= seq![Action::Quit]);
                actions
            },
            Event::KeyDown { key, repeat } => {
                if *repeat {
                    let actions: Vec<Action> = Vec::new();
                    assert(actions@ =~= Seq::<Action>::empty());
                    actions
                } else {
                    self.apply_key(*key)
                }
            },
            Event::MouseDown { button, swatch, walk, toward_camera, tile } => {
                self.apply_click(*button, *swatch, walk, *toward_camera, *tile)
            },
        }
    }
}

/// Cycling through the structures: the previous and next structures of a valid selection are
/// valid, and stepping back then forward (or forward then back) returns to it. Number keys
/// 0..10 select each structure exactly once.
pub proof fn law_structure_cycle(s: StructureId, d: u8, e: u8)
    requires
        s < STRUCTURE_COUNT,
    ensures
        prev_structure(Some(s)) < STRUCTURE_COUNT,
        next_structure(Some(s)) < STRUCTURE_COUNT,
        next_structure(Some(prev_structure(Some(s)))) == s,
        prev_structure(Some(next_structure(Some(s)))) == s,
        d < 10 ==> digit_structure(d) < STRUCTURE_COUNT,
        d < 10 && e < 10 && digit_structure(d) == digit_structure(e) ==> d == e,
{
}

/// In the world view, clicking an empty grid tile twice with a structure selected leaves the
/// grid as it was; a single click on an occupied tile empties it.
pub proof fn law_toggle_twice(s: SessionView, tile: Int2, walk: Seq<Int3>, toward_camera: Int3)
    requires
        s.mode == AppMode::World,
        !s.palette_open,
        s.game.selected_structure is Some,
        0 <= tile.x < GRID_SIZE,
        0 <= tile.y < GRID_SIZE,
    ensures
        !s.game.grid.contains_key(tile) ==> s.click_step(Button::Left, None, walk, toward_camera, tile).0.click_step(
            Button::Left,
            None,
            walk,
            toward_camera,
            tile,
        ).0.game == s.game,
        s.game.grid.contains_key(tile) ==> !s.click_step(
            Button::Left,
            None,
            walk,
            toward_camera,
            tile,
        ).0.game.grid.contains_key(tile),
{
    let id = s.game.selected_structure->0;
    if !s.game.grid.contains_key(tile) {
        let once = s.click_step(Button::Left, None, walk, toward_camera, tile).0;
        assert(once.game.grid == s.game.grid.insert(tile, Placement { tile, structure_id: id }));
        assert(once.game.grid.contains_key(tile));
        assert(once.game.grid.remove(tile) =~= s.game.grid);
    }
}

/// Entering the editor and leaving it again returns to the world view with the palette closed
/// and the grid, selection, models and brush untouched; the world camera is saved on the way
/// in and restored on the way out.
pub proof fn law_editor_round_trip(s: SessionView)
    requires
        s.mode == AppMode::World,
    ensures
        ({
            let (inside, acts_in) = s.key_step(Key::E);
            let (back, acts_out) = inside.key_step(Key::E);
            &&& inside.mode == AppMode::VoxelEditor
            &&& back.mode == AppMode::World
            &&& !back.palette_open
            &&& back.game == s.game
            &&& back.models == s.models
            &&& back.brush == s.brush
            &&& acts_in[0] == Action::SaveWorldCamera
            &&& acts_out == seq![Action::RestoreWorldCamera, Action::CaptureMouse(false)]
        }),
{
}

/// Escape always leaves the palette closed and never changes the game, the models or the
/// brush.
pub proof fn law_escape_closes_palette(s: SessionView)
    ensures
        !s.key_step(Key::Escape).0.palette_open,
        s.key_step(Key::Escape).0.game == s.game,
        s.key_step(Key::Escape).0.models == s.models,
        s.key_step(Key::Escape).0.brush == s.brush,
        s.key_step(Key::Escape).0.mode == s.mode,
{
}

/// In the editor, a left click that hits a voxel turns it into air, and a right click that
/// places the brush into an air cell makes that cell hold the brush color (when the brush is
/// solid, the cell then reads back as the brush).
pub proof fn law_editor_edits(s: SessionView, walk: Seq<Int3>, toward_camera: Int3)
    requires
        s.mode == AppMode::VoxelEditor,
        !s.palette_open,
        s.game.selected_structure matches Some(sid) && sid < s.models.len(),
        s.models[s.game.selected_structure->0 as int].wf(),
    ensures
        ({
            let sid = s.game.selected_structure->0 as int;
            let m = s.models[sid];
            raycast_result(m, walk, toward_camera) matches Some(hit) ==> {
                let after = s.click_step(Button::Left, None, walk, toward_camera, Int2 { x: 0, y: 0 }).0;
                after.models[sid].get(hit.solid.x as int, hit.solid.y as int, hit.solid.z as int)
                    is None
            }
        }),
        ({
            let sid = s.game.selected_structure->0 as int;
            let m = s.models[sid];
            raycast_result(m, walk, toward_camera) matches Some(hit) ==> ((in_bounds(
                m.dim,
                hit.air_before.x as int,
                hit.air_before.y as int,
                hit.air_before.z as int,
            ) && !m.is_solid(
                hit.air_before.x as int,
                hit.air_before.y as int,
                hit.air_before.z as int,
            ) && s.brush.spec_is_solid()) ==> {
                let after = s.click_step(Button::Right, None, walk, toward_camera, Int2 { x: 0, y: 0 }).0;
                after.models[sid].get(
                    hit.air_before.x as int,
                    hit.air_before.y as int,
                    hit.air_before.z as int,
                ) == Some(s.brush)
            })
        }),
{
    let sid = s.game.selected_structure->0 as int;
    let m = s.models[sid];
    if let Some(hit) = raycast_result(m, walk, toward_camera) {
        crate::voxel::model_laws::law_get_after_set(
            m,
            hit.solid.x as int,
            hit.solid.y as int,
            hit.solid.z as int,
            Color::zero_spec(),
            hit.solid.x as int,
            hit.solid.y as int,
            hit.solid.z as int,
        );
        crate::voxel::model_laws::law_get_after_set(
            m,
            hit.air_before.x as int,
            hit.air_before.y as int,
            hit.air_before.z as int,
            s.brush,
            hit.air_before.x as int,
            hit.air_before.y as int,
            hit.air_before.z as int,
        );
    }
}

/// A and D cycle structures and Q and R turn the camera only in the world view: in the voxel
/// editor, where they steer the fly camera, they change nothing in the session and ask for
/// no action. In the world view A selects the previous structure and D the next one (9
/// wraps to 0), leaving the grid alone except that in single mode the center tile shows the
/// new selection; Q and R ask for a quarter turn to the left and right.
pub proof fn law_cycle_keys_only_in_world(s: SessionView)
    ensures
        s.mode == AppMode::VoxelEditor ==> {
            &&& s.key_step(Key::A) == (s, Seq::<Action>::empty())
            &&& s.key_step(Key::D) == (s, Seq::<Action>::empty())
            &&& s.key_step(Key::Q) == (s, Seq::<Action>::empty())
            &&& s.key_step(Key::R) == (s, Seq::<Action>::empty())
        },
        s.mode == AppMode::World && (s.game.selected_structure matches Some(x) && x < 10) ==> {
            let x = s.game.selected_structure->0 as int;
            let (after_a, acts_a) = s.key_step(Key::A);
            let (after_d, acts_d) = s.key_step(Key::D);
            &&& after_a.game.selected_structure == Some(((x + 9) % 10) as u8)
            &&& after_d.game.selected_structure == Some(((x + 1) % 10) as u8)
            &&& acts_a.len() == 0 && acts_d.len() == 0
            &&& after_a.models == s.models && after_d.models == s.models
            &&& !s.single ==> after_a.game.grid == s.game.grid && after_d.game.grid == s.game.grid
            &&& s.single ==> after_a.game.grid == s.game.grid.insert(
                center_tile(),
                Placement { tile: center_tile(), structure_id: ((x + 9) % 10) as u8 },
            ) && after_d.game.grid == s.game.grid.insert(
                center_tile(),
                Placement { tile: center_tile(), structure_id: ((x + 1) % 10) as u8 },
            )
            &&& s.key_step(Key::Q) == (s, seq![Action::RotateCamera(Turn::Left)])
            &&& s.key_step(Key::R) == (s, seq![Action::RotateCamera(Turn::Right)])
        },
{
    assert(s.key_step(Key::A).1 =~= Seq::<Action>::empty());
    assert(s.key_step(Key::D).1 =~= Seq::<Action>::empty());
    if s.single {
        let g = s.game.grid;
        let c = center_tile();
        assert(g.remove(c).insert(c, Placement { tile: c, structure_id: prev_structure(s.game.selected_structure) })
            =~= g.insert(c, Placement { tile: c, structure_id: prev_structure(s.game.selected_structure) }));
        assert(g.remove(c).insert(c, Placement { tile: c, structure_id: next_structure(s.game.selected_structure) })
            =~= g.insert(c, Placement { tile: c, structure_id: next_structure(s.game.selected_structure) }));
    }
}

} // verus!
