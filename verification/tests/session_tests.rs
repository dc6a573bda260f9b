use interestingtech::color::Color;
use interestingtech::coords::{Int2, Int3};
use interestingtech::game::session::{
    next_structure_of, prev_structure_of, single_choice, structure_for_digit, Action, AppMode,
    Button, Event, Key, Session, Turn,
};

fn palette() -> Vec<Color> {
    (0..256u32).map(|i| Color { r: i, g: i, b: i, a: 0x3F80_0000 }).collect()
}

fn key(k: Key) -> Event {
    Event::KeyDown { key: k, repeat: false }
}

fn click(button: Button, swatch: Option<usize>, walk: Vec<Int3>, tile: Int2) -> Event {
    Event::MouseDown { button, swatch, walk, toward_camera: Int3::new(0, 1, 0), tile }
}

#[test]
fn new_session() {
    let s = Session::new(None, palette());
    assert_eq!(s.mode, AppMode::World);
    assert!(!s.palette_open);
    assert_eq!(s.brush, Color::white());
    assert_eq!(s.game.selected_structure, Some(0));
    assert!(s.game.grid.is_empty());
    assert_eq!(s.models.len(), 10);
    let s = Session::new(Some(12), palette());
    assert_eq!(s.game.selected_structure, Some(9));
    assert_eq!(s.game.get(Int2::new(16, 16)).unwrap().structure_id, 9);
    assert!(s.single);
}

#[test]
fn structure_zero_shows_the_palette() {
    let pal = palette();
    let s = Session::new(None, pal.clone());
    for i in 0..256usize {
        assert_eq!(s.models[0].get((i % 16) as i32, 0, (i / 16) as i32), Some(pal[i]));
    }
}

#[test]
fn command_line_choice() {
    assert_eq!(single_choice(Some(3)), Some(3));
    assert_eq!(single_choice(Some(9)), Some(9));
    assert_eq!(single_choice(Some(10)), None);
    assert_eq!(single_choice(None), None);
}

#[test]
fn cycling_structures() {
    assert_eq!(prev_structure_of(Some(0)), 9);
    assert_eq!(prev_structure_of(Some(5)), 4);
    assert_eq!(prev_structure_of(None), 9);
    assert_eq!(next_structure_of(Some(9)), 0);
    assert_eq!(next_structure_of(Some(3)), 4);
    assert_eq!(next_structure_of(None), 0);
    for s in 0..10u8 {
        assert_eq!(next_structure_of(Some(prev_structure_of(Some(s)))), s);
    }
    assert_eq!(structure_for_digit(1), 0);
    assert_eq!(structure_for_digit(9), 8);
    assert_eq!(structure_for_digit(0), 9);
}

#[test]
fn world_keys() {
    let mut s = Session::new(None, palette());
    assert_eq!(s.handle(&key(Key::Q)), vec![Action::RotateCamera(Turn::Left)]);
    assert_eq!(s.handle(&key(Key::R)), vec![Action::RotateCamera(Turn::Right)]);
    assert!(s.handle(&key(Key::A)).is_empty());
    assert_eq!(s.game.selected_structure, Some(9));
    s.handle(&key(Key::D));
    s.handle(&key(Key::D));
    assert_eq!(s.game.selected_structure, Some(1));
    assert!(s.game.grid.is_empty());
    s.handle(&key(Key::Digit(0)));
    assert_eq!(s.game.selected_structure, Some(9));
    // C does nothing in the world view; repeats are ignored
    assert!(s.handle(&key(Key::C)).is_empty());
    assert!(!s.palette_open);
    assert!(s.handle(&Event::KeyDown { key: Key::Q, repeat: true }).is_empty());
    assert_eq!(s.handle(&Event::Quit), vec![Action::Quit]);
}

#[test]
fn single_mode_swaps_the_center_structure() {
    let mut s = Session::new(Some(3), palette());
    s.handle(&key(Key::D));
    assert_eq!(s.game.selected_structure, Some(4));
    assert_eq!(s.game.get(Int2::new(16, 16)).unwrap().structure_id, 4);
    assert_eq!(s.game.grid.len(), 1);
    s.handle(&key(Key::A));
    s.handle(&key(Key::A));
    assert_eq!(s.game.get(Int2::new(16, 16)).unwrap().structure_id, 2);
}

#[test]
fn editor_round_trip() {
    let mut s = Session::new(None, palette());
    s.handle(&key(Key::Digit(3)));
    let acts = s.handle(&key(Key::E));
    assert_eq!(
        acts,
        vec![
            Action::SaveWorldCamera,
            Action::ResetFlyCamera { id: 2, from_world_viewport: true },
            Action::CaptureMouse(true)
        ]
    );
    assert_eq!(s.mode, AppMode::VoxelEditor);
    assert!(s.fly_controls_active());
    assert!(s.handle(&key(Key::Q)).is_empty());
    assert_eq!(s.handle(&key(Key::C)), vec![Action::CaptureMouse(false)]);
    assert!(s.palette_open);
    assert!(!s.fly_controls_active());
    assert_eq!(s.handle(&key(Key::Escape)), vec![Action::CaptureMouse(true)]);
    assert!(!s.palette_open);
    assert!(s.handle(&key(Key::Escape)).is_empty());
    assert_eq!(
        s.handle(&key(Key::Digit(5))),
        vec![Action::ResetFlyCamera { id: 4, from_world_viewport: false }]
    );
    assert_eq!(s.handle(&key(Key::E)), vec![Action::RestoreWorldCamera, Action::CaptureMouse(false)]);
    assert_eq!(s.mode, AppMode::World);
}

#[test]
fn palette_pick_sets_the_brush() {
    let pal = palette();
    let mut s = Session::new(None, pal.clone());
    s.handle(&key(Key::E));
    s.handle(&key(Key::C));
    // a right click on the palette does nothing, a left click off the swatches neither
    assert!(s.handle(&click(Button::Right, Some(5), vec![], Int2::new(0, 0))).is_empty());
    assert!(s.handle(&click(Button::Left, None, vec![], Int2::new(0, 0))).is_empty());
    assert!(s.palette_open);
    assert_eq!(s.handle(&click(Button::Left, Some(42), vec![], Int2::new(0, 0))), vec![Action::CaptureMouse(true)]);
    assert_eq!(s.brush, pal[42]);
    assert!(!s.palette_open);
}

#[test]
fn world_clicks_toggle_tiles() {
    let mut s = Session::new(None, palette());
    s.handle(&key(Key::Digit(4)));
    let t = Int2::new(5, 6);
    s.handle(&click(Button::Left, None, vec![], t));
    assert_eq!(s.game.get(t).unwrap().structure_id, 3);
    s.handle(&click(Button::Left, None, vec![], t));
    assert!(s.game.get(t).is_none());
    // outside the 32 x 32 grid, or with another button, nothing happens
    s.handle(&click(Button::Left, None, vec![], Int2::new(32, 0)));
    s.handle(&click(Button::Left, None, vec![], Int2::new(0, -1)));
    s.handle(&click(Button::Right, None, vec![], t));
    assert!(s.game.grid.is_empty());
}

#[test]
fn editor_clicks_edit_the_selected_model() {
    let mut s = Session::new(None, palette());
    s.handle(&key(Key::Digit(7))); // warehouse: solid from the floor up to y = 5
    s.handle(&key(Key::E));
    let sid = 6usize;
    // a ray along the roof layer y = 6 (metal over x, z in 1..15)
    let walk = vec![Int3::new(0, 6, 4), Int3::new(1, 6, 4), Int3::new(2, 6, 4), Int3::new(3, 6, 4)];
    // middle click picks the color of the hit voxel
    let before = s.models[sid].get(1, 6, 4).unwrap();
    assert!(s.handle(&click(Button::Middle, None, walk.clone(), Int2::new(0, 0))).is_empty());
    assert_eq!(s.brush, before);
    // left click removes the hit voxel
    assert_eq!(s.handle(&click(Button::Left, None, walk.clone(), Int2::new(0, 0))), vec![Action::RebuildMesh(6)]);
    assert_eq!(s.models[sid].get(1, 6, 4), None);
    // the next left click goes one deeper
    s.handle(&click(Button::Left, None, walk.clone(), Int2::new(0, 0)));
    assert_eq!(s.models[sid].get(2, 6, 4), None);
    // right click places the brush in front of the hit voxel
    s.brush = Color { r: 1, g: 2, b: 3, a: 0x3F80_0000 };
    assert_eq!(s.handle(&click(Button::Right, None, walk.clone(), Int2::new(0, 0))), vec![Action::RebuildMesh(6)]);
    assert_eq!(s.models[sid].get(2, 6, 4), Some(Color { r: 1, g: 2, b: 3, a: 0x3F80_0000 }));
    // clicks that miss change nothing
    let miss = vec![Int3::new(0, 6, 0), Int3::new(0, 7, 0)];
    assert!(s.handle(&click(Button::Left, None, miss, Int2::new(0, 0))).is_empty());
}

#[test]
fn the_board_holds_at_most_one_structure_per_tile() {
    let mut s = Session::new(None, palette());
    for x in -2..34 {
        for y in [-1, 0, 31, 32] {
            s.handle(&click(Button::Left, None, vec![], Int2::new(x, y)));
        }
    }
    // only the 32 x 2 on-board tiles were filled
    assert_eq!(s.game.grid.len(), 64);
    assert!(s.game.grid.values().all(|p| (0..32).contains(&p.tile.x) && (0..32).contains(&p.tile.y)));
}
