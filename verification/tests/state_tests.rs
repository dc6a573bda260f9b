use interestingtech::coords::Int2;
use interestingtech::game::state::{GameState, Placement};

#[test]
fn place_get_remove() {
    let mut g = GameState::new();
    assert!(g.get(Int2::new(3, 4)).is_none());
    g.place(Int2::new(3, 4), 2);
    assert_eq!(g.get(Int2::new(3, 4)), Some(&Placement { tile: Int2::new(3, 4), structure_id: 2 }));
    assert!(g.get(Int2::new(4, 3)).is_none());
    g.place(Int2::new(3, 4), 7);
    assert_eq!(g.get(Int2::new(3, 4)).unwrap().structure_id, 7);
    assert_eq!(g.grid.len(), 1);
    assert_eq!(g.remove(Int2::new(3, 4)), Some(Placement { tile: Int2::new(3, 4), structure_id: 7 }));
    assert!(g.get(Int2::new(3, 4)).is_none());
    assert_eq!(g.remove(Int2::new(3, 4)), None);
}

#[test]
fn extreme_tiles_are_distinct() {
    let mut g = GameState::default();
    let tiles = [
        Int2::new(i32::MIN, i32::MIN),
        Int2::new(i32::MIN, i32::MAX),
        Int2::new(i32::MAX, i32::MIN),
        Int2::new(i32::MAX, i32::MAX),
        Int2::new(0, 0),
        Int2::new(-1, 0),
        Int2::new(0, -1),
    ];
    for (k, t) in tiles.iter().enumerate() {
        g.place(*t, k as u8);
    }
    assert_eq!(g.grid.len(), tiles.len());
    for (k, t) in tiles.iter().enumerate() {
        assert_eq!(g.get(*t), Some(&Placement { tile: *t, structure_id: k as u8 }));
    }
}

#[test]
fn selection() {
    let mut g = GameState::new();
    assert_eq!(g.selected_structure, None);
    g.select_structure(Some(4));
    assert_eq!(g.selected_structure, Some(4));
    g.select_structure(None);
    assert_eq!(g.selected_structure, None);
}

#[test]
fn placement_count_follows_place_and_remove() {
    let mut g = GameState::new();
    g.place(Int2::new(1, 1), 0);
    g.place(Int2::new(2, 1), 0);
    assert_eq!(g.grid.len(), 2);
    g.place(Int2::new(1, 1), 5);
    assert_eq!(g.grid.len(), 2);
    g.remove(Int2::new(9, 9));
    assert_eq!(g.grid.len(), 2);
    g.remove(Int2::new(1, 1));
    assert_eq!(g.grid.len(), 1);
}
