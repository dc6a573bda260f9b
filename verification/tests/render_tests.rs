use interestingtech::color::Color;
use interestingtech::coords::Int2;
use interestingtech::game::state::Placement;
use interestingtech::render::editor_hud::bordered_quad_indices;
use interestingtech::render::fly_camera::{movement_intent, FlyKeys};
use interestingtech::render::instance::{draw_batches, instance_groups, DrawBatch};
use interestingtech::render::palette_overlay::{
    palette_indices, quad_index_buffer, swatch_at_cell, swatch_grid_cell,
};
use interestingtech::voxel::palette::{swatch_color, swatch_recipe, SwatchRecipe, SWATCH_COUNT};
use interestingtech::voxel::structures::get_structure;

fn p(x: i32, y: i32, id: u8) -> Placement {
    Placement { tile: Int2::new(x, y), structure_id: id }
}

#[test]
fn groups_by_structure_in_order() {
    let ps = vec![p(0, 0, 2), p(1, 0, 0), p(2, 0, 2), p(3, 0, 11), p(4, 0, 9)];
    let g = instance_groups(&ps);
    assert_eq!(g.len(), 10);
    assert_eq!(g[0], vec![Int2::new(1, 0)]);
    assert_eq!(g[2], vec![Int2::new(0, 0), Int2::new(2, 0)]);
    assert_eq!(g[9], vec![Int2::new(4, 0)]);
    assert_eq!(g.iter().map(|v| v.len()).sum::<usize>(), 4);
}

#[test]
fn draw_batches_number_instances() {
    let sizes = [2, 0, 3, 1];
    let counts = [36, 36, 0, 12];
    assert_eq!(
        draw_batches(&sizes, &counts),
        vec![
            DrawBatch { structure: 0, first_instance: 0, instance_count: 2 },
            DrawBatch { structure: 3, first_instance: 2, instance_count: 1 },
        ]
    );
    assert!(draw_batches(&[], &[]).is_empty());
}

#[test]
fn quad_indices() {
    assert_eq!(quad_index_buffer(1), vec![0, 1, 2, 0, 2, 3]);
    assert_eq!(bordered_quad_indices(), vec![0, 1, 2, 0, 2, 3, 4, 5, 6, 4, 6, 7]);
    let idx = palette_indices();
    assert_eq!(idx.len(), 6 * 257);
    assert_eq!(&idx[6..12], &[4, 5, 6, 4, 6, 7]);
    assert_eq!(*idx.iter().max().unwrap(), 4 * 257 - 1);
}

#[test]
fn swatch_grid() {
    assert_eq!(swatch_at_cell(0, 0), Some(0));
    assert_eq!(swatch_at_cell(15, 0), Some(15));
    assert_eq!(swatch_at_cell(3, 2), Some(35));
    assert_eq!(swatch_at_cell(15, 15), Some(255));
    assert_eq!(swatch_at_cell(16, 0), None);
    assert_eq!(swatch_at_cell(0, 16), None);
    assert_eq!(swatch_at_cell(-1, 3), None);
    for i in 0..SWATCH_COUNT {
        let (c, r) = swatch_grid_cell(i);
        assert_eq!(swatch_at_cell(c as i32, r as i32), Some(i));
    }
}

#[test]
fn swatch_recipes() {
    let one = 1.0f32.to_bits();
    assert_eq!(swatch_recipe(0), SwatchRecipe::Fixed(Color { r: 0, g: 0, b: 0, a: one }));
    assert_eq!(swatch_recipe(1), SwatchRecipe::Fixed(Color::white()));
    assert_eq!(swatch_recipe(6), SwatchRecipe::Fixed(Color { r: one, g: 0, b: one, a: one }));
    assert_eq!(swatch_recipe(7), SwatchRecipe::Fixed(Color { r: one, g: one, b: 0, a: one }));
    assert_eq!(swatch_recipe(8), SwatchRecipe::Gray { step: 1, steps: 9 });
    assert_eq!(swatch_recipe(15), SwatchRecipe::Gray { step: 8, steps: 9 });
    assert_eq!(swatch_recipe(16), SwatchRecipe::Gray { step: 0, steps: 15 });
    assert_eq!(swatch_recipe(31), SwatchRecipe::Gray { step: 15, steps: 15 });
    assert_eq!(swatch_recipe(32), SwatchRecipe::Hue { col: 0, row: 0 });
    assert_eq!(swatch_recipe(255), SwatchRecipe::Hue { col: 15, row: 13 });
}

#[test]
fn fly_keys() {
    let none = FlyKeys { forward: false, back: false, right: false, left: false, up: false, down: false };
    let v = movement_intent(none);
    assert_eq!((v.x, v.y, v.z), (0, 0, 0));
    let v = movement_intent(FlyKeys { forward: true, right: true, down: true, ..none });
    assert_eq!((v.x, v.y, v.z), (1, 1, -1));
    let v = movement_intent(FlyKeys { forward: true, back: true, left: true, up: true, ..none });
    assert_eq!((v.x, v.y, v.z), (0, -1, 1));
}

#[test]
fn palette_entries_are_opaque() {
    let half = 0.5f32.to_bits();
    let pal: Vec<Color> = (0..SWATCH_COUNT).map(|i| swatch_color(i, half, half, half)).collect();
    assert!(pal.iter().all(|c| c.is_solid()));
    assert_eq!(pal[1], Color::white());
    assert_eq!(pal[40], Color { r: half, g: half, b: half, a: 1.0f32.to_bits() });
    let board = get_structure(0, &pal);
    for i in 0..SWATCH_COUNT {
        assert_eq!(board.get((i % 16) as i32, 0, (i / 16) as i32), Some(pal[i]));
    }
}
