use interestingtech::color::Color;
use interestingtech::coords::Int3;
use interestingtech::voxel::model::VoxelModel;
use interestingtech::voxel::pick::{
    air_cell_toward_camera, are_face_neighbors, is_unit_axis_step, raycast_voxels, walk_is_connected, VoxelRayHit,
};

fn solid() -> Color {
    Color::white()
}

fn cells(v: &[(i32, i32, i32)]) -> Vec<Int3> {
    v.iter().map(|&(x, y, z)| Int3::new(x, y, z)).collect()
}

#[test]
fn first_solid_along_the_walk() {
    let mut m = VoxelModel::new(Int3::new(4, 4, 4));
    m.set(2, 0, 0, solid());
    m.set(3, 0, 0, solid());
    let walk = cells(&[(0, 0, 0), (1, 0, 0), (2, 0, 0), (3, 0, 0)]);
    let hit = raycast_voxels(&m, &walk, Int3::new(-1, 0, 0));
    assert_eq!(hit, Some(VoxelRayHit { solid: Int3::new(2, 0, 0), air_before: Int3::new(1, 0, 0) }));
}

#[test]
fn leaving_the_grid_misses() {
    let mut m = VoxelModel::new(Int3::new(4, 4, 4));
    m.set(0, 1, 0, solid());
    // the walk leaves the grid before reaching the solid cell
    let walk = cells(&[(0, 0, 0), (0, 0, -1), (0, 1, -1), (0, 1, 0)]);
    assert!(walk_is_connected(&walk));
    assert_eq!(raycast_voxels(&m, &walk, Int3::new(1, 0, 0)), None);
    // an empty walk or one through air only misses too
    assert_eq!(raycast_voxels(&m, &[], Int3::new(1, 0, 0)), None);
    assert_eq!(raycast_voxels(&m, &cells(&[(0, 0, 0), (1, 0, 0)]), Int3::new(1, 0, 0)), None);
}

#[test]
fn starting_inside_a_solid_uses_the_camera_side() {
    let mut m = VoxelModel::new(Int3::new(4, 4, 4));
    m.set(1, 1, 1, solid());
    let walk = cells(&[(1, 1, 1), (2, 1, 1)]);
    let hit = raycast_voxels(&m, &walk, Int3::new(0, 1, 0)).unwrap();
    assert_eq!(hit.solid, Int3::new(1, 1, 1));
    assert_eq!(hit.air_before, Int3::new(1, 2, 1));
}

#[test]
fn entering_straight_into_a_solid_places_across_the_face() {
    // a 3x1x1 model whose first cell is solid, entered along +x: the placement cell is the
    // empty cell across the -x face, outside the grid
    let mut m = VoxelModel::new(Int3::new(3, 1, 1));
    m.set(0, 0, 0, solid());
    let walk = cells(&[(0, 0, 0), (1, 0, 0), (2, 0, 0), (3, 0, 0)]);
    let hit = raycast_voxels(&m, &walk, Int3::new(-1, 0, 0));
    assert_eq!(hit, Some(VoxelRayHit { solid: Int3::new(0, 0, 0), air_before: Int3::new(-1, 0, 0) }));
}

#[test]
fn camera_side_is_the_face_neighbour() {
    assert_eq!(air_cell_toward_camera(Int3::new(0, 2, 2), Int3::new(-1, 0, 0)), Int3::new(-1, 2, 2));
    assert_eq!(air_cell_toward_camera(Int3::new(3, 3, 3), Int3::new(0, 0, 1)), Int3::new(3, 3, 4));
    assert_eq!(air_cell_toward_camera(Int3::new(3, 3, 3), Int3::new(0, 0, -1)), Int3::new(3, 3, 2));
    assert_eq!(air_cell_toward_camera(Int3::new(1, 1, 1), Int3::new(0, 1, 0)), Int3::new(1, 2, 1));
}

#[test]
fn walk_and_step_checks() {
    assert!(walk_is_connected(&[]));
    assert!(walk_is_connected(&cells(&[(5, 5, 5)])));
    assert!(walk_is_connected(&cells(&[(0, 0, 0), (1, 0, 0), (1, -1, 0), (1, -1, 1)])));
    assert!(!walk_is_connected(&cells(&[(0, 0, 0), (2, 0, 0)])));
    assert!(!walk_is_connected(&cells(&[(0, 0, 0), (1, 1, 0)])));
    assert!(!walk_is_connected(&cells(&[(0, 0, 0), (0, 0, 0)])));
    assert!(!walk_is_connected(&cells(&[(i32::MIN, 0, 0), (i32::MAX, 0, 0)])));
    assert!(is_unit_axis_step(Int3::new(0, 0, -1)));
    assert!(is_unit_axis_step(Int3::new(1, 0, 0)));
    assert!(!is_unit_axis_step(Int3::new(0, 0, 0)));
    assert!(!is_unit_axis_step(Int3::new(1, 1, 0)));
    assert!(are_face_neighbors(Int3::new(2, 3, 4), Int3::new(2, 3, 5)));
    assert!(!are_face_neighbors(Int3::new(2, 3, 4), Int3::new(3, 4, 4)));
}
