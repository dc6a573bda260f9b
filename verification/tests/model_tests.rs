use interestingtech::color::Color;
use interestingtech::coords::Int3;
use interestingtech::voxel::model::{VoxelModel, VoxelVertex};

fn rgba(r: f32, g: f32, b: f32, a: f32) -> Color {
    Color { r: r.to_bits(), g: g.to_bits(), b: b.to_bits(), a: a.to_bits() }
}

fn red() -> Color {
    rgba(1.0, 0.0, 0.0, 1.0)
}

#[test]
fn new_model_is_all_air() {
    let m = VoxelModel::new(Int3::new(3, 4, 5));
    assert_eq!(m.data.len(), 60);
    for z in 0..5 {
        for y in 0..4 {
            for x in 0..3 {
                assert_eq!(m.get(x, y, z), None);
                assert!(!m.is_solid(x, y, z));
            }
        }
    }
    let (v, i) = m.to_mesh();
    assert!(v.is_empty());
    assert!(i.is_empty());
}

#[test]
fn layout_is_z_then_y_then_x() {
    let mut m = VoxelModel::new(Int3::new(3, 4, 5));
    m.set(2, 1, 3, red());
    // index = z * 3 * 4 + y * 3 + x = 36 + 3 + 2
    assert_eq!(m.data[41], red());
    assert_eq!(m.data.iter().filter(|c| **c == red()).count(), 1);
}

#[test]
fn get_after_set_reads_back() {
    let mut m = VoxelModel::new(Int3::new(4, 4, 4));
    m.set(1, 2, 3, red());
    assert_eq!(m.get(1, 2, 3), Some(red()));
    assert!(m.is_solid(1, 2, 3));
    assert_eq!(m.get(3, 2, 1), None);
    // a translucent color is stored but reads as air
    let ghost = rgba(1.0, 1.0, 1.0, 0.25);
    m.set(0, 0, 0, ghost);
    assert_eq!(m.data[0], ghost);
    assert_eq!(m.get(0, 0, 0), None);
    // erasing
    m.set(1, 2, 3, Color::zero());
    assert_eq!(m.get(1, 2, 3), None);
}

#[test]
fn out_of_bounds_is_ignored() {
    let mut m = VoxelModel::new(Int3::new(2, 2, 2));
    let before = m.data.clone();
    m.set(-1, 0, 0, red());
    m.set(0, 2, 0, red());
    m.set(0, 0, 5, red());
    assert_eq!(m.data, before);
    assert_eq!(m.get(-1, 0, 0), None);
    assert_eq!(m.get(2, 0, 0), None);
    assert_eq!(m.get(0, 0, -1), None);
}

#[test]
fn negative_extents_give_an_empty_grid() {
    let m = VoxelModel::new(Int3::new(-2, -2, 1));
    assert_eq!(m.data.len(), 4);
    assert_eq!(m.get(0, 0, 0), None);
    let (v, i) = m.to_mesh();
    assert!(v.is_empty() && i.is_empty());
}

#[test]
fn single_voxel_has_six_faces() {
    let mut m = VoxelModel::new(Int3::new(3, 3, 3));
    m.set(1, 1, 1, red());
    let (v, i) = m.to_mesh();
    assert_eq!(v.len(), 24);
    assert_eq!(i.len(), 36);
    // -X face first, corners (0,0,1),(0,1,1),(0,1,0),(0,0,0) offset by (1,1,1)
    let expect = |x, y, z| VoxelVertex { color: red(), position: Int3::new(x, y, z), normal: Int3::new(-1, 0, 0) };
    assert_eq!(v[0], expect(1, 1, 2));
    assert_eq!(v[1], expect(1, 2, 2));
    assert_eq!(v[2], expect(1, 2, 1));
    assert_eq!(v[3], expect(1, 1, 1));
    // +Z face last
    assert_eq!(v[20].normal, Int3::new(0, 0, 1));
    assert_eq!(v[20].position, Int3::new(1, 2, 2));
    assert_eq!(v[23].position, Int3::new(1, 1, 2));
    assert_eq!(&i[0..12], &[0, 1, 2, 0, 2, 3, 4, 5, 6, 4, 6, 7]);
    assert!(i.iter().all(|&k| (k as usize) < v.len()));
}

#[test]
fn adjacent_voxels_hide_shared_faces() {
    let mut m = VoxelModel::new(Int3::new(2, 1, 1));
    m.set(0, 0, 0, red());
    m.set(1, 0, 0, rgba(0.0, 1.0, 0.0, 1.0));
    let (v, i) = m.to_mesh();
    assert_eq!(v.len(), 40);
    assert_eq!(i.len(), 60);
    // the first voxel has no +X face, the second no -X face
    assert!(v[0..20].iter().all(|vx| vx.normal != Int3::new(1, 0, 0)));
    assert!(v[20..40].iter().all(|vx| vx.normal != Int3::new(-1, 0, 0)));
}

#[test]
fn faces_at_the_grid_border_are_kept() {
    let mut m = VoxelModel::new(Int3::new(1, 1, 1));
    m.set(0, 0, 0, red());
    let (v, _) = m.to_mesh();
    assert_eq!(v.len(), 24);
    let normals: Vec<Int3> = v.iter().step_by(4).map(|x| x.normal).collect();
    assert_eq!(
        normals,
        vec![
            Int3::new(-1, 0, 0),
            Int3::new(1, 0, 0),
            Int3::new(0, -1, 0),
            Int3::new(0, 1, 0),
            Int3::new(0, 0, -1),
            Int3::new(0, 0, 1)
        ]
    );
}

#[test]
fn face_count_matches_the_mesh() {
    let mut m = VoxelModel::new(Int3::new(4, 4, 4));
    assert_eq!(m.face_count(), 0);
    m.set(1, 1, 1, red());
    assert_eq!(m.face_count(), 6);
    m.set(2, 1, 1, red());
    assert_eq!(m.face_count(), 10);
    let (v, i) = m.to_mesh();
    assert_eq!(v.len() as u64, 4 * m.face_count());
    assert_eq!(i.len() as u64, 6 * m.face_count());
}
