use interestingtech::color::Color;
use interestingtech::coords::Int3;
use interestingtech::voxel::model::VoxelModel;
use interestingtech::voxel::structures::{
    brick, concrete, cream, door, get_structure, metal, red_roof, stone, thatch, wood,
    STRUCTURE_COUNT,
};

fn c(v: [f32; 4]) -> Color {
    Color { r: v[0].to_bits(), g: v[1].to_bits(), b: v[2].to_bits(), a: v[3].to_bits() }
}

const WOOD: [f32; 4] = [0.55, 0.35, 0.2, 1.0];
const STONE: [f32; 4] = [0.5, 0.5, 0.55, 1.0];
const RED_ROOF: [f32; 4] = [0.7, 0.2, 0.15, 1.0];
const BRICK: [f32; 4] = [0.65, 0.35, 0.3, 1.0];
const CONCRETE: [f32; 4] = [0.6, 0.58, 0.55, 1.0];
const METAL: [f32; 4] = [0.5, 0.52, 0.55, 1.0];
const DOOR: [f32; 4] = [0.4, 0.25, 0.15, 1.0];
const THATCH: [f32; 4] = [0.6, 0.45, 0.2, 1.0];
const CREAM: [f32; 4] = [0.95, 0.9, 0.8, 1.0];

fn test_palette() -> Vec<Color> {
    (0..256u32).map(|i| Color { r: i, g: 255 - i, b: i * 7, a: 0x3F80_0000 }).collect()
}

// Independent builders written the straightforward way, one `set` per cell.

fn small_hut() -> VoxelModel {
    let mut m = VoxelModel::new(Int3::new(16, 5, 16));
    for x in 2..14 {
        for z in 2..14 {
            for y in 0..3 {
                m.set(x, y, z, c(WOOD));
            }
        }
    }
    for x in 3..13 {
        for z in 3..13 {
            let peak = 2 + (6i32 - (x - 6i32).abs().min((z - 6i32).abs())) / 2;
            for y in 3..peak.min(5) {
                m.set(x, y, z, c(RED_ROOF));
            }
        }
    }
    m.set(8, 0, 7, c(DOOR));
    m
}

fn tower() -> VoxelModel {
    let mut m = VoxelModel::new(Int3::new(16, 14, 16));
    let (cx, cz) = (7, 7);
    let r = 4;
    for x in (cx - r)..=(cx + r) {
        for z in (cz - r)..=(cz + r) {
            if (x - cx) * (x - cx) + (z - cz) * (z - cz) <= r * r + 2 {
                for y in 0..12 {
                    m.set(x, y, z, c(STONE));
                }
                for y in 12..14 {
                    if (x - cx) % 2 == 0 || (z - cz) % 2 == 0 {
                        m.set(x, y, z, c(STONE));
                    }
                }
            }
        }
    }
    m
}

fn barn() -> VoxelModel {
    let mut m = VoxelModel::new(Int3::new(16, 7, 16));
    for x in 1..15 {
        for z in 1..15 {
            for y in 0..4 {
                m.set(x, y, z, c(BRICK));
            }
        }
    }
    for x in 2..14 {
        for z in 2..14 {
            for y in 4..7 {
                let slope = (x - 2).min(13 - x).min((z - 2).min(13 - z));
                if slope >= 0 && y < 4 + (slope / 2) + 1 {
                    m.set(x, y, z, c(RED_ROOF));
                }
            }
        }
    }
    m.set(7, 0, 5, c(DOOR));
    m.set(8, 0, 5, c(DOOR));
    m
}

fn factory() -> VoxelModel {
    let mut m = VoxelModel::new(Int3::new(16, 9, 16));
    for x in 1..15 {
        for z in 1..15 {
            for y in 0..6 {
                m.set(x, y, z, c(CONCRETE));
            }
        }
    }
    for x in 5..7 {
        for z in 5..11 {
            for y in 6..9 {
                m.set(x, y, z, c(METAL));
            }
        }
    }
    for x in 9..11 {
        for z in 5..11 {
            for y in 6..9 {
                m.set(x, y, z, c(METAL));
            }
        }
    }
    m
}

fn house() -> VoxelModel {
    let mut m = VoxelModel::new(Int3::new(16, 7, 16));
    for x in 2..14 {
        for z in 2..14 {
            for y in 0..4 {
                m.set(x, y, z, c(CREAM));
            }
        }
    }
    for x in 3..13 {
        for z in 3..13 {
            for y in 4..7 {
                let dist_from_peak = (x as i32 - 8).abs().min((x as i32 - 7).abs());
                if y <= 4 + (3 - dist_from_peak.min(3)).max(0) {
                    m.set(x, y, z, c(RED_ROOF));
                }
            }
        }
    }
    m.set(8, 0, 7, c(DOOR));
    m.set(7, 2, 5, c(CREAM));
    m.set(8, 2, 5, c(CREAM));
    m
}

fn silo() -> VoxelModel {
    let mut m = VoxelModel::new(Int3::new(16, 11, 16));
    let (cx, cz) = (7, 7);
    let r = 5;
    for x in (cx - r)..=(cx + r) {
        for z in (cz - r)..=(cz + r) {
            if (x - cx) * (x - cx) + (z - cz) * (z - cz) <= r * r + 1 {
                for y in 0..9 {
                    m.set(x, y, z, c(CONCRETE));
                }
                for y in 9..11 {
                    let d = (x - cx) * (x - cx) + (z - cz) * (z - cz);
                    if d <= (r - 1) * (r - 1) + 2 {
                        m.set(x, y, z, c(CONCRETE));
                    }
                }
            }
        }
    }
    m
}

fn warehouse() -> VoxelModel {
    let mut m = VoxelModel::new(Int3::new(16, 7, 16));
    for x in 0..16 {
        for z in 0..16 {
            for y in 0..6 {
                m.set(x, y, z, c(METAL));
            }
        }
    }
    for x in 1..15 {
        for z in 1..15 {
            m.set(x, 6, z, c(METAL));
        }
    }
    m.set(7, 0, 3, c(DOOR));
    m.set(8, 0, 3, c(DOOR));
    m
}

fn guard_post() -> VoxelModel {
    let mut m = VoxelModel::new(Int3::new(16, 9, 16));
    for x in 5..11 {
        for z in 5..11 {
            for y in 0..2 {
                m.set(x, y, z, c(STONE));
            }
        }
    }
    for x in 4..12 {
        for z in 4..12 {
            for y in 2..7 {
                m.set(x, y, z, c(WOOD));
            }
        }
    }
    for x in 5..11 {
        for z in 5..11 {
            m.set(x, 7, z, c(WOOD));
        }
    }
    for x in 6..10 {
        for z in 6..10 {
            for y in 8..9 {
                m.set(x, y, z, c(WOOD));
            }
        }
    }
    m
}

fn cottage() -> VoxelModel {
    let mut m = VoxelModel::new(Int3::new(16, 5, 16));
    for x in 3..13 {
        for z in 3..13 {
            for y in 0..3 {
                m.set(x, y, z, c(WOOD));
            }
        }
    }
    for x in 4..12 {
        for z in 4..12 {
            for y in 3..5 {
                m.set(x, y, z, c(THATCH));
            }
        }
    }
    m.set(8, 0, 6, c(DOOR));
    m
}

fn fort() -> VoxelModel {
    let mut m = VoxelModel::new(Int3::new(16, 7, 16));
    for x in 2..14 {
        for z in 2..14 {
            for y in 0..5 {
                m.set(x, y, z, c(STONE));
            }
        }
    }
    for x in 3..13 {
        for z in 3..13 {
            m.set(x, 5, z, c(STONE));
        }
    }
    for x in 2..14 {
        for z in 2..14 {
            if (x - 2) % 2 == 0 || (z - 2) % 2 == 0 {
                m.set(x, 6, z, c(STONE));
            }
        }
    }
    m.set(8, 0, 7, c(DOOR));
    m
}

fn color_test(colors: &[Color]) -> VoxelModel {
    let mut m = VoxelModel::new(Int3::new(16, 1, 16));
    for i in 0..256 {
        let x = (i % 16) as i32;
        let z = (i / 16) as i32;
        m.set(x, 0, z, colors[i]);
    }
    m
}

fn same(a: &VoxelModel, b: &VoxelModel) {
    assert_eq!(a.dim, b.dim);
    assert_eq!(a.data, b.data);
}

#[test]
fn palette_constants_are_the_float_colors() {
    assert_eq!(wood(), c(WOOD));
    assert_eq!(stone(), c(STONE));
    assert_eq!(red_roof(), c(RED_ROOF));
    assert_eq!(brick(), c(BRICK));
    assert_eq!(concrete(), c(CONCRETE));
    assert_eq!(metal(), c(METAL));
    assert_eq!(door(), c(DOOR));
    assert_eq!(thatch(), c(THATCH));
    assert_eq!(cream(), c(CREAM));
}

#[test]
fn every_structure_matches_its_cell_by_cell_build() {
    let pal = test_palette();
    same(&get_structure(0, &pal), &color_test(&pal));
    same(&get_structure(1, &pal), &tower());
    same(&get_structure(2, &pal), &barn());
    same(&get_structure(3, &pal), &factory());
    same(&get_structure(4, &pal), &house());
    same(&get_structure(5, &pal), &silo());
    same(&get_structure(6, &pal), &warehouse());
    same(&get_structure(7, &pal), &guard_post());
    same(&get_structure(8, &pal), &cottage());
    same(&get_structure(9, &pal), &fort());
    same(&get_structure(10, &pal), &small_hut());
    same(&get_structure(255, &[]), &small_hut());
}

#[test]
fn structures_have_a_sixteen_by_sixteen_footprint() {
    let pal = test_palette();
    let heights = [1, 14, 7, 9, 7, 11, 7, 9, 5, 7];
    for id in 0..STRUCTURE_COUNT as u8 {
        let m = get_structure(id, &pal);
        assert_eq!(m.dim, Int3::new(16, heights[id as usize], 16));
        assert!(4 * m.face_count() <= u32::MAX as u64);
        let (v, i) = m.to_mesh();
        assert!(!v.is_empty());
        assert_eq!(v.len() * 3, i.len() * 2);
    }
}

#[test]
fn doors_and_landmarks() {
    let pal = test_palette();
    assert_eq!(get_structure(10, &pal).get(8, 0, 7), Some(door()));
    assert_eq!(get_structure(2, &pal).get(7, 0, 5), Some(door()));
    assert_eq!(get_structure(6, &pal).get(8, 0, 3), Some(door()));
    assert_eq!(get_structure(4, &pal).get(8, 2, 5), Some(cream()));
    assert_eq!(get_structure(1, &pal).get(7, 13, 7), Some(stone()));
    assert_eq!(get_structure(1, &pal).get(8, 13, 8), None);
    assert_eq!(get_structure(0, &pal).get(3, 0, 2), Some(pal[35]));
}
