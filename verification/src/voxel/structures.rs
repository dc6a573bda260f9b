//! The pre-built voxel models of the buildable structures (16x16 footprint each).

use vstd::prelude::*;

use crate::color::Color;
use crate::coords::Int3;
use crate::voxel::model::{in_bounds, lemma_voxel_after_set, ModelView, VoxelModel};

verus! {

/// Number of pre-built structures (ids `0..STRUCTURE_COUNT`).
pub const STRUCTURE_COUNT: usize = 10;

/// `v` is a well-formed model of extent `dim` whose every cell holds `shape` of its coordinates.
pub open spec fn shaped(v: ModelView, dim: Int3, shape: spec_fn(int, int, int) -> Color) -> bool {
    &&& v.wf()
    &&& v.dim == dim
    &&& forall|x: int, y: int, z: int|
        in_bounds(dim, x, y, z) ==> #[trigger] v.voxel(x, y, z) == shape(x, y, z)
}

/// `|v|` on integers.
pub open spec fn abs(v: int) -> int {
    if v < 0 {
        -v
    } else {
        v
    }
}

pub open spec fn min(a: int, b: int) -> int {
    if a <= b {
        a
    } else {
        b
    }
}

fn abs_i32(v: i32) -> (r: i32)
    requires
        v > i32::MIN,
    ensures
        r == abs(v as int),
{
    if v < 0 {
        -v
    } else {
        v
    }
}

fn min_i32(a: i32, b: i32) -> (r: i32)
    ensures
        r == min(a as int, b as int),
{
    if a <= b {
        a
    } else {
        b
    }
}

/// Which cells `y` of a column `(x, z)` a painting pass covers: `span.0 <= y < span.1`.
#[derive(Clone, Copy)]
pub enum Profile {
    /// The same span for every column.
    Slab { lo: i32, hi: i32 },
    /// Tower wall: `0..12` inside the disc.
    TowerBody,
    /// Tower battlements: `12..14` inside the disc on every other row and column.
    TowerCrown,
    /// Hut roof: `3..min(peak, 5)`.
    HutRoof,
    /// Barn roof: `4..7` below `4 + slope / 2 + 1`.
    BarnRoof,
    /// House roof: `4..7` up to `4 + max(3 - min(dist, 3), 0)`.
    HouseRoof,
    /// Silo wall: `0..9` inside the disc of radius 5.
    SiloBody,
    /// Silo cap: `9..11` inside the smaller disc.
    SiloCap,
    /// Fort merlons: `6..7` on every other row and column from 2.
    Merlons,
}

/// Inside the tower's round footprint centred on (7, 7).
pub open spec fn tower_disc(x: int, z: int) -> bool {
    (x - 7) * (x - 7) + (z - 7) * (z - 7) <= 4 * 4 + 2
}

/// Squared distance from the silo axis (7, 7).
pub open spec fn silo_dist2(x: int, z: int) -> int {
    (x - 7) * (x - 7) + (z - 7) * (z - 7)
}

/// `n / 2` rounded toward zero, as integer division does on machine integers.
pub open spec fn half_toward_zero(n: int) -> int {
    if n >= 0 {
        n / 2
    } else {
        -((-n) / 2)
    }
}

/// Roof peak height of the small hut above column `(x, z)`.
pub open spec fn hut_peak(x: int, z: int) -> int {
    2 + half_toward_zero(6 - min(abs(x - 6), abs(z - 6)))
}

/// Distance of column `(x, z)` from the barn's outline.
pub open spec fn barn_slope(x: int, z: int) -> int {
    min(min(x - 2, 13 - x), min(z - 2, 13 - z))
}

/// Distance of column `x` from the house's ridge (which covers x = 7 and x = 8).
pub open spec fn house_ridge_dist(x: int) -> int {
    min(abs(x - 8), abs(x - 7))
}

/// Top of the house roof (inclusive) above column `x`.
pub open spec fn house_roof_top(x: int) -> int {
    let t = 3 - min(house_ridge_dist(x), 3);
    4 + if t >= 0 { t } else { 0 }
}

pub open spec fn profile_span(p: Profile, x: int, z: int) -> (int, int) {
    match p {
        Profile::Slab { lo, hi } => (lo as int, hi as int),
        Profile::TowerBody => if tower_disc(x, z) { (0, 12) } else { (0, 0) },
        Profile::TowerCrown => if tower_disc(x, z) && ((x - 7) % 2 == 0 || (z - 7) % 2 == 0) {
            (12, 14)
        } else {
            (12, 12)
        },
        Profile::HutRoof => (3, min(hut_peak(x, z), 5)),
        Profile::BarnRoof => if barn_slope(x, z) >= 0 {
            (4, min(7, 4 + barn_slope(x, z) / 2 + 1))
        } else {
            (4, 4)
        },
        Profile::HouseRoof => (4, min(7, house_roof_top(x) + 1)),
        Profile::SiloBody => if silo_dist2(x, z) <= 5 * 5 + 1 { (0, 9) } else { (0, 0) },
        Profile::SiloCap => if silo_dist2(x, z) <= 5 * 5 + 1 && silo_dist2(x, z) <= 4 * 4 + 2 {
            (9, 11)
        } else {
            (9, 9)
        },
        Profile::Merlons => if (x - 2) % 2 == 0 || (z - 2) % 2 == 0 { (6, 7) } else { (6, 6) },
    }
}

/// Squared distance of column `(x, z)` from the column `(7, 7)`.
fn dist2_from_center(x: i32, z: i32) -> (r: i32)
    requires
        0 <= x <= 16,
        0 <= z <= 16,
    ensures
        r == (x - 7) * (x - 7) + (z - 7) * (z - 7),
{
    let dx = x - 7;
    let dz = z - 7;
    assert(0 <= dx * dx <= 81) by (nonlinear_arith)
        requires
            -7 <= dx <= 9,
    ;
    assert(0 <= dz * dz <= 81) by (nonlinear_arith)
        requires
            -7 <= dz <= 9,
    ;
    dx * dx + dz * dz
}

impl Profile {
    /// The span of column `(x, z)`.
    fn span(&self, x: i32, z: i32) -> (r: (i32, i32))
        requires
            0 <= x <= 16,
            0 <= z <= 16,
        ensures
            (r.0 as int, r.1 as int) == profile_span(*self, x as int, z as int),
    {
        match *self {
            Profile::Slab { lo, hi } => (lo, hi),
            Profile::TowerBody => {
                if dist2_from_center(x, z) <= 4 * 4 + 2 {
                    (0, 12)
                } else {
                    (0, 0)
                }
            },
            Profile::TowerCrown => {
                if dist2_from_center(x, z) <= 4 * 4 + 2 && ((x - 7) % 2 == 0 || (z
                    - 7) % 2 == 0) {
                    (12, 14)
                } else {
                    (12, 12)
                }
            },
            Profile::HutRoof => {
                let num = 6 - min_i32(abs_i32(x - 6), abs_i32(z - 6));
                let half = if num >= 0 {
                    num / 2
                } else {
                    -((-num) / 2)
                };
                let peak = 2 + half;
                (3, min_i32(peak, 5))
            },
            Profile::BarnRoof => {
                let slope = min_i32(min_i32(x - 2, 13 - x), min_i32(z - 2, 13 - z));
                if slope >= 0 {
                    (4, min_i32(7, 4 + (slope / 2) + 1))
                } else {
                    (4, 4)
                }
            },
            Profile::HouseRoof => {
                let dist_from_peak = min_i32(abs_i32(x - 8), abs_i32(x - 7));
                let t = 3 - min_i32(dist_from_peak, 3);
                let top = 4 + if t >= 0 {
                    t
                } else {
                    0
                };
                (4, min_i32(7, top + 1))
            },
            Profile::SiloBody => {
                if dist2_from_center(x, z) <= 5 * 5 + 1 {
                    (0, 9)
                } else {
                    (0, 0)
                }
            },
            Profile::SiloCap => {
                let d = dist2_from_center(x, z);
                if d <= 5 * 5 + 1 && d <= (5 - 1) * (5 - 1) + 2 {
                    (9, 11)
                } else {
                    (9, 9)
                }
            },
            Profile::Merlons => {
                if (x - 2) % 2 == 0 || (z - 2) % 2 == 0 {
                    (6, 7)
                } else {
                    (6, 6)
                }
            },
        }
    }
}

/// Paints, for every column `(x, z)` with `x0 <= x < x1` and `z0 <= z < z1`, the cells
/// of the column's span under `profile` with `color`.
fn paint_columns(m: &mut VoxelModel, x0: i32, x1: i32, z0: i32, z1: i32, color: Color, profile: Profile)
    requires
        old(m).wf(),
        0 <= x0,
        x1 <= 16,
        0 <= z0,
        z1 <= 16,
    ensures
        final(m).wf(),
        final(m)@.dim == old(m)@.dim,
        forall|px: int, py: int, pz: int|
            in_bounds(old(m)@.dim, px, py, pz) ==> #[trigger] final(m)@.voxel(px, py, pz) == if x0
                <= px < x1 && z0 <= pz < z1 && profile_span(profile, px, pz).0 <= py
                < profile_span(profile, px, pz).1 {
                color
            } else {
                old(m)@.voxel(px, py, pz)
            },
{
    let ghost base = m@;
    let ghost span = |px: int, pz: int| profile_span(profile, px, pz);
    let mut x = x0;
    while x < x1
        invariant
            m.wf(),
            m@.dim == base.dim,
            base.wf(),
            0 <= x0 <= x,
            x1 <= 16,
            0 <= z0,
            z1 <= 16,
            x <= x1 || x == x0,
            span == (|px: int, pz: int| profile_span(profile, px, pz)),
            forall|px: int, py: int, pz: int|
                in_bounds(base.dim, px, py, pz) ==> #[trigger] m@.voxel(px, py, pz) == if x0 <= px
                    < x && z0 <= pz < z1 && span(px, pz).0 <= py < span(px, pz).1 {
                    color
                } else {
                    base.voxel(px, py, pz)
                },
        decreases x1 - x,
    {
        let mut z = z0;
        while z < z1
            invariant
                m.wf(),
                m@.dim == base.dim,
                base.wf(),
                0 <= x0 <= x < x1,
                x1 <= 16,
                0 <= z0 <= z,
                z1 <= 16,
                z <= z1 || z == z0,
                span == (|px: int, pz: int| profile_span(profile, px, pz)),
                forall|px: int, py: int, pz: int|
                    in_bounds(base.dim, px, py, pz) ==> #[trigger] m@.voxel(px, py, pz) == if ((x0
                        <= px < x && z0 <= pz < z1) || (px == x && z0 <= pz < z)) && span(px, pz).0
                        <= py < span(px, pz).1 {
                        color
                    } else {
                        base.voxel(px, py, pz)
                    },
            decreases z1 - z,
        {
            let (lo, hi) = profile.span(x, z);
            let mut y = lo;
            while y < hi
                invariant
                    m.wf(),
                    m@.dim == base.dim,
                    base.wf(),
                    x0 <= x < x1,
                    z0 <= z < z1,
                    (lo as int, hi as int) == span(x as int, z as int),
                    lo <= y,
                    y <= hi || y == lo,
                    forall|px: int, py: int, pz: int|
                        in_bounds(base.dim, px, py, pz) ==> #[trigger] m@.voxel(px, py, pz) == if (((
                        x0 <= px < x && z0 <= pz < z1) || (px == x && z0 <= pz < z)) && span(
                            px,
                            pz,
                        ).0 <= py < span(px, pz).1) || (px == x && pz == z && lo <= py < y) {
                            color
                        } else {
                            base.voxel(px, py, pz)
                        },
                decreases hi - y,
            {
                let ghost prev = m@;
                m.set(x, y, z, color);
                proof {
                    assert forall|px: int, py: int, pz: int|
                        in_bounds(base.dim, px, py, pz) implies #[trigger] m@.voxel(px, py, pz) == if (((
                        x0 <= px < x && z0 <= pz < z1) || (px == x && z0 <= pz < z)) && span(
                            px,
                            pz,
                        ).0 <= py < span(px, pz).1) || (px == x && pz == z && lo <= py < y + 1) {
                        color
                    } else {
                        base.voxel(px, py, pz)
                    } by {
                        lemma_voxel_after_set(prev, x as int, y as int, z as int, color, px, py, pz);
                        assert(prev.voxel(px, py, pz) == if (((x0 <= px < x && z0 <= pz < z1) || (px
                            == x && z0 <= pz < z)) && span(px, pz).0 <= py < span(px, pz).1) || (px
                            == x && pz == z && lo <= py < y) {
                            color
                        } else {
                            base.voxel(px, py, pz)
                        });
                    }
                }
                y = y + 1;
            }
            z = z + 1;
        }
        x = x + 1;
    }
}

/// Paints the box `[x0, x1) x [y0, y1) x [z0, z1)` with `color`.
fn fill_box(m: &mut VoxelModel, x0: i32, x1: i32, y0: i32, y1: i32, z0: i32, z1: i32, color: Color)
    requires
        old(m).wf(),
        0 <= x0,
        x1 <= 16,
        0 <= z0,
        z1 <= 16,
    ensures
        final(m).wf(),
        final(m)@.dim == old(m)@.dim,
        forall|px: int, py: int, pz: int|
            in_bounds(old(m)@.dim, px, py, pz) ==> #[trigger] final(m)@.voxel(px, py, pz) == if x0
                <= px < x1 && y0 <= py < y1 && z0 <= pz < z1 {
                color
            } else {
                old(m)@.voxel(px, py, pz)
            },
{
    paint_columns(m, x0, x1, z0, z1, color, Profile::Slab { lo: y0, hi: y1 });
}

/// Writes one cell, stated pointwise.
fn put(m: &mut VoxelModel, x: i32, y: i32, z: i32, color: Color)
    requires
        old(m).wf(),
    ensures
        final(m).wf(),
        final(m)@.dim == old(m)@.dim,
        forall|px: int, py: int, pz: int|
            in_bounds(old(m)@.dim, px, py, pz) ==> #[trigger] final(m)@.voxel(px, py, pz) == if px
                == x && py == y && pz == z {
                color
            } else {
                old(m)@.voxel(px, py, pz)
            },
{
    let ghost prev = m@;
    m.set(x, y, z, color);
    proof {
        assert forall|px: int, py: int, pz: int|
            in_bounds(prev.dim, px, py, pz) implies #[trigger] m@.voxel(px, py, pz) == if px == x
            && py == y && pz == z {
            color
        } else {
            prev.voxel(px, py, pz)
        } by {
            lemma_voxel_after_set(prev, x as int, y as int, z as int, color, px, py, pz);
        }
    }
}

// Color palette (channels as `f32` bit patterns).

pub open spec fn spec_stone() -> Color {
    Color { r: 0x3F00_0000, g: 0x3F00_0000, b: 0x3F0C_CCCD, a: 0x3F80_0000 }
}

/// Stone `[0.5, 0.5, 0.55, 1.0]`.
#[verifier::when_used_as_spec(spec_stone)]
pub fn stone() -> (c: Color)
    ensures
        c == spec_stone(),
{
    Color { r: 0x3F00_0000, g: 0x3F00_0000, b: 0x3F0C_CCCD, a: 0x3F80_0000 }
}

pub open spec fn spec_wood() -> Color {
    Color { r: 0x3F0C_CCCD, g: 0x3EB3_3333, b: 0x3E4C_CCCD, a: 0x3F80_0000 }
}

/// Wood `[0.55, 0.35, 0.2, 1.0]`.
#[verifier::when_used_as_spec(spec_wood)]
pub fn wood() -> (c: Color)
    ensures
        c == spec_wood(),
{
    Color { r: 0x3F0C_CCCD, g: 0x3EB3_3333, b: 0x3E4C_CCCD, a: 0x3F80_0000 }
}

pub open spec fn spec_red_roof() -> Color {
    Color { r: 0x3F33_3333, g: 0x3E4C_CCCD, b: 0x3E19_999A, a: 0x3F80_0000 }
}

/// Red roof tiles `[0.7, 0.2, 0.15, 1.0]`.
#[verifier::when_used_as_spec(spec_red_roof)]
pub fn red_roof() -> (c: Color)
    ensures
        c == spec_red_roof(),
{
    Color { r: 0x3F33_3333, g: 0x3E4C_CCCD, b: 0x3E19_999A, a: 0x3F80_0000 }
}

pub open spec fn spec_brick() -> Color {
    Color { r: 0x3F26_6666, g: 0x3EB3_3333, b: 0x3E99_999A, a: 0x3F80_0000 }
}

/// Brick `[0.65, 0.35, 0.3, 1.0]`.
#[verifier::when_used_as_spec(spec_brick)]
pub fn brick() -> (c: Color)
    ensures
        c == spec_brick(),
{
    Color { r: 0x3F26_6666, g: 0x3EB3_3333, b: 0x3E99_999A, a: 0x3F80_0000 }
}

pub open spec fn spec_concrete() -> Color {
    Color { r: 0x3F19_999A, g: 0x3F14_7AE1, b: 0x3F0C_CCCD, a: 0x3F80_0000 }
}

/// Concrete `[0.6, 0.58, 0.55, 1.0]`.
#[verifier::when_used_as_spec(spec_concrete)]
pub fn concrete() -> (c: Color)
    ensures
        c == spec_concrete(),
{
    Color { r: 0x3F19_999A, g: 0x3F14_7AE1, b: 0x3F0C_CCCD, a: 0x3F80_0000 }
}

pub open spec fn spec_metal() -> Color {
    Color { r: 0x3F00_0000, g: 0x3F05_1EB8, b: 0x3F0C_CCCD, a: 0x3F80_0000 }
}

/// Metal `[0.5, 0.52, 0.55, 1.0]`.
#[verifier::when_used_as_spec(spec_metal)]
pub fn metal() -> (c: Color)
    ensures
        c == spec_metal(),
{
    Color { r: 0x3F00_0000, g: 0x3F05_1EB8, b: 0x3F0C_CCCD, a: 0x3F80_0000 }
}

pub open spec fn spec_door() -> Color {
    Color { r: 0x3ECC_CCCD, g: 0x3E80_0000, b: 0x3E19_999A, a: 0x3F80_0000 }
}

/// Door `[0.4, 0.25, 0.15, 1.0]`.
#[verifier::when_used_as_spec(spec_door)]
pub fn door() -> (c: Color)
    ensures
        c == spec_door(),
{
    Color { r: 0x3ECC_CCCD, g: 0x3E80_0000, b: 0x3E19_999A, a: 0x3F80_0000 }
}

pub open spec fn spec_thatch() -> Color {
    Color { r: 0x3F19_999A, g: 0x3EE6_6666, b: 0x3E4C_CCCD, a: 0x3F80_0000 }
}

/// Thatch `[0.6, 0.45, 0.2, 1.0]`.
#[verifier::when_used_as_spec(spec_thatch)]
pub fn thatch() -> (c: Color)
    ensures
        c == spec_thatch(),
{
    Color { r: 0x3F19_999A, g: 0x3EE6_6666, b: 0x3E4C_CCCD, a: 0x3F80_0000 }
}

pub open spec fn spec_cream() -> Color {
    Color { r: 0x3F73_3333, g: 0x3F66_6666, b: 0x3F4C_CCCD, a: 0x3F80_0000 }
}

/// Cream `[0.95, 0.9, 0.8, 1.0]`.
#[verifier::when_used_as_spec(spec_cream)]
pub fn cream() -> (c: Color)
    ensures
        c == spec_cream(),
{
    Color { r: 0x3F73_3333, g: 0x3F66_6666, b: 0x3F4C_CCCD, a: 0x3F80_0000 }
}

pub open spec fn tower_dim() -> Int3 {
    Int3 { x: 16, y: 14, z: 16 }
}

/// Final color of cell `(x, y, z)` of the tower.
pub open spec fn tower_color(x: int, y: int, z: int) -> Color {
    if 3 <= x <= 11 && 3 <= z <= 11 && tower_disc(x, z) && (0 <= y < 12 || (12 <= y < 14 && ((x
        - 7) % 2 == 0 || (z - 7) % 2 == 0))) {
        stone()
    } else {
        Color::zero_spec()
    }
}

/// Round stone tower (radius 4) with battlements.
fn tower() -> (m: VoxelModel)
    ensures
        shaped(m@, tower_dim(), |x: int, y: int, z: int| tower_color(x, y, z)),
{
    let dim = Int3::new(16, 14, 16);
    let mut m = VoxelModel::new(dim);
    let (cx, cz) = (7i32, 7i32);
    let r = 4i32;
    paint_columns(&mut m, cx - r, cx + r + 1, cz - r, cz + r + 1, stone(), Profile::TowerBody);
    paint_columns(&mut m, cx - r, cx + r + 1, cz - r, cz + r + 1, stone(), Profile::TowerCrown);
    assert forall|x: int, y: int, z: int| in_bounds(tower_dim(), x, y, z) implies #[trigger] m@.voxel(
        x,
        y,
        z,
    ) == tower_color(x, y, z) by {}
    m
}


/// Extent of the hut, the cottage (16 x 5 x 16).
pub open spec fn low_dim() -> Int3 {
    Int3 { x: 16, y: 5, z: 16 }
}

/// Extent of the barn, the house, the warehouse and the fort (16 x 7 x 16).
pub open spec fn mid_dim() -> Int3 {
    Int3 { x: 16, y: 7, z: 16 }
}

/// Extent of the factory and the guard post (16 x 9 x 16).
pub open spec fn tall_dim() -> Int3 {
    Int3 { x: 16, y: 9, z: 16 }
}

pub open spec fn silo_dim() -> Int3 {
    Int3 { x: 16, y: 11, z: 16 }
}

pub open spec fn color_test_dim() -> Int3 {
    Int3 { x: 16, y: 1, z: 16 }
}

/// `lo <= v < hi`.
pub open spec fn within(v: int, lo: int, hi: int) -> bool {
    lo <= v < hi
}

/// Final color of cell `(x, y, z)` of the small hut.
pub open spec fn small_hut_color(x: int, y: int, z: int) -> Color {
    if x == 8 && y == 0 && z == 7 {
        door()
    } else if within(x, 3, 13) && within(z, 3, 13) && 3 <= y < min(hut_peak(x, z), 5) {
        red_roof()
    } else if within(x, 2, 14) && within(z, 2, 14) && within(y, 0, 3) {
        wood()
    } else {
        Color::zero_spec()
    }
}

/// Wooden hut with a pyramid roof and a door.
fn small_hut() -> (m: VoxelModel)
    ensures
        shaped(m@, low_dim(), |x: int, y: int, z: int| small_hut_color(x, y, z)),
{
    let mut m = VoxelModel::new(Int3::new(16, 5, 16));
    fill_box(&mut m, 2, 14, 0, 3, 2, 14, wood());
    paint_columns(&mut m, 3, 13, 3, 13, red_roof(), Profile::HutRoof);
    put(&mut m, 8, 0, 7, door());
    assert forall|x: int, y: int, z: int| in_bounds(low_dim(), x, y, z) implies #[trigger] m@.voxel(
        x,
        y,
        z,
    ) == small_hut_color(x, y, z) by {}
    m
}

/// Final color of cell `(x, y, z)` of the barn.
pub open spec fn barn_color(x: int, y: int, z: int) -> Color {
    if (x == 7 || x == 8) && y == 0 && z == 5 {
        door()
    } else if within(x, 2, 14) && within(z, 2, 14) && within(y, 4, 7) && barn_slope(x, z) >= 0 && y
        < 4 + barn_slope(x, z) / 2 + 1 {
        red_roof()
    } else if within(x, 1, 15) && within(z, 1, 15) && within(y, 0, 4) {
        brick()
    } else {
        Color::zero_spec()
    }
}

/// Brick barn with a hipped roof and a double door.
fn barn() -> (m: VoxelModel)
    ensures
        shaped(m@, mid_dim(), |x: int, y: int, z: int| barn_color(x, y, z)),
{
    let mut m = VoxelModel::new(Int3::new(16, 7, 16));
    fill_box(&mut m, 1, 15, 0, 4, 1, 15, brick());
    paint_columns(&mut m, 2, 14, 2, 14, red_roof(), Profile::BarnRoof);
    put(&mut m, 7, 0, 5, door());
    put(&mut m, 8, 0, 5, door());
    assert forall|x: int, y: int, z: int| in_bounds(mid_dim(), x, y, z) implies #[trigger] m@.voxel(
        x,
        y,
        z,
    ) == barn_color(x, y, z) by {}
    m
}

/// Final color of cell `(x, y, z)` of the factory.
pub open spec fn factory_color(x: int, y: int, z: int) -> Color {
    if (within(x, 5, 7) || within(x, 9, 11)) && within(z, 5, 11) && within(y, 6, 9) {
        metal()
    } else if within(x, 1, 15) && within(z, 1, 15) && within(y, 0, 6) {
        concrete()
    } else {
        Color::zero_spec()
    }
}

/// Concrete hall with two metal chimneys.
fn factory() -> (m: VoxelModel)
    ensures
        shaped(m@, tall_dim(), |x: int, y: int, z: int| factory_color(x, y, z)),
{
    let mut m = VoxelModel::new(Int3::new(16, 9, 16));
    fill_box(&mut m, 1, 15, 0, 6, 1, 15, concrete());
    fill_box(&mut m, 5, 7, 6, 9, 5, 11, metal());
    fill_box(&mut m, 9, 11, 6, 9, 5, 11, metal());
    assert forall|x: int, y: int, z: int| in_bounds(tall_dim(), x, y, z) implies #[trigger] m@.voxel(
        x,
        y,
        z,
    ) == factory_color(x, y, z) by {}
    m
}

/// Final color of cell `(x, y, z)` of the house.
pub open spec fn house_color(x: int, y: int, z: int) -> Color {
    if x == 8 && y == 0 && z == 7 {
        door()
    } else if (x == 7 || x == 8) && y == 2 && z == 5 {
        cream()
    } else if within(x, 3, 13) && within(z, 3, 13) && within(y, 4, 7) && y <= house_roof_top(x) {
        red_roof()
    } else if within(x, 2, 14) && within(z, 2, 14) && within(y, 0, 4) {
        cream()
    } else {
        Color::zero_spec()
    }
}

/// Cream house with a gabled roof.
fn house() -> (m: VoxelModel)
    ensures
        shaped(m@, mid_dim(), |x: int, y: int, z: int| house_color(x, y, z)),
{
    let mut m = VoxelModel::new(Int3::new(16, 7, 16));
    fill_box(&mut m, 2, 14, 0, 4, 2, 14, cream());
    paint_columns(&mut m, 3, 13, 3, 13, red_roof(), Profile::HouseRoof);
    put(&mut m, 8, 0, 7, door());
    put(&mut m, 7, 2, 5, cream());
    put(&mut m, 8, 2, 5, cream());
    assert forall|x: int, y: int, z: int| in_bounds(mid_dim(), x, y, z) implies #[trigger] m@.voxel(
        x,
        y,
        z,
    ) == house_color(x, y, z) by {}
    m
}

/// Final color of cell `(x, y, z)` of the silo.
pub open spec fn silo_color(x: int, y: int, z: int) -> Color {
    if 2 <= x <= 12 && 2 <= z <= 12 && silo_dist2(x, z) <= 5 * 5 + 1 && (within(y, 0, 9) || (
    within(y, 9, 11) && silo_dist2(x, z) <= (5 - 1) * (5 - 1) + 2)) {
        concrete()
    } else {
        Color::zero_spec()
    }
}

/// Round concrete silo (radius 5) with a narrower cap.
fn silo() -> (m: VoxelModel)
    ensures
        shaped(m@, silo_dim(), |x: int, y: int, z: int| silo_color(x, y, z)),
{
    let mut m = VoxelModel::new(Int3::new(16, 11, 16));
    let (cx, cz) = (7i32, 7i32);
    let r = 5i32;
    paint_columns(&mut m, cx - r, cx + r + 1, cz - r, cz + r + 1, concrete(), Profile::SiloBody);
    paint_columns(&mut m, cx - r, cx + r + 1, cz - r, cz + r + 1, concrete(), Profile::SiloCap);
    assert forall|x: int, y: int, z: int| in_bounds(silo_dim(), x, y, z) implies #[trigger] m@.voxel(
        x,
        y,
        z,
    ) == silo_color(x, y, z) by {}
    m
}

/// Final color of cell `(x, y, z)` of the warehouse.
pub open spec fn warehouse_color(x: int, y: int, z: int) -> Color {
    if (x == 7 || x == 8) && y == 0 && z == 3 {
        door()
    } else if (within(y, 0, 6) && within(x, 0, 16) && within(z, 0, 16)) || (y == 6 && within(x, 1, 15)
        && within(z, 1, 15)) {
        metal()
    } else {
        Color::zero_spec()
    }
}

/// Metal warehouse covering the whole footprint.
fn warehouse() -> (m: VoxelModel)
    ensures
        shaped(m@, mid_dim(), |x: int, y: int, z: int| warehouse_color(x, y, z)),
{
    let mut m = VoxelModel::new(Int3::new(16, 7, 16));
    fill_box(&mut m, 0, 16, 0, 6, 0, 16, metal());
    fill_box(&mut m, 1, 15, 6, 7, 1, 15, metal());
    put(&mut m, 7, 0, 3, door());
    put(&mut m, 8, 0, 3, door());
    assert forall|x: int, y: int, z: int| in_bounds(mid_dim(), x, y, z) implies #[trigger] m@.voxel(
        x,
        y,
        z,
    ) == warehouse_color(x, y, z) by {}
    m
}

/// Final color of cell `(x, y, z)` of the guard post.
pub open spec fn guard_post_color(x: int, y: int, z: int) -> Color {
    if (within(x, 6, 10) && within(z, 6, 10) && y == 8) || (within(x, 5, 11) && within(z, 5, 11)
        && y == 7) || (within(x, 4, 12) && within(z, 4, 12) && within(y, 2, 7)) {
        wood()
    } else if within(x, 5, 11) && within(z, 5, 11) && within(y, 0, 2) {
        stone()
    } else {
        Color::zero_spec()
    }
}

/// Wooden watch post on a stone base.
fn guard_post() -> (m: VoxelModel)
    ensures
        shaped(m@, tall_dim(), |x: int, y: int, z: int| guard_post_color(x, y, z)),
{
    let mut m = VoxelModel::new(Int3::new(16, 9, 16));
    fill_box(&mut m, 5, 11, 0, 2, 5, 11, stone());
    fill_box(&mut m, 4, 12, 2, 7, 4, 12, wood());
    fill_box(&mut m, 5, 11, 7, 8, 5, 11, wood());
    fill_box(&mut m, 6, 10, 8, 9, 6, 10, wood());
    assert forall|x: int, y: int, z: int| in_bounds(tall_dim(), x, y, z) implies #[trigger] m@.voxel(
        x,
        y,
        z,
    ) == guard_post_color(x, y, z) by {}
    m
}

/// Final color of cell `(x, y, z)` of the cottage.
pub open spec fn cottage_color(x: int, y: int, z: int) -> Color {
    if x == 8 && y == 0 && z == 6 {
        door()
    } else if within(x, 4, 12) && within(z, 4, 12) && within(y, 3, 5) {
        thatch()
    } else if within(x, 3, 13) && within(z, 3, 13) && within(y, 0, 3) {
        wood()
    } else {
        Color::zero_spec()
    }
}

/// Wooden cottage with a thatched roof.
fn cottage() -> (m: VoxelModel)
    ensures
        shaped(m@, low_dim(), |x: int, y: int, z: int| cottage_color(x, y, z)),
{
    let mut m = VoxelModel::new(Int3::new(16, 5, 16));
    fill_box(&mut m, 3, 13, 0, 3, 3, 13, wood());
    fill_box(&mut m, 4, 12, 3, 5, 4, 12, thatch());
    put(&mut m, 8, 0, 6, door());
    assert forall|x: int, y: int, z: int| in_bounds(low_dim(), x, y, z) implies #[trigger] m@.voxel(
        x,
        y,
        z,
    ) == cottage_color(x, y, z) by {}
    m
}

/// Final color of cell `(x, y, z)` of the fort.
pub open spec fn fort_color(x: int, y: int, z: int) -> Color {
    if x == 8 && y == 0 && z == 7 {
        door()
    } else if (within(x, 2, 14) && within(z, 2, 14) && within(y, 0, 5)) || (within(x, 3, 13)
        && within(z, 3, 13) && y == 5) || (within(x, 2, 14) && within(z, 2, 14) && y == 6 && ((x
        - 2) % 2 == 0 || (z - 2) % 2 == 0)) {
        stone()
    } else {
        Color::zero_spec()
    }
}

/// Stone fort with a crenellated top.
fn fort() -> (m: VoxelModel)
    ensures
        shaped(m@, mid_dim(), |x: int, y: int, z: int| fort_color(x, y, z)),
{
    let mut m = VoxelModel::new(Int3::new(16, 7, 16));
    fill_box(&mut m, 2, 14, 0, 5, 2, 14, stone());
    fill_box(&mut m, 3, 13, 5, 6, 3, 13, stone());
    paint_columns(&mut m, 2, 14, 2, 14, stone(), Profile::Merlons);
    put(&mut m, 8, 0, 7, door());
    assert forall|x: int, y: int, z: int| in_bounds(mid_dim(), x, y, z) implies #[trigger] m@.voxel(
        x,
        y,
        z,
    ) == fort_color(x, y, z) by {}
    m
}

/// Final color of cell `(x, y, z)` of the color test: swatch `z * 16 + x` of `palette`.
pub open spec fn color_test_color(palette: Seq<Color>, x: int, y: int, z: int) -> Color {
    palette[z * 16 + x]
}

/// 16 x 16 swatch board: swatch `i` of `palette` at `(i % 16, 0, i / 16)`.
fn color_test(palette: &[Color]) -> (m: VoxelModel)
    requires
        palette@.len() == 256,
    ensures
        shaped(m@, color_test_dim(), |x: int, y: int, z: int| color_test_color(palette@, x, y, z)),
{
    let mut m = VoxelModel::new(Int3::new(16, 1, 16));
    let mut i: usize = 0;
    while i < 256
        invariant
            m.wf(),
            m@.dim == color_test_dim(),
            palette@.len() == 256,
            i <= 256,
            forall|x: int, y: int, z: int|
                in_bounds(color_test_dim(), x, y, z) ==> #[trigger] m@.voxel(x, y, z) == if z * 16
                    + x < i {
                    palette@[z * 16 + x]
                } else {
                    Color::zero_spec()
                },
        decreases 256 - i,
    {
        let x = (i % 16) as i32;
        let z = (i / 16) as i32;
        let ghost prev = m@;
        m.set(x, 0, z, palette[i]);
        proof {
            assert forall|px: int, py: int, pz: int|
                in_bounds(color_test_dim(), px, py, pz) implies #[trigger] m@.voxel(px, py, pz) == if pz
                * 16 + px < i + 1 {
                palette@[pz * 16 + px]
            } else {
                Color::zero_spec()
            } by {
                lemma_voxel_after_set(prev, x as int, 0, z as int, palette@[i as int], px, py, pz);
                assert(prev.voxel(px, py, pz) == if pz * 16 + px < i {
                    palette@[pz * 16 + px]
                } else {
                    Color::zero_spec()
                });
            }
        }
        i = i + 1;
    }
    m
}

/// Extent of structure `id`.
pub open spec fn structure_dim(id: u8) -> Int3 {
    if id == 0 {
        color_test_dim()
    } else if id == 1 {
        tower_dim()
    } else if id == 5 {
        silo_dim()
    } else if id == 3 || id == 7 {
        tall_dim()
    } else if id == 2 || id == 4 || id == 6 || id == 9 {
        mid_dim()
    } else {
        low_dim()
    }
}

/// Final color of cell `(x, y, z)` of structure `id`; ids from 10 on give the small hut.
pub open spec fn structure_color(id: u8, palette: Seq<Color>, x: int, y: int, z: int) -> Color {
    if id == 0 {
        color_test_color(palette, x, y, z)
    } else if id == 1 {
        tower_color(x, y, z)
    } else if id == 2 {
        barn_color(x, y, z)
    } else if id == 3 {
        factory_color(x, y, z)
    } else if id == 4 {
        house_color(x, y, z)
    } else if id == 5 {
        silo_color(x, y, z)
    } else if id == 6 {
        warehouse_color(x, y, z)
    } else if id == 7 {
        guard_post_color(x, y, z)
    } else if id == 8 {
        cottage_color(x, y, z)
    } else if id == 9 {
        fort_color(x, y, z)
    } else {
        small_hut_color(x, y, z)
    }
}

/// The voxel model of structure `id` (0..10); any other id gives the small hut.
/// Structure 0 is a board of the 256 colors of `test_palette`, which the caller supplies.
pub fn get_structure(id: u8, test_palette: &[Color]) -> (m: VoxelModel)
    requires
        id == 0 ==> test_palette@.len() == 256,
    ensures
        shaped(
            m@,
            structure_dim(id),
            |x: int, y: int, z: int| structure_color(id, test_palette@, x, y, z),
        ),
{
    match id {
        0 => color_test(test_palette),
        1 => tower(),
        2 => barn(),
        3 => factory(),
        4 => house(),
        5 => silo(),
        6 => warehouse(),
        7 => guard_post(),
        8 => cottage(),
        9 => fort(),
        _ => small_hut(),
    }
}

/// The color test board shows the palette: swatch `i` sits in cell `(i % 16, 0, i / 16)`, so
/// x runs fastest; with an opaque palette every cell reads back as its swatch.
pub proof fn law_color_test_shows_palette(v: ModelView, palette: Seq<Color>, i: int)
    requires
        palette.len() == 256,
        shaped(v, structure_dim(0), |x: int, y: int, z: int| structure_color(0, palette, x, y, z)),
        0 <= i < 256,
    ensures
        v.voxel(i % 16, 0, i / 16) == palette[i],
        crate::voxel::palette::palette_opaque(palette) ==> v.get(i % 16, 0, i / 16) == Some(palette[i]),
{
    assert(in_bounds(color_test_dim(), i % 16, 0, i / 16));
    assert((i / 16) * 16 + i % 16 == i);
    assert(v.voxel(i % 16, 0, i / 16) == structure_color(0, palette, i % 16, 0, i / 16));
}

} // verus!
