//! Ray picking in a voxel grid: the first solid cell along a ray's cell walk, and the air
//! cell it was entered from (where a new block is placed).

use vstd::prelude::*;

use crate::coords::Int3;
use crate::voxel::model::{in_bounds, ModelView, VoxelModel};

verus! {

/// Solid voxel hit, and the cell the walk stepped from when entering it.
#[derive(Clone, Copy, Debug, PartialEq, Eq, Structural)]
pub struct VoxelRayHit {
    pub solid: Int3,
    /// Empty cell adjacent to the hit face (a placement cell): the walk's cell before the hit,
    /// or, when the walk starts inside the solid, the face neighbour toward the camera, which
    /// may lie outside the grid.
    pub air_before: Int3,
}

/// `p` lies inside the grid of extent `dim`.
pub open spec fn cell_in(dim: Int3, p: Int3) -> bool {
    in_bounds(dim, p.x as int, p.y as int, p.z as int)
}

/// The walk stops at a cell outside the grid or at a solid cell.
pub open spec fn stops_at(v: ModelView, p: Int3) -> bool {
    !cell_in(v.dim, p) || v.is_solid(p.x as int, p.y as int, p.z as int)
}

/// Index of the first cell of `walk`, from `i` on, where the walk stops; `walk.len()` if none.
pub open spec fn first_stop(v: ModelView, walk: Seq<Int3>, i: int) -> int
    decreases walk.len() - i,
{
    if i >= walk.len() || i < 0 {
        walk.len() as int
    } else if stops_at(v, walk[i]) {
        i
    } else {
        first_stop(v, walk, i + 1)
    }
}

/// The face neighbour `solid + step` of the hit cell, on the camera side.
pub open spec fn air_cell_toward_camera_spec(solid: Int3, step: Int3) -> Int3 {
    Int3 {
        x: (solid.x + step.x) as i32,
        y: (solid.y + step.y) as i32,
        z: (solid.z + step.z) as i32,
    }
}

/// `a` and `b` share a face: they differ by one along exactly one axis.
pub open spec fn face_neighbors(a: Int3, b: Int3) -> bool {
    let dx = if a.x >= b.x { a.x - b.x } else { b.x - a.x };
    let dy = if a.y >= b.y { a.y - b.y } else { b.y - a.y };
    let dz = if a.z >= b.z { a.z - b.z } else { b.z - a.z };
    dx + dy + dz == 1
}

/// Each cell of the walk shares a face with the one before it.
pub open spec fn walk_connected(walk: Seq<Int3>) -> bool {
    forall|i: int| 0 < i < walk.len() ==> face_neighbors(#[trigger] walk[i], walk[i - 1])
}

/// `s` is one of the six unit steps along an axis.
pub open spec fn unit_axis_step(s: Int3) -> bool {
    face_neighbors(s, Int3 { x: 0, y: 0, z: 0 })
}

/// Result of picking along `walk`: none if the walk leaves the grid (or ends) before a solid
/// cell; otherwise the solid cell, with the cell visited just before it, or, when the walk
/// starts inside a solid, the neighbour toward the camera.
pub open spec fn raycast_result(v: ModelView, walk: Seq<Int3>, toward_camera: Int3) -> Option<
    VoxelRayHit,
> {
    let k = first_stop(v, walk, 0);
    if k >= walk.len() || !cell_in(v.dim, walk[k]) {
        None
    } else {
        Some(
            VoxelRayHit {
                solid: walk[k],
                air_before: if k > 0 {
                    walk[k - 1]
                } else {
                    air_cell_toward_camera_spec(walk[k], toward_camera)
                },
            },
        )
    }
}

proof fn lemma_first_stop_bounds(v: ModelView, walk: Seq<Int3>, i: int)
    requires
        0 <= i <= walk.len(),
    ensures
        i <= first_stop(v, walk, i) <= walk.len(),
        forall|j: int| i <= j < first_stop(v, walk, i) ==> !stops_at(v, #[trigger] walk[j]),
        first_stop(v, walk, i) < walk.len() ==> stops_at(v, walk[first_stop(v, walk, i)]),
    decreases walk.len() - i,
{
    if i < walk.len() && !stops_at(v, walk[i]) {
        lemma_first_stop_bounds(v, walk, i + 1);
    }
}

/// First solid cell along the cell walk of a ray through the grid `[0, dim)`.
///
/// `walk` lists the unit cells that the ray enters, in order, each sharing a face with the
/// one before; `toward_camera` is the unit step against the ray's dominant axis, used when
/// the ray starts inside a solid cell.
pub fn raycast_voxels(model: &VoxelModel, walk: &[Int3], toward_camera: Int3) -> (r: Option<
    VoxelRayHit,
>)
    requires
        model.wf(),
        walk_connected(walk@),
        unit_axis_step(toward_camera),
    ensures
        r == raycast_result(model@, walk@, toward_camera),
        r matches Some(hit) ==> face_neighbors(hit.solid, hit.air_before),
{
    let ghost v = model@;
    let mut prev_air: Option<Int3> = None;
    let mut i: usize = 0;
    while i < walk.len()
        invariant
            model.wf(),
            v == model@,
            walk_connected(walk@),
            unit_axis_step(toward_camera),
            i <= walk@.len(),
            first_stop(v, walk@, 0) == first_stop(v, walk@, i as int),
            forall|j: int| 0 <= j < i ==> !stops_at(v, #[trigger] walk@[j]),
            prev_air == if i == 0 {
                None
            } else {
                Some(walk@[i - 1])
            },
        decreases walk@.len() - i,
    {
        let p = walk[i];
        if p.x < 0 || p.x >= model.dim.x || p.y < 0 || p.y >= model.dim.y || p.z < 0 || p.z
            >= model.dim.z {
            return None;
        }
        if model.is_solid(p.x, p.y, p.z) {
            let air_before = match prev_air {
                Some(a) => a,
                None => air_cell_toward_camera(p, toward_camera),
            };
            let hit = VoxelRayHit { solid: p, air_before };
            proof {
                lemma_first_stop_bounds(v, walk@, i as int);
                law_hit_is_solid(v, walk@, toward_camera);
            }
            return Some(hit);
        }
        prev_air = Some(p);
        i = i + 1;
    }
    proof {
        lemma_first_stop_bounds(v, walk@, i as int);
    }
    None
}

/// When the ray starts inside a solid with no recorded air step, picks the face neighbour
/// `solid + step` on the camera side.
pub fn air_cell_toward_camera(solid: Int3, step: Int3) -> (c: Int3)
    requires
        i32::MIN <= solid.x + step.x <= i32::MAX,
        i32::MIN <= solid.y + step.y <= i32::MAX,
        i32::MIN <= solid.z + step.z <= i32::MAX,
    ensures
        c == air_cell_toward_camera_spec(solid, step),
{
    Int3 { x: solid.x + step.x, y: solid.y + step.y, z: solid.z + step.z }
}

/// Distance between two coordinates along one axis.
fn axis_gap(a: i32, b: i32) -> (d: i64)
    ensures
        d == (if a >= b {
            a - b
        } else {
            b - a
        }),
{
    if a >= b {
        a as i64 - b as i64
    } else {
        b as i64 - a as i64
    }
}

/// Whether `a` and `b` share a face.
pub fn are_face_neighbors(a: Int3, b: Int3) -> (r: bool)
    ensures
        r == face_neighbors(a, b),
{
    axis_gap(a.x, b.x) + axis_gap(a.y, b.y) + axis_gap(a.z, b.z) == 1
}

/// Whether each cell of `walk` shares a face with the one before it.
pub fn walk_is_connected(walk: &[Int3]) -> (r: bool)
    ensures
        r == walk_connected(walk@),
{
    let mut i: usize = 1;
    while i < walk.len()
        invariant
            1 <= i,
            i <= walk@.len() || walk@.len() == 0,
            forall|j: int| 0 < j < i && j < walk@.len() ==> face_neighbors(#[trigger] walk@[j], walk@[j - 1]),
        decreases walk@.len() - i,
    {
        if !are_face_neighbors(walk[i], walk[i - 1]) {
            return false;
        }
        i = i + 1;
    }
    true
}

/// Whether `s` is one of the six unit steps along an axis.
pub fn is_unit_axis_step(s: Int3) -> (r: bool)
    ensures
        r == unit_axis_step(s),
{
    are_face_neighbors(s, Int3 { x: 0, y: 0, z: 0 })
}

/// A hit is a solid cell inside the grid, reached along the walk; when the walk reached it
/// from another cell, the air cell before it is that cell, inside the grid and not solid; and
/// for a walk through face neighbours with a unit camera step, the placement cell always
/// shares a face with the hit. A miss means no solid cell lies on the walk before it leaves
/// the grid.
pub proof fn law_hit_is_solid(v: ModelView, walk: Seq<Int3>, toward_camera: Int3)
    ensures
        raycast_result(v, walk, toward_camera) matches Some(hit) ==> {
            &&& cell_in(v.dim, hit.solid)
            &&& v.is_solid(hit.solid.x as int, hit.solid.y as int, hit.solid.z as int)
            &&& walk.contains(hit.solid)
            &&& first_stop(v, walk, 0) > 0 ==> {
                &&& cell_in(v.dim, hit.air_before)
                &&& !v.is_solid(hit.air_before.x as int, hit.air_before.y as int, hit.air_before.z as int)
            }
            &&& walk_connected(walk) && unit_axis_step(toward_camera) ==> face_neighbors(
                hit.solid,
                hit.air_before,
            )
        },
        raycast_result(v, walk, toward_camera) is None ==> forall|j: int|
            0 <= j < walk.len() && (forall|i: int| 0 <= i < j ==> cell_in(v.dim, #[trigger] walk[i]))
                ==> !(cell_in(v.dim, #[trigger] walk[j]) && v.is_solid(
                walk[j].x as int,
                walk[j].y as int,
                walk[j].z as int,
            )),
{
    lemma_first_stop_bounds(v, walk, 0);
    let k = first_stop(v, walk, 0);
    if k < walk.len() && cell_in(v.dim, walk[k]) {
        assert(walk[k] == walk[k]);
        if k > 0 {
            assert(!stops_at(v, walk[k - 1]));
            if walk_connected(walk) {
                assert(face_neighbors(walk[k], walk[k - 1]));
            }
        }
    }
}

/// The pick is the first solid cell of the walk: a hit is walk cell `k`, every cell before it
/// is an air cell inside the grid, and the placement cell is the cell visited just before the
/// hit; only when the hit is the walk's first cell is it the face neighbour toward the camera.
pub proof fn law_pick_is_first_solid(v: ModelView, walk: Seq<Int3>, toward_camera: Int3)
    ensures
        raycast_result(v, walk, toward_camera) matches Some(hit) ==> exists|k: int|
            0 <= k < walk.len() && #[trigger] walk[k] == hit.solid && (forall|i: int|
                0 <= i < k ==> cell_in(v.dim, #[trigger] walk[i]) && !v.is_solid(
                    walk[i].x as int,
                    walk[i].y as int,
                    walk[i].z as int,
                )) && hit.air_before == if k > 0 {
                walk[k - 1]
            } else {
                Int3 {
                    x: (hit.solid.x + toward_camera.x) as i32,
                    y: (hit.solid.y + toward_camera.y) as i32,
                    z: (hit.solid.z + toward_camera.z) as i32,
                }
            },
{
    lemma_first_stop_bounds(v, walk, 0);
    let k = first_stop(v, walk, 0);
    if k < walk.len() && cell_in(v.dim, walk[k]) {
        assert forall|i: int| 0 <= i < k implies cell_in(v.dim, #[trigger] walk[i]) && !v.is_solid(
            walk[i].x as int,
            walk[i].y as int,
            walk[i].z as int,
        ) by {
            assert(!stops_at(v, walk[i]));
        }
        assert(walk[k] == walk[k]);
    }
}

} // verus!
