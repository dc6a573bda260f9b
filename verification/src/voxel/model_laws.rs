//! Laws of voxel models: reads and writes, and the shape of the extracted mesh.

use vstd::prelude::*;

use crate::color::Color;
use crate::coords::Int3;
use crate::voxel::model::{
    Face, ModelView, face_offset, face_vertex, in_bounds, lemma_index_in_range,
    lemma_index_injective, mesh_indices, mesh_vertices, quad_pattern,
};

verus! {

broadcast use vstd::seq_lib::lemma_seq_concat_contains_all_elements;

/// Reading a cell after writing it gives back the written color when that color is solid
/// and air otherwise; every other cell keeps its content; a write outside the grid
/// changes nothing. Writes keep the model well formed.
pub proof fn law_get_after_set(v: ModelView, x: int, y: int, z: int, c: Color, qx: int, qy: int, qz: int)
    requires
        v.wf(),
    ensures
        v.set(x, y, z, c).wf(),
        v.set(x, y, z, c).dim == v.dim,
        v.set(x, y, z, c).get(qx, qy, qz) == if in_bounds(v.dim, x, y, z) && qx == x && qy == y
            && qz == z {
            if c.spec_is_solid() {
                Some(c)
            } else {
                None
            }
        } else {
            v.get(qx, qy, qz)
        },
        !in_bounds(v.dim, x, y, z) ==> v.set(x, y, z, c) == v,
{
    if in_bounds(v.dim, x, y, z) {
        lemma_index_in_range(v.dim, x, y, z);
        if in_bounds(v.dim, qx, qy, qz) {
            lemma_index_in_range(v.dim, qx, qy, qz);
            if !(qx == x && qy == y && qz == z) {
                lemma_index_injective(v.dim, x, y, z, qx, qy, qz);
            }
        }
    }
}

/// A face belongs to the mesh of `v` exactly when it is a face of a solid in-bounds voxel,
/// carries that voxel's color, and the cell behind it is not solid.
pub open spec fn is_exposed_face(v: ModelView, f: Face) -> bool {
    &&& in_bounds(v.dim, f.pos.x as int, f.pos.y as int, f.pos.z as int)
    &&& v.is_solid(f.pos.x as int, f.pos.y as int, f.pos.z as int)
    &&& f.dir < 6
    &&& v.face_exposed(f.pos.x as int, f.pos.y as int, f.pos.z as int, f.dir)
    &&& f.color == v.voxel(f.pos.x as int, f.pos.y as int, f.pos.z as int)
}

proof fn lemma_cell_contains(v: ModelView, x: int, y: int, z: int, n: nat, f: Face)
    requires
        i32::MIN <= x <= i32::MAX,
        i32::MIN <= y <= i32::MAX,
        i32::MIN <= z <= i32::MAX,
        n <= 6,
    ensures
        v.cell_faces_upto(x, y, z, n).contains(f) <==> {
            &&& f.pos.x == x
            &&& f.pos.y == y
            &&& f.pos.z == z
            &&& f.dir < n
            &&& v.face_exposed(x, y, z, f.dir)
            &&& f.color == v.voxel(x, y, z)
        },
    decreases n,
{
    if n > 0 {
        lemma_cell_contains(v, x, y, z, (n - 1) as nat, f);
        let d = (n - 1) as u8;
        if v.face_exposed(x, y, z, d) {
            let g = Face { pos: Int3 { x: x as i32, y: y as i32, z: z as i32 }, dir: d, color: v.voxel(x, y, z) };
            assert(seq![g].contains(f) <==> f == g) by {
                if f == g {
                    assert(seq![g][0] == f);
                }
            }
        }
    }
}

proof fn lemma_row_contains(v: ModelView, y: int, z: int, n: int, f: Face)
    requires
        i32::MIN <= y <= i32::MAX,
        i32::MIN <= z <= i32::MAX,
        n <= i32::MAX + 1,
    ensures
        v.row_faces(y, z, n).contains(f) <==> (0 <= f.pos.x < n && v.cell_faces(
            f.pos.x as int,
            y,
            z,
        ).contains(f)),
    decreases n,
{
    if n > 0 {
        lemma_row_contains(v, y, z, n - 1, f);
        lemma_cell_contains(v, n - 1, y, z, 6, f);
    }
}

proof fn lemma_layer_contains(v: ModelView, z: int, n: int, f: Face)
    requires
        i32::MIN <= z <= i32::MAX,
        n <= i32::MAX + 1,
    ensures
        v.layer_faces(z, n).contains(f) <==> (0 <= f.pos.y < n && v.row_faces(
            f.pos.y as int,
            z,
            v.dim.x as int,
        ).contains(f)),
    decreases n,
{
    if n > 0 {
        lemma_layer_contains(v, z, n - 1, f);
        lemma_row_contains(v, n - 1, z, v.dim.x as int, f);
        if v.row_faces(n - 1, z, v.dim.x as int).contains(f) {
            lemma_cell_contains(v, f.pos.x as int, n - 1, z, 6, f);
        }
        if v.row_faces(f.pos.y as int, z, v.dim.x as int).contains(f) {
            lemma_row_contains(v, f.pos.y as int, z, v.dim.x as int, f);
            lemma_cell_contains(v, f.pos.x as int, f.pos.y as int, z, 6, f);
        }
    }
}

proof fn lemma_grid_contains(v: ModelView, n: int, f: Face)
    requires
        n <= i32::MAX + 1,
    ensures
        v.grid_faces(n).contains(f) <==> (0 <= f.pos.z < n && v.layer_faces(
            f.pos.z as int,
            v.dim.y as int,
        ).contains(f)),
    decreases n,
{
    if n > 0 {
        lemma_grid_contains(v, n - 1, f);
        lemma_layer_contains(v, n - 1, v.dim.y as int, f);
        lemma_layer_contains(v, f.pos.z as int, v.dim.y as int, f);
        if v.layer_faces(n - 1, v.dim.y as int).contains(f) {
            lemma_row_contains(v, f.pos.y as int, n - 1, v.dim.x as int, f);
            lemma_cell_contains(v, f.pos.x as int, f.pos.y as int, n - 1, 6, f);
        }
        if v.layer_faces(f.pos.z as int, v.dim.y as int).contains(f) {
            lemma_row_contains(v, f.pos.y as int, f.pos.z as int, v.dim.x as int, f);
            lemma_cell_contains(v, f.pos.x as int, f.pos.y as int, f.pos.z as int, 6, f);
        }
    }
}

/// Face culling: the faces of the mesh are exactly the exposed faces of solid voxels.
pub proof fn law_faces_are_exposed_faces(v: ModelView, f: Face)
    ensures
        v.faces().contains(f) <==> is_exposed_face(v, f),
{
    let (px, py, pz) = (f.pos.x as int, f.pos.y as int, f.pos.z as int);
    lemma_grid_contains(v, v.dim.z as int, f);
    lemma_layer_contains(v, pz, v.dim.y as int, f);
    lemma_row_contains(v, py, pz, v.dim.x as int, f);
    lemma_cell_contains(v, px, py, pz, 6, f);
}

/// A model without solid voxels, such as a freshly created one, has an empty mesh.
pub proof fn law_air_model_has_no_faces(v: ModelView)
    requires
        forall|x: int, y: int, z: int| !v.is_solid(x, y, z),
    ensures
        v.faces().len() == 0,
{
    if v.faces().len() > 0 {
        let f = v.faces()[0];
        assert(v.faces().contains(f));
        law_faces_are_exposed_faces(v, f);
    }
}

/// Layout of the buffers built from a face list: face `j` owns vertices `4j..4j+4`, which are
/// its corners in order, and indices `6j..6j+6`, its two triangles; every index names one of
/// the face's own vertices.
pub proof fn law_mesh_layout(faces: Seq<Face>)
    requires
        4 * faces.len() <= u32::MAX,
    ensures
        mesh_vertices(faces).len() == 4 * faces.len(),
        mesh_indices(faces.len()).len() == 6 * faces.len(),
        forall|j: int, k: int|
            0 <= j < faces.len() && 0 <= k < 4 ==> #[trigger] mesh_vertices(faces)[4 * j + k]
                == face_vertex(faces[j], k),
        forall|j: int, m: int|
            0 <= j < faces.len() && 0 <= m < 6 ==> #[trigger] mesh_indices(faces.len())[6 * j + m]
                == quad_pattern(4 * j)[m],
        forall|i: int|
            0 <= i < 6 * faces.len() ==> #[trigger] mesh_indices(faces.len())[i] < 4
                * faces.len(),
    decreases faces.len(),
{
    if faces.len() > 0 {
        let init = faces.drop_last();
        law_mesh_layout(init);
        let n = faces.len() as int;
        assert forall|j: int, k: int|
            0 <= j < faces.len() && 0 <= k < 4 implies #[trigger] mesh_vertices(faces)[4 * j + k]
            == face_vertex(faces[j], k) by {
            if j < n - 1 {
                assert(init[j] == faces[j]);
                assert(mesh_vertices(init)[4 * j + k] == face_vertex(init[j], k));
            }
        }
        assert forall|j: int, m: int|
            0 <= j < faces.len() && 0 <= m < 6 implies #[trigger] mesh_indices(faces.len())[6 * j
            + m] == quad_pattern(4 * j)[m] by {
            if j < n - 1 {
                assert(mesh_indices(init.len())[6 * j + m] == quad_pattern(4 * j)[m]);
            }
        }
        assert forall|i: int| 0 <= i < 6 * faces.len() implies #[trigger] mesh_indices(
            faces.len(),
        )[i] < 4 * faces.len() by {
            if i < 6 * (n - 1) {
                assert(mesh_indices(init.len())[i] < 4 * init.len());
            } else {
                let m = i - 6 * (n - 1);
                assert(mesh_indices(faces.len())[6 * (n - 1) + m] == quad_pattern(4 * (n - 1))[m]);
            }
        }
    }
}

proof fn lemma_cell_no_dup(v: ModelView, x: int, y: int, z: int, n: nat)
    requires
        i32::MIN <= x <= i32::MAX,
        i32::MIN <= y <= i32::MAX,
        i32::MIN <= z <= i32::MAX,
        n <= 6,
    ensures
        v.cell_faces_upto(x, y, z, n).no_duplicates(),
    decreases n,
{
    if n > 0 {
        lemma_cell_no_dup(v, x, y, z, (n - 1) as nat);
        let a = v.cell_faces_upto(x, y, z, (n - 1) as nat);
        let d = (n - 1) as u8;
        let b: Seq<Face> = if v.face_exposed(x, y, z, d) {
            seq![Face { pos: Int3 { x: x as i32, y: y as i32, z: z as i32 }, dir: d, color: v.voxel(x, y, z) }]
        } else {
            seq![]
        };
        assert forall|i: int, j: int| 0 <= i < a.len() && 0 <= j < b.len() implies a[i] != b[j] by {
            assert(a.contains(a[i]));
            lemma_cell_contains(v, x, y, z, (n - 1) as nat, a[i]);
        }
        vstd::seq_lib::lemma_no_dup_in_concat(a, b);
    }
}

proof fn lemma_row_no_dup(v: ModelView, y: int, z: int, n: int)
    requires
        i32::MIN <= y <= i32::MAX,
        i32::MIN <= z <= i32::MAX,
        n <= i32::MAX + 1,
    ensures
        v.row_faces(y, z, n).no_duplicates(),
    decreases n,
{
    if n > 0 {
        lemma_row_no_dup(v, y, z, n - 1);
        lemma_cell_no_dup(v, n - 1, y, z, 6);
        let a = v.row_faces(y, z, n - 1);
        let b = v.cell_faces(n - 1, y, z);
        assert forall|i: int, j: int| 0 <= i < a.len() && 0 <= j < b.len() implies a[i] != b[j] by {
            assert(a.contains(a[i]));
            assert(b.contains(b[j]));
            lemma_row_contains(v, y, z, n - 1, a[i]);
            lemma_cell_contains(v, n - 1, y, z, 6, b[j]);
        }
        vstd::seq_lib::lemma_no_dup_in_concat(a, b);
    }
}

proof fn lemma_layer_no_dup(v: ModelView, z: int, n: int)
    requires
        i32::MIN <= z <= i32::MAX,
        n <= i32::MAX + 1,
    ensures
        v.layer_faces(z, n).no_duplicates(),
    decreases n,
{
    if n > 0 {
        lemma_layer_no_dup(v, z, n - 1);
        lemma_row_no_dup(v, n - 1, z, v.dim.x as int);
        let a = v.layer_faces(z, n - 1);
        let b = v.row_faces(n - 1, z, v.dim.x as int);
        assert forall|i: int, j: int| 0 <= i < a.len() && 0 <= j < b.len() implies a[i] != b[j] by {
            assert(a.contains(a[i]));
            assert(b.contains(b[j]));
            lemma_layer_contains(v, z, n - 1, a[i]);
            lemma_row_contains(v, n - 1, z, v.dim.x as int, b[j]);
            lemma_cell_contains(v, b[j].pos.x as int, n - 1, z, 6, b[j]);
        }
        vstd::seq_lib::lemma_no_dup_in_concat(a, b);
    }
}

proof fn lemma_grid_no_dup(v: ModelView, n: int)
    requires
        n <= i32::MAX + 1,
    ensures
        v.grid_faces(n).no_duplicates(),
    decreases n,
{
    if n > 0 {
        lemma_grid_no_dup(v, n - 1);
        lemma_layer_no_dup(v, n - 1, v.dim.y as int);
        let a = v.grid_faces(n - 1);
        let b = v.layer_faces(n - 1, v.dim.y as int);
        assert forall|i: int, j: int| 0 <= i < a.len() && 0 <= j < b.len() implies a[i] != b[j] by {
            assert(a.contains(a[i]));
            assert(b.contains(b[j]));
            lemma_grid_contains(v, n - 1, a[i]);
            lemma_layer_contains(v, n - 1, v.dim.y as int, b[j]);
            lemma_row_contains(v, b[j].pos.y as int, n - 1, v.dim.x as int, b[j]);
            lemma_cell_contains(v, b[j].pos.x as int, b[j].pos.y as int, n - 1, 6, b[j]);
        }
        vstd::seq_lib::lemma_no_dup_in_concat(a, b);
    }
}

/// Every exposed face appears in the mesh exactly once.
pub proof fn law_faces_are_distinct(v: ModelView)
    ensures
        v.faces().no_duplicates(),
{
    lemma_grid_no_dup(v, v.dim.z as int);
}

/// The six face directions are, in order, -X, +X, -Y, +Y, -Z, +Z: direction `d` steps by
/// one along axis `d / 2` (x, y, z), toward + when `d` is odd and toward - when it is even.
pub proof fn law_face_directions(d: u8)
    requires
        d < 6,
    ensures
        ({
            let (a, b, c) = face_offset(d);
            &&& (a != 0) == (d / 2 == 0)
            &&& (b != 0) == (d / 2 == 1)
            &&& (c != 0) == (d / 2 == 2)
            &&& -1 <= a <= 1 && -1 <= b <= 1 && -1 <= c <= 1
            &&& a + b + c == if d % 2 == 1 {
                1int
            } else {
                -1int
            }
        }),
{
}

/// A quad vertex sits on the boundary plane of its voxel behind the face's normal: along the
/// normal's axis it is at offset 1 for a + normal and 0 for a - normal, along the other axes
/// at offset 0 or 1.
pub open spec fn on_face_plane(pos: Int3, normal: Int3, p: Int3) -> bool {
    let (ox, oy, oz) = (p.x - pos.x, p.y - pos.y, p.z - pos.z);
    &&& 0 <= ox <= 1 && 0 <= oy <= 1 && 0 <= oz <= 1
    &&& normal.x != 0 ==> ox == (normal.x + 1) / 2
    &&& normal.y != 0 ==> oy == (normal.y + 1) / 2
    &&& normal.z != 0 ==> oz == (normal.z + 1) / 2
}

/// `p` and `q` are one unit apart along a single axis: an edge of a unit square.
pub open spec fn unit_apart(p: Int3, q: Int3) -> bool {
    let dx = if p.x >= q.x { p.x - q.x } else { q.x - p.x };
    let dy = if p.y >= q.y { p.y - q.y } else { q.y - p.y };
    let dz = if p.z >= q.z { p.z - q.z } else { q.z - p.z };
    dx + dy + dz == 1
}

/// Cross product of the edges `p1 - p0` and `p2 - p0`: the turning direction of the triangle
/// `p0, p1, p2`.
pub open spec fn turn(p0: Int3, p1: Int3, p2: Int3) -> (int, int, int) {
    let (ax, ay, az) = (p1.x - p0.x, p1.y - p0.y, p1.z - p0.z);
    let (bx, by, bz) = (p2.x - p0.x, p2.y - p0.y, p2.z - p0.z);
    (ay * bz - az * by, az * bx - ax * bz, ax * by - ay * bx)
}

proof fn lemma_face_quad(f: Face)
    requires
        f.dir < 6,
        0 <= f.pos.x < i32::MAX,
        0 <= f.pos.y < i32::MAX,
        0 <= f.pos.z < i32::MAX,
    ensures
        forall|k: int|
            0 <= k < 4 ==> {
                let n = (#[trigger] face_vertex(f, k)).normal;
                let (a, b, c) = face_offset(f.dir);
                &&& n.x == a && n.y == b && n.z == c
                &&& on_face_plane(f.pos, n, face_vertex(f, k).position)
                &&& face_vertex(f, k).color == f.color
            },
        forall|k1: int, k2: int|
            0 <= k1 < 4 && 0 <= k2 < 4 && k1 != k2 ==> (#[trigger] face_vertex(f, k1)).position
                != (#[trigger] face_vertex(f, k2)).position,
        forall|k: int|
            0 <= k < 4 ==> unit_apart(
                (#[trigger] face_vertex(f, k)).position,
                face_vertex(f, (k + 1) % 4).position,
            ),
        ({
            let (a, b, c) = face_offset(f.dir);
            let s = if f.dir < 4 { 1int } else { -1int };
            turn(face_vertex(f, 0).position, face_vertex(f, 1).position, face_vertex(f, 2).position)
                == (s * a, s * b, s * c)
        }),
{
    let p0 = face_vertex(f, 0).position;
    let p1 = face_vertex(f, 1).position;
    let p2 = face_vertex(f, 2).position;
    let (e1x, e1y, e1z) = (p1.x - p0.x, p1.y - p0.y, p1.z - p0.z);
    let (e2x, e2y, e2z) = (p2.x - p0.x, p2.y - p0.y, p2.z - p0.z);
    if f.dir == 0 {
        assert(e1x == 0 && e1y == 1 && e1z == 0 && e2x == 0 && e2y == 1 && e2z == -1);
    } else if f.dir == 1 {
        assert(e1x == 0 && e1y == 1 && e1z == 0 && e2x == 0 && e2y == 1 && e2z == 1);
    } else if f.dir == 2 {
        assert(e1x == 1 && e1y == 0 && e1z == 0 && e2x == 1 && e2y == 0 && e2z == 1);
    } else if f.dir == 3 {
        assert(e1x == 1 && e1y == 0 && e1z == 0 && e2x == 1 && e2y == 0 && e2z == -1);
    } else if f.dir == 4 {
        assert(e1x == -1 && e1y == 0 && e1z == 0 && e2x == -1 && e2y == -1 && e2z == 0);
    } else {
        assert(e1x == 1 && e1y == 0 && e1z == 0 && e2x == 1 && e2y == -1 && e2z == 0);
    }
    assert(face_vertex(f, (0int + 1) % 4) == face_vertex(f, 1));
    assert(face_vertex(f, (1int + 1) % 4) == face_vertex(f, 2));
    assert(face_vertex(f, (2int + 1) % 4) == face_vertex(f, 3));
    assert(face_vertex(f, (3int + 1) % 4) == face_vertex(f, 0));
    assert(face_vertex(f, 0).position != face_vertex(f, 1).position);
    assert(face_vertex(f, 0).position != face_vertex(f, 2).position);
    assert(face_vertex(f, 0).position != face_vertex(f, 3).position);
    assert(face_vertex(f, 1).position != face_vertex(f, 2).position);
    assert(face_vertex(f, 1).position != face_vertex(f, 3).position);
    assert(face_vertex(f, 2).position != face_vertex(f, 3).position);
}

/// Face `j` of the mesh of `v` is drawn as a quad on its voxel's face: its four vertices are
/// four distinct corners of the voxel, all on the boundary plane on the side the normal points
/// to, consecutive ones (cyclically) sharing an edge of that square; they carry the voxel's
/// color and one normal, the face's direction, which leads from the solid voxel to a cell
/// that is not solid. The first triangle turns around the normal on the X and Y faces and
/// against it on the Z faces.
pub open spec fn quad_on_face(v: ModelView, j: int) -> bool {
    let f = v.faces()[j];
    let mv = mesh_vertices(v.faces());
    let n = mv[4 * j].normal;
    let s = if n.z == 0 { 1int } else { -1int };
    &&& v.is_solid(f.pos.x as int, f.pos.y as int, f.pos.z as int)
    &&& !v.is_solid(f.pos.x + n.x, f.pos.y + n.y, f.pos.z + n.z)
    &&& n == Int3 {
        x: face_offset(f.dir).0 as i32,
        y: face_offset(f.dir).1 as i32,
        z: face_offset(f.dir).2 as i32,
    }
    &&& forall|k: int|
        0 <= k < 4 ==> {
            &&& (#[trigger] mv[4 * j + k]).normal == n
            &&& on_face_plane(f.pos, n, mv[4 * j + k].position)
            &&& mv[4 * j + k].color == f.color
            &&& unit_apart(mv[4 * j + k].position, mv[4 * j + (k + 1) % 4].position)
        }
    &&& forall|k1: int, k2: int|
        0 <= k1 < 4 && 0 <= k2 < 4 && k1 != k2 ==> (#[trigger] mv[4 * j + k1]).position
            != (#[trigger] mv[4 * j + k2]).position
    &&& turn(mv[4 * j].position, mv[4 * j + 1].position, mv[4 * j + 2].position) == (
        s * n.x,
        s * n.y,
        s * n.z,
    )
}

proof fn lemma_mesh_quad_at(v: ModelView, j: int)
    requires
        v.wf(),
        4 * v.faces().len() <= u32::MAX,
        0 <= j < v.faces().len(),
    ensures
        quad_on_face(v, j),
{
    let faces = v.faces();
    let f = faces[j];
    law_mesh_layout(faces);
    assert(faces.contains(f));
    law_faces_are_exposed_faces(v, f);
    assert(f.pos.x < v.dim.x && f.pos.y < v.dim.y && f.pos.z < v.dim.z);
    lemma_face_quad(f);
    let mv = mesh_vertices(faces);
    assert(mv[4 * j + 0] == face_vertex(f, 0));
    assert(mv[4 * j + 1] == face_vertex(f, 1));
    assert(mv[4 * j + 2] == face_vertex(f, 2));
    assert(mv[4 * j + 3] == face_vertex(f, 3));
    assert(mv[4 * j + (3int + 1) % 4] == face_vertex(f, 0));
    assert((f.dir < 4) == (face_offset(f.dir).2 == 0));
}

/// Geometry of the mesh: every face of the mesh is drawn as a quad on its voxel's face (see
/// `quad_on_face`): on the boundary plane behind the face, with the face's normal pointing
/// from the solid voxel into a cell that is not solid.
pub proof fn law_mesh_quads_on_faces(v: ModelView)
    requires
        v.wf(),
        4 * v.faces().len() <= u32::MAX,
    ensures
        forall|j: int| 0 <= j < v.faces().len() ==> #[trigger] quad_on_face(v, j),
{
    assert forall|j: int| 0 <= j < v.faces().len() implies #[trigger] quad_on_face(v, j) by {
        lemma_mesh_quad_at(v, j);
    }
}

} // verus!
