//! Voxel models: a dense RGBA grid with face-culled mesh extraction.

use vstd::prelude::*;

use crate::color::Color;
use crate::coords::Int3;

verus! {

/// Number of cells of a grid with extent `dim`.
pub open spec fn voxel_count(dim: Int3) -> int {
    dim.x * dim.y * dim.z
}

/// An extent of at most 1290 cells along each axis has a cell count, and a layer size, that
/// fit an `i32`: what `VoxelModel::new` asks of its extent.
pub proof fn lemma_extent_fits(dim: Int3)
    requires
        0 <= dim.x <= 1290,
        0 <= dim.y <= 1290,
        0 <= dim.z <= 1290,
    ensures
        i32::MIN <= dim.x * dim.y <= i32::MAX,
        0 <= voxel_count(dim) <= i32::MAX,
{
    let (x, y, z) = (dim.x as int, dim.y as int, dim.z as int);
    assert(0 <= x * y <= 1290 * 1290) by (nonlinear_arith)
        requires
            0 <= x <= 1290,
            0 <= y <= 1290,
    ;
    assert(0 <= x * y * z <= 1290 * 1290 * 1290) by (nonlinear_arith)
        requires
            0 <= x * y <= 1290 * 1290,
            0 <= z <= 1290,
    ;
}

/// `(x, y, z)` lies inside the box `[0, dim)`.
pub open spec fn in_bounds(dim: Int3, x: int, y: int, z: int) -> bool {
    &&& 0 <= x < dim.x
    &&& 0 <= y < dim.y
    &&& 0 <= z < dim.z
}

/// Position of cell `(x, y, z)` in the linear layout `[z][y][x]`.
pub open spec fn linear_index(dim: Int3, x: int, y: int, z: int) -> int {
    z * dim.x * dim.y + y * dim.x + x
}

/// Mathematical content of a voxel model: its extent and the cell colors in `[z][y][x]` order.
#[verifier::ext_equal]
pub struct ModelView {
    pub dim: Int3,
    pub cells: Seq<Color>,
}

/// One exposed face of a solid voxel: the voxel, the face direction
/// (0 = -X, 1 = +X, 2 = -Y, 3 = +Y, 4 = -Z, 5 = +Z) and the voxel's color.
pub struct Face {
    pub pos: Int3,
    pub dir: u8,
    pub color: Color,
}

/// Offset from a voxel to the neighbour that lies behind face `dir`.
pub open spec fn face_offset(dir: u8) -> (int, int, int) {
    if dir == 0 {
        (-1, 0, 0)
    } else if dir == 1 {
        (1, 0, 0)
    } else if dir == 2 {
        (0, -1, 0)
    } else if dir == 3 {
        (0, 1, 0)
    } else if dir == 4 {
        (0, 0, -1)
    } else {
        (0, 0, 1)
    }
}

/// Outward unit normal of face `dir`.
pub open spec fn face_normal(dir: u8) -> Int3 {
    let (a, b, c) = face_offset(dir);
    Int3 { x: a as i32, y: b as i32, z: c as i32 }
}

/// Corner `k` (0..4) of face `dir` of the unit cube, as an offset from the voxel's minimum
/// corner; the corners wind counter-clockwise seen from outside.
pub open spec fn corner(dir: u8, k: int) -> (int, int, int) {
    if dir == 0 {
        if k == 0 { (0, 0, 1) } else if k == 1 { (0, 1, 1) } else if k == 2 { (0, 1, 0) } else { (0, 0, 0) }
    } else if dir == 1 {
        if k == 0 { (1, 0, 0) } else if k == 1 { (1, 1, 0) } else if k == 2 { (1, 1, 1) } else { (1, 0, 1) }
    } else if dir == 2 {
        if k == 0 { (0, 0, 0) } else if k == 1 { (1, 0, 0) } else if k == 2 { (1, 0, 1) } else { (0, 0, 1) }
    } else if dir == 3 {
        if k == 0 { (0, 1, 1) } else if k == 1 { (1, 1, 1) } else if k == 2 { (1, 1, 0) } else { (0, 1, 0) }
    } else if dir == 4 {
        if k == 0 { (1, 1, 0) } else if k == 1 { (0, 1, 0) } else if k == 2 { (0, 0, 0) } else { (1, 0, 0) }
    } else {
        if k == 0 { (0, 1, 1) } else if k == 1 { (1, 1, 1) } else if k == 2 { (1, 0, 1) } else { (0, 0, 1) }
    }
}

/// Mesh vertex of a voxel face: color, integer corner position and face normal.
#[derive(Clone, Copy, Debug, PartialEq, Eq, Structural)]
pub struct VoxelVertex {
    pub color: Color,
    pub position: Int3,
    pub normal: Int3,
}

/// Vertex `k` of face `f`.
pub open spec fn face_vertex(f: Face, k: int) -> VoxelVertex {
    let (a, b, c) = corner(f.dir, k);
    VoxelVertex {
        color: f.color,
        position: Int3 {
            x: (f.pos.x + a) as i32,
            y: (f.pos.y + b) as i32,
            z: (f.pos.z + c) as i32,
        },
        normal: face_normal(f.dir),
    }
}

/// The four vertices of face `f`, in winding order.
pub open spec fn face_vertices(f: Face) -> Seq<VoxelVertex> {
    seq![face_vertex(f, 0), face_vertex(f, 1), face_vertex(f, 2), face_vertex(f, 3)]
}

/// The two triangles `(base, base+1, base+2)` and `(base, base+2, base+3)` of a quad.
pub open spec fn quad_pattern(base: int) -> Seq<u32> {
    seq![base as u32, (base + 1) as u32, (base + 2) as u32, base as u32, (base + 2) as u32, (base + 3) as u32]
}

/// Vertex buffer of a list of faces: four vertices per face, in face order.
pub open spec fn mesh_vertices(faces: Seq<Face>) -> Seq<VoxelVertex>
    decreases faces.len(),
{
    if faces.len() == 0 {
        seq![]
    } else {
        mesh_vertices(faces.drop_last()) + face_vertices(faces.last())
    }
}

/// Index buffer of `n` quads: six indices per quad, quad `j` using vertices `4j..4j+4`.
pub open spec fn mesh_indices(n: nat) -> Seq<u32>
    decreases n,
{
    if n == 0 {
        seq![]
    } else {
        mesh_indices((n - 1) as nat) + quad_pattern(4 * (n - 1))
    }
}

impl ModelView {
    /// The cell count fits an `i32` and matches the length of the color data.
    pub open spec fn wf(self) -> bool {
        &&& 0 <= voxel_count(self.dim) <= i32::MAX
        &&& self.cells.len() == voxel_count(self.dim)
    }

    /// Stored color of an in-bounds cell.
    pub open spec fn voxel(self, x: int, y: int, z: int) -> Color {
        self.cells[linear_index(self.dim, x, y, z)]
    }

    /// The color of a solid in-bounds cell; `None` for air and for cells outside the grid.
    pub open spec fn get(self, x: int, y: int, z: int) -> Option<Color> {
        if in_bounds(self.dim, x, y, z) && self.voxel(x, y, z).spec_is_solid() {
            Some(self.voxel(x, y, z))
        } else {
            None
        }
    }

    pub open spec fn is_solid(self, x: int, y: int, z: int) -> bool {
        self.get(x, y, z) is Some
    }

    /// The model after writing `c` into cell `(x, y, z)`; writes outside the grid are ignored.
    pub open spec fn set(self, x: int, y: int, z: int, c: Color) -> ModelView {
        if in_bounds(self.dim, x, y, z) {
            ModelView { dim: self.dim, cells: self.cells.update(linear_index(self.dim, x, y, z), c) }
        } else {
            self
        }
    }

    /// Face `dir` of cell `(x, y, z)` borders a cell that is not solid.
    pub open spec fn face_exposed(self, x: int, y: int, z: int, dir: u8) -> bool {
        let (a, b, c) = face_offset(dir);
        !self.is_solid(x + a, y + b, z + c)
    }

    /// Exposed faces among the first `n` directions of cell `(x, y, z)`.
    pub open spec fn cell_faces_upto(self, x: int, y: int, z: int, n: nat) -> Seq<Face>
        decreases n,
    {
        if n == 0 {
            seq![]
        } else {
            let d = (n - 1) as u8;
            self.cell_faces_upto(x, y, z, (n - 1) as nat) + if self.face_exposed(x, y, z, d) {
                seq![Face { pos: Int3 { x: x as i32, y: y as i32, z: z as i32 }, dir: d, color: self.voxel(x, y, z) }]
            } else {
                seq![]
            }
        }
    }

    /// Exposed faces of cell `(x, y, z)`, in direction order; none for air.
    pub open spec fn cell_faces(self, x: int, y: int, z: int) -> Seq<Face> {
        if self.is_solid(x, y, z) {
            self.cell_faces_upto(x, y, z, 6)
        } else {
            seq![]
        }
    }

    /// Faces of the cells `x` in `0..n` of row `(y, z)`.
    pub open spec fn row_faces(self, y: int, z: int, n: int) -> Seq<Face>
        decreases n,
    {
        if n <= 0 {
            seq![]
        } else {
            self.row_faces(y, z, n - 1) + self.cell_faces(n - 1, y, z)
        }
    }

    /// Faces of the rows `y` in `0..n` of layer `z`.
    pub open spec fn layer_faces(self, z: int, n: int) -> Seq<Face>
        decreases n,
    {
        if n <= 0 {
            seq![]
        } else {
            self.layer_faces(z, n - 1) + self.row_faces(n - 1, z, self.dim.x as int)
        }
    }

    /// Faces of the layers `z` in `0..n`.
    pub open spec fn grid_faces(self, n: int) -> Seq<Face>
        decreases n,
    {
        if n <= 0 {
            seq![]
        } else {
            self.grid_faces(n - 1) + self.layer_faces(n - 1, self.dim.y as int)
        }
    }

    /// All exposed faces of the model, cells visited in `z`, then `y`, then `x` order.
    pub open spec fn faces(self) -> Seq<Face> {
        self.grid_faces(self.dim.z as int)
    }
}

/// Colors per voxel, layout linearized `[z][y][x]`, length `dim.x * dim.y * dim.z`.
/// A voxel whose alpha is below 0.5 is air and produces no mesh.
pub struct VoxelModel {
    pub data: Vec<Color>,
    pub dim: Int3,
}

impl View for VoxelModel {
    type V = ModelView;

    open spec fn view(&self) -> ModelView {
        ModelView { dim: self.dim, cells: self.data@ }
    }
}

/// An in-bounds cell has a linear index inside the data, and every partial product of
/// the index computation stays between 0 and the cell count.
pub proof fn lemma_index_in_range(dim: Int3, x: int, y: int, z: int)
    requires
        in_bounds(dim, x, y, z),
        voxel_count(dim) <= i32::MAX,
    ensures
        0 <= z * dim.x,
        z * dim.x <= z * dim.x * dim.y,
        0 <= y * dim.x,
        y * dim.x + x < dim.x * dim.y,
        z * dim.x * dim.y + dim.x * dim.y <= voxel_count(dim),
        0 <= linear_index(dim, x, y, z) < voxel_count(dim),
{
    let dx = dim.x as int;
    let dy = dim.y as int;
    let dz = dim.z as int;
    assert(0 <= z * dx) by (nonlinear_arith)
        requires
            0 <= z,
            0 < dx,
    ;
    assert(z * dx <= z * dx * dy) by (nonlinear_arith)
        requires
            0 <= z * dx,
            1 <= dy,
    ;
    assert(0 <= y * dx) by (nonlinear_arith)
        requires
            0 <= y,
            0 < dx,
    ;
    assert(y * dx + x < dx * dy) by (nonlinear_arith)
        requires
            0 <= y < dy,
            0 <= x < dx,
    ;
    assert(z * dx * dy + dx * dy <= dx * dy * dz) by (nonlinear_arith)
        requires
            0 <= z < dz,
            0 < dx,
            0 < dy,
    ;
}

/// Cells in lexicographic `(z, y, x)` order have increasing linear indices.
pub proof fn lemma_index_order(dim: Int3, x1: int, y1: int, z1: int, x2: int, y2: int, z2: int)
    requires
        in_bounds(dim, x1, y1, z1),
        in_bounds(dim, x2, y2, z2),
        voxel_count(dim) <= i32::MAX,
        z1 < z2 || (z1 == z2 && y1 < y2) || (z1 == z2 && y1 == y2 && x1 < x2),
    ensures
        linear_index(dim, x1, y1, z1) < linear_index(dim, x2, y2, z2),
{
    lemma_index_in_range(dim, x1, y1, z1);
    lemma_index_in_range(dim, x2, y2, z2);
    let dx = dim.x as int;
    let dy = dim.y as int;
    if z1 < z2 {
        assert(z1 * dx * dy + dx * dy <= z2 * dx * dy) by (nonlinear_arith)
            requires
                z1 < z2,
                0 < dx,
                0 < dy,
        ;
    } else if y1 < y2 {
        assert(y1 * dx + dx <= y2 * dx) by (nonlinear_arith)
            requires
                y1 < y2,
                0 < dx,
        ;
    }
}

/// Distinct in-bounds cells occupy distinct positions of the linear layout.
pub proof fn lemma_index_injective(dim: Int3, x1: int, y1: int, z1: int, x2: int, y2: int, z2: int)
    requires
        in_bounds(dim, x1, y1, z1),
        in_bounds(dim, x2, y2, z2),
        voxel_count(dim) <= i32::MAX,
        (x1, y1, z1) != (x2, y2, z2),
    ensures
        linear_index(dim, x1, y1, z1) != linear_index(dim, x2, y2, z2),
{
    if z1 < z2 || (z1 == z2 && y1 < y2) || (z1 == z2 && y1 == y2 && x1 < x2) {
        lemma_index_order(dim, x1, y1, z1, x2, y2, z2);
    } else {
        lemma_index_order(dim, x2, y2, z2, x1, y1, z1);
    }
}


proof fn lemma_cell_faces_len_mono(v: ModelView, x: int, y: int, z: int, n: nat, m: nat)
    requires
        n <= m,
    ensures
        v.cell_faces_upto(x, y, z, n).len() <= v.cell_faces_upto(x, y, z, m).len(),
    decreases m,
{
    if n < m {
        lemma_cell_faces_len_mono(v, x, y, z, n, (m - 1) as nat);
    }
}

proof fn lemma_row_faces_len_mono(v: ModelView, y: int, z: int, n: int, m: int)
    requires
        n <= m,
    ensures
        v.row_faces(y, z, n).len() <= v.row_faces(y, z, m).len(),
    decreases m - n,
{
    if n < m && m > 0 {
        lemma_row_faces_len_mono(v, y, z, n, m - 1);
    }
}

proof fn lemma_layer_faces_len_mono(v: ModelView, z: int, n: int, m: int)
    requires
        n <= m,
    ensures
        v.layer_faces(z, n).len() <= v.layer_faces(z, m).len(),
    decreases m - n,
{
    if n < m && m > 0 {
        lemma_layer_faces_len_mono(v, z, n, m - 1);
    }
}

proof fn lemma_grid_faces_len_mono(v: ModelView, n: int, m: int)
    requires
        n <= m,
    ensures
        v.grid_faces(n).len() <= v.grid_faces(m).len(),
    decreases m - n,
{
    if n < m && m > 0 {
        lemma_grid_faces_len_mono(v, n, m - 1);
    }
}

/// Appending one face to a face list appends its four vertices and one quad of indices.
proof fn lemma_mesh_push(faces: Seq<Face>, f: Face)
    ensures
        mesh_vertices(faces.push(f)) == mesh_vertices(faces) + face_vertices(f),
        mesh_indices(faces.push(f).len()) == mesh_indices(faces.len()) + quad_pattern(4 * faces.len() as int),
{
    assert(faces.push(f).drop_last() =~= faces);
    assert(faces.push(f).last() == f);
}

/// Neighbour step behind face `dir`.
fn face_step(dir: u8) -> (r: (i32, i32, i32))
    requires
        dir < 6,
    ensures
        (r.0 as int, r.1 as int, r.2 as int) == face_offset(dir),
{
    if dir == 0 {
        (-1, 0, 0)
    } else if dir == 1 {
        (1, 0, 0)
    } else if dir == 2 {
        (0, -1, 0)
    } else if dir == 3 {
        (0, 1, 0)
    } else if dir == 4 {
        (0, 0, -1)
    } else {
        (0, 0, 1)
    }
}

fn offset_by(pos: Int3, a: i32, b: i32, c: i32) -> (r: Int3)
    requires
        0 <= a <= 1,
        0 <= b <= 1,
        0 <= c <= 1,
        pos.x < i32::MAX,
        pos.y < i32::MAX,
        pos.z < i32::MAX,
    ensures
        r == (Int3 { x: (pos.x + a) as i32, y: (pos.y + b) as i32, z: (pos.z + c) as i32 }),
{
    Int3 { x: pos.x + a, y: pos.y + b, z: pos.z + c }
}

/// Corner positions of face `face` of the unit cube at `pos`, counter-clockwise seen from outside.
fn quad_verts(pos: Int3, face: u8) -> (r: (Int3, Int3, Int3, Int3))
    requires
        pos.x < i32::MAX,
        pos.y < i32::MAX,
        pos.z < i32::MAX,
    ensures
        r.0 == face_vertex(Face { pos, dir: face, color: Color::zero_spec() }, 0).position,
        r.1 == face_vertex(Face { pos, dir: face, color: Color::zero_spec() }, 1).position,
        r.2 == face_vertex(Face { pos, dir: face, color: Color::zero_spec() }, 2).position,
        r.3 == face_vertex(Face { pos, dir: face, color: Color::zero_spec() }, 3).position,
{
    let (a, b, c, d) = if face == 0 {
        ((0, 0, 1), (0, 1, 1), (0, 1, 0), (0, 0, 0))
    } else if face == 1 {
        ((1, 0, 0), (1, 1, 0), (1, 1, 1), (1, 0, 1))
    } else if face == 2 {
        ((0, 0, 0), (1, 0, 0), (1, 0, 1), (0, 0, 1))
    } else if face == 3 {
        ((0, 1, 1), (1, 1, 1), (1, 1, 0), (0, 1, 0))
    } else if face == 4 {
        ((1, 1, 0), (0, 1, 0), (0, 0, 0), (1, 0, 0))
    } else {
        ((0, 1, 1), (1, 1, 1), (1, 0, 1), (0, 0, 1))
    };
    (
        offset_by(pos, a.0, a.1, a.2),
        offset_by(pos, b.0, b.1, b.2),
        offset_by(pos, c.0, c.1, c.2),
        offset_by(pos, d.0, d.1, d.2),
    )
}

/// Appends the quad of face `face` of the voxel at `pos`: four vertices and the indices of
/// its two triangles, numbered from `*vertex_offset`, which then advances by four.
fn add_quad(
    vertices: &mut Vec<VoxelVertex>,
    indices: &mut Vec<u32>,
    vertex_offset: &mut u32,
    pos: Int3,
    normal: Int3,
    color: Color,
    face: u8,
)
    requires
        *old(vertex_offset) + 4 <= u32::MAX,
        pos.x < i32::MAX,
        pos.y < i32::MAX,
        pos.z < i32::MAX,
        normal == face_normal(face),
    ensures
        final(vertices)@ == old(vertices)@ + face_vertices(Face { pos, dir: face, color }),
        final(indices)@ == old(indices)@ + quad_pattern(*old(vertex_offset) as int),
        *final(vertex_offset) == *old(vertex_offset) + 4,
{
    let (v0, v1, v2, v3) = quad_verts(pos, face);
    let base = *vertex_offset;
    vertices.push(VoxelVertex { color, position: v0, normal });
    vertices.push(VoxelVertex { color, position: v1, normal });
    vertices.push(VoxelVertex { color, position: v2, normal });
    vertices.push(VoxelVertex { color, position: v3, normal });
    indices.push(base);
    indices.push(base + 1);
    indices.push(base + 2);
    indices.push(base);
    indices.push(base + 2);
    indices.push(base + 3);
    *vertex_offset = base + 4;
    assert(vertices@ =~= old(vertices)@ + face_vertices(Face { pos, dir: face, color }));
    assert(indices@ =~= old(indices)@ + quad_pattern(base as int));
}

fn face_normal_of(dir: u8) -> (n: Int3)
    requires
        dir < 6,
    ensures
        n == face_normal(dir),
{
    let (a, b, c) = face_step(dir);
    Int3 { x: a, y: b, z: c }
}

/// After a write, an in-bounds cell holds the written color if it is the written cell and
/// its previous color otherwise.
pub proof fn lemma_voxel_after_set(v: ModelView, x: int, y: int, z: int, c: Color, qx: int, qy: int, qz: int)
    requires
        v.wf(),
        in_bounds(v.dim, qx, qy, qz),
    ensures
        v.set(x, y, z, c).wf(),
        v.set(x, y, z, c).dim == v.dim,
        v.set(x, y, z, c).voxel(qx, qy, qz) == if in_bounds(v.dim, x, y, z) && qx == x && qy == y
            && qz == z {
            c
        } else {
            v.voxel(qx, qy, qz)
        },
{
    lemma_index_in_range(v.dim, qx, qy, qz);
    if in_bounds(v.dim, x, y, z) {
        lemma_index_in_range(v.dim, x, y, z);
        if !(qx == x && qy == y && qz == z) {
            lemma_index_injective(v.dim, x, y, z, qx, qy, qz);
        }
    }
}

proof fn lemma_cell_faces_at_most(v: ModelView, x: int, y: int, z: int, n: nat)
    ensures
        v.cell_faces_upto(x, y, z, n).len() <= n,
    decreases n,
{
    if n > 0 {
        lemma_cell_faces_at_most(v, x, y, z, (n - 1) as nat);
    }
}

proof fn lemma_row_faces_at_most(v: ModelView, y: int, z: int, n: int)
    ensures
        v.row_faces(y, z, n).len() <= 6 * (if n > 0 { n } else { 0 }),
    decreases n,
{
    if n > 0 {
        lemma_row_faces_at_most(v, y, z, n - 1);
        lemma_cell_faces_at_most(v, n - 1, y, z, 6);
    }
}

proof fn lemma_layer_faces_at_most(v: ModelView, z: int, n: int, w: int)
    requires
        w == 6 * (if v.dim.x > 0 { v.dim.x as int } else { 0 }),
    ensures
        v.layer_faces(z, n).len() <= w * (if n > 0 { n } else { 0 }),
    decreases n,
{
    if n > 0 {
        lemma_layer_faces_at_most(v, z, n - 1, w);
        lemma_row_faces_at_most(v, n - 1, z, v.dim.x as int);
        assert(w * (n - 1) + w == w * n) by (nonlinear_arith);
    }
}

proof fn lemma_grid_faces_at_most(v: ModelView, n: int, a: int)
    requires
        a == 6 * (if v.dim.x > 0 { v.dim.x as int } else { 0 }) * (if v.dim.y > 0 {
            v.dim.y as int
        } else {
            0
        }),
    ensures
        v.grid_faces(n).len() <= a * (if n > 0 { n } else { 0 }),
    decreases n,
{
    if n > 0 {
        lemma_grid_faces_at_most(v, n - 1, a);
        let w = 6 * (if v.dim.x > 0 { v.dim.x as int } else { 0 });
        lemma_layer_faces_at_most(v, n - 1, v.dim.y as int, w);
        assert(a * (n - 1) + a == a * n) by (nonlinear_arith);
    }
}

/// Each voxel contributes at most six faces.
pub proof fn law_face_count_bound(v: ModelView)
    requires
        v.wf(),
    ensures
        v.faces().len() <= 6 * v.cells.len(),
{
    let dx = if v.dim.x > 0 { v.dim.x as int } else { 0 };
    let dy = if v.dim.y > 0 { v.dim.y as int } else { 0 };
    let dz = if v.dim.z > 0 { v.dim.z as int } else { 0 };
    lemma_grid_faces_at_most(v, v.dim.z as int, 6 * dx * dy);
    if v.dim.x > 0 && v.dim.y > 0 && v.dim.z > 0 {
        assert(6 * dx * dy * dz == 6 * (v.dim.x * v.dim.y * v.dim.z)) by (nonlinear_arith)
            requires
                dx == v.dim.x,
                dy == v.dim.y,
                dz == v.dim.z,
        ;
    } else {
        assert(6 * dx * dy * dz == 0) by (nonlinear_arith)
            requires
                dx == 0 || dy == 0 || dz == 0,
        ;
    }
}

/// Receiver of the faces of a traversal: counts them, and when `build` also appends their
/// vertices and indices.
struct MeshSink {
    build: bool,
    vertices: Vec<VoxelVertex>,
    indices: Vec<u32>,
    vertex_offset: u32,
    count: u64,
}

impl MeshSink {
    /// The sink has received exactly `emitted`.
    spec fn holds(&self, emitted: Seq<Face>) -> bool {
        &&& self.count == emitted.len()
        &&& self.build ==> {
            &&& self.vertices@ == mesh_vertices(emitted)
            &&& self.indices@ == mesh_indices(emitted.len())
            &&& self.vertex_offset == 4 * emitted.len()
        }
    }

    fn new(build: bool) -> (s: MeshSink)
        ensures
            s.holds(seq![]),
            s.build == build,
    {
        MeshSink { build, vertices: Vec::new(), indices: Vec::new(), vertex_offset: 0, count: 0 }
    }

    fn push(&mut self, pos: Int3, color: Color, face: u8, Ghost(emitted): Ghost<Seq<Face>>)
        requires
            old(self).holds(emitted),
            emitted.len() + 1 <= u64::MAX,
            old(self).build ==> 4 * (emitted.len() + 1) <= u32::MAX,
            face < 6,
            pos.x < i32::MAX,
            pos.y < i32::MAX,
            pos.z < i32::MAX,
        ensures
            final(self).holds(emitted.push(Face { pos, dir: face, color })),
            final(self).build == old(self).build,
    {
        if self.build {
            let normal = face_normal_of(face);
            proof {
                lemma_mesh_push(emitted, Face { pos, dir: face, color });
            }
            add_quad(&mut self.vertices, &mut self.indices, &mut self.vertex_offset, pos, normal, color, face);
        }
        self.count = self.count + 1;
    }
}

impl VoxelModel {
    /// The color data matches the extent, whose cell count fits an `i32`.
    pub open spec fn wf(&self) -> bool {
        self@.wf()
    }

    /// An all-air model (every channel +0.0) of extent `dim`. Any extent of at most 1290
    /// along each axis meets the `requires` (see `lemma_extent_fits`).
    pub fn new(dim: Int3) -> (m: VoxelModel)
        requires
            i32::MIN <= dim.x * dim.y <= i32::MAX,
            0 <= voxel_count(dim) <= i32::MAX,
        ensures
            m.wf(),
            m@.dim == dim,
            m@.cells == Seq::new(voxel_count(dim) as nat, |i: int| Color::zero_spec()),
    {
        let len = (dim.x * dim.y * dim.z) as usize;
        let mut data: Vec<Color> = Vec::new();
        let mut i: usize = 0;
        while i < len
            invariant
                i <= len,
                len == voxel_count(dim),
                data@ == Seq::new(i as nat, |k: int| Color::zero_spec()),
            decreases len - i,
        {
            data.push(Color::zero());
            i = i + 1;
            assert(data@ =~= Seq::new(i as nat, |k: int| Color::zero_spec()));
        }
        VoxelModel { data, dim }
    }

    /// Linear index from `x, y, z` (layout `[z][y][x]`).
    fn index(&self, x: i32, y: i32, z: i32) -> (i: usize)
        requires
            self.wf(),
            in_bounds(self.dim, x as int, y as int, z as int),
        ensures
            i == linear_index(self.dim, x as int, y as int, z as int),
            i < self.data@.len(),
    {
        proof {
            lemma_index_in_range(self.dim, x as int, y as int, z as int);
        }
        (z * self.dim.x * self.dim.y + y * self.dim.x + x) as usize
    }

    /// The color at `(x, y, z)` if that cell is inside the grid and solid.
    pub fn get(&self, x: i32, y: i32, z: i32) -> (r: Option<Color>)
        requires
            self.wf(),
        ensures
            r == self@.get(x as int, y as int, z as int),
    {
        if x < 0 || x >= self.dim.x || y < 0 || y >= self.dim.y || z < 0 || z >= self.dim.z {
            return None;
        }
        let c = self.data[self.index(x, y, z)];
        if c.is_solid() {
            Some(c)
        } else {
            None
        }
    }

    /// Whether `(x, y, z)` is a solid cell inside the grid.
    pub fn is_solid(&self, x: i32, y: i32, z: i32) -> (b: bool)
        requires
            self.wf(),
        ensures
            b == self@.is_solid(x as int, y as int, z as int),
    {
        self.get(x, y, z).is_some()
    }

    /// Writes `color` into cell `(x, y, z)`; does nothing outside the grid.
    pub fn set(&mut self, x: i32, y: i32, z: i32, color: Color)
        requires
            old(self).wf(),
        ensures
            final(self).wf(),
            final(self)@ == old(self)@.set(x as int, y as int, z as int, color),
    {
        if x >= 0 && x < self.dim.x && y >= 0 && y < self.dim.y && z >= 0 && z < self.dim.z {
            let idx = self.index(x, y, z);
            self.data.set(idx, color);
            assert(self@ =~= old(self)@.set(x as int, y as int, z as int, color));
        }
    }

    /// Visits the cells in `z`, `y`, `x` order and hands every exposed face to `sink`, the
    /// faces of a cell in the order -X, +X, -Y, +Y, -Z, +Z.
    fn emit_faces(&self, sink: &mut MeshSink)
        requires
            self.wf(),
            old(sink).holds(seq![]),
            old(sink).build ==> 4 * self@.faces().len() <= u32::MAX,
        ensures
            final(sink).holds(self@.faces()),
            final(sink).build == old(sink).build,
    {
        let ghost v = self@;
        let ghost build = sink.build;
        proof {
            law_face_count_bound(v);
        }
        let ghost mut emitted: Seq<Face> = seq![];
        let mut z: i32 = 0;
        while z < self.dim.z
            invariant
                self.wf(),
                v == self@,
                build ==> 4 * v.faces().len() <= u32::MAX,
                v.faces().len() <= 6 * v.cells.len(),
                v.wf(),
                sink.build == build,
                0 <= z,
                z <= self.dim.z || z == 0,
                emitted == v.grid_faces(z as int),
                sink.holds(emitted),
            decreases self.dim.z - z,
        {
            proof {
                lemma_grid_faces_len_mono(v, z + 1, v.dim.z as int);
            }
            let mut y: i32 = 0;
            while y < self.dim.y
                invariant
                    self.wf(),
                    v == self@,
                    build ==> 4 * v.faces().len() <= u32::MAX,
                    v.faces().len() <= 6 * v.cells.len(),
                    v.wf(),
                    sink.build == build,
                    0 <= z < self.dim.z,
                    0 <= y,
                    y <= self.dim.y || y == 0,
                    (v.grid_faces(z as int) + v.layer_faces(z as int, v.dim.y as int)).len()
                        <= v.faces().len(),
                    emitted == v.grid_faces(z as int) + v.layer_faces(z as int, y as int),
                    sink.holds(emitted),
                decreases self.dim.y - y,
            {
                proof {
                    lemma_layer_faces_len_mono(v, z as int, y + 1, v.dim.y as int);
                }
                let mut x: i32 = 0;
                while x < self.dim.x
                    invariant
                        self.wf(),
                        v == self@,
                        build ==> 4 * v.faces().len() <= u32::MAX,
                        v.faces().len() <= 6 * v.cells.len(),
                        v.wf(),
                        sink.build == build,
                        0 <= z < self.dim.z,
                        0 <= y < self.dim.y,
                        0 <= x,
                        x <= self.dim.x || x == 0,
                        (v.grid_faces(z as int) + v.layer_faces(z as int, y + 1)).len()
                            <= v.faces().len(),
                        emitted == v.grid_faces(z as int) + v.layer_faces(z as int, y as int)
                            + v.row_faces(y as int, z as int, x as int),
                        sink.holds(emitted),
                    decreases self.dim.x - x,
                {
                    let ghost e0 = emitted;
                    proof {
                        lemma_row_faces_len_mono(v, y as int, z as int, x + 1, v.dim.x as int);
                        assert(v.row_faces(y as int, z as int, x + 1) == v.row_faces(
                            y as int,
                            z as int,
                            x as int,
                        ) + v.cell_faces(x as int, y as int, z as int));
                    }
                    if let Some(color) = self.get(x, y, z) {
                        let mut d: u8 = 0;
                        while d < 6
                            invariant
                                self.wf(),
                                v == self@,
                                build ==> 4 * v.faces().len() <= u32::MAX,
                                v.faces().len() <= 6 * v.cells.len(),
                                v.wf(),
                                sink.build == build,
                                in_bounds(v.dim, x as int, y as int, z as int),
                                v.is_solid(x as int, y as int, z as int),
                                color == v.voxel(x as int, y as int, z as int),
                                d <= 6,
                                (e0 + v.cell_faces_upto(x as int, y as int, z as int, 6)).len()
                                    <= v.faces().len(),
                                emitted == e0 + v.cell_faces_upto(
                                    x as int,
                                    y as int,
                                    z as int,
                                    d as nat,
                                ),
                                sink.holds(emitted),
                            decreases 6 - d,
                        {
                            proof {
                                lemma_cell_faces_len_mono(
                                    v,
                                    x as int,
                                    y as int,
                                    z as int,
                                    (d + 1) as nat,
                                    6,
                                );
                            }
                            let (a, b, c) = face_step(d);
                            if !self.is_solid(x + a, y + b, z + c) {
                                let pos = Int3 { x, y, z };
                                let ghost f = Face { pos, dir: d, color };
                                sink.push(pos, color, d, Ghost(emitted));
                                proof {
                                    emitted = emitted.push(f);
                                    assert(emitted =~= e0 + v.cell_faces_upto(
                                        x as int,
                                        y as int,
                                        z as int,
                                        (d + 1) as nat,
                                    ));
                                }
                            } else {
                                proof {
                                    assert(emitted =~= e0 + v.cell_faces_upto(
                                        x as int,
                                        y as int,
                                        z as int,
                                        (d + 1) as nat,
                                    ));
                                }
                            }
                            d = d + 1;
                        }
                    } else {
                        proof {
                            assert(emitted =~= e0 + v.cell_faces(x as int, y as int, z as int));
                        }
                    }
                    proof {
                        assert(emitted =~= v.grid_faces(z as int) + v.layer_faces(
                            z as int,
                            y as int,
                        ) + v.row_faces(y as int, z as int, x + 1));
                    }
                    x = x + 1;
                }
                proof {
                    assert(emitted =~= v.grid_faces(z as int) + v.layer_faces(z as int, y + 1));
                }
                y = y + 1;
            }
            proof {
                assert(emitted =~= v.grid_faces(z + 1));
            }
            z = z + 1;
        }
    }

    /// Converts the model to a triangle mesh. Only faces with no adjacent solid voxel are
    /// emitted (face culling); cells are visited in `z`, `y`, `x` order and the faces of a
    /// cell in the order -X, +X, -Y, +Y, -Z, +Z. Each face yields four vertices and six indices.
    pub fn to_mesh(&self) -> (r: (Vec<VoxelVertex>, Vec<u32>))
        requires
            self.wf(),
            4 * self@.faces().len() <= u32::MAX,
        ensures
            r.0@ == mesh_vertices(self@.faces()),
            r.1@ == mesh_indices(self@.faces().len()),
    {
        let mut sink = MeshSink::new(true);
        self.emit_faces(&mut sink);
        (sink.vertices, sink.indices)
    }

    /// Number of faces `to_mesh` emits: the exposed faces of the solid voxels.
    pub fn face_count(&self) -> (n: u64)
        requires
            self.wf(),
        ensures
            n == self@.faces().len(),
    {
        let mut sink = MeshSink::new(false);
        self.emit_faces(&mut sink);
        sink.count
    }
}

} // verus!
