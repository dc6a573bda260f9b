//! Editor overlay: the brush swatch drawn as a bordered quad.

use vstd::prelude::*;

use crate::render::palette_overlay::quad_index_buffer;
use crate::voxel::model::mesh_indices;

verus! {

/// Indices of the bordered brush swatch: the outline quad (vertices 0..4) under the fill
/// quad (vertices 4..8), two triangles each.
pub fn bordered_quad_indices() -> (idx: Vec<u32>)
    ensures
        idx@ == mesh_indices(2),
        idx@ == seq![0u32, 1, 2, 0, 2, 3, 4, 5, 6, 4, 6, 7],
{
    let idx = quad_index_buffer(2);
    assert(mesh_indices(2) =~= seq![0u32, 1, 2, 0, 2, 3, 4, 5, 6, 4, 6, 7]) by {
        reveal_with_fuel(mesh_indices, 3);
    }
    idx
}

} // verus!
