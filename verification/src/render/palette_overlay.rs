//! Layout of the palette overlay: the 16 x 16 swatch grid and its quad index buffer.

use vstd::prelude::*;

use crate::voxel::model::{mesh_indices, quad_pattern};
use crate::voxel::palette::SWATCH_COUNT;

verus! {

/// Swatches per row of the overlay grid.
pub const COLS: usize = 16;

/// Rows of the overlay grid.
pub const ROWS: usize = 16;

/// Index buffer of `n` quads whose vertices are stored four by four: quad `j` is the two
/// triangles `(4j, 4j+1, 4j+2)` and `(4j, 4j+2, 4j+3)`.
pub fn quad_index_buffer(n: u32) -> (idx: Vec<u32>)
    requires
        4 * n <= u32::MAX + 1,
    ensures
        idx@ == mesh_indices(n as nat),
{
    let mut idx: Vec<u32> = Vec::new();
    let mut j: u32 = 0;
    while j < n
        invariant
            j <= n,
            4 * n <= u32::MAX + 1,
            idx@ == mesh_indices(j as nat),
        decreases n - j,
    {
        let base = 4 * j;
        idx.push(base);
        idx.push(base + 1);
        idx.push(base + 2);
        idx.push(base);
        idx.push(base + 2);
        idx.push(base + 3);
        assert(idx@ =~= mesh_indices(j as nat) + quad_pattern(4 * j as int));
        j = j + 1;
    }
    idx
}

/// Index buffer of the overlay: the backdrop quad first, then one quad per swatch.
pub fn palette_indices() -> (idx: Vec<u32>)
    ensures
        idx@ == mesh_indices((1 + SWATCH_COUNT) as nat),
{
    quad_index_buffer(1 + SWATCH_COUNT as u32)
}

/// Grid cell `(col, row)` of swatch `i`.
pub open spec fn swatch_cell(i: int) -> (int, int) {
    (i % COLS as int, i / COLS as int)
}

/// Column and row of swatch `i` in the overlay grid.
pub fn swatch_grid_cell(i: usize) -> (r: (usize, usize))
    requires
        i < SWATCH_COUNT,
    ensures
        (r.0 as int, r.1 as int) == swatch_cell(i as int),
        r.0 < COLS,
        r.1 < ROWS,
{
    (i % COLS, i / COLS)
}

/// Swatch in grid cell `(col, row)`, if that cell is part of the grid.
pub open spec fn swatch_at_cell_spec(col: int, row: int) -> Option<usize> {
    if 0 <= col < COLS && 0 <= row < ROWS {
        Some((col + row * COLS as int) as usize)
    } else {
        None
    }
}

/// The swatch shown in grid cell `(col, row)` (columns left to right, rows top to bottom).
pub fn swatch_at_cell(col: i32, row: i32) -> (r: Option<usize>)
    ensures
        r == swatch_at_cell_spec(col as int, row as int),
        r matches Some(i) ==> i < SWATCH_COUNT,
{
    if col < 0 || col >= COLS as i32 || row < 0 || row >= ROWS as i32 {
        return None;
    }
    let ix = col + row * COLS as i32;
    let idx = ix as usize;
    if idx < SWATCH_COUNT {
        Some(idx)
    } else {
        None
    }
}

/// Picking a swatch's own cell gives that swatch back.
pub proof fn law_swatch_cell_roundtrip(i: int)
    requires
        0 <= i < SWATCH_COUNT,
    ensures
        swatch_at_cell_spec(swatch_cell(i).0, swatch_cell(i).1) == Some(i as usize),
{
}

} // verus!
