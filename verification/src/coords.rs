use vstd::prelude::*;

verus! {

/// A point or extent on the integer voxel lattice.
#[derive(Clone, Copy, Debug, PartialEq, Eq, Structural)]
pub struct Int3 {
    pub x: i32,
    pub y: i32,
    pub z: i32,
}

/// A tile position on the integer building grid (`x` across, `y` along the depth axis).
#[derive(Clone, Copy, Debug, PartialEq, Eq, Structural)]
pub struct Int2 {
    pub x: i32,
    pub y: i32,
}

impl Int3 {
    pub fn new(x: i32, y: i32, z: i32) -> (r: Int3)
        ensures
            r == (Int3 { x, y, z }),
    {
        Int3 { x, y, z }
    }
}

impl Int2 {
    pub fn new(x: i32, y: i32) -> (r: Int2)
        ensures
            r == (Int2 { x, y }),
    {
        Int2 { x, y }
    }
}

} // verus!
