//! Fly camera controls: which way the held keys push the camera.

use vstd::prelude::*;

use crate::coords::Int3;

verus! {

/// Held movement keys of the fly camera.
#[derive(Clone, Copy, Debug, PartialEq, Eq, Structural)]
pub struct FlyKeys {
    pub forward: bool,
    pub back: bool,
    pub right: bool,
    pub left: bool,
    pub up: bool,
    pub down: bool,
}

pub open spec fn axis(plus: bool, minus: bool) -> int {
    (if plus { 1int } else { 0int }) - (if minus { 1int } else { 0int })
}

/// Movement intent along the camera's flat forward axis (`x`), its right axis (`y`) and the
/// world up axis (`z`): each held key adds one, its opposite takes one away.
pub fn movement_intent(keys: FlyKeys) -> (v: Int3)
    ensures
        v.x == axis(keys.forward, keys.back),
        v.y == axis(keys.right, keys.left),
        v.z == axis(keys.up, keys.down),
{
    let mut v = Int3 { x: 0, y: 0, z: 0 };
    if keys.forward {
        v.x = v.x + 1;
    }
    if keys.back {
        v.x = v.x - 1;
    }
    if keys.right {
        v.y = v.y + 1;
    }
    if keys.left {
        v.y = v.y - 1;
    }
    if keys.up {
        v.z = v.z + 1;
    }
    if keys.down {
        v.z = v.z - 1;
    }
    v
}

} // verus!
