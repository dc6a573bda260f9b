use vstd::prelude::*;

verus! {

/// Bit pattern of the IEEE-754 single-precision value 0.5.
pub const HALF_BITS: u32 = 0x3F00_0000;

/// Bit pattern of positive infinity; above it (with the sign bit clear) lie the NaNs.
pub const POS_INF_BITS: u32 = 0x7F80_0000;

/// An RGBA color whose four channels are stored as the bit patterns of
/// single-precision floats (`f32::to_bits`). The representation is exact:
/// every `f32` value round-trips through it.
#[derive(Clone, Copy, Debug, PartialEq, Eq, Structural)]
pub struct Color {
    pub r: u32,
    pub g: u32,
    pub b: u32,
    pub a: u32,
}

/// A channel at least 0.5. For a non-negative, non-NaN `f32` the numeric order
/// coincides with the order of its bit pattern; a set sign bit (negative values
/// and `-0.0`) puts the pattern above `POS_INF_BITS`, and so do the NaNs, all of
/// which compare false against 0.5.
pub open spec fn channel_at_least_half(bits: u32) -> bool {
    HALF_BITS <= bits <= POS_INF_BITS
}

impl Color {
    /// The voxel holding this color is solid (alpha >= 0.5); otherwise it is air.
    pub open spec fn spec_is_solid(self) -> bool {
        channel_at_least_half(self.a)
    }

    /// Whether the alpha channel is at least 0.5, i.e. the voxel is solid.
    pub fn is_solid(&self) -> (b: bool)
        ensures
            b == self.spec_is_solid(),
    {
        HALF_BITS <= self.a && self.a <= POS_INF_BITS
    }

    /// Opaque white: every channel 1.0.
    pub open spec fn white_spec() -> Color {
        Color { r: 0x3F80_0000, g: 0x3F80_0000, b: 0x3F80_0000, a: 0x3F80_0000 }
    }

    /// Opaque white (all channels 1.0).
    pub fn white() -> (c: Color)
        ensures
            c == Color::white_spec(),
            c.spec_is_solid(),
    {
        Color { r: 0x3F80_0000, g: 0x3F80_0000, b: 0x3F80_0000, a: 0x3F80_0000 }
    }

    /// Fully transparent black: every channel +0.0.
    pub open spec fn zero_spec() -> Color {
        Color { r: 0, g: 0, b: 0, a: 0 }
    }

    /// Fully transparent black (all channels +0.0).
    pub fn zero() -> (c: Color)
        ensures
            c == Color::zero_spec(),
            !c.spec_is_solid(),
    {
        Color { r: 0, g: 0, b: 0, a: 0 }
    }
}

} // verus!
