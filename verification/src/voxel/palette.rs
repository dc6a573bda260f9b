//! Editor color swatches: which formula produces each of the 256 palette entries.

use vstd::prelude::*;

use crate::color::Color;

verus! {

/// Number of swatches in the palette grid (16 x 16).
pub const SWATCH_COUNT: usize = 256;

/// How a palette entry is made.
#[derive(Clone, Copy, Debug, PartialEq, Eq, Structural)]
pub enum SwatchRecipe {
    /// A fixed opaque color.
    Fixed(Color),
    /// Opaque gray of level `step / steps`.
    Gray { step: u8, steps: u8 },
    /// Opaque HSL color of hue `col / 16`, saturation `1 - 0.06 * row`, lightness 0.5.
    Hue { col: u8, row: u8 },
}

/// Opaque color with channels 0.0 or 1.0 (`rgb` bits: 4 = red, 2 = green, 1 = blue).
pub open spec fn unit_color(red: bool, green: bool, blue: bool) -> Color {
    Color {
        r: if red { 0x3F80_0000 } else { 0 },
        g: if green { 0x3F80_0000 } else { 0 },
        b: if blue { 0x3F80_0000 } else { 0 },
        a: 0x3F80_0000,
    }
}

/// The eight fixed colors: black, white, red, green, blue, cyan, magenta, yellow.
pub open spec fn fixed_color(k: int) -> Color {
    if k == 0 {
        unit_color(false, false, false)
    } else if k == 1 {
        unit_color(true, true, true)
    } else if k == 2 {
        unit_color(true, false, false)
    } else if k == 3 {
        unit_color(false, true, false)
    } else if k == 4 {
        unit_color(false, false, true)
    } else if k == 5 {
        unit_color(false, true, true)
    } else if k == 6 {
        unit_color(true, false, true)
    } else {
        unit_color(true, true, false)
    }
}

/// Recipe of palette entry `i`: 0..8 the fixed colors; 8..16 grays `1/9 .. 8/9`;
/// 16..32 grays `0/15 .. 15/15`; 32..256 fourteen rows of sixteen hues.
pub open spec fn swatch_recipe_spec(i: int) -> SwatchRecipe {
    if i < 8 {
        SwatchRecipe::Fixed(fixed_color(i))
    } else if i < 16 {
        SwatchRecipe::Gray { step: (i - 7) as u8, steps: 9 }
    } else if i < 32 {
        SwatchRecipe::Gray { step: (i - 16) as u8, steps: 15 }
    } else {
        SwatchRecipe::Hue { col: ((i - 32) % 16) as u8, row: ((i - 32) / 16) as u8 }
    }
}

fn unit_color_of(red: bool, green: bool, blue: bool) -> (c: Color)
    ensures
        c == unit_color(red, green, blue),
{
    Color {
        r: if red { 0x3F80_0000 } else { 0 },
        g: if green { 0x3F80_0000 } else { 0 },
        b: if blue { 0x3F80_0000 } else { 0 },
        a: 0x3F80_0000,
    }
}

/// The recipe of palette entry `i`.
pub fn swatch_recipe(i: usize) -> (r: SwatchRecipe)
    requires
        i < SWATCH_COUNT,
    ensures
        r == swatch_recipe_spec(i as int),
{
    if i < 8 {
        let c = if i == 0 {
            unit_color_of(false, false, false)
        } else if i == 1 {
            unit_color_of(true, true, true)
        } else if i == 2 {
            unit_color_of(true, false, false)
        } else if i == 3 {
            unit_color_of(false, true, false)
        } else if i == 4 {
            unit_color_of(false, false, true)
        } else if i == 5 {
            unit_color_of(false, true, true)
        } else if i == 6 {
            unit_color_of(true, false, true)
        } else {
            unit_color_of(true, true, false)
        };
        SwatchRecipe::Fixed(c)
    } else if i < 16 {
        SwatchRecipe::Gray { step: (i - 7) as u8, steps: 9 }
    } else if i < 32 {
        SwatchRecipe::Gray { step: (i - 16) as u8, steps: 15 }
    } else {
        SwatchRecipe::Hue { col: ((i - 32) % 16) as u8, row: ((i - 32) / 16) as u8 }
    }
}

/// Every recipe stays in its range: gray steps never exceed their count, and the hue rows
/// cover rows 0..14 of sixteen columns.
pub proof fn law_recipe_ranges(i: int)
    requires
        0 <= i < SWATCH_COUNT,
    ensures
        match swatch_recipe_spec(i) {
            SwatchRecipe::Fixed(c) => c.spec_is_solid(),
            SwatchRecipe::Gray { step, steps } => step <= steps && (steps == 9 || steps == 15),
            SwatchRecipe::Hue { col, row } => col < 16 && row < 14 && 32 + 16 * row + col == i,
        },
{
}

/// The first eight swatches are opaque pure colors, in the order black, white, red, green,
/// blue, cyan, magenta, yellow: each channel is 0.0 or 1.0, red is lit in white, red,
/// magenta and yellow, green in white, green, cyan and yellow, blue in white, blue, cyan and
/// magenta; and cyan, magenta and yellow are the complements of red, green and blue.
pub proof fn law_fixed_swatches(i: int)
    requires
        0 <= i < 8,
    ensures
        (swatch_recipe_spec(i) is Fixed),
        ({
            let c = swatch_recipe_spec(i)->Fixed_0;
            &&& c.a == 0x3F80_0000
            &&& c.r == (if i == 1 || i == 2 || i == 6 || i == 7 { 0x3F80_0000u32 } else { 0u32 })
            &&& c.g == (if i == 1 || i == 3 || i == 5 || i == 7 { 0x3F80_0000u32 } else { 0u32 })
            &&& c.b == (if i == 1 || i == 4 || i == 5 || i == 6 { 0x3F80_0000u32 } else { 0u32 })
        }),
        2 <= i < 5 ==> {
            let c = swatch_recipe_spec(i)->Fixed_0;
            let d = swatch_recipe_spec(i + 3)->Fixed_0;
            &&& c.r + d.r == 0x3F80_0000
            &&& c.g + d.g == 0x3F80_0000
            &&& c.b + d.b == 0x3F80_0000
        },
{
}

/// After the fixed colors come two gray ramps, each lighter than the one before: swatches
/// 8..16 are the grays 1/9 .. 8/9 and swatches 16..32 the grays 0/15 .. 15/15 (black to
/// white); from 32 on the hues fill the rows left to right.
pub proof fn law_gray_ramps(i: int)
    requires
        8 <= i < SWATCH_COUNT,
    ensures
        8 <= i < 16 ==> swatch_recipe_spec(i) == (SwatchRecipe::Gray { step: (i - 7) as u8, steps: 9 }),
        16 <= i < 32 ==> swatch_recipe_spec(i) == (SwatchRecipe::Gray { step: (i - 16) as u8, steps: 15 }),
        32 <= i ==> (swatch_recipe_spec(i) is Hue),
        8 <= i < 15 || 16 <= i < 31 ==> swatch_recipe_spec(i + 1)->step == swatch_recipe_spec(i)->step + 1,
{
}

/// Palette entry `i` once its red, green and blue channels (as `f32` bits) have been worked
/// out from its recipe: a fixed color as it is, any other entry opaque (alpha 1.0).
pub open spec fn swatch_color_spec(i: int, red: u32, green: u32, blue: u32) -> Color {
    match swatch_recipe_spec(i) {
        SwatchRecipe::Fixed(c) => c,
        _ => Color { r: red, g: green, b: blue, a: 0x3F80_0000 },
    }
}

/// Every palette entry is opaque, hence solid when painted into a voxel.
pub open spec fn palette_opaque(p: Seq<Color>) -> bool {
    forall|i: int| 0 <= i < p.len() ==> (#[trigger] p[i]).spec_is_solid()
}

/// Palette entry `i`, given the color channels computed for its recipe; it is always solid.
pub fn swatch_color(i: usize, red: u32, green: u32, blue: u32) -> (c: Color)
    requires
        i < SWATCH_COUNT,
    ensures
        c == swatch_color_spec(i as int, red, green, blue),
        c.spec_is_solid(),
{
    match swatch_recipe(i) {
        SwatchRecipe::Fixed(c) => c,
        _ => Color { r: red, g: green, b: blue, a: 0x3F80_0000 },
    }
}

} // verus!
