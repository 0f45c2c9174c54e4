//! Channel color palette.

use vstd::prelude::*;

verus! {

/// An opaque RGB color.
#[derive(Clone, Copy, Debug, PartialEq, Eq, Structural)]
pub struct Rgb {
    /// Red component.
    pub r: u8,
    /// Green component.
    pub g: u8,
    /// Blue component.
    pub b: u8,
}

/// Palette entry for a color index; indices wrap around the eight entries
/// (aqua, orange, lime, lilac, gold, indigo, pink, mint).
pub open spec fn spec_palette_color(index: u32) -> Rgb {
    let slot = index % 8;
    if slot == 0 {
        Rgb { r: 136, g: 224, b: 255 }
    } else if slot == 1 {
        Rgb { r: 255, g: 161, b: 128 }
    } else if slot == 2 {
        Rgb { r: 182, g: 255, b: 141 }
    } else if slot == 3 {
        Rgb { r: 239, g: 189, b: 255 }
    } else if slot == 4 {
        Rgb { r: 255, g: 233, b: 153 }
    } else if slot == 5 {
        Rgb { r: 170, g: 187, b: 255 }
    } else if slot == 6 {
        Rgb { r: 255, g: 166, b: 220 }
    } else {
        Rgb { r: 191, g: 255, b: 235 }
    }
}

/// Resolve one stable channel color from a palette index.
pub fn palette_color(index: u32) -> (color: Rgb)
    ensures
        color == spec_palette_color(index),
{
    match index % 8 {
        0 => Rgb { r: 136, g: 224, b: 255 },
        1 => Rgb { r: 255, g: 161, b: 128 },
        2 => Rgb { r: 182, g: 255, b: 141 },
        3 => Rgb { r: 239, g: 189, b: 255 },
        4 => Rgb { r: 255, g: 233, b: 153 },
        5 => Rgb { r: 170, g: 187, b: 255 },
        6 => Rgb { r: 255, g: 166, b: 220 },
        _ => Rgb { r: 191, g: 255, b: 235 },
    }
}

} // verus!
