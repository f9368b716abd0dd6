//! Plain values shared by the frame and the text engine: colours, rectangles
//! and the drawing commands that make up a surface.

use vstd::prelude::*;

verus! {

/// An RGBA colour, one byte per channel.
#[derive(Clone, Copy, Debug, PartialEq, Eq, Structural)]
pub struct Color {
    pub r: u8,
    pub g: u8,
    pub b: u8,
    pub a: u8,
}

/// An axis-aligned rectangle of texture pixels.
#[derive(Clone, Copy, Debug, PartialEq, Eq, Structural)]
pub struct IntRect {
    pub left: u32,
    pub top: u32,
    pub width: u32,
    pub height: u32,
}

/// A rectangle on a render surface; the size may be negative, which mirrors
/// the stretched tile.
#[derive(Clone, Copy, Debug, PartialEq, Eq, Structural)]
pub struct Placement {
    pub x: i64,
    pub y: i64,
    pub width: i64,
    pub height: i64,
}

/// One thing drawn onto the content surface.
#[derive(Clone, Copy, Debug, PartialEq, Eq, Structural)]
pub enum DrawOp {
    /// A single glyph in the given style, its top-left at (x, y).
    Glyph { ch: char, x: u32, y: u32, size: u32, color: Color },
    /// A region of the icon atlas, its top-left at (x, y).
    Icon { source: IntRect, x: u32, y: u32 },
}

/// `a + b`, held at `u32::MAX` instead of wrapping.
pub open spec fn sat_add(a: u32, b: u32) -> u32 {
    if a as int + b as int > u32::MAX as int {
        u32::MAX
    } else {
        (a + b) as u32
    }
}

pub fn saturating_add(a: u32, b: u32) -> (r: u32)
    ensures
        r == sat_add(a, b),
{
    if a > u32::MAX - b {
        u32::MAX
    } else {
        a + b
    }
}

} // verus!
