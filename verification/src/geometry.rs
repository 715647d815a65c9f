//! Plain descriptions of sizes, regions, orientations and pixel formats.

use vstd::prelude::*;

verus! {

/// A width and a height.
#[derive(Debug, Clone, Copy, PartialEq, Eq, Structural)]
pub struct Size {
    pub w: i32,
    pub h: i32,
}

/// A position.
#[derive(Debug, Clone, Copy, PartialEq, Eq, Structural)]
pub struct Point {
    pub x: i32,
    pub y: i32,
}

/// A region: its upper left corner and its size.
#[derive(Debug, Clone, Copy, PartialEq, Eq, Structural)]
pub struct Rectangle {
    pub loc: Point,
    pub size: Size,
}

/// An orientation of an output or of a surface.
#[derive(Debug, Clone, Copy, PartialEq, Eq, Structural)]
pub enum Transform {
    /// Identity transformation
    Normal,
    /// Plane is rotated by 90 degrees
    Rotated90,
    /// Plane is rotated by 180 degrees
    Rotated180,
    /// Plane is rotated by 270 degrees
    Rotated270,
    /// Plane is flipped vertically
    Flipped,
    /// Plane is flipped vertically and rotated by 90 degrees
    Flipped90,
    /// Plane is flipped vertically and rotated by 180 degrees
    Flipped180,
    /// Plane is flipped vertically and rotated by 270 degrees
    Flipped270,
}

/// Texture filtering methods
#[derive(Debug, Clone, Copy, PartialEq, Eq, Structural)]
pub enum TextureFilter {
    Linear,
    Nearest,
}

/// Debug flags that can be enabled at runtime, as a set of bits.
#[derive(Debug, Clone, Copy, PartialEq, Eq, Structural)]
pub struct DebugFlags {
    pub bits: u32,
}

/// A DRM pixel format, by the four characters of its code in little-endian order.
#[derive(Debug, Clone, Copy, PartialEq, Eq, Structural)]
pub struct Fourcc {
    pub code: u32,
}

/// A pixel format together with the modifier of its memory layout.
#[derive(Debug, Clone, Copy, PartialEq, Eq, Structural)]
pub struct Format {
    pub code: Fourcc,
    pub modifier: u64,
}

/// What a rendered element is used for.
#[derive(Debug, Clone, Copy, PartialEq, Eq, Structural)]
pub enum Kind {
    Cursor,
    Unspecified,
}

/// The code that four characters spell.
pub open spec fn fourcc_code(a: char, b: char, c: char, d: char) -> int {
    (a as int) + 0x100 * (b as int) + 0x1_0000 * (c as int) + 0x100_0000 * (d as int)
}

/// 32-bit with an alpha channel, red high: `AR24`
pub const ARGB8888: u32 = 0x3432_5241;

/// 32-bit without an alpha channel, red high: `XR24`
pub const XRGB8888: u32 = 0x3432_5258;

/// 32-bit with an alpha channel, blue high: `AB24`
pub const ABGR8888: u32 = 0x3432_4241;

/// 32-bit without an alpha channel, blue high: `XB24`
pub const XBGR8888: u32 = 0x3432_4258;

/// The four format constants are the codes that their names spell, and no two
/// of them are the same.
pub proof fn law_format_codes()
    ensures
        ARGB8888 == fourcc_code('A', 'R', '2', '4'),
        XRGB8888 == fourcc_code('X', 'R', '2', '4'),
        ABGR8888 == fourcc_code('A', 'B', '2', '4'),
        XBGR8888 == fourcc_code('X', 'B', '2', '4'),
        ARGB8888 != XRGB8888,
        ARGB8888 != ABGR8888,
        ARGB8888 != XBGR8888,
        XRGB8888 != ABGR8888,
        XRGB8888 != XBGR8888,
        ABGR8888 != XBGR8888,
{
}

} // verus!
