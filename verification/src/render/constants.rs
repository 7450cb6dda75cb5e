use vstd::prelude::*;

verus! {

// Geometry a collaborating renderer consumes. The core does not interpret
// these: they are configuration, recorded with the recognized options:
// output size, native pixel grid, the scale factor between them, and the
// span of one pattern lookup table.
/// Output width in host pixels.
pub const SCREEN_WIDTH: i32 = 1024;

/// Output height in host pixels.
pub const SCREEN_HEIGHT: i32 = 960;

/// Native pixel grid width.
pub const NES_PIXEL_WIDTH: i32 = 256;

/// Native pixel grid height.
pub const NES_PIXEL_HEIGHT: i32 = 240;

/// Fixed scale factor from native pixels to host pixels: the output width
/// over the native width.
pub const PIXEL_RATIO: i32 = 4;

/// Byte span of one pattern lookup table.
pub const PATTERN_TABLE_SIZE: usize = 0x1000;

} // verus!
