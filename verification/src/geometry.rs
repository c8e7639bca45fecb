//! Canvas geometry: width validation, the fixed 4:1 aspect ratio, the 5%
//! margins that define the drawable area, the font scale, and the offsets
//! that center a glyph run's bounding box inside the drawable area.
//!
//! All quantities here are exact rationals with small denominators, so they
//! are carried in fixed-point integer units: the font scale in hundredths of
//! a pixel, the drawable area in twentieths, and the centering offsets in
//! halves.

use vstd::prelude::*;

verus! {

/// The smallest canvas width a caller may request.
pub const MIN_WIDTH: u32 = 10;

/// The largest canvas width a caller may request.
pub const MAX_WIDTH: u32 = 10000;

/// The width used when the requested one is absent or out of range.
pub const DEFAULT_WIDTH: u32 = 320;

/// The requested width if it lies in `[MIN_WIDTH, MAX_WIDTH]`, else the
/// default width.
pub open spec fn spec_valid_width(w: u32) -> u32 {
    if MIN_WIDTH <= w && w <= MAX_WIDTH {
        w
    } else {
        DEFAULT_WIDTH
    }
}

/// Substitutes the default width for an out-of-range request.
pub fn validate_width(w: u32) -> (r: u32)
    ensures
        r == spec_valid_width(w),
        MIN_WIDTH <= r <= MAX_WIDTH,
{
    if MIN_WIDTH <= w && w <= MAX_WIDTH {
        w
    } else {
        DEFAULT_WIDTH
    }
}

/// The requested width when present and in range, else the default width.
pub fn width_from_query(w: Option<u32>) -> (r: u32)
    ensures
        r == match w {
            Some(v) => spec_valid_width(v),
            None => DEFAULT_WIDTH,
        },
        MIN_WIDTH <= r <= MAX_WIDTH,
{
    match w {
        Some(v) => validate_width(v),
        None => DEFAULT_WIDTH,
    }
}

/// The canvas height for a given width: a fixed 4:1 aspect ratio.
pub open spec fn spec_canvas_height(w: u32) -> u32 {
    w / 4
}

/// Derives the canvas height from the width (4:1 aspect ratio).
pub fn canvas_height(w: u32) -> (h: u32)
    ensures
        h == spec_canvas_height(w),
{
    w / 4
}

/// The drawable extent along one axis, in twentieths of a pixel: the canvas
/// extent minus the two 5% margins, that is 90% of it.
pub open spec fn spec_drawable_twentieths(d: u32) -> int {
    18 * d
}

/// The drawable area's extent along one axis, in whole pixels, rounded down.
/// For dimensions divisible by ten (such as the default 320 by 80 canvas)
/// this is exact: 90% of the canvas extent.
pub fn drawable_extent(d: u32) -> (r: u32)
    requires
        d <= MAX_WIDTH,
    ensures
        r as int == spec_drawable_twentieths(d) / 20,
        d % 10 == 0 ==> 20 * (r as int) == spec_drawable_twentieths(d),
{
    (18 * d) / 20
}

/// The font scale in hundredths of a pixel: 80% of the drawable height,
/// which is itself 90% of the canvas height, so 72% of the canvas height.
pub open spec fn spec_scale_centi(h: u32) -> int {
    72 * h
}

/// Computes the font scale for a canvas height, in hundredths of a pixel.
pub fn scale_centi(h: u32) -> (s: u32)
    requires
        h <= MAX_WIDTH / 4,
    ensures
        s as int == spec_scale_centi(h),
{
    72 * h
}

} // verus!
