//! Glyph pixel bounding boxes: the union of a run's per-glyph boxes, and the
//! offsets that center the union inside the drawable area.
//!
//! A glyph's pixel bounding box is the smallest pixel-aligned rectangle that
//! encloses its shape; glyphs that produce no ink (such as spaces) have none.
//! The run's bounding box is the union over the glyphs that have one, and the
//! degenerate box anchored at the origin when none has one.

use vstd::prelude::*;

verus! {

/// A pixel-aligned rectangle in canvas coordinates: `min` is its top-left
/// corner, `max` its exclusive bottom-right corner.
#[derive(Clone, Copy, PartialEq, Eq, Structural, Debug)]
pub struct GlyphBox {
    pub min_x: i32,
    pub min_y: i32,
    pub max_x: i32,
    pub max_y: i32,
}

impl GlyphBox {
    /// Builds a box from its corner coordinates.
    pub fn new(min_x: i32, min_y: i32, max_x: i32, max_y: i32) -> (r: GlyphBox)
        ensures
            r == (GlyphBox { min_x, min_y, max_x, max_y }),
    {
        GlyphBox { min_x, min_y, max_x, max_y }
    }
}

/// The degenerate box anchored at the origin, used when no glyph in a run
/// has a pixel bounding box.
pub open spec fn spec_empty_box() -> GlyphBox {
    GlyphBox { min_x: 0, min_y: 0, max_x: 0, max_y: 0 }
}

/// The smallest box enclosing both arguments.
pub open spec fn spec_box_union(a: GlyphBox, b: GlyphBox) -> GlyphBox {
    GlyphBox {
        min_x: if a.min_x <= b.min_x { a.min_x } else { b.min_x },
        min_y: if a.min_y <= b.min_y { a.min_y } else { b.min_y },
        max_x: if a.max_x >= b.max_x { a.max_x } else { b.max_x },
        max_y: if a.max_y >= b.max_y { a.max_y } else { b.max_y },
    }
}

/// Folds the union over a run's per-glyph boxes: `None` while no glyph has a
/// box, otherwise the union of all the boxes seen.
pub open spec fn spec_union_fold(boxes: Seq<Option<GlyphBox>>) -> Option<GlyphBox>
    decreases boxes.len(),
{
    if boxes.len() == 0 {
        None
    } else {
        let rest = spec_union_fold(boxes.drop_last());
        match boxes.last() {
            None => rest,
            Some(b) => match rest {
                None => Some(b),
                Some(a) => Some(spec_box_union(a, b)),
            },
        }
    }
}

/// The bounding box of a run: the union of the glyphs' boxes, or the
/// degenerate box at the origin when no glyph has one.
pub open spec fn spec_run_bounding_box(boxes: Seq<Option<GlyphBox>>) -> GlyphBox {
    match spec_union_fold(boxes) {
        None => spec_empty_box(),
        Some(b) => b,
    }
}

/// Computes the bounding box of a glyph run from its per-glyph pixel
/// bounding boxes, taking the minimum of the minima and the maximum of the
/// maxima over the glyphs that have a box.
pub fn run_bounding_box(boxes: &Vec<Option<GlyphBox>>) -> (r: GlyphBox)
    ensures
        r == spec_run_bounding_box(boxes@),
{
    let mut acc: Option<GlyphBox> = None;
    let mut i: usize = 0;
    while i < boxes.len()
        invariant
            i <= boxes.len(),
            acc == spec_union_fold(boxes@.take(i as int)),
        decreases boxes.len() - i,
    {
        proof {
            assert(boxes@.take(i as int + 1).drop_last() =~= boxes@.take(i as int));
            assert(boxes@.take(i as int + 1).last() == boxes@[i as int]);
        }
        match boxes[i] {
            None => {},
            Some(b) => {
                acc = match acc {
                    None => Some(b),
                    Some(a) => Some(
                        GlyphBox {
                            min_x: if a.min_x <= b.min_x { a.min_x } else { b.min_x },
                            min_y: if a.min_y <= b.min_y { a.min_y } else { b.min_y },
                            max_x: if a.max_x >= b.max_x { a.max_x } else { b.max_x },
                            max_y: if a.max_y >= b.max_y { a.max_y } else { b.max_y },
                        },
                    ),
                };
            },
        }
        i = i + 1;
    }
    proof {
        assert(boxes@.take(boxes@.len() as int) =~= boxes@);
    }
    match acc {
        None => GlyphBox { min_x: 0, min_y: 0, max_x: 0, max_y: 0 },
        Some(b) => b,
    }
}

/// The horizontal centering offset in half-pixels.
///
/// The offset in pixels is `marginX + (drawableWidth - textWidth) / 2 - minX`
/// with `marginX` one twentieth of the width and `drawableWidth` eighteen
/// twentieths of it; the margin terms cancel, leaving
/// `(width - textWidth) / 2 - minX`, an exact multiple of half a pixel.
pub open spec fn spec_x_offset_halves(width: u32, bb: GlyphBox) -> int {
    width - bb.max_x - bb.min_x
}

/// The vertical centering offset in half-pixels, analogous to
/// `spec_x_offset_halves` with the canvas height in place of the width.
pub open spec fn spec_y_offset_halves(height: u32, bb: GlyphBox) -> int {
    height - bb.max_y - bb.min_y
}

/// Computes the offsets, in half-pixels, that center a run's bounding box
/// inside the drawable area of a `width` by `height` canvas.
pub fn center_offsets(width: u32, height: u32, bb: GlyphBox) -> (r: (i64, i64))
    requires
        width <= crate::geometry::MAX_WIDTH,
        height <= crate::geometry::MAX_WIDTH,
    ensures
        r.0 as int == spec_x_offset_halves(width, bb),
        r.1 as int == spec_y_offset_halves(height, bb),
{
    (
        width as i64 - bb.max_x as i64 - bb.min_x as i64,
        height as i64 - bb.max_y as i64 - bb.min_y as i64,
    )
}

/// Centering law: after the offset is applied, the midpoint of the run's
/// bounding box coincides exactly with the center of the drawable area on
/// both axes.
///
/// In half-pixel units the translated box spans
/// `2*min + off` to `2*max + off`, so its midpoint is `min + max + off`
/// half-pixels; the drawable area's center is the canvas center (the two 5%
/// margins are symmetric), at `width` half-pixels. The two are equal, so the
/// midpoint lies within half a pixel of the center trivially.
pub proof fn lemma_offsets_center_the_box(width: u32, height: u32, bb: GlyphBox)
    ensures
        (bb.min_x + bb.max_x) + spec_x_offset_halves(width, bb) == width,
        (bb.min_y + bb.max_y) + spec_y_offset_halves(height, bb) == height,
{
}

} // verus!
