//! The renderer: a deterministic mapping from a text and a requested canvas
//! width to a fully opaque RGBA canvas with the text's glyphs centered in
//! the drawable area.
//!
//! The pipeline follows two layout passes: the first pass, at the pen
//! origin, yields the run's pixel bounding box; the centering offsets are
//! derived from it; the second pass re-lays the run out at those offsets and
//! rasterizes it; the rasterization is then alpha-blended onto an opaque
//! white canvas.

use crate::canvas::Canvas;
use crate::canvas::composite;
use crate::canvas::spec_composite_glyphs;
use crate::canvas::spec_white;
use crate::font::FontFace;
use crate::font::first_pass_boxes;
use crate::font::second_pass_rasters;
use crate::geometry::canvas_height;
use crate::geometry::scale_centi;
use crate::geometry::spec_canvas_height;
use crate::geometry::spec_scale_centi;
use crate::geometry::spec_valid_width;
use crate::geometry::validate_width;
use crate::glyphs::center_offsets;
use crate::glyphs::run_bounding_box;
use crate::glyphs::spec_run_bounding_box;
use crate::glyphs::spec_x_offset_halves;
use crate::glyphs::spec_y_offset_halves;
use vstd::prelude::*;

verus! {

/// The pixel buffer that rendering `text` at the requested width produces:
/// a function of the font bytes, the text and the width alone.
pub open spec fn spec_render(font: Seq<u8>, text: Seq<char>, width: u32) -> Seq<u8> {
    let w = spec_valid_width(width);
    let h = spec_canvas_height(w);
    let sc = spec_scale_centi(h);
    let bb = spec_run_bounding_box(first_pass_boxes(font, text, sc));
    let glyphs = second_pass_rasters(
        font,
        text,
        sc,
        spec_x_offset_halves(w, bb),
        spec_y_offset_halves(h, bb),
    );
    spec_composite_glyphs(spec_white(w, h), w as int, h as int, glyphs)
}

/// Renders `text` onto an opaque white canvas of the validated width and
/// the fixed 4:1 aspect ratio, with the glyph run centered in the drawable
/// area.
///
/// The canvas always has exactly the validated dimensions and is fully
/// opaque; its pixels are a function of the font bytes, the text and the
/// width alone; and an empty text leaves every pixel opaque white.
pub fn render(face: &FontFace, text: &str, width: u32) -> (c: Canvas)
    ensures
        c.wf(),
        c.width == spec_valid_width(width),
        c.height == spec_canvas_height(spec_valid_width(width)),
        c.data@ == spec_render(face.bytes(), text@, width),
        text@.len() == 0 ==> c.data@ == spec_white(
            spec_valid_width(width),
            spec_canvas_height(spec_valid_width(width)),
        ),
{
    let w = validate_width(width);
    let h = canvas_height(w);
    let sc = scale_centi(h);
    proof {
        use_type_invariant(face);
        crate::font::lemma_face_layout_safe(face);
    }
    let boxes = face.layout_boxes(text, sc);
    let bb = run_bounding_box(&boxes);
    let (xh, yh) = center_offsets(w, h, bb);
    let rasters = face.layout_rasters(text, sc, xh, yh);
    let mut canvas = Canvas::new(w, h);
    composite(&mut canvas, &rasters);
    canvas
}

/// Determinism law: the rendered pixels are a function of the font bytes,
/// the text and the requested width, so two independent renders of the same
/// inputs are byte-identical.
pub proof fn lemma_render_deterministic(
    c1: Canvas,
    c2: Canvas,
    font: Seq<u8>,
    text: Seq<char>,
    width: u32,
)
    requires
        c1.data@ == spec_render(font, text, width),
        c2.data@ == spec_render(font, text, width),
    ensures
        c1.data@ == c2.data@,
{
}

} // verus!
