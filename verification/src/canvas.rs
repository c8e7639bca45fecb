//! The render canvas: an RGBA pixel buffer, initialized to opaque white,
//! onto which glyph coverage is alpha-blended as black ink.
//!
//! Blending follows the integer formula
//! `channel' = (0 * a + channel * (255 - a)) / 255` for red, green and blue,
//! with the alpha channel forced to 255, so a well-formed canvas is fully
//! opaque at every pixel, before and after compositing.

use crate::geometry::MAX_WIDTH;
use crate::glyphs::GlyphBox;
use vstd::prelude::*;

verus! {

/// One glyph's rasterization: its pixel bounding box in canvas coordinates
/// and, for each cell of that box, an 8-bit coverage alpha. Cell coordinates
/// are relative to the box's top-left corner, in scanline order.
pub struct GlyphRaster {
    pub bb: GlyphBox,
    pub cells: Vec<(u32, u32, u8)>,
}

/// The mathematical value of one glyph's rasterization.
pub struct GlyphRasterModel {
    pub bb: GlyphBox,
    pub cells: Seq<(u32, u32, u8)>,
}

impl View for GlyphRaster {
    type V = GlyphRasterModel;

    open spec fn view(&self) -> GlyphRasterModel {
        GlyphRasterModel { bb: self.bb, cells: self.cells@ }
    }
}

/// The values of a whole run's rasterizations, in draw order.
pub open spec fn spec_rasters(v: Seq<GlyphRaster>) -> Seq<GlyphRasterModel> {
    Seq::new(v.len(), |i: int| v[i]@)
}

/// A black foreground channel blended over a background channel with
/// coverage alpha `a`: `(0 * a + bg * (255 - a)) / 255`.
pub open spec fn spec_blend(bg: u8, a: u8) -> u8 {
    ((bg as int) * (255 - a as int) / 255) as u8
}

/// An all-white, fully opaque pixel buffer for a `w` by `h` canvas: every
/// byte of every RGBA pixel is 255.
pub open spec fn spec_white(w: u32, h: u32) -> Seq<u8> {
    Seq::new((4 * (w as int) * (h as int)) as nat, |i: int| 255u8)
}

/// An RGBA pixel buffer together with its dimensions.
pub struct Canvas {
    pub width: u32,
    pub height: u32,
    pub data: Vec<u8>,
}

impl Canvas {
    /// Well-formedness: the dimensions are within the library's bounds, the
    /// buffer holds exactly four bytes per pixel, and every pixel's alpha
    /// byte is 255.
    pub open spec fn wf(&self) -> bool {
        &&& self.width <= MAX_WIDTH
        &&& self.height <= MAX_WIDTH / 4
        &&& self.data@.len() == 4 * (self.width as int) * (self.height as int)
        &&& forall|i: int|
            0 <= i < self.data@.len() && i % 4 == 3 ==> self.data@[i] == 255
    }

    /// Creates an opaque white canvas of the given dimensions.
    pub fn new(width: u32, height: u32) -> (c: Canvas)
        requires
            width <= MAX_WIDTH,
            height <= MAX_WIDTH / 4,
        ensures
            c.wf(),
            c.width == width,
            c.height == height,
            c.data@ == spec_white(width, height),
    {
        proof {
            assert(4 * (width as int) * (height as int) <= 100_000_000) by (nonlinear_arith)
                requires
                    width <= 10000,
                    height <= 2500,
            ;
        }
        let n: usize = 4 * (width as usize) * (height as usize);
        let mut data: Vec<u8> = Vec::new();
        let mut i: usize = 0;
        while i < n
            invariant
                i <= n,
                data@.len() == i,
                forall|j: int| 0 <= j < i ==> data@[j] == 255u8,
            decreases n - i,
        {
            data.push(255);
            i = i + 1;
        }
        proof {
            assert(data@ =~= spec_white(width, height));
        }
        Canvas { width, height, data }
    }

    /// Blends black ink with coverage alpha `a` into the pixel at `(x, y)`,
    /// leaving every other byte unchanged and the pixel opaque.
    pub fn blend_pixel(&mut self, x: u32, y: u32, a: u8)
        requires
            old(self).wf(),
            x < old(self).width,
            y < old(self).height,
        ensures
            final(self).wf(),
            final(self).width == old(self).width,
            final(self).height == old(self).height,
            final(self).data@ == spec_blend_at(old(self).data@, old(self).width as int, x as int, y as int, a),
    {
        let w = self.width;
        let h = self.height;
        proof {
            lemma_pixel_base_in_bounds(w as int, h as int, x as int, y as int);
            assert((y as int) * (w as int) + (x as int) < 25_000_000) by (nonlinear_arith)
                requires
                    y < h,
                    h <= 2500,
                    w <= 10000,
                    x < w,
            ;
        }
        let base: usize = 4 * ((y as usize) * (w as usize) + (x as usize));
        proof {
            assert((base as int) % 4 == 0) by (nonlinear_arith)
                requires
                    base as int == 4 * ((y as int) * (w as int) + (x as int)),
            ;
        }
        let r = self.data[base];
        let g = self.data[base + 1];
        let b = self.data[base + 2];
        self.data.set(base, blend_channel(r, a));
        self.data.set(base + 1, blend_channel(g, a));
        self.data.set(base + 2, blend_channel(b, a));
        self.data.set(base + 3, 255);
    }
}

/// The byte offset of pixel `(x, y)` stays within the buffer.
proof fn lemma_pixel_base_in_bounds(w: int, h: int, x: int, y: int)
    requires
        0 <= x < w,
        0 <= y < h,
    ensures
        0 <= 4 * (y * w + x),
        4 * (y * w + x) + 3 < 4 * w * h,
{
    assert(0 <= 4 * (y * w + x) && 4 * (y * w + x) + 3 < 4 * w * h) by (nonlinear_arith)
        requires 0 <= x < w, 0 <= y < h;
}

/// Computes one channel of the blend: `(bg * (255 - a)) / 255`.
fn blend_channel(bg: u8, a: u8) -> (r: u8)
    ensures
        r == spec_blend(bg, a),
{
    proof {
        assert((bg as int) * (255 - a as int) <= 255 * 255) by (nonlinear_arith)
            requires bg <= 255, a <= 255;
    }
    let p: u16 = (bg as u16) * (255 - a as u16);
    (p / 255) as u8
}

/// The buffer after blending alpha `a` into the pixel at `(x, y)` of a
/// canvas `w` pixels wide: the three color bytes are blended toward black,
/// the alpha byte is set to 255.
pub open spec fn spec_blend_at(data: Seq<u8>, w: int, x: int, y: int, a: u8) -> Seq<u8> {
    let base = 4 * (y * w + x);
    data.update(base, spec_blend(data[base], a))
        .update(base + 1, spec_blend(data[base + 1], a))
        .update(base + 2, spec_blend(data[base + 2], a))
        .update(base + 3, 255u8)
}

/// The buffer after one coverage cell of a glyph is composited: the cell's
/// coordinates are taken relative to the glyph box's top-left corner, and
/// cells whose absolute coordinates fall outside the canvas are skipped.
pub open spec fn spec_composite_cell(
    data: Seq<u8>,
    w: int,
    h: int,
    bb: GlyphBox,
    cell: (u32, u32, u8),
) -> Seq<u8> {
    let px = bb.min_x + cell.0;
    let py = bb.min_y + cell.1;
    if 0 <= px < w && 0 <= py < h {
        spec_blend_at(data, w, px, py, cell.2)
    } else {
        data
    }
}

/// The buffer after a glyph's coverage cells are composited in order.
pub open spec fn spec_composite_cells(
    data: Seq<u8>,
    w: int,
    h: int,
    bb: GlyphBox,
    cells: Seq<(u32, u32, u8)>,
) -> Seq<u8>
    decreases cells.len(),
{
    if cells.len() == 0 {
        data
    } else {
        spec_composite_cells(spec_composite_cell(data, w, h, bb, cells[0]), w, h, bb, cells.drop_first())
    }
}

/// The buffer after a run's glyphs are composited in draw order.
pub open spec fn spec_composite_glyphs(
    data: Seq<u8>,
    w: int,
    h: int,
    glyphs: Seq<GlyphRasterModel>,
) -> Seq<u8>
    decreases glyphs.len(),
{
    if glyphs.len() == 0 {
        data
    } else {
        spec_composite_glyphs(
            spec_composite_cells(data, w, h, glyphs[0].bb, glyphs[0].cells),
            w,
            h,
            glyphs.drop_first(),
        )
    }
}

/// Composites one glyph's coverage cells onto the canvas, clipping cells
/// that fall outside it.
fn composite_glyph(canvas: &mut Canvas, g: &GlyphRaster)
    requires
        old(canvas).wf(),
    ensures
        final(canvas).wf(),
        final(canvas).width == old(canvas).width,
        final(canvas).height == old(canvas).height,
        final(canvas).data@ == spec_composite_cells(
            old(canvas).data@,
            old(canvas).width as int,
            old(canvas).height as int,
            g.bb,
            g.cells@,
        ),
{
    let w = canvas.width;
    let h = canvas.height;
    let ghost whole = spec_composite_cells(canvas.data@, w as int, h as int, g.bb, g.cells@);
    proof {
        assert(g.cells@.skip(0) =~= g.cells@);
    }
    let mut i: usize = 0;
    while i < g.cells.len()
        invariant
            i <= g.cells.len(),
            canvas.wf(),
            canvas.width == w,
            canvas.height == h,
            spec_composite_cells(canvas.data@, w as int, h as int, g.bb, g.cells@.skip(i as int))
                == whole,
        decreases g.cells.len() - i,
    {
        let ghost before = canvas.data@;
        proof {
            assert(g.cells@.skip(i as int)[0] == g.cells@[i as int]);
            assert(g.cells@.skip(i as int).drop_first() =~= g.cells@.skip(i as int + 1));
        }
        let (cx, cy, a) = g.cells[i];
        let px: i64 = g.bb.min_x as i64 + cx as i64;
        let py: i64 = g.bb.min_y as i64 + cy as i64;
        if 0 <= px && px < w as i64 && 0 <= py && py < h as i64 {
            canvas.blend_pixel(px as u32, py as u32, a);
        }
        proof {
            assert(canvas.data@ == spec_composite_cell(before, w as int, h as int, g.bb, g.cells@[i as int]));
        }
        i = i + 1;
    }
    proof {
        assert(g.cells@.skip(g.cells@.len() as int) =~= Seq::<(u32, u32, u8)>::empty());
    }
}

/// Composites a run of rasterized glyphs onto the canvas, in draw order,
/// silently clipping coverage that falls outside the canvas. The canvas
/// keeps its dimensions and stays fully opaque.
pub fn composite(canvas: &mut Canvas, glyphs: &Vec<GlyphRaster>)
    requires
        old(canvas).wf(),
    ensures
        final(canvas).wf(),
        final(canvas).width == old(canvas).width,
        final(canvas).height == old(canvas).height,
        final(canvas).data@ == spec_composite_glyphs(
            old(canvas).data@,
            old(canvas).width as int,
            old(canvas).height as int,
            spec_rasters(glyphs@),
        ),
{
    let w = canvas.width;
    let h = canvas.height;
    let ghost whole = spec_composite_glyphs(canvas.data@, w as int, h as int, spec_rasters(glyphs@));
    proof {
        assert(spec_rasters(glyphs@).skip(0) =~= spec_rasters(glyphs@));
    }
    let mut i: usize = 0;
    while i < glyphs.len()
        invariant
            i <= glyphs.len(),
            canvas.wf(),
            canvas.width == w,
            canvas.height == h,
            spec_composite_glyphs(
                canvas.data@,
                w as int,
                h as int,
                spec_rasters(glyphs@).skip(i as int),
            ) == whole,
        decreases glyphs.len() - i,
    {
        proof {
            assert(spec_rasters(glyphs@).skip(i as int)[0] == glyphs@[i as int]@);
            assert(spec_rasters(glyphs@).skip(i as int).drop_first()
                =~= spec_rasters(glyphs@).skip(i as int + 1));
        }
        composite_glyph(canvas, &glyphs[i]);
        i = i + 1;
    }
    proof {
        assert(spec_rasters(glyphs@).skip(glyphs@.len() as int)
            =~= Seq::<GlyphRasterModel>::empty());
    }
}

} // verus!
