//! The font store and the trusted boundary to the rusttype rasterizer.
//!
//! A `FontFace` holds one parsed typeface for the lifetime of the process,
//! together with the mathematical value of the bytes it was parsed from, so
//! that contracts can state that layout results are a function of the font
//! data, the text and the scale alone (rusttype's layout is deterministic:
//! it reads only the font tables and its arguments).
//!
//! Loading validates the payload beyond parsing: rusttype's layout unwraps
//! the horizontal metrics of every glyph it positions, asserts that
//! character-map indices lie below the glyph count, and divides by the
//! ascender minus the descender, so `from_bytes` rejects any payload whose
//! tables could make laying out some text panic. A type invariant records
//! that every `FontFace` passed this validation.
//!
//! Fixed-point units at this boundary: the font scale is given in hundredths
//! of a pixel and the layout origin in halves of a pixel; the wrappers
//! convert them to the rasterizer's floating-point arguments.

use crate::canvas::GlyphRaster;
use crate::canvas::GlyphRasterModel;
use crate::canvas::spec_rasters;
use crate::glyphs::GlyphBox;
use owned_ttf_parser::AsFaceRef;
use owned_ttf_parser::GlyphId;
use owned_ttf_parser::OwnedFace;
use rusttype::Scale;
use rusttype::point;
use vstd::prelude::*;

verus! {

/// rusttype's parsed font type, opaque to verification.
#[verifier::external_type_specification]
#[verifier::external_body]
pub struct ExFont<'a>(rusttype::Font<'a>);

/// One loaded typeface: the parsed font together with the byte payload it
/// was parsed from.
pub struct FontFace {
    font: rusttype::Font<'static>,
    data: Vec<u8>,
}

/// Whether a font payload parses and its tables support laying out any
/// text without reaching a panic in the rasterizer: every glyph has
/// horizontal metrics, every character-map entry resolves to a glyph below
/// the glyph count, and the ascender exceeds the descender.
pub uninterp spec fn layout_safe(font: Seq<u8>) -> bool;

/// The per-glyph pixel bounding boxes of laying out `text` at font scale
/// `scale_centi` hundredths of a pixel, with the pen starting at the origin
/// on the baseline (that is, at `(0, ascent)` in canvas coordinates): one
/// entry per character, `None` for a glyph with no ink.
pub uninterp spec fn first_pass_boxes(font: Seq<u8>, text: Seq<char>, scale_centi: int) -> Seq<
    Option<GlyphBox>,
>;

/// The rasterized glyphs of laying out `text` at font scale `scale_centi`
/// hundredths of a pixel with the pen starting at `(x_halves, y_halves)`
/// half-pixels from the origin (plus the ascent vertically): one entry per
/// glyph that has a pixel bounding box, in text order, each with its
/// coverage alphas.
pub uninterp spec fn second_pass_rasters(
    font: Seq<u8>,
    text: Seq<char>,
    scale_centi: int,
    x_halves: int,
    y_halves: int,
) -> Seq<GlyphRasterModel>;

/// Checks that a payload parses and that its tables support panic-free
/// layout.
///
/// Relies on ttf-parser, reached through owned_ttf_parser: `from_vec`
/// parses the mandatory tables; `glyph_hor_advance` and
/// `glyph_hor_side_bearing` are the lookups rusttype unwraps for every
/// positioned glyph; the `cmap` subtables are the source of every glyph
/// index rusttype asserts to be below the glyph count; the `hhea` ascender
/// and descender are the metrics whose difference rusttype divides by.
#[verifier::external_body]
fn layout_is_total(data: &Vec<u8>) -> (r: bool)
    ensures
        r == layout_safe(data@),
{
    let face = match OwnedFace::from_vec(data.clone(), 0) { Ok(f) => f, Err(_) => return false };
    let f = face.as_face_ref();
    let n = f.number_of_glyphs();
    let mut ok = f.tables().hhea.ascender > f.tables().hhea.descender;
    ok = ok && (0..n).all(|i| f.glyph_hor_advance(GlyphId(i)).is_some() && f.glyph_hor_side_bearing(GlyphId(i)).is_some());
    if let Some(cmap) = f.tables().cmap {
        for t in cmap.subtables {
            t.codepoints(|c| ok = ok && t.glyph_index(c).map_or(true, |g| g.0 < n));
        }
    }
    ok
}

/// Parses a validated payload into a face.
///
/// Relies on rusttype's `Font::try_from_vec`; the caller has already run
/// the layout-safety validation, which the constructed face's type
/// invariant records.
#[verifier::external_body]
fn parse_font(data: Vec<u8>) -> (r: Option<FontFace>)
    requires
        layout_safe(data@),
    ensures
        r matches Some(f) ==> f.bytes() == data@,
{
    rusttype::Font::try_from_vec(data.clone()).map(|font| FontFace { font, data })
}

impl FontFace {
    /// Every face that exists was built from a payload that passed the
    /// layout-safety validation.
    #[verifier::type_invariant]
    pub closed spec fn layout_ready(self) -> bool {
        layout_safe(self.data@)
    }

    /// The byte payload this face was parsed from.
    pub closed spec fn bytes(&self) -> Seq<u8> {
        self.data@
    }

    /// Parses a typeface from its byte payload. Returns `None` when the
    /// payload is malformed or when its tables could make laying out some
    /// text panic in the rasterizer.
    pub fn from_bytes(data: Vec<u8>) -> (r: Option<FontFace>)
        ensures
            r matches Some(f) ==> f.bytes() == data@,
    {
        if !layout_is_total(&data) {
            return None;
        }
        parse_font(data)
    }

    /// Lays out `text` at the given scale with the pen at the origin and
    /// reports each glyph's pixel bounding box.
    ///
    /// Relies on rusttype's `Font::v_metrics`, `Font::layout` and
    /// `PositionedGlyph::pixel_bounding_box`: layout yields exactly one
    /// positioned glyph per character of the text, and both layout and the
    /// boxes are a function of the font data, the text and the scale alone.
    /// The scale bound keeps every pixel coordinate of an outline far
    /// inside the `i32` range.
    #[verifier::external_body]
    pub(crate) fn layout_boxes(&self, text: &str, scale_centi: u32) -> (r: Vec<Option<GlyphBox>>)
        requires
            layout_safe(self.bytes()),
            scale_centi <= 180000,
        ensures
            r@ == first_pass_boxes(self.bytes(), text@, scale_centi as int),
            r@.len() == text@.len(),
    {
        let f = |n: i64| Scale::uniform(n as _).y;
        let scale = Scale::uniform(f(scale_centi as i64) / f(100));
        let ascent = self.font.v_metrics(scale).ascent;
        self.font.layout(text, scale, point(f(0), ascent)).map(|g| {
            g.pixel_bounding_box().map(|b| GlyphBox::new(b.min.x, b.min.y, b.max.x, b.max.y))
        }).collect()
    }

    /// Lays out `text` at the given scale with the pen offset by the given
    /// half-pixel amounts, and rasterizes each glyph that has a pixel
    /// bounding box into its coverage alphas.
    ///
    /// Relies on rusttype's `Font::v_metrics`, `Font::layout`,
    /// `PositionedGlyph::pixel_bounding_box` and `PositionedGlyph::draw`:
    /// layout yields one glyph per character; `draw` reports, for every cell
    /// of the glyph's bounding box, an analytic coverage value in `[0, 1]`,
    /// which the wrapper converts to an 8-bit alpha by multiplying by 255
    /// and rounding to the nearest integer; everything is a function of the
    /// font data, the text, the scale and the origin alone. The scale bound
    /// keeps every pixel coordinate of an outline far inside the `i32`
    /// range.
    #[verifier::external_body]
    pub(crate) fn layout_rasters(
        &self,
        text: &str,
        scale_centi: u32,
        x_halves: i64,
        y_halves: i64,
    ) -> (r: Vec<GlyphRaster>)
        requires
            layout_safe(self.bytes()),
            scale_centi <= 180000,
        ensures
            spec_rasters(r@) == second_pass_rasters(
                self.bytes(),
                text@,
                scale_centi as int,
                x_halves as int,
                y_halves as int,
            ),
            text@.len() == 0 ==> r@.len() == 0,
    {
        let f = |n: i64| Scale::uniform(n as _).y;
        let scale = Scale::uniform(f(scale_centi as i64) / f(100));
        let ascent = self.font.v_metrics(scale).ascent;
        self.font.layout(text, scale, point(f(x_halves) / f(2), f(y_halves) / f(2) + ascent))
            .filter_map(|g| g.pixel_bounding_box().map(|b| {
            let mut cells = Vec::new();
            g.draw(|x, y, v| cells.push((x, y, (v * f(255)).round() as u8)));
            GlyphRaster { bb: GlyphBox::new(b.min.x, b.min.y, b.max.x, b.max.y), cells }
        })).collect()
    }
}

/// A face in hand passed the loader's layout-safety validation.
pub proof fn lemma_face_layout_safe(face: &FontFace)
    requires
        face.layout_ready(),
    ensures
        layout_safe(face.bytes()),
{
}

} // verus!
