//! Container encoding: the output format chosen from a requested file
//! extension, its MIME type, and the serialization of a canvas into PNG or
//! JPEG bytes through the image crate.
//!
//! JPEG has no alpha channel; since a well-formed canvas is fully opaque,
//! its alpha bytes are dropped losslessly before JPEG encoding.

use crate::canvas::Canvas;
use crate::text::str_eq;
use vstd::prelude::*;
use vstd::string::StringExecFns;

verus! {

/// An output container format.
#[derive(Clone, Copy, PartialEq, Eq, Structural, Debug)]
pub enum ImageKind {
    Png,
    Jpeg,
}

/// The format a requested extension selects: `jpg` and `jpeg` select JPEG;
/// anything else, PNG.
pub open spec fn spec_kind_for_ext(ext: Seq<char>) -> ImageKind {
    if ext == "jpg"@ || ext == "jpeg"@ {
        ImageKind::Jpeg
    } else {
        ImageKind::Png
    }
}

/// Chooses the output format for a requested extension.
pub fn kind_for_ext(ext: &str) -> (k: ImageKind)
    ensures
        k == spec_kind_for_ext(ext@),
{
    if str_eq(ext, "jpg") || str_eq(ext, "jpeg") {
        ImageKind::Jpeg
    } else {
        ImageKind::Png
    }
}

/// The MIME type of a format.
pub open spec fn spec_mime(k: ImageKind) -> Seq<char> {
    match k {
        ImageKind::Png => "image/png"@,
        ImageKind::Jpeg => "image/jpeg"@,
    }
}

/// The MIME type string announced with an encoded image.
pub fn mime_type(k: ImageKind) -> (s: String)
    ensures
        s@ == spec_mime(k),
{
    match k {
        ImageKind::Png => String::from_str("image/png"),
        ImageKind::Jpeg => String::from_str("image/jpeg"),
    }
}

/// The RGB bytes of an RGBA buffer: every fourth byte dropped.
pub open spec fn spec_rgb_of(rgba: Seq<u8>) -> Seq<u8> {
    Seq::new((rgba.len() / 4 * 3) as nat, |i: int| rgba[i / 3 * 4 + i % 3])
}

/// Extracts the RGB bytes of a canvas, dropping the (always 255) alpha
/// bytes.
pub fn rgb_bytes(c: &Canvas) -> (r: Vec<u8>)
    requires
        c.wf(),
    ensures
        r@ == spec_rgb_of(c.data@),
{
    proof {
        assert(c.data@.len() == 4 * ((c.width as int) * (c.height as int))) by (nonlinear_arith)
            requires
                c.data@.len() == 4 * (c.width as int) * (c.height as int),
        ;
        assert(c.data@.len() % 4 == 0);
    }
    let n: usize = c.data.len() / 4;
    let mut out: Vec<u8> = Vec::new();
    let mut p: usize = 0;
    while p < n
        invariant
            p <= n,
            n <= usize::MAX / 4,
            n == c.data@.len() / 4,
            c.data@.len() == 4 * n,
            out@.len() == 3 * p,
            forall|j: int| 0 <= j < out@.len() ==> out@[j] == c.data@[j / 3 * 4 + j % 3],
        decreases n - p,
    {
        out.push(c.data[4 * p]);
        out.push(c.data[4 * p + 1]);
        out.push(c.data[4 * p + 2]);
        proof {
            assert forall|j: int| 0 <= j < out@.len() implies out@[j] == c.data@[
                j / 3 * 4 + j % 3
            ] by {
                if j >= 3 * p {
                    assert(j / 3 == p && j % 3 == j - 3 * p) by (nonlinear_arith)
                        requires 3 * p <= j < 3 * p + 3, p >= 0;
                }
            }
        }
        p = p + 1;
    }
    proof {
        assert(out@ =~= spec_rgb_of(c.data@));
    }
    out
}

/// The PNG serialization of an RGBA buffer with the given dimensions.
pub uninterp spec fn png_bytes_of(rgba: Seq<u8>, w: int, h: int) -> Seq<u8>;

/// Whether `b` begins with the fixed eight-byte PNG file signature.
pub open spec fn spec_has_png_signature(b: Seq<u8>) -> bool {
    &&& b.len() >= 8
    &&& b[0] == 137u8
    &&& b[1] == 80u8
    &&& b[2] == 78u8
    &&& b[3] == 71u8
    &&& b[4] == 13u8
    &&& b[5] == 10u8
    &&& b[6] == 26u8
    &&& b[7] == 10u8
}

/// Whether `b` begins with the JPEG start-of-image marker.
pub open spec fn spec_has_jpeg_marker(b: Seq<u8>) -> bool {
    &&& b.len() >= 2
    &&& b[0] == 0xFFu8
    &&& b[1] == 0xD8u8
}

/// The JPEG serialization of an RGB buffer with the given dimensions.
pub uninterp spec fn jpeg_bytes_of(rgb: Seq<u8>, w: int, h: int) -> Seq<u8>;

/// Serializes an RGBA buffer as PNG.
///
/// Relies on the image crate's `write_buffer_with_format` with
/// `ImageFormat::Png`: it writes the PNG serialization of the buffer to the
/// writer, a function of the buffer and the dimensions alone; the PNG
/// encoder rejects only zero or extreme dimensions, so it succeeds for the
/// library's whole range, writing to a growable in-memory cursor that
/// cannot fail; and every PNG stream opens with the fixed file signature.
#[verifier::external_body]
fn encode_png_raw(width: u32, height: u32, rgba: &Vec<u8>) -> (r: Option<Vec<u8>>)
    requires
        rgba@.len() == 4 * (width as int) * (height as int),
    ensures
        r matches Some(b) ==> b@ == png_bytes_of(rgba@, width as int, height as int),
        1 <= width <= 10000 && 1 <= height <= 2500 ==> r is Some,
        r matches Some(b) ==> spec_has_png_signature(b@),
{
    let mut cur = std::io::Cursor::new(Vec::new());
    match image::write_buffer_with_format(
        &mut cur,
        rgba.as_slice(),
        width,
        height,
        image::ExtendedColorType::Rgba8,
        image::ImageFormat::Png,
    ) {
        Ok(()) => Some(cur.into_inner()),
        Err(_) => None,
    }
}

/// Serializes an RGB buffer as JPEG.
///
/// Relies on the image crate's `write_buffer_with_format` with
/// `ImageFormat::Jpeg`: it writes the JPEG serialization of the buffer to
/// the writer, a function of the buffer and the dimensions alone; the JPEG
/// encoder rejects only dimensions outside `[1, 65535]`, so it succeeds
/// for the library's whole range, writing to a growable in-memory cursor
/// that cannot fail; and every JPEG stream opens with the start-of-image
/// marker.
#[verifier::external_body]
fn encode_jpeg_raw(width: u32, height: u32, rgb: &Vec<u8>) -> (r: Option<Vec<u8>>)
    requires
        rgb@.len() == 3 * (width as int) * (height as int),
    ensures
        r matches Some(b) ==> b@ == jpeg_bytes_of(rgb@, width as int, height as int),
        1 <= width <= 10000 && 1 <= height <= 2500 ==> r is Some,
        r matches Some(b) ==> spec_has_jpeg_marker(b@),
{
    let mut cur = std::io::Cursor::new(Vec::new());
    match image::write_buffer_with_format(
        &mut cur,
        rgb.as_slice(),
        width,
        height,
        image::ExtendedColorType::Rgb8,
        image::ImageFormat::Jpeg,
    ) {
        Ok(()) => Some(cur.into_inner()),
        Err(_) => None,
    }
}

/// The encoded bytes of a canvas in a format: the PNG serialization of its
/// RGBA pixels, or the JPEG serialization of its RGB pixels.
pub open spec fn spec_encoded(data: Seq<u8>, w: int, h: int, k: ImageKind) -> Seq<u8> {
    match k {
        ImageKind::Png => png_bytes_of(data, w, h),
        ImageKind::Jpeg => jpeg_bytes_of(spec_rgb_of(data), w, h),
    }
}

/// Encodes a canvas in the requested container format: it succeeds on
/// every canvas with nonzero dimensions, and the bytes open with the
/// signature of the chosen format.
pub fn encode_canvas(c: &Canvas, k: ImageKind) -> (r: Option<Vec<u8>>)
    requires
        c.wf(),
    ensures
        r matches Some(b) ==> b@ == spec_encoded(
            c.data@,
            c.width as int,
            c.height as int,
            k,
        ),
        c.width >= 1 && c.height >= 1 ==> r is Some,
        r matches Some(b) ==> match k {
            ImageKind::Png => spec_has_png_signature(b@),
            ImageKind::Jpeg => spec_has_jpeg_marker(b@),
        },
{
    match k {
        ImageKind::Png => encode_png_raw(c.width, c.height, &c.data),
        ImageKind::Jpeg => {
            let rgb = rgb_bytes(c);
            proof {
                assert(spec_rgb_of(c.data@).len() == 3 * (c.width as int) * (c.height as int))
                    by (nonlinear_arith)
                    requires
                        c.data@.len() == 4 * (c.width as int) * (c.height as int),
                        spec_rgb_of(c.data@).len() == c.data@.len() / 4 * 3,
                ;
            }
            encode_jpeg_raw(c.width, c.height, &rgb)
        },
    }
}

} // verus!
