use epoch_image::font::FontFace;
use epoch_image::render::render;

/// A smallest well-formed TrueType payload: the mandatory `head`, `hhea`
/// and `maxp` tables plus an `hmtx` with one advance, and no character map
/// or outlines, so every glyph lays out with an advance but draws no ink.
fn minimal_font_bytes() -> Vec<u8> {
    let mut d: Vec<u8> = Vec::new();
    d.extend([0x00, 0x01, 0x00, 0x00]); // sfnt version
    d.extend(4u16.to_be_bytes()); // table count
    d.extend([0u8; 6]); // search fields
    let records: [([u8; 4], u32, u32); 4] = [
        (*b"head", 76, 54),
        (*b"hhea", 130, 36),
        (*b"hmtx", 166, 4),
        (*b"maxp", 170, 6),
    ];
    for (tag, off, len) in records {
        d.extend(tag);
        d.extend(0u32.to_be_bytes()); // checksum, unchecked
        d.extend(off.to_be_bytes());
        d.extend(len.to_be_bytes());
    }
    // head
    d.extend([0x00, 0x01, 0x00, 0x00]); // version
    d.extend([0u8; 4]); // revision
    d.extend([0u8; 4]); // checksum adjustment
    d.extend([0x5F, 0x0F, 0x3C, 0xF5]); // magic
    d.extend([0u8; 2]); // flags
    d.extend(1000u16.to_be_bytes()); // units per em
    d.extend([0u8; 16]); // created, modified
    d.extend([0u8; 8]); // bounding box
    d.extend([0u8; 6]); // mac style, lowest ppem, direction hint
    d.extend([0u8; 2]); // index-to-location format
    d.extend([0u8; 2]); // glyph data format
    // hhea
    d.extend([0x00, 0x01, 0x00, 0x00]); // version
    d.extend(800i16.to_be_bytes()); // ascender
    d.extend((-200i16).to_be_bytes()); // descender
    d.extend(0i16.to_be_bytes()); // line gap
    d.extend([0u8; 24]); // advance extremes, caret, reserved
    d.extend(1u16.to_be_bytes()); // number of h-metrics
    // hmtx
    d.extend(500u16.to_be_bytes()); // advance width
    d.extend(0i16.to_be_bytes()); // left side bearing
    // maxp
    d.extend([0x00, 0x01, 0x00, 0x00]); // version
    d.extend(1u16.to_be_bytes()); // glyph count
    d
}

fn face() -> FontFace {
    FontFace::from_bytes(minimal_font_bytes()).expect("minimal font parses")
}

#[test]
fn minimal_font_payload_parses() {
    assert!(FontFace::from_bytes(minimal_font_bytes()).is_some());
}

#[test]
fn rendered_canvas_has_the_requested_dimensions() {
    let f = face();
    for w in [10u32, 320, 500, 10000] {
        let c = render(&f, "1700000000", w);
        assert_eq!(c.width, w);
        assert_eq!(c.height, w / 4);
        assert_eq!(c.data.len(), (4 * w * (w / 4)) as usize);
    }
}

#[test]
fn rendered_canvas_is_fully_opaque() {
    let c = render(&face(), "1700000000", 320);
    for p in c.data.chunks(4) {
        assert_eq!(p[3], 255);
    }
}

#[test]
fn out_of_range_width_renders_at_the_default() {
    let f = face();
    for w in [0u32, 9, 10001] {
        let c = render(&f, "1700000000", w);
        assert_eq!((c.width, c.height), (320, 80));
    }
}

#[test]
fn empty_text_renders_opaque_white() {
    let c = render(&face(), "", 320);
    assert_eq!((c.width, c.height), (320, 80));
    assert!(c.data.iter().all(|&b| b == 255));
}

#[test]
fn rendering_twice_is_byte_identical() {
    let f = face();
    let a = render(&f, "1700000000", 320);
    let b = render(&f, "1700000000", 320);
    assert_eq!(a.data, b.data);
}
