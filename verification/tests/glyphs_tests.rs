use epoch_image::glyphs::GlyphBox;
use epoch_image::glyphs::center_offsets;
use epoch_image::glyphs::run_bounding_box;

#[test]
fn union_over_all_boxes() {
    let boxes = vec![
        Some(GlyphBox { min_x: 10, min_y: 5, max_x: 20, max_y: 15 }),
        None,
        Some(GlyphBox { min_x: 25, min_y: 3, max_x: 30, max_y: 12 }),
        Some(GlyphBox { min_x: 32, min_y: 6, max_x: 40, max_y: 18 }),
    ];
    let bb = run_bounding_box(&boxes);
    assert_eq!(bb, GlyphBox { min_x: 10, min_y: 3, max_x: 40, max_y: 18 });
}

#[test]
fn no_boxes_give_the_degenerate_box() {
    let bb = run_bounding_box(&Vec::new());
    assert_eq!(bb, GlyphBox { min_x: 0, min_y: 0, max_x: 0, max_y: 0 });
    let bb = run_bounding_box(&vec![None, None]);
    assert_eq!(bb, GlyphBox { min_x: 0, min_y: 0, max_x: 0, max_y: 0 });
}

#[test]
fn single_box_is_its_own_union() {
    let b = GlyphBox { min_x: -3, min_y: -2, max_x: 7, max_y: 9 };
    assert_eq!(run_bounding_box(&vec![Some(b)]), b);
}

#[test]
fn offsets_center_the_box_in_the_canvas() {
    // A 320 by 80 canvas; the run spans x in [10, 50], y in [20, 60].
    let bb = GlyphBox { min_x: 10, min_y: 20, max_x: 50, max_y: 60 };
    let (xh, yh) = center_offsets(320, 80, bb);
    // Offsets are in half-pixels: x offset 130, y offset 0.
    assert_eq!(xh, 320 - 50 - 10);
    assert_eq!(yh, 80 - 60 - 20);
    // After the offset, the box midpoint (in half-pixel units) sits at the
    // canvas center on both axes.
    assert_eq!((bb.min_x + bb.max_x) as i64 + xh, 320);
    assert_eq!((bb.min_y + bb.max_y) as i64 + yh, 80);
}

#[test]
fn degenerate_box_centers_at_the_drawable_center() {
    let bb = GlyphBox { min_x: 0, min_y: 0, max_x: 0, max_y: 0 };
    let (xh, yh) = center_offsets(320, 80, bb);
    assert_eq!(xh, 320);
    assert_eq!(yh, 80);
}
