use epoch_image::geometry::canvas_height;
use epoch_image::geometry::drawable_extent;
use epoch_image::geometry::scale_centi;
use epoch_image::geometry::validate_width;
use epoch_image::geometry::width_from_query;

#[test]
fn in_range_widths_pass_through() {
    assert_eq!(validate_width(10), 10);
    assert_eq!(validate_width(320), 320);
    assert_eq!(validate_width(10000), 10000);
}

#[test]
fn out_of_range_widths_fall_back_to_default() {
    assert_eq!(validate_width(9), 320);
    assert_eq!(validate_width(0), 320);
    assert_eq!(validate_width(10001), 320);
    assert_eq!(validate_width(u32::MAX), 320);
}

#[test]
fn missing_width_falls_back_to_default() {
    assert_eq!(width_from_query(None), 320);
    assert_eq!(width_from_query(Some(500)), 500);
    assert_eq!(width_from_query(Some(5)), 320);
}

#[test]
fn height_is_a_quarter_of_width() {
    assert_eq!(canvas_height(320), 80);
    assert_eq!(canvas_height(10), 2);
    assert_eq!(canvas_height(10000), 2500);
}

#[test]
fn drawable_area_of_default_canvas() {
    // 5% margins on each side of a 320 by 80 canvas leave 288 by 72.
    assert_eq!(drawable_extent(320), 288);
    assert_eq!(drawable_extent(80), 72);
}

#[test]
fn scale_is_72_percent_of_height_in_centipixels() {
    // 80% of the drawable height, which is 90% of the canvas height.
    assert_eq!(scale_centi(80), 5760);
    assert_eq!(scale_centi(2), 144);
}
