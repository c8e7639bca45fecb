use epoch_image::routes::is_alias;
use epoch_image::routes::redirect_path;
use epoch_image::text::decimal_string;

#[test]
fn alias_values_are_recognized() {
    assert!(is_alias("epoch"));
    assert!(is_alias("latest"));
    assert!(!is_alias("1700000000"));
    assert!(!is_alias("Epoch"));
    assert!(!is_alias(""));
}

#[test]
fn redirect_preserves_the_query_string() {
    let target = redirect_path(&decimal_string(1700000000), "png", "width=500");
    assert_eq!(target, "/1700000000.png?width=500");
    assert!(!target.contains("latest"));
}

#[test]
fn redirect_without_a_query_has_no_question_mark() {
    assert_eq!(redirect_path("1700000000", "jpg", ""), "/1700000000.jpg");
}
