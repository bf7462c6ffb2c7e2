use light_factory_tui::text::{i64_text, u64_text};

#[test]
fn integers_render_in_decimal() {
    assert_eq!(u64_text(0), "0");
    assert_eq!(u64_text(42), "42");
    assert_eq!(u64_text(u64::MAX), u64::MAX.to_string());
    assert_eq!(i64_text(-7), "-7");
    assert_eq!(i64_text(i64::MIN), i64::MIN.to_string());
    assert_eq!(i64_text(i64::MAX), i64::MAX.to_string());
}
