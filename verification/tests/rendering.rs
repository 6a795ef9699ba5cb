use win32_result::WIN32_ERROR;

#[test]
fn display_renders_decimal() {
    assert_eq!(WIN32_ERROR(2).display_string(), "2");
}

#[test]
fn debug_renders_type_qualified_decimal() {
    let s = WIN32_ERROR(2).debug_string();
    assert_eq!(s, "WIN32_ERROR(2)");
    assert!(s.contains("2"));
}

#[test]
fn display_renders_zero() {
    assert_eq!(WIN32_ERROR(0).display_string(), "0");
}

#[test]
fn display_renders_every_digit() {
    assert_eq!(WIN32_ERROR(1234567890).display_string(), "1234567890");
}

#[test]
fn display_renders_largest_code() {
    assert_eq!(WIN32_ERROR(u32::MAX).display_string(), "4294967295");
    assert_eq!(
        WIN32_ERROR(u32::MAX).debug_string(),
        "WIN32_ERROR(4294967295)"
    );
}

#[test]
fn display_keeps_inner_zeros() {
    assert_eq!(WIN32_ERROR(1000).display_string(), "1000");
    assert_eq!(WIN32_ERROR(10).display_string(), "10");
}
