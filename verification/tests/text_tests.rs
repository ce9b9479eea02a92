use brain_dump::text::{decimal_text, same_text};

#[test]
fn decimals() {
    assert_eq!(decimal_text(0), "0");
    assert_eq!(decimal_text(9), "9");
    assert_eq!(decimal_text(10), "10");
    assert_eq!(decimal_text(1500), "1500");
    assert_eq!(decimal_text(u32::MAX), "4294967295");
}

#[test]
fn text_comparison() {
    assert!(same_text("toggle", "toggle"));
    assert!(!same_text("toggle", "Toggle"));
    assert!(same_text("", ""));
}
