use listo_blocks::text::{concat2, concat3, decimal_string, normalize_key, text_eq};

#[test]
fn normalize_key_examples() {
    assert_eq!(normalize_key("Analog-Input"), "analoginput");
    assert_eq!(normalize_key("  present_value "), "presentvalue");
    assert_eq!(normalize_key("Ünïcode-Ok9"), "ncodeok9");
    assert_eq!(normalize_key(""), "");
    let once = normalize_key("Multi State_Value");
    assert_eq!(normalize_key(&once), once);
}

#[test]
fn decimal_strings() {
    assert_eq!(decimal_string(0), "0");
    assert_eq!(decimal_string(7), "7");
    assert_eq!(decimal_string(47808), "47808");
    assert_eq!(decimal_string(u64::MAX), u64::MAX.to_string());
}

#[test]
fn concat_and_compare() {
    assert_eq!(concat2("a", "bc"), "abc");
    assert_eq!(concat3("x", "", "z"), "xz");
    assert!(text_eq("same", "same"));
    assert!(!text_eq("same", "Same"));
}
