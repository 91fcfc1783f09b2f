use keyaura::text::{hex_color, hex_digit, str_eq};

#[test]
fn strings_compare_by_characters() {
    assert!(str_eq("", ""));
    assert!(str_eq("glow", "glow"));
    assert!(!str_eq("glow", "Glow"));
    assert!(!str_eq("glow", "glo"));
    assert!(str_eq("héllo", "héllo"));
    assert!(!str_eq("héllo", "hello"));
}

#[test]
fn hex_digits_and_colors() {
    for c in "0123456789abcdefABCDEF".chars() {
        assert!(hex_digit(c));
    }
    for c in "gG/:@`-x é".chars() {
        assert!(!hex_digit(c));
    }
    assert!(hex_color("#000000"));
    assert!(hex_color("#12Ab9F"));
    assert!(!hex_color("#12Ab9"));
    assert!(!hex_color("#12Ab9F0"));
    assert!(!hex_color("012Ab9F"));
    assert!(!hex_color("#gggggg"));
    assert!(!hex_color("#ééééé"));
    assert!(!hex_color(""));
}
