use cliplink::ipv4;
use cliplink::text::{
    decimal_text, is_white_space, lowered_contains, same_ignoring_case, same_text, split_dots, trim,
};

#[test]
fn white_space_is_that_of_std() {
    for n in 0..=0x10ffffu32 {
        if let Some(c) = char::from_u32(n) {
            assert_eq!(is_white_space(c), c.is_whitespace(), "{n:x}");
        }
    }
}

#[test]
fn trims_like_std() {
    for s in ["", " ", "a", " a b ", "\u{3000}名 字\u{a0}\n", "\t\r\n", "x\u{200b} "] {
        assert_eq!(trim(s), s.trim());
    }
}

#[test]
fn numbers_in_decimal() {
    for n in [0u64, 7, 10, 99, 100, 12345, u64::MAX] {
        assert_eq!(decimal_text(n), n.to_string());
    }
}

#[test]
fn comparisons() {
    assert!(same_text("名字", "名字"));
    assert!(!same_text("abc", "abd"));
    assert!(!same_text("abc", "ab"));
    assert!(same_ignoring_case("DeadBEEF", "dEADbeef"));
    assert!(!same_ignoring_case("Ä", "ä"));
    assert!(lowered_contains("My ZeroTier One", "zerotier"));
    assert!(lowered_contains("x", ""));
    assert!(!lowered_contains("zerotie", "zerotier"));
}

#[test]
fn parts_between_dots() {
    let join = |s: &str| -> Vec<String> {
        split_dots(s).into_iter().map(|p| p.into_iter().collect()).collect()
    };
    for s in ["", ".", "a.b", "1.2.3.4", "..", "名.字"] {
        let want: Vec<String> = s.split('.').map(|p| p.to_string()).collect();
        assert_eq!(join(s), want);
    }
}

#[test]
fn addresses_in_strict_form() {
    assert_eq!(ipv4::parse("0.0.0.0"), Some(0));
    assert_eq!(ipv4::parse("255.255.255.255"), Some(u32::MAX));
    assert_eq!(ipv4::parse("10.147.17.36"), Some(0x0a93_1124));
    assert_eq!(ipv4::parse("99.100.9.0"), Some(0x6364_0900));
    for s in [
        "", "1.2.3", "1.2.3.4.5", "256.1.1.1", "01.2.3.4", "1.2.3.4 ", " 1.2.3.4", "1..2.3",
        "a.b.c.d", "1.2.3.1000", "1.2.3.", ".1.2.3", "1.2.3.04", "00.0.0.0", "１.2.3.4", "1.2.3.4\n",
        "+1.2.3.4", "0x1.2.3.4",
    ] {
        assert_eq!(ipv4::parse(s), None, "{s:?}");
    }
}

#[test]
fn addresses_survive_printing() {
    for ip in [0u32, 1, 0x0a93_1124, 0xc0a8_bfb4, u32::MAX, 0x6400_0a63] {
        assert_eq!(ipv4::parse(&ipv4::dotted_text(ip)), Some(ip));
    }
    assert_eq!(ipv4::dotted_text(0xc0a8_bfb4), "192.168.191.180");
}
