use dbterm::text::{join_strings, parse_u16_str, u16_to_decimal};

#[test]
fn decimal_rendering() {
    assert_eq!(u16_to_decimal(0), "0");
    assert_eq!(u16_to_decimal(7), "7");
    assert_eq!(u16_to_decimal(5432), "5432");
    assert_eq!(u16_to_decimal(65535), "65535");
}

#[test]
fn parse_like_std() {
    for s in ["", "+", "-", "5432", "+80", "-1", "0080", "65535", "65536", "99999999", "12a", " 1", "٣"] {
        assert_eq!(parse_u16_str(s), s.parse::<u16>().ok(), "input {:?}", s);
    }
}

#[test]
fn port_roundtrip_values() {
    for n in [0u16, 1, 9, 10, 99, 100, 5432, 65535] {
        assert_eq!(parse_u16_str(&u16_to_decimal(n)), Some(n));
    }
}

#[test]
fn join_lines() {
    assert_eq!(join_strings(&vec![], "\n"), "");
    assert_eq!(join_strings(&vec!["a".to_string()], "\n"), "a");
    assert_eq!(join_strings(&vec!["a".to_string(), "".to_string(), "b".to_string()], "\n"), "a\n\nb");
}
