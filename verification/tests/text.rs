use chamber_agent::text::{parse_u16, same_text, strip_prefix, trim, u16_to_decimal, IntErrorKind};

#[test]
fn trim_matches_std() {
    for s in ["", "   ", " a ", "\u{3000}x\u{85}", "a b", "\t\n\r x y \u{2029}", "\u{200b}z\u{200b}"] {
        assert_eq!(trim(s), s.trim());
    }
}

#[test]
fn parse_matches_std() {
    for s in ["", "+", "-", "0", "+0", "-0", "65535", "65536", "007", "12a", "a12", " 1", "+-1", "999999x", "x999999"] {
        let ours = parse_u16(s);
        let std = s.parse::<u16>();
        match (ours, std) {
            (Ok(a), Ok(b)) => assert_eq!(a, b, "{s}"),
            (Err(k), Err(e)) => {
                let expected = match e.kind() {
                    std::num::IntErrorKind::Empty => IntErrorKind::Empty,
                    std::num::IntErrorKind::InvalidDigit => IntErrorKind::InvalidDigit,
                    std::num::IntErrorKind::PosOverflow => IntErrorKind::PosOverflow,
                    other => panic!("unexpected {other:?}"),
                };
                assert_eq!(k, expected, "{s}");
            }
            (a, b) => panic!("{s}: {a:?} vs {b:?}"),
        }
    }
}

#[test]
fn decimal_matches_std() {
    for n in [0u16, 9, 10, 99, 100, 12345, 65535] {
        assert_eq!(u16_to_decimal(n), n.to_string());
    }
}

#[test]
fn prefixes() {
    assert_eq!(strip_prefix("READY 1", "READY "), Some("1"));
    assert_eq!(strip_prefix("READ", "READY "), None);
    assert_eq!(strip_prefix("éa", "é"), Some("a"));
    assert!(same_text("a", "a"));
    assert!(!same_text("a", "b"));
}
