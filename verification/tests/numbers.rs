use wayle_config::numbers::{format_decimal, format_i32, parse_hex_u64, parse_i32};

#[test]
fn parse_i32_matches_std() {
    for s in ["0", "1", "-1", "+7", "42", "-2147483648", "2147483647", "007", "-0"] {
        assert_eq!(parse_i32(s), s.parse::<i32>().ok(), "{s}");
    }
}

#[test]
fn parse_i32_rejects() {
    for s in ["", "-", "+", "2147483648", "-2147483649", "1a", " 1", "1.0", "--1"] {
        assert_eq!(parse_i32(s), None, "{s}");
        assert!(s.parse::<i32>().is_err());
    }
}

#[test]
fn parse_hex_matches_std() {
    for s in ["0", "ff", "FF", "7fffffff", "ffffffffffffffff", "+a", "DeadBeef"] {
        assert_eq!(parse_hex_u64(s), u64::from_str_radix(s, 16).ok(), "{s}");
    }
    for s in ["", "g", "10000000000000000", "-1", "0x1"] {
        assert_eq!(parse_hex_u64(s), None, "{s}");
    }
}

#[test]
fn formatting_matches_std() {
    for n in [0u64, 7, 10, 99, 1000, u64::MAX] {
        assert_eq!(format_decimal(n), n.to_string());
    }
    for v in [0i32, -1, 15, -305, i32::MIN, i32::MAX] {
        assert_eq!(format_i32(v), v.to_string());
    }
}

#[test]
fn format_then_parse_roundtrips() {
    for v in [0i32, 12, -12, i32::MIN, i32::MAX] {
        assert_eq!(parse_i32(&format_i32(v)), Some(v));
    }
}
