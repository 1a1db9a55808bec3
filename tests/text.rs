use amp_ctl::decimal::{format_decimal, parse_decimal};
use amp_ctl::error::TransportError;
use amp_ctl::text::{remove_all_occurrences, same_text, trim};
use amp_ctl::transport::{clean_response, decode_response, frame_command};

#[test]
fn trim_removes_surrounding_whitespace() {
    assert_eq!(trim("  ON\t\n"), "ON");
    assert_eq!(trim("\u{3000}A B\u{a0}"), "A B");
    assert_eq!(trim("   "), "");
    assert_eq!(trim(""), "");
}

#[test]
fn remove_all_scans_left_to_right() {
    assert_eq!(remove_all_occurrences("aaa", "aa"), "a");
    assert_eq!(remove_all_occurrences("xAB yAB z", "AB "), "xyz");
    assert_eq!(remove_all_occurrences("", "A "), "");
}

#[test]
fn same_text_compares_characters() {
    assert!(same_text("AB", "AB"));
    assert!(!same_text("AB", "A"));
    assert!(!same_text("AB", "Ab"));
}

#[test]
fn decimal_format() {
    assert_eq!(format_decimal(0), "0");
    assert_eq!(format_decimal(-30), "-30");
    assert_eq!(format_decimal(1234), "1234");
    assert_eq!(format_decimal(i64::MIN), "-9223372036854775808");
    assert_eq!(format_decimal(i64::MAX), "9223372036854775807");
}

#[test]
fn decimal_parse_matches_std() {
    for s in ["0", "-0", "+7", "-64", "2147483647", "-2147483648", "007"] {
        assert_eq!(parse_decimal(s), s.parse::<i32>().ok(), "{}", s);
    }
    for s in ["", "-", "+", "2147483648", "-2147483649", "99999999999999999999", "1-", " 1", "１"] {
        assert_eq!(parse_decimal(s), None, "{}", s);
    }
}

#[test]
fn frame_adds_carriage_return() {
    assert_eq!(frame_command(" GET SDQLVL \n"), "GET SDQLVL\r");
    assert_eq!(frame_command("SET STANDBY ON"), "SET STANDBY ON\r");
}

#[test]
fn decode_response_strips_and_replaces() {
    assert_eq!(decode_response(b"SDQLVL -30\r").unwrap(), "SDQLVL -30");
    assert_eq!(decode_response(b"\rA\rB\r").unwrap(), "AB");
    assert_eq!(decode_response(b"ON\xff").unwrap(), "ON\u{fffd}");
    assert!(matches!(decode_response(b""), Err(TransportError::NoData)));
    assert_eq!(clean_response("x\r\ny"), "x\ny");
}
