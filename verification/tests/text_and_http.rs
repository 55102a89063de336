use dorisctl::http::{base64_encode, basic_auth, HttpClient};
use dorisctl::config::Profile;
use dorisctl::text::{trim_str, trim_start_str, trim_end_str, parse_u16_str, u64_to_string, i64_to_string, to_ascii_uppercase, str_eq, starts_with_str, join_strings, before_char_str};
use dorisctl::order::str_less;

#[test]
fn trims_unicode_whitespace() {
    assert_eq!(trim_str("  a b \n"), "a b");
    assert_eq!(trim_str("\u{3000}x\u{a0}"), "x");
    assert_eq!(trim_str(" \t "), "");
    assert_eq!(trim_start_str("  a "), "a ");
    assert_eq!(trim_end_str("  a "), "  a");
}

#[test]
fn parses_ports_like_std() {
    assert_eq!(parse_u16_str("9030"), Some(9030));
    assert_eq!(parse_u16_str("+80"), Some(80));
    assert_eq!(parse_u16_str("65535"), Some(65535));
    assert_eq!(parse_u16_str("65536"), None);
    assert_eq!(parse_u16_str(""), None);
    assert_eq!(parse_u16_str("+"), None);
    assert_eq!(parse_u16_str("-1"), None);
    assert_eq!(parse_u16_str(" 1"), None);
    for s in ["0", "007", "123456789", "12a", "+0"] {
        assert_eq!(parse_u16_str(s), s.parse::<u16>().ok());
    }
}

#[test]
fn formats_integers() {
    assert_eq!(u64_to_string(0), "0");
    assert_eq!(u64_to_string(18446744073709551615), "18446744073709551615");
    assert_eq!(i64_to_string(-42), "-42");
    assert_eq!(i64_to_string(i64::MIN), i64::MIN.to_string());
}

#[test]
fn string_helpers() {
    assert_eq!(to_ascii_uppercase("sélect"), "SéLECT");
    assert!(str_eq("abc", "abc"));
    assert!(!str_eq("abc", "abd"));
    assert!(starts_with_str("SELECT 1", "SELECT"));
    assert!(!starts_with_str("SEL", "SELECT"));
    assert_eq!(join_strings(&vec!["a".to_string(), "b".to_string()], ", "), "a, b");
    assert_eq!(join_strings(&vec![], ", "), "");
    assert_eq!(before_char_str("DECIMAL(10,2)", '('), "DECIMAL");
    assert_eq!(before_char_str("INT", '('), "INT");
}

#[test]
fn orders_strings_like_string_ord() {
    let words = ["", "a", "ab", "b", "Z", "é", "aé"];
    for x in words {
        for y in words {
            assert_eq!(str_less(x, y), x < y, "{x} < {y}");
        }
    }
}

#[test]
fn base64_matches_rfc4648() {
    assert_eq!(base64_encode(b""), "");
    assert_eq!(base64_encode(b"f"), "Zg==");
    assert_eq!(base64_encode(b"fo"), "Zm8=");
    assert_eq!(base64_encode(b"foo"), "Zm9v");
    assert_eq!(base64_encode(b"foobar"), "Zm9vYmFy");
    assert_eq!(base64_encode(&[0xff, 0xfe, 0xfd, 0x00]), "//79AA==");
}

#[test]
fn base64_length_law() {
    for n in 0..20usize {
        let input = vec![7u8; n];
        assert_eq!(base64_encode(&input).len(), 4 * ((n + 2) / 3));
    }
}

#[test]
fn basic_auth_header() {
    assert_eq!(basic_auth("root", ""), "Basic cm9vdDo=");
    assert_eq!(basic_auth("Aladdin", "open sesame"), "Basic QWxhZGRpbjpvcGVuIHNlc2FtZQ==");
}

#[test]
fn http_client_from_profile() {
    let mut p = Profile::default();
    p.password = Some("pw".to_string());
    let c = HttpClient::new(&p);
    assert_eq!(c.base_url, "http://localhost:8030");
    assert_eq!(c.url("/api/health"), "http://localhost:8030/api/health");
    assert_eq!(c.authorization(), basic_auth("root", "pw"));
    let q = Profile::default();
    assert_eq!(HttpClient::new(&q).authorization(), "Basic cm9vdDo=");
}
