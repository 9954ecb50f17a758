use prost_validate_rules::formats::{
    is_address, is_email, is_header_name, is_header_value, is_hostname, is_ip, is_ipv4, is_ipv6,
    is_uri, is_uri_ref, is_uuid,
};
use prost_validate_rules::text::chars_of;

fn c(s: &str) -> Vec<char> {
    chars_of(s)
}

#[test]
fn hostname_valid() {
    assert!(is_hostname(&c("example.com")));
    assert!(is_hostname(&c("ASD.example.com")));
    assert!(is_hostname(&c("foo-bar.com")));
    assert!(is_hostname(&c("example.com.")));
}

#[test]
fn hostname_invalid() {
    assert!(!is_hostname(&c("!@#$%^&")));
    assert!(!is_hostname(&c("foo_bar.com")));
    assert!(!is_hostname(&c(
        "x0123456789012345678901234567890123456789012345678901234567890123456789.com"
    )));
    assert!(!is_hostname(&c("foo-bar-.com")));
    assert!(!is_hostname(&c("foo-bar.-com")));
    assert!(!is_hostname(&c("asd..asd.com")));
    assert!(!is_hostname(&c("你好.com")));
    assert!(!is_hostname(&c("")));
    assert!(!is_hostname(&c(".")));
}

#[test]
fn hostname_label_of_63_characters() {
    let label = "a".repeat(63);
    assert!(is_hostname(&c(&format!("{}.com", label))));
    let label = "a".repeat(64);
    assert!(!is_hostname(&c(&format!("{}.com", label))));
}

#[test]
fn ipv4_cases() {
    assert!(is_ipv4(&c("192.168.0.1")));
    assert!(is_ipv4(&c("0.0.0.0")));
    assert!(is_ipv4(&c("255.255.255.255")));
    assert!(!is_ipv4(&c("foobar")));
    assert!(!is_ipv4(&c("256.0.0.0")));
    assert!(!is_ipv4(&c("3e::99")));
    assert!(!is_ipv4(&c("1.2.3")));
    assert!(!is_ipv4(&c("1.2.3.4.5")));
    assert!(!is_ipv4(&c("01.2.3.4")));
    assert!(!is_ipv4(&c("1..3.4")));
    assert!(!is_ipv4(&c("1.2.3.4.")));
    assert!(!is_ipv4(&c("1000.2.3.4")));
}

#[test]
fn ipv6_cases() {
    assert!(is_ipv6(&c("2001:0db8:85a3:0000:0000:8a2e:0370:7334")));
    assert!(is_ipv6(&c("2001:db8:85a3::8a2e:370:7334")));
    assert!(is_ipv6(&c("3e::99")));
    assert!(is_ipv6(&c("::")));
    assert!(is_ipv6(&c("::1")));
    assert!(is_ipv6(&c("1::")));
    assert!(is_ipv6(&c("::ffff:192.168.0.1")));
    assert!(is_ipv6(&c("1:2:3:4:5:6:1.2.3.4")));
    assert!(is_ipv6(&c("1:2:3:4:5:6:7::")));
    assert!(!is_ipv6(&c("foobar")));
    assert!(!is_ipv6(&c("192.168.0.1")));
    assert!(!is_ipv6(&c("ff::fff::0b")));
    assert!(!is_ipv6(&c("1:2:3:4:5:6:7:8:9")));
    assert!(!is_ipv6(&c("1:2:3:4:5:6:7:8::")));
    assert!(!is_ipv6(&c("12345::")));
    assert!(!is_ipv6(&c(":::")));
    assert!(!is_ipv6(&c("1.2.3.4::")));
    assert!(!is_ipv6(&c("1:2:3")));
}

#[test]
fn ip_cases() {
    assert!(is_ip(&c("192.168.0.1")));
    assert!(is_ip(&c("3e::99")));
    assert!(!is_ip(&c("example.com")));
}

#[test]
fn address_cases() {
    assert!(is_ip(&c("192.168.0.1")) || is_hostname(&c("192.168.0.1")));
    assert!(!is_ip(&c("ff::fff::0b")) && !is_hostname(&c("ff::fff::0b")));
}

#[test]
fn email_cases() {
    assert!(is_email(&c("foo@bar.com")));
    assert!(is_email(&c("John Smith <foo@bar.com>")));
    assert!(!is_email(&c("foobar")));
    assert!(!is_email(&c(
        "x0123456789012345678901234567890123456789012345678901234567890123456789@example.com"
    )));
    assert!(!is_email(&c(
        "foo@x0123456789012345678901234567890123456789012345678901234567890123456789.com"
    )));
    assert!(!is_email(&c("foo@-bar.com")));
    assert!(!is_email(&c("")));
    assert!(!is_email(&c("foo@bar@baz.com")));
    assert!(is_address(&c("first.last@example.com")));
    assert!(!is_address(&c(".first@example.com")));
}

#[test]
fn uri_cases() {
    assert!(is_uri(&c("http://example.com/foo/bar?baz=quux")));
    assert!(!is_uri(&c("!@#$%^&*%$#")));
    assert!(!is_uri(&c("/foo/bar?baz=quux")));
    assert!(is_uri_ref(&c("http://example.com/foo/bar?baz=quux")));
    assert!(is_uri_ref(&c("/foo/bar?baz=quux")));
    assert!(!is_uri_ref(&c("!@#$%^&*%$#")));
    assert!(is_uri_ref(&c("a%20b")));
    assert!(!is_uri_ref(&c("a%2")));
    assert!(!is_uri_ref(&c("a#b#c")));
}

#[test]
fn uuid_cases() {
    assert!(is_uuid(&c("00000000-0000-0000-0000-000000000000")));
    assert!(is_uuid(&c("b7c6ce1a-6b29-4c4f-9d70-4c3b2c2f1a5e")));
    assert!(is_uuid(&c("B7C6CE1A-6B29-4C4F-9D70-4C3B2C2F1A5E")));
    assert!(!is_uuid(&c("b7c6ce1a6b294c4f9d704c3b2c2f1a5e")));
    assert!(!is_uuid(&c("g7c6ce1a-6b29-4c4f-9d70-4c3b2c2f1a5e")));
    assert!(!is_uuid(&c("")));
}

#[test]
fn header_cases() {
    assert!(is_header_name(&c("clustername"), true));
    assert!(is_header_name(&c(":path"), true));
    assert!(!is_header_name(&c(""), true));
    assert!(!is_header_name(&c(":"), true));
    assert!(!is_header_name(&c("foo bar"), true));
    assert!(is_header_name(&c("foo bar"), false));
    assert!(!is_header_name(&c("foo\nbar"), false));
    assert!(is_header_value(&c("text/html; charset=utf-8"), true));
    assert!(is_header_value(&c("a\tb"), true));
    assert!(!is_header_value(&c("a\u{7f}b"), true));
    assert!(is_header_value(&c("a\u{7f}b"), false));
    assert!(!is_header_value(&c("a\rb"), false));
}
