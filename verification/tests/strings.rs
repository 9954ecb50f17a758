use prost_validate_rules::errors::string::Error;
use prost_validate_rules::string::{validate_string, KnownRegex, StringRules, WellKnown};

fn rules() -> StringRules {
    StringRules {
        const_: None,
        len: None,
        min_len: None,
        max_len: None,
        len_bytes: None,
        min_bytes: None,
        max_bytes: None,
        pattern: None,
        prefix: None,
        suffix: None,
        contains: None,
        not_contains: None,
        in_: vec![],
        not_in: vec![],
        strict: None,
        ignore_empty: false,
        well_known: None,
    }
}

fn check(v: &str, r: &StringRules) -> Result<(), Error> {
    validate_string(&v.to_string(), r)
}

#[test]
fn string_none_valid() {
    assert_eq!(check("quux", &rules()), Ok(()));
}

#[test]
fn string_const() {
    let r = StringRules { const_: Some("foo".to_string()), ..rules() };
    assert_eq!(check("foo", &r), Ok(()));
    assert_eq!(check("bar", &r), Err(Error::Const("foo".to_string())));
}

#[test]
fn string_in_and_not_in() {
    let r = StringRules { in_: vec!["bar".to_string(), "baz".to_string()], ..rules() };
    assert_eq!(check("bar", &r), Ok(()));
    assert_eq!(
        check("quux", &r),
        Err(Error::In(vec!["bar".to_string(), "baz".to_string()]))
    );
    let r = StringRules { not_in: vec!["fizz".to_string(), "buzz".to_string()], ..rules() };
    assert_eq!(check("quux", &r), Ok(()));
    assert_eq!(
        check("fizz", &r),
        Err(Error::NotIn(vec!["fizz".to_string(), "buzz".to_string()]))
    );
}

#[test]
fn string_in_and_not_in_same_value_fails() {
    let r = StringRules {
        in_: vec!["a".to_string()],
        not_in: vec!["a".to_string()],
        ..rules()
    };
    assert!(check("a", &r).is_err());
}

#[test]
fn string_len_counts_characters() {
    let r = StringRules { len: Some(3), ..rules() };
    assert_eq!(check("baz", &r), Ok(()));
    assert_eq!(check("你好吖", &r), Ok(()));
    assert_eq!(check("go", &r), Err(Error::Len(3)));
    assert_eq!(check("fizz", &r), Err(Error::Len(3)));
    assert_eq!(check("你好", &r), Err(Error::Len(3)));
}

#[test]
fn string_min_max_len() {
    let r = StringRules { min_len: Some(3), max_len: Some(5), ..rules() };
    assert_eq!(check("quux", &r), Ok(()));
    assert_eq!(check("foo", &r), Ok(()));
    assert_eq!(check("proto", &r), Ok(()));
    assert_eq!(check("你好你好", &r), Ok(()));
    assert_eq!(check("go", &r), Err(Error::MinLen(3)));
    assert_eq!(check("validate", &r), Err(Error::MaxLen(5)));
}

#[test]
fn string_len_bytes_counts_utf8_bytes() {
    let r = StringRules { len_bytes: Some(4), ..rules() };
    assert_eq!(check("pace", &r), Ok(()));
    assert_eq!(check("val", &r), Err(Error::LenBytes(4)));
    assert_eq!(check("world", &r), Err(Error::LenBytes(4)));
    assert_eq!(check("世界和平", &r), Err(Error::LenBytes(4)));
}

#[test]
fn string_min_max_bytes() {
    let r = StringRules { min_bytes: Some(4), max_bytes: Some(8), ..rules() };
    assert_eq!(check("protoc", &r), Ok(()));
    assert_eq!(check("quux", &r), Ok(()));
    assert_eq!(check("fizzbuzz", &r), Ok(()));
    assert_eq!(check("你好", &r), Ok(()));
    assert_eq!(check("foo", &r), Err(Error::MinLenBytes(4)));
    assert_eq!(check("你好你好你", &r), Err(Error::MaxLenBytes(8)));
}

#[test]
fn string_pattern() {
    let r = StringRules { pattern: Some("(?i)^[a-z0-9]+$".to_string()), ..rules() };
    assert_eq!(check("Foo123", &r), Ok(()));
    assert_eq!(
        check("!@#$%^&*()", &r),
        Err(Error::Pattern("(?i)^[a-z0-9]+$".to_string()))
    );
    assert!(check("", &r).is_err());
    assert!(check("a\u{0}", &r).is_err());
}

#[test]
fn string_pattern_escapes() {
    let r = StringRules { pattern: Some("\\* \\\\ \\w".to_string()), ..rules() };
    assert_eq!(check("* \\ x", &r), Ok(()));
    assert!(check("invalid", &r).is_err());
}

#[test]
fn string_invalid_pattern_is_reported() {
    let r = StringRules { pattern: Some("(".to_string()), ..rules() };
    let message = regex::Regex::new("(").unwrap_err().to_string();
    assert_eq!(check("x", &r), Err(Error::Pattern(message.clone())));
    assert_eq!(check("", &r), Err(Error::Pattern(message)));
}

#[test]
fn string_prefix_suffix_contains() {
    let r = StringRules { prefix: Some("foo".to_string()), ..rules() };
    assert_eq!(check("foobar", &r), Ok(()));
    assert_eq!(check("foo", &r), Ok(()));
    assert_eq!(check("Foobar", &r), Err(Error::Prefix("foo".to_string())));
    let r = StringRules { suffix: Some("baz".to_string()), ..rules() };
    assert_eq!(check("foobaz", &r), Ok(()));
    assert_eq!(check("FooBaz", &r), Err(Error::Suffix("baz".to_string())));
    let r = StringRules { contains: Some("bar".to_string()), ..rules() };
    assert_eq!(check("candy bars", &r), Ok(()));
    assert_eq!(check("candy bazs", &r), Err(Error::Contains("bar".to_string())));
    let r = StringRules { not_contains: Some("bar".to_string()), ..rules() };
    assert_eq!(check("candy bazs", &r), Ok(()));
    assert_eq!(check("bar", &r), Err(Error::NotContains("bar".to_string())));
}

#[test]
fn string_first_failing_rule_is_reported() {
    let r = StringRules {
        const_: Some("abc".to_string()),
        len: Some(2),
        prefix: Some("z".to_string()),
        ..rules()
    };
    assert_eq!(check("xyz", &r), Err(Error::Const("abc".to_string())));
    let r = StringRules { len: Some(2), prefix: Some("z".to_string()), ..rules() };
    assert_eq!(check("xyz", &r), Err(Error::Len(2)));
}

#[test]
fn string_ignore_empty() {
    let r = StringRules {
        ignore_empty: true,
        min_len: Some(3),
        well_known: Some(WellKnown::Email(true)),
        ..rules()
    };
    assert_eq!(check("", &r), Ok(()));
    assert_eq!(check("ab", &r), Err(Error::MinLen(3)));
}

#[test]
fn string_well_known() {
    let r = StringRules { well_known: Some(WellKnown::Email(true)), ..rules() };
    assert_eq!(check("foo@bar.com", &r), Ok(()));
    assert_eq!(check("foobar", &r), Err(Error::Email));
    let r = StringRules { well_known: Some(WellKnown::Address(true)), ..rules() };
    assert_eq!(check("3e::99", &r), Ok(()));
    assert_eq!(check("example.com", &r), Ok(()));
    assert_eq!(check("ff::fff::0b", &r), Err(Error::Address));
    let r = StringRules { well_known: Some(WellKnown::Ipv4(true)), ..rules() };
    assert_eq!(check("3e::99", &r), Err(Error::Ipv4));
    let r = StringRules { well_known: Some(WellKnown::Uuid(true)), ..rules() };
    assert_eq!(check("00000000-0000-0000-0000-000000000000", &r), Ok(()));
    let r = StringRules { well_known: Some(WellKnown::Hostname(false)), ..rules() };
    assert_eq!(check("!!!", &r), Ok(()));
}

#[test]
fn string_well_known_regex() {
    assert_eq!(KnownRegex::from_number(1), KnownRegex::HttpHeaderName);
    assert_eq!(KnownRegex::from_number(2), KnownRegex::HttpHeaderValue);
    assert_eq!(KnownRegex::from_number(7), KnownRegex::Unknown);
    let r = StringRules { well_known: Some(WellKnown::WellKnownRegex(1)), ..rules() };
    assert_eq!(check("foo bar", &r), Err(Error::HttpHeaderName));
    let r = StringRules {
        well_known: Some(WellKnown::WellKnownRegex(1)),
        strict: Some(false),
        ..rules()
    };
    assert_eq!(check("foo bar", &r), Ok(()));
    let r = StringRules { well_known: Some(WellKnown::WellKnownRegex(2)), ..rules() };
    assert_eq!(check("a\u{7f}", &r), Err(Error::HttpHeaderValue));
}
