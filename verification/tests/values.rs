use prost_validate_rules::bytes::{validate_bytes, BytesRules, WellKnown as BytesWellKnown};
use prost_validate_rules::duration::{validate_duration, DurationRules};
use prost_validate_rules::errors::any::Error as AnyError;
use prost_validate_rules::errors::boolean::Error as BoolError;
use prost_validate_rules::errors::bytes::Error as BytesError;
use prost_validate_rules::errors::enumeration::Error as EnumError;
use prost_validate_rules::errors::number::Error as NumberError;
use prost_validate_rules::errors::timestamp::Error as TimestampError;
use prost_validate_rules::number::{validate_number, NumberRules};
use prost_validate_rules::scalars::{
    validate_any, validate_bool, validate_enum, AnyRules, BoolRules, EnumRules,
};
use prost_validate_rules::timestamp::{
    validate_timestamp, validate_timestamp_checked, TimestampRules,
};
use prost_validate_rules::wkt::{Duration, Timestamp};

fn num<T>() -> NumberRules<T> {
    NumberRules {
        const_: None,
        lt: None,
        lte: None,
        gt: None,
        gte: None,
        in_: vec![],
        not_in: vec![],
        ignore_empty: false,
    }
}

#[test]
fn int32_const_in_not_in() {
    let r = NumberRules { const_: Some(1i32), ..num() };
    assert_eq!(validate_number(1i32, &r), Ok(()));
    assert_eq!(validate_number(2i32, &r), Err(NumberError::Const(1)));
    let r = NumberRules { in_: vec![2i32, 3], ..num() };
    assert_eq!(validate_number(3i32, &r), Ok(()));
    assert_eq!(validate_number(5i32, &r), Err(NumberError::In(vec![2, 3])));
    let r = NumberRules { not_in: vec![0u64], ..num() };
    assert_eq!(validate_number(1u64, &r), Ok(()));
    assert_eq!(validate_number(0u64, &r), Err(NumberError::NotIn(vec![0])));
}

#[test]
fn int64_single_bounds() {
    let r = NumberRules { lt: Some(0i64), ..num() };
    assert_eq!(validate_number(-1i64, &r), Ok(()));
    assert_eq!(validate_number(0i64, &r), Err(NumberError::Lt(0)));
    let r = NumberRules { lte: Some(64i64), ..num() };
    assert_eq!(validate_number(64i64, &r), Ok(()));
    assert_eq!(validate_number(65i64, &r), Err(NumberError::Lte(64)));
    let r = NumberRules { gt: Some(16u32), ..num() };
    assert_eq!(validate_number(17u32, &r), Ok(()));
    assert_eq!(validate_number(16u32, &r), Err(NumberError::Gt(16)));
    let r = NumberRules { gte: Some(8u32), ..num() };
    assert_eq!(validate_number(8u32, &r), Ok(()));
    assert_eq!(validate_number(7u32, &r), Err(NumberError::Gte(8)));
}

#[test]
fn int32_range_between() {
    let r = NumberRules { gt: Some(0i32), lt: Some(10), ..num() };
    assert_eq!(validate_number(5i32, &r), Ok(()));
    assert_eq!(
        validate_number(10i32, &r),
        Err(NumberError::InRange { lower_inclusive: false, lower: 0, upper: 10, upper_inclusive: false })
    );
    assert!(validate_number(0i32, &r).is_err());
    let r = NumberRules { gte: Some(128i32), lte: Some(256), ..num() };
    assert_eq!(validate_number(128i32, &r), Ok(()));
    assert_eq!(validate_number(256i32, &r), Ok(()));
    assert!(validate_number(300i32, &r).is_err());
}

#[test]
fn int32_range_outside() {
    let r = NumberRules { lt: Some(0i32), gt: Some(10), ..num() };
    assert_eq!(validate_number(11i32, &r), Ok(()));
    assert_eq!(validate_number(-1i32, &r), Ok(()));
    assert_eq!(
        validate_number(5i32, &r),
        Err(NumberError::NotInRange { lower_inclusive: true, lower: 0, upper: 10, upper_inclusive: true })
    );
    assert!(validate_number(10i32, &r).is_err());
    assert!(validate_number(0i32, &r).is_err());
}

#[test]
fn number_ignore_empty() {
    let r = NumberRules { gt: Some(200u64), ignore_empty: true, ..num() };
    assert_eq!(validate_number(0u64, &r), Ok(()));
    assert_eq!(validate_number(100u64, &r), Err(NumberError::Gt(200)));
}

#[test]
fn bool_const() {
    let r = BoolRules { const_: Some(true) };
    assert_eq!(validate_bool(true, &r), Ok(()));
    assert_eq!(validate_bool(false, &r), Err(BoolError::Const(true)));
    assert_eq!(validate_bool(false, &BoolRules { const_: None }), Ok(()));
}

#[test]
fn enum_rules() {
    let defined = vec![0, 1, 2];
    let base = EnumRules { const_: None, defined_only: None, in_: vec![], not_in: vec![] };
    let r = EnumRules { const_: Some(2), ..base.clone() };
    assert_eq!(validate_enum(2, &r, &defined), Ok(()));
    assert_eq!(validate_enum(1, &r, &defined), Err(EnumError::Const(2)));
    let r = EnumRules { defined_only: Some(true), ..base.clone() };
    assert_eq!(validate_enum(2, &r, &defined), Ok(()));
    assert_eq!(validate_enum(2147483647, &r, &defined), Err(EnumError::DefinedOnly));
    let r = EnumRules { in_: vec![0, 2], ..base.clone() };
    assert_eq!(validate_enum(1, &r, &defined), Err(EnumError::In(vec![0, 2])));
    let r = EnumRules { not_in: vec![1], ..base };
    assert_eq!(validate_enum(1, &r, &defined), Err(EnumError::NotIn(vec![1])));
}

#[test]
fn any_rules() {
    let r = AnyRules { required: true, in_: vec![], not_in: vec![] };
    assert_eq!(validate_any(&None, &r), Err(AnyError::Required));
    let r = AnyRules {
        required: false,
        in_: vec!["type.googleapis.com/google.protobuf.Duration".to_string()],
        not_in: vec![],
    };
    assert_eq!(validate_any(&None, &r), Ok(()));
    assert_eq!(
        validate_any(&Some("type.googleapis.com/google.protobuf.Duration".to_string()), &r),
        Ok(())
    );
    assert_eq!(
        validate_any(&Some("type.googleapis.com/google.protobuf.Timestamp".to_string()), &r),
        Err(AnyError::In(vec!["type.googleapis.com/google.protobuf.Duration".to_string()]))
    );
    let r = AnyRules {
        required: false,
        in_: vec![],
        not_in: vec!["type.googleapis.com/google.protobuf.Timestamp".to_string()],
    };
    assert!(validate_any(&Some("type.googleapis.com/google.protobuf.Timestamp".to_string()), &r)
        .is_err());
}

fn bytes_rules() -> BytesRules {
    BytesRules {
        const_: None,
        len: None,
        min_len: None,
        max_len: None,
        pattern: None,
        prefix: None,
        suffix: None,
        contains: None,
        in_: vec![],
        not_in: vec![],
        ignore_empty: false,
        well_known: None,
    }
}

#[test]
fn bytes_const_len() {
    let r = BytesRules { const_: Some(b"foo".to_vec()), ..bytes_rules() };
    assert_eq!(validate_bytes(&b"foo".to_vec(), &r), Ok(()));
    assert_eq!(validate_bytes(&b"bar".to_vec(), &r), Err(BytesError::Const(b"foo".to_vec())));
    let r = BytesRules { len: Some(3), ..bytes_rules() };
    assert_eq!(validate_bytes(&b"baz".to_vec(), &r), Ok(()));
    assert_eq!(validate_bytes(&b"ba".to_vec(), &r), Err(BytesError::Len(3)));
    let r = BytesRules { min_len: Some(3), max_len: Some(5), ..bytes_rules() };
    assert_eq!(validate_bytes(&b"fizz".to_vec(), &r), Ok(()));
    assert_eq!(validate_bytes(&b"go".to_vec(), &r), Err(BytesError::MinLen(3)));
    assert_eq!(validate_bytes(&b"foobarbaz".to_vec(), &r), Err(BytesError::MaxLen(5)));
}

#[test]
fn bytes_pattern_prefix_suffix_contains() {
    let r = BytesRules { pattern: Some("^[\\x00-\\x7F]+$".to_string()), ..bytes_rules() };
    assert_eq!(validate_bytes(&b"foo123".to_vec(), &r), Ok(()));
    assert_eq!(
        validate_bytes(&vec![0xE4, 0xBD, 0xA0], &r),
        Err(BytesError::Pattern("^[\\x00-\\x7F]+$".to_string()))
    );
    let r = BytesRules { prefix: Some(vec![0x99]), ..bytes_rules() };
    assert_eq!(validate_bytes(&vec![0x99, 0x9f], &r), Ok(()));
    assert_eq!(validate_bytes(&b"bar".to_vec(), &r), Err(BytesError::Prefix(vec![0x99])));
    let r = BytesRules { suffix: Some(b"buzz".to_vec()), ..bytes_rules() };
    assert_eq!(validate_bytes(&b"foobuzz".to_vec(), &r), Ok(()));
    assert_eq!(validate_bytes(&b"foobar".to_vec(), &r), Err(BytesError::Suffix(b"buzz".to_vec())));
    let r = BytesRules { contains: Some(b"bar".to_vec()), ..bytes_rules() };
    assert_eq!(validate_bytes(&b"candy bars".to_vec(), &r), Ok(()));
    assert_eq!(validate_bytes(&b"candy bazs".to_vec(), &r), Err(BytesError::Contains(b"bar".to_vec())));
}

#[test]
fn bytes_in_not_in_ignore_empty() {
    let r = BytesRules { in_: vec![b"bar".to_vec(), b"baz".to_vec()], ..bytes_rules() };
    assert_eq!(validate_bytes(&b"bar".to_vec(), &r), Ok(()));
    assert_eq!(
        validate_bytes(&b"quux".to_vec(), &r),
        Err(BytesError::In(vec![b"bar".to_vec(), b"baz".to_vec()]))
    );
    let r = BytesRules { not_in: vec![b"fizz".to_vec()], ..bytes_rules() };
    assert_eq!(validate_bytes(&b"fizz".to_vec(), &r), Err(BytesError::NotIn(vec![b"fizz".to_vec()])));
    let r = BytesRules { len: Some(3), ignore_empty: true, ..bytes_rules() };
    assert_eq!(validate_bytes(&vec![], &r), Ok(()));
}

#[test]
fn bytes_ip_formats() {
    let r = BytesRules { well_known: Some(BytesWellKnown::Ipv4(true)), ..bytes_rules() };
    assert_eq!(validate_bytes(&vec![0xC0, 0xA8, 0x00, 0x01], &r), Ok(()));
    assert_eq!(validate_bytes(&b"foobar".to_vec(), &r), Err(BytesError::Ipv4));
    let r = BytesRules { well_known: Some(BytesWellKnown::Ipv6(true)), ..bytes_rules() };
    let v6 = b"\x20\x01\x0D\xB8\x85\xA3\x00\x00\x00\x00\x8A\x2E\x03\x70\x73\x34".to_vec();
    assert_eq!(validate_bytes(&v6, &r), Ok(()));
    assert_eq!(validate_bytes(&vec![0xC0, 0xA8, 0x00, 0x01], &r), Err(BytesError::Ipv6));
    let r = BytesRules { well_known: Some(BytesWellKnown::Ip(true)), ..bytes_rules() };
    assert_eq!(validate_bytes(&v6, &r), Ok(()));
    assert_eq!(validate_bytes(&b"fooar".to_vec(), &r), Err(BytesError::Ip));
    let r = BytesRules {
        well_known: Some(BytesWellKnown::Ipv6(true)),
        ignore_empty: true,
        ..bytes_rules()
    };
    assert_eq!(validate_bytes(&vec![], &r), Ok(()));
}

fn d(seconds: i64, nanos: i32) -> Duration {
    Duration { seconds, nanos }
}

fn dur() -> DurationRules {
    DurationRules {
        required: false,
        const_: None,
        lt: None,
        lte: None,
        gt: None,
        gte: None,
        in_: vec![],
        not_in: vec![],
    }
}

#[test]
fn duration_rules() {
    let r = DurationRules { const_: Some(d(3, 0)), ..dur() };
    assert_eq!(validate_duration(&d(3, 0), &r), Ok(()));
    assert_eq!(validate_duration(&d(2, 1_000_000_000), &r), Ok(()));
    assert_eq!(validate_duration(&d(3, 1), &r), Err(NumberError::Const(d(3, 0))));
    let r = DurationRules { lt: Some(d(0, 0)), ..dur() };
    assert_eq!(validate_duration(&d(-1, 0), &r), Ok(()));
    assert_eq!(validate_duration(&d(0, 0), &r), Err(NumberError::Lt(d(0, 0))));
    let r = DurationRules { gt: Some(d(0, 1000)), lt: Some(d(1, 0)), ..dur() };
    assert_eq!(validate_duration(&d(0, 1001), &r), Ok(()));
    assert!(validate_duration(&d(1, 0), &r).is_err());
    let r = DurationRules { in_: vec![d(1, 0), d(0, 1000)], ..dur() };
    assert_eq!(validate_duration(&d(0, 1000), &r), Ok(()));
    assert_eq!(validate_duration(&d(0, 0), &r), Err(NumberError::In(vec![d(1, 0), d(0, 1000)])));
    let r = DurationRules { not_in: vec![d(0, 0)], ..dur() };
    assert_eq!(validate_duration(&d(0, 0), &r), Err(NumberError::NotIn(vec![d(0, 0)])));
    // The allowed values are not converted when the constant already fails.
    let r = DurationRules { const_: Some(d(3, 0)), in_: vec![d(i64::MAX, 1_000_000_000)], ..dur() };
    assert_eq!(validate_duration(&d(2, 0), &r), Err(NumberError::Const(d(3, 0))));
}

fn t(seconds: i64, nanos: i32) -> Timestamp {
    Timestamp { seconds, nanos }
}

fn ts() -> TimestampRules {
    TimestampRules {
        required: false,
        const_: None,
        lt: None,
        lte: None,
        gt: None,
        gte: None,
        lt_now: None,
        gt_now: None,
        within: None,
    }
}

const NOW: i128 = 1_700_000_000_000_000_000;

#[test]
fn timestamp_bounds() {
    let r = TimestampRules { const_: Some(t(3, 0)), ..ts() };
    assert_eq!(validate_timestamp_checked(&t(3, 0), &r, NOW), Ok(()));
    assert_eq!(
        validate_timestamp_checked(&t(3, 1), &r, NOW),
        Err(TimestampError::Bound(NumberError::Const(t(3, 0))))
    );
    let r = TimestampRules { gte: Some(t(0, 1000)), ..ts() };
    assert_eq!(validate_timestamp_checked(&t(0, 1000), &r, NOW), Ok(()));
    assert_eq!(
        validate_timestamp_checked(&t(0, 999), &r, NOW),
        Err(TimestampError::Bound(NumberError::Gte(t(0, 1000))))
    );
}

#[test]
fn timestamp_relative_to_now() {
    let r = TimestampRules { lt_now: Some(true), ..ts() };
    assert_eq!(validate_timestamp_checked(&t(1_600_000_000, 0), &r, NOW), Ok(()));
    assert_eq!(
        validate_timestamp_checked(&t(1_800_000_000, 0), &r, NOW),
        Err(TimestampError::LtNow)
    );
    let r = TimestampRules { gt_now: Some(true), ..ts() };
    assert_eq!(validate_timestamp_checked(&t(1_800_000_000, 0), &r, NOW), Ok(()));
    assert_eq!(
        validate_timestamp_checked(&t(1_600_000_000, 0), &r, NOW),
        Err(TimestampError::GtNow)
    );
    let r = TimestampRules { within: Some(d(3600, 0)), ..ts() };
    assert_eq!(validate_timestamp_checked(&t(1_700_000_100, 0), &r, NOW), Ok(()));
    assert_eq!(
        validate_timestamp_checked(&t(1_700_010_000, 0), &r, NOW),
        Err(TimestampError::Within(d(3600, 0)))
    );
    let r = TimestampRules { lt_now: Some(true), within: Some(d(3600, 0)), ..ts() };
    assert_eq!(validate_timestamp_checked(&t(1_699_999_000, 0), &r, NOW), Ok(()));
    assert_eq!(
        validate_timestamp_checked(&t(1_600_000_000, 0), &r, NOW),
        Err(TimestampError::LtNowWithin(d(3600, 0)))
    );
    let r = TimestampRules { gt_now: Some(true), within: Some(d(3600, 0)), ..ts() };
    assert_eq!(
        validate_timestamp_checked(&t(1_800_000_000, 0), &r, NOW),
        Err(TimestampError::GtNowWithin(d(3600, 0)))
    );
}

#[test]
fn timestamp_with_the_clock() {
    let r = TimestampRules { lt_now: Some(true), ..ts() };
    assert_eq!(validate_timestamp(&t(0, 0), &r), Ok(()));
    assert_eq!(validate_timestamp(&t(200_000_000_000, 0), &r), Err(TimestampError::LtNow));
    let r = TimestampRules { gt_now: Some(true), ..ts() };
    assert_eq!(validate_timestamp(&t(200_000_000_000, 0), &r), Ok(()));
}

#[test]
fn timestamp_window_leaving_range() {
    let r = TimestampRules { within: Some(d(300_000_000_000, 0)), ..ts() };
    assert_eq!(
        validate_timestamp_checked(&t(0, 0), &r, NOW),
        Err(TimestampError::NowOutOfRange)
    );
}
