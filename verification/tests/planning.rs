use prost_validate_rules::builder::{plan_attributes, Attribute, FieldDesc, MessageDesc, OneofDesc};
use prost_validate_rules::duration::DurationRules;
use prost_validate_rules::message::{check_message_wf, Field, FieldValue, Message, Value};
use prost_validate_rules::number::{validate_number, NumberRules, ProtoInt};
use prost_validate_rules::rules::{FieldRules, FieldValidationInner};
use prost_validate_rules::wkt::{Duration, Timestamp};

fn fd(name: &str, has_rules: bool, annotation: Option<&str>, oneof: Option<usize>) -> FieldDesc {
    FieldDesc {
        full_name: format!("pkg.M.{}", name),
        name: name.to_string(),
        has_rules,
        annotation: annotation.map(|a| a.to_string()),
        oneof,
    }
}

#[test]
fn plan_for_plain_and_oneof_fields() {
    let m = MessageDesc {
        full_name: "pkg.M".to_string(),
        ignored: false,
        disabled: false,
        fields: vec![
            fd("a", true, Some("string(min_len = 1)"), None),
            fd("b", false, None, Some(0)),
            fd("c", true, Some("int32(gt = 0)"), Some(0)),
            fd("d", true, None, Some(0)),
        ],
        oneofs: vec![OneofDesc { full_name: "pkg.M.kind".to_string(), required: true, fields: vec![1, 2, 3] }],
    };
    let plan = plan_attributes(&vec![m]);
    let name = |p: &str, n: &str| Attribute::Name { path: p.to_string(), name: n.to_string() };
    assert_eq!(
        plan,
        vec![
            Attribute::DeriveValidator { path: "pkg.M".to_string() },
            name("pkg.M.a", "pkg.M.a"),
            Attribute::Rules { path: "pkg.M.a".to_string(), rules: "string(min_len = 1)".to_string() },
            name("pkg.M.b", "pkg.M.b"),
            name("pkg.M.c", "pkg.M.c"),
            name("pkg.M.kind", "pkg.M.kind"),
            Attribute::DeriveValidator { path: "pkg.M.kind".to_string() },
            Attribute::Required { path: "pkg.M.kind".to_string() },
            name("pkg.M.kind.b", "pkg.M.b"),
            name("pkg.M.kind.c", "pkg.M.c"),
            Attribute::Rules { path: "pkg.M.kind.c".to_string(), rules: "int32(gt = 0)".to_string() },
            name("pkg.M.kind.d", "pkg.M.d"),
            name("pkg.M.d", "pkg.M.d"),
        ]
    );
}

#[test]
fn plan_for_disabled_message() {
    let m = MessageDesc {
        full_name: "pkg.D".to_string(),
        ignored: false,
        disabled: true,
        fields: vec![fd("a", true, Some("string(min_len = 1)"), None)],
        oneofs: vec![],
    };
    assert_eq!(plan_attributes(&vec![m]), vec![Attribute::DeriveValidator { path: "pkg.D".to_string() }]);
}

#[test]
fn representability() {
    assert!(Duration { seconds: 1, nanos: 0 }.is_representable());
    assert!(!Duration { seconds: i64::MAX, nanos: 1_500_000_000 }.is_representable());
    assert!(Timestamp { seconds: 0, nanos: 0 }.is_representable());
    assert!(!Timestamp { seconds: 253_402_300_799, nanos: 1_000_000_000 }.is_representable());
    let r = DurationRules {
        required: false,
        const_: Some(Duration { seconds: i64::MAX, nanos: 1_500_000_000 }),
        lt: None,
        lte: None,
        gt: None,
        gte: None,
        in_: vec![],
        not_in: vec![],
    };
    assert!(!r.check_representable());
    assert!(r.check_has_value_checks());
}

#[test]
fn message_preconditions_checked() {
    let dr = DurationRules {
        required: false,
        const_: Some(Duration { seconds: 1, nanos: 0 }),
        lt: None,
        lte: None,
        gt: None,
        gte: None,
        in_: vec![],
        not_in: vec![],
    };
    let bad = Message {
        name: "pkg.M".to_string(),
        disabled: false,
        fields: vec![Field {
            name: "pkg.M.d".to_string(),
            rules: Some(FieldValidationInner { message: None, type_: Some(FieldRules::Duration(dr)) }),
            oneof: None,
            optional: false,
            value: Some(FieldValue::Single(Value::Duration(Some(Duration {
                seconds: i64::MAX,
                nanos: 1_500_000_000,
            })))),
        }],
        oneofs: vec![],
    };
    assert!(!check_message_wf(&bad));
    let unpaired = Message {
        name: "pkg.M".to_string(),
        disabled: false,
        fields: vec![Field {
            name: "pkg.M.m".to_string(),
            rules: None,
            oneof: None,
            optional: false,
            value: Some(FieldValue::Mapping { keys: vec![Value::Int32(1)], values: vec![] }),
        }],
        oneofs: vec![],
    };
    assert!(!check_message_wf(&unpaired));
}

#[test]
fn number_in_and_not_in_same_value_fails() {
    let r = NumberRules {
        const_: None,
        lt: None,
        lte: None,
        gt: None,
        gte: None,
        in_: vec![4i32],
        not_in: vec![4i32],
        ignore_empty: false,
    };
    assert!(validate_number(4i32, &r).is_err());
}
