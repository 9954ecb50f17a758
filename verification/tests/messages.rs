use prost_validate_rules::errors::string::Error as StringError;
use prost_validate_rules::errors::{Error, Violation};
use prost_validate_rules::message::{
    map_key_string, unique_count, validate_list, validate_map, validate_message, validate_message_at,
    validate_value, Field, FieldValue, Message, MessageOptions, MessageRulesExt, Oneof,
    OneofRulesExt, ValidatorExt, Value,
};
use prost_validate_rules::number::NumberRules;
use prost_validate_rules::rules::{
    FieldRules, FieldValidationInner, MapRules, MessageRules, RepeatedRules,
};
use prost_validate_rules::string::StringRules;
use prost_validate_rules::wkt::Duration;
use prost_validate_rules::duration::DurationRules;

const NOW: i128 = 1_700_000_000_000_000_000;

fn string_rules() -> StringRules {
    StringRules {
        const_: None,
        len: None,
        min_len: None,
        max_len: None,
        len_bytes: None,
        min_bytes: None,
        max_bytes: None,
        pattern: None,
        prefix: None,
        suffix: None,
        contains: None,
        not_contains: None,
        in_: vec![],
        not_in: vec![],
        strict: None,
        ignore_empty: false,
        well_known: None,
    }
}

fn min_len(n: u64) -> FieldValidationInner {
    FieldValidationInner {
        message: None,
        type_: Some(FieldRules::String(StringRules { min_len: Some(n), ..string_rules() })),
    }
}

fn repeated() -> RepeatedRules {
    RepeatedRules { min_items: None, max_items: None, unique: None, items: None, ignore_empty: false }
}

fn s(v: &str) -> Value {
    Value::String(v.to_string())
}

#[test]
fn list_counts() {
    let r = RepeatedRules { min_items: Some(2), max_items: Some(3), ..repeated() };
    assert_eq!(validate_list(&vec![s("a"), s("b")], &r, NOW), Ok(()));
    assert_eq!(validate_list(&vec![s("a")], &r, NOW), Err(Error::MinItems(2)));
    assert_eq!(
        validate_list(&vec![s("a"), s("b"), s("c"), s("d")], &r, NOW),
        Err(Error::MaxItems(3))
    );
}

#[test]
fn list_unique() {
    let r = RepeatedRules { unique: Some(true), ..repeated() };
    assert_eq!(validate_list(&vec![s("a"), s("b")], &r, NOW), Ok(()));
    assert_eq!(validate_list(&vec![s("a"), s("b"), s("a")], &r, NOW), Err(Error::Unique));
    assert_eq!(unique_count(&vec![Value::Int32(1), Value::Int32(2), Value::Int32(1)]), Some(2));
    assert_eq!(unique_count(&vec![Value::Message(None)]), None);
    assert_eq!(unique_count(&vec![]), Some(0));
}

#[test]
fn list_items_first_failure() {
    let r = RepeatedRules { items: Some(Box::new(min_len(3))), ..repeated() };
    assert_eq!(validate_list(&vec![s("abc"), s("abcd")], &r, NOW), Ok(()));
    assert_eq!(
        validate_list(&vec![s("abc"), s("ab"), s("a")], &r, NOW),
        Err(Error::Item(1, Box::new(Error::String(StringError::MinLen(3)))))
    );
}

#[test]
fn list_item_ignored_when_empty_ends_checks() {
    let items = FieldValidationInner {
        message: None,
        type_: Some(FieldRules::String(StringRules {
            min_len: Some(3),
            ignore_empty: true,
            ..string_rules()
        })),
    };
    let r = RepeatedRules { items: Some(Box::new(items)), ..repeated() };
    assert_eq!(validate_list(&vec![s("abc"), s(""), s("a")], &r, NOW), Ok(()));
}

#[test]
fn list_ignore_empty() {
    let r = RepeatedRules { min_items: Some(1), ignore_empty: true, ..repeated() };
    assert_eq!(validate_list(&vec![], &r, NOW), Ok(()));
}

fn map_rules() -> MapRules {
    MapRules {
        min_pairs: None,
        max_pairs: None,
        no_sparse: None,
        keys: None,
        values: None,
        ignore_empty: false,
    }
}

#[test]
fn map_rules_checks() {
    let m = FieldValue::Mapping { keys: vec![s("a"), s("bb")], values: vec![Value::Int32(1), Value::Int32(0)] };
    let r = MapRules { min_pairs: Some(3), ..map_rules() };
    assert_eq!(validate_map(&m, &r, NOW), Err(Error::MinPairs(3)));
    let r = MapRules { max_pairs: Some(1), ..map_rules() };
    assert_eq!(validate_map(&m, &r, NOW), Err(Error::MaxPairs(1)));
    let r = MapRules { keys: Some(Box::new(min_len(2))), ..map_rules() };
    assert_eq!(
        validate_map(&m, &r, NOW),
        Err(Error::Key(0, Box::new(Error::String(StringError::MinLen(2)))))
    );
    let values = FieldValidationInner {
        message: None,
        type_: Some(FieldRules::Int32(NumberRules {
            const_: None,
            lt: None,
            lte: None,
            gt: Some(0),
            gte: None,
            in_: vec![],
            not_in: vec![],
            ignore_empty: false,
        })),
    };
    let r = MapRules { values: Some(Box::new(values)), ..map_rules() };
    assert!(matches!(validate_map(&m, &r, NOW), Err(Error::Value(1, _))));
    // A scalar value of zero does not make a map sparse.
    let r = MapRules { no_sparse: Some(true), ..map_rules() };
    assert_eq!(validate_map(&m, &r, NOW), Ok(()));
    let sparse = FieldValue::Mapping {
        keys: vec![s("a"), s("b")],
        values: vec![Value::Message(Some(Box::new(message(vec![], vec![])))), Value::Message(None)],
    };
    assert_eq!(validate_map(&sparse, &r, NOW), Err(Error::NoSparse(1)));
    let r = MapRules { min_pairs: Some(3), ignore_empty: true, ..map_rules() };
    let empty = FieldValue::Mapping { keys: vec![], values: vec![] };
    assert_eq!(validate_map(&empty, &r, NOW), Ok(()));
}

fn field(name: &str, rules: Option<FieldValidationInner>, value: Option<FieldValue>) -> Field {
    Field { name: name.to_string(), rules, oneof: None, optional: false, value }
}

fn message(fields: Vec<Field>, oneofs: Vec<Oneof>) -> Message {
    Message { name: "tests.Msg".to_string(), disabled: false, fields, oneofs }
}

#[test]
fn message_first_failing_field() {
    let m = message(
        vec![
            field("tests.Msg.a", Some(min_len(1)), Some(FieldValue::Single(s("x")))),
            field("tests.Msg.b", Some(min_len(3)), Some(FieldValue::Single(s("xy")))),
            field("tests.Msg.c", Some(min_len(3)), Some(FieldValue::Single(s("")))),
        ],
        vec![],
    );
    assert_eq!(
        validate_message_at(&m, NOW),
        Err(Violation {
            field: "tests.Msg.b".to_string(),
            error: Error::String(StringError::MinLen(3)),
        })
    );
}

#[test]
fn message_disabled_passes() {
    let mut m = message(
        vec![field("tests.Msg.b", Some(min_len(3)), Some(FieldValue::Single(s("xy"))))],
        vec![],
    );
    m.disabled = true;
    assert_eq!(validate_message_at(&m, NOW), Ok(()));
    assert_eq!(validate_message(&m), Ok(()));
    assert_eq!(m.validate(), Ok(()));
}

#[test]
fn message_required_field() {
    let rules = FieldValidationInner {
        message: Some(MessageRules { skip: false, required: true }),
        type_: None,
    };
    let m = message(
        vec![field("tests.Msg.inner", Some(rules), Some(FieldValue::Single(Value::Message(None))))],
        vec![],
    );
    assert_eq!(
        validate_message_at(&m, NOW),
        Err(Violation { field: "tests.Msg.inner".to_string(), error: Error::Required })
    );
}

#[test]
fn message_nested_violation() {
    let inner = message(
        vec![field("tests.Inner.x", Some(min_len(2)), Some(FieldValue::Single(s("a"))))],
        vec![],
    );
    let rules = FieldValidationInner { message: None, type_: None };
    let outer = message(
        vec![field(
            "tests.Msg.inner",
            Some(rules),
            Some(FieldValue::Single(Value::Message(Some(Box::new(inner))))),
        )],
        vec![],
    );
    assert_eq!(
        validate_message_at(&outer, NOW),
        Err(Violation {
            field: "tests.Msg.inner".to_string(),
            error: Error::Message(Box::new(Violation {
                field: "tests.Inner.x".to_string(),
                error: Error::String(StringError::MinLen(2)),
            })),
        })
    );
}

#[test]
fn message_skip_nested() {
    let inner = message(
        vec![field("tests.Inner.x", Some(min_len(2)), Some(FieldValue::Single(s("a"))))],
        vec![],
    );
    let rules = FieldValidationInner {
        message: Some(MessageRules { skip: true, required: false }),
        type_: None,
    };
    let outer = message(
        vec![field(
            "tests.Msg.inner",
            Some(rules),
            Some(FieldValue::Single(Value::Message(Some(Box::new(inner))))),
        )],
        vec![],
    );
    assert_eq!(validate_message_at(&outer, NOW), Ok(()));
}

fn oneof_member(name: &str, value: Option<FieldValue>) -> Field {
    Field { name: name.to_string(), rules: Some(min_len(1)), oneof: Some(0), optional: false, value }
}

#[test]
fn message_required_oneof() {
    let one = Oneof { name: "o".to_string(), required: true };
    assert!(one.required());
    let none_set = message(
        vec![oneof_member("tests.Msg.x", None), oneof_member("tests.Msg.y", None)],
        vec![one.clone()],
    );
    assert_eq!(
        validate_message_at(&none_set, NOW),
        Err(Violation { field: "o".to_string(), error: Error::OneofNotSet })
    );
    let one_set = message(
        vec![oneof_member("tests.Msg.x", Some(FieldValue::Single(s("a")))), oneof_member("tests.Msg.y", None)],
        vec![one.clone()],
    );
    assert_eq!(validate_message_at(&one_set, NOW), Ok(()));
    let bad_member = message(
        vec![oneof_member("tests.Msg.x", None), oneof_member("tests.Msg.y", Some(FieldValue::Single(s(""))))],
        vec![one],
    );
    assert_eq!(
        validate_message_at(&bad_member, NOW),
        Err(Violation {
            field: "tests.Msg.y".to_string(),
            error: Error::String(StringError::MinLen(1)),
        })
    );
}

#[test]
fn message_field_without_rules_is_not_checked() {
    let m = message(vec![field("tests.Msg.a", None, Some(FieldValue::Single(s(""))))], vec![]);
    assert_eq!(validate_message_at(&m, NOW), Ok(()));
}

#[test]
fn duration_field_required_and_bounds() {
    let dr = DurationRules {
        required: true,
        const_: None,
        lt: Some(Duration { seconds: 5, nanos: 0 }),
        lte: None,
        gt: None,
        gte: None,
        in_: vec![],
        not_in: vec![],
    };
    let rules = FieldValidationInner { message: None, type_: Some(FieldRules::Duration(dr)) };
    assert_eq!(validate_value(&Value::Duration(None), &rules, false, NOW), Err(Error::Required));
    assert_eq!(
        validate_value(&Value::Duration(Some(Duration { seconds: 1, nanos: 0 })), &rules, false, NOW),
        Ok(true)
    );
    assert!(validate_value(&Value::Duration(Some(Duration { seconds: 6, nanos: 0 })), &rules, false, NOW).is_err());
}

#[test]
fn wrapper_value_uses_type_rules() {
    let rules = min_len(2);
    assert_eq!(validate_value(&Value::Wrapper(None), &rules, false, NOW), Ok(true));
    assert_eq!(
        validate_value(&Value::Wrapper(Some(Box::new(s("a")))), &rules, false, NOW),
        Err(Error::String(StringError::MinLen(2)))
    );
}

#[test]
fn message_options() {
    let o = MessageOptions { disabled: Some(true), ignored: None };
    assert!(o.validation_disabled());
    assert!(!o.validation_ignored());
}

#[test]
fn map_key_text() {
    assert_eq!(map_key_string(&Value::Int32(-42)), Some("-42".to_string()));
    assert_eq!(map_key_string(&Value::Uint64(u64::MAX)), Some("18446744073709551615".to_string()));
    assert_eq!(map_key_string(&Value::Sint64(i64::MIN)), Some("-9223372036854775808".to_string()));
    assert_eq!(map_key_string(&Value::Fixed32(0)), Some("0".to_string()));
    assert_eq!(map_key_string(&Value::Bool(true)), Some("true".to_string()));
    assert_eq!(map_key_string(&s("k")), Some("k".to_string()));
    assert_eq!(map_key_string(&Value::Message(None)), None);
}

#[test]
fn message_without_clock_rules_validates_the_same_twice() {
    let inner = message(
        vec![field("tests.Inner.x", Some(min_len(2)), Some(FieldValue::Single(s("a"))))],
        vec![],
    );
    let outer = message(
        vec![field(
            "tests.Msg.inner",
            Some(FieldValidationInner { message: None, type_: None }),
            Some(FieldValue::Single(Value::Message(Some(Box::new(inner))))),
        )],
        vec![],
    );
    let first = outer.validate();
    let second = outer.validate();
    assert!(first.is_err());
    assert_eq!(first, second);
    assert_eq!(validate_message_at(&outer, 0), validate_message_at(&outer, NOW));
}

#[test]
fn floating_items_compare_by_bits() {
    let f = |x: f64| Value::Floating { bits: x.to_bits() };
    assert_eq!(unique_count(&vec![f(1.5), f(2.5), f(1.5)]), Some(2));
    assert_eq!(unique_count(&vec![f(0.0), f(-0.0)]), Some(2));
    let r = RepeatedRules { unique: Some(true), min_items: Some(3), ..repeated() };
    assert_eq!(validate_list(&vec![f(1.0), f(2.0), f(3.0)], &r, NOW), Ok(()));
    assert_eq!(validate_list(&vec![f(1.0), f(2.0), f(1.0)], &r, NOW), Err(Error::Unique));
    let m = MapRules { no_sparse: Some(true), ..map_rules() };
    assert_eq!(
        validate_map(
            &FieldValue::Mapping {
                keys: vec![Value::Int32(1), Value::Int32(2)],
                values: vec![f(1.0), f(0.0)],
            },
            &m,
            NOW
        ),
        Ok(())
    );
}

#[test]
fn list_and_map_entries_are_named_in_the_violation() {
    let r = FieldValidationInner {
        message: None,
        type_: Some(FieldRules::Repeated(Box::new(RepeatedRules {
            items: Some(Box::new(min_len(2))),
            ..repeated()
        }))),
    };
    let m = message(
        vec![field("tests.Msg.l", Some(r), Some(FieldValue::List(vec![s("ab"), s("a")])))],
        vec![],
    );
    let v = validate_message_at(&m, NOW).unwrap_err();
    assert_eq!(v.field, "tests.Msg.l[1]");
    let r = FieldValidationInner {
        message: None,
        type_: Some(FieldRules::Mapping(MapRules { values: Some(Box::new(min_len(2))), ..map_rules() })),
    };
    let m = message(
        vec![field(
            "tests.Msg.m",
            Some(r),
            Some(FieldValue::Mapping { keys: vec![s("k\"1"), s("j")], values: vec![s("ab"), s("a")] }),
        )],
        vec![],
    );
    let v = validate_message_at(&m, NOW).unwrap_err();
    assert_eq!(v.field, "tests.Msg.m[\"j\"]");
    assert!(matches!(v.error, Error::Value(1, _)));
    let r = FieldValidationInner {
        message: None,
        type_: Some(FieldRules::Mapping(MapRules { keys: Some(Box::new(min_len(3))), ..map_rules() })),
    };
    let m = message(
        vec![field(
            "tests.Msg.m",
            Some(r),
            Some(FieldValue::Mapping { keys: vec![s("k\"1"), s("j")], values: vec![s("ab"), s("a")] }),
        )],
        vec![],
    );
    let v = validate_message_at(&m, NOW).unwrap_err();
    assert_eq!(v.field, "tests.Msg.m[\"j\"]");
    let r = FieldValidationInner {
        message: None,
        type_: Some(FieldRules::Mapping(MapRules { keys: Some(Box::new(min_len(4))), ..map_rules() })),
    };
    let m = message(
        vec![field(
            "tests.Msg.m",
            Some(r),
            Some(FieldValue::Mapping { keys: vec![s("k\"1")], values: vec![s("ab")] }),
        )],
        vec![],
    );
    let v = validate_message_at(&m, NOW).unwrap_err();
    assert_eq!(v.field, "tests.Msg.m[\"k\\\"1\"]");
    let m = message(
        vec![field(
            "tests.Msg.n",
            Some(FieldValidationInner {
                message: None,
                type_: Some(FieldRules::Mapping(MapRules { keys: Some(Box::new(FieldValidationInner {
                    message: None,
                    type_: Some(FieldRules::Int32(NumberRules {
                        const_: None,
                        lt: None,
                        lte: None,
                        gt: Some(0),
                        gte: None,
                        in_: vec![],
                        not_in: vec![],
                        ignore_empty: false,
                    })),
                })), ..map_rules() })),
            }),
            Some(FieldValue::Mapping { keys: vec![Value::Int32(-7)], values: vec![s("x")] }),
        )],
        vec![],
    );
    let v = validate_message_at(&m, NOW).unwrap_err();
    assert_eq!(v.field, "tests.Msg.n[\"-7\"]");
}
