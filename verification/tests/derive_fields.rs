use prost_validate_rules::builder::Builder;
use prost_validate_rules::field::{
    Field, FieldValidation, IsTrueAnd, ProstField, RuleKind, RuleMismatch, StringOrBool,
};
use prost_validate_rules::rules::{
    FieldRules, FieldValidationInner, MessageRules, OneOfRules, RepeatedRules,
};
use prost_validate_rules::scalars::BoolRules;
use prost_validate_rules::secs_and_nanos::{SecAndNanosVec, SecsAndNanos, SecsAndNanosInner};
use prost_validate_rules::wkt::{Duration, Timestamp};

fn prost() -> ProstField {
    ProstField {
        tag: Some(1),
        optional: false,
        required: None,
        repeated: false,
        map: None,
        oneof: None,
        tags: None,
        message: None,
        enumeration: None,
        bool: None,
        string: None,
        bytes: None,
        float: None,
        double: None,
        int32: None,
        int64: None,
        uint32: None,
        uint64: None,
        sint32: None,
        sint64: None,
        fixed32: None,
        fixed64: None,
        sfixed32: None,
        sfixed64: None,
        packed: None,
        boxed: None,
        default: None,
    }
}

fn validation(type_: Option<FieldRules>) -> FieldValidation {
    FieldValidation {
        name: "pkg.Msg.val".to_string(),
        required: false,
        optional: None,
        repeated: None,
        message: None,
        type_,
    }
}

fn field(ty: &str, prost: ProstField, type_: Option<FieldRules>) -> Field {
    Field::new(Some("val".to_string()), Some(ty.to_string()), prost, validation(type_), None, false)
}

#[test]
fn string_or_bool_from_meta() {
    assert_eq!(StringOrBool::from_word(), StringOrBool::Bool(true));
    assert_eq!(StringOrBool::from_string("true"), StringOrBool::Bool(true));
    assert_eq!(StringOrBool::from_string("false"), StringOrBool::Bool(false));
    assert_eq!(StringOrBool::from_string("Vec<u8>"), StringOrBool::String("Vec<u8>".to_string()));
}

#[test]
fn parse_map_reads_key_and_value_types() {
    let mut p = ProstField { map: Some("string, enumeration(Kind)".to_string()), ..prost() };
    assert_eq!(
        p.parse_map(),
        Some(("string".to_string(), "enumeration(Kind)".to_string()))
    );
    assert_eq!(p.enumeration, Some("Kind".to_string()));
    let mut p = ProstField { map: Some(" int32 ,message ".to_string()), ..prost() };
    assert_eq!(p.parse_map(), Some(("int32".to_string(), "message".to_string())));
    assert_eq!(p.message, Some(true));
    let mut p = ProstField { map: Some(String::new()), ..prost() };
    assert_eq!(p.parse_map(), None);
    let mut p = prost();
    assert_eq!(p.parse_map(), None);
}

#[test]
fn required_from_any_source() {
    let mut v = validation(None);
    assert!(!v.required());
    v.required = true;
    assert!(v.required());
    let v = FieldValidation {
        message: Some(MessageRules { skip: false, required: true }),
        ..validation(None)
    };
    assert!(v.required());
    let v = validation(Some(FieldRules::OneOf(OneOfRules { required: true })));
    assert!(v.required());
    let v = validation(Some(FieldRules::Bool(BoolRules { const_: Some(true) })));
    assert!(!v.required());
}

#[test]
fn rules_fit_the_field() {
    let f = field("i32", ProstField { int32: Some(true), ..prost() }, Some(FieldRules::Bool(BoolRules { const_: None })));
    assert_eq!(f.validate(), Err(RuleMismatch { field: "val".to_string(), kind: RuleKind::Int32 }));
    assert_eq!(f.validate().unwrap_err().message(), "val: unexpected rules for int32 field");
    let m = RuleMismatch { field: "x".to_string(), kind: RuleKind::Message };
    assert_eq!(m.message(), "x: unexpected message rules");
    let m = RuleMismatch { field: "y".to_string(), kind: RuleKind::Sfixed64 };
    assert_eq!(m.message(), "y: unexpected rules for sfixed64 field");
    let f = field("bool", ProstField { bool: Some(true), ..prost() }, Some(FieldRules::Bool(BoolRules { const_: None })));
    assert_eq!(f.validate(), Ok(()));
    let f = field(
        ":: core :: option :: Option < :: prost_types :: Duration >",
        ProstField { message: Some(true), ..prost() },
        Some(FieldRules::Bool(BoolRules { const_: None })),
    );
    assert_eq!(f.validate(), Err(RuleMismatch { field: "val".to_string(), kind: RuleKind::Duration }));
    let f = field(
        "::prost::alloc::vec::Vec<bool>",
        ProstField { repeated: true, bool: Some(true), ..prost() },
        Some(FieldRules::Bool(BoolRules { const_: None })),
    );
    assert_eq!(f.validate(), Err(RuleMismatch { field: "val".to_string(), kind: RuleKind::Repeated }));
    let items = FieldValidationInner {
        message: None,
        type_: Some(FieldRules::Float),
    };
    let f = field(
        "::prost::alloc::vec::Vec<bool>",
        ProstField { repeated: true, bool: Some(true), ..prost() },
        Some(FieldRules::Repeated(Box::new(RepeatedRules {
            min_items: None,
            max_items: None,
            unique: None,
            items: Some(Box::new(items)),
            ignore_empty: false,
        }))),
    );
    assert_eq!(f.validate(), Err(RuleMismatch { field: "val".to_string(), kind: RuleKind::Bool }));
}

#[test]
fn message_rules_on_a_scalar_do_not_fit() {
    let mut f = field("bool", ProstField { bool: Some(true), ..prost() }, None);
    f.validation.message = Some(MessageRules { skip: true, required: false });
    assert_eq!(f.validate(), Err(RuleMismatch { field: "val".to_string(), kind: RuleKind::Message }));
}

#[test]
fn new_field_defaults_rules() {
    let f = field("::core::option::Option<Inner>", ProstField { message: Some(true), ..prost() }, None);
    assert!(matches!(f.validation.type_, Some(FieldRules::Message(_))));
    let f = field(
        "::core::option::Option<::prost_types::Timestamp>",
        ProstField { message: Some(true), ..prost() },
        None,
    );
    assert!(f.validation.type_.is_none());
    assert!(f.is_wkt());
    assert!(!f.is_wrapper());
    let f = field(
        "::prost::alloc::vec::Vec<Inner>",
        ProstField { message: Some(true), repeated: true, ..prost() },
        None,
    );
    assert!(matches!(f.validation.type_, Some(FieldRules::Repeated(_))));
    let f = Field::new(
        Some("m".to_string()),
        Some("HashMap<String,String>".to_string()),
        prost(),
        validation(None),
        Some(("string".to_string(), "string".to_string())),
        false,
    );
    assert!(f.map);
    assert!(matches!(f.validation.type_, Some(FieldRules::Mapping(_))));
    let f = field("x", ProstField { oneof: Some("Kind".to_string()), ..prost() }, None);
    assert!(matches!(f.validation.type_, Some(FieldRules::OneOf(_))));
}

#[test]
fn wrappers() {
    let f = field(
        "::core::option::Option<::prost_types::StringValue>",
        ProstField { message: Some(true), ..prost() },
        None,
    );
    assert!(f.is_wrapper());
    assert!(f.is_prost_types());
    let f = field(
        "::core::option::Option<::pbjson_types::StringValue>",
        ProstField { message: Some(true), ..prost() },
        None,
    );
    assert!(f.is_wrapper());
    assert!(!f.is_prost_types());
}

#[test]
fn is_true_and_calls_only_when_set() {
    assert_eq!(Some(true).is_true_and(|| 3), Some(3));
    assert_eq!(Some(false).is_true_and(|| 3), None);
    assert_eq!(None.is_true_and(|| 3), None);
}

#[test]
fn secs_and_nanos_convert() {
    let v = SecsAndNanos(SecsAndNanosInner { seconds: Some(3), nanos: None });
    assert_eq!(Duration::from(v), Duration { seconds: 3, nanos: 0 });
    assert_eq!(Timestamp::from(v), Timestamp { seconds: 3, nanos: 0 });
    let list = SecAndNanosVec(vec![v, SecsAndNanos(SecsAndNanosInner { seconds: None, nanos: Some(5) })]);
    assert_eq!(list.durations(), vec![Duration { seconds: 3, nanos: 0 }, Duration { seconds: 0, nanos: 5 }]);
    assert_eq!(list.timestamps()[1], Timestamp { seconds: 0, nanos: 5 });
}

#[test]
fn builder_paths() {
    let b = Builder::new(Some("/tmp/out".to_string()));
    assert_eq!(b.path(), "/tmp/out/file_descriptor_set.bin");
    let b = Builder::new(Some("/tmp/out/".to_string()));
    assert_eq!(b.path(), "/tmp/out/file_descriptor_set.bin");
    let b = Builder::new(None);
    assert_eq!(b.path(), "./file_descriptor_set.bin");
    let mut b = Builder::new(None);
    b.file_descriptor_set_path("desc.bin".to_string());
    assert_eq!(b.path(), "desc.bin");
}
