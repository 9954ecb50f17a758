//! The rule sets that can stand on a field, as one type.
use vstd::prelude::*;
use crate::bytes::BytesRules;
use crate::duration::DurationRules;
use crate::number::NumberRules;
use crate::scalars::{AnyRules, BoolRules, EnumRules};
use crate::string::StringRules;
use crate::timestamp::TimestampRules;

verus! {

/// The rules of a message field.
#[derive(Debug, Clone, Copy, PartialEq, Eq)]
pub struct MessageRules {
    /// The message is not validated.
    pub skip: bool,
    /// The field must be set.
    pub required: bool,
}

/// The rules of a oneof.
#[derive(Debug, Clone, Copy, PartialEq, Eq)]
pub struct OneOfRules {
    /// One of the oneof's fields must be set.
    pub required: bool,
}

/// The rules of the items of a repeated field, or of the keys or values of
/// a map.
#[derive(Debug)]
pub struct FieldValidationInner {
    /// The rules when the items are messages.
    pub message: Option<MessageRules>,
    /// The rules of the items' type.
    pub type_: Option<FieldRules>,
}

/// The rules of a repeated field.
#[derive(Debug)]
pub struct RepeatedRules {
    /// The list must hold at least this many items.
    pub min_items: Option<u64>,
    /// The list must hold at most this many items.
    pub max_items: Option<u64>,
    /// When `Some(true)`, no two items may be equal.
    pub unique: Option<bool>,
    /// The rules every item must satisfy.
    pub items: Option<Box<FieldValidationInner>>,
    /// An empty list passes without any other check.
    pub ignore_empty: bool,
}

/// The rules of a map field.
#[derive(Debug)]
pub struct MapRules {
    /// The map must hold at least this many entries.
    pub min_pairs: Option<u64>,
    /// The map must hold at most this many entries.
    pub max_pairs: Option<u64>,
    /// When `Some(true)`, no value may be an unset message.
    pub no_sparse: Option<bool>,
    /// The rules every key must satisfy.
    pub keys: Option<Box<FieldValidationInner>>,
    /// The rules every value must satisfy.
    pub values: Option<Box<FieldValidationInner>>,
    /// An empty map passes without any other check.
    pub ignore_empty: bool,
}

/// The rules of one field, by the field's type. Floating-point rules are
/// named but carry no bounds here.
#[derive(Debug)]
pub enum FieldRules {
    /// No rules.
    NoRules,
    /// Rules of a `google.protobuf.Any` field.
    Any(AnyRules),
    /// Rules of a bool field.
    Bool(BoolRules),
    /// Rules of a bytes field.
    Bytes(BytesRules),
    /// Rules of a `google.protobuf.Duration` field.
    Duration(DurationRules),
    /// Rules of a message field.
    Message(MessageRules),
    /// Rules of an enum field.
    Enum(EnumRules),
    /// Rules of a repeated field.
    Repeated(Box<RepeatedRules>),
    /// Rules of a map field.
    Mapping(MapRules),
    /// Rules of a oneof.
    OneOf(OneOfRules),
    /// Rules of a string field.
    String(StringRules),
    /// Rules of a `google.protobuf.Timestamp` field.
    Timestamp(TimestampRules),
    /// Rules of an int32 field.
    Int32(NumberRules<i32>),
    /// Rules of an int64 field.
    Int64(NumberRules<i64>),
    /// Rules of a uint32 field.
    Uint32(NumberRules<u32>),
    /// Rules of a uint64 field.
    Uint64(NumberRules<u64>),
    /// Rules of a sint32 field.
    Sint32(NumberRules<i32>),
    /// Rules of a sint64 field.
    Sint64(NumberRules<i64>),
    /// Rules of a fixed32 field.
    Fixed32(NumberRules<u32>),
    /// Rules of a fixed64 field.
    Fixed64(NumberRules<u64>),
    /// Rules of a sfixed32 field.
    Sfixed32(NumberRules<i32>),
    /// Rules of a sfixed64 field.
    Sfixed64(NumberRules<i64>),
    /// Rules of a float field.
    Float,
    /// Rules of a double field.
    Double,
}

impl FieldRules {
    /// The rules demand that the field be set.
    pub open spec fn spec_is_required(&self) -> bool {
        match *self {
            FieldRules::Any(v) => v.required,
            FieldRules::Duration(v) => v.required,
            FieldRules::Message(v) => v.required,
            FieldRules::OneOf(v) => v.required,
            FieldRules::Timestamp(v) => v.required,
            _ => false,
        }
    }

    /// Whether the rules demand that the field be set.
    pub fn is_required(&self) -> (b: bool)
        ensures
            b == self.spec_is_required(),
    {
        match self {
            FieldRules::Any(v) => v.required,
            FieldRules::Duration(v) => v.required,
            FieldRules::Message(v) => v.required,
            FieldRules::OneOf(v) => v.required,
            FieldRules::Timestamp(v) => v.required,
            _ => false,
        }
    }
}

} // verus!
