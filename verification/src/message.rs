//! Messages as the validator sees them: each field with its rules and its
//! value, nested messages included, and the validation of a whole message.
use vstd::prelude::*;
use crate::bytes::{bytes_equal, bytes_outcome, bytes_valid, validate_bytes};
use crate::duration::{duration_valid, validate_duration};
use crate::errors::boolean::Error as BoolError;
use crate::errors::{Error, Violation};
use crate::number::{
    bounds_outcome_of, bounds_valid, number_outcome, number_skipped, validate_number,
    NumberRules, ProtoInt,
};
use crate::rules::{FieldRules, FieldValidationInner, MapRules, MessageRules, RepeatedRules};
use crate::scalars::{
    any_outcome, enum_outcome, validate_any, validate_bool, validate_enum, EnumRules,
};
use crate::string::{string_outcome, string_valid, validate_string};
use crate::timestamp::{timestamp_checked_outcome, validate_timestamp_checked};
use crate::text::{debug_quoted, debug_string, push_char, push_text};
use crate::wkt::{max_instant, min_instant, now_instant, Duration, Timestamp};

verus! {

/// One value of a field.
#[derive(Debug)]
pub enum Value {
    /// A bool.
    Bool(bool),
    /// An int32.
    Int32(i32),
    /// An int64.
    Int64(i64),
    /// A uint32.
    Uint32(u32),
    /// A uint64.
    Uint64(u64),
    /// A sint32.
    Sint32(i32),
    /// A sint64.
    Sint64(i64),
    /// A fixed32.
    Fixed32(u32),
    /// A fixed64.
    Fixed64(u64),
    /// A sfixed32.
    Sfixed32(i32),
    /// A sfixed64.
    Sfixed64(i64),
    /// A string.
    String(String),
    /// Bytes.
    Bytes(Vec<u8>),
    /// An enum value by number, with the numbers its enum defines.
    Enum { number: i32, defined: Vec<i32> },
    /// A float or a double, by the bits of its encoding; the rules on its
    /// numeric value are checked apart, as they compare floating-point
    /// numbers.
    Floating { bits: u64 },
    /// A `google.protobuf.Duration`, when set.
    Duration(Option<Duration>),
    /// A `google.protobuf.Timestamp`, when set.
    Timestamp(Option<Timestamp>),
    /// A `google.protobuf.Any`, by its type URL, when set.
    Any(Option<String>),
    /// A wrapper message (`google.protobuf.StringValue` and the like), by
    /// the value it wraps, when set.
    Wrapper(Option<Box<Value>>),
    /// Any other message, when set.
    Message(Option<Box<Message>>),
}

/// The value of a field: single, repeated, or a map (keys and values in
/// the order the map is walked).
#[derive(Debug)]
pub enum FieldValue {
    /// A singular field.
    Single(Value),
    /// A repeated field.
    List(Vec<Value>),
    /// A map field.
    Mapping { keys: Vec<Value>, values: Vec<Value> },
}

/// A field of a message.
#[derive(Debug)]
pub struct Field {
    /// The full name of the field.
    pub name: String,
    /// The rules of the field; a field without rules is not validated.
    pub rules: Option<FieldValidationInner>,
    /// The oneof the field belongs to, by position in the message's oneofs.
    pub oneof: Option<usize>,
    /// The field is a proto3 `optional` field.
    pub optional: bool,
    /// The value; `None` for a oneof field that is not the one set.
    pub value: Option<FieldValue>,
}

/// A oneof of a message.
#[derive(Debug, Clone)]
pub struct Oneof {
    /// The name of the oneof.
    pub name: String,
    /// Exactly one of its fields must be set.
    pub required: bool,
}

/// A message with its fields.
#[derive(Debug)]
pub struct Message {
    /// The full name of the message type.
    pub name: String,
    /// Validation of this message type is disabled or ignored.
    pub disabled: bool,
    /// The fields, in declaration order.
    pub fields: Vec<Field>,
    /// The oneofs.
    pub oneofs: Vec<Oneof>,
}

// ---------------------------------------------------------------- values

/// The rules used for items, keys and values that have none of their own.
pub open spec fn no_rules() -> FieldValidationInner {
    FieldValidationInner { message: None, type_: None }
}

/// The message rules of `r`, or the default ones.
pub open spec fn message_rules_of(r: FieldValidationInner) -> MessageRules {
    match r.message {
        Some(m) => m,
        None => MessageRules { skip: false, required: false },
    }
}

/// `v` is a message, well-known or not.
pub open spec fn is_message_kind(v: Value) -> bool {
    v is Duration || v is Timestamp || v is Any || v is Wrapper || v is Message
}

/// `v` is a message kind that is not set.
pub open spec fn is_unset(v: Value) -> bool {
    match v {
        Value::Duration(d) => d is None,
        Value::Timestamp(t) => t is None,
        Value::Any(u) => u is None,
        Value::Wrapper(w) => w is None,
        Value::Message(m) => m is None,
        _ => false,
    }
}

/// The status of an integer under its rules: failing (`None`), passing
/// and ending the checks of its field (`Some(false)`, a zero under
/// `ignore_empty`), or passing (`Some(true)`).
pub open spec fn number_status<T: ProtoInt>(x: T, r: NumberRules<T>) -> Option<bool> {
    if number_skipped(x, r) {
        Some(false)
    } else if bounds_valid(x, r) {
        Some(true)
    } else {
        None
    }
}

/// `v` is an enum number that satisfies `r`.
pub open spec fn enum_ok(v: i32, r: EnumRules, defined: Seq<i32>) -> bool {
    enum_outcome(v, r, defined, Ok(()))
}

/// The status of a value that is not a message under the type rules `t`
/// (as `number_status` describes); rules for another type do not apply.
pub open spec fn scalar_status(v: Value, t: FieldRules) -> Option<bool> {
    match (t, v) {
        (FieldRules::Int32(r), Value::Int32(x)) => number_status(x, r),
        (FieldRules::Int64(r), Value::Int64(x)) => number_status(x, r),
        (FieldRules::Uint32(r), Value::Uint32(x)) => number_status(x, r),
        (FieldRules::Uint64(r), Value::Uint64(x)) => number_status(x, r),
        (FieldRules::Sint32(r), Value::Sint32(x)) => number_status(x, r),
        (FieldRules::Sint64(r), Value::Sint64(x)) => number_status(x, r),
        (FieldRules::Fixed32(r), Value::Fixed32(x)) => number_status(x, r),
        (FieldRules::Fixed64(r), Value::Fixed64(x)) => number_status(x, r),
        (FieldRules::Sfixed32(r), Value::Sfixed32(x)) => number_status(x, r),
        (FieldRules::Sfixed64(r), Value::Sfixed64(x)) => number_status(x, r),
        (FieldRules::String(r), Value::String(s)) => if r.ignore_empty && s@.len() == 0 {
            Some(false)
        } else if string_valid(s@, r) {
            Some(true)
        } else {
            None
        },
        (FieldRules::Bytes(r), Value::Bytes(b)) => if r.ignore_empty && b@.len() == 0 {
            Some(false)
        } else if bytes_valid(b@, r) {
            Some(true)
        } else {
            None
        },
        (FieldRules::Bool(r), Value::Bool(b)) => if r.const_ is Some && b != r.const_->0 {
            None
        } else {
            Some(true)
        },
        (FieldRules::Enum(r), Value::Enum { number, defined }) => if enum_ok(number, r, defined@) {
            Some(true)
        } else {
            None
        },
        _ => Some(true),
    }
}

/// `e` is the error that the type rules `t` report for the failing value
/// `v` that is not a message.
pub open spec fn scalar_error(v: Value, t: FieldRules, e: Error) -> bool {
    match (t, v) {
        (FieldRules::Int32(r), Value::Int32(x)) => e matches Error::Int32(i) && number_outcome(x, r, Err(i)),
        (FieldRules::Int64(r), Value::Int64(x)) => e matches Error::Int64(i) && number_outcome(x, r, Err(i)),
        (FieldRules::Uint32(r), Value::Uint32(x)) => e matches Error::Uint32(i) && number_outcome(x, r, Err(i)),
        (FieldRules::Uint64(r), Value::Uint64(x)) => e matches Error::Uint64(i) && number_outcome(x, r, Err(i)),
        (FieldRules::Sint32(r), Value::Sint32(x)) => e matches Error::Sint32(i) && number_outcome(x, r, Err(i)),
        (FieldRules::Sint64(r), Value::Sint64(x)) => e matches Error::Sint64(i) && number_outcome(x, r, Err(i)),
        (FieldRules::Fixed32(r), Value::Fixed32(x)) => e matches Error::Fixed32(i) && number_outcome(x, r, Err(i)),
        (FieldRules::Fixed64(r), Value::Fixed64(x)) => e matches Error::Fixed64(i) && number_outcome(x, r, Err(i)),
        (FieldRules::Sfixed32(r), Value::Sfixed32(x)) => e matches Error::Sfixed32(i) && number_outcome(x, r, Err(i)),
        (FieldRules::Sfixed64(r), Value::Sfixed64(x)) => e matches Error::Sfixed64(i) && number_outcome(x, r, Err(i)),
        (FieldRules::String(r), Value::String(s)) => e matches Error::String(i) && string_outcome(s@, r, Err(i)),
        (FieldRules::Bytes(r), Value::Bytes(b)) => e matches Error::Bytes(i) && bytes_outcome(b@, r, Err(i)),
        (FieldRules::Bool(r), Value::Bool(_)) => r.const_ is Some && e == Error::Bool(BoolError::Const(r.const_->0)),
        (FieldRules::Enum(r), Value::Enum { number, defined }) => e matches Error::Enum(i) && enum_outcome(number, r, defined@, Err(i)),
        _ => false,
    }
}

/// The status of `v` under the field rules `r` at current time `now`
/// (Unix nanoseconds): `None` when it fails, `Some(false)` when it passes
/// and ends the checks of its field, `Some(true)` when it passes. For a
/// message kind, a required unset field fails (unless `optional`), an unset
/// one without type rules or one whose validation is skipped passes, and
/// otherwise the well-known type's rules or the nested message decide.
pub open spec fn value_status(v: Value, r: FieldValidationInner, optional: bool, now: int) -> Option<bool>
    decreases v, 0int,
{
    if is_message_kind(v) {
        let mr = message_rules_of(r);
        if mr.required && !optional && is_unset(v) {
            None
        } else if (is_unset(v) && r.type_ is None) || mr.skip {
            Some(true)
        } else {
            match v {
                Value::Wrapper(Some(inner)) => match r.type_ {
                    Some(t) => if scalar_status(*inner, t) is None { None } else { Some(true) },
                    None => Some(true),
                },
                Value::Duration(d) => match r.type_ {
                    Some(FieldRules::Duration(dr)) => match d {
                        Some(x) => if duration_valid(x, dr) { Some(true) } else { None },
                        None => if dr.required { None } else { Some(true) },
                    },
                    _ => Some(true),
                },
                Value::Timestamp(t) => match r.type_ {
                    Some(FieldRules::Timestamp(tr)) => match t {
                        Some(x) => if timestamp_checked_outcome(x, tr, now) is Ok {
                            Some(true)
                        } else {
                            None
                        },
                        None => if tr.required { None } else { Some(true) },
                    },
                    _ => Some(true),
                },
                Value::Any(u) => match r.type_ {
                    Some(FieldRules::Any(ar)) => if any_outcome(
                        match u {
                            Some(s) => Some(s@),
                            None => None,
                        },
                        ar,
                        Ok(()),
                    ) {
                        Some(true)
                    } else {
                        None
                    },
                    _ => Some(true),
                },
                Value::Message(Some(m)) => if message_valid(*m, now) { Some(true) } else { None },
                _ => Some(true),
            }
        }
    } else {
        match r.type_ {
            Some(t) => scalar_status(v, t),
            None => Some(true),
        }
    }
}

/// `e` is the error reported for the value `v` that fails its rules `r`
/// at current time `now`.
pub open spec fn value_error(v: Value, r: FieldValidationInner, optional: bool, now: int, e: Error) -> bool
    decreases v, 0int,
{
    if is_message_kind(v) {
        let mr = message_rules_of(r);
        if mr.required && !optional && is_unset(v) {
            e == Error::Required
        } else if (is_unset(v) && r.type_ is None) || mr.skip {
            false
        } else {
            match v {
                Value::Wrapper(Some(inner)) => match r.type_ {
                    Some(t) => scalar_error(*inner, t, e),
                    None => false,
                },
                Value::Duration(d) => match r.type_ {
                    Some(FieldRules::Duration(dr)) => match d {
                        Some(x) => e matches Error::Duration(i) && bounds_outcome_of(
                            x,
                            dr.const_,
                            dr.lt,
                            dr.lte,
                            dr.gt,
                            dr.gte,
                            dr.in_@,
                            dr.not_in@,
                            Err(i),
                        ),
                        None => dr.required && e == Error::Required,
                    },
                    _ => false,
                },
                Value::Timestamp(t) => match r.type_ {
                    Some(FieldRules::Timestamp(tr)) => match t {
                        Some(x) => timestamp_checked_outcome(x, tr, now) matches Err(i) && e
                            == Error::Timestamp(i),
                        None => tr.required && e == Error::Required,
                    },
                    _ => false,
                },
                Value::Any(u) => match r.type_ {
                    Some(FieldRules::Any(ar)) => e matches Error::Any(i) && any_outcome(
                        match u {
                            Some(s) => Some(s@),
                            None => None,
                        },
                        ar,
                        Err(i),
                    ),
                    _ => false,
                },
                Value::Message(Some(m)) => e matches Error::Message(b) && message_error(*m, now, *b),
                _ => false,
            }
        }
    } else {
        match r.type_ {
            Some(t) => scalar_error(v, t, e),
            None => false,
        }
    }
}

/// The durations and timestamps that the validation of `v` under `r`
/// converts can be converted (validation fails loudly otherwise).
pub open spec fn value_wf(v: Value, r: FieldValidationInner) -> bool
    decreases v, 0int,
{
    match v {
        Value::Duration(Some(d)) => match r.type_ {
            Some(FieldRules::Duration(dr)) => dr.representable() && (dr.has_value_checks()
                ==> d.representable() && dr.lists_representable_for(d)),
            _ => true,
        },
        Value::Timestamp(Some(t)) => match r.type_ {
            Some(FieldRules::Timestamp(tr)) => tr.representable() && (tr.has_value_checks()
                ==> t.representable()),
            _ => true,
        },
        Value::Message(Some(m)) => message_wf(*m),
        _ => true,
    }
}

// ---------------------------------------------------------------- lists

/// The item at position `k` of `l` is the first that fails under `r`, all
/// the items before it passing without ending the checks.
pub open spec fn item_fails_at(l: Vec<Value>, r: FieldValidationInner, now: int, k: int, item: Value) -> bool
    decreases l, 0int,
{
    &&& 0 <= k < l@.len()
    &&& item == l@[k]
    &&& value_status(item, r, false, now) is None
    &&& forall|j: int| 0 <= j < k ==> value_status(#[trigger] l@[j], r, false, now) == Some(true)
}

/// Some item of `l` fails under `r` before any item ends the checks.
pub open spec fn items_fail(l: Vec<Value>, r: FieldValidationInner, now: int) -> bool
    decreases l, 1int,
{
    exists|k: int| item_fails_at(l, r, now, k, #[trigger] l@[k])
}

/// `e` is the error of the first failing item of `l` under `r`, wrapped by
/// `wrap` (`Error::Item` for lists, `Error::Key` or `Error::Value` for maps).
pub open spec fn items_error(l: Vec<Value>, r: FieldValidationInner, now: int, wrap: u8, e: Error) -> bool
    decreases l, 1int,
{
    exists|k: int|
        item_fails_at(l, r, now, k, #[trigger] l@[k]) && {
            let inner = if wrap == 0 {
                e matches Error::Item(i, b) && i == k && value_error(l@[k], r, false, now, *b)
            } else if wrap == 1 {
                e matches Error::Key(i, b) && i == k && value_error(l@[k], r, false, now, *b)
            } else {
                e matches Error::Value(i, b) && i == k && value_error(l@[k], r, false, now, *b)
            };
            inner
        }
}

/// Some item of `l` ends the checks under `r`, all the items before it
/// passing.
pub open spec fn items_stop(l: Vec<Value>, r: FieldValidationInner, now: int) -> bool
    decreases l, 1int,
{
    exists|k: int|
        0 <= k < l@.len() && value_status(#[trigger] l@[k], r, false, now) == Some(false) && forall|j: int|
            0 <= j < k ==> value_status(#[trigger] l@[j], r, false, now) == Some(true)
}

/// Two values are equal as list items.
pub open spec fn same_value(a: Value, b: Value) -> bool {
    match (a, b) {
        (Value::Bool(x), Value::Bool(y)) => x == y,
        (Value::Int32(x), Value::Int32(y)) => x == y,
        (Value::Int64(x), Value::Int64(y)) => x == y,
        (Value::Uint32(x), Value::Uint32(y)) => x == y,
        (Value::Uint64(x), Value::Uint64(y)) => x == y,
        (Value::Sint32(x), Value::Sint32(y)) => x == y,
        (Value::Sint64(x), Value::Sint64(y)) => x == y,
        (Value::Fixed32(x), Value::Fixed32(y)) => x == y,
        (Value::Fixed64(x), Value::Fixed64(y)) => x == y,
        (Value::Sfixed32(x), Value::Sfixed32(y)) => x == y,
        (Value::Sfixed64(x), Value::Sfixed64(y)) => x == y,
        (Value::String(x), Value::String(y)) => x@ == y@,
        (Value::Bytes(x), Value::Bytes(y)) => x@ == y@,
        (Value::Enum { number: x, .. }, Value::Enum { number: y, .. }) => x == y,
        (Value::Floating { bits: x }, Value::Floating { bits: y }) => x == y,
        _ => false,
    }
}

/// No two items of `s` are equal.
pub open spec fn values_distinct(s: Seq<Value>) -> bool {
    forall|i: int, j: int| 0 <= i < j < s.len() ==> !same_value(#[trigger] s[i], #[trigger] s[j])
}

/// Some item before position `i` of `s` equals the item at `i`.
pub open spec fn seen_before(s: Seq<Value>, i: int) -> bool {
    exists|j: int| 0 <= j < i && same_value(#[trigger] s[j], s[i])
}

/// The number of distinct items of `s`.
pub open spec fn distinct_count(s: Seq<Value>) -> nat
    decreases s.len(),
{
    if s.len() == 0 {
        0
    } else {
        distinct_count(s.drop_last()) + if seen_before(s, s.len() - 1) {
            0nat
        } else {
            1nat
        }
    }
}

/// The `unique` rule applies to `l`: it asks for distinct items, and the
/// items are not messages.
pub open spec fn unique_applies(l: Seq<Value>, r: RepeatedRules) -> bool {
    r.unique == Some(true) && forall|i: int| 0 <= i < l.len() ==> !is_message_kind(#[trigger] l[i])
}

/// The rules that the items of a list are validated with: their own, or
/// none.
pub open spec fn item_rules(r: RepeatedRules) -> FieldValidationInner {
    match r.items {
        Some(b) => *b,
        None => no_rules(),
    }
}

/// The item rules of `r` skip the validation of message items.
pub open spec fn items_skipped(r: RepeatedRules) -> bool {
    r.items matches Some(b) && message_rules_of(*b).skip
}

/// Whether the list `l` satisfies its rules `r`.
pub open spec fn list_valid(l: Vec<Value>, r: RepeatedRules, now: int) -> bool
    decreases l, 2int,
{
    ||| r.ignore_empty && l@.len() == 0
    ||| {
        &&& (r.min_items matches Some(m) ==> l@.len() >= m)
        &&& (r.max_items matches Some(m) ==> l@.len() <= m)
        &&& (unique_applies(l@, r) ==> values_distinct(l@))
        &&& (items_skipped(r) || !items_fail(l, item_rules(r), now))
    }
}

/// `e` is the error reported for the list `l` that fails its rules `r`:
/// the first of minimum, maximum, uniqueness and items that fails.
pub open spec fn list_error(l: Vec<Value>, r: RepeatedRules, now: int, e: Error) -> bool
    decreases l, 2int,
{
    if r.min_items is Some && l@.len() < r.min_items->0 {
        e == Error::MinItems(r.min_items->0)
    } else if r.max_items is Some && l@.len() > r.max_items->0 {
        e == Error::MaxItems(r.max_items->0)
    } else if unique_applies(l@, r) && !values_distinct(l@) {
        e == Error::Unique
    } else {
        items_error(l, item_rules(r), now, 0, e)
    }
}

// ---------------------------------------------------------------- maps

/// The rules that the keys of a map are validated with.
pub open spec fn key_rules(r: MapRules) -> FieldValidationInner {
    match r.keys {
        Some(b) => *b,
        None => no_rules(),
    }
}

/// The rules that the values of a map are validated with.
pub open spec fn map_value_rules(r: MapRules) -> FieldValidationInner {
    match r.values {
        Some(b) => *b,
        None => no_rules(),
    }
}

/// `v` makes a map sparse: it is a message value that is not set.
pub open spec fn sparse_value(v: Value) -> bool {
    is_unset(v)
}

/// `k` is the position of the first sparse value in `values`.
pub open spec fn first_sparse_at(values: Seq<Value>, k: int) -> bool {
    &&& 0 <= k < values.len()
    &&& sparse_value(values[k])
    &&& forall|j: int| 0 <= j < k ==> !sparse_value(#[trigger] values[j])
}

/// Whether the map `fv` (a `Mapping`) satisfies its rules `r`: an empty
/// map under `ignore_empty` passes; otherwise the counts, then the keys,
/// then the values (a key or value that ends the checks ends them all, and
/// skipped message values end them too), then `no_sparse`.
pub open spec fn map_valid(fv: FieldValue, r: MapRules, now: int) -> bool
    decreases fv, 2int,
{
    match fv {
        FieldValue::Mapping { keys, values } => {
            ||| r.ignore_empty && keys@.len() == 0
            ||| {
                &&& (r.min_pairs matches Some(m) ==> keys@.len() >= m)
                &&& (r.max_pairs matches Some(m) ==> keys@.len() <= m)
                &&& !items_fail(keys, key_rules(r), now)
                &&& (items_stop(keys, key_rules(r), now) || map_values_valid(fv, r, now))
            }
        },
        _ => true,
    }
}

/// Whether the values of the map `fv` satisfy the value and `no_sparse`
/// rules of `r`.
pub open spec fn map_values_valid(fv: FieldValue, r: MapRules, now: int) -> bool
    decreases fv, 1int,
{
    match fv {
        FieldValue::Mapping { keys, values } => {
            let vr = map_value_rules(r);
            if r.values is Some && message_rules_of(vr).skip {
                true
            } else {
                &&& !items_fail(values, vr, now)
                &&& (items_stop(values, vr, now) || r.no_sparse != Some(true) || forall|k: int|
                    0 <= k < values@.len() ==> !sparse_value(#[trigger] values@[k]))
            }
        },
        _ => true,
    }
}

/// `e` is the error reported for the map `fv` that fails its rules `r`.
pub open spec fn map_error(fv: FieldValue, r: MapRules, now: int, e: Error) -> bool
    decreases fv, 2int,
{
    match fv {
        FieldValue::Mapping { keys, values } => if r.min_pairs is Some && keys@.len()
            < r.min_pairs->0 {
            e == Error::MinPairs(r.min_pairs->0)
        } else if r.max_pairs is Some && keys@.len() > r.max_pairs->0 {
            e == Error::MaxPairs(r.max_pairs->0)
        } else if items_fail(keys, key_rules(r), now) {
            items_error(keys, key_rules(r), now, 1, e)
        } else {
            map_values_error(fv, r, now, e)
        },
        _ => false,
    }
}

/// `e` is the error reported for the values of the map `fv` that fail the
/// value and `no_sparse` rules of `r`.
pub open spec fn map_values_error(fv: FieldValue, r: MapRules, now: int, e: Error) -> bool
    decreases fv, 1int,
{
    match fv {
        FieldValue::Mapping { keys, values } => {
            let vr = map_value_rules(r);
            if items_fail(values, vr, now) {
                items_error(values, vr, now, 2, e)
            } else {
                exists|k: int| first_sparse_at(values@, k) && e == Error::NoSparse(k as usize)
            }
        },
        _ => false,
    }
}

// ---------------------------------------------------------------- messages

/// The number of fields of `fields` in oneof `o` that are set.
pub open spec fn set_count(fields: Seq<Field>, o: usize) -> nat
    decreases fields.len(),
{
    if fields.len() == 0 {
        0
    } else {
        set_count(fields.drop_last(), o) + if fields.last().oneof == Some(o)
            && fields.last().value is Some {
            1nat
        } else {
            0nat
        }
    }
}

/// Field `i` of `m` is the first of its oneof that has rules: the oneof's
/// checks run there.
pub open spec fn oneof_first(m: Message, i: int) -> bool {
    &&& m.fields@[i].rules is Some
    &&& m.fields@[i].oneof is Some
    &&& forall|j: int|
        0 <= j < i ==> !((#[trigger] m.fields@[j]).rules is Some && m.fields@[j].oneof
            == m.fields@[i].oneof)
}

/// Oneof `o` of `m` demands that exactly one of its fields be set.
pub open spec fn oneof_required(m: Message, o: usize) -> bool {
    o < m.oneofs@.len() && m.oneofs@[o as int].required
}

/// Field `f` is a member of oneof `o` that is set and has rules.
pub open spec fn checked_member(f: Field, o: usize) -> bool {
    f.oneof == Some(o) && f.rules is Some && f.value is Some
}

/// Whether the field `f` satisfies its rules.
pub open spec fn field_valid(f: Field, now: int) -> bool
    decreases f, 0int,
{
    match f.rules {
        None => true,
        Some(r) => match f.value {
            None => true,
            Some(FieldValue::Single(v)) => value_status(v, r, f.optional, now) is Some,
            Some(FieldValue::List(l)) => match r.type_ {
                Some(FieldRules::Repeated(rr)) => list_valid(l, *rr, now),
                _ => true,
            },
            Some(FieldValue::Mapping { keys, values }) => match r.type_ {
                Some(FieldRules::Mapping(mr)) => map_valid(f.value->0, mr, now),
                _ => true,
            },
        },
    }
}

/// The text of the key of the map entry at position `i` of `f`, between
/// brackets and rendered as a `Debug` string, after the field's name; the
/// field's name alone when `f` has no such entry.
pub open spec fn map_entry_name(f: Field, i: usize) -> Seq<char> {
    match f.value {
        Some(FieldValue::Mapping { keys, values }) => if i < keys@.len() {
            f.name@ + seq!['['] + debug_quoted(
                match key_text(keys@[i as int]) {
                    Some(t) => t,
                    None => Seq::empty(),
                },
            ) + seq![']']
        } else {
            f.name@
        },
        _ => f.name@,
    }
}

/// The name under which the error `e` of the field `f` is reported: for
/// an item of a list, the field's name and the item's position between
/// brackets; for an entry of a map, as `map_entry_name` has it; otherwise
/// the field's name.
pub open spec fn violation_field_name(f: Field, e: Error) -> Seq<char> {
    match e {
        Error::Item(i, _) => f.name@ + seq!['['] + signed_decimal(i as int) + seq![']'],
        Error::Key(i, _) => map_entry_name(f, i),
        Error::Value(i, _) => map_entry_name(f, i),
        Error::NoSparse(i) => map_entry_name(f, i),
        _ => f.name@,
    }
}

/// `v` is the violation reported for the field `f` that fails its rules.
pub open spec fn field_error(f: Field, now: int, v: Violation) -> bool
    decreases f, 0int,
{
    v.field@ == violation_field_name(f, v.error) && match f.rules {
        None => false,
        Some(r) => match f.value {
            None => false,
            Some(FieldValue::Single(x)) => value_error(x, r, f.optional, now, v.error),
            Some(FieldValue::List(l)) => match r.type_ {
                Some(FieldRules::Repeated(rr)) => list_error(l, *rr, now, v.error),
                _ => false,
            },
            Some(FieldValue::Mapping { keys, values }) => match r.type_ {
                Some(FieldRules::Mapping(mr)) => map_error(f.value->0, mr, now, v.error),
                _ => false,
            },
        },
    }
}

/// Whether the checks that run at field `i` of `m` pass: none for a field
/// without rules or a later member of a oneof; the member fields and the
/// `required` rule of the oneof at its first member with rules; the field's
/// own rules otherwise.
pub open spec fn block_valid(m: Message, i: int, f: Field, now: int) -> bool
    decreases m, 0int,
{
    if i < 0 || i >= m.fields@.len() || f != m.fields@[i] || f.rules is None {
        true
    } else if f.oneof is Some {
        let o = f.oneof->0;
        !oneof_first(m, i) || {
            &&& forall|j: int|
                0 <= j < m.fields@.len() && checked_member(#[trigger] m.fields@[j], o)
                    ==> field_valid(m.fields@[j], now)
            &&& (oneof_required(m, o) ==> set_count(m.fields@, o) == 1)
        }
    } else {
        field_valid(f, now)
    }
}

/// Whether the message `m` satisfies the rules of its fields and oneofs.
pub open spec fn message_valid(m: Message, now: int) -> bool
    decreases m, 1int,
{
    m.disabled || forall|i: int|
        0 <= i < m.fields@.len() ==> block_valid(m, i, #[trigger] m.fields@[i], now)
}

/// `v` is the violation reported at field `i` of `m`, whose checks fail:
/// the first failing member of a oneof, or the oneof itself, or the field.
pub open spec fn block_error(m: Message, i: int, f: Field, now: int, v: Violation) -> bool
    decreases m, 0int,
{
    if i < 0 || i >= m.fields@.len() || f != m.fields@[i] {
        false
    } else if f.oneof is Some {
        let o = f.oneof->0;
        ||| exists|j: int|
            0 <= j < m.fields@.len() && checked_member(#[trigger] m.fields@[j], o) && !field_valid(
                m.fields@[j],
                now,
            ) && field_error(m.fields@[j], now, v) && forall|k: int|
                0 <= k < j && checked_member(#[trigger] m.fields@[k], o) ==> field_valid(
                    m.fields@[k],
                    now,
                )
        ||| {
            &&& forall|j: int|
                0 <= j < m.fields@.len() && checked_member(#[trigger] m.fields@[j], o)
                    ==> field_valid(m.fields@[j], now)
            &&& o < m.oneofs@.len()
            &&& v.field@ == m.oneofs@[o as int].name@
            &&& v.error == if set_count(m.fields@, o) == 0 {
                Error::OneofNotSet
            } else {
                Error::OneofMultiple
            }
        }
    } else {
        field_error(f, now, v)
    }
}

/// `v` is the violation reported for the message `m` that fails its
/// rules: the one of the first field whose checks fail.
pub open spec fn message_error(m: Message, now: int, v: Violation) -> bool
    decreases m, 1int,
{
    !m.disabled && exists|i: int|
        0 <= i < m.fields@.len() && !block_valid(m, i, #[trigger] m.fields@[i], now) && block_error(
            m,
            i,
            m.fields@[i],
            now,
            v,
        ) && forall|k: int| 0 <= k < i ==> block_valid(m, k, #[trigger] m.fields@[k], now)
}

// ---------------------------------------------------------------- the clock

/// No rule that the validation of `v` under `r` applies is relative to the
/// current time, in `v` or in any message nested in it.
pub open spec fn value_clock_free(v: Value, r: FieldValidationInner) -> bool
    decreases v, 0int,
{
    match v {
        Value::Timestamp(_) => match r.type_ {
            Some(FieldRules::Timestamp(tr)) => !tr.uses_now(),
            _ => true,
        },
        Value::Message(Some(m)) => message_clock_free(*m),
        _ => true,
    }
}

/// No rule that the validation of the items of `l` under `r` applies is
/// relative to the current time.
pub open spec fn items_clock_free(l: Vec<Value>, r: FieldValidationInner) -> bool
    decreases l, 0int,
{
    forall|k: int| 0 <= k < l@.len() ==> value_clock_free(#[trigger] l@[k], r)
}

/// No rule that the validation of the field `f` applies is relative to the
/// current time.
pub open spec fn field_clock_free(f: Field) -> bool
    decreases f, 0int,
{
    match f.rules {
        None => true,
        Some(r) => match f.value {
            None => true,
            Some(FieldValue::Single(v)) => value_clock_free(v, r),
            Some(FieldValue::List(l)) => match r.type_ {
                Some(FieldRules::Repeated(rr)) => items_clock_free(l, item_rules(*rr)),
                _ => true,
            },
            Some(FieldValue::Mapping { keys, values }) => match r.type_ {
                Some(FieldRules::Mapping(mr)) => items_clock_free(keys, key_rules(mr))
                    && items_clock_free(values, map_value_rules(mr)),
                _ => true,
            },
        },
    }
}

/// No rule that the validation of the message `m` applies, in its fields
/// or in the messages nested in them, is relative to the current time.
pub open spec fn message_clock_free(m: Message) -> bool
    decreases m, 1int,
{
    forall|i: int| 0 <= i < m.fields@.len() ==> field_clock_free(#[trigger] m.fields@[i])
}

proof fn lemma_value_clock(v: Value, r: FieldValidationInner, optional: bool, n1: int, n2: int)
    requires
        value_clock_free(v, r),
    ensures
        value_status(v, r, optional, n1) == value_status(v, r, optional, n2),
    decreases v, 0int,
{
    match v {
        Value::Message(Some(m)) => {
            law_clock_free_message(*m, n1, n2);
        },
        _ => {},
    }
}

proof fn lemma_items_clock(l: Vec<Value>, r: FieldValidationInner, n1: int, n2: int)
    requires
        items_clock_free(l, r),
    ensures
        items_fail(l, r, n1) == items_fail(l, r, n2),
        items_stop(l, r, n1) == items_stop(l, r, n2),
    decreases l, 0int,
{
    assert forall|k: int| 0 <= k < l@.len() implies value_status(#[trigger] l@[k], r, false, n1)
        == value_status(l@[k], r, false, n2) by {
        lemma_value_clock(l@[k], r, false, n1, n2);
    }
    if items_fail(l, r, n1) {
        let k = choose|k: int| item_fails_at(l, r, n1, k, #[trigger] l@[k]);
        assert(item_fails_at(l, r, n2, k, l@[k]));
    }
    if items_fail(l, r, n2) {
        let k = choose|k: int| item_fails_at(l, r, n2, k, #[trigger] l@[k]);
        assert(item_fails_at(l, r, n1, k, l@[k]));
    }
}

proof fn lemma_field_clock(f: Field, n1: int, n2: int)
    requires
        field_clock_free(f),
    ensures
        field_valid(f, n1) == field_valid(f, n2),
    decreases f, 0int,
{
    match f.rules {
        None => {},
        Some(r) => match f.value {
            None => {},
            Some(FieldValue::Single(v)) => {
                lemma_value_clock(v, r, f.optional, n1, n2);
            },
            Some(FieldValue::List(l)) => match r.type_ {
                Some(FieldRules::Repeated(rr)) => {
                    lemma_items_clock(l, item_rules(*rr), n1, n2);
                },
                _ => {},
            },
            Some(FieldValue::Mapping { keys, values }) => match r.type_ {
                Some(FieldRules::Mapping(mr)) => {
                    lemma_items_clock(keys, key_rules(mr), n1, n2);
                    lemma_items_clock(values, map_value_rules(mr), n1, n2);
                },
                _ => {},
            },
        },
    }
}

/// When no rule of a message, nor of the messages nested in it, is
/// relative to the current time, whether it passes does not depend on the
/// current time: validating it twice gives the same outcome.
pub proof fn law_clock_free_message(m: Message, n1: int, n2: int)
    requires
        message_clock_free(m),
    ensures
        message_valid(m, n1) == message_valid(m, n2),
    decreases m, 1int,
{
    assert forall|j: int| 0 <= j < m.fields@.len() implies field_valid(
        #[trigger] m.fields@[j],
        n1,
    ) == field_valid(m.fields@[j], n2) by {
        lemma_field_clock(m.fields@[j], n1, n2);
    }
    assert forall|i: int| 0 <= i < m.fields@.len() implies block_valid(
        m,
        i,
        #[trigger] m.fields@[i],
        n1,
    ) == block_valid(m, i, m.fields@[i], n2) by {}
}

/// The durations and timestamps that the validation of `m` converts can be
/// converted, and the keys and values of each map field pair up.
pub open spec fn message_wf(m: Message) -> bool
    decreases m, 1int,
{
    forall|i: int| 0 <= i < m.fields@.len() ==> field_wf(#[trigger] m.fields@[i])
}

/// The durations and timestamps that the validation of `f` converts can be
/// converted, and its keys and values pair up.
pub open spec fn field_wf(f: Field) -> bool
    decreases f, 0int,
{
    match f.value {
        None => true,
        Some(FieldValue::Single(v)) => match f.rules {
            Some(r) => value_wf(v, r),
            None => true,
        },
        Some(FieldValue::List(l)) => forall|k: int|
            0 <= k < l@.len() ==> value_wf(
                #[trigger] l@[k],
                match f.rules {
                    Some(r) => match r.type_ {
                        Some(FieldRules::Repeated(rr)) => item_rules(*rr),
                        _ => no_rules(),
                    },
                    None => no_rules(),
                },
            ),
        Some(FieldValue::Mapping { keys, values }) => {
            &&& keys@.len() == values@.len()
            &&& forall|k: int|
                0 <= k < values@.len() ==> value_wf(
                    #[trigger] values@[k],
                    match f.rules {
                        Some(r) => match r.type_ {
                            Some(FieldRules::Mapping(mr)) => map_value_rules(mr),
                            _ => no_rules(),
                        },
                        None => no_rules(),
                    },
                )
            &&& forall|k: int|
                0 <= k < keys@.len() ==> value_wf(
                    #[trigger] keys@[k],
                    match f.rules {
                        Some(r) => match r.type_ {
                            Some(FieldRules::Mapping(mr)) => key_rules(mr),
                            _ => no_rules(),
                        },
                        None => no_rules(),
                    },
                )
        },
    }
}

// ---------------------------------------------------------------- checking

/// The outcome of validating the value `v`, as `value_status` and
/// `value_error` state it.
pub open spec fn value_outcome(v: Value, r: FieldValidationInner, optional: bool, now: int, res: Result<bool, Error>) -> bool {
    match res {
        Ok(b) => value_status(v, r, optional, now) == Some(b),
        Err(e) => value_status(v, r, optional, now) is None && value_error(v, r, optional, now, e),
    }
}

/// The outcome of validating the items of `l` in order, each under `r`:
/// `Ok(true)` when all pass, `Ok(false)` when one ends the checks first,
/// the first failure otherwise.
pub open spec fn items_outcome(l: Vec<Value>, r: FieldValidationInner, now: int, wrap: u8, res: Result<bool, Error>) -> bool {
    match res {
        Ok(true) => !items_fail(l, r, now) && !items_stop(l, r, now),
        Ok(false) => !items_fail(l, r, now) && items_stop(l, r, now),
        Err(e) => items_fail(l, r, now) && items_error(l, r, now, wrap, e),
    }
}

/// Checks an integer against its rules, as `number_status` states.
fn number_check<T: ProtoInt>(x: T, r: &NumberRules<T>) -> (res: Result<bool, crate::errors::number::Error<T>>)
    requires
        x.representable(),
        crate::number::number_rules_representable(*r),
    ensures
        match res {
            Ok(b) => number_status(x, *r) == Some(b),
            Err(e) => number_status(x, *r) is None && number_outcome(x, *r, Err(e)),
        },
{
    match validate_number(x, r) {
        Ok(()) => Ok(!(r.ignore_empty && x.widen() == 0)),
        Err(e) => Err(e),
    }
}

/// Checks a value that is not a message against the type rules `t`.
fn scalar_check(v: &Value, t: &FieldRules) -> (res: Result<bool, Error>)
    ensures
        match res {
            Ok(b) => scalar_status(*v, *t) == Some(b),
            Err(e) => scalar_status(*v, *t) is None && scalar_error(*v, *t, e),
        },
{
    match t {
        FieldRules::Int32(r) => match v {
            Value::Int32(x) => match number_check(*x, r) { Ok(b) => Ok(b), Err(e) => Err(Error::Int32(e)) },
            _ => Ok(true),
        },
        FieldRules::Int64(r) => match v {
            Value::Int64(x) => match number_check(*x, r) { Ok(b) => Ok(b), Err(e) => Err(Error::Int64(e)) },
            _ => Ok(true),
        },
        FieldRules::Uint32(r) => match v {
            Value::Uint32(x) => match number_check(*x, r) { Ok(b) => Ok(b), Err(e) => Err(Error::Uint32(e)) },
            _ => Ok(true),
        },
        FieldRules::Uint64(r) => match v {
            Value::Uint64(x) => match number_check(*x, r) { Ok(b) => Ok(b), Err(e) => Err(Error::Uint64(e)) },
            _ => Ok(true),
        },
        FieldRules::Sint32(r) => match v {
            Value::Sint32(x) => match number_check(*x, r) { Ok(b) => Ok(b), Err(e) => Err(Error::Sint32(e)) },
            _ => Ok(true),
        },
        FieldRules::Sint64(r) => match v {
            Value::Sint64(x) => match number_check(*x, r) { Ok(b) => Ok(b), Err(e) => Err(Error::Sint64(e)) },
            _ => Ok(true),
        },
        FieldRules::Fixed32(r) => match v {
            Value::Fixed32(x) => match number_check(*x, r) { Ok(b) => Ok(b), Err(e) => Err(Error::Fixed32(e)) },
            _ => Ok(true),
        },
        FieldRules::Fixed64(r) => match v {
            Value::Fixed64(x) => match number_check(*x, r) { Ok(b) => Ok(b), Err(e) => Err(Error::Fixed64(e)) },
            _ => Ok(true),
        },
        FieldRules::Sfixed32(r) => match v {
            Value::Sfixed32(x) => match number_check(*x, r) { Ok(b) => Ok(b), Err(e) => Err(Error::Sfixed32(e)) },
            _ => Ok(true),
        },
        FieldRules::Sfixed64(r) => match v {
            Value::Sfixed64(x) => match number_check(*x, r) { Ok(b) => Ok(b), Err(e) => Err(Error::Sfixed64(e)) },
            _ => Ok(true),
        },
        FieldRules::String(r) => match v {
            Value::String(s) => if r.ignore_empty && s.as_str().unicode_len() == 0 {
                Ok(false)
            } else {
                match validate_string(s, r) { Ok(()) => Ok(true), Err(e) => Err(Error::String(e)) }
            },
            _ => Ok(true),
        },
        FieldRules::Bytes(r) => match v {
            Value::Bytes(b) => if r.ignore_empty && b.len() == 0 {
                Ok(false)
            } else {
                match validate_bytes(b, r) { Ok(()) => Ok(true), Err(e) => Err(Error::Bytes(e)) }
            },
            _ => Ok(true),
        },
        FieldRules::Bool(r) => match v {
            Value::Bool(b) => match validate_bool(*b, r) { Ok(()) => Ok(true), Err(e) => Err(Error::Bool(e)) },
            _ => Ok(true),
        },
        FieldRules::Enum(r) => match v {
            Value::Enum { number, defined } => match validate_enum(*number, r, defined) {
                Ok(()) => Ok(true),
                Err(e) => Err(Error::Enum(e)),
            },
            _ => Ok(true),
        },
        _ => Ok(true),
    }
}

/// Validates one value under its field rules at current time `now` (Unix
/// nanoseconds): `Ok(false)` when it passes and ends the checks of its
/// field.
pub fn validate_value(v: &Value, r: &FieldValidationInner, optional: bool, now: i128) -> (res: Result<bool, Error>)
    requires
        value_wf(*v, *r),
        min_instant() <= now <= max_instant(),
    ensures
        value_outcome(*v, *r, optional, now as int, res),
    decreases *v, 0int,
{
    let message_kind = match v {
        Value::Duration(_) | Value::Timestamp(_) | Value::Any(_) | Value::Wrapper(_)
        | Value::Message(_) => true,
        _ => false,
    };
    if !message_kind {
        return match &r.type_ {
            Some(t) => scalar_check(v, t),
            None => Ok(true),
        };
    }
    let unset = match v {
        Value::Duration(d) => d.is_none(),
        Value::Timestamp(t) => t.is_none(),
        Value::Any(u) => u.is_none(),
        Value::Wrapper(w) => w.is_none(),
        Value::Message(m) => m.is_none(),
        _ => false,
    };
    let (skip, required) = match r.message {
        Some(mr) => (mr.skip, mr.required),
        None => (false, false),
    };
    if required && !optional && unset {
        return Err(Error::Required);
    }
    if (unset && r.type_.is_none()) || skip {
        return Ok(true);
    }
    match v {
        Value::Wrapper(Some(inner)) => match &r.type_ {
            Some(t) => match scalar_check(&**inner, t) {
                Ok(_) => Ok(true),
                Err(e) => Err(e),
            },
            None => Ok(true),
        },
        Value::Duration(d) => match &r.type_ {
            Some(FieldRules::Duration(dr)) => match d {
                Some(x) => match validate_duration(x, dr) {
                    Ok(()) => Ok(true),
                    Err(e) => Err(Error::Duration(e)),
                },
                None => if dr.required { Err(Error::Required) } else { Ok(true) },
            },
            _ => Ok(true),
        },
        Value::Timestamp(t) => match &r.type_ {
            Some(FieldRules::Timestamp(tr)) => match t {
                Some(x) => match validate_timestamp_checked(x, tr, now) {
                    Ok(()) => Ok(true),
                    Err(e) => Err(Error::Timestamp(e)),
                },
                None => if tr.required { Err(Error::Required) } else { Ok(true) },
            },
            _ => Ok(true),
        },
        Value::Any(u) => match &r.type_ {
            Some(FieldRules::Any(ar)) => match validate_any(u, ar) {
                Ok(()) => Ok(true),
                Err(e) => Err(Error::Any(e)),
            },
            _ => Ok(true),
        },
        Value::Message(Some(m)) => match validate_message_at(&**m, now) {
            Ok(()) => Ok(true),
            Err(viol) => Err(Error::Message(Box::new(viol))),
        },
        _ => Ok(true),
    }
}

/// Validates the items of `l` in order, each under `r`, wrapping the error
/// of the first that fails as `wrap` says (0: list item, 1: map key, 2:
/// map value); `Ok(false)` when an item ends the checks.
fn validate_items(l: &Vec<Value>, r: &FieldValidationInner, now: i128, wrap: u8) -> (res: Result<bool, Error>)
    requires
        forall|k: int| 0 <= k < l@.len() ==> value_wf(#[trigger] l@[k], *r),
        min_instant() <= now <= max_instant(),
    ensures
        items_outcome(*l, *r, now as int, wrap, res),
    decreases *l, 1int,
{
    let mut i: usize = 0;
    while i < l.len()
        invariant
            i <= l@.len(),
            forall|k: int| 0 <= k < l@.len() ==> value_wf(#[trigger] l@[k], *r),
            min_instant() <= now <= max_instant(),
            forall|j: int| 0 <= j < i ==> value_status(#[trigger] l@[j], *r, false, now as int) == Some(true),
        decreases l@.len() - i,
    {
        match validate_value(&l[i], r, false, now) {
            Ok(true) => {},
            Ok(false) => {
                assert(items_stop(*l, *r, now as int));
                assert forall|k: int| !item_fails_at(*l, *r, now as int, k, #[trigger] l@[k]) by {
                    if 0 <= k < l@.len() && k > i {
                        assert(value_status(l@[i as int], *r, false, now as int) == Some(false));
                    }
                }
                return Ok(false);
            },
            Err(e) => {
                assert(item_fails_at(*l, *r, now as int, i as int, l@[i as int]));
                let wrapped = if wrap == 0 {
                    Error::Item(i, Box::new(e))
                } else if wrap == 1 {
                    Error::Key(i, Box::new(e))
                } else {
                    Error::Value(i, Box::new(e))
                };
                return Err(wrapped);
            },
        }
        i = i + 1;
    }
    assert forall|k: int| !item_fails_at(*l, *r, now as int, k, #[trigger] l@[k]) by {
        if 0 <= k < l@.len() {
            assert(value_status(l@[k], *r, false, now as int) == Some(true));
        }
    }
    assert(!items_stop(*l, *r, now as int)) by {
        assert forall|k: int| 0 <= k < l@.len() implies value_status(#[trigger] l@[k], *r, false, now as int) != Some(false) by {
        }
    }
    Ok(true)
}

/// Whether two values are equal as list items.
fn values_equal(a: &Value, b: &Value) -> (r: bool)
    ensures
        r == same_value(*a, *b),
{
    match (a, b) {
        (Value::Bool(x), Value::Bool(y)) => *x == *y,
        (Value::Int32(x), Value::Int32(y)) => *x == *y,
        (Value::Int64(x), Value::Int64(y)) => *x == *y,
        (Value::Uint32(x), Value::Uint32(y)) => *x == *y,
        (Value::Uint64(x), Value::Uint64(y)) => *x == *y,
        (Value::Sint32(x), Value::Sint32(y)) => *x == *y,
        (Value::Sint64(x), Value::Sint64(y)) => *x == *y,
        (Value::Fixed32(x), Value::Fixed32(y)) => *x == *y,
        (Value::Fixed64(x), Value::Fixed64(y)) => *x == *y,
        (Value::Sfixed32(x), Value::Sfixed32(y)) => *x == *y,
        (Value::Sfixed64(x), Value::Sfixed64(y)) => *x == *y,
        (Value::String(x), Value::String(y)) => *x == *y,
        (Value::Bytes(x), Value::Bytes(y)) => bytes_equal(x, y),
        (Value::Enum { number: x, .. }, Value::Enum { number: y, .. }) => *x == *y,
        (Value::Floating { bits: x }, Value::Floating { bits: y }) => *x == *y,
        _ => false,
    }
}

/// The items of a list are checked in order, and an item that ends the
/// checks (an empty value under `ignore_empty`) ends them for the whole
/// list: when item `k` does so and every item before it passes, no item
/// fails, whatever the items after it.
pub proof fn law_items_stop_ends_checks(l: Vec<Value>, r: FieldValidationInner, now: int, k: int)
    requires
        0 <= k < l@.len(),
        value_status(l@[k], r, false, now) == Some(false),
        forall|j: int| 0 <= j < k ==> value_status(#[trigger] l@[j], r, false, now) == Some(true),
    ensures
        !items_fail(l, r, now),
        items_stop(l, r, now),
{
    assert forall|k2: int| !item_fails_at(l, r, now, k2, #[trigger] l@[k2]) by {
        if 0 <= k2 < l@.len() && k < k2 && item_fails_at(l, r, now, k2, l@[k2]) {
            assert(value_status(l@[k], r, false, now) == Some(true));
        }
    }
    assert(value_status(l@[k], r, false, now) == Some(false));
}

/// The items of a list are checked in order and the first that fails is
/// the one reported: when item `k` fails and every item before it passes,
/// the items fail, and an error reports them exactly when it is item `k`'s
/// own error at position `k`.
pub proof fn law_items_first_failure(l: Vec<Value>, r: FieldValidationInner, now: int, k: int, e: Error)
    requires
        0 <= k < l@.len(),
        value_status(l@[k], r, false, now) is None,
        forall|j: int| 0 <= j < k ==> value_status(#[trigger] l@[j], r, false, now) == Some(true),
    ensures
        items_fail(l, r, now),
        items_error(l, r, now, 0, e) <==> (e matches Error::Item(i, b) && i == k && value_error(
            l@[k],
            r,
            false,
            now,
            *b,
        )),
{
    assert(item_fails_at(l, r, now, k, l@[k]));
    assert forall|k2: int| item_fails_at(l, r, now, k2, #[trigger] l@[k2]) implies k2 == k by {
        if k2 > k {
            assert(value_status(l@[k], r, false, now) == Some(true));
        }
    }
}

/// The number of distinct items equals the number of items exactly when
/// no two items are equal.
pub proof fn law_distinct_count(s: Seq<Value>)
    ensures
        distinct_count(s) <= s.len(),
        distinct_count(s) == s.len() <==> values_distinct(s),
    decreases s.len(),
{
    if s.len() > 0 {
        let p = s.drop_last();
        law_distinct_count(p);
        let n = s.len() - 1;
        if values_distinct(s) {
            assert(values_distinct(p)) by {
                assert forall|i: int, j: int| 0 <= i < j < p.len() implies !same_value(
                    #[trigger] p[i],
                    #[trigger] p[j],
                ) by {
                    assert(p[i] == s[i] && p[j] == s[j]);
                }
            }
            assert(!seen_before(s, n)) by {
                assert forall|j: int| 0 <= j < n implies !same_value(#[trigger] s[j], s[n]) by {
                }
            }
        }
        if distinct_count(s) == s.len() {
            assert(distinct_count(p) == p.len());
            assert(!seen_before(s, n));
            assert forall|i: int, j: int| 0 <= i < j < s.len() implies !same_value(
                #[trigger] s[i],
                #[trigger] s[j],
            ) by {
                if j == n {
                } else {
                    assert(p[i] == s[i] && p[j] == s[j]);
                }
            }
        }
    }
}

/// The number of distinct items of `vals`, or `None` when they are messages
/// (whose equality is not checked).
pub fn unique_count(vals: &Vec<Value>) -> (r: Option<usize>)
    ensures
        r is None <==> exists|i: int| 0 <= i < vals@.len() && is_message_kind(#[trigger] vals@[i]),
        r matches Some(c) ==> c == distinct_count(vals@),
{
    let n = vals.len();
    let mut i: usize = 0;
    let mut count: usize = 0;
    while i < n
        invariant
            n == vals@.len(),
            i <= n,
            count <= i,
            count == distinct_count(vals@.subrange(0, i as int)),
            forall|k: int| 0 <= k < i ==> !is_message_kind(#[trigger] vals@[k]),
        decreases n - i,
    {
        let message_kind = match &vals[i] {
            Value::Duration(_) | Value::Timestamp(_) | Value::Any(_) | Value::Wrapper(_)
            | Value::Message(_) => true,
            _ => false,
        };
        if message_kind {
            assert(is_message_kind(vals@[i as int]));
            return None;
        }
        let mut j: usize = 0;
        let mut seen = false;
        while j < i
            invariant
                n == vals@.len(),
                j <= i < n,
                seen == exists|k: int| 0 <= k < j && same_value(#[trigger] vals@[k], vals@[i as int]),
            decreases i - j,
        {
            if values_equal(&vals[j], &vals[i]) {
                seen = true;
            }
            j = j + 1;
        }
        let ghost prefix = vals@.subrange(0, i as int + 1);
        assert(prefix.drop_last() =~= vals@.subrange(0, i as int));
        assert(seen == seen_before(prefix, i as int)) by {
            if seen {
                let k = choose|k: int| 0 <= k < j && same_value(#[trigger] vals@[k], vals@[i as int]);
                assert(prefix[k] == vals@[k]);
            }
            if seen_before(prefix, i as int) {
                let k = choose|k: int| 0 <= k < i && same_value(#[trigger] prefix[k], prefix[i as int]);
                assert(prefix[k] == vals@[k]);
            }
        }
        if !seen {
            count = count + 1;
        }
        i = i + 1;
    }
    assert(vals@.subrange(0, n as int) =~= vals@);
    Some(count)
}

/// Validates the list `l` against its rules at current time `now`: an
/// empty list under `ignore_empty` passes; otherwise the first of minimum,
/// maximum, uniqueness and item rules that fails is reported.
pub fn validate_list(l: &Vec<Value>, r: &RepeatedRules, now: i128) -> (res: Result<(), Error>)
    requires
        forall|k: int| 0 <= k < l@.len() ==> value_wf(#[trigger] l@[k], item_rules(*r)),
        min_instant() <= now <= max_instant(),
    ensures
        res is Ok <==> list_valid(*l, *r, now as int),
        res matches Err(e) ==> list_error(*l, *r, now as int, e),
    decreases *l, 2int,
{
    let n = l.len();
    if r.ignore_empty && n == 0 {
        return Ok(());
    }
    if let Some(m) = r.min_items {
        if (n as u64) < m {
            return Err(Error::MinItems(m));
        }
    }
    if let Some(m) = r.max_items {
        if (n as u64) > m {
            return Err(Error::MaxItems(m));
        }
    }
    if r.unique == Some(true) {
        if let Some(c) = unique_count(l) {
            proof {
                law_distinct_count(l@);
            }
            if c != n {
                return Err(Error::Unique);
            }
        }
    }
    let none = FieldValidationInner { message: None, type_: None };
    let ir: &FieldValidationInner = match &r.items {
        Some(b) => &**b,
        None => &none,
    };
    let skipped = match ir.message {
        Some(mr) => mr.skip,
        None => false,
    };
    if r.items.is_some() && skipped {
        return Ok(());
    }
    match validate_items(l, ir, now, 0) {
        Ok(_) => Ok(()),
        Err(e) => Err(e),
    }
}

/// Whether `v` makes a map sparse (an unset message value).
fn is_sparse(v: &Value) -> (b: bool)
    ensures
        b == sparse_value(*v),
{
    match v {
        Value::Duration(d) => d.is_none(),
        Value::Timestamp(t) => t.is_none(),
        Value::Any(u) => u.is_none(),
        Value::Wrapper(w) => w.is_none(),
        Value::Message(m) => m.is_none(),
        _ => false,
    }
}

/// The position of the first sparse value of `values`, if any.
fn first_sparse(values: &Vec<Value>) -> (r: Option<usize>)
    ensures
        match r {
            Some(k) => first_sparse_at(values@, k as int),
            None => forall|k: int| 0 <= k < values@.len() ==> !sparse_value(#[trigger] values@[k]),
        },
{
    let mut k: usize = 0;
    while k < values.len()
        invariant
            k <= values@.len(),
            forall|j: int| 0 <= j < k ==> !sparse_value(#[trigger] values@[j]),
        decreases values@.len() - k,
    {
        if is_sparse(&values[k]) {
            return Some(k);
        }
        k = k + 1;
    }
    None
}

/// Validates the map `fv` (keys and values in the order the map is
/// walked) against its rules at current time `now`.
pub fn validate_map(fv: &FieldValue, r: &MapRules, now: i128) -> (res: Result<(), Error>)
    requires
        fv matches FieldValue::Mapping { keys, values } && keys@.len() == values@.len()
            && (forall|k: int| 0 <= k < keys@.len() ==> value_wf(#[trigger] keys@[k], key_rules(*r)))
            && (forall|k: int| 0 <= k < values@.len() ==> value_wf(#[trigger] values@[k], map_value_rules(*r))),
        min_instant() <= now <= max_instant(),
    ensures
        res is Ok <==> map_valid(*fv, *r, now as int),
        res matches Err(e) ==> map_error(*fv, *r, now as int, e),
    decreases *fv, 2int,
{
    match fv {
        FieldValue::Mapping { keys, values } => {
            let n = keys.len();
            if r.ignore_empty && n == 0 {
                return Ok(());
            }
            if let Some(m) = r.min_pairs {
                if (n as u64) < m {
                    return Err(Error::MinPairs(m));
                }
            }
            if let Some(m) = r.max_pairs {
                if (n as u64) > m {
                    return Err(Error::MaxPairs(m));
                }
            }
            let none = FieldValidationInner { message: None, type_: None };
            let kr: &FieldValidationInner = match &r.keys {
                Some(b) => &**b,
                None => &none,
            };
            match validate_items(keys, kr, now, 1) {
                Ok(true) => {},
                Ok(false) => {
                    return Ok(());
                },
                Err(e) => {
                    return Err(e);
                },
            }
            let none2 = FieldValidationInner { message: None, type_: None };
            let vr: &FieldValidationInner = match &r.values {
                Some(b) => &**b,
                None => &none2,
            };
            let skipped = match vr.message {
                Some(mr) => mr.skip,
                None => false,
            };
            if r.values.is_some() && skipped {
                return Ok(());
            }
            match validate_items(values, vr, now, 2) {
                Ok(true) => {},
                Ok(false) => {
                    return Ok(());
                },
                Err(e) => {
                    return Err(e);
                },
            }
            if r.no_sparse == Some(true) {
                if let Some(k) = first_sparse(values) {
                    return Err(Error::NoSparse(k));
                }
            }
            Ok(())
        },
        _ => Ok(()),
    }
}

/// Validates the field `f` against its rules at current time `now`.
pub fn validate_field(f: &Field, now: i128) -> (res: Result<(), Violation>)
    requires
        field_wf(*f),
        min_instant() <= now <= max_instant(),
    ensures
        res is Ok <==> field_valid(*f, now as int),
        res matches Err(v) ==> field_error(*f, now as int, v),
    decreases *f, 0int,
{
    let r = match &f.rules {
        Some(r) => r,
        None => {
            return Ok(());
        },
    };
    let result = match &f.value {
        None => Ok(()),
        Some(FieldValue::Single(v)) => match validate_value(v, r, f.optional, now) {
            Ok(_) => Ok(()),
            Err(e) => Err(e),
        },
        Some(FieldValue::List(l)) => match &r.type_ {
            Some(FieldRules::Repeated(rr)) => validate_list(l, &**rr, now),
            _ => Ok(()),
        },
        Some(fv) => match &r.type_ {
            Some(FieldRules::Mapping(mr)) => validate_map(fv, mr, now),
            _ => Ok(()),
        },
    };
    match result {
        Ok(()) => Ok(()),
        Err(e) => {
            let field = violation_field_text(f, &e);
            Err(Violation { field, error: e })
        },
    }
}

/// The name of the map entry at position `i` of `f`, as `map_entry_name`
/// states it.
fn map_entry_text(f: &Field, i: usize) -> (s: String)
    ensures
        s@ == map_entry_name(*f, i),
{
    match &f.value {
        Some(FieldValue::Mapping { keys, values }) => if i < keys.len() {
            let key = match map_key_string(&keys[i]) {
                Some(t) => t,
                None => String::new(),
            };
            let mut s = f.name.clone();
            push_char(&mut s, '[');
            push_text(&mut s, debug_string(key.as_str()).as_str());
            push_char(&mut s, ']');
            s
        } else {
            f.name.clone()
        },
        _ => f.name.clone(),
    }
}

/// The name under which the error `e` of the field `f` is reported, as
/// `violation_field_name` states it.
fn violation_field_text(f: &Field, e: &Error) -> (s: String)
    ensures
        s@ == violation_field_name(*f, *e),
{
    match e {
        Error::Item(i, _) => {
            let mut s = f.name.clone();
            push_char(&mut s, '[');
            push_text(&mut s, signed_text(*i as i128).as_str());
            push_char(&mut s, ']');
            s
        },
        Error::Key(i, _) => map_entry_text(f, *i),
        Error::Value(i, _) => map_entry_text(f, *i),
        Error::NoSparse(i) => map_entry_text(f, *i),
        _ => f.name.clone(),
    }
}

/// The number of fields of `m` in oneof `o` that are set.
fn count_set(m: &Message, o: usize) -> (c: usize)
    ensures
        c == set_count(m.fields@, o),
{
    let n = m.fields.len();
    let mut c: usize = 0;
    let mut j: usize = 0;
    while j < n
        invariant
            n == m.fields@.len(),
            j <= n,
            c <= j,
            c == set_count(m.fields@.subrange(0, j as int), o),
        decreases n - j,
    {
        assert(m.fields@.subrange(0, j + 1).drop_last() =~= m.fields@.subrange(0, j as int));
        if m.fields[j].oneof == Some(o) && m.fields[j].value.is_some() {
            c = c + 1;
        }
        j = j + 1;
    }
    assert(m.fields@.subrange(0, n as int) =~= m.fields@);
    c
}

/// Whether field `i` of `m`, a member of oneof `o`, is the first member
/// of `o` with rules.
fn is_oneof_first(m: &Message, i: usize, o: usize) -> (b: bool)
    requires
        i < m.fields@.len(),
        m.fields@[i as int].oneof == Some(o),
        m.fields@[i as int].rules is Some,
    ensures
        b == oneof_first(*m, i as int),
{
    let mut j: usize = 0;
    while j < i
        invariant
            j <= i < m.fields@.len(),
            m.fields@[i as int].oneof == Some(o),
            m.fields@[i as int].rules is Some,
            forall|q: int|
                0 <= q < j ==> !((#[trigger] m.fields@[q]).rules is Some && m.fields@[q].oneof
                    == Some(o)),
        decreases i - j,
    {
        if m.fields[j].rules.is_some() && m.fields[j].oneof == Some(o) {
            assert(!oneof_first(*m, i as int)) by {
                assert(m.fields@[j as int].rules is Some && m.fields@[j as int].oneof == Some(o));
            }
            return false;
        }
        j = j + 1;
    }
    true
}

/// Runs the checks at field `i` of `m`, a member of oneof `o` with rules:
/// when it is the first such member, the set members with rules, then the
/// `required` rule of the oneof.
fn validate_oneof_at(m: &Message, i: usize, o: usize, now: i128) -> (res: Result<(), Violation>)
    requires
        i < m.fields@.len(),
        m.fields@[i as int].oneof == Some(o),
        m.fields@[i as int].rules is Some,
        message_wf(*m),
        min_instant() <= now <= max_instant(),
    ensures
        res is Ok <==> block_valid(*m, i as int, m.fields@[i as int], now as int),
        res matches Err(v) ==> block_error(*m, i as int, m.fields@[i as int], now as int, v),
    decreases *m, 0int,
{
    if !is_oneof_first(m, i, o) {
        return Ok(());
    }
    let n = m.fields.len();
    let mut q: usize = 0;
    while q < n
        invariant
            n == m.fields@.len(),
            q <= n,
            i < n,
            m.fields@[i as int].oneof == Some(o),
            m.fields@[i as int].rules is Some,
            oneof_first(*m, i as int),
            message_wf(*m),
            min_instant() <= now <= max_instant(),
            forall|k: int|
                0 <= k < q && checked_member(#[trigger] m.fields@[k], o) ==> field_valid(
                    m.fields@[k],
                    now as int,
                ),
        decreases n - q,
    {
        let g = &m.fields[q];
        assert(field_wf(m.fields@[q as int]));
        if g.oneof == Some(o) && g.rules.is_some() && g.value.is_some() {
            match validate_field(g, now) {
                Ok(()) => {},
                Err(v) => {
                    assert(checked_member(m.fields@[q as int], o));
                    return Err(v);
                },
            }
        }
        q = q + 1;
    }
    if o < m.oneofs.len() && m.oneofs[o].required {
        let c = count_set(m, o);
        if c != 1 {
            let v = Violation {
                field: m.oneofs[o].name.clone(),
                error: if c == 0 {
                    Error::OneofNotSet
                } else {
                    Error::OneofMultiple
                },
            };
            return Err(v);
        }
    }
    Ok(())
}

/// Validates the message `m` at current time `now` (Unix nanoseconds):
/// fields in declaration order, each oneof at its first member with rules,
/// the first violation reported.
pub fn validate_message_at(m: &Message, now: i128) -> (res: Result<(), Violation>)
    requires
        message_wf(*m),
        min_instant() <= now <= max_instant(),
    ensures
        res is Ok <==> message_valid(*m, now as int),
        res matches Err(v) ==> message_error(*m, now as int, v),
    decreases *m, 2int,
{
    if m.disabled {
        return Ok(());
    }
    let n = m.fields.len();
    let mut i: usize = 0;
    while i < n
        invariant
            n == m.fields@.len(),
            i <= n,
            !m.disabled,
            message_wf(*m),
            min_instant() <= now <= max_instant(),
            forall|k: int| 0 <= k < i ==> block_valid(*m, k, #[trigger] m.fields@[k], now as int),
        decreases n - i,
    {
        let f = &m.fields[i];
        assert(field_wf(m.fields@[i as int]));
        if f.rules.is_some() {
            match f.oneof {
                None => {
                    match validate_field(f, now) {
                        Ok(()) => {},
                        Err(v) => {
                            assert(!block_valid(*m, i as int, m.fields@[i as int], now as int));
                            return Err(v);
                        },
                    }
                },
                Some(o) => {
                    match validate_oneof_at(m, i, o, now) {
                        Ok(()) => {},
                        Err(v) => {
                            return Err(v);
                        },
                    }
                },
            }
        }
        assert(block_valid(*m, i as int, m.fields@[i as int], now as int));
        i = i + 1;
    }
    Ok(())
}

/// Whether the durations and timestamps that the validation of `v` under
/// `r` converts can be converted.
pub fn check_value_wf(v: &Value, r: &FieldValidationInner) -> (b: bool)
    ensures
        b == value_wf(*v, *r),
    decreases *v, 0int,
{
    match v {
        Value::Duration(Some(d)) => match &r.type_ {
            Some(FieldRules::Duration(dr)) => dr.check_representable() && (
            !dr.check_has_value_checks() || (d.is_representable()
                && dr.check_lists_representable_for(d))),
            _ => true,
        },
        Value::Timestamp(Some(t)) => match &r.type_ {
            Some(FieldRules::Timestamp(tr)) => tr.check_representable() && (
            !tr.check_has_value_checks() || t.is_representable()),
            _ => true,
        },
        Value::Message(Some(m)) => check_message_wf(&**m),
        _ => true,
    }
}

/// Whether every value of `l` is well formed under `r`.
fn check_values_wf(l: &Vec<Value>, r: &FieldValidationInner) -> (b: bool)
    ensures
        b == forall|k: int| 0 <= k < l@.len() ==> value_wf(#[trigger] l@[k], *r),
    decreases *l, 1int,
{
    let mut i: usize = 0;
    while i < l.len()
        invariant
            i <= l@.len(),
            forall|k: int| 0 <= k < i ==> value_wf(#[trigger] l@[k], *r),
        decreases l@.len() - i,
    {
        if !check_value_wf(&l[i], r) {
            return false;
        }
        i = i + 1;
    }
    true
}

/// Whether the durations and timestamps that the validation of `f` converts
/// can be converted, and its keys and values pair up.
pub fn check_field_wf(f: &Field) -> (b: bool)
    ensures
        b == field_wf(*f),
    decreases *f, 0int,
{
    let none = FieldValidationInner { message: None, type_: None };
    match &f.value {
        None => true,
        Some(FieldValue::Single(v)) => match &f.rules {
            Some(r) => check_value_wf(v, r),
            None => true,
        },
        Some(FieldValue::List(l)) => {
            let ir: &FieldValidationInner = match &f.rules {
                Some(r) => match &r.type_ {
                    Some(FieldRules::Repeated(rr)) => match &rr.items {
                        Some(b) => &**b,
                        None => &none,
                    },
                    _ => &none,
                },
                None => &none,
            };
            check_values_wf(l, ir)
        },
        Some(FieldValue::Mapping { keys, values }) => {
            let none2 = FieldValidationInner { message: None, type_: None };
            let (kr, vr): (&FieldValidationInner, &FieldValidationInner) = match &f.rules {
                Some(r) => match &r.type_ {
                    Some(FieldRules::Mapping(mr)) => (
                        match &mr.keys {
                            Some(b) => &**b,
                            None => &none,
                        },
                        match &mr.values {
                            Some(b) => &**b,
                            None => &none2,
                        },
                    ),
                    _ => (&none, &none2),
                },
                None => (&none, &none2),
            };
            keys.len() == values.len() && check_values_wf(values, vr) && check_values_wf(keys, kr)
        },
    }
}

/// Whether the durations and timestamps that the validation of `m` converts
/// can be converted, and the keys and values of each map field pair up.
pub fn check_message_wf(m: &Message) -> (b: bool)
    ensures
        b == message_wf(*m),
    decreases *m, 1int,
{
    let mut i: usize = 0;
    while i < m.fields.len()
        invariant
            i <= m.fields@.len(),
            forall|k: int| 0 <= k < i ==> field_wf(#[trigger] m.fields@[k]),
        decreases m.fields@.len() - i,
    {
        if !check_field_wf(&m.fields[i]) {
            return false;
        }
        i = i + 1;
    }
    true
}

/// The decimal digit of value `d` (below 10).
pub open spec fn digit_char(d: nat) -> char {
    if d == 0 { '0' } else if d == 1 { '1' } else if d == 2 { '2' } else if d == 3 { '3' }
    else if d == 4 { '4' } else if d == 5 { '5' } else if d == 6 { '6' } else if d == 7 { '7' }
    else if d == 8 { '8' } else { '9' }
}

/// The decimal notation of `n`, without leading zeros.
pub open spec fn decimal(n: nat) -> Seq<char>
    decreases n,
{
    if n < 10 {
        seq![digit_char(n)]
    } else {
        decimal(n / 10).push(digit_char(n % 10))
    }
}

/// The decimal notation of `n`, with a minus sign when negative.
pub open spec fn signed_decimal(n: int) -> Seq<char> {
    if n < 0 {
        seq!['-'] + decimal((-n) as nat)
    } else {
        decimal(n as nat)
    }
}

/// The text of a map key: the decimal notation of an integer, `true` or
/// `false`, or the string itself; `None` for a value that cannot be a map
/// key.
pub open spec fn key_text(k: Value) -> Option<Seq<char>> {
    match k {
        Value::Bool(b) => Some(if b { "true"@ } else { "false"@ }),
        Value::Int32(x) => Some(signed_decimal(x as int)),
        Value::Int64(x) => Some(signed_decimal(x as int)),
        Value::Uint32(x) => Some(signed_decimal(x as int)),
        Value::Uint64(x) => Some(signed_decimal(x as int)),
        Value::Sint32(x) => Some(signed_decimal(x as int)),
        Value::Sint64(x) => Some(signed_decimal(x as int)),
        Value::Fixed32(x) => Some(signed_decimal(x as int)),
        Value::Fixed64(x) => Some(signed_decimal(x as int)),
        Value::Sfixed32(x) => Some(signed_decimal(x as int)),
        Value::Sfixed64(x) => Some(signed_decimal(x as int)),
        Value::String(s) => Some(s@),
        _ => None,
    }
}

fn digit_of(d: u64) -> (c: char)
    requires
        d < 10,
    ensures
        c == digit_char(d as nat),
{
    if d == 0 { '0' } else if d == 1 { '1' } else if d == 2 { '2' } else if d == 3 { '3' }
    else if d == 4 { '4' } else if d == 5 { '5' } else if d == 6 { '6' } else if d == 7 { '7' }
    else if d == 8 { '8' } else { '9' }
}

/// Appends the decimal notation of `n` to `out`.
fn push_decimal(n: u64, out: &mut Vec<char>)
    ensures
        final(out)@ == old(out)@ + decimal(n as nat),
    decreases n,
{
    if n >= 10 {
        push_decimal(n / 10, out);
    }
    out.push(digit_of(n % 10));
    proof {
        if n >= 10 {
            assert(decimal(n as nat) == decimal((n / 10) as nat).push(digit_char((n % 10) as nat)));
        }
    }
    assert(final(out)@ =~= old(out)@ + decimal(n as nat)) by {
        if n < 10 {
            assert(n % 10 == n);
        }
    }
}

/// The decimal notation of `n`, with a minus sign when negative.
fn signed_text(n: i128) -> (s: String)
    requires
        -18446744073709551615 <= n <= 18446744073709551615,
    ensures
        s@ == signed_decimal(n as int),
{
    let mut out: Vec<char> = Vec::new();
    if n < 0 {
        out.push('-');
        push_decimal((-n) as u64, &mut out);
    } else {
        push_decimal(n as u64, &mut out);
    }
    assert(out@ =~= signed_decimal(n as int));
    crate::text::string_of(&out)
}

/// The text of a map key, as `key_text` states it (how a key is named in
/// error messages).
pub fn map_key_string(k: &Value) -> (r: Option<String>)
    ensures
        match key_text(*k) {
            Some(t) => r matches Some(s) && s@ == t,
            None => r is None,
        },
{
    match k {
        Value::Bool(b) => Some(if *b { "true".to_owned() } else { "false".to_owned() }),
        Value::Int32(x) => Some(signed_text(*x as i128)),
        Value::Int64(x) => Some(signed_text(*x as i128)),
        Value::Uint32(x) => Some(signed_text(*x as i128)),
        Value::Uint64(x) => Some(signed_text(*x as i128)),
        Value::Sint32(x) => Some(signed_text(*x as i128)),
        Value::Sint64(x) => Some(signed_text(*x as i128)),
        Value::Fixed32(x) => Some(signed_text(*x as i128)),
        Value::Fixed64(x) => Some(signed_text(*x as i128)),
        Value::Sfixed32(x) => Some(signed_text(*x as i128)),
        Value::Sfixed64(x) => Some(signed_text(*x as i128)),
        Value::String(s) => Some(s.clone()),
        _ => None,
    }
}

/// Validates the message `m`, reading the current time once for the rules
/// relative to it; the result is that of `validate_message_at` at some
/// current time within the range of a date-time.
pub fn validate_message(m: &Message) -> (res: Result<(), Violation>)
    requires
        message_wf(*m),
    ensures
        exists|now: int|
            min_instant() <= now <= max_instant() && (res is Ok <==> message_valid(*m, now)) && (
            res matches Err(v) ==> message_error(*m, now, v)),
{
    let now = now_instant();
    let res = validate_message_at(m, now);
    assert(min_instant() <= now as int <= max_instant());
    res
}

/// Messages that can validate themselves.
pub trait ValidatorExt {
    /// The value can be validated without a conversion failing.
    spec fn validatable(&self) -> bool;

    /// Validates the value against the rules of its type.
    fn validate(&self) -> (res: Result<(), Violation>)
        requires
            self.validatable(),
    ;
}

impl ValidatorExt for Message {
    open spec fn validatable(&self) -> bool {
        message_wf(*self)
    }

    fn validate(&self) -> (res: Result<(), Violation>)
        ensures
            exists|now: int|
                min_instant() <= now <= max_instant() && (res is Ok <==> message_valid(*self, now))
                    && (res matches Err(v) ==> message_error(*self, now, v)),
    {
        validate_message(self)
    }
}

/// Values that validate themselves with the rules of their type.
pub trait Validator: ValidatorExt {
}

impl Validator for Message {
}

/// The validation options of a oneof.
pub trait OneofRulesExt {
    /// Whether one of the oneof's fields must be set.
    fn required(&self) -> bool;
}

impl OneofRulesExt for Oneof {
    fn required(&self) -> (b: bool)
        ensures
            b == self.required,
    {
        self.required
    }
}

/// The validation options of a message type, each unset option counting as
/// `false`.
#[derive(Debug, Clone, Copy, PartialEq, Eq)]
pub struct MessageOptions {
    /// The `validate.disabled` option.
    pub disabled: Option<bool>,
    /// The `validate.ignored` option.
    pub ignored: Option<bool>,
}

/// The validation options of a message type.
pub trait MessageRulesExt {
    /// Whether validation of the type is disabled.
    fn validation_disabled(&self) -> bool;

    /// Whether the type is ignored by validation.
    fn validation_ignored(&self) -> bool;
}

impl MessageRulesExt for MessageOptions {
    fn validation_disabled(&self) -> (b: bool)
        ensures
            b == (self.disabled == Some(true)),
    {
        self.disabled == Some(true)
    }

    fn validation_ignored(&self) -> (b: bool)
        ensures
            b == (self.ignored == Some(true)),
    {
        self.ignored == Some(true)
    }
}

} // verus!
