//! The fields of a message type as the `Validator` derive reads them: the
//! `prost` attribute of each field, its `validate` attribute, and the check
//! that the rules given fit the field's type.
use vstd::prelude::*;
use crate::formats::{first_index, sub_chars};
use crate::rules::{FieldRules, MapRules, MessageRules, OneOfRules, RepeatedRules};
use crate::text::{
    chars_of, contains, contains_sub, equal_vecs, is_prefix, push_text, starts_with, string_of,
    trim, trim_chars,
};

verus! {

/// An attribute value written either as a string or as a bool.
#[derive(Debug, Clone, PartialEq, Eq)]
pub enum StringOrBool {
    /// A string other than `true` and `false`.
    String(String),
    /// A bool, or a bare word (which means `true`).
    Bool(bool),
}

impl StringOrBool {
    /// The value of an attribute written as a bare word: `true`.
    pub fn from_word() -> (r: StringOrBool)
        ensures
            r == StringOrBool::Bool(true),
    {
        StringOrBool::Bool(true)
    }

    /// The value of an attribute written as a string: a bool for `true` and
    /// `false`, the string otherwise.
    pub fn from_string(value: &str) -> (r: StringOrBool)
        ensures
            value@ == "true"@ ==> r == StringOrBool::Bool(true),
            value@ == "false"@ ==> r == StringOrBool::Bool(false),
            value@ != "true"@ && value@ != "false"@ ==> (r matches StringOrBool::String(s) && s@
                == value@),
    {
        proof {
            reveal_strlit("true");
            reveal_strlit("false");
            assert("true"@.len() != "false"@.len());
        }
        let v = chars_of(value);
        let t = chars_of("true");
        let f = chars_of("false");
        if equal_vecs(&v, &t) {
            StringOrBool::Bool(true)
        } else if equal_vecs(&v, &f) {
            StringOrBool::Bool(false)
        } else {
            StringOrBool::String(string_of(&v))
        }
    }
}

/// The `prost` attribute of a field: its tag and how prost encodes it.
#[derive(Debug, Clone)]
pub struct ProstField {
    /// The field number.
    pub tag: Option<u32>,
    /// The field is `optional`.
    pub optional: bool,
    /// The field is `required` (proto2).
    pub required: Option<bool>,
    /// The field is repeated.
    pub repeated: bool,
    /// The key and value types of a map field, as `"key, value"`.
    pub map: Option<String>,
    /// The oneof type of a oneof field.
    pub oneof: Option<String>,
    /// The field numbers of a oneof.
    pub tags: Option<String>,
    /// The field is a message.
    pub message: Option<bool>,
    /// The enum type of an enum field.
    pub enumeration: Option<String>,
    /// The field is a bool.
    pub bool: Option<bool>,
    /// The field is a string.
    pub string: Option<bool>,
    /// The field is bytes (possibly with the Rust type named).
    pub bytes: Option<StringOrBool>,
    /// The field is a float.
    pub float: Option<bool>,
    /// The field is a double.
    pub double: Option<bool>,
    /// The field is an int32.
    pub int32: Option<bool>,
    /// The field is an int64.
    pub int64: Option<bool>,
    /// The field is a uint32.
    pub uint32: Option<bool>,
    /// The field is a uint64.
    pub uint64: Option<bool>,
    /// The field is a sint32.
    pub sint32: Option<bool>,
    /// The field is a sint64.
    pub sint64: Option<bool>,
    /// The field is a fixed32.
    pub fixed32: Option<bool>,
    /// The field is a fixed64.
    pub fixed64: Option<bool>,
    /// The field is a sfixed32.
    pub sfixed32: Option<bool>,
    /// The field is a sfixed64.
    pub sfixed64: Option<bool>,
    /// The field is packed.
    pub packed: Option<String>,
    /// The field is boxed.
    pub boxed: Option<bool>,
    /// The field's default value.
    pub default: Option<String>,
}

/// The first comma of `s` stands at position `k`.
pub open spec fn first_comma_at(s: Seq<char>, k: int) -> bool {
    0 <= k < s.len() && s[k] == ',' && forall|j: int| 0 <= j < k ==> #[trigger] s[j] != ','
}

/// The value type of a map attribute names an enum, whose name stands
/// between `enumeration(` and the last character.
pub open spec fn names_enumeration(value: Seq<char>) -> bool {
    is_prefix("enumeration("@, value)
}

/// Splitting the map attribute `s` at its first comma gives the key type
/// `key` and the value type `value`, each trimmed.
pub open spec fn map_split(s: Seq<char>, key: Seq<char>, value: Seq<char>) -> bool {
    exists|k: int|
        first_comma_at(s, k) && key == trim(s.subrange(0, k)) && value == trim(
            s.subrange(k + 1, s.len() as int),
        )
}

/// The trimmed value type of the map attribute `s`.
pub open spec fn map_value_type(s: Seq<char>) -> Seq<char> {
    let k = choose|k: int| first_comma_at(s, k);
    trim(s.subrange(k + 1, s.len() as int))
}

impl ProstField {
    /// Reads the map attribute, when there is a non-empty one: the key and
    /// value types, each trimmed; a value type `enumeration(E)` records `E`
    /// as the field's enumeration, and `message` marks the field as a
    /// message.
    pub fn parse_map(&mut self) -> (r: Option<(String, String)>)
        requires
            old(self).map is Some && old(self).map->0@.len() > 0 ==> {
                let m = old(self).map->0@;
                &&& exists|k: int| first_comma_at(m, k)
                &&& names_enumeration(map_value_type(m)) ==> map_value_type(m).len() >= 13 && (
                map_value_type(m).last() as u32) < 128
            },
        ensures
            old(self).map is Some && old(self).map->0@.len() > 0 ==> {
                let m = old(self).map->0@;
                &&& r matches Some((key, value)) && map_split(m, key@, value@)
                && value@ == map_value_type(m)
                &&& names_enumeration(map_value_type(m)) ==> (final(self).enumeration matches Some(e)
                    && e@ == map_value_type(m).subrange(12, map_value_type(m).len() - 1))
                &&& !names_enumeration(map_value_type(m)) ==> final(self).enumeration == old(
                    self,
                ).enumeration
                &&& final(self).message == if map_value_type(m) == "message"@ {
                    Some(true)
                } else {
                    old(self).message
                }
                &&& *final(self) == (ProstField {
                    enumeration: final(self).enumeration,
                    message: final(self).message,
                    ..*old(self)
                })
            },
            !(old(self).map is Some && old(self).map->0@.len() > 0) ==> r is None && *final(self)
                == *old(self),
    {
        let m = match &self.map {
            Some(m) => chars_of(m.as_str()),
            None => {
                return None;
            },
        };
        if m.len() == 0 {
            return None;
        }
        let k = first_index(&m, ',');
        proof {
            let w = choose|w: int| first_comma_at(m@, w);
            assert(w == k) by {
                if w < k {
                    assert(m@[w] != ',');
                }
                if k < w {
                    assert(m@[k as int] != ',');
                }
            }
        }
        let key = trim_chars(&m, 0, k);
        let value = trim_chars(&m, k + 1, m.len());
        assert(first_comma_at(m@, k as int));
        if starts_with(&value, &chars_of("enumeration(")) {
            let name = sub_chars(&value, 12, value.len() - 1);
            self.enumeration = Some(string_of(&name));
        }
        if equal_vecs(&value, &chars_of("message")) {
            self.message = Some(true);
        }
        Some((string_of(&key), string_of(&value)))
    }
}

/// The `validate` attribute of a field.
#[derive(Debug)]
pub struct FieldValidation {
    /// The full name of the field, for error messages.
    pub name: String,
    /// The field must be set.
    pub required: bool,
    /// The field is a proto3 `optional` field.
    pub optional: Option<bool>,
    /// The field is repeated.
    pub repeated: Option<bool>,
    /// The rules of a message field.
    pub message: Option<MessageRules>,
    /// The rules of the field's type.
    pub type_: Option<FieldRules>,
}

impl FieldValidation {
    /// The attribute demands that the field be set.
    pub open spec fn spec_required(&self) -> bool {
        ||| self.required
        ||| (self.type_ matches Some(t) && t.spec_is_required())
        ||| (self.message matches Some(m) && m.required)
    }

    /// Whether the attribute demands that the field be set: directly, by
    /// the type rules, or by the message rules.
    pub fn required(&self) -> (b: bool)
        ensures
            b == self.spec_required(),
    {
        self.required || match &self.type_ {
            Some(t) => t.is_required(),
            None => false,
        } || match &self.message {
            Some(m) => m.required,
            None => false,
        }
    }
}

/// The kind of field that the rules given do not fit.
#[derive(Debug, Clone, Copy, PartialEq, Eq)]
pub enum RuleKind {
    /// A repeated field.
    Repeated,
    /// Message rules on a field that is not a message.
    Message,
    /// A `google.protobuf.Timestamp` field.
    Timestamp,
    /// A `google.protobuf.Duration` field.
    Duration,
    /// A `google.protobuf.Any` field.
    Any,
    /// A string field.
    String,
    /// A bytes field.
    Bytes,
    /// A bool field.
    Bool,
    /// A uint64 field.
    Uint64,
    /// A uint32 field.
    Uint32,
    /// An int64 field.
    Int64,
    /// An int32 field.
    Int32,
    /// A double field.
    Double,
    /// A float field.
    Float,
    /// An enum field.
    Enum,
    /// A sint32 field.
    Sint32,
    /// A sint64 field.
    Sint64,
    /// A fixed32 field.
    Fixed32,
    /// A fixed64 field.
    Fixed64,
    /// A sfixed32 field.
    Sfixed32,
    /// A sfixed64 field.
    Sfixed64,
}

/// Rules that do not fit the field they stand on.
#[derive(Debug, PartialEq, Eq)]
pub struct RuleMismatch {
    /// The name of the field.
    pub field: String,
    /// The kind of field that the rules do not fit.
    pub kind: RuleKind,
}

/// The word that names a kind of field in the message of a mismatch.
pub open spec fn kind_word(k: RuleKind) -> Seq<char> {
    match k {
        RuleKind::Repeated => "repeated"@,
        RuleKind::Timestamp => "timestamp"@,
        RuleKind::Duration => "duration"@,
        RuleKind::Any => "any"@,
        RuleKind::String => "string"@,
        RuleKind::Bytes => "bytes"@,
        RuleKind::Bool => "bool"@,
        RuleKind::Uint64 => "uint64"@,
        RuleKind::Uint32 => "uint32"@,
        RuleKind::Int64 => "int64"@,
        RuleKind::Int32 => "int32"@,
        RuleKind::Double => "double"@,
        RuleKind::Float => "float"@,
        RuleKind::Enum => "enum"@,
        RuleKind::Sint32 => "sint32"@,
        RuleKind::Sint64 => "sint64"@,
        RuleKind::Fixed32 => "fixed32"@,
        RuleKind::Fixed64 => "fixed64"@,
        RuleKind::Sfixed32 => "sfixed32"@,
        RuleKind::Sfixed64 => "sfixed64"@,
        RuleKind::Message => "message"@,
    }
}

/// The message of a mismatch on the field named `field`: message rules on
/// a field that is not a message, or rules for another kind of field.
pub open spec fn mismatch_message(field: Seq<char>, k: RuleKind) -> Seq<char> {
    if k is Message {
        field + ": unexpected message rules"@
    } else {
        field + ": unexpected rules for "@ + kind_word(k) + " field"@
    }
}

/// The word that names the kind of field `k`.
fn kind_word_str(k: RuleKind) -> (w: &'static str)
    ensures
        w@ == kind_word(k),
{
    match k {
        RuleKind::Repeated => "repeated",
        RuleKind::Timestamp => "timestamp",
        RuleKind::Duration => "duration",
        RuleKind::Any => "any",
        RuleKind::String => "string",
        RuleKind::Bytes => "bytes",
        RuleKind::Bool => "bool",
        RuleKind::Uint64 => "uint64",
        RuleKind::Uint32 => "uint32",
        RuleKind::Int64 => "int64",
        RuleKind::Int32 => "int32",
        RuleKind::Double => "double",
        RuleKind::Float => "float",
        RuleKind::Enum => "enum",
        RuleKind::Sint32 => "sint32",
        RuleKind::Sint64 => "sint64",
        RuleKind::Fixed32 => "fixed32",
        RuleKind::Fixed64 => "fixed64",
        RuleKind::Sfixed32 => "sfixed32",
        RuleKind::Sfixed64 => "sfixed64",
        RuleKind::Message => "message",
    }
}

impl RuleMismatch {
    /// The message of the mismatch, such as
    /// `"name: unexpected rules for string field"`.
    pub fn message(&self) -> (s: String)
        ensures
            s@ == mismatch_message(self.field@, self.kind),
    {
        let mut s = self.field.clone();
        match self.kind {
            RuleKind::Message => {
                push_text(&mut s, ": unexpected message rules");
            },
            _ => {
                push_text(&mut s, ": unexpected rules for ");
                push_text(&mut s, kind_word_str(self.kind));
                push_text(&mut s, " field");
            },
        }
        s
    }
}

/// The rules `t` are rules for a field of kind `k`.
pub open spec fn rules_are(t: FieldRules, k: RuleKind) -> bool {
    match k {
        RuleKind::Repeated => t is Repeated,
        RuleKind::Message => t is Message,
        RuleKind::Timestamp => t is Timestamp,
        RuleKind::Duration => t is Duration,
        RuleKind::Any => t is Any,
        RuleKind::String => t is String,
        RuleKind::Bytes => t is Bytes,
        RuleKind::Bool => t is Bool,
        RuleKind::Uint64 => t is Uint64,
        RuleKind::Uint32 => t is Uint32,
        RuleKind::Int64 => t is Int64,
        RuleKind::Int32 => t is Int32,
        RuleKind::Double => t is Double,
        RuleKind::Float => t is Float,
        RuleKind::Enum => t is Enum,
        RuleKind::Sint32 => t is Sint32,
        RuleKind::Sint64 => t is Sint64,
        RuleKind::Fixed32 => t is Fixed32,
        RuleKind::Fixed64 => t is Fixed64,
        RuleKind::Sfixed32 => t is Sfixed32,
        RuleKind::Sfixed64 => t is Sfixed64,
    }
}

/// Type rules are given and are not rules for a field of kind `k`.
pub open spec fn misfits(t: Option<FieldRules>, k: RuleKind) -> bool {
    t matches Some(r) && !rules_are(r, k)
}

fn rules_fit(t: &Option<FieldRules>, k: RuleKind) -> (b: bool)
    ensures
        b == !misfits(*t, k),
{
    match t {
        None => true,
        Some(r) => match k {
            RuleKind::Repeated => matches!(r, FieldRules::Repeated(_)),
            RuleKind::Message => matches!(r, FieldRules::Message(_)),
            RuleKind::Timestamp => matches!(r, FieldRules::Timestamp(_)),
            RuleKind::Duration => matches!(r, FieldRules::Duration(_)),
            RuleKind::Any => matches!(r, FieldRules::Any(_)),
            RuleKind::String => matches!(r, FieldRules::String(_)),
            RuleKind::Bytes => matches!(r, FieldRules::Bytes(_)),
            RuleKind::Bool => matches!(r, FieldRules::Bool(_)),
            RuleKind::Uint64 => matches!(r, FieldRules::Uint64(_)),
            RuleKind::Uint32 => matches!(r, FieldRules::Uint32(_)),
            RuleKind::Int64 => matches!(r, FieldRules::Int64(_)),
            RuleKind::Int32 => matches!(r, FieldRules::Int32(_)),
            RuleKind::Double => matches!(r, FieldRules::Double),
            RuleKind::Float => matches!(r, FieldRules::Float),
            RuleKind::Enum => matches!(r, FieldRules::Enum(_)),
            RuleKind::Sint32 => matches!(r, FieldRules::Sint32(_)),
            RuleKind::Sint64 => matches!(r, FieldRules::Sint64(_)),
            RuleKind::Fixed32 => matches!(r, FieldRules::Fixed32(_)),
            RuleKind::Fixed64 => matches!(r, FieldRules::Fixed64(_)),
            RuleKind::Sfixed32 => matches!(r, FieldRules::Sfixed32(_)),
            RuleKind::Sfixed64 => matches!(r, FieldRules::Sfixed64(_)),
        },
    }
}

/// `s` without its spaces.
pub open spec fn without_spaces(s: Seq<char>) -> Seq<char>
    decreases s.len(),
{
    if s.len() == 0 {
        s
    } else if s.last() == ' ' {
        without_spaces(s.drop_last())
    } else {
        without_spaces(s.drop_last()).push(s.last())
    }
}

/// The characters of `s` without its spaces.
pub fn remove_spaces(s: &Vec<char>) -> (r: Vec<char>)
    ensures
        r@ == without_spaces(s@),
{
    let mut r: Vec<char> = Vec::new();
    let mut i: usize = 0;
    while i < s.len()
        invariant
            i <= s@.len(),
            r@ == without_spaces(s@.subrange(0, i as int)),
        decreases s@.len() - i,
    {
        assert(s@.subrange(0, i + 1).drop_last() =~= s@.subrange(0, i as int));
        if s[i] != ' ' {
            r.push(s[i]);
        }
        i = i + 1;
    }
    assert(s@.subrange(0, s@.len() as int) =~= s@);
    r
}

/// The kind that the field type `typ` (written without spaces) pins down
/// among the optional well-known types and wrapped scalars.
pub open spec fn typ_kind(typ: Seq<char>) -> Option<RuleKind> {
    if typ == "::core::option::Option<::prost_types::Timestamp>"@ {
        Some(RuleKind::Timestamp)
    } else if typ == "::core::option::Option<::prost_types::Duration>"@ {
        Some(RuleKind::Duration)
    } else if typ == "::core::option::Option<::prost_types::Any>"@ {
        Some(RuleKind::Any)
    } else if typ == "::core::option::Option<::prost::alloc::string::String>"@ {
        Some(RuleKind::String)
    } else if typ == "::core::option::Option<::prost::alloc::vec::Vec<u8>>"@ {
        Some(RuleKind::Bytes)
    } else if typ == "::core::option::Option<bool>"@ {
        Some(RuleKind::Bool)
    } else if typ == "::core::option::Option<u64>"@ {
        Some(RuleKind::Uint64)
    } else if typ == "::core::option::Option<u32>"@ {
        Some(RuleKind::Uint32)
    } else if typ == "::core::option::Option<i64>"@ {
        Some(RuleKind::Int64)
    } else if typ == "::core::option::Option<i32>"@ {
        Some(RuleKind::Int32)
    } else if typ == "::core::option::Option<f64>"@ {
        Some(RuleKind::Double)
    } else if typ == "::core::option::Option<f32>"@ {
        Some(RuleKind::Float)
    } else {
        None
    }
}

fn typ_kind_of(typ: &Vec<char>) -> (k: Option<RuleKind>)
    ensures
        k == typ_kind(typ@),
{
    if equal_vecs(typ, &chars_of("::core::option::Option<::prost_types::Timestamp>")) {
        Some(RuleKind::Timestamp)
    } else if equal_vecs(typ, &chars_of("::core::option::Option<::prost_types::Duration>")) {
        Some(RuleKind::Duration)
    } else if equal_vecs(typ, &chars_of("::core::option::Option<::prost_types::Any>")) {
        Some(RuleKind::Any)
    } else if equal_vecs(typ, &chars_of("::core::option::Option<::prost::alloc::string::String>")) {
        Some(RuleKind::String)
    } else if equal_vecs(typ, &chars_of("::core::option::Option<::prost::alloc::vec::Vec<u8>>")) {
        Some(RuleKind::Bytes)
    } else if equal_vecs(typ, &chars_of("::core::option::Option<bool>")) {
        Some(RuleKind::Bool)
    } else if equal_vecs(typ, &chars_of("::core::option::Option<u64>")) {
        Some(RuleKind::Uint64)
    } else if equal_vecs(typ, &chars_of("::core::option::Option<u32>")) {
        Some(RuleKind::Uint32)
    } else if equal_vecs(typ, &chars_of("::core::option::Option<i64>")) {
        Some(RuleKind::Int64)
    } else if equal_vecs(typ, &chars_of("::core::option::Option<i32>")) {
        Some(RuleKind::Int32)
    } else if equal_vecs(typ, &chars_of("::core::option::Option<f64>")) {
        Some(RuleKind::Double)
    } else if equal_vecs(typ, &chars_of("::core::option::Option<f32>")) {
        Some(RuleKind::Float)
    } else {
        None
    }
}

/// The kind of field whose rules `message` and `t` do not fit a field
/// that is not repeated, as `p`, `map` and its type `typ` describe it, if
/// any: message rules on a field that is not a message, then the type of a
/// message field, then the scalar kind prost marks.
pub open spec fn single_misfit(
    p: ProstField,
    map: bool,
    typ: Seq<char>,
    message: Option<MessageRules>,
    t: Option<FieldRules>,
) -> Option<RuleKind> {
    if map {
        None
    } else if p.message is None && message is Some {
        Some(RuleKind::Message)
    } else if p.message is Some && typ_kind(typ) is Some && misfits(t, typ_kind(typ)->0) {
        typ_kind(typ)
    } else if flag_misfit_a(p, t) is Some {
        flag_misfit_a(p, t)
    } else {
        flag_misfit_b(p, t)
    }
}

/// The first scalar kind among enum, bool, string, bytes and the plain
/// integers that prost marks on `p` and whose rules `t` do not fit.
pub open spec fn flag_misfit_a(p: ProstField, t: Option<FieldRules>) -> Option<RuleKind> {
    if p.enumeration is Some && misfits(t, RuleKind::Enum) {
        Some(RuleKind::Enum)
    } else if p.bool is Some && misfits(t, RuleKind::Bool) {
        Some(RuleKind::Bool)
    } else if p.string is Some && misfits(t, RuleKind::String) {
        Some(RuleKind::String)
    } else if p.bytes is Some && misfits(t, RuleKind::Bytes) {
        Some(RuleKind::Bytes)
    } else if p.int32 is Some && misfits(t, RuleKind::Int32) {
        Some(RuleKind::Int32)
    } else if p.int64 is Some && misfits(t, RuleKind::Int64) {
        Some(RuleKind::Int64)
    } else if p.uint32 is Some && misfits(t, RuleKind::Uint32) {
        Some(RuleKind::Uint32)
    } else if p.uint64 is Some && misfits(t, RuleKind::Uint64) {
        Some(RuleKind::Uint64)
    } else {
        None
    }
}

/// The first scalar kind among the zigzag and fixed-width integers and the
/// floating-point numbers that prost marks on `p` and whose rules `t` do
/// not fit.
pub open spec fn flag_misfit_b(p: ProstField, t: Option<FieldRules>) -> Option<RuleKind> {
    if p.sint32 is Some && misfits(t, RuleKind::Sint32) {
        Some(RuleKind::Sint32)
    } else if p.sint64 is Some && misfits(t, RuleKind::Sint64) {
        Some(RuleKind::Sint64)
    } else if p.fixed32 is Some && misfits(t, RuleKind::Fixed32) {
        Some(RuleKind::Fixed32)
    } else if p.fixed64 is Some && misfits(t, RuleKind::Fixed64) {
        Some(RuleKind::Fixed64)
    } else if p.sfixed32 is Some && misfits(t, RuleKind::Sfixed32) {
        Some(RuleKind::Sfixed32)
    } else if p.sfixed64 is Some && misfits(t, RuleKind::Sfixed64) {
        Some(RuleKind::Sfixed64)
    } else if p.float is Some && misfits(t, RuleKind::Float) {
        Some(RuleKind::Float)
    } else if p.double is Some && misfits(t, RuleKind::Double) {
        Some(RuleKind::Double)
    } else {
        None
    }
}

fn flag_misfit_a_of(p: &ProstField, t: &Option<FieldRules>) -> (k: Option<RuleKind>)
    ensures
        k == flag_misfit_a(*p, *t),
{
    if p.enumeration.is_some() && !rules_fit(t, RuleKind::Enum) {
        return Some(RuleKind::Enum);
    }
    if p.bool.is_some() && !rules_fit(t, RuleKind::Bool) {
        return Some(RuleKind::Bool);
    }
    if p.string.is_some() && !rules_fit(t, RuleKind::String) {
        return Some(RuleKind::String);
    }
    if p.bytes.is_some() && !rules_fit(t, RuleKind::Bytes) {
        return Some(RuleKind::Bytes);
    }
    if p.int32.is_some() && !rules_fit(t, RuleKind::Int32) {
        return Some(RuleKind::Int32);
    }
    if p.int64.is_some() && !rules_fit(t, RuleKind::Int64) {
        return Some(RuleKind::Int64);
    }
    if p.uint32.is_some() && !rules_fit(t, RuleKind::Uint32) {
        return Some(RuleKind::Uint32);
    }
    if p.uint64.is_some() && !rules_fit(t, RuleKind::Uint64) {
        return Some(RuleKind::Uint64);
    }
    None
}

fn flag_misfit_b_of(p: &ProstField, t: &Option<FieldRules>) -> (k: Option<RuleKind>)
    ensures
        k == flag_misfit_b(*p, *t),
{
    if p.sint32.is_some() && !rules_fit(t, RuleKind::Sint32) {
        return Some(RuleKind::Sint32);
    }
    if p.sint64.is_some() && !rules_fit(t, RuleKind::Sint64) {
        return Some(RuleKind::Sint64);
    }
    if p.fixed32.is_some() && !rules_fit(t, RuleKind::Fixed32) {
        return Some(RuleKind::Fixed32);
    }
    if p.fixed64.is_some() && !rules_fit(t, RuleKind::Fixed64) {
        return Some(RuleKind::Fixed64);
    }
    if p.sfixed32.is_some() && !rules_fit(t, RuleKind::Sfixed32) {
        return Some(RuleKind::Sfixed32);
    }
    if p.sfixed64.is_some() && !rules_fit(t, RuleKind::Sfixed64) {
        return Some(RuleKind::Sfixed64);
    }
    if p.float.is_some() && !rules_fit(t, RuleKind::Float) {
        return Some(RuleKind::Float);
    }
    if p.double.is_some() && !rules_fit(t, RuleKind::Double) {
        return Some(RuleKind::Double);
    }
    None
}

fn single_misfit_of(
    p: &ProstField,
    map: bool,
    typ: &Vec<char>,
    message: &Option<MessageRules>,
    t: &Option<FieldRules>,
) -> (k: Option<RuleKind>)
    ensures
        k == single_misfit(*p, map, typ@, *message, *t),
{
    if map {
        return None;
    }
    if p.message.is_none() && message.is_some() {
        return Some(RuleKind::Message);
    }
    if p.message.is_some() {
        if let Some(k) = typ_kind_of(typ) {
            if !rules_fit(t, k) {
                return Some(k);
            }
        }
    }
    let ka = flag_misfit_a_of(p, t);
    if ka.is_some() {
        return ka;
    }
    flag_misfit_b_of(p, t)
}

/// A field of a message type as the derive reads it.
#[derive(Debug)]
pub struct Field {
    /// The field's name, absent for an unnamed field.
    pub ident: Option<String>,
    /// The field's Rust type as written.
    pub ty: Option<String>,
    /// The `validate` attribute.
    pub validation: FieldValidation,
    /// The `prost` attribute.
    pub prost: ProstField,
    /// The field is a variant of a oneof enum.
    pub oneof: bool,
    /// The field is a map.
    pub map: bool,
    /// The module that holds the message types.
    pub module: Option<String>,
}

/// The type of a field written without spaces (empty without a type).
pub open spec fn typ_of(ty: Option<String>) -> Seq<char> {
    match ty {
        Some(t) => without_spaces(t@),
        None => Seq::empty(),
    }
}

fn typ_text(ty: &Option<String>) -> (r: Vec<char>)
    ensures
        r@ == typ_of(*ty),
{
    match ty {
        Some(t) => remove_spaces(&chars_of(t.as_str())),
        None => Vec::new(),
    }
}

/// The name of a field for error messages: its identifier, or nothing.
pub open spec fn ident_name(ident: Option<String>) -> Seq<char> {
    match ident {
        Some(i) => i@,
        None => Seq::empty(),
    }
}

/// The kind of field whose rules `f` carries but does not fit, if any: a
/// repeated field with rules other than repeated rules, then, for the items
/// of a repeated field or for any other field, `single_misfit`.
pub open spec fn field_misfit(f: Field) -> Option<RuleKind> {
    let typ = typ_of(f.ty);
    if f.prost.repeated && f.validation.type_ is Some && !(f.validation.type_->0 is Repeated) {
        Some(RuleKind::Repeated)
    } else if f.prost.repeated && f.validation.type_ is Some {
        match f.validation.type_ {
            Some(FieldRules::Repeated(r)) => match r.items {
                Some(items) => single_misfit(f.prost, f.map, typ, items.message, items.type_),
                None => None,
            },
            _ => None,
        }
    } else {
        single_misfit(f.prost, f.map, typ, f.validation.message, f.validation.type_)
    }
}

impl Field {
    /// Checks that the rules of the field fit its type, naming the kind of
    /// field they do not fit.
    pub fn validate(&self) -> (res: Result<(), RuleMismatch>)
        ensures
            match field_misfit(*self) {
                None => res is Ok,
                Some(k) => res matches Err(e) && e.kind == k && e.field@ == ident_name(self.ident),
            },
    {
        let name = match &self.ident {
            Some(i) => i.clone(),
            None => String::new(),
        };
        let typ = typ_text(&self.ty);
        let kind = if self.prost.repeated && self.validation.type_.is_some() && !rules_fit(
            &self.validation.type_,
            RuleKind::Repeated,
        ) {
            Some(RuleKind::Repeated)
        } else if self.prost.repeated && self.validation.type_.is_some() {
            match &self.validation.type_ {
                Some(FieldRules::Repeated(r)) => match &r.items {
                    Some(items) => single_misfit_of(
                        &self.prost,
                        self.map,
                        &typ,
                        &items.message,
                        &items.type_,
                    ),
                    None => None,
                },
                _ => None,
            }
        } else {
            single_misfit_of(&self.prost, self.map, &typ, &self.validation.message, &self.validation.type_)
        };
        match kind {
            None => Ok(()),
            Some(k) => Err(RuleMismatch { field: name, kind: k }),
        }
    }
}

// ---------------------------------------------------------------- well-known types

/// The paths under which the well-known types are found.
pub open spec fn wkt_prefix(i: int) -> Seq<char> {
    if i == 0 {
        "::prost_types::"@
    } else if i == 1 {
        "::pbjson_types::"@
    } else {
        "::google::protobuf::"@
    }
}

/// The well-known types: first those checked by rules of their own, then
/// the wrappers of scalars.
pub open spec fn wkt_name(j: int) -> Seq<char> {
    if j == 0 {
        "Timestamp"@
    } else if j == 1 {
        "Duration"@
    } else if j == 2 {
        "Any"@
    } else if j == 3 {
        "StringValue"@
    } else if j == 4 {
        "BytesValue"@
    } else if j == 5 {
        "BoolValue"@
    } else if j == 6 {
        "UInt64Value"@
    } else if j == 7 {
        "UInt32Value"@
    } else if j == 8 {
        "Int64Value"@
    } else if j == 9 {
        "Int32Value"@
    } else if j == 10 {
        "DoubleValue"@
    } else {
        "FloatValue"@
    }
}

/// The position of the first wrapper among the well-known type names.
pub open spec fn first_wrapper() -> int {
    3
}

/// The number of well-known type names.
pub open spec fn wkt_count() -> int {
    12
}

/// The type `typ` (without spaces) is an optional well-known type whose
/// name is among positions `from` to the last of `wkt_name`.
pub open spec fn optional_wkt_from(typ: Seq<char>, from: int) -> bool {
    exists|i: int, j: int|
        0 <= i < 3 && from <= j < wkt_count() && typ == "::core::option::Option<"@
            + #[trigger] wkt_prefix(i) + #[trigger] wkt_name(j) + ">"@
}

fn wkt_prefix_str(i: usize) -> (s: &'static str)
    ensures
        s@ == wkt_prefix(i as int),
{
    if i == 0 {
        "::prost_types::"
    } else if i == 1 {
        "::pbjson_types::"
    } else {
        "::google::protobuf::"
    }
}

fn wkt_name_str(j: usize) -> (s: &'static str)
    ensures
        s@ == wkt_name(j as int),
{
    if j == 0 {
        "Timestamp"
    } else if j == 1 {
        "Duration"
    } else if j == 2 {
        "Any"
    } else if j == 3 {
        "StringValue"
    } else if j == 4 {
        "BytesValue"
    } else if j == 5 {
        "BoolValue"
    } else if j == 6 {
        "UInt64Value"
    } else if j == 7 {
        "UInt32Value"
    } else if j == 8 {
        "Int64Value"
    } else if j == 9 {
        "Int32Value"
    } else if j == 10 {
        "DoubleValue"
    } else {
        "FloatValue"
    }
}

/// `a` followed by `b`.
fn concat_chars(a: &Vec<char>, b: &Vec<char>) -> (r: Vec<char>)
    ensures
        r@ == a@ + b@,
{
    let mut r = crate::number::copy_vec(a);
    let mut i: usize = 0;
    while i < b.len()
        invariant
            i <= b@.len(),
            r@ == a@ + b@.subrange(0, i as int),
        decreases b@.len() - i,
    {
        r.push(b[i]);
        i = i + 1;
        assert(r@ =~= a@ + b@.subrange(0, i as int));
    }
    assert(b@.subrange(0, b@.len() as int) =~= b@);
    r
}

/// Whether `typ` is an optional well-known type named from position
/// `from` on.
fn is_optional_wkt(typ: &Vec<char>, from: usize) -> (b: bool)
    requires
        from <= 12,
    ensures
        b == optional_wkt_from(typ@, from as int),
{
    let open = chars_of("::core::option::Option<");
    let close = chars_of(">");
    let mut i: usize = 0;
    while i < 3
        invariant
            i <= 3,
            from <= 12,
            open@ == "::core::option::Option<"@,
            close@ == ">"@,
            forall|a: int, c: int|
                0 <= a < i && from <= c < 12 ==> typ@ != "::core::option::Option<"@
                    + #[trigger] wkt_prefix(a) + #[trigger] wkt_name(c) + ">"@,
        decreases 3 - i,
    {
        let mut j: usize = from;
        while j < 12
            invariant
                i < 3,
                from <= j <= 12,
                open@ == "::core::option::Option<"@,
                close@ == ">"@,
                forall|a: int, c: int|
                    0 <= a < i && from <= c < 12 ==> typ@ != "::core::option::Option<"@
                        + #[trigger] wkt_prefix(a) + #[trigger] wkt_name(c) + ">"@,
                forall|c: int|
                    from <= c < j ==> typ@ != "::core::option::Option<"@ + wkt_prefix(i as int)
                        + #[trigger] wkt_name(c) + ">"@,
            decreases 12 - j,
        {
            let cand = concat_chars(
                &concat_chars(
                    &concat_chars(&open, &chars_of(wkt_prefix_str(i))),
                    &chars_of(wkt_name_str(j)),
                ),
                &close,
            );
            if equal_vecs(typ, &cand) {
                assert(optional_wkt_from(typ@, from as int)) by {
                    assert(typ@ == "::core::option::Option<"@ + wkt_prefix(i as int) + wkt_name(
                        j as int,
                    ) + ">"@);
                }
                return true;
            }
            j = j + 1;
        }
        i = i + 1;
    }
    false
}

/// The rules a map field gets when it has none.
pub open spec fn default_map_rules() -> MapRules {
    MapRules {
        min_pairs: None,
        max_pairs: None,
        no_sparse: None,
        keys: None,
        values: None,
        ignore_empty: false,
    }
}

/// The rules a repeated message field gets when it has none.
pub open spec fn default_repeated_rules() -> RepeatedRules {
    RepeatedRules { min_items: None, max_items: None, unique: None, items: None, ignore_empty: false }
}

/// The type rules a field gets when its attribute gives neither type rules
/// nor message rules: map rules for a map, message rules for a singular
/// message that is not a well-known type, repeated rules for a repeated
/// one, oneof rules for a oneof; none otherwise.
pub open spec fn implied_rules(
    prost: ProstField,
    typ: Seq<char>,
    map: bool,
    given: Option<FieldRules>,
    message: Option<MessageRules>,
) -> Option<FieldRules> {
    if given is None && message is None {
        if map {
            Some(FieldRules::Mapping(default_map_rules()))
        } else if prost.message is Some && !prost.repeated && !optional_wkt_from(typ, 0) {
            Some(FieldRules::Message(MessageRules { skip: false, required: false }))
        } else if prost.message is Some && !optional_wkt_from(typ, 0) {
            Some(FieldRules::Repeated(Box::new(default_repeated_rules())))
        } else if prost.oneof is Some {
            Some(FieldRules::OneOf(OneOfRules { required: false }))
        } else {
            None
        }
    } else {
        given
    }
}

impl Field {
    /// A field with the given parts, whose rules default as
    /// `implied_rules` states when its attribute gives none.
    pub fn new(
        ident: Option<String>,
        ty: Option<String>,
        prost: ProstField,
        validation: FieldValidation,
        map: Option<(String, String)>,
        oneof: bool,
    ) -> (f: Field)
        ensures
            f.ident == ident,
            f.ty == ty,
            f.prost == prost,
            f.oneof == oneof,
            f.map == map is Some,
            f.module is None,
            f.validation.name == validation.name,
            f.validation.required == validation.required,
            f.validation.optional == validation.optional,
            f.validation.repeated == validation.repeated,
            f.validation.message == validation.message,
            f.validation.type_ == implied_rules(
                prost,
                typ_of(ty),
                map is Some,
                validation.type_,
                validation.message,
            ),
    {
        let typ = typ_text(&ty);
        let mut validation = validation;
        if validation.type_.is_none() && validation.message.is_none() {
            if map.is_some() {
                validation.type_ = Some(
                    FieldRules::Mapping(
                        MapRules {
                            min_pairs: None,
                            max_pairs: None,
                            no_sparse: None,
                            keys: None,
                            values: None,
                            ignore_empty: false,
                        },
                    ),
                );
            } else if prost.message.is_some() && !prost.repeated && !is_optional_wkt(&typ, 0) {
                validation.type_ = Some(FieldRules::Message(MessageRules { skip: false, required: false }));
            } else if prost.message.is_some() && !is_optional_wkt(&typ, 0) {
                validation.type_ = Some(
                    FieldRules::Repeated(
                        Box::new(
                            RepeatedRules {
                                min_items: None,
                                max_items: None,
                                unique: None,
                                items: None,
                                ignore_empty: false,
                            },
                        ),
                    ),
                );
            } else if prost.oneof.is_some() {
                validation.type_ = Some(FieldRules::OneOf(OneOfRules { required: false }));
            }
        }
        Field { ident, ty, prost, validation, oneof, map: map.is_some(), module: None }
    }

    /// The field is an optional well-known type.
    pub open spec fn spec_is_wkt(&self) -> bool {
        self.prost.message == Some(true) && optional_wkt_from(typ_of(self.ty), 0)
    }

    /// The field is an optional wrapper of a scalar.
    pub open spec fn spec_is_wrapper(&self) -> bool {
        self.prost.message == Some(true) && optional_wkt_from(typ_of(self.ty), first_wrapper())
    }

    /// Whether the field is an optional well-known type.
    pub fn is_wkt(&self) -> (b: bool)
        ensures
            b == self.spec_is_wkt(),
    {
        self.prost.message == Some(true) && is_optional_wkt(&typ_text(&self.ty), 0)
    }

    /// Whether the field is an optional wrapper of a scalar.
    pub fn is_wrapper(&self) -> (b: bool)
        ensures
            b == self.spec_is_wrapper(),
    {
        self.prost.message == Some(true) && is_optional_wkt(&typ_text(&self.ty), 3)
    }

    /// Whether the field is a wrapper of a scalar from `prost_types`: a
    /// wrapper whose type names neither `pbjson_types` nor
    /// `google::protobuf`.
    pub fn is_prost_types(&self) -> (b: bool)
        ensures
            b == (self.spec_is_wrapper() && !contains_sub(typ_of(self.ty), "::pbjson_types::"@)
                && !contains_sub(typ_of(self.ty), "::google::protobuf::"@)),
    {
        if self.is_wrapper() {
            let typ = typ_text(&self.ty);
            !contains(&typ, &chars_of("::pbjson_types::")) && !contains(
                &typ,
                &chars_of("::google::protobuf::"),
            )
        } else {
            false
        }
    }
}

/// Calling a function only when a flag is set.
pub trait IsTrueAnd<F: Fn() -> T, T> {
    /// `Some` of what `f` returns when the flag is set, `None` otherwise.
    fn is_true_and(&self, f: F) -> Option<T>
        requires
            f.requires(()),
    ;
}

impl<F: Fn() -> T, T> IsTrueAnd<F, T> for Option<bool> {
    fn is_true_and(&self, f: F) -> (r: Option<T>)
        ensures
            r is Some <==> *self == Some(true),
            r matches Some(x) ==> f.ensures((), x),
    {
        if *self == Some(true) {
            Some(f())
        } else {
            None
        }
    }
}

} // verus!
