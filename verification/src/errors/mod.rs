//! Errors reported when a value breaks one of its validation rules.
pub mod any;
pub mod boolean;
pub mod bytes;
pub mod enumeration;
pub mod number;
pub mod string;
pub mod timestamp;

use vstd::prelude::*;
use crate::wkt::Duration;

verus! {

/// The rule that a field's value breaks.
#[derive(Debug, PartialEq, Eq)]
pub enum Error {
    /// A string rule.
    String(string::Error),
    /// An int32 rule.
    Int32(number::Error<i32>),
    /// An int64 rule.
    Int64(number::Error<i64>),
    /// A uint32 rule.
    Uint32(number::Error<u32>),
    /// A uint64 rule.
    Uint64(number::Error<u64>),
    /// A sint32 rule.
    Sint32(number::Error<i32>),
    /// A sint64 rule.
    Sint64(number::Error<i64>),
    /// A fixed32 rule.
    Fixed32(number::Error<u32>),
    /// A fixed64 rule.
    Fixed64(number::Error<u64>),
    /// A sfixed32 rule.
    Sfixed32(number::Error<i32>),
    /// A sfixed64 rule.
    Sfixed64(number::Error<i64>),
    /// A bytes rule.
    Bytes(bytes::Error),
    /// A bool rule.
    Bool(boolean::Error),
    /// An enum rule.
    Enum(enumeration::Error),
    /// A `google.protobuf.Any` rule.
    Any(any::Error),
    /// A `google.protobuf.Duration` rule.
    Duration(number::Error<Duration>),
    /// A `google.protobuf.Timestamp` rule.
    Timestamp(timestamp::Error),
    /// The field must be set.
    Required,
    /// The list holds fewer items than this.
    MinItems(u64),
    /// The list holds more items than this.
    MaxItems(u64),
    /// Two items of the list are equal.
    Unique,
    /// The item at this position breaks a rule.
    Item(usize, Box<Error>),
    /// The map holds fewer entries than this.
    MinPairs(u64),
    /// The map holds more entries than this.
    MaxPairs(u64),
    /// The key of the entry at this position breaks a rule.
    Key(usize, Box<Error>),
    /// The value of the entry at this position breaks a rule.
    Value(usize, Box<Error>),
    /// The value of the entry at this position is a default value.
    NoSparse(usize),
    /// The nested message breaks a rule.
    Message(Box<Violation>),
    /// None of the fields of the oneof is set.
    OneofNotSet,
    /// Several fields of the oneof are set.
    OneofMultiple,
}

/// A field, or a oneof, that breaks one of its rules.
#[derive(Debug, PartialEq, Eq)]
pub struct Violation {
    /// The full name of the field or oneof; for an item of a list, followed
    /// by its position in brackets, and for an entry of a map, by the
    /// `Debug` rendering of the text of its key in brackets.
    pub field: String,
    /// The rule it breaks.
    pub error: Error,
}

} // verus!
