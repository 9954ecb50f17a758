use vstd::prelude::*;

verus! {

/// Violation of the rules of a bytes field.
#[derive(Debug, Clone, PartialEq, Eq)]
pub enum Error {
    /// The value differs from the required constant.
    Const(Vec<u8>),
    /// The value does not have exactly this many bytes.
    Len(u64),
    /// The value has fewer bytes than this.
    MinLen(u64),
    /// The value has more bytes than this.
    MaxLen(u64),
    /// The pattern is not a valid regular expression.
    InvalidPattern(String),
    /// The value does not match the pattern.
    Pattern(String),
    /// The value does not start with these bytes.
    Prefix(Vec<u8>),
    /// The value does not end with these bytes.
    Suffix(Vec<u8>),
    /// The value does not contain these bytes.
    Contains(Vec<u8>),
    /// The value is not one of these.
    In(Vec<Vec<u8>>),
    /// The value is one of these.
    NotIn(Vec<Vec<u8>>),
    /// The value is not an IP address (4 or 16 bytes).
    Ip,
    /// The value is not an IPv4 address (4 bytes).
    Ipv4,
    /// The value is not an IPv6 address (16 bytes).
    Ipv6,
}

} // verus!
