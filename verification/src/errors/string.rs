use vstd::prelude::*;

verus! {

/// Violation of the rules of a string field.
#[derive(Debug, Clone, PartialEq, Eq)]
pub enum Error {
    /// The value differs from the required constant.
    Const(String),
    /// The value does not have exactly this many characters.
    Len(u64),
    /// The value has fewer characters than this.
    MinLen(u64),
    /// The value has more characters than this.
    MaxLen(u64),
    /// The value's UTF-8 encoding does not have exactly this many bytes.
    LenBytes(u64),
    /// The value's UTF-8 encoding has fewer bytes than this.
    MinLenBytes(u64),
    /// The value's UTF-8 encoding has more bytes than this.
    MaxLenBytes(u64),
    /// The value does not match the pattern; or, when the pattern is not a
    /// valid regular expression, the message of the compiler's error.
    Pattern(String),
    /// The value does not start with this prefix.
    Prefix(String),
    /// The value does not end with this suffix.
    Suffix(String),
    /// The value does not contain this substring.
    Contains(String),
    /// The value contains this substring.
    NotContains(String),
    /// The value is not one of the allowed values.
    In(Vec<String>),
    /// The value is one of the forbidden values.
    NotIn(Vec<String>),
    /// The value is not a valid email address.
    Email,
    /// The value is not a valid hostname.
    Hostname,
    /// The value is not a valid IP address.
    Ip,
    /// The value is not a valid IPv4 address.
    Ipv4,
    /// The value is not a valid IPv6 address.
    Ipv6,
    /// The value is not a valid absolute URI.
    Uri,
    /// The value is not a valid URI reference.
    UriRef,
    /// The value is neither a valid hostname nor a valid IP address.
    Address,
    /// The value is not a valid UUID.
    Uuid,
    /// The value is not a valid HTTP header name.
    HttpHeaderName,
    /// The value is not a valid HTTP header value.
    HttpHeaderValue,
}

} // verus!
