//! Rules on string fields.
use vstd::prelude::*;
use vstd::utf8::encode_utf8;
use crate::errors::string::Error;
use crate::formats::{
    email_valid, header_name_valid, header_value_valid, hostname_valid,
    ipv4_valid, ipv6_valid, is_email, is_header_name, is_header_value,
    is_hostname, is_ip, is_ipv4, is_ipv6, is_uri, is_uri_ref, is_uuid, uri_ref_valid,
    uri_valid, uuid_valid,
};
use crate::pattern::{regex_compile_error, regex_compiles, regex_is_match, regex_matches};
use crate::text::{chars_of, contains, contains_sub, ends_with, is_prefix, is_suffix, starts_with};

verus! {

/// The regular expressions that `well_known_regex` can name.
#[derive(Debug, Clone, Copy, PartialEq, Eq)]
pub enum KnownRegex {
    /// No known expression.
    Unknown,
    /// The name of an HTTP header.
    HttpHeaderName,
    /// The value of an HTTP header.
    HttpHeaderValue,
}

impl KnownRegex {
    /// The expression a `well_known_regex` number names.
    pub open spec fn spec_from_number(v: i32) -> KnownRegex {
        if v == 1 {
            KnownRegex::HttpHeaderName
        } else if v == 2 {
            KnownRegex::HttpHeaderValue
        } else {
            KnownRegex::Unknown
        }
    }

    /// The expression a `well_known_regex` number names.
    pub fn from_number(v: i32) -> (k: KnownRegex)
        ensures
            k == KnownRegex::spec_from_number(v),
    {
        if v == 1 {
            KnownRegex::HttpHeaderName
        } else if v == 2 {
            KnownRegex::HttpHeaderValue
        } else {
            KnownRegex::Unknown
        }
    }
}

/// A well-known format the string must have; each applies only when its
/// flag is set.
#[derive(Debug, Clone, Copy, PartialEq, Eq)]
pub enum WellKnown {
    /// An email address.
    Email(bool),
    /// A hostname.
    Hostname(bool),
    /// An IPv4 or IPv6 address.
    Ip(bool),
    /// An IPv4 address.
    Ipv4(bool),
    /// An IPv6 address.
    Ipv6(bool),
    /// An absolute URI.
    Uri(bool),
    /// A URI reference, absolute or relative.
    UriRef(bool),
    /// An IP address or a hostname.
    Address(bool),
    /// A UUID.
    Uuid(bool),
    /// One of the known regular expressions, by number.
    WellKnownRegex(i32),
}

/// The rules of a string field.
#[derive(Debug, Clone)]
pub struct StringRules {
    /// The value must equal this string.
    pub const_: Option<String>,
    /// The value must have exactly this many characters.
    pub len: Option<u64>,
    /// The value must have at least this many characters.
    pub min_len: Option<u64>,
    /// The value must have at most this many characters.
    pub max_len: Option<u64>,
    /// The UTF-8 encoding of the value must have exactly this many bytes.
    pub len_bytes: Option<u64>,
    /// The UTF-8 encoding of the value must have at least this many bytes.
    pub min_bytes: Option<u64>,
    /// The UTF-8 encoding of the value must have at most this many bytes.
    pub max_bytes: Option<u64>,
    /// The value must match this regular expression.
    pub pattern: Option<String>,
    /// The value must start with this string.
    pub prefix: Option<String>,
    /// The value must end with this string.
    pub suffix: Option<String>,
    /// The value must contain this string.
    pub contains: Option<String>,
    /// The value must not contain this string.
    pub not_contains: Option<String>,
    /// When not empty, the value must be one of these.
    pub in_: Vec<String>,
    /// The value must not be one of these.
    pub not_in: Vec<String>,
    /// Whether the header formats are checked strictly (the default).
    pub strict: Option<bool>,
    /// An empty value passes without any other check.
    pub ignore_empty: bool,
    /// A well-known format the value must have.
    pub well_known: Option<WellKnown>,
}

/// Whether the header formats of `r` are checked strictly.
pub open spec fn strict_of(r: StringRules) -> bool {
    match r.strict {
        Some(b) => b,
        None => true,
    }
}

/// The number of bytes of the UTF-8 encoding of `s`.
pub open spec fn utf8_len(s: Seq<char>) -> nat {
    encode_utf8(s).len()
}

/// `v` is one of the strings of `l`.
pub open spec fn text_in(v: Seq<char>, l: Seq<String>) -> bool {
    exists|i: int| 0 <= i < l.len() && (#[trigger] l[i])@ == v
}

/// The error that the well-known format `wk` reports for `v`, if `v` does
/// not have it.
pub open spec fn well_known_error(v: Seq<char>, wk: WellKnown, strict: bool) -> Option<Error> {
    match wk {
        WellKnown::Email(true) => if email_valid(v) { None } else { Some(Error::Email) },
        WellKnown::Hostname(true) => if hostname_valid(v) { None } else { Some(Error::Hostname) },
        WellKnown::Ip(true) => if ipv4_valid(v) || ipv6_valid(v) { None } else { Some(Error::Ip) },
        WellKnown::Ipv4(true) => if ipv4_valid(v) { None } else { Some(Error::Ipv4) },
        WellKnown::Ipv6(true) => if ipv6_valid(v) { None } else { Some(Error::Ipv6) },
        WellKnown::Uri(true) => if uri_valid(v) { None } else { Some(Error::Uri) },
        WellKnown::UriRef(true) => if uri_ref_valid(v) { None } else { Some(Error::UriRef) },
        WellKnown::Address(true) => if ipv4_valid(v) || ipv6_valid(v) || hostname_valid(v) {
            None
        } else {
            Some(Error::Address)
        },
        WellKnown::Uuid(true) => if uuid_valid(v) { None } else { Some(Error::Uuid) },
        WellKnown::WellKnownRegex(n) => match KnownRegex::spec_from_number(n) {
            KnownRegex::HttpHeaderName => if header_name_valid(v, strict) {
                None
            } else {
                Some(Error::HttpHeaderName)
            },
            KnownRegex::HttpHeaderValue => if header_value_valid(v, strict) {
                None
            } else {
                Some(Error::HttpHeaderValue)
            },
            KnownRegex::Unknown => None,
        },
        _ => None,
    }
}

/// The error that the length rules of `r` report for `v`, if any: exact,
/// minimum and maximum numbers of characters, then of UTF-8 bytes.
pub open spec fn length_error(v: Seq<char>, r: StringRules) -> Option<Error> {
    if r.len is Some && v.len() != r.len->0 {
        Some(Error::Len(r.len->0))
    } else if r.min_len is Some && v.len() < r.min_len->0 {
        Some(Error::MinLen(r.min_len->0))
    } else if r.max_len is Some && v.len() > r.max_len->0 {
        Some(Error::MaxLen(r.max_len->0))
    } else if r.len_bytes is Some && utf8_len(v) != r.len_bytes->0 {
        Some(Error::LenBytes(r.len_bytes->0))
    } else if r.min_bytes is Some && utf8_len(v) < r.min_bytes->0 {
        Some(Error::MinLenBytes(r.min_bytes->0))
    } else if r.max_bytes is Some && utf8_len(v) > r.max_bytes->0 {
        Some(Error::MaxLenBytes(r.max_bytes->0))
    } else {
        None
    }
}

/// The pattern of `r` is given and is not a valid regular expression.
pub open spec fn pattern_invalid(r: StringRules) -> bool {
    r.pattern is Some && !regex_compiles(r.pattern->0@)
}

/// `e` is the error reported for the invalid pattern of `r`: the pattern
/// error, carrying the message of the regular-expression compiler.
pub open spec fn pattern_invalid_error(r: StringRules, e: Error) -> bool {
    e matches Error::Pattern(t) && regex_compile_error(r.pattern->0@) == Some(t@)
}

/// The error that the pattern and substring rules of `r` report for `v`,
/// if any, in the order pattern, prefix, suffix, contains, not contains,
/// when the pattern, if given, is a valid regular expression.
pub open spec fn content_error(v: Seq<char>, r: StringRules) -> Option<Error> {
    if r.pattern is Some && !regex_matches(r.pattern->0@, v) {
        Some(Error::Pattern(r.pattern->0))
    } else if r.prefix is Some && !is_prefix(r.prefix->0@, v) {
        Some(Error::Prefix(r.prefix->0))
    } else if r.suffix is Some && !is_suffix(r.suffix->0@, v) {
        Some(Error::Suffix(r.suffix->0))
    } else if r.contains is Some && !contains_sub(v, r.contains->0@) {
        Some(Error::Contains(r.contains->0))
    } else if r.not_contains is Some && contains_sub(v, r.not_contains->0@) {
        Some(Error::NotContains(r.not_contains->0))
    } else {
        None
    }
}

/// The outcome of validating `v` against `r`: an empty value under
/// `ignore_empty` passes; otherwise the first rule that fails is reported,
/// in the order constant, lengths, content, allowed values, forbidden
/// values, well-known format.
pub open spec fn string_outcome(v: Seq<char>, r: StringRules, res: Result<(), Error>) -> bool {
    if r.ignore_empty && v.len() == 0 {
        res is Ok
    } else if r.const_ is Some && v != r.const_->0@ {
        res == Err::<(), Error>(Error::Const(r.const_->0))
    } else if length_error(v, r) is Some {
        res == Err::<(), Error>(length_error(v, r)->0)
    } else if pattern_invalid(r) {
        (res matches Err(e) && pattern_invalid_error(r, e))
    } else if content_error(v, r) is Some {
        res == Err::<(), Error>(content_error(v, r)->0)
    } else if r.in_@.len() > 0 && !text_in(v, r.in_@) {
        res matches Err(Error::In(l)) && l@ == r.in_@
    } else if text_in(v, r.not_in@) {
        res matches Err(Error::NotIn(l)) && l@ == r.not_in@
    } else if r.well_known is Some && well_known_error(v, r.well_known->0, strict_of(r)) is Some {
        res == Err::<(), Error>(well_known_error(v, r.well_known->0, strict_of(r))->0)
    } else {
        res is Ok
    }
}

/// Whether `v` satisfies every rule of `r`.
pub open spec fn string_valid(v: Seq<char>, r: StringRules) -> bool {
    ||| r.ignore_empty && v.len() == 0
    ||| {
        &&& (r.const_ matches Some(c) ==> v == c@)
        &&& length_error(v, r) is None
        &&& !pattern_invalid(r)
        &&& content_error(v, r) is None
        &&& (r.in_@.len() > 0 ==> text_in(v, r.in_@))
        &&& !text_in(v, r.not_in@)
        &&& (r.well_known matches Some(wk) ==> well_known_error(v, wk, strict_of(r)) is None)
    }
}

/// A copy of a list of strings.
pub fn copy_strings(l: &Vec<String>) -> (r: Vec<String>)
    ensures
        r@ == l@,
{
    let mut r: Vec<String> = Vec::new();
    let mut i: usize = 0;
    while i < l.len()
        invariant
            i <= l@.len(),
            r@ == l@.subrange(0, i as int),
        decreases l@.len() - i,
    {
        r.push(l[i].clone());
        i = i + 1;
        assert(r@ =~= l@.subrange(0, i as int));
    }
    assert(r@ =~= l@);
    r
}

/// Whether `v` is one of the strings of `l`.
pub fn string_in(l: &Vec<String>, v: &String) -> (b: bool)
    ensures
        b == text_in(v@, l@),
{
    let mut i: usize = 0;
    while i < l.len()
        invariant
            i <= l@.len(),
            forall|j: int| 0 <= j < i ==> (#[trigger] l@[j])@ != v@,
        decreases l@.len() - i,
    {
        if l[i] == *v {
            assert(l@[i as int]@ == v@);
            return true;
        }
        i = i + 1;
    }
    false
}

/// Checks the well-known format `wk` on the characters `chars`.
fn check_well_known(chars: &Vec<char>, wk: WellKnown, strict: bool) -> (e: Option<Error>)
    ensures
        e == well_known_error(chars@, wk, strict),
{
    match wk {
        WellKnown::Email(true) => if is_email(chars) { None } else { Some(Error::Email) },
        WellKnown::Hostname(true) => if is_hostname(chars) { None } else { Some(Error::Hostname) },
        WellKnown::Ip(true) => if is_ip(chars) { None } else { Some(Error::Ip) },
        WellKnown::Ipv4(true) => if is_ipv4(chars) { None } else { Some(Error::Ipv4) },
        WellKnown::Ipv6(true) => if is_ipv6(chars) { None } else { Some(Error::Ipv6) },
        WellKnown::Uri(true) => if is_uri(chars) { None } else { Some(Error::Uri) },
        WellKnown::UriRef(true) => if is_uri_ref(chars) { None } else { Some(Error::UriRef) },
        WellKnown::Address(true) => if is_ip(chars) || is_hostname(chars) {
            None
        } else {
            Some(Error::Address)
        },
        WellKnown::Uuid(true) => if is_uuid(chars) { None } else { Some(Error::Uuid) },
        WellKnown::WellKnownRegex(n) => match KnownRegex::from_number(n) {
            KnownRegex::HttpHeaderName => if is_header_name(chars, strict) {
                None
            } else {
                Some(Error::HttpHeaderName)
            },
            KnownRegex::HttpHeaderValue => if is_header_value(chars, strict) {
                None
            } else {
                Some(Error::HttpHeaderValue)
            },
            KnownRegex::Unknown => None,
        },
        _ => None,
    }
}

/// Checks the length rules of `r` on `v`, whose characters are `chars`.
fn check_lengths(v: &String, chars: &Vec<char>, r: &StringRules) -> (e: Option<Error>)
    requires
        chars@ == v@,
    ensures
        e == length_error(v@, *r),
{
    let n = chars.len() as u64;
    let nb = v.as_str().as_bytes().len() as u64;
    assert(nb == utf8_len(v@));
    if let Some(m) = r.len {
        if n != m {
            return Some(Error::Len(m));
        }
    }
    if let Some(m) = r.min_len {
        if n < m {
            return Some(Error::MinLen(m));
        }
    }
    if let Some(m) = r.max_len {
        if n > m {
            return Some(Error::MaxLen(m));
        }
    }
    if let Some(m) = r.len_bytes {
        if nb != m {
            return Some(Error::LenBytes(m));
        }
    }
    if let Some(m) = r.min_bytes {
        if nb < m {
            return Some(Error::MinLenBytes(m));
        }
    }
    if let Some(m) = r.max_bytes {
        if nb > m {
            return Some(Error::MaxLenBytes(m));
        }
    }
    None
}

/// Checks the pattern and substring rules of `r` on `v`, whose characters
/// are `chars`.
fn check_content(v: &String, chars: &Vec<char>, r: &StringRules) -> (e: Option<Error>)
    requires
        chars@ == v@,
    ensures
        pattern_invalid(*r) ==> (e matches Some(x) && pattern_invalid_error(*r, x)),
        !pattern_invalid(*r) ==> e == content_error(v@, *r),
{
    if let Some(p) = &r.pattern {
        match regex_is_match(p.as_str(), v.as_str()) {
            Err(msg) => {
                return Some(Error::Pattern(msg));
            },
            Ok(false) => {
                return Some(Error::Pattern(p.clone()));
            },
            Ok(true) => {},
        }
    }
    if let Some(p) = &r.prefix {
        if !starts_with(chars, &chars_of(p.as_str())) {
            return Some(Error::Prefix(p.clone()));
        }
    }
    if let Some(p) = &r.suffix {
        if !ends_with(chars, &chars_of(p.as_str())) {
            return Some(Error::Suffix(p.clone()));
        }
    }
    if let Some(p) = &r.contains {
        if !contains(chars, &chars_of(p.as_str())) {
            return Some(Error::Contains(p.clone()));
        }
    }
    if let Some(p) = &r.not_contains {
        if contains(chars, &chars_of(p.as_str())) {
            return Some(Error::NotContains(p.clone()));
        }
    }
    None
}

/// Validates a string against its rules: an empty value under
/// `ignore_empty` passes; otherwise the first rule that fails is reported,
/// in the order constant, lengths, pattern, prefix, suffix, contains, not
/// contains, allowed values, forbidden values, well-known format.
pub fn validate_string(v: &String, r: &StringRules) -> (res: Result<(), Error>)
    ensures
        string_outcome(v@, *r, res),
        res is Ok <==> string_valid(v@, *r),
{
    let chars = chars_of(v.as_str());
    if r.ignore_empty && chars.len() == 0 {
        return Ok(());
    }
    if let Some(c) = &r.const_ {
        if *v != *c {
            return Err(Error::Const(c.clone()));
        }
    }
    if let Some(e) = check_lengths(v, &chars, r) {
        return Err(e);
    }
    if let Some(e) = check_content(v, &chars, r) {
        return Err(e);
    }
    if r.in_.len() > 0 && !string_in(&r.in_, v) {
        return Err(Error::In(copy_strings(&r.in_)));
    }
    if string_in(&r.not_in, v) {
        return Err(Error::NotIn(copy_strings(&r.not_in)));
    }
    if let Some(wk) = r.well_known {
        let strict = match r.strict {
            Some(b) => b,
            None => true,
        };
        if let Some(e) = check_well_known(&chars, wk, strict) {
            return Err(e);
        }
    }
    Ok(())
}

} // verus!
