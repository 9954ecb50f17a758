//! Rules on bytes fields.
use vstd::prelude::*;
use crate::errors::bytes::Error;
use crate::number::copy_vec;
use crate::pattern::{bytes_regex_compiles, bytes_regex_is_match, bytes_regex_matches};
use crate::text::{contains, contains_sub, ends_with, is_prefix, is_suffix, starts_with};

verus! {

/// A well-known format the bytes must have; each applies only when its flag
/// is set.
#[derive(Debug, Clone, Copy, PartialEq, Eq)]
pub enum WellKnown {
    /// An IP address in network byte order: 4 or 16 bytes.
    Ip(bool),
    /// An IPv4 address in network byte order: 4 bytes.
    Ipv4(bool),
    /// An IPv6 address in network byte order: 16 bytes.
    Ipv6(bool),
}

/// The rules of a bytes field.
#[derive(Debug, Clone)]
pub struct BytesRules {
    /// The value must equal these bytes.
    pub const_: Option<Vec<u8>>,
    /// The value must have exactly this many bytes.
    pub len: Option<u64>,
    /// The value must have at least this many bytes.
    pub min_len: Option<u64>,
    /// The value must have at most this many bytes.
    pub max_len: Option<u64>,
    /// The value must match this regular expression over bytes.
    pub pattern: Option<String>,
    /// The value must start with these bytes.
    pub prefix: Option<Vec<u8>>,
    /// The value must end with these bytes.
    pub suffix: Option<Vec<u8>>,
    /// The value must contain these bytes.
    pub contains: Option<Vec<u8>>,
    /// When not empty, the value must be one of these.
    pub in_: Vec<Vec<u8>>,
    /// The value must not be one of these.
    pub not_in: Vec<Vec<u8>>,
    /// An empty value passes without any other check.
    pub ignore_empty: bool,
    /// A well-known format the value must have.
    pub well_known: Option<WellKnown>,
}

/// `v` is one of the byte strings of `l`.
pub open spec fn bytes_in(v: Seq<u8>, l: Seq<Vec<u8>>) -> bool {
    exists|i: int| 0 <= i < l.len() && (#[trigger] l[i])@ == v
}

/// The two lists hold the same byte strings.
pub open spec fn same_byte_lists(a: Seq<Vec<u8>>, b: Seq<Vec<u8>>) -> bool {
    a.len() == b.len() && forall|i: int| 0 <= i < a.len() ==> (#[trigger] a[i])@ == b[i]@
}

/// The error that the well-known format `wk` reports for `v`, if `v` does
/// not have it.
pub open spec fn bytes_well_known_error(v: Seq<u8>, wk: WellKnown) -> Option<Error> {
    match wk {
        WellKnown::Ip(true) => if v.len() == 4 || v.len() == 16 { None } else { Some(Error::Ip) },
        WellKnown::Ipv4(true) => if v.len() == 4 { None } else { Some(Error::Ipv4) },
        WellKnown::Ipv6(true) => if v.len() == 16 { None } else { Some(Error::Ipv6) },
        _ => None,
    }
}

/// The error that the length and pattern rules of `r` report for `v`, if
/// any, in the order exact length, minimum, maximum, pattern.
pub open spec fn bytes_shape_error(v: Seq<u8>, r: BytesRules) -> Option<Error> {
    if r.len is Some && v.len() != r.len->0 {
        Some(Error::Len(r.len->0))
    } else if r.min_len is Some && v.len() < r.min_len->0 {
        Some(Error::MinLen(r.min_len->0))
    } else if r.max_len is Some && v.len() > r.max_len->0 {
        Some(Error::MaxLen(r.max_len->0))
    } else if r.pattern is Some && !bytes_regex_compiles(r.pattern->0@) {
        Some(Error::InvalidPattern(r.pattern->0))
    } else if r.pattern is Some && !bytes_regex_matches(r.pattern->0@, v) {
        Some(Error::Pattern(r.pattern->0))
    } else {
        None
    }
}

/// The outcome of validating `v` against `r`: an empty value under
/// `ignore_empty` passes; otherwise the first rule that fails is reported,
/// in the order constant, lengths, pattern, prefix, suffix, contains,
/// allowed values, forbidden values, well-known format.
pub open spec fn bytes_outcome(v: Seq<u8>, r: BytesRules, res: Result<(), Error>) -> bool {
    if r.ignore_empty && v.len() == 0 {
        res is Ok
    } else if r.const_ is Some && v != r.const_->0@ {
        res matches Err(Error::Const(c)) && c@ == r.const_->0@
    } else if bytes_shape_error(v, r) is Some {
        res == Err::<(), Error>(bytes_shape_error(v, r)->0)
    } else if r.prefix is Some && !is_prefix(r.prefix->0@, v) {
        res matches Err(Error::Prefix(p)) && p@ == r.prefix->0@
    } else if r.suffix is Some && !is_suffix(r.suffix->0@, v) {
        res matches Err(Error::Suffix(p)) && p@ == r.suffix->0@
    } else if r.contains is Some && !contains_sub(v, r.contains->0@) {
        res matches Err(Error::Contains(p)) && p@ == r.contains->0@
    } else if r.in_@.len() > 0 && !bytes_in(v, r.in_@) {
        res matches Err(Error::In(l)) && same_byte_lists(l@, r.in_@)
    } else if bytes_in(v, r.not_in@) {
        res matches Err(Error::NotIn(l)) && same_byte_lists(l@, r.not_in@)
    } else if r.well_known is Some && bytes_well_known_error(v, r.well_known->0) is Some {
        res == Err::<(), Error>(bytes_well_known_error(v, r.well_known->0)->0)
    } else {
        res is Ok
    }
}

/// Whether `v` satisfies every rule of `r`.
pub open spec fn bytes_valid(v: Seq<u8>, r: BytesRules) -> bool {
    ||| r.ignore_empty && v.len() == 0
    ||| {
        &&& (r.const_ matches Some(c) ==> v == c@)
        &&& bytes_shape_error(v, r) is None
        &&& (r.prefix matches Some(p) ==> is_prefix(p@, v))
        &&& (r.suffix matches Some(p) ==> is_suffix(p@, v))
        &&& (r.contains matches Some(p) ==> contains_sub(v, p@))
        &&& (r.in_@.len() > 0 ==> bytes_in(v, r.in_@))
        &&& !bytes_in(v, r.not_in@)
        &&& (r.well_known matches Some(wk) ==> bytes_well_known_error(v, wk) is None)
    }
}

/// Whether the two byte strings are equal.
pub fn bytes_equal(a: &Vec<u8>, b: &Vec<u8>) -> (r: bool)
    ensures
        r == (a@ == b@),
{
    if a.len() != b.len() {
        return false;
    }
    let r = starts_with(a, b);
    assert(a@.subrange(0, b@.len() as int) =~= a@);
    r
}

/// Whether `v` is one of the byte strings of `l`.
pub fn bytes_in_list(l: &Vec<Vec<u8>>, v: &Vec<u8>) -> (b: bool)
    ensures
        b == bytes_in(v@, l@),
{
    let mut i: usize = 0;
    while i < l.len()
        invariant
            i <= l@.len(),
            forall|j: int| 0 <= j < i ==> (#[trigger] l@[j])@ != v@,
        decreases l@.len() - i,
    {
        if bytes_equal(&l[i], v) {
            assert(l@[i as int]@ == v@);
            return true;
        }
        i = i + 1;
    }
    false
}

/// A copy of a list of byte strings.
pub fn copy_byte_lists(l: &Vec<Vec<u8>>) -> (r: Vec<Vec<u8>>)
    ensures
        same_byte_lists(r@, l@),
{
    let mut r: Vec<Vec<u8>> = Vec::new();
    let mut i: usize = 0;
    while i < l.len()
        invariant
            i <= l@.len(),
            r@.len() == i,
            forall|j: int| 0 <= j < i ==> (#[trigger] r@[j])@ == l@[j]@,
        decreases l@.len() - i,
    {
        r.push(copy_vec(&l[i]));
        i = i + 1;
    }
    r
}

/// Checks the length and pattern rules of `r` on `v`.
fn check_shape(v: &Vec<u8>, r: &BytesRules) -> (e: Option<Error>)
    ensures
        e == bytes_shape_error(v@, *r),
{
    let n = v.len() as u64;
    if let Some(m) = r.len {
        if n != m {
            return Some(Error::Len(m));
        }
    }
    if let Some(m) = r.min_len {
        if n < m {
            return Some(Error::MinLen(m));
        }
    }
    if let Some(m) = r.max_len {
        if n > m {
            return Some(Error::MaxLen(m));
        }
    }
    if let Some(p) = &r.pattern {
        match bytes_regex_is_match(p.as_str(), v.as_slice()) {
            None => {
                return Some(Error::InvalidPattern(p.clone()));
            },
            Some(false) => {
                return Some(Error::Pattern(p.clone()));
            },
            Some(true) => {},
        }
    }
    None
}

/// Checks the well-known format `wk` on `v`.
fn check_bytes_well_known(v: &Vec<u8>, wk: WellKnown) -> (e: Option<Error>)
    ensures
        e == bytes_well_known_error(v@, wk),
{
    let n = v.len();
    match wk {
        WellKnown::Ip(true) => if n == 4 || n == 16 { None } else { Some(Error::Ip) },
        WellKnown::Ipv4(true) => if n == 4 { None } else { Some(Error::Ipv4) },
        WellKnown::Ipv6(true) => if n == 16 { None } else { Some(Error::Ipv6) },
        _ => None,
    }
}

/// Validates bytes against their rules: an empty value under
/// `ignore_empty` passes; otherwise the first rule that fails is reported,
/// in the order constant, lengths, pattern, prefix, suffix, contains,
/// allowed values, forbidden values, well-known format.
pub fn validate_bytes(v: &Vec<u8>, r: &BytesRules) -> (res: Result<(), Error>)
    ensures
        bytes_outcome(v@, *r, res),
        res is Ok <==> bytes_valid(v@, *r),
{
    if r.ignore_empty && v.len() == 0 {
        return Ok(());
    }
    if let Some(c) = &r.const_ {
        if !bytes_equal(v, c) {
            return Err(Error::Const(copy_vec(c)));
        }
    }
    if let Some(e) = check_shape(v, r) {
        return Err(e);
    }
    if let Some(p) = &r.prefix {
        if !starts_with(v, p) {
            return Err(Error::Prefix(copy_vec(p)));
        }
    }
    if let Some(p) = &r.suffix {
        if !ends_with(v, p) {
            return Err(Error::Suffix(copy_vec(p)));
        }
    }
    if let Some(p) = &r.contains {
        if !contains(v, p) {
            return Err(Error::Contains(copy_vec(p)));
        }
    }
    if r.in_.len() > 0 && !bytes_in_list(&r.in_, v) {
        return Err(Error::In(copy_byte_lists(&r.in_)));
    }
    if bytes_in_list(&r.not_in, v) {
        return Err(Error::NotIn(copy_byte_lists(&r.not_in)));
    }
    if let Some(wk) = r.well_known {
        if let Some(e) = check_bytes_well_known(v, wk) {
            return Err(e);
        }
    }
    Ok(())
}

} // verus!
