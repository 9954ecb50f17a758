//! Rules on bool, enum and `google.protobuf.Any` fields.
use vstd::prelude::*;
use crate::errors::any::Error as AnyError;
use crate::errors::boolean::Error as BoolError;
use crate::errors::enumeration::Error as EnumError;
use crate::number::{contains_int, copy_vec, int_in};
use crate::string::{copy_strings, string_in, text_in};

verus! {

/// The rules of a bool field.
#[derive(Debug, Clone, Copy, PartialEq, Eq)]
pub struct BoolRules {
    /// The value must equal this constant.
    pub const_: Option<bool>,
}

/// Validates a bool against its rules.
pub fn validate_bool(v: bool, r: &BoolRules) -> (res: Result<(), BoolError>)
    ensures
        res == (match r.const_ {
            Some(c) => if v == c { Ok(()) } else { Err(BoolError::Const(c)) },
            None => Ok(()),
        }),
{
    match r.const_ {
        Some(c) => if v == c { Ok(()) } else { Err(BoolError::Const(c)) },
        None => Ok(()),
    }
}

/// The rules of an enum field, on the number of the value.
#[derive(Debug, Clone)]
pub struct EnumRules {
    /// The value must equal this number.
    pub const_: Option<i32>,
    /// The value must be one that the enum defines.
    pub defined_only: Option<bool>,
    /// When not empty, the value must be one of these.
    pub in_: Vec<i32>,
    /// The value must not be one of these.
    pub not_in: Vec<i32>,
}

/// The outcome of validating the enum number `v` against `r`, where
/// `defined` lists the numbers the enum defines: the first rule that fails,
/// in the order constant, allowed values, forbidden values, defined values.
pub open spec fn enum_outcome(v: i32, r: EnumRules, defined: Seq<i32>, res: Result<(), EnumError>) -> bool {
    if r.const_ is Some && v != r.const_->0 {
        res == Err::<(), EnumError>(EnumError::Const(r.const_->0))
    } else if r.in_@.len() > 0 && !int_in(v, r.in_@) {
        res matches Err(EnumError::In(l)) && l@ == r.in_@
    } else if int_in(v, r.not_in@) {
        res matches Err(EnumError::NotIn(l)) && l@ == r.not_in@
    } else if r.defined_only == Some(true) && !int_in(v, defined) {
        res == Err::<(), EnumError>(EnumError::DefinedOnly)
    } else {
        res is Ok
    }
}

/// Validates an enum number against its rules; `defined` lists the
/// numbers the enum defines.
pub fn validate_enum(v: i32, r: &EnumRules, defined: &Vec<i32>) -> (res: Result<(), EnumError>)
    ensures
        enum_outcome(v, *r, defined@, res),
{
    if let Some(c) = r.const_ {
        if v != c {
            return Err(EnumError::Const(c));
        }
    }
    if r.in_.len() > 0 && !contains_int(&r.in_, v) {
        return Err(EnumError::In(copy_vec(&r.in_)));
    }
    if contains_int(&r.not_in, v) {
        return Err(EnumError::NotIn(copy_vec(&r.not_in)));
    }
    if r.defined_only == Some(true) && !contains_int(defined, v) {
        return Err(EnumError::DefinedOnly);
    }
    Ok(())
}

/// The rules of a `google.protobuf.Any` field, on its type URL.
#[derive(Debug, Clone)]
pub struct AnyRules {
    /// The field must be set.
    pub required: bool,
    /// When not empty, the type URL must be one of these.
    pub in_: Vec<String>,
    /// The type URL must not be one of these.
    pub not_in: Vec<String>,
}

/// The outcome of validating an `Any` field whose type URL is `type_url`
/// (`None` when the field is not set): an unset field fails only when it is
/// required; a set one fails on the first of allowed and forbidden URLs.
pub open spec fn any_outcome(type_url: Option<Seq<char>>, r: AnyRules, res: Result<(), AnyError>) -> bool {
    match type_url {
        None => if r.required { res == Err::<(), AnyError>(AnyError::Required) } else { res is Ok },
        Some(u) => if r.in_@.len() > 0 && !text_in(u, r.in_@) {
            res matches Err(AnyError::In(l)) && l@ == r.in_@
        } else if text_in(u, r.not_in@) {
            res matches Err(AnyError::NotIn(l)) && l@ == r.not_in@
        } else {
            res is Ok
        },
    }
}

/// Validates an `Any` field by its type URL (`None` when not set).
pub fn validate_any(type_url: &Option<String>, r: &AnyRules) -> (res: Result<(), AnyError>)
    ensures
        any_outcome(
            match type_url {
                Some(u) => Some(u@),
                None => None,
            },
            *r,
            res,
        ),
{
    match type_url {
        None => if r.required { Err(AnyError::Required) } else { Ok(()) },
        Some(u) => {
            if r.in_.len() > 0 && !string_in(&r.in_, u) {
                return Err(AnyError::In(copy_strings(&r.in_)));
            }
            if string_in(&r.not_in, u) {
                return Err(AnyError::NotIn(copy_strings(&r.not_in)));
            }
            Ok(())
        },
    }
}

} // verus!
