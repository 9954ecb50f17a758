//! Rules on integer fields (`int32`, `int64`, `uint32`, `uint64` and their
//! `sint`, `fixed` and `sfixed` encodings): constant, range bounds and
//! allowed or forbidden values.
use vstd::prelude::*;
use crate::errors::number::Error;

verus! {

/// A value that range rules compare: integers, durations and timestamps,
/// each ordered by a mathematical integer.
pub trait ProtoInt: Copy + Sized {
    /// The integer by which the value is ordered and compared.
    spec fn to_int(self) -> int;

    /// Whether the value can be converted for comparison without the
    /// conversion failing.
    spec fn representable(self) -> bool;

    /// The integer by which the value is ordered, computed without loss.
    fn widen(self) -> (r: i128)
        requires
            self.representable(),
        ensures
            r as int == self.to_int(),
    ;

    /// Whether the value can be converted for comparison.
    fn is_representable(&self) -> (b: bool)
        ensures
            b == self.representable(),
    ;
}

impl ProtoInt for i32 {
    open spec fn to_int(self) -> int {
        self as int
    }

    open spec fn representable(self) -> bool {
        true
    }

    fn widen(self) -> (r: i128) {
        self as i128
    }

    fn is_representable(&self) -> (b: bool) {
        true
    }
}

impl ProtoInt for i64 {
    open spec fn to_int(self) -> int {
        self as int
    }

    open spec fn representable(self) -> bool {
        true
    }

    fn widen(self) -> (r: i128) {
        self as i128
    }

    fn is_representable(&self) -> (b: bool) {
        true
    }
}

impl ProtoInt for u32 {
    open spec fn to_int(self) -> int {
        self as int
    }

    open spec fn representable(self) -> bool {
        true
    }

    fn widen(self) -> (r: i128) {
        self as i128
    }

    fn is_representable(&self) -> (b: bool) {
        true
    }
}

impl ProtoInt for u64 {
    open spec fn to_int(self) -> int {
        self as int
    }

    open spec fn representable(self) -> bool {
        true
    }

    fn widen(self) -> (r: i128) {
        self as i128
    }

    fn is_representable(&self) -> (b: bool) {
        true
    }
}

/// The rules of an integer field.
#[derive(Debug, Clone)]
pub struct NumberRules<T> {
    /// The value must equal this constant.
    pub const_: Option<T>,
    /// Exclusive upper bound; takes precedence over `lte`.
    pub lt: Option<T>,
    /// Inclusive upper bound.
    pub lte: Option<T>,
    /// Exclusive lower bound; takes precedence over `gte`.
    pub gt: Option<T>,
    /// Inclusive lower bound.
    pub gte: Option<T>,
    /// When not empty, the value must be one of these.
    pub in_: Vec<T>,
    /// The value must not be one of these.
    pub not_in: Vec<T>,
    /// A zero value passes without any other check.
    pub ignore_empty: bool,
}

pub type Int32Rules = NumberRules<i32>;
pub type Int64Rules = NumberRules<i64>;
pub type UInt32Rules = NumberRules<u32>;
pub type UInt64Rules = NumberRules<u64>;
pub type SInt32Rules = NumberRules<i32>;
pub type SInt64Rules = NumberRules<i64>;
pub type Fixed32Rules = NumberRules<u32>;
pub type Fixed64Rules = NumberRules<u64>;
pub type SFixed32Rules = NumberRules<i32>;
pub type SFixed64Rules = NumberRules<i64>;

/// `v` lies below `bound` (or on it, when `inclusive`).
pub open spec fn below(v: int, bound: int, inclusive: bool) -> bool {
    if inclusive {
        v <= bound
    } else {
        v < bound
    }
}

/// `v` lies above `bound` (or on it, when `inclusive`).
pub open spec fn above(v: int, bound: int, inclusive: bool) -> bool {
    if inclusive {
        v >= bound
    } else {
        v > bound
    }
}

/// Whether `v` satisfies an upper bound `up` and a lower bound `low`, each
/// given with whether it is inclusive. With both bounds, when the upper one
/// exceeds the lower one the value must lie between them; otherwise the
/// values between them are the ones excluded.
pub open spec fn range_valid(v: int, up: Option<(int, bool)>, low: Option<(int, bool)>) -> bool {
    match (up, low) {
        (Some((u, ui)), Some((l, li))) => if u > l {
            below(v, u, ui) && above(v, l, li)
        } else {
            below(v, u, ui) || above(v, l, li)
        },
        (Some((u, ui)), None) => below(v, u, ui),
        (None, Some((l, li))) => above(v, l, li),
        (None, None) => true,
    }
}

/// The upper bound in force: `lt` (exclusive) before `lte` (inclusive).
pub open spec fn upper_bound<T: ProtoInt>(lt: Option<T>, lte: Option<T>) -> Option<(int, bool)> {
    match lt {
        Some(x) => Some((x.to_int(), false)),
        None => match lte {
            Some(x) => Some((x.to_int(), true)),
            None => None,
        },
    }
}

/// The lower bound in force: `gt` (exclusive) before `gte` (inclusive).
pub open spec fn lower_bound<T: ProtoInt>(gt: Option<T>, gte: Option<T>) -> Option<(int, bool)> {
    match gt {
        Some(x) => Some((x.to_int(), false)),
        None => match gte {
            Some(x) => Some((x.to_int(), true)),
            None => None,
        },
    }
}

/// The bounds in force can be converted for comparison.
pub open spec fn bounds_representable<T: ProtoInt>(
    lt: Option<T>,
    lte: Option<T>,
    gt: Option<T>,
    gte: Option<T>,
) -> bool {
    &&& (lt matches Some(x) ==> x.representable())
    &&& (lt is None && lte is Some ==> lte.unwrap().representable())
    &&& (gt matches Some(x) ==> x.representable())
    &&& (gt is None && gte is Some ==> gte.unwrap().representable())
}

/// Every value of `l` can be converted for comparison.
pub open spec fn all_representable<T: ProtoInt>(l: Seq<T>) -> bool {
    forall|i: int| 0 <= i < l.len() ==> (#[trigger] l[i]).representable()
}

/// The allowed and forbidden values that checking `v` reaches can be
/// converted for comparison: the allowed ones once the constant and the
/// range pass, the forbidden ones once the allowed ones pass too.
pub open spec fn lists_representable<T: ProtoInt>(
    v: T,
    const_: Option<T>,
    lt: Option<T>,
    lte: Option<T>,
    gt: Option<T>,
    gte: Option<T>,
    in_: Seq<T>,
    not_in: Seq<T>,
) -> bool {
    (!(const_ is Some && v.to_int() != const_.unwrap().to_int()) && range_error(
        v,
        lt,
        lte,
        gt,
        gte,
    ) is None) ==> {
        &&& all_representable(in_)
        &&& (in_.len() == 0 || int_in(v, in_)) ==> all_representable(not_in)
    }
}

/// The values of the rules that validation converts can be converted.
pub open spec fn number_rules_representable<T: ProtoInt>(r: NumberRules<T>) -> bool {
    &&& (r.const_ matches Some(c) ==> c.representable())
    &&& bounds_representable(r.lt, r.lte, r.gt, r.gte)
    &&& all_representable(r.in_@)
    &&& all_representable(r.not_in@)
}

/// `v` is one of the values of `l`.
pub open spec fn int_in<T: ProtoInt>(v: T, l: Seq<T>) -> bool {
    exists|i: int| 0 <= i < l.len() && (#[trigger] l[i]).to_int() == v.to_int()
}

/// Whether the value passes without any check (a zero under `ignore_empty`).
pub open spec fn number_skipped<T: ProtoInt>(v: T, r: NumberRules<T>) -> bool {
    r.ignore_empty && v.to_int() == 0
}

/// Whether `v` satisfies a constant, range bounds, allowed values (when
/// there are any) and forbidden values.
pub open spec fn bounds_valid_of<T: ProtoInt>(
    v: T,
    const_: Option<T>,
    lt: Option<T>,
    lte: Option<T>,
    gt: Option<T>,
    gte: Option<T>,
    in_: Seq<T>,
    not_in: Seq<T>,
) -> bool {
    &&& (const_ matches Some(c) ==> v.to_int() == c.to_int())
    &&& range_valid(v.to_int(), upper_bound(lt, lte), lower_bound(gt, gte))
    &&& (in_.len() > 0 ==> int_in(v, in_))
    &&& !int_in(v, not_in)
}

/// Whether the value satisfies the constant, range, and allowed and
/// forbidden values of the rules.
pub open spec fn bounds_valid<T: ProtoInt>(v: T, r: NumberRules<T>) -> bool {
    bounds_valid_of(v, r.const_, r.lt, r.lte, r.gt, r.gte, r.in_@, r.not_in@)
}

/// Whether the value satisfies each of the rules.
pub open spec fn number_valid<T: ProtoInt>(v: T, r: NumberRules<T>) -> bool {
    number_skipped(v, r) || bounds_valid(v, r)
}

/// The error reported when the range bounds reject `v`, if they do.
pub open spec fn range_error<T: ProtoInt>(
    v: T,
    lt: Option<T>,
    lte: Option<T>,
    gt: Option<T>,
    gte: Option<T>,
) -> Option<Error<T>> {
    let x = v.to_int();
    let (upper, upper_incl) = match lt {
        Some(u) => (Some(u), false),
        None => (lte, true),
    };
    let (lower, lower_incl) = match gt {
        Some(l) => (Some(l), false),
        None => (gte, true),
    };
    match (upper, lower) {
        (Some(u), Some(l)) => if u.to_int() > l.to_int() {
            if below(x, u.to_int(), upper_incl) && above(x, l.to_int(), lower_incl) {
                None
            } else {
                Some(
                    Error::InRange {
                        lower_inclusive: lower_incl,
                        lower: l,
                        upper: u,
                        upper_inclusive: upper_incl,
                    },
                )
            }
        } else {
            if below(x, u.to_int(), upper_incl) || above(x, l.to_int(), lower_incl) {
                None
            } else {
                Some(
                    Error::NotInRange {
                        lower_inclusive: !upper_incl,
                        lower: u,
                        upper: l,
                        upper_inclusive: !lower_incl,
                    },
                )
            }
        },
        (Some(u), None) => if below(x, u.to_int(), upper_incl) {
            None
        } else if upper_incl {
            Some(Error::Lte(u))
        } else {
            Some(Error::Lt(u))
        },
        (None, Some(l)) => if above(x, l.to_int(), lower_incl) {
            None
        } else if lower_incl {
            Some(Error::Gte(l))
        } else {
            Some(Error::Gt(l))
        },
        (None, None) => None,
    }
}

/// The outcome of checking `v` against a constant, range bounds, allowed
/// and forbidden values: the first of them that fails, in this order.
pub open spec fn bounds_outcome_of<T: ProtoInt>(
    v: T,
    const_: Option<T>,
    lt: Option<T>,
    lte: Option<T>,
    gt: Option<T>,
    gte: Option<T>,
    in_: Seq<T>,
    not_in: Seq<T>,
    res: Result<(), Error<T>>,
) -> bool {
    if const_ is Some && v.to_int() != const_.unwrap().to_int() {
        res == Err::<(), Error<T>>(Error::Const(const_.unwrap()))
    } else if range_error(v, lt, lte, gt, gte) is Some {
        res == Err::<(), Error<T>>(range_error(v, lt, lte, gt, gte).unwrap())
    } else if in_.len() > 0 && !int_in(v, in_) {
        res matches Err(Error::In(l)) && l@ == in_
    } else if int_in(v, not_in) {
        res matches Err(Error::NotIn(l)) && l@ == not_in
    } else {
        res is Ok
    }
}

/// The outcome of checking `v` against the constant, range, allowed and
/// forbidden values of `r`.
pub open spec fn bounds_outcome<T: ProtoInt>(v: T, r: NumberRules<T>, res: Result<(), Error<T>>) -> bool {
    bounds_outcome_of(v, r.const_, r.lt, r.lte, r.gt, r.gte, r.in_@, r.not_in@, res)
}

/// The outcome of validating `v`: a zero under `ignore_empty` passes,
/// otherwise the first rule that fails is reported.
pub open spec fn number_outcome<T: ProtoInt>(v: T, r: NumberRules<T>, res: Result<(), Error<T>>) -> bool {
    if number_skipped(v, r) {
        res is Ok
    } else {
        bounds_outcome(v, r, res)
    }
}

/// A copy of a vector of plain values.
pub fn copy_vec<T: Copy>(v: &Vec<T>) -> (r: Vec<T>)
    ensures
        r@ == v@,
{
    let mut r: Vec<T> = Vec::new();
    let mut i: usize = 0;
    while i < v.len()
        invariant
            i <= v.len(),
            r@ == v@.subrange(0, i as int),
        decreases v.len() - i,
    {
        r.push(v[i]);
        i = i + 1;
    }
    r
}

/// Whether `v` is one of the values of `l`.
pub fn contains_int<T: ProtoInt>(l: &Vec<T>, v: T) -> (b: bool)
    requires
        v.representable(),
        all_representable(l@),
    ensures
        b == int_in(v, l@),
{
    let w = v.widen();
    let mut i: usize = 0;
    while i < l.len()
        invariant
            i <= l.len(),
            w as int == v.to_int(),
            all_representable(l@),
            forall|j: int| 0 <= j < i ==> (#[trigger] l@[j]).to_int() != v.to_int(),
        decreases l.len() - i,
    {
        if l[i].widen() == w {
            return true;
        }
        i = i + 1;
    }
    false
}

/// Checks `v` against the range bounds `lt`, `lte`, `gt`, `gte`.
pub fn check_range<T: ProtoInt>(
    v: T,
    lt: Option<T>,
    lte: Option<T>,
    gt: Option<T>,
    gte: Option<T>,
) -> (res: Option<Error<T>>)
    requires
        v.representable(),
        bounds_representable(lt, lte, gt, gte),
    ensures
        res == range_error(v, lt, lte, gt, gte),
        res is None <==> range_valid(v.to_int(), upper_bound(lt, lte), lower_bound(gt, gte)),
{
    let x = v.widen();
    let (upper, upper_incl) = match lt {
        Some(u) => (Some(u), false),
        None => (lte, true),
    };
    let (lower, lower_incl) = match gt {
        Some(l) => (Some(l), false),
        None => (gte, true),
    };
    match (upper, lower) {
        (Some(u), Some(l)) => {
            let uw = u.widen();
            let lw = l.widen();
            let in_upper = if upper_incl { x <= uw } else { x < uw };
            let in_lower = if lower_incl { x >= lw } else { x > lw };
            if uw > lw {
                if in_upper && in_lower {
                    None
                } else {
                    Some(
                        Error::InRange {
                            lower_inclusive: lower_incl,
                            lower: l,
                            upper: u,
                            upper_inclusive: upper_incl,
                        },
                    )
                }
            } else {
                if in_upper || in_lower {
                    None
                } else {
                    Some(
                        Error::NotInRange {
                            lower_inclusive: !upper_incl,
                            lower: u,
                            upper: l,
                            upper_inclusive: !lower_incl,
                        },
                    )
                }
            }
        },
        (Some(u), None) => {
            let uw = u.widen();
            if upper_incl {
                if x <= uw { None } else { Some(Error::Lte(u)) }
            } else {
                if x < uw { None } else { Some(Error::Lt(u)) }
            }
        },
        (None, Some(l)) => {
            let lw = l.widen();
            if lower_incl {
                if x >= lw { None } else { Some(Error::Gte(l)) }
            } else {
                if x > lw { None } else { Some(Error::Gt(l)) }
            }
        },
        (None, None) => None,
    }
}

/// Checks `v` against a constant, range bounds, allowed and forbidden
/// values, reporting the first that fails.
pub fn check_bounds<T: ProtoInt>(
    v: T,
    const_: Option<T>,
    lt: Option<T>,
    lte: Option<T>,
    gt: Option<T>,
    gte: Option<T>,
    in_: &Vec<T>,
    not_in: &Vec<T>,
) -> (res: Result<(), Error<T>>)
    requires
        v.representable(),
        const_ matches Some(c) ==> c.representable(),
        bounds_representable(lt, lte, gt, gte),
        lists_representable(v, const_, lt, lte, gt, gte, in_@, not_in@),
    ensures
        bounds_outcome_of(v, const_, lt, lte, gt, gte, in_@, not_in@, res),
        res is Ok <==> bounds_valid_of(v, const_, lt, lte, gt, gte, in_@, not_in@),
{
    let x = v.widen();
    if let Some(c) = const_ {
        if c.widen() != x {
            return Err(Error::Const(c));
        }
    }
    if let Some(e) = check_range(v, lt, lte, gt, gte) {
        return Err(e);
    }
    if in_.len() > 0 && !contains_int(in_, v) {
        return Err(Error::In(copy_vec(in_)));
    }
    if contains_int(not_in, v) {
        return Err(Error::NotIn(copy_vec(not_in)));
    }
    Ok(())
}

/// Checks `v` against the constant, range, allowed and forbidden values of
/// `r` (not `ignore_empty`), reporting the first that fails.
pub fn validate_bounds<T: ProtoInt>(v: T, r: &NumberRules<T>) -> (res: Result<(), Error<T>>)
    requires
        v.representable(),
        number_rules_representable(*r),
    ensures
        bounds_outcome(v, *r, res),
        res is Ok <==> bounds_valid(v, *r),
{
    check_bounds(v, r.const_, r.lt, r.lte, r.gt, r.gte, &r.in_, &r.not_in)
}

/// Validates an integer value against its rules: a zero under
/// `ignore_empty` passes, otherwise the first rule that fails is reported.
pub fn validate_number<T: ProtoInt>(v: T, r: &NumberRules<T>) -> (res: Result<(), Error<T>>)
    requires
        v.representable(),
        number_rules_representable(*r),
    ensures
        number_outcome(v, *r, res),
        res is Ok <==> number_valid(v, *r),
{
    if r.ignore_empty && v.widen() == 0 {
        return Ok(());
    }
    validate_bounds(v, r)
}

/// Whether the bounds in force can be converted for comparison.
pub fn check_bounds_representable<T: ProtoInt>(
    lt: &Option<T>,
    lte: &Option<T>,
    gt: &Option<T>,
    gte: &Option<T>,
) -> (b: bool)
    ensures
        b == bounds_representable(*lt, *lte, *gt, *gte),
{
    let upper = match lt {
        Some(x) => x.is_representable(),
        None => match lte {
            Some(x) => x.is_representable(),
            None => true,
        },
    };
    let lower = match gt {
        Some(x) => x.is_representable(),
        None => match gte {
            Some(x) => x.is_representable(),
            None => true,
        },
    };
    upper && lower
}

/// Whether every value of `l` can be converted for comparison.
pub fn check_all_representable<T: ProtoInt>(l: &Vec<T>) -> (b: bool)
    ensures
        b == all_representable(l@),
{
    let mut i: usize = 0;
    while i < l.len()
        invariant
            i <= l@.len(),
            forall|j: int| 0 <= j < i ==> (#[trigger] l@[j]).representable(),
        decreases l@.len() - i,
    {
        if !l[i].is_representable() {
            return false;
        }
        i = i + 1;
    }
    true
}

/// Whether the allowed and forbidden values that checking `v` reaches can
/// be converted for comparison.
pub fn check_lists_representable<T: ProtoInt>(
    v: T,
    const_: Option<T>,
    lt: Option<T>,
    lte: Option<T>,
    gt: Option<T>,
    gte: Option<T>,
    in_: &Vec<T>,
    not_in: &Vec<T>,
) -> (b: bool)
    requires
        v.representable(),
        const_ matches Some(c) ==> c.representable(),
        bounds_representable(lt, lte, gt, gte),
    ensures
        b == lists_representable(v, const_, lt, lte, gt, gte, in_@, not_in@),
{
    let x = v.widen();
    if let Some(c) = const_ {
        if c.widen() != x {
            return true;
        }
    }
    if check_range(v, lt, lte, gt, gte).is_some() {
        return true;
    }
    if !check_all_representable(in_) {
        return false;
    }
    if in_.len() > 0 && !contains_int(in_, v) {
        return true;
    }
    check_all_representable(not_in)
}

} // verus!
