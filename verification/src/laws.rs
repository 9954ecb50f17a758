//! Properties of the validation rules as a whole, proved over the
//! specifications that the validators meet.
use vstd::prelude::*;
use crate::bytes::{bytes_in, bytes_valid, BytesRules};
use crate::duration::{duration_valid, DurationRules};
use crate::formats::{
    count_char, double_colon_at, h16_list, host_part, hostname_valid, ipv4_pos_ok, ipv4_tail_at,
    ipv4_valid, ipv6_groups, ipv6_split_at, ipv6_valid,
};
use crate::message::{
    block_valid, is_message_kind, is_unset, list_valid, map_valid, message_rules_of, message_valid,
    oneof_first, oneof_required, set_count, value_status, FieldValue, Message, Value,
};
use crate::number::{int_in, number_valid, NumberRules, ProtoInt};
use crate::rules::{FieldValidationInner, MapRules, RepeatedRules};
use crate::string::{string_valid, text_in, StringRules};
use crate::wkt::{duration_nanos, timestamp_instant, Duration, Timestamp};
use crate::bytes::WellKnown as BytesWellKnown;
use crate::builder::{all_attributes, fields_attributes, field_attributes, message_attributes, MessageDesc, PlannedAttribute};
use crate::errors::Error;
use crate::errors::timestamp::Error as TimestampError;
use crate::formats::{
    email_valid, header_name_valid, header_value_valid, uri_ref_valid, uri_valid, uuid_valid,
};
use crate::message::{list_error, same_value};
use crate::pattern::{bytes_regex_compiles, bytes_regex_matches, regex_compiles, regex_matches};
use crate::string::{well_known_error, WellKnown};
use crate::timestamp::{timestamp_checked_outcome, timestamp_outcome, TimestampRules};
use vstd::utf8::encode_utf8;
use crate::bytes::bytes_outcome;
use crate::errors::any::Error as AnyError;
use crate::errors::bytes::Error as BytesError;
use crate::errors::enumeration::Error as EnumError;
use crate::errors::number::Error as NumberError;
use crate::errors::string::Error as StringError;
use crate::message::map_error;
use crate::number::number_outcome;
use crate::scalars::{any_outcome, enum_outcome, AnyRules, EnumRules};
use crate::string::string_outcome;
use crate::field::{field_misfit, Field, ProstField, RuleKind};
use crate::rules::FieldRules;
use crate::formats::{is_alpha, is_digit};

verus! {

/// An empty string passes any string rules that ask to ignore empty values.
pub proof fn law_string_ignore_empty(r: StringRules)
    requires
        r.ignore_empty,
    ensures
        string_valid(Seq::empty(), r),
{
}

/// An empty byte string passes any bytes rules that ask to ignore empty
/// values.
pub proof fn law_bytes_ignore_empty(r: BytesRules)
    requires
        r.ignore_empty,
    ensures
        bytes_valid(Seq::empty(), r),
{
}

/// Zero passes any integer rules that ask to ignore empty values.
pub proof fn law_number_ignore_empty<T: ProtoInt>(v: T, r: NumberRules<T>)
    requires
        r.ignore_empty,
        v.to_int() == 0,
    ensures
        number_valid(v, r),
{
}

/// An empty list passes any repeated rules that ask to ignore empty values.
pub proof fn law_list_ignore_empty(l: Vec<Value>, r: RepeatedRules, now: int)
    requires
        r.ignore_empty,
        l@.len() == 0,
    ensures
        list_valid(l, r, now),
{
}

/// An empty map passes any map rules that ask to ignore empty values.
pub proof fn law_map_ignore_empty(keys: Vec<Value>, values: Vec<Value>, r: MapRules, now: int)
    requires
        r.ignore_empty,
        keys@.len() == 0,
    ensures
        map_valid(FieldValue::Mapping { keys, values }, r, now),
{
}

/// With an exclusive lower bound below an exclusive upper bound, an
/// integer passes the range exactly when it lies strictly between them.
pub proof fn law_number_between<T: ProtoInt>(v: T, r: NumberRules<T>)
    requires
        !r.ignore_empty,
        r.const_ is None,
        r.in_@.len() == 0,
        r.not_in@.len() == 0,
        r.lt matches Some(u) && r.gt matches Some(l) && l.to_int() < u.to_int(),
    ensures
        number_valid(v, r) <==> r.gt->0.to_int() < v.to_int() < r.lt->0.to_int(),
{
    assert(!int_in(v, r.not_in@));
}

/// With an exclusive lower bound above an exclusive upper bound, an integer
/// passes the range exactly when it lies outside the span between them.
pub proof fn law_number_outside<T: ProtoInt>(v: T, r: NumberRules<T>)
    requires
        !r.ignore_empty,
        r.const_ is None,
        r.in_@.len() == 0,
        r.not_in@.len() == 0,
        r.lt matches Some(u) && r.gt matches Some(l) && l.to_int() >= u.to_int(),
    ensures
        number_valid(v, r) <==> (v.to_int() < r.lt->0.to_int() || v.to_int() > r.gt->0.to_int()),
{
    assert(!int_in(v, r.not_in@));
}

/// An integer that passes rules with a constant equals the constant.
pub proof fn law_number_const<T: ProtoInt>(v: T, r: NumberRules<T>)
    requires
        r.const_ is Some,
        number_valid(v, r),
        v.to_int() != 0 || !r.ignore_empty,
    ensures
        v.to_int() == r.const_->0.to_int(),
{
}

/// An integer listed both as allowed and as forbidden fails.
pub proof fn law_number_in_and_not_in<T: ProtoInt>(v: T, r: NumberRules<T>)
    requires
        int_in(v, r.in_@),
        int_in(v, r.not_in@),
        v.to_int() != 0 || !r.ignore_empty,
    ensures
        !number_valid(v, r),
{
}

/// A string listed both as allowed and as forbidden fails, unless it is
/// empty and empty values are ignored.
pub proof fn law_string_in_and_not_in(v: Seq<char>, r: StringRules)
    requires
        text_in(v, r.in_@),
        text_in(v, r.not_in@),
        v.len() != 0 || !r.ignore_empty,
    ensures
        !string_valid(v, r),
{
}

/// A byte string listed both as allowed and as forbidden fails, unless it
/// is empty and empty values are ignored.
pub proof fn law_bytes_in_and_not_in(v: Seq<u8>, r: BytesRules)
    requires
        bytes_in(v, r.in_@),
        bytes_in(v, r.not_in@),
        v.len() != 0 || !r.ignore_empty,
    ensures
        !bytes_valid(v, r),
{
}

/// Durations are compared by their length: two durations of the same
/// length pass or fail the same rules, however seconds and nanoseconds
/// split it.
pub proof fn law_duration_by_length(a: Duration, b: Duration, r: DurationRules)
    requires
        a.to_int() == b.to_int(),
    ensures
        duration_valid(a, r) <==> duration_valid(b, r),
{
    assert(int_in(a, r.in_@) <==> int_in(b, r.in_@));
    assert(int_in(a, r.not_in@) <==> int_in(b, r.not_in@));
}

/// A message field whose message rules make it required fails when it is
/// not set (unless it is a proto3 `optional` field).
pub proof fn law_required_unset(v: Value, r: FieldValidationInner, now: int)
    requires
        message_rules_of(r).required,
        is_message_kind(v),
        is_unset(v),
    ensures
        value_status(v, r, false, now) is None,
{
}

/// A message whose type has validation disabled or ignored always passes.
pub proof fn law_disabled_passes(m: Message, now: int)
    requires
        m.disabled,
    ensures
        message_valid(m, now),
{
}

/// A required oneof none of whose fields is set makes its message fail,
/// once one of its fields carries rules.
pub proof fn law_required_oneof_unset(m: Message, i: int, now: int)
    requires
        !m.disabled,
        0 <= i < m.fields@.len(),
        oneof_first(m, i),
        oneof_required(m, m.fields@[i].oneof->0),
        set_count(m.fields@, m.fields@[i].oneof->0) == 0,
    ensures
        !message_valid(m, now),
{
    assert(!block_valid(m, i, m.fields@[i], now));
}

/// A dotted-decimal IPv4 address holds no colon.
proof fn lemma_ipv4_no_colon(s: Seq<char>)
    requires
        ipv4_valid(s),
    ensures
        forall|i: int| 0 <= i < s.len() ==> s[i] != ':',
        count_char(s, ':') == 0,
    decreases s.len(),
{
    assert forall|i: int| 0 <= i < s.len() implies s[i] != ':' by {
        assert(ipv4_pos_ok(s, i));
    }
    lemma_no_colon_count(s);
}

/// A sequence without colons counts none.
proof fn lemma_no_colon_count(s: Seq<char>)
    requires
        forall|i: int| 0 <= i < s.len() ==> s[i] != ':',
    ensures
        count_char(s, ':') == 0,
    decreases s.len(),
{
    if s.len() > 0 {
        let p = s.drop_last();
        assert forall|i: int| 0 <= i < p.len() implies p[i] != ':' by {
            assert(p[i] == s[i]);
        }
        lemma_no_colon_count(p);
    }
}

/// No text is both an IPv4 address and an IPv6 address.
pub proof fn law_ipv4_not_ipv6(s: Seq<char>)
    requires
        ipv4_valid(s),
    ensures
        !ipv6_valid(s),
{
    lemma_ipv4_no_colon(s);
    assert forall|p: int| !ipv6_split_at(s, p) by {
        if 0 <= p && p + 2 <= s.len() {
            assert(!double_colon_at(s, p));
        }
    }
    assert(forall|k: int| !ipv4_tail_at(s, k));
    if h16_list(s) {
        assert(ipv6_groups(s) == Some(1int));
    }
}

/// A hostname may end with one dot: adding it to a name that has none
/// changes nothing about its validity.
pub proof fn law_hostname_trailing_dot(s: Seq<char>)
    requires
        s.len() > 0,
        s.last() != '.',
    ensures
        hostname_valid(s.push('.')) == hostname_valid(s),
{
    assert(host_part(s.push('.')) =~= s);
    assert(host_part(s) == s);
}


// ------------------------------------------------------------- timestamps

/// Under `within` alone (no constant, no bound, neither `lt_now` nor
/// `gt_now`), a timestamp passes exactly when it lies no further than the
/// duration from the current time, on either side; any other timestamp is
/// reported with `Within`.
pub proof fn law_timestamp_within(v: Timestamp, r: TimestampRules, now: int)
    requires
        r.const_ is None,
        r.lt is None && r.lte is None && r.gt is None && r.gte is None,
        r.lt_now != Some(true),
        r.gt_now != Some(true),
        r.within is Some,
    ensures
        timestamp_outcome(v, r, now) is Ok <==> now - duration_nanos(r.within->0) <= timestamp_instant(v)
            <= now + duration_nanos(r.within->0),
        timestamp_outcome(v, r, now) is Err ==> timestamp_outcome(v, r, now) == Err::<(), TimestampError>(
            TimestampError::Within(r.within->0),
        ),
        timestamp_checked_outcome(v, r, now) is Ok ==> now - duration_nanos(r.within->0)
            <= timestamp_instant(v) <= now + duration_nanos(r.within->0),
{
}

/// Under `lt_now` (no constant, no bound), a timestamp passes exactly when
/// it is before the current time, and, with `within`, no further before it
/// than the duration; any other timestamp is reported with `LtNow` or
/// `LtNowWithin`.
pub proof fn law_timestamp_lt_now(v: Timestamp, r: TimestampRules, now: int)
    requires
        r.const_ is None,
        r.lt is None && r.lte is None && r.gt is None && r.gte is None,
        r.lt_now == Some(true),
    ensures
        r.within is None ==> (timestamp_outcome(v, r, now) is Ok <==> timestamp_instant(v) < now),
        r.within is None && timestamp_outcome(v, r, now) is Err ==> timestamp_outcome(v, r, now)
            == Err::<(), TimestampError>(TimestampError::LtNow),
        r.within is Some ==> (timestamp_outcome(v, r, now) is Ok <==> now - duration_nanos(
            r.within->0,
        ) <= timestamp_instant(v) < now),
        r.within is Some && timestamp_outcome(v, r, now) is Err ==> timestamp_outcome(v, r, now)
            == Err::<(), TimestampError>(TimestampError::LtNowWithin(r.within->0)),
        timestamp_checked_outcome(v, r, now) is Ok ==> timestamp_instant(v) < now,
{
}

/// Under `gt_now` without `lt_now` (no constant, no bound), a timestamp
/// passes exactly when it is after the current time, and, with `within`,
/// no further after it than the duration; any other timestamp is reported
/// with `GtNow` or `GtNowWithin`.
pub proof fn law_timestamp_gt_now(v: Timestamp, r: TimestampRules, now: int)
    requires
        r.const_ is None,
        r.lt is None && r.lte is None && r.gt is None && r.gte is None,
        r.lt_now != Some(true),
        r.gt_now == Some(true),
    ensures
        r.within is None ==> (timestamp_outcome(v, r, now) is Ok <==> now < timestamp_instant(v)),
        r.within is None && timestamp_outcome(v, r, now) is Err ==> timestamp_outcome(v, r, now)
            == Err::<(), TimestampError>(TimestampError::GtNow),
        r.within is Some ==> (timestamp_outcome(v, r, now) is Ok <==> now < timestamp_instant(v)
            <= now + duration_nanos(r.within->0)),
        r.within is Some && timestamp_outcome(v, r, now) is Err ==> timestamp_outcome(v, r, now)
            == Err::<(), TimestampError>(TimestampError::GtNowWithin(r.within->0)),
        timestamp_checked_outcome(v, r, now) is Ok ==> now < timestamp_instant(v),
{
}

/// A timestamp that passes rules with a constant denotes the constant's
/// instant, and one that passes an exclusive upper (lower) bound lies
/// before (after) it; a bound makes the rules relative to the current time
/// irrelevant.
pub proof fn law_timestamp_bounds(v: Timestamp, r: TimestampRules, now1: int, now2: int)
    ensures
        timestamp_outcome(v, r, now1) is Ok && r.const_ is Some ==> timestamp_instant(v)
            == timestamp_instant(r.const_->0),
        timestamp_outcome(v, r, now1) is Ok && r.lt is Some && r.gt is None && r.gte is None
            ==> timestamp_instant(v) < timestamp_instant(r.lt->0),
        timestamp_outcome(v, r, now1) is Ok && r.gt is Some && r.lt is None && r.lte is None
            ==> timestamp_instant(v) > timestamp_instant(r.gt->0),
        (r.lt is Some || r.lte is Some || r.gt is Some || r.gte is Some) ==> timestamp_outcome(
            v,
            r,
            now1,
        ) == timestamp_outcome(v, r, now2),
{
}

// ------------------------------------------------------------- bytes

/// `p` occurs in `v` at some position.
pub open spec fn occurs_in<A>(v: Seq<A>, p: Seq<A>) -> bool {
    exists|k: int| 0 <= k && k + p.len() <= v.len() && #[trigger] v.subrange(k, k + p.len()) == p
}

proof fn lemma_contains_sub_occurs<A>(v: Seq<A>, p: Seq<A>)
    ensures
        crate::text::contains_sub(v, p) <==> occurs_in(v, p),
{
    if crate::text::contains_sub(v, p) {
        let k = choose|k: int| crate::text::occurs_at(v, p, k);
        assert(v.subrange(k, k + p.len()) == p);
    }
    if occurs_in(v, p) {
        let k = choose|k: int| 0 <= k && k + p.len() <= v.len() && #[trigger] v.subrange(k, k + p.len()) == p;
        assert(crate::text::occurs_at(v, p, k));
    }
}

/// A byte string passes its rules exactly when it is empty under
/// `ignore_empty`, or: it equals the constant; it has exactly, at least and
/// at most the numbers of bytes asked; the pattern compiles and matches it;
/// it starts with, ends with and contains the bytes asked; it is one of
/// the allowed values when there are any and none of the forbidden ones;
/// and an IP address has 4 or 16 bytes, an IPv4 one 4, an IPv6 one 16.
pub proof fn law_bytes_rules(v: Seq<u8>, r: BytesRules)
    ensures
        bytes_valid(v, r) <==> (r.ignore_empty && v.len() == 0) || {
            &&& (r.const_ matches Some(c) ==> v == c@)
            &&& (r.len matches Some(n) ==> v.len() == n)
            &&& (r.min_len matches Some(n) ==> v.len() >= n)
            &&& (r.max_len matches Some(n) ==> v.len() <= n)
            &&& (r.pattern matches Some(p) ==> bytes_regex_compiles(p@) && bytes_regex_matches(p@, v))
            &&& (r.prefix matches Some(p) ==> p@.len() <= v.len() && v.subrange(0, p@.len() as int)
                == p@)
            &&& (r.suffix matches Some(p) ==> p@.len() <= v.len() && v.subrange(
                v.len() - p@.len(),
                v.len() as int,
            ) == p@)
            &&& (r.contains matches Some(p) ==> occurs_in(v, p@))
            &&& (r.in_@.len() > 0 ==> exists|i: int|
                0 <= i < r.in_@.len() && (#[trigger] r.in_@[i])@ == v)
            &&& forall|i: int| 0 <= i < r.not_in@.len() ==> (#[trigger] r.not_in@[i])@ != v
            &&& (r.well_known == Some(BytesWellKnown::Ip(true)) ==> v.len() == 4 || v.len() == 16)
            &&& (r.well_known == Some(BytesWellKnown::Ipv4(true)) ==> v.len() == 4)
            &&& (r.well_known == Some(BytesWellKnown::Ipv6(true)) ==> v.len() == 16)
        },
{
    if let Some(p) = r.contains {
        lemma_contains_sub_occurs(v, p@);
    }
}

// ------------------------------------------------------------- strings

/// Whether `v` has the well-known format `wk` (a flag that is not set asks
/// for nothing): an IP address is an IPv4 or an IPv6 one, an address is an
/// IP address or a hostname, and the header formats are numbered 1 (name)
/// and 2 (value).
pub open spec fn has_format(v: Seq<char>, wk: WellKnown, strict: bool) -> bool {
    match wk {
        WellKnown::Email(b) => b ==> email_valid(v),
        WellKnown::Hostname(b) => b ==> hostname_valid(v),
        WellKnown::Ip(b) => b ==> ipv4_valid(v) || ipv6_valid(v),
        WellKnown::Ipv4(b) => b ==> ipv4_valid(v),
        WellKnown::Ipv6(b) => b ==> ipv6_valid(v),
        WellKnown::Uri(b) => b ==> uri_valid(v),
        WellKnown::UriRef(b) => b ==> uri_ref_valid(v),
        WellKnown::Address(b) => b ==> ipv4_valid(v) || ipv6_valid(v) || hostname_valid(v),
        WellKnown::Uuid(b) => b ==> uuid_valid(v),
        WellKnown::WellKnownRegex(n) => (n == 1 ==> header_name_valid(v, strict)) && (n == 2
            ==> header_value_valid(v, strict)),
    }
}

/// A string passes its rules exactly when it is empty under
/// `ignore_empty`, or: it equals the constant; it has exactly, at least
/// and at most the numbers of characters asked, and of bytes in UTF-8; the
/// pattern compiles and matches it; it starts with, ends with and contains
/// the strings asked, and does not contain the one forbidden; it is one of
/// the allowed values when there are any and none of the forbidden ones;
/// and it has the well-known format asked (headers strictly unless told
/// otherwise).
pub proof fn law_string_rules(v: Seq<char>, r: StringRules)
    ensures
        string_valid(v, r) <==> (r.ignore_empty && v.len() == 0) || {
            &&& (r.const_ matches Some(c) ==> v == c@)
            &&& (r.len matches Some(n) ==> v.len() == n)
            &&& (r.min_len matches Some(n) ==> v.len() >= n)
            &&& (r.max_len matches Some(n) ==> v.len() <= n)
            &&& (r.len_bytes matches Some(n) ==> encode_utf8(v).len() == n)
            &&& (r.min_bytes matches Some(n) ==> encode_utf8(v).len() >= n)
            &&& (r.max_bytes matches Some(n) ==> encode_utf8(v).len() <= n)
            &&& (r.pattern matches Some(p) ==> regex_compiles(p@) && regex_matches(p@, v))
            &&& (r.prefix matches Some(p) ==> p@.len() <= v.len() && v.subrange(0, p@.len() as int)
                == p@)
            &&& (r.suffix matches Some(p) ==> p@.len() <= v.len() && v.subrange(
                v.len() - p@.len(),
                v.len() as int,
            ) == p@)
            &&& (r.contains matches Some(p) ==> occurs_in(v, p@))
            &&& (r.not_contains matches Some(p) ==> !occurs_in(v, p@))
            &&& (r.in_@.len() > 0 ==> exists|i: int|
                0 <= i < r.in_@.len() && (#[trigger] r.in_@[i])@ == v)
            &&& forall|i: int| 0 <= i < r.not_in@.len() ==> (#[trigger] r.not_in@[i])@ != v
            &&& (r.well_known matches Some(wk) ==> has_format(
                v,
                wk,
                match r.strict {
                    Some(b) => b,
                    None => true,
                },
            ))
        },
{
    if let Some(p) = r.contains {
        lemma_contains_sub_occurs(v, p@);
    }
    if let Some(p) = r.not_contains {
        lemma_contains_sub_occurs(v, p@);
    }
    if let Some(wk) = r.well_known {
        let strict = match r.strict {
            Some(b) => b,
            None => true,
        };
        assert(well_known_error(v, wk, strict) is None <==> has_format(v, wk, strict));
    }
}

/// The `ip` format accepts exactly the IPv4 and the IPv6 addresses, and
/// the `address` format exactly those and the hostnames: every value the
/// narrower format accepts, the wider one accepts too.
pub proof fn law_ip_formats(v: Seq<char>, strict: bool)
    ensures
        well_known_error(v, WellKnown::Ip(true), strict) is None <==> (well_known_error(
            v,
            WellKnown::Ipv4(true),
            strict,
        ) is None || well_known_error(v, WellKnown::Ipv6(true), strict) is None),
        well_known_error(v, WellKnown::Address(true), strict) is None <==> (well_known_error(
            v,
            WellKnown::Ip(true),
            strict,
        ) is None || well_known_error(v, WellKnown::Hostname(true), strict) is None),
        ipv6_valid(v) ==> well_known_error(v, WellKnown::Ip(true), strict) is None,
        ipv4_valid(v) ==> well_known_error(v, WellKnown::Ip(true), strict) is None,
{
}

// ------------------------------------------------------------- lists

/// Two items that are the same value, or two enum values with the same
/// number, are equal items for the `unique` rule; equality of items is
/// symmetric.
pub proof fn law_same_items(a: Value, b: Value)
    ensures
        !is_message_kind(a) ==> same_value(a, a),
        same_value(a, b) ==> same_value(b, a),
        (a matches Value::Enum { number: x, .. } && b matches Value::Enum { number: y, .. } && x
            == y) ==> same_value(a, b),
        (a matches Value::String(x) && b matches Value::String(y) && x@ == y@) ==> same_value(a, b),
        (a matches Value::Bytes(x) && b matches Value::Bytes(y) && x@ == y@) ==> same_value(a, b),
{
}

/// A list under `unique` that holds two equal items (two equal values, or
/// two enum values with the same number) fails, and, when its counts are
/// within bounds, it is reported with `Unique`.
pub proof fn law_unique_duplicates(l: Vec<Value>, r: RepeatedRules, now: int, i: int, j: int, e: Error)
    requires
        r.unique == Some(true),
        0 <= i < j < l@.len(),
        forall|k: int| 0 <= k < l@.len() ==> !is_message_kind(#[trigger] l@[k]),
        l@[i] == l@[j] || (l@[i] matches Value::Enum { number: x, .. } && l@[j] matches Value::Enum {
            number: y,
            ..
        } && x == y),
    ensures
        !list_valid(l, r, now),
        (r.min_items matches Some(m) ==> l@.len() >= m) && (r.max_items matches Some(m) ==> l@.len()
            <= m) ==> (list_error(l, r, now, e) <==> e == Error::Unique),
{
    law_same_items(l@[i], l@[j]);
    assert(same_value(l@[i], l@[j]));
}

// ------------------------------------------------------------- planning

/// A message whose validation is ignored or disabled is given the
/// validator derive and nothing else: none of its fields is configured.
pub proof fn law_plan_ignored_message(m: MessageDesc)
    requires
        m.ignored || m.disabled,
    ensures
        message_attributes(m) == seq![PlannedAttribute::DeriveValidator(m.full_name@)],
{
    assert(message_attributes(m) =~= seq![PlannedAttribute::DeriveValidator(m.full_name@)]);
}

proof fn lemma_fields_named(m: MessageDesc, i: int, k: int)
    requires
        0 <= i <= k < m.fields@.len(),
    ensures
        fields_attributes(m, i).contains(
            PlannedAttribute::Name(m.fields@[k].full_name@, m.fields@[k].full_name@),
        ),
    decreases k - i,
{
    let x = PlannedAttribute::Name(m.fields@[k].full_name@, m.fields@[k].full_name@);
    let fa = field_attributes(m, i);
    let rest = fields_attributes(m, i + 1);
    assert(fields_attributes(m, i) == fa + rest);
    if i == k {
        assert((fa + rest)[0] == x);
    } else {
        lemma_fields_named(m, i + 1, k);
        let j = choose|j: int| 0 <= j < rest.len() && rest[j] == x;
        assert((fa + rest)[fa.len() + j] == x);
    }
}

/// A message whose validation is neither ignored nor disabled is given
/// the validator derive first, and then the name of each of its fields.
pub proof fn law_plan_names_fields(m: MessageDesc, k: int)
    requires
        !m.ignored,
        !m.disabled,
        0 <= k < m.fields@.len(),
    ensures
        message_attributes(m)[0] == PlannedAttribute::DeriveValidator(m.full_name@),
        message_attributes(m).contains(
            PlannedAttribute::Name(m.fields@[k].full_name@, m.fields@[k].full_name@),
        ),
{
    lemma_fields_named(m, 0, k);
    let x = PlannedAttribute::Name(m.fields@[k].full_name@, m.fields@[k].full_name@);
    let d = seq![PlannedAttribute::DeriveValidator(m.full_name@)];
    let rest = fields_attributes(m, 0);
    let j = choose|j: int| 0 <= j < rest.len() && rest[j] == x;
    assert((d + rest)[1 + j] == x);
    assert(message_attributes(m) == d + rest);
}

/// The plan for a list of messages derives the validator on each of them,
/// and for messages whose validation is all ignored or disabled, it holds
/// nothing else: one derive per message, in order.
pub proof fn law_plan_derives(ms: Seq<MessageDesc>, i: int)
    requires
        0 <= i <= ms.len(),
    ensures
        forall|k: int| i <= k < ms.len() ==> all_attributes(ms, i).contains(
            PlannedAttribute::DeriveValidator(#[trigger] ms[k].full_name@),
        ),
        (forall|k: int| 0 <= k < ms.len() ==> (#[trigger] ms[k]).ignored || ms[k].disabled) ==> all_attributes(ms, i)
            =~= Seq::new((ms.len() - i) as nat, |k: int| PlannedAttribute::DeriveValidator(ms[i + k].full_name@)),
    decreases ms.len() - i,
{
    if i < ms.len() {
        law_plan_derives(ms, i + 1);
        let mi = message_attributes(ms[i]);
        let rest = all_attributes(ms, i + 1);
        assert(all_attributes(ms, i) == mi + rest);
        assert forall|k: int| i <= k < ms.len() implies all_attributes(ms, i).contains(
            PlannedAttribute::DeriveValidator(#[trigger] ms[k].full_name@),
        ) by {
            let x = PlannedAttribute::DeriveValidator(ms[k].full_name@);
            if k == i {
                assert((mi + rest)[0] == x);
            } else {
                let j = choose|j: int| 0 <= j < rest.len() && rest[j] == x;
                assert((mi + rest)[mi.len() + j] == x);
            }
        }
        if forall|k: int| 0 <= k < ms.len() ==> (#[trigger] ms[k]).ignored || ms[k].disabled {
            law_plan_ignored_message(ms[i]);
        }
    }
}


// ------------------------------------------------------------- numbers

/// Whether the integer `x` satisfies the bounds given: `lt` (or, without
/// it, `lte`) above and `gt` (or, without it, `gte`) below. With both, an
/// upper bound above the lower one asks for a value between them, and one
/// at or below it asks for a value outside the span they leave.
pub open spec fn meets_bounds(x: int, lt: Option<int>, lte: Option<int>, gt: Option<int>, gte: Option<int>) -> bool {
    let under = if lt is Some { x < lt->0 } else if lte is Some { x <= lte->0 } else { true };
    let over = if gt is Some { x > gt->0 } else if gte is Some { x >= gte->0 } else { true };
    let top = if lt is Some { lt } else { lte };
    let bottom = if gt is Some { gt } else { gte };
    if top is Some && bottom is Some && top->0 <= bottom->0 {
        under || over
    } else {
        under && over
    }
}

/// The value of an optional bound.
pub open spec fn bound_value<T: ProtoInt>(b: Option<T>) -> Option<int> {
    match b {
        Some(x) => Some(x.to_int()),
        None => None,
    }
}

/// An integer passes its rules exactly when it is zero under
/// `ignore_empty`, or: it equals the constant, satisfies the bounds, is one
/// of the allowed values when there are any and none of the forbidden ones.
pub proof fn law_number_rules<T: ProtoInt>(v: T, r: NumberRules<T>)
    ensures
        number_valid(v, r) <==> (r.ignore_empty && v.to_int() == 0) || {
            &&& (r.const_ matches Some(c) ==> v.to_int() == c.to_int())
            &&& meets_bounds(
                v.to_int(),
                bound_value(r.lt),
                bound_value(r.lte),
                bound_value(r.gt),
                bound_value(r.gte),
            )
            &&& (r.in_@.len() > 0 ==> exists|i: int|
                0 <= i < r.in_@.len() && (#[trigger] r.in_@[i]).to_int() == v.to_int())
            &&& forall|i: int| 0 <= i < r.not_in@.len() ==> (#[trigger] r.not_in@[i]).to_int() != v.to_int()
        },
{
}

/// Durations pass their rules as their lengths do: exactly when the
/// length equals the constant's, satisfies the bounds, is among the allowed
/// lengths when there are any and among none of the forbidden ones.
pub proof fn law_duration_rules(v: Duration, r: DurationRules)
    ensures
        duration_valid(v, r) <==> {
            &&& (r.const_ matches Some(c) ==> duration_nanos(v) == duration_nanos(c))
            &&& meets_bounds(
                duration_nanos(v),
                bound_value(r.lt),
                bound_value(r.lte),
                bound_value(r.gt),
                bound_value(r.gte),
            )
            &&& (r.in_@.len() > 0 ==> exists|i: int|
                0 <= i < r.in_@.len() && duration_nanos(#[trigger] r.in_@[i]) == duration_nanos(v))
            &&& forall|i: int| 0 <= i < r.not_in@.len() ==> duration_nanos(#[trigger] r.not_in@[i]) != duration_nanos(v)
        },
{
}

/// The constant is the first rule checked: a value other than the constant
/// is reported with `Const`, whatever else it breaks, for integers,
/// strings, bytes and enums alike.
pub proof fn law_const_first<T: ProtoInt>(
    x: T,
    nr: NumberRules<T>,
    s: Seq<char>,
    sr: StringRules,
    b: Seq<u8>,
    br: BytesRules,
    e: i32,
    er: EnumRules,
    defined: Seq<i32>,
)
    ensures
        !(nr.ignore_empty && x.to_int() == 0) && nr.const_ is Some && x.to_int() != nr.const_->0.to_int()
            ==> number_outcome(x, nr, Err(NumberError::Const(nr.const_->0))),
        !(sr.ignore_empty && s.len() == 0) && sr.const_ is Some && s != sr.const_->0@ ==> string_outcome(
            s,
            sr,
            Err(StringError::Const(sr.const_->0)),
        ),
        !(br.ignore_empty && b.len() == 0) && br.const_ is Some && b != br.const_->0@ ==> forall|res: Result<(), BytesError>|
            bytes_outcome(b, br, res) ==> (res matches Err(BytesError::Const(c)) && c@ == br.const_->0@),
        er.const_ is Some && e != er.const_->0 ==> enum_outcome(e, er, defined, Err(EnumError::Const(er.const_->0))),
{
}

// ------------------------------------------------------------- enums and Any

/// An enum value passes its rules exactly when it equals the constant, is
/// one of the allowed values when there are any, none of the forbidden
/// ones, and, under `defined_only`, one of the values its enum defines.
pub proof fn law_enum_rules(v: i32, r: EnumRules, defined: Seq<i32>)
    ensures
        enum_outcome(v, r, defined, Ok(())) <==> {
            &&& (r.const_ matches Some(c) ==> v == c)
            &&& (r.in_@.len() > 0 ==> exists|i: int| 0 <= i < r.in_@.len() && #[trigger] r.in_@[i] == v)
            &&& forall|i: int| 0 <= i < r.not_in@.len() ==> #[trigger] r.not_in@[i] != v
            &&& (r.defined_only == Some(true) ==> exists|i: int| 0 <= i < defined.len() && #[trigger] defined[i] == v)
        },
{
    assert forall|l: Seq<i32>| int_in(v, l) <==> exists|i: int| 0 <= i < l.len() && #[trigger] l[i] == v by {
        if int_in(v, l) {
            let i = choose|i: int| 0 <= i < l.len() && (#[trigger] l[i]).to_int() == v.to_int();
            assert(l[i] == v);
        }
        if exists|i: int| 0 <= i < l.len() && #[trigger] l[i] == v {
            let i = choose|i: int| 0 <= i < l.len() && #[trigger] l[i] == v;
            assert(l[i].to_int() == v.to_int());
        }
    }
}

/// An `Any` field passes its rules exactly when, unset, it is not required,
/// or, set, its type URL is one of the allowed ones when there are any and
/// none of the forbidden ones.
pub proof fn law_any_rules(u: Seq<char>, r: AnyRules)
    ensures
        any_outcome(None, r, Ok(())) <==> !r.required,
        !r.required || any_outcome(None, r, Err(AnyError::Required)),
        any_outcome(Some(u), r, Ok(())) <==> {
            &&& (r.in_@.len() > 0 ==> exists|i: int| 0 <= i < r.in_@.len() && (#[trigger] r.in_@[i])@ == u)
            &&& forall|i: int| 0 <= i < r.not_in@.len() ==> (#[trigger] r.not_in@[i])@ != u
        },
{
}

// ------------------------------------------------------------- counts

/// A list passes only with at least and at most the numbers of items asked
/// (unless it is empty under `ignore_empty`); a list with too few items is
/// reported with `MinItems`, and one with too many (and enough) with
/// `MaxItems`.
pub proof fn law_list_counts(l: Vec<Value>, r: RepeatedRules, now: int, e: Error)
    ensures
        list_valid(l, r, now) && !(r.ignore_empty && l@.len() == 0) ==> {
            &&& (r.min_items matches Some(m) ==> l@.len() >= m)
            &&& (r.max_items matches Some(m) ==> l@.len() <= m)
        },
        r.min_items is Some && l@.len() < r.min_items->0 ==> (list_error(l, r, now, e) <==> e
            == Error::MinItems(r.min_items->0)),
        r.max_items is Some && l@.len() > r.max_items->0 && !(r.min_items is Some && l@.len()
            < r.min_items->0) ==> (list_error(l, r, now, e) <==> e == Error::MaxItems(
            r.max_items->0,
        )),
{
}

/// A map passes only with at least and at most the numbers of entries
/// asked (unless it is empty under `ignore_empty`); a map with too few
/// entries is reported with `MinPairs`, and one with too many (and enough)
/// with `MaxPairs`.
pub proof fn law_map_counts(keys: Vec<Value>, values: Vec<Value>, r: MapRules, now: int, e: Error)
    ensures
        map_valid(FieldValue::Mapping { keys, values }, r, now) && !(r.ignore_empty && keys@.len()
            == 0) ==> {
            &&& (r.min_pairs matches Some(m) ==> keys@.len() >= m)
            &&& (r.max_pairs matches Some(m) ==> keys@.len() <= m)
        },
        r.min_pairs is Some && keys@.len() < r.min_pairs->0 ==> (map_error(
            FieldValue::Mapping { keys, values },
            r,
            now,
            e,
        ) <==> e == Error::MinPairs(r.min_pairs->0)),
        r.max_pairs is Some && keys@.len() > r.max_pairs->0 && !(r.min_pairs is Some
            && keys@.len() < r.min_pairs->0) ==> (map_error(
            FieldValue::Mapping { keys, values },
            r,
            now,
            e,
        ) <==> e == Error::MaxPairs(r.max_pairs->0)),
{
}

// ------------------------------------------------------------- UUIDs

/// A UUID is 36 characters: hyphens at positions 8, 13, 18 and 23, and
/// hexadecimal digits everywhere else.
pub proof fn law_uuid(s: Seq<char>)
    ensures
        uuid_valid(s) <==> s.len() == 36 && s[8] == '-' && s[13] == '-' && s[18] == '-' && s[23]
            == '-' && forall|i: int|
            0 <= i < 36 && i != 8 && i != 13 && i != 18 && i != 23 ==> {
                let c = #[trigger] s[i];
                ('0' <= c <= '9') || ('a' <= c <= 'f') || ('A' <= c <= 'F')
            },
{
    if s.len() == 36 && s[8] == '-' && s[13] == '-' && s[18] == '-' && s[23] == '-' {
        assert(s[8] == s[8]);
    }
}


// ------------------------------------------------------------- messages

/// A nested message decides its field: unless the field's message rules
/// skip it, a set nested message that fails makes the field's value fail,
/// and one that passes lets it pass; a skipped one always passes.
pub proof fn law_nested_message(m: Message, r: FieldValidationInner, optional: bool, now: int)
    ensures
        !message_rules_of(r).skip ==> (value_status(Value::Message(Some(Box::new(m))), r, optional, now)
            is Some <==> message_valid(m, now)),
        message_rules_of(r).skip ==> value_status(Value::Message(Some(Box::new(m))), r, optional, now)
            is Some,
{
}

/// A field outside any oneof that carries rules and fails them makes its
/// message fail, unless the message's validation is disabled.
pub proof fn law_failing_field(m: Message, i: int, now: int)
    requires
        0 <= i < m.fields@.len(),
        m.fields@[i].rules is Some,
        m.fields@[i].oneof is None,
        !crate::message::field_valid(m.fields@[i], now),
        !m.disabled,
    ensures
        !message_valid(m, now),
{
    assert(!block_valid(m, i, m.fields@[i], now));
}

proof fn lemma_set_count_two(fields: Seq<crate::message::Field>, o: usize, i: int, j: int)
    requires
        0 <= i < j < fields.len(),
        fields[i].oneof == Some(o) && fields[i].value is Some,
        fields[j].oneof == Some(o) && fields[j].value is Some,
    ensures
        set_count(fields, o) >= 2,
    decreases fields.len(),
{
    if j < fields.len() - 1 {
        lemma_set_count_two(fields.drop_last(), o, i, j);
    } else {
        lemma_set_count_one(fields.drop_last(), o, i);
    }
}

proof fn lemma_set_count_one(fields: Seq<crate::message::Field>, o: usize, i: int)
    requires
        0 <= i < fields.len(),
        fields[i].oneof == Some(o) && fields[i].value is Some,
    ensures
        set_count(fields, o) >= 1,
    decreases fields.len(),
{
    if i < fields.len() - 1 {
        lemma_set_count_one(fields.drop_last(), o, i);
    }
}

/// A required oneof with two of its fields set, one of them carrying
/// rules, makes its message fail, unless the message's validation is
/// disabled.
pub proof fn law_required_oneof_two_set(m: Message, o: usize, i: int, j: int, now: int)
    requires
        !m.disabled,
        oneof_required(m, o),
        0 <= i < j < m.fields@.len(),
        m.fields@[i].oneof == Some(o) && m.fields@[i].value is Some,
        m.fields@[j].oneof == Some(o) && m.fields@[j].value is Some,
        m.fields@[i].rules is Some || m.fields@[j].rules is Some,
    ensures
        !message_valid(m, now),
{
    lemma_set_count_two(m.fields@, o, i, j);
    let k0 = if m.fields@[i].rules is Some { i } else { j };
    // The first field of the oneof with rules is where the oneof is checked.
    let first = choose|k: int|
        0 <= k <= k0 && m.fields@[k].rules is Some && m.fields@[k].oneof == Some(o) && forall|q: int|
            0 <= q < k ==> !((#[trigger] m.fields@[q]).rules is Some && m.fields@[q].oneof == Some(o));
    lemma_first_with_rules(m, o, k0);
    assert(oneof_first(m, first));
    assert(!block_valid(m, first, m.fields@[first], now));
}

proof fn lemma_first_with_rules(m: Message, o: usize, k0: int)
    requires
        0 <= k0 < m.fields@.len(),
        m.fields@[k0].rules is Some && m.fields@[k0].oneof == Some(o),
    ensures
        exists|k: int|
            0 <= k <= k0 && m.fields@[k].rules is Some && m.fields@[k].oneof == Some(o) && forall|q: int|
                0 <= q < k ==> !((#[trigger] m.fields@[q]).rules is Some && m.fields@[q].oneof == Some(o)),
    decreases k0,
{
    if exists|q: int| 0 <= q < k0 && (#[trigger] m.fields@[q]).rules is Some && m.fields@[q].oneof == Some(o) {
        let q = choose|q: int| 0 <= q < k0 && (#[trigger] m.fields@[q]).rules is Some && m.fields@[q].oneof == Some(o);
        lemma_first_with_rules(m, o, q);
    }
}

// ------------------------------------------------------------- field rules

/// The kind of field that type rules are for.
pub open spec fn rules_kind(t: FieldRules) -> RuleKind {
    match t {
        FieldRules::Repeated(_) => RuleKind::Repeated,
        FieldRules::Message(_) => RuleKind::Message,
        FieldRules::Timestamp(_) => RuleKind::Timestamp,
        FieldRules::Duration(_) => RuleKind::Duration,
        FieldRules::Any(_) => RuleKind::Any,
        FieldRules::String(_) => RuleKind::String,
        FieldRules::Bytes(_) => RuleKind::Bytes,
        FieldRules::Bool(_) => RuleKind::Bool,
        FieldRules::Uint64(_) => RuleKind::Uint64,
        FieldRules::Uint32(_) => RuleKind::Uint32,
        FieldRules::Int64(_) => RuleKind::Int64,
        FieldRules::Int32(_) => RuleKind::Int32,
        FieldRules::Double => RuleKind::Double,
        FieldRules::Float => RuleKind::Float,
        FieldRules::Enum(_) => RuleKind::Enum,
        FieldRules::Sint32(_) => RuleKind::Sint32,
        FieldRules::Sint64(_) => RuleKind::Sint64,
        FieldRules::Fixed32(_) => RuleKind::Fixed32,
        FieldRules::Fixed64(_) => RuleKind::Fixed64,
        FieldRules::Sfixed32(_) => RuleKind::Sfixed32,
        FieldRules::Sfixed64(_) => RuleKind::Sfixed64,
        _ => RuleKind::Message,
    }
}

/// Prost marks the field `p` with the scalar kind `k`.
pub open spec fn marks(p: ProstField, k: RuleKind) -> bool {
    match k {
        RuleKind::Enum => p.enumeration is Some,
        RuleKind::Bool => p.bool is Some,
        RuleKind::String => p.string is Some,
        RuleKind::Bytes => p.bytes is Some,
        RuleKind::Int32 => p.int32 is Some,
        RuleKind::Int64 => p.int64 is Some,
        RuleKind::Uint32 => p.uint32 is Some,
        RuleKind::Uint64 => p.uint64 is Some,
        RuleKind::Sint32 => p.sint32 is Some,
        RuleKind::Sint64 => p.sint64 is Some,
        RuleKind::Fixed32 => p.fixed32 is Some,
        RuleKind::Fixed64 => p.fixed64 is Some,
        RuleKind::Sfixed32 => p.sfixed32 is Some,
        RuleKind::Sfixed64 => p.sfixed64 is Some,
        RuleKind::Float => p.float is Some,
        RuleKind::Double => p.double is Some,
        _ => false,
    }
}

/// On a single scalar field that prost marks with exactly one kind `k`,
/// rules for that kind, or no type rules, fit, and rules for any other
/// kind are reported as not fitting a `k` field; message rules on such a
/// field never fit.
pub proof fn law_scalar_field_rules(f: Field, k: RuleKind)
    requires
        !f.prost.repeated,
        !f.map,
        f.prost.message is None,
        marks(f.prost, k),
        forall|k2: RuleKind| #[trigger] marks(f.prost, k2) ==> k2 == k,
    ensures
        f.validation.message is None && (f.validation.type_ is None || rules_kind(f.validation.type_->0)
            == k) ==> field_misfit(f) is None,
        f.validation.message is None && f.validation.type_ is Some && rules_kind(f.validation.type_->0)
            != k ==> field_misfit(f) == Some(k),
        f.validation.message is Some ==> field_misfit(f) == Some(RuleKind::Message),
{
    assert(marks(f.prost, RuleKind::Enum) ==> k == RuleKind::Enum);
    assert(marks(f.prost, RuleKind::Bool) ==> k == RuleKind::Bool);
    assert(marks(f.prost, RuleKind::String) ==> k == RuleKind::String);
    assert(marks(f.prost, RuleKind::Bytes) ==> k == RuleKind::Bytes);
    assert(marks(f.prost, RuleKind::Int32) ==> k == RuleKind::Int32);
    assert(marks(f.prost, RuleKind::Int64) ==> k == RuleKind::Int64);
    assert(marks(f.prost, RuleKind::Uint32) ==> k == RuleKind::Uint32);
    assert(marks(f.prost, RuleKind::Uint64) ==> k == RuleKind::Uint64);
    assert(marks(f.prost, RuleKind::Sint32) ==> k == RuleKind::Sint32);
    assert(marks(f.prost, RuleKind::Sint64) ==> k == RuleKind::Sint64);
    assert(marks(f.prost, RuleKind::Fixed32) ==> k == RuleKind::Fixed32);
    assert(marks(f.prost, RuleKind::Fixed64) ==> k == RuleKind::Fixed64);
    assert(marks(f.prost, RuleKind::Sfixed32) ==> k == RuleKind::Sfixed32);
    assert(marks(f.prost, RuleKind::Sfixed64) ==> k == RuleKind::Sfixed64);
    assert(marks(f.prost, RuleKind::Float) ==> k == RuleKind::Float);
    assert(marks(f.prost, RuleKind::Double) ==> k == RuleKind::Double);
}

/// Type rules on a repeated field that are not repeated rules never fit.
pub proof fn law_repeated_field_rules(f: Field)
    requires
        f.prost.repeated,
        f.validation.type_ is Some,
        !(f.validation.type_->0 is Repeated),
    ensures
        field_misfit(f) == Some(RuleKind::Repeated),
{
}


// ------------------------------------------------------------- formats

proof fn lemma_run_len_bound(t: Seq<char>, i: int, sep: char)
    requires
        0 <= i < t.len(),
    ensures
        crate::formats::run_len(t, i, sep) <= i + 1,
        (forall|j: int| 0 <= j <= i ==> #[trigger] t[j] != sep) ==> crate::formats::run_len(t, i, sep)
            == i + 1,
    decreases i,
{
    reveal_with_fuel(crate::formats::run_len, 2);
    if i > 0 {
        lemma_run_len_bound(t, i - 1, sep);
    }
}

/// A single label of 1 to 63 letters and digits is a hostname, with or
/// without a trailing dot, while 64 of them (or more) are too long for one
/// label; a hostname never starts with a hyphen or a dot, and one of more
/// than 254 characters is too long.
pub proof fn law_hostname_labels(s: Seq<char>)
    ensures
        0 < s.len() <= 63 && (forall|i: int|
            0 <= i < s.len() ==> is_alpha(#[trigger] s[i]) || is_digit(s[i])) ==> hostname_valid(s)
            && hostname_valid(s.push('.')),
        s.len() >= 64 && (forall|i: int| 0 <= i < s.len() ==> is_alpha(#[trigger] s[i]) || is_digit(s[i]))
            ==> !hostname_valid(s),
        s.len() > 0 && (s[0] == '-' || s[0] == '.') ==> !hostname_valid(s),
        s.len() > 254 ==> !hostname_valid(s),
{
    let alnum = forall|i: int| 0 <= i < s.len() ==> is_alpha(#[trigger] s[i]) || is_digit(s[i]);
    if 0 < s.len() <= 63 && alnum {
        assert(host_part(s) == s);
        assert forall|i: int| 0 <= i < s.len() implies #[trigger] crate::formats::host_pos_ok(s, i) by {
            lemma_run_len_bound(s, i, '.');
        }
        let t = s.push('.');
        assert(host_part(t) =~= s);
    }
    if s.len() >= 64 && alnum {
        assert(host_part(s) == s);
        lemma_run_len_bound(s, 63, '.');
        assert forall|j: int| 0 <= j <= 63 implies #[trigger] s[j] != '.' by {
            assert(is_alpha(s[j]) || is_digit(s[j]));
        }
        assert(!crate::formats::host_pos_ok(s, 63));
    }
    if s.len() > 0 && (s[0] == '-' || s[0] == '.') {
        let t = host_part(s);
        if t.len() > 0 {
            assert(t[0] == s[0]);
            assert(!crate::formats::host_pos_ok(t, 0));
        }
    }
}

/// Four decimal digits separated by dots make an IPv4 address; an IPv4
/// address holds only digits and dots, exactly three dots, and no dot at
/// either end.
pub proof fn law_ipv4_shape(a: char, b: char, c: char, d: char, t: Seq<char>)
    ensures
        is_digit(a) && is_digit(b) && is_digit(c) && is_digit(d) ==> ipv4_valid(
            seq![a, '.', b, '.', c, '.', d],
        ),
        ipv4_valid(t) ==> count_char(t, '.') == 3 && (forall|i: int|
            0 <= i < t.len() ==> is_digit(#[trigger] t[i]) || t[i] == '.'),
        ipv4_valid(t) && t.len() > 0 ==> t[0] != '.' && t.last() != '.',
{
    if is_digit(a) && is_digit(b) && is_digit(c) && is_digit(d) {
        let s = seq![a, '.', b, '.', c, '.', d];
        reveal_with_fuel(count_char, 8);
        assert(s.drop_last() =~= seq![a, '.', b, '.', c, '.']);
        assert(s.drop_last().drop_last() =~= seq![a, '.', b, '.', c]);
        assert(s.drop_last().drop_last().drop_last() =~= seq![a, '.', b, '.']);
        assert(s.drop_last().drop_last().drop_last().drop_last() =~= seq![a, '.', b]);
        assert(s.drop_last().drop_last().drop_last().drop_last().drop_last() =~= seq![a, '.']);
        assert(s.drop_last().drop_last().drop_last().drop_last().drop_last().drop_last() =~= seq![a]);
        assert(seq![a].drop_last() =~= Seq::<char>::empty());
        assert(count_char(s, '.') == 3);
        assert forall|i: int| 0 <= i < s.len() implies #[trigger] ipv4_pos_ok(s, i) by {
            reveal_with_fuel(crate::formats::run_len, 3);
            reveal_with_fuel(crate::formats::group_value, 3);
        }
    }
    if ipv4_valid(t) && t.len() > 0 {
        assert(ipv4_pos_ok(t, 0));
        assert(ipv4_pos_ok(t, t.len() - 1));
    }
    if ipv4_valid(t) {
        assert forall|i: int| 0 <= i < t.len() implies is_digit(#[trigger] t[i]) || t[i] == '.' by {
            assert(ipv4_pos_ok(t, i));
        }
    }
}

/// A header value never holds a line feed, a carriage return or a NUL,
/// strict or not; and a strict header name is made of token characters
/// only, after an optional leading colon.
pub proof fn law_header_line_breaks(s: Seq<char>, strict: bool, i: int)
    requires
        0 <= i < s.len(),
    ensures
        s[i] == '\n' || s[i] == '\r' || s[i] == '\0' ==> !header_value_valid(s, strict),
        s[i] == '\n' || s[i] == '\r' || s[i] == '\0' ==> !header_name_valid(s, strict) || (strict
            && i == 0 && s[0] == ':'),
        header_name_valid(s, true) && i > 0 ==> crate::formats::is_token_char(s[i]),
{
    if s[i] == '\n' || s[i] == '\r' || s[i] == '\0' {
        if strict {
            assert(!crate::formats::is_header_value_char(s[i]));
            if i > 0 || s[0] != ':' {
                let body = crate::formats::header_name_body(s);
                let k = if s.len() > 0 && s[0] == ':' { i - 1 } else { i };
                assert(body[k] == s[i]);
            }
        } else {
            assert(!crate::formats::is_loose_header_char(s[i]));
        }
    }
    if header_name_valid(s, true) && i > 0 {
        let body = crate::formats::header_name_body(s);
        let k = if s.len() > 0 && s[0] == ':' { i - 1 } else { i };
        assert(body[k] == s[i]);
    }
}


// ------------------------------------------------------------- errors

/// Every error reported for a string names a rule of `r` that the string
/// breaks, with that rule's own value.
pub proof fn law_string_errors(v: Seq<char>, r: StringRules, e: StringError)
    requires
        string_outcome(v, r, Err(e)),
    ensures
        !string_valid(v, r),
        match e {
            StringError::Const(c) => r.const_ == Some(c) && v != c@,
            StringError::Len(n) => r.len == Some(n) && v.len() != n,
            StringError::MinLen(n) => r.min_len == Some(n) && v.len() < n,
            StringError::MaxLen(n) => r.max_len == Some(n) && v.len() > n,
            StringError::LenBytes(n) => r.len_bytes == Some(n) && encode_utf8(v).len() != n,
            StringError::MinLenBytes(n) => r.min_bytes == Some(n) && encode_utf8(v).len() < n,
            StringError::MaxLenBytes(n) => r.max_bytes == Some(n) && encode_utf8(v).len() > n,
            StringError::Pattern(p) => r.pattern is Some && (!regex_compiles(r.pattern->0@) || (
            r.pattern == Some(p) && !regex_matches(p@, v))),
            StringError::Prefix(p) => r.prefix == Some(p) && !(p@.len() <= v.len() && v.subrange(
                0,
                p@.len() as int,
            ) == p@),
            StringError::Suffix(p) => r.suffix == Some(p) && !(p@.len() <= v.len() && v.subrange(
                v.len() - p@.len(),
                v.len() as int,
            ) == p@),
            StringError::Contains(p) => r.contains == Some(p) && !occurs_in(v, p@),
            StringError::NotContains(p) => r.not_contains == Some(p) && occurs_in(v, p@),
            StringError::In(l) => l@ == r.in_@ && l@.len() > 0 && forall|i: int|
                0 <= i < l@.len() ==> (#[trigger] l@[i])@ != v,
            StringError::NotIn(l) => l@ == r.not_in@ && exists|i: int|
                0 <= i < l@.len() && (#[trigger] l@[i])@ == v,
            StringError::Email => r.well_known == Some(WellKnown::Email(true)) && !email_valid(v),
            StringError::Hostname => r.well_known == Some(WellKnown::Hostname(true)) && !hostname_valid(v),
            StringError::Ip => r.well_known == Some(WellKnown::Ip(true)) && !ipv4_valid(v) && !ipv6_valid(v),
            StringError::Ipv4 => r.well_known == Some(WellKnown::Ipv4(true)) && !ipv4_valid(v),
            StringError::Ipv6 => r.well_known == Some(WellKnown::Ipv6(true)) && !ipv6_valid(v),
            StringError::Uri => r.well_known == Some(WellKnown::Uri(true)) && !uri_valid(v),
            StringError::UriRef => r.well_known == Some(WellKnown::UriRef(true)) && !uri_ref_valid(v),
            StringError::Address => r.well_known == Some(WellKnown::Address(true)) && !ipv4_valid(v)
                && !ipv6_valid(v) && !hostname_valid(v),
            StringError::Uuid => r.well_known == Some(WellKnown::Uuid(true)) && !uuid_valid(v),
            StringError::HttpHeaderName => r.well_known == Some(WellKnown::WellKnownRegex(1)),
            StringError::HttpHeaderValue => r.well_known == Some(WellKnown::WellKnownRegex(2)),
        },
{
    law_string_rules(v, r);
    match e {
        StringError::Contains(p) => {
            lemma_contains_sub_occurs(v, p@);
        },
        StringError::NotContains(p) => {
            lemma_contains_sub_occurs(v, p@);
        },
        StringError::In(l) => {
            assert forall|i: int| 0 <= i < l@.len() implies (#[trigger] l@[i])@ != v by {
                if l@[i]@ == v {
                    assert(text_in(v, r.in_@));
                }
            }
        },
        _ => {},
    }
}

/// Every error reported for a byte string names a rule of `r` that it
/// breaks, with that rule's own value.
pub proof fn law_bytes_errors(v: Seq<u8>, r: BytesRules, e: BytesError)
    requires
        bytes_outcome(v, r, Err(e)),
    ensures
        !bytes_valid(v, r),
        match e {
            BytesError::Const(c) => r.const_ is Some && c@ == r.const_->0@ && v != c@,
            BytesError::Len(n) => r.len == Some(n) && v.len() != n,
            BytesError::MinLen(n) => r.min_len == Some(n) && v.len() < n,
            BytesError::MaxLen(n) => r.max_len == Some(n) && v.len() > n,
            BytesError::InvalidPattern(p) => r.pattern == Some(p) && !bytes_regex_compiles(p@),
            BytesError::Pattern(p) => r.pattern == Some(p) && !bytes_regex_matches(p@, v),
            BytesError::Prefix(p) => r.prefix is Some && p@ == r.prefix->0@ && !(p@.len() <= v.len()
                && v.subrange(0, p@.len() as int) == p@),
            BytesError::Suffix(p) => r.suffix is Some && p@ == r.suffix->0@ && !(p@.len() <= v.len()
                && v.subrange(v.len() - p@.len(), v.len() as int) == p@),
            BytesError::Contains(p) => r.contains is Some && p@ == r.contains->0@ && !occurs_in(v, p@),
            BytesError::In(l) => l@.len() == r.in_@.len() && l@.len() > 0 && forall|i: int|
                0 <= i < l@.len() ==> (#[trigger] l@[i])@ == r.in_@[i]@ && l@[i]@ != v,
            BytesError::NotIn(l) => l@.len() == r.not_in@.len() && exists|i: int|
                0 <= i < l@.len() && (#[trigger] l@[i])@ == v,
            BytesError::Ip => r.well_known == Some(BytesWellKnown::Ip(true)) && v.len() != 4 && v.len() != 16,
            BytesError::Ipv4 => r.well_known == Some(BytesWellKnown::Ipv4(true)) && v.len() != 4,
            BytesError::Ipv6 => r.well_known == Some(BytesWellKnown::Ipv6(true)) && v.len() != 16,
        },
{
    law_bytes_rules(v, r);
    match e {
        BytesError::Contains(p) => {
            lemma_contains_sub_occurs(v, p@);
        },
        BytesError::In(l) => {
            assert forall|i: int| 0 <= i < l@.len() implies (#[trigger] l@[i])@ == r.in_@[i]@ && l@[i]@ != v by {
                if l@[i]@ == v {
                    assert(r.in_@[i]@ == v);
                    assert(bytes_in(v, r.in_@));
                }
            }
        },
        BytesError::NotIn(l) => {
            let k = choose|k: int| 0 <= k < r.not_in@.len() && (#[trigger] r.not_in@[k])@ == v;
            assert(l@[k]@ == v);
        },
        _ => {},
    }
}

/// Every error reported for an integer names a rule of `r` that it breaks:
/// a constant it differs from, a bound it crosses, allowed values it is
/// not among or a forbidden value it equals.
pub proof fn law_number_errors<T: ProtoInt>(v: T, r: NumberRules<T>, e: NumberError<T>)
    requires
        number_outcome(v, r, Err(e)),
    ensures
        !number_valid(v, r),
        match e {
            NumberError::Const(c) => r.const_ == Some(c) && v.to_int() != c.to_int(),
            NumberError::Lt(b) => r.lt == Some(b) && v.to_int() >= b.to_int(),
            NumberError::Lte(b) => r.lt is None && r.lte == Some(b) && v.to_int() > b.to_int(),
            NumberError::Gt(b) => r.gt == Some(b) && v.to_int() <= b.to_int(),
            NumberError::Gte(b) => r.gt is None && r.gte == Some(b) && v.to_int() < b.to_int(),
            NumberError::InRange { lower, upper, .. } => lower.to_int() < upper.to_int()
                && !meets_bounds(
                v.to_int(),
                bound_value(r.lt),
                bound_value(r.lte),
                bound_value(r.gt),
                bound_value(r.gte),
            ),
            NumberError::NotInRange { .. } => !meets_bounds(
                v.to_int(),
                bound_value(r.lt),
                bound_value(r.lte),
                bound_value(r.gt),
                bound_value(r.gte),
            ),
            NumberError::In(l) => l@ == r.in_@ && l@.len() > 0 && forall|i: int|
                0 <= i < l@.len() ==> (#[trigger] l@[i]).to_int() != v.to_int(),
            NumberError::NotIn(l) => l@ == r.not_in@ && exists|i: int|
                0 <= i < l@.len() && (#[trigger] l@[i]).to_int() == v.to_int(),
        },
{
    law_number_rules(v, r);
}

} // verus!
