//! The well-known string formats of the string rules: UUIDs, HTTP header
//! names and values, hostnames, IP addresses, email addresses and URIs.
use vstd::prelude::*;

verus! {

/// An ASCII letter.
pub open spec fn is_alpha(c: char) -> bool {
    ('a' <= c && c <= 'z') || ('A' <= c && c <= 'Z')
}

/// An ASCII decimal digit.
pub open spec fn is_digit(c: char) -> bool {
    '0' <= c && c <= '9'
}

/// An ASCII hexadecimal digit, in either case.
pub open spec fn is_hex(c: char) -> bool {
    is_digit(c) || ('a' <= c && c <= 'f') || ('A' <= c && c <= 'F')
}

/// The value of a decimal digit.
pub open spec fn digit_value(c: char) -> int {
    (c as int) - ('0' as int)
}

fn alpha(c: char) -> (b: bool)
    ensures
        b == is_alpha(c),
{
    ('a' <= c && c <= 'z') || ('A' <= c && c <= 'Z')
}

fn digit(c: char) -> (b: bool)
    ensures
        b == is_digit(c),
{
    '0' <= c && c <= '9'
}

fn hex(c: char) -> (b: bool)
    ensures
        b == is_hex(c),
{
    digit(c) || ('a' <= c && c <= 'f') || ('A' <= c && c <= 'F')
}

// ---------------------------------------------------------------- UUID

/// The positions of the hyphens in the textual form of a UUID.
pub open spec fn is_uuid_hyphen_position(i: int) -> bool {
    i == 8 || i == 13 || i == 18 || i == 23
}

/// `s` is a UUID: 32 hexadecimal digits in groups of 8, 4, 4, 4 and 12,
/// separated by hyphens.
pub open spec fn uuid_valid(s: Seq<char>) -> bool {
    s.len() == 36 && forall|i: int|
        0 <= i < 36 ==> if is_uuid_hyphen_position(i) {
            s[i] == '-'
        } else {
            is_hex(#[trigger] s[i])
        }
}

/// Whether `s` is a UUID.
pub fn is_uuid(s: &Vec<char>) -> (b: bool)
    ensures
        b == uuid_valid(s@),
{
    if s.len() != 36 {
        return false;
    }
    let mut i: usize = 0;
    while i < 36
        invariant
            s@.len() == 36,
            i <= 36,
            forall|j: int|
                0 <= j < i ==> if is_uuid_hyphen_position(j) {
                    s@[j] == '-'
                } else {
                    is_hex(#[trigger] s@[j])
                },
        decreases 36 - i,
    {
        let c = s[i];
        if i == 8 || i == 13 || i == 18 || i == 23 {
            if c != '-' {
                return false;
            }
        } else if !hex(c) {
            return false;
        }
        i = i + 1;
    }
    true
}

// ---------------------------------------------------------------- HTTP headers

/// A character of an HTTP token (RFC 7230): a letter, a digit, or one of
/// ``!#$%&'*+,-.^_|~` ``.
pub open spec fn is_token_char(c: char) -> bool {
    is_alpha(c) || is_digit(c) || c == '!' || c == '#' || c == '$' || c == '%' || c == '&'
        || c == '\'' || c == '*' || c == '+' || c == ',' || c == '-' || c == '.' || c == '^'
        || c == '_' || c == '|' || c == '~' || c == '`'
}

fn token_char(c: char) -> (b: bool)
    ensures
        b == is_token_char(c),
{
    alpha(c) || digit(c) || c == '!' || c == '#' || c == '$' || c == '%' || c == '&' || c
        == '\'' || c == '*' || c == '+' || c == ',' || c == '-' || c == '.' || c == '^' || c
        == '_' || c == '|' || c == '~' || c == '`'
}

/// A character that a header holds in non-strict mode: anything but NUL,
/// line feed and carriage return.
pub open spec fn is_loose_header_char(c: char) -> bool {
    c != '\0' && c != '\n' && c != '\r'
}

/// A character of a strict header value: anything but the control
/// characters (tab excepted) and DEL.
pub open spec fn is_header_value_char(c: char) -> bool {
    !((c as u32) <= 8 || (10 <= (c as u32) && (c as u32) <= 31) || (c as u32) == 127)
}

/// A header name without its leading colon, if it has one.
pub open spec fn header_name_body(s: Seq<char>) -> Seq<char> {
    if s.len() > 0 && s[0] == ':' {
        s.skip(1)
    } else {
        s
    }
}

/// `s` is an HTTP header name: in strict mode an optional leading colon and
/// one or more token characters; otherwise any text without NUL, line feed
/// or carriage return.
pub open spec fn header_name_valid(s: Seq<char>, strict: bool) -> bool {
    if strict {
        let body = header_name_body(s);
        body.len() > 0 && forall|i: int| 0 <= i < body.len() ==> is_token_char(#[trigger] body[i])
    } else {
        forall|i: int| 0 <= i < s.len() ==> is_loose_header_char(#[trigger] s[i])
    }
}

/// `s` is an HTTP header value: in strict mode no control character but
/// tab and no DEL; otherwise no NUL, line feed or carriage return.
pub open spec fn header_value_valid(s: Seq<char>, strict: bool) -> bool {
    if strict {
        forall|i: int| 0 <= i < s.len() ==> is_header_value_char(#[trigger] s[i])
    } else {
        forall|i: int| 0 <= i < s.len() ==> is_loose_header_char(#[trigger] s[i])
    }
}

/// Whether `c` passes the check that `kind` names: 0 for token characters,
/// 1 for strict header values, 2 for non-strict headers.
pub open spec fn char_ok(kind: u8, c: char) -> bool {
    if kind == 0 {
        is_token_char(c)
    } else if kind == 1 {
        is_header_value_char(c)
    } else {
        is_loose_header_char(c)
    }
}

/// Every character of `s` from `start` on passes the check that `kind`
/// names.
pub open spec fn all_ok(s: Seq<char>, start: int, kind: u8) -> bool {
    forall|i: int| start <= i < s.len() ==> char_ok(kind, #[trigger] s[i])
}

/// Whether every character of `s` from `start` on passes the check that
/// `kind` names.
fn all_chars(s: &Vec<char>, start: usize, kind: u8) -> (b: bool)
    requires
        start <= s@.len(),
    ensures
        b == all_ok(s@, start as int, kind),
{
    let mut i: usize = start;
    while i < s.len()
        invariant
            start <= i <= s@.len(),
            forall|j: int| start <= j < i ==> char_ok(kind, #[trigger] s@[j]),
        decreases s.len() - i,
    {
        let c = s[i];
        let ok = if kind == 0 {
            token_char(c)
        } else if kind == 1 {
            !((c as u32) <= 8 || (10 <= (c as u32) && (c as u32) <= 31) || (c as u32) == 127)
        } else {
            c != '\0' && c != '\n' && c != '\r'
        };
        if !ok {
            assert(!char_ok(kind, s@[i as int]));
            return false;
        }
        i = i + 1;
    }
    true
}

/// `s` without its first character.
fn skip_first(s: &Vec<char>) -> (r: Vec<char>)
    requires
        s@.len() > 0,
    ensures
        r@ == s@.skip(1),
{
    let mut r: Vec<char> = Vec::new();
    let mut i: usize = 1;
    while i < s.len()
        invariant
            1 <= i <= s@.len(),
            r@ == s@.subrange(1, i as int),
        decreases s.len() - i,
    {
        r.push(s[i]);
        i = i + 1;
        assert(r@ =~= s@.subrange(1, i as int));
    }
    assert(r@ =~= s@.skip(1));
    r
}

/// Whether `s` is an HTTP header name.
pub fn is_header_name(s: &Vec<char>, strict: bool) -> (b: bool)
    ensures
        b == header_name_valid(s@, strict),
{
    if strict {
        let body: Vec<char> = if s.len() > 0 && s[0] == ':' {
            skip_first(s)
        } else {
            crate::number::copy_vec(s)
        };
        let ok = body.len() > 0 && all_chars(&body, 0, 0);
        assert(all_ok(body@, 0, 0) == forall|i: int|
            0 <= i < body@.len() ==> is_token_char(#[trigger] body@[i]));
        ok
    } else {
        let ok = all_chars(s, 0, 2);
        assert(all_ok(s@, 0, 2) == forall|i: int|
            0 <= i < s@.len() ==> is_loose_header_char(#[trigger] s@[i]));
        ok
    }
}

/// Whether `s` is an HTTP header value.
pub fn is_header_value(s: &Vec<char>, strict: bool) -> (b: bool)
    ensures
        b == header_value_valid(s@, strict),
{
    let ok = all_chars(s, 0, if strict { 1 } else { 2 });
    assert(all_ok(s@, 0, 1) == forall|i: int|
        0 <= i < s@.len() ==> is_header_value_char(#[trigger] s@[i]));
    assert(all_ok(s@, 0, 2) == forall|i: int|
        0 <= i < s@.len() ==> is_loose_header_char(#[trigger] s@[i]));
    ok
}

// ---------------------------------------------------------------- hostnames

/// A hostname without its trailing dot, if it has one.
pub open spec fn host_part(s: Seq<char>) -> Seq<char> {
    if s.len() > 0 && s.last() == '.' {
        s.drop_last()
    } else {
        s
    }
}

/// A character a hostname may hold: a letter, a digit, a hyphen or a dot.
pub open spec fn is_host_char(c: char) -> bool {
    is_alpha(c) || is_digit(c) || c == '-' || c == '.'
}

/// Position `i` of `t` starts a run of characters between separators
/// `sep`.
pub open spec fn run_start(t: Seq<char>, i: int, sep: char) -> bool {
    i == 0 || t[i - 1] == sep
}

/// Position `i` of `t` ends a run of characters between separators `sep`.
pub open spec fn run_end(t: Seq<char>, i: int, sep: char) -> bool {
    i == t.len() - 1 || t[i + 1] == sep
}

/// The number of consecutive characters other than `sep` that end at
/// position `i` of `t`.
pub open spec fn run_len(t: Seq<char>, i: int, sep: char) -> nat
    decreases i + 1,
{
    if i < 0 || i >= t.len() || t[i] == sep {
        0
    } else {
        1 + run_len(t, i - 1, sep)
    }
}

/// Position `i` of the dotless hostname `t` is well formed: an allowed
/// character, neither a hyphen nor a dot at the start or end of a label,
/// and the label so far at most 63 characters long.
pub open spec fn host_pos_ok(t: Seq<char>, i: int) -> bool {
    &&& is_host_char(t[i])
    &&& (run_start(t, i, '.') ==> t[i] != '-' && t[i] != '.')
    &&& (run_end(t, i, '.') ==> t[i] != '-' && t[i] != '.')
    &&& run_len(t, i, '.') <= 63
}

/// `s` is a hostname: after dropping one trailing dot, 1 to 253 characters
/// forming non-empty dot-separated labels of at most 63 letters, digits and
/// hyphens, no label starting or ending with a hyphen.
pub open spec fn hostname_valid(s: Seq<char>) -> bool {
    let t = host_part(s);
    &&& 0 < t.len() <= 253
    &&& forall|i: int| 0 <= i < t.len() ==> #[trigger] host_pos_ok(t, i)
}

/// `s` without its last character, if that is a dot.
fn drop_trailing_dot(s: &Vec<char>) -> (r: Vec<char>)
    ensures
        r@ == host_part(s@),
{
    let n = s.len();
    let m: usize = if n > 0 && s[n - 1] == '.' {
        n - 1
    } else {
        n
    };
    let mut r: Vec<char> = Vec::new();
    let mut i: usize = 0;
    while i < m
        invariant
            m <= n == s@.len(),
            i <= m,
            r@ == s@.subrange(0, i as int),
        decreases m - i,
    {
        r.push(s[i]);
        i = i + 1;
        assert(r@ =~= s@.subrange(0, i as int));
    }
    assert(r@ =~= host_part(s@));
    r
}

/// Whether `s` is a hostname.
pub fn is_hostname(s: &Vec<char>) -> (b: bool)
    ensures
        b == hostname_valid(s@),
{
    let t = drop_trailing_dot(s);
    let n = t.len();
    if n == 0 || n > 253 {
        return false;
    }
    let mut run: usize = 0;
    let mut i: usize = 0;
    while i < n
        invariant
            t@ == host_part(s@),
            n == t@.len(),
            0 < n <= 253,
            i <= n,
            run == run_len(t@, i - 1, '.'),
            run <= 63,
            forall|j: int| 0 <= j < i ==> #[trigger] host_pos_ok(t@, j),
        decreases n - i,
    {
        let c = t[i];
        let start = i == 0 || t[i - 1] == '.';
        let end = i == n - 1 || t[i + 1] == '.';
        let allowed = alpha(c) || digit(c) || c == '-' || c == '.';
        let new_run: usize = if c == '.' {
            0
        } else {
            run + 1
        };
        assert(new_run == run_len(t@, i as int, '.'));
        if !allowed || (start && (c == '-' || c == '.')) || (end && (c == '-' || c == '.'))
            || new_run > 63 {
            assert(!host_pos_ok(t@, i as int));
            return false;
        }
        run = new_run;
        i = i + 1;
    }
    true
}

// ---------------------------------------------------------------- IP addresses

/// The number of occurrences of `c` in `s`.
pub open spec fn count_char(s: Seq<char>, c: char) -> nat
    decreases s.len(),
{
    if s.len() == 0 {
        0
    } else {
        count_char(s.drop_last(), c) + if s.last() == c {
            1nat
        } else {
            0nat
        }
    }
}

/// The decimal value of the run of digits, between separators `sep`, that
/// ends at position `i` of `t`.
pub open spec fn group_value(t: Seq<char>, i: int, sep: char) -> int
    decreases i + 1,
{
    if i < 0 || i >= t.len() || t[i] == sep {
        0
    } else {
        10 * group_value(t, i - 1, sep) + digit_value(t[i])
    }
}

/// Position `i` of `t` is well formed in a dotted-decimal IPv4 address:
/// a digit or a dot, no dot at either end or next to another, at most three
/// digits per part, each part at most 255, and no part of several digits
/// starting with `0`.
pub open spec fn ipv4_pos_ok(t: Seq<char>, i: int) -> bool {
    &&& (is_digit(t[i]) || t[i] == '.')
    &&& (t[i] == '.' ==> !run_start(t, i, '.') && !run_end(t, i, '.'))
    &&& (t[i] != '.' ==> run_len(t, i, '.') <= 3)
    &&& (t[i] != '.' && run_end(t, i, '.') ==> group_value(t, i, '.') <= 255)
    &&& (t[i] == '0' && run_start(t, i, '.') ==> run_end(t, i, '.'))
}

/// `t` is an IPv4 address in dotted-decimal form: four parts of one to
/// three decimal digits, each at most 255, without leading zeros.
pub open spec fn ipv4_valid(t: Seq<char>) -> bool {
    &&& count_char(t, '.') == 3
    &&& forall|i: int| 0 <= i < t.len() ==> #[trigger] ipv4_pos_ok(t, i)
}

/// The characters of `s` from `a` to `b`.
pub fn sub_chars(s: &Vec<char>, a: usize, b: usize) -> (r: Vec<char>)
    requires
        a <= b <= s@.len(),
    ensures
        r@ == s@.subrange(a as int, b as int),
{
    let mut r: Vec<char> = Vec::new();
    let mut i: usize = a;
    while i < b
        invariant
            a <= i <= b <= s@.len(),
            r@ == s@.subrange(a as int, i as int),
        decreases b - i,
    {
        r.push(s[i]);
        i = i + 1;
        assert(r@ =~= s@.subrange(a as int, i as int));
    }
    r
}

/// Whether `t` is an IPv4 address in dotted-decimal form.
pub fn is_ipv4(t: &Vec<char>) -> (b: bool)
    ensures
        b == ipv4_valid(t@),
{
    let n = t.len();
    let mut run: usize = 0;
    let mut value: u32 = 0;
    let mut dots: usize = 0;
    let mut i: usize = 0;
    while i < n
        invariant
            n == t@.len(),
            i <= n,
            run == run_len(t@, i - 1, '.'),
            value == group_value(t@, i - 1, '.'),
            run <= 3,
            run == 0 ==> value == 0,
            run == 1 ==> value < 10,
            run == 2 ==> value < 100,
            run == 3 ==> value < 1000,
            dots <= i,
            dots == count_char(t@.subrange(0, i as int), '.'),
            forall|j: int| 0 <= j < i ==> #[trigger] ipv4_pos_ok(t@, j),
        decreases n - i,
    {
        let c = t[i];
        let start = i == 0 || t[i - 1] == '.';
        let end = i == n - 1 || t[i + 1] == '.';
        assert(t@.subrange(0, i + 1).drop_last() =~= t@.subrange(0, i as int));
        if c == '.' {
            if start || end {
                assert(!ipv4_pos_ok(t@, i as int));
                return false;
            }
            run = 0;
            value = 0;
            dots = dots + 1;
        } else if digit(c) {
            let d: u32 = (c as u32) - ('0' as u32);
            let new_run: usize = run + 1;
            let new_value: u32 = value * 10 + d;
            assert(new_run == run_len(t@, i as int, '.'));
            assert(new_value == group_value(t@, i as int, '.'));
            if new_run > 3 || (end && new_value > 255) || (c == '0' && start && !end) {
                assert(!ipv4_pos_ok(t@, i as int));
                return false;
            }
            run = new_run;
            value = new_value;
        } else {
            assert(!ipv4_pos_ok(t@, i as int));
            return false;
        }
        assert(ipv4_pos_ok(t@, i as int));
        i = i + 1;
    }
    assert(t@.subrange(0, n as int) =~= t@);
    dots == 3
}

/// Position `i` of `t` is well formed in a colon-separated list of groups
/// of one to four hexadecimal digits.
pub open spec fn h16_pos_ok(t: Seq<char>, i: int) -> bool {
    &&& (is_hex(t[i]) || t[i] == ':')
    &&& (t[i] == ':' ==> !run_start(t, i, ':') && !run_end(t, i, ':'))
    &&& (t[i] != ':' ==> run_len(t, i, ':') <= 4)
}

/// `t` is a non-empty colon-separated list of groups of one to four
/// hexadecimal digits.
pub open spec fn h16_list(t: Seq<char>) -> bool {
    &&& t.len() > 0
    &&& forall|i: int| 0 <= i < t.len() ==> #[trigger] h16_pos_ok(t, i)
}

/// `t` is a list of hexadecimal groups, a colon, and an IPv4 address, the
/// colon standing at position `k`.
pub open spec fn ipv4_tail_at(t: Seq<char>, k: int) -> bool {
    &&& 0 <= k < t.len()
    &&& t[k] == ':'
    &&& h16_list(t.subrange(0, k))
    &&& ipv4_valid(t.subrange(k + 1, t.len() as int))
}

/// The number of 16-bit groups that `t` writes out: nothing, a list of
/// hexadecimal groups, an IPv4 address (two groups), or a list of groups
/// followed by an IPv4 address; `None` when `t` is none of these.
pub open spec fn ipv6_groups(t: Seq<char>) -> Option<int> {
    if t.len() == 0 {
        Some(0)
    } else if h16_list(t) {
        Some(count_char(t, ':') + 1int)
    } else if ipv4_valid(t) {
        Some(2)
    } else if exists|k: int| ipv4_tail_at(t, k) {
        Some(count_char(t, ':') + 2int)
    } else {
        None
    }
}

/// `s` holds `::` at position `j`.
pub open spec fn double_colon_at(s: Seq<char>, j: int) -> bool {
    s[j] == ':' && s[j + 1] == ':'
}

/// `s` is an IPv6 address whose `::` (standing for one or more groups of
/// zeros) is at position `p`: the groups before it carry no IPv4 address,
/// and the groups on both sides add up to at most seven.
pub open spec fn ipv6_split_at(s: Seq<char>, p: int) -> bool {
    let head = s.subrange(0, p);
    let tail = s.subrange(p + 2, s.len() as int);
    &&& 0 <= p && p + 2 <= s.len()
    &&& double_colon_at(s, p)
    &&& head.len() == 0 || h16_list(head)
    &&& ipv6_groups(tail) is Some
    &&& (if head.len() == 0 { 0 } else { count_char(head, ':') + 1 })
        + ipv6_groups(tail)->0 <= 7
}

/// `s` is an IPv6 address in text form: eight groups written out, or fewer
/// around one `::`; the last two groups may be written as an IPv4 address.
pub open spec fn ipv6_valid(s: Seq<char>) -> bool {
    ||| ipv6_groups(s) == Some(8int)
    ||| exists|p: int| ipv6_split_at(s, p)
}

/// Whether `t` is a colon-separated list of hexadecimal groups.
fn is_h16_list(t: &Vec<char>) -> (b: bool)
    ensures
        b == h16_list(t@),
{
    let n = t.len();
    if n == 0 {
        return false;
    }
    let mut run: usize = 0;
    let mut i: usize = 0;
    while i < n
        invariant
            n == t@.len(),
            i <= n,
            run == run_len(t@, i - 1, ':'),
            run <= 4,
            forall|j: int| 0 <= j < i ==> #[trigger] h16_pos_ok(t@, j),
        decreases n - i,
    {
        let c = t[i];
        let start = i == 0 || t[i - 1] == ':';
        let end = i == n - 1 || t[i + 1] == ':';
        if c == ':' {
            if start || end {
                assert(!h16_pos_ok(t@, i as int));
                return false;
            }
            run = 0;
        } else if hex(c) {
            assert(run + 1 == run_len(t@, i as int, ':'));
            if run + 1 > 4 {
                assert(!h16_pos_ok(t@, i as int));
                return false;
            }
            run = run + 1;
        } else {
            assert(!h16_pos_ok(t@, i as int));
            return false;
        }
        assert(h16_pos_ok(t@, i as int));
        i = i + 1;
    }
    true
}

/// The number of occurrences of `c` in `t`.
fn count_of(t: &Vec<char>, c: char) -> (r: usize)
    ensures
        r == count_char(t@, c),
{
    let n = t.len();
    let mut r: usize = 0;
    let mut i: usize = 0;
    while i < n
        invariant
            n == t@.len(),
            i <= n,
            r <= i,
            r == count_char(t@.subrange(0, i as int), c),
        decreases n - i,
    {
        assert(t@.subrange(0, i + 1).drop_last() =~= t@.subrange(0, i as int));
        if t[i] == c {
            r = r + 1;
        }
        i = i + 1;
    }
    assert(t@.subrange(0, n as int) =~= t@);
    r
}

/// An IPv4 address holds no colon.
proof fn lemma_ipv4_no_colon(t: Seq<char>, i: int)
    requires
        ipv4_valid(t),
        0 <= i < t.len(),
    ensures
        t[i] != ':',
{
    assert(ipv4_pos_ok(t, i));
}

/// A list of hexadecimal groups holds no `::`.
proof fn lemma_h16_no_double_colon(t: Seq<char>, j: int)
    requires
        h16_list(t),
        0 <= j && j + 1 < t.len(),
    ensures
        !(t[j] == ':' && t[j + 1] == ':'),
{
    assert(h16_pos_ok(t, j + 1));
}

/// The number of 16-bit groups that `t` writes out, as `ipv6_groups`
/// states it.
fn ipv6_group_count(t: &Vec<char>) -> (r: Option<usize>)
    ensures
        match r {
            Some(n) => ipv6_groups(t@) == Some(n as int),
            None => ipv6_groups(t@) is None,
        },
{
    let n = t.len();
    if n == 0 {
        return Some(0);
    }
    if is_h16_list(t) {
        let c = count_of(t, ':');
        assert(c < n) by {
            assert(h16_pos_ok(t@, 0));
            lemma_count_below(t@, ':');
        }
        return Some(c + 1);
    }
    // The last colon, if any.
    let mut k: usize = n;
    let mut i: usize = n;
    while i > 0
        invariant
            n == t@.len(),
            i <= n,
            k == n || (i <= k < n && t@[k as int] == ':'),
            k == n ==> forall|j: int| i <= j < n ==> t@[j] != ':',
            k < n ==> forall|j: int| k < j < n ==> t@[j] != ':',
        decreases i,
    {
        i = i - 1;
        if k == n && t[i] == ':' {
            k = i;
        }
    }
    if k == n {
        let v4 = is_ipv4(t);
        assert forall|j: int| !ipv4_tail_at(t@, j) by {
            if 0 <= j < n {
            }
        }
        if v4 {
            return Some(2);
        }
        return None;
    }
    assert(!ipv4_valid(t@)) by {
        if ipv4_valid(t@) {
            lemma_ipv4_no_colon(t@, k as int);
        }
    }
    let head = sub_chars(t, 0, k);
    let tail = sub_chars(t, k + 1, n);
    let ok = is_h16_list(&head) && is_ipv4(&tail);
    assert forall|j: int| #[trigger] ipv4_tail_at(t@, j) implies j == k by {
        if j < k {
            lemma_ipv4_no_colon(t@.subrange(j + 1, n as int), k - j - 1);
        }
    }
    if ok {
        assert(ipv4_tail_at(t@, k as int));
        let c = count_of(t, ':');
        assert(c + 2 <= n) by {
            lemma_count_below(tail@, '.');
            lemma_ipv4_no_colon(tail@, tail@.len() - 1);
            lemma_ipv4_no_colon(tail@, tail@.len() - 2);
            lemma_count_below_two(t@, ':', n - 2, n - 1);
        }
        return Some(c + 2);
    }
    None
}

/// A character other than `c` bounds the number of occurrences of `c`.
proof fn lemma_count_below(t: Seq<char>, c: char)
    ensures
        count_char(t, c) <= t.len(),
        (exists|j: int| 0 <= j < t.len() && t[j] != c) ==> count_char(t, c) < t.len(),
    decreases t.len(),
{
    if t.len() > 0 {
        lemma_count_below(t.drop_last(), c);
        if t.last() == c {
            if exists|j: int| 0 <= j < t.len() && t[j] != c {
                let j = choose|j: int| 0 <= j < t.len() && t[j] != c;
                assert(t.drop_last()[j] == t[j]);
            }
        }
    }
}

/// Two characters other than `c` bound the number of occurrences of `c`.
proof fn lemma_count_below_two(t: Seq<char>, c: char, j1: int, j2: int)
    requires
        0 <= j1 < j2 < t.len(),
        t[j1] != c,
        t[j2] != c,
    ensures
        count_char(t, c) + 2 <= t.len(),
    decreases t.len(),
{
    if j2 == t.len() - 1 {
        lemma_count_below(t.drop_last(), c);
        assert(t.drop_last()[j1] == t[j1]);
    } else {
        assert(t.drop_last()[j1] == t[j1]);
        assert(t.drop_last()[j2] == t[j2]);
        lemma_count_below_two(t.drop_last(), c, j1, j2);
    }
}

/// Whether `s` is an IPv6 address in text form.
pub fn is_ipv6(s: &Vec<char>) -> (b: bool)
    ensures
        b == ipv6_valid(s@),
{
    let n = s.len();
    let whole = ipv6_group_count(s);
    if let Some(g) = whole {
        if g == 8 {
            return true;
        }
    }
    // The first `::`, if any.
    let mut p: usize = 0;
    while n > 0 && p < n - 1 && !(s[p] == ':' && s[p + 1] == ':')
        invariant
            n == s@.len(),
            p <= n,
            forall|j: int| 0 <= j < p && j + 1 < n ==> !#[trigger] double_colon_at(s@, j),
        decreases n - p,
    {
        p = p + 1;
    }
    if n == 0 || p >= n - 1 {
        assert forall|q: int| !ipv6_split_at(s@, q) by {
            if 0 <= q && q + 2 <= n {
                assert(!double_colon_at(s@, q));
            }
        }
        return false;
    }
    let head = sub_chars(s, 0, p);
    let tail = sub_chars(s, p + 2, n);
    let head_ok = p == 0 || is_h16_list(&head);
    let head_count: usize = if p == 0 {
        0
    } else {
        count_of(&head, ':')
    };
    let tail_count = ipv6_group_count(&tail);
    let ok = match tail_count {
        Some(tc) => head_ok && head_count < 7 && (if p == 0 { tc <= 7 } else { tc <= 6 - head_count }),
        None => false,
    };
    assert forall|q: int| #[trigger] ipv6_split_at(s@, q) implies q == p by {
        if q == p + 1 {
            let h = s@.subrange(0, q);
            assert(h[p as int] == ':');
            if h16_list(h) {
                assert(h16_pos_ok(h, p as int));
            }
        } else if q > p + 1 {
            let h = s@.subrange(0, q);
            assert(h[p as int] == ':' && h[p + 1] == ':');
            lemma_h16_no_double_colon(h, p as int);
        }
    }
    if ok {
        assert(ipv6_split_at(s@, p as int));
    }
    ok
}

/// Whether `s` is an IPv4 or an IPv6 address.
pub fn is_ip(s: &Vec<char>) -> (b: bool)
    ensures
        b == (ipv4_valid(s@) || ipv6_valid(s@)),
{
    is_ipv4(s) || is_ipv6(s)
}

// ---------------------------------------------------------------- email

/// A character that may stand in the local part of an email address besides
/// the dot (the `atext` of RFC 5322).
pub open spec fn is_atext(c: char) -> bool {
    is_alpha(c) || is_digit(c) || c == '!' || c == '#' || c == '$' || c == '%' || c == '&'
        || c == '\'' || c == '*' || c == '+' || c == '-' || c == '/' || c == '=' || c == '?'
        || c == '^' || c == '_' || c == '`' || c == '{' || c == '|' || c == '}' || c == '~'
}

fn atext(c: char) -> (b: bool)
    ensures
        b == is_atext(c),
{
    alpha(c) || digit(c) || c == '!' || c == '#' || c == '$' || c == '%' || c == '&' || c
        == '\'' || c == '*' || c == '+' || c == '-' || c == '/' || c == '=' || c == '?' || c
        == '^' || c == '_' || c == '`' || c == '{' || c == '|' || c == '}' || c == '~'
}

/// Position `i` of the local part `l` is well formed: an `atext` character,
/// or a dot that neither starts nor ends the part nor follows another dot.
pub open spec fn local_pos_ok(l: Seq<char>, i: int) -> bool {
    is_atext(l[i]) || (l[i] == '.' && !run_start(l, i, '.') && !run_end(l, i, '.'))
}

/// `l` is the local part of an email address: 1 to 64 characters forming
/// dot-separated atoms.
pub open spec fn local_part_valid(l: Seq<char>) -> bool {
    &&& 0 < l.len() <= 64
    &&& forall|i: int| 0 <= i < l.len() ==> #[trigger] local_pos_ok(l, i)
}

/// The address `a` is a local part, `@` at position `k`, and a hostname.
pub open spec fn address_split_at(a: Seq<char>, k: int) -> bool {
    &&& 0 <= k < a.len()
    &&& a[k] == '@'
    &&& local_part_valid(a.subrange(0, k))
    &&& hostname_valid(a.subrange(k + 1, a.len() as int))
}

/// `a` is a bare email address of at most 254 characters.
pub open spec fn address_valid(a: Seq<char>) -> bool {
    &&& a.len() <= 254
    &&& exists|k: int| address_split_at(a, k)
}

/// `s` is a display name (without angle brackets), `<` at position `k`, an
/// email address, and `>` at the end.
pub open spec fn named_address_at(s: Seq<char>, k: int) -> bool {
    &&& 0 <= k && k + 2 <= s.len()
    &&& s[k] == '<'
    &&& s.last() == '>'
    &&& forall|j: int| 0 <= j < k ==> #[trigger] s[j] != '<' && s[j] != '>'
    &&& address_valid(s.subrange(k + 1, s.len() - 1))
}

/// `s` is an email address, bare or in the form `Name <address>`.
pub open spec fn email_valid(s: Seq<char>) -> bool {
    ||| address_valid(s)
    ||| exists|k: int| named_address_at(s, k)
}

/// Whether `l` is the local part of an email address.
fn is_local_part(l: &Vec<char>) -> (b: bool)
    ensures
        b == local_part_valid(l@),
{
    let n = l.len();
    if n == 0 || n > 64 {
        return false;
    }
    let mut i: usize = 0;
    while i < n
        invariant
            n == l@.len(),
            0 < n <= 64,
            i <= n,
            forall|j: int| 0 <= j < i ==> #[trigger] local_pos_ok(l@, j),
        decreases n - i,
    {
        let c = l[i];
        let ok = atext(c) || (c == '.' && !(i == 0 || l[i - 1] == '.') && !(i == n - 1 || l[i
            + 1] == '.'));
        if !ok {
            assert(!local_pos_ok(l@, i as int));
            return false;
        }
        i = i + 1;
    }
    true
}

/// The position of the first `c` in `s`, or the length of `s` when it holds
/// none.
pub fn first_index(s: &Vec<char>, c: char) -> (k: usize)
    ensures
        k <= s@.len(),
        k < s@.len() ==> s@[k as int] == c,
        forall|j: int| 0 <= j < k ==> s@[j] != c,
{
    let mut k: usize = 0;
    while k < s.len() && s[k] != c
        invariant
            k <= s@.len(),
            forall|j: int| 0 <= j < k ==> s@[j] != c,
        decreases s@.len() - k,
    {
        k = k + 1;
    }
    k
}

/// Whether `a` is a bare email address.
pub fn is_address(a: &Vec<char>) -> (b: bool)
    ensures
        b == address_valid(a@),
{
    let n = a.len();
    if n > 254 {
        return false;
    }
    let k = first_index(a, '@');
    if k == n {
        return false;
    }
    let local = sub_chars(a, 0, k);
    let domain = sub_chars(a, k + 1, n);
    let ok = is_local_part(&local) && is_hostname(&domain);
    assert forall|q: int| #[trigger] address_split_at(a@, q) implies q == k by {
        if q > k {
            assert(!local_pos_ok(a@.subrange(0, q), k as int));
        }
    }
    if ok {
        assert(address_split_at(a@, k as int));
    }
    ok
}

/// Whether `s` is an email address, bare or in the form `Name <address>`.
pub fn is_email(s: &Vec<char>) -> (b: bool)
    ensures
        b == email_valid(s@),
{
    if is_address(s) {
        return true;
    }
    let n = s.len();
    let k = first_index(s, '<');
    if n < 2 || k > n - 2 || s[n - 1] != '>' {
        assert forall|q: int| !named_address_at(s@, q) by {
            if 0 <= q && q + 2 <= n && s@[q] == '<' {
                assert(q >= k);
            }
        }
        return false;
    }
    let before = first_index(s, '>');
    let inner = sub_chars(s, k + 1, n - 1);
    let ok = before > k && is_address(&inner);
    assert forall|q: int| #[trigger] named_address_at(s@, q) implies q == k by {
        if q > k {
            assert(s@[k as int] != '<');
        }
    }
    if ok {
        assert(named_address_at(s@, k as int));
    } else if before <= k {
        assert(!named_address_at(s@, k as int)) by {
            assert(s@[before as int] == '>');
        }
    }
    ok
}

// ---------------------------------------------------------------- URIs

/// An unreserved character of RFC 3986.
pub open spec fn is_unreserved(c: char) -> bool {
    is_alpha(c) || is_digit(c) || c == '-' || c == '.' || c == '_' || c == '~'
}

/// A reserved character of RFC 3986.
pub open spec fn is_reserved(c: char) -> bool {
    c == ':' || c == '/' || c == '?' || c == '#' || c == '[' || c == ']' || c == '@' || c
        == '!' || c == '$' || c == '&' || c == '\'' || c == '(' || c == ')' || c == '*' || c
        == '+' || c == ',' || c == ';' || c == '='
}

fn uri_char(c: char) -> (b: bool)
    ensures
        b == (is_unreserved(c) || is_reserved(c) || c == '%'),
{
    alpha(c) || digit(c) || c == '-' || c == '.' || c == '_' || c == '~' || c == ':' || c == '/'
        || c == '?' || c == '#' || c == '[' || c == ']' || c == '@' || c == '!' || c == '$' || c
        == '&' || c == '\'' || c == '(' || c == ')' || c == '*' || c == '+' || c == ',' || c
        == ';' || c == '=' || c == '%'
}

/// Position `i` of `s` is well formed in a URI reference: an unreserved or
/// reserved character, or `%` followed by two hexadecimal digits.
pub open spec fn uri_pos_ok(s: Seq<char>, i: int) -> bool {
    &&& (is_unreserved(s[i]) || is_reserved(s[i]) || s[i] == '%')
    &&& (s[i] == '%' ==> i + 2 < s.len() && is_hex(s[i + 1]) && is_hex(s[i + 2]))
}

/// `s` is a URI reference (RFC 3986), absolute or relative: only URI
/// characters, well-formed percent escapes, and at most one `#`.
pub open spec fn uri_ref_valid(s: Seq<char>) -> bool {
    &&& count_char(s, '#') <= 1
    &&& forall|i: int| 0 <= i < s.len() ==> #[trigger] uri_pos_ok(s, i)
}

/// A character of a URI scheme after the first.
pub open spec fn is_scheme_char(c: char) -> bool {
    is_alpha(c) || is_digit(c) || c == '+' || c == '-' || c == '.'
}

/// `s` starts with a scheme (a letter, then letters, digits, `+`, `-` or
/// `.`) that the colon at position `k` ends.
pub open spec fn scheme_end_at(s: Seq<char>, k: int) -> bool {
    &&& 1 <= k < s.len()
    &&& s[k] == ':'
    &&& is_alpha(s[0])
    &&& forall|j: int| 1 <= j < k ==> #[trigger] is_scheme_char(s[j])
}

/// `s` is an absolute URI: a URI reference that starts with a scheme.
pub open spec fn uri_valid(s: Seq<char>) -> bool {
    &&& uri_ref_valid(s)
    &&& exists|k: int| scheme_end_at(s, k)
}

/// Whether `s` is a URI reference.
pub fn is_uri_ref(s: &Vec<char>) -> (b: bool)
    ensures
        b == uri_ref_valid(s@),
{
    let n = s.len();
    let mut i: usize = 0;
    while i < n
        invariant
            n == s@.len(),
            i <= n,
            forall|j: int| 0 <= j < i ==> #[trigger] uri_pos_ok(s@, j),
        decreases n - i,
    {
        let c = s[i];
        let ok = uri_char(c) && (c != '%' || (n >= 2 && i < n - 2 && hex(s[i + 1]) && hex(s[i + 2])));
        if !ok {
            assert(!uri_pos_ok(s@, i as int));
            return false;
        }
        i = i + 1;
    }
    count_of(s, '#') <= 1
}

/// Whether `s` is an absolute URI.
pub fn is_uri(s: &Vec<char>) -> (b: bool)
    ensures
        b == uri_valid(s@),
{
    if !is_uri_ref(s) {
        return false;
    }
    let n = s.len();
    if n == 0 || !alpha(s[0]) {
        return false;
    }
    let mut j: usize = 1;
    while j < n && (alpha(s[j]) || digit(s[j]) || s[j] == '+' || s[j] == '-' || s[j] == '.')
        invariant
            1 <= j <= n == s@.len(),
            forall|q: int| 1 <= q < j ==> #[trigger] is_scheme_char(s@[q]),
        decreases n - j,
    {
        j = j + 1;
    }
    let ok = j < n && s[j] == ':';
    assert forall|k: int| #[trigger] scheme_end_at(s@, k) implies k == j by {
        if k > j {
            assert(is_scheme_char(s@[j as int]));
        } else if k < j {
            assert(is_scheme_char(s@[k]));
        }
    }
    if ok {
        assert(scheme_end_at(s@, j as int));
    }
    ok
}

} // verus!
