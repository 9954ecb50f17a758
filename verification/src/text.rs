//! Operations on sequences of characters and bytes that string and bytes
//! rules are stated with.
use vstd::prelude::*;
use vstd::string::StrSliceExecFns;

verus! {

/// `p` is a prefix of `s`.
pub open spec fn is_prefix<A>(p: Seq<A>, s: Seq<A>) -> bool {
    p.len() <= s.len() && s.subrange(0, p.len() as int) == p
}

/// `p` is a suffix of `s`.
pub open spec fn is_suffix<A>(p: Seq<A>, s: Seq<A>) -> bool {
    p.len() <= s.len() && s.subrange(s.len() - p.len(), s.len() as int) == p
}

/// `sub` occurs in `s` at position `i`.
pub open spec fn occurs_at<A>(s: Seq<A>, sub: Seq<A>, i: int) -> bool {
    0 <= i && i + sub.len() <= s.len() && s.subrange(i, i + sub.len()) == sub
}

/// `sub` occurs somewhere in `s` (the empty sequence occurs everywhere).
pub open spec fn contains_sub<A>(s: Seq<A>, sub: Seq<A>) -> bool {
    exists|i: int| occurs_at(s, sub, i)
}

/// The characters of `s`.
pub fn chars_of(s: &str) -> (r: Vec<char>)
    ensures
        r@ == s@,
{
    let n = s.unicode_len();
    let mut r: Vec<char> = Vec::new();
    let mut i: usize = 0;
    while i < n
        invariant
            n == s@.len(),
            i <= n,
            r@ == s@.subrange(0, i as int),
        decreases n - i,
    {
        r.push(s.get_char(i));
        i = i + 1;
        assert(r@ =~= s@.subrange(0, i as int));
    }
    assert(r@ =~= s@);
    r
}

/// Characters and bytes, compared for equality.
pub trait Atom: Copy + Sized {
    /// Whether the two are equal.
    fn same(&self, other: &Self) -> (b: bool)
        ensures
            b == (*self == *other),
    ;
}

impl Atom for char {
    fn same(&self, other: &Self) -> (b: bool) {
        *self == *other
    }
}

impl Atom for u8 {
    fn same(&self, other: &Self) -> (b: bool) {
        *self == *other
    }
}

/// Whether `sub` occurs in `s` at position `i`.
pub fn occurs_at_exec<A: Atom>(s: &Vec<A>, sub: &Vec<A>, i: usize) -> (b: bool)
    requires
        i + sub@.len() <= s@.len(),
    ensures
        b == (s@.subrange(i as int, i + sub@.len()) == sub@),
{
    let n = s.len();
    let mut j: usize = 0;
    while j < sub.len()
        invariant
            n == s@.len(),
            i + sub@.len() <= s@.len(),
            j <= sub@.len(),
            forall|k: int| 0 <= k < j ==> s@[i + k] == sub@[k],
        decreases sub.len() - j,
    {
        if !s[i + j].same(&sub[j]) {
            assert(s@.subrange(i as int, i + sub@.len())[j as int] != sub@[j as int]);
            return false;
        }
        j = j + 1;
    }
    assert(s@.subrange(i as int, i + sub@.len()) =~= sub@);
    true
}

/// Whether `p` is a prefix of `s`.
pub fn starts_with<A: Atom>(s: &Vec<A>, p: &Vec<A>) -> (b: bool)
    ensures
        b == is_prefix(p@, s@),
{
    if p.len() > s.len() {
        return false;
    }
    occurs_at_exec(s, p, 0)
}

/// Whether `p` is a suffix of `s`.
pub fn ends_with<A: Atom>(s: &Vec<A>, p: &Vec<A>) -> (b: bool)
    ensures
        b == is_suffix(p@, s@),
{
    if p.len() > s.len() {
        return false;
    }
    occurs_at_exec(s, p, s.len() - p.len())
}

/// Whether `sub` occurs somewhere in `s`.
pub fn contains<A: Atom>(s: &Vec<A>, sub: &Vec<A>) -> (b: bool)
    ensures
        b == contains_sub(s@, sub@),
{
    if sub.len() > s.len() {
        assert forall|i: int| !occurs_at(s@, sub@, i) by {}
        return false;
    }
    let last = s.len() - sub.len();
    let mut i: usize = 0;
    while i < last
        invariant
            sub@.len() <= s@.len(),
            last == s@.len() - sub@.len(),
            i <= last,
            forall|k: int| 0 <= k < i ==> !occurs_at(s@, sub@, k),
        decreases last - i,
    {
        if occurs_at_exec(s, sub, i) {
            assert(occurs_at(s@, sub@, i as int));
            return true;
        }
        i = i + 1;
    }
    if occurs_at_exec(s, sub, last) {
        assert(occurs_at(s@, sub@, last as int));
        return true;
    }
    assert forall|k: int| !occurs_at(s@, sub@, k) by {
        if 0 <= k <= last {
        }
    }
    false
}

/// Appends `c` to `s` (`String::push`, which the standard library
/// documents as appending the character to the end of the string).
#[verifier::external_body]
pub(crate) fn push_char(s: &mut String, c: char)
    ensures
        final(s)@ == old(s)@.push(c),
{
    s.push(c);
}

/// Appends the characters of `t` to `s`.
pub fn push_text(s: &mut String, t: &str)
    ensures
        final(s)@ == old(s)@ + t@,
{
    let cs = chars_of(t);
    let ghost start = s@;
    let mut i: usize = 0;
    while i < cs.len()
        invariant
            i <= cs@.len(),
            cs@ == t@,
            s@ == start + cs@.subrange(0, i as int),
        decreases cs@.len() - i,
    {
        push_char(s, cs[i]);
        i = i + 1;
        assert(s@ =~= start + cs@.subrange(0, i as int));
    }
    assert(cs@.subrange(0, cs@.len() as int) =~= cs@);
}

/// The `Debug` rendering of a string: between double quotes, with the
/// characters that need it escaped (as `str::escape_debug` does).
pub uninterp spec fn debug_quoted(s: Seq<char>) -> Seq<char>;

/// `format!("{:?}", s)`, the `Debug` rendering of the string `s`. The
/// contract names the result, which depends on `s` alone.
#[verifier::external_body]
pub(crate) fn debug_string(s: &str) -> (r: String)
    ensures
        r@ == debug_quoted(s@),
{
    format!("{:?}", s)
}

/// The string made of the characters `v`.
pub fn string_of(v: &Vec<char>) -> (s: String)
    ensures
        s@ == v@,
{
    let mut s = String::new();
    let mut i: usize = 0;
    while i < v.len()
        invariant
            i <= v@.len(),
            s@ == v@.subrange(0, i as int),
        decreases v@.len() - i,
    {
        push_char(&mut s, v[i]);
        i = i + 1;
        assert(s@ =~= v@.subrange(0, i as int));
    }
    assert(v@.subrange(0, v@.len() as int) =~= v@);
    s
}

/// A white-space character (the Unicode `White_Space` property, as
/// `char::is_whitespace` has it).
pub open spec fn is_ws(c: char) -> bool {
    ||| '\t' <= c <= '\r'
    ||| c == ' '
    ||| c == '\u{85}'
    ||| c == '\u{A0}'
    ||| c == '\u{1680}'
    ||| '\u{2000}' <= c <= '\u{200A}'
    ||| c == '\u{2028}'
    ||| c == '\u{2029}'
    ||| c == '\u{202F}'
    ||| c == '\u{205F}'
    ||| c == '\u{3000}'
}

fn ws(c: char) -> (b: bool)
    ensures
        b == is_ws(c),
{
    ('\t' <= c && c <= '\r') || c == ' ' || c == '\u{85}' || c == '\u{A0}' || c == '\u{1680}'
        || ('\u{2000}' <= c && c <= '\u{200A}') || c == '\u{2028}' || c == '\u{2029}' || c
        == '\u{202F}' || c == '\u{205F}' || c == '\u{3000}'
}

/// The number of white-space characters that start `s`.
pub open spec fn leading_ws(s: Seq<char>) -> nat
    decreases s.len(),
{
    if s.len() > 0 && is_ws(s[0]) {
        1 + leading_ws(s.drop_first())
    } else {
        0
    }
}

/// The number of white-space characters that end `s`.
pub open spec fn trailing_ws(s: Seq<char>) -> nat
    decreases s.len(),
{
    if s.len() > 0 && is_ws(s.last()) {
        1 + trailing_ws(s.drop_last())
    } else {
        0
    }
}

proof fn lemma_leading_ws_bound(s: Seq<char>)
    ensures
        leading_ws(s) <= s.len(),
    decreases s.len(),
{
    if s.len() > 0 && is_ws(s[0]) {
        lemma_leading_ws_bound(s.drop_first());
    }
}

proof fn lemma_trailing_ws_bound(s: Seq<char>)
    ensures
        trailing_ws(s) <= s.len(),
    decreases s.len(),
{
    if s.len() > 0 && is_ws(s.last()) {
        lemma_trailing_ws_bound(s.drop_last());
    }
}

/// `s` without its leading and trailing white space (`str::trim`).
pub open spec fn trim(s: Seq<char>) -> Seq<char> {
    let t = s.subrange(leading_ws(s) as int, s.len() as int);
    t.subrange(0, t.len() - trailing_ws(t))
}

/// The characters of `s` from `a` to `b`, without their leading and
/// trailing white space.
pub fn trim_chars(s: &Vec<char>, a: usize, b: usize) -> (r: Vec<char>)
    requires
        a <= b <= s@.len(),
    ensures
        r@ == trim(s@.subrange(a as int, b as int)),
{
    let ghost u = s@.subrange(a as int, b as int);
    let mut i: usize = a;
    while i < b && ws(s[i])
        invariant
            a <= i <= b <= s@.len(),
            u == s@.subrange(a as int, b as int),
            leading_ws(u) == (i - a) + leading_ws(s@.subrange(i as int, b as int)),
        decreases b - i,
    {
        assert(s@.subrange(i as int, b as int).drop_first() =~= s@.subrange(i + 1, b as int));
        i = i + 1;
    }
    proof {
        if i < b {
            assert(s@.subrange(i as int, b as int)[0] == s@[i as int]);
        }
        lemma_leading_ws_bound(u);
    }
    assert(u.subrange(leading_ws(u) as int, u.len() as int) =~= s@.subrange(i as int, b as int));
    let ghost t = s@.subrange(i as int, b as int);
    let mut j: usize = b;
    while j > i && ws(s[j - 1])
        invariant
            i <= j <= b <= s@.len(),
            t == s@.subrange(i as int, b as int),
            trailing_ws(t) == (b - j) + trailing_ws(s@.subrange(i as int, j as int)),
        decreases j - i,
    {
        assert(s@.subrange(i as int, j as int).drop_last() =~= s@.subrange(i as int, j - 1));
        j = j - 1;
    }
    proof {
        if j > i {
            assert(s@.subrange(i as int, j as int).last() == s@[j - 1]);
        }
        lemma_trailing_ws_bound(t);
    }
    let r = crate::formats::sub_chars(s, i, j);
    assert(r@ =~= t.subrange(0, t.len() - trailing_ws(t)));
    r
}

/// Whether the two sequences are equal.
pub fn equal_vecs<A: Atom>(a: &Vec<A>, b: &Vec<A>) -> (r: bool)
    ensures
        r == (a@ == b@),
{
    if a.len() != b.len() {
        return false;
    }
    let r = starts_with(a, b);
    assert(a@.subrange(0, b@.len() as int) =~= a@);
    r
}

} // verus!
