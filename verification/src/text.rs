//! Character-level string helpers with exact contracts over `Seq<char>`.

use vstd::prelude::*;

verus! {

/// What `str::to_lowercase` of std returns for a string: its lowercase
/// form under the Unicode database's mappings (a mapping may depend on the
/// characters around it, as a final sigma's does).
pub uninterp spec fn lowercased(s: Seq<char>) -> Seq<char>;

/// Whether a character has the Unicode `White_Space` property.
pub open spec fn white_space(c: char) -> bool {
    let n = c as u32;
    (9 <= n <= 13) || n == 0x20 || n == 0x85 || n == 0xa0 || n == 0x1680 || (0x2000 <= n <= 0x200a)
        || n == 0x2028 || n == 0x2029 || n == 0x202f || n == 0x205f || n == 0x3000
}

/// `char::is_whitespace` of std, which tests the Unicode `White_Space`
/// property, the code points listed in `white_space`.
#[verifier::external_body]
pub(crate) fn is_white_space(c: char) -> (r: bool)
    ensures
        r == white_space(c),
{
    c.is_whitespace()
}

/// The length of the run of characters from index `i` on that are white
/// space (`ws`) or not (`!ws`).
pub open spec fn span(s: Seq<char>, i: int, ws: bool) -> int
    decreases s.len() - i,
{
    if 0 <= i < s.len() && white_space(s[i]) == ws {
        1 + span(s, i + 1, ws)
    } else {
        0
    }
}

/// The length of the run of white space that ends a string's first `n`
/// characters.
pub open spec fn trailing_space(s: Seq<char>, n: int) -> int
    decreases n,
{
    if 0 < n <= s.len() && white_space(s[n - 1]) {
        1 + trailing_space(s, n - 1)
    } else {
        0
    }
}

/// A string without its leading and trailing white space, as `str::trim`
/// of std gives it.
pub open spec fn trimmed(s: Seq<char>) -> Seq<char> {
    let a = span(s, 0, true);
    if a == s.len() {
        Seq::empty()
    } else {
        s.subrange(a, s.len() - trailing_space(s, s.len() as int))
    }
}

/// `String::push` of std: appends one character.
#[verifier::external_body]
pub(crate) fn push_char(s: &mut String, c: char)
    ensures
        final(s)@ == old(s)@.push(c),
{
    s.push(c);
}

/// Whether every character of a text is ASCII.
pub open spec fn ascii_text(s: Seq<char>) -> bool {
    forall|i: int| 0 <= i < s.len() ==> (#[trigger] s[i] as u32) < 128
}

/// The ASCII lowercase of a character: `A` to `Z` become `a` to `z`, any
/// other character stays.
pub open spec fn ascii_lower(c: char) -> char {
    if 'A' <= c && c <= 'Z' { ((c as u32) + 32) as char } else { c }
}

/// `str::to_lowercase` of std; the result is named `lowercased`. Of an ASCII
/// text, the Unicode lowercase is the ASCII one: `A` to `Z` become `a` to
/// `z`, every other character stays.
#[verifier::external_body]
pub(crate) fn to_lowercase(s: &str) -> (r: String)
    ensures
        r@ == lowercased(s@),
        ascii_text(s@) ==> r@ == s@.map_values(|c: char| ascii_lower(c)),
{
    s.to_lowercase()
}

/// `str::trim` of std: the string without the leading and trailing
/// characters that have the Unicode `White_Space` property.
#[verifier::external_body]
pub(crate) fn trim(s: &str) -> (r: &str)
    ensures
        r@ == trimmed(s@),
{
    s.trim()
}

/// Appends a string slice.
pub fn push_str(s: &mut String, t: &str)
    ensures
        final(s)@ == old(s)@ + t@,
{
    s.append(t);
}

/// An owned copy of a string slice.
pub fn to_owned(s: &str) -> (r: String)
    ensures
        r@ == s@,
{
    s.to_string()
}

/// The characters of a string slice, in order.
pub fn chars_of(s: &str) -> (v: Vec<char>)
    ensures
        v@ == s@,
{
    broadcast use vstd::string::group_string_axioms;

    let mut v: Vec<char> = Vec::new();
    for c in it: s.chars()
        invariant
            it.seq() == s@,
            v@ == it.seq().take(it.index() as int),
    {
        v.push(c);
    }
    v
}

/// The string made of the given characters, in order.
pub fn from_chars(v: &[char]) -> (s: String)
    ensures
        s@ == v@,
{
    let mut s = String::new();
    let mut i: usize = 0;
    while i < v.len()
        invariant
            i <= v.len(),
            s@ == v@.subrange(0, i as int),
        decreases v.len() - i,
    {
        push_char(&mut s, v[i]);
        i = i + 1;
    }
    s
}

/// The concatenation of two string slices.
pub fn concat(a: &str, b: &str) -> (r: String)
    ensures
        r@ == a@ + b@,
{
    let mut r = to_owned(a);
    push_str(&mut r, b);
    r
}

/// Equality of two string slices, character by character.
pub fn str_eq(a: &str, b: &str) -> (r: bool)
    ensures
        r == (a@ == b@),
{
    let va = chars_of(a);
    let vb = chars_of(b);
    if va.len() != vb.len() {
        return false;
    }
    let mut i: usize = 0;
    while i < va.len()
        invariant
            va@ == a@,
            vb@ == b@,
            va.len() == vb.len(),
            i <= va.len(),
            forall|j: int| 0 <= j < i ==> va@[j] == vb@[j],
        decreases va.len() - i,
    {
        if va[i] != vb[i] {
            return false;
        }
        i = i + 1;
    }
    assert(a@ =~= b@);
    true
}

/// Whether `s` begins with `p`.
pub open spec fn has_prefix(s: Seq<char>, p: Seq<char>) -> bool {
    p.len() <= s.len() && s.subrange(0, p.len() as int) == p
}

/// Whether `s` ends with `p`.
pub open spec fn has_suffix(s: Seq<char>, p: Seq<char>) -> bool {
    p.len() <= s.len() && s.subrange(s.len() - p.len(), s.len() as int) == p
}

/// Whether `n` occurs in `s` starting at position `i`.
pub open spec fn occurs_at(s: Seq<char>, n: Seq<char>, i: int) -> bool {
    0 <= i && i + n.len() <= s.len() && s.subrange(i, i + n.len()) == n
}

/// Whether `n` occurs somewhere in `s`.
pub open spec fn has_substring(s: Seq<char>, n: Seq<char>) -> bool {
    exists|i: int| occurs_at(s, n, i)
}

fn matches_at(s: &Vec<char>, n: &Vec<char>, i: usize) -> (r: bool)
    requires
        i + n.len() <= s.len(),
    ensures
        r == occurs_at(s@, n@, i as int),
{
    let mut j: usize = 0;
    while j < n.len()
        invariant
            i + n.len() <= s.len(),
            j <= n.len(),
            forall|k: int| 0 <= k < j ==> s@[i + k] == n@[k],
        decreases n.len() - j,
    {
        if s[i + j] != n[j] {
            assert(s@.subrange(i as int, i + n.len())[j as int] != n@[j as int]);
            return false;
        }
        j = j + 1;
    }
    assert(s@.subrange(i as int, i + n.len()) =~= n@);
    true
}

/// Whether `s` begins with `p`.
pub fn starts_with(s: &str, p: &str) -> (r: bool)
    ensures
        r == has_prefix(s@, p@),
{
    let vs = chars_of(s);
    let vp = chars_of(p);
    if vp.len() > vs.len() {
        return false;
    }
    matches_at(&vs, &vp, 0)
}

/// Whether `s` ends with `p`.
pub fn ends_with(s: &str, p: &str) -> (r: bool)
    ensures
        r == has_suffix(s@, p@),
{
    let vs = chars_of(s);
    let vp = chars_of(p);
    if vp.len() > vs.len() {
        return false;
    }
    matches_at(&vs, &vp, vs.len() - vp.len())
}

/// Whether `n` occurs in `s`.
pub fn contains(s: &str, n: &str) -> (r: bool)
    ensures
        r == has_substring(s@, n@),
{
    let vs = chars_of(s);
    let vn = chars_of(n);
    if vn.len() > vs.len() {
        assert forall|i: int| !occurs_at(s@, n@, i) by {}
        return false;
    }
    let last = vs.len() - vn.len();
    let mut i: usize = 0;
    while i <= last
        invariant_except_break
            i <= last,
            forall|k: int| 0 <= k < i ==> !occurs_at(s@, n@, k),
        invariant
            vs@ == s@,
            vn@ == n@,
            last == vs.len() - vn.len(),
            vn.len() <= vs.len(),
        ensures
            forall|k: int| 0 <= k <= last ==> !occurs_at(s@, n@, k),
        decreases last + 1 - i,
    {
        if matches_at(&vs, &vn, i) {
            return true;
        }
        if i == last {
            break;
        }
        i = i + 1;
    }
    assert forall|k: int| !occurs_at(s@, n@, k) by {
        if 0 <= k && k + n@.len() <= s@.len() {
            assert(k <= last);
        }
    }
    false
}

/// The decimal digits of a natural number, most significant first.
pub open spec fn decimal(n: nat) -> Seq<char>
    decreases n,
{
    if n < 10 {
        seq![digit_char(n)]
    } else {
        decimal(n / 10).push(digit_char(n % 10))
    }
}

/// The ASCII digit of a number below ten.
pub open spec fn digit_char(d: nat) -> char {
    if d == 0 { '0' }
    else if d == 1 { '1' }
    else if d == 2 { '2' }
    else if d == 3 { '3' }
    else if d == 4 { '4' }
    else if d == 5 { '5' }
    else if d == 6 { '6' }
    else if d == 7 { '7' }
    else if d == 8 { '8' }
    else { '9' }
}

fn digit(d: u128) -> (c: char)
    requires
        d < 10,
    ensures
        c == digit_char(d as nat),
{
    if d == 0 { '0' }
    else if d == 1 { '1' }
    else if d == 2 { '2' }
    else if d == 3 { '3' }
    else if d == 4 { '4' }
    else if d == 5 { '5' }
    else if d == 6 { '6' }
    else if d == 7 { '7' }
    else if d == 8 { '8' }
    else { '9' }
}

/// The decimal text of an unsigned integer, as `to_string` writes it.
pub fn u128_to_decimal(n: u128) -> (s: String)
    ensures
        s@ == decimal(n as nat),
    decreases n,
{
    if n < 10 {
        let mut s = String::new();
        push_char(&mut s, digit(n));
        assert(s@ =~= seq![digit_char(n as nat)]);
        s
    } else {
        let mut s = u128_to_decimal(n / 10);
        push_char(&mut s, digit(n % 10));
        s
    }
}

/// The decimal text of an unsigned integer, as `to_string` writes it.
pub fn u64_to_decimal(n: u64) -> (s: String)
    ensures
        s@ == decimal(n as nat),
{
    u128_to_decimal(n as u128)
}

} // verus!
