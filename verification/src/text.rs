//! Character-level text handling: trimming and ASCII case-insensitive comparison.

use vstd::prelude::*;
use vstd::string::*;

verus! {

/// Unicode `White_Space`, the whitespace that `str::trim` removes.
pub open spec fn is_whitespace(c: char) -> bool {
    let n = c as u32;
    ||| 0x09 <= n <= 0x0D
    ||| n == 0x20
    ||| n == 0x85
    ||| n == 0xA0
    ||| n == 0x1680
    ||| 0x2000 <= n <= 0x200A
    ||| n == 0x2028
    ||| n == 0x2029
    ||| n == 0x202F
    ||| n == 0x205F
    ||| n == 0x3000
}

/// `s` without the leading characters that satisfy `p`.
pub open spec fn skip_leading(s: Seq<char>, p: spec_fn(char) -> bool) -> Seq<char>
    decreases s.len(),
{
    if s.len() > 0 && p(s[0]) {
        skip_leading(s.drop_first(), p)
    } else {
        s
    }
}

/// `s` without the trailing characters that satisfy `p`.
pub open spec fn skip_trailing(s: Seq<char>, p: spec_fn(char) -> bool) -> Seq<char>
    decreases s.len(),
{
    if s.len() > 0 && p(s.last()) {
        skip_trailing(s.drop_last(), p)
    } else {
        s
    }
}

/// The predicate "is whitespace", as a value.
pub open spec fn whitespace() -> spec_fn(char) -> bool {
    |c: char| is_whitespace(c)
}

/// The predicate "is the character `x`", as a value.
pub open spec fn is_char(x: char) -> spec_fn(char) -> bool {
    |c: char| c == x
}

/// `s` without leading and trailing whitespace, as `str::trim` gives it.
pub open spec fn trimmed(s: Seq<char>) -> Seq<char> {
    skip_trailing(skip_leading(s, whitespace()), whitespace())
}

/// Whether `s` is empty or holds only whitespace.
pub open spec fn is_blank(s: Seq<char>) -> bool {
    trimmed(s).len() == 0
}

/// Code point of `c` with ASCII upper-case letters mapped to lower case.
pub open spec fn ascii_lower(c: char) -> u32 {
    if 'A' <= c <= 'Z' {
        ((c as u32) + 32) as u32
    } else {
        c as u32
    }
}

/// ASCII case-insensitive equality, as `str::eq_ignore_ascii_case` decides it.
pub open spec fn eq_ignore_ascii_case(s: Seq<char>, t: Seq<char>) -> bool {
    &&& s.len() == t.len()
    &&& forall|i: int| 0 <= i < s.len() ==> ascii_lower(#[trigger] s[i]) == ascii_lower(t[i])
}

/// Removing the leading characters of a prefix that all satisfy `p` does not change the result.
proof fn lemma_skip_leading_prefix(s: Seq<char>, p: spec_fn(char) -> bool, i: int)
    requires
        0 <= i <= s.len(),
        forall|j: int| 0 <= j < i ==> p(#[trigger] s[j]),
    ensures
        skip_leading(s, p) == skip_leading(s.subrange(i, s.len() as int), p),
    decreases i,
{
    if i > 0 {
        lemma_skip_leading_prefix(s.drop_first(), p, i - 1);
        assert(s.drop_first().subrange(i - 1, s.drop_first().len() as int) =~= s.subrange(
            i,
            s.len() as int,
        ));
    } else {
        assert(s.subrange(0, s.len() as int) =~= s);
    }
}

/// Removing the trailing characters of a suffix that all satisfy `p` does not change the result.
proof fn lemma_skip_trailing_suffix(s: Seq<char>, p: spec_fn(char) -> bool, k: int)
    requires
        0 <= k <= s.len(),
        forall|j: int| k <= j < s.len() ==> p(#[trigger] s[j]),
    ensures
        skip_trailing(s, p) == skip_trailing(s.subrange(0, k), p),
    decreases s.len() - k,
{
    if k < s.len() {
        lemma_skip_trailing_suffix(s.drop_last(), p, k);
        assert(s.drop_last().subrange(0, k) =~= s.subrange(0, k));
    } else {
        assert(s.subrange(0, s.len() as int) =~= s);
    }
}

/// Whether `c` is Unicode whitespace.
pub fn char_is_whitespace(c: char) -> (r: bool)
    ensures
        r == is_whitespace(c),
{
    let n = c as u32;
    (0x09 <= n && n <= 0x0D) || n == 0x20 || n == 0x85 || n == 0xA0 || n == 0x1680 || (0x2000
        <= n && n <= 0x200A) || n == 0x2028 || n == 0x2029 || n == 0x202F || n == 0x205F || n
        == 0x3000
}

/// Index of the first character of `s` that does not satisfy the predicate.
fn first_not(s: &str, n: usize, ws: bool, x: char) -> (i: usize)
    requires
        n == s@.len(),
    ensures
        i <= n,
        ws ==> skip_leading(s@, whitespace()) == s@.subrange(i as int, n as int),
        !ws ==> skip_leading(s@, is_char(x)) == s@.subrange(i as int, n as int),
{
    let ghost p = if ws { whitespace() } else { is_char(x) };
    let mut i: usize = 0;
    while i < n
        invariant
            i <= n,
            n == s@.len(),
            p == (if ws { whitespace() } else { is_char(x) }),
            forall|j: int| 0 <= j < i ==> p(#[trigger] s@[j]),
        ensures
            i <= n,
            forall|j: int| 0 <= j < i ==> p(#[trigger] s@[j]),
            i < n ==> !p(s@[i as int]),
        decreases n - i,
    {
        let c = s.get_char(i);
        let hit = if ws { char_is_whitespace(c) } else { c == x };
        if !hit {
            break;
        }
        i = i + 1;
    }
    proof {
        lemma_skip_leading_prefix(s@, p, i as int);
        let rest = s@.subrange(i as int, n as int);
        if i < n {
            assert(rest[0] == s@[i as int]);
        }
    }
    i
}

/// Index just past the last character of `s` that does not satisfy the predicate.
fn last_not(s: &str, n: usize, ws: bool, x: char) -> (k: usize)
    requires
        n == s@.len(),
    ensures
        k <= n,
        ws ==> skip_trailing(s@, whitespace()) == s@.subrange(0, k as int),
        !ws ==> skip_trailing(s@, is_char(x)) == s@.subrange(0, k as int),
{
    let ghost p = if ws { whitespace() } else { is_char(x) };
    let mut k: usize = n;
    while k > 0
        invariant
            k <= n,
            n == s@.len(),
            p == (if ws { whitespace() } else { is_char(x) }),
            forall|j: int| k <= j < n ==> p(#[trigger] s@[j]),
        ensures
            k <= n,
            forall|j: int| k <= j < n ==> p(#[trigger] s@[j]),
            k > 0 ==> !p(s@[k - 1]),
        decreases k,
    {
        let c = s.get_char(k - 1);
        let hit = if ws { char_is_whitespace(c) } else { c == x };
        if !hit {
            break;
        }
        k = k - 1;
    }
    proof {
        lemma_skip_trailing_suffix(s@, p, k as int);
        let front = s@.subrange(0, k as int);
        if k > 0 {
            assert(front.last() == s@[k - 1]);
        }
    }
    k
}

/// `s` without leading and trailing whitespace.
pub fn trim(s: &str) -> (r: &str)
    ensures
        r@ == trimmed(s@),
{
    let n = s.unicode_len();
    let i = first_not(s, n, true, ' ');
    let front = s.substring_char(i, n);
    let m = front.unicode_len();
    let k = last_not(front, m, true, ' ');
    front.substring_char(0, k)
}

/// `s` without the trailing occurrences of `x`.
pub fn trim_end_matches(s: &str, x: char) -> (r: &str)
    ensures
        r@ == skip_trailing(s@, is_char(x)),
{
    let n = s.unicode_len();
    let k = last_not(s, n, false, x);
    s.substring_char(0, k)
}

/// `s` without the leading occurrences of `x`.
pub fn trim_start_matches(s: &str, x: char) -> (r: &str)
    ensures
        r@ == skip_leading(s@, is_char(x)),
{
    let n = s.unicode_len();
    let i = first_not(s, n, false, x);
    s.substring_char(i, n)
}

/// Whether `s` is empty or holds only whitespace.
pub fn blank(s: &str) -> (r: bool)
    ensures
        r == is_blank(s@),
{
    trim(s).unicode_len() == 0
}

/// Code point of `c` with ASCII upper-case letters mapped to lower case.
pub fn to_ascii_lower(c: char) -> (r: u32)
    ensures
        r == ascii_lower(c),
{
    if 'A' <= c && c <= 'Z' {
        (c as u32) + 32
    } else {
        c as u32
    }
}

/// ASCII case-insensitive equality of two strings.
pub fn equal_ignoring_ascii_case(s: &str, t: &str) -> (r: bool)
    ensures
        r == eq_ignore_ascii_case(s@, t@),
{
    let n = s.unicode_len();
    if n != t.unicode_len() {
        return false;
    }
    let mut i: usize = 0;
    while i < n
        invariant
            i <= n,
            n == s@.len(),
            n == t@.len(),
            forall|j: int| 0 <= j < i ==> ascii_lower(#[trigger] s@[j]) == ascii_lower(t@[j]),
        decreases n - i,
    {
        if to_ascii_lower(s.get_char(i)) != to_ascii_lower(t.get_char(i)) {
            return false;
        }
        i = i + 1;
    }
    true
}

/// Whether two strings hold the same characters.
pub fn same_text(s: &str, t: &str) -> (r: bool)
    ensures
        r == (s@ == t@),
{
    let n = s.unicode_len();
    if n != t.unicode_len() {
        return false;
    }
    let mut i: usize = 0;
    while i < n
        invariant
            i <= n,
            n == s@.len(),
            n == t@.len(),
            forall|j: int| 0 <= j < i ==> #[trigger] s@[j] == t@[j],
        decreases n - i,
    {
        if s.get_char(i) != t.get_char(i) {
            return false;
        }
        i = i + 1;
    }
    assert(s@ =~= t@);
    true
}

/// Whether `s` begins with `prefix`.
pub open spec fn has_prefix(s: Seq<char>, prefix: Seq<char>) -> bool {
    prefix.len() <= s.len() && s.subrange(0, prefix.len() as int) == prefix
}

/// Whether `s` begins with `prefix`.
pub fn starts_with(s: &str, prefix: &str) -> (r: bool)
    ensures
        r == has_prefix(s@, prefix@),
{
    let n = s.unicode_len();
    let m = prefix.unicode_len();
    if m > n {
        return false;
    }
    let mut i: usize = 0;
    while i < m
        invariant
            i <= m <= n,
            n == s@.len(),
            m == prefix@.len(),
            forall|j: int| 0 <= j < i ==> #[trigger] s@[j] == prefix@[j],
        decreases m - i,
    {
        if s.get_char(i) != prefix.get_char(i) {
            assert(s@.subrange(0, m as int)[i as int] != prefix@[i as int]);
            return false;
        }
        i = i + 1;
    }
    assert(s@.subrange(0, m as int) =~= prefix@);
    true
}

/// The decimal digits of a number, most significant first, as `Display` writes them.
pub open spec fn decimal(n: nat) -> Seq<char>
    decreases n,
{
    if n < 10 {
        seq!["0123456789"@[n as int]]
    } else {
        decimal(n / 10).push("0123456789"@[(n % 10) as int])
    }
}

/// The decimal digit for `d`.
fn digit(d: usize) -> (r: &'static str)
    requires
        d < 10,
    ensures
        r@ == seq!["0123456789"@[d as int]],
{
    proof {
        reveal_strlit("0123456789");
    }
    let digits = "0123456789";
    let r = digits.substring_char(d, d + 1);
    assert(r@ =~= seq!["0123456789"@[d as int]]);
    r
}

/// The decimal form of `n`.
pub fn decimal_text(n: usize) -> (r: String)
    ensures
        r@ == decimal(n as nat),
    decreases n,
{
    if n < 10 {
        String::from_str(digit(n))
    } else {
        let mut r = decimal_text(n / 10);
        r.append(digit(n % 10));
        assert(r@ =~= decimal(n as nat));
        r
    }
}

} // verus!
