//! Verified string helpers: equality, substring search, trimming and
//! splitting, used by the capture, templating and authorization logic.

use vstd::prelude::*;
use vstd::string::StrSliceExecFns;

verus! {

/// True when `p` occurs contiguously inside `s`.
pub open spec fn has_sub(s: Seq<char>, p: Seq<char>) -> bool {
    exists|i: int|
        0 <= i && i + p.len() <= s.len() && #[trigger] s.subrange(i, i + p.len() as int) == p
}

/// The whitespace characters stripped from the ends of a captured line.
pub open spec fn is_space(c: char) -> bool {
    c == ' ' || c == '\t' || c == '\n' || c == '\r'
}

/// `s` with leading and trailing whitespace removed.
pub open spec fn spec_trim(s: Seq<char>) -> Seq<char>
    decreases s.len(),
{
    if s.len() == 0 {
        s
    } else if is_space(s[0]) {
        spec_trim(s.drop_first())
    } else if is_space(s.last()) {
        spec_trim(s.drop_last())
    } else {
        s
    }
}

/// True when a line trims to nothing and is therefore dropped from logs.
pub open spec fn is_blank(s: Seq<char>) -> bool {
    spec_trim(s).len() == 0
}

/// Character-for-character equality of two string slices.
pub fn str_eq(a: &str, b: &str) -> (r: bool)
    ensures
        r == (a@ == b@),
{
    let sa = a.to_owned();
    let sb = b.to_owned();
    sa == sb
}

/// Whether `s` matches `p` at offset `i`.
fn match_at(s: &str, n: usize, p: &str, m: usize, i: usize) -> (r: bool)
    requires
        n == s@.len(),
        m == p@.len(),
        i + m <= n,
    ensures
        r == (s@.subrange(i as int, i as int + m as int) == p@),
{
    let mut k: usize = 0;
    while k < m
        invariant
            n == s@.len(),
            m == p@.len(),
            i + m <= n,
            k <= m,
            forall|j: int| 0 <= j < k ==> s@[i + j] == p@[j],
        decreases m - k,
    {
        if s.get_char(i + k) != p.get_char(k) {
            proof {
                assert(s@.subrange(i as int, i as int + m as int)[k as int] == s@[i + k]);
            }
            return false;
        }
        k += 1;
    }
    proof {
        assert(s@.subrange(i as int, i as int + m as int) =~= p@);
    }
    true
}

/// Substring search; `read_stdout` uses it to spot the sentinel marker.
pub fn contains_sub(s: &str, p: &str) -> (r: bool)
    ensures
        r == has_sub(s@, p@),
{
    let n = s.unicode_len();
    let m = p.unicode_len();
    if m == 0 {
        proof {
            assert(s@.subrange(0, 0 + p@.len() as int) =~= p@);
        }
        return true;
    }
    if m > n {
        return false;
    }
    let mut i: usize = 0;
    while i <= n - m
        invariant
            n == s@.len(),
            m == p@.len(),
            1 <= m <= n,
            i <= n - m + 1,
            forall|j: int| 0 <= j < i ==> #[trigger] s@.subrange(j, j + m as int) != p@,
        decreases n - i,
    {
        if match_at(s, n, p, m, i) {
            return true;
        }
        i += 1;
    }
    false
}

/// Whether `s` begins with `p`.
pub fn str_starts_with(s: &str, p: &str) -> (r: bool)
    ensures
        r == (p@.len() <= s@.len() && s@.subrange(0, p@.len() as int) == p@),
{
    let n = s.unicode_len();
    let m = p.unicode_len();
    if m > n {
        return false;
    }
    match_at(s, n, p, m, 0)
}

/// Exec test for [`is_space`].
pub fn is_space_char(c: char) -> (r: bool)
    ensures
        r == is_space(c),
{
    c == ' ' || c == '\t' || c == '\n' || c == '\r'
}

proof fn lemma_trim_left(s: Seq<char>, a: int)
    requires
        0 <= a <= s.len(),
        forall|j: int| 0 <= j < a ==> is_space(s[j]),
    ensures
        spec_trim(s) == spec_trim(s.subrange(a, s.len() as int)),
    decreases a,
{
    if a > 0 {
        assert(s.subrange(1, s.len() as int) =~= s.drop_first());
        lemma_trim_left(s.drop_first(), a - 1);
        assert(s.drop_first().subrange(a - 1, s.drop_first().len() as int) =~= s.subrange(
            a,
            s.len() as int,
        ));
    } else {
        assert(s.subrange(0, s.len() as int) =~= s);
    }
}

proof fn lemma_trim_right(s: Seq<char>, b: int)
    requires
        0 <= b <= s.len(),
        forall|j: int| b <= j < s.len() ==> is_space(s[j]),
        s.len() == 0 || !is_space(s[0]),
    ensures
        spec_trim(s) == spec_trim(s.subrange(0, b)),
    decreases s.len() - b,
{
    if b < s.len() {
        assert(is_space(s.last()));
        assert(s.drop_last() =~= s.subrange(0, s.len() - 1));
        lemma_trim_right(s.subrange(0, s.len() - 1), b);
        assert(s.subrange(0, s.len() - 1).subrange(0, b) =~= s.subrange(0, b));
    } else {
        assert(s.subrange(0, s.len() as int) =~= s);
    }
}

/// Removes leading and trailing whitespace.
pub fn trim(s: &str) -> (r: String)
    ensures
        r@ == spec_trim(s@),
{
    let n = s.unicode_len();
    let mut a: usize = 0;
    while a < n && is_space_char(s.get_char(a))
        invariant
            n == s@.len(),
            a <= n,
            forall|j: int| 0 <= j < a ==> is_space(s@[j]),
        decreases n - a,
    {
        a += 1;
    }
    proof {
        lemma_trim_left(s@, a as int);
    }
    let mut b: usize = n;
    while b > a && is_space_char(s.get_char(b - 1))
        invariant
            n == s@.len(),
            a <= b <= n,
            a == n || !is_space(s@[a as int]),
            forall|j: int| b <= j < n ==> is_space(s@[j]),
        decreases b,
    {
        b -= 1;
    }
    proof {
        let mid = s@.subrange(a as int, n as int);
        assert(forall|j: int| b - a <= j < mid.len() ==> is_space(mid[j]));
        if a < n {
            assert(mid[0] == s@[a as int]);
        }
        lemma_trim_right(mid, b - a);
        assert(mid.subrange(0, b - a) =~= s@.subrange(a as int, b as int));
        let seg = s@.subrange(a as int, b as int);
        if seg.len() > 0 {
            assert(seg[0] == s@[a as int]);
            assert(seg.last() == s@[b - 1]);
            assert(!is_space(seg[0]) && !is_space(seg.last()));
        }
        assert(spec_trim(s@) == seg);
    }
    s.substring_char(a, b).to_owned()
}

/// Splits a captured line at its first `=` into a key and a value, the way
/// the environment re-extraction mode reads `KEY=VALUE` lines.
pub fn split_eq(s: &str) -> (r: Option<(String, String)>)
    ensures
        match r {
            Some(kv) => kv.0@ + seq!['='] + kv.1@ == s@ && !kv.0@.contains('='),
            None => !s@.contains('='),
        },
{
    let n = s.unicode_len();
    let mut i: usize = 0;
    while i < n
        invariant
            n == s@.len(),
            i <= n,
            forall|j: int| 0 <= j < i ==> s@[j] != '=',
        decreases n - i,
    {
        if s.get_char(i) == '=' {
            let k = s.substring_char(0, i).to_owned();
            let v = s.substring_char(i + 1, n).to_owned();
            proof {
                assert(k@ + seq!['='] + v@ =~= s@);
                assert(forall|j: int| 0 <= j < k@.len() ==> k@[j] == s@[j]);
            }
            return Some((k, v));
        }
        i += 1;
    }
    None
}

/// Whether some entry of `v` spells the same characters as `s`.
pub fn vec_contains_str(v: &Vec<String>, s: &String) -> (r: bool)
    ensures
        r == (exists|i: int| 0 <= i < v@.len() && v@[i]@ == s@),
{
    let n = v.len();
    let mut i: usize = 0;
    while i < n
        invariant
            n == v@.len(),
            i <= n,
            forall|j: int| 0 <= j < i ==> v@[j]@ != s@,
        decreases n - i,
    {
        if v[i] == *s {
            return true;
        }
        i += 1;
    }
    false
}

/// The position of the first `=` at or after `from`, or the length.
pub open spec fn first_eq_from(t: Seq<char>, from: int) -> int
    decreases t.len() - from,
{
    if from < 0 || from >= t.len() {
        t.len() as int
    } else if t[from] == '=' {
        from
    } else {
        first_eq_from(t, from + 1)
    }
}

/// Whether the line has the `KEY=VALUE` shape.
pub open spec fn has_eq(s: Seq<char>) -> bool {
    first_eq_from(s, 0) < s.len()
}

/// The key of a `KEY=VALUE` line: everything before the first `=`.
pub open spec fn env_key(s: Seq<char>) -> Seq<char> {
    s.subrange(0, first_eq_from(s, 0))
}

/// The value of a `KEY=VALUE` line: everything after the first `=`.
pub open spec fn env_val(s: Seq<char>) -> Seq<char> {
    s.subrange(first_eq_from(s, 0) + 1, s.len() as int)
}

pub proof fn lemma_first_eq(s: Seq<char>, from: int, j: int)
    requires
        0 <= from <= j <= s.len(),
        forall|k: int| from <= k < j ==> s[k] != '=',
        j == s.len() || s[j] == '=',
    ensures
        first_eq_from(s, from) == (if j == s.len() {
            s.len() as int
        } else {
            j
        }),
    decreases j - from,
{
    if from < j {
        lemma_first_eq(s, from + 1, j);
    }
}

} // verus!
