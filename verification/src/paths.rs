//! The secure path join: the sole defense against path traversal when a
//! submission materializes payload files under the project root.
//!
//! The join is lexical: the caller-supplied relative path is split on `/`,
//! `.` and empty components are dropped, and `..` pops — popping past the
//! root, or an absolute path, is rejected.  The shell around the library
//! re-checks the result against the file system's own resolution, which
//! also covers symbolic links.

use vstd::prelude::*;
use vstd::string::StrSliceExecFns;
use vstd::string::StringExecFns;

use crate::strings::str_eq;

verus! {

/// The position of the first `/` at or after `from`, or the length when
/// there is none.
pub open spec fn first_slash_from(t: Seq<char>, from: int) -> int
    decreases t.len() - from,
{
    if from < 0 || from >= t.len() {
        t.len() as int
    } else if t[from] == '/' {
        from
    } else {
        first_slash_from(t, from + 1)
    }
}

/// The first slash lies between `from` and the length.
proof fn lemma_first_slash_bounds(t: Seq<char>, from: int)
    requires
        0 <= from <= t.len(),
    ensures
        from <= first_slash_from(t, from) <= t.len(),
    decreases t.len() - from,
{
    if from < t.len() && t[from] != '/' {
        lemma_first_slash_bounds(t, from + 1);
    }
}

/// `t` split on `/`; always at least one (possibly empty) component.
pub open spec fn spec_split(t: Seq<char>) -> Seq<Seq<char>>
    decreases t.len(),
    via spec_split_decreases
{
    let j = first_slash_from(t, 0);
    if j == t.len() {
        seq![t]
    } else {
        seq![t.subrange(0, j)] + spec_split(t.subrange(j + 1, t.len() as int))
    }
}

#[via_fn]
proof fn spec_split_decreases(t: Seq<char>) {
    lemma_first_slash_bounds(t, 0);
}

/// One step of normalization: empty and `.` components vanish, `..` pops,
/// anything else is kept; popping an empty stack means escape.
pub open spec fn norm_step(acc: Option<Seq<Seq<char>>>, c: Seq<char>) -> Option<Seq<Seq<char>>> {
    match acc {
        None => None,
        Some(st) => {
            if c.len() == 0 || c == "."@ {
                Some(st)
            } else if c == ".."@ {
                if st.len() == 0 {
                    None
                } else {
                    Some(st.drop_last())
                }
            } else {
                Some(st.push(c))
            }
        },
    }
}

/// The normalized component stack, or `None` when the path escapes.
pub open spec fn spec_normalize(cs: Seq<Seq<char>>) -> Option<Seq<Seq<char>>>
    decreases cs.len(),
{
    if cs.len() == 0 {
        Some(Seq::empty())
    } else {
        norm_step(spec_normalize(cs.drop_last()), cs.last())
    }
}

/// The base joined with each component in turn, `/`-separated.
pub open spec fn spec_join(base: Seq<char>, comps: Seq<Seq<char>>) -> Seq<char>
    decreases comps.len(),
{
    if comps.len() == 0 {
        base
    } else {
        spec_join(base, comps.drop_last()) + seq!['/'] + comps.last()
    }
}

/// What the secure join yields: `None` for an absolute input or one whose
/// `..` components climb past the root, else the normalized stack.
pub open spec fn spec_secure_components(t: Seq<char>) -> Option<Seq<Seq<char>>> {
    if t.len() > 0 && t[0] == '/' {
        None
    } else {
        spec_normalize(spec_split(t))
    }
}

/// A joined path never escapes the base: the base is a prefix, and any
/// added component sits behind a `/` right after it.
pub proof fn lemma_join_descendant(base: Seq<char>, comps: Seq<Seq<char>>)
    ensures
        base.is_prefix_of(spec_join(base, comps)),
        comps.len() > 0 ==> spec_join(base, comps).len() > base.len() && spec_join(base, comps)[
            base.len() as int
        ] == '/',
    decreases comps.len(),
{
    if comps.len() > 0 {
        lemma_join_descendant(base, comps.drop_last());
        let prev = spec_join(base, comps.drop_last());
        let whole = prev + seq!['/'] + comps.last();
        assert(base =~= whole.subrange(0, base.len() as int));
        if comps.len() == 1 {
            assert(whole[base.len() as int] == '/');
        } else {
            assert(whole[base.len() as int] == prev[base.len() as int]);
        }
    }
}

proof fn lemma_first_slash(s: Seq<char>, from: int, j: int)
    requires
        0 <= from <= j <= s.len(),
        forall|k: int| from <= k < j ==> s[k] != '/',
        j == s.len() || s[j] == '/',
    ensures
        first_slash_from(s, from) == (if j == s.len() {
            s.len() as int
        } else {
            j
        }),
    decreases j - from,
{
    if from < j {
        lemma_first_slash(s, from + 1, j);
    }
}

proof fn lemma_normalize_none_extends(cs1: Seq<Seq<char>>, cs2: Seq<Seq<char>>)
    requires
        spec_normalize(cs1) is None,
    ensures
        spec_normalize(cs1 + cs2) is None,
    decreases cs2.len(),
{
    if cs2.len() == 0 {
        assert(cs1 + cs2 =~= cs1);
    } else {
        lemma_normalize_none_extends(cs1, cs2.drop_last());
        assert((cs1 + cs2).drop_last() =~= cs1 + cs2.drop_last());
        assert((cs1 + cs2).last() == cs2.last());
    }
}

/// The views of a stack of owned components.
pub open spec fn views_of(v: Seq<String>) -> Seq<Seq<char>> {
    v.map_values(|s: String| s@)
}

/// Joins the project root with a caller-supplied relative path, rejecting
/// any path that would resolve outside the root.  On success the result
/// is the root followed by the `/`-separated normalized components.
pub fn secure_join_path(base: &str, user_input: &str) -> (r: Option<String>)
    ensures
        match r {
            Some(p) => spec_secure_components(user_input@) matches Some(comps) && p@ == spec_join(
                base@,
                comps,
            ),
            None => spec_secure_components(user_input@) is None,
        },
{
    let n = user_input.unicode_len();
    if n > 0 && user_input.get_char(0) == '/' {
        return None;
    }
    let mut stack: Vec<String> = Vec::new();
    let ghost whole = spec_split(user_input@);
    let ghost mut consumed: Seq<Seq<char>> = Seq::empty();
    let mut i: usize = 0;
    let mut finished = false;
    proof {
        assert(user_input@.subrange(0, n as int) =~= user_input@);
        assert(Seq::<Seq<char>>::empty() + whole =~= whole);
        assert(views_of(stack@) =~= Seq::<Seq<char>>::empty());
    }
    while !finished
        invariant
            n == user_input@.len(),
            i <= n,
            whole == spec_split(user_input@),
            !finished ==> consumed + spec_split(user_input@.subrange(i as int, n as int)) == whole,
            finished ==> consumed == whole && i == n,
            Some(views_of(stack@)) == spec_normalize(consumed),
        decreases (if finished {
            0int
        } else {
            2
        }) + 2 * (n - i),
    {
        let ghost rest = user_input@.subrange(i as int, n as int);
        let mut j: usize = i;
        while j < n && user_input.get_char(j) != '/'
            invariant
                n == user_input@.len(),
                i <= j <= n,
                forall|k: int| i <= k < j ==> user_input@[k] != '/',
            decreases n - j,
        {
            j += 1;
        }
        proof {
            assert(forall|k: int| 0 <= k < j - i ==> rest[k] == user_input@[i + k]);
            if j < n {
                assert(rest[j - i] == user_input@[j as int]);
            }
            lemma_first_slash(rest, 0, j - i);
        }
        let comp = user_input.substring_char(i, j).to_owned();
        let ghost c = rest.subrange(0, j - i);
        let ghost st0 = stack@;
        proof {
            assert(comp@ =~= c);
            reveal_strlit(".");
            reveal_strlit("..");
            assert("."@.len() == 1);
            assert(".."@.len() == 2);
        }
        if comp.as_str().is_empty() || str_eq(comp.as_str(), ".") {
            // dropped
        } else if str_eq(comp.as_str(), "..") {
            if stack.is_empty() {
                proof {
                    assert(spec_normalize(consumed.push(c)) is None) by {
                        assert(consumed.push(c).drop_last() =~= consumed);
                    }
                    if j < n {
                        assert(spec_split(rest) == seq![c] + spec_split(
                            rest.subrange(j - i + 1, rest.len() as int),
                        ));
                        assert(whole =~= consumed.push(c) + spec_split(
                            rest.subrange(j - i + 1, rest.len() as int),
                        ));
                        lemma_normalize_none_extends(
                            consumed.push(c),
                            spec_split(rest.subrange(j - i + 1, rest.len() as int)),
                        );
                    } else {
                        assert(spec_split(rest) == seq![c]);
                        assert(whole =~= consumed.push(c));
                        lemma_normalize_none_extends(consumed.push(c), Seq::empty());
                        assert(consumed.push(c) + Seq::<Seq<char>>::empty() =~= consumed.push(c));
                    }
                }
                return None;
            }
            stack.pop();
            proof {
                assert(views_of(stack@) =~= views_of(st0).drop_last());
            }
        } else {
            stack.push(comp);
            proof {
                assert(views_of(stack@) =~= views_of(st0).push(c));
            }
        }
        proof {
            assert(consumed.push(c).drop_last() =~= consumed);
            consumed = consumed.push(c);
        }
        if j < n {
            proof {
                assert(spec_split(rest) == seq![c] + spec_split(
                    rest.subrange(j - i + 1, rest.len() as int),
                ));
                assert(rest.subrange(j - i + 1, rest.len() as int) =~= user_input@.subrange(
                    j + 1,
                    n as int,
                ));
                assert(consumed + spec_split(user_input@.subrange(j + 1, n as int)) =~= whole);
            }
            i = j + 1;
        } else {
            proof {
                assert(spec_split(rest) == seq![c]);
                assert(consumed =~= whole);
            }
            i = n;
            finished = true;
        }
    }
    let m = stack.len();
    let mut out = base.to_owned();
    let mut k: usize = 0;
    proof {
        assert(views_of(stack@).subrange(0, 0) =~= Seq::<Seq<char>>::empty());
    }
    while k < m
        invariant
            m == stack@.len(),
            k <= m,
            out@ == spec_join(base@, views_of(stack@).subrange(0, k as int)),
        decreases m - k,
    {
        out.append("/");
        out.append(stack[k].as_str());
        proof {
            let vs = views_of(stack@);
            assert(vs.subrange(0, k + 1).drop_last() =~= vs.subrange(0, k as int));
            assert(vs.subrange(0, k + 1).last() == stack@[k as int]@);
            reveal_strlit("/");
            assert("/"@.len() == 1);
            assert("/"@ =~= seq!['/']);
        }
        k += 1;
    }
    proof {
        assert(views_of(stack@).subrange(0, m as int) =~= views_of(stack@));
    }
    Some(out)
}

} // verus!
