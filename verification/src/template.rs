//! Placeholder substitution for command templates.
//!
//! Every `{key}` token whose key is bound in the parameter table is
//! replaced by the bound value; an unresolved placeholder passes through
//! verbatim (fail-open), so the shell itself reports the error.

use vstd::prelude::*;
use vstd::string::StrSliceExecFns;
use vstd::string::StringExecFns;

use crate::kv::KvMap;

verus! {

/// The position of the first `}` at or after `from`, or the length when
/// there is none.
pub open spec fn first_close_from(t: Seq<char>, from: int) -> int
    decreases t.len() - from,
{
    if from < 0 || from >= t.len() {
        t.len() as int
    } else if t[from] == '}' {
        from
    } else {
        first_close_from(t, from + 1)
    }
}

/// The meaning of substitution: scan left to right; at `{` look for the
/// next `}`; a token `{key}` with a non-empty key is replaced by `m[key]`
/// when bound, else copied verbatim; everything else is copied.
pub open spec fn spec_subst(t: Seq<char>, m: Map<Seq<char>, Seq<char>>) -> Seq<char>
    decreases t.len(),
{
    if t.len() == 0 {
        Seq::empty()
    } else if t[0] == '{' {
        let j = first_close_from(t, 1);
        if j < t.len() && j >= 2 {
            let key = t.subrange(1, j);
            let rep = if m.contains_key(key) {
                m[key]
            } else {
                t.subrange(0, j + 1)
            };
            rep + spec_subst(t.subrange(j + 1, t.len() as int), m)
        } else {
            seq!['{'] + spec_subst(t.drop_first(), m)
        }
    } else {
        seq![t[0]] + spec_subst(t.drop_first(), m)
    }
}

proof fn lemma_first_close(s: Seq<char>, from: int, j: int)
    requires
        0 <= from <= j <= s.len(),
        forall|k: int| from <= k < j ==> s[k] != '}',
        j == s.len() || s[j] == '}',
    ensures
        first_close_from(s, from) == (if j == s.len() {
            s.len() as int
        } else {
            j
        }),
    decreases j - from,
{
    if from < j {
        lemma_first_close(s, from + 1, j);
    }
}

/// Replaces each `{key}` in the template by `values[key]` when bound;
/// unresolved or malformed placeholders pass through unchanged.
pub fn replace_placeholders(template: &str, values: &KvMap) -> (r: String)
    ensures
        r@ == spec_subst(template@, values@),
{
    let n = template.unicode_len();
    let mut out = String::new();
    let mut i: usize = 0;
    proof {
        assert(template@.subrange(0, n as int) =~= template@);
        assert(Seq::<char>::empty() + spec_subst(template@, values@) =~= spec_subst(
            template@,
            values@,
        ));
    }
    while i < n
        invariant
            n == template@.len(),
            i <= n,
            out@ + spec_subst(template@.subrange(i as int, n as int), values@) == spec_subst(
                template@,
                values@,
            ),
        decreases n - i,
    {
        let ghost s_i = template@.subrange(i as int, n as int);
        let c = template.get_char(i);
        proof {
            assert(s_i[0] == template@[i as int]);
        }
        if c == '{' {
            let mut j: usize = i + 1;
            while j < n && template.get_char(j) != '}'
                invariant
                    n == template@.len(),
                    i < j <= n,
                    forall|k: int| i < k < j ==> template@[k] != '}',
                decreases n - j,
            {
                j += 1;
            }
            proof {
                assert(forall|k: int| 1 <= k < j - i ==> s_i[k] == template@[i + k]);
                if j < n {
                    assert(s_i[j - i] == template@[j as int]);
                }
                lemma_first_close(s_i, 1, j - i);
            }
            if j < n && j >= i + 2 {
                let key = template.substring_char(i + 1, j).to_owned();
                proof {
                    assert(key@ =~= s_i.subrange(1, j - i));
                }
                match values.get(&key) {
                    Some(v) => {
                        let ghost out0 = out@;
                        out.append(v.as_str());
                        proof {
                            assert(s_i.subrange(j - i + 1, s_i.len() as int) =~= template@.subrange(
                                j + 1,
                                n as int,
                            ));
                            assert((out0 + v@) + spec_subst(
                                template@.subrange(j + 1, n as int),
                                values@,
                            ) =~= out0 + spec_subst(s_i, values@));
                        }
                    },
                    None => {
                        let ghost out0 = out@;
                        out.append(template.substring_char(i, j + 1));
                        proof {
                            let rep = s_i.subrange(0, j - i + 1);
                            assert(template@.subrange(i as int, j + 1) =~= rep);
                            assert(s_i.subrange(j - i + 1, s_i.len() as int) =~= template@.subrange(
                                j + 1,
                                n as int,
                            ));
                            assert((out0 + rep) + spec_subst(
                                template@.subrange(j + 1, n as int),
                                values@,
                            ) =~= out0 + spec_subst(s_i, values@));
                        }
                    },
                }
                i = j + 1;
            } else {
                let ghost out0 = out@;
                out.append(template.substring_char(i, i + 1));
                proof {
                    assert(template@.subrange(i as int, i + 1) =~= seq!['{']);
                    assert(s_i.drop_first() =~= template@.subrange(i + 1, n as int));
                    assert((out0 + seq!['{']) + spec_subst(
                        template@.subrange(i + 1, n as int),
                        values@,
                    ) =~= out0 + spec_subst(s_i, values@));
                }
                i = i + 1;
            }
        } else {
            let ghost out0 = out@;
            out.append(template.substring_char(i, i + 1));
            proof {
                assert(template@.subrange(i as int, i + 1) =~= seq![s_i[0]]);
                assert(s_i.drop_first() =~= template@.subrange(i + 1, n as int));
                assert((out0 + seq![s_i[0]]) + spec_subst(
                    template@.subrange(i + 1, n as int),
                    values@,
                ) =~= out0 + spec_subst(s_i, values@));
            }
            i += 1;
        }
    }
    proof {
        assert(template@.subrange(n as int, n as int) =~= Seq::<char>::empty());
        assert(out@ =~= spec_subst(template@, values@));
    }
    out
}

} // verus!
