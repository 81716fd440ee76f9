//! Authorization: whether a request may submit, abort or query.
//!
//! The shell extracts the raw credentials from the transport — the
//! `Authorization` header, the query string, the remote address and its
//! parse as an IP — and every decision over them is verified here.

use vstd::prelude::*;
use vstd::string::StrSliceExecFns;
use vstd::string::StringExecFns;

use crate::config::AddressType;
use crate::config::AuthConfig;
use crate::config::AuthType;
use crate::strings::env_key;
use crate::strings::env_val;
use crate::strings::has_eq;
use crate::strings::lemma_first_eq;
use crate::strings::split_eq;
use crate::strings::str_eq;
use crate::strings::str_starts_with;
use crate::strings::vec_contains_str;

verus! {

/// The credentials of one incoming request, as the transport reports
/// them.  `remote_ip` is `remote_addr` parsed and re-serialized as an IP
/// address by the shell (address parsing is the transport's business),
/// or `None` when it is not one.
pub struct RequestAuth {
    pub auth_header: Option<String>,
    pub query_string: Option<String>,
    pub remote_addr: String,
    pub remote_ip: Option<String>,
}

/// Whether the allow-list holds these characters.
pub open spec fn allowed_has(v: Seq<String>, t: Seq<char>) -> bool {
    exists|i: int| 0 <= i < v.len() && (#[trigger] v[i])@ == t
}

/// A bearer header: `Bearer ` followed by the token.
pub open spec fn is_bearer(h: Seq<char>) -> bool {
    h.len() >= 7 && h.subrange(0, 7) == "Bearer "@
}

/// The position of the first `&` at or after `from`, or the length.
pub open spec fn first_amp_from(t: Seq<char>, from: int) -> int
    decreases t.len() - from,
{
    if from < 0 || from >= t.len() {
        t.len() as int
    } else if t[from] == '&' {
        from
    } else {
        first_amp_from(t, from + 1)
    }
}

/// The first ampersand lies between `from` and the length.
proof fn lemma_first_amp_bounds(t: Seq<char>, from: int)
    requires
        0 <= from <= t.len(),
    ensures
        from <= first_amp_from(t, from) <= t.len(),
    decreases t.len() - from,
{
    if from < t.len() && t[from] != '&' {
        lemma_first_amp_bounds(t, from + 1);
    }
}

/// A query string split into its `&`-separated pairs.
pub open spec fn spec_params(t: Seq<char>) -> Seq<Seq<char>>
    decreases t.len(),
    via spec_params_decreases
{
    let j = first_amp_from(t, 0);
    if j == t.len() {
        seq![t]
    } else {
        seq![t.subrange(0, j)] + spec_params(t.subrange(j + 1, t.len() as int))
    }
}

#[via_fn]
proof fn spec_params_decreases(t: Seq<char>) {
    lemma_first_amp_bounds(t, 0);
}

proof fn lemma_first_amp(s: Seq<char>, from: int, j: int)
    requires
        0 <= from <= j <= s.len(),
        forall|k: int| from <= k < j ==> s[k] != '&',
        j == s.len() || s[j] == '&',
    ensures
        first_amp_from(s, from) == (if j == s.len() {
            s.len() as int
        } else {
            j
        }),
    decreases j - from,
{
    if from < j {
        lemma_first_amp(s, from + 1, j);
    }
}

/// Whether one `key=value` pair presents an allowed token.
pub open spec fn pair_matches_token(p: Seq<char>, allowed: Seq<String>) -> bool {
    has_eq(p) && env_key(p) == "token"@ && allowed_has(allowed, env_val(p))
}

/// Whether the query string carries `token=<allowed>` in some pair.
pub open spec fn query_has_token(q: Seq<char>, allowed: Seq<String>) -> bool {
    exists|i: int|
        0 <= i < spec_params(q).len() && pair_matches_token(#[trigger] spec_params(q)[i], allowed)
}

/// The query-string fallback of the token check.
pub open spec fn spec_query_token_ok(req: RequestAuth, cfg: AuthConfig) -> bool {
    match req.query_string {
        Some(q) => query_has_token(q@, cfg.allowed_tokens@),
        None => false,
    }
}

/// The token check: a `Bearer` header is decisive when present; else the
/// query string may carry `token=<allowed>`.
pub open spec fn spec_token_ok(req: RequestAuth, cfg: AuthConfig) -> bool {
    match req.auth_header {
        Some(h) => {
            if is_bearer(h@) {
                allowed_has(cfg.allowed_tokens@, h@.skip(7))
            } else {
                spec_query_token_ok(req, cfg)
            }
        },
        None => spec_query_token_ok(req, cfg),
    }
}

/// The address check: by IP when configured so — the parse must have
/// succeeded and its normal form be allowed — else by the reported name.
pub open spec fn spec_addr_ok(req: RequestAuth, cfg: AuthConfig) -> bool {
    match cfg.address_type {
        AddressType::IP => req.remote_ip matches Some(ip) && allowed_has(
            cfg.allowed_addresses@,
            ip@,
        ),
        AddressType::Hostname => allowed_has(cfg.allowed_addresses@, req.remote_addr@),
    }
}

/// What the configured mode demands of a request.
pub open spec fn spec_authorized(req: RequestAuth, cfg: AuthConfig) -> bool {
    match cfg.auth_type {
        AuthType::Token => spec_token_ok(req, cfg),
        AuthType::Address => spec_addr_ok(req, cfg),
        AuthType::Both => spec_token_ok(req, cfg) && spec_addr_ok(req, cfg),
    }
}

/// Checks a query string for `token=<allowed>` among its pairs.
fn query_token_check(q: &String, allowed: &Vec<String>) -> (r: bool)
    ensures
        r == query_has_token(q@, allowed@),
{
    let qs = q.as_str();
    let n = qs.unicode_len();
    let ghost whole = spec_params(q@);
    let ghost mut consumed: Seq<Seq<char>> = Seq::empty();
    let mut i: usize = 0;
    let mut finished = false;
    proof {
        assert(q@.subrange(0, n as int) =~= q@);
        assert(Seq::<Seq<char>>::empty() + whole =~= whole);
    }
    while !finished
        invariant
            n == q@.len(),
            i <= n,
            qs@ == q@,
            whole == spec_params(q@),
            !finished ==> consumed + spec_params(q@.subrange(i as int, n as int)) == whole,
            finished ==> consumed == whole && i == n,
            forall|k: int|
                0 <= k < consumed.len() ==> !pair_matches_token(#[trigger] consumed[k], allowed@),
        decreases (if finished {
            0int
        } else {
            2
        }) + 2 * (n - i),
    {
        let ghost rest = q@.subrange(i as int, n as int);
        let mut j: usize = i;
        while j < n && qs.get_char(j) != '&'
            invariant
                n == q@.len(),
                qs@ == q@,
                i <= j <= n,
                forall|k: int| i <= k < j ==> q@[k] != '&',
            decreases n - j,
        {
            j += 1;
        }
        proof {
            assert(forall|k: int| 0 <= k < j - i ==> rest[k] == q@[i + k]);
            if j < n {
                assert(rest[j - i] == q@[j as int]);
            }
            lemma_first_amp(rest, 0, j - i);
        }
        let pair = qs.substring_char(i, j).to_owned();
        let ghost c = rest.subrange(0, j - i);
        proof {
            assert(pair@ =~= c);
        }
        match split_eq(pair.as_str()) {
            Some((key, value)) => {
                proof {
                    lemma_first_eq(pair@, 0, key@.len() as int);
                    assert(env_key(c) =~= key@);
                    assert(env_val(c) =~= value@);
                }
                if str_eq(key.as_str(), "token") && vec_contains_str(allowed, &value) {
                    proof {
                        assert(whole == consumed + spec_params(rest));
                        assert(spec_params(rest)[0] == c);
                        assert(whole[consumed.len() as int] == c);
                        assert(pair_matches_token(c, allowed@));
                        assert(query_has_token(q@, allowed@));
                    }
                    return true;
                }
            },
            None => {
                proof {
                    lemma_first_eq(pair@, 0, pair@.len() as int);
                    assert(!has_eq(c));
                }
            },
        }
        proof {
            assert(consumed.push(c).drop_last() =~= consumed);
            assert(!pair_matches_token(c, allowed@));
            consumed = consumed.push(c);
        }
        if j < n {
            proof {
                assert(spec_params(rest) == seq![c] + spec_params(
                    rest.subrange(j - i + 1, rest.len() as int),
                ));
                assert(rest.subrange(j - i + 1, rest.len() as int) =~= q@.subrange(
                    j + 1,
                    n as int,
                ));
                assert(consumed + spec_params(q@.subrange(j + 1, n as int)) =~= whole);
            }
            i = j + 1;
        } else {
            proof {
                assert(spec_params(rest) == seq![c]);
                assert(consumed =~= whole);
            }
            i = n;
            finished = true;
        }
    }
    false
}

/// The token check of [`spec_token_ok`], over the extracted credentials.
pub fn check_token_auth(req: &RequestAuth, auth_config: &AuthConfig) -> (r: bool)
    ensures
        r == spec_token_ok(*req, *auth_config),
{
    proof {
        reveal_strlit("Bearer ");
        assert("Bearer "@.len() == 7);
    }
    match &req.auth_header {
        Some(h) => {
            if str_starts_with(h.as_str(), "Bearer ") {
                let hn = h.as_str().unicode_len();
                let token = h.as_str().substring_char(7, hn).to_owned();
                proof {
                    assert(token@ =~= h@.skip(7));
                }
                return vec_contains_str(&auth_config.allowed_tokens, &token);
            }
        },
        None => {},
    }
    match &req.query_string {
        Some(q) => query_token_check(q, &auth_config.allowed_tokens),
        None => false,
    }
}

/// The address check of [`spec_addr_ok`], over the extracted credentials.
pub fn check_address_auth(req: &RequestAuth, auth_config: &AuthConfig) -> (r: bool)
    ensures
        r == spec_addr_ok(*req, *auth_config),
{
    match auth_config.address_type {
        AddressType::IP => match &req.remote_ip {
            Some(ip) => vec_contains_str(&auth_config.allowed_addresses, ip),
            None => false,
        },
        AddressType::Hostname => vec_contains_str(&auth_config.allowed_addresses, &req.remote_addr),
    }
}

/// Whether the request is authorized under the configured mode: by
/// token, by address, or by both at once.
pub fn is_authorized(req: &RequestAuth, auth_config: &AuthConfig) -> (r: bool)
    ensures
        r == spec_authorized(*req, *auth_config),
{
    match auth_config.auth_type {
        AuthType::Token => check_token_auth(req, auth_config),
        AuthType::Address => check_address_auth(req, auth_config),
        AuthType::Both => check_token_auth(req, auth_config) && check_address_auth(
            req,
            auth_config,
        ),
    }
}

} // verus!
