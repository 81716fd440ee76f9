//! Notification of a finished build: assembling the output payload and
//! the retry-once policy for posting the record to the collector.
//!
//! The POST itself, the backoff sleep and the on-disk log file are I/O
//! and live outside the library; the shell reports each attempt's
//! outcome back and the verified decision here says whether to retry and
//! whether the build joins the failed history.

use vstd::prelude::*;

use crate::config::Payload;
use crate::config::PayloadType;
use crate::kv::KvMap;
use crate::paths::secure_join_path;
use crate::paths::spec_join;
use crate::paths::spec_secure_components;
use crate::pipeline::env_name_of;
use crate::pipeline::file_rel_name;
use crate::pipeline::plan_views;
use crate::state::BuildProcess;

verus! {

/// The output payload after the declared output entries are folded in:
/// a `File` entry contributes the read file content under its source
/// key; any other entry copies the named payload value when present and
/// is skipped otherwise.
pub open spec fn spec_out_payload(
    specs: Seq<Payload>,
    payload: Map<Seq<char>, Seq<char>>,
    files: Map<Seq<char>, Seq<char>>,
    acc: Map<Seq<char>, Seq<char>>,
) -> Map<Seq<char>, Seq<char>>
    decreases specs.len(),
{
    if specs.len() == 0 {
        acc
    } else {
        let m0 = spec_out_payload(specs.drop_last(), payload, files, acc);
        let s = specs.last();
        if s.kind == PayloadType::File {
            if files.contains_key(s.key1@) {
                m0.insert(s.key1@, files[s.key1@])
            } else {
                m0
            }
        } else {
            if payload.contains_key(env_name_of(s)) {
                m0.insert(env_name_of(s), payload[env_name_of(s)])
            } else {
                m0
            }
        }
    }
}

/// The files the output payload reads: for each `File` entry whose path
/// stays under the project root, its source key and the secured path.
/// An insecure path only skips that entry.
pub open spec fn spec_out_targets(specs: Seq<Payload>, base: Seq<char>) -> Seq<
    (Seq<char>, Seq<char>),
>
    decreases specs.len(),
{
    if specs.len() == 0 {
        Seq::empty()
    } else {
        let rest = spec_out_targets(specs.drop_last(), base);
        let s = specs.last();
        if s.kind == PayloadType::File {
            match spec_secure_components(file_rel_name(s)) {
                None => rest,
                Some(comps) => rest.push((s.key1@, spec_join(base, comps))),
            }
        } else {
            rest
        }
    }
}

/// Computes which files the output payload wants read: pairs of the
/// source key and the secured path under the project root.  The shell
/// reads each existing file and hands the contents back as a map.
pub fn out_file_targets(specs: &Vec<Payload>, project_path: &String) -> (r: Vec<(String, String)>)
    ensures
        plan_views(r@) == spec_out_targets(specs@, project_path@),
{
    let n = specs.len();
    let mut out: Vec<(String, String)> = Vec::new();
    let mut i: usize = 0;
    proof {
        assert(specs@.subrange(0, 0) =~= Seq::<Payload>::empty());
        assert(plan_views(out@) =~= Seq::<(Seq<char>, Seq<char>)>::empty());
    }
    while i < n
        invariant
            n == specs@.len(),
            i <= n,
            plan_views(out@) == spec_out_targets(specs@.subrange(0, i as int), project_path@),
        decreases n - i,
    {
        let s = &specs[i];
        proof {
            assert(specs@.subrange(0, i + 1).drop_last() =~= specs@.subrange(0, i as int));
            assert(specs@.subrange(0, i + 1).last() == specs@[i as int]);
        }
        if s.kind == PayloadType::File {
            let rel = match &s.key2 {
                Some(k2) => k2.clone(),
                None => s.key1.clone(),
            };
            match secure_join_path(project_path.as_str(), rel.as_str()) {
                None => {},
                Some(path) => {
                    let ghost out0 = out@;
                    out.push((s.key1.clone(), path));
                    proof {
                        assert(plan_views(out@) =~= plan_views(out0).push(
                            (out@.last().0@, out@.last().1@),
                        ));
                    }
                },
            }
        }
        i += 1;
    }
    proof {
        assert(specs@.subrange(0, n as int) =~= specs@);
    }
    out
}

/// Folds the declared output entries into the build's output payload,
/// given the file contents the shell read.
pub fn assemble_out_payload(build: &mut BuildProcess, specs: &Vec<Payload>, files: &KvMap)
    ensures
        *final(build) == (BuildProcess { out_payload: final(build).out_payload, ..*old(build) }),
        final(build).out_payload@ == spec_out_payload(
            specs@,
            old(build).payload@,
            files@,
            old(build).out_payload@,
        ),
{
    let n = specs.len();
    let mut i: usize = 0;
    proof {
        assert(specs@.subrange(0, 0) =~= Seq::<Payload>::empty());
    }
    while i < n
        invariant
            n == specs@.len(),
            i <= n,
            *build == (BuildProcess { out_payload: build.out_payload, ..*old(build) }),
            build.out_payload@ == spec_out_payload(
                specs@.subrange(0, i as int),
                old(build).payload@,
                files@,
                old(build).out_payload@,
            ),
        decreases n - i,
    {
        let s = &specs[i];
        proof {
            assert(specs@.subrange(0, i + 1).drop_last() =~= specs@.subrange(0, i as int));
            assert(specs@.subrange(0, i + 1).last() == specs@[i as int]);
        }
        if s.kind == PayloadType::File {
            match files.get(&s.key1) {
                Some(content) => {
                    build.out_payload.insert(s.key1.clone(), content.clone());
                },
                None => {},
            }
        } else {
            let name = match &s.key2 {
                Some(k2) => k2.clone(),
                None => s.key1.clone(),
            };
            match build.payload.get(&name) {
                Some(v) => {
                    let value = v.clone();
                    build.out_payload.insert(name, value);
                },
                None => {},
            }
        }
        i += 1;
    }
    proof {
        assert(specs@.subrange(0, n as int) =~= specs@);
    }
}

/// What the notification step decided: whether a second attempt was due
/// and whether the build joins the failed history.
pub struct NotifyDecision {
    pub retried: bool,
    pub record_failure: bool,
}

/// The retry-once policy: a failed first attempt is retried exactly
/// once, after a fixed backoff; only when both attempts fail is the
/// build record added to the failed history — a retry that succeeds
/// leaves the history untouched.
pub fn notify_outcome(first_ok: bool, second_ok: bool) -> (r: NotifyDecision)
    ensures
        r.retried == !first_ok,
        r.record_failure == (!first_ok && !second_ok),
{
    NotifyDecision { retried: !first_ok, record_failure: !first_ok && !second_ok }
}

} // verus!
