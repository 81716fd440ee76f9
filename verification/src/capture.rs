//! Output capture: per-stream line handling with batched, timer-flushed
//! publication.
//!
//! The shell around the library runs one cooperative loop per stream,
//! racing "next line" against the flush timer; every decision the loop
//! takes is a verified transition here.  A line containing the sentinel
//! switches the stream into environment-capture mode for good; in that
//! mode `KEY=VALUE` lines feed the declared keys back into the build's
//! payload and environment, and nothing is logged.  Outside it, blank
//! lines are dropped and the rest are buffered; a timer tick or the end
//! of the stream moves the buffer into the build's log history and hands
//! back the batch to publish.

use vstd::prelude::*;
use vstd::string::StrSliceExecFns;

use crate::kv::KvMap;
use crate::state::BuildLog;
use crate::state::BuildProcess;
use crate::status::Status;
use crate::strings::contains_sub;
use crate::strings::has_eq;
use crate::strings::env_key;
use crate::strings::env_val;
use crate::strings::lemma_first_eq;
use crate::strings::has_sub;
use crate::strings::is_blank;
use crate::strings::spec_trim;
use crate::strings::split_eq;
use crate::strings::trim;
use crate::strings::vec_contains_str;

verus! {

/// The marker a step's shell command echoes between its real output and
/// the trailing environment dump.
pub open spec fn sentinel() -> Seq<char> {
    "+_+_+_"@
}

/// The messages of a log sequence, in order.
pub open spec fn log_messages(s: Seq<BuildLog>) -> Seq<Seq<char>> {
    s.map_values(|l: BuildLog| l.message@)
}

/// The views of the declared extraction keys.
pub open spec fn key_views(v: Seq<String>) -> Seq<Seq<char>> {
    v.map_values(|s: String| s@)
}

/// The ghost model a capture loop works on: mode flag, buffered and
/// historic messages, and the payload/environment tables it may feed.
pub ghost struct CaptureModel {
    pub is_env: bool,
    pub buffer: Seq<Seq<char>>,
    pub logs: Seq<Seq<char>>,
    pub payload: Map<Seq<char>, Seq<char>>,
    pub env: Map<Seq<char>, Seq<char>>,
}

/// One stdout line event.  Returns the next model and whether the loop
/// goes on; it stops only on a termination-flag poll.
pub open spec fn spec_stdout_line(
    m: CaptureModel,
    line: Seq<char>,
    extract: Seq<Seq<char>>,
    bypass: bool,
    terminated: bool,
) -> (CaptureModel, bool) {
    if has_sub(line, sentinel()) {
        (CaptureModel { is_env: true, ..m }, true)
    } else if m.is_env {
        if has_eq(line) && extract.contains(env_key(line)) {
            (
                CaptureModel {
                    payload: m.payload.insert(env_key(line), env_val(line)),
                    env: m.env.insert(env_key(line), env_val(line)),
                    ..m
                },
                true,
            )
        } else {
            (m, true)
        }
    } else if !bypass && terminated {
        (m, false)
    } else if is_blank(line) {
        (m, true)
    } else {
        (CaptureModel { buffer: m.buffer.push(spec_trim(line)), ..m }, true)
    }
}

/// One stderr line event: no sentinel handling, no environment mode.
pub open spec fn spec_stderr_line(
    m: CaptureModel,
    line: Seq<char>,
    bypass: bool,
    terminated: bool,
) -> (CaptureModel, bool) {
    if !bypass && terminated {
        (m, false)
    } else if is_blank(line) {
        (m, true)
    } else {
        (CaptureModel { buffer: m.buffer.push(spec_trim(line)), ..m }, true)
    }
}

/// A timer tick or end-of-stream: the buffer moves to the history.
pub open spec fn spec_flush(m: CaptureModel) -> CaptureModel {
    CaptureModel { buffer: Seq::empty(), logs: m.logs + m.buffer, ..m }
}

/// The in-memory state of one capture loop.
pub struct CaptureState {
    pub is_env: bool,
    pub buffer: Vec<BuildLog>,
}

impl CaptureState {
    /// The ghost model of this state beside the build it feeds.
    pub open spec fn model(self, b: BuildProcess, env: KvMap) -> CaptureModel {
        CaptureModel {
            is_env: self.is_env,
            buffer: log_messages(self.buffer@),
            logs: log_messages(b.logs@),
            payload: b.payload@,
            env: env@,
        }
    }

    /// Every buffered line belongs to a step within the given total.
    pub open spec fn buffer_wf(self, total: nat) -> bool {
        forall|i: int| 0 <= i < self.buffer@.len() ==> (#[trigger] self.buffer@[i]).step <= total
    }

    /// A fresh capture loop: normal mode, empty buffer.
    pub fn new() -> (r: CaptureState)
        ensures
            !r.is_env,
            r.buffer@.len() == 0,
    {
        CaptureState { is_env: false, buffer: Vec::new() }
    }

    /// Handles one stdout line exactly as [`spec_stdout_line`] says:
    /// sentinel detection, environment re-extraction, the termination
    /// poll, blank-line dropping and buffering.  Returns whether the
    /// loop continues.
    pub fn on_stdout_line(
        &mut self,
        build: &mut BuildProcess,
        env_map: &mut KvMap,
        extract_envs: &Vec<String>,
        step: usize,
        bypass_termination: bool,
        terminated: bool,
        now: i64,
        line: &str,
    ) -> (cont: bool)
        requires
            step <= old(build).total_steps,
            old(self).buffer_wf(old(build).total_steps as nat),
        ensures
            (final(self).model(*final(build), *final(env_map)), cont) == spec_stdout_line(
                old(self).model(*old(build), *old(env_map)),
                line@,
                key_views(extract_envs@),
                bypass_termination,
                terminated,
            ),
            *final(build) == (BuildProcess { payload: final(build).payload, ..*old(build) }),
            final(self).buffer_wf(old(build).total_steps as nat),
            final(self).buffer@ == old(self).buffer@ || (final(self).buffer@.drop_last() == old(
                self,
            ).buffer@ && final(self).buffer@.len() == old(self).buffer@.len() + 1 && {
                let l = final(self).buffer@.last();
                l.timestamp == now && l.status == Status::Success && l.step == step && l.message@
                    == spec_trim(line@)
            }),
    {
        if contains_sub(line, "+_+_+_") {
            self.is_env = true;
            return true;
        }
        if self.is_env {
            match split_eq(line) {
                Some((key, value)) => {
                    proof {
                        lemma_first_eq(line@, 0, key@.len() as int);
                        assert(env_key(line@) =~= key@);
                        assert(env_val(line@) =~= value@);
                    }
                    if vec_contains_str(extract_envs, &key) {
                        proof {
                            let i = choose|i: int|
                                0 <= i < extract_envs@.len() && extract_envs@[i]@ == key@;
                            assert(key_views(extract_envs@)[i] == key@);
                        }
                        build.payload.insert(key.clone(), value.clone());
                        env_map.insert(key, value);
                    } else {
                        proof {
                            assert forall|i: int|
                                0 <= i < key_views(extract_envs@).len() implies key_views(
                                extract_envs@,
                            )[i] != env_key(line@) by {
                                assert(extract_envs@[i]@ != key@);
                            }
                        }
                    }
                },
                None => {
                    proof {
                        lemma_first_eq(line@, 0, line@.len() as int);
                    }
                },
            }
            return true;
        }
        if !bypass_termination && terminated {
            return false;
        }
        let trimmed = trim(line);
        if trimmed.as_str().is_empty() {
            return true;
        }
        let log = BuildLog { timestamp: now, status: Status::Success, step, message: trimmed };
        self.buffer.push(log);
        proof {
            assert(log_messages(self.buffer@) =~= log_messages(old(self).buffer@).push(
                spec_trim(line@),
            ));
            assert(self.buffer@.drop_last() =~= old(self).buffer@);
        }
        true
    }

    /// Handles one stderr line exactly as [`spec_stderr_line`] says.
    /// Buffered stderr lines carry `Error` status.  The build itself is
    /// untouched until the next flush.
    pub fn on_stderr_line(
        &mut self,
        build: &mut BuildProcess,
        step: usize,
        bypass_termination: bool,
        terminated: bool,
        now: i64,
        line: &str,
    ) -> (cont: bool)
        requires
            step <= old(build).total_steps,
            old(self).buffer_wf(old(build).total_steps as nat),
        ensures
            *final(build) == *old(build),
            ({
                let m0 = CaptureModel {
                    is_env: old(self).is_env,
                    buffer: log_messages(old(self).buffer@),
                    logs: Seq::empty(),
                    payload: Map::empty(),
                    env: Map::empty(),
                };
                let m1 = CaptureModel {
                    is_env: final(self).is_env,
                    buffer: log_messages(final(self).buffer@),
                    logs: Seq::empty(),
                    payload: Map::empty(),
                    env: Map::empty(),
                };
                (m1, cont) == spec_stderr_line(m0, line@, bypass_termination, terminated)
            }),
            final(self).buffer_wf(old(build).total_steps as nat),
            final(self).buffer@ == old(self).buffer@ || (final(self).buffer@.drop_last() == old(
                self,
            ).buffer@ && final(self).buffer@.len() == old(self).buffer@.len() + 1 && {
                let l = final(self).buffer@.last();
                l.timestamp == now && l.status == Status::Error && l.step == step && l.message@
                    == spec_trim(line@)
            }),
    {
        if !bypass_termination && terminated {
            return false;
        }
        let trimmed = trim(line);
        if trimmed.as_str().is_empty() {
            return true;
        }
        let log = BuildLog { timestamp: now, status: Status::Error, step, message: trimmed };
        self.buffer.push(log);
        proof {
            assert(log_messages(self.buffer@) =~= log_messages(old(self).buffer@).push(
                spec_trim(line@),
            ));
            assert(self.buffer@.drop_last() =~= old(self).buffer@);
        }
        true
    }

    /// A flush event: appends the buffered lines to the build's history
    /// in order and empties the buffer.  When the step publishes, the
    /// batch is returned so the shell can serialize it onto the build
    /// fan-out channel; an empty buffer publishes nothing.
    pub fn on_flush(&mut self, build: &mut BuildProcess, send_to_sock: bool) -> (batch: Option<
        Vec<BuildLog>,
    >)
        requires
            old(self).buffer_wf(old(build).total_steps as nat),
            old(build).logs_wf(),
        ensures
            final(build).logs@ == old(build).logs@ + old(self).buffer@,
            final(self).buffer@.len() == 0,
            final(self).is_env == old(self).is_env,
            *final(build) == (BuildProcess { logs: final(build).logs, ..*old(build) }),
            final(build).logs_wf(),
            match batch {
                Some(v) => send_to_sock && old(self).buffer@.len() > 0 && v@ == old(self).buffer@,
                None => !send_to_sock || old(self).buffer@.len() == 0,
            },
    {
        if self.buffer.is_empty() {
            proof {
                assert(build.logs@ + self.buffer@ =~= build.logs@);
            }
            return None;
        }
        let batch = self.buffer.split_off(0);
        proof {
            assert(batch@ =~= old(self).buffer@);
            assert(self.buffer@ =~= Seq::<BuildLog>::empty());
        }
        let n = batch.len();
        let mut i: usize = 0;
        while i < n
            invariant
                n == batch@.len(),
                i <= n,
                batch@ == old(self).buffer@,
                old(self).buffer_wf(old(build).total_steps as nat),
                old(build).logs_wf(),
                build.logs@ == old(build).logs@ + batch@.subrange(0, i as int),
                *build == (BuildProcess { logs: build.logs, ..*old(build) }),
            decreases n - i,
        {
            build.logs.push(batch[i].clone());
            proof {
                assert(build.logs@ =~= old(build).logs@ + batch@.subrange(0, i + 1));
            }
            i += 1;
        }
        proof {
            assert(batch@.subrange(0, n as int) =~= batch@);
        }
        if send_to_sock {
            Some(batch)
        } else {
            None
        }
    }
}

/// The lines carried by an event interleaving (a `Some` is a line, a
/// `None` a timer tick), in order.
pub open spec fn lines_of(events: Seq<Option<Seq<char>>>) -> Seq<Seq<char>>
    decreases events.len(),
{
    if events.len() == 0 {
        Seq::empty()
    } else {
        let rest = lines_of(events.drop_last());
        match events.last() {
            Some(l) => rest.push(l),
            None => rest,
        }
    }
}

/// The messages capture keeps of a line sequence: the trimmed non-blank
/// lines, in order.
pub open spec fn kept_messages(lines: Seq<Seq<char>>) -> Seq<Seq<char>>
    decreases lines.len(),
{
    if lines.len() == 0 {
        Seq::empty()
    } else {
        let rest = kept_messages(lines.drop_last());
        if is_blank(lines.last()) {
            rest
        } else {
            rest.push(spec_trim(lines.last()))
        }
    }
}

/// The model after an interleaving of line and tick events on a stdout
/// capture loop with the termination flag down.
pub open spec fn run_stdout_events(
    m: CaptureModel,
    events: Seq<Option<Seq<char>>>,
    extract: Seq<Seq<char>>,
    bypass: bool,
) -> CaptureModel
    decreases events.len(),
{
    if events.len() == 0 {
        m
    } else {
        let m1 = run_stdout_events(m, events.drop_last(), extract, bypass);
        match events.last() {
            Some(line) => spec_stdout_line(m1, line, extract, bypass, false).0,
            None => spec_flush(m1),
        }
    }
}

proof fn lemma_run_keeps(
    m0: CaptureModel,
    events: Seq<Option<Seq<char>>>,
    extract: Seq<Seq<char>>,
    bypass: bool,
)
    requires
        !m0.is_env,
        forall|i: int|
            0 <= i < events.len() ==> ((#[trigger] events[i]) matches Some(l) ==> !has_sub(
                l,
                sentinel(),
            )),
    ensures
        !run_stdout_events(m0, events, extract, bypass).is_env,
        run_stdout_events(m0, events, extract, bypass).logs + run_stdout_events(
            m0,
            events,
            extract,
            bypass,
        ).buffer == m0.logs + m0.buffer + kept_messages(lines_of(events)),
    decreases events.len(),
{
    if events.len() == 0 {
        assert(m0.logs + m0.buffer + kept_messages(lines_of(events)) =~= m0.logs + m0.buffer);
    } else {
        let prev = events.drop_last();
        assert(forall|i: int| 0 <= i < prev.len() ==> prev[i] == events[i]);
        lemma_run_keeps(m0, prev, extract, bypass);
        let m1 = run_stdout_events(m0, prev, extract, bypass);
        let m2 = run_stdout_events(m0, events, extract, bypass);
        match events.last() {
            Some(line) => {
                assert(!has_sub(line, sentinel()));
                if is_blank(line) {
                    assert(lines_of(events) == lines_of(prev).push(line));
                    assert(kept_messages(lines_of(events).drop_last()) == kept_messages(
                        lines_of(prev),
                    )) by {
                        assert(lines_of(events).drop_last() =~= lines_of(prev));
                    }
                    assert(m2.logs + m2.buffer =~= m0.logs + m0.buffer + kept_messages(
                        lines_of(events),
                    ));
                } else {
                    let lp = lines_of(prev);
                    let le = lines_of(events);
                    let t = spec_trim(line);
                    assert(le == lp.push(line));
                    assert(le.drop_last() =~= lp);
                    assert(le.last() == line);
                    assert(kept_messages(le) == kept_messages(lp).push(t));
                    assert(m2.buffer == m1.buffer.push(t));
                    assert(m2.logs + m2.buffer =~= (m1.logs + m1.buffer).push(t));
                    assert((m0.logs + m0.buffer + kept_messages(lp)).push(t) =~= m0.logs
                        + m0.buffer + kept_messages(le));
                    assert(m2.logs + m2.buffer =~= m0.logs + m0.buffer + kept_messages(le));
                }
            },
            None => {
                assert(lines_of(events) =~= lines_of(prev));
                assert(m2.logs + m2.buffer =~= m1.logs + m1.buffer);
                assert(m2.logs + m2.buffer =~= m0.logs + m0.buffer + kept_messages(
                    lines_of(events),
                ));
            },
        }
    }
}

/// Flush correctness: however the flush timer interleaves with the lines
/// a step produces, once the stream ends and the final flush runs, the
/// log history holds exactly the trimmed non-blank lines, in source
/// order, each exactly once.  Holds for any line sequence free of the
/// sentinel while the termination flag stays down.
pub proof fn lemma_flush_correctness(
    m0: CaptureModel,
    events: Seq<Option<Seq<char>>>,
    extract: Seq<Seq<char>>,
    bypass: bool,
)
    requires
        !m0.is_env,
        m0.buffer.len() == 0,
        forall|i: int|
            0 <= i < events.len() ==> ((#[trigger] events[i]) matches Some(l) ==> !has_sub(
                l,
                sentinel(),
            )),
    ensures
        spec_flush(run_stdout_events(m0, events, extract, bypass)).logs == m0.logs + kept_messages(
            lines_of(events),
        ),
        spec_flush(run_stdout_events(m0, events, extract, bypass)).buffer.len() == 0,
{
    lemma_run_keeps(m0, events, extract, bypass);
    let m = run_stdout_events(m0, events, extract, bypass);
    assert(m0.buffer =~= Seq::<Seq<char>>::empty());
    assert(m0.logs + m0.buffer =~= m0.logs);
    assert(spec_flush(m).logs =~= m0.logs + kept_messages(lines_of(events)));
}

} // verus!
