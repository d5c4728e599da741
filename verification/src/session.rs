//! The capture session: locating the tracing filesystem, the per-phase file
//! operations, and the phase sequencing with its abort-to-cleanup rule.
//!
//! Phases run strictly forward: bind the root, apply global options, enable
//! the resolved events, capture for the configured window, dump the buffer,
//! then disable the resolved events.  The first latched error aborts forward
//! progress, but the terminal disable phase is best-effort and always runs —
//! except when even binding the root failed, where there is nothing to clean
//! up yet.

use vstd::prelude::*;
use vstd::string::StringExecFns;
use crate::ftrace::{ErrKind, FsOp, FsOpV, Tracer, spec_bool_str, spec_full_path};
use crate::text::{contains_seq, contains_sub, spec_int_str};

verus! {

/// The candidate tracing-filesystem roots, in preference order.
pub fn tracefs_candidates() -> (r: Vec<String>)
    ensures
        r@.len() == 2,
        r@[0]@ == "/sys/kernel/tracing"@,
        r@[1]@ == "/sys/kernel/debug/tracing"@,
{
    let mut r: Vec<String> = Vec::new();
    r.push(String::from_str("/sys/kernel/tracing"));
    r.push(String::from_str("/sys/kernel/debug/tracing"));
    r
}

/// Bind the tracer to the first candidate root whose `trace` file the
/// accessor found usable; `probes[k]` is the accessor's reply for candidate
/// `k`'s `trace` file.  Candidates are preferred strictly in order.  When
/// every candidate failed, the last candidate's failure stays latched.
pub fn set_tracefs(tracer: &mut Tracer, candidates: &Vec<String>, probes: &Vec<Option<ErrKind>>)
    requires
        probes@.len() == candidates@.len(),
    ensures
        (exists|k: int| 0 <= k < probes@.len() && probes@[k] is None) ==> exists|k: int|
            {
                &&& 0 <= k < probes@.len()
                &&& #[trigger] probes@[k] is None
                &&& forall|j: int| 0 <= j < k ==> probes@[j] is Some
                &&& final(tracer).root() == candidates@[k]@
                &&& final(tracer).err() is None
            },
        (probes@.len() > 0 && (forall|k: int|
            0 <= k < probes@.len() ==> probes@[k] is Some)) ==> final(tracer).root() == old(
            tracer,
        ).root() && final(tracer).err() == Some(
            (
                probes@[probes@.len() - 1].unwrap(),
                candidates@[probes@.len() - 1]@ + "/trace"@,
            ),
        ),
        probes@.len() == 0 ==> *final(tracer) == *old(tracer),
{
    let n = candidates.len();
    let mut k: usize = 0;
    while k < n
        invariant
            n == candidates@.len(),
            probes@.len() == n,
            k <= n,
            forall|j: int| 0 <= j < k ==> probes@[j] is Some,
            tracer.root() == old(tracer).root(),
            k == 0 ==> *tracer == *old(tracer),
            k > 0 ==> tracer.err() == Some(
                (probes@[k - 1].unwrap(), candidates@[k - 1]@ + "/trace"@),
            ),
        decreases n - k,
    {
        tracer.set_tracefs(candidates[k].as_str(), probes[k]);
        if !tracer.has_err() {
            return ;
        }
        k = k + 1;
    }
}

/// The ordered clock preference: which clock the session would write to the
/// clock file whose read content is `v` — the first of `boot`, `mono`,
/// `global` that appears in the supported list, unless that clock is already
/// active (the active clock appears bracket-delimited), in which case the
/// expensive write is elided.
pub open spec fn spec_choose_clock(v: Seq<char>) -> Option<Seq<char>> {
    if contains_seq(v, "boot"@) {
        if contains_seq(v, "[boot]"@) {
            None
        } else {
            Some("boot"@)
        }
    } else if contains_seq(v, "mono"@) {
        if contains_seq(v, "[mono]"@) {
            None
        } else {
            Some("mono"@)
        }
    } else if contains_seq(v, "global"@) {
        if contains_seq(v, "[global]"@) {
            None
        } else {
            Some("global"@)
        }
    } else {
        None
    }
}

/// The clock name that trace-clock selection writes back, given the clock
/// file's read content — or nothing, when no preferred clock is supported or
/// the chosen one is already active.
pub fn choose_trace_clock(val: &str) -> (r: Option<String>)
    ensures
        r.deep_view() == spec_choose_clock(val@),
{
    if contains_sub(val, "boot") {
        if contains_sub(val, "[boot]") {
            None
        } else {
            Some(String::from_str("boot"))
        }
    } else if contains_sub(val, "mono") {
        if contains_sub(val, "[mono]") {
            None
        } else {
            Some(String::from_str("mono"))
        }
    } else if contains_sub(val, "global") {
        if contains_sub(val, "[global]") {
            None
        } else {
            Some(String::from_str("global"))
        }
    } else {
        None
    }
}

/// The write that trace-clock selection issues against the clock file whose
/// read content is `val`, if one is needed at all.
pub fn set_trace_clock(tracer: &Tracer, val: &str) -> (r: Option<FsOp>)
    ensures
        spec_choose_clock(val@) is None ==> r is None,
        spec_choose_clock(val@) matches Some(c) ==> r matches Some(op) && op@ == (FsOpV::Write {
            path: tracer.spec_path("trace_clock"@),
            val: c,
        }),
{
    match choose_trace_clock(val) {
        Some(clock) => Some(tracer.write("trace_clock", clock.as_str())),
        None => None,
    }
}

/// The options phase: the ordered writes that prepare a capture, given the
/// accessor's probe of the `options/record-tgid` file and the clock file's
/// read content.  Tracing output is stopped and the buffer cleared first;
/// task-group-id recording prefers the neutral option name and falls back to
/// the vendor alternate; then buffer size, the no-op passthrough tracer, a
/// cleared function filter, and — only when needed — the trace clock.
pub fn set_options(tracer: &Tracer, record_tgid: bool, clock_val: &str) -> (r: Vec<FsOp>)
    ensures
        spec_choose_clock(clock_val@) is Some ==> r.deep_view().len() == 7,
        spec_choose_clock(clock_val@) is None ==> r.deep_view().len() == 6,
        r.deep_view()[0] == (FsOpV::Write { path: tracer.spec_path("tracing_on"@), val: "0"@ }),
        r.deep_view()[1] == (FsOpV::Truncate { path: tracer.spec_path("trace"@) }),
        record_tgid ==> r.deep_view()[2] == (FsOpV::Write {
            path: tracer.spec_path("options/record-tgid"@),
            val: "1"@,
        }),
        !record_tgid ==> r.deep_view()[2] == (FsOpV::Write {
            path: tracer.spec_path("options/print-tgid"@),
            val: "1"@,
        }),
        r.deep_view()[3] == (FsOpV::Write {
            path: tracer.spec_path("buffer_size_kb"@),
            val: spec_int_str(32768),
        }),
        r.deep_view()[4] == (FsOpV::Write {
            path: tracer.spec_path("current_tracer"@),
            val: "nop"@,
        }),
        r.deep_view()[5] == (FsOpV::Truncate { path: tracer.spec_path("set_ftrace_filter"@) }),
        spec_choose_clock(clock_val@) matches Some(c) ==> r.deep_view()[6] == (FsOpV::Write {
            path: tracer.spec_path("trace_clock"@),
            val: c,
        }),
{
    let mut ops: Vec<FsOp> = Vec::new();
    ops.push(tracer.write_bool("tracing_on", false));
    ops.push(tracer.truncate("trace"));
    if record_tgid {
        ops.push(tracer.write_bool("options/record-tgid", true));
    } else {
        // vendor / mobile kernels name the option differently
        ops.push(tracer.write_bool("options/print-tgid", true));
    }
    ops.push(tracer.write_i32("buffer_size_kb", 32 * 1024));
    ops.push(tracer.write("current_tracer", "nop"));
    ops.push(tracer.truncate("set_ftrace_filter"));
    match set_trace_clock(tracer, clock_val) {
        Some(op) => ops.push(op),
        None => {},
    }
    ops
}

/// The writes that flip every resolved enable file to `enable`, in resolved
/// order.
pub open spec fn spec_set_events(root: Seq<char>, paths: Seq<Seq<char>>, enable: bool) -> Seq<
    FsOpV,
> {
    paths.map_values(
        |p: Seq<char>| FsOpV::Write { path: spec_full_path(root, p), val: spec_bool_str(enable) },
    )
}

/// The enable (or disable) phase: one write per resolved path, in order.
/// The caller performs them in order and, when enabling, stops at the first
/// failure; when disabling it carries on regardless, since turning an
/// already-off event off is a harmless no-op.
pub fn set_events(tracer: &Tracer, paths: &Vec<String>, enable: bool) -> (r: Vec<FsOp>)
    ensures
        r.deep_view() == spec_set_events(tracer.root(), paths.deep_view(), enable),
{
    let mut ops: Vec<FsOp> = Vec::new();
    let n = paths.len();
    let mut i: usize = 0;
    while i < n
        invariant
            n == paths@.len(),
            i <= n,
            ops.deep_view().len() == i,
            forall|j: int|
                0 <= j < i ==> ops.deep_view()[j] == spec_set_events(
                    tracer.root(),
                    paths.deep_view(),
                    enable,
                )[j],
        decreases n - i,
    {
        let ghost dv0 = ops.deep_view();
        ops.push(tracer.write_bool(paths[i].as_str(), enable));
        proof {
            assert(ops.deep_view() =~= dv0.push(
                FsOpV::Write {
                    path: spec_full_path(tracer.root(), paths.deep_view()[i as int]),
                    val: spec_bool_str(enable),
                },
            ));
        }
        i = i + 1;
    }
    proof {
        assert(ops.deep_view() =~= spec_set_events(tracer.root(), paths.deep_view(), enable));
    }
    ops
}

/// The pair of writes bounding the capture window: the first turns global
/// tracing on; the second turns it off and is issued unconditionally once
/// the window ends, even after a failed on-write or wait — tracing is never
/// left running past this phase.
pub fn trace(tracer: &Tracer) -> (r: (FsOp, FsOp))
    ensures
        r.0@ == (FsOpV::Write { path: tracer.spec_path("tracing_on"@), val: "1"@ }),
        r.1@ == (FsOpV::Write { path: tracer.spec_path("tracing_on"@), val: "0"@ }),
{
    (tracer.write_bool("tracing_on", true), tracer.write_bool("tracing_on", false))
}

/// The dump phase: read the whole buffer (the caller copies it verbatim to
/// the destination file — the tracing filesystem supports no rename or
/// copy), then truncate the buffer.
pub fn dump_trace(tracer: &Tracer) -> (r: (FsOp, FsOp))
    ensures
        r.0@ == (FsOpV::Read { path: tracer.spec_path("trace"@) }),
        r.1@ == (FsOpV::Truncate { path: tracer.spec_path("trace"@) }),
{
    (tracer.read("trace"), tracer.truncate("trace"))
}

/// The session's phases, strictly sequential, no re-entry.
#[derive(Clone, Copy, Debug, PartialEq, Eq, Structural)]
pub enum Phase {
    /// Locate and bind the tracing-filesystem root.
    Bind,
    /// Apply the global options ([`set_options`]).
    Options,
    /// Resolve the requested categories and enable their events.
    Enable,
    /// Run the timed capture window.
    Capture,
    /// Copy the buffer to the destination and truncate it.
    Dump,
    /// Best-effort disable of every resolved event.
    Cleanup,
    /// Terminal: full success.
    DoneOk,
    /// Terminal: a phase latched an error.
    DoneErr,
}

/// Phase sequencing.  A latched error after binding aborts forward progress
/// straight to cleanup; a bind failure is fatal at once, there being nothing
/// to clean up yet; cleanup always runs to completion and then reports the
/// session's outcome.
pub open spec fn spec_next_phase(p: Phase, has_err: bool) -> Phase {
    match p {
        Phase::Bind => if has_err {
            Phase::DoneErr
        } else {
            Phase::Options
        },
        Phase::Options => if has_err {
            Phase::Cleanup
        } else {
            Phase::Enable
        },
        Phase::Enable => if has_err {
            Phase::Cleanup
        } else {
            Phase::Capture
        },
        Phase::Capture => if has_err {
            Phase::Cleanup
        } else {
            Phase::Dump
        },
        Phase::Dump => Phase::Cleanup,
        Phase::Cleanup => if has_err {
            Phase::DoneErr
        } else {
            Phase::DoneOk
        },
        Phase::DoneOk => Phase::DoneOk,
        Phase::DoneErr => Phase::DoneErr,
    }
}

/// The phase that follows `p`, given whether an error is latched at the
/// phase boundary.
pub fn next_phase(p: Phase, has_err: bool) -> (r: Phase)
    ensures
        r == spec_next_phase(p, has_err),
{
    match p {
        Phase::Bind => if has_err {
            Phase::DoneErr
        } else {
            Phase::Options
        },
        Phase::Options => if has_err {
            Phase::Cleanup
        } else {
            Phase::Enable
        },
        Phase::Enable => if has_err {
            Phase::Cleanup
        } else {
            Phase::Capture
        },
        Phase::Capture => if has_err {
            Phase::Cleanup
        } else {
            Phase::Dump
        },
        Phase::Dump => Phase::Cleanup,
        Phase::Cleanup => if has_err {
            Phase::DoneErr
        } else {
            Phase::DoneOk
        },
        Phase::DoneOk => Phase::DoneOk,
        Phase::DoneErr => Phase::DoneErr,
    }
}

/// A latched error aborts forward progress: from every phase between the
/// options phase and the dump, the session moves to cleanup, not to the next
/// forward phase — yet cleanup itself always runs and then terminates the
/// session with the latched outcome.  Without an error each phase advances
/// to its successor.
pub proof fn lemma_abort_still_runs_cleanup(p: Phase, has_err: bool)
    ensures
        has_err && (p == Phase::Options || p == Phase::Enable || p == Phase::Capture || p
            == Phase::Dump) ==> spec_next_phase(p, has_err) == Phase::Cleanup,
        !has_err ==> spec_next_phase(Phase::Options, has_err) == Phase::Enable
            && spec_next_phase(Phase::Enable, has_err) == Phase::Capture && spec_next_phase(
            Phase::Capture,
            has_err,
        ) == Phase::Dump && spec_next_phase(Phase::Dump, has_err) == Phase::Cleanup,
        spec_next_phase(Phase::Cleanup, has_err) == if has_err {
            Phase::DoneErr
        } else {
            Phase::DoneOk
        },
{
}

/// Cleanup disables exactly the paths that were resolved for the enable
/// phase: for one resolved list, the disable operations write `"0"` to
/// precisely the paths the enable operations wrote `"1"` to, in the same
/// order — independent of how many enable writes were performed before a
/// failure stopped that phase.
pub proof fn lemma_cleanup_matches_enable(root: Seq<char>, paths: Seq<Seq<char>>)
    ensures
        spec_set_events(root, paths, false).len() == spec_set_events(root, paths, true).len(),
        forall|i: int|
            0 <= i < paths.len() ==> (#[trigger] spec_set_events(root, paths, false)[i]).target()
                == spec_set_events(root, paths, true)[i].target(),
        forall|i: int|
            0 <= i < paths.len() ==> spec_set_events(root, paths, false)[i] == (FsOpV::Write {
                path: spec_full_path(root, paths[i]),
                val: "0"@,
            }),
        forall|i: int|
            0 <= i < paths.len() ==> spec_set_events(root, paths, true)[i] == (FsOpV::Write {
                path: spec_full_path(root, paths[i]),
                val: "1"@,
            }),
{
}

} // verus!
