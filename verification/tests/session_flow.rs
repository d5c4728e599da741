use tracecap::args::parse_args;
use tracecap::catalog::categories;
use tracecap::ftrace::{ErrKind, FsOp, Tracer};
use tracecap::resolve::{category_event_paths, collect_events, skipped_categories};
use tracecap::session::{
    choose_trace_clock, dump_trace, next_phase, set_events, set_options, set_tracefs, trace,
    tracefs_candidates, Phase,
};

/// A simulated tracing filesystem: which paths exist, what reads return, and
/// a record of every attempted and successful mutation.
struct SimFs {
    existing: Vec<String>,
    contents: Vec<(String, String)>,
    writes: Vec<(String, String)>,
    attempts: Vec<(String, String)>,
    truncates: Vec<String>,
}

impl SimFs {
    fn new() -> SimFs {
        SimFs {
            existing: Vec::new(),
            contents: Vec::new(),
            writes: Vec::new(),
            attempts: Vec::new(),
            truncates: Vec::new(),
        }
    }

    fn with(mut self, path: &str) -> SimFs {
        self.existing.push(path.to_string());
        self
    }

    fn with_content(mut self, path: &str, content: &str) -> SimFs {
        self.existing.push(path.to_string());
        self.contents.push((path.to_string(), content.to_string()));
        self
    }

    fn has_path(&self, path: &str) -> bool {
        self.existing.iter().any(|e| e == path)
    }

    fn probe(&self, path: &str) -> Option<ErrKind> {
        if self.has_path(path) {
            None
        } else {
            Some(ErrKind::NotFound)
        }
    }

    fn read(&self, path: &str) -> Result<String, ErrKind> {
        if let Some((_, v)) = self.contents.iter().find(|(p, _)| p == path) {
            Ok(v.clone())
        } else if self.has_path(path) {
            Ok(String::new())
        } else {
            Err(ErrKind::NotFound)
        }
    }

    fn write(&mut self, path: &str, val: &str) -> Option<ErrKind> {
        self.attempts.push((path.to_string(), val.to_string()));
        if self.has_path(path) {
            self.writes.push((path.to_string(), val.to_string()));
            None
        } else {
            Some(ErrKind::NotFound)
        }
    }

    fn truncate(&mut self, path: &str) -> Option<ErrKind> {
        if self.has_path(path) {
            self.truncates.push(path.to_string());
            None
        } else {
            Some(ErrKind::NotFound)
        }
    }
}

/// Perform a batch of operations as the accessor would: stop at the first
/// latched error when asked to (the forward phases), and either latch
/// failures or absorb them silently (cleanup).
fn run_ops(tracer: &mut Tracer, fs: &mut SimFs, ops: Vec<FsOp>, stop_on_err: bool, latch: bool) {
    for op in ops {
        if stop_on_err && tracer.has_err() {
            break;
        }
        match op {
            FsOp::Write { path, val } => {
                if let Some(kind) = fs.write(&path, &val) {
                    if latch {
                        tracer.path_err(kind, path);
                    }
                }
            }
            FsOp::Truncate { path } => {
                if let Some(kind) = fs.truncate(&path) {
                    if latch {
                        tracer.path_err(kind, path);
                    }
                }
            }
            _ => panic!("only writes and truncations are batched"),
        }
    }
}

struct SessionOutcome {
    phase: Phase,
    tracer: Tracer,
    resolved: Vec<String>,
    skipped: Vec<usize>,
    output_content: Option<String>,
}

/// Drive a whole capture session against the simulated filesystem, exactly
/// as the program would: each phase performs its operations, then advances
/// through `next_phase` on the latch state.
fn run_session(fs: &mut SimFs, args: Vec<&str>) -> SessionOutcome {
    let cats = categories();
    let args: Vec<String> = args.into_iter().map(|s| s.to_string()).collect();
    let config = parse_args(&cats, &args).expect("arguments should parse");
    let mut tracer = Tracer::new();
    let mut phase = Phase::Bind;
    let mut resolved: Vec<String> = Vec::new();
    let mut skipped: Vec<usize> = Vec::new();
    let mut output_content: Option<String> = None;
    loop {
        match phase {
            Phase::Bind => {
                let cands = tracefs_candidates();
                let probes: Vec<Option<ErrKind>> =
                    cands.iter().map(|c| fs.probe(&format!("{}/trace", c))).collect();
                set_tracefs(&mut tracer, &cands, &probes);
            }
            Phase::Options => {
                let record_tgid = match tracer.test("options/record-tgid") {
                    FsOp::Test { path } => fs.has_path(&path),
                    _ => unreachable!(),
                };
                let clock_val = match tracer.read("trace_clock") {
                    FsOp::Read { path } => match fs.read(&path) {
                        Ok(v) => v,
                        Err(kind) => {
                            tracer.path_err(kind, path);
                            String::new()
                        }
                    },
                    _ => unreachable!(),
                };
                if !tracer.has_err() {
                    let ops = set_options(&tracer, record_tgid, &clock_val);
                    run_ops(&mut tracer, fs, ops, true, true);
                }
            }
            Phase::Enable => {
                let mut avail: Vec<Vec<bool>> = Vec::new();
                for &ci in &config.enabled_categories {
                    let mut cat_avail: Vec<bool> = Vec::new();
                    for p in &category_event_paths(&cats[ci]) {
                        match tracer.test(p.as_str()) {
                            FsOp::Test { path } => cat_avail.push(fs.has_path(&path)),
                            _ => unreachable!(),
                        }
                    }
                    avail.push(cat_avail);
                }
                skipped = skipped_categories(
                    &cats,
                    &config.enabled_categories,
                    config.explicit,
                    &avail,
                );
                resolved = collect_events(
                    &cats,
                    &config.enabled_categories,
                    config.explicit,
                    &avail,
                );
                let ops = set_events(&tracer, &resolved, true);
                run_ops(&mut tracer, fs, ops, true, true);
            }
            Phase::Capture => {
                let (on, off) = trace(&tracer);
                run_ops(&mut tracer, fs, vec![on], true, true);
                // the interruptible wait itself is elided in simulation
                run_ops(&mut tracer, fs, vec![off], false, true);
            }
            Phase::Dump => {
                let (read_op, truncate_op) = dump_trace(&tracer);
                match read_op {
                    FsOp::Read { path } => match fs.read(&path) {
                        // destination-write failures are deliberately ignored
                        Ok(v) => output_content = Some(v),
                        Err(kind) => tracer.path_err(kind, path),
                    },
                    _ => unreachable!(),
                }
                run_ops(&mut tracer, fs, vec![truncate_op], true, true);
            }
            Phase::Cleanup => {
                let ops = set_events(&tracer, &resolved, false);
                run_ops(&mut tracer, fs, ops, false, false);
            }
            Phase::DoneOk | Phase::DoneErr => break,
        }
        let has_err = tracer.has_err();
        phase = next_phase(phase, has_err);
    }
    SessionOutcome { phase, tracer, resolved, skipped, output_content }
}

fn root_fs(clock: &str) -> SimFs {
    SimFs::new()
        .with_content("/sys/kernel/tracing/trace", "SIMULATED BUFFER")
        .with("/sys/kernel/tracing/tracing_on")
        .with("/sys/kernel/tracing/options/record-tgid")
        .with("/sys/kernel/tracing/buffer_size_kb")
        .with("/sys/kernel/tracing/current_tracer")
        .with("/sys/kernel/tracing/set_ftrace_filter")
        .with_content("/sys/kernel/tracing/trace_clock", clock)
}

#[test]
fn candidate_roots_in_preference_order() {
    let cands = tracefs_candidates();
    assert_eq!(cands, vec!["/sys/kernel/tracing", "/sys/kernel/debug/tracing"]);
}

#[test]
fn tracer_binds_first_usable_candidate() {
    let mut t = Tracer::new();
    let cands = tracefs_candidates();
    set_tracefs(&mut t, &cands, &vec![Some(ErrKind::NotFound), None]);
    assert!(!t.has_err());
    let op = t.test("trace");
    assert_eq!(op, FsOp::Test { path: "/sys/kernel/debug/tracing/trace".to_string() });
}

#[test]
fn tracer_latches_classified_error_with_path() {
    let mut t = Tracer::new();
    assert!(!t.has_err());
    t.path_err(ErrKind::PermissionDenied, "somewhere".to_string());
    assert!(t.has_err());
    let (kind, path) = t.get_err();
    assert_eq!(kind, ErrKind::PermissionDenied);
    assert_eq!(path, "somewhere");
}

#[test]
fn clock_selects_first_preference_and_writes_once() {
    // none bracketed: boot wins and exactly one clock write is issued
    assert_eq!(choose_trace_clock("boot mono global"), Some("boot".to_string()));
    let t = Tracer::new();
    let ops = set_options(&t, true, "boot mono global");
    assert_eq!(ops.len(), 7);
    let count = ops
        .iter()
        .filter(|op| matches!(op, FsOp::Write { path, .. } if path == "trace_clock"))
        .count();
    assert_eq!(count, 1);
    assert_eq!(
        ops[6],
        FsOp::Write { path: "trace_clock".to_string(), val: "boot".to_string() }
    );
}

#[test]
fn clock_write_elided_when_chosen_clock_already_active() {
    assert_eq!(choose_trace_clock("[boot] mono global"), None);
    let t = Tracer::new();
    let ops = set_options(&t, true, "[boot] mono global");
    assert_eq!(ops.len(), 6);
    assert!(!ops
        .iter()
        .any(|op| matches!(op, FsOp::Write { path, .. } if path == "trace_clock")));
}

#[test]
fn clock_preference_falls_back_in_order() {
    assert_eq!(choose_trace_clock("mono global"), Some("mono".to_string()));
    assert_eq!(choose_trace_clock("[mono] global"), None);
    assert_eq!(choose_trace_clock("global"), Some("global".to_string()));
    assert_eq!(choose_trace_clock("[global]"), None);
    assert_eq!(choose_trace_clock("local counter"), None);
    // an active later clock does not stop an earlier, inactive preference
    assert_eq!(choose_trace_clock("boot mono [global]"), Some("boot".to_string()));
}

#[test]
fn options_order_and_tgid_fallback() {
    let t = Tracer::new();
    let ops = set_options(&t, false, "[boot]");
    assert_eq!(
        ops,
        vec![
            FsOp::Write { path: "tracing_on".to_string(), val: "0".to_string() },
            FsOp::Truncate { path: "trace".to_string() },
            FsOp::Write { path: "options/print-tgid".to_string(), val: "1".to_string() },
            FsOp::Write { path: "buffer_size_kb".to_string(), val: "32768".to_string() },
            FsOp::Write { path: "current_tracer".to_string(), val: "nop".to_string() },
            FsOp::Truncate { path: "set_ftrace_filter".to_string() },
        ]
    );
}

#[test]
fn cleanup_disables_exactly_the_resolved_paths() {
    let t = Tracer::new();
    let paths = vec!["events/a/enable".to_string(), "events/b/enable".to_string()];
    let enable = set_events(&t, &paths, true);
    let disable = set_events(&t, &paths, false);
    assert_eq!(enable.len(), disable.len());
    for (on, off) in enable.iter().zip(disable.iter()) {
        match (on, off) {
            (
                FsOp::Write { path: p1, val: v1 },
                FsOp::Write { path: p2, val: v2 },
            ) => {
                assert_eq!(p1, p2);
                assert_eq!(v1, "1");
                assert_eq!(v2, "0");
            }
            _ => panic!("event flips must be writes"),
        }
    }
}

#[test]
fn cleanup_covers_all_paths_even_after_partial_enable_failure() {
    // bind to a root where only the first of two resolved paths exists: the
    // enable phase stops at the second, cleanup still attempts both
    let mut fs = SimFs::new()
        .with("/sys/kernel/tracing/trace")
        .with("/sys/kernel/tracing/events/a/enable");
    let mut t = Tracer::new();
    let cands = tracefs_candidates();
    set_tracefs(&mut t, &cands, &vec![None, Some(ErrKind::NotFound)]);
    let paths = vec!["events/a/enable".to_string(), "events/b/enable".to_string()];
    let enable_ops = set_events(&t, &paths, true);
    run_ops(&mut t, &mut fs, enable_ops, true, true);
    assert!(t.has_err());
    let enable_attempts = fs.attempts.clone();
    assert_eq!(enable_attempts.len(), 2);
    let disable_ops = set_events(&t, &paths, false);
    run_ops(&mut t, &mut fs, disable_ops, false, false);
    let cleanup_attempts: Vec<_> = fs.attempts[2..].to_vec();
    assert_eq!(
        cleanup_attempts,
        vec![
            ("/sys/kernel/tracing/events/a/enable".to_string(), "0".to_string()),
            ("/sys/kernel/tracing/events/b/enable".to_string(), "0".to_string()),
        ]
    );
}

#[test]
fn phase_machine_aborts_forward_but_always_cleans_up() {
    for p in [Phase::Options, Phase::Enable, Phase::Capture, Phase::Dump] {
        assert_eq!(next_phase(p, true), Phase::Cleanup);
    }
    assert_eq!(next_phase(Phase::Bind, false), Phase::Options);
    assert_eq!(next_phase(Phase::Bind, true), Phase::DoneErr);
    assert_eq!(next_phase(Phase::Options, false), Phase::Enable);
    assert_eq!(next_phase(Phase::Enable, false), Phase::Capture);
    assert_eq!(next_phase(Phase::Capture, false), Phase::Dump);
    assert_eq!(next_phase(Phase::Dump, false), Phase::Cleanup);
    assert_eq!(next_phase(Phase::Cleanup, false), Phase::DoneOk);
    assert_eq!(next_phase(Phase::Cleanup, true), Phase::DoneErr);
}

#[test]
fn implicit_session_with_only_idle_available() {
    let mut fs = root_fs("local global counter uptime perf mono boot")
        .with("/sys/kernel/tracing/events/power/cpu_idle/enable");
    let outcome = run_session(&mut fs, vec!["-t", "1"]);
    assert_eq!(outcome.phase, Phase::DoneOk);
    assert!(!outcome.tracer.has_err());
    assert_eq!(outcome.resolved, vec!["events/power/cpu_idle/enable".to_string()]);
    // every category but idle (index 2) is reported as skipped
    assert_eq!(outcome.skipped, vec![0, 1, 3, 4, 5, 6, 7, 8, 9]);
    assert_eq!(outcome.output_content.as_deref(), Some("SIMULATED BUFFER"));
    // the lone enable file was turned on and off again
    let idle = "/sys/kernel/tracing/events/power/cpu_idle/enable";
    let flips: Vec<&str> = fs
        .writes
        .iter()
        .filter(|(p, _)| p == idle)
        .map(|(_, v)| v.as_str())
        .collect();
    assert_eq!(flips, vec!["1", "0"]);
    // no other event file was ever touched
    assert!(fs
        .attempts
        .iter()
        .filter(|(p, _)| p.contains("/events/"))
        .all(|(p, _)| p == idle));
}

#[test]
fn explicit_sched_session_with_missing_optional_event() {
    let mut fs = root_fs("[boot] mono global")
        .with("/sys/kernel/tracing/events/sched/sched_switch/enable")
        .with("/sys/kernel/tracing/events/sched/sched_wakeup/enable");
    let outcome = run_session(&mut fs, vec!["sched"]);
    assert_eq!(outcome.phase, Phase::DoneOk);
    assert_eq!(
        outcome.resolved,
        vec![
            "events/sched/sched_switch/enable".to_string(),
            "events/sched/sched_wakeup/enable".to_string(),
        ]
    );
    assert!(outcome.skipped.is_empty());
    // reaching the dump means both enables succeeded
    assert_eq!(outcome.output_content.as_deref(), Some("SIMULATED BUFFER"));
}

#[test]
fn unreachable_tracefs_fails_before_any_write() {
    let mut fs = SimFs::new();
    let outcome = run_session(&mut fs, vec![]);
    assert_eq!(outcome.phase, Phase::DoneErr);
    assert!(outcome.tracer.has_err());
    let (kind, path) = outcome.tracer.get_err();
    assert_eq!(kind, ErrKind::NotFound);
    assert_eq!(path, "/sys/kernel/debug/tracing/trace");
    assert!(fs.attempts.is_empty());
    assert!(fs.writes.is_empty());
    assert!(fs.truncates.is_empty());
}
