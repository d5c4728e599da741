use tracecap::catalog::{categories, event_path, Category, Event};
use tracecap::resolve::{collect_events, resolve_category, skipped_categories};

fn ev(subsystem: &str, name: Option<&str>, required: bool) -> Event {
    Event { subsystem: subsystem.to_string(), name: name.map(|n| n.to_string()), required }
}

fn sched_like() -> Category {
    Category {
        name: "sched".to_string(),
        description: "scheduler-related events".to_string(),
        events: vec![
            ev("sched", Some("sched_switch"), true),
            ev("sched", Some("sched_wakeup"), true),
            ev("sched", Some("sched_waking"), false),
            ev("cgroup", None, false),
        ],
    }
}

#[test]
fn catalog_shape_and_order() {
    let cats = categories();
    let names: Vec<&str> = cats.iter().map(|c| c.name.as_str()).collect();
    assert_eq!(
        names,
        vec![
            "sched",
            "freq",
            "idle",
            "irq",
            "drm",
            "fence",
            "virtio-gpu",
            "i915",
            "kvm",
            "syscalls"
        ]
    );
    assert_eq!(cats[0].events.len(), 7);
    assert_eq!(cats[2].events.len(), 1);
    assert_eq!(cats[2].events[0].subsystem, "power");
    assert_eq!(cats[2].events[0].name.as_deref(), Some("cpu_idle"));
    assert!(cats[2].events[0].required);
    assert_eq!(cats[7].events.len(), 12);
    assert!(cats[7].events.iter().all(|e| e.required));
    assert!(!cats[0].events[2].required);
}

#[test]
fn event_path_layout() {
    let named = ev("sched", Some("sched_switch"), true);
    assert_eq!(event_path(&named), "events/sched/sched_switch/enable");
    let whole = ev("drm", None, true);
    assert_eq!(event_path(&whole), "events/drm/enable");
}

#[test]
fn implicit_category_is_all_or_nothing() {
    let cat = sched_like();
    // a required event unavailable discards even the available optional ones
    let avail = vec![true, false, true, true];
    let r = resolve_category(&cat, &avail, false);
    assert!(r.is_empty());
}

#[test]
fn implicit_includes_only_available_events() {
    let cat = sched_like();
    let avail = vec![true, true, false, true];
    let r = resolve_category(&cat, &avail, false);
    assert_eq!(
        r,
        vec![
            "events/sched/sched_switch/enable".to_string(),
            "events/sched/sched_wakeup/enable".to_string(),
            "events/cgroup/enable".to_string(),
        ]
    );
}

#[test]
fn explicit_includes_required_unconditionally_and_optional_iff_available() {
    let cat = sched_like();
    // both required events missing, one optional available
    let avail = vec![false, false, true, false];
    let r = resolve_category(&cat, &avail, true);
    assert_eq!(
        r,
        vec![
            "events/sched/sched_switch/enable".to_string(),
            "events/sched/sched_wakeup/enable".to_string(),
            "events/sched/sched_waking/enable".to_string(),
        ]
    );
    // no optional available: exactly the required events remain
    let r2 = resolve_category(&cat, &vec![false, false, false, false], true);
    assert_eq!(
        r2,
        vec![
            "events/sched/sched_switch/enable".to_string(),
            "events/sched/sched_wakeup/enable".to_string(),
        ]
    );
}

#[test]
fn resolution_is_deterministic_and_keeps_request_order() {
    let cats = categories();
    // idle (index 2) fully available, sched (index 0) fully available
    let enabled = vec![2, 0];
    let avail = vec![vec![true], vec![true, true, true, true, true, true, true]];
    let r1 = collect_events(&cats, &enabled, false, &avail);
    let r2 = collect_events(&cats, &enabled, false, &avail);
    assert_eq!(r1, r2);
    // idle's path first, then sched's events in catalog order
    assert_eq!(r1[0], "events/power/cpu_idle/enable");
    assert_eq!(r1[1], "events/sched/sched_switch/enable");
    assert_eq!(r1.len(), 8);
}

#[test]
fn viable_category_with_nothing_available_contributes_zero_paths() {
    // only optional events, none available: the category survives the
    // required-event check yet contributes nothing, and is merely skipped
    let cat = Category {
        name: "opt".to_string(),
        description: "optional-only".to_string(),
        events: vec![ev("a", Some("x"), false), ev("b", None, false)],
    };
    let r = resolve_category(&cat, &vec![false, false], false);
    assert!(r.is_empty());
    let cats = vec![cat];
    let skipped = skipped_categories(&cats, &vec![0], false, &vec![vec![false, false]]);
    assert_eq!(skipped, vec![0]);
}

#[test]
fn skipped_categories_are_reported_in_implicit_mode_only() {
    let cats = categories();
    let enabled = vec![0, 2];
    // sched loses a required event, idle is available
    let avail = vec![vec![true, false, true, true, true, true, true], vec![true]];
    let skipped = skipped_categories(&cats, &enabled, false, &avail);
    assert_eq!(skipped, vec![0]);
    let none_skipped = skipped_categories(&cats, &enabled, true, &avail);
    assert!(none_skipped.is_empty());
}
