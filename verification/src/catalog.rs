//! The event catalog: the static table of user-facing categories, each an
//! ordered list of kernel trace events.  An event names a subsystem, an
//! optional event name (absent meaning the whole subsystem), and whether the
//! owning category is meaningless without it.
//!
//! Several events are flagged optional because they exist only on certain
//! vendor or mobile kernels; resolution degrades gracefully where the running
//! kernel lacks them.

use vstd::prelude::*;
use vstd::string::StringExecFns;

verus! {

/// One kernel trace event (or a whole subsystem, when `name` is absent).
#[derive(Debug)]
pub struct Event {
    pub subsystem: String,
    pub name: Option<String>,
    pub required: bool,
}

/// A named, user-facing grouping of related kernel trace events.
#[derive(Debug)]
pub struct Category {
    pub name: String,
    pub description: String,
    pub events: Vec<Event>,
}

/// The enable file controlling an event, relative to the tracing-filesystem
/// root: `events/<subsystem>[/<name>]/enable`.
pub open spec fn spec_event_path(ev: Event) -> Seq<char> {
    "events/"@ + ev.subsystem@ + (match ev.name {
        Some(n) => "/"@ + n@,
        None => Seq::<char>::empty(),
    }) + "/enable"@
}

pub fn event_path(ev: &Event) -> (r: String)
    ensures
        r@ == spec_event_path(*ev),
{
    let mut p = String::from_str("events/");
    p.append(ev.subsystem.as_str());
    match &ev.name {
        Some(n) => {
            p.append("/");
            p.append(n.as_str());
        },
        None => {},
    }
    p.append("/enable");
    proof {
        assert(p@ =~= spec_event_path(*ev));
    }
    p
}

fn ev(subsystem: &str, name: Option<&str>, required: bool) -> (r: Event)
    ensures
        r.subsystem@ == subsystem@,
        r.name.deep_view() == name.deep_view(),
        r.required == required,
{
    let owned_name = match name {
        Some(n) => Some(n.to_owned()),
        None => None,
    };
    Event { subsystem: subsystem.to_owned(), name: owned_name, required }
}

fn cat(name: &str, description: &str, events: Vec<Event>) -> (r: Category)
    ensures
        r.name@ == name@,
        r.description@ == description@,
        r.events == events,
{
    Category { name: name.to_owned(), description: description.to_owned(), events }
}

/// The catalog, in its fixed declaration order.
pub fn categories() -> (r: Vec<Category>)
    ensures
        r@.len() == 10,
        r@[0].name@ == "sched"@ && r@[0].events@.len() == 7,
        r@[1].name@ == "freq"@ && r@[1].events@.len() == 8,
        r@[2].name@ == "idle"@ && r@[2].events@.len() == 1,
        r@[3].name@ == "irq"@ && r@[3].events@.len() == 1,
        r@[4].name@ == "drm"@ && r@[4].events@.len() == 1,
        r@[5].name@ == "fence"@ && r@[5].events@.len() == 2,
        r@[6].name@ == "virtio-gpu"@ && r@[6].events@.len() == 1,
        r@[7].name@ == "i915"@ && r@[7].events@.len() == 12,
        r@[8].name@ == "kvm"@ && r@[8].events@.len() == 6,
        r@[9].name@ == "syscalls"@ && r@[9].events@.len() == 1,
        // which events anchor their category: the scheduler's context switch
        // and wakeup, the frequency category's cpu_frequency, and every event
        // of the single-event, fence, GPU and virtualization categories
        forall|i: int| 0 <= i < 7 ==> ((#[trigger] r@[0].events@[i]).required <==> i < 2),
        forall|i: int| 0 <= i < 8 ==> ((#[trigger] r@[1].events@[i]).required <==> i == 0),
        r@[2].events@[0].required && r@[3].events@[0].required && r@[4].events@[0].required,
        r@[5].events@[0].required && r@[5].events@[1].required,
        r@[6].events@[0].required && r@[9].events@[0].required,
        forall|i: int| 0 <= i < 12 ==> (#[trigger] r@[7].events@[i]).required,
        forall|i: int| 0 <= i < 6 ==> (#[trigger] r@[8].events@[i]).required,
{
    let mut cats: Vec<Category> = Vec::new();

    let mut sched: Vec<Event> = Vec::new();
    sched.push(ev("sched", Some("sched_switch"), true));
    sched.push(ev("sched", Some("sched_wakeup"), true));
    sched.push(ev("sched", Some("sched_waking"), false));
    // mobile / vendor kernels only
    sched.push(ev("sched", Some("sched_blocked_reason"), false));
    // mobile / vendor kernels only
    sched.push(ev("sched", Some("sched_cpu_hotplug"), false));
    sched.push(ev("sched", Some("sched_pi_setprio"), false));
    sched.push(ev("cgroup", None, false));
    cats.push(cat("sched", "scheduler-related events", sched));

    let mut freq: Vec<Event> = Vec::new();
    freq.push(ev("power", Some("cpu_frequency"), true));
    freq.push(ev("power", Some("clock_set_rate"), false));
    freq.push(ev("power", Some("clock_disable"), false));
    freq.push(ev("power", Some("clock_enable"), false));
    freq.push(ev("clk", Some("clk_set_rate"), false));
    freq.push(ev("clk", Some("clk_disable"), false));
    freq.push(ev("clk", Some("clk_enable"), false));
    freq.push(ev("power", Some("cpu_frequency_limits"), false));
    cats.push(cat("freq", "CPU frequency events", freq));

    let mut idle: Vec<Event> = Vec::new();
    idle.push(ev("power", Some("cpu_idle"), true));
    cats.push(cat("idle", "CPU idle state events", idle));

    let mut irq: Vec<Event> = Vec::new();
    irq.push(ev("irq", None, true));
    cats.push(cat("irq", "IRQ events", irq));

    let mut drm: Vec<Event> = Vec::new();
    drm.push(ev("drm", None, true));
    cats.push(cat("drm", "DRM vblank events", drm));

    let mut fence: Vec<Event> = Vec::new();
    fence.push(ev("dma_fence", None, true));
    fence.push(ev("sync_trace", Some("sync_timeline"), true));
    cats.push(cat("fence", "DMA-FENCE events", fence));

    let mut virtio_gpu: Vec<Event> = Vec::new();
    virtio_gpu.push(ev("virtio_gpu", None, true));
    cats.push(cat("virtio-gpu", "virtio-gpu GPU events", virtio_gpu));

    let mut i915: Vec<Event> = Vec::new();
    i915.push(ev("i915", Some("i915_request_queue"), true));
    i915.push(ev("i915", Some("i915_request_add"), true));
    i915.push(ev("i915", Some("i915_request_retire"), true));
    i915.push(ev("i915", Some("i915_request_wait_begin"), true));
    i915.push(ev("i915", Some("i915_request_wait_end"), true));
    i915.push(ev("i915", Some("intel_gpu_freq_change"), true));
    i915.push(ev("i915", Some("i915_gem_evict"), true));
    i915.push(ev("i915", Some("i915_gem_evict_node"), true));
    i915.push(ev("i915", Some("i915_gem_evict_vm"), true));
    i915.push(ev("i915", Some("i915_gem_shrink"), true));
    i915.push(ev("i915", Some("i915_pipe_update_start"), true));
    i915.push(ev("i915", Some("i915_pipe_update_end"), true));
    cats.push(cat("i915", "Intel GPU events", i915));

    let mut kvm: Vec<Event> = Vec::new();
    kvm.push(ev("kvm", Some("kvm_entry"), true));
    kvm.push(ev("kvm", Some("kvm_exit"), true));
    kvm.push(ev("kvm", Some("kvm_userspace_exit"), true));
    kvm.push(ev("kvm", Some("kvm_mmio"), true));
    kvm.push(ev("kvm", Some("kvm_set_irq"), true));
    kvm.push(ev("kvm", Some("kvm_msi_set_irq"), true));
    cats.push(cat("kvm", "KVM events", kvm));

    let mut syscalls: Vec<Event> = Vec::new();
    syscalls.push(ev("syscalls", None, true));
    cats.push(cat("syscalls", "subsystem call events", syscalls));

    cats
}

} // verus!
