//! Category resolution: mapping the requested categories, against the
//! kernel's reported event availability, onto the concrete list of enable
//! files to flip.
//!
//! Availability is handed in as plain booleans, one per event of each
//! requested category, in catalog order: `avail[k][i]` reports whether the
//! accessor found the enable file of event `i` of requested category `k`.
//!
//! Two modes:
//! - *explicit* (the user named categories): a required event's path is
//!   included unconditionally — the user's intent is trusted and a missing
//!   file surfaces later, at enable time; an optional event's path is
//!   included only when reported available.
//! - *implicit* (trace everything available): a category with any required
//!   event unavailable contributes nothing at all, and an optional event is
//!   included only when available.

use vstd::prelude::*;
use crate::catalog::{Category, Event, event_path, spec_event_path};

verus! {

/// Whether one event's path is taken, given its availability and the mode.
pub open spec fn included(ev: Event, avail: bool, explicit: bool) -> bool {
    if explicit {
        ev.required || avail
    } else {
        avail
    }
}

/// The paths of the included events from position `i` on, in catalog order.
pub open spec fn resolve_from(
    events: Seq<Event>,
    avail: Seq<bool>,
    explicit: bool,
    i: int,
) -> Seq<Seq<char>>
    decreases events.len() - i,
{
    if i < 0 || i >= events.len() {
        Seq::empty()
    } else {
        let rest = resolve_from(events, avail, explicit, i + 1);
        if included(events[i], avail[i], explicit) {
            seq![spec_event_path(events[i])] + rest
        } else {
            rest
        }
    }
}

/// Every required event of the category is available.
pub open spec fn category_viable(events: Seq<Event>, avail: Seq<bool>) -> bool {
    forall|i: int| 0 <= i < events.len() ==> ((#[trigger] events[i]).required ==> avail[i])
}

/// What one category resolves to: in implicit mode, all-or-nothing.
pub open spec fn spec_resolve_category(
    events: Seq<Event>,
    avail: Seq<bool>,
    explicit: bool,
) -> Seq<Seq<char>> {
    if explicit || category_viable(events, avail) {
        resolve_from(events, avail, explicit, 0)
    } else {
        Seq::empty()
    }
}

/// The concatenation of the requested categories' resolutions, from request
/// position `k` on, in request order.
pub open spec fn collect_from(
    cats: Seq<Category>,
    enabled: Seq<usize>,
    explicit: bool,
    avail: Seq<Seq<bool>>,
    k: int,
) -> Seq<Seq<char>>
    decreases enabled.len() - k,
{
    if k < 0 || k >= enabled.len() {
        Seq::empty()
    } else {
        spec_resolve_category(cats[enabled[k] as int].events@, avail[k], explicit)
            + collect_from(cats, enabled, explicit, avail, k + 1)
    }
}

pub open spec fn spec_collect_events(
    cats: Seq<Category>,
    enabled: Seq<usize>,
    explicit: bool,
    avail: Seq<Seq<bool>>,
) -> Seq<Seq<char>> {
    collect_from(cats, enabled, explicit, avail, 0)
}

/// The enable paths of every event of one category, in catalog order — the
/// list an accessor probes to report availability.
pub fn category_event_paths(cat: &Category) -> (r: Vec<String>)
    ensures
        r.deep_view().len() == cat.events@.len(),
        forall|i: int|
            0 <= i < cat.events@.len() ==> r.deep_view()[i] == spec_event_path(cat.events@[i]),
{
    let mut r: Vec<String> = Vec::new();
    let n = cat.events.len();
    let mut i: usize = 0;
    while i < n
        invariant
            n == cat.events@.len(),
            i <= n,
            r.deep_view().len() == i,
            forall|j: int| 0 <= j < i ==> r.deep_view()[j] == spec_event_path(cat.events@[j]),
        decreases n - i,
    {
        let ghost dv0 = r.deep_view();
        r.push(event_path(&cat.events[i]));
        proof {
            assert(r.deep_view() =~= dv0.push(spec_event_path(cat.events@[i as int])));
        }
        i = i + 1;
    }
    r
}

/// One category's resolved paths.
pub fn resolve_category(cat: &Category, avail: &Vec<bool>, explicit: bool) -> (r: Vec<String>)
    requires
        avail@.len() == cat.events@.len(),
    ensures
        r.deep_view() == spec_resolve_category(cat.events@, avail@, explicit),
{
    let mut paths: Vec<String> = Vec::new();
    proof {
        assert(paths.deep_view() =~= Seq::<Seq<char>>::empty());
        assert(paths.deep_view() + resolve_from(cat.events@, avail@, explicit, 0) =~= resolve_from(
            cat.events@,
            avail@,
            explicit,
            0,
        ));
    }
    let n = cat.events.len();
    let mut i: usize = 0;
    while i < n
        invariant
            n == cat.events@.len(),
            avail@.len() == n,
            i <= n,
            paths.deep_view() + resolve_from(cat.events@, avail@, explicit, i as int)
                == resolve_from(cat.events@, avail@, explicit, 0),
            !explicit ==> forall|j: int|
                0 <= j < i ==> ((#[trigger] cat.events@[j]).required ==> avail@[j]),
        decreases n - i,
    {
        let available = avail[i];
        let required = cat.events[i].required;
        let ghost dv0 = paths.deep_view();
        let ghost rest = resolve_from(cat.events@, avail@, explicit, i + 1);
        if explicit {
            if required || available {
                let path = event_path(&cat.events[i]);
                paths.push(path);
            }
        } else {
            if available {
                let path = event_path(&cat.events[i]);
                paths.push(path);
            } else if required {
                // implicit mode is all-or-nothing: discard the category
                proof {
                    assert(!category_viable(cat.events@, avail@));
                }
                let empty: Vec<String> = Vec::new();
                proof {
                    assert(empty.deep_view() =~= Seq::<Seq<char>>::empty());
                }
                return empty;
            }
        }
        proof {
            if included(cat.events@[i as int], avail@[i as int], explicit) {
                let p = spec_event_path(cat.events@[i as int]);
                assert(paths.deep_view() =~= dv0.push(p));
                assert(dv0.push(p) =~= dv0 + seq![p]);
                assert((dv0 + seq![p]) + rest =~= dv0 + (seq![p] + rest));
            }
        }
        i = i + 1;
    }
    proof {
        assert(paths.deep_view() + resolve_from(cat.events@, avail@, explicit, n as int)
            =~= paths.deep_view());
    }
    paths
}

/// The category indices (into the catalog) of the requested categories that
/// resolve to nothing, in request order — the ones an implicit-mode session
/// reports as skipped.
pub open spec fn skipped_from(
    cats: Seq<Category>,
    enabled: Seq<usize>,
    explicit: bool,
    avail: Seq<Seq<bool>>,
    k: int,
) -> Seq<usize>
    decreases enabled.len() - k,
{
    if k < 0 || k >= enabled.len() {
        Seq::empty()
    } else {
        let rest = skipped_from(cats, enabled, explicit, avail, k + 1);
        if !explicit && spec_resolve_category(
            cats[enabled[k] as int].events@,
            avail[k],
            explicit,
        ).len() == 0 {
            seq![enabled[k]] + rest
        } else {
            rest
        }
    }
}

/// Which requested categories contribute no paths.  In implicit mode each of
/// these is reported with a diagnostic; a skipped category is not an error.
pub fn skipped_categories(
    cats: &Vec<Category>,
    enabled: &Vec<usize>,
    explicit: bool,
    avail: &Vec<Vec<bool>>,
) -> (r: Vec<usize>)
    requires
        forall|k: int| 0 <= k < enabled@.len() ==> (#[trigger] enabled@[k]) < cats@.len(),
        avail@.len() == enabled@.len(),
        forall|k: int|
            0 <= k < enabled@.len() ==> (#[trigger] avail@[k])@.len()
                == cats@[enabled@[k] as int].events@.len(),
    ensures
        r@ == skipped_from(cats@, enabled@, explicit, avail.deep_view(), 0),
{
    let mut r: Vec<usize> = Vec::new();
    proof {
        assert(r@ + skipped_from(cats@, enabled@, explicit, avail.deep_view(), 0) =~= skipped_from(
            cats@,
            enabled@,
            explicit,
            avail.deep_view(),
            0,
        ));
    }
    let n = enabled.len();
    let mut k: usize = 0;
    while k < n
        invariant
            n == enabled@.len(),
            avail@.len() == n,
            forall|j: int| 0 <= j < n ==> (#[trigger] enabled@[j]) < cats@.len(),
            forall|j: int|
                0 <= j < n ==> (#[trigger] avail@[j])@.len()
                    == cats@[enabled@[j] as int].events@.len(),
            k <= n,
            r@ + skipped_from(cats@, enabled@, explicit, avail.deep_view(), k as int)
                == skipped_from(cats@, enabled@, explicit, avail.deep_view(), 0),
        decreases n - k,
    {
        let index = enabled[k];
        let ghost v0 = r@;
        let ghost rest = skipped_from(cats@, enabled@, explicit, avail.deep_view(), k + 1);
        let cat_paths = resolve_category(&cats[index], &avail[k], explicit);
        proof {
            assert(avail.deep_view()[k as int] =~= avail@[k as int]@);
        }
        if cat_paths.is_empty() && !explicit {
            r.push(index);
            proof {
                assert(cat_paths.deep_view().len() == 0);
                assert(r@ =~= v0 + seq![enabled@[k as int]]);
                assert((v0 + seq![enabled@[k as int]]) + rest =~= v0 + (seq![enabled@[k as int]]
                    + rest));
            }
        } else {
            proof {
                if !explicit {
                    assert(cat_paths.deep_view().len() != 0);
                }
            }
        }
        k = k + 1;
    }
    proof {
        assert(r@ + skipped_from(cats@, enabled@, explicit, avail.deep_view(), n as int) =~= r@);
    }
    r
}

/// The full resolved path list: each requested category's surviving paths,
/// concatenated in request order, events in catalog order within each.
pub fn collect_events(
    cats: &Vec<Category>,
    enabled: &Vec<usize>,
    explicit: bool,
    avail: &Vec<Vec<bool>>,
) -> (r: Vec<String>)
    requires
        forall|k: int| 0 <= k < enabled@.len() ==> (#[trigger] enabled@[k]) < cats@.len(),
        avail@.len() == enabled@.len(),
        forall|k: int|
            0 <= k < enabled@.len() ==> (#[trigger] avail@[k])@.len()
                == cats@[enabled@[k] as int].events@.len(),
    ensures
        r.deep_view() == spec_collect_events(cats@, enabled@, explicit, avail.deep_view()),
{
    let mut r: Vec<String> = Vec::new();
    proof {
        assert(r.deep_view() =~= Seq::<Seq<char>>::empty());
        assert(r.deep_view() + collect_from(cats@, enabled@, explicit, avail.deep_view(), 0)
            =~= collect_from(cats@, enabled@, explicit, avail.deep_view(), 0));
    }
    let n = enabled.len();
    let mut k: usize = 0;
    while k < n
        invariant
            n == enabled@.len(),
            avail@.len() == n,
            forall|j: int| 0 <= j < n ==> (#[trigger] enabled@[j]) < cats@.len(),
            forall|j: int|
                0 <= j < n ==> (#[trigger] avail@[j])@.len()
                    == cats@[enabled@[j] as int].events@.len(),
            k <= n,
            r.deep_view() + collect_from(cats@, enabled@, explicit, avail.deep_view(), k as int)
                == collect_from(cats@, enabled@, explicit, avail.deep_view(), 0),
        decreases n - k,
    {
        let index = enabled[k];
        let ghost dv0 = r.deep_view();
        let ghost rest = collect_from(cats@, enabled@, explicit, avail.deep_view(), k + 1);
        let ghost here = spec_resolve_category(
            cats@[enabled@[k as int] as int].events@,
            avail.deep_view()[k as int],
            explicit,
        );
        let mut cat_paths = resolve_category(&cats[index], &avail[k], explicit);
        proof {
            assert(avail.deep_view()[k as int] =~= avail@[k as int]@);
        }
        r.append(&mut cat_paths);
        proof {
            assert(r.deep_view() =~= dv0 + here);
            assert((dv0 + here) + rest =~= dv0 + (here + rest));
        }
        k = k + 1;
    }
    proof {
        assert(r.deep_view() + collect_from(cats@, enabled@, explicit, avail.deep_view(), n as int)
            =~= r.deep_view());
    }
    r
}

/// Implicit-mode resolution is all-or-nothing: a category with any required
/// event unavailable contributes no paths at all, its available optional
/// events included.
pub proof fn lemma_implicit_all_or_nothing(events: Seq<Event>, avail: Seq<bool>, k: int)
    requires
        avail.len() == events.len(),
        0 <= k < events.len(),
        events[k].required,
        !avail[k],
    ensures
        spec_resolve_category(events, avail, false) == Seq::<Seq<char>>::empty(),
{
    assert(!category_viable(events, avail));
}

proof fn lemma_resolve_from_contains(
    events: Seq<Event>,
    avail: Seq<bool>,
    explicit: bool,
    i: int,
    k: int,
)
    requires
        avail.len() == events.len(),
        0 <= i <= k < events.len(),
        included(events[k], avail[k], explicit),
    ensures
        resolve_from(events, avail, explicit, i).contains(spec_event_path(events[k])),
    decreases k - i,
{
    let r = resolve_from(events, avail, explicit, i);
    let p = spec_event_path(events[k]);
    if i == k {
        assert(r[0] == p);
    } else {
        lemma_resolve_from_contains(events, avail, explicit, i + 1, k);
        let rest = resolve_from(events, avail, explicit, i + 1);
        let idx = choose|idx: int| 0 <= idx < rest.len() && rest[idx] == p;
        if included(events[i], avail[i], explicit) {
            assert(r[idx + 1] == p);
        } else {
            assert(r[idx] == p);
        }
    }
}

proof fn lemma_resolve_from_member(
    events: Seq<Event>,
    avail: Seq<bool>,
    explicit: bool,
    i: int,
    p: Seq<char>,
)
    requires
        avail.len() == events.len(),
        0 <= i,
        resolve_from(events, avail, explicit, i).contains(p),
    ensures
        exists|j: int|
            i <= j < events.len() && included(events[j], avail[j], explicit) && p
                == spec_event_path(#[trigger] events[j]),
    decreases events.len() - i,
{
    let r = resolve_from(events, avail, explicit, i);
    let idx = choose|idx: int| 0 <= idx < r.len() && r[idx] == p;
    if i >= events.len() {
        assert(false);
    } else {
        let rest = resolve_from(events, avail, explicit, i + 1);
        if included(events[i], avail[i], explicit) {
            if idx == 0 {
                assert(included(events[i], avail[i], explicit) && p == spec_event_path(events[i]));
            } else {
                assert(rest[idx - 1] == p);
                assert(rest.contains(p));
                lemma_resolve_from_member(events, avail, explicit, i + 1, p);
            }
        } else {
            lemma_resolve_from_member(events, avail, explicit, i + 1, p);
        }
    }
}

/// Explicit-mode resolution includes every required event's path, whatever
/// the kernel reported about it.
pub proof fn lemma_explicit_includes_required(events: Seq<Event>, avail: Seq<bool>, k: int)
    requires
        avail.len() == events.len(),
        0 <= k < events.len(),
        events[k].required,
    ensures
        spec_resolve_category(events, avail, true).contains(spec_event_path(events[k])),
{
    lemma_resolve_from_contains(events, avail, true, 0, k);
}

/// Explicit-mode resolution includes an optional event's path exactly when
/// the kernel reported it available.  The only-if direction asks that the
/// category's events have pairwise distinct paths (they do in the catalog):
/// with duplicates, another event could contribute the same path.
pub proof fn lemma_explicit_optional_iff_available(events: Seq<Event>, avail: Seq<bool>, k: int)
    requires
        avail.len() == events.len(),
        0 <= k < events.len(),
        !events[k].required,
        forall|a: int, b: int|
            0 <= a < b < events.len() ==> spec_event_path(#[trigger] events[a]) != spec_event_path(
                #[trigger] events[b],
            ),
    ensures
        spec_resolve_category(events, avail, true).contains(spec_event_path(events[k]))
            <==> avail[k],
{
    if avail[k] {
        lemma_resolve_from_contains(events, avail, true, 0, k);
    }
    if spec_resolve_category(events, avail, true).contains(spec_event_path(events[k])) {
        lemma_resolve_from_member(events, avail, true, 0, spec_event_path(events[k]));
        let j = choose|j: int|
            0 <= j < events.len() && included(events[j], avail[j], true) && spec_event_path(
                events[k],
            ) == spec_event_path(#[trigger] events[j]);
        assert(j == k);
    }
}

/// In implicit mode a resolved path always belongs to an event whose enable
/// file the kernel reported available: nothing unavailable is ever flipped
/// when categories are auto-selected.
pub proof fn lemma_implicit_includes_only_available(
    events: Seq<Event>,
    avail: Seq<bool>,
    p: Seq<char>,
)
    requires
        avail.len() == events.len(),
        spec_resolve_category(events, avail, false).contains(p),
    ensures
        exists|j: int|
            0 <= j < events.len() && avail[j] && p == spec_event_path(#[trigger] events[j]),
{
    if category_viable(events, avail) {
        lemma_resolve_from_member(events, avail, false, 0, p);
    } else {
        assert(false);
    }
}

/// Resolution is deterministic and keeps declaration order: the resolved
/// list is, by definition, the requested categories' resolutions concatenated
/// in request order — and within a category ([`resolve_from`]) the events'
/// paths in catalog order.  Identical inputs give identical output, since the
/// result is a function of catalog, request, mode and availability alone.
pub proof fn lemma_collect_in_request_order(
    cats: Seq<Category>,
    enabled: Seq<usize>,
    explicit: bool,
    avail: Seq<Seq<bool>>,
    k: int,
)
    requires
        0 <= k < enabled.len(),
    ensures
        collect_from(cats, enabled, explicit, avail, k) == spec_resolve_category(
            cats[enabled[k] as int].events@,
            avail[k],
            explicit,
        ) + collect_from(cats, enabled, explicit, avail, k + 1),
{
}

} // verus!
