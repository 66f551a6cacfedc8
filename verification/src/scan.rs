//! The decisions of a scan: which service types to browse, when to stop
//! polling a browser, and which stored services to report.
use vstd::prelude::*;

use crate::service::{Service, ServiceView};
use crate::service_detect::{all_services, lemma_every_service_listed_once, service_index, ServiceDetect};
use crate::text::{contains_seq, contains_str, lowercase, occurs_at, to_lowercase};

verus! {

/// Why a scan stops before its results are read.
#[derive(Debug, PartialEq, Eq, Structural, Clone, Copy)]
pub enum ScanError {
    /// The browser could not start its event loop.
    EventLoop,
    /// Polling the event loop failed.
    Poll,
}

impl ScanError {
    /// The message the scan fails with.
    pub fn message(&self) -> (s: &'static str)
        ensures
            s@ == match self {
                ScanError::EventLoop => "Unable to create event loop"@,
                ScanError::Poll => "Unable to poll"@,
            },
    {
        match self {
            ScanError::EventLoop => "Unable to create event loop",
            ScanError::Poll => "Unable to poll",
        }
    }
}

/// What to do after one poll of a browser's event loop.
#[derive(Debug, PartialEq, Eq, Structural, Clone, Copy)]
pub enum PollStep {
    /// Poll again.
    Continue,
    /// The scan time is over: go on to the next service type.
    Finished,
    /// Stop the scan with this error.
    Failed(ScanError),
}

/// The service types a scan browses, in order: all of them, or only the one asked for.
pub open spec fn scan_plan_spec(scan_items: Option<ServiceDetect>) -> Seq<ServiceDetect> {
    match scan_items {
        None => all_services(),
        Some(k) => seq![k],
    }
}

/// The decision after a poll.
pub open spec fn poll_step_spec(poll_ok: bool, elapsed_ms: u128, scan_time_ms: u8) -> PollStep {
    if !poll_ok {
        PollStep::Failed(ScanError::Poll)
    } else if elapsed_ms > scan_time_ms {
        PollStep::Finished
    } else {
        PollStep::Continue
    }
}

/// Whether a stored service is reported: its lower-cased name contains `poco`.
pub open spec fn is_reported(v: ServiceView) -> bool {
    contains_seq(lowercase(v.name), "poco"@)
}

/// The contents of a list of services.
pub open spec fn views(s: Seq<Service>) -> Seq<ServiceView> {
    s.map_values(|x: Service| x@)
}

/// The service types a scan keeps out of the full list.
pub open spec fn wanted(scan_items: Option<ServiceDetect>) -> spec_fn(ServiceDetect) -> bool {
    |s: ServiceDetect|
        match scan_items {
            None => true,
            Some(k) => s == k,
        }
}

/// The service types to browse, in order: every type when `scan_items` is
/// `None`, otherwise only the type asked for.
pub fn scan_plan(scan_items: Option<ServiceDetect>) -> (plan: Vec<ServiceDetect>)
    ensures
        plan@ == scan_plan_spec(scan_items),
{
    let all = ServiceDetect::to_iter();
    let mut plan: Vec<ServiceDetect> = Vec::new();
    let mut i: usize = 0;
    while i < all.len()
        invariant
            all@ == all_services(),
            i <= all@.len(),
            plan@ == all_services().take(i as int).filter(wanted(scan_items)),
        decreases all@.len() - i,
    {
        let kind = all[i];
        let keep = match scan_items {
            None => true,
            Some(k) => kind == k,
        };
        if keep {
            plan.push(kind);
        }
        proof {
            reveal_with_fuel(Seq::filter, 1);
            assert(all_services().take(i + 1).drop_last() =~= all_services().take(i as int));
        }
        i = i + 1;
    }
    proof {
        lemma_plan_filter(scan_items, all_services().len() as int);
        assert(all_services().take(i as int) =~= all_services());
    }
    plan
}

/// Filtering a prefix of the full list keeps all of it when no type is asked
/// for, and only the asked type once its one position has been passed.
proof fn lemma_plan_filter(scan_items: Option<ServiceDetect>, n: int)
    requires
        0 <= n <= all_services().len(),
    ensures
        all_services().take(n).filter(wanted(scan_items)) == match scan_items {
            None => all_services().take(n),
            Some(k) => if n > service_index(k) {
                seq![k]
            } else {
                Seq::<ServiceDetect>::empty()
            },
        },
    decreases n,
{
    reveal_with_fuel(Seq::filter, 1);
    let all = all_services();
    if n > 0 {
        lemma_plan_filter(scan_items, n - 1);
        assert(all.take(n).drop_last() =~= all.take(n - 1));
        assert(all.take(n).last() == all[n - 1]);
        if let Some(k) = scan_items {
            lemma_every_service_listed_once(k);
        }
        assert(all.take(n - 1).push(all[n - 1]) =~= all.take(n));
    } else {
        assert(all.take(n) =~= Seq::<ServiceDetect>::empty());
    }
}

/// The decision after one poll of the event loop: stop with an error when the
/// poll failed, finish once more than `scan_time_ms` milliseconds have passed,
/// and poll again otherwise.
pub fn poll_step(poll_ok: bool, elapsed_ms: u128, scan_time_ms: u8) -> (step: PollStep)
    ensures
        step == poll_step_spec(poll_ok, elapsed_ms, scan_time_ms),
{
    if !poll_ok {
        PollStep::Failed(ScanError::Poll)
    } else if elapsed_ms > scan_time_ms as u128 {
        PollStep::Finished
    } else {
        PollStep::Continue
    }
}

/// The services to report out of those stored: the ones whose name, lower-cased,
/// contains `poco`, in the order they were stored.
pub fn select_services(results: &Vec<Service>) -> (selected: Vec<Service>)
    ensures
        views(selected@) == views(results@).filter(|v: ServiceView| is_reported(v)),
{
    let mut selected: Vec<Service> = Vec::new();
    let mut i: usize = 0;
    while i < results.len()
        invariant
            i <= results@.len(),
            views(selected@) == views(results@.take(i as int)).filter(
                |v: ServiceView| is_reported(v),
            ),
        decreases results@.len() - i,
    {
        let result = &results[i];
        let lowered = to_lowercase(result.name().as_str());
        let keep = contains_str(lowered.as_str(), "poco");
        proof {
            reveal_with_fuel(Seq::filter, 1);
            assert(views(results@.take(i + 1)).drop_last() =~= views(results@.take(i as int)));
            assert(views(results@.take(i + 1)).last() == result@);
        }
        if keep {
            let copy = Service::new(
                result.time(),
                result.date(),
                result.name(),
                result.address(),
                result.port(),
                result.hostname(),
            );
            let ghost before = selected@;
            selected.push(copy);
            proof {
                assert(views(selected@) =~= views(before).push(result@));
            }
        }
        i = i + 1;
    }
    proof {
        assert(results@.take(i as int) =~= results@);
    }
    selected
}

/// A stored service is reported exactly when the four characters `poco`
/// stand somewhere in its lower-cased name, at any position, its end included.
pub proof fn law_reported_iff_poco_in_lowercased_name(v: ServiceView)
    ensures
        is_reported(v) <==> exists|i: int|
            0 <= i && i + 4 <= lowercase(v.name).len() && #[trigger] lowercase(v.name).subrange(
                i,
                i + 4,
            ) == "poco"@,
        lowercase(v.name).len() >= 4 && lowercase(v.name).subrange(
            lowercase(v.name).len() - 4,
            lowercase(v.name).len() as int,
        ) == "poco"@ ==> is_reported(v),
{
    reveal_strlit("poco");
    let l = lowercase(v.name);
    if is_reported(v) {
        let i = choose|i: int| occurs_at(l, "poco"@, i);
        assert(l.subrange(i, i + 4) == "poco"@);
    }
    if exists|i: int| 0 <= i && i + 4 <= l.len() && #[trigger] l.subrange(i, i + 4) == "poco"@ {
        let i = choose|i: int| 0 <= i && i + 4 <= l.len() && #[trigger] l.subrange(i, i + 4) == "poco"@;
        assert(occurs_at(l, "poco"@, i));
    }
    if l.len() >= 4 && l.subrange(l.len() - 4, l.len() as int) == "poco"@ {
        assert(occurs_at(l, "poco"@, l.len() - 4));
    }
}

/// The selection keeps, in order, exactly the stored services whose
/// lower-cased name holds `poco`: a service is selected at most once per
/// occurrence in the input and every selected service came from the input.
pub proof fn law_selection_members(results: Seq<ServiceView>, v: ServiceView)
    ensures
        results.filter(|w: ServiceView| is_reported(w)).contains(v) <==> (results.contains(v)
            && exists|i: int|
            0 <= i && i + 4 <= lowercase(v.name).len() && #[trigger] lowercase(v.name).subrange(
                i,
                i + 4,
            ) == "poco"@),
{
    law_reported_iff_poco_in_lowercased_name(v);
    let pred = |w: ServiceView| is_reported(w);
    if results.filter(pred).contains(v) {
        let j = choose|j: int| 0 <= j < results.filter(pred).len() && results.filter(pred)[j] == v;
        results.lemma_filter_pred(pred, j);
        results.lemma_filter_contains_rev(pred, v);
    }
    if results.contains(v) && is_reported(v) {
        let j = choose|j: int| 0 <= j < results.len() && results[j] == v;
        results.lemma_filter_contains(pred, j);
    }
}

/// After a successful poll the scan finishes exactly when more than the scan
/// time has passed, and polls again otherwise; a failed poll always fails
/// the scan. Finishing is monotone in the elapsed time.
pub proof fn law_poll_step(elapsed_ms: u128, later_ms: u128, scan_time_ms: u8)
    ensures
        poll_step_spec(true, elapsed_ms, scan_time_ms) == PollStep::Finished <==> elapsed_ms
            > scan_time_ms as u128,
        poll_step_spec(true, elapsed_ms, scan_time_ms) == PollStep::Continue <==> elapsed_ms
            <= scan_time_ms as u128,
        poll_step_spec(false, elapsed_ms, scan_time_ms) == PollStep::Failed(ScanError::Poll),
        poll_step_spec(true, elapsed_ms, scan_time_ms) == PollStep::Finished && elapsed_ms
            <= later_ms ==> poll_step_spec(true, later_ms, scan_time_ms) == PollStep::Finished,
{
}

/// Without a choice the plan browses every service type once, in declaration
/// order; with a choice it browses that type alone.
pub proof fn law_scan_plan(k: ServiceDetect, s: ServiceDetect)
    ensures
        scan_plan_spec(None).len() == all_services().len(),
        scan_plan_spec(None)[service_index(s)] == s,
        scan_plan_spec(Some(k)).len() == 1,
        scan_plan_spec(Some(k))[0] == k,
{
    lemma_every_service_listed_once(s);
}

} // verus!
