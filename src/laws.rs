//! Properties of the orchestrator that hold for every pair and every answer.

use vstd::prelude::*;
use crate::engine::{after_remove, current, is_not_found, peer, requests, steps_to, Action, EngineView, Event, Notice, Operation, Phase};
use crate::error::{says_already_exists, says_not_present};

verus! {

/// During apply, an ingress qdisc that is already present is reported as such
/// and the operation goes on to the filter, so a second apply of the same pair
/// does not fail at this step.
pub proof fn lemma_existing_qdisc_is_accepted(v: EngineView, i: u32, m: String, w: EngineView, n: Notice)
    requires
        v.op is Apply,
        v.phase == Phase::AddQdisc(i),
        says_already_exists(m@),
        steps_to(v, Event::Kernel(Err(m)), w, n),
    ensures
        w == (EngineView { phase: Phase::FilterLookup, ..v }),
        n is QdiscAlreadyPresent,
{
}

/// The steps that revert goes through.
pub open spec fn revert_phase(p: Phase) -> bool {
    ||| p is RemoveLookup
    ||| p is RemoveQdisc
    ||| p is Ipv6
    ||| p is PromiscLookup
    ||| p is Promisc
    ||| p is Done
}

/// Revert stays within its own steps.
pub proof fn lemma_revert_keeps_to_its_steps(v: EngineView, ev: Event, w: EngineView, n: Notice)
    requires
        v.op is Revert,
        revert_phase(v.phase),
        steps_to(v, ev, w, n),
    ensures
        w.op is Revert,
        revert_phase(w.phase),
{
}

/// Revert turns IPv6 back on and promiscuous mode off, and never touches
/// addresses: those flushed by apply stay flushed. Apply does the opposite
/// with the two flags. So revert restores the flags exactly where IPv6 was on
/// and promiscuous mode off before apply.
pub proof fn lemma_flag_settings(v: EngineView, a: Action)
    requires
        requests(v, a),
        v.op is Revert ==> revert_phase(v.phase),
    ensures
        v.op is Revert ==> !(a is FlushAddresses),
        a is SetIpv6 ==> a->SetIpv6_1 == (v.op is Revert),
        a is SetPromiscuous ==> a->SetPromiscuous_1 == (v.op is Apply),
{
}

/// A status query on a name that resolves to nothing fails with not-found.
pub proof fn lemma_status_needs_interface(v: EngineView, w: EngineView, n: Notice)
    requires
        v.phase is StatusLookup,
        steps_to(v, Event::Resolved(None), w, n),
    ensures
        w.phase is Done,
        w.failure is Some,
        is_not_found(current(v))(w.failure->0),
{
}

/// Removal on a name that resolves to nothing is skipped without error.
pub proof fn lemma_removal_tolerates_absence(v: EngineView, w: EngineView, n: Notice)
    requires
        v.phase is RemoveLookup,
        steps_to(v, Event::Resolved(None), w, n),
    ensures
        w == (EngineView { phase: after_remove(v.op), ..v }),
        !(w.phase is Done),
        n is InterfaceAbsent,
{
}

/// The filter on each interface redirects to its peer: the peer of A is B and
/// the peer of B is A, the peer's name is what gets resolved, and the filter
/// is added with the interface's own index and the peer's resolved index.
pub proof fn lemma_filter_targets_peer(v: EngineView, i: u32, p: u32, a: Action, w: EngineView, n: Notice, b: Action)
    requires
        v.phase == Phase::FilterPeerLookup(i),
        requests(v, a),
        steps_to(v, Event::Resolved(Some(p)), w, n),
        requests(w, b),
    ensures
        peer(v) == (if v.second { v.a } else { v.b }),
        a is Lookup && a->Lookup_0@ == peer(v),
        b == Action::AddRedirectFilter(i, p),
{
}

/// Revert never ends in failure: every error on its way is a notice only.
pub proof fn lemma_revert_never_fails(v: EngineView, ev: Event, w: EngineView, n: Notice)
    requires
        v.op is Revert,
        revert_phase(v.phase),
        v.failure is None,
        steps_to(v, ev, w, n),
    ensures
        w.failure is None,
{
}

/// Revert on an interface whose ingress qdisc is already gone goes on without
/// error.
pub proof fn lemma_revert_after_revert(v: EngineView, i: u32, m: String, w: EngineView, n: Notice)
    requires
        v.op is Revert,
        v.phase == Phase::RemoveQdisc(i),
        says_not_present(m@),
        steps_to(v, Event::Kernel(Err(m)), w, n),
    ensures
        w == (EngineView { phase: Phase::Ipv6, ..v }),
        n is QdiscAbsent,
{
}

/// During apply, whatever the outcome of setting IPv6, the interface goes on
/// to promiscuous mode and the operation does not end.
pub proof fn lemma_ipv6_failure_does_not_abort(v: EngineView, r: Result<(), crate::error::NetworkError>, w: EngineView, n: Notice)
    requires
        v.op is Apply,
        v.phase is Ipv6,
        steps_to(v, Event::Ipv6Written(r), w, n),
    ensures
        w == (EngineView { phase: Phase::PromiscLookup, ..v }),
{
}

/// The steps that apply goes through.
pub open spec fn apply_phase(p: Phase) -> bool {
    !(p is StatusLookup || p is StatusIpv6 || p is StatusPromiscLookup || p is StatusLinks || p is StatusQdiscs)
}

/// Apply stays within its own steps.
pub proof fn lemma_apply_keeps_to_its_steps(v: EngineView, ev: Event, w: EngineView, n: Notice)
    requires
        v.op is Apply,
        apply_phase(v.phase),
        steps_to(v, ev, w, n),
    ensures
        w.op is Apply,
        apply_phase(w.phase),
{
}

/// Apply ends in failure only where a name resolves to nothing, or where the
/// kernel refuses a request other than removing the old qdisc, and other than
/// adding a qdisc that is already there. A failure to set IPv6 never ends it.
pub proof fn lemma_apply_fails_only_on_fatal_answers(v: EngineView, ev: Event, w: EngineView, n: Notice)
    requires
        v.op is Apply,
        apply_phase(v.phase),
        v.failure is None,
        steps_to(v, ev, w, n),
        w.failure is Some,
    ensures
        match ev {
            Event::Resolved(r) => r is None,
            Event::Kernel(Err(m)) => !(v.phase is RemoveQdisc) && !(v.phase is AddQdisc && says_already_exists(m@)),
            _ => false,
        },
{
}

/// The answers `evs`, taken in order, lead from state `v` to state `w`.
pub open spec fn runs_to(v: EngineView, evs: Seq<Event>, w: EngineView) -> bool
    decreases evs.len(),
{
    if evs.len() == 0 {
        w == v
    } else {
        exists|m: EngineView, n: Notice| #[trigger] steps_to(v, evs[0], m, n) && runs_to(m, evs.drop_first(), w)
    }
}

/// A revert, whatever the kernel answers along the way, ends without error;
/// in particular a revert of a pair that was reverted already succeeds.
pub proof fn lemma_revert_always_succeeds(v: EngineView, evs: Seq<Event>, w: EngineView)
    requires
        v.op is Revert,
        revert_phase(v.phase),
        v.failure is None,
        runs_to(v, evs, w),
    ensures
        w.failure is None,
        w.op is Revert,
        revert_phase(w.phase),
    decreases evs.len(),
{
    if evs.len() > 0 {
        let (m, n) = choose|m: EngineView, n: Notice| #[trigger] steps_to(v, evs[0], m, n) && runs_to(m, evs.drop_first(), w);
        lemma_revert_keeps_to_its_steps(v, evs[0], m, n);
        lemma_revert_never_fails(v, evs[0], m, n);
        lemma_revert_always_succeeds(m, evs.drop_first(), w);
    }
}

} // verus!
