//! The orchestrator: applies, reverts or queries the tap configuration of an
//! interface pair, one kernel request at a time.
//!
//! The engine decides; its driver performs. The driver asks [`Engine::next_action`]
//! for the request to make, makes it, and hands the answer back through
//! [`Engine::advance`], until the action is [`Action::Finish`]. Interface A is
//! processed completely before interface B, and within an interface the steps
//! run in a fixed order. Every step resolves the interface name afresh.

use vstd::prelude::*;
use crate::cli::NetworkArgs;
use crate::error::{is_already_exists, is_not_present, not_found, not_found_text, says_already_exists, says_not_present, NetworkError};
use crate::qdisc::{attached_to, describes, find_promiscuous, get_qdisc_status, promiscuous_in, LinkEntry, QdiscMessage};
use crate::types::InterfaceStatus;

verus! {

/// The three operations on a pair.
#[derive(Debug, Clone, Copy, PartialEq, Eq, Structural)]
pub enum Operation {
    /// Turn the pair into a tap.
    Apply,
    /// Undo the tap configuration, as far as it can be undone.
    Revert,
    /// Report the state of both interfaces.
    Status,
}

/// Where the engine stands within the current interface. Resolved indices are
/// carried only to the request that needs them.
#[derive(Debug, Clone, Copy, PartialEq, Eq, Structural)]
pub enum Phase {
    RemoveLookup,
    RemoveQdisc(u32),
    FlushLookup,
    Flush(u32),
    AddLookup,
    AddQdisc(u32),
    FilterLookup,
    FilterPeerLookup(u32),
    AddFilter(u32, u32),
    Ipv6,
    PromiscLookup,
    Promisc(u32),
    /// Status: resolve the interface.
    StatusLookup,
    /// Status: read the IPv6 key; the qdisc index is kept.
    StatusIpv6(u32),
    /// Status: resolve again for the link scan; qdisc index and IPv6 state kept.
    StatusPromiscLookup(u32, bool),
    /// Status: scan the links for the given link index.
    StatusLinks(u32, bool, u32),
    /// Status: scan the queueing disciplines.
    StatusQdiscs(u32, bool, bool),
    Done,
}

/// A request for the driver.
#[derive(Debug)]
pub enum Action {
    /// Find the index of the interface of this name; answer `Resolved`.
    Lookup(String),
    /// Delete the ingress qdisc of this link; answer `Kernel`.
    DeleteIngressQdisc(u32),
    /// Delete every address bound to this link; answer `Kernel`.
    FlushAddresses(u32),
    /// Add an ingress qdisc to this link; answer `Kernel`.
    AddIngressQdisc(u32),
    /// On the first link, add an ingress filter for all protocols that
    /// redirects to the second; answer `Kernel`.
    AddRedirectFilter(u32, u32),
    /// Bring the IPv6 key of this interface to the given enabled state
    /// (see `set_ipv6`); answer `Ipv6Written`.
    SetIpv6(String, bool),
    /// Set or clear the promiscuous flag of this link, changing no other
    /// flag; answer `Kernel`.
    SetPromiscuous(u32, bool),
    /// Read whether IPv6 is on (see `get_ipv6_status`); answer `Ipv6Read`.
    ReadIpv6(String),
    /// List all links; answer `Links`.
    ListLinks,
    /// List all queueing disciplines; answer `Qdiscs`.
    ListQdiscs,
    /// Nothing is left to do; the result is in `Engine::outcome`.
    Finish,
}

/// The answer to an action.
#[derive(Debug)]
pub enum Event {
    /// The index of the named interface, or `None` where no link has that name.
    Resolved(Option<u32>),
    /// The kernel accepted the request, or refused it with this description.
    Kernel(Result<(), String>),
    Ipv6Written(Result<(), NetworkError>),
    Ipv6Read(Result<bool, NetworkError>),
    Links(Vec<LinkEntry>),
    Qdiscs(Vec<QdiscMessage>),
}

/// What a step has to report besides the next action. None of these changes
/// whether the operation succeeds.
#[derive(Debug)]
pub enum Notice {
    Nothing,
    /// The event did not answer the pending action and was dropped.
    Ignored,
    /// Removal found no interface of that name and skipped it.
    InterfaceAbsent,
    QdiscRemoved,
    /// Removal found no ingress qdisc.
    QdiscAbsent,
    /// Removal failed otherwise; the operation goes on.
    QdiscRemoveFailed(String),
    QdiscAdded,
    /// The ingress qdisc was there already; the operation goes on.
    QdiscAlreadyPresent,
    FilterAdded,
    Ipv6Set,
    /// Setting IPv6 failed; the operation goes on.
    Ipv6Failed(NetworkError),
    PromiscuousSet,
    /// Clearing the promiscuous flag failed during revert; the operation goes on.
    PromiscuousFailed(NetworkError),
    /// The snapshot of the interface just queried.
    Status(InterfaceStatus),
}

/// Abstract state of an engine.
pub struct EngineView {
    pub op: Operation,
    pub a: Seq<char>,
    pub b: Seq<char>,
    /// Whether interface B is the current one.
    pub second: bool,
    pub phase: Phase,
    /// The fatal error that ended the operation, if any.
    pub failure: Option<NetworkError>,
}

pub struct Engine {
    op: Operation,
    interface_a: String,
    interface_b: String,
    second: bool,
    phase: Phase,
    failure: Option<NetworkError>,
}

impl View for Engine {
    type V = EngineView;

    closed spec fn view(&self) -> EngineView {
        EngineView {
            op: self.op,
            a: self.interface_a@,
            b: self.interface_b@,
            second: self.second,
            phase: self.phase,
            failure: self.failure,
        }
    }
}

/// The interface being worked on.
pub open spec fn current(v: EngineView) -> Seq<char> {
    if v.second {
        v.b
    } else {
        v.a
    }
}

/// The mirror peer of the current interface.
pub open spec fn peer(v: EngineView) -> Seq<char> {
    if v.second {
        v.a
    } else {
        v.b
    }
}

pub open spec fn first_phase(op: Operation) -> Phase {
    if op is Status {
        Phase::StatusLookup
    } else {
        Phase::RemoveLookup
    }
}

/// The step that follows qdisc removal: flushing during apply, IPv6 during revert.
pub open spec fn after_remove(op: Operation) -> Phase {
    if op is Apply {
        Phase::FlushLookup
    } else {
        Phase::Ipv6
    }
}

pub open spec fn with_phase(v: EngineView, p: Phase) -> EngineView {
    EngineView { phase: p, ..v }
}

/// The state once the current interface is done: interface B from its first
/// step, or the end.
pub open spec fn next_interface(v: EngineView) -> EngineView {
    if v.second {
        EngineView { phase: Phase::Done, ..v }
    } else {
        EngineView { second: true, phase: first_phase(v.op), ..v }
    }
}

/// `w` ends the operation with an error that `e` satisfies.
pub open spec fn failed_with(v: EngineView, w: EngineView, e: spec_fn(NetworkError) -> bool) -> bool {
    &&& w == EngineView { phase: Phase::Done, failure: w.failure, ..v }
    &&& w.failure is Some
    &&& e(w.failure->0)
}

pub open spec fn is_not_found(name: Seq<char>) -> spec_fn(NetworkError) -> bool {
    |e: NetworkError| e is NotFound && e->NotFound_0@ == not_found_text(name)
}

pub open spec fn is_transport(msg: Seq<char>) -> spec_fn(NetworkError) -> bool {
    |e: NetworkError| e is RtnetlinkError && e->RtnetlinkError_0@ == msg
}

/// `a` is the request that state `v` makes.
pub open spec fn requests(v: EngineView, a: Action) -> bool {
    match v.phase {
        Phase::RemoveLookup | Phase::FlushLookup | Phase::AddLookup | Phase::FilterLookup
        | Phase::PromiscLookup | Phase::StatusLookup | Phase::StatusPromiscLookup(_, _) => {
            a is Lookup && a->Lookup_0@ == current(v)
        },
        Phase::FilterPeerLookup(_) => a is Lookup && a->Lookup_0@ == peer(v),
        Phase::RemoveQdisc(i) => a == Action::DeleteIngressQdisc(i),
        Phase::Flush(i) => a == Action::FlushAddresses(i),
        Phase::AddQdisc(i) => a == Action::AddIngressQdisc(i),
        Phase::AddFilter(i, p) => a == Action::AddRedirectFilter(i, p),
        Phase::Ipv6 => a is SetIpv6 && a->SetIpv6_0@ == current(v) && a->SetIpv6_1 == (v.op is Revert),
        Phase::Promisc(i) => a == Action::SetPromiscuous(i, v.op is Apply),
        Phase::StatusIpv6(_) => a is ReadIpv6 && a->ReadIpv6_0@ == current(v),
        Phase::StatusLinks(_, _, _) => a is ListLinks,
        Phase::StatusQdiscs(_, _, _) => a is ListQdiscs,
        Phase::Done => a is Finish,
    }
}

/// `n` reports the snapshot of the current interface made of these parts.
pub open spec fn reports(v: EngineView, n: Notice, index: u32, ipv6: bool, promisc: bool, qdiscs: Seq<QdiscMessage>) -> bool {
    &&& n is Status
    &&& n->Status_0.name@ == current(v)
    &&& n->Status_0.ipv6_enabled == ipv6
    &&& n->Status_0.promiscuous_mode == promisc
    &&& n->Status_0.qdisc@.len() == attached_to(qdiscs, index).len()
    &&& forall|k: int| 0 <= k < n->Status_0.qdisc@.len()
        ==> describes(#[trigger] n->Status_0.qdisc@[k], attached_to(qdiscs, index)[k])
}

/// One step: from state `v`, the answer `ev` leads to state `w` with notice `n`.
/// An answer of the wrong sort, or any answer once done, changes nothing.
pub open spec fn steps_to(v: EngineView, ev: Event, w: EngineView, n: Notice) -> bool {
    let ignored = w == v && n is Ignored;
    match v.phase {
        Phase::RemoveLookup => match ev {
            Event::Resolved(None) => w == with_phase(v, after_remove(v.op)) && n is InterfaceAbsent,
            Event::Resolved(Some(i)) => w == with_phase(v, Phase::RemoveQdisc(i)) && n is Nothing,
            _ => ignored,
        },
        Phase::RemoveQdisc(_) => match ev {
            Event::Kernel(Ok(())) => w == with_phase(v, after_remove(v.op)) && n is QdiscRemoved,
            Event::Kernel(Err(m)) => w == with_phase(v, after_remove(v.op)) && if says_not_present(m@) {
                n is QdiscAbsent
            } else {
                n is QdiscRemoveFailed && n->QdiscRemoveFailed_0@ == m@
            },
            _ => ignored,
        },
        Phase::FlushLookup => match ev {
            Event::Resolved(None) => failed_with(v, w, is_not_found(current(v))) && n is Nothing,
            Event::Resolved(Some(i)) => w == with_phase(v, Phase::Flush(i)) && n is Nothing,
            _ => ignored,
        },
        Phase::Flush(_) => match ev {
            Event::Kernel(Ok(())) => w == with_phase(v, Phase::AddLookup) && n is Nothing,
            Event::Kernel(Err(m)) => failed_with(v, w, is_transport(m@)) && n is Nothing,
            _ => ignored,
        },
        Phase::AddLookup => match ev {
            Event::Resolved(None) => failed_with(v, w, is_not_found(current(v))) && n is Nothing,
            Event::Resolved(Some(i)) => w == with_phase(v, Phase::AddQdisc(i)) && n is Nothing,
            _ => ignored,
        },
        Phase::AddQdisc(_) => match ev {
            Event::Kernel(Ok(())) => w == with_phase(v, Phase::FilterLookup) && n is QdiscAdded,
            Event::Kernel(Err(m)) => if says_already_exists(m@) {
                w == with_phase(v, Phase::FilterLookup) && n is QdiscAlreadyPresent
            } else {
                failed_with(v, w, is_transport(m@)) && n is Nothing
            },
            _ => ignored,
        },
        Phase::FilterLookup => match ev {
            Event::Resolved(None) => failed_with(v, w, is_not_found(current(v))) && n is Nothing,
            Event::Resolved(Some(i)) => w == with_phase(v, Phase::FilterPeerLookup(i)) && n is Nothing,
            _ => ignored,
        },
        Phase::FilterPeerLookup(i) => match ev {
            Event::Resolved(None) => failed_with(v, w, is_not_found(peer(v))) && n is Nothing,
            Event::Resolved(Some(p)) => w == with_phase(v, Phase::AddFilter(i, p)) && n is Nothing,
            _ => ignored,
        },
        Phase::AddFilter(_, _) => match ev {
            Event::Kernel(Ok(())) => w == with_phase(v, Phase::Ipv6) && n is FilterAdded,
            Event::Kernel(Err(m)) => failed_with(v, w, is_transport(m@)) && n is Nothing,
            _ => ignored,
        },
        Phase::Ipv6 => match ev {
            Event::Ipv6Written(Ok(())) => w == with_phase(v, Phase::PromiscLookup) && n is Ipv6Set,
            Event::Ipv6Written(Err(e)) => w == with_phase(v, Phase::PromiscLookup) && n == Notice::Ipv6Failed(e),
            _ => ignored,
        },
        Phase::PromiscLookup => match ev {
            Event::Resolved(None) => if v.op is Apply {
                failed_with(v, w, is_not_found(current(v))) && n is Nothing
            } else {
                w == next_interface(v) && n is PromiscuousFailed && is_not_found(current(v))(n->PromiscuousFailed_0)
            },
            Event::Resolved(Some(i)) => w == with_phase(v, Phase::Promisc(i)) && n is Nothing,
            _ => ignored,
        },
        Phase::Promisc(_) => match ev {
            Event::Kernel(Ok(())) => w == next_interface(v) && n is PromiscuousSet,
            Event::Kernel(Err(m)) => if v.op is Apply {
                failed_with(v, w, is_transport(m@)) && n is Nothing
            } else {
                w == next_interface(v) && n is PromiscuousFailed && is_transport(m@)(n->PromiscuousFailed_0)
            },
            _ => ignored,
        },
        Phase::StatusLookup => match ev {
            Event::Resolved(None) => failed_with(v, w, is_not_found(current(v))) && n is Nothing,
            Event::Resolved(Some(i)) => w == with_phase(v, Phase::StatusIpv6(i)) && n is Nothing,
            _ => ignored,
        },
        Phase::StatusIpv6(i) => match ev {
            Event::Ipv6Read(Ok(b)) => w == with_phase(v, Phase::StatusPromiscLookup(i, b)) && n is Nothing,
            Event::Ipv6Read(Err(e)) => failed_with(v, w, |f: NetworkError| f == e) && n is Nothing,
            _ => ignored,
        },
        Phase::StatusPromiscLookup(i, b) => match ev {
            Event::Resolved(None) => failed_with(v, w, is_not_found(current(v))) && n is Nothing,
            Event::Resolved(Some(j)) => w == with_phase(v, Phase::StatusLinks(i, b, j)) && n is Nothing,
            _ => ignored,
        },
        Phase::StatusLinks(i, b, j) => match ev {
            Event::Links(ls) => match promiscuous_in(ls@, j) {
                None => failed_with(v, w, is_not_found(current(v))) && n is Nothing,
                Some(p) => w == with_phase(v, Phase::StatusQdiscs(i, b, p)) && n is Nothing,
            },
            _ => ignored,
        },
        Phase::StatusQdiscs(i, b, p) => match ev {
            Event::Qdiscs(ms) => w == next_interface(v) && reports(v, n, i, b, p, ms@),
            _ => ignored,
        },
        Phase::Done => ignored,
    }
}

impl Engine {
    fn begin(op: Operation, args: &NetworkArgs) -> (r: Engine)
        ensures
            r@ == (EngineView {
                op,
                a: args.first()@,
                b: args.second()@,
                second: false,
                phase: first_phase(op),
                failure: None,
            }),
    {
        let (a, b) = args.get_interfaces();
        let phase = if let Operation::Status = op {
            Phase::StatusLookup
        } else {
            Phase::RemoveLookup
        };
        Engine {
            op,
            interface_a: String::from_str(a),
            interface_b: String::from_str(b),
            second: false,
            phase,
            failure: None,
        }
    }

    /// An engine that applies the tap configuration to the pair.
    pub fn apply(args: &NetworkArgs) -> (r: Engine)
        ensures
            r@ == (EngineView {
                op: Operation::Apply,
                a: args.first()@,
                b: args.second()@,
                second: false,
                phase: Phase::RemoveLookup,
                failure: None,
            }),
    {
        Engine::begin(Operation::Apply, args)
    }

    /// An engine that reverts the tap configuration of the pair.
    pub fn revert(args: &NetworkArgs) -> (r: Engine)
        ensures
            r@ == (EngineView {
                op: Operation::Revert,
                a: args.first()@,
                b: args.second()@,
                second: false,
                phase: Phase::RemoveLookup,
                failure: None,
            }),
    {
        Engine::begin(Operation::Revert, args)
    }

    /// An engine that reports the state of both interfaces.
    pub fn status(args: &NetworkArgs) -> (r: Engine)
        ensures
            r@ == (EngineView {
                op: Operation::Status,
                a: args.first()@,
                b: args.second()@,
                second: false,
                phase: Phase::StatusLookup,
                failure: None,
            }),
    {
        Engine::begin(Operation::Status, args)
    }

    fn current_name(&self) -> (r: &String)
        ensures
            r@ == current(self@),
    {
        if self.second {
            &self.interface_b
        } else {
            &self.interface_a
        }
    }

    fn peer_name(&self) -> (r: &String)
        ensures
            r@ == peer(self@),
    {
        if self.second {
            &self.interface_a
        } else {
            &self.interface_b
        }
    }

    pub fn is_done(&self) -> (r: bool)
        ensures
            r == (self@.phase is Done),
    {
        matches!(self.phase, Phase::Done)
    }

    /// The request that the driver is to make now.
    pub fn next_action(&self) -> (a: Action)
        ensures
            requests(self@, a),
    {
        match self.phase {
            Phase::RemoveLookup | Phase::FlushLookup | Phase::AddLookup | Phase::FilterLookup
            | Phase::PromiscLookup | Phase::StatusLookup | Phase::StatusPromiscLookup(_, _) => {
                Action::Lookup(self.current_name().clone())
            },
            Phase::FilterPeerLookup(_) => Action::Lookup(self.peer_name().clone()),
            Phase::RemoveQdisc(i) => Action::DeleteIngressQdisc(i),
            Phase::Flush(i) => Action::FlushAddresses(i),
            Phase::AddQdisc(i) => Action::AddIngressQdisc(i),
            Phase::AddFilter(i, p) => Action::AddRedirectFilter(i, p),
            Phase::Ipv6 => {
                let enable = if let Operation::Revert = self.op {
                    true
                } else {
                    false
                };
                Action::SetIpv6(self.current_name().clone(), enable)
            },
            Phase::Promisc(i) => {
                let enable = if let Operation::Apply = self.op {
                    true
                } else {
                    false
                };
                Action::SetPromiscuous(i, enable)
            },
            Phase::StatusIpv6(_) => Action::ReadIpv6(self.current_name().clone()),
            Phase::StatusLinks(_, _, _) => Action::ListLinks,
            Phase::StatusQdiscs(_, _, _) => Action::ListQdiscs,
            Phase::Done => Action::Finish,
        }
    }

    fn fail(&mut self, e: NetworkError)
        ensures
            final(self)@ == (EngineView { phase: Phase::Done, failure: Some(e), ..old(self)@ }),
    {
        self.phase = Phase::Done;
        self.failure = Some(e);
    }

    fn fail_not_found(&mut self, name_of_peer: bool)
        ensures
            failed_with(old(self)@, final(self)@,
                is_not_found(if name_of_peer { peer(old(self)@) } else { current(old(self)@) })),
    {
        let e = if name_of_peer {
            not_found(self.peer_name().as_str())
        } else {
            not_found(self.current_name().as_str())
        };
        self.fail(e);
    }

    fn finish_interface(&mut self)
        ensures
            final(self)@ == next_interface(old(self)@),
    {
        if self.second {
            self.phase = Phase::Done;
        } else {
            self.second = true;
            self.phase = if let Operation::Status = self.op {
                Phase::StatusLookup
            } else {
                Phase::RemoveLookup
            };
        }
    }

    fn after_remove(&mut self)
        ensures
            final(self)@ == with_phase(old(self)@, after_remove(old(self)@.op)),
    {
        self.phase = if let Operation::Apply = self.op {
            Phase::FlushLookup
        } else {
            Phase::Ipv6
        };
    }

    /// Takes the answer to the pending action and moves to the next step.
    pub fn advance(&mut self, ev: Event) -> (n: Notice)
        ensures
            steps_to(old(self)@, ev, final(self)@, n),
    {
        match self.phase {
            Phase::RemoveLookup => match ev {
                Event::Resolved(None) => {
                    self.after_remove();
                    Notice::InterfaceAbsent
                },
                Event::Resolved(Some(i)) => {
                    self.phase = Phase::RemoveQdisc(i);
                    Notice::Nothing
                },
                _ => Notice::Ignored,
            },
            Phase::RemoveQdisc(_) => match ev {
                Event::Kernel(Ok(())) => {
                    self.after_remove();
                    Notice::QdiscRemoved
                },
                Event::Kernel(Err(m)) => {
                    self.after_remove();
                    if is_not_present(m.as_str()) {
                        Notice::QdiscAbsent
                    } else {
                        Notice::QdiscRemoveFailed(m)
                    }
                },
                _ => Notice::Ignored,
            },
            Phase::FlushLookup => match ev {
                Event::Resolved(None) => {
                    self.fail_not_found(false);
                    Notice::Nothing
                },
                Event::Resolved(Some(i)) => {
                    self.phase = Phase::Flush(i);
                    Notice::Nothing
                },
                _ => Notice::Ignored,
            },
            Phase::Flush(_) => match ev {
                Event::Kernel(Ok(())) => {
                    self.phase = Phase::AddLookup;
                    Notice::Nothing
                },
                Event::Kernel(Err(m)) => {
                    self.fail(NetworkError::RtnetlinkError(m));
                    Notice::Nothing
                },
                _ => Notice::Ignored,
            },
            Phase::AddLookup => match ev {
                Event::Resolved(None) => {
                    self.fail_not_found(false);
                    Notice::Nothing
                },
                Event::Resolved(Some(i)) => {
                    self.phase = Phase::AddQdisc(i);
                    Notice::Nothing
                },
                _ => Notice::Ignored,
            },
            Phase::AddQdisc(_) => match ev {
                Event::Kernel(Ok(())) => {
                    self.phase = Phase::FilterLookup;
                    Notice::QdiscAdded
                },
                Event::Kernel(Err(m)) => {
                    if is_already_exists(m.as_str()) {
                        self.phase = Phase::FilterLookup;
                        Notice::QdiscAlreadyPresent
                    } else {
                        self.fail(NetworkError::RtnetlinkError(m));
                        Notice::Nothing
                    }
                },
                _ => Notice::Ignored,
            },
            Phase::FilterLookup => match ev {
                Event::Resolved(None) => {
                    self.fail_not_found(false);
                    Notice::Nothing
                },
                Event::Resolved(Some(i)) => {
                    self.phase = Phase::FilterPeerLookup(i);
                    Notice::Nothing
                },
                _ => Notice::Ignored,
            },
            Phase::FilterPeerLookup(i) => match ev {
                Event::Resolved(None) => {
                    self.fail_not_found(true);
                    Notice::Nothing
                },
                Event::Resolved(Some(p)) => {
                    self.phase = Phase::AddFilter(i, p);
                    Notice::Nothing
                },
                _ => Notice::Ignored,
            },
            Phase::AddFilter(_, _) => match ev {
                Event::Kernel(Ok(())) => {
                    self.phase = Phase::Ipv6;
                    Notice::FilterAdded
                },
                Event::Kernel(Err(m)) => {
                    self.fail(NetworkError::RtnetlinkError(m));
                    Notice::Nothing
                },
                _ => Notice::Ignored,
            },
            Phase::Ipv6 => match ev {
                Event::Ipv6Written(Ok(())) => {
                    self.phase = Phase::PromiscLookup;
                    Notice::Ipv6Set
                },
                Event::Ipv6Written(Err(e)) => {
                    self.phase = Phase::PromiscLookup;
                    Notice::Ipv6Failed(e)
                },
                _ => Notice::Ignored,
            },
            Phase::PromiscLookup => match ev {
                Event::Resolved(None) => {
                    if let Operation::Apply = self.op {
                        self.fail_not_found(false);
                        Notice::Nothing
                    } else {
                        let e = not_found(self.current_name().as_str());
                        self.finish_interface();
                        Notice::PromiscuousFailed(e)
                    }
                },
                Event::Resolved(Some(i)) => {
                    self.phase = Phase::Promisc(i);
                    Notice::Nothing
                },
                _ => Notice::Ignored,
            },
            Phase::Promisc(_) => match ev {
                Event::Kernel(Ok(())) => {
                    self.finish_interface();
                    Notice::PromiscuousSet
                },
                Event::Kernel(Err(m)) => {
                    if let Operation::Apply = self.op {
                        self.fail(NetworkError::RtnetlinkError(m));
                        Notice::Nothing
                    } else {
                        self.finish_interface();
                        Notice::PromiscuousFailed(NetworkError::RtnetlinkError(m))
                    }
                },
                _ => Notice::Ignored,
            },
            Phase::StatusLookup => match ev {
                Event::Resolved(None) => {
                    self.fail_not_found(false);
                    Notice::Nothing
                },
                Event::Resolved(Some(i)) => {
                    self.phase = Phase::StatusIpv6(i);
                    Notice::Nothing
                },
                _ => Notice::Ignored,
            },
            Phase::StatusIpv6(i) => match ev {
                Event::Ipv6Read(Ok(b)) => {
                    self.phase = Phase::StatusPromiscLookup(i, b);
                    Notice::Nothing
                },
                Event::Ipv6Read(Err(e)) => {
                    self.fail(e);
                    Notice::Nothing
                },
                _ => Notice::Ignored,
            },
            Phase::StatusPromiscLookup(i, b) => match ev {
                Event::Resolved(None) => {
                    self.fail_not_found(false);
                    Notice::Nothing
                },
                Event::Resolved(Some(j)) => {
                    self.phase = Phase::StatusLinks(i, b, j);
                    Notice::Nothing
                },
                _ => Notice::Ignored,
            },
            Phase::StatusLinks(i, b, j) => match ev {
                Event::Links(ls) => match find_promiscuous(&ls, j) {
                    None => {
                        self.fail_not_found(false);
                        Notice::Nothing
                    },
                    Some(p) => {
                        self.phase = Phase::StatusQdiscs(i, b, p);
                        Notice::Nothing
                    },
                },
                _ => Notice::Ignored,
            },
            Phase::StatusQdiscs(i, b, p) => match ev {
                Event::Qdiscs(ms) => {
                    let status = InterfaceStatus {
                        name: self.current_name().clone(),
                        ipv6_enabled: b,
                        promiscuous_mode: p,
                        qdisc: get_qdisc_status(i, &ms),
                    };
                    self.finish_interface();
                    Notice::Status(status)
                },
                _ => Notice::Ignored,
            },
            Phase::Done => Notice::Ignored,
        }
    }

    /// The result of the operation: the fatal error that ended it, if any.
    pub fn outcome(self) -> (r: Result<(), NetworkError>)
        ensures
            self@.failure is None ==> r is Ok,
            self@.failure is Some ==> r == Err::<(), NetworkError>(self@.failure->0),
    {
        match self.failure {
            None => Ok(()),
            Some(e) => Err(e),
        }
    }
}

} // verus!
