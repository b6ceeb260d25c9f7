use ferris_tapper::cli::NetworkArgs;
use ferris_tapper::engine::{Action, Engine, Event, Notice};
use ferris_tapper::error::NetworkError;
use ferris_tapper::qdisc::{LinkEntry, QdiscAttribute, QdiscMessage, RawQdiscStats};
use ferris_tapper::types::InterfaceStatus;

struct Link {
    name: String,
    index: u32,
    promiscuous: bool,
    ipv6: bool,
    ingress: bool,
    addresses: usize,
    redirect_to: Option<u32>,
}

struct FakeKernel {
    links: Vec<Link>,
    ipv6_broken: bool,
}

impl FakeKernel {
    fn new(names: &[(&str, u32)]) -> FakeKernel {
        FakeKernel {
            links: names
                .iter()
                .map(|(n, i)| Link {
                    name: n.to_string(),
                    index: *i,
                    promiscuous: false,
                    ipv6: true,
                    ingress: false,
                    addresses: 2,
                    redirect_to: None,
                })
                .collect(),
            ipv6_broken: false,
        }
    }

    fn by_index(&mut self, i: u32) -> &mut Link {
        self.links.iter_mut().find(|l| l.index == i).unwrap()
    }

    fn by_name(&mut self, n: &str) -> Option<&mut Link> {
        self.links.iter_mut().find(|l| l.name == n)
    }

    fn answer(&mut self, a: Action) -> Option<Event> {
        Some(match a {
            Action::Lookup(n) => Event::Resolved(self.by_name(&n).map(|l| l.index)),
            Action::DeleteIngressQdisc(i) => {
                let l = self.by_index(i);
                if l.ingress {
                    l.ingress = false;
                    l.redirect_to = None;
                    Event::Kernel(Ok(()))
                } else {
                    Event::Kernel(Err("No such file or directory (os error 2)".to_string()))
                }
            }
            Action::FlushAddresses(i) => {
                self.by_index(i).addresses = 0;
                Event::Kernel(Ok(()))
            }
            Action::AddIngressQdisc(i) => {
                let l = self.by_index(i);
                if l.ingress {
                    Event::Kernel(Err("File exists (os error 17)".to_string()))
                } else {
                    l.ingress = true;
                    Event::Kernel(Ok(()))
                }
            }
            Action::AddRedirectFilter(i, p) => {
                self.by_index(i).redirect_to = Some(p);
                Event::Kernel(Ok(()))
            }
            Action::SetIpv6(n, enable) => {
                if self.ipv6_broken {
                    Event::Ipv6Written(Err(NetworkError::SysctlError("unreadable".to_string())))
                } else {
                    match self.by_name(&n) {
                        Some(l) => {
                            l.ipv6 = enable;
                            Event::Ipv6Written(Ok(()))
                        }
                        None => Event::Ipv6Written(Err(NetworkError::SysctlError("missing".to_string()))),
                    }
                }
            }
            Action::SetPromiscuous(i, enable) => {
                self.by_index(i).promiscuous = enable;
                Event::Kernel(Ok(()))
            }
            Action::ReadIpv6(n) => match self.by_name(&n) {
                Some(l) => Event::Ipv6Read(Ok(l.ipv6)),
                None => Event::Ipv6Read(Err(NetworkError::SysctlError("missing".to_string()))),
            },
            Action::ListLinks => Event::Links(
                self.links.iter().map(|l| LinkEntry { index: l.index, promiscuous: l.promiscuous }).collect(),
            ),
            Action::ListQdiscs => Event::Qdiscs(
                self.links
                    .iter()
                    .filter(|l| l.ingress)
                    .map(|l| QdiscMessage {
                        index: l.index,
                        handle_major: 0xffff,
                        parent_major: 0xffff,
                        attributes: vec![
                            QdiscAttribute::Kind("ingress".to_string()),
                            QdiscAttribute::Stats(RawQdiscStats {
                                bytes: 0,
                                packets: 0,
                                drops: 0,
                                overlimits: 0,
                                qlen: 0,
                                backlog: 0,
                            }),
                        ],
                    })
                    .collect(),
            ),
            Action::Finish => return None,
        })
    }

    fn run(&mut self, mut engine: Engine) -> (Result<(), NetworkError>, Vec<Notice>) {
        let mut notices = Vec::new();
        while let Some(ev) = self.answer(engine.next_action()) {
            notices.push(engine.advance(ev));
        }
        (engine.outcome(), notices)
    }

    fn statuses(&mut self, args: &NetworkArgs) -> Result<Vec<InterfaceStatus>, NetworkError> {
        let (r, notices) = self.run(Engine::status(args));
        r.map(|_| {
            notices
                .into_iter()
                .filter_map(|n| match n {
                    Notice::Status(s) => Some(s),
                    _ => None,
                })
                .collect()
        })
    }
}

fn pair() -> NetworkArgs {
    NetworkArgs::new("veth0".to_string(), "veth1".to_string())
}

#[test]
fn apply_configures_both_interfaces() {
    let mut k = FakeKernel::new(&[("veth0", 3), ("veth1", 4)]);
    let args = pair();
    let (r, _) = k.run(Engine::apply(&args));
    assert!(r.is_ok());
    let st = k.statuses(&args).unwrap();
    assert_eq!(st.len(), 2);
    for (s, name) in st.iter().zip(["veth0", "veth1"]) {
        assert_eq!(s.name, name);
        assert!(!s.ipv6_enabled);
        assert!(s.promiscuous_mode);
        assert_eq!(s.qdisc.len(), 1);
        assert_eq!(s.qdisc[0].kind, "ingress");
        assert_eq!(s.qdisc[0].handle, "ffff:");
    }
}

#[test]
fn apply_redirects_each_to_its_peer() {
    let mut k = FakeKernel::new(&[("veth0", 3), ("veth1", 4)]);
    let (r, _) = k.run(Engine::apply(&pair()));
    assert!(r.is_ok());
    assert_eq!(k.links[0].redirect_to, Some(4));
    assert_eq!(k.links[1].redirect_to, Some(3));
}

#[test]
fn apply_twice_succeeds() {
    let mut k = FakeKernel::new(&[("veth0", 3), ("veth1", 4)]);
    let args = pair();
    assert!(k.run(Engine::apply(&args)).0.is_ok());
    assert!(k.run(Engine::apply(&args)).0.is_ok());
    assert_eq!(k.statuses(&args).unwrap()[1].qdisc.len(), 1);
}

#[test]
fn existing_qdisc_is_a_warning() {
    let mut e = Engine::apply(&pair());
    e.advance(Event::Resolved(None));
    e.advance(Event::Resolved(Some(3)));
    e.advance(Event::Kernel(Ok(())));
    e.advance(Event::Resolved(Some(3)));
    let n = e.advance(Event::Kernel(Err("File exists (os error 17)".to_string())));
    assert!(matches!(n, Notice::QdiscAlreadyPresent));
    assert!(!e.is_done());
    assert!(matches!(e.next_action(), Action::Lookup(ref s) if s == "veth0"));
}

#[test]
fn other_add_failure_is_fatal() {
    let mut e = Engine::apply(&pair());
    e.advance(Event::Resolved(None));
    e.advance(Event::Resolved(Some(3)));
    e.advance(Event::Kernel(Ok(())));
    e.advance(Event::Resolved(Some(3)));
    e.advance(Event::Kernel(Err("Operation not permitted (os error 1)".to_string())));
    assert!(e.is_done());
    match e.outcome() {
        Err(NetworkError::RtnetlinkError(m)) => assert_eq!(m, "Operation not permitted (os error 1)"),
        _ => panic!("expected a transport error"),
    }
}

#[test]
fn apply_then_revert_restores_flags_not_addresses() {
    let mut k = FakeKernel::new(&[("veth0", 3), ("veth1", 4)]);
    let args = pair();
    assert!(k.run(Engine::apply(&args)).0.is_ok());
    assert!(k.run(Engine::revert(&args)).0.is_ok());
    for l in &k.links {
        assert!(l.ipv6);
        assert!(!l.promiscuous);
        assert!(!l.ingress);
        assert_eq!(l.addresses, 0);
    }
}

#[test]
fn status_on_missing_interface_is_not_found() {
    let mut k = FakeKernel::new(&[("veth0", 3)]);
    let args = NetworkArgs::new("ghost0".to_string(), "veth0".to_string());
    match k.statuses(&args) {
        Err(NetworkError::NotFound(m)) => assert_eq!(m, "Could not find interface: ghost0"),
        _ => panic!("expected not found"),
    }
}

#[test]
fn removal_on_missing_interface_is_a_no_op() {
    let mut e = Engine::revert(&NetworkArgs::new("ghost0".to_string(), "ghost1".to_string()));
    let n = e.advance(Event::Resolved(None));
    assert!(matches!(n, Notice::InterfaceAbsent));
    assert!(!e.is_done());
    assert!(matches!(e.next_action(), Action::SetIpv6(ref s, true) if s == "ghost0"));
}

#[test]
fn revert_twice_succeeds() {
    let mut k = FakeKernel::new(&[("veth0", 3), ("veth1", 4)]);
    let args = pair();
    assert!(k.run(Engine::revert(&args)).0.is_ok());
    let (r, notices) = k.run(Engine::revert(&args));
    assert!(r.is_ok());
    assert_eq!(notices.iter().filter(|n| matches!(n, Notice::QdiscAbsent)).count(), 2);
}

#[test]
fn ipv6_failure_during_apply_continues() {
    let mut k = FakeKernel::new(&[("veth0", 3), ("veth1", 4)]);
    k.ipv6_broken = true;
    let (r, notices) = k.run(Engine::apply(&pair()));
    assert!(r.is_ok());
    assert_eq!(notices.iter().filter(|n| matches!(n, Notice::Ipv6Failed(_))).count(), 2);
    for l in &k.links {
        assert!(l.ingress);
        assert!(l.promiscuous);
        assert!(l.redirect_to.is_some());
    }
}

#[test]
fn missing_peer_fails_apply() {
    let mut k = FakeKernel::new(&[("veth0", 3)]);
    let args = pair();
    match k.run(Engine::apply(&args)).0 {
        Err(NetworkError::NotFound(m)) => assert_eq!(m, "Could not find interface: veth1"),
        _ => panic!("expected not found"),
    }
}

#[test]
fn unrelated_event_is_ignored() {
    let mut e = Engine::status(&pair());
    let n = e.advance(Event::Kernel(Ok(())));
    assert!(matches!(n, Notice::Ignored));
    assert!(matches!(e.next_action(), Action::Lookup(ref s) if s == "veth0"));
}

#[test]
fn revert_promiscuous_failure_is_a_warning() {
    let mut e = Engine::revert(&pair());
    e.advance(Event::Resolved(None));
    e.advance(Event::Ipv6Written(Ok(())));
    e.advance(Event::Resolved(Some(3)));
    assert!(matches!(e.next_action(), Action::SetPromiscuous(3, false)));
    let n = e.advance(Event::Kernel(Err("busy".to_string())));
    assert!(matches!(n, Notice::PromiscuousFailed(NetworkError::RtnetlinkError(_))));
    assert!(matches!(e.next_action(), Action::Lookup(ref s) if s == "veth1"));
}
