use ferris_tapper::error::{is_already_exists, is_not_present};
use ferris_tapper::ipv6::{disable_value_for, ipv6_enabled_from, ipv6_key_name, ipv6_needs_write, set_ipv6, get_ipv6_status};
use ferris_tapper::error::NetworkError;
use ferris_tapper::qdisc::{find_promiscuous, get_qdisc_status, parse_qdisc_message, LinkEntry, QdiscAttribute, QdiscMessage, RawQdiscStats};
use ferris_tapper::text::{contains_text, push_decimal, push_hexadecimal, same_text};
use ferris_tapper::types::{InterfaceStatus, QdiscInfo, QdiscStats};

fn ingress(index: u32) -> QdiscMessage {
    QdiscMessage {
        index,
        handle_major: 0xffff,
        parent_major: 0x1a,
        attributes: vec![
            QdiscAttribute::Kind("ingress".to_string()),
            QdiscAttribute::Options(vec!["Opt(1)".to_string()]),
            QdiscAttribute::Other,
            QdiscAttribute::Stats(RawQdiscStats { bytes: 1500, packets: 12, drops: 1, overlimits: 2, qlen: 3, backlog: 4 }),
        ],
    }
}

#[test]
fn substring_search() {
    assert!(contains_text("RTNETLINK answers: File exists", "File exists"));
    assert!(!contains_text("File exist", "File exists"));
    assert!(contains_text("abc", ""));
    assert!(is_already_exists("File exists (os error 17)"));
    assert!(!is_already_exists("No such file or directory"));
    assert!(is_not_present("No such file or directory (os error 2)"));
    assert!(!is_not_present("Permission denied"));
    assert!(same_text("veth0", "veth0"));
    assert!(!same_text("veth0", "veth1"));
}

#[test]
fn number_rendering() {
    let mut s = String::new();
    push_decimal(&mut s, 0);
    s.push(' ');
    push_decimal(&mut s, 18446744073709551615);
    s.push(' ');
    push_hexadecimal(&mut s, 65535);
    s.push(' ');
    push_hexadecimal(&mut s, 0x1a);
    assert_eq!(s, "0 18446744073709551615 ffff 1a");
}

#[test]
fn parse_widens_and_formats() {
    let q = parse_qdisc_message(&ingress(7));
    assert_eq!(q.kind, "ingress");
    assert_eq!(q.handle, "ffff:");
    assert_eq!(q.parent, "1a:");
    assert_eq!(q.options, vec!["Opt(1)".to_string()]);
    assert_eq!(q.stats, QdiscStats { bytes: 1500, packets: 12, drops: 1, overlimits: 2, qlen: 3, backlog: 4 });
}

#[test]
fn parse_without_attributes() {
    let q = parse_qdisc_message(&QdiscMessage { index: 1, handle_major: 0, parent_major: 0, attributes: vec![] });
    assert_eq!(q.kind, "");
    assert_eq!(q.handle, "0:");
    assert!(q.options.is_empty());
    assert_eq!(q.stats, QdiscStats { bytes: 0, packets: 0, drops: 0, overlimits: 0, qlen: 0, backlog: 0 });
}

#[test]
fn qdiscs_filtered_by_index() {
    let all = vec![ingress(2), ingress(5), ingress(2)];
    assert_eq!(get_qdisc_status(2, &all).len(), 2);
    assert_eq!(get_qdisc_status(9, &all).len(), 0);
}

#[test]
fn promiscuous_lookup() {
    let links = vec![LinkEntry { index: 1, promiscuous: false }, LinkEntry { index: 4, promiscuous: true }];
    assert_eq!(find_promiscuous(&links, 4), Some(true));
    assert_eq!(find_promiscuous(&links, 1), Some(false));
    assert_eq!(find_promiscuous(&links, 2), None);
}

#[test]
fn status_text_without_qdisc() {
    let s = InterfaceStatus { name: "veth0".to_string(), ipv6_enabled: true, promiscuous_mode: false, qdisc: vec![] };
    assert_eq!(
        s.render(),
        "Status of interface: veth0\n  IPv6:              Enabled\n  Promiscuous mode:  Disabled\n  Qdisc:\n    None\n"
    );
}

#[test]
fn status_text_with_qdisc() {
    let q: QdiscInfo = parse_qdisc_message(&ingress(3));
    let s = InterfaceStatus { name: "veth1".to_string(), ipv6_enabled: false, promiscuous_mode: true, qdisc: vec![q] };
    assert_eq!(
        s.render(),
        "Status of interface: veth1\n  IPv6:              Disabled\n  Promiscuous mode:  Enabled\n  Qdisc:\n\
         Qdisc ingress, Handle ffff:, Parent 1a:\n  Options:\n    Opt(1)\n  Stats:\n\
         \x20   Bytes: 1500, Packets: 12\n    Drops: 1, Overlimits: 2\n    Queue length: 3, Backlog: 4\n"
    );
}

#[test]
fn ipv6_key_and_values() {
    assert_eq!(ipv6_key_name("veth0"), "net.ipv6.conf.veth0.disable_ipv6");
    assert_eq!(disable_value_for(true), "0");
    assert_eq!(disable_value_for(false), "1");
    assert!(ipv6_needs_write("1", true));
    assert!(!ipv6_needs_write("1", false));
    assert!(ipv6_enabled_from("0"));
    assert!(!ipv6_enabled_from("1"));
}

#[test]
fn ipv6_on_missing_interface_reports_the_key() {
    match set_ipv6("nosuchif0", false) {
        Err(NetworkError::SysctlError(m)) => {
            assert_eq!(m, "Could not get sysctl 'net.ipv6.conf.nosuchif0.disable_ipv6'")
        }
        _ => panic!("expected a sysctl error"),
    }
    assert!(matches!(get_ipv6_status("nosuchif0"), Err(NetworkError::SysctlError(_))));
}
