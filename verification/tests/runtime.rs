use etherip::addr::{IpAddr, Ipv4Addr, Ipv6Addr};
use etherip::config::{IpVersion, LinkConfig, RemoteAddr};
use etherip::error::Error;
use etherip::etherip::{DefaultBuilder, DefaultParser};
use etherip::runtime::{Forwarder, Inbound, Outbound, ReconcileStep};
use etherip::vecmap::VecMap;

fn v4(a: u8, b: u8, c: u8, d: u8) -> IpAddr {
    IpAddr::V4(Ipv4Addr::new(a, b, c, d))
}

fn name(s: &str) -> String {
    String::from(s)
}

fn links(entries: &[(&str, &str, IpVersion)]) -> VecMap<String, LinkConfig> {
    let mut links = VecMap::new();
    for (tap, remote, ip_version) in entries {
        links.insert(name(tap), LinkConfig { remote: name(remote), ip_version: *ip_version });
    }
    links
}

/// Carries a reconciliation through and returns what had to be opened and
/// what had to be destroyed, in order.
fn reconcile(
    forwarder: &mut Forwarder,
    links: &VecMap<String, LinkConfig>,
) -> (Vec<String>, Vec<String>) {
    let mut opened = Vec::new();
    let mut destroyed = Vec::new();
    for _ in 0..1000 {
        match forwarder.reconcile_step(links) {
            ReconcileStep::Open(tap) => {
                forwarder.opened(tap.clone());
                opened.push(tap);
            }
            ReconcileStep::Destroy(tap) => destroyed.push(tap),
            ReconcileStep::Done => return (opened, destroyed),
        }
    }
    panic!("reconciliation does not end");
}

fn frame(len: usize) -> Vec<u8> {
    (0..len).map(|i| (i * 5 + 1) as u8).collect()
}

fn read_from_tap(builder: &mut DefaultBuilder, frame: &[u8]) {
    let (len, buf) = builder.ethernet_mut();
    buf[..frame.len()].copy_from_slice(frame);
    *len = frame.len();
}

fn receive(parser: &mut DefaultParser, datagram: &[u8]) {
    let (len, buf) = parser.etherip_mut();
    buf[..datagram.len()].copy_from_slice(datagram);
    *len = datagram.len();
}

fn datagram_of(frame: &[u8]) -> Vec<u8> {
    let mut datagram = vec![0x30, 0x00];
    datagram.extend_from_slice(frame);
    datagram
}

fn delivered(
    forwarder: &Forwarder,
    parser: &DefaultParser,
    src: IpAddr,
) -> Option<(String, Vec<u8>)> {
    match forwarder.route_inbound(parser, src) {
        Inbound::Deliver { tap, frame } => Some((tap.clone(), frame.to_vec())),
        _ => None,
    }
}

fn sent(forwarder: &Forwarder, tap: &str, builder: &DefaultBuilder) -> Option<(Vec<u8>, [u8; 16])> {
    match forwarder.route_outbound(&name(tap), builder) {
        Outbound::Send(request) => Some((request.data.to_vec(), request.dest.sin6_addr)),
        _ => None,
    }
}

#[test]
fn new_runtime_needs_nothing_for_no_links() {
    let mut forwarder = Forwarder::new();
    assert!(matches!(forwarder.reconcile_step(&VecMap::new()), ReconcileStep::Done));
    assert!(!forwarder.has_interface(&name("tap0")));
    assert_eq!(forwarder.remote_addr(&name("tap0")), None);
}

#[test]
fn reconcile_opens_what_is_missing_in_config_order() {
    let mut forwarder = Forwarder::new();
    let wanted = links(&[
        ("tap2", "10.0.0.2", IpVersion::V4),
        ("tap0", "10.0.0.3", IpVersion::V4),
        ("tap1", "peer.example", IpVersion::V6),
    ]);
    assert_eq!(
        reconcile(&mut forwarder, &wanted),
        (vec![name("tap2"), name("tap0"), name("tap1")], vec![])
    );
    assert_eq!(reconcile(&mut forwarder, &wanted), (vec![], vec![]));
}

#[test]
fn open_is_asked_again_until_it_is_reported() {
    let mut forwarder = Forwarder::new();
    let wanted = links(&[("tap0", "10.0.0.2", IpVersion::V4)]);
    for _ in 0..3 {
        match forwarder.reconcile_step(&wanted) {
            ReconcileStep::Open(tap) => assert_eq!(tap, "tap0"),
            _ => panic!("tap0 is not open yet"),
        }
    }
    forwarder.opened(name("tap0"));
    assert!(matches!(forwarder.reconcile_step(&wanted), ReconcileStep::Done));
}

#[test]
fn reconcile_destroys_what_is_stale_in_table_order() {
    let mut forwarder = Forwarder::new();
    let first = links(&[
        ("tap0", "10.0.0.2", IpVersion::V4),
        ("tap1", "10.0.0.3", IpVersion::V4),
        ("tap2", "10.0.0.4", IpVersion::V4),
    ]);
    reconcile(&mut forwarder, &first);
    let second = links(&[("tap1", "10.0.0.3", IpVersion::V4)]);
    assert_eq!(reconcile(&mut forwarder, &second), (vec![], vec![name("tap0"), name("tap2")]));
    assert_eq!(reconcile(&mut forwarder, &second), (vec![], vec![]));
}

#[test]
fn reconcile_opens_before_it_destroys() {
    let mut forwarder = Forwarder::new();
    reconcile(&mut forwarder, &links(&[("tap0", "10.0.0.2", IpVersion::V4)]));
    let wanted = links(&[("tap1", "10.0.0.3", IpVersion::V4)]);
    match forwarder.reconcile_step(&wanted) {
        ReconcileStep::Open(tap) => {
            assert_eq!(tap, "tap1");
            forwarder.opened(tap);
        }
        _ => panic!("tap1 is to be opened first"),
    }
    match forwarder.reconcile_step(&wanted) {
        ReconcileStep::Destroy(tap) => assert_eq!(tap, "tap0"),
        _ => panic!("tap0 is to be destroyed then"),
    }
    assert!(matches!(forwarder.reconcile_step(&wanted), ReconcileStep::Done));
}

#[test]
fn after_reconciliation_the_table_has_the_configured_names() {
    let mut forwarder = Forwarder::new();
    let configs = [
        links(&[("a", "10.0.0.1", IpVersion::V4), ("b", "10.0.0.2", IpVersion::V4)]),
        links(&[("b", "10.0.0.2", IpVersion::V4), ("c", "10.0.0.3", IpVersion::V4)]),
        links(&[]),
        links(&[("c", "10.0.0.3", IpVersion::V4), ("a", "10.0.0.1", IpVersion::V4)]),
    ];
    let all = ["a", "b", "c", "d"];
    for config in &configs {
        reconcile(&mut forwarder, config);
        for tap in all {
            let configured = config.contains_key(&name(tap));
            assert_eq!(forwarder.has_interface(&name(tap)), configured, "{tap}");
        }
    }
}

#[test]
fn interface_that_stays_keeps_its_remote_address() {
    let mut forwarder = Forwarder::new();
    reconcile(
        &mut forwarder,
        &links(&[("tap0", "peer.example", IpVersion::V4), ("tap1", "10.0.0.3", IpVersion::V4)]),
    );
    assert!(forwarder.resolved(&name("tap0"), Ok(v4(203, 0, 113, 7))));
    reconcile(
        &mut forwarder,
        &links(&[("tap2", "10.0.0.9", IpVersion::V4), ("tap0", "peer.example", IpVersion::V4)]),
    );
    assert_eq!(forwarder.remote_addr(&name("tap0")), Some(v4(203, 0, 113, 7)));
    assert_eq!(forwarder.remote_addr(&name("tap1")), None);
    assert_eq!(forwarder.remote_addr(&name("tap2")), None);
    let mut parser = DefaultParser::new_zeroed();
    receive(&mut parser, &datagram_of(&frame(100)));
    assert_eq!(
        delivered(&forwarder, &parser, v4(203, 0, 113, 7)),
        Some((name("tap0"), frame(100)))
    );
}

#[test]
fn opened_twice_changes_nothing() {
    let mut forwarder = Forwarder::new();
    forwarder.opened(name("tap0"));
    assert!(forwarder.resolved(&name("tap0"), Ok(v4(10, 0, 0, 2))));
    forwarder.opened(name("tap0"));
    assert_eq!(forwarder.remote_addr(&name("tap0")), Some(v4(10, 0, 0, 2)));
}

#[test]
fn commit_maps_the_new_address_and_unmaps_the_old() {
    let mut forwarder = Forwarder::new();
    forwarder.opened(name("tap0"));
    let mut parser = DefaultParser::new_zeroed();
    receive(&mut parser, &datagram_of(&frame(90)));
    let old = v4(203, 0, 113, 7);
    let new = v4(203, 0, 113, 8);
    assert!(forwarder.resolved(&name("tap0"), Ok(old)));
    assert_eq!(forwarder.remote_addr(&name("tap0")), Some(old));
    assert!(delivered(&forwarder, &parser, old).is_some());
    assert!(forwarder.resolved(&name("tap0"), Ok(new)));
    assert_eq!(forwarder.remote_addr(&name("tap0")), Some(new));
    assert_eq!(delivered(&forwarder, &parser, new), Some((name("tap0"), frame(90))));
    assert!(matches!(forwarder.route_inbound(&parser, old), Inbound::UnknownSource));
}

#[test]
fn same_address_again_is_no_change() {
    let mut forwarder = Forwarder::new();
    forwarder.opened(name("tap0"));
    assert!(forwarder.resolved(&name("tap0"), Ok(v4(10, 0, 0, 2))));
    assert!(!forwarder.resolved(&name("tap0"), Ok(v4(10, 0, 0, 2))));
    assert_eq!(forwarder.remote_addr(&name("tap0")), Some(v4(10, 0, 0, 2)));
}

#[test]
fn failed_resolution_keeps_the_address() {
    let mut forwarder = Forwarder::new();
    forwarder.opened(name("tap0"));
    assert!(!forwarder.resolved(&name("tap0"), Err(Error::NoAddress)));
    assert_eq!(forwarder.remote_addr(&name("tap0")), None);
    assert!(forwarder.resolved(&name("tap0"), Ok(v4(10, 0, 0, 2))));
    assert!(!forwarder.resolved(&name("tap0"), Err(Error::Os(110))));
    assert_eq!(forwarder.remote_addr(&name("tap0")), Some(v4(10, 0, 0, 2)));
    let mut parser = DefaultParser::new_zeroed();
    receive(&mut parser, &datagram_of(&frame(90)));
    assert!(delivered(&forwarder, &parser, v4(10, 0, 0, 2)).is_some());
}

#[test]
fn last_link_to_resolve_to_an_address_gets_its_frames() {
    let mut forwarder = Forwarder::new();
    forwarder.opened(name("tap0"));
    forwarder.opened(name("tap1"));
    let shared = v4(198, 51, 100, 1);
    let mut parser = DefaultParser::new_zeroed();
    receive(&mut parser, &datagram_of(&frame(90)));
    assert!(forwarder.resolved(&name("tap0"), Ok(shared)));
    assert_eq!(delivered(&forwarder, &parser, shared).map(|d| d.0), Some(name("tap0")));
    assert!(forwarder.resolved(&name("tap1"), Ok(shared)));
    assert_eq!(delivered(&forwarder, &parser, shared).map(|d| d.0), Some(name("tap1")));
    // When the first link moves on, the address it had leaves the map.
    assert!(forwarder.resolved(&name("tap0"), Ok(v4(198, 51, 100, 2))));
    assert!(matches!(forwarder.route_inbound(&parser, shared), Inbound::UnknownSource));
    assert_eq!(
        delivered(&forwarder, &parser, v4(198, 51, 100, 2)).map(|d| d.0),
        Some(name("tap0"))
    );
}

#[test]
fn destroyed_interface_leaves_the_remote_map() {
    let mut forwarder = Forwarder::new();
    reconcile(&mut forwarder, &links(&[("tap0", "10.0.0.2", IpVersion::V4)]));
    assert!(forwarder.resolved(&name("tap0"), Ok(v4(10, 0, 0, 2))));
    let mut parser = DefaultParser::new_zeroed();
    receive(&mut parser, &datagram_of(&frame(90)));
    assert!(delivered(&forwarder, &parser, v4(10, 0, 0, 2)).is_some());
    assert_eq!(reconcile(&mut forwarder, &links(&[])), (vec![], vec![name("tap0")]));
    assert!(matches!(forwarder.route_inbound(&parser, v4(10, 0, 0, 2)), Inbound::UnknownSource));
}

#[test]
fn frame_is_dropped_while_the_remote_is_unknown() {
    let mut forwarder = Forwarder::new();
    forwarder.opened(name("tap0"));
    let mut builder = DefaultBuilder::new_zeroed();
    read_from_tap(&mut builder, &frame(100));
    assert!(matches!(forwarder.route_outbound(&name("tap0"), &builder), Outbound::UnknownRemote));
    assert!(matches!(forwarder.route_outbound(&name("tap9"), &builder), Outbound::UnknownRemote));
}

#[test]
fn frame_of_a_wrong_size_is_dropped() {
    let mut forwarder = Forwarder::new();
    forwarder.opened(name("tap0"));
    forwarder.resolved(&name("tap0"), Ok(v4(10, 0, 0, 2)));
    let mut builder = DefaultBuilder::new_zeroed();
    read_from_tap(&mut builder, &frame(60));
    assert!(matches!(
        forwarder.route_outbound(&name("tap0"), &builder),
        Outbound::InvalidDatagram
    ));
    // An unknown remote is found before a wrong size.
    forwarder.opened(name("tap1"));
    assert!(matches!(forwarder.route_outbound(&name("tap1"), &builder), Outbound::UnknownRemote));
}

#[test]
fn static_single_link_v4() {
    let config = links(&[("tap0", "10.0.0.2", IpVersion::V4)]);
    let mut forwarder = Forwarder::new();
    assert_eq!(reconcile(&mut forwarder, &config), (vec![name("tap0")], vec![]));
    let link = config.get(&name("tap0")).expect("the configured link");
    let remote = link.remote_addr(Some(v4(10, 0, 0, 2)));
    assert!(matches!(remote, RemoteAddr::Static(_)));
    assert!(forwarder.resolved(&name("tap0"), remote.resolve(&[], link.ip_version)));

    let e = frame(1514);
    let mut builder = DefaultBuilder::new_zeroed();
    read_from_tap(&mut builder, &e);
    let (datagram, dest) = sent(&forwarder, "tap0", &builder).expect("a datagram to 10.0.0.2");
    assert_eq!(dest, [0, 0, 0, 0, 0, 0, 0, 0, 0, 0, 0xff, 0xff, 10, 0, 0, 2]);
    assert_eq!(datagram, datagram_of(&e));

    let mut parser = DefaultParser::new_zeroed();
    receive(&mut parser, &datagram);
    assert_eq!(delivered(&forwarder, &parser, v4(10, 0, 0, 2)), Some((name("tap0"), e)));
}

#[test]
fn dynamic_remote() {
    let config = links(&[("tap0", "peer.example", IpVersion::V4)]);
    let mut forwarder = Forwarder::new();
    reconcile(&mut forwarder, &config);
    let link = config.get(&name("tap0")).expect("the configured link");
    let remote = link.remote_addr(None);
    assert!(matches!(&remote, RemoteAddr::Dynamic(host) if host == "peer.example"));

    let mut builder = DefaultBuilder::new_zeroed();
    read_from_tap(&mut builder, &frame(200));
    assert!(sent(&forwarder, "tap0", &builder).is_none());

    // One refresher tick.
    let answers = [IpAddr::V6(Ipv6Addr::from_octets([0x20; 16])), v4(203, 0, 113, 7)];
    assert!(forwarder.resolved(&name("tap0"), remote.resolve(&answers, link.ip_version)));
    let (_, dest) = sent(&forwarder, "tap0", &builder).expect("a datagram to .7");
    assert_eq!(&dest[12..], &[203, 0, 113, 7]);

    // The name moves to another address.
    let answers = [v4(203, 0, 113, 8)];
    assert!(forwarder.resolved(&name("tap0"), remote.resolve(&answers, link.ip_version)));
    let (_, dest) = sent(&forwarder, "tap0", &builder).expect("a datagram to .8");
    assert_eq!(&dest[12..], &[203, 0, 113, 8]);
    let mut parser = DefaultParser::new_zeroed();
    receive(&mut parser, &datagram_of(&frame(200)));
    assert!(matches!(
        forwarder.route_inbound(&parser, v4(203, 0, 113, 7)),
        Inbound::UnknownSource
    ));
    assert!(delivered(&forwarder, &parser, v4(203, 0, 113, 8)).is_some());
}

#[test]
fn reload_add_remove() {
    let mut forwarder = Forwarder::new();
    assert_eq!(
        reconcile(&mut forwarder, &links(&[("tap0", "10.0.0.2", IpVersion::V4)])),
        (vec![name("tap0")], vec![])
    );
    forwarder.resolved(&name("tap0"), Ok(v4(10, 0, 0, 2)));
    assert_eq!(
        reconcile(&mut forwarder, &links(&[("tap1", "10.0.0.3", IpVersion::V4)])),
        (vec![name("tap1")], vec![name("tap0")])
    );
    forwarder.resolved(&name("tap1"), Ok(v4(10, 0, 0, 3)));

    let mut builder = DefaultBuilder::new_zeroed();
    read_from_tap(&mut builder, &frame(100));
    assert!(sent(&forwarder, "tap0", &builder).is_none());
    assert!(sent(&forwarder, "tap1", &builder).is_some());
    let mut parser = DefaultParser::new_zeroed();
    receive(&mut parser, &datagram_of(&frame(100)));
    assert!(delivered(&forwarder, &parser, v4(10, 0, 0, 2)).is_none());
    assert_eq!(delivered(&forwarder, &parser, v4(10, 0, 0, 3)).map(|d| d.0), Some(name("tap1")));
}

#[test]
fn invalid_header() {
    let mut forwarder = Forwarder::new();
    forwarder.opened(name("tap0"));
    forwarder.resolved(&name("tap0"), Ok(v4(10, 0, 0, 2)));
    let mut datagram = datagram_of(&frame(100));
    datagram[0] = 0x31;
    let mut parser = DefaultParser::new_zeroed();
    receive(&mut parser, &datagram);
    assert!(matches!(forwarder.route_inbound(&parser, v4(10, 0, 0, 2)), Inbound::InvalidHeader));
    // The header is judged before the sender.
    assert!(matches!(forwarder.route_inbound(&parser, v4(10, 0, 0, 9)), Inbound::InvalidHeader));
}

#[test]
fn unknown_peer() {
    let mut forwarder = Forwarder::new();
    forwarder.opened(name("tap0"));
    forwarder.resolved(&name("tap0"), Ok(v4(10, 0, 0, 2)));
    let mut parser = DefaultParser::new_zeroed();
    receive(&mut parser, &datagram_of(&frame(100)));
    assert!(matches!(forwarder.route_inbound(&parser, v4(10, 0, 0, 3)), Inbound::UnknownSource));
    // The mapped form of a known IPv4 peer is another address.
    let mapped = IpAddr::V6(Ipv4Addr::new(10, 0, 0, 2).to_ipv6_mapped());
    assert!(matches!(forwarder.route_inbound(&parser, mapped), Inbound::UnknownSource));
}

#[test]
fn datagrams_are_decided_one_by_one_in_arrival_order() {
    let mut forwarder = Forwarder::new();
    forwarder.opened(name("tap0"));
    forwarder.opened(name("tap1"));
    forwarder.resolved(&name("tap0"), Ok(v4(10, 0, 0, 2)));
    forwarder.resolved(&name("tap1"), Ok(v4(10, 0, 0, 3)));
    let arrivals = [
        (v4(10, 0, 0, 2), 0x30u8, 100usize),
        (v4(10, 0, 0, 3), 0x30, 101),
        (v4(10, 0, 0, 9), 0x30, 102),
        (v4(10, 0, 0, 2), 0x31, 103),
        (v4(10, 0, 0, 2), 0x30, 104),
    ];
    let mut parser = DefaultParser::new_zeroed();
    let mut written = Vec::new();
    for (src, header, len) in arrivals {
        let mut datagram = datagram_of(&frame(len));
        datagram[0] = header;
        receive(&mut parser, &datagram);
        if let Some((tap, frame)) = delivered(&forwarder, &parser, src) {
            written.push((tap, frame.len()));
        }
    }
    assert_eq!(written, vec![(name("tap0"), 100), (name("tap1"), 101), (name("tap0"), 104)]);
}
