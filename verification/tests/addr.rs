use etherip::addr::{from_ipv6_addr, to_ipv6_addr, IpAddr, Ipv4Addr, Ipv6Addr, RawIpv6Addr};

const MAPPED: [u8; 16] = [0, 0, 0, 0, 0, 0, 0, 0, 0, 0, 0xff, 0xff, 10, 0, 0, 2];

const GLOBAL: [u8; 16] = [0x20, 0x01, 0x0d, 0xb8, 0, 0, 0, 0, 0, 0, 0, 0, 0, 0, 0, 1];

#[test]
fn ipv4_maps_into_ffff_prefix() {
    let v4 = Ipv4Addr::new(10, 0, 0, 2);
    assert_eq!(v4.octets(), [10, 0, 0, 2]);
    assert_eq!(v4.to_ipv6_mapped().octets(), MAPPED);
    assert_eq!(to_ipv6_addr(IpAddr::V4(v4)).octets(), MAPPED);
}

#[test]
fn ipv6_stays_as_it_is() {
    let v6 = Ipv6Addr::from_octets(GLOBAL);
    assert_eq!(to_ipv6_addr(IpAddr::V6(v6)).octets(), GLOBAL);
    assert_eq!(from_ipv6_addr(v6), IpAddr::V6(v6));
}

#[test]
fn mapped_octets_come_back_as_ipv4() {
    let v6 = Ipv6Addr::from_octets(MAPPED);
    assert_eq!(v6.to_ipv4_mapped(), Some(Ipv4Addr::new(10, 0, 0, 2)));
    assert_eq!(from_ipv6_addr(v6), IpAddr::V4(Ipv4Addr::new(10, 0, 0, 2)));
}

#[test]
fn only_the_ffff_prefix_is_mapped() {
    assert_eq!(Ipv6Addr::from_octets(GLOBAL).to_ipv4_mapped(), None);
    assert_eq!(Ipv6Addr::from_octets([0; 16]).to_ipv4_mapped(), None);
    let mut loopback = [0u8; 16];
    loopback[15] = 1;
    assert_eq!(Ipv6Addr::from_octets(loopback).to_ipv4_mapped(), None);
    // IPv4-compatible, the deprecated `::a.b.c.d`, is not IPv4-mapped.
    let mut compatible = MAPPED;
    compatible[10] = 0;
    compatible[11] = 0;
    assert_eq!(Ipv6Addr::from_octets(compatible).to_ipv4_mapped(), None);
    for i in 0..12 {
        let mut raw = MAPPED;
        raw[i] ^= 0x01;
        assert_eq!(Ipv6Addr::from_octets(raw).to_ipv4_mapped(), None, "octet {i}");
    }
}

#[test]
fn round_trip_keeps_every_ipv4_and_unmapped_ipv6() {
    let cases = [
        IpAddr::V4(Ipv4Addr::new(0, 0, 0, 0)),
        IpAddr::V4(Ipv4Addr::new(10, 0, 0, 2)),
        IpAddr::V4(Ipv4Addr::new(203, 0, 113, 7)),
        IpAddr::V4(Ipv4Addr::new(255, 255, 255, 255)),
        IpAddr::V6(Ipv6Addr::from_octets([0; 16])),
        IpAddr::V6(Ipv6Addr::from_octets(GLOBAL)),
        IpAddr::V6(Ipv6Addr::from_octets([0xff; 16])),
    ];
    for x in cases {
        assert_eq!(from_ipv6_addr(to_ipv6_addr(x)), x);
    }
}

#[test]
fn round_trip_turns_mapped_ipv6_into_ipv4() {
    let x = IpAddr::V6(Ipv6Addr::from_octets(MAPPED));
    assert_eq!(from_ipv6_addr(to_ipv6_addr(x)), IpAddr::V4(Ipv4Addr::new(10, 0, 0, 2)));
    assert_ne!(from_ipv6_addr(to_ipv6_addr(x)), x);
}

#[test]
fn octets_round_trip_through_an_address() {
    for raw in [MAPPED, GLOBAL, [0u8; 16], [0xffu8; 16]] {
        assert_eq!(to_ipv6_addr(from_ipv6_addr(Ipv6Addr::from_octets(raw))).octets(), raw);
    }
}

#[test]
fn addresses_compare_by_family_and_octets() {
    let a = IpAddr::V4(Ipv4Addr::new(10, 0, 0, 2));
    let b = IpAddr::V4(Ipv4Addr::new(10, 0, 0, 3));
    let mapped = IpAddr::V6(Ipv6Addr::from_octets(MAPPED));
    assert_eq!(a, IpAddr::V4(Ipv4Addr::new(10, 0, 0, 2)));
    assert_ne!(a, b);
    assert_ne!(a, mapped);
    assert_eq!(mapped, IpAddr::V6(Ipv6Addr::from_octets(MAPPED)));
    assert!(a.is_ipv4() && !a.is_ipv6());
    assert!(mapped.is_ipv6() && !mapped.is_ipv4());
    let mut last = MAPPED;
    last[15] = 3;
    assert_ne!(Ipv6Addr::from_octets(MAPPED), Ipv6Addr::from_octets(last));
}

#[test]
fn raw_address_converts_both_ways() {
    let raw = RawIpv6Addr::from(MAPPED);
    let octets: [u8; 16] = raw.into();
    assert_eq!(octets, MAPPED);
    assert_eq!(RawIpv6Addr::from(IpAddr::V4(Ipv4Addr::new(10, 0, 0, 2))), raw);
    assert_eq!(IpAddr::from(raw), IpAddr::V4(Ipv4Addr::new(10, 0, 0, 2)));
    let global = RawIpv6Addr::from(IpAddr::V6(Ipv6Addr::from_octets(GLOBAL)));
    assert_eq!(global.addr, GLOBAL);
    assert_ne!(global, raw);
    let back: IpAddr = global.into();
    assert_eq!(back, IpAddr::V6(Ipv6Addr::from_octets(GLOBAL)));
}
