//! IP addresses, and the sixteen-byte form in which a dual-stack socket
//! stores them: an IPv6 address as it is, an IPv4 address mapped into
//! `::ffff:0:0/96`.

use vstd::prelude::*;
use crate::vecmap::MapKey;

verus! {

/// Whether two byte strings hold the same bytes.
fn octets_eq(a: &[u8], b: &[u8]) -> (same: bool)
    ensures
        same == (a@ == b@),
{
    if a.len() != b.len() {
        return false;
    }
    let mut i: usize = 0;
    while i < a.len()
        invariant
            a@.len() == b@.len(),
            i <= a@.len(),
            a@.subrange(0, i as int) == b@.subrange(0, i as int),
        decreases a@.len() - i,
    {
        if a[i] != b[i] {
            return false;
        }
        proof {
            let j = i as int + 1;
            assert(a@.subrange(0, j) =~= a@.subrange(0, i as int).push(a@[i as int]));
            assert(b@.subrange(0, j) =~= b@.subrange(0, i as int).push(b@[i as int]));
        }
        i = i + 1;
    }
    proof {
        assert(a@ =~= a@.subrange(0, i as int));
        assert(b@ =~= b@.subrange(0, i as int));
    }
    true
}

/// An IPv4 address: four octets in network order.
#[derive(Debug, Clone, Copy, Hash)]
pub struct Ipv4Addr {
    pub octets: [u8; 4],
}

impl PartialEq for Ipv4Addr {
    fn eq(&self, other: &Self) -> (same: bool) {
        let same: bool = octets_eq(&self.octets, &other.octets);
        proof {
            if same {
                assert(self.octets =~= other.octets);
            }
        }
        same
    }
}

impl Eq for Ipv4Addr {

}

impl vstd::std_specs::cmp::PartialEqSpecImpl for Ipv4Addr {
    open spec fn obeys_eq_spec() -> bool {
        true
    }

    open spec fn eq_spec(&self, other: &Self) -> bool {
        *self == *other
    }
}

/// An IPv6 address: sixteen octets in network order.
#[derive(Debug, Clone, Copy, Hash)]
pub struct Ipv6Addr {
    pub octets: [u8; 16],
}

impl PartialEq for Ipv6Addr {
    fn eq(&self, other: &Self) -> (same: bool) {
        let same: bool = octets_eq(&self.octets, &other.octets);
        proof {
            if same {
                assert(self.octets =~= other.octets);
            }
        }
        same
    }
}

impl Eq for Ipv6Addr {

}

impl vstd::std_specs::cmp::PartialEqSpecImpl for Ipv6Addr {
    open spec fn obeys_eq_spec() -> bool {
        true
    }

    open spec fn eq_spec(&self, other: &Self) -> bool {
        *self == *other
    }
}

/// An IP address of either family.
#[derive(Debug, Clone, Copy, Hash)]
pub enum IpAddr {
    V4(Ipv4Addr),
    V6(Ipv6Addr),
}

impl PartialEq for IpAddr {
    fn eq(&self, other: &Self) -> (same: bool) {
        match (self, other) {
            (IpAddr::V4(a), IpAddr::V4(b)) => a == b,
            (IpAddr::V6(a), IpAddr::V6(b)) => a == b,
            _ => false,
        }
    }
}

impl Eq for IpAddr {

}

impl vstd::std_specs::cmp::PartialEqSpecImpl for IpAddr {
    open spec fn obeys_eq_spec() -> bool {
        true
    }

    open spec fn eq_spec(&self, other: &Self) -> bool {
        *self == *other
    }
}

/// Whether sixteen octets lie in `::ffff:0:0/96`, the IPv4-mapped IPv6
/// addresses: ten zero octets, then two octets `0xff`.
pub open spec fn is_v4_mapped(raw: [u8; 16]) -> bool {
    &&& raw[0] == 0
    &&& raw[1] == 0
    &&& raw[2] == 0
    &&& raw[3] == 0
    &&& raw[4] == 0
    &&& raw[5] == 0
    &&& raw[6] == 0
    &&& raw[7] == 0
    &&& raw[8] == 0
    &&& raw[9] == 0
    &&& raw[10] == 0xff
    &&& raw[11] == 0xff
}

/// The sixteen octets that stand for `ip` on a dual-stack socket: those of an
/// IPv6 address, or `::ffff:a.b.c.d` for the IPv4 address `a.b.c.d`.
pub open spec fn to_raw_v6(ip: IpAddr) -> [u8; 16] {
    match ip {
        IpAddr::V4(a) => [
            0u8,
            0u8,
            0u8,
            0u8,
            0u8,
            0u8,
            0u8,
            0u8,
            0u8,
            0u8,
            0xffu8,
            0xffu8,
            a.octets[0],
            a.octets[1],
            a.octets[2],
            a.octets[3],
        ],
        IpAddr::V6(a) => a.octets,
    }
}

/// The address that sixteen octets of a dual-stack socket stand for: the
/// IPv4 address in the last four octets if they are IPv4-mapped, the IPv6
/// address otherwise.
pub open spec fn from_raw_v6(raw: [u8; 16]) -> IpAddr {
    if is_v4_mapped(raw) {
        IpAddr::V4(Ipv4Addr { octets: [raw[12], raw[13], raw[14], raw[15]] })
    } else {
        IpAddr::V6(Ipv6Addr { octets: raw })
    }
}

impl Ipv4Addr {
    /// The address `a.b.c.d`.
    pub fn new(a: u8, b: u8, c: u8, d: u8) -> (addr: Self)
        ensures
            addr == (Ipv4Addr { octets: [a, b, c, d] }),
    {
        Ipv4Addr { octets: [a, b, c, d] }
    }

    /// The four octets.
    pub fn octets(&self) -> (o: [u8; 4])
        ensures
            o == self.octets,
    {
        self.octets
    }

    /// This address mapped into IPv6: `::ffff:a.b.c.d`.
    pub fn to_ipv6_mapped(&self) -> (mapped: Ipv6Addr)
        ensures
            mapped.octets == to_raw_v6(IpAddr::V4(*self)),
            is_v4_mapped(mapped.octets),
    {
        let o = &self.octets;
        Ipv6Addr { octets: [0, 0, 0, 0, 0, 0, 0, 0, 0, 0, 0xff, 0xff, o[0], o[1], o[2], o[3]] }
    }
}

impl Ipv6Addr {
    /// The address with the given sixteen octets.
    pub fn from_octets(octets: [u8; 16]) -> (addr: Self)
        ensures
            addr.octets == octets,
    {
        Ipv6Addr { octets }
    }

    /// The sixteen octets.
    pub fn octets(&self) -> (o: [u8; 16])
        ensures
            o == self.octets,
    {
        self.octets
    }

    /// The IPv4 address that this address is the mapped form of, if it lies
    /// in `::ffff:0:0/96`.
    pub fn to_ipv4_mapped(&self) -> (v4: Option<Ipv4Addr>)
        ensures
            v4 == (if is_v4_mapped(self.octets) {
                Some(
                    Ipv4Addr {
                        octets: [
                            self.octets[12],
                            self.octets[13],
                            self.octets[14],
                            self.octets[15],
                        ],
                    },
                )
            } else {
                None
            }),
    {
        let o = &self.octets;
        let mut i: usize = 0;
        while i < 10
            invariant
                i <= 10,
                *o == self.octets,
                forall|j: int| 0 <= j < i ==> o[j] == 0,
            decreases 10 - i,
        {
            if o[i] != 0 {
                return None;
            }
            i = i + 1;
        }
        if o[10] != 0xff || o[11] != 0xff {
            return None;
        }
        Some(Ipv4Addr { octets: [o[12], o[13], o[14], o[15]] })
    }
}

/// An address is its own model.
impl View for IpAddr {
    type V = IpAddr;

    open spec fn view(&self) -> IpAddr {
        *self
    }
}

impl MapKey for IpAddr {
    fn key_eq(&self, other: &Self) -> (same: bool) {
        *self == *other
    }
}

impl IpAddr {
    /// Whether this is an IPv4 address.
    pub fn is_ipv4(&self) -> (v4: bool)
        ensures
            v4 == (self is V4),
    {
        match self {
            IpAddr::V4(_) => true,
            IpAddr::V6(_) => false,
        }
    }

    /// Whether this is an IPv6 address.
    pub fn is_ipv6(&self) -> (v6: bool)
        ensures
            v6 == (self is V6),
    {
        match self {
            IpAddr::V4(_) => false,
            IpAddr::V6(_) => true,
        }
    }
}

/// `addr` as the IPv6 address a dual-stack socket uses for it.
pub fn to_ipv6_addr(addr: IpAddr) -> (v6: Ipv6Addr)
    ensures
        v6.octets == to_raw_v6(addr),
{
    match addr {
        IpAddr::V4(v4_addr) => v4_addr.to_ipv6_mapped(),
        IpAddr::V6(v6_addr) => v6_addr,
    }
}

/// The address a dual-stack socket means by `v6_addr`.
pub fn from_ipv6_addr(v6_addr: Ipv6Addr) -> (addr: IpAddr)
    ensures
        addr == from_raw_v6(v6_addr.octets),
{
    match v6_addr.to_ipv4_mapped() {
        Some(v4_addr) => IpAddr::V4(v4_addr),
        None => IpAddr::V6(v6_addr),
    }
}

/// The sixteen octets of an address as a dual-stack socket stores them.
#[derive(Debug, Clone, Copy, Hash)]
pub struct RawIpv6Addr {
    pub addr: [u8; 16],
}

impl PartialEq for RawIpv6Addr {
    fn eq(&self, other: &Self) -> (same: bool) {
        let same: bool = octets_eq(&self.addr, &other.addr);
        proof {
            if same {
                assert(self.addr =~= other.addr);
            }
        }
        same
    }
}

impl Eq for RawIpv6Addr {

}

impl vstd::std_specs::cmp::PartialEqSpecImpl for RawIpv6Addr {
    open spec fn obeys_eq_spec() -> bool {
        true
    }

    open spec fn eq_spec(&self, other: &Self) -> bool {
        *self == *other
    }
}

impl From<[u8; 16]> for RawIpv6Addr {
    fn from(addr: [u8; 16]) -> (raw: Self) {
        RawIpv6Addr { addr }
    }
}

impl vstd::std_specs::convert::FromSpecImpl<[u8; 16]> for RawIpv6Addr {
    open spec fn obeys_from_spec() -> bool {
        true
    }

    open spec fn from_spec(addr: [u8; 16]) -> Self {
        RawIpv6Addr { addr }
    }
}

impl From<RawIpv6Addr> for [u8; 16] {
    fn from(raw: RawIpv6Addr) -> (addr: Self) {
        raw.addr
    }
}

impl vstd::std_specs::convert::FromSpecImpl<RawIpv6Addr> for [u8; 16] {
    open spec fn obeys_from_spec() -> bool {
        true
    }

    open spec fn from_spec(raw: RawIpv6Addr) -> Self {
        raw.addr
    }
}

impl From<IpAddr> for RawIpv6Addr {
    fn from(addr: IpAddr) -> (raw: Self) {
        RawIpv6Addr { addr: to_ipv6_addr(addr).octets() }
    }
}

impl vstd::std_specs::convert::FromSpecImpl<IpAddr> for RawIpv6Addr {
    open spec fn obeys_from_spec() -> bool {
        true
    }

    open spec fn from_spec(addr: IpAddr) -> Self {
        RawIpv6Addr { addr: to_raw_v6(addr) }
    }
}

impl From<RawIpv6Addr> for IpAddr {
    fn from(raw: RawIpv6Addr) -> (addr: Self) {
        from_ipv6_addr(Ipv6Addr::from_octets(raw.addr))
    }
}

impl vstd::std_specs::convert::FromSpecImpl<RawIpv6Addr> for IpAddr {
    open spec fn obeys_from_spec() -> bool {
        true
    }

    open spec fn from_spec(raw: RawIpv6Addr) -> Self {
        from_raw_v6(raw.addr)
    }
}

/// Mapping an address to its sixteen octets and back gives the address
/// again, for every IPv4 address and for every IPv6 address outside
/// `::ffff:0:0/96`.
pub proof fn lemma_from_raw_to_raw(x: IpAddr)
    requires
        x matches IpAddr::V6(a) ==> !is_v4_mapped(a.octets),
    ensures
        from_raw_v6(to_raw_v6(x)) == x,
{
    match x {
        IpAddr::V4(a) => {
            let raw = to_raw_v6(x);
            let back: [u8; 4] = [raw[12], raw[13], raw[14], raw[15]];
            assert(back =~= a.octets);
        },
        IpAddr::V6(a) => {},
    }
}

/// An IPv6 address inside `::ffff:0:0/96` comes back as the IPv4 address in
/// its last four octets.
pub proof fn lemma_from_raw_to_raw_mapped(a: Ipv6Addr)
    requires
        is_v4_mapped(a.octets),
    ensures
        from_raw_v6(to_raw_v6(IpAddr::V6(a))) == IpAddr::V4(
            Ipv4Addr { octets: [a.octets[12], a.octets[13], a.octets[14], a.octets[15]] },
        ),
{
}

/// Reading sixteen octets as an address and mapping that address back gives
/// the same sixteen octets.
pub proof fn lemma_to_raw_from_raw(raw: [u8; 16])
    ensures
        to_raw_v6(from_raw_v6(raw)) == raw,
{
    assert(to_raw_v6(from_raw_v6(raw)) =~= raw);
}

} // verus!
