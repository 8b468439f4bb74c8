//! Raw IP sockets on a dual-stack `AF_INET6` descriptor: what is handed to
//! the system calls and how what they return is read.

use vstd::prelude::*;
use crate::addr::{from_ipv6_addr, from_raw_v6, to_ipv6_addr, to_raw_v6, IpAddr, Ipv6Addr};
use crate::error::Error;
use crate::etherip::{build_spec, EtherIpBuilder, EtherIpParser, IPPROTO_ETHERIP};

verus! {

/// IP protocol number of EtherIP.
pub const PROTO_ETHERIP: i32 = IPPROTO_ETHERIP;

/// Address family of IPv6 sockets.
pub const AF_INET6: i32 = 10;

/// `IPV6_MTU_DISCOVER` value that takes the path MTU for sending and
/// refuses a larger packet with `EMSGSIZE`.
pub const IPV6_PMTUDISC_DO: i32 = 2;

/// `IPV6_MTU_DISCOVER` value that lets the kernel fragment a packet larger
/// than the interface MTU and ignores the path MTU.
pub const IPV6_PMTUDISC_OMIT: i32 = 5;

/// `errno` of a call that would have had to wait.
pub const EAGAIN: i32 = 11;

/// `libc::AF_INET6`, which is 10 on Linux.
#[verifier::external_body]
fn libc_af_inet6() -> (family: i32)
    ensures
        family == AF_INET6,
{
    libc::AF_INET6
}

/// `libc::IPV6_PMTUDISC_DO`, which is 2 on Linux.
#[verifier::external_body]
fn libc_ipv6_pmtudisc_do() -> (option: i32)
    ensures
        option == IPV6_PMTUDISC_DO,
{
    libc::IPV6_PMTUDISC_DO
}

/// `libc::IPV6_PMTUDISC_OMIT`, which is 5 on Linux.
#[verifier::external_body]
fn libc_ipv6_pmtudisc_omit() -> (option: i32)
    ensures
        option == IPV6_PMTUDISC_OMIT,
{
    libc::IPV6_PMTUDISC_OMIT
}

/// `libc::EAGAIN`, which is 11 on Linux.
#[verifier::external_body]
fn libc_eagain() -> (errno: i32)
    ensures
        errno == EAGAIN,
{
    libc::EAGAIN
}

/// `libc::EWOULDBLOCK`, which on Linux is `EAGAIN`.
#[verifier::external_body]
fn libc_ewouldblock() -> (errno: i32)
    ensures
        errno == EAGAIN,
{
    libc::EWOULDBLOCK
}

/// Whether the kernel may fragment packets that are too large for the path.
#[derive(Debug, Clone, Copy, Hash, PartialEq, Eq, Structural)]
pub enum FragmentConfig {
    /// Fragment large packets.
    Fragment,
    /// Reject large packets with `EMSGSIZE`.
    NoFragment,
}

impl Default for FragmentConfig {
    fn default() -> (config: Self)
        ensures
            config == FragmentConfig::Fragment,
    {
        FragmentConfig::Fragment
    }
}

impl FragmentConfig {
    /// The value of the socket option `IPV6_MTU_DISCOVER` for this setting.
    pub open spec fn spec_mtu_discover(&self) -> i32 {
        match self {
            FragmentConfig::Fragment => IPV6_PMTUDISC_OMIT,
            FragmentConfig::NoFragment => IPV6_PMTUDISC_DO,
        }
    }

    /// The value of the socket option `IPV6_MTU_DISCOVER` for this setting.
    #[verifier::when_used_as_spec(spec_mtu_discover)]
    pub fn mtu_discover(&self) -> (option: i32)
        ensures
            option == self.spec_mtu_discover(),
    {
        match self {
            FragmentConfig::Fragment => libc_ipv6_pmtudisc_omit(),
            FragmentConfig::NoFragment => libc_ipv6_pmtudisc_do(),
        }
    }
}

/// Something that names an IP protocol.
pub trait IpProtocol {
    /// The protocol number.
    spec fn spec_protocol_number(&self) -> i32;

    /// The protocol number.
    fn protocol_number(&self) -> (number: i32)
        ensures
            number == self.spec_protocol_number(),
    ;
}

impl IpProtocol for i32 {
    open spec fn spec_protocol_number(&self) -> i32 {
        *self
    }

    fn protocol_number(&self) -> (number: i32) {
        *self
    }
}

impl IpProtocol for u32 {
    open spec fn spec_protocol_number(&self) -> i32 {
        *self as i32
    }

    fn protocol_number(&self) -> (number: i32) {
        #[verifier::truncate]
        (*self as i32)
    }
}

/// The EtherIP protocol.
#[derive(Debug)]
pub struct EtherIp();

impl IpProtocol for EtherIp {
    open spec fn spec_protocol_number(&self) -> i32 {
        PROTO_ETHERIP
    }

    fn protocol_number(&self) -> (number: i32) {
        PROTO_ETHERIP
    }
}

/// An IPv6 socket address as the system calls take and give it.
#[derive(Debug, Clone, Copy)]
pub struct SockAddrIn6 {
    pub sin6_family: u16,
    pub sin6_port: u16,
    pub sin6_flowinfo: u32,
    pub sin6_addr: [u8; 16],
    pub sin6_scope_id: u32,
}

impl SockAddrIn6 {
    /// The socket address of the sixteen octets `raw`: family `AF_INET6`,
    /// and port, flow information and scope all zero.
    pub open spec fn of_raw(raw: [u8; 16]) -> SockAddrIn6 {
        SockAddrIn6 {
            sin6_family: AF_INET6 as u16,
            sin6_port: 0,
            sin6_flowinfo: 0,
            sin6_addr: raw,
            sin6_scope_id: 0,
        }
    }

    /// The socket address of the IPv6 address `addr`.
    pub fn from_ipv6(addr: &Ipv6Addr) -> (sockaddr: Self)
        ensures
            sockaddr == Self::of_raw(addr.octets),
    {
        SockAddrIn6 {
            sin6_family: libc_af_inet6() as u16,
            sin6_port: 0,
            sin6_flowinfo: 0,
            sin6_addr: addr.octets(),
            sin6_scope_id: 0,
        }
    }

    /// The socket address that reaches `addr` through a dual-stack socket:
    /// an IPv4 address is given in its IPv4-mapped form.
    pub fn new(addr: IpAddr) -> (sockaddr: Self)
        ensures
            sockaddr == Self::of_raw(to_raw_v6(addr)),
    {
        Self::from_ipv6(&to_ipv6_addr(addr))
    }

    /// The unspecified address `::`, which a dual-stack socket binds to in
    /// order to receive from both families.
    pub fn unspecified() -> (sockaddr: Self)
        ensures
            sockaddr == Self::of_raw(
                [0u8, 0u8, 0u8, 0u8, 0u8, 0u8, 0u8, 0u8, 0u8, 0u8, 0u8, 0u8, 0u8, 0u8, 0u8, 0u8],
            ),
    {
        let sockaddr = Self::from_ipv6(&Ipv6Addr::from_octets([0u8;16]));
        assert(sockaddr.sin6_addr =~= [
            0u8,
            0u8,
            0u8,
            0u8,
            0u8,
            0u8,
            0u8,
            0u8,
            0u8,
            0u8,
            0u8,
            0u8,
            0u8,
            0u8,
            0u8,
            0u8,
        ]);
        sockaddr
    }

    /// The address that this socket address names: an IPv4 address where it
    /// is IPv4-mapped, an IPv6 address otherwise.
    pub fn ip(&self) -> (addr: IpAddr)
        ensures
            addr == from_raw_v6(self.sin6_addr),
    {
        from_ipv6_addr(Ipv6Addr::from_octets(self.sin6_addr))
    }
}

/// What the return value `ret` of a system call that counts bytes means:
/// the count, or the error that `errno` names where `ret` is negative.
pub open spec fn syscall_result_spec(ret: isize, errno: i32) -> Result<usize, Error> {
    if ret < 0 {
        Err(Error::Os(errno))
    } else {
        Ok(ret as usize)
    }
}

/// Reads the return value of `read`, `write`, `sendto` or `recvfrom`.
pub fn syscall_result(ret: isize, errno: i32) -> (outcome: Result<usize, Error>)
    ensures
        outcome == syscall_result_spec(ret, errno),
{
    if ret < 0 {
        Err(Error::Os(errno))
    } else {
        Ok(ret as usize)
    }
}

/// What to do after one attempt at a call on a non-blocking descriptor.
#[derive(Debug, Clone, Copy)]
pub enum Attempt {
    /// The call would have had to wait: forget that the descriptor was
    /// ready, wait until it is again, and try once more.
    WouldBlock,
    /// The call is over, with this outcome.
    Done(Result<usize, Error>),
}

/// Reads the return value of one attempt at `read`, `write`, `sendto` or
/// `recvfrom` on a non-blocking descriptor.
pub fn after_attempt(ret: isize, errno: i32) -> (next: Attempt)
    ensures
        next == (if ret < 0 && errno == EAGAIN {
            Attempt::WouldBlock
        } else {
            Attempt::Done(syscall_result_spec(ret, errno))
        }),
{
    if ret < 0 && (errno == libc_eagain() || errno == libc_ewouldblock()) {
        Attempt::WouldBlock
    } else {
        Attempt::Done(syscall_result(ret, errno))
    }
}

/// What one `recvfrom` gave: the number of bytes and the sender's address,
/// or the error.
pub fn recv_result(ret: isize, errno: i32, from: &SockAddrIn6) -> (outcome: Result<
    (usize, IpAddr),
    Error,
>)
    ensures
        outcome == (match syscall_result_spec(ret, errno) {
            Ok(n) => Ok((n, from_raw_v6(from.sin6_addr))),
            Err(e) => Err(e),
        }),
{
    match syscall_result(ret, errno) {
        Ok(n) => Ok((n, from.ip())),
        Err(e) => Err(e),
    }
}

/// One datagram ready for `sendto`: its bytes and where it goes.
pub struct SendRequest<'a> {
    pub data: &'a [u8],
    pub dest: SockAddrIn6,
}

/// How a raw IP socket is made: the arguments of `socket` and the socket
/// option set on it.
#[derive(Debug, Clone, Copy, PartialEq, Eq, Structural)]
pub struct SocketRequest {
    /// Address family.
    pub family: i32,
    /// IP protocol number.
    pub protocol: i32,
    /// Whether the socket is made with `SOCK_NONBLOCK`.
    pub nonblocking: bool,
    /// Value of the socket option `IPV6_MTU_DISCOVER`.
    pub mtu_discover: i32,
}

impl SocketRequest {
    /// The request for a dual-stack raw socket of `protocol`.
    pub fn new<P: IpProtocol>(
        protocol: &P,
        nonblocking: bool,
        fragment_config: FragmentConfig,
    ) -> (request: Self)
        ensures
            request == (SocketRequest {
                family: AF_INET6,
                protocol: protocol.spec_protocol_number(),
                nonblocking,
                mtu_discover: fragment_config.spec_mtu_discover(),
            }),
    {
        SocketRequest {
            family: libc_af_inet6(),
            protocol: protocol.protocol_number(),
            nonblocking,
            mtu_discover: fragment_config.mtu_discover(),
        }
    }
}

/// The EtherIP socket: what is asked of the kernel for it, what goes out
/// through it and what comes in.
#[derive(Debug, Clone, Copy, PartialEq, Eq, Structural)]
pub struct EtherIpSocket {
    pub nonblocking: bool,
}

impl EtherIpSocket {
    /// The socket the daemon uses: non-blocking.
    pub fn new() -> (socket: Self)
        ensures
            socket.nonblocking,
    {
        EtherIpSocket { nonblocking: true }
    }

    /// How the socket is made: a raw `AF_INET6` socket of protocol 97 on
    /// which the kernel may fragment.
    pub fn request(&self) -> (request: SocketRequest)
        ensures
            request == (SocketRequest {
                family: AF_INET6,
                protocol: PROTO_ETHERIP,
                nonblocking: self.nonblocking,
                mtu_discover: IPV6_PMTUDISC_OMIT,
            }),
    {
        SocketRequest::new(&EtherIp(), self.nonblocking, FragmentConfig::Fragment)
    }

    /// What to hand to `sendto` in order to send the datagram in `datagram`
    /// to `addr`, or [`Error::InvalidDatagram`] where the builder emits
    /// none; the socket is then not to be touched.
    pub fn send_to<'a, const N: usize>(
        &self,
        datagram: &'a EtherIpBuilder<N>,
        addr: IpAddr,
    ) -> (request: Result<SendRequest<'a>, Error>)
        requires
            datagram.wf(),
        ensures
            match request {
                Ok(r) => build_spec(datagram.buffer(), datagram.ether_frame_length()) == Some(
                    r.data@,
                ) && r.dest == SockAddrIn6::of_raw(to_raw_v6(addr)),
                Err(e) => e == Error::InvalidDatagram && build_spec(
                    datagram.buffer(),
                    datagram.ether_frame_length(),
                ) is None,
            },
    {
        match datagram.build_etherip() {
            Some(data) => Ok(SendRequest { data, dest: SockAddrIn6::new(addr) }),
            None => Err(Error::InvalidDatagram),
        }
    }

    /// Takes what one `recvfrom` into the buffer of `datagram` gave: stores
    /// the number of bytes received in `datagram` and returns the sender, or
    /// returns the error and leaves `datagram` as it is.
    pub fn recv_from<const N: usize>(
        &self,
        datagram: &mut EtherIpParser<N>,
        ret: isize,
        errno: i32,
        from: &SockAddrIn6,
    ) -> (outcome: Result<IpAddr, Error>)
        ensures
            final(datagram).buffer() == old(datagram).buffer(),
            match syscall_result_spec(ret, errno) {
                Ok(n) => outcome == Ok::<IpAddr, Error>(from_raw_v6(from.sin6_addr))
                    && final(datagram).datagram_length() == n,
                Err(e) => outcome == Err::<IpAddr, Error>(e) && final(datagram).datagram_length()
                    == old(datagram).datagram_length(),
            },
    {
        match recv_result(ret, errno, from) {
            Ok((n, addr)) => {
                let (len, _buf) = datagram.etherip_mut();
                *len = n;
                Ok(addr)
            },
            Err(e) => Err(e),
        }
    }
}

} // verus!
