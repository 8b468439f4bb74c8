//! EtherIP (RFC 3378) tunnelling: the packet-plane logic of a daemon that
//! bridges TAP devices to remote peers over IP protocol 97.
//!
//! The library holds what such a daemon decides and computes: the datagram
//! codec, the address forms of a dual-stack socket, the rules for interface
//! names, the requests made of the kernel, and the book-keeping of links,
//! interfaces and remote addresses. It makes no system call itself: a
//! program around it carries out what the library asks for and hands back
//! what came of it.

pub mod addr;
pub mod config;
pub mod datagram;
pub mod error;
pub mod etherip;
pub mod lifecycle;
pub mod runtime;
pub mod socket;
pub mod tap;
pub mod vecmap;

pub use addr::{from_ipv6_addr, to_ipv6_addr};
pub use datagram::{EtherIpDatagram, EtherIpDatagramLength, EthernetFrameLength};
pub use etherip::{DefaultBuilder, DefaultParser};
pub use socket::{EtherIp, EtherIpSocket, FragmentConfig, IpProtocol, PROTO_ETHERIP};
