//! The EtherIP datagram codec: fixed-size buffers that hold the two-byte
//! EtherIP header followed by one Ethernet frame.

use vstd::prelude::*;

verus! {

/// IP protocol number of EtherIP.
pub const IPPROTO_ETHERIP: i32 = 97;

/// Smallest MTU of an Ethernet link.
pub const ETHERNET_MIN_MTU: usize = 64;

/// Largest MTU of an Ethernet link, jumbo frames included.
pub const ETHERNET_MAX_MTU: usize = 9216;

/// Size of the Ethernet header: two addresses and the type.
pub const ETHERNET_HEADER_SIZE: usize = 14;

/// Size of the Ethernet frame check sequence.
pub const ETHERNET_CRC_SIZE: usize = 4;

/// Size of the smallest Ethernet frame.
pub const ETHERNET_MIN_FRAME_SIZE: usize = ETHERNET_MIN_MTU + ETHERNET_HEADER_SIZE
    + ETHERNET_CRC_SIZE;

/// Size of the largest Ethernet frame.
pub const ETHERNET_MAX_FRAME_SIZE: usize = ETHERNET_MAX_MTU + ETHERNET_HEADER_SIZE
    + ETHERNET_CRC_SIZE;

/// Size of the EtherIP header.
pub const ETHERIP_HEADER_SIZE: usize = 2;

/// Size of the smallest EtherIP datagram: the header and the smallest frame.
pub const ETHERIP_MIN_DATAGRAM_SIZE: usize = ETHERNET_MIN_FRAME_SIZE + ETHERIP_HEADER_SIZE;

/// Size of the largest EtherIP datagram: the header and the largest frame.
pub const ETHERIP_MAX_DATAGRAM_SIZE: usize = ETHERNET_MAX_FRAME_SIZE + ETHERIP_HEADER_SIZE;

/// First header byte: version 3 in the high nibble, reserved low nibble zero.
pub const ETHERIP_HEADER_0: u8 = 0x30;

/// Second header byte: reserved, zero.
pub const ETHERIP_HEADER_1: u8 = 0x00;

/// The two header bytes every EtherIP datagram starts with.
pub open spec fn etherip_header() -> Seq<u8> {
    seq![ETHERIP_HEADER_0, ETHERIP_HEADER_1]
}

/// Whether `len` is the length of a datagram that a buffer of `cap` bytes can
/// carry: at least the smallest datagram, at most the buffer.
pub open spec fn datagram_len_ok(len: int, cap: int) -> bool {
    ETHERIP_MIN_DATAGRAM_SIZE <= len <= cap
}

/// The Ethernet frame carried by the first `len` bytes of `buf`, if they form
/// an EtherIP datagram.
pub open spec fn parse_spec(buf: Seq<u8>, len: int) -> Option<Seq<u8>> {
    if datagram_len_ok(len, buf.len() as int) && buf[0] == ETHERIP_HEADER_0 && buf[1]
        == ETHERIP_HEADER_1 {
        Some(buf.subrange(2, len))
    } else {
        None
    }
}

/// Receive-side buffer: `N` bytes into which a datagram is received, and the
/// number of bytes received.
#[derive(Debug, Clone, Copy)]
pub struct EtherIpParser<const N: usize> {
    datagram_length: usize,
    data: [u8; N],
}

impl<const N: usize> EtherIpParser<N> {
    /// The whole buffer.
    pub closed spec fn buffer(&self) -> Seq<u8> {
        self.data@
    }

    /// Number of bytes last received.
    pub closed spec fn datagram_length(&self) -> int {
        self.datagram_length as int
    }

    /// The buffer has `N` bytes.
    pub proof fn lemma_buffer_len(&self)
        ensures
            self.buffer().len() == N,
    {
    }

    /// A parser over a zero-filled buffer, with nothing received.
    pub fn new_zeroed() -> (p: Self)
        requires
            N >= ETHERIP_MIN_DATAGRAM_SIZE,
        ensures
            p.datagram_length() == 0,
            p.buffer() == Seq::new(N as nat, |i: int| 0u8),
    {
        Self { datagram_length: 0, data: [0;N] }
    }

    /// The received-length field and the whole buffer, both writable: a
    /// receive fills the buffer and stores the number of bytes it got.
    pub fn etherip_mut(&mut self) -> (r: (&mut usize, &mut [u8]))
        ensures
            *r.0 == old(self).datagram_length(),
            r.1@ == old(self).buffer(),
            final(self).datagram_length() == *final(r.0),
            final(self).buffer() == final(r.1)@,
    {
        (&mut self.datagram_length, &mut self.data)
    }

    /// The Ethernet frame of the datagram last received, or `None` if what
    /// was received is no EtherIP datagram.
    pub fn parse_ethernet(&self) -> (frame: Option<&[u8]>)
        ensures
            frame.is_some() == parse_spec(self.buffer(), self.datagram_length()).is_some(),
            frame matches Some(f) ==> {
                &&& f@ == parse_spec(self.buffer(), self.datagram_length()).unwrap()
                &&& self.datagram_length() == f@.len() + 2
                &&& self.buffer()[0] == ETHERIP_HEADER_0
                &&& self.buffer()[1] == ETHERIP_HEADER_1
            },
    {
        let len: usize = self.datagram_length;
        if len < ETHERIP_MIN_DATAGRAM_SIZE || len > N {
            return None;
        }
        if self.data[0] != ETHERIP_HEADER_0 || self.data[1] != ETHERIP_HEADER_1 {
            return None;
        }
        Some(&self.data[2..len])
    }
}

/// The datagram that a builder emits for a buffer `buf` and an Ethernet
/// frame length `frame_len`: the first `frame_len + 2` bytes, if that many
/// make a datagram the buffer can carry.
pub open spec fn build_spec(buf: Seq<u8>, frame_len: int) -> Option<Seq<u8>> {
    if datagram_len_ok(frame_len + ETHERIP_HEADER_SIZE, buf.len() as int) {
        Some(buf.subrange(0, frame_len + ETHERIP_HEADER_SIZE))
    } else {
        None
    }
}

/// Send-side buffer: `N` bytes that start with the EtherIP header, and the
/// length of the Ethernet frame written behind it.
#[derive(Debug, Clone, Copy)]
pub struct EtherIpBuilder<const N: usize> {
    ether_frame_length: usize,
    data: [u8; N],
}

impl<const N: usize> EtherIpBuilder<N> {
    /// The whole buffer, header included.
    pub closed spec fn buffer(&self) -> Seq<u8> {
        self.data@
    }

    /// The builder's invariant: the buffer can carry the smallest datagram
    /// and starts with the EtherIP header.
    pub open spec fn wf(&self) -> bool {
        &&& N >= ETHERIP_MIN_DATAGRAM_SIZE
        &&& self.buffer()[0] == ETHERIP_HEADER_0
        &&& self.buffer()[1] == ETHERIP_HEADER_1
    }

    /// Length of the Ethernet frame last written.
    pub closed spec fn ether_frame_length(&self) -> int {
        self.ether_frame_length as int
    }

    /// The buffer has `N` bytes.
    pub proof fn lemma_buffer_len(&self)
        ensures
            self.buffer().len() == N,
    {
    }

    /// A builder over a zero-filled buffer with the header written and an
    /// empty frame.
    pub fn new_zeroed() -> (b: Self)
        requires
            N >= ETHERIP_MIN_DATAGRAM_SIZE,
        ensures
            b.wf(),
            b.ether_frame_length() == 0,
            b.buffer() == etherip_header() + Seq::new((N - 2) as nat, |i: int| 0u8),
    {
        let mut builder = Self { ether_frame_length: 0, data: [0;N] };
        builder.data[0] = ETHERIP_HEADER_0;
        builder.data[1] = ETHERIP_HEADER_1;
        builder
    }

    /// The frame-length field and the Ethernet region of the buffer, both
    /// writable: the caller writes a frame and stores its length.
    pub fn ethernet_mut(&mut self) -> (r: (&mut usize, &mut [u8]))
        requires
            old(self).wf(),
        ensures
            final(self).wf(),
            *r.0 == old(self).ether_frame_length(),
            r.1@ == old(self).buffer().subrange(2, N as int),
            final(self).ether_frame_length() == *final(r.0),
            final(self).buffer() == etherip_header() + final(r.1)@,
    {
        let (_header, frame) = self.data.split_at_mut(2);
        (&mut self.ether_frame_length, frame)
    }

    /// The datagram to send, or `None` if the frame length does not give a
    /// datagram of a size the buffer can carry.
    pub fn build_etherip(&self) -> (datagram: Option<&[u8]>)
        requires
            self.wf(),
        ensures
            datagram.is_some() == build_spec(self.buffer(), self.ether_frame_length()).is_some(),
            datagram matches Some(d) ==> {
                &&& d@ == build_spec(self.buffer(), self.ether_frame_length()).unwrap()
                &&& d@.len() == self.ether_frame_length() + 2
                &&& d@[0] == ETHERIP_HEADER_0
                &&& d@[1] == ETHERIP_HEADER_1
            },
    {
        let frame_len: usize = self.ether_frame_length;
        if frame_len >= ETHERNET_MIN_FRAME_SIZE && frame_len <= N && N - frame_len
            >= ETHERIP_HEADER_SIZE {
            Some(&self.data[0..frame_len + ETHERIP_HEADER_SIZE])
        } else {
            None
        }
    }
}

/// A buffer of the largest datagram size, for receiving.
pub type DefaultParser = EtherIpParser<ETHERIP_MAX_DATAGRAM_SIZE>;

/// A buffer of the largest datagram size, for sending.
pub type DefaultBuilder = EtherIpBuilder<ETHERIP_MAX_DATAGRAM_SIZE>;

/// Building then parsing gives the frame back: if a builder holds the
/// Ethernet frame `e` behind its header, with `e` of a legal frame size that
/// the buffer can carry, and a parser has received exactly the datagram the
/// builder emits, then the parser yields `e`, byte for byte.
pub proof fn lemma_build_then_parse<const N: usize, const M: usize>(
    builder: EtherIpBuilder<N>,
    parser: EtherIpParser<M>,
    e: Seq<u8>,
)
    requires
        ETHERNET_MIN_FRAME_SIZE <= e.len() <= ETHERNET_MAX_FRAME_SIZE,
        e.len() + ETHERIP_HEADER_SIZE <= N,
        e.len() + ETHERIP_HEADER_SIZE <= M,
        builder.wf(),
        builder.ether_frame_length() == e.len(),
        builder.buffer().subrange(2, 2 + e.len() as int) == e,
        parser.datagram_length() == e.len() + ETHERIP_HEADER_SIZE,
        parser.buffer().subrange(0, parser.datagram_length()) == build_spec(
            builder.buffer(),
            builder.ether_frame_length(),
        ).unwrap(),
    ensures
        build_spec(builder.buffer(), builder.ether_frame_length()).is_some(),
        parse_spec(parser.buffer(), parser.datagram_length()) == Some(e),
{
    builder.lemma_buffer_len();
    parser.lemma_buffer_len();
    let d = builder.buffer().subrange(0, 2 + e.len() as int);
    let got = parser.buffer().subrange(0, parser.datagram_length());
    assert(got[0] == parser.buffer()[0]);
    assert(got[1] == parser.buffer()[1]);
    assert(d[0] == builder.buffer()[0]);
    assert(d[1] == builder.buffer()[1]);
    assert(parser.buffer().subrange(2, parser.datagram_length()) =~= e) by {
        assert forall|i: int| 0 <= i < e.len() implies parser.buffer().subrange(
            2,
            parser.datagram_length(),
        )[i] == e[i] by {
            assert(got[i + 2] == d[i + 2]);
            assert(builder.buffer().subrange(2, 2 + e.len() as int)[i] == e[i]);
        }
    }
}

} // verus!
