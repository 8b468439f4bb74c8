//! A datagram buffer as large as an IP packet can be, with its length kept
//! beside it and handed out through small length handles.

use vstd::prelude::*;
use crate::etherip::{ETHERIP_HEADER_0, ETHERIP_HEADER_1, ETHERIP_HEADER_SIZE};

verus! {

/// Size of the buffer of an [`EtherIpDatagram`].
pub const DATAGRAM_BUFFER_SIZE: usize = 65536;

/// Whether the first `len` bytes of `buf` are an EtherIP header followed by
/// a payload of any length.
pub open spec fn datagram_valid(buf: Seq<u8>, len: int) -> bool {
    &&& ETHERIP_HEADER_SIZE <= len <= buf.len()
    &&& buf[0] == ETHERIP_HEADER_0
    &&& buf[1] == ETHERIP_HEADER_1
}

/// The datagram in the first `len` bytes of `buf`, if they hold one.
pub open spec fn datagram_spec(buf: Seq<u8>, len: int) -> Option<Seq<u8>> {
    if datagram_valid(buf, len) {
        Some(buf.subrange(0, len))
    } else {
        None
    }
}

/// The Ethernet frame of the datagram in the first `len` bytes of `buf`, if
/// they hold one.
pub open spec fn frame_spec(buf: Seq<u8>, len: int) -> Option<Seq<u8>> {
    if datagram_valid(buf, len) {
        Some(buf.subrange(2, len))
    } else {
        None
    }
}

/// An EtherIP datagram without its IP header: the EtherIP header and the
/// Ethernet frame, in a buffer of [`DATAGRAM_BUFFER_SIZE`] bytes.
#[derive(Debug, Clone)]
pub struct EtherIpDatagram {
    len: usize,
    data: [u8; 65536],
}

/// Writable handle on the length of a datagram, counted as the length of the
/// Ethernet frame in it.
pub struct EthernetFrameLength<'a> {
    pub etherip_datagram_len: &'a mut usize,
}

impl EthernetFrameLength<'_> {
    /// The datagram length behind the handle.
    pub open spec fn datagram_len(&self) -> int {
        *self.etherip_datagram_len as int
    }

    /// Sets the length of the Ethernet frame to `len`, and so that of the
    /// datagram to `len + 2`.
    pub fn set(&mut self, len: usize)
        requires
            len + ETHERIP_HEADER_SIZE <= usize::MAX,
        ensures
            final(self).datagram_len() == len + ETHERIP_HEADER_SIZE,
            *final(final(self).etherip_datagram_len) == *final(old(self).etherip_datagram_len),
    {
        *self.etherip_datagram_len = len + ETHERIP_HEADER_SIZE;
    }

    /// The length of the Ethernet frame: that of the datagram less the
    /// header.
    pub fn get(&self) -> (len: usize)
        requires
            self.datagram_len() >= ETHERIP_HEADER_SIZE,
        ensures
            len == self.datagram_len() - ETHERIP_HEADER_SIZE,
    {
        *self.etherip_datagram_len - ETHERIP_HEADER_SIZE
    }
}

/// Writable handle on the length of a datagram.
pub struct EtherIpDatagramLength<'a> {
    pub etherip_datagram_len: &'a mut usize,
}

impl EtherIpDatagramLength<'_> {
    /// The datagram length behind the handle.
    pub open spec fn datagram_len(&self) -> int {
        *self.etherip_datagram_len as int
    }

    /// Sets the length of the datagram to `len`.
    pub fn set(&mut self, len: usize)
        ensures
            final(self).datagram_len() == len,
            *final(final(self).etherip_datagram_len) == *final(old(self).etherip_datagram_len),
    {
        *self.etherip_datagram_len = len;
    }

    /// The length of the datagram.
    pub fn get(&self) -> (len: usize)
        ensures
            len == self.datagram_len(),
    {
        *self.etherip_datagram_len
    }
}

impl EtherIpDatagram {
    /// Length of the datagram: header and Ethernet frame.
    pub closed spec fn len(&self) -> int {
        self.len as int
    }

    /// The whole buffer.
    pub closed spec fn buffer(&self) -> Seq<u8> {
        self.data@
    }

    /// A datagram that holds the EtherIP header and an empty frame, in a
    /// buffer that is zero behind the header.
    pub fn new() -> (d: Self)
        ensures
            d.len() == ETHERIP_HEADER_SIZE,
            d.buffer() == Seq::new(
                DATAGRAM_BUFFER_SIZE as nat,
                |i: int|
                    if i == 0 {
                        ETHERIP_HEADER_0
                    } else {
                        0u8
                    },
            ),
            datagram_valid(d.buffer(), d.len()),
    {
        let mut datagram = Self { len: 2, data: [0;65536] };
        datagram.data[0] = ETHERIP_HEADER_0;
        assert(datagram.data@ =~= Seq::new(
            DATAGRAM_BUFFER_SIZE as nat,
            |i: int|
                if i == 0 {
                    ETHERIP_HEADER_0
                } else {
                    0u8
                },
        ));
        datagram
    }

    /// The encapsulated Ethernet frame, or `None` where the length or the
    /// header is not that of an EtherIP datagram.
    pub fn ethrnet_frame<'a>(&'a self) -> (frame: Option<&'a [u8]>)
        ensures
            frame.is_some() == datagram_valid(self.buffer(), self.len()),
            frame matches Some(f) ==> f@ == frame_spec(self.buffer(), self.len()).unwrap(),
    {
        if self.len > DATAGRAM_BUFFER_SIZE {
            return None;
        }
        if self.len < ETHERIP_HEADER_SIZE {
            return None;
        }
        if self.data[0] != ETHERIP_HEADER_0 || self.data[1] != ETHERIP_HEADER_1 {
            return None;
        }
        Some(&self.data[2..self.len])
    }

    /// The length of the datagram, settable as a frame length, and the
    /// Ethernet region of the buffer, writable.
    pub fn ethrnet_frame_mut<'a>(&'a mut self) -> (r: (EthernetFrameLength<'a>, &'a mut [u8]))
        ensures
            r.0.datagram_len() == old(self).len(),
            r.1@ == old(self).buffer().subrange(2, DATAGRAM_BUFFER_SIZE as int),
            final(self).len() == *final(r.0.etherip_datagram_len),
            final(self).buffer() == old(self).buffer().subrange(0, 2) + final(r.1)@,
    {
        let (_etherip_header, eth_frame) = self.data.split_at_mut(2);
        (EthernetFrameLength { etherip_datagram_len: &mut self.len }, eth_frame)
    }

    /// The whole datagram, or `None` where the length or the header is not
    /// that of an EtherIP datagram.
    pub fn datagram(&self) -> (datagram: Option<&[u8]>)
        ensures
            datagram.is_some() == datagram_valid(self.buffer(), self.len()),
            datagram matches Some(d) ==> d@ == datagram_spec(self.buffer(), self.len()).unwrap(),
    {
        if self.len > DATAGRAM_BUFFER_SIZE {
            return None;
        }
        if self.len < ETHERIP_HEADER_SIZE {
            return None;
        }
        if self.data[0] != ETHERIP_HEADER_0 || self.data[1] != ETHERIP_HEADER_1 {
            return None;
        }
        Some(&self.data[0..self.len])
    }

    /// The length of the datagram, settable, and the whole buffer, writable.
    pub fn datagram_mut<'a>(&'a mut self) -> (r: (EtherIpDatagramLength<'a>, &'a mut [u8]))
        ensures
            r.0.datagram_len() == old(self).len(),
            r.1@ == old(self).buffer(),
            final(self).len() == *final(r.0.etherip_datagram_len),
            final(self).buffer() == final(r.1)@,
    {
        (EtherIpDatagramLength { etherip_datagram_len: &mut self.len }, &mut self.data)
    }
}

} // verus!
