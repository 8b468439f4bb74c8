//! The forwarding runtime's book-keeping and decisions: which interfaces
//! exist, which remote address belongs to which of them, what a reload has
//! to create and destroy, and what becomes of each frame and datagram.

use vstd::prelude::*;
use crate::addr::{to_raw_v6, IpAddr};
use crate::config::LinkConfig;
use crate::error::Error;
use crate::etherip::{build_spec, parse_spec, EtherIpBuilder, EtherIpParser};
use crate::socket::{SendRequest, SockAddrIn6};
use crate::vecmap::VecMap;

verus! {

/// What the runtime keeps for one link while the link is configured.
#[derive(Debug, Clone, Copy)]
pub struct InterfaceState {
    /// The address the link's remote end last resolved to.
    pub remote_addr: Option<IpAddr>,
}

/// The interface table: the state of each link, by the name of its TAP
/// interface.
pub type InterfaceTable = Map<Seq<char>, InterfaceState>;

/// The remote map: the name of the TAP interface that frames from an
/// address go to.
pub type RemoteTable = Map<IpAddr, Seq<char>>;

/// Every key of the remote map is the current remote address of the live
/// link it is mapped to.
pub open spec fn remotes_live(interfaces: InterfaceTable, remotes: RemoteTable) -> bool {
    forall|addr: IpAddr| #[trigger]
        remotes.contains_key(addr) ==> interfaces.contains_key(remotes[addr])
            && interfaces[remotes[addr]].remote_addr == Some(addr)
}

/// The remote map without the addresses mapped to the interface `name`.
pub open spec fn without_tap(remotes: RemoteTable, name: Seq<char>) -> RemoteTable {
    Map::new(
        |addr: IpAddr| remotes.contains_key(addr) && remotes[addr] != name,
        |addr: IpAddr| remotes[addr],
    )
}

/// Whether `at` is the place of the first of `names` that is not in `have`.
pub open spec fn first_missing(names: Seq<Seq<char>>, have: Set<Seq<char>>, at: int) -> bool {
    &&& 0 <= at < names.len()
    &&& !have.contains(names[at])
    &&& forall|j: int| 0 <= j < at ==> have.contains(#[trigger] names[j])
}

/// The tables after the remote end of the link `name` resolved to `new`: if
/// that is not the address the link has, the link gets it, the remote map
/// sends `new` to the link, and the address the link had before leaves the
/// remote map.
pub open spec fn commit_spec(
    interfaces: InterfaceTable,
    remotes: RemoteTable,
    name: Seq<char>,
    new: IpAddr,
) -> (InterfaceTable, RemoteTable) {
    let old = interfaces[name].remote_addr;
    if old == Some(new) {
        (interfaces, remotes)
    } else {
        (
            interfaces.insert(name, InterfaceState { remote_addr: Some(new) }),
            match old {
                Some(o) => remotes.insert(new, name).remove(o),
                None => remotes.insert(new, name),
            },
        )
    }
}

/// One step of bringing the interface table in line with a configuration.
pub enum ReconcileStep {
    /// The link of this name has no interface yet: open a TAP device of
    /// that name, then report it with [`Forwarder::opened`].
    Open(String),
    /// The interface of this name has no link any more and has been taken
    /// out of the table: destroy the TAP device of that name.
    Destroy(String),
    /// The interface table has exactly the configured links.
    Done,
}

/// What becomes of a datagram that came in on the socket.
pub enum Inbound<'t, 'f> {
    /// Write the Ethernet frame `frame` to the TAP interface `tap`.
    Deliver { tap: &'t String, frame: &'f [u8] },
    /// Drop it: it is no EtherIP datagram.
    InvalidHeader,
    /// Drop it: no link has its sender as the remote end.
    UnknownSource,
}

/// What becomes of a frame that was read from a TAP interface.
pub enum Outbound<'a> {
    /// Send this datagram.
    Send(SendRequest<'a>),
    /// Drop it: the link's remote end has no address yet.
    UnknownRemote,
    /// Drop it: it does not make a datagram that can be sent.
    InvalidDatagram,
}

/// The interface table and the remote map of the forwarding runtime.
pub struct Forwarder {
    interface_states: VecMap<String, InterfaceState>,
    remote_map: VecMap<IpAddr, String>,
}

impl Forwarder {
    /// The interface table.
    pub closed spec fn interfaces(&self) -> InterfaceTable {
        self.interface_states@
    }

    /// The names in the interface table, in the order in which their
    /// interfaces were opened.
    pub closed spec fn interface_names(&self) -> Seq<Seq<char>> {
        self.interface_states.keys()
    }

    /// The remote map.
    pub closed spec fn remotes(&self) -> RemoteTable {
        remote_table(self.remote_map@)
    }

    #[verifier::type_invariant]
    spec fn inv(&self) -> bool {
        remotes_live(self.interfaces(), self.remotes())
    }

    /// A runtime with no interface and no remote address.
    pub fn new() -> (forwarder: Self)
        ensures
            forwarder.interfaces() == InterfaceTable::empty(),
            forwarder.remotes() == RemoteTable::empty(),
            forwarder.interface_names() == Seq::<Seq<char>>::empty(),
    {
        let forwarder = Forwarder { interface_states: VecMap::new(), remote_map: VecMap::new() };
        assert(forwarder.remotes() =~= RemoteTable::empty());
        forwarder
    }

    /// Takes both tables out and leaves the runtime empty.
    fn take(&mut self) -> (tables: (VecMap<String, InterfaceState>, VecMap<IpAddr, String>))
        ensures
            tables.0@ == old(self).interfaces(),
            tables.0.keys() == old(self).interface_names(),
            remote_table(tables.1@) == old(self).remotes(),
            remotes_live(tables.0@, remote_table(tables.1@)),
            final(self).interfaces() == InterfaceTable::empty(),
            final(self).remotes() == RemoteTable::empty(),
    {
        proof {
            use_type_invariant(&*self);
        }
        let mut remotes: VecMap<IpAddr, String> = VecMap::new();
        let mut interfaces: VecMap<String, InterfaceState> = VecMap::new();
        assert(remote_table(remotes@) =~= RemoteTable::empty());
        core::mem::swap(&mut self.remote_map, &mut remotes);
        core::mem::swap(&mut self.interface_states, &mut interfaces);
        (interfaces, remotes)
    }

    /// Puts both tables into the empty runtime.
    fn put(&mut self, interfaces: VecMap<String, InterfaceState>, remotes: VecMap<IpAddr, String>)
        requires
            old(self).remotes() == RemoteTable::empty(),
            remotes_live(interfaces@, remote_table(remotes@)),
        ensures
            final(self).interfaces() == interfaces@,
            final(self).interface_names() == interfaces.keys(),
            final(self).remotes() == remote_table(remotes@),
    {
        let mut interfaces = interfaces;
        let mut remotes = remotes;
        core::mem::swap(&mut self.interface_states, &mut interfaces);
        core::mem::swap(&mut self.remote_map, &mut remotes);
    }

    /// Takes note that the TAP device of the link `name` has been opened:
    /// the link gets an interface with no remote address yet. An interface
    /// that is already in the table stays as it is.
    pub fn opened(&mut self, name: String)
        ensures
            final(self).interfaces() == (if old(self).interfaces().contains_key(name@) {
                old(self).interfaces()
            } else {
                old(self).interfaces().insert(name@, InterfaceState { remote_addr: None })
            }),
            final(self).interface_names() == (if old(self).interfaces().contains_key(name@) {
                old(self).interface_names()
            } else {
                old(self).interface_names().push(name@)
            }),
            final(self).remotes() == old(self).remotes(),
            remotes_live(final(self).interfaces(), final(self).remotes()),
    {
        let (mut interfaces, remotes) = self.take();
        if !interfaces.contains_key(&name) {
            interfaces.insert(name, InterfaceState { remote_addr: None });
        }
        self.put(interfaces, remotes);
    }

    /// Says what is to be done next so that the interface table has exactly
    /// the links of `links`. First every link without an interface is
    /// opened, in the order of `links`; then every interface without a link
    /// is taken out of the table, and what the remote map sends to it with
    /// it, and is to be destroyed, in the order of the table. Interfaces
    /// that stay keep their state.
    #[verifier::loop_isolation(false)]
    pub fn reconcile_step(&mut self, links: &VecMap<String, LinkConfig>) -> (step: ReconcileStep)
        ensures
            remotes_live(final(self).interfaces(), final(self).remotes()),
            match step {
                ReconcileStep::Open(name) => {
                    &&& exists|at: int|
                        first_missing(links.keys(), old(self).interfaces().dom(), at)
                            && links.keys()[at] == name@
                    &&& final(self).interfaces() == old(self).interfaces()
                    &&& final(self).interface_names() == old(self).interface_names()
                    &&& final(self).remotes() == old(self).remotes()
                },
                ReconcileStep::Destroy(name) => {
                    &&& links@.dom().subset_of(old(self).interfaces().dom())
                    &&& exists|at: int|
                        first_missing(old(self).interface_names(), links@.dom(), at) && old(
                            self,
                        ).interface_names()[at] == name@
                    &&& final(self).interfaces() == old(self).interfaces().remove(name@)
                    &&& final(self).interface_names() == old(self).interface_names().remove(
                        old(self).interface_names().index_of(name@),
                    )
                    &&& final(self).remotes() == without_tap(old(self).remotes(), name@)
                },
                ReconcileStep::Done => {
                    &&& old(self).interfaces().dom() == links@.dom()
                    &&& final(self).interfaces() == old(self).interfaces()
                    &&& final(self).interface_names() == old(self).interface_names()
                    &&& final(self).remotes() == old(self).remotes()
                },
            },
    {
        let (mut interfaces, mut remotes) = self.take();
        let ghost old_interfaces = interfaces@;
        let ghost old_names = interfaces.keys();
        let ghost old_remotes = remote_table(remotes@);
        let wanted: usize = links.len();
        let mut i: usize = 0;
        while i < wanted
            invariant
                i <= wanted,
                self.remotes() == RemoteTable::empty(),
                forall|j: int|
                    0 <= j < i ==> old_interfaces.contains_key(#[trigger] links.keys()[j]),
            decreases wanted - i,
        {
            let name = links.key_at(i);
            if !interfaces.contains_key(name) {
                let name = name.clone();
                assert(first_missing(links.keys(), old_interfaces.dom(), i as int));
                self.put(interfaces, remotes);
                return ReconcileStep::Open(name);
            }
            i = i + 1;
        }
        proof {
            links.lemma_keys();
            assert forall|k: Seq<char>| links@.dom().contains(k) implies old_interfaces.dom()
                .contains(k) by {
                let j = links.keys().index_of(k);
                assert(links.keys()[j] == k);
            }
        }
        let have: usize = interfaces.len();
        let mut j: usize = 0;
        let mut stale: Option<String> = None;
        while j < have && stale.is_none()
            invariant
                j <= have,
                self.remotes() == RemoteTable::empty(),
                stale is None ==> forall|q: int|
                    0 <= q < j ==> links@.contains_key(#[trigger] old_names[q]),
                stale matches Some(name) ==> exists|at: int|
                    first_missing(old_names, links@.dom(), at) && old_names[at] == name@,
            decreases have - j + (if stale.is_none() { 1int } else { 0int }),
        {
            let name = interfaces.key_at(j);
            if !links.contains_key(name) {
                assert(first_missing(old_names, links@.dom(), j as int));
                stale = Some(name.clone());
            } else {
                j = j + 1;
            }
        }
        match stale {
            Some(name) => {
                proof {
                    interfaces.lemma_keys();
                    let at = choose|at: int|
                        first_missing(old_names, links@.dom(), at) && old_names[at] == name@;
                    assert(old_names[at] == name@);
                    assert(old_interfaces.contains_key(name@));
                }
                let removed = interfaces.remove(&name);
                if let Some(state) = removed {
                    if let Some(addr) = state.remote_addr {
                        let points_here: bool = match remotes.get(&addr) {
                            Some(tap) => *tap == name,
                            None => false,
                        };
                        if points_here {
                            remotes.remove(&addr);
                        }
                    }
                }
                proof {
                    assert(remote_table(remotes@) =~= without_tap(old_remotes, name@));
                }
                self.put(interfaces, remotes);
                ReconcileStep::Destroy(name)
            },
            None => {
                proof {
                    interfaces.lemma_keys();
                    assert forall|k: Seq<char>| old_interfaces.dom().contains(k) implies links@.dom()
                        .contains(k) by {
                        let q = old_names.index_of(k);
                        assert(old_names[q] == k);
                    }
                    assert(old_interfaces.dom() =~= links@.dom());
                }
                self.put(interfaces, remotes);
                ReconcileStep::Done
            },
        }
    }

    /// Takes the outcome of resolving the remote end of the link `name`. An
    /// address other than the one the link has is committed: the link gets
    /// it, the remote map sends it to the link, and the address the link had
    /// before leaves the remote map. A failure changes nothing. Returns
    /// whether an address was committed.
    pub fn resolved(&mut self, name: &String, outcome: Result<IpAddr, Error>) -> (changed: bool)
        requires
            old(self).interfaces().contains_key(name@),
        ensures
            final(self).interface_names() == old(self).interface_names(),
            match outcome {
                Ok(new) => {
                    &&& (final(self).interfaces(), final(self).remotes()) == commit_spec(
                        old(self).interfaces(),
                        old(self).remotes(),
                        name@,
                        new,
                    )
                    &&& changed == (old(self).interfaces()[name@].remote_addr != Some(new))
                    &&& changed ==> {
                        &&& final(self).remotes().contains_key(new)
                        &&& final(self).remotes()[new] == name@
                        &&& old(self).interfaces()[name@].remote_addr matches Some(o)
                            ==> !final(self).remotes().contains_key(o)
                    }
                },
                Err(_) => {
                    &&& !changed
                    &&& final(self).interfaces() == old(self).interfaces()
                    &&& final(self).remotes() == old(self).remotes()
                },
            },
            remotes_live(final(self).interfaces(), final(self).remotes()),
    {
        let (mut interfaces, mut remotes) = self.take();
        let ghost old_interfaces = interfaces@;
        let ghost old_remotes = remote_table(remotes@);
        let changed: bool = match outcome {
            Ok(new) => {
                let old_remote_addr: Option<IpAddr> = match interfaces.get(name) {
                    Some(state) => state.remote_addr,
                    None => None,
                };
                let same: bool = match old_remote_addr {
                    Some(o) => o == new,
                    None => false,
                };
                if same {
                    false
                } else {
                    interfaces.insert(name.clone(), InterfaceState { remote_addr: Some(new) });
                    remotes.insert(new, name.clone());
                    assert(remote_table(remotes@) =~= old_remotes.insert(new, name@));
                    if let Some(o) = old_remote_addr {
                        remotes.remove(&o);
                        assert(remote_table(remotes@) =~= old_remotes.insert(new, name@).remove(o));
                    }
                    true
                }
            },
            Err(_) => false,
        };
        self.put(interfaces, remotes);
        changed
    }

    /// Decides what becomes of the datagram that `parser` received from
    /// `src`. What is no EtherIP datagram is dropped, whoever sent it; an
    /// EtherIP datagram goes to the interface that the remote map gives for
    /// `src`, and is dropped where it gives none.
    pub fn route_inbound<'t, 'f, const N: usize>(
        &'t self,
        parser: &'f EtherIpParser<N>,
        src: IpAddr,
    ) -> (verdict: Inbound<'t, 'f>)
        ensures
            match parse_spec(parser.buffer(), parser.datagram_length()) {
                None => verdict is InvalidHeader,
                Some(f) => if self.remotes().contains_key(src) {
                    &&& verdict matches Inbound::Deliver { tap, frame }
                    &&& tap@ == self.remotes()[src]
                    &&& frame@ == f
                    &&& self.interfaces().contains_key(tap@)
                    &&& self.interfaces()[tap@].remote_addr == Some(src)
                } else {
                    verdict is UnknownSource
                },
            },
            match delivery(
                Arrival {
                    src,
                    buffer: parser.buffer(),
                    length: parser.datagram_length(),
                    remotes: self.remotes(),
                },
            ) {
                Some(d) => verdict matches Inbound::Deliver { tap, frame } && tap@ == d.tap
                    && frame@ == d.frame,
                None => !(verdict is Deliver),
            },
    {
        proof {
            use_type_invariant(self);
        }
        let frame = match parser.parse_ethernet() {
            Some(frame) => frame,
            None => { return Inbound::InvalidHeader; },
        };
        match self.remote_map.get(&src) {
            Some(tap) => Inbound::Deliver { tap, frame },
            None => Inbound::UnknownSource,
        }
    }

    /// Decides what becomes of the frame that was read from the TAP
    /// interface of the link `name` into `builder`. It is sent to the
    /// address of the link's remote end; it is dropped while there is no
    /// such address, and where the builder emits no datagram.
    pub fn route_outbound<'a, const N: usize>(
        &self,
        name: &String,
        builder: &'a EtherIpBuilder<N>,
    ) -> (verdict: Outbound<'a>)
        requires
            builder.wf(),
        ensures
            match self.spec_remote_addr(name@) {
                None => verdict is UnknownRemote,
                Some(remote) => match build_spec(builder.buffer(), builder.ether_frame_length()) {
                    None => verdict is InvalidDatagram,
                    Some(d) => {
                        &&& verdict matches Outbound::Send(request)
                        &&& request.data@ == d
                        &&& request.dest == SockAddrIn6::of_raw(to_raw_v6(remote))
                    },
                },
            },
    {
        let remote = match self.remote_addr(name) {
            Some(remote) => remote,
            None => { return Outbound::UnknownRemote; },
        };
        match builder.build_etherip() {
            Some(data) => Outbound::Send(SendRequest { data, dest: SockAddrIn6::new(remote) }),
            None => Outbound::InvalidDatagram,
        }
    }

    /// Whether the link `name` has an interface in the table.
    pub fn has_interface(&self, name: &String) -> (found: bool)
        ensures
            found == self.interfaces().contains_key(name@),
    {
        self.interface_states.contains_key(name)
    }

    /// The address that the remote end of the link `name` last resolved to:
    /// `None` while it has not resolved, and for a name that is not in the
    /// interface table.
    pub open spec fn spec_remote_addr(&self, name: Seq<char>) -> Option<IpAddr> {
        if self.interfaces().contains_key(name) {
            self.interfaces()[name].remote_addr
        } else {
            None
        }
    }

    /// The address that the remote end of the link `name` last resolved to:
    /// `None` while it has not resolved, and for a name that is not in the
    /// interface table.
    pub fn remote_addr(&self, name: &String) -> (addr: Option<IpAddr>)
        ensures
            addr == self.spec_remote_addr(name@),
    {
        match self.interface_states.get(name) {
            Some(state) => state.remote_addr,
            None => None,
        }
    }
}

/// A datagram as it arrived on the socket: its sender, the buffer of the
/// parser that received it and the number of bytes received, and the remote
/// map as it was when the datagram was decided.
pub struct Arrival {
    pub src: IpAddr,
    pub buffer: Seq<u8>,
    pub length: int,
    pub remotes: RemoteTable,
}

/// A frame written to a TAP interface: the name of the interface and the
/// frame.
pub struct Delivery {
    pub tap: Seq<char>,
    pub frame: Seq<u8>,
}

/// What is written for one arrival: the frame of an EtherIP datagram, to
/// the interface that the remote map gives for its sender; nothing for what
/// is no EtherIP datagram or comes from an unknown sender.
pub open spec fn delivery(arrival: Arrival) -> Option<Delivery> {
    match parse_spec(arrival.buffer, arrival.length) {
        Some(frame) => if arrival.remotes.contains_key(arrival.src) {
            Some(Delivery { tap: arrival.remotes[arrival.src], frame })
        } else {
            None
        },
        None => None,
    }
}

/// What is written for a run of arrivals that are decided one after the
/// other, each before the next is received.
pub open spec fn deliveries(arrivals: Seq<Arrival>) -> Seq<Delivery>
    decreases arrivals.len(),
{
    if arrivals.len() == 0 {
        Seq::empty()
    } else {
        let before = deliveries(arrivals.drop_last());
        match delivery(arrivals.last()) {
            Some(d) => before.push(d),
            None => before,
        }
    }
}

/// Frames are written in the order in which their datagrams arrived: each
/// frame written is the delivery of one arrival, and of two frames the one
/// written first is that of the earlier arrival.
pub proof fn lemma_deliveries_in_arrival_order(arrivals: Seq<Arrival>) -> (origin: Seq<int>)
    ensures
        origin.len() == deliveries(arrivals).len(),
        forall|k: int|
            0 <= k < origin.len() ==> 0 <= #[trigger] origin[k] < arrivals.len() && delivery(
                arrivals[origin[k]],
            ) == Some(deliveries(arrivals)[k]),
        forall|k: int, l: int| 0 <= k < l < origin.len() ==> origin[k] < origin[l],
    decreases arrivals.len(),
{
    if arrivals.len() == 0 {
        Seq::empty()
    } else {
        let earlier = arrivals.drop_last();
        let origin = lemma_deliveries_in_arrival_order(earlier);
        assert forall|k: int| 0 <= k < origin.len() implies arrivals[#[trigger] origin[k]]
            == earlier[origin[k]] by {}
        match delivery(arrivals.last()) {
            Some(d) => origin.push(arrivals.len() - 1),
            None => origin,
        }
    }
}

/// How many steps a reconciliation has before it: the links that have no
/// interface and the interfaces that have no link.
pub open spec fn backlog(interfaces: Set<Seq<char>>, links: Set<Seq<char>>) -> nat {
    links.difference(interfaces).len() + interfaces.difference(links).len()
}

/// Every step of a reconciliation brings it one step nearer its end, and it
/// is at its end exactly when the interface table has the names of the
/// links: opening the interface of a link that had none, and taking out an
/// interface that has no link, each lower the backlog by one, and the
/// backlog is zero exactly when the two sets of names are the same.
pub proof fn lemma_reconcile_progress(
    interfaces: Set<Seq<char>>,
    links: Set<Seq<char>>,
    name: Seq<char>,
)
    requires
        interfaces.finite(),
        links.finite(),
    ensures
        links.contains(name) && !interfaces.contains(name) ==> backlog(
            interfaces.insert(name),
            links,
        ) == backlog(interfaces, links) - 1,
        interfaces.contains(name) && !links.contains(name) ==> backlog(
            interfaces.remove(name),
            links,
        ) == backlog(interfaces, links) - 1,
        backlog(interfaces, links) == 0 <==> interfaces == links,
{
    let missing = links.difference(interfaces);
    let stale = interfaces.difference(links);
    vstd::set_lib::lemma_len_difference(links, interfaces);
    vstd::set_lib::lemma_len_difference(interfaces, links);
    assert(missing.finite() && stale.finite()) by {
        vstd::set_lib::lemma_len_subset(missing, links);
        vstd::set_lib::lemma_len_subset(stale, interfaces);
    }
    if links.contains(name) && !interfaces.contains(name) {
        assert(links.difference(interfaces.insert(name)) =~= missing.remove(name));
        assert(interfaces.insert(name).difference(links) =~= stale);
    }
    if interfaces.contains(name) && !links.contains(name) {
        assert(interfaces.remove(name).difference(links) =~= stale.remove(name));
        assert(links.difference(interfaces.remove(name)) =~= missing);
    }
    if backlog(interfaces, links) == 0 {
        assert(missing.len() == 0 && stale.len() == 0);
        assert(missing =~= Set::empty());
        assert(stale =~= Set::empty());
        assert forall|k: Seq<char>| interfaces.contains(k) == links.contains(k) by {
            if interfaces.contains(k) && !links.contains(k) {
                assert(stale.contains(k));
            }
            if links.contains(k) && !interfaces.contains(k) {
                assert(missing.contains(k));
            }
        }
        assert(interfaces =~= links);
    }
    if interfaces == links {
        assert(missing =~= Set::empty());
        assert(stale =~= Set::empty());
    }
}

/// The remote map that a map from addresses to interface names stands for.
spec fn remote_table(remotes: Map<IpAddr, String>) -> RemoteTable {
    Map::new(|addr: IpAddr| remotes.contains_key(addr), |addr: IpAddr| remotes[addr]@)
}

} // verus!
