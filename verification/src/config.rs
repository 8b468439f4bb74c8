//! The daemon's configuration: the log level and the table of links, and how
//! a link's remote end is found.

use vstd::prelude::*;
use vstd::string::StringExecFns;
use log::LevelFilter;
use crate::addr::IpAddr;
use crate::error::Error;
use crate::vecmap::VecMap;

verus! {

/// `log::LevelFilter`, the logger's filter, made known with its variants
/// `Off`, `Error`, `Warn`, `Info`, `Debug` and `Trace`. Nothing is assumed
/// of it: its definition is all that is used.
#[verifier::external_type_specification]
pub struct ExLevelFilter(log::LevelFilter);

/// How much the daemon logs.
#[derive(Clone, Copy, PartialEq, Eq, PartialOrd, Ord, Debug, Structural)]
pub enum LogLevel {
    Off,
    Error,
    Warn,
    Info,
    Debug,
    Trace,
}

impl Default for LogLevel {
    fn default() -> (level: Self)
        ensures
            level == LogLevel::Warn,
    {
        LogLevel::Warn
    }
}

impl From<LogLevel> for LevelFilter {
    fn from(value: LogLevel) -> (filter: Self) {
        match value {
            LogLevel::Off => LevelFilter::Off,
            LogLevel::Error => LevelFilter::Error,
            LogLevel::Warn => LevelFilter::Warn,
            LogLevel::Info => LevelFilter::Info,
            LogLevel::Debug => LevelFilter::Debug,
            LogLevel::Trace => LevelFilter::Trace,
        }
    }
}

impl vstd::std_specs::convert::FromSpecImpl<LogLevel> for LevelFilter {
    open spec fn obeys_from_spec() -> bool {
        true
    }

    open spec fn from_spec(value: LogLevel) -> Self {
        match value {
            LogLevel::Off => LevelFilter::Off,
            LogLevel::Error => LevelFilter::Error,
            LogLevel::Warn => LevelFilter::Warn,
            LogLevel::Info => LevelFilter::Info,
            LogLevel::Debug => LevelFilter::Debug,
            LogLevel::Trace => LevelFilter::Trace,
        }
    }
}

impl From<LevelFilter> for LogLevel {
    fn from(value: LevelFilter) -> (level: Self) {
        match value {
            LevelFilter::Off => LogLevel::Off,
            LevelFilter::Error => LogLevel::Error,
            LevelFilter::Warn => LogLevel::Warn,
            LevelFilter::Info => LogLevel::Info,
            LevelFilter::Debug => LogLevel::Debug,
            LevelFilter::Trace => LogLevel::Trace,
        }
    }
}

impl vstd::std_specs::convert::FromSpecImpl<LevelFilter> for LogLevel {
    open spec fn obeys_from_spec() -> bool {
        true
    }

    open spec fn from_spec(value: LevelFilter) -> Self {
        match value {
            LevelFilter::Off => LogLevel::Off,
            LevelFilter::Error => LogLevel::Error,
            LevelFilter::Warn => LogLevel::Warn,
            LevelFilter::Info => LogLevel::Info,
            LevelFilter::Debug => LogLevel::Debug,
            LevelFilter::Trace => LogLevel::Trace,
        }
    }
}

/// A log level and the filter made of it name each other: converting there
/// and back changes nothing, from either side.
pub proof fn lemma_level_filter_roundtrip(level: LogLevel, filter: LevelFilter)
    ensures
        <LogLevel as vstd::std_specs::convert::FromSpec<LevelFilter>>::from_spec(
            <LevelFilter as vstd::std_specs::convert::FromSpec<LogLevel>>::from_spec(level),
        ) == level,
        <LevelFilter as vstd::std_specs::convert::FromSpec<LogLevel>>::from_spec(
            <LogLevel as vstd::std_specs::convert::FromSpec<LevelFilter>>::from_spec(filter),
        ) == filter,
{
}

/// IP version that a link's remote end is reached by.
#[derive(Clone, Copy, Debug, PartialEq, Eq, Structural)]
pub enum IpVersion {
    V4,
    V6,
}

/// Configuration of one link.
#[derive(Clone, Debug)]
pub struct LinkConfig {
    /// Remote IP address or host name.
    pub remote: String,
    /// IP version.
    pub ip_version: IpVersion,
}

/// Configuration of the daemon.
#[derive(Debug)]
pub struct Config {
    pub log_level: LogLevel,
    /// The links, by the name of their TAP interface.
    pub links: VecMap<String, LinkConfig>,
}

impl Config {
    /// The log level as a filter for the logger.
    pub fn level_filter(&self) -> (filter: LevelFilter)
        ensures
            filter == <LevelFilter as vstd::std_specs::convert::FromSpec<LogLevel>>::from_spec(
                self.log_level,
            ),
    {
        LevelFilter::from(self.log_level)
    }
}

/// The remote end of a link: an address written out in the configuration, or
/// a host name to resolve.
#[derive(Clone, Debug)]
pub enum RemoteAddr {
    Static(IpAddr),
    Dynamic(String),
}

/// What a [`RemoteAddr`] stands for.
pub enum RemoteAddrView {
    Static(IpAddr),
    Dynamic(Seq<char>),
}

impl View for RemoteAddr {
    type V = RemoteAddrView;

    open spec fn view(&self) -> RemoteAddrView {
        match self {
            RemoteAddr::Static(ip) => RemoteAddrView::Static(*ip),
            RemoteAddr::Dynamic(host) => RemoteAddrView::Dynamic(host@),
        }
    }
}

/// Whether `addr` is of IP version `version`.
pub open spec fn is_version(addr: IpAddr, version: IpVersion) -> bool {
    match version {
        IpVersion::V4 => addr is V4,
        IpVersion::V6 => addr is V6,
    }
}

/// Whether `at` is the place of the first address of `version` in `addrs`.
pub open spec fn first_of_version(addrs: Seq<IpAddr>, version: IpVersion, at: int) -> bool {
    &&& 0 <= at < addrs.len()
    &&& is_version(addrs[at], version)
    &&& forall|j: int| 0 <= j < at ==> !is_version(#[trigger] addrs[j], version)
}

/// What a resolver's answer gives for a link: the first address of
/// `version`, or [`Error::NoAddress`] where the answer holds none.
pub open spec fn select_addr_spec(
    addrs: Seq<IpAddr>,
    version: IpVersion,
    outcome: Result<IpAddr, Error>,
) -> bool {
    match outcome {
        Ok(ip) => exists|at: int| first_of_version(addrs, version, at) && addrs[at] == ip,
        Err(e) => e == Error::NoAddress && forall|j: int|
            0 <= j < addrs.len() ==> !is_version(#[trigger] addrs[j], version),
    }
}

/// The first address of IP version `ip_version` among `addrs`.
pub fn select_addr(addrs: &[IpAddr], ip_version: IpVersion) -> (outcome: Result<IpAddr, Error>)
    ensures
        select_addr_spec(addrs@, ip_version, outcome),
{
    let mut i: usize = 0;
    while i < addrs.len()
        invariant
            i <= addrs@.len(),
            forall|j: int| 0 <= j < i ==> !is_version(#[trigger] addrs@[j], ip_version),
        decreases addrs@.len() - i,
    {
        let addr = addrs[i];
        let found: bool = match ip_version {
            IpVersion::V4 => addr.is_ipv4(),
            IpVersion::V6 => addr.is_ipv6(),
        };
        if found {
            assert(first_of_version(addrs@, ip_version, i as int));
            return Ok(addr);
        }
        i = i + 1;
    }
    Err(Error::NoAddress)
}

/// What to ask the resolver for `host`: the host name with port 0.
pub fn lookup_target(host: &str) -> (target: String)
    ensures
        target@ == host@ + ":0"@,
{
    let mut target = String::from_str(host);
    target.append(":0");
    target
}

/// The address of a host given the way it is written. `literal` is the
/// address that `addr` spells out, if it spells one; `answers` is what the
/// resolver gave for [`lookup_target`] of it, and is looked at only where
/// `literal` is `None`.
pub fn lookup_addr(literal: Option<IpAddr>, answers: &[IpAddr], ip_version: IpVersion) -> (outcome:
    Result<IpAddr, Error>)
    ensures
        literal matches Some(ip) ==> outcome == Ok::<IpAddr, Error>(ip),
        literal is None ==> select_addr_spec(answers@, ip_version, outcome),
{
    if let Some(ip) = literal {
        return Ok(ip);
    }
    select_addr(answers, ip_version)
}

impl LinkConfig {
    /// The remote end of this link. `literal` is the address that
    /// `self.remote` spells out, if it spells one.
    pub fn remote_addr(&self, literal: Option<IpAddr>) -> (remote: RemoteAddr)
        ensures
            remote@ == (match literal {
                Some(ip) => RemoteAddrView::Static(ip),
                None => RemoteAddrView::Dynamic(self.remote@),
            }),
    {
        match literal {
            Some(ip_addr) => RemoteAddr::Static(ip_addr),
            None => RemoteAddr::Dynamic(self.remote.clone()),
        }
    }
}

impl RemoteAddr {
    /// The address of this remote end: the static address as it is, or what
    /// the resolver's `answers` for the host name give for `ip_version`.
    pub fn resolve(&self, answers: &[IpAddr], ip_version: IpVersion) -> (outcome: Result<
        IpAddr,
        Error,
    >)
        ensures
            self matches RemoteAddr::Static(ip) ==> outcome == Ok::<IpAddr, Error>(*ip),
            self is Dynamic ==> select_addr_spec(answers@, ip_version, outcome),
    {
        match self {
            RemoteAddr::Static(ip) => Ok(*ip),
            RemoteAddr::Dynamic(_) => select_addr(answers, ip_version),
        }
    }
}

} // verus!
