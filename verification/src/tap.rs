//! TAP devices: which interface names the kernel takes, what is asked of
//! `/dev/net/tun` to create or remove one, and in which order.

use vstd::prelude::*;
use vstd::string::StringSliceAdditionalSpecFns;
use vstd::utf8::{encode_scalar, encode_utf8, is_scalar};
use crate::error::Error;

verus! {

/// Size of the kernel's field for an interface name, the terminating NUL
/// included.
pub const IFNAMSIZ: usize = 16;

/// `ifr_flags` bit that asks for a TAP device, which carries Ethernet frames.
pub const IFF_TAP: i32 = 0x0002;

/// `ifr_flags` bit that asks for frames without a packet-information header.
pub const IFF_NO_PI: i32 = 0x1000;

/// `libc::IFNAMSIZ`, which is 16 on Linux.
#[verifier::external_body]
fn libc_ifnamsiz() -> (n: usize)
    ensures
        n == IFNAMSIZ,
{
    libc::IFNAMSIZ
}

/// `libc::IFF_TAP`, which is 2 on Linux.
#[verifier::external_body]
fn libc_iff_tap() -> (flag: i32)
    ensures
        flag == IFF_TAP,
{
    libc::IFF_TAP
}

/// `libc::IFF_NO_PI`, which is 0x1000 on Linux.
#[verifier::external_body]
fn libc_iff_no_pi() -> (flag: i32)
    ensures
        flag == IFF_NO_PI,
{
    libc::IFF_NO_PI
}

/// Whether a byte may not stand in an interface name: a slash, or white
/// space (space, form feed, line feed, carriage return, tab, vertical tab).
pub open spec fn is_forbidden_byte(b: u8) -> bool {
    b == 0x2f || b == 0x20 || b == 0x0c || b == 0x0a || b == 0x0d || b == 0x09 || b == 0x0b
}

/// Why `name` is no interface name, or `Ok` if it is one: it has from 1 to
/// `IFNAMSIZ - 1` bytes, none of them forbidden and none of them NUL. The
/// length is judged first, then the forbidden bytes, then NUL.
pub open spec fn check_ifname(name: Seq<u8>) -> Result<(), Error> {
    if name.len() == 0 || name.len() >= IFNAMSIZ {
        Err(Error::NameLength)
    } else if exists|i: int| 0 <= i < name.len() && is_forbidden_byte(#[trigger] name[i]) {
        Err(Error::NameCharacter)
    } else if exists|i: int| 0 <= i < name.len() && #[trigger] name[i] == 0 {
        Err(Error::NameNul)
    } else {
        Ok(())
    }
}

/// Whether a character may not stand in an interface name: a slash, or
/// white space.
pub open spec fn is_forbidden_char(c: char) -> bool {
    c == '/' || c == ' ' || c == '\x0c' || c == '\n' || c == '\r' || c == '\t' || c == '\x0b'
}

/// [`check_ifname`] told of the characters of a name: its length in bytes is
/// judged first, then the forbidden characters, then NUL.
pub open spec fn check_ifname_chars(name: Seq<char>) -> Result<(), Error> {
    if encode_utf8(name).len() == 0 || encode_utf8(name).len() >= IFNAMSIZ {
        Err(Error::NameLength)
    } else if exists|i: int| 0 <= i < name.len() && is_forbidden_char(#[trigger] name[i]) {
        Err(Error::NameCharacter)
    } else if exists|i: int| 0 <= i < name.len() && #[trigger] name[i] == '\0' {
        Err(Error::NameNul)
    } else {
        Ok(())
    }
}

/// An ASCII byte stands in the encoding of a scalar value only as that
/// value itself.
proof fn lemma_ascii_byte_of_scalar(v: u32, b: u8)
    requires
        is_scalar(v),
        b < 0x80,
    ensures
        encode_scalar(v).contains(b) <==> v == b,
{
    assert(v <= 0x7f ==> (v & 0x7f) as u8 == v) by (bit_vector);
    assert((0xC0u8 | ((v >> 6) & 0x1F) as u8) >= 0x80) by (bit_vector);
    assert((0xE0u8 | ((v >> 12) & 0x0F) as u8) >= 0x80) by (bit_vector);
    assert((0xF0u8 | ((v >> 18) & 0x7) as u8) >= 0x80) by (bit_vector);
    assert((0x80u8 | (v & 0x3F) as u8) >= 0x80) by (bit_vector);
    assert((0x80u8 | ((v >> 6) & 0x3F) as u8) >= 0x80) by (bit_vector);
    assert((0x80u8 | ((v >> 12) & 0x3F) as u8) >= 0x80) by (bit_vector);
    let e = encode_scalar(v);
    if v == b {
        assert(e[0] == b);
    }
    if e.contains(b) {
        let i = choose|i: int| 0 <= i < e.len() && e[i] == b;
        assert(e[i] == b);
    }
}

/// An ASCII byte stands in the UTF-8 encoding of a string exactly where the
/// string holds the character of that code.
proof fn lemma_ascii_byte_of_chars(chars: Seq<char>, c: char, b: u8)
    requires
        b < 0x80,
        c as u32 == b as u32,
    ensures
        encode_utf8(chars).contains(b) <==> chars.contains(c),
    decreases chars.len(),
{
    if chars.len() == 0 {
    } else {
        let head = encode_scalar(chars[0] as u32);
        let rest = chars.drop_first();
        let tail = encode_utf8(rest);
        vstd::utf8::char_is_scalar(chars[0]);
        lemma_ascii_byte_of_scalar(chars[0] as u32, b);
        lemma_ascii_byte_of_chars(rest, c, b);
        assert(chars[0] as u32 == b as u32 <==> chars[0] == c) by {
            vstd::utf8::char_u32_cast(chars[0], chars[0] as u32);
            vstd::utf8::char_u32_cast(c, c as u32);
        }
        if (head + tail).contains(b) {
            let i = choose|i: int| 0 <= i < (head + tail).len() && (head + tail)[i] == b;
            if i < head.len() {
                assert(head[i] == b);
                assert(chars[0] == c);
            } else {
                assert(tail[i - head.len()] == b);
                let j = choose|j: int| 0 <= j < rest.len() && rest[j] == c;
                assert(chars[j + 1] == c);
            }
        }
        if chars.contains(c) {
            let i = choose|i: int| 0 <= i < chars.len() && chars[i] == c;
            if i == 0 {
                let k = choose|k: int| 0 <= k < head.len() && head[k] == b;
                assert((head + tail)[k] == b);
            } else {
                assert(rest[i - 1] == c);
                let k = choose|k: int| 0 <= k < tail.len() && tail[k] == b;
                assert((head + tail)[k + head.len()] == b);
            }
        }
    }
}

/// The rule for interface names says the same of the bytes of a name as of
/// its characters: a name is refused for a forbidden byte exactly where it
/// holds a forbidden character, and for a NUL byte exactly where it holds
/// the character NUL.
pub proof fn lemma_check_ifname_chars(name: Seq<char>)
    ensures
        check_ifname(encode_utf8(name)) == check_ifname_chars(name),
{
    let bytes = encode_utf8(name);
    lemma_ascii_byte_of_chars(name, '/', 0x2f);
    lemma_ascii_byte_of_chars(name, ' ', 0x20);
    lemma_ascii_byte_of_chars(name, '\x0c', 0x0c);
    lemma_ascii_byte_of_chars(name, '\n', 0x0a);
    lemma_ascii_byte_of_chars(name, '\r', 0x0d);
    lemma_ascii_byte_of_chars(name, '\t', 0x09);
    lemma_ascii_byte_of_chars(name, '\x0b', 0x0b);
    lemma_ascii_byte_of_chars(name, '\0', 0x00);
    let bad_byte = exists|i: int| 0 <= i < bytes.len() && is_forbidden_byte(#[trigger] bytes[i]);
    let bad_char = exists|i: int| 0 <= i < name.len() && is_forbidden_char(#[trigger] name[i]);
    assert(bad_byte == bad_char) by {
        if bad_byte {
            let i = choose|i: int| 0 <= i < bytes.len() && is_forbidden_byte(#[trigger] bytes[i]);
            assert(bytes.contains(bytes[i]));
            let c: char = if bytes[i] == 0x2f {
                '/'
            } else if bytes[i] == 0x20 {
                ' '
            } else if bytes[i] == 0x0c {
                '\x0c'
            } else if bytes[i] == 0x0a {
                '\n'
            } else if bytes[i] == 0x0d {
                '\r'
            } else if bytes[i] == 0x09 {
                '\t'
            } else {
                '\x0b'
            };
            assert(name.contains(c));
            let j = choose|j: int| 0 <= j < name.len() && name[j] == c;
            assert(is_forbidden_char(name[j]));
        }
        if bad_char {
            let j = choose|j: int| 0 <= j < name.len() && is_forbidden_char(#[trigger] name[j]);
            assert(name.contains(name[j]));
            let b: u8 = if name[j] == '/' {
                0x2f
            } else if name[j] == ' ' {
                0x20
            } else if name[j] == '\x0c' {
                0x0c
            } else if name[j] == '\n' {
                0x0a
            } else if name[j] == '\r' {
                0x0d
            } else if name[j] == '\t' {
                0x09
            } else {
                0x0b
            };
            assert(bytes.contains(b));
            let i = choose|i: int| 0 <= i < bytes.len() && bytes[i] == b;
            assert(is_forbidden_byte(bytes[i]));
        }
    }
    let nul_byte = exists|i: int| 0 <= i < bytes.len() && #[trigger] bytes[i] == 0;
    let nul_char = exists|i: int| 0 <= i < name.len() && #[trigger] name[i] == '\0';
    assert(nul_byte == nul_char) by {
        if nul_byte {
            let i = choose|i: int| 0 <= i < bytes.len() && #[trigger] bytes[i] == 0;
            assert(bytes.contains(0u8));
            let j = choose|j: int| 0 <= j < name.len() && name[j] == '\0';
            assert(name[j] == '\0');
        }
        if nul_char {
            let j = choose|j: int| 0 <= j < name.len() && #[trigger] name[j] == '\0';
            assert(name.contains('\0'));
            let i = choose|i: int| 0 <= i < bytes.len() && bytes[i] == 0u8;
            assert(bytes[i] == 0);
        }
    }
}

/// Whether some byte of `bytes` is forbidden in an interface name.
fn has_forbidden_byte(bytes: &[u8]) -> (found: bool)
    ensures
        found == exists|i: int| 0 <= i < bytes@.len() && is_forbidden_byte(#[trigger] bytes@[i]),
{
    let mut i: usize = 0;
    while i < bytes.len()
        invariant
            i <= bytes@.len(),
            forall|j: int| 0 <= j < i ==> !is_forbidden_byte(#[trigger] bytes@[j]),
        decreases bytes@.len() - i,
    {
        let b: u8 = bytes[i];
        if b == 0x2f || b == 0x20 || b == 0x0c || b == 0x0a || b == 0x0d || b == 0x09 || b
            == 0x0b {
            return true;
        }
        i = i + 1;
    }
    false
}

/// Whether some byte of `bytes` is NUL.
fn has_nul(bytes: &[u8]) -> (found: bool)
    ensures
        found == exists|i: int| 0 <= i < bytes@.len() && #[trigger] bytes@[i] == 0,
{
    let mut i: usize = 0;
    while i < bytes.len()
        invariant
            i <= bytes@.len(),
            forall|j: int| 0 <= j < i ==> #[trigger] bytes@[j] != 0,
        decreases bytes@.len() - i,
    {
        if bytes[i] == 0 {
            return true;
        }
        i = i + 1;
    }
    false
}

/// The interface name `ifname` as a C string: its bytes and a terminating
/// NUL. Fails where `ifname` is no interface name.
pub fn ifname_to_cstring(ifname: &str) -> (cstring: Result<Vec<u8>, Error>)
    ensures
        match cstring {
            Ok(c) => check_ifname(ifname.spec_bytes()) is Ok && c@ == ifname.spec_bytes().push(
                0u8,
            ),
            Err(e) => check_ifname(ifname.spec_bytes()) == Err::<(), Error>(e),
        },
        check_ifname(ifname.spec_bytes()) == check_ifname_chars(ifname@),
{
    proof {
        lemma_check_ifname_chars(ifname@);
    }
    let bytes = ifname.as_bytes();
    if bytes.len() >= libc_ifnamsiz() || bytes.len() == 0 {
        return Err(Error::NameLength);
    }
    if has_forbidden_byte(bytes) {
        return Err(Error::NameCharacter);
    }
    if has_nul(bytes) {
        return Err(Error::NameNul);
    }
    let mut cstring: Vec<u8> = Vec::new();
    let mut i: usize = 0;
    while i < bytes.len()
        invariant
            i <= bytes@.len(),
            cstring@ == bytes@.subrange(0, i as int),
        decreases bytes@.len() - i,
    {
        cstring.push(bytes[i]);
        assert(bytes@.subrange(0, i + 1) =~= bytes@.subrange(0, i as int).push(bytes@[i as int]));
        i = i + 1;
    }
    assert(bytes@.subrange(0, i as int) =~= bytes@);
    cstring.push(0);
    Ok(cstring)
}

/// Which of the three operations on `/dev/net/tun` is wanted.
#[derive(Clone, Copy, Debug, PartialEq, Eq, Structural)]
pub enum TapOperation {
    /// Create a persistent TAP interface and let go of it.
    Add,
    /// Remove a persistent TAP interface.
    Delete,
    /// Create a persistent TAP interface and keep it open for frames.
    Open,
}

/// What is asked of `/dev/net/tun` for one interface.
#[derive(Clone, Copy, Debug)]
pub struct TapRequest {
    /// `ifr_name`: the interface name, padded with NUL bytes.
    pub ifr_name: [u8; IFNAMSIZ],
    /// `ifr_flags` for `TUNSETIFF`.
    pub ifr_flags: i16,
    /// Whether the device is opened with `O_NONBLOCK`.
    pub nonblocking: bool,
    /// Argument of `TUNSETPERSIST`: 1 to keep the interface, 0 to remove it.
    pub persist: i32,
    /// Whether the descriptor stays open when all is done.
    pub keep_open: bool,
}

/// The name field of an interface request for `name`: the name, then NUL
/// bytes up to `IFNAMSIZ`.
pub open spec fn ifr_name_spec(name: Seq<u8>) -> Seq<u8> {
    name + Seq::new((IFNAMSIZ - name.len()) as nat, |i: int| 0u8)
}

impl TapRequest {
    /// Whether this is the request for operation `op` on the interface with
    /// the name bytes `name`.
    pub open spec fn is_for(&self, op: TapOperation, name: Seq<u8>) -> bool {
        &&& self.ifr_name@ == ifr_name_spec(name)
        &&& self.ifr_flags == 0x1002
        &&& self.nonblocking == (op is Open)
        &&& self.persist == (if op is Delete {
            0i32
        } else {
            1i32
        })
        &&& self.keep_open == (op is Open)
    }

    /// The request for operation `op` on the interface `ifname`. Fails where
    /// `ifname` is no interface name.
    pub fn new(op: TapOperation, ifname: &str) -> (request: Result<Self, Error>)
        ensures
            match request {
                Ok(r) => check_ifname(ifname.spec_bytes()) is Ok && r.is_for(
                    op,
                    ifname.spec_bytes(),
                ),
                Err(e) => check_ifname(ifname.spec_bytes()) == Err::<(), Error>(e),
            },
    {
        let cstring = match ifname_to_cstring(ifname) {
            Ok(c) => c,
            Err(e) => { return Err(e); },
        };
        let ghost name = ifname.spec_bytes();
        let mut ifr_name: [u8; IFNAMSIZ] = [0;IFNAMSIZ];
        let mut i: usize = 0;
        while i < cstring.len() - 1
            invariant
                cstring@ == name.push(0u8),
                name.len() < IFNAMSIZ,
                i <= name.len(),
                forall|j: int| 0 <= j < i ==> ifr_name@[j] == name[j],
                forall|j: int| i <= j < IFNAMSIZ ==> ifr_name@[j] == 0,
            decreases name.len() - i,
        {
            ifr_name[i] = cstring[i];
            i = i + 1;
        }
        assert(ifr_name@ =~= ifr_name_spec(name));
        let flags: i32 = libc_iff_tap() | libc_iff_no_pi();
        assert(0x0002i32 | 0x1000i32 == 0x1002i32) by (bit_vector);
        let (nonblocking, persist, keep_open): (bool, i32, bool) = match op {
            TapOperation::Add => (false, 1, false),
            TapOperation::Delete => (false, 0, false),
            TapOperation::Open => (true, 1, true),
        };
        Ok(TapRequest { ifr_name, ifr_flags: flags as i16, nonblocking, persist, keep_open })
    }
}

/// An open TAP device: the file descriptor of a configured interface.
#[derive(Debug, Clone, Copy, PartialEq, Eq, Structural)]
pub struct RawTap {
    pub tap_fd: i32,
}

impl RawTap {
    /// The file descriptor.
    pub fn as_raw_fd(&self) -> (fd: i32)
        ensures
            fd == self.tap_fd,
    {
        self.tap_fd
    }
}

/// How far the setting up of a TAP interface has come: which call is under
/// way, or how it ended.
#[derive(Clone, Copy, Debug, PartialEq, Eq, Structural)]
pub enum TapStage {
    /// Nothing has been called yet.
    Start,
    /// `open` of the device is under way.
    Opening,
    /// `ioctl(TUNSETIFF)` on this descriptor is under way.
    SettingIff(i32),
    /// `ioctl(TUNSETPERSIST)` on this descriptor is under way.
    SettingPersist(i32),
    /// `close` of the descriptor is under way, after all went well.
    Closing,
    /// `close` of the descriptor is under way, after an `ioctl` failed with
    /// this `errno`.
    ClosingAfter(i32),
    /// Ended well, with the descriptor closed.
    Finished,
    /// Ended well, with the interface open on this descriptor.
    Opened(i32),
    /// Ended with this error, with no descriptor open.
    Failed(Error),
}

/// What to do next when setting up a TAP interface.
#[derive(Clone, Copy, Debug, PartialEq, Eq, Structural)]
pub enum TapAction {
    /// Open `/dev/net/tun` for reading and writing.
    Open { nonblocking: bool },
    /// Call `ioctl(fd, TUNSETIFF, ifr)` with the request's name and flags.
    SetIff { fd: i32 },
    /// Call `ioctl(fd, TUNSETPERSIST, value)`.
    SetPersist { fd: i32, value: i32 },
    /// Close the descriptor.
    Close { fd: i32 },
    /// All done; the descriptor has been closed.
    Finished,
    /// All done; the interface is open on this descriptor.
    Opened(RawTap),
    /// Given up; the descriptor, if there was one, has been closed.
    Failed(Error),
}

/// The calls that set up a TAP interface, one after the other: open the
/// device, `TUNSETIFF`, `TUNSETPERSIST`, then close unless the descriptor is
/// kept. A call that fails ends it; after a failed `ioctl` the descriptor is
/// closed first.
#[derive(Clone, Copy, Debug)]
pub struct TapSetup {
    request: TapRequest,
    stage: TapStage,
}

/// The stage that follows `stage` and the action to take there, when the
/// call under way returned `ret` and, if it failed, left `errno`. Once the
/// setup has ended, it stays as it ended.
pub open spec fn tap_step_spec(request: TapRequest, stage: TapStage, ret: i32, errno: i32) -> (
    TapStage,
    TapAction,
) {
    match stage {
        TapStage::Start => (
            TapStage::Opening,
            TapAction::Open { nonblocking: request.nonblocking },
        ),
        TapStage::Opening => if ret < 0 {
            (TapStage::Failed(Error::Os(errno)), TapAction::Failed(Error::Os(errno)))
        } else {
            (TapStage::SettingIff(ret), TapAction::SetIff { fd: ret })
        },
        TapStage::SettingIff(fd) => if ret < 0 {
            (TapStage::ClosingAfter(errno), TapAction::Close { fd })
        } else {
            (TapStage::SettingPersist(fd), TapAction::SetPersist { fd, value: request.persist })
        },
        TapStage::SettingPersist(fd) => if ret < 0 {
            (TapStage::ClosingAfter(errno), TapAction::Close { fd })
        } else if request.keep_open {
            (TapStage::Opened(fd), TapAction::Opened(RawTap { tap_fd: fd }))
        } else {
            (TapStage::Closing, TapAction::Close { fd })
        },
        TapStage::Closing => (TapStage::Finished, TapAction::Finished),
        TapStage::ClosingAfter(e) => (
            TapStage::Failed(Error::Os(e)),
            TapAction::Failed(Error::Os(e)),
        ),
        TapStage::Finished => (TapStage::Finished, TapAction::Finished),
        TapStage::Opened(fd) => (TapStage::Opened(fd), TapAction::Opened(RawTap { tap_fd: fd })),
        TapStage::Failed(e) => (TapStage::Failed(e), TapAction::Failed(e)),
    }
}

/// The descriptor that is open while the setup is at `stage`, if one is.
pub open spec fn open_descriptor(stage: TapStage) -> Option<i32> {
    match stage {
        TapStage::SettingIff(fd) => Some(fd),
        TapStage::SettingPersist(fd) => Some(fd),
        TapStage::Opened(fd) => Some(fd),
        _ => None,
    }
}

/// Whether the setup has ended at `stage`.
pub open spec fn has_ended(stage: TapStage) -> bool {
    stage is Finished || stage is Opened || stage is Failed
}

impl TapSetup {
    /// The request being carried out.
    pub closed spec fn request(&self) -> TapRequest {
        self.request
    }

    /// The call under way, or how the setup ended.
    pub closed spec fn stage(&self) -> TapStage {
        self.stage
    }

    /// A setup for `request`, with nothing called yet.
    pub fn new(request: TapRequest) -> (setup: Self)
        ensures
            setup.request() == request,
            setup.stage() == TapStage::Start,
    {
        TapSetup { request, stage: TapStage::Start }
    }

    /// Takes the outcome of the call under way, its return value `ret` and
    /// the `errno` it left, and says what to do next. At the start there is
    /// no call under way, and once the setup has ended there is none either:
    /// `ret` and `errno` are then not looked at.
    pub fn step(&mut self, ret: i32, errno: i32) -> (action: TapAction)
        ensures
            final(self).request() == old(self).request(),
            (final(self).stage(), action) == tap_step_spec(
                old(self).request(),
                old(self).stage(),
                ret,
                errno,
            ),
    {
        let (stage, action): (TapStage, TapAction) = match self.stage {
            TapStage::Start => (
                TapStage::Opening,
                TapAction::Open { nonblocking: self.request.nonblocking },
            ),
            TapStage::Opening => if ret < 0 {
                (TapStage::Failed(Error::Os(errno)), TapAction::Failed(Error::Os(errno)))
            } else {
                (TapStage::SettingIff(ret), TapAction::SetIff { fd: ret })
            },
            TapStage::SettingIff(fd) => if ret < 0 {
                (TapStage::ClosingAfter(errno), TapAction::Close { fd })
            } else {
                (
                    TapStage::SettingPersist(fd),
                    TapAction::SetPersist { fd, value: self.request.persist },
                )
            },
            TapStage::SettingPersist(fd) => if ret < 0 {
                (TapStage::ClosingAfter(errno), TapAction::Close { fd })
            } else if self.request.keep_open {
                (TapStage::Opened(fd), TapAction::Opened(RawTap { tap_fd: fd }))
            } else {
                (TapStage::Closing, TapAction::Close { fd })
            },
            TapStage::Closing => (TapStage::Finished, TapAction::Finished),
            TapStage::ClosingAfter(e) => (
                TapStage::Failed(Error::Os(e)),
                TapAction::Failed(Error::Os(e)),
            ),
            TapStage::Finished => (TapStage::Finished, TapAction::Finished),
            TapStage::Opened(fd) => (
                TapStage::Opened(fd),
                TapAction::Opened(RawTap { tap_fd: fd }),
            ),
            TapStage::Failed(e) => (TapStage::Failed(e), TapAction::Failed(e)),
        };
        self.stage = stage;
        action
    }
}

/// No descriptor is lost and none is closed twice: a descriptor that is
/// open stays open until the step that asks for its closing, a step asks
/// for the closing of the open descriptor only, and a descriptor comes to be
/// open only by the opening of the device.
pub proof fn lemma_descriptor_closed_once(
    request: TapRequest,
    stage: TapStage,
    ret: i32,
    errno: i32,
)
    ensures
        ({
            let (next, action) = tap_step_spec(request, stage, ret, errno);
            &&& open_descriptor(stage) matches Some(fd) ==> open_descriptor(next) == Some(fd)
                || action == (TapAction::Close { fd })
            &&& action matches TapAction::Close { fd } ==> open_descriptor(stage) == Some(fd)
                && open_descriptor(next) is None
            &&& open_descriptor(stage) is None && open_descriptor(next) is Some ==> stage
                is Opening && ret >= 0 && open_descriptor(next) == Some(ret)
        }),
{
}

/// The setup ends with the descriptor open only where the request keeps
/// it, and ends in failure with no descriptor open; once ended, it stays as
/// it ended.
pub proof fn lemma_setup_ends(request: TapRequest, stage: TapStage, ret: i32, errno: i32)
    ensures
        ({
            let (next, action) = tap_step_spec(request, stage, ret, errno);
            &&& has_ended(stage) ==> next == stage
            &&& !has_ended(stage) && next is Opened ==> request.keep_open
            &&& !has_ended(stage) && next is Finished ==> stage is Closing
            &&& next is Failed ==> open_descriptor(next) is None
            &&& has_ended(next) == (action is Finished || action is Opened || action is Failed)
        }),
{
}

} // verus!
