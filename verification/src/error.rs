//! The errors of this library.

use vstd::prelude::*;
use vstd::string::StringExecFns;

verus! {

/// The broad class of an [`Error`], as an I/O error kind would give it.
#[derive(Debug, Clone, Copy, PartialEq, Eq, Structural)]
pub enum ErrorKind {
    /// An argument was not acceptable; nothing was attempted.
    InvalidInput,
    /// The operating system refused a call.
    Os,
}

/// Why an operation of this library failed.
#[derive(Debug, Clone, Copy, PartialEq, Eq, Structural)]
pub enum Error {
    /// An interface name is empty or does not fit the kernel's name field.
    NameLength,
    /// An interface name holds a slash or white space.
    NameCharacter,
    /// An interface name holds a NUL byte.
    NameNul,
    /// A builder holds no datagram of a size that can be sent.
    InvalidDatagram,
    /// A host name resolved to no address of the wanted IP version.
    NoAddress,
    /// A system call failed with this `errno`.
    Os(i32),
}

impl Error {
    /// The class of this error.
    pub open spec fn spec_kind(&self) -> ErrorKind {
        match self {
            Error::Os(_) => ErrorKind::Os,
            _ => ErrorKind::InvalidInput,
        }
    }

    /// The class of this error.
    #[verifier::when_used_as_spec(spec_kind)]
    pub fn kind(&self) -> (kind: ErrorKind)
        ensures
            kind == self.spec_kind(),
    {
        match self {
            Error::Os(_) => ErrorKind::Os,
            _ => ErrorKind::InvalidInput,
        }
    }

    /// The `errno` of a failed system call, `None` for any other error.
    pub fn raw_os_error(&self) -> (errno: Option<i32>)
        ensures
            errno == (match self {
                Error::Os(code) => Some(*code),
                _ => None,
            }),
    {
        match self {
            Error::Os(code) => Some(*code),
            _ => None,
        }
    }

    /// The text of this error's message.
    pub open spec fn spec_message(&self) -> Seq<char> {
        match self {
            Error::NameLength => "interface name too long or short"@,
            Error::NameCharacter => "interface name contains an invalid character"@,
            Error::NameNul => "interface name contains a NUL byte"@,
            Error::InvalidDatagram => "Invalid EtherIP datagram"@,
            Error::NoAddress => "no address found"@,
            Error::Os(_) => "system call failed"@,
        }
    }

    /// A message for this error.
    pub fn message(&self) -> (text: String)
        ensures
            text@ == self.spec_message(),
    {
        match self {
            Error::NameLength => String::from_str("interface name too long or short"),
            Error::NameCharacter => String::from_str(
                "interface name contains an invalid character",
            ),
            Error::NameNul => String::from_str("interface name contains a NUL byte"),
            Error::InvalidDatagram => String::from_str("Invalid EtherIP datagram"),
            Error::NoAddress => String::from_str("no address found"),
            Error::Os(_) => String::from_str("system call failed"),
        }
    }
}

} // verus!
