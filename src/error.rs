//! The failures that opening a database or looking an address up can report.

use vstd::prelude::*;

verus! {

/// The kind of a failure.
#[derive(Debug, Clone, Copy, PartialEq, Eq, Structural)]
pub enum ErrorKind {
    /// The address string is not an IPv4 or IPv6 address.
    InvalidInput,
    /// The database could not be read or its structure is not valid.
    IOError,
    /// The decoder failed on a lookup for a reason other than absence.
    LookupError,
}

/// A failure, with the decoder's description of its cause where there is one.
#[derive(Debug)]
pub struct Error {
    pub kind: ErrorKind,
    pub message: String,
}

/// The failure that opening a database reports when the decoder refuses it,
/// given the decoder's description: always `IOError`.
pub fn open_error(cause: String) -> (r: Error)
    ensures
        r.kind == ErrorKind::IOError,
        r.message@ == cause@,
{
    Error { kind: ErrorKind::IOError, message: cause }
}

/// The failure that a lookup reports when the decoder fails, given the
/// decoder's description: always `LookupError`.
pub fn lookup_error(cause: String) -> (r: Error)
    ensures
        r.kind == ErrorKind::LookupError,
        r.message@ == cause@,
{
    Error { kind: ErrorKind::LookupError, message: cause }
}

} // verus!
