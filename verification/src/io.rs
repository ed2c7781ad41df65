//! Results of operations that may have to wait or may fail.

use crate::text::{push_signed, signed_text};
use vstd::prelude::*;

verus! {

/// What polling an operation gives: its result, or word that the task has to wait.
#[derive(Debug, PartialEq, Eq)]
pub enum Poll<T> {
    Ready(T),
    Pending,
}

/// The kinds of failure that the library itself reports.
#[derive(Clone, Copy, Debug, PartialEq, Eq, Structural)]
pub enum ErrorKind {
    ConnectionRefused,
    ConnectionReset,
    TimedOut,
    Other,
}

/// A failure. `E` is the type of the errors that the operating system reports.
#[derive(Debug, PartialEq, Eq)]
pub enum Error<E> {
    /// libutp reported a failure of this kind on a socket.
    Socket(ErrorKind),
    /// libutp would not start a connection.
    Connect,
    /// Looking up an address ended with this code.
    Lookup(i32),
    /// The operating system reported a failure.
    Os(E),
}

impl<E> Error<E> {
    /// The kind of a failure that the operating system did not report.
    pub open spec fn spec_kind(self) -> Option<ErrorKind> {
        match self {
            Error::Socket(kind) => Some(kind),
            Error::Connect => Some(ErrorKind::Other),
            Error::Lookup(_) => Some(ErrorKind::Other),
            Error::Os(_) => None,
        }
    }

    /// The message of a failure that has one of its own.
    pub open spec fn spec_message(self) -> Option<Seq<char>> {
        match self {
            Error::Connect => Some("utp_connect returned non-zero error code"@),
            Error::Lookup(code) => Some(
                "Failed to look up address information: getaddrinfo error code = "@ + signed_text(
                    code as int,
                ),
            ),
            _ => None,
        }
    }

    /// The kind of the failure; none where the operating system reported it.
    pub fn kind(&self) -> (kind: Option<ErrorKind>)
        ensures
            kind == self.spec_kind(),
    {
        match self {
            Error::Socket(kind) => Some(*kind),
            Error::Connect => Some(ErrorKind::Other),
            Error::Lookup(_) => Some(ErrorKind::Other),
            Error::Os(_) => None,
        }
    }

    /// The message of the failure; none where its kind or the operating system's error says all.
    pub fn message(&self) -> (message: Option<String>)
        ensures
            message is Some == self.spec_message() is Some,
            message is Some ==> message->0@ == self.spec_message()->0,
    {
        match self {
            Error::Connect => {
                let mut s = String::new();
                s.append("utp_connect returned non-zero error code");
                Some(s)
            },
            Error::Lookup(code) => {
                let mut s = String::new();
                s.append("Failed to look up address information: getaddrinfo error code = ");
                push_signed(&mut s, *code);
                assert(s@
                    =~= "Failed to look up address information: getaddrinfo error code = "@
                    + signed_text(*code as int));
                Some(s)
            },
            _ => None,
        }
    }
}

} // verus!
