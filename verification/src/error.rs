//! Error taxonomy of the runtime: I/O failures, OS/syscall failures, and
//! logical errors caught before any syscall is issued.

use vstd::prelude::*;

verus! {

/// The class of a failure: `Io` for file reads and writes, `Nix` for
/// namespace / mount / socket syscalls, `Invalid` for logical errors such as
/// a duplicate namespace kind or an empty argument list.
#[derive(Clone, Copy, Debug, PartialEq, Eq, Structural)]
pub enum ErrorKind {
    Io,
    Nix,
    Invalid,
}

/// An operation failure: its class, the raw OS error number (0 when none
/// applies), and the name of the operation that was attempted.
#[derive(Clone, Copy, Debug)]
pub struct Error {
    pub kind: ErrorKind,
    pub errno: i32,
    pub op: &'static str,
}

impl Error {
    /// An error of the given class with no OS error number.
    pub fn new(kind: ErrorKind) -> (e: Error)
        ensures
            e.kind == kind,
            e.errno == 0,
    {
        Error { kind, errno: 0, op: "" }
    }

    /// An error of the given class carrying the OS error number.
    pub fn with_errno(kind: ErrorKind, errno: i32) -> (e: Error)
        ensures
            e.kind == kind,
            e.errno == errno,
    {
        Error { kind, errno, op: "" }
    }

    /// An error wrapped with the name of the failed operation.
    pub fn in_op(kind: ErrorKind, errno: i32, op: &'static str) -> (e: Error)
        ensures
            e.kind == kind,
            e.errno == errno,
            e.op == op,
    {
        Error { kind, errno, op }
    }

    /// The class of this error.
    pub fn kind(&self) -> (k: ErrorKind)
        ensures
            k == self.kind,
    {
        self.kind
    }

    /// The OS error number recorded for this error, 0 when none applies.
    pub fn os_errno(&self) -> (n: i32)
        ensures
            n == self.errno,
    {
        self.errno
    }

    /// The name of the operation that failed, empty when none was recorded.
    pub fn operation(&self) -> (s: &'static str)
        ensures
            s == self.op,
    {
        self.op
    }
}

} // verus!
