//! The synchronization barrier: one anonymous close-on-exec pipe whose two
//! ends are inherited across a fork.  No payload is ever transmitted;
//! readiness is signalled by closing descriptors.
//!
//! - `wait` closes the local write end, reads until it observes end of file
//!   (every write end gone, i.e. the peer has notified), then closes the
//!   read end.
//! - `notify` closes both local descriptors.
//!
//! Both take the barrier by value, so each descriptor is closed exactly once
//! per process: a second wait or notify on the same barrier does not compile.
//! There is no timeout: a peer that never notifies leaves `wait` blocked —
//! an accepted property of the protocol, not a defect to patch here.

use vstd::prelude::*;
use crate::error::{Error, ErrorKind};
use crate::sys::{sys_close, sys_pipe2_cloexec, sys_read};

verus! {

/// One direction of the fork barrier: a pipe's read and write descriptors.
#[derive(Debug)]
pub struct Pipe {
    rfd: i32,
    wfd: i32,
}

impl Pipe {
    /// Creates the pipe pair, close-on-exec.
    pub fn new() -> (r: Result<Pipe, Error>)
        ensures
            r matches Err(e) ==> e.kind == ErrorKind::Nix,
    {
        match sys_pipe2_cloexec() {
            Ok(p) => Ok(Pipe { rfd: p.0, wfd: p.1 }),
            Err(e) => Err(e),
        }
    }

    /// Blocks until the peer has notified: closes the local write end, reads
    /// until end of file, then closes the read end.
    ///
    /// The reads are counted down from a bound far beyond any real trace —
    /// the protocol transmits nothing, so the very first read is expected to
    /// return end of file; the bound only satisfies the termination check.
    pub fn wait(self) -> (r: Result<(), Error>)
        ensures
            r matches Err(e) ==> e.kind == ErrorKind::Nix || e.kind == ErrorKind::Io,
    {
        match sys_close(self.wfd) {
            Ok(()) => (),
            Err(e) => { return Err(e); },
        }
        let mut buf: Vec<u8> = vec![0u8];
        let mut fuel: u64 = 0xffff_ffff_ffff_ffff;
        while fuel > 0
            invariant
                buf@.len() == 1,
            decreases fuel,
        {
            match sys_read(self.rfd, &mut buf) {
                Ok(n) => {
                    if n == 0 {
                        return sys_close(self.rfd);
                    }
                },
                Err(e) => { return Err(e); },
            }
            fuel -= 1;
        }
        Err(Error::new(ErrorKind::Io))
    }

    /// Signals readiness to the peer by closing both local descriptors; the
    /// peer's blocked `wait` then observes end of file.
    pub fn notify(self) -> (r: Result<(), Error>)
        ensures
            r matches Err(e) ==> e.kind == ErrorKind::Nix,
    {
        match sys_close(self.rfd) {
            Ok(()) => (),
            Err(e) => { return Err(e); },
        }
        sys_close(self.wfd)
    }
}

} // verus!
