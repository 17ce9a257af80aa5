//! The control-socket handshake: a one-shot rendezvous over a Unix-domain
//! stream socket that gates the created→running transition.
//!
//! Server side (the container process): bind, listen with a backlog of one,
//! block on accept, read and discard the trigger byte, close both ends.
//! Client side (the start operation): connect, write a single byte, close.
//! Nothing else ever travels over this socket.

use vstd::prelude::*;
use crate::error::{Error, ErrorKind};
use crate::sys::{
    sys_accept, sys_bind_unix, sys_close, sys_connect_unix, sys_listen, sys_read,
    sys_socket_unix_stream, sys_write,
};

verus! {

/// Blocks until a peer connects to the socket at `path` and sends at least
/// one byte, then tears the socket down.  Returns only after that trigger —
/// or with the first syscall failure.
pub fn await_start_trigger(path: &str) -> (r: Result<(), Error>)
    ensures
        r matches Err(e) ==> e.kind == ErrorKind::Nix,
{
    let sfd = match sys_socket_unix_stream() {
        Ok(fd) => fd,
        Err(e) => { return Err(e); },
    };
    match sys_bind_unix(sfd, path) {
        Ok(()) => (),
        Err(e) => { return Err(e); },
    }
    match sys_listen(sfd, 1) {
        Ok(()) => (),
        Err(e) => { return Err(e); },
    }
    let afd = match sys_accept(sfd) {
        Ok(fd) => fd,
        Err(e) => { return Err(e); },
    };
    let mut buf: Vec<u8> = vec![0u8];
    match sys_read(afd, &mut buf) {
        Ok(_) => (),
        Err(e) => { return Err(e); },
    }
    match sys_close(afd) {
        Ok(()) => (),
        Err(e) => { return Err(e); },
    }
    sys_close(sfd)
}

/// Connects to the listener at `path` and writes the single trigger byte,
/// releasing the container blocked in `await_start_trigger`.
pub fn send_start_trigger(path: &str) -> (r: Result<(), Error>)
    ensures
        r matches Err(e) ==> e.kind == ErrorKind::Nix,
{
    let fd = match sys_socket_unix_stream() {
        Ok(fd) => fd,
        Err(e) => { return Err(e); },
    };
    match sys_connect_unix(fd, path) {
        Ok(()) => (),
        Err(e) => { return Err(e); },
    }
    let data: Vec<u8> = vec![0u8];
    match sys_write(fd, data.as_slice()) {
        Ok(n) => {
            if n < 1 {
                let _ = sys_close(fd);
                return Err(Error::in_op(ErrorKind::Nix, 0, "write"));
            }
        },
        Err(e) => { return Err(e); },
    }
    sys_close(fd)
}

} // verus!
