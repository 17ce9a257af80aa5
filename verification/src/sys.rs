//! Trusted wrappers around the kernel interface of the `nix` crate, and one
//! around `std`'s UTF-8 decoding.  Each wrapper holds exactly one outside
//! call; a failed call is mapped to this library's error type, carrying the
//! OS error number.  Verified code reasons over these contracts only.

use vstd::prelude::*;
use crate::bytes::{all_ascii, ascii_chars};
use crate::error::{Error, ErrorKind};

verus! {

/// Open flag: write-only.
pub const OPEN_WRONLY: i32 = 0x1;
/// Open flag: fail unless the path is a directory.
pub const OPEN_DIRECTORY: i32 = 0x10000;
/// Relies on nix::fcntl::open: opens `path` with the given flag bits and no
/// creation mode, returning the new descriptor.
#[verifier::external_body]
pub(crate) fn sys_open(path: &str, flag_bits: i32) -> (r: Result<i32, Error>)
    ensures
        r matches Err(e) ==> e.kind == ErrorKind::Nix,
{
    let flags = nix::fcntl::OFlag::from_bits_truncate(flag_bits);
    match nix::fcntl::open(path, flags, nix::sys::stat::Mode::empty()) {
        Ok(fd) => Ok(fd),
        Err(e) => Err(Error::in_op(ErrorKind::Nix, e as i32, "open")),
    }
}

/// Relies on nix::unistd::read: reads into the buffer in place, returning how
/// many bytes were filled — 0 only at end of file.  The buffer keeps its
/// length; what the kernel wrote into it is not specified.
#[verifier::external_body]
pub(crate) fn sys_read(fd: i32, buf: &mut Vec<u8>) -> (r: Result<usize, Error>)
    ensures
        final(buf)@.len() == old(buf)@.len(),
        r matches Ok(n) ==> n <= old(buf)@.len(),
        r matches Err(e) ==> e.kind == ErrorKind::Nix,
{
    match nix::unistd::read(fd, buf.as_mut_slice()) {
        Ok(n) => Ok(n),
        Err(e) => Err(Error::in_op(ErrorKind::Nix, e as i32, "read")),
    }
}

/// Relies on nix::unistd::write: writes the buffer once, returning how many
/// bytes the kernel accepted, at most the buffer's length.
#[verifier::external_body]
pub(crate) fn sys_write(fd: i32, data: &[u8]) -> (r: Result<usize, Error>)
    ensures
        r matches Ok(n) ==> n <= data@.len(),
        r matches Err(e) ==> e.kind == ErrorKind::Nix,
{
    match nix::unistd::write(fd, data) {
        Ok(n) => Ok(n),
        Err(e) => Err(Error::in_op(ErrorKind::Nix, e as i32, "write")),
    }
}

/// Relies on nix::unistd::close: releases the descriptor.
#[verifier::external_body]
pub(crate) fn sys_close(fd: i32) -> (r: Result<(), Error>)
    ensures
        r matches Err(e) ==> e.kind == ErrorKind::Nix,
{
    match nix::unistd::close(fd) {
        Ok(()) => Ok(()),
        Err(e) => Err(Error::in_op(ErrorKind::Nix, e as i32, "close")),
    }
}

/// Relies on nix::unistd::pipe2: creates a close-on-exec pipe, returning
/// (read end, write end).
#[verifier::external_body]
pub(crate) fn sys_pipe2_cloexec() -> (r: Result<(i32, i32), Error>)
    ensures
        r matches Err(e) ==> e.kind == ErrorKind::Nix,
{
    match nix::unistd::pipe2(nix::fcntl::OFlag::O_CLOEXEC) {
        Ok(p) => Ok(p),
        Err(e) => Err(Error::in_op(ErrorKind::Nix, e as i32, "pipe2")),
    }
}

/// Relies on nix::unistd::chdir: changes the working directory to `path`.
#[verifier::external_body]
pub(crate) fn sys_chdir(path: &str) -> (r: Result<(), Error>)
    ensures
        r matches Err(e) ==> e.kind == ErrorKind::Nix,
{
    match nix::unistd::chdir(path) {
        Ok(()) => Ok(()),
        Err(e) => Err(Error::in_op(ErrorKind::Nix, e as i32, "chdir")),
    }
}

/// Relies on nix::unistd::fchdir: changes the working directory to the one
/// behind the open descriptor.
#[verifier::external_body]
pub(crate) fn sys_fchdir(fd: i32) -> (r: Result<(), Error>)
    ensures
        r matches Err(e) ==> e.kind == ErrorKind::Nix,
{
    match nix::unistd::fchdir(fd) {
        Ok(()) => Ok(()),
        Err(e) => Err(Error::in_op(ErrorKind::Nix, e as i32, "fchdir")),
    }
}

/// Relies on nix::unistd::mkdir: creates the directory with mode 0755,
/// failing (EEXIST) if it already exists.
#[verifier::external_body]
pub(crate) fn sys_mkdir(path: &str) -> (r: Result<(), Error>)
    ensures
        r matches Err(e) ==> e.kind == ErrorKind::Nix,
{
    let mode = nix::sys::stat::Mode::from_bits_truncate(0o755);
    match nix::unistd::mkdir(path, mode) {
        Ok(()) => Ok(()),
        Err(e) => Err(Error::in_op(ErrorKind::Nix, e as i32, "mkdir")),
    }
}

/// Relies on nix::sched::unshare: creates new namespaces of the kinds given
/// by the clone-flag bits for the calling process.
#[verifier::external_body]
pub(crate) fn sys_unshare(flag_bits: i32) -> (r: Result<(), Error>)
    ensures
        r matches Err(e) ==> e.kind == ErrorKind::Nix,
{
    let flags = nix::sched::CloneFlags::from_bits_truncate(flag_bits);
    match nix::sched::unshare(flags) {
        Ok(()) => Ok(()),
        Err(e) => Err(Error::in_op(ErrorKind::Nix, e as i32, "unshare")),
    }
}

/// Relies on nix::sched::setns: joins the namespace behind the open
/// descriptor, checked against the kind given by the clone-flag bits.
#[verifier::external_body]
pub(crate) fn sys_setns(fd: i32, flag_bits: i32) -> (r: Result<(), Error>)
    ensures
        r matches Err(e) ==> e.kind == ErrorKind::Nix,
{
    let flags = nix::sched::CloneFlags::from_bits_truncate(flag_bits);
    match nix::sched::setns(fd, flags) {
        Ok(()) => Ok(()),
        Err(e) => Err(Error::in_op(ErrorKind::Nix, e as i32, "setns")),
    }
}

/// Relies on nix::unistd::sethostname: sets the UTS-namespace hostname.
#[verifier::external_body]
pub(crate) fn sys_sethostname(name: &str) -> (r: Result<(), Error>)
    ensures
        r matches Err(e) ==> e.kind == ErrorKind::Nix,
{
    match nix::unistd::sethostname(name) {
        Ok(()) => Ok(()),
        Err(e) => Err(Error::in_op(ErrorKind::Nix, e as i32, "sethostname")),
    }
}

/// Relies on nix::unistd::pivot_root: makes `new_root` the root mount,
/// relocating the old root onto `put_old`.
#[verifier::external_body]
pub(crate) fn sys_pivot_root(new_root: &str, put_old: &str) -> (r: Result<(), Error>)
    ensures
        r matches Err(e) ==> e.kind == ErrorKind::Nix,
{
    match nix::unistd::pivot_root(new_root, put_old) {
        Ok(()) => Ok(()),
        Err(e) => Err(Error::in_op(ErrorKind::Nix, e as i32, "pivot_root")),
    }
}

/// Relies on nix::mount::umount2 with MNT_DETACH: lazily unmounts `path`.
#[verifier::external_body]
pub(crate) fn sys_umount_detach(path: &str) -> (r: Result<(), Error>)
    ensures
        r matches Err(e) ==> e.kind == ErrorKind::Nix,
{
    match nix::mount::umount2(path, nix::mount::MntFlags::MNT_DETACH) {
        Ok(()) => Ok(()),
        Err(e) => Err(Error::in_op(ErrorKind::Nix, e as i32, "umount2")),
    }
}

/// Relies on nix::unistd::setsid: starts a new session, returning its id.
#[verifier::external_body]
pub(crate) fn sys_setsid() -> (r: Result<i32, Error>)
    ensures
        r matches Err(e) ==> e.kind == ErrorKind::Nix,
{
    match nix::unistd::setsid() {
        Ok(pid) => Ok(pid.as_raw()),
        Err(e) => Err(Error::in_op(ErrorKind::Nix, e as i32, "setsid")),
    }
}

/// Relies on nix::sys::socket::socket: creates a Unix-domain stream socket.
#[verifier::external_body]
pub(crate) fn sys_socket_unix_stream() -> (r: Result<i32, Error>)
    ensures
        r matches Err(e) ==> e.kind == ErrorKind::Nix,
{
    match nix::sys::socket::socket(
        nix::sys::socket::AddressFamily::Unix,
        nix::sys::socket::SockType::Stream,
        nix::sys::socket::SockFlag::empty(),
        None,
    ) {
        Ok(fd) => Ok(fd),
        Err(e) => Err(Error::in_op(ErrorKind::Nix, e as i32, "socket")),
    }
}

/// Relies on nix::sys::socket::bind (the path is turned into a socket
/// address by nix::sys::socket::UnixAddr::new): binds the socket to the
/// filesystem path.
#[verifier::external_body]
pub(crate) fn sys_bind_unix(fd: i32, path: &str) -> (r: Result<(), Error>)
    ensures
        r matches Err(e) ==> e.kind == ErrorKind::Nix,
{
    let addr = match nix::sys::socket::UnixAddr::new(path) {
        Ok(a) => a,
        Err(e) => return Err(Error::in_op(ErrorKind::Nix, e as i32, "bind")),
    };
    match nix::sys::socket::bind(fd, &addr) {
        Ok(()) => Ok(()),
        Err(e) => Err(Error::in_op(ErrorKind::Nix, e as i32, "bind")),
    }
}

/// Relies on nix::sys::socket::listen: marks the socket as accepting
/// connections, with the given backlog.
#[verifier::external_body]
pub(crate) fn sys_listen(fd: i32, backlog: usize) -> (r: Result<(), Error>)
    ensures
        r matches Err(e) ==> e.kind == ErrorKind::Nix,
{
    match nix::sys::socket::listen(fd, backlog) {
        Ok(()) => Ok(()),
        Err(e) => Err(Error::in_op(ErrorKind::Nix, e as i32, "listen")),
    }
}

/// Relies on nix::sys::socket::accept: blocks until a peer connects,
/// returning the connection's descriptor.
#[verifier::external_body]
pub(crate) fn sys_accept(fd: i32) -> (r: Result<i32, Error>)
    ensures
        r matches Err(e) ==> e.kind == ErrorKind::Nix,
{
    match nix::sys::socket::accept(fd) {
        Ok(afd) => Ok(afd),
        Err(e) => Err(Error::in_op(ErrorKind::Nix, e as i32, "accept")),
    }
}

/// Relies on nix::sys::socket::connect (the path is turned into a socket
/// address by nix::sys::socket::UnixAddr::new): connects the socket to the
/// listener at the filesystem path.
#[verifier::external_body]
pub(crate) fn sys_connect_unix(fd: i32, path: &str) -> (r: Result<(), Error>)
    ensures
        r matches Err(e) ==> e.kind == ErrorKind::Nix,
{
    let addr = match nix::sys::socket::UnixAddr::new(path) {
        Ok(a) => a,
        Err(e) => return Err(Error::in_op(ErrorKind::Nix, e as i32, "connect")),
    };
    match nix::sys::socket::connect(fd, &addr) {
        Ok(()) => Ok(()),
        Err(e) => Err(Error::in_op(ErrorKind::Nix, e as i32, "connect")),
    }
}

/// Relies on String::from_utf8_lossy: UTF-8 is ASCII-compatible, so a buffer
/// of 7-bit bytes decodes to exactly those bytes' characters.
#[verifier::external_body]
pub(crate) fn ascii_to_string(bytes: &[u8]) -> (r: String)
    requires
        all_ascii(bytes@),
    ensures
        r@ == ascii_chars(bytes@),
{
    String::from_utf8_lossy(bytes).into_owned()
}

} // verus!
