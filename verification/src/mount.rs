//! The rootfs switcher: pivots the mount namespace's root onto the prepared
//! root filesystem.
//!
//! The pivot passes the same path as both the new-root and the put-old
//! argument — a deliberate trick that mounts the old root on top of the new
//! root's own mount point, where a lazy unmount of `/` then drops it without
//! requiring it to be idle.  The working directory is moved to the opened
//! new-root descriptor afterwards, so the process stands inside the new root
//! whatever path resolution would say.  Both directory descriptors are
//! released before returning; the old-root descriptor is opened only to
//! validate that the old root was a readable directory.

use vstd::prelude::*;
use crate::error::{Error, ErrorKind};
use crate::sys::{sys_close, sys_fchdir, sys_open, sys_pivot_root, sys_umount_detach, OPEN_DIRECTORY};

verus! {

/// Replaces the root mount with the directory at `path` and steps into it.
/// `path` must already be inside a freshly unshared mount namespace.
pub fn do_pivot_root(path: &str) -> (r: Result<(), Error>)
    ensures
        r matches Err(e) ==> e.kind == ErrorKind::Nix,
{
    let old_root = match sys_open("/", OPEN_DIRECTORY) {
        Ok(fd) => fd,
        Err(e) => { return Err(e); },
    };
    let new_root = match sys_open(path, OPEN_DIRECTORY) {
        Ok(fd) => fd,
        Err(e) => {
            let _ = sys_close(old_root);
            return Err(e);
        },
    };
    match sys_pivot_root(path, path) {
        Ok(()) => (),
        Err(e) => {
            let _ = sys_close(new_root);
            let _ = sys_close(old_root);
            return Err(e);
        },
    }
    match sys_umount_detach("/") {
        Ok(()) => (),
        Err(e) => {
            let _ = sys_close(new_root);
            let _ = sys_close(old_root);
            return Err(e);
        },
    }
    match sys_fchdir(new_root) {
        Ok(()) => (),
        Err(e) => {
            let _ = sys_close(new_root);
            let _ = sys_close(old_root);
            return Err(e);
        },
    }
    let _ = sys_close(new_root);
    let _ = sys_close(old_root);
    Ok(())
}

} // verus!
