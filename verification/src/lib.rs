//! Launch core of a small OCI-style container runtime.
//!
//! The library covers the decision logic of container creation: turning a
//! runtime specification into an ordered namespace plan, the pipe barrier
//! that sequences the two processes of a fork, user-namespace ID-mapping
//! text, the pivot-root sequence, the one-shot start handshake over a Unix
//! socket, and cgroup mount discovery.  Process-level plumbing that Verus
//! cannot check (fork itself, exec, environment calls) lives outside, in a
//! thin driver that executes the plans built here.

pub mod bytes;
pub mod cgroup;
pub mod container;
pub mod error;
pub mod idmap;
pub mod mount;
pub mod ns;
pub mod oci;
pub mod pipe;
pub mod socket;
mod sys;

pub use error::{Error, ErrorKind};
