//! A minimal Linux application-container launcher, with its decision logic
//! verified.
//!
//! The library holds everything the runtime decides or computes: parsing the
//! `/etc/subuid` and `/etc/subgid` tables, building the container
//! configuration, the byte protocol of the supervisor/child handshake, the
//! two state machines that order the privileged operations, the capability
//! and seccomp rule selection, and the path arithmetic of the dependency
//! stager. The privileged operations themselves (mounts, namespace calls,
//! file copies, the final `execve`) are performed by a thin unverified
//! driver that obeys the actions these state machines emit.

pub mod bytes;
pub mod caps;
pub mod child;
pub mod config;
pub mod mapping;
pub mod protocol;
pub mod seccomp;
pub mod stage;
pub mod supervisor;
