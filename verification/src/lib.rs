//! Passing an open file descriptor between processes over a connected
//! Unix-domain socket, using the kernel's ancillary-data channel.
//!
//! This crate holds the verified core: the mapping between descriptor
//! kinds and their small integer tags, the aligned geometry of the
//! control-message buffer, and the strict validation of what the kernel
//! reports on the receiving side. The kernel calls themselves, and the
//! typed handles that own the descriptors, live with the caller.

pub mod protocol;
pub mod types;
pub mod utils;
