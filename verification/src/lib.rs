//! Verified core of the KernelSU userspace daemon's SUSFS support: the
//! command records exchanged with the kernel, the rules for building and
//! interpreting them, and the persisted SUSFS configuration.

pub mod bytes;
pub mod susfs;
pub mod config;
pub mod restore;
pub mod ksucalls;
pub mod driver;

