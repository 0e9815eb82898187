//! Task hand-off between a host process and a short-lived guest virtual
//! machine that share nothing but one directory, the workspace.
//!
//! The host leaves a task descriptor in the workspace and starts the guest.
//! The guest waits until the workspace is mounted, loads the descriptor, runs
//! the caller's callback and leaves exactly one result envelope behind, which
//! the host collects once the guest has shut down.
//!
//! Everything in this crate is pure: the two sides of the protocol are state
//! machines that are told what happened and answer with what to do next.
//! Reading clocks and files, sleeping and starting the hypervisor are left to
//! the program that drives them.

pub mod config;
pub mod decimal;
pub mod descriptor;
pub mod guest;
pub mod guest_laws;
pub mod handoff;
pub mod host;
pub mod host_laws;
pub mod launcher;
pub mod mounts;
pub mod paths;
pub mod text;
