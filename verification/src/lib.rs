//! Verified core of a developer-environment bootstrapper.
//!
//! The crate builds and executes pipelines of external programs, probes the
//! executable search path, and drives a bounded-concurrency download-and-install
//! queue. Process spawning, path resolution and terminal output are delegated
//! to outside crates behind small trusted wrappers; everything that decides,
//! orders, counts or formats is verified.

pub mod apphelp;
pub mod installer;
pub mod minikube;
pub mod platform;
pub mod runner;
pub mod probe;
pub mod process;
