//! Platform capability value.
//!
//! The operating system is resolved once at startup by the unverified shell
//! around the library and threaded into the components that need it as an
//! explicit value, instead of a process-wide implicit constant.

use vstd::prelude::*;

verus! {

/// The operating systems the bootstrapper distinguishes.
#[derive(Clone, Copy, Debug, PartialEq, Eq, Structural)]
pub enum Os {
    MacOs,
    Linux,
    Windows,
    Other,
}

} // verus!
