//! Existence probe: decides whether a named tool is already resolvable on the
//! executable search path, and prints the human-readable status line.
//!
//! The probe is the idempotence gate of the installer: a tool that already
//! resolves is never enqueued for download. Whether a name resolves is a
//! property of the machine at the moment of the call, so the probe's result
//! cannot be pinned by a contract; callers hand it to verified decision
//! functions instead.

use vstd::prelude::*;
use vstd::string::*;
use std::io::Write;

verus! {

/// Relies on `which::which`: resolves a name against the executable search
/// path, reporting `false` on any resolution error (missing binary,
/// permission issue) rather than distinguishing causes. The result depends
/// on machine state, so nothing is promised of it.
#[verifier::external_body]
pub fn command_exists(cmd: &str) -> bool {
    which::which(cmd).is_ok()
}

/// Relies on `std::io::Stdout::write_fmt` (through the `writeln` macro):
/// prints one line to standard output.
#[verifier::external_body]
pub(crate) fn print_line(s: &str) {
    let _ = writeln!(std::io::stdout(), "{}", s);
}

/// The mark appended to a "checking" status line.
pub open spec fn spec_check_mark(installed: bool) -> Seq<char> {
    if installed {
        " \u{2713}"@
    } else {
        " \u{2718}"@
    }
}

/// Picks the mark that reports a probe result.
fn check_mark(installed: bool) -> (r: &'static str)
    ensures
        r@ == spec_check_mark(installed),
{
    if installed {
        " \u{2713}"
    } else {
        " \u{2718}"
    }
}

/// Probes whether `cmd` is already installed and prints a one-line
/// "checking" status report with a check or cross mark.
pub fn check_install(cmd: &str) -> (installed: bool) {
    let installed = command_exists(cmd);
    let line = String::from_str("Checking if ").concat(cmd).concat(" is installed..").concat(
        check_mark(installed),
    );
    print_line(line.as_str());
    installed
}

} // verus!
