//! Minikube status queries.
//!
//! The machine status is read by running the `minikube` command line tool and
//! parsing the first line of its report: the status word is the second
//! whitespace-separated token of that line (or the first, when the line holds
//! only one). Parsing is fully verified; only the process execution itself is
//! delegated to the pipeline module.

use vstd::prelude::*;
use vstd::string::*;

use crate::process::{Command, Error};

verus! {

/// Status of the development Minikube machine.
#[derive(Clone, Copy, Debug, PartialEq, Eq, Structural)]
pub enum MinikubeStatus {
    Running,
    Stopped,
    Unknown,
}

/// ASCII whitespace, as the tokenizer understands it.
pub open spec fn is_space(c: char) -> bool {
    c == ' ' || c == '\t' || c == '\n' || c == '\r' || c == '\x0b' || c == '\x0c'
}

/// The first position at or after `from` whose character's whitespace-ness
/// equals `want_space`, or the length of `s` if there is none.
pub open spec fn scan_from(s: Seq<char>, from: int, want_space: bool) -> int
    recommends
        0 <= from <= s.len(),
    decreases s.len() - from,
{
    if from >= s.len() {
        s.len() as int
    } else if is_space(s[from]) == want_space {
        from
    } else {
        scan_from(s, from + 1, want_space)
    }
}

/// The position of the first line break at or after `from`, or the length of
/// `s` if there is none.
pub open spec fn line_break(s: Seq<char>, from: int) -> int
    recommends
        0 <= from <= s.len(),
    decreases s.len() - from,
{
    if from >= s.len() {
        s.len() as int
    } else if s[from] == '\n' {
        from
    } else {
        line_break(s, from + 1)
    }
}

/// The status word of a report: within the first line, the second
/// whitespace-separated token, or the first when there is only one, or the
/// empty sequence when the line is blank.
pub open spec fn spec_status_token(out: Seq<char>) -> Seq<char> {
    let line = out.take(line_break(out, 0));
    let a = scan_from(line, 0, false);
    let b = scan_from(line, a, true);
    let c = scan_from(line, b, false);
    let d = scan_from(line, c, true);
    if c < line.len() as int {
        line.subrange(c, d)
    } else if a < line.len() as int {
        line.subrange(a, b)
    } else {
        Seq::empty()
    }
}

/// The machine status a report describes.
pub open spec fn spec_minikube_status(out: Seq<char>) -> MinikubeStatus {
    if spec_status_token(out) == "Running"@ {
        MinikubeStatus::Running
    } else if spec_status_token(out) == "Stopped"@ {
        MinikubeStatus::Stopped
    } else {
        MinikubeStatus::Unknown
    }
}

/// Whether a character is ASCII whitespace.
fn is_space_ch(c: char) -> (b: bool)
    ensures
        b == is_space(c),
{
    c == ' ' || c == '\t' || c == '\n' || c == '\r' || c == '\x0b' || c == '\x0c'
}

/// Finds the first position at or after `from` whose whitespace-ness equals
/// `want_space`.
fn scan_pos(s: &str, from: usize, want_space: bool) -> (r: usize)
    requires
        from <= s@.len(),
    ensures
        r == scan_from(s@, from as int, want_space),
        from <= r <= s@.len(),
{
    let n = s.unicode_len();
    let mut i = from;
    while i < n && is_space_ch(s.get_char(i)) != want_space
        invariant
            from <= i <= n,
            n == s@.len(),
            scan_from(s@, from as int, want_space) == scan_from(s@, i as int, want_space),
        decreases n - i,
    {
        i = i + 1;
    }
    i
}

/// Finds the first line break of `s`.
fn line_break_pos(s: &str) -> (r: usize)
    ensures
        r == line_break(s@, 0),
        r <= s@.len(),
{
    let n = s.unicode_len();
    let mut i: usize = 0;
    while i < n && s.get_char(i) != '\n'
        invariant
            i <= n,
            n == s@.len(),
            line_break(s@, 0) == line_break(s@, i as int),
        decreases n - i,
    {
        i = i + 1;
    }
    i
}

/// Parses a status report into the machine status it describes.
pub fn parse_minikube_status(out: &str) -> (st: MinikubeStatus)
    ensures
        st == spec_minikube_status(out@),
{
    let l = line_break_pos(out);
    let line = out.substring_char(0, l);
    let a = scan_pos(line, 0, false);
    let b = scan_pos(line, a, true);
    let c = scan_pos(line, b, false);
    let d = scan_pos(line, c, true);
    let n = line.unicode_len();
    let tok: &str = if c < n {
        line.substring_char(c, d)
    } else if a < n {
        line.substring_char(a, b)
    } else {
        ""
    };
    proof {
        reveal_strlit("");
        assert(line@ =~= out@.take(line_break(out@, 0)));
        assert(tok@ =~= spec_status_token(out@));
    }
    let tok_owned = tok.to_owned();
    if tok_owned == String::from_str("Running") {
        MinikubeStatus::Running
    } else if tok_owned == String::from_str("Stopped") {
        MinikubeStatus::Stopped
    } else {
        MinikubeStatus::Unknown
    }
}

/// Queries the status of the development Minikube machine by running
/// `minikube --profile=mav status` and parsing its report. A non-zero exit
/// status is an expected outcome (it reports an absent machine), so only a
/// spawn or capture failure is an error.
pub fn get_minikube_status() -> (r: Result<MinikubeStatus, Error>)
    ensures
        r matches Err(e) ==> e matches Error::Io(_),
{
    let cmd = Command::new(
        String::from_str("minikube"),
        vec![String::from_str("--profile=mav"), String::from_str("status")],
    );
    match cmd.read_unchecked() {
        Ok(s) => Ok(parse_minikube_status(s.as_str())),
        Err(e) => Err(e),
    }
}

/// Reads the IP address of the development Minikube machine by running
/// `minikube --profile=mav ip`; here a non-zero exit status is a failure.
pub fn get_minikube_ip() -> (r: Result<String, Error>)
    ensures
        r matches Err(Error::CommandFailed(c)) ==> c != 0,
{
    let cmd = Command::new(
        String::from_str("minikube"),
        vec![String::from_str("--profile=mav"), String::from_str("ip")],
    );
    cmd.read()
}

} // verus!
