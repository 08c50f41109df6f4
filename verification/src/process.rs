//! Pipelines of external programs.
//!
//! A [`Command`] is an ordered, inert sequence of stages. Each stage names one
//! external program; a stage is either sequential (it starts only after every
//! earlier stage has completed, whatever their exit statuses were) or piped
//! (its standard input is connected to the immediately preceding stage's
//! standard output). Building a pipeline has no side effect; execution happens
//! only in [`Command::run`], [`Command::read`] and [`Command::read_unchecked`].
//!
//! Executing spawns processes through the `duct` crate. Maximal runs of piped
//! stages form one connected `duct` expression; consecutive groups are executed
//! one after the other by verified code, and the final group's exit status is
//! the status of the whole pipeline.

use vstd::prelude::*;
use vstd::string::*;

verus! {

/// Errors surfaced by pipeline execution.
///
/// `CommandFailed(code)` reports a non-zero final exit status; `code` is the
/// process exit code, or 128 when the process died without one (killed by a
/// signal). `Io(message)` reports a spawn, capture or decoding failure.
#[derive(Debug, PartialEq, Eq)]
pub enum Error {
    CommandFailed(i32),
    Io(String),
}

/// Exit status of one executed process group, as reported by the operating
/// system: `success` holds exactly when the exit code was zero, and `code` is
/// `None` only when the process was terminated by a signal.
#[derive(Clone, Copy, Debug)]
pub struct RunStatus {
    pub success: bool,
    pub code: Option<i32>,
}

/// One external program invocation: a program name and its argument list.
/// Immutable once built.
#[derive(Debug)]
pub struct ProcessSpec {
    pub program: String,
    pub args: Vec<String>,
}

impl View for ProcessSpec {
    type V = (Seq<char>, Seq<Seq<char>>);

    open spec fn view(&self) -> (Seq<char>, Seq<Seq<char>>) {
        (self.program@, self.args.deep_view())
    }
}

impl Clone for ProcessSpec {
    fn clone(&self) -> (r: Self)
        ensures
            r@ == self@,
    {
        let r = ProcessSpec { program: self.program.clone(), args: clone_strings(&self.args) };
        proof {
            assert(r@.1 =~= self@.1);
        }
        r
    }
}

/// One stage of a pipeline: the record of how its process is connected to the
/// stage before it.
#[derive(Debug)]
pub enum Stage {
    Sequential(ProcessSpec),
    Piped(ProcessSpec),
}

impl View for Stage {
    /// A stage is modelled as `(piped, program, args)`.
    type V = (bool, Seq<char>, Seq<Seq<char>>);

    open spec fn view(&self) -> (bool, Seq<char>, Seq<Seq<char>>) {
        match self {
            Stage::Sequential(p) => (false, p@.0, p@.1),
            Stage::Piped(p) => (true, p@.0, p@.1),
        }
    }
}

impl Clone for Stage {
    fn clone(&self) -> (r: Self)
        ensures
            r@ == self@,
    {
        match self {
            Stage::Sequential(p) => Stage::Sequential(p.clone()),
            Stage::Piped(p) => Stage::Piped(p.clone()),
        }
    }
}

/// A pipeline: an ordered sequence of stages, inert until executed.
#[derive(Debug)]
pub struct Command {
    stages: Vec<Stage>,
}

impl View for Command {
    /// The declared stage records, in declared order.
    type V = Seq<(bool, Seq<char>, Seq<Seq<char>>)>;

    closed spec fn view(&self) -> Seq<(bool, Seq<char>, Seq<Seq<char>>)> {
        self.stages@.map_values(|s: Stage| s@)
    }
}

impl Command {
    /// A pipeline always holds at least one stage, and its first stage is
    /// sequential.
    pub open spec fn wf(&self) -> bool {
        &&& self@.len() >= 1
        &&& self@[0].0 == false
    }

    /// Creates a single-stage pipeline.
    pub fn new(program: String, args: Vec<String>) -> (r: Command)
        ensures
            r@ =~= seq![(false, program@, args.deep_view())],
            r.wf(),
    {
        Command { stages: vec![Stage::Sequential(ProcessSpec { program, args })] }
    }

    /// Appends a sequential stage: it will run only after all prior stages
    /// have completed, regardless of their exit statuses; status checking is
    /// deferred to `run`/`read`.
    pub fn then(self, program: String, args: Vec<String>) -> (r: Command)
        ensures
            r@ =~= self@.push((false, program@, args.deep_view())),
            self.wf() ==> r.wf(),
    {
        let mut r = self;
        r.stages.push(Stage::Sequential(ProcessSpec { program, args }));
        r
    }

    /// Appends a piped stage: its standard input will be connected to the
    /// immediately preceding stage's standard output, and the two run
    /// concurrently as a connected chain.
    pub fn pipe(self, program: String, args: Vec<String>) -> (r: Command)
        ensures
            r@ =~= self@.push((true, program@, args.deep_view())),
            self.wf() ==> r.wf(),
    {
        let mut r = self;
        r.stages.push(Stage::Piped(ProcessSpec { program, args }));
        r
    }

    /// The number of stages declared so far.
    pub fn stage_count(&self) -> (n: usize)
        ensures
            n == self@.len(),
    {
        self.stages.len()
    }
}

impl Clone for Command {
    fn clone(&self) -> (r: Self)
        ensures
            r@ == self@,
    {
        let mut stages: Vec<Stage> = Vec::new();
        let mut i: usize = 0;
        while i < self.stages.len()
            invariant
                i <= self.stages@.len(),
                stages@.len() == i,
                forall|j: int| 0 <= j < i ==> stages@[j]@ == self.stages@[j]@,
            decreases self.stages@.len() - i,
        {
            stages.push(self.stages[i].clone());
            i = i + 1;
        }
        let r = Command { stages };
        proof {
            assert(r@ =~= self@);
        }
        r
    }
}

/// The exit code a failed pipeline terminates the program with: the final
/// stage's own code, or 128 when the process died without one.
pub open spec fn spec_exit_code(st: RunStatus) -> i32 {
    match st.code {
        Some(c) => c,
        None => 128,
    }
}

/// Maps a reported exit status to the code the program terminates with.
pub fn exit_code_of(st: &RunStatus) -> (r: i32)
    ensures
        r == spec_exit_code(*st),
{
    match st.code {
        Some(c) => c,
        None => 128,
    }
}

/// The result a run owes for a final exit status: success exactly on a zero
/// exit code, else failure with the code the program terminates with.
pub open spec fn spec_run_outcome(st: RunStatus) -> Result<(), Error> {
    if st.success {
        Ok(())
    } else {
        Err(Error::CommandFailed(spec_exit_code(st)))
    }
}

/// Decides a run's result from its final exit status.
pub fn run_outcome(st: &RunStatus) -> (r: Result<(), Error>)
    ensures
        r == spec_run_outcome(*st),
{
    if st.success {
        Ok(())
    } else {
        Err(Error::CommandFailed(exit_code_of(st)))
    }
}

/// Captured output with one trailing newline removed: a final `"\r\n"` or
/// `"\n"` is dropped, anything else is kept as is.
pub open spec fn strip_trailing_newline(s: Seq<char>) -> Seq<char> {
    if s.len() >= 2 && s[s.len() as int - 2] == '\r' && s[s.len() as int - 1] == '\n' {
        s.take(s.len() as int - 2)
    } else if s.len() >= 1 && s[s.len() as int - 1] == '\n' {
        s.take(s.len() as int - 1)
    } else {
        s
    }
}

/// Removes a single trailing newline (`"\n"` or `"\r\n"`) from a captured
/// output string: the trimming both `read` and `read_unchecked` apply.
pub fn strip_newline(s: &str) -> (r: String)
    ensures
        r@ == strip_trailing_newline(s@),
{
    let n = s.unicode_len();
    if n >= 2 && s.get_char(n - 2) == '\r' && s.get_char(n - 1) == '\n' {
        s.substring_char(0, n - 2).to_owned()
    } else if n >= 1 && s.get_char(n - 1) == '\n' {
        s.substring_char(0, n - 1).to_owned()
    } else {
        s.to_owned()
    }
}

/// Decides a captured read's result from the captured output and the final
/// exit status: on success, the capture with one trailing newline removed is
/// owed; any other final status fails with the code the program terminates
/// with.
pub fn read_outcome(captured: String, st: &RunStatus) -> (r: Result<String, Error>)
    ensures
        ({
            if st.success {
                r matches Ok(s) && s@ == strip_trailing_newline(captured@)
            } else {
                r == Err::<String, Error>(Error::CommandFailed(spec_exit_code(*st)))
            }
        }),
{
    if st.success {
        Ok(strip_newline(captured.as_str()))
    } else {
        Err(Error::CommandFailed(exit_code_of(st)))
    }
}

#[verifier::external_type_specification]
#[verifier::external_body]
pub struct ExExpression(duct::Expression);

/// The stage records a `duct` expression was built from, in order, as
/// `(piped, program, args)`: the abstract contents of the opaque expression
/// value. Assigned by the contracts of `expr_cmd` and `expr_pipe` below.
pub uninterp spec fn expr_stages(e: duct::Expression) -> Seq<(bool, Seq<char>, Seq<Seq<char>>)>;

/// Relies on `duct::cmd` and `duct::Expression::unchecked`: builds an inert
/// one-command expression whose eventual exit status is reported in the run
/// result instead of being raised as an error.
#[verifier::external_body]
fn expr_cmd(program: &str, args: &Vec<String>) -> (e: duct::Expression)
    ensures
        expr_stages(e) =~= seq![(false, program@, args.deep_view())],
{
    duct::cmd(program, args.clone()).unchecked()
}

/// Relies on `duct::Expression::pipe`: connects the left expression's standard
/// output to the right command's standard input; the two run concurrently.
#[verifier::external_body]
fn expr_pipe(left: duct::Expression, right: duct::Expression) -> (r: duct::Expression)
    requires
        expr_stages(right).len() == 1,
    ensures
        expr_stages(r) =~= expr_stages(left).push(
            (true, expr_stages(right)[0].1, expr_stages(right)[0].2),
        ),
{
    left.pipe(right)
}

/// Relies on `duct::Expression::run`: spawns the expression's processes with
/// standard output and error inherited from the invoking process, waits, and
/// reports the final exit status. Every command was built unchecked, so a
/// non-zero status comes back in the output rather than as an error; per
/// std's documentation of `ExitStatus`, `success` holds exactly on a zero
/// exit code, and the code is `None` only for a signal death.
#[verifier::external_body]
fn expr_run(e: &duct::Expression) -> (r: Result<RunStatus, String>)
    requires
        expr_stages(*e).len() >= 1,
    ensures
        r matches Ok(st) ==> (st.success <==> st.code == Some(0i32)),
{
    match e.run() {
        Ok(out) => Ok(RunStatus { success: out.status.success(), code: out.status.code() }),
        Err(err) => Err(err.to_string()),
    }
}

/// Relies on `duct::Expression::stdout_capture` and `run`: spawns the
/// expression's processes with standard output captured and standard error
/// inherited, waits, and returns the captured bytes decoded as UTF-8 together
/// with the final exit status (reported as in `expr_run`). A spawn, capture
/// or decoding failure is returned as `Err`.
#[verifier::external_body]
fn expr_read_raw(e: &duct::Expression) -> (r: Result<(String, RunStatus), String>)
    requires
        expr_stages(*e).len() >= 1,
    ensures
        r matches Ok(p) ==> (p.1.success <==> p.1.code == Some(0i32)),
{
    match e.stdout_capture().run() {
        Ok(out) => {
            let st = RunStatus { success: out.status.success(), code: out.status.code() };
            match String::from_utf8(out.stdout) {
                Ok(s) => Ok((s, st)),
                Err(err) => Err(err.to_string()),
            }
        },
        Err(err) => Err(err.to_string()),
    }
}

/// The process record a stage wraps.
fn stage_process(s: &Stage) -> (p: &ProcessSpec)
    ensures
        p@.0 == s@.1,
        p@.1 == s@.2,
{
    match s {
        Stage::Sequential(p) => p,
        Stage::Piped(p) => p,
    }
}

/// Whether a stage is piped to its predecessor.
fn is_piped(s: &Stage) -> (b: bool)
    ensures
        b == s@.0,
{
    match s {
        Stage::Sequential(_) => false,
        Stage::Piped(_) => true,
    }
}

impl Command {
    /// Builds the `duct` expression for the maximal piped group starting at
    /// stage `i`, and returns it with the index of the next group's first
    /// stage.
    fn build_group(&self, i: usize) -> (res: (duct::Expression, usize))
        requires
            self.wf(),
            i < self@.len(),
            self@[i as int].0 == false,
        ensures
            i < res.1 <= self@.len(),
            res.1 < self@.len() ==> self@[res.1 as int].0 == false,
            expr_stages(res.0).len() == res.1 - i,
            expr_stages(res.0)[0] == (false, self@[i as int].1, self@[i as int].2),
            forall|k: int| 0 < k < res.1 - i ==> expr_stages(res.0)[k] == self@[i + k],
    {
        proof {
            assert(i < self.stages.len());
        }
        let p = stage_process(&self.stages[i]);
        let mut e = expr_cmd(p.program.as_str(), &p.args);
        let mut j: usize = i + 1;
        while j < self.stages.len() && is_piped(&self.stages[j])
            invariant
                self.wf(),
                i < j <= self@.len(),
                expr_stages(e).len() == j - i,
                expr_stages(e)[0] == (false, self@[i as int].1, self@[i as int].2),
                forall|k: int| 0 < k < j - i ==> expr_stages(e)[k] == self@[i + k],
            decreases self@.len() - j,
        {
            let q = stage_process(&self.stages[j]);
            let c = expr_cmd(q.program.as_str(), &q.args);
            e = expr_pipe(e, c);
            proof {
                assert(expr_stages(e).last() == self@[j as int]);
            }
            j = j + 1;
        }
        (e, j)
    }

    /// Executes all stages, forwarding standard output and standard error to
    /// the invoking process's streams. Sequential stages run strictly after
    /// all earlier stages have completed, whatever their statuses; status
    /// checking happens only here, at the end. The final exit status comes
    /// from the machine, so the mapping from that status to the result is
    /// what this library can promise: it is exactly [`spec_run_outcome`],
    /// applied by `run_outcome` to the last group's status — success on a
    /// zero final exit code, else `Error::CommandFailed` with the non-zero
    /// code for the caller to terminate the program with.
    pub fn run(self) -> (r: Result<(), Error>)
        requires
            self.wf(),
        ensures
            r matches Err(Error::CommandFailed(c)) ==> c != 0,
    {
        let n = self.stages.len();
        let mut i: usize = 0;
        let mut last = RunStatus { success: false, code: None };
        while i < n
            invariant
                self.wf(),
                n == self@.len(),
                i <= n,
                i < n ==> self@[i as int].0 == false,
                i > 0 ==> (last.success <==> last.code == Some(0i32)),
            decreases n - i,
        {
            let (e, j) = self.build_group(i);
            match expr_run(&e) {
                Ok(st) => {
                    last = st;
                },
                Err(m) => {
                    return Err(Error::Io(m));
                },
            }
            i = j;
        }
        run_outcome(&last)
    }

    /// Executes all stages and captures standard output (standard error is
    /// forwarded live), concatenating the groups' captures in declared order.
    fn read_impl(self) -> (r: Result<(String, RunStatus), Error>)
        requires
            self.wf(),
        ensures
            r matches Ok(p) ==> (p.1.success <==> p.1.code == Some(0i32)),
            r matches Err(e) ==> e matches Error::Io(_),
    {
        let n = self.stages.len();
        let mut i: usize = 0;
        let mut last = RunStatus { success: false, code: None };
        let mut acc = String::new();
        while i < n
            invariant
                self.wf(),
                n == self@.len(),
                i <= n,
                i < n ==> self@[i as int].0 == false,
                i > 0 ==> (last.success <==> last.code == Some(0i32)),
            decreases n - i,
        {
            let (e, j) = self.build_group(i);
            match expr_read_raw(&e) {
                Ok((s, st)) => {
                    acc.append(s.as_str());
                    last = st;
                },
                Err(m) => {
                    return Err(Error::Io(m));
                },
            }
            i = j;
        }
        Ok((acc, last))
    }

    /// Executes all stages, captures standard output as UTF-8 text, and
    /// forwards standard error. What the capture holds comes from the
    /// machine; the mapping from capture and final status to the result is
    /// what this library can promise: it is exactly [`read_outcome`] — on a
    /// zero final exit code the capture trimmed of a single trailing newline
    /// is owed, any other final status comes back as `Error::CommandFailed`
    /// with a non-zero code.
    pub fn read(self) -> (r: Result<String, Error>)
        requires
            self.wf(),
        ensures
            r matches Err(Error::CommandFailed(c)) ==> c != 0,
    {
        match self.read_impl() {
            Ok((s, st)) => read_outcome(s, &st),
            Err(e) => Err(e),
        }
    }

    /// Like `read`, but a non-zero final exit status is not an error: callers
    /// use this when a non-zero status is an expected, meaningful outcome.
    /// On the same capture the successful result is the same as `read`'s —
    /// both apply [`strip_newline`] to it. Only a spawn, capture or decoding
    /// failure is reported, as `Error::Io`.
    pub fn read_unchecked(self) -> (r: Result<String, Error>)
        requires
            self.wf(),
        ensures
            r matches Err(e) ==> e matches Error::Io(_),
    {
        match self.read_impl() {
            Ok((s, _)) => Ok(strip_newline(s.as_str())),
            Err(e) => Err(e),
        }
    }
}

/// Clones a vector of strings, element by element.
fn clone_strings(v: &Vec<String>) -> (r: Vec<String>)
    ensures
        r.deep_view() =~= v.deep_view(),
{
    let mut r: Vec<String> = Vec::new();
    let mut i: usize = 0;
    while i < v.len()
        invariant
            i <= v@.len(),
            r@.len() == i,
            forall|j: int| 0 <= j < i ==> r@[j]@ == v@[j]@,
        decreases v@.len() - i,
    {
        r.push(v[i].clone());
        i = i + 1;
    }
    proof {
        assert(r.deep_view() =~= v.deep_view());
    }
    r
}

} // verus!
