//! Pipeline execution: stage ordering, piping, exit statuses, trimming.

use mav::process::{Command, Error, RunStatus, exit_code_of, read_outcome, run_outcome, strip_newline};

fn s(x: &str) -> String {
    x.to_string()
}

fn args(xs: &[&str]) -> Vec<String> {
    xs.iter().map(|x| x.to_string()).collect()
}

#[test]
fn then_runs_stages_in_declared_order() {
    let out = Command::new(s("sh"), args(&["-c", "echo first"]))
        .then(s("sh"), args(&["-c", "echo second"]))
        .then(s("sh"), args(&["-c", "echo third"]))
        .read();
    assert_eq!(out, Ok(s("first\nsecond\nthird")));
}

#[test]
fn run_reports_last_stage_status() {
    let r = Command::new(s("sh"), args(&["-c", "exit 3"]))
        .then(s("sh"), args(&["-c", "exit 7"]))
        .run();
    assert_eq!(r, Err(Error::CommandFailed(7)));
}

#[test]
fn then_ignores_intermediate_failure() {
    let out = Command::new(s("sh"), args(&["-c", "exit 3"]))
        .then(s("sh"), args(&["-c", "echo ok"]))
        .read();
    assert_eq!(out, Ok(s("ok")));
}

#[test]
fn pipe_returns_final_stage_output() {
    let out = Command::new(s("echo"), args(&["hello world"]))
        .pipe(s("tr"), args(&["a-z", "A-Z"]))
        .read();
    assert_eq!(out, Ok(s("HELLO WORLD")));
}

#[test]
fn pipe_chain_keeps_only_final_output() {
    let out = Command::new(s("echo"), args(&["abc"]))
        .pipe(s("tr"), args(&["a-z", "A-Z"]))
        .pipe(s("tr"), args(&["A-Z", "x"]))
        .read();
    assert_eq!(out, Ok(s("xxx")));
}

#[test]
fn read_trims_one_trailing_newline() {
    let out = Command::new(s("printf"), args(&["x\n\n"])).read();
    assert_eq!(out, Ok(s("x\n")));
    let out = Command::new(s("printf"), args(&["x"])).read();
    assert_eq!(out, Ok(s("x")));
    let out = Command::new(s("printf"), args(&["x\n"])).read();
    assert_eq!(out, Ok(s("x")));
    let out = Command::new(s("printf"), args(&["x\r\n"])).read();
    assert_eq!(out, Ok(s("x")));
}

#[test]
fn failing_pipeline_terminates_with_nonzero_code() {
    let r = Command::new(s("false"), args(&[])).run();
    match r {
        Err(Error::CommandFailed(c)) => {
            assert_ne!(c, 0);
            assert_eq!(c, 1);
        }
        other => panic!("expected a command failure, got {:?}", other),
    }
}

#[test]
fn read_unchecked_returns_empty_string_without_failing() {
    let r = Command::new(s("false"), args(&[])).read_unchecked();
    assert_eq!(r, Ok(s("")));
}

#[test]
fn read_checks_final_exit_status() {
    let r = Command::new(s("sh"), args(&["-c", "echo out; exit 5"])).read();
    assert_eq!(r, Err(Error::CommandFailed(5)));
}

#[test]
fn read_unchecked_keeps_output_of_failing_pipeline() {
    let r = Command::new(s("sh"), args(&["-c", "echo out; exit 5"])).read_unchecked();
    assert_eq!(r, Ok(s("out")));
}

#[test]
fn read_captures_stdout_not_stderr() {
    let r = Command::new(s("sh"), args(&["-c", "echo err 1>&2; echo out"])).read();
    assert_eq!(r, Ok(s("out")));
}

#[test]
fn missing_program_is_an_io_error() {
    let r = Command::new(s("no-such-binary-mav-test"), args(&[])).run();
    assert!(matches!(r, Err(Error::Io(_))));
}

#[test]
fn stage_count_follows_builders() {
    let c = Command::new(s("echo"), args(&[]))
        .then(s("echo"), args(&[]))
        .pipe(s("cat"), args(&[]));
    assert_eq!(c.stage_count(), 3);
}

#[test]
fn exit_code_defaults_to_128_without_a_code() {
    assert_eq!(exit_code_of(&RunStatus { success: false, code: Some(5) }), 5);
    assert_eq!(exit_code_of(&RunStatus { success: false, code: None }), 128);
}

#[test]
fn run_outcome_maps_each_final_status() {
    assert_eq!(run_outcome(&RunStatus { success: true, code: Some(0) }), Ok(()));
    assert_eq!(
        run_outcome(&RunStatus { success: false, code: Some(7) }),
        Err(Error::CommandFailed(7))
    );
    assert_eq!(
        run_outcome(&RunStatus { success: false, code: None }),
        Err(Error::CommandFailed(128))
    );
}

#[test]
fn read_outcome_returns_the_trimmed_capture_on_success() {
    let ok = RunStatus { success: true, code: Some(0) };
    assert_eq!(read_outcome(s("out\n"), &ok), Ok(s("out")));
    assert_eq!(read_outcome(s("a\nb"), &ok), Ok(s("a\nb")));
    assert_eq!(
        read_outcome(s("out\n"), &RunStatus { success: false, code: Some(3) }),
        Err(Error::CommandFailed(3))
    );
}

#[test]
fn strip_newline_removes_at_most_one_trailing_newline() {
    assert_eq!(strip_newline("x\n\n"), s("x\n"));
    assert_eq!(strip_newline("x\r\n"), s("x"));
    assert_eq!(strip_newline("x"), s("x"));
    assert_eq!(strip_newline(""), s(""));
}
