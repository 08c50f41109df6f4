//! Minikube status parsing and captured help trees.

use mav::apphelp::AppHelp;
use mav::minikube::{MinikubeStatus, get_minikube_status, parse_minikube_status};
use mav::platform::Os;
use mav::process::Error;

fn s(x: &str) -> String {
    x.to_string()
}

#[test]
fn parses_running_status_report() {
    let report = "host: Running\nkubelet: Running\napiserver: Running\n";
    assert_eq!(parse_minikube_status(report), MinikubeStatus::Running);
}

#[test]
fn parses_stopped_status_report() {
    assert_eq!(parse_minikube_status("host: Stopped\nkubelet: Stopped\n"), MinikubeStatus::Stopped);
}

#[test]
fn only_the_first_line_decides() {
    assert_eq!(parse_minikube_status("host: Stopped\nkubelet: Running\n"), MinikubeStatus::Stopped);
}

#[test]
fn a_single_token_line_is_the_status_word() {
    assert_eq!(parse_minikube_status("Running"), MinikubeStatus::Running);
    assert_eq!(parse_minikube_status("  Stopped  \n"), MinikubeStatus::Stopped);
}

#[test]
fn unrecognized_reports_are_unknown() {
    assert_eq!(parse_minikube_status(""), MinikubeStatus::Unknown);
    assert_eq!(parse_minikube_status("\n"), MinikubeStatus::Unknown);
    assert_eq!(parse_minikube_status("host: Paused\n"), MinikubeStatus::Unknown);
    assert_eq!(parse_minikube_status("running"), MinikubeStatus::Unknown);
    assert_eq!(parse_minikube_status("a b c Running"), MinikubeStatus::Unknown);
}

#[test]
fn extra_tokens_after_the_status_word_are_ignored() {
    assert_eq!(parse_minikube_status("host: Running extra words\n"), MinikubeStatus::Running);
}

#[test]
fn status_query_without_the_tool_is_an_io_error() {
    // The sandboxed environment has no minikube; the query must surface the
    // spawn failure rather than fail the status check.
    match get_minikube_status() {
        Ok(_) => {}
        Err(Error::Io(_)) => {}
        Err(other) => panic!("unexpected error: {:?}", other),
    }
}

#[test]
fn subcommand_lookup_finds_recorded_helps() {
    let mut root = AppHelp::new(b"root help".to_vec());
    root.add_subcommand(s("install"), AppHelp::new(b"install help".to_vec()));
    root.add_subcommand(s("start"), AppHelp::new(b"start help".to_vec()));
    assert_eq!(root.value(), b"root help");
    assert_eq!(root.subcommand("install").unwrap().value(), b"install help");
    assert_eq!(root.subcommand("start").unwrap().value(), b"start help");
    assert!(root.subcommand("stop").is_none());
}

#[test]
fn an_existing_name_keeps_its_help() {
    let mut root = AppHelp::new(b"root".to_vec());
    root.add_subcommand(s("up"), AppHelp::new(b"first".to_vec()));
    root.add_subcommand(s("up"), AppHelp::new(b"second".to_vec()));
    assert_eq!(root.subcommand("up").unwrap().value(), b"first");
}

#[test]
fn find_descends_along_a_path_of_names() {
    let mut pod = AppHelp::new(b"pod help".to_vec());
    pod.add_subcommand(s("logs"), AppHelp::new(b"logs help".to_vec()));
    let mut up = AppHelp::new(b"up help".to_vec());
    up.add_subcommand(s("pod"), pod);
    let mut root = AppHelp::new(b"root help".to_vec());
    root.add_subcommand(s("up"), up);

    assert_eq!(root.find(&vec![]).unwrap().value(), b"root help");
    assert_eq!(root.find(&vec![s("up")]).unwrap().value(), b"up help");
    assert_eq!(root.find(&vec![s("up"), s("pod")]).unwrap().value(), b"pod help");
    assert_eq!(root.find(&vec![s("up"), s("pod"), s("logs")]).unwrap().value(), b"logs help");
    assert!(root.find(&vec![s("up"), s("service")]).is_none());
    assert!(root.find(&vec![s("down")]).is_none());
}

#[test]
fn platform_values_are_distinct() {
    assert_ne!(Os::MacOs, Os::Linux);
    assert_ne!(Os::Linux, Os::Windows);
    assert_ne!(Os::Windows, Os::Other);
}
