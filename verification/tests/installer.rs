//! The download queue and the bounded-concurrency install run.

use mav::installer::{DownloadingInstaller, formulae_args, install_by_downloading};
use mav::probe::{check_install, command_exists};
use mav::process::Command;
use mav::runner::{CONCURRENCY_LIMIT, FinalizeAction, InstallRun, ItemState};

fn s(x: &str) -> String {
    x.to_string()
}

fn args(xs: &[&str]) -> Vec<String> {
    xs.iter().map(|x| x.to_string()).collect()
}

/// A queue of `n` missing items named item0, item1, ...
fn queue_of(n: usize) -> DownloadingInstaller {
    let mut q = DownloadingInstaller::new();
    for i in 0..n {
        q = q.enqueue_given(false, format!("item{}", i), format!("http://x/{}", i), None);
    }
    q
}

/// Drives one item from `Pending` to `Done`, returning its finalize action.
fn complete_item(run: &mut InstallRun, i: usize) -> FinalizeAction {
    run.set_total(i, 100);
    run.on_chunk(i, 60);
    run.on_chunk(i, 40);
    let action = run.finish_download(i);
    run.finish_finalize(i);
    action
}

#[test]
fn existing_tool_resolves_and_missing_tool_does_not() {
    assert!(command_exists("sh"));
    assert!(!command_exists("qqzzxx-no-such-tool-482"));
    assert!(check_install("sh"));
    assert!(!check_install("qqzzxx-no-such-tool-482"));
}

#[test]
fn enqueue_skips_installed_tool() {
    let q = DownloadingInstaller::new().enqueue(s("sh"), s("http://example/sh"));
    assert_eq!(q.item_count(), 0);
}

#[test]
fn enqueue_adds_missing_tool() {
    let q = DownloadingInstaller::new().enqueue(s("qqzzxx-no-such-tool-482"), s("http://x"));
    assert_eq!(q.item_count(), 1);
    assert_eq!(q.name_at(0), "qqzzxx-no-such-tool-482");
}

#[test]
fn enqueue_given_installed_never_adds_an_item() {
    let q = DownloadingInstaller::new()
        .enqueue_given(true, s("alpha"), s("http://a"), None)
        .enqueue_given(true, s("beta"), s("http://b"), None);
    assert_eq!(q.item_count(), 0);
}

#[test]
fn install_by_downloading_gates_on_the_probe() {
    assert_eq!(install_by_downloading(s("sh"), s("http://x")).item_count(), 0);
    assert_eq!(install_by_downloading(s("qqzzxx-no-such-tool-482"), s("http://x")).item_count(), 1);
}

#[test]
fn second_run_has_nothing_to_do() {
    // First run: the tool is missing and gets installed.
    let mut run = queue_of(1).run();
    run.start(0);
    complete_item(&mut run, 0);
    assert!(run.all_done());
    // Second run: the probe now reports the tool installed, so the queue is
    // empty and the run starts nothing.
    let run2 = DownloadingInstaller::new()
        .enqueue_given(true, s("item0"), s("http://x/0"), None)
        .run();
    assert_eq!(run2.item_count(), 0);
    assert_eq!(run2.next_to_start(), None);
    assert!(run2.all_done());
    assert_eq!(run2.confirmation_lines().len(), 0);
}

#[test]
fn at_most_four_items_download_simultaneously() {
    let mut run = queue_of(6).run();
    for k in 0..CONCURRENCY_LIMIT {
        assert_eq!(run.next_to_start(), Some(k));
        run.start(k);
        assert_eq!(run.downloading_count(), k + 1);
    }
    // All slots taken: the two remaining pending items must wait.
    assert_eq!(run.next_to_start(), None);
    assert_eq!(run.downloading_count(), CONCURRENCY_LIMIT);
    // A finished download frees a slot for exactly one more item.
    run.finish_download(1);
    assert_eq!(run.downloading_count(), CONCURRENCY_LIMIT - 1);
    assert_eq!(run.next_to_start(), Some(4));
    run.start(4);
    assert_eq!(run.next_to_start(), None);
    assert_eq!(run.downloading_count(), CONCURRENCY_LIMIT);
}

#[test]
fn confirmations_keep_enqueue_order_despite_reversed_completion() {
    let mut run = DownloadingInstaller::new()
        .enqueue_given(false, s("a"), s("http://a"), None)
        .enqueue_given(false, s("b"), s("http://b"), None)
        .enqueue_given(false, s("c"), s("http://c"), None)
        .run();
    run.start(0);
    run.start(1);
    run.start(2);
    // Complete in reverse order.
    complete_item(&mut run, 2);
    complete_item(&mut run, 1);
    complete_item(&mut run, 0);
    assert!(run.all_done());
    let lines = run.confirmation_lines();
    assert_eq!(
        lines,
        vec![
            s("a is installed successfully."),
            s("b is installed successfully."),
            s("c is installed successfully."),
        ]
    );
}

#[test]
fn alpha_installed_beta_missing_installs_only_beta() {
    let mut run = DownloadingInstaller::new()
        .enqueue_given(true, s("alpha"), s("http://x/alpha"), None)
        .enqueue_given(false, s("beta"), s("http://x/beta"), None)
        .run();
    assert_eq!(run.item_count(), 1);
    assert_eq!(run.name_at(0), "beta");
    assert_eq!(run.next_to_start(), Some(0));
    run.start(0);
    let action = complete_item(&mut run, 0);
    match action {
        FinalizeAction::Install { file, dest, mode } => {
            assert_eq!(file, "beta");
            assert_eq!(dest, "/usr/local/bin/beta");
            assert_eq!(mode, 0o755);
        }
        FinalizeAction::RunPipeline(_) => panic!("expected the default finalization"),
    }
    assert!(run.all_done());
    let lines = run.confirmation_lines();
    assert_eq!(lines, vec![s("beta is installed successfully.")]);
}

#[test]
fn postinstall_pipeline_is_handed_back_at_finalization() {
    let post = Command::new(s("tar"), args(&["-xzvf", "helm"]))
        .then(s("mv"), args(&["linux-amd64/helm", "/usr/local/bin/"]))
        .then(s("rm"), args(&["-f", "helm"]));
    let mut run = DownloadingInstaller::new()
        .enqueue_given(false, s("helm"), s("http://x/helm"), Some(post))
        .run();
    run.start(0);
    let action = complete_item(&mut run, 0);
    match action {
        FinalizeAction::RunPipeline(c) => assert_eq!(c.stage_count(), 3),
        FinalizeAction::Install { .. } => panic!("expected the post-install pipeline"),
    }
}

#[test]
fn progress_accumulates_and_never_decreases() {
    let mut run = queue_of(1).run();
    assert_eq!(run.state_of(0), ItemState::Pending);
    run.start(0);
    assert_eq!(run.state_of(0), ItemState::Downloading { total: 0, got: 0 });
    run.set_total(0, 1000);
    assert_eq!(run.state_of(0), ItemState::Downloading { total: 1000, got: 0 });
    run.on_chunk(0, 300);
    run.on_chunk(0, 200);
    assert_eq!(run.state_of(0), ItemState::Downloading { total: 1000, got: 500 });
    run.on_chunk(0, u64::MAX);
    assert_eq!(run.state_of(0), ItemState::Downloading { total: 1000, got: u64::MAX });
    run.finish_download(0);
    assert_eq!(run.state_of(0), ItemState::Finalizing);
    run.finish_finalize(0);
    assert_eq!(run.state_of(0), ItemState::Done);
}

#[test]
fn installing_present_formulae_is_a_no_op() {
    // Every formula resolves already, so no brew pipeline runs at all.
    assert_eq!(mav::installer::install_brew_formulae(args(&["sh", "ls"])), Ok(()));
    assert_eq!(mav::installer::install_brew_formula(s("sh")), Ok(()));
}

#[test]
fn formulae_args_selects_missing_formulae_in_order() {
    let formulae = args(&["hyperkit", "git", "jq"]);
    let missing = vec![true, false, true];
    let r = formulae_args(&formulae, &missing);
    assert_eq!(r, args(&["install", "hyperkit", "jq"]));
    let none_missing = formulae_args(&formulae, &vec![false, false, false]);
    assert_eq!(none_missing, args(&["install"]));
}
