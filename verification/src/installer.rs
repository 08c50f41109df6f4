//! The download queue: tools to be fetched over the network and installed.
//!
//! A [`DownloadingInstaller`] is an ordered list of [`DownloadedItem`]s.
//! Enqueueing is gated by the existence probe: a tool that already resolves on
//! the executable search path is never added, so re-running the installer is a
//! no-op for tools that are already present. The queue preserves insertion
//! order; it is consumed by beginning a run (see the runner module).
//!
//! This module also holds the Homebrew-based install path, which shells out
//! through the pipeline module instead of downloading.

use vstd::prelude::*;
use vstd::string::*;

use crate::probe::{check_install, print_line};
use crate::process::{Command, Error};

verus! {

/// Ghost model of one queued item: its tool name, its download URL, and the
/// stages of its optional post-install pipeline.
pub struct ItemModel {
    pub name: Seq<char>,
    pub url: Seq<char>,
    pub post: Option<Seq<(bool, Seq<char>, Seq<Seq<char>>)>>,
}

/// The model of an optional post-install pipeline.
pub open spec fn post_model(p: Option<Command>) -> Option<
    Seq<(bool, Seq<char>, Seq<Seq<char>>)>,
> {
    match p {
        Some(c) => Some(c@),
        None => None,
    }
}

/// Builds an item model from its parts.
pub open spec fn item_model(
    name: Seq<char>,
    url: Seq<char>,
    post: Option<Seq<(bool, Seq<char>, Seq<Seq<char>>)>>,
) -> ItemModel {
    ItemModel { name, url, post }
}

/// The models of a sequence of items.
pub open spec fn items_view(items: Seq<DownloadedItem>) -> Seq<ItemModel> {
    items.map_values(|it: DownloadedItem| it@)
}

/// The views of a sequence of strings.
pub open spec fn strs_view(ss: Seq<String>) -> Seq<Seq<char>> {
    ss.map_values(|s: String| s@)
}

/// One tool queued for network-download-based installation: the tool's name
/// (also the downloaded file's name), its download URL, and an optional
/// post-install pipeline that replaces the default finalization.
#[derive(Debug)]
pub struct DownloadedItem {
    pub cmd: String,
    pub url: String,
    pub postinstall: Option<Command>,
}

impl View for DownloadedItem {
    type V = ItemModel;

    open spec fn view(&self) -> ItemModel {
        ItemModel { name: self.cmd@, url: self.url@, post: post_model(self.postinstall) }
    }
}

impl DownloadedItem {
    /// Builds a queued item from its parts.
    pub fn new(cmd: String, url: String, postinstall: Option<Command>) -> (r: Self)
        ensures
            r@ == item_model(cmd@, url@, post_model(postinstall)),
    {
        DownloadedItem { cmd, url, postinstall }
    }
}

impl Clone for DownloadedItem {
    fn clone(&self) -> (r: Self)
        ensures
            r@ == self@,
    {
        let postinstall = match &self.postinstall {
            Some(c) => Some(c.clone()),
            None => None,
        };
        DownloadedItem { cmd: self.cmd.clone(), url: self.url.clone(), postinstall }
    }
}

/// The download queue: an insertion-ordered list of install items, built once
/// and consumed exactly once by a run.
#[derive(Debug)]
pub struct DownloadingInstaller {
    items: Vec<DownloadedItem>,
}

impl View for DownloadingInstaller {
    type V = Seq<ItemModel>;

    closed spec fn view(&self) -> Seq<ItemModel> {
        items_view(self.items@)
    }
}

impl DownloadingInstaller {
    /// Creates an empty queue.
    pub fn new() -> (r: Self)
        ensures
            r@ =~= Seq::<ItemModel>::empty(),
    {
        DownloadingInstaller { items: Vec::new() }
    }

    /// The enqueue decision, given the probe's answer: an already-installed
    /// tool is never added (the idempotence guarantee); a missing one is
    /// appended at the end of the queue.
    pub fn enqueue_given(
        self,
        installed: bool,
        cmd: String,
        url: String,
        postinstall: Option<Command>,
    ) -> (r: Self)
        ensures
            installed ==> r@ =~= self@,
            !installed ==> r@ =~= self@.push(item_model(cmd@, url@, post_model(postinstall))),
    {
        let mut r = self;
        if !installed {
            let ghost pre = r.items@;
            r.items.push(DownloadedItem::new(cmd, url, postinstall));
            proof {
                assert forall|j: int| 0 <= j < r.items@.len() implies items_view(r.items@)[j]
                    == items_view(pre).push(item_model(cmd@, url@, post_model(postinstall)))[j] by {
                    assert(items_view(r.items@)[j] == r.items@[j]@);
                }
                assert(r@ =~= items_view(pre).push(item_model(cmd@, url@, post_model(postinstall))));
            }
        }
        r
    }

    /// Probes for `cmd` (printing the status line) and appends an item with a
    /// post-install pipeline exactly when the tool is missing.
    pub fn enqueue_with_postinstall(
        self,
        cmd: String,
        url: String,
        postinstall: Option<Command>,
    ) -> (r: Self)
        ensures
            r@ =~= self@ || r@ =~= self@.push(item_model(cmd@, url@, post_model(postinstall))),
    {
        let installed = check_install(cmd.as_str());
        self.enqueue_given(installed, cmd, url, postinstall)
    }

    /// Probes for `cmd` (printing the status line) and appends an item with
    /// the default finalization exactly when the tool is missing.
    pub fn enqueue(self, cmd: String, url: String) -> (r: Self)
        ensures
            r@ =~= self@ || r@ =~= self@.push(
                item_model(cmd@, url@, post_model(Option::<Command>::None)),
            ),
    {
        self.enqueue_with_postinstall(cmd, url, None)
    }

    /// The number of queued items.
    pub fn item_count(&self) -> (n: usize)
        ensures
            n == self@.len(),
    {
        self.items.len()
    }

    /// The name of the queued item at `i`.
    pub fn name_at(&self, i: usize) -> (r: &String)
        requires
            i < self@.len(),
        ensures
            r@ == self@[i as int].name,
    {
        &self.items[i].cmd
    }

    /// Hands the queued items over to a run.
    pub(crate) fn into_items(self) -> (r: Vec<DownloadedItem>)
        ensures
            items_view(r@) == self@,
    {
        self.items
    }
}

/// Creates a queue holding `cmd` (unless it is already installed) for
/// download from `url` with the default finalization.
pub fn install_by_downloading(cmd: String, url: String) -> (r: DownloadingInstaller)
    ensures
        r@ =~= Seq::<ItemModel>::empty() || r@ =~= seq![
            item_model(cmd@, url@, post_model(Option::<Command>::None)),
        ],
{
    DownloadingInstaller::new().enqueue(cmd, url)
}

/// Installs Homebrew itself when it is missing: downloads the install script
/// with `curl` and feeds it to `ruby`. A non-zero exit of either pipeline is
/// reported as `Error::CommandFailed` with a non-zero code.
pub fn install_brew() -> (r: Result<(), Error>)
    ensures
        r matches Err(Error::CommandFailed(c)) ==> c != 0,
{
    if !check_install("brew") {
        print_line("Installing brew..");
        let fetch = Command::new(
            String::from_str("curl"),
            vec![
                String::from_str("-fsSL"),
                String::from_str("https://raw.githubusercontent.com/Homebrew/install/master/install"),
            ],
        );
        let script = match fetch.read() {
            Ok(s) => s,
            Err(e) => {
                return Err(e);
            },
        };
        let run_script = Command::new(
            String::from_str("ruby"),
            vec![String::from_str("-e"), script],
        );
        match run_script.run() {
            Ok(u) => u,
            Err(e) => {
                return Err(e);
            },
        };
        print_line("Homebrew is installed successfully.");
    }
    Ok(())
}

/// The names marked missing, in their original order.
pub open spec fn selected_names(names: Seq<Seq<char>>, missing: Seq<bool>) -> Seq<Seq<char>>
    recommends
        names.len() == missing.len(),
    decreases names.len(),
{
    if names.len() == 0 || missing.len() == 0 {
        Seq::empty()
    } else {
        let rest = selected_names(names.drop_last(), missing.drop_last());
        if missing.last() {
            rest.push(names.last())
        } else {
            rest
        }
    }
}

/// View of a string sequence push.
proof fn lemma_strs_view_push(ss: Seq<String>, x: String)
    ensures
        strs_view(ss.push(x)) =~= strs_view(ss).push(x@),
{
    assert forall|j: int| 0 <= j < ss.len() + 1 implies strs_view(ss.push(x))[j] == strs_view(
        ss,
    ).push(x@)[j] by {
        assert(strs_view(ss.push(x))[j] == ss.push(x)[j]@);
    }
}

/// Builds the `brew` argument list: the word `install` followed by exactly
/// the formulae marked missing, in their original order.
pub fn formulae_args(formulae: &Vec<String>, missing: &Vec<bool>) -> (r: Vec<String>)
    requires
        formulae@.len() == missing@.len(),
    ensures
        strs_view(r@) =~= seq!["install"@] + selected_names(strs_view(formulae@), missing@),
{
    let mut r: Vec<String> = Vec::new();
    r.push(String::from_str("install"));
    proof {
        assert(strs_view(r@) =~= seq!["install"@]);
        assert(strs_view(formulae@).take(0) =~= Seq::empty());
        assert(missing@.take(0) =~= Seq::empty());
    }
    let mut i: usize = 0;
    while i < formulae.len()
        invariant
            i <= formulae@.len(),
            formulae@.len() == missing@.len(),
            strs_view(r@) =~= seq!["install"@] + selected_names(
                strs_view(formulae@).take(i as int),
                missing@.take(i as int),
            ),
        decreases formulae@.len() - i,
    {
        let ghost pre = r@;
        if missing[i] {
            r.push(formulae[i].clone());
            proof {
                lemma_strs_view_push(pre, formulae@[i as int]);
            }
        }
        proof {
            let names1 = strs_view(formulae@).take(i as int + 1);
            let miss1 = missing@.take(i as int + 1);
            assert(names1.drop_last() =~= strs_view(formulae@).take(i as int));
            assert(miss1.drop_last() =~= missing@.take(i as int));
            assert(names1.last() == formulae@[i as int]@);
            assert(miss1.last() == missing@[i as int]);
            assert(selected_names(names1, miss1) == (if missing@[i as int] {
                selected_names(strs_view(formulae@).take(i as int), missing@.take(i as int)).push(
                    formulae@[i as int]@,
                )
            } else {
                selected_names(strs_view(formulae@).take(i as int), missing@.take(i as int))
            }));
            assert(strs_view(r@) =~= seq!["install"@] + selected_names(names1, miss1));
        }
        i = i + 1;
    }
    proof {
        assert(strs_view(formulae@).take(formulae@.len() as int) =~= strs_view(formulae@));
        assert(missing@.take(missing@.len() as int) =~= missing@);
    }
    r
}

/// Installs the given Homebrew formulae, skipping the ones already present:
/// probes each formula, installs Homebrew itself if anything is missing, runs
/// one `brew install` for all missing formulae, and prints one confirmation
/// line per formula actually installed.
pub fn install_brew_formulae(formulae: Vec<String>) -> (r: Result<(), Error>)
    ensures
        r matches Err(Error::CommandFailed(c)) ==> c != 0,
{
    let mut missing: Vec<bool> = Vec::new();
    let mut i: usize = 0;
    while i < formulae.len()
        invariant
            i <= formulae@.len(),
            missing@.len() == i,
        decreases formulae@.len() - i,
    {
        let installed = check_install(formulae[i].as_str());
        missing.push(!installed);
        i = i + 1;
    }
    let args = formulae_args(&formulae, &missing);
    if args.len() > 1 {
        match install_brew() {
            Ok(u) => u,
            Err(e) => {
                return Err(e);
            },
        };
        let brew = Command::new(String::from_str("brew"), args);
        match brew.run() {
            Ok(u) => u,
            Err(e) => {
                return Err(e);
            },
        };
        let mut k: usize = 0;
        while k < formulae.len()
            invariant
                k <= formulae@.len(),
                missing@.len() == formulae@.len(),
            decreases formulae@.len() - k,
        {
            if missing[k] {
                let line = String::from_str("Homebrew formula ").concat(
                    formulae[k].as_str(),
                ).concat(" is installed successfully.");
                print_line(line.as_str());
            }
            k = k + 1;
        }
    }
    Ok(())
}

/// Installs one Homebrew formula, skipping it when already present.
pub fn install_brew_formula(formula: String) -> (r: Result<(), Error>)
    ensures
        r matches Err(Error::CommandFailed(c)) ==> c != 0,
{
    install_brew_formulae(vec![formula])
}

} // verus!
