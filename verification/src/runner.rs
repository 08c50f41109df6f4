//! The install run: a bounded-concurrency state machine over the queued items.
//!
//! Downloading and finalizing are performed by an unverified shell around the
//! library (network streaming and file-system work cannot be verified); every
//! decision is made here. The shell repeatedly asks [`InstallRun::next_to_start`]
//! which item may begin, reports progress and completion through the event
//! methods, performs the [`FinalizeAction`] each finished download maps to,
//! and finally prints [`InstallRun::confirmation_lines`], which are in original
//! enqueue order no matter in which order items completed.
//!
//! At most [`CONCURRENCY_LIMIT`] items are ever in the `Downloading` state:
//! `start` demands a free slot, and every transition preserves the bound.

use vstd::prelude::*;
use vstd::string::*;

use crate::installer::{DownloadedItem, DownloadingInstaller, ItemModel, items_view, strs_view};
use crate::process::Command;

verus! {

/// The fixed cap on simultaneously downloading items.
pub const CONCURRENCY_LIMIT: usize = 4;

/// Per-item state: `Downloading` carries the expected total byte count (0
/// until known) and the bytes transferred so far.
#[derive(Clone, Copy, Debug, PartialEq, Eq, Structural)]
pub enum ItemState {
    Pending,
    Downloading { total: u64, got: u64 },
    Finalizing,
    Done,
}

/// The expected total byte count of a downloading item.
pub open spec fn spec_total(st: ItemState) -> u64 {
    match st {
        ItemState::Downloading { total, got } => total,
        _ => 0,
    }
}

/// The bytes transferred so far by a downloading item.
pub open spec fn spec_got(st: ItemState) -> u64 {
    match st {
        ItemState::Downloading { total, got } => got,
        _ => 0,
    }
}

/// How many states of a sequence are `Downloading`.
pub open spec fn count_downloading(s: Seq<ItemState>) -> nat
    decreases s.len(),
{
    if s.len() == 0 {
        0
    } else {
        count_downloading(s.drop_last()) + (if s.last() is Downloading {
            1nat
        } else {
            0nat
        })
    }
}

/// Updating one state changes the downloading count by the difference of the
/// old and new entries' contributions.
pub proof fn lemma_count_update(s: Seq<ItemState>, i: int, v: ItemState)
    requires
        0 <= i < s.len(),
    ensures
        count_downloading(s.update(i, v)) + (if s[i] is Downloading {
            1nat
        } else {
            0nat
        }) == count_downloading(s) + (if v is Downloading {
            1nat
        } else {
            0nat
        }),
    decreases s.len(),
{
    let t = s.update(i, v);
    if i == s.len() - 1 {
        assert(t.drop_last() =~= s.drop_last());
        assert(t.last() == v);
    } else {
        assert(t.drop_last() =~= s.drop_last().update(i, v));
        assert(t.last() == s.last());
        lemma_count_update(s.drop_last(), i, v);
    }
}

/// Appending a state adds its own contribution to the downloading count.
pub proof fn lemma_count_push(s: Seq<ItemState>, v: ItemState)
    ensures
        count_downloading(s.push(v)) == count_downloading(s) + (if v is Downloading {
            1nat
        } else {
            0nat
        }),
{
    assert(s.push(v).drop_last() =~= s);
    assert(s.push(v).last() == v);
}

/// What the unverified shell must do once an item's download has completed:
/// either run the item's own post-install pipeline, or perform the default
/// finalization — set the downloaded file's permission bits to `mode` and
/// move it to `dest`.
#[derive(Debug)]
pub enum FinalizeAction {
    RunPipeline(Command),
    Install { file: String, dest: String, mode: u32 },
}

/// Saturating byte-count addition.
pub open spec fn sat_add(a: u64, b: u64) -> u64 {
    if a + b > u64::MAX {
        u64::MAX
    } else {
        (a + b) as u64
    }
}

/// One run of the download queue: the queued items (fixed for the whole run,
/// in enqueue order) and each item's current state.
#[derive(Debug)]
pub struct InstallRun {
    items: Vec<DownloadedItem>,
    states: Vec<ItemState>,
}

impl InstallRun {
    /// The models of the run's items, in enqueue order.
    pub closed spec fn items_model(&self) -> Seq<ItemModel> {
        items_view(self.items@)
    }

    /// The per-item states, indexed like `items_model`.
    pub closed spec fn states_seq(&self) -> Seq<ItemState> {
        self.states@
    }

    /// One state per item, and no more than the limit downloading.
    pub open spec fn wf(&self) -> bool {
        &&& self.states_seq().len() == self.items_model().len()
        &&& count_downloading(self.states_seq()) <= CONCURRENCY_LIMIT
    }

    /// The number of items in the run.
    pub fn item_count(&self) -> (n: usize)
        ensures
            n == self.items_model().len(),
    {
        self.items.len()
    }

    /// The name of the item at `i`.
    pub fn name_at(&self, i: usize) -> (r: &String)
        requires
            i < self.items_model().len(),
        ensures
            r@ == self.items_model()[i as int].name,
    {
        &self.items[i].cmd
    }

    /// The download URL of the item at `i`.
    pub fn url_at(&self, i: usize) -> (r: &String)
        requires
            i < self.items_model().len(),
        ensures
            r@ == self.items_model()[i as int].url,
    {
        &self.items[i].url
    }

    /// The current state of the item at `i`.
    pub fn state_of(&self, i: usize) -> (st: ItemState)
        requires
            i < self.states_seq().len(),
        ensures
            st == self.states_seq()[i as int],
    {
        self.states[i]
    }

    /// How many items are currently downloading.
    pub fn downloading_count(&self) -> (c: usize)
        ensures
            c == count_downloading(self.states_seq()),
    {
        let mut c: usize = 0;
        let mut i: usize = 0;
        while i < self.states.len()
            invariant
                i <= self.states@.len(),
                c <= i,
                c == count_downloading(self.states@.take(i as int)),
            decreases self.states@.len() - i,
        {
            let is_dl = match self.states[i] {
                ItemState::Downloading { .. } => true,
                _ => false,
            };
            proof {
                let t = self.states@.take(i as int + 1);
                assert(t.drop_last() =~= self.states@.take(i as int));
                assert(t.last() == self.states@[i as int]);
            }
            if is_dl {
                c = c + 1;
            }
            i = i + 1;
        }
        proof {
            assert(self.states@.take(self.states@.len() as int) =~= self.states@);
        }
        c
    }

    /// Picks the item to start next: the first pending item, provided a
    /// download slot is free; `None` when all slots are taken or nothing is
    /// pending.
    pub fn next_to_start(&self) -> (r: Option<usize>)
        requires
            self.wf(),
        ensures
            r matches Some(i) ==> {
                &&& i < self.states_seq().len()
                &&& self.states_seq()[i as int] is Pending
                &&& count_downloading(self.states_seq()) < CONCURRENCY_LIMIT
                &&& forall|j: int| 0 <= j < i ==> !(self.states_seq()[j] is Pending)
            },
            r is None ==> count_downloading(self.states_seq()) >= CONCURRENCY_LIMIT
                || (forall|j: int|
                    0 <= j < self.states_seq().len() ==> !(self.states_seq()[j] is Pending)),
    {
        if self.downloading_count() >= CONCURRENCY_LIMIT {
            return None;
        }
        let mut i: usize = 0;
        while i < self.states.len()
            invariant
                i <= self.states@.len(),
                count_downloading(self.states@) < CONCURRENCY_LIMIT,
                forall|j: int| 0 <= j < i ==> !(self.states@[j] is Pending),
            decreases self.states@.len() - i,
        {
            let pending = match self.states[i] {
                ItemState::Pending => true,
                _ => false,
            };
            if pending {
                return Some(i);
            }
            i = i + 1;
        }
        None
    }

    /// Moves the pending item at `i` into the `Downloading` state, consuming
    /// a free slot; progress starts at zero bytes of an unknown total.
    pub fn start(&mut self, i: usize)
        requires
            old(self).wf(),
            i < old(self).states_seq().len(),
            old(self).states_seq()[i as int] is Pending,
            count_downloading(old(self).states_seq()) < CONCURRENCY_LIMIT,
        ensures
            final(self).states_seq() =~= old(self).states_seq().update(
                i as int,
                (ItemState::Downloading { total: 0, got: 0 }),
            ),
            final(self).items_model() == old(self).items_model(),
            count_downloading(final(self).states_seq()) == count_downloading(
                old(self).states_seq(),
            ) + 1,
            final(self).wf(),
    {
        self.states[i] = ItemState::Downloading { total: 0, got: 0 };
        proof {
            lemma_count_update(
                old(self).states_seq(),
                i as int,
                ItemState::Downloading { total: 0, got: 0 },
            );
        }
    }

    /// Records the expected total byte count of the downloading item at `i`
    /// (0 when the response declared none).
    pub fn set_total(&mut self, i: usize, total: u64)
        requires
            old(self).wf(),
            i < old(self).states_seq().len(),
            old(self).states_seq()[i as int] is Downloading,
        ensures
            final(self).states_seq() =~= old(self).states_seq().update(
                i as int,
                (ItemState::Downloading { total, got: spec_got(old(self).states_seq()[i as int]) }),
            ),
            final(self).items_model() == old(self).items_model(),
            count_downloading(final(self).states_seq()) == count_downloading(
                old(self).states_seq(),
            ),
            final(self).wf(),
    {
        let g = match self.states[i] {
            ItemState::Downloading { total: _, got } => got,
            _ => 0,
        };
        self.states[i] = ItemState::Downloading { total, got: g };
        proof {
            lemma_count_update(
                old(self).states_seq(),
                i as int,
                ItemState::Downloading { total, got: g },
            );
        }
    }

    /// Records `n` more transferred bytes for the downloading item at `i`.
    /// The transferred count never decreases.
    pub fn on_chunk(&mut self, i: usize, n: u64)
        requires
            old(self).wf(),
            i < old(self).states_seq().len(),
            old(self).states_seq()[i as int] is Downloading,
        ensures
            final(self).states_seq() =~= old(self).states_seq().update(
                i as int,
                (ItemState::Downloading {
                    total: spec_total(old(self).states_seq()[i as int]),
                    got: sat_add(spec_got(old(self).states_seq()[i as int]), n),
                }),
            ),
            spec_got(final(self).states_seq()[i as int]) >= spec_got(
                old(self).states_seq()[i as int],
            ),
            final(self).items_model() == old(self).items_model(),
            count_downloading(final(self).states_seq()) == count_downloading(
                old(self).states_seq(),
            ),
            final(self).wf(),
    {
        let (t, g) = match self.states[i] {
            ItemState::Downloading { total, got } => (total, got),
            _ => (0, 0),
        };
        let g2 = if g > u64::MAX - n {
            u64::MAX
        } else {
            g + n
        };
        self.states[i] = ItemState::Downloading { total: t, got: g2 };
        proof {
            lemma_count_update(
                old(self).states_seq(),
                i as int,
                ItemState::Downloading { total: t, got: g2 },
            );
        }
    }

    /// Moves the downloading item at `i` to `Finalizing` (freeing its slot)
    /// and returns what the shell must now do: run the item's post-install
    /// pipeline if one was supplied, else the default finalization — mark the
    /// downloaded file executable (permission bits `0o755`) and move it into
    /// the standard install directory under the item's name.
    pub fn finish_download(&mut self, i: usize) -> (a: FinalizeAction)
        requires
            old(self).wf(),
            i < old(self).states_seq().len(),
            old(self).states_seq()[i as int] is Downloading,
        ensures
            final(self).states_seq() =~= old(self).states_seq().update(
                i as int,
                ItemState::Finalizing,
            ),
            final(self).items_model() == old(self).items_model(),
            count_downloading(final(self).states_seq()) + 1 == count_downloading(
                old(self).states_seq(),
            ),
            final(self).wf(),
            ({
                let name = old(self).items_model()[i as int].name;
                match old(self).items_model()[i as int].post {
                    Some(stages) => a matches FinalizeAction::RunPipeline(c) && c@ == stages,
                    None => a matches FinalizeAction::Install { file, dest, mode } && file@ == name
                        && dest@ == "/usr/local/bin/"@ + name && mode == 0o755u32,
                }
            }),
    {
        let a = match &self.items[i].postinstall {
            Some(c) => FinalizeAction::RunPipeline(c.clone()),
            None => {
                let dest = String::from_str("/usr/local/bin/").concat(self.items[i].cmd.as_str());
                FinalizeAction::Install { file: self.items[i].cmd.clone(), dest, mode: 0o755 }
            },
        };
        self.states[i] = ItemState::Finalizing;
        proof {
            lemma_count_update(old(self).states_seq(), i as int, ItemState::Finalizing);
        }
        a
    }

    /// Marks the finalizing item at `i` done; its progress indicator is to be
    /// cleared now.
    pub fn finish_finalize(&mut self, i: usize)
        requires
            old(self).wf(),
            i < old(self).states_seq().len(),
            old(self).states_seq()[i as int] is Finalizing,
        ensures
            final(self).states_seq() =~= old(self).states_seq().update(i as int, ItemState::Done),
            final(self).items_model() == old(self).items_model(),
            count_downloading(final(self).states_seq()) == count_downloading(
                old(self).states_seq(),
            ),
            final(self).wf(),
    {
        self.states[i] = ItemState::Done;
        proof {
            lemma_count_update(old(self).states_seq(), i as int, ItemState::Done);
        }
    }

    /// Whether every item of the run is done.
    pub fn all_done(&self) -> (b: bool)
        ensures
            b == (forall|j: int|
                0 <= j < self.states_seq().len() ==> self.states_seq()[j] is Done),
    {
        let mut i: usize = 0;
        while i < self.states.len()
            invariant
                i <= self.states@.len(),
                forall|j: int| 0 <= j < i ==> self.states@[j] is Done,
            decreases self.states@.len() - i,
        {
            let done = match self.states[i] {
                ItemState::Done => true,
                _ => false,
            };
            if !done {
                return false;
            }
            i = i + 1;
        }
        true
    }

    /// The confirmation lines, one per originally queued item, in original
    /// enqueue order — independent of the order in which items completed,
    /// since the item list never changes during a run.
    pub fn confirmation_lines(&self) -> (r: Vec<String>)
        ensures
            r@.len() == self.items_model().len(),
            forall|j: int|
                0 <= j < r@.len() ==> strs_view(r@)[j] == self.items_model()[j].name
                    + " is installed successfully."@,
    {
        let mut r: Vec<String> = Vec::new();
        let mut i: usize = 0;
        while i < self.items.len()
            invariant
                i <= self.items@.len(),
                r@.len() == i,
                forall|j: int|
                    0 <= j < i ==> r@[j]@ == self.items@[j].cmd@
                        + " is installed successfully."@,
            decreases self.items@.len() - i,
        {
            let line = self.items[i].cmd.clone().concat(" is installed successfully.");
            r.push(line);
            i = i + 1;
        }
        r
    }
}

/// Bounded concurrency: a well-formed run never has more than the limit of
/// items in the `Downloading` state. Every transition of `InstallRun`
/// preserves well-formedness, so the bound holds at every instant of a run
/// driven through this interface.
pub proof fn lemma_bounded_concurrency(r: InstallRun)
    requires
        r.wf(),
    ensures
        count_downloading(r.states_seq()) <= CONCURRENCY_LIMIT,
{
}

impl DownloadingInstaller {
    /// Begins a run of the queue: every queued item starts out `Pending`,
    /// with the items kept in enqueue order. The queue is consumed; the
    /// returned run is driven by the unverified shell.
    pub fn run(self) -> (r: InstallRun)
        ensures
            r.items_model() == self@,
            r.states_seq().len() == self@.len(),
            forall|j: int| 0 <= j < r.states_seq().len() ==> r.states_seq()[j] is Pending,
            count_downloading(r.states_seq()) == 0,
            r.wf(),
    {
        let items = self.into_items();
        let n = items.len();
        let mut states: Vec<ItemState> = Vec::new();
        let mut i: usize = 0;
        while i < n
            invariant
                i <= n,
                states@.len() == i,
                forall|j: int| 0 <= j < i ==> states@[j] is Pending,
                count_downloading(states@) == 0,
            decreases n - i,
        {
            let ghost pre = states@;
            states.push(ItemState::Pending);
            proof {
                lemma_count_push(pre, ItemState::Pending);
            }
            i = i + 1;
        }
        InstallRun { items, states }
    }
}

} // verus!
