//! Captured help texts of a command tree.
//!
//! An [`AppHelp`] holds the rendered help bytes of one command and the helps
//! of its subcommands, keyed by name. The unverified command-line shell
//! captures the texts at startup and later asks for the help of the command a
//! mistyped invocation pointed at, by descending along a path of subcommand
//! names.
//!
//! Lookup is first-match over the entry list; names added through
//! [`AppHelp::add_subcommand`] are unique, so the first match is the match.

use vstd::prelude::*;
use vstd::string::*;

use crate::installer::strs_view;

verus! {

/// The help texts of one command and its subcommands.
pub struct AppHelp {
    value: Vec<u8>,
    subcommands: Vec<(String, Box<AppHelp>)>,
}

/// First-match lookup of `name` among subcommand entries.
pub open spec fn lookup_in(
    entries: Seq<(String, Box<AppHelp>)>,
    name: Seq<char>,
) -> Option<AppHelp>
    decreases entries.len(),
{
    if entries.len() == 0 {
        None
    } else if entries[0].0@ == name {
        Some(*entries[0].1)
    } else {
        lookup_in(entries.drop_first(), name)
    }
}

/// Appending an entry changes no existing lookup; a name absent before is
/// found afterwards exactly when the new entry carries it.
pub proof fn lemma_lookup_in_push(
    entries: Seq<(String, Box<AppHelp>)>,
    name: Seq<char>,
    p: (String, Box<AppHelp>),
)
    ensures
        lookup_in(entries.push(p), name) == (if lookup_in(entries, name) is Some {
            lookup_in(entries, name)
        } else if p.0@ == name {
            Some(*p.1)
        } else {
            None
        }),
    decreases entries.len(),
{
    if entries.len() == 0 {
        assert(entries.push(p)[0] == p);
        assert(entries.push(p).drop_first() =~= Seq::<(String, Box<AppHelp>)>::empty());
        assert(lookup_in(Seq::<(String, Box<AppHelp>)>::empty(), name) is None);
    } else {
        assert(entries.push(p)[0] == entries[0]);
        assert(entries.push(p).drop_first() =~= entries.drop_first().push(p));
        lemma_lookup_in_push(entries.drop_first(), name, p);
    }
}

/// The help reached from `h` by following `path` through subcommand lookups.
pub open spec fn descend(h: AppHelp, path: Seq<Seq<char>>) -> Option<AppHelp>
    decreases path.len(),
{
    if path.len() == 0 {
        Some(h)
    } else {
        match h.lookup(path[0]) {
            Some(c) => descend(c, path.drop_first()),
            None => None,
        }
    }
}

impl AppHelp {
    /// The rendered help bytes of this command.
    pub closed spec fn bytes(&self) -> Seq<u8> {
        self.value@
    }

    /// The subcommand entries, in insertion order.
    pub closed spec fn entries(&self) -> Seq<(String, Box<AppHelp>)> {
        self.subcommands@
    }

    /// The help recorded under `name`, if any.
    pub open spec fn lookup(&self, name: Seq<char>) -> Option<AppHelp> {
        lookup_in(self.entries(), name)
    }

    /// A help node with the given rendered bytes and no subcommands yet.
    pub fn new(value: Vec<u8>) -> (r: Self)
        ensures
            r.bytes() == value@,
            r.entries() =~= Seq::<(String, Box<AppHelp>)>::empty(),
    {
        AppHelp { value, subcommands: Vec::new() }
    }

    /// Records `sub` as the help of the subcommand `name`. A name recorded
    /// earlier keeps its help: the shell hands each subcommand's help over
    /// exactly once, so nothing is ever displaced.
    pub fn add_subcommand(&mut self, name: String, sub: AppHelp)
        ensures
            final(self).bytes() == old(self).bytes(),
            old(self).lookup(name@) is Some ==> final(self).entries() == old(self).entries(),
            old(self).lookup(name@) is None ==> final(self).lookup(name@) == Some(sub),
            forall|n: Seq<char>|
                n != name@ ==> final(self).lookup(n) == old(self).lookup(n),
    {
        let present = match self.subcommand(name.as_str()) {
            Some(_) => true,
            None => false,
        };
        if !present {
            let ghost pre = self.subcommands@;
            let p = (name, Box::new(sub));
            self.subcommands.push(p);
            proof {
                assert forall|n: Seq<char>| true implies lookup_in(self.subcommands@, n)
                    == lookup_in(pre.push(p), n) by {
                    assert(self.subcommands@ =~= pre.push(p));
                }
                lemma_lookup_in_push(pre, name@, p);
                assert forall|n: Seq<char>| n != name@ implies lookup_in(
                    self.subcommands@,
                    n,
                ) == lookup_in(pre, n) by {
                    lemma_lookup_in_push(pre, n, p);
                }
            }
        }
    }

    /// The rendered help bytes.
    pub fn value(&self) -> (r: &[u8])
        ensures
            r@ == self.bytes(),
    {
        self.value.as_slice()
    }

    /// The help recorded under `name`, if any.
    pub fn subcommand(&self, name: &str) -> (r: Option<&AppHelp>)
        ensures
            r matches Some(h) ==> self.lookup(name@) == Some(*h),
            r is None ==> self.lookup(name@) is None,
    {
        let owned = name.to_owned();
        proof {
            assert(self.subcommands@.skip(0) =~= self.subcommands@);
        }
        let mut i: usize = 0;
        while i < self.subcommands.len()
            invariant
                i <= self.subcommands@.len(),
                owned@ == name@,
                lookup_in(self.subcommands@, name@) == lookup_in(
                    self.subcommands@.skip(i as int),
                    name@,
                ),
            decreases self.subcommands@.len() - i,
        {
            proof {
                assert(self.subcommands@.skip(i as int)[0] == self.subcommands@[i as int]);
                assert(self.subcommands@.skip(i as int).drop_first() =~= self.subcommands@.skip(
                    i as int + 1,
                ));
            }
            if self.subcommands[i].0 == owned {
                return Some(&self.subcommands[i].1);
            }
            i = i + 1;
        }
        proof {
            assert(self.subcommands@.skip(self.subcommands@.len() as int).len() == 0);
        }
        None
    }

    /// Descends along `path` through subcommand lookups, returning the help
    /// the path leads to, or `None` when some segment is not recorded.
    pub fn find(&self, path: &Vec<String>) -> (r: Option<&AppHelp>)
        ensures
            r matches Some(h) ==> descend(*self, strs_view(path@)) == Some(*h),
            r is None ==> descend(*self, strs_view(path@)) is None,
    {
        let mut cur: &AppHelp = self;
        proof {
            assert(strs_view(path@).skip(0) =~= strs_view(path@));
        }
        let mut i: usize = 0;
        while i < path.len()
            invariant
                i <= path@.len(),
                descend(*self, strs_view(path@)) == descend(
                    *cur,
                    strs_view(path@).skip(i as int),
                ),
            decreases path@.len() - i,
        {
            proof {
                assert(strs_view(path@).skip(i as int)[0] == path@[i as int]@);
                assert(strs_view(path@).skip(i as int).drop_first() =~= strs_view(path@).skip(
                    i as int + 1,
                ));
            }
            match cur.subcommand(path[i].as_str()) {
                Some(h) => {
                    cur = h;
                },
                None => {
                    return None;
                },
            }
            i = i + 1;
        }
        proof {
            assert(strs_view(path@).skip(path@.len() as int).len() == 0);
        }
        Some(cur)
    }
}

} // verus!
