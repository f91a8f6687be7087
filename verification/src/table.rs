//! The watch table: the mapping from watch identifier to resolved copy
//! action.
//!
//! It is filled once during setup, as each watch registration returns its
//! identifier, and is read-only afterwards: event dispatch is pure lookup.

use vstd::prelude::*;

verus! {

broadcast use vstd::std_specs::hash::group_hash_axioms;

use std::collections::HashMap;
use crate::resolve::ResolvedTarget;

/// Maps each registered watch identifier to the resolved (source, target)
/// pair whose copy action the identifier's events trigger.
pub struct WatchTable {
    entries: HashMap<i64, ResolvedTarget>,
}

impl View for WatchTable {
    type V = Map<i64, ResolvedTarget>;

    closed spec fn view(&self) -> Map<i64, ResolvedTarget> {
        self.entries@
    }
}

impl WatchTable {
    /// An empty table: no watch identifier is known.
    pub fn new() -> (r: WatchTable)
        ensures
            r@ == Map::<i64, ResolvedTarget>::empty(),
    {
        WatchTable { entries: HashMap::new() }
    }

    /// Records that the watch registered under `wd` triggers the copy action
    /// of `target`.
    pub fn insert(&mut self, wd: i64, target: ResolvedTarget)
        ensures
            final(self)@ == old(self)@.insert(wd, target),
    {
        self.entries.insert(wd, target);
    }

    /// The copy action registered under `wd`, or `None` when no watch is
    /// known by that identifier.
    pub fn get(&self, wd: i64) -> (r: Option<&ResolvedTarget>)
        ensures
            match r {
                Some(t) => self@.contains_key(wd) && *t == self@[wd],
                None => !self@.contains_key(wd),
            },
    {
        self.entries.get(&wd)
    }

    /// How many watches the table knows.
    pub fn len(&self) -> (n: usize)
        ensures
            n == self@.dom().len(),
    {
        self.entries.len()
    }
}

} // verus!
