//! A bounded log of the most recent entries.
use std::collections::VecDeque;

use vstd::prelude::*;

verus! {

/// Keeps the last `size` entries pushed, oldest first.
pub struct DebugLog {
    entries: VecDeque<String>,
    size: usize,
}

impl DebugLog {
    /// The entries, oldest first.
    pub closed spec fn entries(&self) -> Seq<String> {
        self.entries@
    }

    /// The number of entries the log keeps.
    pub closed spec fn size(&self) -> nat {
        self.size as nat
    }

    pub open spec fn wf(&self) -> bool {
        self.entries().len() <= self.size()
    }

    /// An empty log that keeps up to `size` entries.
    pub fn new(size: usize) -> (r: DebugLog)
        ensures
            r.wf(),
            r.entries() == Seq::<String>::empty(),
            r.size() == size,
    {
        DebugLog { entries: VecDeque::with_capacity(size), size }
    }

    /// Appends `entry`, dropping the oldest entry when the log is full.
    pub fn push(&mut self, entry: String)
        requires
            old(self).wf(),
        ensures
            final(self).wf(),
            final(self).size() == old(self).size(),
            final(self).entries() == if old(self).entries().len() < old(self).size() {
                old(self).entries().push(entry)
            } else {
                old(self).entries().push(entry).subrange(1, old(self).entries().len() as int + 1)
            },
    {
        self.entries.push_back(entry);
        if self.entries.len() > self.size {
            self.entries.pop_front();
        }
    }

    /// The number of entries held.
    pub fn len(&self) -> (r: usize)
        ensures
            r == self.entries().len(),
    {
        self.entries.len()
    }

    /// The most recent entry, if any.
    pub fn last_entry(&self) -> (r: Option<&String>)
        ensures
            r == if self.entries().len() == 0 {
                None
            } else {
                Some(&self.entries().last())
            },
    {
        let n = self.entries.len();
        if n == 0 {
            None
        } else {
            Some(&self.entries[n - 1])
        }
    }
}

} // verus!
