//! Round-robin selection over a fixed set of secondary outputs.

use vstd::prelude::*;

verus! {

/// Persistent cursor that cycles through the members of a fixed-size set,
/// one per call. The counter only ever grows (wrapping at the top of its
/// range); the index handed out is the counter reduced modulo the set's
/// size, so it stays in bounds however large the counter gets.
#[derive(Clone, Copy, PartialEq, Eq, Structural, Debug)]
pub struct RoundRobinCursor {
    /// Number of selections made so far, wrapping at `u64::MAX`.
    pub counter: u64,
}

impl RoundRobinCursor {
    /// A fresh cursor; the first selection from it is index 0.
    pub fn new() -> (cursor: RoundRobinCursor)
        ensures
            cursor.counter == 0,
    {
        RoundRobinCursor { counter: 0 }
    }

    /// Returns the next index in round-robin order over `count` members
    /// and advances the cursor. The index is the current counter modulo
    /// `count`, so it is always in `[0, count)`.
    pub fn advance_and_select(&mut self, count: usize) -> (index: usize)
        requires
            count > 0,
        ensures
            index == old(self).counter as int % count as int,
            index < count,
            final(self).counter == if old(self).counter == u64::MAX {
                0u64
            } else {
                (old(self).counter + 1) as u64
            },
    {
        let index = (self.counter % (count as u64)) as usize;
        if self.counter == u64::MAX {
            self.counter = 0;
        } else {
            self.counter = self.counter + 1;
        }
        index
    }
}

} // verus!
