//! The breakpoint table: the set of currently armed pause points, keyed by
//! instruction address. A `SetBreakpoints` request replaces the whole table;
//! matching during execution is strict equality with the current program
//! counter. Duplicates are stored as given, which a replacement makes
//! harmless: membership alone decides a match.
use vstd::prelude::*;

verus! {

/// The armed pause points. The view is the sequence of stored addresses in
/// request order; only membership matters for matching.
#[derive(Clone, Debug)]
pub struct BreakpointTable {
    addresses: Vec<u64>,
}

impl View for BreakpointTable {
    type V = Seq<u64>;

    closed spec fn view(&self) -> Seq<u64> {
        self.addresses@
    }
}

impl BreakpointTable {
    /// A fresh table with nothing armed.
    pub fn empty() -> (t: BreakpointTable)
        ensures
            t@ == Seq::<u64>::empty(),
    {
        BreakpointTable { addresses: Vec::new() }
    }

    /// Replaces the whole table with the addresses of the newest request:
    /// clear, then insert, never merge. Afterwards the table holds exactly
    /// the addresses given now, whatever it held before.
    pub fn replace(&mut self, addresses: Vec<u64>)
        ensures
            final(self)@ == addresses@,
    {
        self.addresses = addresses;
    }

    /// Strict-equality matching against the current program counter. First
    /// match wins and table order is irrelevant, so the answer is plain
    /// membership.
    pub fn matches(&self, address: u64) -> (r: bool)
        ensures
            r == self@.contains(address),
    {
        let mut i: usize = 0;
        while i < self.addresses.len()
            invariant
                i <= self.addresses.len(),
                forall|j: int| 0 <= j < i ==> self.addresses@[j] != address,
            decreases self.addresses.len() - i,
        {
            if self.addresses[i] == address {
                return true;
            }
            i += 1;
        }
        false
    }
}

/// The table a `SetBreakpoints` request leaves behind, as a function of the
/// table it found and the addresses it carried.
pub open spec fn replaced(table: Seq<u64>, addresses: Seq<u64>) -> Seq<u64> {
    addresses
}

/// Replacement keeps no history: after any sequence of `SetBreakpoints`
/// requests, the table holds exactly the addresses of the latest one, no
/// matter what the earlier requests armed.
pub proof fn lemma_replace_forgets_history(table: Seq<u64>, first: Seq<u64>, second: Seq<u64>)
    ensures
        replaced(replaced(table, first), second) == second,
        replaced(table, second) == second,
{
}

} // verus!
