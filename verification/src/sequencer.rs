//! The sequencer: one counter that numbers the records of a run from zero.

use vstd::prelude::*;

verus! {

/// The counter of one pipeline run. It is a value that its run owns, so two
/// runs never share sequence numbers.
pub struct Sequencer {
    next: u64,
}

impl View for Sequencer {
    type V = nat;

    /// The number of sequence numbers issued so far, which is also the next one.
    closed spec fn view(&self) -> nat {
        self.next as nat
    }
}

impl Sequencer {
    /// A counter that has issued nothing.
    pub fn new() -> (s: Sequencer)
        ensures
            s@ == 0,
    {
        Sequencer { next: 0 }
    }

    /// The next sequence number, which equals the count of those issued.
    pub fn issued(&self) -> (n: u64)
        ensures
            n == self@,
    {
        self.next
    }

    /// Issues the next sequence number. The count goes up by exactly one,
    /// whatever becomes of the record that gets the number.
    pub fn issue(&mut self) -> (seq: u64)
        requires
            old(self)@ < u64::MAX,
        ensures
            seq == old(self)@,
            final(self)@ == old(self)@ + 1,
    {
        let seq = self.next;
        self.next = seq + 1;
        seq
    }
}

} // verus!
