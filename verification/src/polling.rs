//! Waiting for receipts: the pauses between two queries grow by doubling up
//! to a longest pause, and the wait ends at a deadline.

use vstd::prelude::*;

verus! {

/// How receipts are waited for. All times are in milliseconds.
#[derive(Clone, Copy, Debug, PartialEq, Eq, Structural)]
pub struct Backoff {
    /// The pause after the first query that found no receipt.
    pub first: u64,
    /// The longest pause between two queries.
    pub longest: u64,
    /// How long receipts are waited for in all.
    pub deadline: u64,
}

/// The smaller of two numbers.
pub open spec fn least(a: nat, b: nat) -> nat {
    if a <= b {
        a
    } else {
        b
    }
}

/// The pause after the query with this number, counted from zero: the first
/// pause doubled once for every query before it, and never more than the
/// longest pause.
pub open spec fn pause_after(first: nat, longest: nat, query: nat) -> nat
    decreases query,
{
    if query == 0 {
        least(first, longest)
    } else {
        least(2 * pause_after(first, longest, (query - 1) as nat), longest)
    }
}

impl Backoff {
    /// The default: a quarter of a second at first, eight seconds at most,
    /// forty-five minutes in all.
    pub fn standard() -> (backoff: Backoff)
        ensures
            backoff == (Backoff { first: 250, longest: 8_000, deadline: 2_700_000 }),
    {
        Backoff { first: 250, longest: 8_000, deadline: 2_700_000 }
    }

    /// The pause after the query with this number, counted from zero.
    pub fn pause(&self, query: u32) -> (pause: u64)
        ensures
            pause == pause_after(self.first as nat, self.longest as nat, query as nat),
            pause <= self.longest,
    {
        let mut pause: u64 = if self.first <= self.longest {
            self.first
        } else {
            self.longest
        };
        let mut done: u32 = 0;
        while done < query
            invariant
                done <= query,
                pause <= self.longest,
                pause == pause_after(self.first as nat, self.longest as nat, done as nat),
            decreases query - done,
        {
            pause = if pause >= self.longest - pause {
                self.longest
            } else {
                pause * 2
            };
            done += 1;
        }
        pause
    }

    /// What follows a query that found no receipt, after `waited`
    /// milliseconds of waiting: the pause before the next query, or nothing
    /// where that pause would end after the deadline.
    pub fn next_pause(&self, waited: u64, query: u32) -> (pause: Option<u64>)
        ensures
            pause is Some <==> waited + pause_after(
                self.first as nat,
                self.longest as nat,
                query as nat,
            ) <= self.deadline,
            pause is Some ==> pause->0 == pause_after(
                self.first as nat,
                self.longest as nat,
                query as nat,
            ),
    {
        let pause = self.pause(query);
        if waited <= self.deadline && pause <= self.deadline - waited {
            Some(pause)
        } else {
            None
        }
    }
}

/// Pauses never get shorter from one query to the next, and none is longer
/// than the longest pause.
pub proof fn lemma_pauses_grow(first: nat, longest: nat, query: nat)
    ensures
        pause_after(first, longest, query) <= longest,
        pause_after(first, longest, query) <= pause_after(first, longest, query + 1),
    decreases query,
{
    if query > 0 {
        lemma_pauses_grow(first, longest, (query - 1) as nat);
    }
}

} // verus!
