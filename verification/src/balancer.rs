//! Round-robin selection over a fixed-size upstream pool.
//!
//! A `RoundRobin` hands out an ever-increasing ticket on every call and
//! reduces it modulo the pool size, so sequential calls cycle through the
//! pool in order starting at index 0.

use vstd::arithmetic::div_mod::{lemma_mod_self_0, lemma_small_mod};
use vstd::prelude::*;

verus! {

/// The index selected for a given ticket over a pool of `pool` upstreams.
pub open spec fn rr_index(ticket: nat, pool: nat) -> nat
    recommends
        pool > 0,
{
    ticket % pool
}

/// The ticket counter value after one more ticket has been handed out.
/// The counter wraps at the machine limit rather than panicking.
pub open spec fn next_ticket(ticket: nat) -> nat {
    if ticket == usize::MAX as nat {
        0
    } else {
        ticket + 1
    }
}

/// Per-route stateful index generator: each call takes a distinct ticket and
/// returns it reduced modulo the pool size.
pub struct RoundRobin {
    counter: usize,
}

impl RoundRobin {
    /// The number of tickets handed out so far (modulo the machine limit).
    pub closed spec fn ticket(&self) -> nat {
        self.counter as nat
    }

    pub fn new() -> (b: RoundRobin)
        ensures
            b.ticket() == 0,
    {
        RoundRobin { counter: 0 }
    }

    /// Takes the next ticket and returns it reduced modulo `pool_size`.
    /// The result is always a valid index into a pool of `pool_size`.
    pub fn next_index(&mut self, pool_size: usize) -> (i: usize)
        requires
            pool_size > 0,
        ensures
            i as nat == rr_index(old(self).ticket(), pool_size as nat),
            i < pool_size,
            final(self).ticket() == next_ticket(old(self).ticket()),
    {
        let current = self.counter;
        self.counter = if self.counter == usize::MAX {
            0
        } else {
            self.counter + 1
        };
        current % pool_size
    }
}

/// Round-robin cycles over the pool: starting from a fresh balancer, whose
/// tickets run 0, 1, 2, ..., the first `pool` calls return each index
/// `0, ..., pool - 1` exactly once, in increasing order, and the call after
/// those returns index 0 again.
pub proof fn lemma_round_robin_cycle(pool: nat, k: nat)
    requires
        0 < pool,
    ensures
        k < pool ==> rr_index(k, pool) == k,
        rr_index(pool, pool) == 0,
{
    if k < pool {
        lemma_small_mod(k, pool);
    }
    lemma_mod_self_0(pool as int);
}

} // verus!
