//! Session identifiers.
//!
//! Every accepted connection gets the next identifier of a counter that
//! starts at one. Identifiers are handed out in acceptance order.

use vstd::prelude::*;

verus! {

/// The identifier of the first session of a process.
pub const FIRST_SESSION_ID: u64 = 1;

/// The identifier that a counter at `start` hands out at its `k`-th
/// allocation, counted from zero. The counter is a 64-bit register: past
/// `u64::MAX` it starts again at zero.
pub open spec fn issued(start: u64, k: nat) -> u64 {
    ((start as nat + k) % 0x1_0000_0000_0000_0000) as u64
}

/// The source of session identifiers.
pub struct SessionCounter {
    next: u64,
}

impl SessionCounter {
    /// The identifier that the next allocation returns.
    pub closed spec fn view(&self) -> u64 {
        self.next
    }

    /// A counter whose first identifier is `FIRST_SESSION_ID`.
    pub fn new() -> (counter: SessionCounter)
        ensures
            counter@ == FIRST_SESSION_ID,
    {
        SessionCounter { next: FIRST_SESSION_ID }
    }

    /// The identifier that the next allocation returns, without taking it.
    pub fn peek(&self) -> (id: u64)
        ensures
            id == self@,
    {
        self.next
    }

    /// Takes the next identifier. The exclusive borrow keeps two accepts from
    /// taking the same one.
    pub fn allocate(&mut self) -> (id: u64)
        ensures
            id == old(self)@,
            id == issued(old(self)@, 0),
            final(self)@ == issued(old(self)@, 1),
    {
        let id: u64 = self.next;
        self.next = id.wrapping_add(1);
        id
    }
}

/// Allocating `k` times and then `m` times is allocating `k + m` times: the
/// counter after `k` allocations stands where a counter started at the
/// `k`-th identifier stands.
pub proof fn lemma_issued_composes(start: u64, k: nat, m: nat)
    ensures
        issued(issued(start, k), m) == issued(start, k + m),
{
    let w: int = 0x1_0000_0000_0000_0000;
    let a: int = start as int + k as int;
    vstd::arithmetic::div_mod::lemma_add_mod_noop(a, m as int, w);
    vstd::arithmetic::div_mod::lemma_mod_twice(a, w);
    vstd::arithmetic::div_mod::lemma_add_mod_noop(a % w, m as int, w);
}

/// Identifiers are strictly increasing in acceptance order, hence distinct,
/// for as long as the counter has not run through all 64-bit values: of two
/// allocations, the later one gets the greater identifier.
pub proof fn lemma_ids_strictly_increasing(start: u64, i: nat, j: nat)
    requires
        i < j,
        start + j <= u64::MAX,
    ensures
        issued(start, i) < issued(start, j),
        issued(start, i) == start + i,
        issued(start, j) == start + j,
{
}

/// A fresh counter hands out 1, 2, 3, ... in acceptance order.
pub proof fn lemma_fresh_counter_ids(k: nat)
    requires
        k < u64::MAX,
    ensures
        issued(FIRST_SESSION_ID, k) == k + 1,
{
}

} // verus!
