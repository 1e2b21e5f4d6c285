//! Monotonic identifier allocation.
//!
//! Two flavours of handle share one counter discipline: a process-wide
//! counter backs `GlobalId`, and one counter per thread backs
//! `ThreadLocalId`. A counter hands out its current value and advances by
//! one; when the advance would overflow, allocation reports absence and the
//! counter stays put, so exhaustion is permanent and no value is ever
//! handed out twice by the same counter.

use vstd::prelude::*;

verus! {

/// The value handed out when the counter stands at `c`: the counter itself,
/// unless the post-increment would overflow.
pub open spec fn alloc_result(c: usize) -> Option<usize> {
    if c < usize::MAX {
        Some(c)
    } else {
        None
    }
}

/// The counter state after one allocation attempt at state `c`.
pub open spec fn alloc_step(c: usize) -> usize {
    if c < usize::MAX {
        (c + 1) as usize
    } else {
        c
    }
}

/// The counter state after `k` allocation attempts starting from `c`.
pub open spec fn alloc_steps(c: usize, k: nat) -> usize
    decreases k,
{
    if k == 0 {
        c
    } else {
        alloc_step(alloc_steps(c, (k - 1) as nat))
    }
}

/// A handle unique across all allocations drawn from one shared
/// `GlobalIdAllocator`; once handed out, the value is never produced again.
/// Equality and hashing go by the raw counter value.
#[derive(Copy, Clone, PartialEq, Eq, Structural, Debug, Hash)]
pub struct GlobalId(pub usize);

/// The process-wide counter behind `GlobalId::allocate`. One instance is
/// meant to be shared by every thread that allocates global ids.
pub struct GlobalIdAllocator {
    pub next: usize,
}

impl GlobalIdAllocator {
    pub fn new() -> (r: Self)
        ensures
            r.next == 0,
    {
        GlobalIdAllocator { next: 0 }
    }
}

impl GlobalId {
    /// Draw the next process-wide id, or `None` forever once the counter
    /// would overflow.
    pub fn allocate(counter: &mut GlobalIdAllocator) -> (r: Option<GlobalId>)
        ensures
            final(counter).next == alloc_step(old(counter).next),
            r is Some <==> alloc_result(old(counter).next) is Some,
            r matches Some(id) ==> Some(id.0) == alloc_result(old(counter).next),
    {
        if counter.next < usize::MAX {
            let id = GlobalId(counter.next);
            counter.next = counter.next + 1;
            Some(id)
        } else {
            None
        }
    }
}

/// A handle unique among the allocations drawn from one
/// `ThreadLocalIdAllocator`. Each thread owns its own allocator, so values
/// from different threads may collide numerically and must never be
/// compared across threads.
#[derive(Copy, Clone, PartialEq, Eq, Structural, Debug, Hash)]
pub struct ThreadLocalId(pub usize);

/// The per-thread counter behind `ThreadLocalId::allocate`; it shares no
/// state with any other thread's allocator.
pub struct ThreadLocalIdAllocator {
    pub next: usize,
}

impl ThreadLocalIdAllocator {
    pub fn new() -> (r: Self)
        ensures
            r.next == 0,
    {
        ThreadLocalIdAllocator { next: 0 }
    }
}

impl ThreadLocalId {
    /// Draw the next id of the calling thread's counter, or `None` forever
    /// once that counter would overflow.
    pub fn allocate(counter: &mut ThreadLocalIdAllocator) -> (r: Option<ThreadLocalId>)
        ensures
            final(counter).next == alloc_step(old(counter).next),
            r is Some <==> alloc_result(old(counter).next) is Some,
            r matches Some(id) ==> Some(id.0) == alloc_result(old(counter).next),
    {
        if counter.next < usize::MAX {
            let id = ThreadLocalId(counter.next);
            counter.next = counter.next + 1;
            Some(id)
        } else {
            None
        }
    }
}

/// A counter never moves backwards over a run of allocation attempts.
proof fn lemma_steps_monotone(c0: usize, i: nat, j: nat)
    requires
        i <= j,
    ensures
        alloc_steps(c0, i) <= alloc_steps(c0, j),
    decreases j,
{
    if i < j {
        lemma_steps_monotone(c0, i, (j - 1) as nat);
    }
}

/// All successful allocations of one run are pairwise distinct.
///
/// In a run of allocation attempts from one counter — the process-wide
/// counter of `GlobalId`, shared by any mixture of threads, or the
/// private counter of `ThreadLocalId` within a single thread — the values
/// returned at two different steps differ whenever both steps succeed.
pub proof fn lemma_ids_pairwise_distinct(c0: usize, i: nat, j: nat)
    requires
        i < j,
        alloc_result(alloc_steps(c0, i)) is Some,
        alloc_result(alloc_steps(c0, j)) is Some,
    ensures
        alloc_result(alloc_steps(c0, i)) != alloc_result(alloc_steps(c0, j)),
{
    lemma_steps_monotone(c0, (i + 1) as nat, j);
}

/// Allocation fails exactly when the counter would overflow, and the
/// failure is permanent: every later attempt also fails, because a failed
/// attempt leaves the counter unchanged.
pub proof fn lemma_exhaustion_permanent(c0: usize, k: nat)
    ensures
        alloc_result(c0) is None <==> c0 == usize::MAX,
        c0 == usize::MAX ==> alloc_steps(c0, k) == c0,
        c0 == usize::MAX ==> alloc_result(alloc_steps(c0, k)) is None,
    decreases k,
{
    if k > 0 {
        lemma_exhaustion_permanent(c0, (k - 1) as nat);
    }
}

} // verus!
