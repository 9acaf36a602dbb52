//! Reservation of a contiguous block of user numbers against the shared
//! remote counter.

use vstd::prelude::*;

verus! {

/// A contiguous range of user numbers reserved for one run: the counter
/// value observed at reservation time, and how many numbers follow it.
#[derive(Clone, Copy, PartialEq, Eq, Structural, Debug)]
pub struct UserBlock {
    pub start_number: i32,
    pub count: i32,
}

/// What the counter must be set to once a block of `count` numbers has been
/// reserved at `observed`.
pub open spec fn counter_after(observed: int, count: int) -> int {
    observed + count
}

/// The user number assigned to one ordinal of a block, counted from 1.
pub open spec fn assigned_number(start: int, ordinal: int) -> int {
    start + ordinal
}

/// Plans a reservation from the counter value just observed: the block
/// starts at the observed value, and the counter is advanced past the
/// block. The write back is not conditional on the counter still holding
/// `observed`, so two concurrent reservations may observe the same value
/// and overlap; that race is accepted by design.
pub fn plan_reservation(observed: i32, count: i32) -> (r: (UserBlock, i32))
    requires
        0 < count,
        observed + count <= i32::MAX,
    ensures
        r.0.start_number == observed,
        r.0.count == count,
        r.1 as int == counter_after(observed as int, count as int),
{
    (UserBlock { start_number: observed, count }, observed + count)
}

impl UserBlock {
    /// The user number assigned to `ordinal`, counted from 1: the block's
    /// start plus the ordinal.
    pub fn assigned_user_number(&self, ordinal: i32) -> (n: i32)
        requires
            1 <= ordinal <= self.count,
            self.start_number + self.count <= i32::MAX,
        ensures
            n as int == assigned_number(self.start_number as int, ordinal as int),
    {
        self.start_number + ordinal
    }
}

/// Distinct ordinals of one block always receive distinct user numbers.
pub proof fn lemma_assigned_numbers_distinct(start: int, a: int, b: int)
    requires
        a != b,
    ensures
        assigned_number(start, a) != assigned_number(start, b),
{
}

} // verus!
