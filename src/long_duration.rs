use vstd::prelude::*;

verus! {

/// A non-negative span of whole seconds.
#[derive(Debug)]
pub struct LongDuration {
    seconds: u64,
}

impl View for LongDuration {
    type V = nat;

    /// The span in seconds.
    closed spec fn view(&self) -> nat {
        self.seconds as nat
    }
}

impl LongDuration {
    pub fn new_minutes(minutes: u64) -> (r: Self)
        requires
            minutes * 60 <= u64::MAX,
        ensures
            r@ == minutes * 60,
    {
        Self { seconds: minutes * 60 }
    }

    pub fn new_seconds(seconds: u64) -> (r: Self)
        ensures
            r@ == seconds,
    {
        Self { seconds }
    }

    /// Whole minutes, rounded down.
    pub fn minutes(&self) -> (r: u64)
        ensures
            r == self@ / 60,
    {
        self.seconds / 60
    }

    pub fn seconds(&self) -> (r: u64)
        ensures
            r == self@,
    {
        self.seconds
    }

    pub fn add(&self, rhs: &LongDuration) -> (r: LongDuration)
        requires
            self@ + rhs@ <= u64::MAX,
        ensures
            r@ == self@ + rhs@,
    {
        LongDuration::new_seconds(self.seconds() + rhs.seconds())
    }

    /// The difference; the caller guarantees that `rhs` is not longer.
    pub fn sub(&self, rhs: &LongDuration) -> (r: LongDuration)
        requires
            rhs@ <= self@,
        ensures
            r@ == self@ - rhs@,
    {
        LongDuration::new_seconds(self.seconds() - rhs.seconds())
    }
}

/// A duration made from `m` whole minutes reads back as `m` minutes: the
/// seconds that `new_minutes` stores, divided down as `minutes` does, give `m`.
pub proof fn lemma_minutes_round_trip(m: nat)
    ensures
        (m * 60) / 60 == m,
{
    assert((m * 60) / 60 == m) by (nonlinear_arith);
}

} // verus!
