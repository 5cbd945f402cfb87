//! A cooperative, deadline-bounded lock that keeps the background search to one
//! run per time step. It is never released by hand: it lapses at its deadline,
//! so a holder that stopped midway cannot keep it.
use vstd::prelude::*;

verus! {

/// The advisory lock: free, or held until a deadline step.
pub struct AdvisoryLock {
    deadline: Option<u64>,
}

impl View for AdvisoryLock {
    type V = Option<u64>;

    /// The step at which the last acquisition lapses, if there was one.
    closed spec fn view(&self) -> Option<u64> {
        self.deadline
    }
}

impl AdvisoryLock {
    /// Whether the lock is held at step `now`: it was acquired and its deadline
    /// has not come yet.
    pub open spec fn is_held_at(&self, now: u64) -> bool {
        match self@ {
            Some(deadline) => now < deadline,
            None => false,
        }
    }

    /// A lock that nobody has taken.
    pub fn new() -> (r: AdvisoryLock)
        ensures
            r@ is None,
    {
        AdvisoryLock { deadline: None }
    }

    /// Tries to take the lock at step `now` for `duration` steps. It fails, and
    /// nothing changes, while an earlier acquisition has not lapsed; otherwise
    /// the lock is taken with the deadline `now + duration` (saturating).
    pub fn try_lock(&mut self, now: u64, duration: u64) -> (acquired: bool)
        ensures
            acquired == !old(self).is_held_at(now),
            acquired ==> final(self)@ == Some(now.saturating_add(duration)),
            !acquired ==> final(self)@ == old(self)@,
    {
        match self.deadline {
            Some(deadline) if now < deadline => false,
            _ => {
                self.deadline = Some(now.saturating_add(duration));
                true
            },
        }
    }
}

/// After the lock is taken at `now` for `duration` steps, it is held at every
/// step from `now` up to the deadline, and free at the deadline and after it.
pub proof fn lock_held_until_deadline(lock: AdvisoryLock, now: u64, duration: u64, t: u64)
    requires
        lock@ == Some(now.saturating_add(duration)),
    ensures
        now <= t < now.saturating_add(duration) ==> lock.is_held_at(t),
        t >= now.saturating_add(duration) ==> !lock.is_held_at(t),
{
}

} // verus!
