use vstd::prelude::*;

verus! {

/// One step of the countdown: a scheduled count goes down by one and stays at zero.
pub open spec fn counted_down(schedule: Option<u8>) -> Option<u8> {
    match schedule {
        Some(v) => Some(if v > 0 { (v - 1) as u8 } else { 0u8 }),
        None => None::<u8>,
    }
}

/// The countdown after `k` ticks.
pub open spec fn after_ticks(schedule: Option<u8>, k: nat) -> Option<u8>
    decreases k,
{
    if k == 0 { schedule } else { after_ticks(counted_down(schedule), (k - 1) as nat) }
}

/// A countdown that becomes ready once it has been scheduled and ticked down to zero.
#[derive(Copy, Clone)]
pub struct Interrupt {
    pub schedule: Option<u8>,
}

impl Interrupt {
    pub fn new() -> (r: Self)
        ensures
            r.schedule is None,
    {
        Interrupt { schedule: None }
    }

    /// Counts a scheduled interrupt down by one, stopping at zero.
    pub fn tick(&mut self)
        ensures
            final(self).schedule == counted_down(old(self).schedule),
    {
        if let Some(v) = self.schedule {
            if v > 0 {
                self.schedule = Some(v - 1);
            }
        }
    }

    pub fn schedule(&mut self, n: u8)
        ensures
            final(self).schedule == Some(n),
    {
        self.schedule = Some(n);
    }

    pub fn clear(&mut self)
        ensures
            final(self).schedule is None,
    {
        self.schedule = None;
    }

    pub fn ready(&self) -> (r: bool)
        ensures
            r == (self.schedule == Some(0u8)),
    {
        match self.schedule {
            Some(v) => v == 0,
            None => false,
        }
    }
}


/// Law: an interrupt scheduled `n` ticks ahead is ready after `n` ticks or more, and not
/// before.
pub proof fn lemma_ready_after(n: u8, k: nat)
    ensures
        (after_ticks(Some(n), k) == Some(0u8)) == (k >= n),
    decreases k,
{
    if k > 0 {
        if n > 0 {
            lemma_ready_after((n - 1) as u8, (k - 1) as nat);
        } else {
            lemma_ready_after(0, (k - 1) as nat);
        }
    }
}

} // verus!
