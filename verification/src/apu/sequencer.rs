use vstd::prelude::*;

verus! {

/// A timer that divides the CPU clock by `period + 1` and walks through `steps` positions.
#[derive(Copy, Clone, Eq, PartialEq, Structural, Debug)]
pub struct Sequencer {
    pub frame_counter: u16,
    pub period: u16,
    pub steps: usize,
    pub current_step: usize,
}

impl Sequencer {
    /// A sequencer with at least one step, positioned on one of them.
    pub open spec fn wf(self) -> bool {
        0 < self.steps && self.current_step < self.steps
    }

    /// One clock: at zero the timer reloads and, if enabled, the sequence advances
    /// (wrapping); otherwise the timer counts down. Gives whether the timer reloaded.
    pub open spec fn spec_step(self, is_enabled: bool) -> (Sequencer, bool) {
        if self.frame_counter == 0 {
            (Sequencer {
                frame_counter: self.period,
                current_step: if is_enabled { ((self.current_step + 1) % (self.steps as int)) as usize } else { self.current_step },
                ..self
            }, true)
        } else {
            (Sequencer { frame_counter: (self.frame_counter - 1) as u16, ..self }, false)
        }
    }

    pub fn new(steps: usize) -> (r: Sequencer)
        ensures
            r == (Sequencer { frame_counter: 0, period: 0, steps, current_step: 0 }),
    {
        Sequencer { frame_counter: 0, period: 0, steps, current_step: 0 }
    }

    /// One clock. Advancing the sequence needs at least one step; a disabled sequencer may
    /// have none.
    pub fn step(&mut self, is_enabled: bool) -> (r: bool)
        requires
            (old(self).frame_counter == 0 && is_enabled) ==> old(self).steps > 0 && old(self).current_step
                < usize::MAX,
        ensures
            (*final(self), r) == old(self).spec_step(is_enabled),
            r == (old(self).frame_counter == 0),
            final(self).period == old(self).period,
            final(self).steps == old(self).steps,
            old(self).wf() ==> final(self).wf(),
    {
        if self.frame_counter == 0 {
            self.frame_counter = self.period;
            if is_enabled {
                self.current_step = (self.current_step + 1) % self.steps;
            }
            true
        } else {
            self.frame_counter = self.frame_counter - 1;
            false
        }
    }

    /// Replaces the low eight bits of the period.
    pub fn set_period_lo(&mut self, val: u8)
        ensures
            *final(self) == (Sequencer { period: (old(self).period & 0xFF00) | (val as u16), ..*old(self) }),
    {
        self.period = (self.period & 0xFF00) | (val as u16);
    }

    /// Replaces the high three bits of the 11-bit period.
    pub fn set_period_hi(&mut self, val: u8)
        ensures
            *final(self) == (Sequencer {
                period: (old(self).period & 0x00FF) | (((val as u16) & 0x07) << 8u16),
                ..*old(self)
            }),
    {
        self.period = (self.period & 0x00FF) | (((val as u16) & 0x07) << 8u16);
    }
}

} // verus!
