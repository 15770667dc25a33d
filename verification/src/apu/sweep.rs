use vstd::prelude::*;
use crate::apu::sequencer::Sequencer;

verus! {

/// How a pulse channel's sweep negates: channel 1 with ones' complement (one less),
/// channel 2 with two's complement.
#[derive(Copy, Clone, PartialEq, Eq, Structural, Debug)]
pub enum Mode {
    OnesComplement,
    TwosComplement,
}

impl Mode {
    pub open spec fn spec_value(self) -> u16 {
        match self {
            Mode::OnesComplement => 0x01,
            Mode::TwosComplement => 0x00,
        }
    }

    pub fn value(&self) -> (r: u16)
        ensures
            r == self.spec_value(),
    {
        match *self {
            Mode::OnesComplement => 0x01,
            Mode::TwosComplement => 0x00,
        }
    }
}

/// The pulse sweep unit: periodically moves the channel's period up or down by a shifted
/// copy of itself.
#[derive(Copy, Clone, PartialEq, Eq, Structural, Debug)]
pub struct Sweep {
    pub is_enabled: bool,
    pub is_reload: bool,
    pub shift_amount: u8,
    pub is_negate: bool,
    pub negate_mode: Mode,
    pub current_period: u8,
    pub frame_counter: u8,
}

impl Sweep {
    /// Whether the target period can be formed without leaving the 16-bit range.
    pub open spec fn target_period_ok(self, sequencer: Sequencer) -> bool {
        let p = sequencer.period as int;
        let d = (sequencer.period >> (self.shift_amount as u16)) as int;
        &&& self.shift_amount < 16
        &&& self.is_negate ==> p - d - self.negate_mode.spec_value() >= 0
        &&& !self.is_negate ==> p + d <= 0xFFFF
    }

    pub open spec fn spec_target_period(self, sequencer: Sequencer) -> u16 {
        let p = sequencer.period as int;
        let d = (sequencer.period >> (self.shift_amount as u16)) as int;
        if self.is_negate { (p - d - self.negate_mode.spec_value()) as u16 } else { (p + d) as u16 }
    }

    /// Whether a clock changes the channel's period.
    pub open spec fn adjusts(self, sequencer: Sequencer) -> bool {
        self.current_period == 0 && self.is_enabled && self.shift_amount > 0 && sequencer.period > 7
    }

    pub open spec fn step_ok(self, sequencer: Sequencer) -> bool {
        self.adjusts(sequencer) ==> self.target_period_ok(sequencer)
    }

    /// A half-frame clock: with a zero divider period, when enabled and shifting, a target
    /// below 0x800 becomes the new period; the divider counts down or reloads.
    pub open spec fn spec_step(self, sequencer: Sequencer) -> (Sweep, Sequencer) {
        let next = self.spec_target_period(sequencer);
        let seq = if self.adjusts(sequencer) && next < 0x0800 {
            Sequencer { period: next, frame_counter: next, ..sequencer }
        } else {
            sequencer
        };
        let s = if self.frame_counter > 0 && !self.is_reload {
            Sweep { frame_counter: (self.frame_counter - 1) as u8, ..self }
        } else {
            Sweep { frame_counter: self.current_period, is_reload: false, ..self }
        };
        (s, seq)
    }

    pub open spec fn spec_write_reg(self, data: u8) -> Sweep {
        Sweep {
            is_enabled: data & 0x80 > 0,
            current_period: (data & 0x70) >> 4u8,
            is_negate: data & 0x08 > 0,
            shift_amount: data & 0x07,
            is_reload: true,
            ..self
        }
    }

    pub fn new(negate_mode: Mode) -> (r: Sweep)
        ensures
            r == (Sweep {
                is_enabled: false,
                is_reload: false,
                shift_amount: 0,
                is_negate: false,
                negate_mode,
                current_period: 0,
                frame_counter: 0,
            }),
    {
        Sweep {
            is_enabled: false,
            is_reload: false,
            shift_amount: 0,
            is_negate: false,
            negate_mode,
            current_period: 0,
            frame_counter: 0,
        }
    }

    pub fn step(&mut self, sequencer: &mut Sequencer)
        requires
            old(self).step_ok(*old(sequencer)),
        ensures
            (*final(self), *final(sequencer)) == old(self).spec_step(*old(sequencer)),
            !old(self).adjusts(*old(sequencer)) ==> *final(sequencer) == *old(sequencer),
            *final(sequencer) == *old(sequencer) || (final(sequencer).period == old(self).spec_target_period(
                *old(sequencer),
            ) && final(sequencer).period < 0x0800 && final(sequencer).frame_counter == final(sequencer).period),
            final(sequencer).current_step == old(sequencer).current_step,
            final(sequencer).steps == old(sequencer).steps,
            old(sequencer).period < 0x0800 ==> final(sequencer).period < 0x0800,
            final(self).shift_amount == old(self).shift_amount,
    {
        if self.current_period == 0 && self.is_enabled && self.shift_amount > 0 && sequencer.period > 7 {
            let next_period = self.target_period(sequencer);
            if next_period < 0x0800 {
                sequencer.period = next_period;
                sequencer.frame_counter = next_period;
            }
        }
        if self.frame_counter > 0 && !self.is_reload {
            self.frame_counter = self.frame_counter - 1;
        } else {
            self.frame_counter = self.current_period;
            self.is_reload = false;
        }
    }

    pub fn write_reg(&mut self, data: u8)
        ensures
            *final(self) == old(self).spec_write_reg(data),
    {
        self.is_enabled = data & 0x80 > 0;
        self.current_period = (data & 0x70) >> 4u8;
        self.is_negate = data & 0x08 > 0;
        self.shift_amount = data & 0x07;
        self.is_reload = true;
    }

    /// The period the next adjustment would set.
    pub fn target_period(&self, sequencer: &Sequencer) -> (r: u16)
        requires
            self.target_period_ok(*sequencer),
        ensures
            r == self.spec_target_period(*sequencer),
    {
        let period = sequencer.period;
        if self.is_negate {
            period - (period >> (self.shift_amount as u16)) - self.negate_mode.value()
        } else {
            period + (period >> (self.shift_amount as u16))
        }
    }
}

/// Law: with a shift of at most 7 and an 11-bit period, an adjusting clock can always form its
/// target period: shifting by at least one halves the period at least.
pub proof fn lemma_sweep_target_in_range(sweep: Sweep, sequencer: Sequencer)
    requires
        sweep.shift_amount <= 7,
        sequencer.period < 0x0800,
    ensures
        sweep.step_ok(sequencer),
{
    if sweep.adjusts(sequencer) {
        let p = sequencer.period;
        let sh = sweep.shift_amount as u16;
        assert((p >> sh) <= p / 2) by (bit_vector)
            requires
                1 <= sh <= 7,
        ;
    }
}

} // verus!
