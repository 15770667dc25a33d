use vstd::prelude::*;
use crate::apu::length_counter::LengthCounter;
use crate::apu::sequencer::Sequencer;

verus! {

/// The 32-step triangle waveform.
pub const SEQUENCE_LOOKUP_TABLE: [u8; 32] = [
    15, 14, 13, 12, 11, 10, 9, 8, 7, 6, 5, 4, 3, 2, 1, 0,
    0, 1, 2, 3, 4, 5, 6, 7, 8, 9, 10, 11, 12, 13, 14, 15,
];

/// The triangle channel: a length counter and a linear counter gate a 32-step waveform.
#[derive(Copy, Clone, PartialEq, Eq, Structural, Debug)]
pub struct Triangle {
    pub ctrl_flag: bool,
    pub sequencer: Sequencer,
    pub length_counter: LengthCounter,
    pub linear_counter: u8,
    pub is_linear_counter: bool,
    pub linear_counter_period: u8,
}

impl Triangle {
    pub open spec fn wf(self) -> bool {
        self.sequencer.steps == 32 && self.sequencer.wf()
    }

    pub open spec fn spec_is_active(self) -> bool {
        self.length_counter.is_enabled && self.length_counter.frame_counter > 0 && self.linear_counter > 0
    }

    pub open spec fn spec_sample(self) -> u8 {
        if self.spec_is_active() && self.sequencer.period > 2 {
            SEQUENCE_LOOKUP_TABLE@[self.sequencer.current_step as int]
        } else {
            0
        }
    }

    pub open spec fn spec_write(self, address: u16, data: u8) -> Triangle {
        if address == 0x4008 {
            Triangle {
                ctrl_flag: data & 0x80 > 0,
                length_counter: LengthCounter { is_pending: Some(data & 0x80 > 0), ..self.length_counter },
                linear_counter_period: data & 0x7F,
                ..self
            }
        } else if address == 0x4009 {
            self
        } else if address == 0x400A {
            Triangle { sequencer: Sequencer { period: (self.sequencer.period & 0xFF00) | (data as u16), ..self.sequencer }, ..self }
        } else {
            Triangle {
                length_counter: LengthCounter { is_pending_reg: Some(data), ..self.length_counter },
                sequencer: Sequencer {
                    period: (self.sequencer.period & 0x00FF) | ((((data & 0x07) as u16) & 0x07) << 8u16),
                    ..self.sequencer
                },
                is_linear_counter: true,
                ..self
            }
        }
    }

    /// A quarter-frame clock of the linear counter: reload while the reload flag is set,
    /// count down otherwise; the flag clears unless the control flag holds it.
    pub open spec fn spec_step_quarter_frame(self) -> Triangle {
        let linear_counter = if self.is_linear_counter {
            self.linear_counter_period
        } else if self.linear_counter > 0 {
            (self.linear_counter - 1) as u8
        } else {
            self.linear_counter
        };
        Triangle {
            linear_counter,
            is_linear_counter: if !self.ctrl_flag { false } else { self.is_linear_counter },
            ..self
        }
    }

    pub fn new() -> (r: Triangle)
        ensures
            r.wf(),
            !r.ctrl_flag,
            r.sequencer == (Sequencer { frame_counter: 0, period: 0, steps: 32, current_step: 0 }),
            r.length_counter == (LengthCounter {
                is_enabled: false,
                is_halt: false,
                frame_counter: 0,
                is_pending: None,
                is_pending_reg: None,
            }),
            r.linear_counter == 0,
            !r.is_linear_counter,
            r.linear_counter_period == 0,
    {
        Triangle {
            ctrl_flag: false,
            sequencer: Sequencer::new(32),
            length_counter: LengthCounter::new(),
            linear_counter: 0,
            is_linear_counter: false,
            linear_counter_period: 0,
        }
    }

    /// Writes one of the triangle registers 0x4008-0x400B.
    pub fn triangle_write_reg_u8(&mut self, address: u16, data: u8)
        requires
            0x4008 <= address <= 0x400B,
        ensures
            *final(self) == old(self).spec_write(address, data),
    {
        if address == 0x4008 {
            self.ctrl_flag = data & 0x80 > 0;
            self.length_counter.set_halted(data & 0x80 > 0);
            self.linear_counter_period = data & 0x7F;
        } else if address == 0x4009 {
        } else if address == 0x400A {
            self.sequencer.set_period_lo(data);
        } else {
            self.length_counter.write_register(data);
            self.sequencer.set_period_hi(data & 0x07);
            self.is_linear_counter = true;
        }
    }

    pub fn sample(&self) -> (r: u8)
        requires
            self.wf(),
        ensures
            r == self.spec_sample(),
    {
        if self.is_active() && self.sequencer.period > 2 {
            SEQUENCE_LOOKUP_TABLE[self.sequencer.current_step]
        } else {
            0
        }
    }

    /// Advances the waveform only while the channel is active.
    pub fn step_sequencer(&mut self)
        requires
            old(self).wf(),
        ensures
            *final(self) == (Triangle {
                sequencer: old(self).sequencer.spec_step(old(self).spec_is_active()).0,
                ..*old(self)
            }),
            final(self).wf(),
    {
        let is_active = self.is_active();
        self.sequencer.step(is_active);
    }

    pub fn step_quarter_frame(&mut self)
        ensures
            *final(self) == old(self).spec_step_quarter_frame(),
    {
        if self.is_linear_counter {
            self.linear_counter = self.linear_counter_period;
        } else if self.linear_counter > 0 {
            self.linear_counter = self.linear_counter - 1;
        }
        if !self.ctrl_flag {
            self.is_linear_counter = false;
        }
    }

    pub fn step_half_frame(&mut self)
        ensures
            *final(self) == (Triangle { length_counter: old(self).length_counter.spec_step(), ..*old(self) }),
    {
        self.length_counter.step();
    }

    pub fn is_playing(&self) -> (r: bool)
        ensures
            r == (self.length_counter.frame_counter > 0),
    {
        self.length_counter.playing()
    }

    fn is_active(&self) -> (r: bool)
        ensures
            r == self.spec_is_active(),
    {
        self.length_counter.active() && self.linear_counter > 0
    }

    pub fn set_enabled(&mut self, value: bool)
        ensures
            *final(self) == (Triangle {
                length_counter: LengthCounter {
                    is_enabled: value,
                    frame_counter: if value { old(self).length_counter.frame_counter } else { 0 },
                    ..old(self).length_counter
                },
                ..*old(self)
            }),
    {
        self.length_counter.set_enabled(value);
    }

    pub fn update_length_counter(&mut self)
        ensures
            *final(self) == (Triangle { length_counter: old(self).length_counter.spec_update_pending(), ..*old(self) }),
    {
        self.length_counter.update_pending();
    }
}

} // verus!
