use vstd::prelude::*;
use crate::apu::envelope::Envelope;
use crate::apu::length_counter::LengthCounter;
use crate::apu::sequencer::Sequencer;
use crate::apu::sweep::{Mode, Sweep};

verus! {

/// The four duty cycles, eight steps each.
pub const SEQUENCE_LOOKUP_TABLE: [u8; 32] = [
    0, 1, 0, 0, 0, 0, 0, 0,
    0, 1, 1, 0, 0, 0, 0, 0,
    0, 1, 1, 1, 1, 0, 0, 0,
    1, 0, 0, 1, 1, 1, 1, 1,
];

/// A pulse (square wave) channel.
#[derive(Copy, Clone, PartialEq, Eq, Structural, Debug)]
pub struct Pulse {
    pub envelope: Envelope,
    pub sweep: Sweep,
    pub sequencer: Sequencer,
    pub length_counter: LengthCounter,
    pub cycle: usize,
}

impl Pulse {
    pub open spec fn wf(self) -> bool {
        &&& self.cycle < 4
        &&& self.sequencer.steps == 8
        &&& self.sequencer.wf()
        &&& self.sequencer.period < 0x0800
        &&& self.sweep.shift_amount <= 7
        &&& self.envelope.wf()
    }

    /// Whether the channel sounds: its length counter runs, its period is above 7 and the
    /// sweep target stays below 0x800.
    pub open spec fn audible(self) -> bool {
        self.length_counter.is_enabled && self.length_counter.frame_counter > 0
            && self.sequencer.period > 7 && self.sweep.spec_target_period(self.sequencer) < 0x0800
    }

    pub open spec fn spec_sample(self) -> u8 {
        if self.audible() {
            (SEQUENCE_LOOKUP_TABLE@[(self.cycle * 8 + self.sequencer.current_step) as int]
                * self.envelope.spec_volume()) as u8
        } else {
            0
        }
    }

    pub open spec fn spec_write(self, address: u16, data: u8) -> Pulse {
        let r = address % 4;
        if r == 0 {
            Pulse {
                cycle: (data >> 6u8) as usize,
                envelope: crate::apu::envelope::Envelope { ctrl: crate::apu::envelope::EnvelopeCtrl(data), ..self.envelope },
                length_counter: LengthCounter { is_pending: Some(data & 0x20 > 0), ..self.length_counter },
                ..self
            }
        } else if r == 1 {
            Pulse { sweep: self.sweep.spec_write_reg(data), ..self }
        } else if r == 2 {
            Pulse { sequencer: Sequencer { period: (self.sequencer.period & 0xFF00) | (data as u16), ..self.sequencer }, ..self }
        } else {
            Pulse {
                length_counter: LengthCounter { is_pending_reg: Some(data), ..self.length_counter },
                sequencer: Sequencer {
                    period: (self.sequencer.period & 0x00FF) | ((((data & 0x07) as u16) & 0x07) << 8u16),
                    current_step: 0,
                    ..self.sequencer
                },
                envelope: crate::apu::envelope::Envelope { is_start: true, ..self.envelope },
                ..self
            }
        }
    }

    pub fn new(channel: Mode) -> (r: Pulse)
        ensures
            r.wf(),
            r.envelope == (Envelope {
                ctrl: crate::apu::envelope::EnvelopeCtrl(0),
                length_counter: 0,
                volume_level: 0,
                is_start: false,
            }),
            r.sweep == (Sweep {
                is_enabled: false,
                is_reload: false,
                shift_amount: 0,
                is_negate: false,
                negate_mode: channel,
                current_period: 0,
                frame_counter: 0,
            }),
            r.sequencer == (Sequencer { frame_counter: 0, period: 0, steps: 8, current_step: 0 }),
            r.length_counter == (LengthCounter {
                is_enabled: false,
                is_halt: false,
                frame_counter: 0,
                is_pending: None,
                is_pending_reg: None,
            }),
            r.cycle == 0,
    {
        Pulse {
            envelope: Envelope::new(),
            sweep: Sweep::new(channel),
            sequencer: Sequencer::new(8),
            length_counter: LengthCounter::new(),
            cycle: 0,
        }
    }

    pub fn pulse_write_reg_u8(&mut self, address: u16, data: u8)
        requires
            old(self).wf(),
        ensures
            *final(self) == old(self).spec_write(address, data),
            final(self).wf(),
    {
        let r = address % 4;
        proof {
            crate::bits::lemma_byte_shifts(data);
            crate::bits::lemma_and_u8_le(data, 0x07);
            let p = self.sequencer.period;
            assert(((p & 0xFF00) | (data as u16)) < 0x0800) by (bit_vector)
                requires
                    p < 0x0800,
            ;
            assert(((p & 0x00FF) | ((((data & 0x07) as u16) & 0x07) << 8u16)) < 0x0800) by (bit_vector);
        }
        if r == 0 {
            self.cycle = (data >> 6u8) as usize;
            self.envelope.write_reg(data);
            self.length_counter.set_halted((data & 0x20) > 0);
        } else if r == 1 {
            self.sweep.write_reg(data);
        } else if r == 2 {
            self.sequencer.set_period_lo(data);
        } else {
            self.length_counter.write_register(data);
            self.sequencer.set_period_hi(data & 0x07);
            self.envelope.start();
            self.sequencer.current_step = 0;
        }
    }

    pub fn sample(&self) -> (r: u8)
        requires
            self.wf(),
            self.length_counter.is_enabled && self.length_counter.frame_counter > 0 && self.sequencer.period > 7
                ==> self.sweep.target_period_ok(self.sequencer),
        ensures
            r == self.spec_sample(),
            r <= 15,
    {
        proof { crate::apu::envelope::lemma_envelope_volume_bounded(self.envelope, 0); }
        if self.length_counter.active() && self.sequencer.period > 7
            && self.sweep.target_period(&self.sequencer) < 0x0800 {
            let v = SEQUENCE_LOOKUP_TABLE[self.cycle * 8 + self.sequencer.current_step];
            proof {
                let i = self.cycle * 8 + self.sequencer.current_step;
                assert(SEQUENCE_LOOKUP_TABLE@[i as int] <= 1);
                assert(v <= 1);
            }
            let volume = self.envelope.get_volume_level();
            assert(v * volume <= 15) by (nonlinear_arith)
                requires
                    v <= 1,
                    volume <= 15,
            ;
            v * volume
        } else {
            0
        }
    }

    pub fn step_quarter_frame(&mut self)
        ensures
            *final(self) == (Pulse { envelope: old(self).envelope.spec_step(), ..*old(self) }),
            old(self).wf() ==> final(self).wf(),
    {
        proof { crate::apu::envelope::lemma_envelope_volume_bounded(self.envelope, 0); }
        self.envelope.step();
    }

    pub fn step_half_frame(&mut self)
        requires
            old(self).wf(),
        ensures
            final(self).wf(),
            *final(self) == (Pulse {
                length_counter: old(self).length_counter.spec_step(),
                sweep: old(self).sweep.spec_step(old(self).sequencer).0,
                sequencer: old(self).sweep.spec_step(old(self).sequencer).1,
                ..*old(self)
            }),
    {
        proof { crate::apu::sweep::lemma_sweep_target_in_range(self.sweep, self.sequencer); }
        self.length_counter.step();
        self.sweep.step(&mut self.sequencer);
    }

    pub fn step_sequencer(&mut self)
        requires
            old(self).wf(),
        ensures
            *final(self) == (Pulse { sequencer: old(self).sequencer.spec_step(true).0, ..*old(self) }),
            final(self).wf(),
    {
        self.sequencer.step(true);
    }

    pub fn is_playing(&mut self) -> (r: bool)
        ensures
            r == (old(self).length_counter.frame_counter > 0),
            *final(self) == *old(self),
    {
        self.length_counter.playing()
    }

    pub fn set_enabled(&mut self, value: bool)
        ensures
            *final(self) == (Pulse {
                length_counter: LengthCounter {
                    is_enabled: value,
                    frame_counter: if value { old(self).length_counter.frame_counter } else { 0 },
                    ..old(self).length_counter
                },
                ..*old(self)
            }),
    {
        self.length_counter.set_enabled(value);
    }

    pub fn update_length_counter(&mut self)
        ensures
            *final(self) == (Pulse { length_counter: old(self).length_counter.spec_update_pending(), ..*old(self) }),
    {
        self.length_counter.update_pending();
    }
}

} // verus!
