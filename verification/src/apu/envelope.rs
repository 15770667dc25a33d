use vstd::prelude::*;

verus! {

/// The envelope control byte: volume or decay period in bits 0-3, constant-volume flag in
/// bit 4, loop flag in bit 5.
#[derive(Copy, Clone, Eq, PartialEq, Structural, Debug)]
pub struct EnvelopeCtrl(pub u8);

impl EnvelopeCtrl {
    pub open spec fn spec_constant_volume(&self) -> u8 { self.0 & 0x0F }
    pub open spec fn spec_decay_level(&self) -> u8 { self.0 & 0x0F }
    pub open spec fn spec_constant_flag(&self) -> u8 { (self.0 >> 4u8) & 0x01 }
    pub open spec fn spec_loop_flag(&self) -> u8 { (self.0 >> 5u8) & 0x01 }

    #[verifier::when_used_as_spec(spec_constant_volume)]
    pub fn constant_volume(&self) -> (r: u8) ensures r == self.0 & 0x0F { self.0 & 0x0F }
    #[verifier::when_used_as_spec(spec_decay_level)]
    pub fn decay_level(&self) -> (r: u8) ensures r == self.0 & 0x0F { self.0 & 0x0F }
    #[verifier::when_used_as_spec(spec_constant_flag)]
    pub fn constant_flag(&self) -> (r: u8) ensures r == (self.0 >> 4u8) & 0x01 { (self.0 >> 4u8) & 0x01 }
    #[verifier::when_used_as_spec(spec_loop_flag)]
    pub fn loop_flag(&self) -> (r: u8) ensures r == (self.0 >> 5u8) & 0x01 { (self.0 >> 5u8) & 0x01 }
}

/// The volume envelope of a pulse channel.
#[derive(Copy, Clone, Eq, PartialEq, Structural, Debug)]
pub struct Envelope {
    pub ctrl: EnvelopeCtrl,
    pub length_counter: u8,
    pub volume_level: u8,
    pub is_start: bool,
}

impl Envelope {
    pub open spec fn wf(self) -> bool {
        self.volume_level <= 15
    }

    pub open spec fn with_volume_level(self, volume_val: u8) -> Envelope {
        Envelope { volume_level: volume_val & 0x0F, length_counter: self.ctrl.spec_decay_level(), ..self }
    }

    /// A clock: a started envelope restarts at 15; an expired divider counts the volume down
    /// and, with the loop flag, wraps from 0 back to 15.
    pub open spec fn spec_step(self) -> Envelope {
        if self.is_start {
            Envelope { is_start: false, ..self }.with_volume_level(0x0F)
        } else if self.length_counter == 0 {
            if self.volume_level > 0 {
                self.with_volume_level((self.volume_level - 1) as u8)
            } else if self.ctrl.spec_loop_flag() > 0 {
                self.with_volume_level(0x0F)
            } else {
                self
            }
        } else {
            self
        }
    }

    pub open spec fn spec_volume(self) -> u8 {
        if self.ctrl.spec_constant_flag() > 0 { self.ctrl.spec_constant_volume() } else { self.volume_level }
    }

    pub fn new() -> (r: Envelope)
        ensures
            r == (Envelope { ctrl: EnvelopeCtrl(0), length_counter: 0, volume_level: 0, is_start: false }),
            r.wf(),
    {
        Envelope { ctrl: EnvelopeCtrl(0), length_counter: 0, volume_level: 0, is_start: false }
    }

    pub fn step(&mut self)
        ensures
            *final(self) == old(self).spec_step(),
    {
        if self.is_start {
            self.is_start = false;
            self.set_volume_level(0x0F);
        } else if self.length_counter == 0 {
            if self.volume_level > 0 {
                self.set_volume_level(self.volume_level - 1)
            } else if self.ctrl.loop_flag() > 0 {
                self.set_volume_level(0x0F);
            }
        }
    }

    pub fn write_reg(&mut self, data: u8)
        ensures
            *final(self) == (Envelope { ctrl: EnvelopeCtrl(data), ..*old(self) }),
    {
        self.ctrl = EnvelopeCtrl(data);
    }

    pub fn start(&mut self)
        ensures
            *final(self) == (Envelope { is_start: true, ..*old(self) }),
    {
        self.is_start = true;
    }

    /// The constant volume when the constant flag is set, the envelope's level otherwise.
    pub fn get_volume_level(&self) -> (r: u8)
        ensures
            r == self.spec_volume(),
    {
        if self.ctrl.constant_flag() > 0 {
            self.ctrl.constant_volume()
        } else {
            self.volume_level
        }
    }

    pub fn set_volume_level(&mut self, volume_val: u8)
        ensures
            *final(self) == old(self).with_volume_level(volume_val),
    {
        self.volume_level = volume_val & 0x0F;
        self.length_counter = self.ctrl.decay_level();
    }
}

/// The volume an envelope gives never exceeds 15: setting a level masks it to four bits,
/// and clocking keeps a level in range.
pub proof fn lemma_envelope_volume_bounded(e: Envelope, volume_val: u8)
    ensures
        e.with_volume_level(volume_val).wf(),
        e.wf() ==> e.spec_step().wf(),
        e.wf() ==> e.spec_volume() <= 15,
{
    crate::bits::lemma_and_u8_le(e.ctrl.0, 0x0F);
    crate::bits::lemma_and_u8_le(volume_val, 0x0F);
    crate::bits::lemma_and_u8_le(0x0Fu8, 0x0F);
    crate::bits::lemma_and_u8_le((e.volume_level - 1) as u8, 0x0F);
}

} // verus!
