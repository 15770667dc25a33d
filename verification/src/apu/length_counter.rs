use vstd::prelude::*;

verus! {

/// Lengths, in half-frames, that the top five bits of a length register select.
pub const LENGTH_TABLE: [u8; 32] = [
    0x0A, 0xFE, 0x14, 0x02, 0x28, 0x04, 0x50, 0x06, 0xA0, 0x08, 0x3C, 0x0A, 0x0E, 0x0C, 0x1A, 0x0E,
    0x0C, 0x10, 0x18, 0x12, 0x30, 0x14, 0x60, 0x16, 0xC0, 0x18, 0x48, 0x1A, 0x10, 0x1C, 0x20, 0x1E,
];

/// Silences a channel after a programmed number of half-frames. Register writes take effect
/// at the next `update_pending`.
#[derive(Copy, Clone, Eq, PartialEq, Structural, Debug)]
pub struct LengthCounter {
    pub is_enabled: bool,
    pub is_halt: bool,
    pub frame_counter: u8,
    pub is_pending: Option<bool>,
    pub is_pending_reg: Option<u8>,
}

impl LengthCounter {
    /// A half-frame clock. While a halt change is pending and the count is zero nothing
    /// happens; otherwise the pending halt change is dropped and an enabled, running counter
    /// counts down.
    pub open spec fn spec_step(self) -> LengthCounter {
        if self.is_pending is Some && self.frame_counter == 0 {
            self
        } else {
            let s = LengthCounter { is_pending: None, ..self };
            if s.is_enabled && !s.is_halt && s.frame_counter > 0 {
                LengthCounter { frame_counter: (s.frame_counter - 1) as u8, ..s }
            } else {
                s
            }
        }
    }

    /// Applies the pending halt flag and the pending length load (the load only while
    /// enabled).
    pub open spec fn spec_update_pending(self) -> LengthCounter {
        let s = match self.is_pending {
            Some(v) => LengthCounter { is_halt: v, is_pending: None, ..self },
            None => self,
        };
        match s.is_pending_reg {
            Some(val) => LengthCounter {
                frame_counter: if s.is_enabled { LENGTH_TABLE@[(val >> 3u8) as int] } else { s.frame_counter },
                is_pending_reg: None,
                ..s
            },
            None => s,
        }
    }

    pub fn new() -> (r: LengthCounter)
        ensures
            r == (LengthCounter {
                is_enabled: false,
                is_halt: false,
                frame_counter: 0,
                is_pending: None,
                is_pending_reg: None,
            }),
    {
        LengthCounter {
            is_enabled: false,
            is_halt: false,
            frame_counter: 0,
            is_pending: None,
            is_pending_reg: None,
        }
    }

    pub fn write_register(&mut self, val: u8)
        ensures
            *final(self) == (LengthCounter { is_pending_reg: Some(val), ..*old(self) }),
    {
        self.is_pending_reg = Some(val);
    }

    pub fn set_halted(&mut self, val: bool)
        ensures
            *final(self) == (LengthCounter { is_pending: Some(val), ..*old(self) }),
    {
        self.is_pending = Some(val);
    }

    /// Disabling also clears the count.
    pub fn set_enabled(&mut self, val: bool)
        ensures
            *final(self) == (LengthCounter {
                is_enabled: val,
                frame_counter: if val { old(self).frame_counter } else { 0 },
                ..*old(self)
            }),
    {
        self.is_enabled = val;
        if !val {
            self.frame_counter = 0;
        }
    }

    pub fn step(&mut self)
        ensures
            *final(self) == old(self).spec_step(),
    {
        if self.is_pending.is_some() {
            if self.frame_counter == 0 {
                return;
            } else {
                self.is_pending = None;
            }
        }
        if self.is_enabled && !self.is_halt && self.frame_counter > 0 {
            self.frame_counter = self.frame_counter - 1;
        }
    }

    pub fn update_pending(&mut self)
        ensures
            *final(self) == old(self).spec_update_pending(),
    {
        if let Some(v) = self.is_pending {
            self.is_halt = v;
            self.is_pending = None;
        }
        if let Some(val) = self.is_pending_reg {
            if self.is_enabled {
                let i = (val >> 3u8) as usize;
                proof { crate::bits::lemma_byte_shifts(val); }
                self.frame_counter = LENGTH_TABLE[i];
            }
            self.is_pending_reg = None;
        }
    }

    pub fn active(&self) -> (r: bool)
        ensures
            r == (self.is_enabled && self.frame_counter > 0),
    {
        self.is_enabled && self.frame_counter > 0
    }

    pub fn playing(&self) -> (r: bool)
        ensures
            r == (self.frame_counter > 0),
    {
        self.frame_counter > 0
    }
}

/// Law: with no register change pending, a half-frame clock counts an enabled, unhalted,
/// running length counter down by one and leaves a halted, disabled or expired one as it is.
pub proof fn lemma_length_countdown(lc: LengthCounter)
    requires
        lc.is_pending is None,
    ensures
        lc.spec_step() == (LengthCounter {
            frame_counter: if lc.is_enabled && !lc.is_halt && lc.frame_counter > 0 {
                (lc.frame_counter - 1) as u8
            } else {
                lc.frame_counter
            },
            ..lc
        }),
{
}

} // verus!
