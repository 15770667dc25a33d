use vstd::prelude::*;

verus! {

/// The two sequences of the frame counter: four steps with an IRQ, or five without.
#[derive(Debug, Copy, Clone, Eq, PartialEq, Structural)]
pub enum Mode {
    Zero,
    One,
}

/// Which channel units a frame-counter clock drives.
#[derive(Debug, Copy, Clone, Eq, PartialEq, Structural)]
pub enum FrameResult {
    NoClock,
    Quarter,
    Half,
}

#[derive(Debug, Copy, Clone, Eq, PartialEq, Structural)]
pub struct FrameCounter {
    pub counter: i32,
    pub cycles: u32,
    pub irq_enabled: bool,
    pub public_irq_flag: bool,
    pub private_irq_flag: bool,
    pub mode: Mode,
}

impl FrameCounter {
    pub open spec fn spec_write_register(self, value: u8, cycles: u32) -> (FrameCounter, FrameResult) {
        let irq_enabled = value & 0x40 == 0;
        let mode = if value & 0x80 == 0 { Mode::Zero } else { Mode::One };
        (FrameCounter {
            irq_enabled,
            public_irq_flag: if irq_enabled { self.public_irq_flag } else { false },
            private_irq_flag: if irq_enabled { self.private_irq_flag } else { false },
            mode,
            counter: if cycles % 2 == 0 { 0i32 } else { -1i32 },
            ..self
        }, if mode == Mode::Zero { FrameResult::NoClock } else { FrameResult::Half })
    }

    pub open spec fn spec_trigger_irq(self) -> FrameCounter {
        if self.irq_enabled { FrameCounter { private_irq_flag: true, ..self } } else { self }
    }

    pub open spec fn spec_publish_irq(self) -> FrameCounter {
        FrameCounter { public_irq_flag: self.private_irq_flag, ..self }
    }

    /// The four-step sequence: quarter and half frames at fixed counts, the IRQ raised on the
    /// last three counts and published on the last two, and a restart at count 2.
    pub open spec fn spec_tick_mode_zero(self) -> (FrameCounter, FrameResult) {
        let c = self.counter;
        if c == 0x1D23 {
            (self, FrameResult::Quarter)
        } else if c == 0x3A43 {
            (self, FrameResult::Half)
        } else if c == 0x5765 {
            (self, FrameResult::Quarter)
        } else if c == 0x7486 {
            (self.spec_trigger_irq(), FrameResult::NoClock)
        } else if c == 0x7487 {
            (self.spec_trigger_irq().spec_publish_irq(), FrameResult::Half)
        } else if c == 0x7488 {
            (FrameCounter { counter: 2, ..self.spec_trigger_irq().spec_publish_irq() }, FrameResult::NoClock)
        } else {
            (self, FrameResult::NoClock)
        }
    }

    /// The five-step sequence, restarting at count 1.
    pub open spec fn spec_tick_mode_one(self) -> (FrameCounter, FrameResult) {
        let c = self.counter;
        if c == 0x1D23 {
            (self, FrameResult::Quarter)
        } else if c == 0x3A43 {
            (self, FrameResult::Half)
        } else if c == 0x5765 {
            (self, FrameResult::Quarter)
        } else if c == 0x91A3 {
            (FrameCounter { counter: 1, ..self }, FrameResult::Half)
        } else {
            (self, FrameResult::NoClock)
        }
    }

    pub open spec fn spec_step(self) -> (FrameCounter, FrameResult) {
        let (s, r) = match self.mode {
            Mode::Zero => self.spec_tick_mode_zero(),
            Mode::One => self.spec_tick_mode_one(),
        };
        (FrameCounter { counter: if s.counter == i32::MAX { i32::MIN } else { (s.counter + 1) as i32 }, ..s }, r)
    }

    pub fn new() -> (r: Self)
        ensures
            r == (FrameCounter {
                counter: 0,
                cycles: 0,
                irq_enabled: true,
                public_irq_flag: false,
                private_irq_flag: false,
                mode: Mode::Zero,
            }),
    {
        FrameCounter {
            counter: 0,
            cycles: 0,
            irq_enabled: true,
            public_irq_flag: false,
            private_irq_flag: false,
            mode: Mode::Zero,
        }
    }

    pub fn write_register(&mut self, value: u8, cycles: u32) -> (r: FrameResult)
        ensures
            (*final(self), r) == old(self).spec_write_register(value, cycles),
    {
        self.irq_enabled = value & 0x40 == 0;
        if !self.irq_enabled {
            self.public_irq_flag = false;
            self.private_irq_flag = false;
        }
        self.mode = if value & 0x80 == 0 { Mode::Zero } else { Mode::One };
        self.counter = if cycles % 2 == 0 { 0 } else { -1 };
        match self.mode {
            Mode::Zero => FrameResult::NoClock,
            Mode::One => FrameResult::Half,
        }
    }

    pub fn step(&mut self) -> (r: FrameResult)
        ensures
            (*final(self), r) == old(self).spec_step(),
    {
        let result = match self.mode {
            Mode::Zero => self.tick_mode_zero(),
            Mode::One => self.tick_mode_one(),
        };
        self.counter = self.counter.wrapping_add(1);
        result
    }

    fn tick_mode_zero(&mut self) -> (r: FrameResult)
        ensures
            (*final(self), r) == old(self).spec_tick_mode_zero(),
    {
        if self.counter == 0x1D23 {
            FrameResult::Quarter
        } else if self.counter == 0x3A43 {
            FrameResult::Half
        } else if self.counter == 0x5765 {
            FrameResult::Quarter
        } else if self.counter == 0x7486 {
            self.trigger_irq();
            FrameResult::NoClock
        } else if self.counter == 0x7487 {
            self.trigger_irq();
            self.publish_irq();
            FrameResult::Half
        } else if self.counter == 0x7488 {
            self.trigger_irq();
            self.publish_irq();
            self.counter = 2;
            FrameResult::NoClock
        } else {
            FrameResult::NoClock
        }
    }

    fn tick_mode_one(&mut self) -> (r: FrameResult)
        ensures
            (*final(self), r) == old(self).spec_tick_mode_one(),
    {
        if self.counter == 0x1D23 {
            FrameResult::Quarter
        } else if self.counter == 0x3A43 {
            FrameResult::Half
        } else if self.counter == 0x5765 {
            FrameResult::Quarter
        } else if self.counter == 0x91A3 {
            self.counter = 1;
            FrameResult::Half
        } else {
            FrameResult::NoClock
        }
    }

    pub fn trigger_irq(&mut self)
        ensures
            *final(self) == old(self).spec_trigger_irq(),
    {
        if self.irq_enabled {
            self.private_irq_flag = true;
        }
    }

    pub fn publish_irq(&mut self)
        ensures
            *final(self) == old(self).spec_publish_irq(),
    {
        self.public_irq_flag = self.private_irq_flag;
    }
}

} // verus!
