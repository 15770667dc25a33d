use vstd::prelude::*;

verus! {

/// A standard joypad: eight buttons read out one per access, in the order
/// A, B, Select, Start, Up, Down, Left, Right, while strobe bit 0 is clear.
#[derive(Copy, Clone)]
pub struct Controller {
    pub input_states: [bool; 8],
    pub idx: usize,
    pub strobe: u8,
}

impl Controller {
    /// The controller after a read, and the bit that the read gives.
    pub open spec fn spec_read(self) -> (u8, Controller) {
        let value: u8 = if self.idx < 8 && self.input_states@[self.idx as int] { 1 } else { 0 };
        let idx: usize = if self.strobe & 1 == 1 { 0 } else { (self.idx + 1) as usize };
        (value, Controller { idx, ..self })
    }

    pub open spec fn spec_write(self, val: u8) -> Controller {
        Controller { strobe: val, idx: if val & 1 == 1 { 0 } else { self.idx }, ..self }
    }

    pub fn new() -> (r: Controller)
        ensures
            r.input_states@ == seq![false, false, false, false, false, false, false, false],
            r.idx == 0,
            r.strobe == 0,
    {
        Controller { input_states: [false; 8], idx: 0, strobe: 0 }
    }

    pub fn update_buttons(&mut self, states: [bool; 8])
        ensures
            final(self).input_states@ == states@,
            final(self).idx == old(self).idx,
            final(self).strobe == old(self).strobe,
    {
        self.input_states = states;
    }

    pub fn read(&mut self) -> (r: u8)
        requires
            old(self).idx < usize::MAX,
        ensures
            (r, *final(self)) == old(self).spec_read(),
    {
        let mut value: u8 = 0;
        if self.idx < 8 && self.input_states[self.idx] {
            value = 1;
        }
        self.idx = self.idx + 1;
        if self.strobe & 1 == 1 {
            self.idx = 0;
        }
        value
    }

    pub fn write(&mut self, val: u8)
        ensures
            *final(self) == old(self).spec_write(val),
    {
        self.strobe = val;
        if self.strobe & 1 == 1 {
            self.idx = 0;
        }
    }
}


/// The bits that `n` reads in a row give.
pub open spec fn read_times(c: Controller, n: nat) -> Seq<u8>
    decreases n,
{
    if n == 0 {
        Seq::empty()
    } else {
        let (v, c1) = c.spec_read();
        seq![v].add(read_times(c1, (n - 1) as nat))
    }
}

/// The report bit of button `i`.
pub open spec fn button_bit(c: Controller, i: int) -> u8 {
    if c.input_states@[i] { 1 } else { 0 }
}

proof fn lemma_reads_from(c: Controller, n: nat)
    requires
        c.strobe & 1 == 0,
        c.idx + n <= 8,
    ensures
        read_times(c, n).len() == n,
        forall|i: int| 0 <= i < n ==> #[trigger] read_times(c, n)[i] == button_bit(c, c.idx + i),
    decreases n,
{
    if n > 0 {
        let (v, c1) = c.spec_read();
        lemma_reads_from(c1, (n - 1) as nat);
        assert forall|i: int| 0 <= i < n implies #[trigger] read_times(c, n)[i] == button_bit(c, c.idx + i) by {
            if i > 0 {
                assert(read_times(c, n)[i] == read_times(c1, (n - 1) as nat)[i - 1]);
            }
        }
    }
}

/// Law: once the strobe is raised and lowered again, eight reads report the buttons in the
/// order A, B, Select, Start, Up, Down, Left, Right.
pub proof fn lemma_strobe_then_report(c: Controller, hi: u8, lo: u8)
    requires
        hi & 1 == 1,
        lo & 1 == 0,
    ensures
        read_times(c.spec_write(hi).spec_write(lo), 8).len() == 8,
        forall|i: int| 0 <= i < 8 ==> #[trigger] read_times(c.spec_write(hi).spec_write(lo), 8)[i] == button_bit(c, i),
{
    lemma_reads_from(c.spec_write(hi).spec_write(lo), 8);
}

} // verus!
