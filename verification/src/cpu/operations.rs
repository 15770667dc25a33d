use vstd::prelude::*;
use crate::cpu::{Cpu, CpuView, wrap8, wrap16, widen};
use crate::cpu::instruction_table::{AddrMode6502, Flag6502, OpCode6502};

verus! {

impl Cpu {
    pub fn op_code_value(&mut self, op_code: OpCode6502) -> (r: u8)
        requires
            old(self).wf(),
            old(self)@.op_ok(op_code),
        ensures
            final(self).wf(),
            (final(self)@, r) == old(self)@.op(op_code),
    {
        proof {
            reveal(CpuView::op);
            reveal(CpuView::op_ok);
        }
        match op_code {
            OpCode6502::Adc => self.adc(),
            OpCode6502::And => self.and(),
            OpCode6502::Asl => self.asl(),
            OpCode6502::Bcc => self.bcc(),
            OpCode6502::Bcs => self.bcs(),
            OpCode6502::Beq => self.beq(),
            OpCode6502::Bit => self.bit(),
            OpCode6502::Bmi => self.bmi(),
            OpCode6502::Bne => self.bne(),
            OpCode6502::Bpl => self.bpl(),
            OpCode6502::Brk => self.brk(),
            OpCode6502::Bvc => self.bvc(),
            OpCode6502::Bvs => self.bvs(),
            OpCode6502::Clc => self.clc(),
            OpCode6502::Cld => self.cld(),
            OpCode6502::Cli => self.cli(),
            OpCode6502::Clv => self.clv(),
            OpCode6502::Cmp => self.cmp(),
            OpCode6502::Cpx => self.cpx(),
            OpCode6502::Cpy => self.cpy(),
            OpCode6502::Dec => self.dec(),
            OpCode6502::Dex => self.dex(),
            OpCode6502::Dey => self.dey(),
            OpCode6502::Eor => self.eor(),
            OpCode6502::Inc => self.inc(),
            OpCode6502::Inx => self.inx(),
            OpCode6502::Iny => self.iny(),
            OpCode6502::Jmp => self.jmp(),
            OpCode6502::Jsr => self.jsr(),
            OpCode6502::Lda => self.lda(),
            OpCode6502::Ldx => self.ldx(),
            OpCode6502::Ldy => self.ldy(),
            OpCode6502::Lsr => self.lsr(),
            OpCode6502::Nop => self.nop(),
            OpCode6502::Ora => self.ora(),
            OpCode6502::Pha => self.pha(),
            OpCode6502::Php => self.php(),
            OpCode6502::Pla => self.pla(),
            OpCode6502::Plp => self.plp(),
            OpCode6502::Rol => self.rol(),
            OpCode6502::Ror => self.ror(),
            OpCode6502::Rti => self.rti(),
            OpCode6502::Rts => self.rts(),
            OpCode6502::Sbc => self.sbc(),
            OpCode6502::Sec => self.sec(),
            OpCode6502::Sed => self.sed(),
            OpCode6502::Sei => self.sei(),
            OpCode6502::Sta => self.sta(),
            OpCode6502::Stx => self.stx(),
            OpCode6502::Sty => self.sty(),
            OpCode6502::Tax => self.tax(),
            OpCode6502::Tay => self.tay(),
            OpCode6502::Tsx => self.tsx(),
            OpCode6502::Txa => self.txa(),
            OpCode6502::Txs => self.txs(),
            OpCode6502::Tya => self.tya(),
            OpCode6502::Xxx => 0,
        }
    }

    /// Add with carry.
    pub fn adc(&mut self) -> (r: u8)
        requires
            old(self).wf(),
            old(self)@.fetch_ok(),
        ensures
            final(self).wf(),
            (final(self)@, r) == old(self)@.op_adc(),
    {
        self.fetch();
        let a = self.acc as u16;
        let m = self.fetched as u16;
        let val = a.wrapping_add(m).wrapping_add(self.get_flag_val(&Flag6502::C));
        self.set_flag(&Flag6502::C, val > 255);
        self.set_flag(&Flag6502::V, ((!(a ^ m) & (a ^ val)) & 0x0080) > 0);
        self.set_flags_zero_and_negative(val & 0x00FF);
        proof { crate::bits::lemma_and_u16_le(val, 0x00FF); }
        self.acc = (val & 0x00FF) as u8;
        1
    }

    /// Arithmetic shift left.
    pub fn asl(&mut self) -> (r: u8)
        requires
            old(self).wf(),
            old(self)@.fetch_ok(),
            old(self)@.fetch().store_ok(),
        ensures
            final(self).wf(),
            (final(self)@, r) == old(self)@.op_asl(),
    {
        self.fetch();
        let val = (self.fetched as u16) << 1u16;
        self.set_flag(&Flag6502::C, (val & 0xFF00) > 0);
        self.set_flag(&Flag6502::Z, val & 0x00FF == 0);
        self.set_flag(&Flag6502::N, (val & 0x0080) > 0);
        self.return_or_write_memory(val);
        0
    }

    /// AND with the accumulator.
    pub fn and(&mut self) -> (r: u8)
        requires
            old(self).wf(),
            old(self)@.fetch_ok(),
        ensures
            final(self).wf(),
            (final(self)@, r) == old(self)@.op_and(),
    {
        self.fetch();
        self.acc = self.acc & self.fetched;
        self.set_flags_zero_and_negative(self.acc as u16);
        1
    }

    /// Branch on carry clear.
    pub fn bcc(&mut self) -> (r: u8)
        requires
            old(self).wf(),
        ensures
            final(self).wf(),
            (final(self)@, r) == old(self)@.op_bcc(),
    {
        let c = !self.get_flag(&Flag6502::C);
        self.branching(c)
    }

    /// Branch on carry set.
    pub fn bcs(&mut self) -> (r: u8)
        requires
            old(self).wf(),
        ensures
            final(self).wf(),
            (final(self)@, r) == old(self)@.op_bcs(),
    {
        let c = self.get_flag(&Flag6502::C);
        self.branching(c)
    }

    /// Branch on equal (zero set).
    pub fn beq(&mut self) -> (r: u8)
        requires
            old(self).wf(),
        ensures
            final(self).wf(),
            (final(self)@, r) == old(self)@.op_beq(),
    {
        let c = self.get_flag(&Flag6502::Z);
        self.branching(c)
    }

    /// Bit test.
    pub fn bit(&mut self) -> (r: u8)
        requires
            old(self).wf(),
            old(self)@.fetch_ok(),
        ensures
            final(self).wf(),
            (final(self)@, r) == old(self)@.op_bit(),
    {
        self.fetch();
        let val = (self.acc as u16) & (self.fetched as u16);
        self.set_flag(&Flag6502::Z, val & 0x00FF == 0);
        self.set_flag(&Flag6502::N, (self.fetched & 0x80) > 0);
        self.set_flag(&Flag6502::V, (self.fetched & 0x40) > 0);
        0
    }

    /// Branch on minus (negative set).
    pub fn bmi(&mut self) -> (r: u8)
        requires
            old(self).wf(),
        ensures
            final(self).wf(),
            (final(self)@, r) == old(self)@.op_bmi(),
    {
        let c = self.get_flag(&Flag6502::N);
        self.branching(c)
    }

    /// Branch on not equal (zero clear).
    pub fn bne(&mut self) -> (r: u8)
        requires
            old(self).wf(),
        ensures
            final(self).wf(),
            (final(self)@, r) == old(self)@.op_bne(),
    {
        let c = !self.get_flag(&Flag6502::Z);
        self.branching(c)
    }

    /// Branch on plus (negative clear).
    pub fn bpl(&mut self) -> (r: u8)
        requires
            old(self).wf(),
        ensures
            final(self).wf(),
            (final(self)@, r) == old(self)@.op_bpl(),
    {
        let c = !self.get_flag(&Flag6502::N);
        self.branching(c)
    }

    /// Break: push PC and status, jump through 0xFFFE.
    pub fn brk(&mut self) -> (r: u8)
        requires
            old(self).wf(),
            old(self)@.brk_ok(),
        ensures
            final(self).wf(),
            (final(self)@, r) == old(self)@.op_brk(),
    {
        self.pc_increment();
        self.set_flag(&Flag6502::I, true);
        self.bus_write_u8(self.get_stack_address(), ((self.pc >> 8u16) & 0x00FF) as u8);
        self.stack_pointer_decrement();
        self.bus_write_u8(self.get_stack_address(), (self.pc & 0x00FF) as u8);
        self.stack_pointer_decrement();
        self.set_flag(&Flag6502::B, true);
        self.bus_write_u8(self.get_stack_address(), self.status_register);
        self.stack_pointer_decrement();
        self.set_flag(&Flag6502::B, false);
        let lo = self.bus_mut_read_u8(0xFFFE) as u16;
        let hi = self.bus_mut_read_u8(0xFFFF) as u16;
        self.pc = lo | (hi << 8u16);
        0
    }

    /// Branch on overflow clear.
    pub fn bvc(&mut self) -> (r: u8)
        requires
            old(self).wf(),
        ensures
            final(self).wf(),
            (final(self)@, r) == old(self)@.op_bvc(),
    {
        let c = !self.get_flag(&Flag6502::V);
        self.branching(c)
    }

    /// Branch on overflow set.
    pub fn bvs(&mut self) -> (r: u8)
        requires
            old(self).wf(),
        ensures
            final(self).wf(),
            (final(self)@, r) == old(self)@.op_bvs(),
    {
        let c = self.get_flag(&Flag6502::V);
        self.branching(c)
    }

    /// Clear carry.
    pub fn clc(&mut self) -> (r: u8)
        requires
            old(self).wf(),
        ensures
            final(self).wf(),
            (final(self)@, r) == old(self)@.op_clc(),
    {
        self.set_flag(&Flag6502::C, false);
        0
    }

    /// Clear decimal.
    pub fn cld(&mut self) -> (r: u8)
        requires
            old(self).wf(),
        ensures
            final(self).wf(),
            (final(self)@, r) == old(self)@.op_cld(),
    {
        self.set_flag(&Flag6502::D, false);
        0
    }

    /// Clear interrupt disable.
    pub fn cli(&mut self) -> (r: u8)
        requires
            old(self).wf(),
        ensures
            final(self).wf(),
            (final(self)@, r) == old(self)@.op_cli(),
    {
        self.set_flag(&Flag6502::I, false);
        0
    }

    /// Clear overflow.
    pub fn clv(&mut self) -> (r: u8)
        requires
            old(self).wf(),
        ensures
            final(self).wf(),
            (final(self)@, r) == old(self)@.op_clv(),
    {
        self.set_flag(&Flag6502::V, false);
        0
    }

    /// Compare with the accumulator.
    pub fn cmp(&mut self) -> (r: u8)
        requires
            old(self).wf(),
            old(self)@.fetch_ok(),
        ensures
            final(self).wf(),
            (final(self)@, r) == old(self)@.op_compare_acc(),
    {
        self.fetch();
        let val = widen(self.acc.wrapping_sub(self.fetched));
        self.set_flag(&Flag6502::C, self.acc >= self.fetched);
        self.set_flags_zero_and_negative(val);
        1
    }

    /// Compare with X.
    pub fn cpx(&mut self) -> (r: u8)
        requires
            old(self).wf(),
            old(self)@.fetch_ok(),
        ensures
            final(self).wf(),
            (final(self)@, r) == old(self)@.op_compare_x(),
    {
        self.fetch();
        let val = self.x.wrapping_sub(self.fetched) as u16;
        self.set_flag(&Flag6502::C, self.x >= self.fetched);
        self.set_flags_zero_and_negative(val);
        0
    }

    /// Compare with Y.
    pub fn cpy(&mut self) -> (r: u8)
        requires
            old(self).wf(),
            old(self)@.fetch_ok(),
        ensures
            final(self).wf(),
            (final(self)@, r) == old(self)@.op_compare_y(),
    {
        self.fetch();
        let val = self.y.wrapping_sub(self.fetched) as u16;
        self.set_flag(&Flag6502::C, self.y >= self.fetched);
        self.set_flags_zero_and_negative(val);
        0
    }

    /// Decrement memory.
    pub fn dec(&mut self) -> (r: u8)
        requires
            old(self).wf(),
            old(self)@.fetch_ok(),
            old(self)@.fetch().write_ok(old(self).addr_abs),
        ensures
            final(self).wf(),
            (final(self)@, r) == old(self)@.op_dec(),
    {
        self.fetch();
        let val = (self.fetched as u16).wrapping_sub(1);
        self.bus_write_u8(self.addr_abs, (val & 0x00FF) as u8);
        self.set_flags_zero_and_negative(val);
        0
    }

    /// Decrement X.
    pub fn dex(&mut self) -> (r: u8)
        requires
            old(self).wf(),
        ensures
            final(self).wf(),
            (final(self)@, r) == old(self)@.op_dex(),
    {
        self.x = self.x.wrapping_sub(1);
        self.set_flags_zero_and_negative(self.x as u16);
        0
    }

    /// Decrement Y.
    pub fn dey(&mut self) -> (r: u8)
        requires
            old(self).wf(),
        ensures
            final(self).wf(),
            (final(self)@, r) == old(self)@.op_dey(),
    {
        self.y = self.y.wrapping_sub(1);
        self.set_flags_zero_and_negative(self.y as u16);
        0
    }

    /// Exclusive OR with the accumulator.
    pub fn eor(&mut self) -> (r: u8)
        requires
            old(self).wf(),
            old(self)@.fetch_ok(),
        ensures
            final(self).wf(),
            (final(self)@, r) == old(self)@.op_eor(),
    {
        self.fetch();
        self.acc = self.acc ^ self.fetched;
        self.set_flags_zero_and_negative(self.acc as u16);
        1
    }

    /// Increment memory.
    pub fn inc(&mut self) -> (r: u8)
        requires
            old(self).wf(),
            old(self)@.fetch_ok(),
            old(self)@.fetch().write_ok(old(self).addr_abs),
        ensures
            final(self).wf(),
            (final(self)@, r) == old(self)@.op_inc(),
    {
        self.fetch();
        let val = self.fetched.wrapping_add(1) as u16;
        self.bus_write_u8(self.addr_abs, (val & 0x00FF) as u8);
        self.set_flags_zero_and_negative(val);
        0
    }

    /// Increment X.
    pub fn inx(&mut self) -> (r: u8)
        requires
            old(self).wf(),
        ensures
            final(self).wf(),
            (final(self)@, r) == old(self)@.op_inx(),
    {
        self.x = self.x.wrapping_add(1);
        self.set_flags_zero_and_negative(self.x as u16);
        0
    }

    /// Increment Y.
    pub fn iny(&mut self) -> (r: u8)
        requires
            old(self).wf(),
        ensures
            final(self).wf(),
            (final(self)@, r) == old(self)@.op_iny(),
    {
        self.y = self.y.wrapping_add(1);
        self.set_flags_zero_and_negative(self.y as u16);
        0
    }

    /// Jump.
    pub fn jmp(&mut self) -> (r: u8)
        requires
            old(self).wf(),
        ensures
            final(self).wf(),
            (final(self)@, r) == old(self)@.op_jmp(),
    {
        self.pc = self.addr_abs;
        0
    }

    /// Jump to subroutine.
    pub fn jsr(&mut self) -> (r: u8)
        requires
            old(self).wf(),
        ensures
            final(self).wf(),
            (final(self)@, r) == old(self)@.op_jsr(),
    {
        self.pc = self.pc.wrapping_sub(1);
        self.bus_write_u8(self.get_stack_address(), ((self.pc >> 8u16) & 0x00FF) as u8);
        self.stack_pointer_decrement();
        self.bus_write_u8(self.get_stack_address(), (self.pc & 0x00FF) as u8);
        self.stack_pointer_decrement();
        self.pc = self.addr_abs;
        0
    }

    /// Load the accumulator.
    pub fn lda(&mut self) -> (r: u8)
        requires
            old(self).wf(),
            old(self)@.fetch_ok(),
        ensures
            final(self).wf(),
            (final(self)@, r) == old(self)@.op_lda(),
    {
        self.fetch();
        self.acc = self.fetched;
        self.set_flags_zero_and_negative(self.acc as u16);
        1
    }

    /// Load X.
    pub fn ldx(&mut self) -> (r: u8)
        requires
            old(self).wf(),
            old(self)@.fetch_ok(),
        ensures
            final(self).wf(),
            (final(self)@, r) == old(self)@.op_ldx(),
    {
        self.fetch();
        self.x = self.fetched;
        self.set_flags_zero_and_negative(self.x as u16);
        1
    }

    /// Load Y.
    pub fn ldy(&mut self) -> (r: u8)
        requires
            old(self).wf(),
            old(self)@.fetch_ok(),
        ensures
            final(self).wf(),
            (final(self)@, r) == old(self)@.op_ldy(),
    {
        self.fetch();
        self.y = self.fetched;
        self.set_flags_zero_and_negative(self.y as u16);
        1
    }

    /// Logical shift right.
    pub fn lsr(&mut self) -> (r: u8)
        requires
            old(self).wf(),
            old(self)@.fetch_ok(),
            old(self)@.fetch().store_ok(),
        ensures
            final(self).wf(),
            (final(self)@, r) == old(self)@.op_lsr(),
    {
        self.fetch();
        self.set_flag(&Flag6502::C, (self.fetched & 1) > 0);
        let val = (self.fetched >> 1u8) as u16;
        self.set_flags_zero_and_negative(val);
        self.return_or_write_memory(val);
        0
    }

    /// No operation; some undocumented forms may take an extra cycle.
    pub fn nop(&mut self) -> (r: u8)
        requires
            old(self).wf(),
        ensures
            final(self).wf(),
            (final(self)@, r) == old(self)@.op_nop(),
    {
        let o = self.opcode;
        if o == 0x1C || o == 0x3C || o == 0x5C || o == 0x7C || o == 0xDC || o == 0xFC { 1 } else { 0 }
    }

    /// OR with the accumulator.
    pub fn ora(&mut self) -> (r: u8)
        requires
            old(self).wf(),
            old(self)@.fetch_ok(),
        ensures
            final(self).wf(),
            (final(self)@, r) == old(self)@.op_ora(),
    {
        self.fetch();
        self.acc = self.acc | self.fetched;
        self.set_flags_zero_and_negative(self.acc as u16);
        1
    }

    /// Push the accumulator.
    pub fn pha(&mut self) -> (r: u8)
        requires
            old(self).wf(),
        ensures
            final(self).wf(),
            (final(self)@, r) == old(self)@.op_pha(),
    {
        self.bus_write_u8(self.get_stack_address(), self.acc);
        self.stack_pointer_decrement();
        0
    }

    /// Push the status register with B and U set.
    pub fn php(&mut self) -> (r: u8)
        requires
            old(self).wf(),
        ensures
            final(self).wf(),
            (final(self)@, r) == old(self)@.op_php(),
    {
        self.bus_write_u8(self.get_stack_address(), self.status_register | Flag6502::B.value() | Flag6502::U.value());
        self.set_flag(&Flag6502::B, false);
        self.set_flag(&Flag6502::U, false);
        self.stack_pointer_decrement();
        0
    }

    /// Pull the accumulator.
    pub fn pla(&mut self) -> (r: u8)
        requires
            old(self).wf(),
        ensures
            final(self).wf(),
            (final(self)@, r) == old(self)@.op_pla(),
    {
        self.stack_pointer_increment();
        self.acc = self.bus_mut_read_u8(self.get_stack_address());
        self.set_flags_zero_and_negative(self.acc as u16);
        0
    }

    /// Pull the status register.
    pub fn plp(&mut self) -> (r: u8)
        requires
            old(self).wf(),
        ensures
            final(self).wf(),
            (final(self)@, r) == old(self)@.op_plp(),
    {
        self.stack_pointer_increment();
        self.status_register = self.bus_mut_read_u8(self.get_stack_address());
        self.set_flag(&Flag6502::U, true);
        0
    }

    /// Rotate left.
    pub fn rol(&mut self) -> (r: u8)
        requires
            old(self).wf(),
            old(self)@.fetch_ok(),
            old(self)@.fetch().store_ok(),
        ensures
            final(self).wf(),
            (final(self)@, r) == old(self)@.op_rol(),
    {
        self.fetch();
        let val = ((self.fetched as u16) << 1u16) | self.get_flag_val(&Flag6502::C);
        self.set_flag(&Flag6502::C, (val & 0xFF00) > 0);
        self.set_flags_zero_and_negative(val);
        self.return_or_write_memory(val);
        0
    }

    /// Rotate right.
    pub fn ror(&mut self) -> (r: u8)
        requires
            old(self).wf(),
            old(self)@.fetch_ok(),
            old(self)@.fetch().store_ok(),
        ensures
            final(self).wf(),
            (final(self)@, r) == old(self)@.op_ror(),
    {
        self.fetch();
        let val = (self.get_flag_val(&Flag6502::C) << 7u16) | ((self.fetched as u16) >> 1u16);
        self.set_flag(&Flag6502::C, (self.fetched & 0x01) > 0);
        self.set_flags_zero_and_negative(val);
        self.return_or_write_memory(val);
        0
    }

    /// Return from interrupt.
    pub fn rti(&mut self) -> (r: u8)
        requires
            old(self).wf(),
        ensures
            final(self).wf(),
            (final(self)@, r) == old(self)@.op_rti(),
    {
        self.stack_pointer_increment();
        self.status_register = self.bus_mut_read_u8(self.get_stack_address());
        self.status_register = self.status_register & !Flag6502::B.value();
        self.status_register = self.status_register & !Flag6502::U.value();
        self.stack_pointer_increment();
        self.pc = self.bus_mut_read_u8(self.get_stack_address()) as u16;
        self.stack_pointer_increment();
        let hi = self.bus_mut_read_u8(self.get_stack_address()) as u16;
        self.pc = self.pc | (hi << 8u16);
        0
    }

    /// Return from subroutine.
    pub fn rts(&mut self) -> (r: u8)
        requires
            old(self).wf(),
        ensures
            final(self).wf(),
            (final(self)@, r) == old(self)@.op_rts(),
    {
        self.stack_pointer_increment();
        self.pc = self.bus_mut_read_u8(self.get_stack_address()) as u16;
        self.stack_pointer_increment();
        let hi = self.bus_mut_read_u8(self.get_stack_address()) as u16;
        self.pc = self.pc | (hi << 8u16);
        self.pc_increment();
        0
    }

    /// Subtract with carry.
    pub fn sbc(&mut self) -> (r: u8)
        requires
            old(self).wf(),
            old(self)@.fetch_ok(),
        ensures
            final(self).wf(),
            (final(self)@, r) == old(self)@.op_sbc(),
    {
        self.fetch();
        let value = (self.fetched as u16) ^ 0x00FF;
        proof { crate::bits::lemma_complement_byte(self.fetched); }
        let a = self.acc as u16;
        let val = a.wrapping_add(value).wrapping_add(self.get_flag_val(&Flag6502::C));
        self.set_flag(&Flag6502::C, (val & 0xFF00) > 0);
        self.set_flag(&Flag6502::V, ((val ^ a) & (val ^ value) & 0x0080) > 0);
        self.set_flags_zero_and_negative(val & 0x00FF);
        proof { crate::bits::lemma_and_u16_le(val, 0x00FF); }
        self.acc = (val & 0x00FF) as u8;
        1
    }

    /// Set carry.
    pub fn sec(&mut self) -> (r: u8)
        requires
            old(self).wf(),
        ensures
            final(self).wf(),
            (final(self)@, r) == old(self)@.op_sec(),
    {
        self.set_flag(&Flag6502::C, true);
        0
    }

    /// Set decimal.
    pub fn sed(&mut self) -> (r: u8)
        requires
            old(self).wf(),
        ensures
            final(self).wf(),
            (final(self)@, r) == old(self)@.op_sed(),
    {
        self.set_flag(&Flag6502::D, true);
        0
    }

    /// Set interrupt disable.
    pub fn sei(&mut self) -> (r: u8)
        requires
            old(self).wf(),
        ensures
            final(self).wf(),
            (final(self)@, r) == old(self)@.op_sei(),
    {
        self.set_flag(&Flag6502::I, true);
        0
    }

    /// Store the accumulator.
    pub fn sta(&mut self) -> (r: u8)
        requires
            old(self).wf(),
            old(self)@.write_ok(old(self).addr_abs),
        ensures
            final(self).wf(),
            (final(self)@, r) == old(self)@.op_sta(),
    {
        self.bus_write_u8(self.addr_abs, self.acc);
        0
    }

    /// Store X.
    pub fn stx(&mut self) -> (r: u8)
        requires
            old(self).wf(),
            old(self)@.write_ok(old(self).addr_abs),
        ensures
            final(self).wf(),
            (final(self)@, r) == old(self)@.op_stx(),
    {
        self.bus_write_u8(self.addr_abs, self.x);
        0
    }

    /// Store Y.
    pub fn sty(&mut self) -> (r: u8)
        requires
            old(self).wf(),
            old(self)@.write_ok(old(self).addr_abs),
        ensures
            final(self).wf(),
            (final(self)@, r) == old(self)@.op_sty(),
    {
        self.bus_write_u8(self.addr_abs, self.y);
        0
    }

    /// Transfer the accumulator to X.
    pub fn tax(&mut self) -> (r: u8)
        requires
            old(self).wf(),
        ensures
            final(self).wf(),
            (final(self)@, r) == old(self)@.op_tax(),
    {
        self.x = self.acc;
        self.set_flags_zero_and_negative(self.x as u16);
        0
    }

    /// Transfer the accumulator to Y.
    pub fn tay(&mut self) -> (r: u8)
        requires
            old(self).wf(),
        ensures
            final(self).wf(),
            (final(self)@, r) == old(self)@.op_tay(),
    {
        self.y = self.acc;
        self.set_flags_zero_and_negative(self.y as u16);
        0
    }

    /// Transfer the stack pointer to X.
    pub fn tsx(&mut self) -> (r: u8)
        requires
            old(self).wf(),
        ensures
            final(self).wf(),
            (final(self)@, r) == old(self)@.op_tsx(),
    {
        self.x = self.stack_pointer;
        self.set_flags_zero_and_negative(self.x as u16);
        0
    }

    /// Transfer X to the accumulator.
    pub fn txa(&mut self) -> (r: u8)
        requires
            old(self).wf(),
        ensures
            final(self).wf(),
            (final(self)@, r) == old(self)@.op_txa(),
    {
        self.acc = self.x;
        self.set_flags_zero_and_negative(self.acc as u16);
        0
    }

    /// Transfer X to the stack pointer.
    pub fn txs(&mut self) -> (r: u8)
        requires
            old(self).wf(),
        ensures
            final(self).wf(),
            (final(self)@, r) == old(self)@.op_txs(),
    {
        self.stack_pointer = self.x;
        0
    }

    /// Transfer Y to the accumulator.
    pub fn tya(&mut self) -> (r: u8)
        requires
            old(self).wf(),
        ensures
            final(self).wf(),
            (final(self)@, r) == old(self)@.op_tya(),
    {
        self.acc = self.y;
        self.set_flags_zero_and_negative(self.acc as u16);
        0
    }

}

} // verus!
