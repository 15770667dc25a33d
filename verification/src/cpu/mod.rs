use vstd::prelude::*;
use crate::bus::{Bus, BusView};
use crate::cpu::instruction_table::{AddrMode6502, Flag6502, LookUpTable, OpCode6502, decode};

pub mod addressing;
pub mod alu;
pub mod instruction_table;
pub mod operations;

verus! {

pub const FLAG_C: u8 = 1;
pub const FLAG_Z: u8 = 2;
pub const FLAG_I: u8 = 4;
pub const FLAG_D: u8 = 8;
pub const FLAG_B: u8 = 16;
pub const FLAG_U: u8 = 32;
pub const FLAG_V: u8 = 64;
pub const FLAG_N: u8 = 128;

/// `n` wrapped once around the byte range; exact for `-256 <= n < 512`, which covers
/// one addition or subtraction of bytes.
pub open spec fn wrap8(n: int) -> u8 {
    if n < 0 { (n + 256) as u8 } else if n > 255 { (n - 256) as u8 } else { n as u8 }
}

/// `n` wrapped once around the 16-bit range; exact for `-0x10000 <= n < 0x20000`, which
/// covers one addition or subtraction of 16-bit words.
pub open spec fn wrap16(n: int) -> u16 {
    if n < 0 { (n + 0x10000) as u16 } else if n > 0xFFFF { (n - 0x10000) as u16 } else { n as u16 }
}

/// `status` with the bits of `mask` set when `v` holds and cleared otherwise.
pub open spec fn with_mask(status: u8, mask: u8, v: bool) -> u8 {
    if v { status | mask } else { status & !mask }
}

/// The 6502's registers and the bus it drives, as the contracts see them.
pub struct CpuView {
    pub bus: BusView,
    pub pc: u16,
    pub acc: u8,
    pub x: u8,
    pub y: u8,
    pub status_register: u8,
    pub stack_pointer: u8,
    pub fetched: u8,
    pub addr_abs: u16,
    pub addr_rel: u16,
    pub opcode: u8,
    pub cycle: u8,
    pub system_cycle: u32,
}

impl CpuView {
    pub open spec fn flag(self, mask: u8) -> bool {
        self.status_register & mask > 0
    }

    pub open spec fn carry(self) -> u16 {
        if self.flag(FLAG_C) { 1 } else { 0 }
    }

    pub open spec fn with_flag(self, mask: u8, v: bool) -> CpuView {
        CpuView { status_register: with_mask(self.status_register, mask, v), ..self }
    }

    /// Z from the low byte of `val`, N from its bit 7.
    pub open spec fn with_zn(self, val: u16) -> CpuView {
        self.with_flag(FLAG_Z, val & 0x00FF == 0).with_flag(FLAG_N, val & 0x0080 > 0)
    }

    pub open spec fn read_ok(self, address: u16) -> bool {
        self.bus.read_ok(address)
    }

    pub open spec fn read(self, address: u16) -> (u8, CpuView) {
        let (v, b) = self.bus.read(address);
        (v, CpuView { bus: b, ..self })
    }

    pub open spec fn write_ok(self, address: u16) -> bool {
        self.bus.write_ok(address)
    }

    pub open spec fn write(self, address: u16, data: u8) -> CpuView {
        CpuView { bus: self.bus.write(address, data, self.system_cycle), ..self }
    }

    pub open spec fn stack_address(self) -> u16 {
        (0x0100 + self.stack_pointer) as u16
    }

    /// Stores `data` on the stack and moves the stack pointer down.
    pub open spec fn push(self, data: u8) -> CpuView {
        CpuView { stack_pointer: wrap8(self.stack_pointer - 1), ..self.write(self.stack_address(), data) }
    }

    /// Moves the stack pointer up and loads the byte it then points at.
    pub open spec fn pull(self) -> (u8, CpuView) {
        let s = CpuView { stack_pointer: wrap8(self.stack_pointer + 1), ..self };
        s.read(s.stack_address())
    }

    pub open spec fn next_pc(self) -> CpuView {
        CpuView { pc: wrap16(self.pc + 1), ..self }
    }

    pub open spec fn addr_mode(self) -> AddrMode6502 {
        decode(self.opcode).addr_mode
    }

    pub open spec fn fetch_ok(self) -> bool {
        self.addr_mode() == AddrMode6502::Imp || self.read_ok(self.addr_abs)
    }

    /// Loads the operand at `addr_abs` into `fetched`, except in implied mode.
    pub open spec fn fetch(self) -> CpuView {
        if self.addr_mode() == AddrMode6502::Imp {
            self
        } else {
            let (v, s) = self.read(self.addr_abs);
            CpuView { fetched: v, ..s }
        }
    }

    pub open spec fn store_ok(self) -> bool {
        self.addr_mode() == AddrMode6502::Imp || self.write_ok(self.addr_abs)
    }

    /// The low byte of `val` goes to the accumulator in implied mode, to memory otherwise.
    pub open spec fn store(self, val: u16) -> CpuView {
        if self.addr_mode() == AddrMode6502::Imp {
            CpuView { acc: (val & 0xFF) as u8, ..self }
        } else {
            self.write(self.addr_abs, (val & 0xFF) as u8)
        }
    }

    // Addressing modes: the state after the operand address is formed, and whether the
    // mode may add a cycle.

    pub open spec fn mode_imp(self) -> (CpuView, u8) {
        (CpuView { fetched: self.acc, ..self }, 0)
    }

    pub open spec fn mode_imm(self) -> (CpuView, u8) {
        (CpuView { addr_abs: self.pc, ..self }.next_pc(), 0)
    }

    pub open spec fn zero_page(self, offset: u8) -> (CpuView, u8) {
        let (v, s) = self.read(self.pc);
        (CpuView { addr_abs: wrap8(v + offset) as u16, ..s }.next_pc(), 0)
    }

    pub open spec fn mode_rel(self) -> (CpuView, u8) {
        let (v, s) = self.read(self.pc);
        let r = v as u16;
        (CpuView { addr_rel: if r & 0x80 > 0 { r | 0xFF00 } else { r }, ..s }.next_pc(), 0)
    }

    pub open spec fn read_pc_ok(self) -> bool {
        let (lo, s1) = self.read(self.pc);
        let s2 = s1.next_pc();
        self.read_ok(self.pc) && s2.read_ok(s2.pc)
    }

    /// Reads the two operand bytes after the opcode: the low byte and the high byte
    /// shifted into place.
    pub open spec fn spec_read_pc(self) -> (u16, u16, CpuView) {
        let (lo, s1) = self.read(self.pc);
        let s2 = s1.next_pc();
        let (hi, s3) = s2.read(s2.pc);
        (lo as u16, (hi as u16) << 8u16, s3.next_pc())
    }

    pub open spec fn mode_abs(self) -> (CpuView, u8) {
        let (lo, hi, s) = self.spec_read_pc();
        (CpuView { addr_abs: hi | lo, ..s }, 0)
    }

    pub open spec fn absolute_indexed(self, offset: u8) -> (CpuView, u8) {
        let (lo, hi, s) = self.spec_read_pc();
        let a = wrap16((hi | lo) + offset);
        (CpuView { addr_abs: a, ..s }, if a & 0xFF00 != hi { 1 } else { 0 })
    }

    pub open spec fn ind_pointer(self) -> (u16, u16, CpuView) {
        let (lo, hi, s) = self.spec_read_pc();
        let byte = hi | lo;
        (byte, if lo == 0x00FF { byte & 0xFF00 } else { wrap16(byte + 1) }, s)
    }

    pub open spec fn mode_ind_ok(self) -> bool {
        let (byte, b, s) = self.ind_pointer();
        let (v1, s1) = s.read(b);
        self.read_pc_ok() && s.read_ok(b) && s1.read_ok(byte)
    }

    pub open spec fn mode_ind(self) -> (CpuView, u8) {
        let (byte, b, s) = self.ind_pointer();
        let (v1, s1) = s.read(b);
        let (v2, s2) = s1.read(byte);
        (CpuView { addr_abs: ((v1 as u16) << 8u16) | (v2 as u16), ..s2 }, 0)
    }

    pub open spec fn mode_izx(self) -> (CpuView, u8) {
        let (byte, s1) = self.read(self.pc);
        let s2 = s1.next_pc();
        let base = (byte + self.x) as u16;
        let (lo, s3) = s2.read(base & 0x00FF);
        let (hi, s4) = s3.read(((base + 1) as u16) & 0x00FF);
        (CpuView { addr_abs: ((hi as u16) << 8u16) | (lo as u16), ..s4 }, 0)
    }

    pub open spec fn mode_izy(self) -> (CpuView, u8) {
        let (byte, s1) = self.read(self.pc);
        let s2 = s1.next_pc();
        let (lo, s3) = s2.read((byte as u16) & 0x00FF);
        let (hi, s4) = s3.read(((byte + 1) as u16) & 0x00FF);
        let hi16 = (hi as u16) << 8u16;
        let a = wrap16((hi16 | (lo as u16)) + self.y);
        (CpuView { addr_abs: a, ..s4 }, if a & 0xFF00 != hi16 { 1 } else { 0 })
    }

    pub open spec fn mode_ok(self, mode: AddrMode6502) -> bool {
        match mode {
            AddrMode6502::Imp => true,
            AddrMode6502::Imm => true,
            AddrMode6502::Zpo | AddrMode6502::Zpx | AddrMode6502::Zpy | AddrMode6502::Rel
            | AddrMode6502::Izx | AddrMode6502::Izy => self.read_ok(self.pc),
            AddrMode6502::Abs | AddrMode6502::Abx | AddrMode6502::Aby => self.read_pc_ok(),
            AddrMode6502::Ind => self.mode_ind_ok(),
        }
    }

    #[verifier::opaque]
    pub open spec fn mode(self, mode: AddrMode6502) -> (CpuView, u8) {
        match mode {
            AddrMode6502::Imp => self.mode_imp(),
            AddrMode6502::Imm => self.mode_imm(),
            AddrMode6502::Zpo => self.zero_page(0),
            AddrMode6502::Zpx => self.zero_page(self.x),
            AddrMode6502::Zpy => self.zero_page(self.y),
            AddrMode6502::Rel => self.mode_rel(),
            AddrMode6502::Abs => self.mode_abs(),
            AddrMode6502::Abx => self.absolute_indexed(self.x),
            AddrMode6502::Aby => self.absolute_indexed(self.y),
            AddrMode6502::Ind => self.mode_ind(),
            AddrMode6502::Izx => self.mode_izx(),
            AddrMode6502::Izy => self.mode_izy(),
        }
    }

    // Operations: the state after the operation, and whether it may add a cycle.

    pub open spec fn branch(self, condition: bool) -> (CpuView, u8) {
        if condition {
            let s = CpuView { cycle: wrap8(self.cycle + 1), ..self };
            let new_pc = wrap16(self.pc + self.addr_rel);
            let s2 = if new_pc & 0xFF00 != self.pc & 0xFF00 { CpuView { cycle: wrap8(s.cycle + 1), ..s } } else { s };
            (CpuView { pc: new_pc, ..s2 }, 0)
        } else {
            (self, 0)
        }
    }

    pub open spec fn op_adc(self) -> (CpuView, u8) {
        let s = self.fetch();
        let a = s.acc as u16;
        let m = s.fetched as u16;
        let val = (a + m + s.carry()) as u16;
        let s2 = s.with_flag(FLAG_C, val > 255).with_flag(FLAG_V, ((!(a ^ m) & (a ^ val)) & 0x0080) > 0)
            .with_zn(val & 0x00FF);
        (CpuView { acc: (val & 0x00FF) as u8, ..s2 }, 1)
    }

    pub open spec fn op_sbc(self) -> (CpuView, u8) {
        let s = self.fetch();
        let a = s.acc as u16;
        let value = (s.fetched as u16) ^ 0x00FF;
        let val = (a + value + s.carry()) as u16;
        let s2 = s.with_flag(FLAG_C, val & 0xFF00 > 0).with_flag(FLAG_V, ((val ^ a) & (val ^ value) & 0x0080) > 0)
            .with_zn(val & 0x00FF);
        (CpuView { acc: (val & 0x00FF) as u8, ..s2 }, 1)
    }

    pub open spec fn op_asl(self) -> (CpuView, u8) {
        let s = self.fetch();
        let val = (s.fetched as u16) << 1u16;
        let s2 = s.with_flag(FLAG_C, val & 0xFF00 > 0).with_flag(FLAG_Z, val & 0x00FF == 0)
            .with_flag(FLAG_N, val & 0x0080 > 0);
        (s2.store(val), 0)
    }

    pub open spec fn op_lsr(self) -> (CpuView, u8) {
        let s = self.fetch();
        let val = (s.fetched >> 1u8) as u16;
        (s.with_flag(FLAG_C, s.fetched & 1 > 0).with_zn(val).store(val), 0)
    }

    pub open spec fn op_rol(self) -> (CpuView, u8) {
        let s = self.fetch();
        let val = ((s.fetched as u16) << 1u16) | s.carry();
        (s.with_flag(FLAG_C, val & 0xFF00 > 0).with_zn(val).store(val), 0)
    }

    pub open spec fn op_ror(self) -> (CpuView, u8) {
        let s = self.fetch();
        let val = (s.carry() << 7u16) | ((s.fetched as u16) >> 1u16);
        (s.with_flag(FLAG_C, s.fetched & 0x01 > 0).with_zn(val).store(val), 0)
    }

    pub open spec fn op_and(self) -> (CpuView, u8) {
        let s = self.fetch();
        let v = s.acc & s.fetched;
        (CpuView { acc: v, ..s }.with_zn(v as u16), 1)
    }

    pub open spec fn op_ora(self) -> (CpuView, u8) {
        let s = self.fetch();
        let v = s.acc | s.fetched;
        (CpuView { acc: v, ..s }.with_zn(v as u16), 1)
    }

    pub open spec fn op_eor(self) -> (CpuView, u8) {
        let s = self.fetch();
        let v = s.acc ^ s.fetched;
        (CpuView { acc: v, ..s }.with_zn(v as u16), 1)
    }

    pub open spec fn op_bit(self) -> (CpuView, u8) {
        let s = self.fetch();
        let val = (s.acc as u16) & (s.fetched as u16);
        (s.with_flag(FLAG_Z, val & 0x00FF == 0).with_flag(FLAG_N, s.fetched & 0x80 > 0)
            .with_flag(FLAG_V, s.fetched & 0x40 > 0), 0)
    }

    pub open spec fn brk_frame(self) -> CpuView {
        let s1 = self.next_pc().with_flag(FLAG_I, true);
        let s2 = s1.push(((s1.pc >> 8u16) & 0x00FF) as u8);
        let s3 = s2.push((s2.pc & 0x00FF) as u8);
        let s4 = s3.with_flag(FLAG_B, true);
        s4.push(s4.status_register).with_flag(FLAG_B, false)
    }

    pub open spec fn brk_ok(self) -> bool {
        let s = self.brk_frame();
        let (lo, s1) = s.read(0xFFFE);
        s.read_ok(0xFFFE) && s1.read_ok(0xFFFF)
    }

    pub open spec fn op_brk(self) -> (CpuView, u8) {
        let s = self.brk_frame();
        let (lo, s1) = s.read(0xFFFE);
        let (hi, s2) = s1.read(0xFFFF);
        (CpuView { pc: (lo as u16) | ((hi as u16) << 8u16), ..s2 }, 0)
    }

    pub open spec fn compare(self, reg: u8) -> (CpuView, u8) {
        let s = self.fetch();
        let val = wrap8(reg - s.fetched) as u16;
        (s.with_flag(FLAG_C, reg >= s.fetched).with_zn(val), 0)
    }

    pub open spec fn op_compare_acc(self) -> (CpuView, u8) {
        (self.compare(self.acc).0, 1)
    }

    pub open spec fn op_dec(self) -> (CpuView, u8) {
        let s = self.fetch();
        let val = wrap16(s.fetched - 1);
        (s.write(s.addr_abs, (val & 0x00FF) as u8).with_zn(val), 0)
    }

    pub open spec fn op_inc(self) -> (CpuView, u8) {
        let s = self.fetch();
        let val = wrap8(s.fetched + 1) as u16;
        (s.write(s.addr_abs, (val & 0x00FF) as u8).with_zn(val), 0)
    }

    pub open spec fn op_jsr(self) -> (CpuView, u8) {
        let s1 = CpuView { pc: wrap16(self.pc - 1), ..self };
        let s2 = s1.push(((s1.pc >> 8u16) & 0x00FF) as u8);
        let s3 = s2.push((s1.pc & 0x00FF) as u8);
        (CpuView { pc: self.addr_abs, ..s3 }, 0)
    }

    pub open spec fn op_nop(self) -> (CpuView, u8) {
        let o = self.opcode;
        (self, if o == 0x1C || o == 0x3C || o == 0x5C || o == 0x7C || o == 0xDC || o == 0xFC { 1 } else { 0 })
    }

    pub open spec fn op_php(self) -> (CpuView, u8) {
        let s = self.write(self.stack_address(), self.status_register | FLAG_B | FLAG_U)
            .with_flag(FLAG_B, false).with_flag(FLAG_U, false);
        (CpuView { stack_pointer: wrap8(self.stack_pointer - 1), ..s }, 0)
    }

    pub open spec fn op_pla(self) -> (CpuView, u8) {
        let (v, s) = self.pull();
        (CpuView { acc: v, ..s }.with_zn(v as u16), 0)
    }

    pub open spec fn op_plp(self) -> (CpuView, u8) {
        let (v, s) = self.pull();
        (CpuView { status_register: v, ..s }.with_flag(FLAG_U, true), 0)
    }

    pub open spec fn op_rti(self) -> (CpuView, u8) {
        let (st, s1) = self.pull();
        let s2 = CpuView { status_register: st & !FLAG_B & !FLAG_U, ..s1 };
        let (lo, s3) = s2.pull();
        let (hi, s4) = s3.pull();
        (CpuView { pc: (lo as u16) | ((hi as u16) << 8u16), ..s4 }, 0)
    }

    pub open spec fn op_rts(self) -> (CpuView, u8) {
        let (lo, s1) = self.pull();
        let (hi, s2) = s1.pull();
        (CpuView { pc: wrap16(((lo as u16) | ((hi as u16) << 8u16)) + 1), ..s2 }, 0)
    }

    pub open spec fn load(self, reg: u8) -> CpuView {
        self.with_zn(reg as u16)
    }

    #[verifier::opaque]
    pub open spec fn op_ok(self, op: OpCode6502) -> bool {
        match op {
            OpCode6502::Adc | OpCode6502::And | OpCode6502::Bit | OpCode6502::Cmp | OpCode6502::Cpx
            | OpCode6502::Cpy | OpCode6502::Eor | OpCode6502::Lda | OpCode6502::Ldx
            | OpCode6502::Ldy | OpCode6502::Ora | OpCode6502::Sbc => self.fetch_ok(),
            OpCode6502::Asl | OpCode6502::Lsr | OpCode6502::Rol | OpCode6502::Ror => self.fetch_ok()
                && self.fetch().store_ok(),
            OpCode6502::Dec | OpCode6502::Inc => self.fetch_ok() && self.fetch().write_ok(self.addr_abs),
            OpCode6502::Brk => self.brk_ok(),
            OpCode6502::Sta | OpCode6502::Stx | OpCode6502::Sty => self.write_ok(self.addr_abs),
            _ => true,
        }
    }

    pub open spec fn op_bcc(self) -> (CpuView, u8) {
        self.branch(!self.flag(FLAG_C))
    }

    pub open spec fn op_bcs(self) -> (CpuView, u8) {
        self.branch(self.flag(FLAG_C))
    }

    pub open spec fn op_beq(self) -> (CpuView, u8) {
        self.branch(self.flag(FLAG_Z))
    }

    pub open spec fn op_bmi(self) -> (CpuView, u8) {
        self.branch(self.flag(FLAG_N))
    }

    pub open spec fn op_bne(self) -> (CpuView, u8) {
        self.branch(!self.flag(FLAG_Z))
    }

    pub open spec fn op_bpl(self) -> (CpuView, u8) {
        self.branch(!self.flag(FLAG_N))
    }

    pub open spec fn op_bvc(self) -> (CpuView, u8) {
        self.branch(!self.flag(FLAG_V))
    }

    pub open spec fn op_bvs(self) -> (CpuView, u8) {
        self.branch(self.flag(FLAG_V))
    }

    pub open spec fn op_clc(self) -> (CpuView, u8) {
        (self.with_flag(FLAG_C, false), 0)
    }

    pub open spec fn op_cld(self) -> (CpuView, u8) {
        (self.with_flag(FLAG_D, false), 0)
    }

    pub open spec fn op_cli(self) -> (CpuView, u8) {
        (self.with_flag(FLAG_I, false), 0)
    }

    pub open spec fn op_clv(self) -> (CpuView, u8) {
        (self.with_flag(FLAG_V, false), 0)
    }

    pub open spec fn op_compare_x(self) -> (CpuView, u8) {
        self.compare(self.x)
    }

    pub open spec fn op_compare_y(self) -> (CpuView, u8) {
        self.compare(self.y)
    }

    pub open spec fn op_dex(self) -> (CpuView, u8) {
        let v = wrap8(self.x - 1);
        (CpuView { x: v, ..self }.with_zn(v as u16), 0)
    }

    pub open spec fn op_dey(self) -> (CpuView, u8) {
        let v = wrap8(self.y - 1);
        (CpuView { y: v, ..self }.with_zn(v as u16), 0)
    }

    pub open spec fn op_inx(self) -> (CpuView, u8) {
        let v = wrap8(self.x + 1);
        (CpuView { x: v, ..self }.with_zn(v as u16), 0)
    }

    pub open spec fn op_iny(self) -> (CpuView, u8) {
        let v = wrap8(self.y + 1);
        (CpuView { y: v, ..self }.with_zn(v as u16), 0)
    }

    pub open spec fn op_jmp(self) -> (CpuView, u8) {
        (CpuView { pc: self.addr_abs, ..self }, 0)
    }

    pub open spec fn op_lda(self) -> (CpuView, u8) {
        let s = self.fetch();
        (CpuView { acc: s.fetched, ..s }.load(s.fetched), 1)
    }

    pub open spec fn op_ldx(self) -> (CpuView, u8) {
        let s = self.fetch();
        (CpuView { x: s.fetched, ..s }.load(s.fetched), 1)
    }

    pub open spec fn op_ldy(self) -> (CpuView, u8) {
        let s = self.fetch();
        (CpuView { y: s.fetched, ..s }.load(s.fetched), 1)
    }

    pub open spec fn op_pha(self) -> (CpuView, u8) {
        (self.push(self.acc), 0)
    }

    pub open spec fn op_sec(self) -> (CpuView, u8) {
        (self.with_flag(FLAG_C, true), 0)
    }

    pub open spec fn op_sed(self) -> (CpuView, u8) {
        (self.with_flag(FLAG_D, true), 0)
    }

    pub open spec fn op_sei(self) -> (CpuView, u8) {
        (self.with_flag(FLAG_I, true), 0)
    }

    pub open spec fn op_sta(self) -> (CpuView, u8) {
        (self.write(self.addr_abs, self.acc), 0)
    }

    pub open spec fn op_stx(self) -> (CpuView, u8) {
        (self.write(self.addr_abs, self.x), 0)
    }

    pub open spec fn op_sty(self) -> (CpuView, u8) {
        (self.write(self.addr_abs, self.y), 0)
    }

    pub open spec fn op_tax(self) -> (CpuView, u8) {
        (CpuView { x: self.acc, ..self }.with_zn(self.acc as u16), 0)
    }

    pub open spec fn op_tay(self) -> (CpuView, u8) {
        (CpuView { y: self.acc, ..self }.with_zn(self.acc as u16), 0)
    }

    pub open spec fn op_tsx(self) -> (CpuView, u8) {
        (CpuView { x: self.stack_pointer, ..self }.with_zn(self.stack_pointer as u16), 0)
    }

    pub open spec fn op_txa(self) -> (CpuView, u8) {
        (CpuView { acc: self.x, ..self }.with_zn(self.x as u16), 0)
    }

    pub open spec fn op_txs(self) -> (CpuView, u8) {
        (CpuView { stack_pointer: self.x, ..self }, 0)
    }

    pub open spec fn op_tya(self) -> (CpuView, u8) {
        (CpuView { acc: self.y, ..self }.with_zn(self.y as u16), 0)
    }

    pub open spec fn op_xxx(self) -> (CpuView, u8) {
        (self, 0)
    }

    /// The state after operation `op` and whether it may add a cycle.
    #[verifier::opaque]
    pub open spec fn op(self, op: OpCode6502) -> (CpuView, u8) {
        match op {
            OpCode6502::Adc => self.op_adc(),
            OpCode6502::And => self.op_and(),
            OpCode6502::Asl => self.op_asl(),
            OpCode6502::Bcc => self.op_bcc(),
            OpCode6502::Bcs => self.op_bcs(),
            OpCode6502::Beq => self.op_beq(),
            OpCode6502::Bit => self.op_bit(),
            OpCode6502::Bmi => self.op_bmi(),
            OpCode6502::Bne => self.op_bne(),
            OpCode6502::Bpl => self.op_bpl(),
            OpCode6502::Brk => self.op_brk(),
            OpCode6502::Bvc => self.op_bvc(),
            OpCode6502::Bvs => self.op_bvs(),
            OpCode6502::Clc => self.op_clc(),
            OpCode6502::Cld => self.op_cld(),
            OpCode6502::Cli => self.op_cli(),
            OpCode6502::Clv => self.op_clv(),
            OpCode6502::Cmp => self.op_compare_acc(),
            OpCode6502::Cpx => self.op_compare_x(),
            OpCode6502::Cpy => self.op_compare_y(),
            OpCode6502::Dec => self.op_dec(),
            OpCode6502::Dex => self.op_dex(),
            OpCode6502::Dey => self.op_dey(),
            OpCode6502::Eor => self.op_eor(),
            OpCode6502::Inc => self.op_inc(),
            OpCode6502::Inx => self.op_inx(),
            OpCode6502::Iny => self.op_iny(),
            OpCode6502::Jmp => self.op_jmp(),
            OpCode6502::Jsr => self.op_jsr(),
            OpCode6502::Lda => self.op_lda(),
            OpCode6502::Ldx => self.op_ldx(),
            OpCode6502::Ldy => self.op_ldy(),
            OpCode6502::Lsr => self.op_lsr(),
            OpCode6502::Nop => self.op_nop(),
            OpCode6502::Ora => self.op_ora(),
            OpCode6502::Pha => self.op_pha(),
            OpCode6502::Php => self.op_php(),
            OpCode6502::Pla => self.op_pla(),
            OpCode6502::Plp => self.op_plp(),
            OpCode6502::Rol => self.op_rol(),
            OpCode6502::Ror => self.op_ror(),
            OpCode6502::Rti => self.op_rti(),
            OpCode6502::Rts => self.op_rts(),
            OpCode6502::Sbc => self.op_sbc(),
            OpCode6502::Sec => self.op_sec(),
            OpCode6502::Sed => self.op_sed(),
            OpCode6502::Sei => self.op_sei(),
            OpCode6502::Sta => self.op_sta(),
            OpCode6502::Stx => self.op_stx(),
            OpCode6502::Sty => self.op_sty(),
            OpCode6502::Tax => self.op_tax(),
            OpCode6502::Tay => self.op_tay(),
            OpCode6502::Tsx => self.op_tsx(),
            OpCode6502::Txa => self.op_txa(),
            OpCode6502::Txs => self.op_txs(),
            OpCode6502::Tya => self.op_tya(),
            OpCode6502::Xxx => self.op_xxx(),
        }
    }

    /// The state after the opcode byte at `pc` has been read and decoded.
    pub open spec fn decoded(self, system_cycle: u32) -> CpuView {
        let s1 = CpuView { system_cycle, ..self };
        let (op, s2) = s1.read(s1.pc);
        CpuView { opcode: op, cycle: decode(op).cycles, ..s2.next_pc() }
    }

    pub open spec fn step_ok(self, system_cycle: u32) -> bool {
        let s1 = CpuView { system_cycle, ..self };
        let s3 = self.decoded(system_cycle);
        let ins = decode(s3.opcode);
        let (s4, a) = s3.mode(ins.addr_mode);
        s1.read_ok(s1.pc) && s3.mode_ok(ins.addr_mode) && s4.op_ok(ins.operate)
    }

    /// One instruction: decode the opcode at `pc`, form the operand address, run the
    /// operation, and add the extra cycle when both the mode and the operation allow one.
    pub open spec fn step(self, system_cycle: u32) -> CpuView {
        let s3 = self.decoded(system_cycle);
        let ins = decode(s3.opcode);
        let (s4, a) = s3.mode(ins.addr_mode);
        let (s5, b) = s4.op(ins.operate);
        CpuView { cycle: wrap8(s5.cycle + (a & b)), ..s5 }
    }

    /// Pushes the program counter and the status register and jumps through `vector`.
    pub open spec fn interrupt_frame(self) -> CpuView {
        let s1 = self.push(((self.pc >> 8u16) & 0x00FF) as u8);
        let s2 = s1.push((self.pc & 0x00FF) as u8);
        let s3 = s2.with_flag(FLAG_B, false).with_flag(FLAG_U, true).with_flag(FLAG_I, true);
        s3.push(s3.status_register)
    }

    pub open spec fn vector_ok(self, vector: u16) -> bool {
        let (lo, s1) = self.read(vector);
        self.read_ok(vector) && s1.read_ok((vector + 1) as u16)
    }

    pub open spec fn jump_vector(self, vector: u16) -> CpuView {
        let s0 = CpuView { addr_abs: vector, ..self };
        let (lo, s1) = s0.read(vector);
        let (hi, s2) = s1.read((vector + 1) as u16);
        CpuView { pc: ((hi as u16) << 8u16) | (lo as u16), ..s2 }
    }

    pub open spec fn spec_reset(self) -> CpuView {
        let s = self.jump_vector(0xFFFC);
        CpuView {
            acc: 0,
            x: 0,
            y: 0,
            stack_pointer: 0xFD,
            status_register: FLAG_U,
            addr_abs: 0,
            addr_rel: 0,
            fetched: 0,
            cycle: 8,
            ..s
        }
    }

    pub open spec fn irq_ok(self) -> bool {
        self.flag(FLAG_I) ==> self.interrupt_frame().vector_ok(0xFFFE)
    }

    pub open spec fn spec_irq(self) -> CpuView {
        if self.flag(FLAG_I) {
            CpuView { cycle: 7, ..self.interrupt_frame().jump_vector(0xFFFE) }
        } else {
            self
        }
    }

    pub open spec fn spec_nmi(self) -> CpuView {
        CpuView { cycle: 8, ..self.interrupt_frame().jump_vector(0xFFFA) }
    }
}


/// The 6502 core and the bus it drives.
pub struct Cpu {
    pub bus: Bus,
    pub pc: u16,
    pub acc: u8,
    pub x: u8,
    pub y: u8,
    pub status_register: u8,
    pub stack_pointer: u8,
    pub fetched: u8,
    pub addr_abs: u16,
    pub addr_rel: u16,
    pub opcode: u8,
    pub cycle: u8,
    pub lookup: LookUpTable,
    pub system_cycle: u32,
}

impl View for Cpu {
    type V = CpuView;

    open spec fn view(&self) -> CpuView {
        CpuView {
            bus: self.bus@,
            pc: self.pc,
            acc: self.acc,
            x: self.x,
            y: self.y,
            status_register: self.status_register,
            stack_pointer: self.stack_pointer,
            fetched: self.fetched,
            addr_abs: self.addr_abs,
            addr_rel: self.addr_rel,
            opcode: self.opcode,
            cycle: self.cycle,
            system_cycle: self.system_cycle,
        }
    }
}

/// A byte as a 16-bit word.
fn widen(v: u8) -> (r: u16)
    ensures
        r == v as u16,
{
    v as u16
}

impl Cpu {
    pub open spec fn wf(&self) -> bool {
        self.bus@.wf() && self.lookup.wf()
    }

    pub fn new(bus: Bus) -> (r: Cpu)
        requires
            bus@.wf(),
        ensures
            r.wf(),
            r@ == (CpuView {
                bus: bus@,
                pc: 0,
                acc: 0,
                x: 0,
                y: 0,
                status_register: 0,
                stack_pointer: 0,
                fetched: 0,
                addr_abs: 0,
                addr_rel: 0,
                opcode: 0,
                cycle: 0,
                system_cycle: 0,
            }),
    {
        let lookup = LookUpTable::new();
        Cpu {
            bus,
            pc: 0,
            acc: 0,
            x: 0,
            y: 0,
            fetched: 0x0,
            addr_abs: 0x0u16,
            addr_rel: 0x0u16,
            opcode: 0x0u8,
            stack_pointer: 0x0u8,
            status_register: 0u8,
            cycle: 0u8,
            lookup,
            system_cycle: 0,
        }
    }

    fn set_flag(&mut self, flag: &Flag6502, val: bool)
        requires
            old(self).wf(),
        ensures
            final(self).wf(),
            final(self)@ == old(self)@.with_flag(flag.mask(), val),
    {
        let f = flag.value();
        if val {
            self.status_register = self.status_register | f;
        } else {
            self.status_register = self.status_register & !f;
        }
    }

    fn get_flag(&self, flag: &Flag6502) -> (r: bool)
        ensures
            r == self@.flag(flag.mask()),
    {
        (self.status_register & flag.value()) > 0
    }

    fn get_flag_val(&self, flag: &Flag6502) -> (r: u16)
        ensures
            r == (if self@.flag(flag.mask()) { 1u16 } else { 0u16 }),
    {
        if (self.status_register & flag.value()) > 0 { 1 } else { 0 }
    }

    pub fn bus_mut_read_u8(&mut self, address: u16) -> (r: u8)
        requires
            old(self).wf(),
            address <= 0x1FFF || old(self)@.read_ok(address),
        ensures
            final(self).wf(),
            (r, final(self)@) == old(self)@.read(address),
    {
        proof {
            if address <= 0x1FFF {
                crate::bus::lemma_ram_access(self.bus@, address);
            }
        }
        self.bus.read_u8(address)
    }

    pub fn bus_mut_read_dbg_u8(&mut self, address_start: usize, address_end: usize) -> (r: Vec<u8>)
        requires
            old(self).wf(),
            address_start <= 0x1FFF && address_end <= 0x1FFF ==> address_start <= address_end
                && address_end <= crate::bus::MEM_SIZE,
        ensures
            final(self)@ == old(self)@,
            final(self).wf(),
            r@ == (if address_start <= 0x1FFF && address_end <= 0x1FFF {
                old(self)@.bus.ram.subrange(address_start as int, address_end as int)
            } else {
                Seq::<u8>::empty()
            }),
    {
        self.bus.read_dbg_u8(address_start, address_end)
    }

    fn bus_write_u8(&mut self, address: u16, data: u8)
        requires
            old(self).wf(),
            address <= 0x1FFF || old(self)@.write_ok(address),
        ensures
            final(self).wf(),
            final(self)@ == old(self)@.write(address, data),
    {
        proof {
            if address <= 0x1FFF {
                crate::bus::lemma_ram_access(self.bus@, address);
            }
        }
        self.bus.write_u8(address, data, self.system_cycle);
    }

    fn get_stack_address(&self) -> (r: u16)
        ensures
            r == self@.stack_address(),
    {
        0x0100 + self.stack_pointer as u16
    }

    fn pc_increment(&mut self)
        requires
            old(self).wf(),
        ensures
            final(self).wf(),
            final(self)@ == old(self)@.next_pc(),
    {
        self.pc = self.pc.wrapping_add(1);
    }

    fn cycles_increment(&mut self)
        requires
            old(self).wf(),
        ensures
            final(self).wf(),
            final(self)@ == (CpuView { cycle: wrap8(old(self).cycle + 1), ..old(self)@ }),
    {
        self.cycle = self.cycle.wrapping_add(1);
    }

    fn stack_pointer_increment(&mut self)
        requires
            old(self).wf(),
        ensures
            final(self).wf(),
            final(self)@ == (CpuView { stack_pointer: wrap8(old(self).stack_pointer + 1), ..old(self)@ }),
    {
        self.stack_pointer = self.stack_pointer.wrapping_add(1);
    }

    fn stack_pointer_decrement(&mut self)
        requires
            old(self).wf(),
        ensures
            final(self).wf(),
            final(self)@ == (CpuView { stack_pointer: wrap8(old(self).stack_pointer - 1), ..old(self)@ }),
    {
        self.stack_pointer = self.stack_pointer.wrapping_sub(1);
    }

    fn set_flags_zero_and_negative(&mut self, val: u16)
        requires
            old(self).wf(),
        ensures
            final(self).wf(),
            final(self)@ == old(self)@.with_zn(val),
    {
        self.set_flag(&Flag6502::Z, (val & 0x00FF) == 0x00);
        self.set_flag(&Flag6502::N, (val & 0x0080) > 0);
    }

    fn branching(&mut self, condition: bool) -> (r: u8)
        requires
            old(self).wf(),
        ensures
            final(self).wf(),
            (final(self)@, r) == old(self)@.branch(condition),
    {
        if condition {
            self.cycles_increment();
            let new_pc = self.pc.wrapping_add(self.addr_rel);
            if (new_pc & 0xFF00) != (self.pc & 0xFF00) {
                self.cycles_increment();
            }
            self.pc = new_pc;
        }
        0
    }

    fn addr_mode(&self) -> (r: AddrMode6502)
        requires
            self.wf(),
        ensures
            r == self@.addr_mode(),
    {
        *self.lookup.get_addr_mode(self.opcode as usize)
    }

    fn return_or_write_memory(&mut self, val: u16)
        requires
            old(self).wf(),
            old(self)@.store_ok(),
        ensures
            final(self).wf(),
            final(self)@ == old(self)@.store(val),
    {
        if self.addr_mode() == AddrMode6502::Imp {
            self.acc = (val & 0x00FF) as u8;
        } else {
            self.bus_write_u8(self.addr_abs, (val & 0x00FF) as u8);
        }
    }

    /// Runs one instruction at `pc`; `cycle` is left at the number of cycles it takes.
    pub fn clock(&mut self, system_cycle: u32)
        requires
            old(self).wf(),
            old(self)@.step_ok(system_cycle),
        ensures
            final(self).wf(),
            final(self)@ == old(self)@.step(system_cycle),
    {
        self.system_cycle = system_cycle;
        self.opcode = self.bus_mut_read_u8(self.pc);
        self.pc_increment();
        let opcode_idx = self.opcode as usize;
        self.cycle = self.lookup.get_cycles(opcode_idx);
        let addr_mode = *self.lookup.get_addr_mode(opcode_idx);
        let operate = *self.lookup.get_operate(opcode_idx);
        let a = self.addr_mode_value(addr_mode);
        let b = self.op_code_value(operate);
        self.cycle = self.cycle.wrapping_add(a & b);
    }

    /// Loads the operand into `fetched` unless the instruction is implied.
    pub fn fetch(&mut self)
        requires
            old(self).wf(),
            old(self)@.fetch_ok(),
        ensures
            final(self).wf(),
            final(self)@ == old(self)@.fetch(),
    {
        if self.addr_mode() != AddrMode6502::Imp {
            self.fetched = self.bus_mut_read_u8(self.addr_abs);
        }
    }

    fn read_vector(&mut self, vector: u16)
        requires
            old(self).wf(),
            old(self)@.vector_ok(vector),
            vector < 0xFFFF,
        ensures
            final(self).wf(),
            final(self)@ == old(self)@.jump_vector(vector),
    {
        self.addr_abs = vector;
        let lo_byte = self.bus_mut_read_u8(self.addr_abs) as u16;
        let hi_byte = self.bus_mut_read_u8(self.addr_abs + 1) as u16;
        self.pc = (hi_byte << 8u16) | lo_byte;
    }

    /// Loads `pc` from the reset vector and clears the registers.
    pub fn reset(&mut self)
        requires
            old(self).wf(),
            old(self)@.vector_ok(0xFFFC),
        ensures
            final(self).wf(),
            final(self)@ == old(self)@.spec_reset(),
    {
        self.read_vector(0xFFFC);
        self.acc = 0;
        self.x = 0;
        self.y = 0;
        self.stack_pointer = 0xFD;
        self.status_register = Flag6502::U.value();
        self.addr_abs = 0x0000;
        self.addr_rel = 0x0000;
        self.fetched = 0x00;
        self.cycle = 8;
    }

    fn push_interrupt_frame(&mut self)
        requires
            old(self).wf(),
        ensures
            final(self).wf(),
            final(self)@ == old(self)@.interrupt_frame(),
    {
        self.bus_write_u8(self.get_stack_address(), ((self.pc >> 8u16) & 0x00FF) as u8);
        self.stack_pointer_decrement();
        self.bus_write_u8(self.get_stack_address(), (self.pc & 0x00FF) as u8);
        self.stack_pointer_decrement();
        self.set_flag(&Flag6502::B, false);
        self.set_flag(&Flag6502::U, true);
        self.set_flag(&Flag6502::I, true);
        self.bus_write_u8(self.get_stack_address(), self.status_register);
        self.stack_pointer_decrement();
    }

    /// Interrupt request: taken while the I flag is set, as this emulator does it.
    pub fn irq(&mut self)
        requires
            old(self).wf(),
            old(self)@.irq_ok(),
        ensures
            final(self).wf(),
            final(self)@ == old(self)@.spec_irq(),
    {
        if self.get_flag(&Flag6502::I) {
            self.push_interrupt_frame();
            self.read_vector(0xFFFE);
            self.cycle = 7;
        }
    }

    /// Non-maskable interrupt.
    pub fn nmi(&mut self)
        requires
            old(self).wf(),
            old(self)@.interrupt_frame().vector_ok(0xFFFA),
        ensures
            final(self).wf(),
            final(self)@ == old(self)@.spec_nmi(),
    {
        self.push_interrupt_frame();
        self.read_vector(0xFFFA);
        self.cycle = 8;
    }

}


/// Law: the byte pushed on the stack is the byte pulled next, and the pull puts the stack
/// pointer back where it was.
pub proof fn lemma_push_pull(c: CpuView, v: u8)
    requires
        c.bus.wf(),
    ensures
        c.push(v).pull().0 == v,
        c.push(v).pull().1.stack_pointer == c.stack_pointer,
{
    let a = c.stack_address();
    lemma_stack_in_ram(a);
    crate::bus::lemma_ram_mirror(c.bus, a, a, v, c.system_cycle);
}


/// Law: setting a status flag is seen when the flag is read and leaves the other flags.
pub proof fn lemma_flag_set_get(status: u8, n: u8, v: bool, m: u8)
    requires
        n < 8,
        m < 8,
        n != m,
    ensures
        (with_mask(status, 1u8 << n, v) & (1u8 << n) > 0) == v,
        (with_mask(status, 1u8 << n, v) & (1u8 << m) > 0) == (status & (1u8 << m) > 0),
{
    assert((with_mask(status, 1u8 << n, v) & (1u8 << n) > 0) == v && (with_mask(status, 1u8 << n, v) & (1u8 << m)
        > 0) == (status & (1u8 << m) > 0)) by (bit_vector)
        requires
            n < 8,
            m < 8,
            n != m,
    ;
}


/// The stack byte `k` places below the top, in page 1.
pub open spec fn stack_slot(sp: u8, k: int) -> u16 {
    (0x0100 + wrap8(sp - k)) as u16
}

proof fn lemma_stack_slots(sp: u8)
    ensures
        0x0100 <= stack_slot(sp, 0) <= 0x01FF,
        0x0100 <= stack_slot(sp, 1) <= 0x01FF,
        0x0100 <= stack_slot(sp, 2) <= 0x01FF,
        stack_slot(sp, 0) & 0x07FF == stack_slot(sp, 0),
        stack_slot(sp, 1) & 0x07FF == stack_slot(sp, 1),
        stack_slot(sp, 2) & 0x07FF == stack_slot(sp, 2),
        stack_slot(sp, 0) != stack_slot(sp, 1),
        stack_slot(sp, 0) != stack_slot(sp, 2),
        stack_slot(sp, 1) != stack_slot(sp, 2),
{
    let a0 = stack_slot(sp, 0);
    let a1 = stack_slot(sp, 1);
    let a2 = stack_slot(sp, 2);
    lemma_stack_in_ram(a0);
    lemma_stack_in_ram(a1);
    lemma_stack_in_ram(a2);
}

/// A stack address is its own RAM slot.
proof fn lemma_stack_in_ram(a: u16)
    by (bit_vector)
    requires
        0x0100 <= a <= 0x01FF,
    ensures
        a & 0x07FF == a,
{
}

proof fn lemma_address_bytes16(x: u16)
    by (bit_vector)
    ensures
        ((((x >> 8u16) & 0x00FF) as u8 as u16) << 8u16) | ((x & 0x00FF) as u8 as u16) == x,
        ((x & 0x00FF) as u8 as u16) | ((((x >> 8u16) & 0x00FF) as u8 as u16) << 8u16) == x,
{
}

/// Law: a subroutine call followed by its return resumes after the call, with the stack
/// pointer back where it was.
pub proof fn lemma_jsr_rts(c: CpuView)
    requires
        c.bus.wf(),
    ensures
        c.op_jsr().0.op_rts().0.pc == c.pc,
        c.op_jsr().0.op_rts().0.stack_pointer == c.stack_pointer,
{
    let sp = c.stack_pointer;
    lemma_stack_slots(sp);
    let s1 = CpuView { pc: wrap16(c.pc - 1), ..c };
    let hi = ((s1.pc >> 8u16) & 0x00FF) as u8;
    let lo = (s1.pc & 0x00FF) as u8;
    let s2 = s1.push(hi);
    let s3 = s2.push(lo);
    let a0 = stack_slot(sp, 0);
    let a1 = stack_slot(sp, 1);
    assert(s1.stack_address() == a0);
    assert(s2.stack_address() == a1);
    crate::bus::lemma_ram_write_keeps_wf(s1.bus, a0, hi, s1.system_cycle);
    crate::bus::lemma_ram_mirror(s2.bus, a1, a1, lo, s2.system_cycle);
    crate::bus::lemma_ram_write_keeps_others(s1.bus, a0, a1, hi, s1.system_cycle);
    crate::bus::lemma_ram_write_keeps_others(s2.bus, a1, a0, lo, s2.system_cycle);
    crate::bus::lemma_ram_mirror(s1.bus, a0, a0, hi, s1.system_cycle);
    crate::bus::lemma_ram_read_keeps_bus(s3.bus, a1);
    lemma_address_bytes16(s1.pc);
}

/// Law: an interrupt followed by a return from it resumes the interrupted program at its
/// program counter, with the stack pointer back and the flags as they were, I set and B and
/// the unused bit clear.
pub proof fn lemma_interrupt_rti(c: CpuView)
    requires
        c.bus.wf(),
    ensures
        c.interrupt_frame().op_rti().0.pc == c.pc,
        c.interrupt_frame().op_rti().0.stack_pointer == c.stack_pointer,
        c.interrupt_frame().op_rti().0.status_register == (c.status_register | FLAG_I) & !FLAG_B & !FLAG_U,
{
    let sp = c.stack_pointer;
    lemma_stack_slots(sp);
    let hi = ((c.pc >> 8u16) & 0x00FF) as u8;
    let lo = (c.pc & 0x00FF) as u8;
    let s1 = c.push(hi);
    let s2 = s1.push(lo);
    let s3 = s2.with_flag(FLAG_B, false).with_flag(FLAG_U, true).with_flag(FLAG_I, true);
    let st = s3.status_register;
    let s4 = s3.push(st);
    let a0 = stack_slot(sp, 0);
    let a1 = stack_slot(sp, 1);
    let a2 = stack_slot(sp, 2);
    assert(c.stack_address() == a0);
    assert(s1.stack_address() == a1);
    assert(s3.stack_address() == a2);
    crate::bus::lemma_ram_write_keeps_wf(c.bus, a0, hi, c.system_cycle);
    crate::bus::lemma_ram_write_keeps_wf(s1.bus, a1, lo, s1.system_cycle);
    crate::bus::lemma_ram_mirror(s3.bus, a2, a2, st, s3.system_cycle);
    crate::bus::lemma_ram_mirror(s1.bus, a1, a1, lo, s1.system_cycle);
    crate::bus::lemma_ram_mirror(c.bus, a0, a0, hi, c.system_cycle);
    crate::bus::lemma_ram_write_keeps_others(s3.bus, a2, a1, st, s3.system_cycle);
    crate::bus::lemma_ram_write_keeps_others(s3.bus, a2, a0, st, s3.system_cycle);
    crate::bus::lemma_ram_write_keeps_others(s1.bus, a1, a0, lo, s1.system_cycle);
    crate::bus::lemma_ram_read_keeps_bus(s4.bus, a2);
    crate::bus::lemma_ram_read_keeps_bus(s4.bus, a1);
    lemma_address_bytes16(c.pc);
    let s = c.status_register;
    assert(with_mask(with_mask(with_mask(s, FLAG_B, false), FLAG_U, true), FLAG_I, true) & !FLAG_B & !FLAG_U == (s
        | FLAG_I) & !FLAG_B & !FLAG_U) by (bit_vector);
}

/// A taken branch: the program counter moves by the relative offset, wrapping at 64 KiB; one
/// more cycle is spent, and another when the target lies on another page; nothing else changes.
pub open spec fn took_branch(s: CpuView, r: CpuView) -> bool {
    let target = (s.pc as int + s.addr_rel as int) % 0x10000;
    let extra: int = if (target as u16) & 0xFF00 != s.pc & 0xFF00 { 2 } else { 1 };
    &&& r.pc as int == target
    &&& r.cycle as int == (s.cycle as int + extra) % 0x100
    &&& (CpuView { pc: s.pc, cycle: s.cycle, ..r }) == s
}

/// What a conditional branch does: taken, it moves the program counter; not taken, it leaves
/// the CPU as it was. It never asks for an extra cycle from the addressing mode.
pub open spec fn branches_when(s: CpuView, op: OpCode6502, taken: bool) -> bool {
    &&& s.op(op).1 == 0
    &&& taken ==> took_branch(s, s.op(op).0)
    &&& !taken ==> s.op(op).0 == s
}

/// Law: each conditional branch is taken exactly when its status bit says so: BCC on carry
/// (bit 0) clear, BCS on carry set, BNE on zero (bit 1) clear, BEQ on zero set, BPL on negative
/// (bit 7) clear, BMI on negative set, BVC on overflow (bit 6) clear, BVS on overflow set. So
/// the two branches of each pair go opposite ways from the same state.
pub proof fn lemma_branch_conditions(s: CpuView)
    ensures
        branches_when(s, OpCode6502::Bcc, s.status_register & 0x01 == 0),
        branches_when(s, OpCode6502::Bcs, s.status_register & 0x01 != 0),
        branches_when(s, OpCode6502::Bne, s.status_register & 0x02 == 0),
        branches_when(s, OpCode6502::Beq, s.status_register & 0x02 != 0),
        branches_when(s, OpCode6502::Bpl, s.status_register & 0x80 == 0),
        branches_when(s, OpCode6502::Bmi, s.status_register & 0x80 != 0),
        branches_when(s, OpCode6502::Bvc, s.status_register & 0x40 == 0),
        branches_when(s, OpCode6502::Bvs, s.status_register & 0x40 != 0),
{
    reveal(CpuView::op);
    let target = (s.pc as int + s.addr_rel as int) % 0x10000;
    assert(wrap16(s.pc + s.addr_rel) as int == target);
    assert(wrap8(s.cycle + 1) as int == (s.cycle as int + 1) % 0x100);
    assert(wrap8(wrap8(s.cycle + 1) + 1) as int == (s.cycle as int + 2) % 0x100);
}

} // verus!
