use vstd::prelude::*;
use crate::cpu::{Cpu, CpuView, wrap8, wrap16, widen};
use crate::cpu::instruction_table::{AddrMode6502, Flag6502, OpCode6502};

verus! {

impl Cpu {
    pub fn addr_mode_value(&mut self, addr_mode: AddrMode6502) -> (r: u8)
        requires
            old(self).wf(),
            old(self)@.mode_ok(addr_mode),
        ensures
            final(self).wf(),
            (final(self)@, r) == old(self)@.mode(addr_mode),
    {
        proof {
            reveal(CpuView::mode);
        }
        match addr_mode {
            AddrMode6502::Imp => self.imp(),
            AddrMode6502::Imm => self.imm(),
            AddrMode6502::Zpo => self.zp0(),
            AddrMode6502::Zpx => self.zpx(),
            AddrMode6502::Zpy => self.zpy(),
            AddrMode6502::Rel => self.rel(),
            AddrMode6502::Abs => self.abs(),
            AddrMode6502::Abx => self.abx(),
            AddrMode6502::Aby => self.aby(),
            AddrMode6502::Ind => self.ind(),
            AddrMode6502::Izx => self.izx(),
            AddrMode6502::Izy => self.izy(),
        }
    }

    /// Implied: the operand is the accumulator.
    pub fn imp(&mut self) -> (r: u8)
        requires
            old(self).wf(),
        ensures
            final(self).wf(),
            (final(self)@, r) == old(self)@.mode_imp(),
    {
        self.fetched = self.acc;
        0
    }

    /// Immediate: the operand is the byte after the opcode.
    pub fn imm(&mut self) -> (r: u8)
        requires
            old(self).wf(),
        ensures
            final(self).wf(),
            (final(self)@, r) == old(self)@.mode_imm(),
    {
        self.addr_abs = self.pc;
        self.pc_increment();
        0
    }

    fn zero_page(&mut self, offset: u8) -> (r: u8)
        requires
            old(self).wf(),
            old(self)@.read_ok(old(self).pc),
        ensures
            final(self).wf(),
            (final(self)@, r) == old(self)@.zero_page(offset),
    {
        self.addr_abs = self.bus_mut_read_u8(self.pc).wrapping_add(offset) as u16;
        self.pc_increment();
        proof { crate::bits::lemma_and_u16_le(self.addr_abs, 0x00FF); }
        self.addr_abs = self.addr_abs & 0x00FF;
        proof { crate::bits::lemma_u8_as_u16_low_byte(wrap8(old(self)@.read(old(self).pc).0 + offset)); }
        0
    }

    /// Zero page.
    pub fn zp0(&mut self) -> (r: u8)
        requires
            old(self).wf(),
            old(self)@.mode_ok(AddrMode6502::Zpo),
        ensures
            final(self).wf(),
            (final(self)@, r) == old(self)@.zero_page(0),
    {
        self.zero_page(0)
    }

    /// Zero page indexed by X.
    pub fn zpx(&mut self) -> (r: u8)
        requires
            old(self).wf(),
            old(self)@.mode_ok(AddrMode6502::Zpx),
        ensures
            final(self).wf(),
            (final(self)@, r) == old(self)@.zero_page(old(self).x),
    {
        let x = self.x;
        self.zero_page(x)
    }

    /// Zero page indexed by Y.
    pub fn zpy(&mut self) -> (r: u8)
        requires
            old(self).wf(),
            old(self)@.mode_ok(AddrMode6502::Zpy),
        ensures
            final(self).wf(),
            (final(self)@, r) == old(self)@.zero_page(old(self).y),
    {
        let y = self.y;
        self.zero_page(y)
    }

    /// Relative: a signed 8-bit branch offset, sign-extended into `addr_rel`.
    pub fn rel(&mut self) -> (r: u8)
        requires
            old(self).wf(),
            old(self)@.mode_ok(AddrMode6502::Rel),
        ensures
            final(self).wf(),
            (final(self)@, r) == old(self)@.mode_rel(),
    {
        self.addr_rel = self.bus_mut_read_u8(self.pc) as u16;
        self.pc_increment();
        if (self.addr_rel & 0x80) > 0 {
            self.addr_rel = self.addr_rel | 0xFF00;
        }
        0
    }

    fn read_pc(&mut self) -> (r: (u16, u16))
        requires
            old(self).wf(),
            old(self)@.read_pc_ok(),
        ensures
            final(self).wf(),
            (r.0, r.1, final(self)@) == old(self)@.spec_read_pc(),
    {
        let lo_byte = self.bus_mut_read_u8(self.pc) as u16;
        self.pc_increment();
        let hi_byte = self.bus_mut_read_u8(self.pc) as u16;
        self.pc_increment();
        (lo_byte, hi_byte << 8u16)
    }

    /// Absolute.
    pub fn abs(&mut self) -> (r: u8)
        requires
            old(self).wf(),
            old(self)@.mode_ok(AddrMode6502::Abs),
        ensures
            final(self).wf(),
            (final(self)@, r) == old(self)@.mode_abs(),
    {
        let (lo_byte, hi_byte) = self.read_pc();
        self.addr_abs = hi_byte | lo_byte;
        0
    }

    fn absolute_indexed(&mut self, offset: u8) -> (r: u8)
        requires
            old(self).wf(),
            old(self)@.read_pc_ok(),
        ensures
            final(self).wf(),
            (final(self)@, r) == old(self)@.absolute_indexed(offset),
    {
        let (lo_byte, hi_byte) = self.read_pc();
        self.addr_abs = hi_byte | lo_byte;
        self.addr_abs = self.addr_abs.wrapping_add(offset as u16);
        if (self.addr_abs & 0xFF00) != hi_byte { 1 } else { 0 }
    }

    /// Absolute indexed by X; an extra cycle when the page changes.
    pub fn abx(&mut self) -> (r: u8)
        requires
            old(self).wf(),
            old(self)@.mode_ok(AddrMode6502::Abx),
        ensures
            final(self).wf(),
            (final(self)@, r) == old(self)@.absolute_indexed(old(self).x),
    {
        let x = self.x;
        self.absolute_indexed(x)
    }

    /// Absolute indexed by Y; an extra cycle when the page changes.
    pub fn aby(&mut self) -> (r: u8)
        requires
            old(self).wf(),
            old(self)@.mode_ok(AddrMode6502::Aby),
        ensures
            final(self).wf(),
            (final(self)@, r) == old(self)@.absolute_indexed(old(self).y),
    {
        let y = self.y;
        self.absolute_indexed(y)
    }

    /// Indirect, with the 6502's page-wrap of the pointer's high byte.
    pub fn ind(&mut self) -> (r: u8)
        requires
            old(self).wf(),
            old(self)@.mode_ok(AddrMode6502::Ind),
        ensures
            final(self).wf(),
            (final(self)@, r) == old(self)@.mode_ind(),
    {
        let (lo_byte, hi_byte) = self.read_pc();
        let byte = hi_byte | lo_byte;
        let b = if lo_byte == 0x00FF { byte & 0xFF00 } else { byte.wrapping_add(1) };
        let v1 = self.bus_mut_read_u8(b) as u16;
        let v2 = self.bus_mut_read_u8(byte) as u16;
        self.addr_abs = (v1 << 8u16) | v2;
        0
    }

    /// Indexed indirect: the zero-page pointer is offset by X.
    pub fn izx(&mut self) -> (r: u8)
        requires
            old(self).wf(),
            old(self)@.mode_ok(AddrMode6502::Izx),
        ensures
            final(self).wf(),
            (final(self)@, r) == old(self)@.mode_izx(),
    {
        let byte = self.bus_mut_read_u8(self.pc) as u16;
        self.pc_increment();
        let base = byte + self.x as u16;
        let lo_addr = base & 0x00FF;
        let hi_addr = (base + 1) & 0x00FF;
        proof {
            crate::bits::lemma_and_u16_le(base, 0x00FF);
            crate::bits::lemma_and_u16_le((base + 1) as u16, 0x00FF);
        }
        let lo_byte = self.bus_mut_read_u8(lo_addr) as u16;
        let hi_byte = self.bus_mut_read_u8(hi_addr) as u16;
        self.addr_abs = (hi_byte << 8u16) | lo_byte;
        0
    }

    /// Indirect indexed: the zero-page pointer's target is offset by Y; an extra cycle when
    /// the page changes.
    pub fn izy(&mut self) -> (r: u8)
        requires
            old(self).wf(),
            old(self)@.mode_ok(AddrMode6502::Izy),
        ensures
            final(self).wf(),
            (final(self)@, r) == old(self)@.mode_izy(),
    {
        let byte = self.bus_mut_read_u8(self.pc) as u16;
        self.pc_increment();
        let lo_addr = byte & 0x00FF;
        let hi_addr = (byte + 1) & 0x00FF;
        proof {
            crate::bits::lemma_and_u16_le(byte, 0x00FF);
            crate::bits::lemma_and_u16_le((byte + 1) as u16, 0x00FF);
        }
        let lo_byte = self.bus_mut_read_u8(lo_addr) as u16;
        let hi_byte = self.bus_mut_read_u8(hi_addr) as u16;
        self.addr_abs = (hi_byte << 8u16) | lo_byte;
        self.addr_abs = self.addr_abs.wrapping_add(self.y as u16);
        if (self.addr_abs & 0xFF00) != (hi_byte << 8u16) { 1 } else { 0 }
    }

}

/// The byte at the program counter and the CPU after reading it.
pub open spec fn operand(s: CpuView) -> (u8, CpuView) {
    s.read(s.pc)
}

/// The two bytes after the opcode, low byte first, as a 16-bit address, and the CPU after
/// reading them.
pub open spec fn operand_word(s: CpuView) -> (int, CpuView) {
    let (lo, s1) = s.read(s.pc);
    let (hi, s2) = s1.read(((s.pc as int + 1) % 0x10000) as u16);
    (lo as int + hi as int * 256, s2)
}

proof fn lemma_page_of(a: u16, base: u16)
    by (bit_vector)
    ensures
        ((a & 0xFF00) != (base & 0xFF00)) == (a / 256 != base / 256),
{
}

proof fn lemma_operand_byte(v: u8, x: u8, base: u16, b1: u16)
    by (bit_vector)
    requires
        base == v as u16 + x as u16,
        b1 == v as u16 + x as u16 + 1,
    ensures
        ((v as u16) & 0x80 > 0) == (v >= 128),
        v >= 128 ==> ((v as u16) | 0xFF00u16) == (v as u16) + 0xFF00u16,
        base & 0x00FF == (v as u16 + x as u16) % 256,
        b1 & 0x00FF == ((v as u16 + x as u16) % 256 + 1) % 256,
        (v as u16) & 0x00FF == v as u16,
        ((v + 1) as u16) & 0x00FF == (v as u16 + 1) % 256,
{
}

proof fn lemma_word(lo: u8, hi: u8, w: u16)
    by (bit_vector)
    requires
        w == ((hi as u16) << 8u16) | (lo as u16),
    ensures
        w == (hi as u16) * 256 + (lo as u16),
        w & 0xFF00 == ((hi as u16) << 8u16),
        lo == 0xFF ==> w & 0xFF00 == w - 255,
{
}

/// Law: the zero-page and relative addressing modes. Zero page adds X or Y to the operand
/// byte and stays in page zero; relative sign-extends the operand byte. The program counter
/// moves past the operand.
#[verifier::spinoff_prover]
pub proof fn lemma_zero_page_modes(s: CpuView)
    ensures
        ({
            let (v, s1) = operand(s);
            let pc1 = ((s.pc as int + 1) % 0x10000) as u16;
            &&& s.mode(AddrMode6502::Zpo) == (CpuView { addr_abs: v as u16, pc: pc1, ..s1 }, 0u8)
            &&& s.mode(AddrMode6502::Zpx) == (CpuView { addr_abs: ((v as int + s.x as int) % 256) as u16, pc: pc1, ..s1 }, 0u8)
            &&& s.mode(AddrMode6502::Zpy) == (CpuView { addr_abs: ((v as int + s.y as int) % 256) as u16, pc: pc1, ..s1 }, 0u8)
            &&& s.mode(AddrMode6502::Rel) == (CpuView {
                addr_rel: (if v >= 128 { v as int + 0xFF00 } else { v as int }) as u16,
                pc: pc1,
                ..s1
            }, 0u8)
        }),
{
    reveal(CpuView::mode);
    let (v, s1) = operand(s);
    lemma_operand_byte(v, s.x, (v + s.x) as u16, (v + s.x + 1) as u16);
}

/// Law: the absolute addressing modes take the two operand bytes as the address; with X or Y
/// added, the sum wraps at 64 KiB and an extra cycle is asked for exactly when it leaves the
/// page of the base address. The program counter moves past both bytes.
#[verifier::spinoff_prover]
pub proof fn lemma_absolute_modes(s: CpuView)
    ensures
        ({
            let (base, s2) = operand_word(s);
            let pc2 = ((s.pc as int + 2) % 0x10000) as u16;
            let ax = (base + s.x as int) % 0x10000;
            let ay = (base + s.y as int) % 0x10000;
            &&& s.mode(AddrMode6502::Abs) == (CpuView { addr_abs: base as u16, pc: pc2, ..s2 }, 0u8)
            &&& s.mode(AddrMode6502::Abx) == (CpuView { addr_abs: ax as u16, pc: pc2, ..s2 },
                if ax / 256 != base / 256 { 1u8 } else { 0u8 })
            &&& s.mode(AddrMode6502::Aby) == (CpuView { addr_abs: ay as u16, pc: pc2, ..s2 },
                if ay / 256 != base / 256 { 1u8 } else { 0u8 })
        }),
{
    reveal(CpuView::mode);
    let (lo, t1) = s.read(s.pc);
    let (hi, t2) = t1.read(((s.pc as int + 1) % 0x10000) as u16);
    let w = ((hi as u16) << 8u16) | (lo as u16);
    lemma_word(lo, hi, w);
    let ax = ((w as int + s.x as int) % 0x10000) as u16;
    let ay = ((w as int + s.y as int) % 0x10000) as u16;
    lemma_page_of(ax, w);
    lemma_page_of(ay, w);
}

/// Law: the indirect addressing modes. JMP's indirect mode reads the target's low byte at the
/// pointer and its high byte at the next address, except that a pointer at the end of a page
/// takes the high byte from the start of the same page. (zp,X) adds X to the operand byte and
/// reads the address from that zero-page pair; (zp),Y reads the address from the zero-page pair
/// at the operand byte and adds Y, asking for an extra cycle when that leaves the page. Both
/// zero-page pairs wrap within page zero.
#[verifier::spinoff_prover]
#[verifier::rlimit(40)]
pub proof fn lemma_indirect_modes(s: CpuView)
    ensures
        ({
            let (p, s2) = operand_word(s);
            let pc2 = ((s.pc as int + 2) % 0x10000) as u16;
            let hi_at = if p % 256 == 255 { p - 255 } else { (p + 1) % 0x10000 };
            let (hi, s3) = s2.read(hi_at as u16);
            let (lo, s4) = s3.read(p as u16);
            s.mode(AddrMode6502::Ind) == (CpuView { addr_abs: (lo as int + hi as int * 256) as u16, pc: pc2, ..s4 }, 0u8)
        }),
        ({
            let (v, s1) = operand(s);
            let pc1 = ((s.pc as int + 1) % 0x10000) as u16;
            let ptr = (v as int + s.x as int) % 256;
            let (lo, s3) = s1.read(ptr as u16);
            let (hi, s4) = s3.read(((ptr + 1) % 256) as u16);
            s.mode(AddrMode6502::Izx) == (CpuView { addr_abs: (lo as int + hi as int * 256) as u16, pc: pc1, ..s4 }, 0u8)
        }),
        ({
            let (v, s1) = operand(s);
            let pc1 = ((s.pc as int + 1) % 0x10000) as u16;
            let (lo, s3) = s1.read(v as u16);
            let (hi, s4) = s3.read(((v as int + 1) % 256) as u16);
            let base = lo as int + hi as int * 256;
            let a = (base + s.y as int) % 0x10000;
            s.mode(AddrMode6502::Izy) == (CpuView { addr_abs: a as u16, pc: pc1, ..s4 },
                if a / 256 != base / 256 { 1u8 } else { 0u8 })
        }),
{
    reveal(CpuView::mode);
    let (lo, t1) = s.read(s.pc);
    let (hi, t2) = t1.read(((s.pc as int + 1) % 0x10000) as u16);
    let w = ((hi as u16) << 8u16) | (lo as u16);
    lemma_word(lo, hi, w);
    let (v, s1) = s.read(s.pc);
    let x = s.x;
    lemma_operand_byte(v, x, (v + x) as u16, (v + x + 1) as u16);
    let p = w as int;
    let hi_at = if p % 256 == 255 { p - 255 } else { (p + 1) % 0x10000 };
    let (ih, i3) = t2.read(hi_at as u16);
    let (il, i4) = i3.read(p as u16);
    lemma_word(il, ih, ((ih as u16) << 8u16) | (il as u16));
    let ptr = (v as int + x as int) % 256;
    let (xl, x3) = t1.read(ptr as u16);
    let (xh, x4) = x3.read(((ptr + 1) % 256) as u16);
    lemma_word(xl, xh, ((xh as u16) << 8u16) | (xl as u16));
    let (zl, u3) = t1.read(v as u16);
    let (zh, u4) = u3.read(((v as int + 1) % 256) as u16);
    let w2 = ((zh as u16) << 8u16) | (zl as u16);
    lemma_word(zl, zh, w2);
    let a = ((w2 as int + s.y as int) % 0x10000) as u16;
    lemma_page_of(a, w2);
}

} // verus!
