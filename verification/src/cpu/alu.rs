use vstd::prelude::*;
use crate::cpu::CpuView;
use crate::cpu::instruction_table::{OpCode6502, decode};

verus! {

/// A byte read as a two's-complement number.
pub open spec fn signed(v: u8) -> int {
    if v < 128 { v as int } else { v as int - 256 }
}

/// Whether any bit of `mask` is set in `v`.
pub open spec fn bit_set(v: u8, mask: u8) -> bool {
    v & mask != 0
}

proof fn lemma_add_bits(a: u16, m: u16, c: u16, val: u16)
    by (bit_vector)
    requires
        a < 256,
        m < 256,
        c <= 1,
        val == a + m + c,
    ensures
        val & 0x00FF == val % 256,
        (val & 0x0080 > 0) == (val % 256 >= 128),
        (val & 0xFF00 > 0) == (val > 255),
        ((!(a ^ m) & (a ^ val)) & 0x0080 > 0) == ((a < 128 && m < 128 && val % 256 >= 128) || (a >= 128 && m
            >= 128 && val % 256 < 128)),
        ((val ^ a) & (val ^ m) & 0x0080 > 0) == ((a < 128 && m < 128 && val % 256 >= 128) || (a >= 128 && m >= 128
            && val % 256 < 128)),
{
}

/// Law: ADC adds the operand and the carry to the accumulator. The accumulator gets the sum
/// modulo 256; carry is set when the sum exceeds 255, overflow when the signed sum leaves
/// -128..=127, zero and negative from the new accumulator; the other status bits and the rest
/// of the CPU after the operand fetch stay.
pub proof fn lemma_adc(s: CpuView)
    ensures
        ({
            let f = s.fetch();
            let c: int = if bit_set(f.status_register, 0x01) { 1 } else { 0 };
            let sum = f.acc as int + f.fetched as int + c;
            let signed_sum = signed(f.acc) + signed(f.fetched) + c;
            let (r, extra) = s.op(OpCode6502::Adc);
            &&& extra == 1
            &&& r.acc as int == sum % 256
            &&& bit_set(r.status_register, 0x01) == (sum > 255)
            &&& bit_set(r.status_register, 0x40) == (signed_sum < -128 || signed_sum > 127)
            &&& bit_set(r.status_register, 0x02) == (r.acc == 0)
            &&& bit_set(r.status_register, 0x80) == (r.acc >= 128)
            &&& r.status_register & 0x3C == f.status_register & 0x3C
            &&& (CpuView { acc: f.acc, status_register: f.status_register, ..r }) == f
        }),
{
    reveal(CpuView::op);
    let f = s.fetch();
    let a = f.acc as u16;
    let m = f.fetched as u16;
    let c = f.carry();
    let val = (a + m + c) as u16;
    lemma_add_bits(a, m, c, val);
    lemma_czvn(
        f.status_register,
        val > 255,
        ((!(a ^ m) & (a ^ val)) & 0x0080) > 0,
        val & 0x00FF & 0x00FF == 0,
        val & 0x00FF & 0x0080 > 0,
    );
    lemma_byte_bits(val);
}

/// The status register after flags are set one after another: carry, overflow, zero and
/// negative as given; the bits not named are kept.
proof fn lemma_flag_layers(st: u8, c: bool, v: bool, z: bool, n: bool)
    by (bit_vector)
    ensures
        ({
            let s4 = if n {
                (if z {
                    (if v { (if c { st | 1 } else { st & !1u8 }) | 0x40 } else { (if c { st | 1 } else { st & !1u8 }) & !0x40u8 }) | 2
                } else {
                    (if v { (if c { st | 1 } else { st & !1u8 }) | 0x40 } else { (if c { st | 1 } else { st & !1u8 }) & !0x40u8 }) & !2u8
                }) | 0x80
            } else {
                (if z {
                    (if v { (if c { st | 1 } else { st & !1u8 }) | 0x40 } else { (if c { st | 1 } else { st & !1u8 }) & !0x40u8 }) | 2
                } else {
                    (if v { (if c { st | 1 } else { st & !1u8 }) | 0x40 } else { (if c { st | 1 } else { st & !1u8 }) & !0x40u8 }) & !2u8
                }) & !0x80u8
            };
            &&& (s4 & 1 != 0) == c
            &&& (s4 & 0x40 != 0) == v
            &&& (s4 & 2 != 0) == z
            &&& (s4 & 0x80 != 0) == n
            &&& s4 & 0x3C == st & 0x3C
        }),
        ({
            let s3 = if n {
                (if z { (if c { st | 1 } else { st & !1u8 }) | 2 } else { (if c { st | 1 } else { st & !1u8 }) & !2u8 })
                    | 0x80
            } else {
                (if z { (if c { st | 1 } else { st & !1u8 }) | 2 } else { (if c { st | 1 } else { st & !1u8 }) & !2u8 })
                    & !0x80u8
            };
            &&& (s3 & 1 != 0) == c
            &&& (s3 & 2 != 0) == z
            &&& (s3 & 0x80 != 0) == n
            &&& s3 & 0x7C == st & 0x7C
        }),
        ({
            let s2 = if n {
                (if z { st | 2 } else { st & !2u8 }) | 0x80
            } else {
                (if z { st | 2 } else { st & !2u8 }) & !0x80u8
            };
            &&& (s2 & 2 != 0) == z
            &&& (s2 & 0x80 != 0) == n
            &&& s2 & 0x7D == st & 0x7D
        }),
{
}

/// Carry, zero, overflow and negative set as given; interrupt, decimal, break and unused kept.
proof fn lemma_czvn(st: u8, c: bool, v: bool, z: bool, n: bool)
    ensures
        ({
            let s4 = if n {
                (if z {
                    (if v { (if c { st | 1 } else { st & !1u8 }) | 0x40 } else { (if c { st | 1 } else { st & !1u8 }) & !0x40u8 }) | 2
                } else {
                    (if v { (if c { st | 1 } else { st & !1u8 }) | 0x40 } else { (if c { st | 1 } else { st & !1u8 }) & !0x40u8 }) & !2u8
                }) | 0x80
            } else {
                (if z {
                    (if v { (if c { st | 1 } else { st & !1u8 }) | 0x40 } else { (if c { st | 1 } else { st & !1u8 }) & !0x40u8 }) | 2
                } else {
                    (if v { (if c { st | 1 } else { st & !1u8 }) | 0x40 } else { (if c { st | 1 } else { st & !1u8 }) & !0x40u8 }) & !2u8
                }) & !0x80u8
            };
            &&& (s4 & 1 != 0) == c
            &&& (s4 & 0x40 != 0) == v
            &&& (s4 & 2 != 0) == z
            &&& (s4 & 0x80 != 0) == n
            &&& s4 & 0x3C == st & 0x3C
        }),
{
    lemma_flag_layers(st, c, v, z, n);
}

/// Zero and negative set as given; the other bits kept.
proof fn lemma_zn(st: u8, z: bool, n: bool)
    ensures
        ({
            let s2 = if n {
                (if z { st | 2 } else { st & !2u8 }) | 0x80
            } else {
                (if z { st | 2 } else { st & !2u8 }) & !0x80u8
            };
            &&& (s2 & 2 != 0) == z
            &&& (s2 & 0x80 != 0) == n
            &&& s2 & 0x7D == st & 0x7D
        }),
{
    lemma_flag_layers(st, false, false, z, n);
}

/// Carry, zero and negative set as given; the other bits kept.
proof fn lemma_czn(st: u8, c: bool, z: bool, n: bool)
    ensures
        ({
            let s3 = if n {
                (if z { (if c { st | 1 } else { st & !1u8 }) | 2 } else { (if c { st | 1 } else { st & !1u8 }) & !2u8 })
                    | 0x80
            } else {
                (if z { (if c { st | 1 } else { st & !1u8 }) | 2 } else { (if c { st | 1 } else { st & !1u8 }) & !2u8 })
                    & !0x80u8
            };
            &&& (s3 & 1 != 0) == c
            &&& (s3 & 2 != 0) == z
            &&& (s3 & 0x80 != 0) == n
            &&& s3 & 0x7C == st & 0x7C
        }),
{
    lemma_flag_layers(st, c, false, z, n);
}

proof fn lemma_byte_bits(v: u16)
    by (bit_vector)
    ensures
        v < 256 ==> (v & 0x00FF == 0) == (v == 0),
        v < 256 ==> (v & 0x0080 > 0) == (v >= 128),
        v < 256 ==> v & 0x00FF == v,
        v & 0x00FF & 0x00FF == v & 0x00FF,
        v & 0x00FF & 0x0080 == v & 0x0080,
        0xFFFFu16 & 0x00FF == 0xFF,
        0xFFFFu16 & 0x0080 > 0,
{
}

/// Law: SBC subtracts the operand and the borrow (carry clear) from the accumulator. The
/// accumulator gets the difference modulo 256; carry is set when the difference is not
/// negative, overflow when the signed difference leaves -128..=127, zero and negative from the
/// new accumulator; the other status bits and the rest of the CPU after the fetch stay.
pub proof fn lemma_sbc(s: CpuView)
    ensures
        ({
            let f = s.fetch();
            let c: int = if bit_set(f.status_register, 0x01) { 1 } else { 0 };
            let diff = f.acc as int - f.fetched as int - (1 - c);
            let signed_diff = signed(f.acc) - signed(f.fetched) - (1 - c);
            let (r, extra) = s.op(OpCode6502::Sbc);
            &&& extra == 1
            &&& r.acc as int == diff % 256
            &&& bit_set(r.status_register, 0x01) == (diff >= 0)
            &&& bit_set(r.status_register, 0x40) == (signed_diff < -128 || signed_diff > 127)
            &&& bit_set(r.status_register, 0x02) == (r.acc == 0)
            &&& bit_set(r.status_register, 0x80) == (r.acc >= 128)
            &&& r.status_register & 0x3C == f.status_register & 0x3C
            &&& (CpuView { acc: f.acc, status_register: f.status_register, ..r }) == f
        }),
{
    reveal(CpuView::op);
    let f = s.fetch();
    let a = f.acc as u16;
    let m = f.fetched as u16;
    let value = m ^ 0x00FF;
    lemma_shift_parts(m, 0, f.fetched);
    let c = f.carry();
    let val = (a + value + c) as u16;
    lemma_add_bits(a, value, c, val);
    lemma_czvn(
        f.status_register,
        val & 0xFF00 > 0,
        ((val ^ a) & (val ^ value) & 0x0080) > 0,
        val & 0x00FF & 0x00FF == 0,
        val & 0x00FF & 0x0080 > 0,
    );
    lemma_byte_bits(val);
}

/// What a compare of `reg` with the operand gives: carry when `reg` is at least the operand,
/// zero when they are equal, negative from bit 7 of their difference modulo 256; the registers
/// and memory stay as after the fetch, and the extra-cycle answer is `extra`.
pub open spec fn compares(s: CpuView, op: OpCode6502, reg: u8, extra: u8) -> bool {
    let f = s.fetch();
    let (r, e) = s.op(op);
    &&& e == extra
    &&& bit_set(r.status_register, 0x01) == (reg >= f.fetched)
    &&& bit_set(r.status_register, 0x02) == (reg == f.fetched)
    &&& bit_set(r.status_register, 0x80) == ((reg as int - f.fetched as int) % 256 >= 128)
    &&& r.status_register & 0x7C == f.status_register & 0x7C
    &&& (CpuView { status_register: f.status_register, ..r }) == f
}

/// Law: CMP, CPX and CPY compare the accumulator, X and Y with the operand; only CMP may take
/// the addressing mode's extra cycle.
pub proof fn lemma_compare(s: CpuView)
    ensures
        compares(s, OpCode6502::Cmp, s.acc, 1),
        compares(s, OpCode6502::Cpx, s.x, 0),
        compares(s, OpCode6502::Cpy, s.y, 0),
{
    reveal(CpuView::op);
    let f = s.fetch();
    let m = f.fetched;
    assert(f.acc == s.acc && f.x == s.x && f.y == s.y);
    let regs = seq![s.acc, s.x, s.y];
    assert forall|k: int| 0 <= k < 3 implies ({
        let reg = #[trigger] regs[k];
        let val = crate::cpu::wrap8(reg - m) as u16;
        &&& val as int == (reg as int - m as int) % 256
        &&& (val & 0x00FF == 0) == (reg == m)
        &&& (val & 0x0080 > 0) == ((reg as int - m as int) % 256 >= 128)
    }) by {
        let reg = regs[k];
        let val = crate::cpu::wrap8(reg - m) as u16;
        lemma_byte_bits(val);
    }
    assert(regs[0] == s.acc && regs[1] == s.x && regs[2] == s.y);
    let v0 = crate::cpu::wrap8(s.acc - m) as u16;
    let v1 = crate::cpu::wrap8(s.x - m) as u16;
    let v2 = crate::cpu::wrap8(s.y - m) as u16;
    lemma_czn(f.status_register, s.acc >= m, v0 & 0x00FF == 0, v0 & 0x0080 > 0);
    lemma_czn(f.status_register, s.x >= m, v1 & 0x00FF == 0, v1 & 0x0080 > 0);
    lemma_czn(f.status_register, s.y >= m, v2 & 0x00FF == 0, v2 & 0x0080 > 0);
}

/// What a read-modify-write instruction gives when its result byte is `res`: the byte goes
/// where the instruction stores it, zero and negative come from it, and carry is `carry`
/// where given; the other status bits stay as after the fetch.
pub open spec fn stores_result(s: CpuView, op: OpCode6502, res: u8, stored: CpuView, carry: Option<bool>) -> bool {
    let f = s.fetch();
    let (r, e) = s.op(op);
    &&& e == 0
    &&& (CpuView { status_register: f.status_register, ..r }) == stored
    &&& bit_set(r.status_register, 0x02) == (res == 0)
    &&& bit_set(r.status_register, 0x80) == (res >= 128)
    &&& match carry {
        Some(c) => bit_set(r.status_register, 0x01) == c && r.status_register & 0x7C == f.status_register & 0x7C,
        None => r.status_register & 0x7D == f.status_register & 0x7D,
    }
}

/// Law: INC and DEC write the operand plus or minus one, modulo 256, back to its address and
/// set zero and negative from it; carry and the other status bits stay.
pub proof fn lemma_inc_dec(s: CpuView)
    ensures
        ({
            let f = s.fetch();
            let up = ((f.fetched as int + 1) % 256) as u8;
            let down = ((f.fetched as int - 1) % 256) as u8;
            &&& stores_result(s, OpCode6502::Inc, up, f.write(f.addr_abs, up), None)
            &&& stores_result(s, OpCode6502::Dec, down, f.write(f.addr_abs, down), None)
        }),
{
    reveal(CpuView::op);
    let f = s.fetch();
    let m = f.fetched;
    let vi = crate::cpu::wrap8(m + 1) as u16;
    lemma_byte_bits(vi);
    lemma_zn(f.status_register, vi & 0x00FF == 0, vi & 0x0080 > 0);
    let vd = crate::cpu::wrap16(m - 1);
    if m == 0 {
        assert(vd == 0xFFFF);
        lemma_byte_bits(vd);
    } else {
        lemma_byte_bits(vd);
    }
    lemma_zn(f.status_register, vd & 0x00FF == 0, vd & 0x0080 > 0);
}

proof fn lemma_shift_parts(m: u16, c: u16, fb: u8)
    by (bit_vector)
    requires
        m < 256,
        c <= 1,
        m == fb as u16,
    ensures
        m >> 1u16 == m / 2,
        (m >> 1u16) < 128,
        c << 7u16 == (if c == 1 { 128u16 } else { 0u16 }),
        ((fb >> 1u8) as u16) == m >> 1u16,
        (fb & 1 > 0) == (m % 2 == 1),
        (fb & 0x01 > 0) == (m % 2 == 1),
        m ^ 0x00FF == 255 - m,
{
}

proof fn lemma_shift_bits(m: u16, c: u16, d: u16, e: u16, h: u16)
    by (bit_vector)
    requires
        m < 256,
        c <= 1,
        d == m + m,
        e == m + m + c,
        h == (m >> 1u16) + (c << 7u16),
    ensures
        (m << 1u16) & 0x00FF == d % 256,
        ((m << 1u16) & 0xFF00 > 0) == (m >= 128),
        ((m << 1u16) & 0x0080 > 0) == (d % 256 >= 128),
        ((m << 1u16) | c) & 0x00FF == e % 256,
        (((m << 1u16) | c) & 0xFF00 > 0) == (m >= 128),
        (((m << 1u16) | c) & 0x0080 > 0) == (e % 256 >= 128),
        ((c << 7u16) | (m >> 1u16)) == h,
        (m & 1 > 0) == (m % 2 == 1),
        (d % 256) & 0x00FF == d % 256,
        (e % 256) & 0x00FF == e % 256,
        ((e % 256) & 0x0080 > 0) == (e % 256 >= 128),
        (e % 256 & 0x00FF == 0) == (e % 256 == 0),
{
}

/// Law: the shifts and rotates, on the accumulator in implied mode and on memory otherwise.
/// ASL doubles the operand modulo 256 and moves its bit 7 to carry; LSR halves it and moves
/// its bit 0 to carry; ROL doubles it and adds the old carry; ROR halves it and puts the old
/// carry in bit 7. Zero and negative come from the result.
#[verifier::rlimit(100)]
#[verifier::spinoff_prover]
pub proof fn lemma_shifts(s: CpuView)
    ensures
        ({
            let f = s.fetch();
            let m = f.fetched as int;
            let c: int = if bit_set(f.status_register, 0x01) { 1 } else { 0 };
            let asl = ((m * 2) % 256) as u8;
            let lsr = (m / 2) as u8;
            let rol = ((m * 2 + c) % 256) as u8;
            let ror = (m / 2 + c * 128) as u8;
            &&& stores_result(s, OpCode6502::Asl, asl, f.store(asl as u16), Some(m >= 128))
            &&& stores_result(s, OpCode6502::Lsr, lsr, f.store(lsr as u16), Some(m % 2 == 1))
            &&& stores_result(s, OpCode6502::Rol, rol, f.store(rol as u16), Some(m >= 128))
            &&& stores_result(s, OpCode6502::Ror, ror, f.store(ror as u16), Some(m % 2 == 1))
        }),
{
    reveal(CpuView::op);
    let f = s.fetch();
    let m = f.fetched as u16;
    let c = f.carry();
    let st = f.status_register;
    let asl = (m << 1u16);
    let fb0 = f.fetched;
    let lsr = (fb0 >> 1u8) as u16;
    let rol = (m << 1u16) | c;
    let ror = (c << 7u16) | (m >> 1u16);
    let d = (m + m) as u16;
    let e = (m + m + c) as u16;
    let h = ((m >> 1u16) + (c << 7u16)) as u16;
    lemma_shift_parts(m, c, fb0);
    lemma_shift_bits(m, c, d, e, h);
    lemma_byte_bits(lsr);
    lemma_byte_bits(ror);
    lemma_czn(st, asl & 0xFF00 > 0, asl & 0x00FF == 0, asl & 0x0080 > 0);
    lemma_czn(st, f.fetched & 1 > 0, lsr & 0x00FF == 0, lsr & 0x0080 > 0);
    lemma_czn(st, rol & 0xFF00 > 0, rol & 0x00FF == 0, rol & 0x0080 > 0);
    lemma_czn(st, f.fetched & 0x01 > 0, ror & 0x00FF == 0, ror & 0x0080 > 0);
}

/// What an instruction that moves `value` into a register gives: the CPU becomes `moved`,
/// zero and negative come from `value`, and the other status bits stay.
pub open spec fn moves_value(s: CpuView, op: OpCode6502, moved: CpuView, value: u8, extra: u8) -> bool {
    let (r, e) = s.op(op);
    &&& e == extra
    &&& (CpuView { status_register: moved.status_register, ..r }) == moved
    &&& bit_set(r.status_register, 0x02) == (value == 0)
    &&& bit_set(r.status_register, 0x80) == (value >= 128)
    &&& r.status_register & 0x7D == moved.status_register & 0x7D
}

/// Law: loads, transfers, increments and decrements of X and Y, and the logic operations.
/// LDA, LDX and LDY take the operand; TAX, TAY, TXA, TYA and TSX copy one register to another;
/// INX, INY, DEX and DEY count modulo 256; AND, ORA and EOR combine the accumulator with the
/// operand bit by bit. Each sets zero and negative from the value it writes; TXS copies X to
/// the stack pointer and touches no flag; the stores write their register at `addr_abs`.
#[verifier::rlimit(100)]
#[verifier::spinoff_prover]
pub proof fn lemma_register_moves(s: CpuView)
    ensures
        ({
            let f = s.fetch();
            &&& moves_value(s, OpCode6502::Lda, CpuView { acc: f.fetched, ..f }, f.fetched, 1)
            &&& moves_value(s, OpCode6502::Ldx, CpuView { x: f.fetched, ..f }, f.fetched, 1)
            &&& moves_value(s, OpCode6502::Ldy, CpuView { y: f.fetched, ..f }, f.fetched, 1)
            &&& moves_value(s, OpCode6502::And, CpuView { acc: f.acc & f.fetched, ..f }, f.acc & f.fetched, 1)
            &&& moves_value(s, OpCode6502::Ora, CpuView { acc: f.acc | f.fetched, ..f }, f.acc | f.fetched, 1)
            &&& moves_value(s, OpCode6502::Eor, CpuView { acc: f.acc ^ f.fetched, ..f }, f.acc ^ f.fetched, 1)
        }),
        moves_value(s, OpCode6502::Tax, CpuView { x: s.acc, ..s }, s.acc, 0),
        moves_value(s, OpCode6502::Tay, CpuView { y: s.acc, ..s }, s.acc, 0),
        moves_value(s, OpCode6502::Txa, CpuView { acc: s.x, ..s }, s.x, 0),
        moves_value(s, OpCode6502::Tya, CpuView { acc: s.y, ..s }, s.y, 0),
        moves_value(s, OpCode6502::Tsx, CpuView { x: s.stack_pointer, ..s }, s.stack_pointer, 0),
        s.op(OpCode6502::Txs) == (CpuView { stack_pointer: s.x, ..s }, 0u8),
        moves_value(s, OpCode6502::Inx, CpuView { x: ((s.x + 1) % 256) as u8, ..s }, ((s.x + 1) % 256) as u8, 0),
        moves_value(s, OpCode6502::Iny, CpuView { y: ((s.y + 1) % 256) as u8, ..s }, ((s.y + 1) % 256) as u8, 0),
        moves_value(s, OpCode6502::Dex, CpuView { x: ((s.x - 1) % 256) as u8, ..s }, ((s.x - 1) % 256) as u8, 0),
        moves_value(s, OpCode6502::Dey, CpuView { y: ((s.y - 1) % 256) as u8, ..s }, ((s.y - 1) % 256) as u8, 0),
        s.op(OpCode6502::Sta) == (s.write(s.addr_abs, s.acc), 0u8),
        s.op(OpCode6502::Stx) == (s.write(s.addr_abs, s.x), 0u8),
        s.op(OpCode6502::Sty) == (s.write(s.addr_abs, s.y), 0u8),
{
    reveal(CpuView::op);
    let f = s.fetch();
    let vals = seq![f.fetched, f.acc & f.fetched, f.acc | f.fetched, f.acc ^ f.fetched, s.acc, s.x, s.y,
        s.stack_pointer, crate::cpu::wrap8(s.x + 1), crate::cpu::wrap8(s.y + 1), crate::cpu::wrap8(s.x - 1),
        crate::cpu::wrap8(s.y - 1)];
    assert forall|k: int| 0 <= k < vals.len() implies ({
        let v = #[trigger] vals[k];
        &&& ((v as u16) & 0x00FF == 0) == (v == 0)
        &&& ((v as u16) & 0x0080 > 0) == (v >= 128)
    }) by {
        lemma_byte_bits(vals[k] as u16);
    }
    lemma_zn(f.status_register, (vals[0] as u16) & 0x00FF == 0, (vals[0] as u16) & 0x0080 > 0);
    lemma_zn(f.status_register, (vals[1] as u16) & 0x00FF == 0, (vals[1] as u16) & 0x0080 > 0);
    lemma_zn(f.status_register, (vals[2] as u16) & 0x00FF == 0, (vals[2] as u16) & 0x0080 > 0);
    lemma_zn(f.status_register, (vals[3] as u16) & 0x00FF == 0, (vals[3] as u16) & 0x0080 > 0);
    lemma_zn(s.status_register, (vals[4] as u16) & 0x00FF == 0, (vals[4] as u16) & 0x0080 > 0);
    lemma_zn(s.status_register, (vals[5] as u16) & 0x00FF == 0, (vals[5] as u16) & 0x0080 > 0);
    lemma_zn(s.status_register, (vals[6] as u16) & 0x00FF == 0, (vals[6] as u16) & 0x0080 > 0);
    lemma_zn(s.status_register, (vals[7] as u16) & 0x00FF == 0, (vals[7] as u16) & 0x0080 > 0);
    lemma_zn(s.status_register, (vals[8] as u16) & 0x00FF == 0, (vals[8] as u16) & 0x0080 > 0);
    lemma_zn(s.status_register, (vals[9] as u16) & 0x00FF == 0, (vals[9] as u16) & 0x0080 > 0);
    lemma_zn(s.status_register, (vals[10] as u16) & 0x00FF == 0, (vals[10] as u16) & 0x0080 > 0);
    lemma_zn(s.status_register, (vals[11] as u16) & 0x00FF == 0, (vals[11] as u16) & 0x0080 > 0);
    assert(vals[0] == f.fetched);
    assert(vals[1] == f.acc & f.fetched);
    assert(vals[2] == f.acc | f.fetched);
    assert(vals[3] == f.acc ^ f.fetched);
    assert(vals[4] == s.acc);
    assert(vals[5] == s.x);
    assert(vals[6] == s.y);
    assert(vals[7] == s.stack_pointer);
    assert(vals[8] == crate::cpu::wrap8(s.x + 1));
    assert(vals[9] == crate::cpu::wrap8(s.y + 1));
    assert(vals[10] == crate::cpu::wrap8(s.x - 1));
    assert(vals[11] == crate::cpu::wrap8(s.y - 1));
}

/// Law: the flag instructions. CLC and SEC clear and set carry, CLI and SEI the interrupt
/// disable bit, CLD and SED the decimal bit, CLV overflow; nothing else changes.
pub proof fn lemma_flag_instructions(s: CpuView)
    ensures
        s.op(OpCode6502::Clc) == (CpuView { status_register: s.status_register & 0xFE, ..s }, 0u8),
        s.op(OpCode6502::Sec) == (CpuView { status_register: s.status_register | 0x01, ..s }, 0u8),
        s.op(OpCode6502::Cli) == (CpuView { status_register: s.status_register & 0xFB, ..s }, 0u8),
        s.op(OpCode6502::Sei) == (CpuView { status_register: s.status_register | 0x04, ..s }, 0u8),
        s.op(OpCode6502::Cld) == (CpuView { status_register: s.status_register & 0xF7, ..s }, 0u8),
        s.op(OpCode6502::Sed) == (CpuView { status_register: s.status_register | 0x08, ..s }, 0u8),
        s.op(OpCode6502::Clv) == (CpuView { status_register: s.status_register & 0xBF, ..s }, 0u8),
{
    reveal(CpuView::op);
    let st = s.status_register;
    assert(st & !1u8 == st & 0xFE && st & !4u8 == st & 0xFB && st & !8u8 == st & 0xF7 && st & !64u8 == st & 0xBF)
        by (bit_vector);
}

#[verifier::spinoff_prover]
proof fn lemma_mode_extra(s: CpuView, m: crate::cpu::instruction_table::AddrMode6502)
    ensures
        s.mode(m).1 <= 1,
{
    reveal(CpuView::mode);
}

#[verifier::spinoff_prover]
#[verifier::rlimit(60)]
proof fn lemma_op_extra(s: CpuView, o: OpCode6502)
    ensures
        s.op(o).1 <= 1,
{
    reveal(CpuView::op);
}

proof fn lemma_extra_cycle(a: u8, b: u8)
    by (bit_vector)
    requires
        a <= 1,
        b <= 1,
    ensures
        a & b == (if a == 1 && b == 1 { 1u8 } else { 0u8 }),
{
}

/// Law: one instruction. The CPU reads the opcode at `pc` and moves past it, starts from the
/// opcode's base cycle count, forms the operand address in the opcode's addressing mode, runs
/// the operation, and spends one more cycle exactly when both the addressing mode and the
/// operation ask for one.
#[verifier::rlimit(100)]
#[verifier::spinoff_prover]
pub proof fn lemma_instruction_step(c: CpuView, system_cycle: u32)
    ensures
        ({
            let (op, s2) = (CpuView { system_cycle, ..c }).read(c.pc);
            let ins = decode(op);
            let s3 = CpuView { opcode: op, cycle: ins.cycles, pc: ((c.pc as int + 1) % 0x10000) as u16, ..s2 };
            let (s4, a) = s3.mode(ins.addr_mode);
            let (s5, b) = s4.op(ins.operate);
            &&& a <= 1 && b <= 1
            &&& c.step(system_cycle) == (CpuView {
                cycle: ((s5.cycle as int + (if a == 1 && b == 1 { 1int } else { 0 })) % 256) as u8,
                ..s5
            })
        }),
{
    let (op, s2) = (CpuView { system_cycle, ..c }).read(c.pc);
    let ins = decode(op);
    let s3 = c.decoded(system_cycle);
    let (s4, a) = s3.mode(ins.addr_mode);
    let (s5, b) = s4.op(ins.operate);
    lemma_mode_extra(s3, ins.addr_mode);
    lemma_op_extra(s4, ins.operate);
    lemma_extra_cycle(a, b);
}

} // verus!
