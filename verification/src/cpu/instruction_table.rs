use vstd::prelude::*;
use vstd::string::StringExecFns;

verus! {

/// The bits of the 6502 status register.
#[derive(Debug, Copy, Clone, Eq, PartialEq, Structural)]
pub enum Flag6502 {
    C,
    Z,
    I,
    D,
    B,
    U,
    V,
    N,
}

impl Flag6502 {
    pub open spec fn mask(self) -> u8 {
        match self {
            Flag6502::C => 1,
            Flag6502::Z => 2,
            Flag6502::I => 4,
            Flag6502::D => 8,
            Flag6502::B => 16,
            Flag6502::U => 32,
            Flag6502::V => 64,
            Flag6502::N => 128,
        }
    }

    /// The bit of the flag in the status register.
    pub fn value(&self) -> (r: u8)
        ensures
            r == self.mask(),
    {
        match *self {
            Flag6502::C => 1,
            Flag6502::Z => 2,
            Flag6502::I => 4,
            Flag6502::D => 8,
            Flag6502::B => 16,
            Flag6502::U => 32,
            Flag6502::V => 64,
            Flag6502::N => 128,
        }
    }
}

/// The operations of the 6502; `Xxx` stands for the undocumented opcodes.
#[derive(Copy, Clone, Debug, Eq, PartialEq, Structural)]
pub enum OpCode6502 {
    Adc,
    And,
    Asl,
    Bcc,
    Bcs,
    Beq,
    Bit,
    Bmi,
    Bne,
    Bpl,
    Brk,
    Bvc,
    Bvs,
    Clc,
    Cld,
    Cli,
    Clv,
    Cmp,
    Cpx,
    Cpy,
    Dec,
    Dex,
    Dey,
    Eor,
    Inc,
    Inx,
    Iny,
    Jmp,
    Jsr,
    Lda,
    Ldx,
    Ldy,
    Lsr,
    Nop,
    Ora,
    Pha,
    Php,
    Pla,
    Plp,
    Rol,
    Ror,
    Rti,
    Rts,
    Sbc,
    Sec,
    Sed,
    Sei,
    Sta,
    Stx,
    Sty,
    Tax,
    Tay,
    Tsx,
    Txa,
    Txs,
    Tya,
    Xxx,
}

impl OpCode6502 {
    /// The lower-case assembler mnemonic.
    pub open spec fn mnemonic(self) -> Seq<char> {
        match self {
            OpCode6502::Adc => "adc"@,
            OpCode6502::And => "and"@,
            OpCode6502::Asl => "asl"@,
            OpCode6502::Bcc => "bcc"@,
            OpCode6502::Bcs => "bcs"@,
            OpCode6502::Beq => "beq"@,
            OpCode6502::Bit => "bit"@,
            OpCode6502::Bmi => "bmi"@,
            OpCode6502::Bne => "bne"@,
            OpCode6502::Bpl => "bpl"@,
            OpCode6502::Brk => "brk"@,
            OpCode6502::Bvc => "bvc"@,
            OpCode6502::Bvs => "bvs"@,
            OpCode6502::Clc => "clc"@,
            OpCode6502::Cld => "cld"@,
            OpCode6502::Cli => "cli"@,
            OpCode6502::Clv => "clv"@,
            OpCode6502::Cmp => "cmp"@,
            OpCode6502::Cpx => "cpx"@,
            OpCode6502::Cpy => "cpy"@,
            OpCode6502::Dec => "dec"@,
            OpCode6502::Dex => "dex"@,
            OpCode6502::Dey => "dey"@,
            OpCode6502::Eor => "eor"@,
            OpCode6502::Inc => "inc"@,
            OpCode6502::Inx => "inx"@,
            OpCode6502::Iny => "iny"@,
            OpCode6502::Jmp => "jmp"@,
            OpCode6502::Jsr => "jsr"@,
            OpCode6502::Lda => "lda"@,
            OpCode6502::Ldx => "ldx"@,
            OpCode6502::Ldy => "ldy"@,
            OpCode6502::Lsr => "lsr"@,
            OpCode6502::Nop => "nop"@,
            OpCode6502::Ora => "ora"@,
            OpCode6502::Pha => "pha"@,
            OpCode6502::Php => "php"@,
            OpCode6502::Pla => "pla"@,
            OpCode6502::Plp => "plp"@,
            OpCode6502::Rol => "rol"@,
            OpCode6502::Ror => "ror"@,
            OpCode6502::Rti => "rti"@,
            OpCode6502::Rts => "rts"@,
            OpCode6502::Sbc => "sbc"@,
            OpCode6502::Sec => "sec"@,
            OpCode6502::Sed => "sed"@,
            OpCode6502::Sei => "sei"@,
            OpCode6502::Sta => "sta"@,
            OpCode6502::Stx => "stx"@,
            OpCode6502::Sty => "sty"@,
            OpCode6502::Tax => "tax"@,
            OpCode6502::Tay => "tay"@,
            OpCode6502::Tsx => "tsx"@,
            OpCode6502::Txa => "txa"@,
            OpCode6502::Txs => "txs"@,
            OpCode6502::Tya => "tya"@,
            OpCode6502::Xxx => "xxx"@,
        }
    }

    /// The lower-case assembler mnemonic, as a string.
    pub fn to_string(&self) -> (r: String)
        ensures
            r@ == self.mnemonic(),
    {
        let s: &str = match *self {
            OpCode6502::Adc => "adc",
            OpCode6502::And => "and",
            OpCode6502::Asl => "asl",
            OpCode6502::Bcc => "bcc",
            OpCode6502::Bcs => "bcs",
            OpCode6502::Beq => "beq",
            OpCode6502::Bit => "bit",
            OpCode6502::Bmi => "bmi",
            OpCode6502::Bne => "bne",
            OpCode6502::Bpl => "bpl",
            OpCode6502::Brk => "brk",
            OpCode6502::Bvc => "bvc",
            OpCode6502::Bvs => "bvs",
            OpCode6502::Clc => "clc",
            OpCode6502::Cld => "cld",
            OpCode6502::Cli => "cli",
            OpCode6502::Clv => "clv",
            OpCode6502::Cmp => "cmp",
            OpCode6502::Cpx => "cpx",
            OpCode6502::Cpy => "cpy",
            OpCode6502::Dec => "dec",
            OpCode6502::Dex => "dex",
            OpCode6502::Dey => "dey",
            OpCode6502::Eor => "eor",
            OpCode6502::Inc => "inc",
            OpCode6502::Inx => "inx",
            OpCode6502::Iny => "iny",
            OpCode6502::Jmp => "jmp",
            OpCode6502::Jsr => "jsr",
            OpCode6502::Lda => "lda",
            OpCode6502::Ldx => "ldx",
            OpCode6502::Ldy => "ldy",
            OpCode6502::Lsr => "lsr",
            OpCode6502::Nop => "nop",
            OpCode6502::Ora => "ora",
            OpCode6502::Pha => "pha",
            OpCode6502::Php => "php",
            OpCode6502::Pla => "pla",
            OpCode6502::Plp => "plp",
            OpCode6502::Rol => "rol",
            OpCode6502::Ror => "ror",
            OpCode6502::Rti => "rti",
            OpCode6502::Rts => "rts",
            OpCode6502::Sbc => "sbc",
            OpCode6502::Sec => "sec",
            OpCode6502::Sed => "sed",
            OpCode6502::Sei => "sei",
            OpCode6502::Sta => "sta",
            OpCode6502::Stx => "stx",
            OpCode6502::Sty => "sty",
            OpCode6502::Tax => "tax",
            OpCode6502::Tay => "tay",
            OpCode6502::Tsx => "tsx",
            OpCode6502::Txa => "txa",
            OpCode6502::Txs => "txs",
            OpCode6502::Tya => "tya",
            OpCode6502::Xxx => "xxx",
        };
        String::from_str(s)
    }
}

/// The addressing modes of the 6502.
#[derive(Copy, Clone, Debug, Eq, PartialEq, Structural)]
pub enum AddrMode6502 {
    Abs,
    Abx,
    Aby,
    Imm,
    Imp,
    Ind,
    Izx,
    Izy,
    Rel,
    Zpo,
    Zpx,
    Zpy,
}

/// One row of the decoding table: the operation, the addressing mode, the base cycle count
/// and the extra cycles the row allows.
#[derive(Copy, Clone, Debug, Eq, PartialEq, Structural)]
pub struct Instruction6502 {
    pub operate: OpCode6502,
    pub addr_mode: AddrMode6502,
    pub cycles: u8,
    pub extra_cycles: u8,
}

impl Instruction6502 {
    pub fn new(operate: OpCode6502, addr_mode: AddrMode6502, cycles: u8, extra_cycles: u8) -> (r: Instruction6502)
        ensures
            r == (Instruction6502 { operate, addr_mode, cycles, extra_cycles }),
    {
        Instruction6502 { operate, addr_mode, cycles, extra_cycles }
    }
}

/// The decoding of each of the 256 opcodes: operation, addressing mode, base cycles, extra
/// cycles.
pub const OPCODE_TABLE: [(OpCode6502, AddrMode6502, u8, u8); 256] = [
    (OpCode6502::Brk, AddrMode6502::Imp, 7, 0),
    (OpCode6502::Ora, AddrMode6502::Izx, 6, 0),
    (OpCode6502::Xxx, AddrMode6502::Imp, 0, 0),
    (OpCode6502::Xxx, AddrMode6502::Izx, 8, 0),
    (OpCode6502::Nop, AddrMode6502::Zpo, 3, 0),
    (OpCode6502::Ora, AddrMode6502::Zpo, 3, 0),
    (OpCode6502::Asl, AddrMode6502::Zpo, 5, 0),
    (OpCode6502::Xxx, AddrMode6502::Zpo, 5, 0),
    (OpCode6502::Php, AddrMode6502::Imp, 3, 0),
    (OpCode6502::Ora, AddrMode6502::Imm, 2, 0),
    (OpCode6502::Asl, AddrMode6502::Imp, 2, 0),
    (OpCode6502::Xxx, AddrMode6502::Imm, 2, 0),
    (OpCode6502::Nop, AddrMode6502::Abs, 4, 0),
    (OpCode6502::Ora, AddrMode6502::Abs, 4, 0),
    (OpCode6502::Asl, AddrMode6502::Abs, 6, 0),
    (OpCode6502::Xxx, AddrMode6502::Abs, 6, 0),
    (OpCode6502::Bpl, AddrMode6502::Rel, 2, 1),
    (OpCode6502::Ora, AddrMode6502::Izy, 5, 1),
    (OpCode6502::Xxx, AddrMode6502::Imp, 0, 0),
    (OpCode6502::Xxx, AddrMode6502::Izy, 8, 0),
    (OpCode6502::Nop, AddrMode6502::Zpx, 4, 0),
    (OpCode6502::Ora, AddrMode6502::Zpx, 4, 0),
    (OpCode6502::Asl, AddrMode6502::Zpx, 6, 0),
    (OpCode6502::Xxx, AddrMode6502::Zpx, 6, 0),
    (OpCode6502::Clc, AddrMode6502::Imp, 2, 0),
    (OpCode6502::Ora, AddrMode6502::Aby, 4, 1),
    (OpCode6502::Nop, AddrMode6502::Imp, 2, 0),
    (OpCode6502::Xxx, AddrMode6502::Aby, 7, 0),
    (OpCode6502::Nop, AddrMode6502::Abx, 4, 1),
    (OpCode6502::Ora, AddrMode6502::Abx, 4, 1),
    (OpCode6502::Asl, AddrMode6502::Abx, 7, 0),
    (OpCode6502::Xxx, AddrMode6502::Abx, 7, 0),
    (OpCode6502::Jsr, AddrMode6502::Abs, 6, 0),
    (OpCode6502::And, AddrMode6502::Izx, 6, 0),
    (OpCode6502::Xxx, AddrMode6502::Imp, 0, 0),
    (OpCode6502::Xxx, AddrMode6502::Izx, 8, 0),
    (OpCode6502::Bit, AddrMode6502::Zpo, 3, 0),
    (OpCode6502::And, AddrMode6502::Zpo, 3, 0),
    (OpCode6502::Rol, AddrMode6502::Zpo, 5, 0),
    (OpCode6502::Xxx, AddrMode6502::Zpo, 5, 0),
    (OpCode6502::Plp, AddrMode6502::Imp, 4, 0),
    (OpCode6502::And, AddrMode6502::Imm, 2, 0),
    (OpCode6502::Rol, AddrMode6502::Imp, 2, 0),
    (OpCode6502::Xxx, AddrMode6502::Imm, 2, 0),
    (OpCode6502::Bit, AddrMode6502::Abs, 4, 0),
    (OpCode6502::And, AddrMode6502::Abs, 4, 0),
    (OpCode6502::Rol, AddrMode6502::Abs, 6, 0),
    (OpCode6502::Xxx, AddrMode6502::Abs, 6, 0),
    (OpCode6502::Bmi, AddrMode6502::Rel, 2, 1),
    (OpCode6502::And, AddrMode6502::Izy, 5, 1),
    (OpCode6502::Xxx, AddrMode6502::Imp, 0, 0),
    (OpCode6502::Xxx, AddrMode6502::Izy, 8, 0),
    (OpCode6502::Nop, AddrMode6502::Zpx, 4, 0),
    (OpCode6502::And, AddrMode6502::Zpx, 4, 0),
    (OpCode6502::Rol, AddrMode6502::Zpx, 6, 0),
    (OpCode6502::Xxx, AddrMode6502::Zpx, 6, 0),
    (OpCode6502::Sec, AddrMode6502::Imp, 2, 0),
    (OpCode6502::And, AddrMode6502::Aby, 4, 1),
    (OpCode6502::Nop, AddrMode6502::Imp, 2, 0),
    (OpCode6502::Xxx, AddrMode6502::Aby, 7, 0),
    (OpCode6502::Nop, AddrMode6502::Abx, 4, 1),
    (OpCode6502::And, AddrMode6502::Abx, 4, 1),
    (OpCode6502::Rol, AddrMode6502::Abx, 7, 0),
    (OpCode6502::Xxx, AddrMode6502::Abx, 7, 0),
    (OpCode6502::Rti, AddrMode6502::Imp, 6, 0),
    (OpCode6502::Eor, AddrMode6502::Izx, 6, 0),
    (OpCode6502::Xxx, AddrMode6502::Imp, 0, 0),
    (OpCode6502::Xxx, AddrMode6502::Izx, 8, 0),
    (OpCode6502::Nop, AddrMode6502::Zpo, 3, 0),
    (OpCode6502::Eor, AddrMode6502::Zpo, 3, 0),
    (OpCode6502::Lsr, AddrMode6502::Zpo, 5, 0),
    (OpCode6502::Xxx, AddrMode6502::Zpo, 5, 0),
    (OpCode6502::Pha, AddrMode6502::Imp, 3, 0),
    (OpCode6502::Eor, AddrMode6502::Imm, 2, 0),
    (OpCode6502::Lsr, AddrMode6502::Imp, 2, 0),
    (OpCode6502::Xxx, AddrMode6502::Imp, 0, 0),
    (OpCode6502::Jmp, AddrMode6502::Abs, 3, 0),
    (OpCode6502::Eor, AddrMode6502::Abs, 4, 0),
    (OpCode6502::Lsr, AddrMode6502::Abs, 6, 0),
    (OpCode6502::Xxx, AddrMode6502::Abs, 6, 0),
    (OpCode6502::Bvc, AddrMode6502::Rel, 2, 1),
    (OpCode6502::Eor, AddrMode6502::Izy, 5, 1),
    (OpCode6502::Xxx, AddrMode6502::Imp, 0, 0),
    (OpCode6502::Xxx, AddrMode6502::Izy, 8, 0),
    (OpCode6502::Nop, AddrMode6502::Zpx, 4, 0),
    (OpCode6502::Eor, AddrMode6502::Zpx, 4, 0),
    (OpCode6502::Lsr, AddrMode6502::Zpx, 6, 0),
    (OpCode6502::Xxx, AddrMode6502::Zpx, 6, 0),
    (OpCode6502::Cli, AddrMode6502::Imp, 2, 0),
    (OpCode6502::Eor, AddrMode6502::Aby, 4, 1),
    (OpCode6502::Nop, AddrMode6502::Imp, 2, 0),
    (OpCode6502::Xxx, AddrMode6502::Aby, 7, 0),
    (OpCode6502::Nop, AddrMode6502::Abx, 4, 1),
    (OpCode6502::Eor, AddrMode6502::Abx, 4, 1),
    (OpCode6502::Lsr, AddrMode6502::Abx, 7, 0),
    (OpCode6502::Xxx, AddrMode6502::Abx, 7, 0),
    (OpCode6502::Rts, AddrMode6502::Imp, 6, 0),
    (OpCode6502::Adc, AddrMode6502::Izx, 6, 0),
    (OpCode6502::Xxx, AddrMode6502::Imp, 0, 0),
    (OpCode6502::Xxx, AddrMode6502::Izx, 8, 0),
    (OpCode6502::Nop, AddrMode6502::Zpo, 3, 0),
    (OpCode6502::Adc, AddrMode6502::Zpo, 3, 0),
    (OpCode6502::Ror, AddrMode6502::Zpo, 5, 0),
    (OpCode6502::Xxx, AddrMode6502::Zpo, 5, 0),
    (OpCode6502::Pla, AddrMode6502::Imp, 4, 0),
    (OpCode6502::Adc, AddrMode6502::Imm, 2, 0),
    (OpCode6502::Ror, AddrMode6502::Imp, 2, 0),
    (OpCode6502::Xxx, AddrMode6502::Imp, 0, 0),
    (OpCode6502::Jmp, AddrMode6502::Ind, 5, 0),
    (OpCode6502::Adc, AddrMode6502::Abs, 4, 0),
    (OpCode6502::Ror, AddrMode6502::Abs, 6, 0),
    (OpCode6502::Xxx, AddrMode6502::Abs, 6, 0),
    (OpCode6502::Bvs, AddrMode6502::Rel, 2, 1),
    (OpCode6502::Adc, AddrMode6502::Izy, 5, 1),
    (OpCode6502::Xxx, AddrMode6502::Imp, 0, 0),
    (OpCode6502::Xxx, AddrMode6502::Izy, 8, 0),
    (OpCode6502::Nop, AddrMode6502::Zpx, 4, 0),
    (OpCode6502::Adc, AddrMode6502::Zpx, 4, 0),
    (OpCode6502::Ror, AddrMode6502::Zpx, 6, 0),
    (OpCode6502::Xxx, AddrMode6502::Zpx, 6, 0),
    (OpCode6502::Sei, AddrMode6502::Imp, 2, 0),
    (OpCode6502::Adc, AddrMode6502::Aby, 4, 1),
    (OpCode6502::Nop, AddrMode6502::Imp, 2, 0),
    (OpCode6502::Xxx, AddrMode6502::Aby, 7, 0),
    (OpCode6502::Nop, AddrMode6502::Abx, 4, 1),
    (OpCode6502::Adc, AddrMode6502::Abx, 4, 1),
    (OpCode6502::Ror, AddrMode6502::Abx, 7, 0),
    (OpCode6502::Xxx, AddrMode6502::Abx, 7, 0),
    (OpCode6502::Nop, AddrMode6502::Imm, 2, 0),
    (OpCode6502::Sta, AddrMode6502::Izx, 6, 0),
    (OpCode6502::Nop, AddrMode6502::Imm, 2, 0),
    (OpCode6502::Xxx, AddrMode6502::Izx, 6, 0),
    (OpCode6502::Sty, AddrMode6502::Zpo, 3, 0),
    (OpCode6502::Sta, AddrMode6502::Zpo, 3, 0),
    (OpCode6502::Stx, AddrMode6502::Zpo, 3, 0),
    (OpCode6502::Xxx, AddrMode6502::Zpo, 3, 0),
    (OpCode6502::Dey, AddrMode6502::Imp, 2, 0),
    (OpCode6502::Nop, AddrMode6502::Imm, 2, 0),
    (OpCode6502::Txa, AddrMode6502::Imp, 2, 0),
    (OpCode6502::Xxx, AddrMode6502::Imp, 0, 0),
    (OpCode6502::Sty, AddrMode6502::Abs, 4, 0),
    (OpCode6502::Sta, AddrMode6502::Abs, 4, 0),
    (OpCode6502::Stx, AddrMode6502::Abs, 4, 0),
    (OpCode6502::Xxx, AddrMode6502::Abs, 4, 0),
    (OpCode6502::Bcc, AddrMode6502::Rel, 2, 1),
    (OpCode6502::Sta, AddrMode6502::Izy, 6, 0),
    (OpCode6502::Xxx, AddrMode6502::Imp, 0, 0),
    (OpCode6502::Xxx, AddrMode6502::Imp, 0, 0),
    (OpCode6502::Sty, AddrMode6502::Zpx, 4, 0),
    (OpCode6502::Sta, AddrMode6502::Zpx, 4, 0),
    (OpCode6502::Stx, AddrMode6502::Zpy, 4, 0),
    (OpCode6502::Xxx, AddrMode6502::Zpy, 4, 0),
    (OpCode6502::Tya, AddrMode6502::Imp, 2, 0),
    (OpCode6502::Sta, AddrMode6502::Aby, 5, 0),
    (OpCode6502::Txs, AddrMode6502::Imp, 2, 0),
    (OpCode6502::Xxx, AddrMode6502::Imp, 0, 0),
    (OpCode6502::Xxx, AddrMode6502::Imp, 0, 0),
    (OpCode6502::Sta, AddrMode6502::Abx, 5, 0),
    (OpCode6502::Xxx, AddrMode6502::Imp, 0, 0),
    (OpCode6502::Xxx, AddrMode6502::Imp, 0, 0),
    (OpCode6502::Ldy, AddrMode6502::Imm, 2, 0),
    (OpCode6502::Lda, AddrMode6502::Izx, 6, 0),
    (OpCode6502::Ldx, AddrMode6502::Imm, 2, 0),
    (OpCode6502::Xxx, AddrMode6502::Izx, 6, 0),
    (OpCode6502::Ldy, AddrMode6502::Zpo, 3, 0),
    (OpCode6502::Lda, AddrMode6502::Zpo, 3, 0),
    (OpCode6502::Ldx, AddrMode6502::Zpo, 3, 0),
    (OpCode6502::Xxx, AddrMode6502::Zpo, 3, 0),
    (OpCode6502::Tay, AddrMode6502::Imp, 2, 0),
    (OpCode6502::Lda, AddrMode6502::Imm, 2, 0),
    (OpCode6502::Tax, AddrMode6502::Imp, 2, 0),
    (OpCode6502::Xxx, AddrMode6502::Imp, 0, 0),
    (OpCode6502::Ldy, AddrMode6502::Abs, 4, 0),
    (OpCode6502::Lda, AddrMode6502::Abs, 4, 0),
    (OpCode6502::Ldx, AddrMode6502::Abs, 4, 0),
    (OpCode6502::Xxx, AddrMode6502::Abs, 4, 0),
    (OpCode6502::Bcs, AddrMode6502::Rel, 2, 1),
    (OpCode6502::Lda, AddrMode6502::Izy, 5, 1),
    (OpCode6502::Xxx, AddrMode6502::Imp, 0, 0),
    (OpCode6502::Xxx, AddrMode6502::Izy, 5, 1),
    (OpCode6502::Ldy, AddrMode6502::Zpx, 4, 0),
    (OpCode6502::Lda, AddrMode6502::Zpx, 4, 0),
    (OpCode6502::Ldx, AddrMode6502::Zpy, 4, 0),
    (OpCode6502::Xxx, AddrMode6502::Zpy, 4, 0),
    (OpCode6502::Clv, AddrMode6502::Imp, 2, 0),
    (OpCode6502::Lda, AddrMode6502::Aby, 4, 1),
    (OpCode6502::Tsx, AddrMode6502::Imp, 2, 0),
    (OpCode6502::Xxx, AddrMode6502::Imp, 0, 0),
    (OpCode6502::Ldy, AddrMode6502::Abx, 4, 1),
    (OpCode6502::Lda, AddrMode6502::Abx, 4, 1),
    (OpCode6502::Ldx, AddrMode6502::Aby, 4, 1),
    (OpCode6502::Xxx, AddrMode6502::Aby, 4, 1),
    (OpCode6502::Cpy, AddrMode6502::Imm, 2, 0),
    (OpCode6502::Cmp, AddrMode6502::Izx, 6, 0),
    (OpCode6502::Nop, AddrMode6502::Imm, 2, 0),
    (OpCode6502::Xxx, AddrMode6502::Izx, 8, 0),
    (OpCode6502::Cpy, AddrMode6502::Zpo, 3, 0),
    (OpCode6502::Cmp, AddrMode6502::Zpo, 3, 0),
    (OpCode6502::Dec, AddrMode6502::Zpo, 5, 0),
    (OpCode6502::Xxx, AddrMode6502::Zpo, 5, 0),
    (OpCode6502::Iny, AddrMode6502::Imp, 2, 0),
    (OpCode6502::Cmp, AddrMode6502::Imm, 2, 0),
    (OpCode6502::Dex, AddrMode6502::Imp, 2, 0),
    (OpCode6502::Xxx, AddrMode6502::Imp, 0, 0),
    (OpCode6502::Cpy, AddrMode6502::Abs, 4, 0),
    (OpCode6502::Cmp, AddrMode6502::Abs, 4, 0),
    (OpCode6502::Dec, AddrMode6502::Abs, 6, 0),
    (OpCode6502::Xxx, AddrMode6502::Abs, 6, 0),
    (OpCode6502::Bne, AddrMode6502::Rel, 2, 1),
    (OpCode6502::Cmp, AddrMode6502::Izy, 5, 1),
    (OpCode6502::Xxx, AddrMode6502::Imp, 0, 0),
    (OpCode6502::Xxx, AddrMode6502::Izy, 8, 0),
    (OpCode6502::Nop, AddrMode6502::Zpx, 4, 0),
    (OpCode6502::Cmp, AddrMode6502::Zpx, 4, 0),
    (OpCode6502::Dec, AddrMode6502::Zpx, 6, 0),
    (OpCode6502::Xxx, AddrMode6502::Zpx, 6, 0),
    (OpCode6502::Cld, AddrMode6502::Imp, 2, 0),
    (OpCode6502::Cmp, AddrMode6502::Aby, 4, 1),
    (OpCode6502::Nop, AddrMode6502::Imp, 2, 0),
    (OpCode6502::Xxx, AddrMode6502::Aby, 7, 0),
    (OpCode6502::Nop, AddrMode6502::Abx, 4, 1),
    (OpCode6502::Cmp, AddrMode6502::Abx, 4, 1),
    (OpCode6502::Dec, AddrMode6502::Abx, 7, 0),
    (OpCode6502::Xxx, AddrMode6502::Abx, 7, 0),
    (OpCode6502::Cpx, AddrMode6502::Imm, 2, 0),
    (OpCode6502::Sbc, AddrMode6502::Izx, 6, 0),
    (OpCode6502::Nop, AddrMode6502::Imm, 2, 0),
    (OpCode6502::Xxx, AddrMode6502::Izx, 8, 0),
    (OpCode6502::Cpx, AddrMode6502::Zpo, 3, 0),
    (OpCode6502::Sbc, AddrMode6502::Zpo, 3, 0),
    (OpCode6502::Inc, AddrMode6502::Zpo, 5, 0),
    (OpCode6502::Xxx, AddrMode6502::Zpo, 5, 0),
    (OpCode6502::Inx, AddrMode6502::Imp, 2, 0),
    (OpCode6502::Sbc, AddrMode6502::Imm, 2, 0),
    (OpCode6502::Nop, AddrMode6502::Imp, 2, 0),
    (OpCode6502::Sbc, AddrMode6502::Imm, 2, 0),
    (OpCode6502::Cpx, AddrMode6502::Abs, 4, 0),
    (OpCode6502::Sbc, AddrMode6502::Abs, 4, 0),
    (OpCode6502::Inc, AddrMode6502::Abs, 6, 0),
    (OpCode6502::Xxx, AddrMode6502::Abs, 6, 0),
    (OpCode6502::Beq, AddrMode6502::Rel, 2, 1),
    (OpCode6502::Sbc, AddrMode6502::Izy, 5, 1),
    (OpCode6502::Xxx, AddrMode6502::Imp, 0, 0),
    (OpCode6502::Xxx, AddrMode6502::Izy, 8, 0),
    (OpCode6502::Nop, AddrMode6502::Zpx, 4, 0),
    (OpCode6502::Sbc, AddrMode6502::Zpx, 4, 0),
    (OpCode6502::Inc, AddrMode6502::Zpx, 6, 0),
    (OpCode6502::Xxx, AddrMode6502::Zpx, 6, 0),
    (OpCode6502::Sed, AddrMode6502::Imp, 2, 0),
    (OpCode6502::Sbc, AddrMode6502::Aby, 4, 1),
    (OpCode6502::Nop, AddrMode6502::Imp, 2, 0),
    (OpCode6502::Xxx, AddrMode6502::Aby, 7, 0),
    (OpCode6502::Nop, AddrMode6502::Abx, 4, 1),
    (OpCode6502::Sbc, AddrMode6502::Abx, 4, 1),
    (OpCode6502::Inc, AddrMode6502::Abx, 7, 0),
    (OpCode6502::Xxx, AddrMode6502::Abx, 7, 0),
];

/// The decoding table row of `opcode`.
pub open spec fn decode(opcode: u8) -> Instruction6502 {
    let (o, m, c, e) = OPCODE_TABLE@[opcode as int];
    Instruction6502 { operate: o, addr_mode: m, cycles: c, extra_cycles: e }
}

/// The decoding table, one row per opcode.
pub struct LookUpTable {
    pub instructions: Vec<Instruction6502>,
}

impl LookUpTable {
    pub open spec fn wf(&self) -> bool {
        &&& self.instructions@.len() == 256
        &&& forall|i: int| 0 <= i < 256 ==> #[trigger] self.instructions@[i] == decode(i as u8)
    }

    pub fn new() -> (r: LookUpTable)
        ensures
            r.wf(),
    {
        let mut instructions: Vec<Instruction6502> = Vec::new();
        let mut i: usize = 0;
        while i < 256
            invariant
                i <= 256,
                instructions@.len() == i,
                forall|j: int| 0 <= j < i ==> #[trigger] instructions@[j] == decode(j as u8),
            decreases 256 - i,
        {
            let (o, m, c, e) = OPCODE_TABLE[i];
            instructions.push(Instruction6502::new(o, m, c, e));
            i = i + 1;
        }
        LookUpTable { instructions }
    }

    pub fn get_addr_mode(&self, index: usize) -> (r: &AddrMode6502)
        requires
            self.wf(),
            index < 256,
        ensures
            *r == decode(index as u8).addr_mode,
    {
        &self.instructions[index].addr_mode
    }

    pub fn get_operate(&self, index: usize) -> (r: &OpCode6502)
        requires
            self.wf(),
            index < 256,
        ensures
            *r == decode(index as u8).operate,
    {
        &self.instructions[index].operate
    }

    pub fn get_cycles(&self, index: usize) -> (r: u8)
        requires
            self.wf(),
            index < 256,
        ensures
            r == decode(index as u8).cycles,
    {
        self.instructions[index].cycles
    }
}


/// The upper-case hexadecimal digit `d`.
pub open spec fn hex_digit(d: int) -> Seq<char> {
    if d == 0 { "0"@ } else if d == 1 { "1"@ } else if d == 2 { "2"@ } else if d == 3 { "3"@ }
    else if d == 4 { "4"@ } else if d == 5 { "5"@ } else if d == 6 { "6"@ } else if d == 7 { "7"@ }
    else if d == 8 { "8"@ } else if d == 9 { "9"@ } else if d == 10 { "A"@ } else if d == 11 { "B"@ }
    else if d == 12 { "C"@ } else if d == 13 { "D"@ } else if d == 14 { "E"@ } else { "F"@ }
}

/// `n` in hexadecimal, most significant digit first, without leading zeros.
pub open spec fn hex_digits(n: nat) -> Seq<char>
    decreases n,
{
    if n < 16 {
        hex_digit(n as int)
    } else {
        hex_digits(n / 16) + hex_digit((n % 16) as int)
    }
}

/// `k` zeros.
pub open spec fn zeros(k: nat) -> Seq<char>
    decreases k,
{
    if k == 0 { Seq::empty() } else { zeros((k - 1) as nat) + "0"@ }
}

/// `num` in upper-case hexadecimal, padded with zeros on the left to `len` digits.
pub open spec fn spec_hex(num: nat, len: nat) -> Seq<char> {
    let d = hex_digits(num);
    if d.len() >= len { d } else { zeros((len - d.len()) as nat) + d }
}

fn digit_str(d: usize) -> (r: &'static str)
    requires
        d < 16,
    ensures
        r@ == hex_digit(d as int),
{
    if d == 0 { "0" } else if d == 1 { "1" } else if d == 2 { "2" } else if d == 3 { "3" }
    else if d == 4 { "4" } else if d == 5 { "5" } else if d == 6 { "6" } else if d == 7 { "7" }
    else if d == 8 { "8" } else if d == 9 { "9" } else if d == 10 { "A" } else if d == 11 { "B" }
    else if d == 12 { "C" } else if d == 13 { "D" } else if d == 14 { "E" } else { "F" }
}

fn push_hex_digits(s: &mut String, n: usize)
    ensures
        final(s)@ == old(s)@ + hex_digits(n as nat),
    decreases n,
{
    if n >= 16 {
        push_hex_digits(s, n / 16);
    }
    s.append(digit_str(n % 16));
    proof {
        if n >= 16 {
            assert(final(s)@ =~= old(s)@ + hex_digits(n as nat));
        }
    }
}

/// `num` in upper-case hexadecimal with at least `len` digits, as the debug views print
/// bytes (2) and addresses (4).
pub fn hex(num: usize, len: usize) -> (r: String)
    requires
        len == 2 || len == 4,
    ensures
        r@ == spec_hex(num as nat, len as nat),
{
    let mut digits = String::new();
    push_hex_digits(&mut digits, num);
    let n = digits.as_str().unicode_len();
    let mut res = String::new();
    if n < len {
        let mut i: usize = 0;
        while i < len - n
            invariant
                n < len,
                i <= len - n,
                res@ == zeros(i as nat),
            decreases len - n - i,
        {
            res.append("0");
            i += 1;
        }
    }
    res.append(digits.as_str());
    res
}


/// The variant name of an operation, as `Debug` prints it.
pub open spec fn operation_name(op: OpCode6502) -> Seq<char> {
    match op {
        OpCode6502::Adc => "Adc"@,
        OpCode6502::And => "And"@,
        OpCode6502::Asl => "Asl"@,
        OpCode6502::Bcc => "Bcc"@,
        OpCode6502::Bcs => "Bcs"@,
        OpCode6502::Beq => "Beq"@,
        OpCode6502::Bit => "Bit"@,
        OpCode6502::Bmi => "Bmi"@,
        OpCode6502::Bne => "Bne"@,
        OpCode6502::Bpl => "Bpl"@,
        OpCode6502::Brk => "Brk"@,
        OpCode6502::Bvc => "Bvc"@,
        OpCode6502::Bvs => "Bvs"@,
        OpCode6502::Clc => "Clc"@,
        OpCode6502::Cld => "Cld"@,
        OpCode6502::Cli => "Cli"@,
        OpCode6502::Clv => "Clv"@,
        OpCode6502::Cmp => "Cmp"@,
        OpCode6502::Cpx => "Cpx"@,
        OpCode6502::Cpy => "Cpy"@,
        OpCode6502::Dec => "Dec"@,
        OpCode6502::Dex => "Dex"@,
        OpCode6502::Dey => "Dey"@,
        OpCode6502::Eor => "Eor"@,
        OpCode6502::Inc => "Inc"@,
        OpCode6502::Inx => "Inx"@,
        OpCode6502::Iny => "Iny"@,
        OpCode6502::Jmp => "Jmp"@,
        OpCode6502::Jsr => "Jsr"@,
        OpCode6502::Lda => "Lda"@,
        OpCode6502::Ldx => "Ldx"@,
        OpCode6502::Ldy => "Ldy"@,
        OpCode6502::Lsr => "Lsr"@,
        OpCode6502::Nop => "Nop"@,
        OpCode6502::Ora => "Ora"@,
        OpCode6502::Pha => "Pha"@,
        OpCode6502::Php => "Php"@,
        OpCode6502::Pla => "Pla"@,
        OpCode6502::Plp => "Plp"@,
        OpCode6502::Rol => "Rol"@,
        OpCode6502::Ror => "Ror"@,
        OpCode6502::Rti => "Rti"@,
        OpCode6502::Rts => "Rts"@,
        OpCode6502::Sbc => "Sbc"@,
        OpCode6502::Sec => "Sec"@,
        OpCode6502::Sed => "Sed"@,
        OpCode6502::Sei => "Sei"@,
        OpCode6502::Sta => "Sta"@,
        OpCode6502::Stx => "Stx"@,
        OpCode6502::Sty => "Sty"@,
        OpCode6502::Tax => "Tax"@,
        OpCode6502::Tay => "Tay"@,
        OpCode6502::Tsx => "Tsx"@,
        OpCode6502::Txa => "Txa"@,
        OpCode6502::Txs => "Txs"@,
        OpCode6502::Tya => "Tya"@,
        OpCode6502::Xxx => "Xxx"@,
    }
}

/// The variant name of an addressing mode, as `Debug` prints it.
pub open spec fn mode_name(mode: AddrMode6502) -> Seq<char> {
    match mode {
        AddrMode6502::Abs => "Abs"@,
        AddrMode6502::Abx => "Abx"@,
        AddrMode6502::Aby => "Aby"@,
        AddrMode6502::Imm => "Imm"@,
        AddrMode6502::Imp => "Imp"@,
        AddrMode6502::Ind => "Ind"@,
        AddrMode6502::Izx => "Izx"@,
        AddrMode6502::Izy => "Izy"@,
        AddrMode6502::Rel => "Rel"@,
        AddrMode6502::Zpo => "Zpo"@,
        AddrMode6502::Zpx => "Zpx"@,
        AddrMode6502::Zpy => "Zpy"@,
    }
}

/// `n` in decimal, without leading zeros.
pub open spec fn dec_digits(n: nat) -> Seq<char>
    decreases n,
{
    if n < 10 {
        hex_digit(n as int)
    } else {
        dec_digits(n / 10) + hex_digit((n % 10) as int)
    }
}

/// A table row written the way `Debug` prints the struct.
pub open spec fn instruction_text(ins: Instruction6502) -> Seq<char> {
    "Instruction6502 { operate: "@ + operation_name(ins.operate) + ", addr_mode: "@ + mode_name(ins.addr_mode)
        + ", cycles: "@ + dec_digits(ins.cycles as nat) + ", extra_cycles: "@ + dec_digits(ins.extra_cycles as nat)
        + " }"@
}

fn operation_str(op: OpCode6502) -> (r: &'static str)
    ensures
        r@ == operation_name(op),
{
    match op {
        OpCode6502::Adc => "Adc",
        OpCode6502::And => "And",
        OpCode6502::Asl => "Asl",
        OpCode6502::Bcc => "Bcc",
        OpCode6502::Bcs => "Bcs",
        OpCode6502::Beq => "Beq",
        OpCode6502::Bit => "Bit",
        OpCode6502::Bmi => "Bmi",
        OpCode6502::Bne => "Bne",
        OpCode6502::Bpl => "Bpl",
        OpCode6502::Brk => "Brk",
        OpCode6502::Bvc => "Bvc",
        OpCode6502::Bvs => "Bvs",
        OpCode6502::Clc => "Clc",
        OpCode6502::Cld => "Cld",
        OpCode6502::Cli => "Cli",
        OpCode6502::Clv => "Clv",
        OpCode6502::Cmp => "Cmp",
        OpCode6502::Cpx => "Cpx",
        OpCode6502::Cpy => "Cpy",
        OpCode6502::Dec => "Dec",
        OpCode6502::Dex => "Dex",
        OpCode6502::Dey => "Dey",
        OpCode6502::Eor => "Eor",
        OpCode6502::Inc => "Inc",
        OpCode6502::Inx => "Inx",
        OpCode6502::Iny => "Iny",
        OpCode6502::Jmp => "Jmp",
        OpCode6502::Jsr => "Jsr",
        OpCode6502::Lda => "Lda",
        OpCode6502::Ldx => "Ldx",
        OpCode6502::Ldy => "Ldy",
        OpCode6502::Lsr => "Lsr",
        OpCode6502::Nop => "Nop",
        OpCode6502::Ora => "Ora",
        OpCode6502::Pha => "Pha",
        OpCode6502::Php => "Php",
        OpCode6502::Pla => "Pla",
        OpCode6502::Plp => "Plp",
        OpCode6502::Rol => "Rol",
        OpCode6502::Ror => "Ror",
        OpCode6502::Rti => "Rti",
        OpCode6502::Rts => "Rts",
        OpCode6502::Sbc => "Sbc",
        OpCode6502::Sec => "Sec",
        OpCode6502::Sed => "Sed",
        OpCode6502::Sei => "Sei",
        OpCode6502::Sta => "Sta",
        OpCode6502::Stx => "Stx",
        OpCode6502::Sty => "Sty",
        OpCode6502::Tax => "Tax",
        OpCode6502::Tay => "Tay",
        OpCode6502::Tsx => "Tsx",
        OpCode6502::Txa => "Txa",
        OpCode6502::Txs => "Txs",
        OpCode6502::Tya => "Tya",
        OpCode6502::Xxx => "Xxx",
    }
}

fn mode_str(mode: AddrMode6502) -> (r: &'static str)
    ensures
        r@ == mode_name(mode),
{
    match mode {
        AddrMode6502::Abs => "Abs",
        AddrMode6502::Abx => "Abx",
        AddrMode6502::Aby => "Aby",
        AddrMode6502::Imm => "Imm",
        AddrMode6502::Imp => "Imp",
        AddrMode6502::Ind => "Ind",
        AddrMode6502::Izx => "Izx",
        AddrMode6502::Izy => "Izy",
        AddrMode6502::Rel => "Rel",
        AddrMode6502::Zpo => "Zpo",
        AddrMode6502::Zpx => "Zpx",
        AddrMode6502::Zpy => "Zpy",
    }
}

fn push_dec_digits(s: &mut String, n: u8)
    ensures
        final(s)@ == old(s)@ + dec_digits(n as nat),
    decreases n,
{
    if n >= 10 {
        push_dec_digits(s, n / 10);
    }
    s.append(digit_str((n % 10) as usize));
    proof {
        if n >= 10 {
            assert(final(s)@ =~= old(s)@ + dec_digits(n as nat));
        }
    }
}

impl LookUpTable {
    /// The table row for `index`, written as its `Debug` text.
    pub fn get_name(&self, index: usize) -> (r: String)
        requires
            self.wf(),
            index < 256,
        ensures
            r@ == instruction_text(decode(index as u8)),
    {
        let ins = self.instructions[index];
        let mut text = String::from_str("Instruction6502 { operate: ");
        text.append(operation_str(ins.operate));
        text.append(", addr_mode: ");
        text.append(mode_str(ins.addr_mode));
        text.append(", cycles: ");
        push_dec_digits(&mut text, ins.cycles);
        text.append(", extra_cycles: ");
        push_dec_digits(&mut text, ins.extra_cycles);
        text.append(" }");
        proof {
            assert(text@ =~= instruction_text(decode(index as u8)));
        }
        text
    }
}

} // verus!
