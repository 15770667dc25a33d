use vstd::prelude::*;
use crate::cartridge::rom_reading::Mirroring;
use crate::cartridge::rom_with_pager::{RomData, RomDataView};
use crate::mapper::Mapper;
use crate::mapper::pager::{Page, PageSize, can_access, lemma_page_access, paged_read, paged_write};

verus! {

/// The eight bank registers of an MMC3, R0 to R7.
#[derive(Copy, Clone, PartialEq, Eq, Structural)]
pub struct BankRegisters {
    pub r0: usize,
    pub r1: usize,
    pub r2: usize,
    pub r3: usize,
    pub r4: usize,
    pub r5: usize,
    pub r6: usize,
    pub r7: usize,
}

impl BankRegisters {
    pub open spec fn spec_get(self, i: usize) -> usize {
        if i == 0 { self.r0 }
        else if i == 1 { self.r1 }
        else if i == 2 { self.r2 }
        else if i == 3 { self.r3 }
        else if i == 4 { self.r4 }
        else if i == 5 { self.r5 }
        else if i == 6 { self.r6 }
        else { self.r7 }
    }

    pub open spec fn spec_set(self, i: usize, v: usize) -> Self {
        if i == 0 { BankRegisters { r0: v, ..self } }
        else if i == 1 { BankRegisters { r1: v, ..self } }
        else if i == 2 { BankRegisters { r2: v, ..self } }
        else if i == 3 { BankRegisters { r3: v, ..self } }
        else if i == 4 { BankRegisters { r4: v, ..self } }
        else if i == 5 { BankRegisters { r5: v, ..self } }
        else if i == 6 { BankRegisters { r6: v, ..self } }
        else { BankRegisters { r7: v, ..self } }
    }

    pub fn get(&self, i: usize) -> (r: usize)
        requires
            i < 8,
        ensures
            r == self.spec_get(i),
    {
        match i {
            0 => self.r0,
            1 => self.r1,
            2 => self.r2,
            3 => self.r3,
            4 => self.r4,
            5 => self.r5,
            6 => self.r6,
            _ => self.r7,
        }
    }

    pub fn set(&mut self, i: usize, v: usize)
        requires
            i < 8,
        ensures
            *final(self) == old(self).spec_set(i, v),
    {
        match i {
            0 => self.r0 = v,
            1 => self.r1 = v,
            2 => self.r2 = v,
            3 => self.r3 = v,
            4 => self.r4 = v,
            5 => self.r5 = v,
            6 => self.r6 = v,
            _ => self.r7 = v,
        }
    }
}

/// MMC3: 8 KiB PRG banks, 1 KiB CHR banks and a scanline counter that raises an IRQ.
#[derive(Copy, Clone, PartialEq, Eq, Structural)]
pub struct Mapper4 {
    pub prg_select: bool,
    pub chr_select: bool,
    pub registers: BankRegisters,
    pub index: usize,
    pub mirroring: Mirroring,
    pub irq_counter: u8,
    pub irq_period: u8,
    pub irq_enabled: bool,
    pub flag_irq: bool,
}

impl Mapper4 {
    pub fn new(rom: &RomData) -> (r: Mapper4)
        ensures
            !r.prg_select,
            !r.chr_select,
            r.registers == (BankRegisters { r0: 0, r1: 0, r2: 0, r3: 0, r4: 0, r5: 0, r6: 0, r7: 0 }),
            r.index == 0,
            r.mirroring == Mirroring::Horizontal,
            r.irq_counter == 0,
            r.irq_period == 0,
            !r.irq_enabled,
            !r.flag_irq,
    {
        Mapper4 {
            prg_select: false,
            chr_select: false,
            registers: BankRegisters { r0: 0, r1: 0, r2: 0, r3: 0, r4: 0, r5: 0, r6: 0, r7: 0 },
            index: 0,
            mirroring: Mirroring::Horizontal,
            irq_counter: 0,
            irq_period: 0,
            irq_enabled: false,
            flag_irq: false,
        }
    }

    /// The PRG page and offset that a CPU address at or above 0x8000 selects.
    pub open spec fn prg_page(&self, address: u16) -> (Page, u16) {
        let r = self.registers;
        if address <= 0x9FFF {
            (if self.prg_select { Page::FromEnd(1, PageSize::EightKb) } else { Page::FromNth(r.r6, PageSize::EightKb) },
                (address - 0x8000) as u16)
        } else if address <= 0xBFFF {
            (Page::FromNth(r.r7, PageSize::EightKb), (address - 0xA000) as u16)
        } else if address <= 0xDFFF {
            (if self.prg_select { Page::FromNth(r.r6, PageSize::EightKb) } else { Page::FromEnd(1, PageSize::EightKb) },
                (address - 0xC000) as u16)
        } else {
            (Page::FromEnd(0, PageSize::EightKb), (address - 0xE000) as u16)
        }
    }

    /// The 1 KiB CHR bank that a PPU address below 0x2000 selects.
    pub open spec fn chr_bank(&self, address: u16) -> usize {
        let r = self.registers;
        let slot = address / 0x0400;
        let slot = if self.chr_select { slot ^ 4 } else { slot };
        if slot == 0 { r.r0 & !1usize }
        else if slot == 1 { r.r0 | 1 }
        else if slot == 2 { r.r1 & !1usize }
        else if slot == 3 { r.r1 | 1 }
        else if slot == 4 { r.r2 }
        else if slot == 5 { r.r3 }
        else if slot == 6 { r.r4 }
        else { r.r5 }
    }
}

impl Mapper for Mapper4 {
    open spec fn cpu_read_ok(&self, rom: RomDataView, address: u16) -> bool {
        if 0x6000 <= address <= 0x7FFF {
            can_access(rom.prg_ram, Page::First(PageSize::EightKb), (address - 0x6000) as u16)
        } else if 0x8000 <= address {
            can_access(rom.prg_rom, self.prg_page(address).0, self.prg_page(address).1)
        } else {
            false
        }
    }

    open spec fn cpu_read_value(&self, rom: RomDataView, address: u16) -> u8 {
        if 0x6000 <= address <= 0x7FFF {
            paged_read(rom.prg_ram, Page::First(PageSize::EightKb), (address - 0x6000) as u16)
        } else {
            paged_read(rom.prg_rom, self.prg_page(address).0, self.prg_page(address).1)
        }
    }

    open spec fn cpu_write_ok(&self, rom: RomDataView, address: u16) -> bool {
        &&& 0x6000 <= address <= 0x7FFF ==> can_access(
            rom.prg_ram,
            Page::First(PageSize::EightKb),
            (address - 0x6000) as u16,
        )
        &&& (0x8000 <= address <= 0x9FFF && address % 2 == 1) ==> self.index < 8
    }

    open spec fn cpu_write_board(&self, rom: RomDataView, address: u16, data: u8) -> Self {
        let even = address % 2 == 0;
        if 0x8000 <= address <= 0x9FFF {
            if even {
                Mapper4 {
                    index: (data & 0x07) as usize,
                    prg_select: data & 0x40 > 0,
                    chr_select: data & 0x80 > 0,
                    ..*self
                }
            } else {
                Mapper4 { registers: self.registers.spec_set(self.index, data as usize), ..*self }
            }
        } else if 0xA000 <= address <= 0xBFFF {
            if even {
                Mapper4 {
                    mirroring: if data % 2 == 0 { Mirroring::Vertical } else { Mirroring::Horizontal },
                    ..*self
                }
            } else {
                *self
            }
        } else if 0xC000 <= address <= 0xDFFF {
            if even {
                Mapper4 { irq_period: data, ..*self }
            } else {
                Mapper4 { irq_counter: 0, ..*self }
            }
        } else if 0xE000 <= address {
            if even {
                Mapper4 { irq_enabled: false, flag_irq: false, ..*self }
            } else {
                Mapper4 { irq_enabled: true, ..*self }
            }
        } else {
            *self
        }
    }

    open spec fn cpu_write_rom(&self, rom: RomDataView, address: u16, data: u8) -> RomDataView {
        if 0x6000 <= address <= 0x7FFF {
            RomDataView {
                prg_ram: paged_write(
                    rom.prg_ram,
                    Page::First(PageSize::EightKb),
                    (address - 0x6000) as u16,
                    data,
                ),
                ..rom
            }
        } else {
            rom
        }
    }

    open spec fn ppu_read_ok(&self, rom: RomDataView, address: u16) -> bool {
        address <= 0x1FFF && can_access(
            rom.chr_rom,
            Page::FromNth(self.chr_bank(address), PageSize::OneKb),
            address & 0x03FF,
        )
    }

    open spec fn ppu_read_value(&self, rom: RomDataView, address: u16) -> u8 {
        paged_read(rom.chr_rom, Page::FromNth(self.chr_bank(address), PageSize::OneKb), address & 0x03FF)
    }

    open spec fn ppu_write_ok(&self, rom: RomDataView, address: u16) -> bool {
        true
    }

    open spec fn ppu_write_rom(&self, rom: RomDataView, address: u16, data: u8) -> RomDataView {
        rom
    }

    open spec fn mirroring_ok(&self) -> bool {
        true
    }

    open spec fn mirroring_value(&self) -> Mirroring {
        self.mirroring
    }

    open spec fn irq_value(&self) -> bool {
        self.flag_irq
    }

    open spec fn after_scanline(&self) -> Self {
        let counter: u8 = if self.irq_counter == 0 { self.irq_period } else { (self.irq_counter - 1) as u8 };
        Mapper4 {
            irq_counter: counter,
            flag_irq: if counter == 0 && self.irq_enabled { true } else { self.flag_irq },
            ..*self
        }
    }

    open spec fn after_clear_irq(&self) -> Self {
        Mapper4 { flag_irq: false, ..*self }
    }

    fn mapped_read_cpu_u8(&self, rom: &RomData, address: u16) -> (r: u8) {
        if 0x6000 <= address && address <= 0x7FFF {
            rom.prg_ram.read(Page::First(PageSize::EightKb), address - 0x6000)
        } else if address <= 0x9FFF {
            if !self.prg_select {
                rom.prg_rom.read(Page::FromNth(self.registers.r6, PageSize::EightKb), address - 0x8000)
            } else {
                rom.prg_rom.read(Page::FromEnd(1, PageSize::EightKb), address - 0x8000)
            }
        } else if address <= 0xBFFF {
            rom.prg_rom.read(Page::FromNth(self.registers.r7, PageSize::EightKb), address - 0xA000)
        } else if address <= 0xDFFF {
            if !self.prg_select {
                rom.prg_rom.read(Page::FromEnd(1, PageSize::EightKb), address - 0xC000)
            } else {
                rom.prg_rom.read(Page::FromNth(self.registers.r6, PageSize::EightKb), address - 0xC000)
            }
        } else {
            rom.prg_rom.read(Page::FromEnd(0, PageSize::EightKb), address - 0xE000)
        }
    }

    fn cpu_readable(&self, rom: &RomData, address: u16) -> (r: bool) {
        if 0x6000 <= address && address <= 0x7FFF {
            rom.prg_ram.accessible(Page::First(PageSize::EightKb), address - 0x6000)
        } else if address <= 0x7FFF {
            false
        } else if address <= 0x9FFF {
            let page = if self.prg_select {
                Page::FromEnd(1, PageSize::EightKb)
            } else {
                Page::FromNth(self.registers.r6, PageSize::EightKb)
            };
            rom.prg_rom.accessible(page, address - 0x8000)
        } else if address <= 0xBFFF {
            rom.prg_rom.accessible(Page::FromNth(self.registers.r7, PageSize::EightKb), address - 0xA000)
        } else if address <= 0xDFFF {
            let page = if self.prg_select {
                Page::FromNth(self.registers.r6, PageSize::EightKb)
            } else {
                Page::FromEnd(1, PageSize::EightKb)
            };
            rom.prg_rom.accessible(page, address - 0xC000)
        } else {
            rom.prg_rom.accessible(Page::FromEnd(0, PageSize::EightKb), address - 0xE000)
        }
    }

    fn mapped_write_cpu_u8(&mut self, rom: &mut RomData, address: u16, data: u8) {
        let even = address % 2 == 0;
        if 0x6000 <= address && address <= 0x7FFF {
            rom.prg_ram.write(Page::First(PageSize::EightKb), address - 0x6000, data);
        } else if 0x8000 <= address && address <= 0x9FFF {
            if even {
                self.index = (data & 0x07) as usize;
                self.prg_select = data & 0x40 > 0;
                self.chr_select = data & 0x80 > 0;
            } else {
                let i = self.index;
                self.registers.set(i, data as usize);
            }
        } else if 0xA000 <= address && address <= 0xBFFF {
            if even {
                self.mirroring = if data % 2 == 0 { Mirroring::Vertical } else { Mirroring::Horizontal };
            }
        } else if 0xC000 <= address && address <= 0xDFFF {
            if even {
                self.irq_period = data;
            } else {
                self.irq_counter = 0;
            }
        } else if 0xE000 <= address {
            if even {
                self.irq_enabled = false;
                self.flag_irq = false;
            } else {
                self.irq_enabled = true;
            }
        }
    }

    fn mapped_read_ppu_u8(&self, rom: &RomData, address: u16) -> (r: u8) {
        let r = self.registers;
        let slot = address / 0x0400;
        let slot = if self.chr_select { slot ^ 4 } else { slot };
        let bank = match slot {
            0 => r.r0 & !1usize,
            1 => r.r0 | 1,
            2 => r.r1 & !1usize,
            3 => r.r1 | 1,
            4 => r.r2,
            5 => r.r3,
            6 => r.r4,
            _ => r.r5,
        };
        rom.chr_rom.read(Page::FromNth(bank, PageSize::OneKb), address & 0x03FF)
    }

    fn mapped_write_ppu_u8(&mut self, rom: &mut RomData, address: u16, data: u8) {
    }

    fn mirroring(&self) -> (r: Mirroring) {
        self.mirroring
    }

    fn irq_flag(&self) -> (r: bool) {
        self.flag_irq
    }

    fn signal_scanline(&mut self) {
        if self.irq_counter == 0 {
            self.irq_counter = self.irq_period;
        } else {
            self.irq_counter = self.irq_counter - 1;
        }
        if self.irq_counter == 0 && self.irq_enabled {
            self.flag_irq = true;
        }
    }

    fn clear_irq_flag(&mut self) {
        self.flag_irq = false;
    }
}


/// The board after `k` scan-line signals.
pub open spec fn after_scanlines(m: Mapper4, k: nat) -> Mapper4
    decreases k,
{
    if k == 0 { m } else { after_scanlines(m.after_scanline(), (k - 1) as nat) }
}

/// Law: with IRQs enabled and the counter at `c` > 0, the counter reaches zero and the IRQ
/// flag goes up on the `c`-th scan line, and the flag is untouched before that.
pub proof fn lemma_mmc3_irq_countdown(m: Mapper4, c: nat, k: nat)
    requires
        m.irq_enabled,
        m.irq_counter == c,
        c > 0,
        k <= c,
    ensures
        k < c ==> after_scanlines(m, k).flag_irq == m.flag_irq && after_scanlines(m, k).irq_counter == c - k,
        k == c ==> after_scanlines(m, k).flag_irq && after_scanlines(m, k).irq_counter == 0,
    decreases k,
{
    if k > 0 {
        let m1 = m.after_scanline();
        if c == 1 {
            assert(k == 1);
            assert(after_scanlines(m1, 0) == m1);
        } else {
            lemma_mmc3_irq_countdown(m1, (c - 1) as nat, (k - 1) as nat);
        }
    }
}

/// The 8 KiB PRG bank that an MMC3 shows at a CPU address from 0x8000 up, in a PRG ROM of
/// `banks` banks: 0x8000-0x9FFF shows R6, or the second-last bank in the swapped PRG mode;
/// 0xA000-0xBFFF always R7; 0xC000-0xDFFF the second-last bank, or R6 when swapped;
/// 0xE000-0xFFFF the last bank.
pub open spec fn mmc3_window_bank(m: Mapper4, banks: int, address: u16) -> int {
    let window = address / 0x2000;
    if window == 4 {
        if m.prg_select { banks - 2 } else { m.registers.r6 as int }
    } else if window == 5 {
        m.registers.r7 as int
    } else if window == 6 {
        if m.prg_select { m.registers.r6 as int } else { banks - 2 }
    } else {
        banks - 1
    }
}

/// Law: a CPU read from 0x8000 up is served exactly when the PRG ROM is a whole, non-empty
/// number of 8 KiB banks and the window's bank lies in it; it gives the byte at the address's
/// offset within that bank.
pub proof fn lemma_mmc3_prg_windows(m: Mapper4, rom: RomDataView, address: u16)
    requires
        0x8000 <= address,
    ensures
        ({
            let len = rom.prg_rom.len() as int;
            let bank = mmc3_window_bank(m, len / 0x2000, address);
            &&& m.cpu_read_ok(rom, address) == (len % 0x2000 == 0 && len >= 0x2000 && 0 <= bank < len / 0x2000)
            &&& m.cpu_read_ok(rom, address) ==> m.cpu_read_value(rom, address) == rom.prg_rom[bank * 0x2000
                + address as int % 0x2000]
        }),
{
    let len = rom.prg_rom.len() as int;
    let banks = len / 0x2000;
    let bank = mmc3_window_bank(m, banks, address);
    let (page, offset) = m.prg_page(address);
    assert(offset as int == address as int % 0x2000);
    assert(page.size() == PageSize::EightKb);
    if len % 0x2000 == 0 && len >= 0x2000 {
        assert(crate::mapper::pager::page_number(rom.prg_rom.len(), page) == bank);
        if 0 <= bank < banks {
            assert(bank * 0x2000 + offset < len) by (nonlinear_arith)
                requires
                    0 <= bank < banks,
                    banks == len / 0x2000,
                    len % 0x2000 == 0,
                    offset < 0x2000,
            ;
        }
    }
}

/// Law: writing a register number to an even address of 0x8000-0x9FFF and then a value to an
/// odd one stores the value in that bank register, R0 to R7, and leaves the others; bit 6 of
/// the number chooses the PRG mode and bit 7 the CHR mode.
pub proof fn lemma_mmc3_bank_write(m: Mapper4, rom: RomDataView, select: u16, data: u16, n: u8, v: u8)
    requires
        0x8000 <= select <= 0x9FFF,
        select % 2 == 0,
        0x8000 <= data <= 0x9FFF,
        data % 2 == 1,
    ensures
        ({
            let m2 = m.cpu_write_board(rom, select, n).cpu_write_board(rom, data, v);
            &&& m2.registers.spec_get((n % 8) as usize) == v as usize
            &&& forall|i: usize| i < 8 && i != n % 8 ==> m2.registers.spec_get(i) == m.registers.spec_get(i)
            &&& m2.prg_select == (n & 0x40 != 0)
            &&& m2.chr_select == (n & 0x80 != 0)
        }),
{
    crate::bits::lemma_field_values(n, 0, 0, 0, 0);
}

/// The 1 KiB CHR bank an MMC3 shows in 1 KiB slot `slot` of the pattern space (0 to 7):
/// with the CHR mode clear, slots 0-1 show the even/odd pair of R0, slots 2-3 that of R1 and
/// slots 4-7 R2 to R5; with the CHR mode set, the two halves swap.
pub open spec fn mmc3_chr_slot_bank(m: Mapper4, slot: int) -> int {
    let k = if m.chr_select { (slot + 4) % 8 } else { slot };
    let r = m.registers;
    if k == 0 {
        r.r0 as int - r.r0 as int % 2
    } else if k == 1 {
        r.r0 as int - r.r0 as int % 2 + 1
    } else if k == 2 {
        r.r1 as int - r.r1 as int % 2
    } else if k == 3 {
        r.r1 as int - r.r1 as int % 2 + 1
    } else if k == 4 {
        r.r2 as int
    } else if k == 5 {
        r.r3 as int
    } else if k == 6 {
        r.r4 as int
    } else {
        r.r5 as int
    }
}

/// Law: a pattern read below 0x2000 on an MMC3 is served exactly when the CHR ROM is a whole,
/// non-empty number of 1 KiB banks and the slot's bank is one of them; it gives that bank's
/// byte at the address's offset within the slot.
pub proof fn lemma_mmc3_chr_banks(m: Mapper4, rom: RomDataView, address: u16)
    requires
        address < 0x2000,
    ensures
        ({
            let len = rom.chr_rom.len() as int;
            let bank = mmc3_chr_slot_bank(m, address as int / 0x400);
            &&& m.ppu_read_ok(rom, address) == (len % 0x400 == 0 && len >= 0x400 && 0 <= bank < len / 0x400)
            &&& m.ppu_read_ok(rom, address) ==> m.ppu_read_value(rom, address) == rom.chr_rom[bank * 0x400
                + address as int % 0x400]
        }),
{
    crate::bits::lemma_field_values(0, 0, m.registers.r0, 0, 0);
    crate::bits::lemma_field_values(0, 0, m.registers.r1, (address / 0x0400) as u16, address);
    lemma_page_access(rom.chr_rom, Page::FromNth(m.chr_bank(address), PageSize::OneKb), address & 0x03FF);
}

} // verus!
