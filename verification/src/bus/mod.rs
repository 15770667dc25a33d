pub mod interrupt;

use vstd::prelude::*;
use crate::cartridge::Cartridge;
use crate::cartridge::rom_reading::zeroed;
use crate::nes::controller::Controller;
use crate::ppu::registers::{Registers, RegistersView};

verus! {

pub const MEM_SIZE: usize = 0x0800;

/// A write that the CPU made to an APU register, kept for the audio side to apply.
#[derive(Copy, Clone, PartialEq, Eq, Structural, Debug)]
pub struct ApuWrite {
    pub address: u16,
    pub data: u8,
    pub cycles: u32,
}

/// The CPU address space: 2 KiB of RAM mirrored up to 0x1FFF, the PPU registers mirrored
/// up to 0x3FFF, OAM DMA at 0x4014, the APU and joypad ports, and the cartridge from 0x6000.
pub struct Bus {
    pub ram: Vec<u8>,
    pub registers: Registers,
    pub controller: Controller,
    pub dma_transfer: bool,
    pub dma_page: u8,
    pub apu_writes: Vec<ApuWrite>,
    pub apu_status: u8,
}

pub struct BusView {
    pub ram: Seq<u8>,
    pub registers: RegistersView,
    pub controller: Controller,
    pub dma_transfer: bool,
    pub dma_page: u8,
    pub apu_writes: Seq<ApuWrite>,
    pub apu_status: u8,
}

impl View for Bus {
    type V = BusView;

    open spec fn view(&self) -> BusView {
        BusView {
            ram: self.ram@,
            registers: self.registers@,
            controller: self.controller,
            dma_transfer: self.dma_transfer,
            dma_page: self.dma_page,
            apu_writes: self.apu_writes@,
            apu_status: self.apu_status,
        }
    }
}

/// Addresses that the APU answers on writes.
pub open spec fn is_apu_write_port(address: u16) -> bool {
    (0x4000 <= address <= 0x4013) || address == 0x4015 || address == 0x4017
}

impl BusView {
    pub open spec fn wf(self) -> bool {
        self.ram.len() == MEM_SIZE && self.registers.wf()
    }

    /// The addresses the bus can read: everything but the write-only ports
    /// 0x4000-0x4014 and the unmapped 0x4018-0x5FFF.
    pub closed spec fn read_ok(self, address: u16) -> bool {
        if address <= 0x1FFF {
            true
        } else if address <= 0x3FFF {
            self.registers.cpu_read_ok(address)
        } else if address == 0x4015 || address == 0x4017 {
            true
        } else if address == 0x4016 {
            self.controller.idx < usize::MAX
        } else if 0x6000 <= address {
            self.registers.cartridge.cpu_read_ok(address)
        } else {
            false
        }
    }

    /// The byte a CPU read of `address` gives, and the bus afterwards.
    pub closed spec fn read(self, address: u16) -> (u8, BusView) {
        if address <= 0x1FFF {
            (self.ram[(address & 0x07FF) as int], self)
        } else if address <= 0x3FFF {
            let (v, r) = self.registers.cpu_read(address);
            (v, BusView { registers: r, ..self })
        } else if address == 0x4015 {
            (self.apu_status, self)
        } else if address == 0x4016 {
            let (v, c) = self.controller.spec_read();
            (v, BusView { controller: c, ..self })
        } else if address == 0x4017 {
            (0, self)
        } else {
            (self.registers.cartridge.cpu_read_value(address), self)
        }
    }

    pub closed spec fn write_ok(self, address: u16) -> bool {
        if 0x2000 <= address <= 0x3FFF {
            self.registers.cpu_write_ok(address)
        } else if 0x6000 <= address {
            self.registers.cartridge.cpu_write_ok(address)
        } else {
            true
        }
    }

    /// The bus after the CPU writes `data` at `address` at system cycle `cycles`.
    pub closed spec fn write(self, address: u16, data: u8, cycles: u32) -> BusView {
        if address <= 0x1FFF {
            BusView { ram: self.ram.update((address & 0x07FF) as int, data), ..self }
        } else if address <= 0x3FFF {
            BusView { registers: self.registers.cpu_write(address, data), ..self }
        } else if address == 0x4014 {
            BusView {
                dma_page: data,
                registers: RegistersView { oam_address: 0, ..self.registers },
                dma_transfer: true,
                ..self
            }
        } else if is_apu_write_port(address) {
            BusView {
                apu_writes: self.apu_writes.push(ApuWrite { address, data, cycles }),
                ..self
            }
        } else if address == 0x4016 {
            BusView { controller: self.controller.spec_write(data), ..self }
        } else if 0x6000 <= address {
            BusView {
                registers: RegistersView {
                    cartridge: self.registers.cartridge.after_cpu_write(address, data),
                    ..self.registers
                },
                ..self
            }
        } else {
            self
        }
    }

    /// Whether the `n` reads of an OAM DMA from byte `k` on can all be made.
    pub closed spec fn dma_ok(self, k: nat) -> bool
        decreases 256 - k,
    {
        if k >= 256 {
            true
        } else {
            let addr = ((self.dma_page as u16) << 8u16) + k;
            let (v, b) = self.read(addr as u16);
            self.read_ok(addr as u16) && BusView { registers: b.registers.write_oam_data(v), ..b }.dma_ok(k + 1)
        }
    }

    /// The bus after copying bytes `k` to 255 of the DMA page into OAM.
    pub closed spec fn dma_from(self, k: nat) -> BusView
        decreases 256 - k,
    {
        if k >= 256 {
            self
        } else {
            let addr = ((self.dma_page as u16) << 8u16) + k;
            let (v, b) = self.read(addr as u16);
            BusView { registers: b.registers.write_oam_data(v), ..b }.dma_from(k + 1)
        }
    }
}

/// RAM can always be read and written.
pub proof fn lemma_ram_access(b: BusView, address: u16)
    requires
        address <= 0x1FFF,
    ensures
        b.read_ok(address),
        b.write_ok(address),
{
}

impl Bus {
    pub fn new(registers: Registers, controller: Controller) -> (r: Bus)
        requires
            registers@.wf(),
        ensures
            r@.wf(),
            r.ram@ == Seq::new(MEM_SIZE as nat, |i: int| 0u8),
            r.registers@ == registers@,
            r.controller == controller,
            !r.dma_transfer,
            r.dma_page == 0,
            r.apu_writes@ == Seq::<ApuWrite>::empty(),
            r.apu_status == 0,
    {
        Bus {
            ram: zeroed(MEM_SIZE),
            registers,
            controller,
            dma_transfer: false,
            dma_page: 0x00,
            apu_writes: Vec::new(),
            apu_status: 0,
        }
    }

    pub fn write_u8(&mut self, address: u16, data: u8, cycles: u32)
        requires
            old(self)@.wf(),
            old(self)@.write_ok(address),
        ensures
            final(self)@ == old(self)@.write(address, data, cycles),
            final(self)@.wf(),
    {
        proof { crate::bits::lemma_and_u16_le(address, 0x07FF); }
        if address <= 0x1FFF {
            self.ram.set((address & 0x07FF) as usize, data);
        } else if address <= 0x3FFF {
            self.registers.cpu_write_reg(address, data);
        } else if address == 0x4014 {
            self.dma_page = data;
            self.registers.oam_address = 0x00;
            self.dma_transfer = true;
        } else if (0x4000 <= address && address <= 0x4013) || address == 0x4015 || address == 0x4017 {
            self.apu_writes.push(ApuWrite { address, data, cycles });
        } else if address == 0x4016 {
            self.controller.write(data);
        } else if 0x6000 <= address {
            self.registers.cartridge.write_cpu(address, data);
        }
    }

    pub fn read_u8(&mut self, address: u16) -> (r: u8)
        requires
            old(self)@.wf(),
            old(self)@.read_ok(address),
        ensures
            (r, final(self)@) == old(self)@.read(address),
            final(self)@.wf(),
    {
        proof { crate::bits::lemma_and_u16_le(address, 0x07FF); }
        if address <= 0x1FFF {
            self.ram[(address & 0x07FF) as usize]
        } else if address <= 0x3FFF {
            self.registers.cpu_read_reg(address)
        } else if address == 0x4015 {
            self.apu_status
        } else if address == 0x4016 {
            self.controller.read()
        } else if address == 0x4017 {
            0
        } else {
            self.registers.cartridge.read_cpu(address)
        }
    }

    pub fn get_controller(&self) -> (r: &Controller)
        ensures
            *r == self.controller,
    {
        &self.controller
    }

    pub fn get_cartridge(&self) -> (r: &Cartridge)
        ensures
            r@ == self@.registers.cartridge,
    {
        &self.registers.cartridge
    }

    /// A copy of RAM from `address_start` up to `address_end` when both lie in the RAM
    /// window, and nothing otherwise.
    pub fn read_dbg_u8(&mut self, address_start: usize, address_end: usize) -> (r: Vec<u8>)
        requires
            old(self)@.wf(),
            address_start <= 0x1FFF && address_end <= 0x1FFF ==> address_start <= address_end
                && address_end <= MEM_SIZE,
        ensures
            final(self)@ == old(self)@,
            r@ == (if address_start <= 0x1FFF && address_end <= 0x1FFF {
                old(self)@.ram.subrange(address_start as int, address_end as int)
            } else {
                Seq::<u8>::empty()
            }),
    {
        if address_start <= 0x1FFF && address_end <= 0x1FFF {
            let mut out: Vec<u8> = Vec::new();
            let mut i = address_start;
            while i < address_end
                invariant
                    address_start <= i <= address_end,
                    address_end <= self.ram@.len(),
                    out@ == self.ram@.subrange(address_start as int, i as int),
                decreases address_end - i,
            {
                out.push(self.ram[i]);
                i = i + 1;
                assert(out@ =~= self.ram@.subrange(address_start as int, i as int));
            }
            return out;
        }
        Vec::new()
    }

    /// Copies the 256 bytes of page `dma_page` into OAM and ends the transfer; gives the
    /// CPU cycles the transfer took.
    pub fn oam_dma_access(&mut self, system_cycles: u32) -> (r: u32)
        requires
            old(self)@.wf(),
            old(self)@.dma_ok(0),
        ensures
            r == 513 + system_cycles % 2,
            final(self)@ == (BusView { dma_transfer: false, ..old(self)@.dma_from(0) }),
            final(self)@.wf(),
    {
        let cpu_dma_cycles = 513 + (system_cycles % 2);
        let mut idx: u16 = 0;
        while idx < 256
            invariant
                0 <= idx <= 256,
                self@.wf(),
                self.dma_page == old(self).dma_page,
                self@.dma_ok(idx as nat),
                self@.dma_from(idx as nat) == old(self)@.dma_from(0),
            decreases 256 - idx,
        {
            proof { crate::bits::lemma_page_base(self.dma_page); }
            let addr = ((self.dma_page as u16) << 8u16) + idx;
            let dma_data = self.read_u8(addr);
            self.registers.write_oam_data(dma_data);
            idx = idx + 1;
        }
        self.dma_transfer = false;
        cpu_dma_cycles
    }
}


/// Law: the 2 KiB of work RAM repeat through 0x0000-0x1FFF: a byte written at one address
/// is read back at every address with the same low eleven bits.
pub proof fn lemma_ram_mirror(b: BusView, a: u16, c: u16, data: u8, cycles: u32)
    requires
        b.wf(),
        a <= 0x1FFF,
        c <= 0x1FFF,
        a & 0x07FF == c & 0x07FF,
    ensures
        b.write(a, data, cycles).read(c).0 == data,
{
    crate::bits::lemma_and_u16_le(a, 0x07FF);
}

/// Law: a write to RAM leaves the RAM cells it does not address as they were.
pub proof fn lemma_ram_write_keeps_others(b: BusView, a: u16, c: u16, data: u8, cycles: u32)
    requires
        b.wf(),
        a <= 0x1FFF,
        c <= 0x1FFF,
        a & 0x07FF != c & 0x07FF,
    ensures
        b.write(a, data, cycles).read(c).0 == b.read(c).0,
{
    crate::bits::lemma_and_u16_le(a, 0x07FF);
    crate::bits::lemma_and_u16_le(c, 0x07FF);
}


/// A write to RAM keeps the bus well formed.
pub proof fn lemma_ram_write_keeps_wf(b: BusView, a: u16, data: u8, cycles: u32)
    requires
        b.wf(),
        a <= 0x1FFF,
    ensures
        b.write(a, data, cycles).wf(),
{
    crate::bits::lemma_and_u16_le(a, 0x07FF);
}

/// A read of RAM changes nothing on the bus.
pub proof fn lemma_ram_read_keeps_bus(b: BusView, a: u16)
    requires
        a <= 0x1FFF,
    ensures
        b.read(a).1 == b,
{
}


proof fn lemma_dma_steps(s: BusView, k: nat)
    requires
        s.wf(),
        s.dma_page <= 0x1F,
        k <= 256,
        s.registers.oam_address as int == k % 256,
    ensures
        forall|i: int|
            0 <= i < 256 ==> #[trigger] s.dma_from(k).registers.oam_ram[i] == (if i < k {
                s.registers.oam_ram[i]
            } else {
                s.ram[(s.dma_page as int * 256 + i) % 0x0800]
            }),
        s.dma_from(k).registers.oam_ram.len() == 0x0100,
    decreases 256 - k,
{
    if k < 256 {
        let p = s.dma_page;
        assert((p as u16) << 8u16 == (p as u16) * 256) by (bit_vector);
        let addr = ((p as u16) << 8u16) + k;
        let a = addr as u16;
        assert(a & 0x07FF == a % 0x0800) by (bit_vector);
        let (v, b) = s.read(a);
        assert(b == s);
        crate::ppu::registers::lemma_oam_data_write(s.registers, v);
        let s1 = BusView { registers: s.registers.write_oam_data(v), ..s };
        lemma_dma_steps(s1, k + 1);
    }
}

/// Law: an OAM DMA from a page of RAM, started with the OAM address at 0 as a write to 0x4014
/// leaves it, copies the 256 bytes of the page into OAM in order.
pub proof fn lemma_dma_copies_ram_page(b: BusView, i: int)
    requires
        b.wf(),
        b.dma_page <= 0x1F,
        b.registers.oam_address == 0,
        0 <= i < 256,
    ensures
        b.dma_from(0).registers.oam_ram[i] == b.ram[(b.dma_page as int * 256 + i) % 0x0800],
{
    lemma_dma_steps(b, 0);
}


/// Which CPU bus accesses can be served: RAM always; the PPU ports as the registers allow;
/// the APU status and frame-counter ports; the joypad port; the cartridge from 0x6000 as the
/// board allows. Writes are refused only at PPUDATA and on the cartridge.
pub proof fn lemma_bus_access_ok(b: BusView, address: u16)
    ensures
        b.read_ok(address) == (if address <= 0x1FFF {
            true
        } else if address <= 0x3FFF {
            b.registers.cpu_read_ok(address)
        } else if address == 0x4015 || address == 0x4017 {
            true
        } else if address == 0x4016 {
            b.controller.idx < usize::MAX
        } else if 0x6000 <= address {
            b.registers.cartridge.cpu_read_ok(address)
        } else {
            false
        }),
        b.write_ok(address) == (if 0x2000 <= address <= 0x3FFF {
            b.registers.cpu_write_ok(address)
        } else if 0x6000 <= address {
            b.registers.cartridge.cpu_write_ok(address)
        } else {
            true
        }),
{
}

/// A CPU read from 0x6000 up is the cartridge's: the board decides whether it can be served,
/// gives the byte, and the bus is left as it was.
pub proof fn lemma_cartridge_read(b: BusView, address: u16)
    requires
        0x6000 <= address,
    ensures
        b.read_ok(address) == b.registers.cartridge.cpu_read_ok(address),
        b.read(address) == (b.registers.cartridge.cpu_read_value(address), b),
{
}

/// Law: the CPU's memory map outside RAM. 0x2000-0x3FFF reach the PPU registers; 0x4014
/// starts an OAM DMA from the written page with the OAM address reset; the APU ports
/// (0x4000-0x4013, 0x4015, 0x4017) queue the write with its cycle; 0x4016 reads and strobes the
/// joypad; 0x4015 reads the APU status and 0x4017 reads zero; from 0x6000 up the cartridge
/// answers. Reads elsewhere than the PPU registers and the joypad leave the bus as it was.
pub proof fn lemma_bus_map(b: BusView, address: u16, data: u8, cycles: u32)
    ensures
        0x2000 <= address <= 0x3FFF ==> b.read(address) == (b.registers.cpu_read(address).0, BusView {
            registers: b.registers.cpu_read(address).1,
            ..b
        }) && b.write(address, data, cycles) == (BusView { registers: b.registers.cpu_write(address, data), ..b }),
        address == 0x4014 ==> b.write(address, data, cycles) == (BusView {
            dma_page: data,
            registers: RegistersView { oam_address: 0, ..b.registers },
            dma_transfer: true,
            ..b
        }),
        (0x4000 <= address <= 0x4013 || address == 0x4015 || address == 0x4017) ==> b.write(address, data, cycles)
            == (BusView { apu_writes: b.apu_writes.push(ApuWrite { address, data, cycles }), ..b }),
        address == 0x4015 ==> b.read(address) == (b.apu_status, b),
        address == 0x4017 ==> b.read(address) == (0u8, b),
        address == 0x4016 ==> b.read(address) == (b.controller.spec_read().0, BusView {
            controller: b.controller.spec_read().1,
            ..b
        }) && b.write(address, data, cycles) == (BusView { controller: b.controller.spec_write(data), ..b }),
        0x6000 <= address ==> b.read(address) == (b.registers.cartridge.cpu_read_value(address), b)
            && b.write(address, data, cycles) == (BusView {
            registers: RegistersView {
                cartridge: b.registers.cartridge.after_cpu_write(address, data),
                ..b.registers
            },
            ..b
        }),
{
}

} // verus!
