pub mod controller;
pub mod constants;

use vstd::prelude::*;
use crate::bus::{Bus, BusView};
use crate::cartridge::{Cartridge, CartridgeView};
use crate::cpu::{Cpu, CpuView};
use crate::mapper::Mapper;
use crate::nes::controller::Controller;
use crate::ppu::{Ppu, PpuState, PpuView, black_pixel, spec_tick, tick_ok, tick_reads_ok, SCREEN_PIXELS};
use crate::ppu::registers::{Registers, RegistersView};

verus! {

/// What the audio unit has to do on a console cycle: run its own cycle at the given system
/// cycle, or drop its pending samples while the CPU is halted by an OAM DMA.
#[derive(Copy, Clone, PartialEq, Eq, Structural, Debug)]
pub enum ApuAction {
    Idle,
    Step(u32),
    Flush,
}

/// The console: the CPU with its bus, the PPU, and the count of PPU cycles run.
pub struct Nes {
    pub cpu: Cpu,
    pub ppu: Ppu,
    pub system_cycles: u32,
}

pub struct NesView {
    pub cpu: CpuView,
    pub ppu: PpuView,
    pub system_cycles: u32,
}

impl View for Nes {
    type V = NesView;

    open spec fn view(&self) -> NesView {
        NesView { cpu: self.cpu@, ppu: self.ppu@, system_cycles: self.system_cycles }
    }
}

/// The CPU once the PPU has changed the registers they share.
pub open spec fn with_registers(cpu: CpuView, r: RegistersView) -> CpuView {
    CpuView { bus: BusView { registers: r, ..cpu.bus }, ..cpu }
}

/// The CPU's share of a console cycle: every third cycle it runs an instruction, or, while an
/// OAM DMA is pending, the copy, which stalls it for 513 or 514 cycles.
#[verifier::opaque]
pub open spec fn spec_cpu_turn(cpu: CpuView, cycles: u32) -> (CpuView, u32, ApuAction) {
    if cycles % 3 == 0 {
        if !cpu.bus.dma_transfer {
            (cpu.step(cycles), cycles, ApuAction::Step(cycles))
        } else {
            (
                CpuView { bus: BusView { dma_transfer: false, ..cpu.bus.dma_from(0) }, ..cpu },
                cycles.wrapping_add((513 + cycles % 2) as u32),
                ApuAction::Flush,
            )
        }
    } else {
        (cpu, cycles, ApuAction::Idle)
    }
}

#[verifier::opaque]
pub open spec fn cpu_turn_ok(cpu: CpuView, cycles: u32) -> bool {
    cycles % 3 == 0 ==> if !cpu.bus.dma_transfer {
        cpu.step_ok(cycles)
    } else {
        cpu.bus.dma_ok(0)
    }
}

/// The CPU with the board's interrupt request acknowledged.
pub open spec fn irq_acknowledged(cpu: CpuView) -> CpuView {
    let c = cpu.bus.registers.cartridge;
    with_registers(
        cpu,
        RegistersView {
            cartridge: CartridgeView { mapper: c.mapper.after_clear_irq(), ..c },
            ..cpu.bus.registers
        },
    )
}

/// The interrupts of a console cycle: the PPU's vertical-blank NMI, then the board's IRQ.
#[verifier::opaque]
pub open spec fn spec_interrupts(p: PpuView, cpu: CpuView) -> (PpuView, CpuView) {
    let (p1, c1) = if p.nmi { (PpuView { nmi: false, ..p }, cpu.spec_nmi()) } else { (p, cpu) };
    let c2 = if c1.bus.registers.cartridge.mapper.irq_value() {
        irq_acknowledged(c1).spec_irq()
    } else {
        c1
    };
    (p1, c2)
}

#[verifier::opaque]
pub open spec fn interrupts_ok(p: PpuView, cpu: CpuView) -> bool {
    let c1 = if p.nmi { cpu.spec_nmi() } else { cpu };
    &&& p.nmi ==> cpu.interrupt_frame().vector_ok(0xFFFA)
    &&& c1.bus.registers.cartridge.mapper.irq_value() ==> irq_acknowledged(c1).irq_ok()
}

/// One console cycle: a PPU cycle, the CPU's turn, the interrupts, and the next cycle count;
/// with what the PPU reported and what the audio unit has to do.
pub open spec fn spec_clock(n: NesView) -> (NesView, PpuState, ApuAction) {
    let (p1, r1, st) = spec_tick(n.ppu, n.cpu.bus.registers);
    let c1 = with_registers(n.cpu, r1);
    let (c2, cycles, action) = spec_cpu_turn(c1, n.system_cycles);
    let (p2, c3) = spec_interrupts(p1, c2);
    (NesView { cpu: c3, ppu: p2, system_cycles: cycles.wrapping_add(1) }, st, action)
}

/// The states from which a console cycle can be run: each part can do its work.
pub open spec fn clock_ok(n: NesView) -> bool {
    let (p1, r1, st) = spec_tick(n.ppu, n.cpu.bus.registers);
    let c1 = with_registers(n.cpu, r1);
    let (c2, cycles, action) = spec_cpu_turn(c1, n.system_cycles);
    &&& n.ppu.inv()
    &&& tick_reads_ok(n.ppu, n.cpu.bus.registers)
    &&& tick_ok(n.ppu, n.cpu.bus.registers)
    &&& cpu_turn_ok(c1, n.system_cycles)
    &&& interrupts_ok(p1, c2)
}

fn acknowledge_board_irq(cpu: &mut Cpu)
    requires
        old(cpu).wf(),
    ensures
        final(cpu)@ == irq_acknowledged(old(cpu)@),
        final(cpu).wf(),
{
    cpu.bus.registers.cartridge.clear_irq_flag();
}

impl Nes {
    /// A console with `cartridge` inserted, before the first reset.
    pub fn new(cartridge: Cartridge) -> (r: Nes)
        ensures
            r.cpu.wf(),
            r.cpu@ == (CpuView {
                bus: r.cpu@.bus,
                pc: 0,
                acc: 0,
                x: 0,
                y: 0,
                status_register: 0,
                stack_pointer: 0,
                fetched: 0,
                addr_abs: 0,
                addr_rel: 0,
                opcode: 0,
                cycle: 0,
                system_cycle: 0,
            }),
            r.cpu@.bus.ram == Seq::new(crate::bus::MEM_SIZE as nat, |i: int| 0u8),
            r.cpu@.bus.registers.power_on(cartridge@),
            r.cpu@.bus.controller.input_states@ == seq![false, false, false, false, false, false, false, false],
            r.cpu@.bus.controller.idx == 0,
            r.cpu@.bus.controller.strobe == 0,
            !r.cpu@.bus.dma_transfer,
            r.cpu@.bus.dma_page == 0,
            r.cpu@.bus.apu_writes.len() == 0,
            r.cpu@.bus.apu_status == 0,
            r.ppu@.power_on(),
            r.system_cycles == 0,
    {
        let registers = Registers::new(cartridge);
        let bus = Bus::new(registers, Controller::new());
        let cpu = Cpu::new(bus);
        let ppu = Ppu::new();
        Nes { cpu, ppu, system_cycles: 0 }
    }

    fn clear_picture(&mut self)
        requires
            old(self).ppu@.off_screen_pixels.len() == SCREEN_PIXELS,
        ensures
            final(self).ppu@ == (PpuView {
                off_screen_pixels: Seq::new(SCREEN_PIXELS as nat, |i: int| black_pixel()),
                ..old(self).ppu@
            }),
            final(self).cpu == old(self).cpu,
            final(self).system_cycles == old(self).system_cycles,
    {
        let mut i: usize = 0;
        while i < SCREEN_PIXELS
            invariant
                i <= SCREEN_PIXELS,
                self.ppu@.off_screen_pixels.len() == SCREEN_PIXELS,
                forall|j: int| 0 <= j < i ==> #[trigger] self.ppu@.off_screen_pixels[j] == black_pixel(),
                self.ppu@ == (PpuView { off_screen_pixels: self.ppu@.off_screen_pixels, ..old(self).ppu@ }),
                self.cpu == old(self).cpu,
                self.system_cycles == old(self).system_cycles,
            decreases SCREEN_PIXELS - i,
        {
            self.ppu.off_screen_pixels.set(i, [0u8, 0u8, 0u8]);
            i += 1;
        }
        proof {
            assert(self.ppu@.off_screen_pixels =~= Seq::new(SCREEN_PIXELS as nat, |i: int| black_pixel()));
        }
    }

    /// Whether the CPU can read its reset vector at 0xFFFC and 0xFFFD, which `reset` needs.
    pub fn reset_vector_readable(&self) -> (r: bool)
        ensures
            r == self.cpu@.vector_ok(0xFFFC),
    {
        proof {
            crate::bus::lemma_cartridge_read(self.cpu@.bus, 0xFFFC);
            crate::bus::lemma_cartridge_read(self.cpu@.bus, 0xFFFD);
        }
        let cartridge = self.cpu.bus.get_cartridge();
        cartridge.cpu_readable(0xFFFC) && cartridge.cpu_readable(0xFFFD)
    }

    /// The reset button: the CPU jumps through its reset vector, the PPU and its registers
    /// start over, the picture goes black and the cycle count restarts.
    pub fn reset(&mut self)
        requires
            old(self).cpu.wf(),
            old(self).cpu@.vector_ok(0xFFFC),
            old(self).ppu@.inv(),
        ensures
            final(self).cpu.wf(),
            final(self).ppu@.inv(),
            final(self).cpu@ == with_registers(
                old(self).cpu@.spec_reset(),
                old(self).cpu@.spec_reset().bus.registers.after_reset(),
            ),
            final(self).ppu@ == (PpuView {
                off_screen_pixels: Seq::new(SCREEN_PIXELS as nat, |i: int| black_pixel()),
                ..old(self).ppu@.after_reset()
            }),
            final(self).system_cycles == 0,
    {
        self.cpu.reset();
        self.ppu.reset(&mut self.cpu.bus.registers);
        self.clear_picture();
        self.system_cycles = 0;
    }

    #[verifier::spinoff_prover]
    fn cpu_turn(&mut self, cycles: u32) -> (r: ApuAction)
        requires
            old(self).cpu.wf(),
            old(self).system_cycles == cycles,
            cpu_turn_ok(old(self).cpu@, cycles),
        ensures
            (final(self).cpu@, final(self).system_cycles, r) == spec_cpu_turn(old(self).cpu@, cycles),
            final(self).cpu.wf(),
            final(self).ppu == old(self).ppu,
    {
        proof {
            reveal(spec_cpu_turn);
            reveal(cpu_turn_ok);
        }
        let mut action = ApuAction::Idle;
        if cycles % 3 == 0 {
            if !self.cpu.bus.dma_transfer {
                action = ApuAction::Step(cycles);
                self.cpu.clock(cycles);
            } else {
                action = ApuAction::Flush;
                let stall = self.cpu.bus.oam_dma_access(self.system_cycles);
                self.system_cycles = self.system_cycles.wrapping_add(stall);
            }
        }
        action
    }

    #[verifier::rlimit(40)]
    #[verifier::spinoff_prover]
    fn interrupts(&mut self)
        requires
            old(self).cpu.wf(),
            interrupts_ok(old(self).ppu@, old(self).cpu@),
        ensures
            (final(self).ppu@, final(self).cpu@) == spec_interrupts(old(self).ppu@, old(self).cpu@),
            final(self).cpu.wf(),
            final(self).system_cycles == old(self).system_cycles,
            final(self).ppu@.inv() == old(self).ppu@.inv(),
    {
        proof {
            reveal(spec_interrupts);
            reveal(interrupts_ok);
        }
        if self.ppu.nmi {
            self.ppu.nmi = false;
            self.cpu.nmi();
        }
        if self.cpu.bus.registers.cartridge.irq_flag() {
            acknowledge_board_irq(&mut self.cpu);
            self.cpu.irq();
        }
    }

    /// Runs one console cycle, which is one PPU cycle, and reports what the PPU said and what
    /// the audio unit has to do.
    #[verifier::spinoff_prover]
    pub fn clock(&mut self) -> (r: (PpuState, ApuAction))
        requires
            old(self).cpu.wf(),
            clock_ok(old(self)@),
        ensures
            (final(self)@, r.0, r.1) == spec_clock(old(self)@),
            final(self).cpu.wf(),
            final(self).ppu@.inv(),
    {
        let curr_system_cycles = self.system_cycles;
        let state = self.ppu.tick(&mut self.cpu.bus.registers);
        let action = self.cpu_turn(curr_system_cycles);
        self.interrupts();
        self.system_cycles = self.system_cycles.wrapping_add(1);
        (state, action)
    }
}

} // verus!
