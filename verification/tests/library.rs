use nes_emulator::apu::envelope::Envelope;
use nes_emulator::cartridge::rom::{Mirroring as HeaderMirroring, Rom as TitledRom, TVSystem};
use nes_emulator::rom::Rom as ProgramRom;
use nes_emulator::apu::pulse::Pulse;
use nes_emulator::apu::sequencer::Sequencer;
use nes_emulator::apu::sweep::{Mode, Sweep};
use nes_emulator::cpu::instruction_table::LookUpTable;
use nes_emulator::bus::interrupt::Interrupt;
use nes_emulator::bus::Bus;
use nes_emulator::cartridge::rom_reading::{Mirroring, Rom, RomError};
use nes_emulator::cartridge::{Cartridge, CartridgeError};
use nes_emulator::cpu::instruction_table::{hex, OpCode6502};
use nes_emulator::cpu::Cpu;
use nes_emulator::mapper::mapper1::ShiftReg;
use nes_emulator::mapper::pager::{Page, PageSize, Pager};
use nes_emulator::nes::controller::Controller;
use nes_emulator::nes::{ApuAction, Nes};
use nes_emulator::ppu::registers::Registers;
use nes_emulator::ppu::{Ppu, PpuState};

/// An iNES image with `prg` 16 KiB PRG banks, `chr` 8 KiB CHR banks and header flags 6 and 7.
fn ines(prg: u8, chr: u8, flags_6: u8, flags_7: u8) -> Vec<u8> {
    let mut bytes = vec![0x4E, 0x45, 0x53, 0x1A, prg, chr, flags_6, flags_7, 0, 0, 0, 0, 0, 0, 0, 0];
    let body = prg as usize * 0x4000 + chr as usize * 0x2000;
    for i in 0..body {
        bytes.push((i % 251) as u8);
    }
    bytes
}

fn init_cpu() -> Cpu {
    Cpu::new(Bus::new(Registers::new(Cartridge::mock_cartridge()), Controller::new()))
}

#[test]
fn rom_image_is_loaded() {
    let bytes = ines(1, 1, 0x01, 0x00);
    let rom = Rom::read_from_file(&bytes).unwrap();
    assert_eq!(rom.rom_header.prg_rom_len, 0x4000);
    assert_eq!(rom.rom_header.chr_rom_len, 0x2000);
    assert_eq!(rom.rom_header.prg_ram_len, 0x2000);
    assert_eq!(rom.rom_header.mapper, 0);
    assert_eq!(rom.rom_header.mirroring, Mirroring::Vertical);
    assert_eq!(rom.prg_rom.len(), 0x4000);
    assert_eq!(rom.prg_rom[0], bytes[16]);
    assert_eq!(rom.chr_rom[5], bytes[16 + 0x4000 + 5]);
    assert!(rom.prg_ram.iter().all(|&b| b == 0));
}

#[test]
fn rom_mapper_number_comes_from_both_flag_bytes() {
    let rom = Rom::read_from_file(&ines(1, 1, 0x40, 0x10)).unwrap();
    assert_eq!(rom.rom_header.mapper, 0x14);
    assert_eq!(rom.rom_header.mirroring, Mirroring::Horizontal);
}

#[test]
fn rom_errors() {
    assert_eq!(Rom::read_from_file(&[0x4E, 0x45, 0x53, 0x00]).unwrap_err(), RomError::InvalidHeader);
    assert_eq!(Rom::read_from_file(&[0x4E, 0x45, 0x53, 0x1A, 1, 1]).unwrap_err(), RomError::HeaderTruncated);
    let mut padded = ines(1, 1, 0, 0);
    padded[13] = 1;
    assert_eq!(Rom::read_from_file(&padded).unwrap_err(), RomError::NonZeroPadding);
    assert_eq!(Rom::read_from_file(&ines(1, 1, 0, 0x08)).unwrap_err(), RomError::Nes2Unsupported);
    assert_eq!(Rom::read_from_file(&ines(1, 1, 0x08, 0)).unwrap_err(), RomError::UnsupportedMirroring);
    let mut short_prg = ines(1, 1, 0, 0);
    short_prg.truncate(16 + 0x1000);
    assert_eq!(Rom::read_from_file(&short_prg).unwrap_err(), RomError::PrgRomTruncated);
    let mut short_chr = ines(1, 1, 0, 0);
    short_chr.truncate(16 + 0x4000 + 0x1000);
    assert_eq!(Rom::read_from_file(&short_chr).unwrap_err(), RomError::ChrRomTruncated);
    let mut long = ines(1, 1, 0, 0);
    long.push(0);
    assert_eq!(Rom::read_from_file(&long).unwrap_err(), RomError::UnexpectedSize);
}

#[test]
fn cartridge_rejects_unknown_board() {
    match Cartridge::new(&ines(1, 1, 0x50, 0)) {
        Err(e) => assert_eq!(e, CartridgeError::MapperNotImplemented(5)),
        Ok(_) => panic!("board 5 has no mapper"),
    }
    match Cartridge::new(&ines(1, 1, 0, 0x08)) {
        Err(e) => assert_eq!(e, CartridgeError::Rom(RomError::Nes2Unsupported)),
        Ok(_) => panic!("NES 2.0 image accepted"),
    }
}

#[test]
fn nrom_cartridge_reads_prg_and_chr() {
    let bytes = ines(1, 1, 0, 0);
    let cartridge = Cartridge::new(&bytes).unwrap();
    assert_eq!(cartridge.read_cpu(0x8000), bytes[16]);
    // A single PRG bank is mirrored into 0xC000-0xFFFF.
    assert_eq!(cartridge.read_cpu(0xC003), bytes[16 + 3]);
    assert_eq!(cartridge.read_ppu(0x0010), bytes[16 + 0x4000 + 0x10]);
}

#[test]
fn pager_write_then_read() {
    let mut pager = Pager::new(vec![0u8; 0x4000]);
    pager.write(Page::Last(PageSize::EightKb), 0x0123, 0xAB);
    assert_eq!(pager.read(Page::Last(PageSize::EightKb), 0x0123), 0xAB);
    assert_eq!(pager.read(Page::FromNth(1, PageSize::EightKb), 0x0123), 0xAB);
    assert_eq!(pager.read(Page::First(PageSize::EightKb), 0x0123), 0);
}

#[test]
fn ram_is_mirrored_every_two_kib() {
    let mut cpu = init_cpu();
    cpu.bus.write_u8(0x0001, 0x5A, 0);
    assert_eq!(cpu.bus_mut_read_u8(0x0801), 0x5A);
    assert_eq!(cpu.bus_mut_read_u8(0x1801), 0x5A);
    assert_eq!(cpu.bus_mut_read_u8(0x0002), 0);
}

#[test]
fn nametable_and_palette_write_then_read() {
    let mut registers = Registers::new(Cartridge::mock_cartridge());
    registers.ppu_write_reg(0x2345, 0x77);
    assert_eq!(registers.ppu_read_reg(0x2345), 0x77);
    // Horizontal mirroring: 0x2000 and 0x2400 are the same table.
    assert_eq!(registers.ppu_read_reg(0x2745), 0x77);
    registers.ppu_write_reg(0x3F01, 0xFF);
    assert_eq!(registers.ppu_read_reg(0x3F01), 0x3F);
    // The sprite backdrop entries mirror the background ones.
    registers.ppu_write_reg(0x3F10, 0x21);
    assert_eq!(registers.ppu_read_reg(0x3F00), 0x21);
}

#[test]
fn oam_write_then_read_through_cpu_ports() {
    let mut registers = Registers::new(Cartridge::mock_cartridge());
    registers.cpu_write_reg(0x2003, 0x10);
    registers.cpu_write_reg(0x2004, 0xFF);
    registers.cpu_write_reg(0x2003, 0x10);
    assert_eq!(registers.cpu_read_reg(0x2004), 0xFF);
    registers.cpu_write_reg(0x2003, 0x12);
    registers.cpu_write_reg(0x2004, 0xFF);
    registers.cpu_write_reg(0x2003, 0x12);
    assert_eq!(registers.cpu_read_reg(0x2004), 0xE3);
}

#[test]
fn status_read_clears_vertical_blank() {
    let mut registers = Registers::new(Cartridge::mock_cartridge());
    registers.status_flags.set_vertical_blank(true);
    registers.status_flags.set_sprite_zero_hit(true);
    let v = registers.cpu_read_reg(0x2002);
    assert_eq!(v & 0xC0, 0xC0);
    assert!(!registers.status_flags.vertical_blank());
    assert!(registers.status_flags.sprite_zero_hit());
}

#[test]
fn push_then_pull_restores_accumulator() {
    let mut cpu = init_cpu();
    // PHA; LDA #$00; PLA
    for (i, b) in [0x48u8, 0xA9, 0x00, 0x68].iter().enumerate() {
        cpu.bus.ram[i] = *b;
    }
    cpu.acc = 0x42;
    let sp = cpu.stack_pointer;
    cpu.clock(0);
    cpu.clock(0);
    assert_eq!(cpu.acc, 0);
    cpu.clock(0);
    assert_eq!(cpu.acc, 0x42);
    assert_eq!(cpu.stack_pointer, sp);
}

#[test]
fn controller_reports_buttons_in_order() {
    let mut controller = Controller::new();
    controller.update_buttons([true, false, true, false, false, true, false, true]);
    controller.write(1);
    controller.write(0);
    let bits: Vec<u8> = (0..8).map(|_| controller.read()).collect();
    assert_eq!(bits, vec![1, 0, 1, 0, 0, 1, 0, 1]);
}

#[test]
fn controller_strobe_keeps_reporting_a() {
    let mut controller = Controller::new();
    controller.update_buttons([true, false, false, false, false, false, false, false]);
    controller.write(1);
    assert_eq!(controller.read(), 1);
    assert_eq!(controller.read(), 1);
}

#[test]
fn interrupt_is_ready_after_its_count() {
    let mut interrupt = Interrupt::new();
    assert!(!interrupt.ready());
    interrupt.schedule(3);
    interrupt.tick();
    interrupt.tick();
    assert!(!interrupt.ready());
    interrupt.tick();
    assert!(interrupt.ready());
    interrupt.tick();
    assert!(interrupt.ready());
    interrupt.clear();
    assert!(!interrupt.ready());
}

#[test]
fn shift_register_takes_five_writes() {
    let mut reg = ShiftReg::new();
    assert_eq!(reg.push(1), None);
    assert_eq!(reg.push(0), None);
    assert_eq!(reg.push(1), None);
    assert_eq!(reg.push(1), None);
    assert_eq!(reg.push(0), Some(0b01101));
    assert_eq!(reg.push(1), None);
    assert_eq!(reg.push(0x80), None);
    assert_eq!(reg.push(0), None);
    assert_eq!(reg.push(0), None);
    assert_eq!(reg.push(0), None);
    assert_eq!(reg.push(0), None);
    assert_eq!(reg.push(1), Some(0b10000));
}

#[test]
fn hex_formats_with_padding() {
    assert_eq!(hex(255, 2), "FF");
    assert_eq!(hex(10, 2), "0A");
    assert_eq!(hex(0, 4), "0000");
    assert_eq!(hex(0x1234, 4), "1234");
    assert_eq!(hex(0x12345, 4), "12345");
    assert_eq!(hex(0xABC, 2), "ABC");
}

#[test]
fn opcode_mnemonics() {
    assert_eq!(OpCode6502::Lda.to_string(), "lda");
    assert_eq!(OpCode6502::Xxx.to_string(), "xxx");
}

#[test]
fn envelope_volume_stays_in_four_bits() {
    let mut envelope = Envelope::new();
    envelope.write_reg(0x1F);
    assert_eq!(envelope.get_volume_level(), 15);
    envelope.write_reg(0x00);
    envelope.start();
    envelope.step();
    assert!(envelope.get_volume_level() <= 15);
}

#[test]
fn sequencer_wraps_around_its_steps() {
    let mut sequencer = Sequencer::new(8);
    for _ in 0..8 {
        assert!(sequencer.step(true));
        assert!(sequencer.current_step < 8);
    }
    assert_eq!(sequencer.current_step, 0);
}

#[test]
fn ppu_frame_timing() {
    let mut registers = Registers::new(Cartridge::mock_cartridge());
    let mut ppu = Ppu::new();
    let mut render_at = None;
    let mut nmi_at = None;
    registers.cpu_write_reg(0x2000, 0x80);
    registers.force_nmi = false;
    for i in 0..(341 * 262) {
        match ppu.tick(&mut registers) {
            PpuState::Render => render_at = Some(i),
            PpuState::NonMaskableInterrupt => {
                if nmi_at.is_none() {
                    nmi_at = Some(i)
                }
            }
            _ => (),
        }
    }
    assert_eq!(render_at, Some(341 * 240));
    assert_eq!(nmi_at, Some(341 * 241 + 1));
    assert!(ppu.is_frame_ready);
    assert!(ppu.nmi);
    assert_eq!(ppu.scan_line, 0);
    assert_eq!(ppu.cycles, 0);
    assert!(!ppu.is_even_frame);
    // The pre-render line clears the vertical blank flag.
    assert!(!registers.status_flags.vertical_blank());
}

#[test]
fn ppu_reset_starts_an_even_frame() {
    let mut registers = Registers::new(Cartridge::mock_cartridge());
    let mut ppu = Ppu::new();
    for _ in 0..1000 {
        ppu.tick(&mut registers);
    }
    ppu.reset(&mut registers);
    assert_eq!(ppu.cycles, 0);
    assert_eq!(ppu.scan_line, 0);
    assert!(ppu.is_even_frame);
    assert!(!ppu.is_frame_ready);
}

#[test]
fn ppu_draws_backdrop_colour() {
    let mut registers = Registers::new(Cartridge::mock_cartridge());
    let mut ppu = Ppu::new();
    // Backdrop colour 0x21, background shown.
    registers.ppu_write_reg(0x3F00, 0x21);
    registers.cpu_write_reg(0x2001, 0x08);
    for _ in 0..341 {
        ppu.tick(&mut registers);
    }
    // Line 0, column 5 is stored in the bottom row of the buffer.
    assert_eq!(ppu.off_screen_pixels[239 * 256 + 5], [76, 154, 236]);
}

#[test]
fn nes_console_runs_cycles() {
    let mut nes = Nes::new(Cartridge::mock_cartridge());
    // NOP; NOP; NOP
    for i in 0..3 {
        nes.cpu.bus.ram[i] = 0xEA;
    }
    let (state, action) = nes.clock();
    assert_eq!(state, PpuState::NoOp);
    assert_eq!(action, ApuAction::Step(0));
    assert_eq!(nes.cpu.pc, 1);
    let (_, action) = nes.clock();
    assert_eq!(action, ApuAction::Idle);
    let (_, action) = nes.clock();
    assert_eq!(action, ApuAction::Idle);
    let (_, action) = nes.clock();
    assert_eq!(action, ApuAction::Step(3));
    assert_eq!(nes.cpu.pc, 2);
    assert_eq!(nes.system_cycles, 4);
    assert_eq!(nes.ppu.cycles, 4);
}

#[test]
fn nes_oam_dma_stalls_the_cpu() {
    let mut nes = Nes::new(Cartridge::mock_cartridge());
    for i in 0..256 {
        nes.cpu.bus.ram[0x0200 + i] = i as u8;
    }
    nes.cpu.bus.write_u8(0x4014, 0x02, 0);
    assert!(nes.cpu.bus.dma_transfer);
    let (_, action) = nes.clock();
    assert_eq!(action, ApuAction::Flush);
    assert!(!nes.cpu.bus.dma_transfer);
    assert_eq!(nes.system_cycles, 514);
    assert_eq!(nes.cpu.bus.registers.oam_ram[7], 7);
    assert_eq!(nes.cpu.bus.registers.oam_ram[255], 255);
}

#[test]
fn ppu_flags_sprite_overflow() {
    let mut registers = Registers::new(Cartridge::mock_cartridge());
    let mut ppu = Ppu::new();
    // Nine sprites on line 5.
    for i in 0..9 {
        registers.oam_ram[i * 4] = 5;
        registers.oam_ram[i * 4 + 3] = (i * 8) as u8;
    }
    // All other entries below the picture.
    for i in 9..64 {
        registers.oam_ram[i * 4] = 0xFF;
    }
    registers.cpu_write_reg(0x2001, 0x10);
    for _ in 0..(5 * 341 + 257) {
        ppu.tick(&mut registers);
    }
    assert!(!registers.status_flags.sprite_overflow());
    ppu.tick(&mut registers);
    assert!(registers.status_flags.sprite_overflow());
    assert_eq!(ppu.secondary_oam.len(), 8);
    assert_eq!(ppu.secondary_oam[0].oam_index, 0);
    assert_eq!(ppu.secondary_oam[7].x, 56);
}


#[test]
fn work_ram_write_then_read() {
    let mut cartridge = Cartridge::new(&ines(1, 1, 0, 0)).unwrap();
    assert_eq!(cartridge.read_cpu(0x6123), 0);
    cartridge.write_cpu(0x6123, 0x99);
    assert_eq!(cartridge.read_cpu(0x6123), 0x99);
    let mut mmc3 = Cartridge::new(&ines(2, 1, 0x40, 0)).unwrap();
    mmc3.write_cpu(0x7FFF, 0x11);
    assert_eq!(mmc3.read_cpu(0x7FFF), 0x11);
}

#[test]
fn ppudata_write_then_read_back() {
    let mut registers = Registers::new(Cartridge::mock_cartridge());
    registers.cpu_write_reg(0x2006, 0x21);
    registers.cpu_write_reg(0x2006, 0x08);
    registers.cpu_write_reg(0x2007, 0x5C);
    assert_eq!(registers.vram_addr.0, 0x2109);
    registers.cpu_write_reg(0x2006, 0x21);
    registers.cpu_write_reg(0x2006, 0x08);
    assert_eq!(registers.cpu_read_reg(0x2007), 0x5C);
    assert_eq!(registers.vram_addr.0, 0x2109);
}

#[test]
fn uxrom_switches_the_low_bank() {
    let bytes = ines(4, 0, 0x20, 0);
    let mut cartridge = Cartridge::new(&bytes).unwrap();
    assert_eq!(cartridge.read_cpu(0x8005), bytes[16 + 5]);
    cartridge.write_cpu(0x8000, 2);
    assert_eq!(cartridge.read_cpu(0x8005), bytes[16 + 2 * 0x4000 + 5]);
    assert_eq!(cartridge.read_cpu(0xC005), bytes[16 + 3 * 0x4000 + 5]);
}

#[test]
fn mmc3_raises_irq_after_counted_lines() {
    let mut cartridge = Cartridge::new(&ines(2, 1, 0x40, 0)).unwrap();
    cartridge.write_cpu(0xC000, 3);
    cartridge.write_cpu(0xC001, 0);
    cartridge.write_cpu(0xE001, 0);
    for _ in 0..3 {
        cartridge.signal_scanline();
        assert!(!cartridge.irq_flag());
    }
    cartridge.signal_scanline();
    assert!(cartridge.irq_flag());
    cartridge.clear_irq_flag();
    assert!(!cartridge.irq_flag());
}

#[test]
fn titled_rom_is_loaded() {
    let mut bytes = ines(1, 0, 0x08 | 0x01 | 0x30, 0x20);
    bytes[8] = 2;
    bytes[10] = 0x11;
    bytes.extend_from_slice(b"Zelda\xFF");
    let rom = TitledRom::read_from_file(&bytes);
    assert_eq!(rom.title, "Zelda\u{FFFD}");
    assert_eq!(rom.rom_header.mapper, 0x23);
    assert_eq!(rom.rom_header.tv_system, TVSystem::PAL);
    assert_eq!(rom.rom_header.mirroring, HeaderMirroring::FourSreenVram);
    assert_eq!(rom.rom_header.prg_ram_len, 0x4000);
    assert_eq!(rom.rom_header.chr_ram_len, 0x2000);
    assert_eq!(rom.prg_rom.len(), 0x4000);
    assert_eq!(rom.prg_rom[7], bytes[16 + 7]);
    assert_eq!(rom.chr_rom.len(), 0);

    let plain = TitledRom::read_from_file(&ines(1, 1, 0, 0));
    assert_eq!(plain.title, "");
    assert_eq!(plain.rom_header.tv_system, TVSystem::NTSC);
    assert_eq!(plain.rom_header.prg_ram_len, 0);
    assert_eq!(plain.rom_header.mirroring, HeaderMirroring::Horizontal);
}

#[test]
fn program_window_starts_at_byte_ten() {
    let short: Vec<u8> = (0..20u8).collect();
    assert_eq!(ProgramRom::read_from_file(&short).rom, (10..20u8).collect::<Vec<u8>>());
    let long: Vec<u8> = (0..0x5000usize).map(|i| (i % 256) as u8).collect();
    let rom = ProgramRom::read_from_file(&long);
    assert_eq!(rom.rom.len(), 0x4000);
    assert_eq!(rom.rom[0], 10);
    assert!(ProgramRom::read_from_file(&[1, 2, 3]).rom.is_empty());
}

#[test]
fn subroutine_call_returns_after_the_call() {
    let mut cpu = init_cpu();
    // JSR $0010 ... RTS at $0010
    cpu.bus.ram[0] = 0x20;
    cpu.bus.ram[1] = 0x10;
    cpu.bus.ram[2] = 0x00;
    cpu.bus.ram[0x10] = 0x60;
    let sp = cpu.stack_pointer;
    cpu.clock(0);
    assert_eq!(cpu.pc, 0x0010);
    assert_eq!(cpu.stack_pointer, sp.wrapping_sub(2));
    cpu.clock(0);
    assert_eq!(cpu.pc, 0x0003);
    assert_eq!(cpu.stack_pointer, sp);
}

#[test]
fn interrupt_then_rti_resumes_the_program() {
    let mut cpu = init_cpu();
    // The mock cartridge's vectors are zero: the handler at $0000 is a single RTI.
    cpu.bus.ram[0] = 0x40;
    cpu.pc = 0x0123;
    cpu.status_register = 0x01;
    cpu.stack_pointer = 0xFD;
    cpu.nmi();
    assert_eq!(cpu.pc, 0x0000);
    assert_eq!(cpu.stack_pointer, 0xFA);
    cpu.clock(0);
    assert_eq!(cpu.pc, 0x0123);
    assert_eq!(cpu.stack_pointer, 0xFD);
    assert_eq!(cpu.status_register, 0x05);
}

#[test]
fn ppu_scrolls_across_name_tables() {
    let mut registers = Registers::new(Cartridge::mock_cartridge());
    let mut ppu = Ppu::new();
    registers.cpu_write_reg(0x2001, 0x08);
    registers.vram_addr.0 = 0x001F;
    for _ in 0..9 {
        ppu.tick(&mut registers);
    }
    // Coarse X wrapped from 31 to 0 into the horizontally adjacent table.
    assert_eq!(registers.vram_addr.0, 0x0400);

    let mut registers = Registers::new(Cartridge::mock_cartridge());
    let mut ppu = Ppu::new();
    registers.cpu_write_reg(0x2001, 0x08);
    // Fine Y 7, coarse Y 29.
    registers.vram_addr.0 = 0x73A0;
    for _ in 0..258 {
        ppu.tick(&mut registers);
    }
    // Row 29 wrapped to row 0 of the vertically adjacent table; X reloaded from the temporary address.
    assert_eq!(registers.vram_addr.0, 0x0800);
}

#[test]
fn instruction_names_match_their_debug_text() {
    let table = LookUpTable::new();
    for i in 0..256usize {
        assert_eq!(table.get_name(i), format!("{:?}", table.instructions[i]));
    }
    assert_eq!(
        table.get_name(0xA9),
        "Instruction6502 { operate: Lda, addr_mode: Imm, cycles: 2, extra_cycles: 0 }"
    );
}

#[test]
fn disabled_sequencer_with_no_steps_only_counts() {
    let mut s = Sequencer { frame_counter: 2, period: 9, steps: 0, current_step: 5 };
    assert!(!s.step(false));
    assert_eq!(s, Sequencer { frame_counter: 1, period: 9, steps: 0, current_step: 5 });
    assert!(!s.step(false));
    assert!(s.step(false));
    assert_eq!(s, Sequencer { frame_counter: 9, period: 9, steps: 0, current_step: 5 });
}

#[test]
fn sweep_raises_the_period_and_keeps_it_in_range() {
    let mut sweep = Sweep::new(Mode::TwosComplement);
    // Enabled, divider period 0, no negation, shift 1.
    sweep.write_reg(0x81);
    let mut seq = Sequencer { frame_counter: 0, period: 0x100, steps: 8, current_step: 3 };
    sweep.step(&mut seq);
    assert_eq!(seq.period, 0x180);
    assert_eq!(seq.frame_counter, 0x180);
    assert_eq!(seq.current_step, 3);
    // A target of 0x800 or more leaves the period alone.
    let mut high = Sequencer { frame_counter: 4, period: 0x600, steps: 8, current_step: 0 };
    sweep.step(&mut high);
    assert_eq!(high, Sequencer { frame_counter: 4, period: 0x600, steps: 8, current_step: 0 });
}

#[test]
fn pulse_sample_stays_in_four_bits() {
    let mut pulse = Pulse::new(Mode::OnesComplement);
    pulse.set_enabled(true);
    // Duty 2, constant volume 15.
    pulse.pulse_write_reg_u8(0x4000, 0xBF);
    pulse.pulse_write_reg_u8(0x4002, 0x40);
    pulse.pulse_write_reg_u8(0x4003, 0x08);
    pulse.update_length_counter();
    let mut seen_loud = false;
    for _ in 0..16 {
        let s = pulse.sample();
        assert!(s <= 15);
        seen_loud |= s == 15;
        pulse.step_sequencer();
    }
    assert!(seen_loud);
}

#[test]
fn palette_entries_are_mirrored() {
    let mut regs = Registers::new(Cartridge::mock_cartridge());
    regs.ppu_write_reg(0x3F00, 0x21);
    assert_eq!(regs.ppu_read_reg(0x3F10), 0x21);
    assert_eq!(regs.ppu_read_reg(0x3F20), 0x21);
    regs.ppu_write_reg(0x3F14, 0x05);
    assert_eq!(regs.ppu_read_reg(0x3F04), 0x05);
    regs.ppu_write_reg(0x3F21, 0x7F);
    assert_eq!(regs.ppu_read_reg(0x3F01), 0x3F);
    assert_eq!(regs.palette_table[1], 0x7F);
}

#[test]
fn nametables_are_mirrored_horizontally() {
    let mut regs = Registers::new(Cartridge::mock_cartridge());
    regs.ppu_write_reg(0x2005, 0x42);
    assert_eq!(regs.ppu_read_reg(0x2405), 0x42);
    assert_eq!(regs.ppu_read_reg(0x3005), 0x42);
    assert_eq!(regs.ppu_read_reg(0x2805), 0x00);
}

#[test]
fn registers_reset_twice_is_reset_once() {
    let mut regs = Registers::new(Cartridge::mock_cartridge());
    regs.ppu_write_reg(0x3F03, 0x11);
    regs.ppu_write_reg(0x2100, 0x22);
    regs.reset();
    let once = regs.ppu_read_reg(0x3F03) as u32 + regs.ppu_read_reg(0x2100) as u32;
    assert_eq!(once, 0);
    let palette = regs.palette_table.clone();
    regs.reset();
    assert_eq!(regs.palette_table, palette);
    assert_eq!(regs.ppu_read_reg(0x2100), 0);
}

#[test]
fn pager_tells_which_pages_it_holds() {
    let pager = Pager::new(vec![0u8; 0x8000]);
    assert!(pager.accessible(Page::First(PageSize::SixteenKb), 0x3FFF));
    assert!(pager.accessible(Page::FromNth(1, PageSize::SixteenKb), 0));
    assert!(!pager.accessible(Page::FromNth(2, PageSize::SixteenKb), 0));
    assert!(!pager.accessible(Page::Last(PageSize::SixteenKb), 0x4000));
    assert!(pager.accessible(Page::FromEnd(3, PageSize::EightKb), 0x10));
    assert!(!pager.accessible(Page::FromEnd(4, PageSize::EightKb), 0x10));
    assert!(!Pager::new(vec![0u8; 0x3000]).accessible(Page::First(PageSize::EightKb), 0));
}

#[test]
fn reset_vector_is_checked_before_reset() {
    let cartridge = Cartridge::mock_cartridge();
    assert!(cartridge.cpu_readable(0xFFFC));
    assert!(cartridge.cpu_readable(0x6000));
    assert!(!cartridge.cpu_readable(0x5000));
    let mut nes = Nes::new(cartridge);
    assert!(nes.reset_vector_readable());
    nes.reset();
    assert_eq!(nes.system_cycles, 0);
}
