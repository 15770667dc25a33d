use nes_emulator::bus::Bus;
use nes_emulator::cartridge::Cartridge;
use nes_emulator::cpu::Cpu;
use nes_emulator::cpu::instruction_table::AddrMode6502;
use nes_emulator::cpu::instruction_table::AddrMode6502::{Abs, Abx, Aby, Imm, Imp, Ind, Izx, Izy, Rel, Zpo, Zpx, Zpy};
use nes_emulator::nes::controller::Controller;
use nes_emulator::ppu::registers::Registers;

fn init_cpu() -> Cpu {
    let cartridge = Cartridge::mock_cartridge();
    let registers = Registers::new(cartridge);
    let bus = Bus::new(registers, Controller::new());
    Cpu::new(bus)
}

fn build_cpu_and_memory(bytes: &[u8]) -> Cpu {
    let mut cpu = init_cpu();
    for (idx, &b) in bytes.iter().enumerate() {
        cpu.bus.ram[idx] = b;
    }
    cpu
}

/// Runs one instruction of `name` in addressing mode `mode`, whose operand bytes are
/// `bytes`, after `setup` has set the registers; checks the flags it may not touch, its
/// size and its duration.
fn run_op(name: &str, mode: AddrMode6502, bytes: &[u8], setup: &dyn Fn(&mut Cpu)) -> Cpu {
    let op = opcode(name, mode);
    let mut mem = bytes.to_vec();
    mem.insert(0, op.code);
    let mut cpu = build_cpu_and_memory(&mem);
    let start_pc = cpu.pc;
    let start_cycles = cpu.cycle;
    let start_p = cpu.status_register;
    setup(&mut cpu);
    cpu.clock(0);
    assert!(0 == cpu.status_register & start_p & !op.mask, "Register mask not respected. P: 0b{:b}", cpu.status_register);
    if op.size > 0 {
        assert!(op.size == (cpu.pc - start_pc), "Invalid instruction size. Expected: {} bytes, Got: {}", op.size, cpu.pc - start_pc);
    }
    if op.cycles > 0 {
        assert!(op.cycles == (cpu.cycle - start_cycles), "Invalid instruction duration. Expected: {} cycles, Got: {}", op.cycles, cpu.cycle - start_cycles);
    }
    cpu
}

/// Checks that memory starts with the instruction's code followed by `bytes`.
fn check_ram(cpu: &Cpu, name: &str, mode: AddrMode6502, bytes: &[u8]) {
    let op = opcode(name, mode);
    let mut mem = bytes.to_vec();
    mem.insert(0, op.code);
    for (i, &b) in mem.iter().enumerate() {
        assert!(cpu.bus.ram[i] == b, "Incorrect Memory. Expected ram[{}] to be {}, got 0x{:04X}", i, b, cpu.bus.ram[i]);
    }
}

#[test]
fn test_lda() {
    {
        let cpu = run_op("lda", Imm, &[0x00], &|cpu: &mut Cpu| {  });
        assert!(cpu.acc == 0x00, "Incorrect Register. Expected cpu.acc to be 0x00, got {:#010b}", cpu.acc);
        assert!(cpu.status_register == 0b00000010, "Incorrect Register. Expected cpu.status_register to be 0b00000010, got {:#010b}", cpu.status_register);
        check_ram(&cpu, "lda", Imm, &[]);
    }
    {
        let cpu = run_op("lda", Imm, &[0xFF], &|cpu: &mut Cpu| {  });
        assert!(cpu.acc == 0xFF, "Incorrect Register. Expected cpu.acc to be 0xFF, got {:#010b}", cpu.acc);
        assert!(cpu.status_register == 0b10000000, "Incorrect Register. Expected cpu.status_register to be 0b10000000, got {:#010b}", cpu.status_register);
        check_ram(&cpu, "lda", Imm, &[]);
    }
    {
        let cpu = run_op("lda", Imm, &[0x20], &|cpu: &mut Cpu| {  });
        assert!(cpu.acc == 0x20, "Incorrect Register. Expected cpu.acc to be 0x20, got {:#010b}", cpu.acc);
        assert!(cpu.status_register == 0, "Incorrect Register. Expected cpu.status_register to be 0, got {:#010b}", cpu.status_register);
        check_ram(&cpu, "lda", Imm, &[]);
    }
    {
        let cpu = run_op("lda", Zpo, &[0x02, 0x90], &|cpu: &mut Cpu| {  });
        assert!(cpu.acc == 0x90, "Incorrect Register. Expected cpu.acc to be 0x90, got {:#010b}", cpu.acc);
        check_ram(&cpu, "lda", Zpo, &[]);
    }
    {
        let cpu = run_op("lda", Zpx, &[0x02, 0, 0x90], &|cpu: &mut Cpu| { cpu.x = 1; });
        assert!(cpu.acc == 0x90, "Incorrect Register. Expected cpu.acc to be 0x90, got {:#010b}", cpu.acc);
        check_ram(&cpu, "lda", Zpx, &[]);
    }
    {
        let cpu = run_op("lda", Abs, &[0x04, 0, 0, 0x90], &|cpu: &mut Cpu| { cpu.x = 1; });
        assert!(cpu.acc == 0x90, "Incorrect Register. Expected cpu.acc to be 0x90, got {:#010b}", cpu.acc);
        check_ram(&cpu, "lda", Abs, &[]);
    }
    {
        let cpu = run_op("lda", Abx, &[0x03, 0, 0, 0x90], &|cpu: &mut Cpu| { cpu.x = 1; });
        assert!(cpu.acc == 0x90, "Incorrect Register. Expected cpu.acc to be 0x90, got {:#010b}", cpu.acc);
        check_ram(&cpu, "lda", Abx, &[]);
    }
    {
        let cpu = run_op("lda", Aby, &[0x03, 0, 0, 0x90], &|cpu: &mut Cpu| { cpu.y = 1; });
        assert!(cpu.acc == 0x90, "Incorrect Register. Expected cpu.acc to be 0x90, got {:#010b}", cpu.acc);
        check_ram(&cpu, "lda", Aby, &[]);
    }
    {
        let cpu = run_op("lda", Izx, &[0x02, 0, 0x05, 0, 0x90], &|cpu: &mut Cpu| { cpu.x = 1; });
        assert!(cpu.acc == 0x90, "Incorrect Register. Expected cpu.acc to be 0x90, got {:#010b}", cpu.acc);
        check_ram(&cpu, "lda", Izx, &[]);
    }
    {
        let cpu = run_op("lda", Izy, &[0x02, 0x04, 0, 0, 0x90], &|cpu: &mut Cpu| { cpu.y = 1; });
        assert!(cpu.acc == 0x90, "Incorrect Register. Expected cpu.acc to be 0x90, got {:#010b}", cpu.acc);
        check_ram(&cpu, "lda", Izy, &[]);
    }
}

#[test]
fn test_ldx() {
    {
        let cpu = run_op("ldx", Imm, &[0x00], &|cpu: &mut Cpu| {  });
        assert!(cpu.x == 0x00, "Incorrect Register. Expected cpu.x to be 0x00, got {:#010b}", cpu.x);
        assert!(cpu.status_register == 0b00000010, "Incorrect Register. Expected cpu.status_register to be 0b00000010, got {:#010b}", cpu.status_register);
        check_ram(&cpu, "ldx", Imm, &[]);
    }
    {
        let cpu = run_op("ldx", Imm, &[0xFF], &|cpu: &mut Cpu| {  });
        assert!(cpu.x == 0xFF, "Incorrect Register. Expected cpu.x to be 0xFF, got {:#010b}", cpu.x);
        assert!(cpu.status_register == 0b10000000, "Incorrect Register. Expected cpu.status_register to be 0b10000000, got {:#010b}", cpu.status_register);
        check_ram(&cpu, "ldx", Imm, &[]);
    }
    {
        let cpu = run_op("ldx", Imm, &[0x20], &|cpu: &mut Cpu| {  });
        assert!(cpu.x == 0x20, "Incorrect Register. Expected cpu.x to be 0x20, got {:#010b}", cpu.x);
        assert!(cpu.status_register == 0, "Incorrect Register. Expected cpu.status_register to be 0, got {:#010b}", cpu.status_register);
        check_ram(&cpu, "ldx", Imm, &[]);
    }
    {
        let cpu = run_op("ldx", Zpo, &[0x02, 0x90], &|cpu: &mut Cpu| {  });
        assert!(cpu.x == 0x90, "Incorrect Register. Expected cpu.x to be 0x90, got {:#010b}", cpu.x);
        check_ram(&cpu, "ldx", Zpo, &[]);
    }
    {
        let cpu = run_op("ldx", Zpy, &[0x02, 0, 0x90], &|cpu: &mut Cpu| { cpu.y = 1; });
        assert!(cpu.x == 0x90, "Incorrect Register. Expected cpu.x to be 0x90, got {:#010b}", cpu.x);
        check_ram(&cpu, "ldx", Zpy, &[]);
    }
    {
        let cpu = run_op("ldx", Abs, &[0x04, 0, 0, 0x90], &|cpu: &mut Cpu| {  });
        assert!(cpu.x == 0x90, "Incorrect Register. Expected cpu.x to be 0x90, got {:#010b}", cpu.x);
        check_ram(&cpu, "ldx", Abs, &[]);
    }
    {
        let cpu = run_op("ldx", Aby, &[0x03, 0, 0, 0x90], &|cpu: &mut Cpu| { cpu.y = 1; });
        assert!(cpu.x == 0x90, "Incorrect Register. Expected cpu.x to be 0x90, got {:#010b}", cpu.x);
        check_ram(&cpu, "ldx", Aby, &[]);
    }
}

#[test]
fn test_ldy() {
    {
        let cpu = run_op("ldy", Imm, &[0x00], &|cpu: &mut Cpu| {  });
        assert!(cpu.y == 0x00, "Incorrect Register. Expected cpu.y to be 0x00, got {:#010b}", cpu.y);
        assert!(cpu.status_register == 0b00000010, "Incorrect Register. Expected cpu.status_register to be 0b00000010, got {:#010b}", cpu.status_register);
        check_ram(&cpu, "ldy", Imm, &[]);
    }
    {
        let cpu = run_op("ldy", Imm, &[0xFF], &|cpu: &mut Cpu| {  });
        assert!(cpu.y == 0xFF, "Incorrect Register. Expected cpu.y to be 0xFF, got {:#010b}", cpu.y);
        assert!(cpu.status_register == 0b10000000, "Incorrect Register. Expected cpu.status_register to be 0b10000000, got {:#010b}", cpu.status_register);
        check_ram(&cpu, "ldy", Imm, &[]);
    }
    {
        let cpu = run_op("ldy", Imm, &[0x20], &|cpu: &mut Cpu| {  });
        assert!(cpu.y == 0x20, "Incorrect Register. Expected cpu.y to be 0x20, got {:#010b}", cpu.y);
        assert!(cpu.status_register == 0, "Incorrect Register. Expected cpu.status_register to be 0, got {:#010b}", cpu.status_register);
        check_ram(&cpu, "ldy", Imm, &[]);
    }
    {
        let cpu = run_op("ldy", Zpo, &[0x02, 0x90], &|cpu: &mut Cpu| {  });
        assert!(cpu.y == 0x90, "Incorrect Register. Expected cpu.y to be 0x90, got {:#010b}", cpu.y);
        check_ram(&cpu, "ldy", Zpo, &[]);
    }
    {
        let cpu = run_op("ldy", Zpx, &[0x02, 0, 0x90], &|cpu: &mut Cpu| { cpu.x = 1; });
        assert!(cpu.y == 0x90, "Incorrect Register. Expected cpu.y to be 0x90, got {:#010b}", cpu.y);
        check_ram(&cpu, "ldy", Zpx, &[]);
    }
    {
        let cpu = run_op("ldy", Abs, &[0x04, 0, 0, 0x90], &|cpu: &mut Cpu| { cpu.x = 1; });
        assert!(cpu.y == 0x90, "Incorrect Register. Expected cpu.y to be 0x90, got {:#010b}", cpu.y);
        check_ram(&cpu, "ldy", Abs, &[]);
    }
    {
        let cpu = run_op("ldy", Abx, &[0x03, 0, 0, 0x90], &|cpu: &mut Cpu| { cpu.x = 1; });
        assert!(cpu.y == 0x90, "Incorrect Register. Expected cpu.y to be 0x90, got {:#010b}", cpu.y);
        check_ram(&cpu, "ldy", Abx, &[]);
    }
}

#[test]
fn test_sta() {
    {
        let cpu = run_op("sta", Zpo, &[0x02], &|cpu: &mut Cpu| { cpu.acc = 0x66; });
        check_ram(&cpu, "sta", Zpo, &[0x02, 0x66]);
    }
    {
        let cpu = run_op("sta", Zpx, &[0x02], &|cpu: &mut Cpu| { cpu.acc = 0x66; cpu.x = 1; });
        check_ram(&cpu, "sta", Zpx, &[0x02, 0, 0x66]);
    }
    {
        let cpu = run_op("sta", Abs, &[0x04, 0], &|cpu: &mut Cpu| { cpu.acc = 0x66; });
        check_ram(&cpu, "sta", Abs, &[0x04, 0, 0, 0x66]);
    }
    {
        let cpu = run_op("sta", Abx, &[0x03, 0], &|cpu: &mut Cpu| { cpu.acc = 0x66; cpu.x = 1; });
        check_ram(&cpu, "sta", Abx, &[0x03, 0, 0, 0x66]);
    }
    {
        let cpu = run_op("sta", Aby, &[0x03, 0], &|cpu: &mut Cpu| { cpu.acc = 0x66; cpu.y = 1; });
        check_ram(&cpu, "sta", Aby, &[0x03, 0, 0, 0x66]);
    }
    {
        let cpu = run_op("sta", Izx, &[0x02, 0, 0x05, 0, 0], &|cpu: &mut Cpu| { cpu.acc = 0x66; cpu.x = 1; });
        check_ram(&cpu, "sta", Izx, &[0x02, 0, 0x05, 0, 0x66]);
    }
    {
        let cpu = run_op("sta", Izy, &[0x02, 0x04, 0, 0, 0], &|cpu: &mut Cpu| { cpu.acc = 0x66; cpu.y = 1; });
        check_ram(&cpu, "sta", Izy, &[0x02, 0x04, 0, 0, 0x66]);
    }
}

#[test]
fn test_stx() {
    {
        let cpu = run_op("stx", Zpo, &[0x02], &|cpu: &mut Cpu| { cpu.x = 0x66; });
        check_ram(&cpu, "stx", Zpo, &[0x02, 0x66]);
    }
    {
        let cpu = run_op("stx", Zpy, &[0x02], &|cpu: &mut Cpu| { cpu.x = 0x66; cpu.y = 1; });
        check_ram(&cpu, "stx", Zpy, &[0x02, 0, 0x66]);
    }
    {
        let cpu = run_op("stx", Abs, &[0x04, 0], &|cpu: &mut Cpu| { cpu.x = 0x66; });
        check_ram(&cpu, "stx", Abs, &[0x04, 0, 0, 0x66]);
    }
}

#[test]
fn test_sty() {
    {
        let cpu = run_op("sty", Zpo, &[0x02], &|cpu: &mut Cpu| { cpu.y = 0x66; });
        check_ram(&cpu, "sty", Zpo, &[0x02, 0x66]);
    }
    {
        let cpu = run_op("sty", Zpx, &[0x02], &|cpu: &mut Cpu| { cpu.y = 0x66; cpu.x = 1; });
        check_ram(&cpu, "sty", Zpx, &[0x02, 0, 0x66]);
    }
    {
        let cpu = run_op("sty", Abs, &[0x04, 0], &|cpu: &mut Cpu| { cpu.y = 0x66; });
        check_ram(&cpu, "sty", Abs, &[0x04, 0, 0, 0x66]);
    }
}

#[test]
fn test_adc() {
    {
        let cpu = run_op("adc", Imm, &[3], &|cpu: &mut Cpu| { cpu.acc = 2; cpu.status_register = 1; });
        assert!(cpu.acc == 6, "Incorrect Register. Expected cpu.acc to be 6, got {:#010b}", cpu.acc);
        check_ram(&cpu, "adc", Imm, &[]);
    }
    {
        let cpu = run_op("adc", Imm, &[255], &|cpu: &mut Cpu| { cpu.acc = 1; cpu.status_register = 0; });
        assert!(cpu.acc == 0, "Incorrect Register. Expected cpu.acc to be 0, got {:#010b}", cpu.acc);
        assert!(cpu.status_register == 0b00000011, "Incorrect Register. Expected cpu.status_register to be 0b00000011, got {:#010b}", cpu.status_register);
        check_ram(&cpu, "adc", Imm, &[]);
    }
    {
        let cpu = run_op("adc", Imm, &[127], &|cpu: &mut Cpu| { cpu.acc = 1; cpu.status_register = 0; });
        assert!(cpu.acc == 128, "Incorrect Register. Expected cpu.acc to be 128, got {:#010b}", cpu.acc);
        assert!(cpu.status_register == 0b11000000, "Incorrect Register. Expected cpu.status_register to be 0b11000000, got {:#010b}", cpu.status_register);
        check_ram(&cpu, "adc", Imm, &[]);
    }
    {
        let cpu = run_op("adc", Imm, &[200], &|cpu: &mut Cpu| { cpu.acc = 100; });
        assert!(cpu.acc == 44, "Incorrect Register. Expected cpu.acc to be 44, got {:#010b}", cpu.acc);
        check_ram(&cpu, "adc", Imm, &[]);
    }
    {
        let cpu = run_op("adc", Zpo, &[0x02, 0x90], &|cpu: &mut Cpu| { cpu.acc = 1; });
        assert!(cpu.acc == 0x91, "Incorrect Register. Expected cpu.acc to be 0x91, got {:#010b}", cpu.acc);
        check_ram(&cpu, "adc", Zpo, &[]);
    }
    {
        let cpu = run_op("adc", Zpx, &[0x02, 0, 0x90], &|cpu: &mut Cpu| { cpu.x = 1; cpu.acc = 1; });
        assert!(cpu.acc == 0x91, "Incorrect Register. Expected cpu.acc to be 0x91, got {:#010b}", cpu.acc);
        check_ram(&cpu, "adc", Zpx, &[]);
    }
    {
        let cpu = run_op("adc", Abs, &[0x04, 0, 0, 0x90], &|cpu: &mut Cpu| { cpu.acc = 1; });
        assert!(cpu.acc == 0x91, "Incorrect Register. Expected cpu.acc to be 0x91, got {:#010b}", cpu.acc);
        check_ram(&cpu, "adc", Abs, &[]);
    }
    {
        let cpu = run_op("adc", Abx, &[0x03, 0, 0, 0x90], &|cpu: &mut Cpu| { cpu.x = 1; cpu.acc = 1; });
        assert!(cpu.acc == 0x91, "Incorrect Register. Expected cpu.acc to be 0x91, got {:#010b}", cpu.acc);
        check_ram(&cpu, "adc", Abx, &[]);
    }
    {
        let cpu = run_op("adc", Aby, &[0x03, 0, 0, 0x90], &|cpu: &mut Cpu| { cpu.y = 1; cpu.acc = 1; });
        assert!(cpu.acc == 0x91, "Incorrect Register. Expected cpu.acc to be 0x91, got {:#010b}", cpu.acc);
        check_ram(&cpu, "adc", Aby, &[]);
    }
    {
        let cpu = run_op("adc", Izx, &[0x02, 0, 0x05, 0, 0x90], &|cpu: &mut Cpu| { cpu.x = 1; cpu.acc = 1; });
        assert!(cpu.acc == 0x91, "Incorrect Register. Expected cpu.acc to be 0x91, got {:#010b}", cpu.acc);
        check_ram(&cpu, "adc", Izx, &[]);
    }
    {
        let cpu = run_op("adc", Izy, &[0x02, 0x04, 0, 0, 0x90], &|cpu: &mut Cpu| { cpu.y = 1; cpu.acc = 1; });
        assert!(cpu.acc == 0x91, "Incorrect Register. Expected cpu.acc to be 0x91, got {:#010b}", cpu.acc);
        check_ram(&cpu, "adc", Izy, &[]);
    }
}

#[test]
fn test_sbc() {
    {
        let cpu = run_op("sbc", Imm, &[2], &|cpu: &mut Cpu| { cpu.acc = 10; cpu.status_register = 1; });
        assert!(cpu.acc == 8, "Incorrect Register. Expected cpu.acc to be 8, got {:#010b}", cpu.acc);
        check_ram(&cpu, "sbc", Imm, &[]);
    }
    {
        let cpu = run_op("sbc", Imm, &[2], &|cpu: &mut Cpu| { cpu.acc = 10; cpu.status_register = 0; });
        assert!(cpu.acc == 7, "Incorrect Register. Expected cpu.acc to be 7, got {:#010b}", cpu.acc);
        check_ram(&cpu, "sbc", Imm, &[]);
    }
    {
        let cpu = run_op("sbc", Imm, &[176], &|cpu: &mut Cpu| { cpu.acc = 80; cpu.status_register = 1; });
        assert!(cpu.acc == 160, "Incorrect Register. Expected cpu.acc to be 160, got {:#010b}", cpu.acc);
        assert!(cpu.status_register == 0b11000000, "Incorrect Register. Expected cpu.status_register to be 0b11000000, got {:#010b}", cpu.status_register);
        check_ram(&cpu, "sbc", Imm, &[]);
    }
    {
        let cpu = run_op("sbc", Zpo, &[0x02, 0x90], &|cpu: &mut Cpu| { cpu.acc = 0xFF; cpu.status_register = 1; });
        assert!(cpu.acc == 0x6f, "Incorrect Register. Expected cpu.acc to be 0x6f, got {:#010b}", cpu.acc);
        check_ram(&cpu, "sbc", Zpo, &[]);
    }
    {
        let cpu = run_op("sbc", Zpx, &[0x02, 0, 0x90], &|cpu: &mut Cpu| { cpu.x = 1; cpu.acc = 0xFF; cpu.status_register = 1; });
        assert!(cpu.acc == 0x6f, "Incorrect Register. Expected cpu.acc to be 0x6f, got {:#010b}", cpu.acc);
        check_ram(&cpu, "sbc", Zpx, &[]);
    }
    {
        let cpu = run_op("sbc", Abs, &[0x04, 0, 0, 0x90], &|cpu: &mut Cpu| { cpu.acc = 0xFF; cpu.status_register = 1; });
        assert!(cpu.acc == 0x6f, "Incorrect Register. Expected cpu.acc to be 0x6f, got {:#010b}", cpu.acc);
        check_ram(&cpu, "sbc", Abs, &[]);
    }
    {
        let cpu = run_op("sbc", Abx, &[0x03, 0, 0, 0x90], &|cpu: &mut Cpu| { cpu.x = 1; cpu.acc = 0xFF; cpu.status_register = 1; });
        assert!(cpu.acc == 0x6f, "Incorrect Register. Expected cpu.acc to be 0x6f, got {:#010b}", cpu.acc);
        check_ram(&cpu, "sbc", Abx, &[]);
    }
    {
        let cpu = run_op("sbc", Aby, &[0x03, 0, 0, 0x90], &|cpu: &mut Cpu| { cpu.y = 1; cpu.acc = 0xFF; cpu.status_register = 1; });
        assert!(cpu.acc == 0x6f, "Incorrect Register. Expected cpu.acc to be 0x6f, got {:#010b}", cpu.acc);
        check_ram(&cpu, "sbc", Aby, &[]);
    }
    {
        let cpu = run_op("sbc", Izx, &[0x02, 0, 0x05, 0, 0x90], &|cpu: &mut Cpu| { cpu.x = 1; cpu.acc = 0xFF; cpu.status_register = 1; });
        assert!(cpu.acc == 0x6f, "Incorrect Register. Expected cpu.acc to be 0x6f, got {:#010b}", cpu.acc);
        check_ram(&cpu, "sbc", Izx, &[]);
    }
    {
        let cpu = run_op("sbc", Izy, &[0x02, 0x04, 0, 0, 0x90], &|cpu: &mut Cpu| { cpu.y = 1; cpu.acc = 0xFF; cpu.status_register = 1; });
        assert!(cpu.acc == 0x6f, "Incorrect Register. Expected cpu.acc to be 0x6f, got {:#010b}", cpu.acc);
        check_ram(&cpu, "sbc", Izy, &[]);
    }
}

#[test]
fn test_cmp() {
    {
        let cpu = run_op("cmp", Imm, &[10], &|cpu: &mut Cpu| { cpu.acc = 10; });
        assert!(cpu.status_register == 0b00000011, "Incorrect Register. Expected cpu.status_register to be 0b00000011, got {:#010b}", cpu.status_register);
        check_ram(&cpu, "cmp", Imm, &[]);
    }
    {
        let cpu = run_op("cmp", Imm, &[100], &|cpu: &mut Cpu| { cpu.acc = 10; });
        assert!(cpu.status_register == 0b10000000, "Incorrect Register. Expected cpu.status_register to be 0b10000000, got {:#010b}", cpu.status_register);
        check_ram(&cpu, "cmp", Imm, &[]);
    }
    {
        let cpu = run_op("cmp", Imm, &[10], &|cpu: &mut Cpu| { cpu.acc = 100; });
        assert!(cpu.status_register == 0b00000001, "Incorrect Register. Expected cpu.status_register to be 0b00000001, got {:#010b}", cpu.status_register);
        check_ram(&cpu, "cmp", Imm, &[]);
    }
    {
        let cpu = run_op("cmp", Zpo, &[0x02, 10], &|cpu: &mut Cpu| { cpu.acc = 10; });
        assert!(cpu.status_register == 0b00000011, "Incorrect Register. Expected cpu.status_register to be 0b00000011, got {:#010b}", cpu.status_register);
        check_ram(&cpu, "cmp", Zpo, &[]);
    }
    {
        let cpu = run_op("cmp", Zpx, &[0x02, 0, 10], &|cpu: &mut Cpu| { cpu.x = 1; cpu.acc = 10; });
        assert!(cpu.status_register == 0b00000011, "Incorrect Register. Expected cpu.status_register to be 0b00000011, got {:#010b}", cpu.status_register);
        check_ram(&cpu, "cmp", Zpx, &[]);
    }
    {
        let cpu = run_op("cmp", Abs, &[0x04, 0, 0, 10], &|cpu: &mut Cpu| { cpu.acc = 10; });
        assert!(cpu.status_register == 0b00000011, "Incorrect Register. Expected cpu.status_register to be 0b00000011, got {:#010b}", cpu.status_register);
        check_ram(&cpu, "cmp", Abs, &[]);
    }
    {
        let cpu = run_op("cmp", Abx, &[0x03, 0, 0, 10], &|cpu: &mut Cpu| { cpu.x = 1; cpu.acc = 10; });
        assert!(cpu.status_register == 0b00000011, "Incorrect Register. Expected cpu.status_register to be 0b00000011, got {:#010b}", cpu.status_register);
        check_ram(&cpu, "cmp", Abx, &[]);
    }
    {
        let cpu = run_op("cmp", Aby, &[0x03, 0, 0, 10], &|cpu: &mut Cpu| { cpu.y = 1; cpu.acc = 10; });
        assert!(cpu.status_register == 0b00000011, "Incorrect Register. Expected cpu.status_register to be 0b00000011, got {:#010b}", cpu.status_register);
        check_ram(&cpu, "cmp", Aby, &[]);
    }
    {
        let cpu = run_op("cmp", Izx, &[0x02, 0, 0x05, 0, 10], &|cpu: &mut Cpu| { cpu.x = 1; cpu.acc = 10; });
        assert!(cpu.status_register == 0b00000011, "Incorrect Register. Expected cpu.status_register to be 0b00000011, got {:#010b}", cpu.status_register);
        check_ram(&cpu, "cmp", Izx, &[]);
    }
    {
        let cpu = run_op("cmp", Izy, &[0x02, 0x04, 0, 0, 10], &|cpu: &mut Cpu| { cpu.y = 1; cpu.acc = 10; });
        assert!(cpu.status_register == 0b00000011, "Incorrect Register. Expected cpu.status_register to be 0b00000011, got {:#010b}", cpu.status_register);
        check_ram(&cpu, "cmp", Izy, &[]);
    }
}

#[test]
fn test_cpx() {
    {
        let cpu = run_op("cpx", Imm, &[10], &|cpu: &mut Cpu| { cpu.x = 10; });
        assert!(cpu.status_register == 0b00000011, "Incorrect Register. Expected cpu.status_register to be 0b00000011, got {:#010b}", cpu.status_register);
        check_ram(&cpu, "cpx", Imm, &[]);
    }
    {
        let cpu = run_op("cpx", Imm, &[100], &|cpu: &mut Cpu| { cpu.x = 10; });
        assert!(cpu.status_register == 0b10000000, "Incorrect Register. Expected cpu.status_register to be 0b10000000, got {:#010b}", cpu.status_register);
        check_ram(&cpu, "cpx", Imm, &[]);
    }
    {
        let cpu = run_op("cpx", Imm, &[10], &|cpu: &mut Cpu| { cpu.x = 100; });
        assert!(cpu.status_register == 0b00000001, "Incorrect Register. Expected cpu.status_register to be 0b00000001, got {:#010b}", cpu.status_register);
        check_ram(&cpu, "cpx", Imm, &[]);
    }
    {
        let cpu = run_op("cpx", Zpo, &[0x02, 10], &|cpu: &mut Cpu| { cpu.x = 10; });
        assert!(cpu.status_register == 0b00000011, "Incorrect Register. Expected cpu.status_register to be 0b00000011, got {:#010b}", cpu.status_register);
        check_ram(&cpu, "cpx", Zpo, &[]);
    }
    {
        let cpu = run_op("cpx", Abs, &[0x04, 0, 0, 10], &|cpu: &mut Cpu| { cpu.x = 10; });
        assert!(cpu.status_register == 0b00000011, "Incorrect Register. Expected cpu.status_register to be 0b00000011, got {:#010b}", cpu.status_register);
        check_ram(&cpu, "cpx", Abs, &[]);
    }
}

#[test]
fn test_cpy() {
    {
        let cpu = run_op("cpy", Imm, &[10], &|cpu: &mut Cpu| { cpu.y = 10; });
        assert!(cpu.status_register == 0b00000011, "Incorrect Register. Expected cpu.status_register to be 0b00000011, got {:#010b}", cpu.status_register);
        check_ram(&cpu, "cpy", Imm, &[]);
    }
    {
        let cpu = run_op("cpy", Imm, &[100], &|cpu: &mut Cpu| { cpu.y = 10; });
        assert!(cpu.status_register == 0b10000000, "Incorrect Register. Expected cpu.status_register to be 0b10000000, got {:#010b}", cpu.status_register);
        check_ram(&cpu, "cpy", Imm, &[]);
    }
    {
        let cpu = run_op("cpy", Imm, &[10], &|cpu: &mut Cpu| { cpu.y = 100; });
        assert!(cpu.status_register == 0b00000001, "Incorrect Register. Expected cpu.status_register to be 0b00000001, got {:#010b}", cpu.status_register);
        check_ram(&cpu, "cpy", Imm, &[]);
    }
    {
        let cpu = run_op("cpy", Zpo, &[0x02, 10], &|cpu: &mut Cpu| { cpu.y = 10; });
        assert!(cpu.status_register == 0b00000011, "Incorrect Register. Expected cpu.status_register to be 0b00000011, got {:#010b}", cpu.status_register);
        check_ram(&cpu, "cpy", Zpo, &[]);
    }
    {
        let cpu = run_op("cpy", Abs, &[0x04, 0, 0, 10], &|cpu: &mut Cpu| { cpu.y = 10; });
        assert!(cpu.status_register == 0b00000011, "Incorrect Register. Expected cpu.status_register to be 0b00000011, got {:#010b}", cpu.status_register);
        check_ram(&cpu, "cpy", Abs, &[]);
    }
}

#[test]
fn test_and() {
    {
        let cpu = run_op("and", Imm, &[0b00001111], &|cpu: &mut Cpu| { cpu.acc = 0b01010101; });
        assert!(cpu.acc == 0b00000101, "Incorrect Register. Expected cpu.acc to be 0b00000101, got {:#010b}", cpu.acc);
        assert!(cpu.status_register == 0, "Incorrect Register. Expected cpu.status_register to be 0, got {:#010b}", cpu.status_register);
        check_ram(&cpu, "and", Imm, &[]);
    }
    {
        let cpu = run_op("and", Imm, &[0b10001111], &|cpu: &mut Cpu| { cpu.acc = 0b11010101; });
        assert!(cpu.acc == 0b10000101, "Incorrect Register. Expected cpu.acc to be 0b10000101, got {:#010b}", cpu.acc);
        assert!(cpu.status_register == 0b10000000, "Incorrect Register. Expected cpu.status_register to be 0b10000000, got {:#010b}", cpu.status_register);
        check_ram(&cpu, "and", Imm, &[]);
    }
    {
        let cpu = run_op("and", Imm, &[0], &|cpu: &mut Cpu| { cpu.acc = 0b11010101; });
        assert!(cpu.acc == 0, "Incorrect Register. Expected cpu.acc to be 0, got {:#010b}", cpu.acc);
        assert!(cpu.status_register == 0b00000010, "Incorrect Register. Expected cpu.status_register to be 0b00000010, got {:#010b}", cpu.status_register);
        check_ram(&cpu, "and", Imm, &[]);
    }
    {
        let cpu = run_op("and", Zpo, &[0x02, 0xFF], &|cpu: &mut Cpu| { cpu.acc = 0xF0; });
        assert!(cpu.acc == 0xF0, "Incorrect Register. Expected cpu.acc to be 0xF0, got {:#010b}", cpu.acc);
        check_ram(&cpu, "and", Zpo, &[]);
    }
    {
        let cpu = run_op("and", Zpx, &[0x02, 0, 0xFF], &|cpu: &mut Cpu| { cpu.x = 1; cpu.acc = 0xF0; });
        assert!(cpu.acc == 0xF0, "Incorrect Register. Expected cpu.acc to be 0xF0, got {:#010b}", cpu.acc);
        check_ram(&cpu, "and", Zpx, &[]);
    }
    {
        let cpu = run_op("and", Abs, &[0x04, 0, 0, 0xFF], &|cpu: &mut Cpu| { cpu.acc = 0xF0; });
        assert!(cpu.acc == 0xF0, "Incorrect Register. Expected cpu.acc to be 0xF0, got {:#010b}", cpu.acc);
        check_ram(&cpu, "and", Abs, &[]);
    }
    {
        let cpu = run_op("and", Abx, &[0x03, 0, 0, 0xFF], &|cpu: &mut Cpu| { cpu.x = 1; cpu.acc = 0xF0; });
        assert!(cpu.acc == 0xF0, "Incorrect Register. Expected cpu.acc to be 0xF0, got {:#010b}", cpu.acc);
        check_ram(&cpu, "and", Abx, &[]);
    }
    {
        let cpu = run_op("and", Aby, &[0x03, 0, 0, 0xFF], &|cpu: &mut Cpu| { cpu.y = 1; cpu.acc = 0xF0; });
        assert!(cpu.acc == 0xF0, "Incorrect Register. Expected cpu.acc to be 0xF0, got {:#010b}", cpu.acc);
        check_ram(&cpu, "and", Aby, &[]);
    }
    {
        let cpu = run_op("and", Izx, &[0x02, 0, 0x05, 0, 0xFF], &|cpu: &mut Cpu| { cpu.x = 1; cpu.acc = 0xF0; });
        assert!(cpu.acc == 0xF0, "Incorrect Register. Expected cpu.acc to be 0xF0, got {:#010b}", cpu.acc);
        check_ram(&cpu, "and", Izx, &[]);
    }
    {
        let cpu = run_op("and", Izy, &[0x02, 0x04, 0, 0, 0xFF], &|cpu: &mut Cpu| { cpu.y = 1; cpu.acc = 0xF0; });
        assert!(cpu.acc == 0xF0, "Incorrect Register. Expected cpu.acc to be 0xF0, got {:#010b}", cpu.acc);
        check_ram(&cpu, "and", Izy, &[]);
    }
}

#[test]
fn test_ora() {
    {
        let cpu = run_op("ora", Imm, &[0b00001111], &|cpu: &mut Cpu| { cpu.acc = 0b01010101; });
        assert!(cpu.acc == 0b01011111, "Incorrect Register. Expected cpu.acc to be 0b01011111, got {:#010b}", cpu.acc);
        assert!(cpu.status_register == 0, "Incorrect Register. Expected cpu.status_register to be 0, got {:#010b}", cpu.status_register);
        check_ram(&cpu, "ora", Imm, &[]);
    }
    {
        let cpu = run_op("ora", Imm, &[0b10001111], &|cpu: &mut Cpu| { cpu.acc = 0b01010101; });
        assert!(cpu.acc == 0b11011111, "Incorrect Register. Expected cpu.acc to be 0b11011111, got {:#010b}", cpu.acc);
        assert!(cpu.status_register == 0b10000000, "Incorrect Register. Expected cpu.status_register to be 0b10000000, got {:#010b}", cpu.status_register);
        check_ram(&cpu, "ora", Imm, &[]);
    }
    {
        let cpu = run_op("ora", Imm, &[0], &|cpu: &mut Cpu| { cpu.acc = 0; });
        assert!(cpu.acc == 0, "Incorrect Register. Expected cpu.acc to be 0, got {:#010b}", cpu.acc);
        assert!(cpu.status_register == 0b00000010, "Incorrect Register. Expected cpu.status_register to be 0b00000010, got {:#010b}", cpu.status_register);
        check_ram(&cpu, "ora", Imm, &[]);
    }
    {
        let cpu = run_op("ora", Zpo, &[0x02, 0xFF], &|cpu: &mut Cpu| { cpu.acc = 0xF0; });
        assert!(cpu.acc == 0xFF, "Incorrect Register. Expected cpu.acc to be 0xFF, got {:#010b}", cpu.acc);
        check_ram(&cpu, "ora", Zpo, &[]);
    }
    {
        let cpu = run_op("ora", Zpx, &[0x02, 0, 0xFF], &|cpu: &mut Cpu| { cpu.x = 1; cpu.acc = 0xF0; });
        assert!(cpu.acc == 0xFF, "Incorrect Register. Expected cpu.acc to be 0xFF, got {:#010b}", cpu.acc);
        check_ram(&cpu, "ora", Zpx, &[]);
    }
    {
        let cpu = run_op("ora", Abs, &[0x04, 0, 0, 0xFF], &|cpu: &mut Cpu| { cpu.acc = 0xF0; });
        assert!(cpu.acc == 0xFF, "Incorrect Register. Expected cpu.acc to be 0xFF, got {:#010b}", cpu.acc);
        check_ram(&cpu, "ora", Abs, &[]);
    }
    {
        let cpu = run_op("ora", Abx, &[0x03, 0, 0, 0xFF], &|cpu: &mut Cpu| { cpu.x = 1; cpu.acc = 0xF0; });
        assert!(cpu.acc == 0xFF, "Incorrect Register. Expected cpu.acc to be 0xFF, got {:#010b}", cpu.acc);
        check_ram(&cpu, "ora", Abx, &[]);
    }
    {
        let cpu = run_op("ora", Aby, &[0x03, 0, 0, 0xFF], &|cpu: &mut Cpu| { cpu.y = 1; cpu.acc = 0xF0; });
        assert!(cpu.acc == 0xFF, "Incorrect Register. Expected cpu.acc to be 0xFF, got {:#010b}", cpu.acc);
        check_ram(&cpu, "ora", Aby, &[]);
    }
    {
        let cpu = run_op("ora", Izx, &[0x02, 0, 0x05, 0, 0xFF], &|cpu: &mut Cpu| { cpu.x = 1; cpu.acc = 0xF0; });
        assert!(cpu.acc == 0xFF, "Incorrect Register. Expected cpu.acc to be 0xFF, got {:#010b}", cpu.acc);
        check_ram(&cpu, "ora", Izx, &[]);
    }
    {
        let cpu = run_op("ora", Izy, &[0x02, 0x04, 0, 0, 0xFF], &|cpu: &mut Cpu| { cpu.y = 1; cpu.acc = 0xF0; });
        assert!(cpu.acc == 0xFF, "Incorrect Register. Expected cpu.acc to be 0xFF, got {:#010b}", cpu.acc);
        check_ram(&cpu, "ora", Izy, &[]);
    }
}

#[test]
fn test_eor() {
    {
        let cpu = run_op("eor", Imm, &[0b00001111], &|cpu: &mut Cpu| { cpu.acc = 0b01010101; });
        assert!(cpu.acc == 0b01011010, "Incorrect Register. Expected cpu.acc to be 0b01011010, got {:#010b}", cpu.acc);
        assert!(cpu.status_register == 0, "Incorrect Register. Expected cpu.status_register to be 0, got {:#010b}", cpu.status_register);
        check_ram(&cpu, "eor", Imm, &[]);
    }
    {
        let cpu = run_op("eor", Imm, &[0b10001111], &|cpu: &mut Cpu| { cpu.acc = 0b01010101; });
        assert!(cpu.acc == 0b11011010, "Incorrect Register. Expected cpu.acc to be 0b11011010, got {:#010b}", cpu.acc);
        assert!(cpu.status_register == 0b10000000, "Incorrect Register. Expected cpu.status_register to be 0b10000000, got {:#010b}", cpu.status_register);
        check_ram(&cpu, "eor", Imm, &[]);
    }
    {
        let cpu = run_op("eor", Imm, &[0xFF], &|cpu: &mut Cpu| { cpu.acc = 0xFF; });
        assert!(cpu.acc == 0, "Incorrect Register. Expected cpu.acc to be 0, got {:#010b}", cpu.acc);
        assert!(cpu.status_register == 0b00000010, "Incorrect Register. Expected cpu.status_register to be 0b00000010, got {:#010b}", cpu.status_register);
        check_ram(&cpu, "eor", Imm, &[]);
    }
    {
        let cpu = run_op("eor", Zpo, &[0x02, 0xFF], &|cpu: &mut Cpu| { cpu.acc = 0xF0; });
        assert!(cpu.acc == 0x0F, "Incorrect Register. Expected cpu.acc to be 0x0F, got {:#010b}", cpu.acc);
        check_ram(&cpu, "eor", Zpo, &[]);
    }
    {
        let cpu = run_op("eor", Zpx, &[0x02, 0, 0xFF], &|cpu: &mut Cpu| { cpu.x = 1; cpu.acc = 0xF0; });
        assert!(cpu.acc == 0x0F, "Incorrect Register. Expected cpu.acc to be 0x0F, got {:#010b}", cpu.acc);
        check_ram(&cpu, "eor", Zpx, &[]);
    }
    {
        let cpu = run_op("eor", Abs, &[0x04, 0, 0, 0xFF], &|cpu: &mut Cpu| { cpu.acc = 0xF0; });
        assert!(cpu.acc == 0x0F, "Incorrect Register. Expected cpu.acc to be 0x0F, got {:#010b}", cpu.acc);
        check_ram(&cpu, "eor", Abs, &[]);
    }
    {
        let cpu = run_op("eor", Abx, &[0x03, 0, 0, 0xFF], &|cpu: &mut Cpu| { cpu.x = 1; cpu.acc = 0xF0; });
        assert!(cpu.acc == 0x0F, "Incorrect Register. Expected cpu.acc to be 0x0F, got {:#010b}", cpu.acc);
        check_ram(&cpu, "eor", Abx, &[]);
    }
    {
        let cpu = run_op("eor", Aby, &[0x03, 0, 0, 0xFF], &|cpu: &mut Cpu| { cpu.y = 1; cpu.acc = 0xF0; });
        assert!(cpu.acc == 0x0F, "Incorrect Register. Expected cpu.acc to be 0x0F, got {:#010b}", cpu.acc);
        check_ram(&cpu, "eor", Aby, &[]);
    }
    {
        let cpu = run_op("eor", Izx, &[0x02, 0, 0x05, 0, 0xFF], &|cpu: &mut Cpu| { cpu.x = 1; cpu.acc = 0xF0; });
        assert!(cpu.acc == 0x0F, "Incorrect Register. Expected cpu.acc to be 0x0F, got {:#010b}", cpu.acc);
        check_ram(&cpu, "eor", Izx, &[]);
    }
    {
        let cpu = run_op("eor", Izy, &[0x02, 0x04, 0, 0, 0xFF], &|cpu: &mut Cpu| { cpu.y = 1; cpu.acc = 0xF0; });
        assert!(cpu.acc == 0x0F, "Incorrect Register. Expected cpu.acc to be 0x0F, got {:#010b}", cpu.acc);
        check_ram(&cpu, "eor", Izy, &[]);
    }
}

#[test]
fn test_bit() {
    {
        let cpu = run_op("bit", Zpo, &[0x02, 0x00], &|cpu: &mut Cpu| { cpu.acc = 0x0F; });
        assert!(cpu.status_register == 0b00000010, "Incorrect Register. Expected cpu.status_register to be 0b00000010, got {:#010b}", cpu.status_register);
        check_ram(&cpu, "bit", Zpo, &[]);
    }
    {
        let cpu = run_op("bit", Zpo, &[0x02, 0xF0], &|cpu: &mut Cpu| { cpu.acc = 0xFF; });
        assert!(cpu.status_register == 0b11000000, "Incorrect Register. Expected cpu.status_register to be 0b11000000, got {:#010b}", cpu.status_register);
        check_ram(&cpu, "bit", Zpo, &[]);
    }
    {
        let cpu = run_op("bit", Abs, &[0x03, 0, 0xF0], &|cpu: &mut Cpu| { cpu.acc = 0xFF; });
        assert!(cpu.status_register == 0b11000000, "Incorrect Register. Expected cpu.status_register to be 0b11000000, got {:#010b}", cpu.status_register);
        check_ram(&cpu, "bit", Abs, &[]);
    }
}

#[test]
fn test_rol() {
    {
        let cpu = run_op("rol", Zpo, &[0x02, 0xFF], &|cpu: &mut Cpu| { cpu.status_register = 1; });
        assert!(cpu.status_register == 0b10000001, "Incorrect Register. Expected cpu.status_register to be 0b10000001, got {:#010b}", cpu.status_register);
        check_ram(&cpu, "rol", Zpo, &[0x02, 0xFF]);
    }
    {
        let cpu = run_op("rol", Zpo, &[0x02, 0xFF], &|cpu: &mut Cpu| { cpu.status_register = 0; });
        assert!(cpu.status_register == 0b10000001, "Incorrect Register. Expected cpu.status_register to be 0b10000001, got {:#010b}", cpu.status_register);
        check_ram(&cpu, "rol", Zpo, &[0x02, 0xFE]);
    }
    {
        let cpu = run_op("rol", Zpo, &[0x02, 0b10000000], &|cpu: &mut Cpu| { cpu.status_register = 0; });
        assert!(cpu.status_register == 0b00000011, "Incorrect Register. Expected cpu.status_register to be 0b00000011, got {:#010b}", cpu.status_register);
        check_ram(&cpu, "rol", Zpo, &[0x02, 0]);
    }
    {
        let cpu = run_op("rol", Zpx, &[0x02, 0, 0xFF], &|cpu: &mut Cpu| { cpu.status_register = 1; cpu.x = 1; });
        assert!(cpu.status_register == 0b10000001, "Incorrect Register. Expected cpu.status_register to be 0b10000001, got {:#010b}", cpu.status_register);
        check_ram(&cpu, "rol", Zpx, &[0x02, 0, 0xFF]);
    }
    {
        let cpu = run_op("rol", Abs, &[0x03, 0, 0xFF], &|cpu: &mut Cpu| { cpu.status_register = 1; });
        assert!(cpu.status_register == 0b10000001, "Incorrect Register. Expected cpu.status_register to be 0b10000001, got {:#010b}", cpu.status_register);
        check_ram(&cpu, "rol", Abs, &[0x03, 0, 0xFF]);
    }
    {
        let cpu = run_op("rol", Abx, &[0x03, 0, 0, 0xFF], &|cpu: &mut Cpu| { cpu.status_register = 1; cpu.x = 1; });
        assert!(cpu.status_register == 0b10000001, "Incorrect Register. Expected cpu.status_register to be 0b10000001, got {:#010b}", cpu.status_register);
        check_ram(&cpu, "rol", Abx, &[0x03, 0, 0, 0xFF]);
    }
}

#[test]
fn test_ror() {
    {
        let cpu = run_op("ror", Zpo, &[0x02, 0xFF], &|cpu: &mut Cpu| { cpu.status_register = 1; });
        assert!(cpu.status_register == 0b10000001, "Incorrect Register. Expected cpu.status_register to be 0b10000001, got {:#010b}", cpu.status_register);
        check_ram(&cpu, "ror", Zpo, &[0x02, 0xFF]);
    }
    {
        let cpu = run_op("ror", Zpo, &[0x02, 0xFF], &|cpu: &mut Cpu| { cpu.status_register = 0; });
        assert!(cpu.status_register == 0b00000001, "Incorrect Register. Expected cpu.status_register to be 0b00000001, got {:#010b}", cpu.status_register);
        check_ram(&cpu, "ror", Zpo, &[0x02, 0x7f]);
    }
    {
        let cpu = run_op("ror", Zpo, &[0x02, 1], &|cpu: &mut Cpu| { cpu.status_register = 0; });
        assert!(cpu.status_register == 0b00000011, "Incorrect Register. Expected cpu.status_register to be 0b00000011, got {:#010b}", cpu.status_register);
        check_ram(&cpu, "ror", Zpo, &[0x02, 0]);
    }
    {
        let cpu = run_op("ror", Zpx, &[0x02, 0, 1], &|cpu: &mut Cpu| { cpu.status_register = 0; cpu.x = 1; });
        assert!(cpu.status_register == 0b00000011, "Incorrect Register. Expected cpu.status_register to be 0b00000011, got {:#010b}", cpu.status_register);
        check_ram(&cpu, "ror", Zpx, &[0x02, 0]);
    }
    {
        let cpu = run_op("ror", Abs, &[0x03, 0, 1], &|cpu: &mut Cpu| { cpu.status_register = 0; });
        assert!(cpu.status_register == 0b00000011, "Incorrect Register. Expected cpu.status_register to be 0b00000011, got {:#010b}", cpu.status_register);
        check_ram(&cpu, "ror", Abs, &[0x03, 0]);
    }
    {
        let cpu = run_op("ror", Abx, &[0x02, 0, 1], &|cpu: &mut Cpu| { cpu.status_register = 0; cpu.x = 1; });
        assert!(cpu.status_register == 0b00000011, "Incorrect Register. Expected cpu.status_register to be 0b00000011, got {:#010b}", cpu.status_register);
        check_ram(&cpu, "ror", Abx, &[0x02, 0]);
    }
}

#[test]
fn test_asl() {
    {
        let cpu = run_op("asl", Zpo, &[0x02, 0xFF], &|cpu: &mut Cpu| { cpu.status_register = 1; });
        assert!(cpu.status_register == 0b10000001, "Incorrect Register. Expected cpu.status_register to be 0b10000001, got {:#010b}", cpu.status_register);
        check_ram(&cpu, "asl", Zpo, &[0x02, 0xFE]);
    }
    {
        let cpu = run_op("asl", Zpo, &[0x02, 0xFF], &|cpu: &mut Cpu| { cpu.status_register = 0; });
        assert!(cpu.status_register == 0b10000001, "Incorrect Register. Expected cpu.status_register to be 0b10000001, got {:#010b}", cpu.status_register);
        check_ram(&cpu, "asl", Zpo, &[0x02, 0xFE]);
    }
    {
        let cpu = run_op("asl", Zpo, &[0x02, 0b10000000], &|cpu: &mut Cpu| {  });
        assert!(cpu.status_register == 0b00000011, "Incorrect Register. Expected cpu.status_register to be 0b00000011, got {:#010b}", cpu.status_register);
        check_ram(&cpu, "asl", Zpo, &[0x02, 0]);
    }
    {
        let cpu = run_op("asl", Zpx, &[0x02, 0, 1], &|cpu: &mut Cpu| { cpu.x = 1; });
        check_ram(&cpu, "asl", Zpx, &[0x02, 0, 2]);
    }
    {
        let cpu = run_op("asl", Abs, &[0x03, 0, 1], &|cpu: &mut Cpu| {  });
        check_ram(&cpu, "asl", Abs, &[0x03, 0, 2]);
    }
    {
        let cpu = run_op("asl", Abx, &[0x03, 0, 0, 1], &|cpu: &mut Cpu| { cpu.x = 1; });
        check_ram(&cpu, "asl", Abx, &[0x03, 0, 0, 2]);
    }
}

#[test]
fn test_lsr() {
    {
        let cpu = run_op("lsr", Zpo, &[0x02, 1], &|cpu: &mut Cpu| { cpu.status_register = 1; });
        assert!(cpu.status_register == 0b00000011, "Incorrect Register. Expected cpu.status_register to be 0b00000011, got {:#010b}", cpu.status_register);
        check_ram(&cpu, "lsr", Zpo, &[0x02, 0]);
    }
    {
        let cpu = run_op("lsr", Zpo, &[0x02, 1], &|cpu: &mut Cpu| { cpu.status_register = 0; });
        assert!(cpu.status_register == 0b00000011, "Incorrect Register. Expected cpu.status_register to be 0b00000011, got {:#010b}", cpu.status_register);
        check_ram(&cpu, "lsr", Zpo, &[0x02, 0]);
    }
    {
        let cpu = run_op("lsr", Zpx, &[0x02, 0, 2], &|cpu: &mut Cpu| { cpu.x = 1; });
        check_ram(&cpu, "lsr", Zpx, &[0x02, 0, 1]);
    }
    {
        let cpu = run_op("lsr", Abs, &[0x03, 0, 2], &|cpu: &mut Cpu| {  });
        check_ram(&cpu, "lsr", Abs, &[0x03, 0, 1]);
    }
    {
        let cpu = run_op("lsr", Abx, &[0x03, 0, 0, 2], &|cpu: &mut Cpu| { cpu.x = 1; });
        check_ram(&cpu, "lsr", Abx, &[0x03, 0, 0, 1]);
    }
    {
        let cpu = run_op("lsr", Imp, &[], &|cpu: &mut Cpu| { cpu.acc = 2; });
        assert!(cpu.acc == 1, "Incorrect Register. Expected cpu.acc to be 1, got {:#010b}", cpu.acc);
        check_ram(&cpu, "lsr", Imp, &[]);
    }
}

#[test]
fn test_inc() {
    {
        let cpu = run_op("inc", Zpo, &[0x02, 255], &|cpu: &mut Cpu| {  });
        assert!(cpu.status_register == 0b00000010, "Incorrect Register. Expected cpu.status_register to be 0b00000010, got {:#010b}", cpu.status_register);
        check_ram(&cpu, "inc", Zpo, &[0x02, 0]);
    }
    {
        let cpu = run_op("inc", Zpo, &[0x02, 127], &|cpu: &mut Cpu| {  });
        assert!(cpu.status_register == 0b10000000, "Incorrect Register. Expected cpu.status_register to be 0b10000000, got {:#010b}", cpu.status_register);
        check_ram(&cpu, "inc", Zpo, &[0x02, 128]);
    }
    {
        let cpu = run_op("inc", Zpx, &[0x02, 0, 2], &|cpu: &mut Cpu| { cpu.x = 1; });
        check_ram(&cpu, "inc", Zpx, &[0x02, 0, 3]);
    }
    {
        let cpu = run_op("inc", Abs, &[0x03, 0, 2], &|cpu: &mut Cpu| {  });
        check_ram(&cpu, "inc", Abs, &[0x03, 0, 3]);
    }
    {
        let cpu = run_op("inc", Abx, &[0x03, 0, 0, 2], &|cpu: &mut Cpu| { cpu.x = 1; });
        check_ram(&cpu, "inc", Abx, &[0x03, 0, 0, 3]);
    }
}

#[test]
fn test_dec() {
    {
        let cpu = run_op("dec", Zpo, &[0x02, 0], &|cpu: &mut Cpu| {  });
        assert!(cpu.status_register == 0b10000000, "Incorrect Register. Expected cpu.status_register to be 0b10000000, got {:#010b}", cpu.status_register);
        check_ram(&cpu, "dec", Zpo, &[0x02, 255]);
    }
    {
        let cpu = run_op("dec", Zpo, &[0x02, 1], &|cpu: &mut Cpu| {  });
        assert!(cpu.status_register == 0b00000010, "Incorrect Register. Expected cpu.status_register to be 0b00000010, got {:#010b}", cpu.status_register);
        check_ram(&cpu, "dec", Zpo, &[0x02, 0]);
    }
    {
        let cpu = run_op("dec", Zpx, &[0x02, 0, 2], &|cpu: &mut Cpu| { cpu.x = 1; });
        check_ram(&cpu, "dec", Zpx, &[0x02, 0, 1]);
    }
    {
        let cpu = run_op("dec", Abs, &[0x03, 0, 2], &|cpu: &mut Cpu| {  });
        check_ram(&cpu, "dec", Abs, &[0x03, 0, 1]);
    }
    {
        let cpu = run_op("dec", Abx, &[0x03, 0, 0, 2], &|cpu: &mut Cpu| { cpu.x = 1; });
        check_ram(&cpu, "dec", Abx, &[0x03, 0, 0, 1]);
    }
}

#[test]
fn test_inx() {
    {
        let cpu = run_op("inx", Imp, &[], &|cpu: &mut Cpu| { cpu.x = 255; });
        assert!(cpu.x == 0, "Incorrect Register. Expected cpu.x to be 0, got {:#010b}", cpu.x);
        assert!(cpu.status_register == 0b00000010, "Incorrect Register. Expected cpu.status_register to be 0b00000010, got {:#010b}", cpu.status_register);
        check_ram(&cpu, "inx", Imp, &[]);
    }
    {
        let cpu = run_op("inx", Imp, &[], &|cpu: &mut Cpu| { cpu.x = 127; });
        assert!(cpu.x == 128, "Incorrect Register. Expected cpu.x to be 128, got {:#010b}", cpu.x);
        assert!(cpu.status_register == 0b10000000, "Incorrect Register. Expected cpu.status_register to be 0b10000000, got {:#010b}", cpu.status_register);
        check_ram(&cpu, "inx", Imp, &[]);
    }
}

#[test]
fn test_dex() {
    {
        let cpu = run_op("dex", Imp, &[], &|cpu: &mut Cpu| { cpu.x = 1; });
        assert!(cpu.x == 0, "Incorrect Register. Expected cpu.x to be 0, got {:#010b}", cpu.x);
        assert!(cpu.status_register == 0b00000010, "Incorrect Register. Expected cpu.status_register to be 0b00000010, got {:#010b}", cpu.status_register);
        check_ram(&cpu, "dex", Imp, &[]);
    }
    {
        let cpu = run_op("dex", Imp, &[], &|cpu: &mut Cpu| { cpu.x = 0; });
        assert!(cpu.x == 255, "Incorrect Register. Expected cpu.x to be 255, got {:#010b}", cpu.x);
        assert!(cpu.status_register == 0b10000000, "Incorrect Register. Expected cpu.status_register to be 0b10000000, got {:#010b}", cpu.status_register);
        check_ram(&cpu, "dex", Imp, &[]);
    }
}

#[test]
fn test_iny() {
    {
        let cpu = run_op("iny", Imp, &[], &|cpu: &mut Cpu| { cpu.y = 255; });
        assert!(cpu.y == 0, "Incorrect Register. Expected cpu.y to be 0, got {:#010b}", cpu.y);
        assert!(cpu.status_register == 0b00000010, "Incorrect Register. Expected cpu.status_register to be 0b00000010, got {:#010b}", cpu.status_register);
        check_ram(&cpu, "iny", Imp, &[]);
    }
    {
        let cpu = run_op("iny", Imp, &[], &|cpu: &mut Cpu| { cpu.y = 127; });
        assert!(cpu.y == 128, "Incorrect Register. Expected cpu.y to be 128, got {:#010b}", cpu.y);
        assert!(cpu.status_register == 0b10000000, "Incorrect Register. Expected cpu.status_register to be 0b10000000, got {:#010b}", cpu.status_register);
        check_ram(&cpu, "iny", Imp, &[]);
    }
}

#[test]
fn test_dey() {
    {
        let cpu = run_op("dey", Imp, &[], &|cpu: &mut Cpu| { cpu.y = 1; });
        assert!(cpu.y == 0, "Incorrect Register. Expected cpu.y to be 0, got {:#010b}", cpu.y);
        assert!(cpu.status_register == 0b00000010, "Incorrect Register. Expected cpu.status_register to be 0b00000010, got {:#010b}", cpu.status_register);
        check_ram(&cpu, "dey", Imp, &[]);
    }
    {
        let cpu = run_op("dey", Imp, &[], &|cpu: &mut Cpu| { cpu.y = 0; });
        assert!(cpu.y == 255, "Incorrect Register. Expected cpu.y to be 255, got {:#010b}", cpu.y);
        assert!(cpu.status_register == 0b10000000, "Incorrect Register. Expected cpu.status_register to be 0b10000000, got {:#010b}", cpu.status_register);
        check_ram(&cpu, "dey", Imp, &[]);
    }
}

#[test]
fn test_tax() {
    {
        let cpu = run_op("tax", Imp, &[], &|cpu: &mut Cpu| { cpu.acc = 1; });
        assert!(cpu.acc == 1, "Incorrect Register. Expected cpu.acc to be 1, got {:#010b}", cpu.acc);
        assert!(cpu.x == 1, "Incorrect Register. Expected cpu.x to be 1, got {:#010b}", cpu.x);
        assert!(cpu.status_register == 0b00000000, "Incorrect Register. Expected cpu.status_register to be 0b00000000, got {:#010b}", cpu.status_register);
        check_ram(&cpu, "tax", Imp, &[]);
    }
    {
        let cpu = run_op("tax", Imp, &[], &|cpu: &mut Cpu| { cpu.acc = 0; });
        assert!(cpu.acc == 0, "Incorrect Register. Expected cpu.acc to be 0, got {:#010b}", cpu.acc);
        assert!(cpu.x == 0, "Incorrect Register. Expected cpu.x to be 0, got {:#010b}", cpu.x);
        assert!(cpu.status_register == 0b00000010, "Incorrect Register. Expected cpu.status_register to be 0b00000010, got {:#010b}", cpu.status_register);
        check_ram(&cpu, "tax", Imp, &[]);
    }
    {
        let cpu = run_op("tax", Imp, &[], &|cpu: &mut Cpu| { cpu.acc = 128; });
        assert!(cpu.acc == 128, "Incorrect Register. Expected cpu.acc to be 128, got {:#010b}", cpu.acc);
        assert!(cpu.x == 128, "Incorrect Register. Expected cpu.x to be 128, got {:#010b}", cpu.x);
        assert!(cpu.status_register == 0b10000000, "Incorrect Register. Expected cpu.status_register to be 0b10000000, got {:#010b}", cpu.status_register);
        check_ram(&cpu, "tax", Imp, &[]);
    }
}

#[test]
fn test_tay() {
    {
        let cpu = run_op("tay", Imp, &[], &|cpu: &mut Cpu| { cpu.acc = 1; });
        assert!(cpu.acc == 1, "Incorrect Register. Expected cpu.acc to be 1, got {:#010b}", cpu.acc);
        assert!(cpu.y == 1, "Incorrect Register. Expected cpu.y to be 1, got {:#010b}", cpu.y);
        assert!(cpu.status_register == 0b00000000, "Incorrect Register. Expected cpu.status_register to be 0b00000000, got {:#010b}", cpu.status_register);
        check_ram(&cpu, "tay", Imp, &[]);
    }
    {
        let cpu = run_op("tay", Imp, &[], &|cpu: &mut Cpu| { cpu.acc = 0; });
        assert!(cpu.acc == 0, "Incorrect Register. Expected cpu.acc to be 0, got {:#010b}", cpu.acc);
        assert!(cpu.y == 0, "Incorrect Register. Expected cpu.y to be 0, got {:#010b}", cpu.y);
        assert!(cpu.status_register == 0b00000010, "Incorrect Register. Expected cpu.status_register to be 0b00000010, got {:#010b}", cpu.status_register);
        check_ram(&cpu, "tay", Imp, &[]);
    }
    {
        let cpu = run_op("tay", Imp, &[], &|cpu: &mut Cpu| { cpu.acc = 128; });
        assert!(cpu.acc == 128, "Incorrect Register. Expected cpu.acc to be 128, got {:#010b}", cpu.acc);
        assert!(cpu.y == 128, "Incorrect Register. Expected cpu.y to be 128, got {:#010b}", cpu.y);
        assert!(cpu.status_register == 0b10000000, "Incorrect Register. Expected cpu.status_register to be 0b10000000, got {:#010b}", cpu.status_register);
        check_ram(&cpu, "tay", Imp, &[]);
    }
}

#[test]
fn test_txa() {
    {
        let cpu = run_op("txa", Imp, &[], &|cpu: &mut Cpu| { cpu.x = 1; });
        assert!(cpu.acc == 1, "Incorrect Register. Expected cpu.acc to be 1, got {:#010b}", cpu.acc);
        assert!(cpu.x == 1, "Incorrect Register. Expected cpu.x to be 1, got {:#010b}", cpu.x);
        assert!(cpu.status_register == 0b00000000, "Incorrect Register. Expected cpu.status_register to be 0b00000000, got {:#010b}", cpu.status_register);
        check_ram(&cpu, "txa", Imp, &[]);
    }
    {
        let cpu = run_op("txa", Imp, &[], &|cpu: &mut Cpu| { cpu.x = 0; });
        assert!(cpu.acc == 0, "Incorrect Register. Expected cpu.acc to be 0, got {:#010b}", cpu.acc);
        assert!(cpu.x == 0, "Incorrect Register. Expected cpu.x to be 0, got {:#010b}", cpu.x);
        assert!(cpu.status_register == 0b00000010, "Incorrect Register. Expected cpu.status_register to be 0b00000010, got {:#010b}", cpu.status_register);
        check_ram(&cpu, "txa", Imp, &[]);
    }
    {
        let cpu = run_op("txa", Imp, &[], &|cpu: &mut Cpu| { cpu.x = 128; });
        assert!(cpu.acc == 128, "Incorrect Register. Expected cpu.acc to be 128, got {:#010b}", cpu.acc);
        assert!(cpu.x == 128, "Incorrect Register. Expected cpu.x to be 128, got {:#010b}", cpu.x);
        assert!(cpu.status_register == 0b10000000, "Incorrect Register. Expected cpu.status_register to be 0b10000000, got {:#010b}", cpu.status_register);
        check_ram(&cpu, "txa", Imp, &[]);
    }
}

#[test]
fn test_tya() {
    {
        let cpu = run_op("tya", Imp, &[], &|cpu: &mut Cpu| { cpu.y = 1; });
        assert!(cpu.acc == 1, "Incorrect Register. Expected cpu.acc to be 1, got {:#010b}", cpu.acc);
        assert!(cpu.y == 1, "Incorrect Register. Expected cpu.y to be 1, got {:#010b}", cpu.y);
        assert!(cpu.status_register == 0b00000000, "Incorrect Register. Expected cpu.status_register to be 0b00000000, got {:#010b}", cpu.status_register);
        check_ram(&cpu, "tya", Imp, &[]);
    }
    {
        let cpu = run_op("tya", Imp, &[], &|cpu: &mut Cpu| { cpu.y = 0; });
        assert!(cpu.acc == 0, "Incorrect Register. Expected cpu.acc to be 0, got {:#010b}", cpu.acc);
        assert!(cpu.y == 0, "Incorrect Register. Expected cpu.y to be 0, got {:#010b}", cpu.y);
        assert!(cpu.status_register == 0b00000010, "Incorrect Register. Expected cpu.status_register to be 0b00000010, got {:#010b}", cpu.status_register);
        check_ram(&cpu, "tya", Imp, &[]);
    }
    {
        let cpu = run_op("tya", Imp, &[], &|cpu: &mut Cpu| { cpu.y = 128; });
        assert!(cpu.acc == 128, "Incorrect Register. Expected cpu.acc to be 128, got {:#010b}", cpu.acc);
        assert!(cpu.y == 128, "Incorrect Register. Expected cpu.y to be 128, got {:#010b}", cpu.y);
        assert!(cpu.status_register == 0b10000000, "Incorrect Register. Expected cpu.status_register to be 0b10000000, got {:#010b}", cpu.status_register);
        check_ram(&cpu, "tya", Imp, &[]);
    }
}

#[test]
fn test_tsx() {
    {
        let cpu = run_op("tsx", Imp, &[], &|cpu: &mut Cpu| { cpu.stack_pointer = 1; });
        assert!(cpu.stack_pointer == 0b00000001, "Incorrect Register. Expected cpu.stack_pointer to be 0b00000001, got {:#010b}", cpu.stack_pointer);
        assert!(cpu.x == 1, "Incorrect Register. Expected cpu.x to be 1, got {:#010b}", cpu.x);
        assert!(cpu.status_register == 0b00000000, "Incorrect Register. Expected cpu.status_register to be 0b00000000, got {:#010b}", cpu.status_register);
        check_ram(&cpu, "tsx", Imp, &[]);
    }
    {
        let cpu = run_op("tsx", Imp, &[], &|cpu: &mut Cpu| { cpu.stack_pointer = 0; });
        assert!(cpu.stack_pointer == 0b00000000, "Incorrect Register. Expected cpu.stack_pointer to be 0b00000000, got {:#010b}", cpu.stack_pointer);
        assert!(cpu.x == 0, "Incorrect Register. Expected cpu.x to be 0, got {:#010b}", cpu.x);
        assert!(cpu.status_register == 0b00000010, "Incorrect Register. Expected cpu.status_register to be 0b00000010, got {:#010b}", cpu.status_register);
        check_ram(&cpu, "tsx", Imp, &[]);
    }
    {
        let cpu = run_op("tsx", Imp, &[], &|cpu: &mut Cpu| { cpu.stack_pointer = 128; });
        assert!(cpu.stack_pointer == 0b10000000, "Incorrect Register. Expected cpu.stack_pointer to be 0b10000000, got {:#010b}", cpu.stack_pointer);
        assert!(cpu.x == 128, "Incorrect Register. Expected cpu.x to be 128, got {:#010b}", cpu.x);
        assert!(cpu.status_register == 0b10000000, "Incorrect Register. Expected cpu.status_register to be 0b10000000, got {:#010b}", cpu.status_register);
        check_ram(&cpu, "tsx", Imp, &[]);
    }
}

#[test]
fn test_txs() {
    {
        let cpu = run_op("txs", Imp, &[], &|cpu: &mut Cpu| { cpu.x = 1; });
        assert!(cpu.stack_pointer == 1, "Incorrect Register. Expected cpu.stack_pointer to be 1, got {:#010b}", cpu.stack_pointer);
        assert!(cpu.x == 1, "Incorrect Register. Expected cpu.x to be 1, got {:#010b}", cpu.x);
        assert!(cpu.status_register == 0, "Incorrect Register. Expected cpu.status_register to be 0, got {:#010b}", cpu.status_register);
        check_ram(&cpu, "txs", Imp, &[]);
    }
}

#[test]
fn test_flag_ops() {
    {
        let cpu = run_op("clc", Imp, &[], &|cpu: &mut Cpu| { cpu.status_register = 0b11111111; });
        assert!(cpu.status_register == 0b11111110, "Incorrect Register. Expected cpu.status_register to be 0b11111110, got {:#010b}", cpu.status_register);
        check_ram(&cpu, "clc", Imp, &[]);
    }
    {
        let cpu = run_op("sec", Imp, &[], &|cpu: &mut Cpu| { cpu.status_register = 0; });
        assert!(cpu.status_register == 1, "Incorrect Register. Expected cpu.status_register to be 1, got {:#010b}", cpu.status_register);
        check_ram(&cpu, "sec", Imp, &[]);
    }
    {
        let cpu = run_op("cli", Imp, &[], &|cpu: &mut Cpu| { cpu.status_register = 0b11111111; });
        assert!(cpu.status_register == 0b11111011, "Incorrect Register. Expected cpu.status_register to be 0b11111011, got {:#010b}", cpu.status_register);
        check_ram(&cpu, "cli", Imp, &[]);
    }
    {
        let cpu = run_op("sei", Imp, &[], &|cpu: &mut Cpu| { cpu.status_register = 0; });
        assert!(cpu.status_register == 0b00000100, "Incorrect Register. Expected cpu.status_register to be 0b00000100, got {:#010b}", cpu.status_register);
        check_ram(&cpu, "sei", Imp, &[]);
    }
    {
        let cpu = run_op("clv", Imp, &[], &|cpu: &mut Cpu| { cpu.status_register = 0b11111111; });
        assert!(cpu.status_register == 0b10111111, "Incorrect Register. Expected cpu.status_register to be 0b10111111, got {:#010b}", cpu.status_register);
        check_ram(&cpu, "clv", Imp, &[]);
    }
    {
        let cpu = run_op("cld", Imp, &[], &|cpu: &mut Cpu| { cpu.status_register = 0b11111111; });
        assert!(cpu.status_register == 0b11110111, "Incorrect Register. Expected cpu.status_register to be 0b11110111, got {:#010b}", cpu.status_register);
        check_ram(&cpu, "cld", Imp, &[]);
    }
    {
        let cpu = run_op("sed", Imp, &[], &|cpu: &mut Cpu| { cpu.status_register = 0; });
        assert!(cpu.status_register == 0b00001000, "Incorrect Register. Expected cpu.status_register to be 0b00001000, got {:#010b}", cpu.status_register);
        check_ram(&cpu, "sed", Imp, &[]);
    }
}

#[allow(dead_code)]
fn high_byte(value: u16) -> u16 {
    value & 0xFF00
}

#[allow(dead_code)]
#[derive(Copy, Clone)]
struct Op {
    code: u8,
    size: u16,
    cycles: u8,
    check: bool,
    mask: u8,
}

fn opcode(name: &str, mode: AddrMode6502) -> Op {
    match (name, mode) {
        ("adc", Imm) => Op { code: 0x69, size: 2, cycles: 2, check: false, mask: 0b11000011 },
        ("adc", Zpo) => Op { code: 0x65, size: 2, cycles: 3, check: false, mask: 0b11000011 },
        ("adc", Zpx) => Op { code: 0x75, size: 2, cycles: 4, check: false, mask: 0b11000011 },
        ("adc", Abs) => Op { code: 0x6D, size: 3, cycles: 4, check: false, mask: 0b11000011 },
        ("adc", Abx) => Op { code: 0x7D, size: 3, cycles: 4, check: true, mask: 0b11000011 },
        ("adc", Aby) => Op { code: 0x79, size: 3, cycles: 4, check: true, mask: 0b11000011 },
        ("adc", Izx) => Op { code: 0x61, size: 2, cycles: 6, check: false, mask: 0b11000011 },
        ("adc", Izy) => Op { code: 0x71, size: 2, cycles: 5, check: true, mask: 0b11000011 },
        ("and", Imm) => Op { code: 0x29, size: 2, cycles: 2, check: false, mask: 0b10000010 },
        ("and", Zpo) => Op { code: 0x25, size: 2, cycles: 3, check: false, mask: 0b10000010 },
        ("and", Zpx) => Op { code: 0x35, size: 2, cycles: 4, check: false, mask: 0b10000010 },
        ("and", Abs) => Op { code: 0x2D, size: 3, cycles: 4, check: false, mask: 0b10000010 },
        ("and", Abx) => Op { code: 0x3D, size: 3, cycles: 4, check: true, mask: 0b10000010 },
        ("and", Aby) => Op { code: 0x39, size: 3, cycles: 4, check: true, mask: 0b10000010 },
        ("and", Izx) => Op { code: 0x21, size: 2, cycles: 6, check: false, mask: 0b10000010 },
        ("and", Izy) => Op { code: 0x31, size: 2, cycles: 5, check: true, mask: 0b10000010 },
        ("asl", Imp) => Op { code: 0x0A, size: 1, cycles: 2, check: false, mask: 0b10000011 },
        ("asl", Zpo) => Op { code: 0x06, size: 2, cycles: 5, check: false, mask: 0b10000011 },
        ("asl", Zpx) => Op { code: 0x16, size: 2, cycles: 6, check: false, mask: 0b10000011 },
        ("asl", Abs) => Op { code: 0x0E, size: 3, cycles: 6, check: false, mask: 0b10000011 },
        ("asl", Abx) => Op { code: 0x1E, size: 3, cycles: 7, check: false, mask: 0b10000011 },
        ("bcc", Imp) => Op { code: 0x90, size: 0, cycles: 0, check: true, mask: 0b00000000 },
        ("bcs", Imp) => Op { code: 0xB0, size: 0, cycles: 0, check: true, mask: 0b00000000 },
        ("beq", Imp) => Op { code: 0xF0, size: 0, cycles: 0, check: true, mask: 0b00000000 },
        ("bit", Zpo) => Op { code: 0x24, size: 2, cycles: 3, check: false, mask: 0b11000010 },
        ("bit", Abs) => Op { code: 0x2C, size: 3, cycles: 4, check: false, mask: 0b11000010 },
        ("bmi", Imp) => Op { code: 0x30, size: 0, cycles: 0, check: true, mask: 0b00000000 },
        ("bne", Imp) => Op { code: 0xD0, size: 0, cycles: 0, check: true, mask: 0b00000000 },
        ("bpl", Imp) => Op { code: 0x10, size: 0, cycles: 0, check: true, mask: 0b00000000 },
        ("brk", Imp) => Op { code: 0x00, size: 0, cycles: 7, check: false, mask: 0b00010000 },
        ("bvc", Imp) => Op { code: 0x50, size: 0, cycles: 0, check: true, mask: 0b00000000 },
        ("bvs", Imp) => Op { code: 0x70, size: 0, cycles: 0, check: true, mask: 0b00000000 },
        ("clc", Imp) => Op { code: 0x18, size: 1, cycles: 2, check: false, mask: 0b00000001 },
        ("cld", Imp) => Op { code: 0xD8, size: 1, cycles: 2, check: false, mask: 0b00001000 },
        ("cli", Imp) => Op { code: 0x58, size: 1, cycles: 2, check: false, mask: 0b00000100 },
        ("clv", Imp) => Op { code: 0xB8, size: 1, cycles: 2, check: false, mask: 0b01000000 },
        ("cmp", Imm) => Op { code: 0xC9, size: 2, cycles: 2, check: false, mask: 0b10000011 },
        ("cmp", Zpo) => Op { code: 0xC5, size: 2, cycles: 3, check: false, mask: 0b10000011 },
        ("cmp", Zpx) => Op { code: 0xD5, size: 2, cycles: 4, check: false, mask: 0b10000011 },
        ("cmp", Abs) => Op { code: 0xCD, size: 3, cycles: 4, check: false, mask: 0b10000011 },
        ("cmp", Abx) => Op { code: 0xDD, size: 3, cycles: 4, check: true, mask: 0b10000011 },
        ("cmp", Aby) => Op { code: 0xD9, size: 3, cycles: 4, check: true, mask: 0b10000011 },
        ("cmp", Izx) => Op { code: 0xC1, size: 2, cycles: 6, check: false, mask: 0b10000011 },
        ("cmp", Izy) => Op { code: 0xD1, size: 2, cycles: 5, check: true, mask: 0b10000011 },
        ("cpx", Imm) => Op { code: 0xE0, size: 2, cycles: 2, check: false, mask: 0b10000011 },
        ("cpx", Zpo) => Op { code: 0xE4, size: 2, cycles: 3, check: false, mask: 0b10000011 },
        ("cpx", Abs) => Op { code: 0xEC, size: 3, cycles: 4, check: false, mask: 0b10000011 },
        ("cpy", Imm) => Op { code: 0xC0, size: 2, cycles: 2, check: false, mask: 0b10000011 },
        ("cpy", Zpo) => Op { code: 0xC4, size: 2, cycles: 3, check: false, mask: 0b10000011 },
        ("cpy", Abs) => Op { code: 0xCC, size: 3, cycles: 4, check: false, mask: 0b10000011 },
        ("dec", Zpo) => Op { code: 0xC6, size: 2, cycles: 5, check: false, mask: 0b10000010 },
        ("dec", Zpx) => Op { code: 0xD6, size: 2, cycles: 6, check: false, mask: 0b10000010 },
        ("dec", Abs) => Op { code: 0xCE, size: 3, cycles: 6, check: false, mask: 0b10000010 },
        ("dec", Abx) => Op { code: 0xDE, size: 3, cycles: 7, check: false, mask: 0b10000010 },
        ("dex", Imp) => Op { code: 0xCA, size: 1, cycles: 2, check: false, mask: 0b10000010 },
        ("dey", Imp) => Op { code: 0x88, size: 1, cycles: 2, check: false, mask: 0b10000010 },
        ("eor", Imm) => Op { code: 0x49, size: 2, cycles: 2, check: false, mask: 0b10000010 },
        ("eor", Zpo) => Op { code: 0x45, size: 2, cycles: 3, check: false, mask: 0b10000010 },
        ("eor", Zpx) => Op { code: 0x55, size: 2, cycles: 4, check: false, mask: 0b10000010 },
        ("eor", Abs) => Op { code: 0x4D, size: 3, cycles: 4, check: false, mask: 0b10000010 },
        ("eor", Abx) => Op { code: 0x5D, size: 3, cycles: 4, check: true, mask: 0b10000010 },
        ("eor", Aby) => Op { code: 0x59, size: 3, cycles: 4, check: true, mask: 0b10000010 },
        ("eor", Izx) => Op { code: 0x41, size: 2, cycles: 6, check: false, mask: 0b10000010 },
        ("eor", Izy) => Op { code: 0x51, size: 2, cycles: 5, check: true, mask: 0b10000010 },
        ("inc", Zpo) => Op { code: 0xE6, size: 2, cycles: 5, check: false, mask: 0b10000010 },
        ("inc", Zpx) => Op { code: 0xF6, size: 2, cycles: 6, check: false, mask: 0b10000010 },
        ("inc", Abs) => Op { code: 0xEE, size: 3, cycles: 6, check: false, mask: 0b10000010 },
        ("inc", Abx) => Op { code: 0xFE, size: 3, cycles: 7, check: false, mask: 0b10000010 },
        ("inx", Imp) => Op { code: 0xE8, size: 1, cycles: 2, check: false, mask: 0b10000010 },
        ("iny", Imp) => Op { code: 0xC8, size: 1, cycles: 2, check: false, mask: 0b10000010 },
        ("jmp", Abs) => Op { code: 0x4C, size: 0, cycles: 3, check: false, mask: 0b00000000 },
        ("jmp", Ind) => Op { code: 0x6C, size: 0, cycles: 5, check: false, mask: 0b00000000 },
        ("jsr", Abs) => Op { code: 0x20, size: 0, cycles: 6, check: false, mask: 0b00000000 },
        ("lda", Imm) => Op { code: 0xA9, size: 2, cycles: 2, check: false, mask: 0b10000010 },
        ("lda", Zpo) => Op { code: 0xA5, size: 2, cycles: 3, check: false, mask: 0b10000010 },
        ("lda", Zpx) => Op { code: 0xB5, size: 2, cycles: 4, check: false, mask: 0b10000010 },
        ("lda", Abs) => Op { code: 0xAD, size: 3, cycles: 4, check: false, mask: 0b10000010 },
        ("lda", Abx) => Op { code: 0xBD, size: 3, cycles: 4, check: true, mask: 0b10000010 },
        ("lda", Aby) => Op { code: 0xB9, size: 3, cycles: 4, check: true, mask: 0b10000010 },
        ("lda", Izx) => Op { code: 0xA1, size: 2, cycles: 6, check: false, mask: 0b10000010 },
        ("lda", Izy) => Op { code: 0xB1, size: 2, cycles: 5, check: true, mask: 0b10000010 },
        ("ldx", Imm) => Op { code: 0xA2, size: 2, cycles: 2, check: false, mask: 0b10000010 },
        ("ldx", Zpo) => Op { code: 0xA6, size: 2, cycles: 3, check: false, mask: 0b10000010 },
        ("ldx", Zpy) => Op { code: 0xB6, size: 2, cycles: 4, check: false, mask: 0b10000010 },
        ("ldx", Abs) => Op { code: 0xAE, size: 3, cycles: 4, check: false, mask: 0b10000010 },
        ("ldx", Aby) => Op { code: 0xBE, size: 3, cycles: 4, check: true, mask: 0b10000010 },
        ("ldy", Imm) => Op { code: 0xA0, size: 2, cycles: 2, check: false, mask: 0b10000010 },
        ("ldy", Zpo) => Op { code: 0xA4, size: 2, cycles: 3, check: false, mask: 0b10000010 },
        ("ldy", Zpx) => Op { code: 0xB4, size: 2, cycles: 4, check: false, mask: 0b10000010 },
        ("ldy", Abs) => Op { code: 0xAC, size: 3, cycles: 4, check: false, mask: 0b10000010 },
        ("ldy", Abx) => Op { code: 0xBC, size: 3, cycles: 4, check: true, mask: 0b10000010 },
        ("lsr", Imp) => Op { code: 0x4A, size: 1, cycles: 2, check: false, mask: 0b10000011 },
        ("lsr", Zpo) => Op { code: 0x46, size: 2, cycles: 5, check: false, mask: 0b10000011 },
        ("lsr", Zpx) => Op { code: 0x56, size: 2, cycles: 6, check: false, mask: 0b10000011 },
        ("lsr", Abs) => Op { code: 0x4E, size: 3, cycles: 6, check: false, mask: 0b10000011 },
        ("lsr", Abx) => Op { code: 0x5E, size: 3, cycles: 7, check: false, mask: 0b10000011 },
        ("nop", Imp) => Op { code: 0xEA, size: 1, cycles: 2, check: false, mask: 0b00000000 },
        ("ora", Imm) => Op { code: 0x09, size: 2, cycles: 2, check: false, mask: 0b10000010 },
        ("ora", Zpo) => Op { code: 0x05, size: 2, cycles: 3, check: false, mask: 0b10000010 },
        ("ora", Zpx) => Op { code: 0x15, size: 2, cycles: 4, check: false, mask: 0b10000010 },
        ("ora", Abs) => Op { code: 0x0D, size: 3, cycles: 4, check: false, mask: 0b10000010 },
        ("ora", Abx) => Op { code: 0x1D, size: 3, cycles: 4, check: true, mask: 0b10000010 },
        ("ora", Aby) => Op { code: 0x19, size: 3, cycles: 4, check: true, mask: 0b10000010 },
        ("ora", Izx) => Op { code: 0x01, size: 2, cycles: 6, check: false, mask: 0b10000010 },
        ("ora", Izy) => Op { code: 0x11, size: 2, cycles: 5, check: true, mask: 0b10000010 },
        ("pha", Imp) => Op { code: 0x48, size: 1, cycles: 3, check: false, mask: 0b00000000 },
        ("php", Imp) => Op { code: 0x08, size: 1, cycles: 3, check: false, mask: 0b00000000 },
        ("pla", Imp) => Op { code: 0x68, size: 1, cycles: 4, check: false, mask: 0b10000010 },
        ("plp", Imp) => Op { code: 0x28, size: 1, cycles: 4, check: false, mask: 0b11011111 },
        ("rol", Imp) => Op { code: 0x2A, size: 1, cycles: 2, check: false, mask: 0b10000011 },
        ("rol", Zpo) => Op { code: 0x26, size: 2, cycles: 5, check: false, mask: 0b10000011 },
        ("rol", Zpx) => Op { code: 0x36, size: 2, cycles: 6, check: false, mask: 0b10000011 },
        ("rol", Abs) => Op { code: 0x2E, size: 3, cycles: 6, check: false, mask: 0b10000011 },
        ("rol", Abx) => Op { code: 0x3E, size: 3, cycles: 7, check: false, mask: 0b10000011 },
        ("ror", Imp) => Op { code: 0x6A, size: 1, cycles: 2, check: false, mask: 0b10000011 },
        ("ror", Zpo) => Op { code: 0x66, size: 2, cycles: 5, check: false, mask: 0b10000011 },
        ("ror", Zpx) => Op { code: 0x76, size: 2, cycles: 6, check: false, mask: 0b10000011 },
        ("ror", Abs) => Op { code: 0x6E, size: 3, cycles: 6, check: false, mask: 0b10000011 },
        ("ror", Abx) => Op { code: 0x7E, size: 3, cycles: 7, check: false, mask: 0b10000011 },
        ("rti", Imp) => Op { code: 0x40, size: 1, cycles: 6, check: false, mask: 0b11011111 },
        ("rts", Imp) => Op { code: 0x60, size: 0, cycles: 6, check: false, mask: 0b00000000 },
        ("sbc", Imm) => Op { code: 0xE9, size: 2, cycles: 2, check: false, mask: 0b11000011 },
        ("sbc", Zpo) => Op { code: 0xE5, size: 2, cycles: 3, check: false, mask: 0b11000011 },
        ("sbc", Zpx) => Op { code: 0xF5, size: 2, cycles: 4, check: false, mask: 0b11000011 },
        ("sbc", Abs) => Op { code: 0xED, size: 3, cycles: 4, check: false, mask: 0b11000011 },
        ("sbc", Abx) => Op { code: 0xFD, size: 3, cycles: 4, check: true, mask: 0b11000011 },
        ("sbc", Aby) => Op { code: 0xF9, size: 3, cycles: 4, check: true, mask: 0b11000011 },
        ("sbc", Izx) => Op { code: 0xE1, size: 2, cycles: 6, check: false, mask: 0b11000011 },
        ("sbc", Izy) => Op { code: 0xF1, size: 2, cycles: 5, check: true, mask: 0b11000011 },
        ("sec", Imp) => Op { code: 0x38, size: 1, cycles: 2, check: false, mask: 0b00000001 },
        ("sed", Imp) => Op { code: 0xF8, size: 1, cycles: 2, check: false, mask: 0b00001000 },
        ("sei", Imp) => Op { code: 0x78, size: 1, cycles: 2, check: false, mask: 0b00000100 },
        ("sta", Zpo) => Op { code: 0x85, size: 2, cycles: 3, check: false, mask: 0b00000000 },
        ("sta", Zpx) => Op { code: 0x95, size: 2, cycles: 4, check: false, mask: 0b00000000 },
        ("sta", Abs) => Op { code: 0x8D, size: 3, cycles: 4, check: false, mask: 0b00000000 },
        ("sta", Abx) => Op { code: 0x9D, size: 3, cycles: 5, check: false, mask: 0b00000000 },
        ("sta", Aby) => Op { code: 0x99, size: 3, cycles: 5, check: false, mask: 0b00000000 },
        ("sta", Izx) => Op { code: 0x81, size: 2, cycles: 6, check: false, mask: 0b00000000 },
        ("sta", Izy) => Op { code: 0x91, size: 2, cycles: 6, check: false, mask: 0b00000000 },
        ("stx", Zpo) => Op { code: 0x86, size: 2, cycles: 3, check: false, mask: 0b00000000 },
        ("stx", Zpy) => Op { code: 0x96, size: 2, cycles: 4, check: false, mask: 0b00000000 },
        ("stx", Abs) => Op { code: 0x8E, size: 3, cycles: 4, check: false, mask: 0b00000000 },
        ("sty", Zpo) => Op { code: 0x84, size: 2, cycles: 3, check: false, mask: 0b00000000 },
        ("sty", Zpx) => Op { code: 0x94, size: 2, cycles: 4, check: false, mask: 0b00000000 },
        ("sty", Abs) => Op { code: 0x8C, size: 3, cycles: 4, check: false, mask: 0b00000000 },
        ("tax", Imp) => Op { code: 0xAA, size: 1, cycles: 2, check: false, mask: 0b10000010 },
        ("tay", Imp) => Op { code: 0xA8, size: 1, cycles: 2, check: false, mask: 0b10000010 },
        ("tsx", Imp) => Op { code: 0xBA, size: 1, cycles: 2, check: false, mask: 0b10000010 },
        ("txa", Imp) => Op { code: 0x8A, size: 1, cycles: 2, check: false, mask: 0b10000010 },
        ("txs", Imp) => Op { code: 0x9A, size: 1, cycles: 2, check: false, mask: 0b00000000 },
        ("tya", Imp) => Op { code: 0x98, size: 1, cycles: 2, check: false, mask: 0b10000010 },
        (_, _) => panic!("invalid instruction"),
    }
}
