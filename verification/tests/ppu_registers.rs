use nes_emulator::cartridge::Cartridge;
use nes_emulator::ppu::registers::Registers;

#[test]
fn ppu_table_write_and_read() {
    let cart = Cartridge::mock_cartridge();
    let mut registers = Registers::new(cart);

    registers.ppu_write_reg(0x2000u16, 1u8);
    let res = registers.ppu_read_reg(0x2000u16);

    assert_eq!(res, 1u8)
}

#[test]
fn ppu_status_register_write_and_read() {
    let cart = Cartridge::mock_cartridge();
    let mut registers = Registers::new(cart);

    registers.status_flags.set_sprite_overflow(true);

    assert_eq!(registers.status_flags.sprite_overflow(), true);
    assert_eq!(registers.status_flags.0, 0b00_10_00_00);

    registers.status_flags.set_sprite_overflow(false);

    assert_eq!(registers.status_flags.sprite_overflow(), false);
    assert_eq!(registers.status_flags.0, 0b00_00_00_00);
}
