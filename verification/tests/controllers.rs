use gb_mbc::bus::{BusEffects, Huc3Register, Mbc, NoMbc, RamAccess};
use gb_mbc::huc3::Huc3;
use gb_mbc::mbc1::Mbc1;
use gb_mbc::mbc3::Mbc3;
use gb_mbc::mbc5::Mbc5;

fn none() -> BusEffects {
    BusEffects::none()
}

fn rom(offset: u32) -> BusEffects {
    BusEffects { rom_bank_offset: Some(offset), ..none() }
}

fn ram(offset: usize) -> BusEffects {
    BusEffects { ram_bank_offset: Some(offset), ..none() }
}

fn access(a: RamAccess) -> BusEffects {
    BusEffects { ram_access: Some(a), ..none() }
}

#[test]
fn no_mbc_ignores_everything() {
    let mut m = NoMbc::new();
    assert_eq!(m.on_write(0x2000, 5), none());
    assert_eq!(m.on_write(0x0000, 0x0A), none());
    assert_eq!(m.on_idle(), none());
}

#[test]
fn mbc1_starts_at_bank_one() {
    let m = Mbc1::new();
    assert_eq!(m.rom_bank(), 1);
    assert_eq!(m.mode(), 0);
}

#[test]
fn mbc1_ram_enable() {
    let mut m = Mbc1::new();
    assert_eq!(m.write(0x0000, 0x0A), access(RamAccess::ReadWrite));
    assert_eq!(m.write(0x1FFF, 0xFA), access(RamAccess::ReadWrite));
    assert_eq!(m.write(0x0000, 0x0B), access(RamAccess::Disabled));
    assert_eq!(m.write(0x0000, 0x00), access(RamAccess::Disabled));
}

#[test]
fn mbc1_rom_bank_low_bits() {
    let mut m = Mbc1::new();
    assert_eq!(m.write(0x2000, 5), rom(5 * 0x4000));
    assert_eq!(m.rom_bank(), 5);
    // Only the five low bits count.
    assert_eq!(m.write(0x3FFF, 0xE7), rom(7 * 0x4000));
    assert_eq!(m.rom_bank(), 7);
}

#[test]
fn mbc1_bank_zero_reads_as_one() {
    let mut m = Mbc1::new();
    m.write(0x2000, 3);
    assert_eq!(m.write(0x2000, 0), rom(0x4000));
    assert_eq!(m.rom_bank(), 1);
    // 0x20 has no low bits either.
    assert_eq!(m.write(0x2000, 0x20), none());
    assert_eq!(m.rom_bank(), 1);
}

#[test]
fn mbc1_high_bits_in_rom_mode() {
    let mut m = Mbc1::new();
    m.write(0x2000, 2);
    // High bits 1: bank 0x22.
    assert_eq!(m.write(0x4000, 1), rom(0x22 * 0x4000));
    assert_eq!(m.rom_bank(), 0x22);
    // High bits 2: bank 0x42, which keeps six bits: 0x02.
    assert_eq!(m.write(0x4000, 2), rom(0x02 * 0x4000));
    assert_eq!(m.rom_bank(), 0x02);
    // High bits 3: 0x62 keeps six bits: 0x22.
    assert_eq!(m.write(0x5FFF, 0xFF), rom(0x22 * 0x4000));
}

#[test]
fn mbc1_ram_banking_mode() {
    let mut m = Mbc1::new();
    m.write(0x2000, 2);
    m.write(0x4000, 1);
    assert_eq!(m.rom_bank(), 0x22);
    // RAM banking mode: the high bits no longer select ROM.
    assert_eq!(m.write(0x6000, 1), rom(0x02 * 0x4000));
    assert_eq!(m.mode(), 1);
    // In RAM banking mode the bank register moves the RAM window.
    assert_eq!(m.write(0x4000, 3), ram(3 * 0x2000));
    assert_eq!(m.write(0x4000, 0x06), ram(2 * 0x2000));
    assert_eq!(m.rom_bank(), 0x02);
    // Back in ROM mode, the high bits written before the switch count again.
    assert_eq!(m.write(0x7FFF, 0xFE), rom(0x22 * 0x4000));
    assert_eq!(m.mode(), 0);
}

#[test]
fn mbc1_ignores_high_writes() {
    let mut m = Mbc1::new();
    assert_eq!(m.write(0x8000, 5), none());
    assert_eq!(m.write(0xA000, 0x0A), none());
    assert_eq!(m.write(0xFFFF, 0x0A), none());
    assert_eq!(m.rom_bank(), 1);
    // Address bits above 15 are not decoded.
    assert_eq!(m.write(0x12000, 4), rom(4 * 0x4000));
}

#[test]
fn mbc1_write_twice_moves_once() {
    let mut m = Mbc1::new();
    assert_eq!(m.write(0x2000, 9), rom(9 * 0x4000));
    assert_eq!(m.write(0x2000, 9), none());
    assert_eq!(m.rom_bank(), 9);
}

#[test]
fn mbc1_idle_does_nothing() {
    let mut m = Mbc1::new();
    assert_eq!(m.on_idle(), none());
    assert_eq!(m.on_write(0x2000, 4), rom(4 * 0x4000));
    assert_eq!(m.rom_bank(), 4);
}

#[test]
fn mbc3_masks() {
    assert_eq!(Mbc3::new(128).rom_bank_mask(), 0x7F);
    assert_eq!(Mbc3::new(129).rom_bank_mask(), 0xFF);
    assert_eq!(Mbc3::new(0).rom_bank_mask(), 0x7F);
    let m = Mbc3::new(256);
    assert_eq!(m.rom_bank(), 1);
    assert!(!m.ram_enabled());
}

#[test]
fn mbc3_rom_bank() {
    let mut m = Mbc3::new(128);
    assert_eq!(m.write(0x2000, 0x85), rom(0x05 * 0x4000));
    assert_eq!(m.rom_bank(), 5);
    assert_eq!(m.write(0x2000, 0x80), rom(0x4000));
    assert_eq!(m.rom_bank(), 1);
    let mut big = Mbc3::new(256);
    assert_eq!(big.write(0x2000, 0x85), rom(0x85 * 0x4000));
    assert_eq!(big.write(0x2000, 0x00), rom(0x4000));
    assert_eq!(big.write(0x2000, 0x00), none());
}

#[test]
fn mbc3_ram_and_clock() {
    let mut m = Mbc3::new(64);
    // RAM bank 1 is selected after power-on.
    assert_eq!(m.write(0x0000, 0x0A), access(RamAccess::ReadWrite));
    assert!(m.ram_enabled());
    // A RAM bank with the window open.
    assert_eq!(
        m.write(0x4000, 0x02),
        BusEffects { ram_bank_offset: Some(2 * 0x2000), ram_access: Some(RamAccess::ReadWrite), ..none() }
    );
    // A clock register with the window open.
    assert_eq!(
        m.write(0x4000, 0x0C),
        BusEffects { rtc_register: Some(4), ram_access: Some(RamAccess::Rtc), ..none() }
    );
    // Closing and reopening keeps the clock selected.
    assert_eq!(m.write(0x0000, 0x00), access(RamAccess::Disabled));
    assert_eq!(m.write(0x0000, 0x0A), access(RamAccess::Rtc));
    assert_eq!(m.write(0x0000, 0x00), access(RamAccess::Disabled));
    // With the window closed only the bank moves.
    assert_eq!(m.write(0x4000, 0x07), ram(7 * 0x2000));
    assert_eq!(m.write(0x4000, 0x0F), BusEffects { rtc_register: Some(7), ..none() });
    assert_eq!(m.write(0x4000, 0x08), BusEffects { rtc_register: Some(0), ..none() });
}

#[test]
fn mbc3_latch_on_zero_then_one() {
    let mut m = Mbc3::new(64);
    assert_eq!(m.write(0x6000, 0), none());
    assert_eq!(m.write(0x6000, 1), BusEffects { rtc_latch: true, ..none() });
    assert_eq!(m.write(0x6000, 1), none());
    assert_eq!(m.write(0x6000, 7), none());
    assert_eq!(m.write(0x6000, 0), none());
    assert_eq!(m.write(0x6000, 7), BusEffects { rtc_latch: true, ..none() });
}

#[test]
fn mbc3_idle_lets_the_clock_run() {
    let mut m = Mbc3::new(64);
    assert_eq!(m.idle(), BusEffects { rtc_process: true, ..none() });
    assert_eq!(m.on_idle(), BusEffects { rtc_process: true, ..none() });
    assert_eq!(m.rom_bank(), 1);
}

#[test]
fn mbc3_ignores_high_writes() {
    let mut m = Mbc3::new(64);
    assert_eq!(m.write(0x9000, 3), none());
    assert_eq!(m.write(0xC000, 0x0A), none());
    assert!(!m.ram_enabled());
}

#[test]
fn mbc5_rom_bank_parts() {
    let mut m = Mbc5::new();
    assert_eq!(m.rom_bank(), 1);
    assert_eq!(m.write(0x3000, 1), rom(0x101 * 0x4000));
    assert_eq!(m.rom_bank(), 0x101);
    assert_eq!(m.write(0x2000, 0x00), rom(0x100 * 0x4000));
    assert_eq!(m.write(0x2FFF, 0xAB), rom(0x1AB * 0x4000));
    // Only bit 0 of the high register counts.
    assert_eq!(m.write(0x3000, 0xFE), rom(0xAB * 0x4000));
    assert_eq!(m.rom_bank(), 0xAB);
    // Bank 0 can be selected.
    assert_eq!(m.write(0x2000, 0), rom(0));
    assert_eq!(m.rom_bank(), 0);
}

#[test]
fn mbc5_ram_bank() {
    let mut m = Mbc5::new();
    assert_eq!(m.ram_bank(), 1);
    assert_eq!(m.write(0x4000, 0x13), ram(3 * 0x2000));
    assert_eq!(m.ram_bank(), 3);
    // Bank 5 shows RAM bank 1.
    assert_eq!(m.write(0x4FFF, 0x05), ram(0x2000));
    assert_eq!(m.ram_bank(), 5);
    assert_eq!(m.write(0x4000, 0x05), none());
    // 0x5000-0x5FFF is not decoded.
    assert_eq!(m.write(0x5000, 0x02), none());
    assert_eq!(m.ram_bank(), 5);
}

#[test]
fn mbc5_ram_enable() {
    let mut m = Mbc5::new();
    assert_eq!(m.write(0x0000, 0x0A), access(RamAccess::ReadWrite));
    assert_eq!(m.write(0x1000, 0x1A), access(RamAccess::ReadWrite));
    assert_eq!(m.write(0x1FFF, 0x00), access(RamAccess::Disabled));
    assert_eq!(m.on_idle(), none());
}

#[test]
fn huc3_power_on() {
    let m = Huc3::new();
    assert_eq!(m.io_register(Huc3Register::CommandArg), 0x80);
    assert_eq!(m.io_register(Huc3Register::Response), 0x80);
    assert_eq!(m.io_register(Huc3Register::Semaphore), 0x81);
    assert_eq!(m.io_register(Huc3Register::Ir), 0x80);
    assert_eq!(m.rom_bank(), 1);
    assert_eq!(m.ram_bank(), 0);
    assert_eq!(m.rtc_addr(), 0);
    assert_eq!(m.rtc_memory_at(0), 0);
    assert_eq!(m.rtc_memory_at(255), 0);
}

#[test]
fn huc3_ram_window_modes() {
    let mut m = Huc3::new();
    assert_eq!(m.write(0x0000, 0x00), access(RamAccess::ReadOnly));
    assert_eq!(m.write(0x0000, 0x0A), access(RamAccess::ReadWrite));
    assert_eq!(m.write(0x0000, 0x0B), access(RamAccess::Huc3Io(Huc3Register::CommandArg)));
    assert_eq!(m.write(0x0000, 0x0C), access(RamAccess::Huc3Io(Huc3Register::Response)));
    assert_eq!(m.write(0x0000, 0x0D), access(RamAccess::Huc3Io(Huc3Register::Semaphore)));
    assert_eq!(m.write(0x1000, 0xFE), access(RamAccess::Huc3Io(Huc3Register::Ir)));
    assert_eq!(m.write(0x0000, 0x01), access(RamAccess::Disabled));
    assert_eq!(m.write(0x0000, 0x0F), access(RamAccess::Disabled));
}

#[test]
fn huc3_banks() {
    let mut m = Huc3::new();
    assert_eq!(m.write(0x2000, 0x85), rom(0x05 * 0x4000));
    assert_eq!(m.rom_bank(), 5);
    // Bank 0 can be selected.
    assert_eq!(m.write(0x2000, 0x00), rom(0));
    assert_eq!(m.write(0x4000, 0x07), ram(3 * 0x2000));
    assert_eq!(m.ram_bank(), 3);
    assert_eq!(m.write(0x4000, 0x07), none());
    assert_eq!(m.write(0x6000, 0x07), none());
    assert_eq!(m.write(0xA000, 0x07), none());
}

fn request(m: &mut Huc3, command: u8) -> u8 {
    m.set_io_register(Huc3Register::CommandArg, command);
    m.set_io_register(Huc3Register::Semaphore, 0x80);
    m.process_io();
    assert_eq!(m.io_register(Huc3Register::Semaphore), 0x81);
    m.io_register(Huc3Register::Response)
}

#[test]
fn huc3_clock_memory_read_back() {
    let mut m = Huc3::new();
    // Set the address to 0x5C.
    assert_eq!(request(&mut m, 0x4C), 0xC0);
    assert_eq!(request(&mut m, 0x55), 0xD0);
    assert_eq!(m.rtc_addr(), 0x5C);
    // Store 9 and 3 at 0x5C and 0x5D.
    assert_eq!(request(&mut m, 0x39), 0xB0);
    assert_eq!(request(&mut m, 0x33), 0xB0);
    assert_eq!(m.rtc_addr(), 0x5E);
    assert_eq!(m.rtc_memory_at(0x5C), 9);
    assert_eq!(m.rtc_memory_at(0x5D), 3);
    assert_eq!(m.rtc_memory_at(0x5E), 0);
    // Read them back.
    request(&mut m, 0x4C);
    assert_eq!(request(&mut m, 0x10), 0x99);
    assert_eq!(request(&mut m, 0x10), 0x93);
    assert_eq!(request(&mut m, 0x10), 0x90);
    assert_eq!(m.rtc_addr(), 0x5F);
}

#[test]
fn huc3_address_wraps() {
    let mut m = Huc3::new();
    request(&mut m, 0x4F);
    request(&mut m, 0x5F);
    assert_eq!(m.rtc_addr(), 0xFF);
    request(&mut m, 0x37);
    assert_eq!(m.rtc_addr(), 0x00);
    assert_eq!(m.rtc_memory_at(0xFF), 7);
}

#[test]
fn huc3_other_commands() {
    let mut m = Huc3::new();
    // Command 6 answers 1 to argument 2 only.
    assert_eq!(request(&mut m, 0x62), 0xE1);
    assert_eq!(request(&mut m, 0x63), 0xE0);
    // Commands without a meaning answer with their command field.
    assert_eq!(request(&mut m, 0x2F), 0xA0);
    assert_eq!(request(&mut m, 0x7A), 0xF0);
    // The top bit of the command register is ignored.
    assert_eq!(request(&mut m, 0xE2), 0xE1);
    assert_eq!(m.rtc_addr(), 0);
}

#[test]
fn huc3_command_waits_for_semaphore() {
    let mut m = Huc3::new();
    m.set_io_register(Huc3Register::CommandArg, 0x35);
    // The semaphore still reads 0x81: nothing runs.
    assert_eq!(m.idle(), none());
    assert_eq!(m.rtc_memory_at(0), 0);
    assert_eq!(m.io_register(Huc3Register::Response), 0x80);
    // The Game Boy clears the low semaphore bit; the next idle serves it once.
    m.set_io_register(Huc3Register::Semaphore, 0x00);
    assert_eq!(m.on_idle(), none());
    assert_eq!(m.rtc_memory_at(0), 5);
    assert_eq!(m.rtc_addr(), 1);
    assert_eq!(m.io_register(Huc3Register::Semaphore), 0x81);
    m.idle();
    assert_eq!(m.rtc_addr(), 1);
}

#[test]
fn huc3_write_serves_pending_command() {
    let mut m = Huc3::new();
    m.set_io_register(Huc3Register::CommandArg, 0x34);
    m.set_io_register(Huc3Register::Semaphore, 0x80);
    assert_eq!(m.write(0x2000, 0x02), rom(2 * 0x4000));
    assert_eq!(m.rtc_memory_at(0), 4);
    assert_eq!(m.io_register(Huc3Register::Semaphore), 0x81);
    assert_eq!(m.io_register(Huc3Register::Response), 0xB0);
}

#[test]
fn huc3_ir_register_is_kept() {
    let mut m = Huc3::new();
    m.set_io_register(Huc3Register::Ir, 0x81);
    m.process_io();
    assert_eq!(m.io_register(Huc3Register::Ir), 0x81);
    m.execute_command();
    assert_eq!(m.io_register(Huc3Register::Response), 0x80);
}

#[test]
fn mbc3_write_twice_moves_once() {
    let mut m = Mbc3::new(200);
    assert_eq!(m.write(0x2000, 0xC3), rom(0xC3 * 0x4000));
    assert_eq!(m.write(0x2000, 0xC3), none());
    assert_eq!(m.rom_bank(), 0xC3);
}

#[test]
fn mbc5_largest_windows() {
    let mut m = Mbc5::new();
    m.write(0x2000, 0xFF);
    assert_eq!(m.write(0x3000, 0x01), rom(0x1FF * 0x4000));
    assert_eq!(m.write(0x3000, 0x01), none());
    assert_eq!(m.write(0x4000, 0x0F), ram(3 * 0x2000));
    assert_eq!(m.write(0x4000, 0x0F), none());
    assert_eq!(m.write(0x8000, 0x00), none());
    assert_eq!(m.rom_bank(), 0x1FF);
    assert_eq!(m.ram_bank(), 0x0F);
}

#[test]
fn huc3_write_twice_moves_once() {
    let mut m = Huc3::new();
    assert_eq!(m.write(0x2000, 0x7F), rom(0x7F * 0x4000));
    assert_eq!(m.write(0x2000, 0x7F), none());
    assert_eq!(m.write(0x4000, 0x01), ram(0x2000));
    assert_eq!(m.write(0x4000, 0x01), none());
}

fn command(m: &mut Huc3, command_arg: u8) -> u8 {
    m.set_io_register(Huc3Register::CommandArg, command_arg);
    m.execute_command();
    m.io_register(Huc3Register::Response)
}

#[test]
fn huc3_execute_command_read_back() {
    let mut m = Huc3::new();
    let a: u8 = 0xA7;
    command(&mut m, 0x40 | (a & 0x0F));
    command(&mut m, 0x50 | (a >> 4));
    command(&mut m, 0x30 | 0x0E);
    command(&mut m, 0x40 | (a & 0x0F));
    command(&mut m, 0x50 | (a >> 4));
    assert_eq!(command(&mut m, 0x10), 0x9E);
    assert_eq!(m.rtc_addr(), 0xA8);
    assert_eq!(m.rtc_memory_at(0xA7), 0x0E);
}

#[test]
fn huc3_io_registers_reachable() {
    let mut m = Huc3::new();
    m.io_mut().command_arg = 0x36;
    m.io_mut().semaphore = 0x80;
    assert_eq!(m.io_register(Huc3Register::CommandArg), 0x36);
    m.process_io();
    assert_eq!(m.rtc_memory_at(0), 6);
    assert_eq!(m.io_mut().response, 0xB0);
    assert_eq!(m.io_mut().semaphore, 0x81);
}

#[test]
fn mbc3_ram_bank_moves_window_then_opens() {
    let mut m = Mbc3::new(64);
    m.write(0x0000, 0x0A);
    let e = m.write(0x4000, 0x03);
    assert_eq!(e.ram_bank_offset, Some(3 * 0x2000));
    assert_eq!(e.ram_access, Some(RamAccess::ReadWrite));
}
