use gameboy::alu;
use gameboy::bus::Bus;
use gameboy::cartridge::{Cartridge, CartridgeError, CartrigeModels};
use gameboy::controller::{Button, Controller};
use gameboy::flags::Flags;
use gameboy::ppu::State;
use gameboy::registers::Registers;
use gameboy::timer::Timer;

fn no_flags() -> Flags {
    Flags { zero: false, negative: false, half_carry: false, carry: false }
}

fn header(kind: u8, rom_code: u8, ram_code: u8, banks: usize) -> Vec<u8> {
    let mut rom = vec![0u8; banks * 0x4000];
    rom[0x147] = kind;
    rom[0x148] = rom_code;
    rom[0x149] = ram_code;
    for b in 0..banks {
        rom[b * 0x4000 + 1] = b as u8;
    }
    rom
}

#[test]
fn echo_ram_mirrors_work_ram() {
    let mut bus = Bus::new();
    bus.write_8(0xc123, 0x5a);
    assert_eq!(bus.read_8(0xe123), 0x5a);
    bus.write_8(0xfdff, 0x77);
    assert_eq!(bus.read_8(0xddff), 0x77);
    for k in [0u16, 0x100, 0x1dff] {
        assert_eq!(bus.read_8(0xc000 + k), bus.read_8(0xe000 + k));
    }
}

#[test]
fn oam_writes_ignored_in_pixel_transfer() {
    let mut bus = Bus::new();
    // run the OAM scan of the first line: 80 dots, four per machine cycle
    for _ in 0..20 {
        bus.tick();
    }
    assert_eq!(bus.ppu.state, State::PixelTransfer);
    bus.write_8(0xfe10, 0x99);
    assert_eq!(bus.ppu.read_oam(0x10), 0);
    assert_eq!(bus.read_8(0xfe10), 0xff);
    // VRAM is locked too
    bus.write_8(0x8000, 0x12);
    assert_eq!(bus.ppu.read_vram(0), 0);
}

#[test]
fn boot_rom_unmapped_after_ff50() {
    let mut rom = vec![0u8; 0x8000];
    rom[0] = 0xab;
    rom[0xff] = 0xcd;
    let mut bus = Bus::new();
    bus.load_cartridge(Cartridge::load(&rom).unwrap());
    assert_eq!(bus.read_8(0x0000), 0x31);
    assert_eq!(bus.read_8(0xff50), 0);
    bus.write_8(0xff50, 0x01);
    assert_eq!(bus.read_8(0x0000), 0xab);
    assert_eq!(bus.read_8(0x00ff), 0xcd);
    bus.write_8(0xff50, 0x00);
    assert_eq!(bus.read_8(0x0000), 0xab);
    assert_eq!(bus.read_8(0xff50), 1);
}

#[test]
fn dma_from_high_ram_page() {
    let mut bus = Bus::new();
    for _ in 0..144 {
        bus.tick();
    }
    bus.write_8(0xff81, 0x42);
    bus.write_8(0xff46, 0xff);
    assert_eq!(bus.ppu.read_oam(0x81), 0x42);
    // FF46 itself is read before the write lands: it held 0
    assert_eq!(bus.ppu.read_oam(0x46), 0x00);
}

#[test]
fn divider_counts_clock_cycles() {
    let mut t = Timer::default();
    for _ in 0..256 {
        t.tick();
    }
    assert_eq!(t.divider_register, 256);
    assert_eq!(t.get_div(), 1);
    t.set_div(0x55);
    assert_eq!(t.divider_register, 0);
    t.divider_register = 0xffff;
    t.tick();
    assert_eq!(t.divider_register, 0);
}

#[test]
fn timer_registers_store_values() {
    let mut t = Timer::default();
    t.set_tima(0x12);
    t.set_tma(0x34);
    t.set_tac(0x07);
    assert_eq!(t.get_tima(), 0x12);
    assert_eq!(t.get_tma(), 0x34);
    assert_eq!(t.get_tac(), 0xff);
    t.set_tac(0x01);
    assert_eq!(t.get_tac(), 0xf9);
}

#[test]
fn timer_disabled_does_not_count() {
    let mut t = Timer::default();
    t.set_tac(0x01);
    for _ in 0..64 {
        assert!(!t.tick());
    }
    assert_eq!(t.get_tima(), 0);
    t.set_tac(0x05);
    for _ in 0..64 {
        t.tick();
    }
    assert_eq!(t.get_tima(), 4);
}

#[test]
fn joypad_status_and_interrupt() {
    let mut c = Controller::new();
    c.set_controller_status(0x10);
    assert_eq!(c.get_controller_status(), 0x1f);
    c.press_up();
    assert!(c.is_interrupted());
    assert!(!c.is_interrupted());
    assert_eq!(c.get_controller_status(), 0x1b);
    c.press_a();
    assert!(!c.is_interrupted());
    assert_eq!(c.get_controller_status(), 0x1b);
    c.set_controller_status(0x20);
    assert_eq!(c.get_controller_status(), 0x2e);
    c.press_b();
    c.press_start();
    c.press_select();
    assert!(c.b && c.start && c.select);
    assert_eq!(c.get_controller_status(), 0x20);
    c.unpress_a();
    c.unpress_b();
    c.unpress_start();
    c.unpress_select();
    c.unpress_up();
    assert_eq!(c.get_controller_status(), 0x2f);
}

#[test]
fn press_records_each_button() {
    let mut c = Controller::new();
    c.press_down();
    c.press_left();
    c.press_right();
    assert!(c.down && c.left && c.right && !c.up);
    c.unpress_down();
    c.unpress_left();
    c.unpress_right();
    assert!(!c.down && !c.left && !c.right);
    c.press(Button::Select);
    assert!(c.select && !c.a);
    c.release(Button::Select);
    assert!(!c.select);
}

#[test]
fn header_errors() {
    assert_eq!(Cartridge::load(&vec![0u8; 0x100]).err(), Some(CartridgeError::InvalidHeader));
    assert_eq!(Cartridge::load(&header(0x04, 0, 0, 2)).err(), Some(CartridgeError::InvalidHeader));
    assert_eq!(Cartridge::load(&header(0x00, 0x09, 0, 2)).err(), Some(CartridgeError::InvalidHeader));
    assert_eq!(Cartridge::load(&header(0x00, 0, 0x06, 2)).err(), Some(CartridgeError::InvalidHeader));
    let mut short = header(0x01, 0x01, 0, 4);
    short.truncate(0x4000 * 3);
    assert_eq!(Cartridge::load(&short).err(), Some(CartridgeError::InvalidHeader));
    let c = Cartridge::load(&header(0x01, 0x01, 0, 4)).unwrap();
    assert_eq!(c.model, CartrigeModels::MBC1);
    assert_eq!(c.rom.len(), 4 * 0x4000);
}

#[test]
fn title_bytes() {
    let mut rom = header(0x00, 0, 0, 2);
    for (i, b) in b"TETRIS".iter().enumerate() {
        rom[0x134 + i] = *b;
    }
    let c = Cartridge::load(&rom).unwrap();
    assert_eq!(c.title.len(), 16);
    assert_eq!(&c.title[0..6], b"TETRIS");
}

#[test]
fn mbc1_bank_switching() {
    let mut c = Cartridge::load(&header(0x01, 0x06, 0, 128)).unwrap();
    assert_eq!(c.read_active_bank(1), 1);
    c.write_bank0(0x2000, 0x05);
    assert_eq!(c.read_active_bank(1), 5);
    c.write_bank0(0x2000, 0x00);
    assert_eq!(c.read_active_bank(1), 1);
    c.write_active_bank(0x0000, 0x01);
    assert_eq!(c.read_active_bank(1), 0x21);
    c.write_bank0(0x2000, 0x20);
    assert_eq!(c.read_active_bank(1), 0x21);
    c.write_active_bank(0x2000, 0x01);
    assert_eq!(c.read_active_bank(1), 0x01);
    assert_eq!(c.read_bank0(1), 0);
}

#[test]
fn mbc1_ram_enable_and_banks() {
    let mut c = Cartridge::load(&header(0x03, 0x00, 0x03, 2)).unwrap();
    assert_eq!(c.read_active_ram(0), 0xff);
    c.write_active_ram(0, 0x11);
    c.write_bank0(0x0000, 0x0a);
    assert_eq!(c.read_active_ram(0), 0x00);
    c.write_active_ram(0, 0x11);
    assert_eq!(c.read_active_ram(0), 0x11);
    c.write_active_bank(0x2000, 0x01);
    c.write_active_bank(0x0000, 0x02);
    assert_eq!(c.read_active_ram(0), 0x00);
    c.write_active_ram(0, 0x22);
    c.write_active_bank(0x0000, 0x00);
    assert_eq!(c.read_active_ram(0), 0x11);
    c.write_bank0(0x0000, 0x00);
    assert_eq!(c.read_active_ram(0), 0xff);
}

#[test]
fn mbc2_registers_by_address_bit() {
    let mut c = Cartridge::load(&header(0x05, 0x02, 0, 8)).unwrap();
    c.write_bank0(0x2100, 0x03);
    assert_eq!(c.read_active_bank(1), 3);
    c.write_bank0(0x0000, 0x0a);
    c.write_active_ram(0x205, 0x5c);
    assert_eq!(c.read_active_ram(0x005), 0xfc);
}

#[test]
fn rom_only_ignores_control_writes() {
    let mut c = Cartridge::load(&header(0x00, 0, 0, 2)).unwrap();
    c.write_bank0(0x2000, 0x03);
    assert_eq!(c.read_active_bank(1), 1);
    assert_eq!(c.read_active_ram(0), 0xff);
}

#[test]
fn prohibited_area_and_unmapped_io() {
    let mut bus = Bus::new();
    bus.write_8(0xfea5, 0x12);
    assert_eq!(bus.read_8(0xfea5), 0);
    bus.write_8(0xff10, 0x12);
    assert_eq!(bus.read_8(0xff10), 0);
    bus.write_8(0xff80, 0x34);
    bus.write_8(0xfffe, 0x56);
    assert_eq!(bus.read_8(0xff80), 0x34);
    assert_eq!(bus.read_8(0xfffe), 0x56);
    bus.write_8(0xffff, 0x1f);
    assert!(bus.is_vblank_interrup_enabled());
    assert!(bus.is_stat_interrup_enabled());
    assert!(bus.is_time_interrup_enabled());
    assert!(bus.is_serial_interrup_enabled());
    assert!(bus.is_joypad_interrup_enabled());
    bus.write_8(0xffff, 0x00);
    assert!(!bus.is_joypad_interrup_enabled());
}

#[test]
fn lcd_registers() {
    let mut bus = Bus::new();
    bus.write_8(0xff42, 0x11);
    bus.write_8(0xff43, 0x22);
    bus.write_8(0xff45, 0x00);
    bus.write_8(0xff41, 0xff);
    bus.write_8(0xff44, 0x99);
    assert_eq!(bus.read_8(0xff42), 0x11);
    assert_eq!(bus.read_8(0xff43), 0x22);
    assert_eq!(bus.read_8(0xff44), 0);
    // enables 0x78, LY == LYC, OAM scan
    assert_eq!(bus.read_8(0xff41), 0x7e);
    assert_eq!(bus.ppu.get_state(), 2);
}

#[test]
fn read_write_16_little_endian() {
    let mut bus = Bus::new();
    bus.write_16(0xc000, 0xabcd);
    assert_eq!(bus.read_8(0xc000), 0xcd);
    assert_eq!(bus.read_8(0xc001), 0xab);
    assert_eq!(bus.read_16(0xc000), 0xabcd);
}

#[test]
fn ppu_line_timing_and_vblank() {
    let mut bus = Bus::new();
    for _ in 0..114 {
        bus.tick();
    }
    assert_eq!(bus.ppu.y, 1);
    assert_eq!(bus.ppu.state, State::OAMSearch);
    for _ in 0..(143 * 114) {
        bus.tick();
    }
    assert_eq!(bus.ppu.y, 144);
    assert_eq!(bus.ppu.state, State::VBlank);
    assert_ne!(bus.read_8(0xff0f) & 0x01, 0);
    let mut frame = false;
    for _ in 0..(10 * 114) {
        frame = bus.tick() || frame;
    }
    assert!(frame);
    assert_eq!(bus.ppu.y, 0);
    assert_eq!(bus.ppu.state, State::OAMSearch);
}

#[test]
fn ppu_draws_background_tile() {
    let mut bus = Bus::new();
    // tile 0, line 0: low plane 0xff, high plane 0x00 -> colour 1 on the whole line
    bus.write_8(0x8000, 0xff);
    bus.write_8(0xff40, 0x91);
    bus.write_8(0xff47, 0xe4);
    for _ in 0..114 {
        bus.tick();
    }
    for x in 0..160 {
        assert_eq!(bus.ppu.framebuffer[x], 1);
    }
    assert_eq!(bus.ppu.framebuffer[160], 0);
}

#[test]
fn ppu_signed_tile_addressing() {
    let mut bus = Bus::new();
    // LCDC bit 4 clear: tile 0 lives at 0x9000
    bus.write_8(0x9000, 0x00);
    bus.write_8(0x9001, 0xff);
    bus.write_8(0xff40, 0x81);
    bus.write_8(0xff47, 0xe4);
    for _ in 0..114 {
        bus.tick();
    }
    assert_eq!(bus.ppu.framebuffer[0], 2);
    assert_eq!(bus.ppu.framebuffer[159], 2);
}

#[test]
fn registers_pairs_wrap() {
    let mut r = Registers::default();
    r.set_bc(0xffff);
    r.inc_bc();
    assert_eq!(r.get_bc(), 0);
    r.dec_bc();
    assert_eq!(r.get_bc(), 0xffff);
    r.set_de(0x1234);
    assert_eq!((r.d, r.e), (0x12, 0x34));
    r.inc_de();
    r.dec_de();
    r.dec_de();
    assert_eq!(r.get_de(), 0x1233);
    r.set_hl(0);
    r.dec_hl();
    assert_eq!(r.get_hl(), 0xffff);
    r.inc_hl();
    assert_eq!(r.get_hl(), 0);
    r.sp = 0;
    r.dec_sp();
    assert_eq!(r.sp, 0xffff);
    r.inc_sp();
    assert_eq!(r.sp, 0);
}

#[test]
fn flags_byte_round_trip() {
    let mut f = no_flags();
    f.set_flags(0xff);
    assert_eq!(f.get_flags(), 0xf0);
    f.clear_flags();
    assert_eq!(f.get_flags(), 0x00);
    f.set_flags(0xa5);
    assert!(f.zero && !f.negative && f.half_carry && !f.carry);
    f.set_zero(0);
    assert!(f.zero);
    f.set_zero(3);
    assert!(!f.zero);
    f.set_half_carry_8(0x0f, 0x01);
    assert!(f.half_carry);
    f.set_half_carry_8(0x0e, 0x01);
    assert!(!f.half_carry);
    f.set_half_carry_16(0x0fff, 0x0001);
    assert!(f.half_carry);
    f.set_half_carry_16(0x0ffe, 0x0001);
    assert!(!f.half_carry);
}

#[test]
fn bit_after_set_and_res() {
    for v in [0x00u8, 0x5a, 0xff] {
        for n in 0..8 {
            assert!(!alu::bit(alu::set(v, n), n, no_flags()).zero);
            assert!(alu::bit(alu::res(v, n), n, no_flags()).zero);
        }
    }
}

#[test]
fn rlc_eight_times_restores() {
    for v in 0..=255u8 {
        let mut x = v;
        let mut f = no_flags();
        for _ in 0..8 {
            let r = alu::rlc(x, true);
            x = r.0;
            f = r.1;
        }
        assert_eq!(x, v);
        assert_eq!(f.carry, v & 1 == 1);
    }
    assert_eq!(alu::rlc(0x85, true), (0x0b, Flags { carry: true, ..no_flags() }));
}

#[test]
fn daa_add_then_sub_restores() {
    for a in 0..100u8 {
        for b in [0u8, 1, 9, 10, 55, 99] {
            let ab = (a / 10) * 16 + a % 10;
            let bb = (b / 10) * 16 + b % 10;
            let (s, f) = alu::add(ab, bb, false);
            let (d, _) = alu::daa(s, f);
            assert_eq!(d, ((a + b) % 100 / 10) * 16 + (a + b) % 10);
            let (t, g) = alu::sub(d, bb, false);
            let (e, _) = alu::daa(t, g);
            assert_eq!(e, ab);
        }
    }
}

#[test]
fn alu_exact_values() {
    assert_eq!(alu::add(0x3a, 0xc6, false), (0x00, Flags { zero: true, negative: false, half_carry: true, carry: true }));
    assert_eq!(alu::add(0xe1, 0x0f, true), (0xf1, Flags { zero: false, negative: false, half_carry: true, carry: false }));
    assert_eq!(alu::sub(0x3e, 0x3e, false), (0x00, Flags { zero: true, negative: true, half_carry: false, carry: false }));
    assert_eq!(alu::sub(0x3b, 0x2a, true), (0x10, Flags { zero: false, negative: true, half_carry: false, carry: false }));
    assert_eq!(alu::sub(0x3b, 0x4f, true), (0xeb, Flags { zero: false, negative: true, half_carry: true, carry: true }));
    assert_eq!(alu::inc(0xff, Flags { carry: true, ..no_flags() }), (0x00, Flags { zero: true, negative: false, half_carry: true, carry: true }));
    assert_eq!(alu::dec(0x00, no_flags()), (0xff, Flags { zero: false, negative: true, half_carry: true, carry: false }));
    assert_eq!(alu::rrc(0x01, true), (0x80, Flags { carry: true, ..no_flags() }));
    assert_eq!(alu::rl(0x80, no_flags(), true), (0x00, Flags { zero: true, carry: true, ..no_flags() }));
    assert_eq!(alu::rr(0x01, Flags { carry: true, ..no_flags() }, true), (0x80, Flags { carry: true, ..no_flags() }));
    assert_eq!(alu::rlc(0x00, false), (0x00, no_flags()));
    assert_eq!(alu::sla(0xff), (0xfe, Flags { carry: true, ..no_flags() }));
    assert_eq!(alu::sra(0x81), (0xc0, Flags { carry: true, ..no_flags() }));
    assert_eq!(alu::srl(0x01), (0x00, Flags { zero: true, carry: true, ..no_flags() }));
    assert_eq!(alu::swap(0xf0), (0x0f, no_flags()));
    assert_eq!(alu::daa(0x7d, no_flags()).0, 0x83);
    assert_eq!(alu::add16(0x8a23, 0x8a23, no_flags()), (0x1446, Flags { half_carry: true, carry: true, ..no_flags() }));
    assert_eq!(alu::add_sp(0xfff8, 0x02), (0xfffa, no_flags()));
    assert_eq!(alu::add_sp(0x00ff, 0x01), (0x0100, Flags { half_carry: true, carry: true, ..no_flags() }));
}

#[test]
fn largest_rom_and_ram_sizes() {
    let rom = header(0x03, 0x08, 0x05, 512);
    let mut c = Cartridge::load(&rom).unwrap();
    assert_eq!(c.rom.len(), 8 * 1024 * 1024);
    assert_eq!(c.ram.len(), 128 * 1024);
    // bank 0x7f: low bits 0x1f, high bits 3
    c.write_bank0(0x2000, 0x1f);
    c.write_active_bank(0x0000, 0x03);
    assert_eq!(c.read_active_bank(1), 0x7f);
}

#[test]
fn extra_banks_beyond_declared_size_are_ignored() {
    let mut rom = header(0x00, 0x00, 0x00, 2);
    rom.extend_from_slice(&[0xee; 0x4000]);
    let c = Cartridge::load(&rom).unwrap();
    assert_eq!(c.rom.len(), 0x8000);
}

#[test]
fn rom_size_codes_above_eight_are_rejected() {
    for code in [0x09u8, 0x52, 0x53, 0x54] {
        let rom = header(0x01, code, 0x00, 96);
        assert_eq!(Cartridge::load(&rom).err(), Some(CartridgeError::InvalidHeader));
    }
}

#[test]
fn mbc1_small_rom_never_maps_bank_zero_high() {
    let mut c = Cartridge::load(&header(0x01, 0x01, 0, 4)).unwrap();
    c.write_bank0(0x2000, 0x04);
    assert_eq!(c.read_active_bank(1), 1);
    c.write_bank0(0x2000, 0x03);
    assert_eq!(c.read_active_bank(1), 3);
}

#[test]
fn fetcher_starts_on_the_row_containing_ly() {
    let mut bus = Bus::new();
    for col in 0..32u16 {
        bus.write_8(0x9800 + col, 1);
        bus.write_8(0x9820 + col, 2);
    }
    // tile 1: colour 1 on every line; tile 2: colour 2 on every line
    for line in 0..8u16 {
        bus.write_8(0x8010 + 2 * line, 0xff);
        bus.write_8(0x8020 + 2 * line + 1, 0xff);
    }
    bus.write_8(0xff42, 8);
    bus.write_8(0xff40, 0x91);
    bus.write_8(0xff47, 0xe4);
    for _ in 0..114 {
        bus.tick();
    }
    for x in 0..160 {
        assert_eq!(bus.ppu.framebuffer[x], 1);
    }
}

#[test]
fn power_on_state() {
    let gb = gameboy::gameboy::GameBoy::new();
    let bus = &gb.cpu.bus;
    assert!(bus.ram.iter().all(|b| *b == 0));
    assert!(bus.ppu.vram.iter().all(|b| *b == 0));
    assert!(bus.ppu.oam.iter().all(|b| *b == 0));
    assert_eq!(bus.ppu.state, State::OAMSearch);
    assert_eq!(bus.ppu.y, 0);
    assert_eq!(bus.timer, Timer::default());
    assert_eq!(bus.read_8(0x0000), 0x31);
    assert_eq!(gb.cpu.registers, Registers::default());
}
