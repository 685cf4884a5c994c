use gameboy::bus::Bus;
use gameboy::cartridge::Cartridge;
use gameboy::controller::Button;
use gameboy::cpu::{Cpu, CpuError};
use gameboy::gameboy::{GameBoy, HostEvent};

/// A 32 KiB ROM-only image with a valid header and `program` at 0x0100.
fn rom_with_program(program: &[u8]) -> Vec<u8> {
    let mut rom = vec![0u8; 0x8000];
    for (i, b) in program.iter().enumerate() {
        rom[0x100 + i] = *b;
    }
    rom
}

fn cpu_with_program(program: &[u8]) -> Cpu {
    let mut cpu = Cpu::new();
    let cart = Cartridge::load(&rom_with_program(program)).unwrap();
    cpu.start(cart);
    cpu.bus.write_8(0xff50, 1);
    cpu.registers.pc = 0x0100;
    cpu
}

#[test]
fn power_on_boot_fingerprint() {
    let mut cpu = Cpu::new();
    cpu.registers.pc = 0x0000;
    cpu.registers.sp = 0x0000;
    cpu.interruption_enabled = false;
    let mut steps = 0;
    while cpu.registers.pc != 0x000c {
        cpu.next().unwrap();
        steps += 1;
        assert!(steps < 100_000);
    }
    assert_eq!(cpu.registers.sp, 0xfffe);
    assert_eq!(cpu.registers.a, 0x00);
    // the clearing loop ends once HL has gone below 0x8000
    assert_eq!(cpu.registers.get_hl(), 0x7fff);
    assert!(cpu.flags.zero);
    for address in 0x8000u16..=0x9fff {
        assert_eq!(cpu.bus.read_8(address), 0);
    }
}

#[test]
fn ldh_round_trip() {
    let mut cpu = cpu_with_program(&[0x3e, 0xaa, 0xe0, 0x80, 0xf0, 0x80]);
    for _ in 0..3 {
        cpu.next().unwrap();
    }
    assert_eq!(cpu.registers.a, 0xaa);
    assert_eq!(cpu.bus.read_8(0xff80), 0xaa);
    assert_eq!(cpu.registers.pc, 0x0106);
}

#[test]
fn oam_dma_copies_160_bytes() {
    let mut bus = Bus::new();
    for i in 0..0xa0u16 {
        bus.write_8(0xc000 + i, (i & 0xff) as u8);
    }
    bus.write_8(0xff46, 0xc0);
    for i in 0..0xa0usize {
        assert_eq!(bus.ppu.read_oam(i), (i & 0xff) as u8);
    }
    assert_eq!(bus.ppu.oam.len(), 160);
}

#[test]
fn timer_overflow_reloads_and_requests() {
    let mut bus = Bus::new();
    bus.write_8(0xff06, 0xab);
    bus.write_8(0xff05, 0xff);
    bus.write_8(0xff07, 0x05);
    for _ in 0..16 {
        bus.tick();
    }
    assert_eq!(bus.read_8(0xff05), 0xab);
    assert_ne!(bus.read_8(0xff0f) & 0x04, 0);
}

#[test]
fn joypad_interrupt_is_served() {
    let mut gb = GameBoy::new();
    gb.cpu.bus.write_8(0xff50, 1);
    gb.cpu.bus.write_8(0xff00, 0x10);
    gb.cpu.bus.write_8(0xffff, 0x10);
    gb.cpu.interruption_enabled = true;
    gb.cpu.registers.sp = 0xfffe;
    gb.cpu.registers.pc = 0x0150;
    gb.handle_event(HostEvent::Press(Button::Up));
    assert_ne!(gb.cpu.bus.read_8(0xff0f) & 0x10, 0);
    assert_eq!(gb.cpu.next(), Ok(20));
    assert_eq!(gb.cpu.registers.pc, 0x0060);
    assert_eq!(gb.cpu.bus.read_8(0xff0f) & 0x10, 0);
    assert_eq!(gb.cpu.bus.read_16(0xfffc), 0x0150);
}

#[test]
fn load_hl_increment() {
    let mut cpu = Cpu::new();
    cpu.bus.write_8(0xc000, 0x22);
    cpu.registers.pc = 0xc000;
    cpu.registers.set_hl(0x8000);
    cpu.registers.a = 0x42;
    cpu.flags.zero = true;
    cpu.flags.carry = true;
    let before = cpu.flags;
    assert_eq!(cpu.next(), Ok(8));
    assert_eq!(cpu.bus.read_8(0x8000), 0x42);
    assert_eq!(cpu.registers.get_hl(), 0x8001);
    assert_eq!(cpu.flags, before);
}

#[test]
fn illegal_opcode_is_reported() {
    let mut cpu = cpu_with_program(&[0x00, 0xd3]);
    assert_eq!(cpu.next(), Ok(4));
    assert_eq!(cpu.next(), Err(CpuError::IllegalOpcode { pc: 0x0101, opcode: 0xd3 }));
}

#[test]
fn call_and_ret() {
    // CALL 0x0200 ; at 0x0200: RET
    let mut rom = rom_with_program(&[0xcd, 0x00, 0x02]);
    rom[0x200] = 0xc9;
    let mut cpu = Cpu::new();
    cpu.start(Cartridge::load(&rom).unwrap());
    cpu.bus.write_8(0xff50, 1);
    cpu.registers.pc = 0x0100;
    cpu.registers.sp = 0xfffe;
    assert_eq!(cpu.next(), Ok(24));
    assert_eq!(cpu.registers.pc, 0x0200);
    assert_eq!(cpu.registers.sp, 0xfffc);
    assert_eq!(cpu.bus.read_16(0xfffc), 0x0103);
    assert_eq!(cpu.next(), Ok(16));
    assert_eq!(cpu.registers.pc, 0x0103);
    assert_eq!(cpu.registers.sp, 0xfffe);
}

#[test]
fn ret_pops_top_of_stack() {
    let mut cpu = Cpu::new();
    cpu.registers.sp = 0xc100;
    cpu.bus.write_16(0xc100, 0x1234);
    cpu.ret();
    assert_eq!(cpu.registers.pc, 0x1234);
    assert_eq!(cpu.registers.sp, 0xc102);
}

#[test]
fn push_pop_order() {
    // PUSH BC ; POP DE
    let mut cpu = cpu_with_program(&[0xc5, 0xd1]);
    cpu.registers.sp = 0xd000;
    cpu.registers.set_bc(0xbeef);
    assert_eq!(cpu.next(), Ok(16));
    assert_eq!(cpu.registers.sp, 0xcffe);
    assert_eq!(cpu.bus.read_8(0xcffe), 0xef);
    assert_eq!(cpu.bus.read_8(0xcfff), 0xbe);
    assert_eq!(cpu.next(), Ok(12));
    assert_eq!(cpu.registers.get_de(), 0xbeef);
    assert_eq!(cpu.registers.sp, 0xd000);
}

#[test]
fn pop_af_masks_low_nibble() {
    // POP AF
    let mut cpu = cpu_with_program(&[0xf1]);
    cpu.registers.sp = 0xc000;
    cpu.bus.write_16(0xc000, 0x12ff);
    cpu.next().unwrap();
    assert_eq!(cpu.registers.a, 0x12);
    assert_eq!(cpu.flags.get_flags(), 0xf0);
}

#[test]
fn conditional_jump_cycles() {
    // JR NZ,+2 with Z set (not taken), then JR Z,+2 (taken)
    let mut cpu = cpu_with_program(&[0x20, 0x02, 0x28, 0x02]);
    cpu.flags.zero = true;
    assert_eq!(cpu.next(), Ok(8));
    assert_eq!(cpu.registers.pc, 0x0102);
    assert_eq!(cpu.next(), Ok(12));
    assert_eq!(cpu.registers.pc, 0x0106);
}

#[test]
fn jr_backwards() {
    let mut cpu = cpu_with_program(&[0x00, 0x18, 0xfd]);
    cpu.next().unwrap();
    cpu.next().unwrap();
    assert_eq!(cpu.registers.pc, 0x0100);
}

#[test]
fn and_sets_half_carry_only() {
    // LD A,0xF0 ; AND 0x0F
    let mut cpu = cpu_with_program(&[0x3e, 0xf0, 0xe6, 0x0f]);
    cpu.flags.carry = true;
    cpu.next().unwrap();
    cpu.next().unwrap();
    assert_eq!(cpu.registers.a, 0);
    assert_eq!(cpu.flags.get_flags(), 0xa0);
}

#[test]
fn and_register_is_and() {
    // LD A,0x3C ; LD B,0x0F ; AND B
    let mut cpu = cpu_with_program(&[0x3e, 0x3c, 0x06, 0x0f, 0xa0]);
    for _ in 0..3 {
        cpu.next().unwrap();
    }
    assert_eq!(cpu.registers.a, 0x0c);
}

#[test]
fn ei_takes_effect_after_next_instruction() {
    // EI ; NOP ; NOP with a pending VBlank request
    let mut cpu = cpu_with_program(&[0xfb, 0x00, 0x00]);
    cpu.registers.sp = 0xd000;
    cpu.bus.write_8(0xffff, 0x01);
    cpu.bus.write_8(0xff0f, 0x01);
    cpu.next().unwrap();
    assert_eq!(cpu.registers.pc, 0x0101);
    cpu.next().unwrap();
    assert_eq!(cpu.registers.pc, 0x0102);
    assert_eq!(cpu.next(), Ok(20));
    assert_eq!(cpu.registers.pc, 0x0040);
}

#[test]
fn di_disables_at_once() {
    let mut cpu = cpu_with_program(&[0xf3, 0x00]);
    cpu.interruption_enabled = true;
    cpu.next().unwrap();
    assert!(!cpu.interruption_enabled);
    cpu.bus.write_8(0xffff, 0x01);
    cpu.bus.write_8(0xff0f, 0x01);
    cpu.next().unwrap();
    assert_eq!(cpu.registers.pc, 0x0102);
}

#[test]
fn halt_exits_without_service_when_ime_clear() {
    let mut cpu = cpu_with_program(&[0x76, 0x00]);
    assert_eq!(cpu.next(), Ok(4));
    assert!(cpu.is_halted);
    assert_eq!(cpu.next(), Ok(4));
    assert!(cpu.is_halted);
    cpu.bus.write_8(0xffff, 0x04);
    cpu.bus.write_8(0xff0f, 0x04);
    cpu.next().unwrap();
    assert!(!cpu.is_halted);
    cpu.next().unwrap();
    assert_eq!(cpu.registers.pc, 0x0102);
}

#[test]
fn cb_instruction_cycles_and_effect() {
    // SET 3,B ; BIT 3,B ; RES 3,B ; BIT 3,B ; SWAP (HL)
    let mut cpu = cpu_with_program(&[0xcb, 0xd8, 0xcb, 0x58, 0xcb, 0x98, 0xcb, 0x58, 0xcb, 0x36]);
    assert_eq!(cpu.next(), Ok(8));
    assert_eq!(cpu.registers.b, 0x08);
    assert_eq!(cpu.next(), Ok(8));
    assert!(!cpu.flags.zero);
    assert_eq!(cpu.next(), Ok(8));
    assert_eq!(cpu.registers.b, 0x00);
    assert_eq!(cpu.next(), Ok(8));
    assert!(cpu.flags.zero);
    cpu.registers.set_hl(0xc010);
    cpu.bus.write_8(0xc010, 0x1f);
    assert_eq!(cpu.next(), Ok(16));
    assert_eq!(cpu.bus.read_8(0xc010), 0xf1);
}

#[test]
fn add_hl_flags() {
    // ADD HL,BC
    let mut cpu = cpu_with_program(&[0x09]);
    cpu.registers.set_hl(0x0fff);
    cpu.registers.set_bc(0x0001);
    cpu.flags.zero = true;
    cpu.next().unwrap();
    assert_eq!(cpu.registers.get_hl(), 0x1000);
    assert!(cpu.flags.half_carry);
    assert!(!cpu.flags.carry);
    assert!(cpu.flags.zero);
    assert!(!cpu.flags.negative);
}

#[test]
fn ld_hl_sp_plus_negative() {
    // LD HL,SP-1
    let mut cpu = cpu_with_program(&[0xf8, 0xff]);
    cpu.registers.sp = 0x0100;
    cpu.next().unwrap();
    assert_eq!(cpu.registers.get_hl(), 0x00ff);
    assert!(!cpu.flags.carry);
    assert!(!cpu.flags.half_carry);
}

#[test]
fn rst_pushes_and_jumps() {
    let mut cpu = cpu_with_program(&[0xef]);
    cpu.registers.sp = 0xd000;
    assert_eq!(cpu.next(), Ok(16));
    assert_eq!(cpu.registers.pc, 0x0028);
    assert_eq!(cpu.bus.read_16(0xcffe), 0x0101);
}

#[test]
fn paused_machine_does_not_step() {
    let mut gb = GameBoy::new();
    gb.handle_event(HostEvent::TogglePause);
    assert_eq!(gb.step(), Ok(false));
    assert_eq!(gb.cpu.registers.pc, 0);
    gb.handle_event(HostEvent::TogglePause);
    assert_eq!(gb.step(), Ok(false));
    assert_eq!(gb.cpu.registers.pc, 3);
    gb.handle_event(HostEvent::Quit);
    assert!(!gb.running);
}

#[test]
fn a_frame_completes() {
    let mut gb = GameBoy::new();
    gb.cpu.bus.write_8(0xff50, 1);
    let mut frames = 0;
    let mut steps = 0;
    while frames == 0 {
        if gb.step().unwrap() {
            frames += 1;
        }
        steps += 1;
        assert!(steps < 100_000);
    }
    // 154 lines of 456 dots; a NOP takes 4 cycles of 4 dots each
    assert_eq!(steps, 154 * 456 / 16);
    assert_ne!(gb.cpu.bus.read_8(0xff0f) & 0x01, 0);
}

#[test]
fn daa_round_trip_through_instructions() {
    for (a, b) in [(0x45u8, 0x38u8), (0x99, 0x99), (0x00, 0x01), (0x50, 0x50)] {
        // ADD A,b ; DAA ; SUB b ; DAA
        let mut cpu = cpu_with_program(&[0xc6, b, 0x27, 0xd6, b, 0x27]);
        cpu.registers.a = a;
        for _ in 0..4 {
            cpu.next().unwrap();
        }
        assert_eq!(cpu.registers.a, a);
    }
}
