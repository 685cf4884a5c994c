use vstd::prelude::*;
use crate::zeroed;
use crate::cartridge::{Cartridge, banks_after_write};
use crate::controller::{Button, Controller};
use crate::ppu::{Ppu, PpuEvents, State, dot_effect, registers_after_write, OAM_SIZE, FRAME_SIZE};
use crate::timer::Timer;

verus! {

pub const RAM_SIZE: usize = 0x2000;
pub const HIRAM_SIZE: usize = 0x7f;
pub const BOOT_SEQUENCE_SIZE: usize = 0x100;

/// Interrupt bits of IE and IF.
pub const INTERRUPT_VBLANK: u8 = 0x01;
pub const INTERRUPT_STAT: u8 = 0x02;
pub const INTERRUPT_TIMER: u8 = 0x04;
pub const INTERRUPT_SERIAL: u8 = 0x08;
pub const INTERRUPT_JOYPAD: u8 = 0x10;

/// The 256 bytes of the boot program mapped over 0000-00FF at power-on.
pub open spec fn boot_sequence() -> Seq<u8> {
    seq![
        0x31u8, 0xfeu8, 0xffu8, 0xafu8, 0x21u8, 0xffu8, 0x9fu8, 0x32u8,
        0xcbu8, 0x7cu8, 0x20u8, 0xfbu8, 0x21u8, 0x26u8, 0xffu8, 0x0eu8,
        0x11u8, 0x3eu8, 0x80u8, 0x32u8, 0xe2u8, 0x0cu8, 0x3eu8, 0xf3u8,
        0xe2u8, 0x32u8, 0x3eu8, 0x77u8, 0x77u8, 0x3eu8, 0xfcu8, 0xe0u8,
        0x47u8, 0x11u8, 0x04u8, 0x01u8, 0x21u8, 0x10u8, 0x80u8, 0x1au8,
        0xcdu8, 0x95u8, 0x00u8, 0xcdu8, 0x96u8, 0x00u8, 0x13u8, 0x7bu8,
        0xfeu8, 0x34u8, 0x20u8, 0xf3u8, 0x11u8, 0xd8u8, 0x00u8, 0x06u8,
        0x08u8, 0x1au8, 0x13u8, 0x22u8, 0x23u8, 0x05u8, 0x20u8, 0xf9u8,
        0x3eu8, 0x19u8, 0xeau8, 0x10u8, 0x99u8, 0x21u8, 0x2fu8, 0x99u8,
        0x0eu8, 0x0cu8, 0x3du8, 0x28u8, 0x08u8, 0x32u8, 0x0du8, 0x20u8,
        0xf9u8, 0x2eu8, 0x0fu8, 0x18u8, 0xf3u8, 0x67u8, 0x3eu8, 0x64u8,
        0x57u8, 0xe0u8, 0x42u8, 0x3eu8, 0x91u8, 0xe0u8, 0x40u8, 0x04u8,
        0x1eu8, 0x02u8, 0x0eu8, 0x0cu8, 0xf0u8, 0x44u8, 0xfeu8, 0x90u8,
        0x20u8, 0xfau8, 0x0du8, 0x20u8, 0xf7u8, 0x1du8, 0x20u8, 0xf2u8,
        0x0eu8, 0x13u8, 0x24u8, 0x7cu8, 0x1eu8, 0x83u8, 0xfeu8, 0x62u8,
        0x28u8, 0x06u8, 0x1eu8, 0xc1u8, 0xfeu8, 0x64u8, 0x20u8, 0x06u8,
        0x7bu8, 0xe2u8, 0x0cu8, 0x3eu8, 0x87u8, 0xe2u8, 0xf0u8, 0x42u8,
        0x90u8, 0xe0u8, 0x42u8, 0x15u8, 0x20u8, 0xd2u8, 0x05u8, 0x20u8,
        0x4fu8, 0x16u8, 0x20u8, 0x18u8, 0xcbu8, 0x4fu8, 0x06u8, 0x04u8,
        0xc5u8, 0xcbu8, 0x11u8, 0x17u8, 0xc1u8, 0xcbu8, 0x11u8, 0x17u8,
        0x05u8, 0x20u8, 0xf5u8, 0x22u8, 0x23u8, 0x22u8, 0x23u8, 0xc9u8,
        0xceu8, 0xedu8, 0x66u8, 0x66u8, 0xccu8, 0x0du8, 0x00u8, 0x0bu8,
        0x03u8, 0x73u8, 0x00u8, 0x83u8, 0x00u8, 0x0cu8, 0x00u8, 0x0du8,
        0x00u8, 0x08u8, 0x11u8, 0x1fu8, 0x88u8, 0x89u8, 0x00u8, 0x0eu8,
        0xdcu8, 0xccu8, 0x6eu8, 0xe6u8, 0xddu8, 0xddu8, 0xd9u8, 0x99u8,
        0xbbu8, 0xbbu8, 0x67u8, 0x63u8, 0x6eu8, 0x0eu8, 0xecu8, 0xccu8,
        0xddu8, 0xdcu8, 0x99u8, 0x9fu8, 0xbbu8, 0xb9u8, 0x33u8, 0x3eu8,
        0x3cu8, 0x42u8, 0xb9u8, 0xa5u8, 0xb9u8, 0xa5u8, 0x42u8, 0x3cu8,
        0x21u8, 0x04u8, 0x01u8, 0x11u8, 0xa8u8, 0x00u8, 0x1au8, 0x13u8,
        0xbeu8, 0x20u8, 0xfeu8, 0x23u8, 0x7du8, 0xfeu8, 0x34u8, 0x20u8,
        0xf5u8, 0x06u8, 0x19u8, 0x78u8, 0x86u8, 0x23u8, 0x05u8, 0x20u8,
        0xfbu8, 0x86u8, 0x20u8, 0xfeu8, 0x3eu8, 0x01u8, 0xe0u8, 0x50u8,
    ]
}

fn boot_sequence_bytes() -> (v: Vec<u8>)
    ensures
        v@ == boot_sequence(),
{
    let v = vec![
        0x31u8, 0xfeu8, 0xffu8, 0xafu8, 0x21u8, 0xffu8, 0x9fu8, 0x32u8,
        0xcbu8, 0x7cu8, 0x20u8, 0xfbu8, 0x21u8, 0x26u8, 0xffu8, 0x0eu8,
        0x11u8, 0x3eu8, 0x80u8, 0x32u8, 0xe2u8, 0x0cu8, 0x3eu8, 0xf3u8,
        0xe2u8, 0x32u8, 0x3eu8, 0x77u8, 0x77u8, 0x3eu8, 0xfcu8, 0xe0u8,
        0x47u8, 0x11u8, 0x04u8, 0x01u8, 0x21u8, 0x10u8, 0x80u8, 0x1au8,
        0xcdu8, 0x95u8, 0x00u8, 0xcdu8, 0x96u8, 0x00u8, 0x13u8, 0x7bu8,
        0xfeu8, 0x34u8, 0x20u8, 0xf3u8, 0x11u8, 0xd8u8, 0x00u8, 0x06u8,
        0x08u8, 0x1au8, 0x13u8, 0x22u8, 0x23u8, 0x05u8, 0x20u8, 0xf9u8,
        0x3eu8, 0x19u8, 0xeau8, 0x10u8, 0x99u8, 0x21u8, 0x2fu8, 0x99u8,
        0x0eu8, 0x0cu8, 0x3du8, 0x28u8, 0x08u8, 0x32u8, 0x0du8, 0x20u8,
        0xf9u8, 0x2eu8, 0x0fu8, 0x18u8, 0xf3u8, 0x67u8, 0x3eu8, 0x64u8,
        0x57u8, 0xe0u8, 0x42u8, 0x3eu8, 0x91u8, 0xe0u8, 0x40u8, 0x04u8,
        0x1eu8, 0x02u8, 0x0eu8, 0x0cu8, 0xf0u8, 0x44u8, 0xfeu8, 0x90u8,
        0x20u8, 0xfau8, 0x0du8, 0x20u8, 0xf7u8, 0x1du8, 0x20u8, 0xf2u8,
        0x0eu8, 0x13u8, 0x24u8, 0x7cu8, 0x1eu8, 0x83u8, 0xfeu8, 0x62u8,
        0x28u8, 0x06u8, 0x1eu8, 0xc1u8, 0xfeu8, 0x64u8, 0x20u8, 0x06u8,
        0x7bu8, 0xe2u8, 0x0cu8, 0x3eu8, 0x87u8, 0xe2u8, 0xf0u8, 0x42u8,
        0x90u8, 0xe0u8, 0x42u8, 0x15u8, 0x20u8, 0xd2u8, 0x05u8, 0x20u8,
        0x4fu8, 0x16u8, 0x20u8, 0x18u8, 0xcbu8, 0x4fu8, 0x06u8, 0x04u8,
        0xc5u8, 0xcbu8, 0x11u8, 0x17u8, 0xc1u8, 0xcbu8, 0x11u8, 0x17u8,
        0x05u8, 0x20u8, 0xf5u8, 0x22u8, 0x23u8, 0x22u8, 0x23u8, 0xc9u8,
        0xceu8, 0xedu8, 0x66u8, 0x66u8, 0xccu8, 0x0du8, 0x00u8, 0x0bu8,
        0x03u8, 0x73u8, 0x00u8, 0x83u8, 0x00u8, 0x0cu8, 0x00u8, 0x0du8,
        0x00u8, 0x08u8, 0x11u8, 0x1fu8, 0x88u8, 0x89u8, 0x00u8, 0x0eu8,
        0xdcu8, 0xccu8, 0x6eu8, 0xe6u8, 0xddu8, 0xddu8, 0xd9u8, 0x99u8,
        0xbbu8, 0xbbu8, 0x67u8, 0x63u8, 0x6eu8, 0x0eu8, 0xecu8, 0xccu8,
        0xddu8, 0xdcu8, 0x99u8, 0x9fu8, 0xbbu8, 0xb9u8, 0x33u8, 0x3eu8,
        0x3cu8, 0x42u8, 0xb9u8, 0xa5u8, 0xb9u8, 0xa5u8, 0x42u8, 0x3cu8,
        0x21u8, 0x04u8, 0x01u8, 0x11u8, 0xa8u8, 0x00u8, 0x1au8, 0x13u8,
        0xbeu8, 0x20u8, 0xfeu8, 0x23u8, 0x7du8, 0xfeu8, 0x34u8, 0x20u8,
        0xf5u8, 0x06u8, 0x19u8, 0x78u8, 0x86u8, 0x23u8, 0x05u8, 0x20u8,
        0xfbu8, 0x86u8, 0x20u8, 0xfeu8, 0x3eu8, 0x01u8, 0xe0u8, 0x50u8,
    ];
    assert(v@ =~= boot_sequence());
    v
}

/// The timer after a write to FF04-FF07.
pub open spec fn timer_after_write(t: Timer, address: u16, value: u8) -> Timer {
    if address == 0xff04 {
        Timer { divider_register: 0, ..t }
    } else if address == 0xff05 {
        Timer { time_counter: value, ..t }
    } else if address == 0xff06 {
        Timer { time_modulo: value, ..t }
    } else if address == 0xff07 {
        Timer { time_enable: (value / 4) % 2 == 1, clock_mode: value % 4, ..t }
    } else {
        t
    }
}

/// The joypad after a write to FF00.
pub open spec fn controller_after_write(c: Controller, value: u8) -> Controller {
    Controller {
        button_keys_selected: (value / 32) % 2 == 1,
        direction_keys_selected: (value / 16) % 2 == 1,
        ..c
    }
}

/// The address space: work RAM, high RAM, the interrupt registers, the boot ROM overlay, and the
/// devices that answer in it.
pub struct Bus {
    pub ram: Vec<u8>,
    pub ppu: Ppu,
    pub cartridge: Cartridge,
    pub hiram: Vec<u8>,
    /// IE (FFFF).
    pub interrupt_enabled: u8,
    /// IF (FF0F).
    pub interrupt_flags: u8,
    /// The boot program is visible at 0000-00FF; cleared for good by a non-zero write to FF50.
    pub boot_rom_enabled: bool,
    pub boot_rom: Vec<u8>,
    pub controller: Controller,
    pub timer: Timer,
}

impl Bus {
    pub open spec fn wf(&self) -> bool {
        &&& self.ram@.len() == RAM_SIZE
        &&& self.hiram@.len() == HIRAM_SIZE
        &&& self.boot_rom@.len() == BOOT_SEQUENCE_SIZE
        &&& self.ppu.wf()
        &&& self.cartridge.wf()
    }

    /// What a read of `address` returns.
    pub open spec fn peek(&self, address: u16) -> u8 {
        let a = address as int;
        if a < 0x4000 {
            if self.boot_rom_enabled && a < 0x100 {
                self.boot_rom@[a]
            } else {
                self.cartridge.rom@[a]
            }
        } else if a < 0x8000 {
            self.cartridge.rom@[self.cartridge.active_bank() * 0x4000 + (a - 0x4000)]
        } else if a < 0xa000 {
            if self.ppu.state == State::PixelTransfer {
                0xff
            } else {
                self.ppu.vram@[a - 0x8000]
            }
        } else if a < 0xc000 {
            self.cartridge.ram_read(a - 0xa000)
        } else if a < 0xe000 {
            self.ram@[a - 0xc000]
        } else if a < 0xfe00 {
            self.ram@[a - 0xe000]
        } else if a < 0xfea0 {
            if self.ppu.state == State::PixelTransfer || self.ppu.state == State::OAMSearch {
                0xff
            } else {
                self.ppu.oam@[a - 0xfe00]
            }
        } else if a < 0xff00 {
            0
        } else if a == 0xff00 {
            self.controller.status()
        } else if a == 0xff04 {
            (self.timer.divider_register / 256) as u8
        } else if a == 0xff05 {
            self.timer.time_counter
        } else if a == 0xff06 {
            self.timer.time_modulo
        } else if a == 0xff07 {
            (0xf8 + (if self.timer.time_enable { 4int } else { 0 }) + self.timer.clock_mode % 4) as u8
        } else if a == 0xff0f {
            self.interrupt_flags
        } else if 0xff40 <= a <= 0xff4b {
            self.ppu.register_value(address)
        } else if a == 0xff50 {
            if self.boot_rom_enabled {
                0
            } else {
                1
            }
        } else if 0xff80 <= a <= 0xfffe {
            self.hiram@[a - 0xff80]
        } else if a == 0xffff {
            self.interrupt_enabled
        } else {
            0
        }
    }

    /// The 16-bit little-endian word at `address` (the high byte at the next address, wrapping).
    pub open spec fn peek16(&self, address: u16) -> u16 {
        (self.peek(address) as int + self.peek(((address as int + 1) % 65536) as u16) as int * 256) as u16
    }

    /// What OAM DMA from page `page` copies: 160 bytes read from `page << 8` on.
    pub open spec fn dma_source(&self, page: u8) -> Seq<u8> {
        Seq::new(OAM_SIZE as nat, |i: int| self.peek((page as int * 256 + i) as u16))
    }

    /// `n` is this bus after a write of `value` to `address`.
    pub open spec fn written(&self, n: Bus, address: u16, value: u8) -> bool {
        let a = address as int;
        let c = self.cartridge;
        &&& n.cartridge.rom == c.rom
        &&& n.cartridge.title == c.title
        &&& n.cartridge.model == c.model
        &&& n.cartridge.rom_size == c.rom_size
        &&& n.cartridge.ram_size == c.ram_size
        &&& n.cartridge.banks == if a < 0x8000 {
            banks_after_write(c.model, c.banks, a, value)
        } else {
            c.banks
        }
        &&& n.cartridge.ram@ == if 0xa000 <= a < 0xc000 {
            c.ram_after_write(a - 0xa000, value)
        } else {
            c.ram@
        }
        &&& n.ppu.vram@ == if 0x8000 <= a < 0xa000 && self.ppu.state != State::PixelTransfer {
            self.ppu.vram@.update(a - 0x8000, value)
        } else {
            self.ppu.vram@
        }
        &&& n.ppu.oam@ == if 0xfe00 <= a < 0xfea0 && self.ppu.state != State::PixelTransfer
            && self.ppu.state != State::OAMSearch {
            self.ppu.oam@.update(a - 0xfe00, value)
        } else if a == 0xff46 {
            self.dma_source(value)
        } else {
            self.ppu.oam@
        }
        &&& n.ppu.registers == if 0xff40 <= a <= 0xff4b {
            registers_after_write(self.ppu.registers, address, value)
        } else {
            self.ppu.registers
        }
        &&& n.ppu.framebuffer == self.ppu.framebuffer
        &&& n.ppu.fifo == self.ppu.fifo
        &&& n.ppu.tick == self.ppu.tick
        &&& n.ppu.x == self.ppu.x
        &&& n.ppu.y == self.ppu.y
        &&& n.ppu.state == self.ppu.state
        &&& n.ppu.fetcher == self.ppu.fetcher
        &&& n.ram@ == if 0xc000 <= a < 0xe000 {
            self.ram@.update(a - 0xc000, value)
        } else if 0xe000 <= a < 0xfe00 {
            self.ram@.update(a - 0xe000, value)
        } else {
            self.ram@
        }
        &&& n.hiram@ == if 0xff80 <= a <= 0xfffe {
            self.hiram@.update(a - 0xff80, value)
        } else {
            self.hiram@
        }
        &&& n.interrupt_enabled == if a == 0xffff {
            value
        } else {
            self.interrupt_enabled
        }
        &&& n.interrupt_flags == if a == 0xff0f {
            value & 0x1f
        } else {
            self.interrupt_flags
        }
        &&& n.boot_rom_enabled == (self.boot_rom_enabled && !(a == 0xff50 && value != 0))
        &&& n.boot_rom == self.boot_rom
        &&& n.controller == if a == 0xff00 {
            controller_after_write(self.controller, value)
        } else {
            self.controller
        }
        &&& n.timer == timer_after_write(self.timer, address, value)
    }

    /// `n` is this bus after a 16-bit write: the low byte at `address`, then the high byte at the
    /// next address.
    pub open spec fn written16(&self, n: Bus, address: u16, value: u16) -> bool {
        exists|mid: Bus|
            #![trigger self.written(mid, address, (value % 256) as u8)]
            self.written(mid, address, (value % 256) as u8) && mid.written(
                n,
                ((address as int + 1) % 65536) as u16,
                (value / 256) as u8,
            )
    }

    /// The power-on state: zeroed RAM, high RAM, VRAM, OAM and framebuffer, the boot program
    /// mapped, no interrupt enabled or requested, the pipeline at the start of the OAM scan of
    /// line 0, a zero timer and a fresh joypad.
    pub open spec fn powered_on(&self) -> bool {
        &&& self.ram@ == Seq::new(RAM_SIZE as nat, |i: int| 0u8)
        &&& self.hiram@ == Seq::new(HIRAM_SIZE as nat, |i: int| 0u8)
        &&& self.boot_rom@ == boot_sequence()
        &&& self.boot_rom_enabled
        &&& self.interrupt_enabled == 0
        &&& self.interrupt_flags == 0
        &&& self.ppu.state == State::OAMSearch
        &&& self.ppu.tick == 0
        &&& self.ppu.x == 0
        &&& self.ppu.y == 0
        &&& self.ppu.fifo@.len() == 0
        &&& self.ppu.vram@ == Seq::new(0x2000, |i: int| 0u8)
        &&& self.ppu.oam@ == Seq::new(OAM_SIZE as nat, |i: int| 0u8)
        &&& self.ppu.framebuffer@ == Seq::new(FRAME_SIZE as nat, |i: int| 0u8)
        &&& self.controller == Controller::new_spec()
        &&& self.timer == (Timer {
            divider_register: 0,
            time_counter: 0,
            time_modulo: 0,
            time_enable: false,
            clock_mode: 0,
        })
    }

    pub fn new() -> (b: Bus)
        ensures
            b.wf(),
            b.powered_on(),
    {
        Bus {
            ram: zeroed(RAM_SIZE),
            ppu: Ppu::new(),
            cartridge: Cartridge::new(),
            hiram: zeroed(HIRAM_SIZE),
            interrupt_enabled: 0,
            interrupt_flags: 0,
            boot_rom_enabled: true,
            boot_rom: boot_sequence_bytes(),
            controller: Controller::new(),
            timer: Timer {
                divider_register: 0,
                time_counter: 0,
                time_modulo: 0,
                time_enable: false,
                clock_mode: 0,
            },
        }
    }

    pub fn load_cartridge(&mut self, cartridge: Cartridge)
        requires
            old(self).wf(),
            cartridge.wf(),
        ensures
            final(self).wf(),
            *final(self) == (Bus { cartridge, ..*old(self) }),
    {
        self.cartridge = cartridge;
    }

    /// Maps the boot program over 0000-00FF again.
    pub fn load_boot_rom(&mut self)
        requires
            old(self).wf(),
        ensures
            final(self).wf(),
            final(self).boot_rom@ == boot_sequence(),
            *final(self) == (Bus { boot_rom_enabled: true, boot_rom: final(self).boot_rom, ..*old(self) }),
    {
        self.boot_rom = boot_sequence_bytes();
        self.boot_rom_enabled = true;
    }

    pub fn read_8(&self, address: u16) -> (r: u8)
        requires
            self.wf(),
        ensures
            r == self.peek(address),
    {
        let state = self.ppu.state;
        match address {
            0x0000..=0x3fff => {
                if self.boot_rom_enabled && address < 0x100 {
                    self.boot_rom[address as usize]
                } else {
                    self.cartridge.read_bank0(address as usize)
                }
            },
            0x4000..=0x7fff => self.cartridge.read_active_bank((address - 0x4000) as usize),
            0x8000..=0x9fff => {
                if state == State::PixelTransfer {
                    0xff
                } else {
                    self.ppu.read_vram((address - 0x8000) as usize)
                }
            },
            0xa000..=0xbfff => self.cartridge.read_active_ram((address - 0xa000) as usize),
            0xc000..=0xdfff => self.ram[(address - 0xc000) as usize],
            0xe000..=0xfdff => self.ram[(address - 0xe000) as usize],
            0xfe00..=0xfe9f => {
                if state == State::PixelTransfer || state == State::OAMSearch {
                    0xff
                } else {
                    self.ppu.read_oam((address - 0xfe00) as usize)
                }
            },
            0xfea0..=0xfeff => 0,
            0xff00 => self.controller.get_controller_status(),
            0xff04 => self.timer.get_div(),
            0xff05 => self.timer.get_tima(),
            0xff06 => self.timer.get_tma(),
            0xff07 => self.timer.get_tac(),
            0xff0f => self.interrupt_flags,
            0xff40..=0xff4b => self.ppu.read_registers(address),
            0xff50 => {
                if self.boot_rom_enabled {
                    0
                } else {
                    1
                }
            },
            0xff80..=0xfffe => self.hiram[(address - 0xff80) as usize],
            0xffff => self.interrupt_enabled,
            _ => 0,
        }
    }

    /// OAM DMA: copies 160 bytes from `page << 8` on into OAM. The copy is complete before the
    /// write returns, so no instruction ever runs while a transfer is in progress and the rule
    /// that only high RAM answers during a transfer has no moment at which it could apply.
    fn dma(&mut self, page: u8)
        requires
            old(self).wf(),
        ensures
            final(self).wf(),
            final(self).ppu.oam@ == old(self).dma_source(page),
            *final(self) == (Bus { ppu: final(self).ppu, ..*old(self) }),
            final(self).ppu.vram == old(self).ppu.vram,
            final(self).ppu.framebuffer == old(self).ppu.framebuffer,
            final(self).ppu.fifo == old(self).ppu.fifo,
            final(self).ppu.registers == old(self).ppu.registers,
            final(self).ppu.tick == old(self).ppu.tick,
            final(self).ppu.x == old(self).ppu.x,
            final(self).ppu.y == old(self).ppu.y,
            final(self).ppu.state == old(self).ppu.state,
            final(self).ppu.fetcher == old(self).ppu.fetcher,
    {
        let mut data: Vec<u8> = Vec::new();
        let base: u16 = page as u16 * 256;
        let mut i: u16 = 0;
        while i < OAM_SIZE as u16
            invariant
                i <= OAM_SIZE,
                base == page as int * 256,
                self.wf(),
                data@ == old(self).dma_source(page).subrange(0, i as int),
                *self == *old(self),
            decreases OAM_SIZE - i,
        {
            let v = self.read_8(base + i);
            data.push(v);
            i = i + 1;
            assert(data@ =~= old(self).dma_source(page).subrange(0, i as int));
        }
        assert(data@ =~= old(self).dma_source(page));
        self.ppu.set_oam(data);
    }

    pub fn write_8(&mut self, address: u16, value: u8)
        requires
            old(self).wf(),
        ensures
            final(self).wf(),
            old(self).written(*final(self), address, value),
    {
        if address < 0xff00 {
            self.write_memory(address, value);
        } else {
            self.write_io(address, value);
        }
    }

    #[verifier::rlimit(50)]
    fn write_memory(&mut self, address: u16, value: u8)
        requires
            old(self).wf(),
            address < 0xff00,
        ensures
            final(self).wf(),
            old(self).written(*final(self), address, value),
    {
        let state = self.ppu.state;
        match address {
            0x0000..=0x3fff => self.cartridge.write_bank0(address as usize, value),
            0x4000..=0x7fff => self.cartridge.write_active_bank((address - 0x4000) as usize, value),
            0x8000..=0x9fff => {
                if state != State::PixelTransfer {
                    self.ppu.write_vram((address - 0x8000) as usize, value);
                }
            },
            0xa000..=0xbfff => self.cartridge.write_active_ram((address - 0xa000) as usize, value),
            0xc000..=0xdfff => self.ram.set((address - 0xc000) as usize, value),
            0xe000..=0xfdff => self.ram.set((address - 0xe000) as usize, value),
            0xfe00..=0xfe9f => {
                if state != State::PixelTransfer && state != State::OAMSearch {
                    self.ppu.write_oam((address - 0xfe00) as usize, value);
                }
            },
            _ => {},
        }
    }

    fn write_io(&mut self, address: u16, value: u8)
        requires
            old(self).wf(),
            address >= 0xff00,
        ensures
            final(self).wf(),
            old(self).written(*final(self), address, value),
    {
        if address < 0xff40 {
            self.write_device(address, value);
        } else if address <= 0xff4b {
            self.write_lcd(address, value);
        } else {
            self.write_high(address, value);
        }
    }

    #[verifier::rlimit(50)]
    fn write_device(&mut self, address: u16, value: u8)
        requires
            old(self).wf(),
            0xff00 <= address < 0xff40,
        ensures
            final(self).wf(),
            old(self).written(*final(self), address, value),
    {
        match address {
            0xff00 => self.controller.set_controller_status(value),
            0xff04 => self.timer.set_div(value),
            0xff05 => self.timer.set_tima(value),
            0xff06 => self.timer.set_tma(value),
            0xff07 => self.timer.set_tac(value),
            0xff0f => self.interrupt_flags = value & 0x1f,
            _ => {},
        }
    }

    #[verifier::rlimit(50)]
    fn write_lcd(&mut self, address: u16, value: u8)
        requires
            old(self).wf(),
            0xff40 <= address <= 0xff4b,
        ensures
            final(self).wf(),
            old(self).written(*final(self), address, value),
    {
        if address == 0xff46 {
            self.dma(value);
        }
        self.ppu.write_registers(address, value);
    }

    #[verifier::rlimit(50)]
    fn write_high(&mut self, address: u16, value: u8)
        requires
            old(self).wf(),
            0xff4b < address,
        ensures
            final(self).wf(),
            old(self).written(*final(self), address, value),
    {
        if address == 0xff50 {
            if value != 0 {
                self.boot_rom_enabled = false;
            }
        } else if 0xff80 <= address && address <= 0xfffe {
            self.hiram.set((address - 0xff80) as usize, value);
        } else if address == 0xffff {
            self.interrupt_enabled = value;
        }
    }

    pub fn read_16(&self, address: u16) -> (r: u16)
        requires
            self.wf(),
        ensures
            r == self.peek16(address),
    {
        let lo = self.read_8(address);
        let hi = self.read_8(address.wrapping_add(1));
        hi as u16 * 256 + lo as u16
    }

    pub fn write_16(&mut self, address: u16, value: u16)
        requires
            old(self).wf(),
        ensures
            final(self).wf(),
            old(self).written16(*final(self), address, value),
    {
        self.write_8(address, (value % 256) as u8);
        let ghost mid = *self;
        self.write_8(address.wrapping_add(1), (value / 256) as u8);
        assert(old(self).written(mid, address, (value % 256) as u8) && mid.written(
            *self,
            ((address as int + 1) % 65536) as u16,
            (value / 256) as u8,
        ));
    }

    /// `n` is this bus after one machine cycle of the devices: one timer tick and four dots of
    /// the pixel pipeline, with the interrupts they request latched in IF; `frame_ready` tells
    /// whether one of the dots completed a frame.
    pub open spec fn cycle_effect(&self, n: Bus, frame_ready: bool) -> bool {
        let (t, overflow) = self.timer.after_tick();
        &&& n.timer == t
        &&& exists|p1: Ppu, p2: Ppu, p3: Ppu, e1: PpuEvents, e2: PpuEvents, e3: PpuEvents, e4: PpuEvents|
            #![trigger dot_effect(self.ppu, p1, e1), dot_effect(p1, p2, e2), dot_effect(p2, p3, e3), dot_effect(p3, n.ppu, e4)]
            {
                &&& dot_effect(self.ppu, p1, e1)
                &&& dot_effect(p1, p2, e2)
                &&& dot_effect(p2, p3, e3)
                &&& dot_effect(p3, n.ppu, e4)
                &&& frame_ready == (e1.frame_ready || e2.frame_ready || e3.frame_ready || e4.frame_ready)
                &&& n.interrupt_flags == self.interrupt_flags | (if overflow {
                    INTERRUPT_TIMER
                } else {
                    0u8
                }) | (if e1.vblank_interrupt || e2.vblank_interrupt || e3.vblank_interrupt
                    || e4.vblank_interrupt {
                    INTERRUPT_VBLANK
                } else {
                    0u8
                }) | (if e1.stat_interrupt || e2.stat_interrupt || e3.stat_interrupt
                    || e4.stat_interrupt {
                    INTERRUPT_STAT
                } else {
                    0u8
                })
            }
        &&& n.ram == self.ram
        &&& n.hiram == self.hiram
        &&& n.cartridge == self.cartridge
        &&& n.controller == self.controller
        &&& n.interrupt_enabled == self.interrupt_enabled
        &&& n.boot_rom_enabled == self.boot_rom_enabled
        &&& n.boot_rom == self.boot_rom
    }

    /// One machine cycle of the devices (see `cycle_effect`). Returns whether a frame was
    /// completed.
    pub fn tick(&mut self) -> (frame_ready: bool)
        requires
            old(self).wf(),
        ensures
            final(self).wf(),
            old(self).cycle_effect(*final(self), frame_ready),
    {
        let overflow = self.timer.tick();
        let ghost p0 = self.ppu;
        let e1 = self.ppu.next();
        let ghost p1 = self.ppu;
        let e2 = self.ppu.next();
        let ghost p2 = self.ppu;
        let e3 = self.ppu.next();
        let ghost p3 = self.ppu;
        let e4 = self.ppu.next();
        let timer_bit = if overflow {
            INTERRUPT_TIMER
        } else {
            0u8
        };
        let vblank_bit = if e1.vblank_interrupt || e2.vblank_interrupt || e3.vblank_interrupt
            || e4.vblank_interrupt {
            INTERRUPT_VBLANK
        } else {
            0u8
        };
        let stat_bit = if e1.stat_interrupt || e2.stat_interrupt || e3.stat_interrupt
            || e4.stat_interrupt {
            INTERRUPT_STAT
        } else {
            0u8
        };
        self.interrupt_flags = self.interrupt_flags | timer_bit | vblank_bit | stat_bit;
        assert(dot_effect(p0, p1, e1) && dot_effect(p1, p2, e2) && dot_effect(p2, p3, e3)
            && dot_effect(p3, self.ppu, e4));
        e1.frame_ready || e2.frame_ready || e3.frame_ready || e4.frame_ready
    }

    /// `trace` lists the bus before and after each of `k` machine cycles of the devices, from
    /// this bus to `n`; `frames` tells for each cycle whether it completed a frame, and `frame`
    /// whether any did.
    pub open spec fn runs_through(
        self,
        n: Bus,
        k: nat,
        frame: bool,
        trace: Seq<Bus>,
        frames: Seq<bool>,
    ) -> bool {
        &&& trace.len() == k + 1
        &&& frames.len() == k
        &&& trace[0] == self
        &&& trace[k as int] == n
        &&& forall|i: int| 0 <= i < k ==> #[trigger] trace[i].cycle_effect(trace[i + 1], frames[i])
        &&& frame == frames.contains(true)
    }

    /// `n` is this bus after `k` machine cycles of the devices; `frame` tells whether one of
    /// them completed a frame.
    pub open spec fn ticked(self, n: Bus, k: nat, frame: bool) -> bool {
        exists|trace: Seq<Bus>, frames: Seq<bool>| #[trigger] self.runs_through(n, k, frame, trace, frames)
    }

    /// A button goes down; if that asks for the joypad interrupt, it is latched in IF.
    pub fn press(&mut self, button: Button)
        requires
            old(self).wf(),
        ensures
            final(self).wf(),
            final(self).controller == (Controller {
                interrrupted: false,
                ..old(self).controller.with_button(button, true)
            }),
            final(self).interrupt_flags == if old(self).controller.interrrupted || (!old(
                self,
            ).controller.is_pressed(button) && old(self).controller.is_selected(button)) {
                old(self).interrupt_flags | INTERRUPT_JOYPAD
            } else {
                old(self).interrupt_flags
            },
            *final(self) == (Bus {
                controller: final(self).controller,
                interrupt_flags: final(self).interrupt_flags,
                ..*old(self)
            }),
    {
        self.controller.press(button);
        if self.controller.is_interrupted() {
            self.interrupt_flags = self.interrupt_flags | INTERRUPT_JOYPAD;
        }
    }

    /// A button goes up.
    pub fn release(&mut self, button: Button)
        requires
            old(self).wf(),
        ensures
            final(self).wf(),
            *final(self) == (Bus {
                controller: old(self).controller.with_button(button, false),
                ..*old(self)
            }),
    {
        self.controller.release(button);
    }

    pub fn is_vblank_interrup_enabled(&self) -> (r: bool)
        ensures
            r == (self.interrupt_enabled & INTERRUPT_VBLANK != 0),
    {
        self.interrupt_enabled & INTERRUPT_VBLANK != 0
    }

    pub fn is_stat_interrup_enabled(&self) -> (r: bool)
        ensures
            r == (self.interrupt_enabled & INTERRUPT_STAT != 0),
    {
        self.interrupt_enabled & INTERRUPT_STAT != 0
    }

    pub fn is_time_interrup_enabled(&self) -> (r: bool)
        ensures
            r == (self.interrupt_enabled & INTERRUPT_TIMER != 0),
    {
        self.interrupt_enabled & INTERRUPT_TIMER != 0
    }

    pub fn is_serial_interrup_enabled(&self) -> (r: bool)
        ensures
            r == (self.interrupt_enabled & INTERRUPT_SERIAL != 0),
    {
        self.interrupt_enabled & INTERRUPT_SERIAL != 0
    }

    pub fn is_joypad_interrup_enabled(&self) -> (r: bool)
        ensures
            r == (self.interrupt_enabled & INTERRUPT_JOYPAD != 0),
    {
        self.interrupt_enabled & INTERRUPT_JOYPAD != 0
    }
}

/// Work RAM and its mirror read alike: C000+k and E000+k give the same byte.
pub proof fn lemma_echo_ram_reads(b: Bus, k: u16)
    requires
        k < 0x1e00,
    ensures
        b.peek((0xc000 + k) as u16) == b.peek((0xe000 + k) as u16),
{
}

/// A byte written at C000+k or at its mirror E000+k is then read back at both addresses.
pub proof fn lemma_echo_ram_writes(b: Bus, n: Bus, k: u16, mirror: bool, v: u8)
    requires
        b.wf(),
        k < 0x1e00,
        b.written(n, (if mirror { 0xe000 + k } else { 0xc000 + k }) as u16, v),
    ensures
        n.peek((0xc000 + k) as u16) == v,
        n.peek((0xe000 + k) as u16) == v,
{
}

/// While the pipeline is in pixel transfer (mode 3), a write to OAM changes nothing that any
/// read can see.
pub proof fn lemma_oam_locked_in_mode_3(b: Bus, n: Bus, address: u16, v: u8)
    requires
        b.ppu.state == State::PixelTransfer,
        0xfe00 <= address <= 0xfe9f,
        b.written(n, address, v),
    ensures
        n.ppu.oam@ == b.ppu.oam@,
        forall|a: u16| #[trigger] n.peek(a) == b.peek(a),
{
    assert forall|a: u16| #[trigger] n.peek(a) == b.peek(a) by {
        assert(n.cartridge.active_bank() == b.cartridge.active_bank());
        assert(n.cartridge.ram_read(a as int - 0xa000) == b.cartridge.ram_read(a as int - 0xa000));
        assert(n.ppu.register_value(a) == b.ppu.register_value(a));
        assert(n.controller.status() == b.controller.status());
    }
}

/// Once a non-zero byte is written to FF50, 0000-00FF reads cartridge bank 0.
pub proof fn lemma_boot_rom_unmapped(b: Bus, n: Bus, v: u8)
    requires
        v != 0,
        b.written(n, 0xff50, v),
    ensures
        !n.boot_rom_enabled,
        forall|a: u16| a < 0x100 ==> #[trigger] n.peek(a) == n.cartridge.rom@[a as int],
{
}

/// The boot ROM never comes back by a write once it is unmapped.
pub proof fn lemma_boot_rom_stays_unmapped(b: Bus, n: Bus, address: u16, v: u8)
    requires
        !b.boot_rom_enabled,
        b.written(n, address, v),
    ensures
        !n.boot_rom_enabled,
{
}

/// Right after a write of `page` to FF46, each OAM byte equals what a read of `page << 8` plus
/// its index returns. (With `page` 0xFF the source holds FF46 itself, whose value the write
/// changes, so that page is taken only when FF46 already held 0xFF.)
pub proof fn lemma_oam_dma(b: Bus, n: Bus, page: u8)
    requires
        b.wf(),
        b.written(n, 0xff46, page),
        page != 0xff || b.ppu.registers.dma == 0xff,
    ensures
        forall|i: int| 0 <= i < OAM_SIZE ==> #[trigger] n.ppu.oam@[i] == n.peek((page as int * 256 + i) as u16),
{
    assert forall|i: int| 0 <= i < OAM_SIZE implies #[trigger] n.ppu.oam@[i] == n.peek(
        (page as int * 256 + i) as u16,
    ) by {
        let a = (page as int * 256 + i) as u16;
        assert(n.cartridge.active_bank() == b.cartridge.active_bank());
        assert(n.cartridge.ram_read(a as int - 0xa000) == b.cartridge.ram_read(a as int - 0xa000));
        assert(n.ppu.register_value(a) == b.ppu.register_value(a));
        assert(n.controller.status() == b.controller.status());
        assert(n.peek(a) == b.peek(a));
    }
}

} // verus!
