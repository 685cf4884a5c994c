use vstd::prelude::*;
use crate::alu;
use crate::alu::{
    add_spec, sub_spec, logic_flags, inc_spec, dec_spec, rlc_spec, rrc_spec, rl_spec, rr_spec,
    sla_spec, sra_spec, srl_spec, swap_spec, bit_spec, set_spec, res_spec, daa_spec, add16_spec,
    add_sp_spec, signed_of,
};
use crate::bus::Bus;
use crate::flags::{Flags, flags_byte, flags_of_byte};
use crate::registers::{Registers, RegisterNames, RegisterNames16b, inc16, dec16};

verus! {

pub const INTERRUPT_ADDRESS_VBLANK: u16 = 0x0040;
pub const INTERRUPT_ADDRESS_STAT: u16 = 0x0048;
pub const INTERRUPT_ADDRESS_TIMER: u16 = 0x0050;
pub const INTERRUPT_ADDRESS_SERIAL: u16 = 0x0058;
pub const INTERRUPT_ADDRESS_JOYPAD: u16 = 0x0060;
/// Clock cycles taken to enter an interrupt handler.
pub const INTERRUPT_CYCLES: u32 = 20;
/// Clock cycles of one step while halted or stopped.
pub const IDLE_CYCLES: u32 = 4;

#[derive(Clone, Copy, Debug, PartialEq, Eq, Structural)]
pub enum CpuError {
    /// An opcode that the processor does not define, with the address it was fetched from.
    IllegalOpcode { pc: u16, opcode: u8 },
}

/// The processor: registers, flags, interrupt state, and the bus it drives.
pub struct Cpu {
    pub registers: Registers,
    pub flags: Flags,
    pub bus: Bus,
    /// IME.
    pub interruption_enabled: bool,
    /// Steps left before a pending EI sets IME (0: none pending).
    pub switch_interruption_enabled_in: u8,
    pub is_halted: bool,
    pub is_stopped: bool,
}

/// x + d, wrapping at 16 bits.
pub open spec fn add16w(x: u16, d: int) -> u16 {
    ((x as int + d + 0x20000) % 65536) as u16
}

/// The opcodes that the processor does not define.
pub open spec fn is_illegal(opcode: u8) -> bool {
    opcode == 0xd3 || opcode == 0xdb || opcode == 0xdd || opcode == 0xe3 || opcode == 0xe4
        || opcode == 0xeb || opcode == 0xec || opcode == 0xed || opcode == 0xf4 || opcode == 0xfc
        || opcode == 0xfd
}

/// The 8-bit operand coded in three bits: B, C, D, E, H, L, (HL), A.
pub open spec fn reg_of(code: u8) -> RegisterNames {
    if code % 8 == 0 {
        RegisterNames::B
    } else if code % 8 == 1 {
        RegisterNames::C
    } else if code % 8 == 2 {
        RegisterNames::D
    } else if code % 8 == 3 {
        RegisterNames::E
    } else if code % 8 == 4 {
        RegisterNames::H
    } else if code % 8 == 5 {
        RegisterNames::L
    } else if code % 8 == 6 {
        RegisterNames::IndirectHL
    } else {
        RegisterNames::A
    }
}

/// The register pair coded in two bits: BC, DE, HL, SP.
pub open spec fn reg16_of(code: u8) -> RegisterNames16b {
    if code % 4 == 0 {
        RegisterNames16b::BC
    } else if code % 4 == 1 {
        RegisterNames16b::DE
    } else if code % 4 == 2 {
        RegisterNames16b::HL
    } else {
        RegisterNames16b::SP
    }
}

/// The branch condition coded in two bits: NZ, Z, NC, C.
pub open spec fn condition(f: Flags, code: u8) -> bool {
    if code % 4 == 0 {
        !f.zero
    } else if code % 4 == 1 {
        f.zero
    } else if code % 4 == 2 {
        !f.carry
    } else {
        f.carry
    }
}

/// The eight operations on A coded in three bits: ADD, ADC, SUB, SBC, AND, XOR, OR, CP.
pub open spec fn alu_spec(op: u8, a: u8, v: u8, f: Flags) -> (u8, Flags) {
    if op % 8 == 0 {
        add_spec(a, v, false)
    } else if op % 8 == 1 {
        add_spec(a, v, f.carry)
    } else if op % 8 == 2 {
        sub_spec(a, v, false)
    } else if op % 8 == 3 {
        sub_spec(a, v, f.carry)
    } else if op % 8 == 4 {
        (a & v, logic_flags(a & v, true))
    } else if op % 8 == 5 {
        (a ^ v, logic_flags(a ^ v, false))
    } else if op % 8 == 6 {
        (a | v, logic_flags(a | v, false))
    } else {
        (a, sub_spec(a, v, false).1)
    }
}

/// The eight rotations and shifts of the CB table coded in three bits: RLC, RRC, RL, RR, SLA, SRA,
/// SWAP, SRL.
pub open spec fn shift_spec(op: u8, v: u8, f: Flags) -> (u8, Flags) {
    if op % 8 == 0 {
        rlc_spec(v, true)
    } else if op % 8 == 1 {
        rrc_spec(v, true)
    } else if op % 8 == 2 {
        rl_spec(v, f, true)
    } else if op % 8 == 3 {
        rr_spec(v, f, true)
    } else if op % 8 == 4 {
        sla_spec(v)
    } else if op % 8 == 5 {
        sra_spec(v)
    } else if op % 8 == 6 {
        swap_spec(v)
    } else {
        srl_spec(v)
    }
}

/// Clock cycles of an instruction of the main table, by whether its branch was taken.
pub open spec fn cycles_of(opcode: u8, taken: bool) -> u32 {
    let x = opcode / 64;
    let z = opcode % 8;
    let y = (opcode / 8) % 8;
    if x == 1 {
        if opcode == 0x76 {
            4
        } else if z == 6 || y == 6 {
            8
        } else {
            4
        }
    } else if x == 2 {
        if z == 6 {
            8
        } else {
            4
        }
    } else if x == 0 {
        if opcode == 0x08 {
            20
        } else if opcode == 0x18 {
            12
        } else if opcode == 0x20 || opcode == 0x28 || opcode == 0x30 || opcode == 0x38 {
            if taken {
                12
            } else {
                8
            }
        } else if z == 1 {
            12
        } else if z == 2 || z == 3 {
            8
        } else if z == 4 || z == 5 {
            if y == 6 {
                12
            } else {
                4
            }
        } else if z == 6 {
            if y == 6 {
                12
            } else {
                8
            }
        } else {
            4
        }
    } else {
        if opcode == 0xc0 || opcode == 0xc8 || opcode == 0xd0 || opcode == 0xd8 {
            if taken {
                20
            } else {
                8
            }
        } else if opcode == 0xc2 || opcode == 0xca || opcode == 0xd2 || opcode == 0xda {
            if taken {
                16
            } else {
                12
            }
        } else if opcode == 0xc4 || opcode == 0xcc || opcode == 0xd4 || opcode == 0xdc {
            if taken {
                24
            } else {
                12
            }
        } else if opcode == 0xcd {
            24
        } else if z == 1 {
            if opcode == 0xe9 {
                4
            } else if opcode == 0xf9 {
                8
            } else if opcode == 0xc9 || opcode == 0xd9 {
                16
            } else {
                12
            }
        } else if z == 5 || z == 7 || opcode == 0xc3 || opcode == 0xe8 || opcode == 0xea
            || opcode == 0xfa {
            16
        } else if z == 6 || opcode == 0xe2 || opcode == 0xf2 {
            8
        } else if opcode == 0xe0 || opcode == 0xf0 || opcode == 0xf8 {
            12
        } else {
            4
        }
    }
}

/// Clock cycles of an instruction of the CB table, the prefix included.
pub open spec fn cb_cycles_of(opcode: u8) -> u32 {
    if opcode % 8 != 6 {
        8
    } else if opcode / 64 == 1 {
        12
    } else {
        16
    }
}

/// The IF bit of the pending interrupt that is served first (lowest bit first).
pub open spec fn first_interrupt(pending: u8) -> u8 {
    if pending % 2 == 1 {
        1
    } else if (pending / 2) % 2 == 1 {
        2
    } else if (pending / 4) % 2 == 1 {
        4
    } else if (pending / 8) % 2 == 1 {
        8
    } else {
        16
    }
}

/// The handler address of an interrupt bit.
pub open spec fn interrupt_vector(bit: u8) -> u16 {
    if bit == 1 {
        INTERRUPT_ADDRESS_VBLANK
    } else if bit == 2 {
        INTERRUPT_ADDRESS_STAT
    } else if bit == 4 {
        INTERRUPT_ADDRESS_TIMER
    } else if bit == 8 {
        INTERRUPT_ADDRESS_SERIAL
    } else {
        INTERRUPT_ADDRESS_JOYPAD
    }
}

fn reg_code(code: u8) -> (r: RegisterNames)
    ensures
        r == reg_of(code),
{
    match code % 8 {
        0 => RegisterNames::B,
        1 => RegisterNames::C,
        2 => RegisterNames::D,
        3 => RegisterNames::E,
        4 => RegisterNames::H,
        5 => RegisterNames::L,
        6 => RegisterNames::IndirectHL,
        _ => RegisterNames::A,
    }
}

fn reg16_code(code: u8) -> (r: RegisterNames16b)
    ensures
        r == reg16_of(code),
{
    match code % 4 {
        0 => RegisterNames16b::BC,
        1 => RegisterNames16b::DE,
        2 => RegisterNames16b::HL,
        _ => RegisterNames16b::SP,
    }
}

fn condition_holds(f: Flags, code: u8) -> (r: bool)
    ensures
        r == condition(f, code),
{
    match code % 4 {
        0 => !f.zero,
        1 => f.zero,
        2 => !f.carry,
        _ => f.carry,
    }
}

pub fn instruction_cycles(opcode: u8, taken: bool) -> (r: u32)
    ensures
        r == cycles_of(opcode, taken),
{
    let x = opcode / 64;
    let z = opcode % 8;
    let y = (opcode / 8) % 8;
    if x == 1 {
        if opcode == 0x76 {
            4
        } else if z == 6 || y == 6 {
            8
        } else {
            4
        }
    } else if x == 2 {
        if z == 6 {
            8
        } else {
            4
        }
    } else if x == 0 {
        if opcode == 0x08 {
            20
        } else if opcode == 0x18 {
            12
        } else if opcode == 0x20 || opcode == 0x28 || opcode == 0x30 || opcode == 0x38 {
            if taken {
                12
            } else {
                8
            }
        } else if z == 1 {
            12
        } else if z == 2 || z == 3 {
            8
        } else if z == 4 || z == 5 {
            if y == 6 {
                12
            } else {
                4
            }
        } else if z == 6 {
            if y == 6 {
                12
            } else {
                8
            }
        } else {
            4
        }
    } else {
        if opcode == 0xc0 || opcode == 0xc8 || opcode == 0xd0 || opcode == 0xd8 {
            if taken {
                20
            } else {
                8
            }
        } else if opcode == 0xc2 || opcode == 0xca || opcode == 0xd2 || opcode == 0xda {
            if taken {
                16
            } else {
                12
            }
        } else if opcode == 0xc4 || opcode == 0xcc || opcode == 0xd4 || opcode == 0xdc {
            if taken {
                24
            } else {
                12
            }
        } else if opcode == 0xcd {
            24
        } else if z == 1 {
            if opcode == 0xe9 {
                4
            } else if opcode == 0xf9 {
                8
            } else if opcode == 0xc9 || opcode == 0xd9 {
                16
            } else {
                12
            }
        } else if z == 5 || z == 7 || opcode == 0xc3 || opcode == 0xe8 || opcode == 0xea
            || opcode == 0xfa {
            16
        } else if z == 6 || opcode == 0xe2 || opcode == 0xf2 {
            8
        } else if opcode == 0xe0 || opcode == 0xf0 || opcode == 0xf8 {
            12
        } else {
            4
        }
    }
}

pub fn cb_instruction_cycles(opcode: u8) -> (r: u32)
    ensures
        r == cb_cycles_of(opcode),
{
    if opcode % 8 != 6 {
        8
    } else if opcode / 64 == 1 {
        12
    } else {
        16
    }
}


impl Cpu {
    pub open spec fn wf(&self) -> bool {
        self.bus.wf()
    }

    /// The value of an 8-bit operand: a register, or the byte at HL.
    pub open spec fn operand(&self, r: RegisterNames) -> u8 {
        if r == RegisterNames::IndirectHL {
            self.bus.peek(self.registers.hl())
        } else {
            self.registers.reg(r)
        }
    }

    /// Interrupt and sleep state are the same in `n`.
    pub open spec fn same_control(&self, n: Cpu) -> bool {
        &&& n.interruption_enabled == self.interruption_enabled
        &&& n.switch_interruption_enabled_in == self.switch_interruption_enabled_in
        &&& n.is_halted == self.is_halted
        &&& n.is_stopped == self.is_stopped
    }

    /// `n` is this processor with `v` stored to the operand `r` (flags aside).
    pub open spec fn stored(&self, n: Cpu, r: RegisterNames, v: u8) -> bool {
        &&& self.same_control(n)
        &&& if r == RegisterNames::IndirectHL {
            n.registers == self.registers && self.bus.written(n.bus, self.registers.hl(), v)
        } else {
            n.registers == self.registers.with_reg(r, v) && n.bus == self.bus
        }
    }

    /// Zeroed registers and flags, IME clear, on a fresh bus.
    pub fn new() -> (c: Cpu)
        ensures
            c.wf(),
            c.registers == (Registers { a: 0, b: 0, c: 0, d: 0, e: 0, h: 0, l: 0, sp: 0, pc: 0 }),
            c.flags == (Flags { zero: false, negative: false, half_carry: false, carry: false }),
            !c.interruption_enabled,
            c.switch_interruption_enabled_in == 0,
            !c.is_halted,
            !c.is_stopped,
            c.bus.powered_on(),
    {
        Cpu {
            registers: Registers { a: 0, b: 0, c: 0, d: 0, e: 0, h: 0, l: 0, sp: 0, pc: 0 },
            flags: Flags { zero: false, negative: false, half_carry: false, carry: false },
            bus: Bus::new(),
            interruption_enabled: false,
            switch_interruption_enabled_in: 0,
            is_halted: false,
            is_stopped: false,
        }
    }

    /// Inserts a cartridge.
    pub fn start(&mut self, cartridge: crate::cartridge::Cartridge)
        requires
            old(self).wf(),
            cartridge.wf(),
        ensures
            final(self).wf(),
            *final(self) == (Cpu { bus: final(self).bus, ..*old(self) }),
            final(self).bus == (Bus { cartridge, ..old(self).bus }),
    {
        self.bus.load_cartridge(cartridge);
    }

    /// The byte at PC; PC moves past it.
    fn get_immediate(&mut self) -> (r: u8)
        requires
            old(self).wf(),
        ensures
            final(self).wf(),
            r == old(self).bus.peek(old(self).registers.pc),
            *final(self) == (Cpu {
                registers: Registers { pc: inc16(old(self).registers.pc), ..old(self).registers },
                ..*old(self)
            }),
    {
        let value = self.bus.read_8(self.registers.pc);
        self.registers.pc = self.registers.pc.wrapping_add(1);
        value
    }

    /// The little-endian word at PC; PC moves past it.
    fn get_immediate_16(&mut self) -> (r: u16)
        requires
            old(self).wf(),
        ensures
            final(self).wf(),
            r == old(self).bus.peek16(old(self).registers.pc),
            *final(self) == (Cpu {
                registers: Registers { pc: add16w(old(self).registers.pc, 2), ..old(self).registers },
                ..*old(self)
            }),
    {
        let value = self.bus.read_16(self.registers.pc);
        self.registers.pc = self.registers.pc.wrapping_add(2);
        value
    }

    fn get_value_at(&self, address: u16) -> (r: u8)
        requires
            self.wf(),
        ensures
            r == self.bus.peek(address),
    {
        self.bus.read_8(address)
    }

    fn set_value_at(&mut self, address: u16, value: u8)
        requires
            old(self).wf(),
        ensures
            final(self).wf(),
            old(self).bus.written(final(self).bus, address, value),
            *final(self) == (Cpu { bus: final(self).bus, ..*old(self) }),
    {
        self.bus.write_8(address, value);
    }

    pub fn get_operand(&self, r: RegisterNames) -> (v: u8)
        requires
            self.wf(),
        ensures
            v == self.operand(r),
    {
        match r {
            RegisterNames::IndirectHL => self.bus.read_8(self.registers.get_hl()),
            _ => self.registers.get_reg(r),
        }
    }

    pub fn set_operand(&mut self, r: RegisterNames, v: u8)
        requires
            old(self).wf(),
        ensures
            final(self).wf(),
            old(self).stored(*final(self), r, v),
            final(self).flags == old(self).flags,
    {
        match r {
            RegisterNames::IndirectHL => {
                let hl = self.registers.get_hl();
                self.bus.write_8(hl, v);
            },
            _ => self.registers.set_reg(r, v),
        }
    }

    /// A and F as one word.
    fn get_af(&self) -> (r: u16)
        ensures
            r == self.registers.a as int * 256 + flags_byte(self.flags) as int,
    {
        self.registers.a as u16 * 256 + self.flags.get_flags() as u16
    }

    /// Loads A and F from a word; the low nibble of F is dropped.
    fn set_af(&mut self, value: u16)
        ensures
            *final(self) == (Cpu {
                registers: Registers { a: (value / 256) as u8, ..old(self).registers },
                flags: flags_of_byte((value % 256) as u8),
                ..*old(self)
            }),
    {
        self.registers.a = (value / 256) as u8;
        self.flags.set_flags((value % 256) as u8);
    }

    /// SP goes down by two, then the word is stored at SP.
    fn push(&mut self, value: u16)
        requires
            old(self).wf(),
        ensures
            final(self).wf(),
            final(self).registers == (Registers { sp: add16w(old(self).registers.sp, -2), ..old(self).registers }),
            old(self).bus.written16(final(self).bus, add16w(old(self).registers.sp, -2), value),
            final(self).flags == old(self).flags,
            old(self).same_control(*final(self)),
    {
        self.registers.sp = self.registers.sp.wrapping_sub(2);
        self.bus.write_16(self.registers.sp, value);
    }

    /// The word at SP is read, then SP goes up by two.
    fn pop(&mut self) -> (r: u16)
        requires
            old(self).wf(),
        ensures
            final(self).wf(),
            r == old(self).bus.peek16(old(self).registers.sp),
            *final(self) == (Cpu {
                registers: Registers { sp: add16w(old(self).registers.sp, 2), ..old(self).registers },
                ..*old(self)
            }),
    {
        let value = self.bus.read_16(self.registers.sp);
        self.registers.sp = self.registers.sp.wrapping_add(2);
        value
    }

    /// Pushes PC and jumps.
    fn call(&mut self, address: u16)
        requires
            old(self).wf(),
        ensures
            final(self).wf(),
            final(self).registers == (Registers {
                sp: add16w(old(self).registers.sp, -2),
                pc: address,
                ..old(self).registers
            }),
            old(self).bus.written16(final(self).bus, add16w(old(self).registers.sp, -2), old(self).registers.pc),
            final(self).flags == old(self).flags,
            old(self).same_control(*final(self)),
    {
        let pc = self.registers.pc;
        self.push(pc);
        self.registers.pc = address;
    }

    /// Pops PC.
    pub fn ret(&mut self)
        requires
            old(self).wf(),
        ensures
            final(self).wf(),
            *final(self) == (Cpu {
                registers: Registers {
                    sp: add16w(old(self).registers.sp, 2),
                    pc: old(self).bus.peek16(old(self).registers.sp),
                    ..old(self).registers
                },
                ..*old(self)
            }),
    {
        let address = self.pop();
        self.registers.pc = address;
    }

    /// RET, and IME set at once.
    fn reti(&mut self)
        requires
            old(self).wf(),
        ensures
            final(self).wf(),
            *final(self) == (Cpu {
                registers: Registers {
                    sp: add16w(old(self).registers.sp, 2),
                    pc: old(self).bus.peek16(old(self).registers.sp),
                    ..old(self).registers
                },
                interruption_enabled: true,
                ..*old(self)
            }),
    {
        self.ret();
        self.interruption_enabled = true;
    }

    fn rst(&mut self, n: u16)
        requires
            old(self).wf(),
        ensures
            final(self).wf(),
            final(self).registers == (Registers {
                sp: add16w(old(self).registers.sp, -2),
                pc: n,
                ..old(self).registers
            }),
            old(self).bus.written16(final(self).bus, add16w(old(self).registers.sp, -2), old(self).registers.pc),
            final(self).flags == old(self).flags,
            old(self).same_control(*final(self)),
    {
        self.call(n);
    }

    /// One of the eight operations on A (see `alu_spec`).
    pub fn alu(&mut self, op: u8, value: u8)
        ensures
            (final(self).registers.a, final(self).flags) == alu_spec(op, old(self).registers.a, value, old(self).flags),
            *final(self) == (Cpu {
                registers: Registers { a: final(self).registers.a, ..old(self).registers },
                flags: final(self).flags,
                ..*old(self)
            }),
    {
        let a = self.registers.a;
        let (r, f) = match op % 8 {
            0 => alu::add(a, value, false),
            1 => alu::add(a, value, self.flags.carry),
            2 => alu::sub(a, value, false),
            3 => alu::sub(a, value, self.flags.carry),
            4 => (a & value, Flags { zero: a & value == 0, negative: false, half_carry: true, carry: false }),
            5 => (a ^ value, Flags { zero: a ^ value == 0, negative: false, half_carry: false, carry: false }),
            6 => (a | value, Flags { zero: a | value == 0, negative: false, half_carry: false, carry: false }),
            _ => (a, alu::sub(a, value, false).1),
        };
        self.registers.a = r;
        self.flags = f;
    }

    /// ADD A,value.
    pub fn add(&mut self, value: u8)
        ensures
            (final(self).registers.a, final(self).flags) == alu_spec(0, old(self).registers.a, value, old(self).flags),
            *final(self) == (Cpu {
                registers: Registers { a: final(self).registers.a, ..old(self).registers },
                flags: final(self).flags,
                ..*old(self)
            }),
    {
        self.alu(0, value);
    }

    /// ADC A,value: A + value + C.
    pub fn adc(&mut self, value: u8)
        ensures
            (final(self).registers.a, final(self).flags) == alu_spec(1, old(self).registers.a, value, old(self).flags),
            *final(self) == (Cpu {
                registers: Registers { a: final(self).registers.a, ..old(self).registers },
                flags: final(self).flags,
                ..*old(self)
            }),
    {
        self.alu(1, value);
    }

    /// SUB value.
    pub fn sub(&mut self, value: u8)
        ensures
            (final(self).registers.a, final(self).flags) == alu_spec(2, old(self).registers.a, value, old(self).flags),
            *final(self) == (Cpu {
                registers: Registers { a: final(self).registers.a, ..old(self).registers },
                flags: final(self).flags,
                ..*old(self)
            }),
    {
        self.alu(2, value);
    }

    /// SBC A,value: A - value - C.
    pub fn sbc(&mut self, value: u8)
        ensures
            (final(self).registers.a, final(self).flags) == alu_spec(3, old(self).registers.a, value, old(self).flags),
            *final(self) == (Cpu {
                registers: Registers { a: final(self).registers.a, ..old(self).registers },
                flags: final(self).flags,
                ..*old(self)
            }),
    {
        self.alu(3, value);
    }

    /// AND value: H set, N and C cleared.
    pub fn and(&mut self, value: u8)
        ensures
            (final(self).registers.a, final(self).flags) == alu_spec(4, old(self).registers.a, value, old(self).flags),
            *final(self) == (Cpu {
                registers: Registers { a: final(self).registers.a, ..old(self).registers },
                flags: final(self).flags,
                ..*old(self)
            }),
    {
        self.alu(4, value);
    }

    /// XOR value.
    pub fn xor(&mut self, value: u8)
        ensures
            (final(self).registers.a, final(self).flags) == alu_spec(5, old(self).registers.a, value, old(self).flags),
            *final(self) == (Cpu {
                registers: Registers { a: final(self).registers.a, ..old(self).registers },
                flags: final(self).flags,
                ..*old(self)
            }),
    {
        self.alu(5, value);
    }

    /// OR value.
    pub fn or(&mut self, value: u8)
        ensures
            (final(self).registers.a, final(self).flags) == alu_spec(6, old(self).registers.a, value, old(self).flags),
            *final(self) == (Cpu {
                registers: Registers { a: final(self).registers.a, ..old(self).registers },
                flags: final(self).flags,
                ..*old(self)
            }),
    {
        self.alu(6, value);
    }

    /// CP value: the flags of A - value, A kept.
    pub fn cp(&mut self, value: u8)
        ensures
            (final(self).registers.a, final(self).flags) == alu_spec(7, old(self).registers.a, value, old(self).flags),
            *final(self) == (Cpu {
                registers: Registers { a: final(self).registers.a, ..old(self).registers },
                flags: final(self).flags,
                ..*old(self)
            }),
    {
        self.alu(7, value);
    }

    /// ADD HL,rr.
    pub fn add_16b_register_to_hl(&mut self, register: RegisterNames16b)
        ensures
            ({
                let (v, f) = add16_spec(old(self).registers.hl(), old(self).registers.reg16(register), old(self).flags);
                &&& final(self).registers == old(self).registers.with_reg16(RegisterNames16b::HL, v)
                &&& final(self).flags == f
            }),
            final(self).bus == old(self).bus,
            old(self).same_control(*final(self)),
    {
        let value = self.registers.get_reg16(register);
        let hl = self.registers.get_hl();
        let (v, f) = alu::add16(hl, value, self.flags);
        self.registers.set_hl(v);
        self.flags = f;
    }

    /// ADD SP,e with e signed.
    pub fn add_to_sp(&mut self, value: u8)
        ensures
            (final(self).registers.sp, final(self).flags) == add_sp_spec(old(self).registers.sp, value),
            final(self).registers == (Registers { sp: final(self).registers.sp, ..old(self).registers }),
            final(self).bus == old(self).bus,
            old(self).same_control(*final(self)),
    {
        let (v, f) = alu::add_sp(self.registers.sp, value);
        self.registers.sp = v;
        self.flags = f;
    }

    /// One of the eight rotations and shifts of the CB table (see `shift_spec`).
    pub fn shift(&mut self, op: u8, register: RegisterNames)
        requires
            old(self).wf(),
        ensures
            final(self).wf(),
            ({
                let (v, f) = shift_spec(op, old(self).operand(register), old(self).flags);
                old(self).stored(*final(self), register, v) && final(self).flags == f
            }),
    {
        let value = self.get_operand(register);
        let (v, f) = match op % 8 {
            0 => alu::rlc(value, true),
            1 => alu::rrc(value, true),
            2 => alu::rl(value, self.flags, true),
            3 => alu::rr(value, self.flags, true),
            4 => alu::sla(value),
            5 => alu::sra(value),
            6 => alu::swap(value),
            _ => alu::srl(value),
        };
        self.set_operand(register, v);
        self.flags = f;
    }

    /// RLC: rotate left, bit 7 into C and bit 0.
    pub fn rlc(&mut self, register: RegisterNames)
        requires
            old(self).wf(),
        ensures
            final(self).wf(),
            ({
                let (v, f) = shift_spec(0, old(self).operand(register), old(self).flags);
                old(self).stored(*final(self), register, v) && final(self).flags == f
            }),
    {
        self.shift(0, register);
    }

    /// RRC: rotate right, bit 0 into C and bit 7.
    pub fn rrc(&mut self, register: RegisterNames)
        requires
            old(self).wf(),
        ensures
            final(self).wf(),
            ({
                let (v, f) = shift_spec(1, old(self).operand(register), old(self).flags);
                old(self).stored(*final(self), register, v) && final(self).flags == f
            }),
    {
        self.shift(1, register);
    }

    /// RL: rotate left through C.
    pub fn rl(&mut self, register: RegisterNames)
        requires
            old(self).wf(),
        ensures
            final(self).wf(),
            ({
                let (v, f) = shift_spec(2, old(self).operand(register), old(self).flags);
                old(self).stored(*final(self), register, v) && final(self).flags == f
            }),
    {
        self.shift(2, register);
    }

    /// RR: rotate right through C.
    pub fn rr(&mut self, register: RegisterNames)
        requires
            old(self).wf(),
        ensures
            final(self).wf(),
            ({
                let (v, f) = shift_spec(3, old(self).operand(register), old(self).flags);
                old(self).stored(*final(self), register, v) && final(self).flags == f
            }),
    {
        self.shift(3, register);
    }

    /// SLA: shift left, bit 7 into C.
    pub fn sla(&mut self, register: RegisterNames)
        requires
            old(self).wf(),
        ensures
            final(self).wf(),
            ({
                let (v, f) = shift_spec(4, old(self).operand(register), old(self).flags);
                old(self).stored(*final(self), register, v) && final(self).flags == f
            }),
    {
        self.shift(4, register);
    }

    /// SRA: shift right keeping bit 7, bit 0 into C.
    pub fn sra(&mut self, register: RegisterNames)
        requires
            old(self).wf(),
        ensures
            final(self).wf(),
            ({
                let (v, f) = shift_spec(5, old(self).operand(register), old(self).flags);
                old(self).stored(*final(self), register, v) && final(self).flags == f
            }),
    {
        self.shift(5, register);
    }

    /// SWAP: exchange the nibbles.
    pub fn swap(&mut self, register: RegisterNames)
        requires
            old(self).wf(),
        ensures
            final(self).wf(),
            ({
                let (v, f) = shift_spec(6, old(self).operand(register), old(self).flags);
                old(self).stored(*final(self), register, v) && final(self).flags == f
            }),
    {
        self.shift(6, register);
    }

    /// SRL: shift right, bit 0 into C.
    pub fn srl(&mut self, register: RegisterNames)
        requires
            old(self).wf(),
        ensures
            final(self).wf(),
            ({
                let (v, f) = shift_spec(7, old(self).operand(register), old(self).flags);
                old(self).stored(*final(self), register, v) && final(self).flags == f
            }),
    {
        self.shift(7, register);
    }

    /// BIT n: Z tells whether bit n of the operand is clear.
    pub fn bit(&mut self, register: RegisterNames, bit_index: u8)
        requires
            old(self).wf(),
            bit_index < 8,
        ensures
            final(self).flags == bit_spec(old(self).operand(register), bit_index, old(self).flags),
            *final(self) == (Cpu { flags: final(self).flags, ..*old(self) }),
    {
        let value = self.get_operand(register);
        self.flags = alu::bit(value, bit_index, self.flags);
    }

    /// RES n.
    pub fn res(&mut self, register: RegisterNames, bit_index: u8)
        requires
            old(self).wf(),
            bit_index < 8,
        ensures
            final(self).wf(),
            old(self).stored(*final(self), register, res_spec(old(self).operand(register), bit_index)),
            final(self).flags == old(self).flags,
    {
        let value = self.get_operand(register);
        self.set_operand(register, alu::res(value, bit_index));
    }

    /// SET n.
    pub fn set(&mut self, register: RegisterNames, bit_index: u8)
        requires
            old(self).wf(),
            bit_index < 8,
        ensures
            final(self).wf(),
            old(self).stored(*final(self), register, set_spec(old(self).operand(register), bit_index)),
            final(self).flags == old(self).flags,
    {
        let value = self.get_operand(register);
        self.set_operand(register, alu::set(value, bit_index));
    }

    /// INC r: C kept.
    pub fn inc(&mut self, register: RegisterNames)
        requires
            old(self).wf(),
        ensures
            final(self).wf(),
            ({
                let (v, f) = inc_spec(old(self).operand(register), old(self).flags);
                old(self).stored(*final(self), register, v) && final(self).flags == f
            }),
    {
        let value = self.get_operand(register);
        let (v, f) = alu::inc(value, self.flags);
        self.set_operand(register, v);
        self.flags = f;
    }

    /// DEC r: C kept.
    pub fn dec(&mut self, register: RegisterNames)
        requires
            old(self).wf(),
        ensures
            final(self).wf(),
            ({
                let (v, f) = dec_spec(old(self).operand(register), old(self).flags);
                old(self).stored(*final(self), register, v) && final(self).flags == f
            }),
    {
        let value = self.get_operand(register);
        let (v, f) = alu::dec(value, self.flags);
        self.set_operand(register, v);
        self.flags = f;
    }

    /// EI: IME is set once the next instruction has run.
    fn ei(&mut self)
        ensures
            *final(self) == (Cpu { switch_interruption_enabled_in: 2, ..*old(self) }),
    {
        self.switch_interruption_enabled_in = 2;
    }

    /// DI: IME is cleared at once and a pending EI is dropped.
    fn di(&mut self)
        ensures
            *final(self) == (Cpu {
                interruption_enabled: false,
                switch_interruption_enabled_in: 0,
                ..*old(self)
            }),
    {
        self.interruption_enabled = false;
        self.switch_interruption_enabled_in = 0;
    }

    /// CPL: A complemented, N and H set.
    fn cpl(&mut self)
        ensures
            *final(self) == (Cpu {
                registers: Registers { a: !old(self).registers.a, ..old(self).registers },
                flags: Flags { negative: true, half_carry: true, ..old(self).flags },
                ..*old(self)
            }),
    {
        self.registers.a = !self.registers.a;
        self.flags.negative = true;
        self.flags.half_carry = true;
    }

    fn halt(&mut self)
        ensures
            *final(self) == (Cpu { is_halted: true, ..*old(self) }),
    {
        self.is_halted = true;
    }
}


impl Cpu {
    /// This processor with PC set to `pc`.
    pub open spec fn at_pc(self, pc: u16) -> Cpu {
        Cpu { registers: Registers { pc, ..self.registers }, ..self }
    }

    /// The byte at PC.
    pub open spec fn imm8(self) -> u8 {
        self.bus.peek(self.registers.pc)
    }

    /// The little-endian word at PC.
    pub open spec fn imm16(self) -> u16 {
        self.bus.peek16(self.registers.pc)
    }

    pub open spec fn pc1(self) -> u16 {
        inc16(self.registers.pc)
    }

    pub open spec fn pc2(self) -> u16 {
        add16w(self.registers.pc, 2)
    }

    /// `n` is this processor after `value` was pushed: SP down by two, the word stored there,
    /// and PC set to `pc`.
    pub open spec fn pushed(self, n: Cpu, value: u16, pc: u16) -> bool {
        &&& n.registers == (Registers { sp: add16w(self.registers.sp, -2), pc, ..self.registers })
        &&& self.bus.written16(n.bus, add16w(self.registers.sp, -2), value)
        &&& n.flags == self.flags
        &&& self.same_control(n)
    }

    /// `n` is this processor after a store of `value` at `address`, with PC set to `pc`.
    pub open spec fn stored_at(self, n: Cpu, address: u16, value: u8, pc: u16) -> bool {
        &&& n.registers == (Registers { pc, ..self.registers })
        &&& self.bus.written(n.bus, address, value)
        &&& n.flags == self.flags
        &&& self.same_control(n)
    }

    /// This processor after RET.
    pub open spec fn returned(self) -> Cpu {
        Cpu {
            registers: Registers {
                sp: add16w(self.registers.sp, 2),
                pc: self.bus.peek16(self.registers.sp),
                ..self.registers
            },
            ..self
        }
    }

    /// This processor with A and the flags replaced.
    pub open spec fn with_a(self, r: (u8, Flags)) -> Cpu {
        Cpu { registers: Registers { a: r.0, ..self.registers }, flags: r.1, ..self }
    }
}

/// HL after the post-increment or post-decrement of the (HL+) and (HL-) forms; `pair` selects
/// BC, DE, HL+ or HL-.
pub open spec fn hl_adjusted(r: Registers, pair: u8) -> Registers {
    if pair == 2 {
        r.with_reg16(RegisterNames16b::HL, inc16(r.hl()))
    } else if pair == 3 {
        r.with_reg16(RegisterNames16b::HL, dec16(r.hl()))
    } else {
        r
    }
}

/// What an instruction of 0x00-0x3F does; `o` is the processor with PC past the opcode.
#[verifier::opaque]
pub open spec fn block0_effect(o: Cpu, n: Cpu, opcode: u8, taken: bool) -> bool {
    let y = (opcode / 8) % 8;
    let z = opcode % 8;
    let jr = n == o.at_pc(
        if taken {
            add16w(o.pc1(), signed_of(o.imm8()))
        } else {
            o.pc1()
        },
    );
    if z == 0 {
        if opcode == 0x00 {
            !taken && n == o
        } else if opcode == 0x08 {
            !taken && n.registers == o.at_pc(o.pc2()).registers && o.bus.written16(
                n.bus,
                o.imm16(),
                o.registers.sp,
            ) && n.flags == o.flags && o.same_control(n)
        } else if opcode == 0x10 {
            !taken && n == (Cpu { is_stopped: true, ..o.at_pc(o.pc1()) })
        } else if opcode == 0x18 {
            taken && jr
        } else {
            taken == condition(o.flags, (y - 4) as u8) && jr
        }
    } else {
        &&& !taken
        &&& if z == 1 {
            if y % 2 == 0 {
                n == (Cpu {
                    registers: o.at_pc(o.pc2()).registers.with_reg16(reg16_of(y / 2), o.imm16()),
                    ..o
                })
            } else {
                let (v, f) = add16_spec(o.registers.hl(), o.registers.reg16(reg16_of(y / 2)), o.flags);
                n == (Cpu { registers: o.registers.with_reg16(RegisterNames16b::HL, v), flags: f, ..o })
            }
        } else if z == 2 {
            let address = if y / 2 == 0 {
                o.registers.bc()
            } else if y / 2 == 1 {
                o.registers.de()
            } else {
                o.registers.hl()
            };
            if y % 2 == 0 {
                &&& n.registers == hl_adjusted(o.registers, y / 2)
                &&& o.bus.written(n.bus, address, o.registers.a)
                &&& n.flags == o.flags
                &&& o.same_control(n)
            } else {
                n == (Cpu {
                    registers: hl_adjusted(Registers { a: o.bus.peek(address), ..o.registers }, y / 2),
                    ..o
                })
            }
        } else if z == 3 {
            let rr = reg16_of(y / 2);
            let v = o.registers.reg16(rr);
            n == (Cpu {
                registers: o.registers.with_reg16(
                    rr,
                    if y % 2 == 0 {
                        inc16(v)
                    } else {
                        dec16(v)
                    },
                ),
                ..o
            })
        } else if z == 4 {
            let (v, f) = inc_spec(o.operand(reg_of(y)), o.flags);
            o.stored(n, reg_of(y), v) && n.flags == f
        } else if z == 5 {
            let (v, f) = dec_spec(o.operand(reg_of(y)), o.flags);
            o.stored(n, reg_of(y), v) && n.flags == f
        } else if z == 6 {
            o.at_pc(o.pc1()).stored(n, reg_of(y), o.imm8()) && n.flags == o.flags
        } else {
            let a = o.registers.a;
            if y == 0 {
                n == o.with_a(rlc_spec(a, false))
            } else if y == 1 {
                n == o.with_a(rrc_spec(a, false))
            } else if y == 2 {
                n == o.with_a(rl_spec(a, o.flags, false))
            } else if y == 3 {
                n == o.with_a(rr_spec(a, o.flags, false))
            } else if y == 4 {
                n == o.with_a(daa_spec(a, o.flags))
            } else if y == 5 {
                n == o.with_a((!a, Flags { negative: true, half_carry: true, ..o.flags }))
            } else if y == 6 {
                n == o.with_a((a, Flags { carry: true, negative: false, half_carry: false, ..o.flags }))
            } else {
                n == o.with_a(
                    (a, Flags { carry: !o.flags.carry, negative: false, half_carry: false, ..o.flags }),
                )
            }
        }
    }
}

/// What an instruction of 0xC0-0xFF (not CB, not illegal) does; `o` is the processor with PC
/// past the opcode.
#[verifier::opaque]
pub open spec fn block3_effect(o: Cpu, n: Cpu, opcode: u8, taken: bool) -> bool {
    let y = (opcode / 8) % 8;
    let z = opcode % 8;
    let cond = condition(o.flags, y);
    if z == 0 && y < 4 {
        taken == cond && n == if taken {
            o.returned()
        } else {
            o
        }
    } else if z == 2 && y < 4 {
        taken == cond && n == o.at_pc(
            if taken {
                o.imm16()
            } else {
                o.pc2()
            },
        )
    } else if z == 4 {
        &&& taken == cond
        &&& if taken {
            o.pushed(n, o.pc2(), o.imm16())
        } else {
            n == o.at_pc(o.pc2())
        }
    } else {
        &&& !taken
        &&& if z == 0 {
            if y == 4 {
                o.stored_at(n, (0xff00 + o.imm8()) as u16, o.registers.a, o.pc1())
            } else if y == 5 {
                let (v, f) = add_sp_spec(o.registers.sp, o.imm8());
                n == (Cpu { registers: Registers { sp: v, pc: o.pc1(), ..o.registers }, flags: f, ..o })
            } else if y == 6 {
                n == (Cpu {
                    registers: Registers {
                        a: o.bus.peek((0xff00 + o.imm8()) as u16),
                        pc: o.pc1(),
                        ..o.registers
                    },
                    ..o
                })
            } else {
                let (v, f) = add_sp_spec(o.registers.sp, o.imm8());
                n == (Cpu {
                    registers: o.at_pc(o.pc1()).registers.with_reg16(RegisterNames16b::HL, v),
                    flags: f,
                    ..o
                })
            }
        } else if z == 1 {
            let w = o.bus.peek16(o.registers.sp);
            let popped = Registers { sp: add16w(o.registers.sp, 2), ..o.registers };
            if y == 0 || y == 2 || y == 4 {
                n == (Cpu { registers: popped.with_reg16(reg16_of(y / 2), w), ..o })
            } else if y == 6 {
                n == (Cpu {
                    registers: Registers { a: (w / 256) as u8, ..popped },
                    flags: flags_of_byte((w % 256) as u8),
                    ..o
                })
            } else if y == 1 {
                n == o.returned()
            } else if y == 3 {
                n == (Cpu { interruption_enabled: true, ..o.returned() })
            } else if y == 5 {
                n == o.at_pc(o.registers.hl())
            } else {
                n == (Cpu { registers: Registers { sp: o.registers.hl(), ..o.registers }, ..o })
            }
        } else if z == 2 {
            let high_c = (0xff00 + o.registers.c) as u16;
            if y == 4 {
                o.stored_at(n, high_c, o.registers.a, o.registers.pc)
            } else if y == 5 {
                o.stored_at(n, o.imm16(), o.registers.a, o.pc2())
            } else if y == 6 {
                n == (Cpu { registers: Registers { a: o.bus.peek(high_c), ..o.registers }, ..o })
            } else {
                n == (Cpu {
                    registers: Registers { a: o.bus.peek(o.imm16()), pc: o.pc2(), ..o.registers },
                    ..o
                })
            }
        } else if z == 3 {
            if opcode == 0xc3 {
                n == o.at_pc(o.imm16())
            } else if opcode == 0xf3 {
                n == (Cpu { interruption_enabled: false, switch_interruption_enabled_in: 0, ..o })
            } else {
                n == (Cpu { switch_interruption_enabled_in: 2, ..o })
            }
        } else if z == 5 {
            if y == 0 || y == 2 || y == 4 {
                o.pushed(n, o.registers.reg16(reg16_of(y / 2)), o.registers.pc)
            } else if y == 6 {
                o.pushed(
                    n,
                    (o.registers.a as int * 256 + flags_byte(o.flags) as int) as u16,
                    o.registers.pc,
                )
            } else {
                o.pushed(n, o.pc2(), o.imm16())
            }
        } else if z == 6 {
            let (v, f) = alu_spec(y, o.registers.a, o.imm8(), o.flags);
            n == (Cpu { registers: Registers { a: v, pc: o.pc1(), ..o.registers }, flags: f, ..o })
        } else {
            o.pushed(n, o.registers.pc, (y * 8) as u16)
        }
    }
}

/// What an instruction of the CB table does; `o` is the processor with PC past both bytes.
#[verifier::opaque]
pub open spec fn cb_effect(o: Cpu, n: Cpu, opcode: u8) -> bool {
    let r = reg_of(opcode % 8);
    let b = (opcode / 8) % 8;
    let v = o.operand(r);
    if opcode / 64 == 0 {
        let (w, f) = shift_spec(b, v, o.flags);
        o.stored(n, r, w) && n.flags == f
    } else if opcode / 64 == 1 {
        n == (Cpu { flags: bit_spec(v, b, o.flags), ..o })
    } else if opcode / 64 == 2 {
        o.stored(n, r, res_spec(v, b)) && n.flags == o.flags
    } else {
        o.stored(n, r, set_spec(v, b)) && n.flags == o.flags
    }
}

/// What an instruction of the main table (not CB, not illegal) does; `o` is the processor with
/// PC past the opcode, `taken` whether its branch was taken.
pub open spec fn instruction_effect(o: Cpu, n: Cpu, opcode: u8, taken: bool) -> bool {
    if opcode < 0x40 {
        block0_effect(o, n, opcode, taken)
    } else if opcode < 0x80 {
        &&& !taken
        &&& if opcode == 0x76 {
            n == (Cpu { is_halted: true, ..o })
        } else {
            o.stored(n, reg_of((opcode / 8) % 8), o.operand(reg_of(opcode % 8))) && n.flags == o.flags
        }
    } else if opcode < 0xc0 {
        !taken && n == o.with_a(
            alu_spec((opcode / 8) % 8, o.registers.a, o.operand(reg_of(opcode % 8)), o.flags),
        )
    } else {
        block3_effect(o, n, opcode, taken)
    }
}

/// What one step of the processor does: `o` before, `n` after, `r` what it returned.
pub open spec fn step_effect(o: Cpu, n: Cpu, r: Result<u32, CpuError>) -> bool {
    let ime = o.ime_after_countdown();
    let c = Cpu {
        interruption_enabled: ime,
        switch_interruption_enabled_in: o.countdown_after(),
        ..o
    };
    let pending = o.pending();
    let opcode = o.bus.peek(o.registers.pc);
    if ime && pending != 0 {
        let bit = first_interrupt(pending);
        let cleared = Bus { interrupt_flags: o.bus.interrupt_flags & !bit, ..o.bus };
        &&& r == Ok::<u32, CpuError>(INTERRUPT_CYCLES)
        &&& n.registers == (Registers {
            sp: add16w(o.registers.sp, -2),
            pc: interrupt_vector(bit),
            ..o.registers
        })
        &&& cleared.written16(n.bus, add16w(o.registers.sp, -2), o.registers.pc)
        &&& n.flags == o.flags
        &&& !n.interruption_enabled && !n.is_halted && !n.is_stopped
        &&& n.switch_interruption_enabled_in == o.countdown_after()
    } else if o.is_halted || o.is_stopped {
        &&& r == Ok::<u32, CpuError>(IDLE_CYCLES)
        &&& n == (Cpu {
            is_halted: o.is_halted && pending == 0,
            is_stopped: o.is_stopped && o.bus.interrupt_flags & 0x10 == 0,
            ..c
        })
    } else if is_illegal(opcode) {
        &&& r == Err::<u32, CpuError>(CpuError::IllegalOpcode { pc: o.registers.pc, opcode })
        &&& n == c
    } else if opcode == 0xcb {
        let cb = o.bus.peek(o.pc1());
        &&& r == Ok::<u32, CpuError>(cb_cycles_of(cb))
        &&& cb_effect(c.at_pc(inc16(o.pc1())), n, cb)
    } else {
        exists|taken: bool|
            r == Ok::<u32, CpuError>(cycles_of(opcode, taken)) && #[trigger] instruction_effect(
                c.at_pc(o.pc1()),
                n,
                opcode,
                taken,
            )
    }
}

impl Cpu {
    /// An instruction of the CB table, its opcode already fetched.
    pub fn execute_cb(&mut self, opcode: u8)
        requires
            old(self).wf(),
        ensures
            final(self).wf(),
            cb_effect(*old(self), *final(self), opcode),
    {
        proof {
            reveal(cb_effect);
        }
        let r = reg_code(opcode % 8);
        let n = (opcode / 8) % 8;
        match opcode / 64 {
            0 => self.shift(n, r),
            1 => self.bit(r, n),
            2 => self.res(r, n),
            _ => self.set(r, n),
        }
    }

    /// LD r,r' (0x40-0x7F but HALT).
    fn execute_load(&mut self, opcode: u8)
        requires
            old(self).wf(),
            opcode / 64 == 1,
            opcode != 0x76,
        ensures
            final(self).wf(),
            old(self).stored(*final(self), reg_of((opcode / 8) % 8), old(self).operand(reg_of(opcode % 8))),
            final(self).flags == old(self).flags,
    {
        let v = self.get_operand(reg_code(opcode % 8));
        self.set_operand(reg_code((opcode / 8) % 8), v);
    }

    /// ADD, ADC, SUB, SBC, AND, XOR, OR, CP on A with a register or (HL) (0x80-0xBF).
    fn execute_arithmetic(&mut self, opcode: u8)
        requires
            old(self).wf(),
            opcode / 64 == 2,
        ensures
            final(self).wf(),
            (final(self).registers.a, final(self).flags) == alu_spec(
                (opcode / 8) % 8,
                old(self).registers.a,
                old(self).operand(reg_of(opcode % 8)),
                old(self).flags,
            ),
            *final(self) == (Cpu {
                registers: Registers { a: final(self).registers.a, ..old(self).registers },
                flags: final(self).flags,
                ..*old(self)
            }),
    {
        let v = self.get_operand(reg_code(opcode % 8));
        self.alu((opcode / 8) % 8, v);
    }

    /// JR e / JR cc,e: the displacement is read, and added to PC when the branch is taken.
    fn jump_relative(&mut self, taken: bool) -> (r: bool)
        requires
            old(self).wf(),
        ensures
            final(self).wf(),
            r == taken,
            ({
                let pc = inc16(old(self).registers.pc);
                let e = old(self).bus.peek(old(self).registers.pc);
                *final(self) == (Cpu {
                    registers: Registers {
                        pc: if taken {
                            add16w(pc, signed_of(e))
                        } else {
                            pc
                        },
                        ..old(self).registers
                    },
                    ..*old(self)
                })
            }),
    {
        let e = self.get_immediate();
        if taken {
            let pc = self.registers.pc;
            self.registers.pc = if e < 128 {
                pc.wrapping_add(e as u16)
            } else {
                pc.wrapping_sub(256 - e as u16)
            };
        }
        taken
    }

    /// The instructions 0x00-0x3F. Returns whether a conditional branch was taken.
    fn execute_block0(&mut self, opcode: u8) -> (taken: bool)
        requires
            old(self).wf(),
            opcode < 0x40,
        ensures
            final(self).wf(),
            block0_effect(*old(self), *final(self), opcode, taken),
    {
        match opcode % 8 {
            0 => self.execute_block0_0(opcode),
            1 => self.execute_block0_1(opcode),
            2 => self.execute_block0_2(opcode),
            3 => self.execute_block0_3(opcode),
            4 => self.execute_block0_4(opcode),
            5 => self.execute_block0_5(opcode),
            6 => self.execute_block0_6(opcode),
            _ => self.execute_block0_7(opcode),
        }
    }

    /// The instructions 0xC0-0xFF but the CB prefix and the illegal opcodes. Returns whether a
    /// conditional branch was taken.
    fn execute_block3(&mut self, opcode: u8) -> (taken: bool)
        requires
            old(self).wf(),
            opcode >= 0xc0,
            opcode != 0xcb,
            !is_illegal(opcode),
        ensures
            final(self).wf(),
            block3_effect(*old(self), *final(self), opcode, taken),
    {
        match opcode % 8 {
            0 => self.execute_block3_0(opcode),
            1 => self.execute_block3_1(opcode),
            2 => self.execute_block3_2(opcode),
            3 => self.execute_block3_3(opcode),
            4 => self.execute_block3_4(opcode),
            5 => self.execute_block3_5(opcode),
            6 => self.execute_block3_6(opcode),
            _ => self.execute_block3_7(opcode),
        }
    }

    /// NOP, LD (nn),SP, STOP, JR e and JR cc,e.
    #[verifier::rlimit(50)]
    fn execute_block0_0(&mut self, opcode: u8) -> (taken: bool)
        requires
            old(self).wf(),
            opcode < 0x40,
            opcode % 8 == 0,
        ensures
            final(self).wf(),
            block0_effect(*old(self), *final(self), opcode, taken),
    {
        proof {
            reveal(block0_effect);
        }
        let y = (opcode / 8) % 8;
        match opcode {
            0x00 => {},
            0x08 => {
                let address = self.get_immediate_16();
                let sp = self.registers.sp;
                self.bus.write_16(address, sp);
            },
            0x10 => {
                self.get_immediate();
                self.is_stopped = true;
            },
            0x18 => {
                return self.jump_relative(true);
            },
            _ => {
                let taken = condition_holds(self.flags, y - 4);
                return self.jump_relative(taken);
            },
        }
        false
    }

    /// LD rr,nn and ADD HL,rr.
    #[verifier::rlimit(50)]
    fn execute_block0_1(&mut self, opcode: u8) -> (taken: bool)
        requires
            old(self).wf(),
            opcode < 0x40,
            opcode % 8 == 1,
        ensures
            final(self).wf(),
            block0_effect(*old(self), *final(self), opcode, taken),
    {
        proof {
            reveal(block0_effect);
        }
        let y = (opcode / 8) % 8;
        let rr = reg16_code(y / 2);
        if y % 2 == 0 {
            let value = self.get_immediate_16();
            self.registers.set_reg16(rr, value);
        } else {
            self.add_16b_register_to_hl(rr);
        }
        false
    }

    /// LD (BC)/(DE)/(HL+)/(HL-),A and the loads of A back from them.
    #[verifier::rlimit(50)]
    fn execute_block0_2(&mut self, opcode: u8) -> (taken: bool)
        requires
            old(self).wf(),
            opcode < 0x40,
            opcode % 8 == 2,
        ensures
            final(self).wf(),
            block0_effect(*old(self), *final(self), opcode, taken),
    {
        proof {
            reveal(block0_effect);
        }
        let y = (opcode / 8) % 8;
        let address = match y / 2 {
            0 => self.registers.get_bc(),
            1 => self.registers.get_de(),
            _ => self.registers.get_hl(),
        };
        if y % 2 == 0 {
            let a = self.registers.a;
            self.set_value_at(address, a);
        } else {
            self.registers.a = self.get_value_at(address);
        }
        if y / 2 == 2 {
            self.registers.inc_hl();
        } else if y / 2 == 3 {
            self.registers.dec_hl();
        }
        false
    }

    /// INC rr and DEC rr.
    #[verifier::rlimit(50)]
    fn execute_block0_3(&mut self, opcode: u8) -> (taken: bool)
        requires
            old(self).wf(),
            opcode < 0x40,
            opcode % 8 == 3,
        ensures
            final(self).wf(),
            block0_effect(*old(self), *final(self), opcode, taken),
    {
        proof {
            reveal(block0_effect);
        }
        let y = (opcode / 8) % 8;
        match y {
            0 => self.registers.inc_bc(),
            1 => self.registers.dec_bc(),
            2 => self.registers.inc_de(),
            3 => self.registers.dec_de(),
            4 => self.registers.inc_hl(),
            5 => self.registers.dec_hl(),
            6 => self.registers.inc_sp(),
            _ => self.registers.dec_sp(),
        }
        false
    }

    /// INC r.
    #[verifier::rlimit(50)]
    fn execute_block0_4(&mut self, opcode: u8) -> (taken: bool)
        requires
            old(self).wf(),
            opcode < 0x40,
            opcode % 8 == 4,
        ensures
            final(self).wf(),
            block0_effect(*old(self), *final(self), opcode, taken),
    {
        proof {
            reveal(block0_effect);
        }
        let y = (opcode / 8) % 8;
        self.inc(reg_code(y));
        false
    }

    /// DEC r.
    #[verifier::rlimit(50)]
    fn execute_block0_5(&mut self, opcode: u8) -> (taken: bool)
        requires
            old(self).wf(),
            opcode < 0x40,
            opcode % 8 == 5,
        ensures
            final(self).wf(),
            block0_effect(*old(self), *final(self), opcode, taken),
    {
        proof {
            reveal(block0_effect);
        }
        let y = (opcode / 8) % 8;
        self.dec(reg_code(y));
        false
    }

    /// LD r,n.
    #[verifier::rlimit(50)]
    fn execute_block0_6(&mut self, opcode: u8) -> (taken: bool)
        requires
            old(self).wf(),
            opcode < 0x40,
            opcode % 8 == 6,
        ensures
            final(self).wf(),
            block0_effect(*old(self), *final(self), opcode, taken),
    {
        proof {
            reveal(block0_effect);
        }
        let y = (opcode / 8) % 8;
        let value = self.get_immediate();
        self.set_operand(reg_code(y), value);
        false
    }

    /// RLCA, RRCA, RLA, RRA, DAA, CPL, SCF and CCF.
    #[verifier::rlimit(50)]
    fn execute_block0_7(&mut self, opcode: u8) -> (taken: bool)
        requires
            old(self).wf(),
            opcode < 0x40,
            opcode % 8 == 7,
        ensures
            final(self).wf(),
            block0_effect(*old(self), *final(self), opcode, taken),
    {
        proof {
            reveal(block0_effect);
        }
        let y = (opcode / 8) % 8;
        match y {
            0 => {
                let (v, f) = alu::rlc(self.registers.a, false);
                self.registers.a = v;
                self.flags = f;
            },
            1 => {
                let (v, f) = alu::rrc(self.registers.a, false);
                self.registers.a = v;
                self.flags = f;
            },
            2 => {
                let (v, f) = alu::rl(self.registers.a, self.flags, false);
                self.registers.a = v;
                self.flags = f;
            },
            3 => {
                let (v, f) = alu::rr(self.registers.a, self.flags, false);
                self.registers.a = v;
                self.flags = f;
            },
            4 => {
                let (v, f) = alu::daa(self.registers.a, self.flags);
                self.registers.a = v;
                self.flags = f;
            },
            5 => self.cpl(),
            6 => {
                self.flags.carry = true;
                self.flags.negative = false;
                self.flags.half_carry = false;
            },
            _ => {
                self.flags.carry = !self.flags.carry;
                self.flags.negative = false;
                self.flags.half_carry = false;
            },
        }
        false
    }

    /// RET cc, LDH (n),A, ADD SP,e, LDH A,(n) and LD HL,SP+e.
    #[verifier::rlimit(50)]
    fn execute_block3_0(&mut self, opcode: u8) -> (taken: bool)
        requires
            old(self).wf(),
            opcode >= 0xc0 && opcode != 0xcb && !is_illegal(opcode),
            opcode % 8 == 0,
        ensures
            final(self).wf(),
            block3_effect(*old(self), *final(self), opcode, taken),
    {
        proof {
            reveal(block3_effect);
        }
        let y = (opcode / 8) % 8;
        if y < 4 {
            let taken = condition_holds(self.flags, y);
            if taken {
                self.ret();
            }
            return taken;
        } else if y == 4 {
            let n = self.get_immediate();
            let a = self.registers.a;
            self.set_value_at(0xff00 + n as u16, a);
        } else if y == 5 {
            let e = self.get_immediate();
            self.add_to_sp(e);
        } else if y == 6 {
            let n = self.get_immediate();
            self.registers.a = self.get_value_at(0xff00 + n as u16);
        } else {
            let e = self.get_immediate();
            let (v, f) = alu::add_sp(self.registers.sp, e);
            self.registers.set_hl(v);
            self.flags = f;
        }
        false
    }

    /// POP rr, RET, RETI, JP HL and LD SP,HL.
    #[verifier::rlimit(50)]
    fn execute_block3_1(&mut self, opcode: u8) -> (taken: bool)
        requires
            old(self).wf(),
            opcode >= 0xc0 && opcode != 0xcb && !is_illegal(opcode),
            opcode % 8 == 1,
        ensures
            final(self).wf(),
            block3_effect(*old(self), *final(self), opcode, taken),
    {
        proof {
            reveal(block3_effect);
        }
        let y = (opcode / 8) % 8;
        match y {
            0 | 2 | 4 => {
                let value = self.pop();
                self.registers.set_reg16(reg16_code(y / 2), value);
            },
            6 => {
                let value = self.pop();
                self.set_af(value);
            },
            1 => self.ret(),
            3 => self.reti(),
            5 => self.registers.pc = self.registers.get_hl(),
            _ => self.registers.sp = self.registers.get_hl(),
        }
        false
    }

    /// JP cc,nn, LD (C),A, LD (nn),A, LD A,(C) and LD A,(nn).
    #[verifier::rlimit(50)]
    fn execute_block3_2(&mut self, opcode: u8) -> (taken: bool)
        requires
            old(self).wf(),
            opcode >= 0xc0 && opcode != 0xcb && !is_illegal(opcode),
            opcode % 8 == 2,
        ensures
            final(self).wf(),
            block3_effect(*old(self), *final(self), opcode, taken),
    {
        proof {
            reveal(block3_effect);
        }
        let y = (opcode / 8) % 8;
        if y < 4 {
            let address = self.get_immediate_16();
            let taken = condition_holds(self.flags, y);
            if taken {
                self.registers.pc = address;
            }
            return taken;
        } else if y == 4 {
            let c = self.registers.c;
            let a = self.registers.a;
            self.set_value_at(0xff00 + c as u16, a);
        } else if y == 5 {
            let address = self.get_immediate_16();
            let a = self.registers.a;
            self.set_value_at(address, a);
        } else if y == 6 {
            let c = self.registers.c;
            self.registers.a = self.get_value_at(0xff00 + c as u16);
        } else {
            let address = self.get_immediate_16();
            self.registers.a = self.get_value_at(address);
        }
        false
    }

    /// JP nn, DI and EI.
    #[verifier::rlimit(50)]
    fn execute_block3_3(&mut self, opcode: u8) -> (taken: bool)
        requires
            old(self).wf(),
            opcode >= 0xc0 && opcode != 0xcb && !is_illegal(opcode),
            opcode % 8 == 3,
        ensures
            final(self).wf(),
            block3_effect(*old(self), *final(self), opcode, taken),
    {
        proof {
            reveal(block3_effect);
        }
        if opcode == 0xc3 {
            let address = self.get_immediate_16();
            self.registers.pc = address;
        } else if opcode == 0xf3 {
            self.di();
        } else {
            self.ei();
        }
        false
    }

    /// CALL cc,nn.
    #[verifier::rlimit(50)]
    fn execute_block3_4(&mut self, opcode: u8) -> (taken: bool)
        requires
            old(self).wf(),
            opcode >= 0xc0 && opcode != 0xcb && !is_illegal(opcode),
            opcode % 8 == 4,
        ensures
            final(self).wf(),
            block3_effect(*old(self), *final(self), opcode, taken),
    {
        proof {
            reveal(block3_effect);
        }
        let y = (opcode / 8) % 8;
        let address = self.get_immediate_16();
        let taken = condition_holds(self.flags, y);
        if taken {
            self.call(address);
        }
        taken
    }

    /// PUSH rr and CALL nn.
    #[verifier::rlimit(50)]
    fn execute_block3_5(&mut self, opcode: u8) -> (taken: bool)
        requires
            old(self).wf(),
            opcode >= 0xc0 && opcode != 0xcb && !is_illegal(opcode),
            opcode % 8 == 5,
        ensures
            final(self).wf(),
            block3_effect(*old(self), *final(self), opcode, taken),
    {
        proof {
            reveal(block3_effect);
        }
        let y = (opcode / 8) % 8;
        match y {
            0 | 2 | 4 => {
                let value = self.registers.get_reg16(reg16_code(y / 2));
                self.push(value);
            },
            6 => {
                let value = self.get_af();
                self.push(value);
            },
            _ => {
                let address = self.get_immediate_16();
                self.call(address);
            },
        }
        false
    }

    /// ADD, ADC, SUB, SBC, AND, XOR, OR and CP with an immediate byte.
    #[verifier::rlimit(50)]
    fn execute_block3_6(&mut self, opcode: u8) -> (taken: bool)
        requires
            old(self).wf(),
            opcode >= 0xc0 && opcode != 0xcb && !is_illegal(opcode),
            opcode % 8 == 6,
        ensures
            final(self).wf(),
            block3_effect(*old(self), *final(self), opcode, taken),
    {
        proof {
            reveal(block3_effect);
        }
        let y = (opcode / 8) % 8;
        let value = self.get_immediate();
        self.alu(y, value);
        false
    }

    /// RST n.
    #[verifier::rlimit(50)]
    fn execute_block3_7(&mut self, opcode: u8) -> (taken: bool)
        requires
            old(self).wf(),
            opcode >= 0xc0 && opcode != 0xcb && !is_illegal(opcode),
            opcode % 8 == 7,
        ensures
            final(self).wf(),
            block3_effect(*old(self), *final(self), opcode, taken),
    {
        proof {
            reveal(block3_effect);
        }
        let y = (opcode / 8) % 8;
        self.rst((y * 8) as u16);
        false
    }

    /// The IF bit of the interrupt served first among those pending.
    fn first_pending(pending: u8) -> (r: u8)
        ensures
            r == first_interrupt(pending),
    {
        if pending % 2 == 1 {
            1
        } else if (pending / 2) % 2 == 1 {
            2
        } else if (pending / 4) % 2 == 1 {
            4
        } else if (pending / 8) % 2 == 1 {
            8
        } else {
            16
        }
    }

    fn vector_of(bit: u8) -> (r: u16)
        ensures
            r == interrupt_vector(bit),
    {
        if bit == 1 {
            INTERRUPT_ADDRESS_VBLANK
        } else if bit == 2 {
            INTERRUPT_ADDRESS_STAT
        } else if bit == 4 {
            INTERRUPT_ADDRESS_TIMER
        } else if bit == 8 {
            INTERRUPT_ADDRESS_SERIAL
        } else {
            INTERRUPT_ADDRESS_JOYPAD
        }
    }

    /// IME after the pending-EI countdown of one step.
    pub open spec fn ime_after_countdown(&self) -> bool {
        self.interruption_enabled || self.switch_interruption_enabled_in == 1
    }

    pub open spec fn countdown_after(&self) -> u8 {
        if self.switch_interruption_enabled_in > 0 {
            (self.switch_interruption_enabled_in - 1) as u8
        } else {
            0
        }
    }

    /// The interrupts both requested and enabled.
    pub open spec fn pending(&self) -> u8 {
        self.bus.interrupt_enabled & self.bus.interrupt_flags & 0x1f
    }

    /// One step of the processor: commits a pending EI, then serves an interrupt, or idles while
    /// halted or stopped, or runs the instruction at PC. Returns the clock cycles it took.
    pub fn next(&mut self) -> (r: Result<u32, CpuError>)
        requires
            old(self).wf(),
        ensures
            final(self).wf(),
            step_effect(*old(self), *final(self), r),
    {
        if self.switch_interruption_enabled_in > 0 {
            self.switch_interruption_enabled_in = self.switch_interruption_enabled_in - 1;
            if self.switch_interruption_enabled_in == 0 {
                self.interruption_enabled = true;
            }
        }
        let pending = self.bus.interrupt_enabled & self.bus.interrupt_flags & 0x1f;
        if self.interruption_enabled && pending != 0 {
            self.service_interrupt(pending);
            return Ok(INTERRUPT_CYCLES);
        }
        if self.is_halted || self.is_stopped {
            if pending != 0 {
                self.is_halted = false;
            }
            if self.bus.interrupt_flags & 0x10 != 0 {
                self.is_stopped = false;
            }
            return Ok(IDLE_CYCLES);
        }
        self.run_instruction()
    }

    /// Enters the handler of the first pending interrupt: its IF bit cleared, IME cleared, PC
    /// pushed, PC set to the vector, halt and stop left.
    fn service_interrupt(&mut self, pending: u8)
        requires
            old(self).wf(),
        ensures
            final(self).wf(),
            ({
                let o = *old(self);
                let n = *final(self);
                let bit = first_interrupt(pending);
                let cleared = Bus { interrupt_flags: o.bus.interrupt_flags & !bit, ..o.bus };
                &&& n.registers == (Registers {
                    sp: add16w(o.registers.sp, -2),
                    pc: interrupt_vector(bit),
                    ..o.registers
                })
                &&& cleared.written16(n.bus, add16w(o.registers.sp, -2), o.registers.pc)
                &&& n.flags == o.flags
                &&& !n.interruption_enabled && !n.is_halted && !n.is_stopped
                &&& n.switch_interruption_enabled_in == o.switch_interruption_enabled_in
            }),
    {
        let bit = Cpu::first_pending(pending);
        self.bus.interrupt_flags = self.bus.interrupt_flags & !bit;
        self.interruption_enabled = false;
        self.is_halted = false;
        self.is_stopped = false;
        let pc = self.registers.pc;
        self.push(pc);
        self.registers.pc = Cpu::vector_of(bit);
    }

    /// Fetches and runs the instruction at PC.
    #[verifier::rlimit(50)]
    fn run_instruction(&mut self) -> (r: Result<u32, CpuError>)
        requires
            old(self).wf(),
        ensures
            final(self).wf(),
            ({
                let o = *old(self);
                let opcode = o.bus.peek(o.registers.pc);
                if is_illegal(opcode) {
                    &&& r == Err::<u32, CpuError>(CpuError::IllegalOpcode { pc: o.registers.pc, opcode })
                    &&& *final(self) == o
                } else if opcode == 0xcb {
                    let cb = o.bus.peek(o.pc1());
                    &&& r == Ok::<u32, CpuError>(cb_cycles_of(cb))
                    &&& cb_effect(o.at_pc(inc16(o.pc1())), *final(self), cb)
                } else {
                    exists|taken: bool|
                        r == Ok::<u32, CpuError>(cycles_of(opcode, taken)) && #[trigger] instruction_effect(
                            o.at_pc(o.pc1()),
                            *final(self),
                            opcode,
                            taken,
                        )
                }
            }),
    {
        let pc = self.registers.pc;
        let opcode = self.bus.read_8(pc);
        if opcode == 0xd3 || opcode == 0xdb || opcode == 0xdd || opcode == 0xe3 || opcode == 0xe4
            || opcode == 0xeb || opcode == 0xec || opcode == 0xed || opcode == 0xf4 || opcode
            == 0xfc || opcode == 0xfd {
            return Err(CpuError::IllegalOpcode { pc, opcode });
        }
        self.registers.pc = pc.wrapping_add(1);
        if opcode == 0xcb {
            let cb = self.get_immediate();
            self.execute_cb(cb);
            return Ok(cb_instruction_cycles(cb));
        }
        let ghost fetched = *self;
        let taken = if opcode < 0x40 {
            self.execute_block0(opcode)
        } else if opcode < 0x80 {
            if opcode == 0x76 {
                self.halt();
            } else {
                self.execute_load(opcode);
            }
            false
        } else if opcode < 0xc0 {
            self.execute_arithmetic(opcode);
            false
        } else {
            self.execute_block3(opcode)
        };
        assert(instruction_effect(fetched, *self, opcode, taken));
        Ok(instruction_cycles(opcode, taken))
    }
}

/// RET (0xC9) takes the word on top of the stack as the new PC and raises SP by two.
pub proof fn lemma_ret_pops_return_address(o: Cpu, n: Cpu, taken: bool)
    requires
        instruction_effect(o, n, 0xc9, taken),
    ensures
        n.registers.pc == o.bus.peek16(o.registers.sp),
        n.registers.sp == add16w(o.registers.sp, 2),
        n.bus == o.bus,
{
    reveal(block3_effect);
}

/// On a register, BIT n after SET n finds the bit set (Z clear), and BIT n after RES n finds it
/// clear (Z set).
pub proof fn lemma_bit_after_set_res_register(
    o: Cpu,
    n1: Cpu,
    n2: Cpu,
    r: RegisterNames,
    b: u8,
    set: bool,
)
    requires
        r != RegisterNames::IndirectHL,
        b < 8,
        o.stored(
            n1,
            r,
            if set {
                set_spec(o.operand(r), b)
            } else {
                res_spec(o.operand(r), b)
            },
        ),
        n2 == (Cpu { flags: bit_spec(n1.operand(r), b, n1.flags), ..n1 }),
    ensures
        n2.flags.zero == !set,
{
    crate::alu::lemma_bit_after_set_res(o.operand(r), b, n1.flags);
}

/// ADD A,b; DAA; SUB b; DAA on a BCD byte in A gives it back. Each `p` is the processor with PC
/// past the opcode of the next instruction, each `s` the processor after it; between two
/// instructions only PC may move.
pub proof fn lemma_daa_round_trip_instructions(
    p1: Cpu,
    s1: Cpu,
    p2: Cpu,
    s2: Cpu,
    p3: Cpu,
    s3: Cpu,
    p4: Cpu,
    s4: Cpu,
    b: u8,
    t1: bool,
    t2: bool,
    t3: bool,
    t4: bool,
)
    requires
        crate::alu::is_bcd(p1.registers.a),
        crate::alu::is_bcd(b),
        p1.imm8() == b,
        instruction_effect(p1, s1, 0xc6, t1),
        p2.registers.a == s1.registers.a && p2.flags == s1.flags,
        instruction_effect(p2, s2, 0x27, t2),
        p3.registers.a == s2.registers.a && p3.flags == s2.flags,
        p3.imm8() == b,
        instruction_effect(p3, s3, 0xd6, t3),
        p4.registers.a == s3.registers.a && p4.flags == s3.flags,
        instruction_effect(p4, s4, 0x27, t4),
    ensures
        s4.registers.a == p1.registers.a,
{
    reveal(block0_effect);
    reveal(block3_effect);
    let a = p1.registers.a;
    assert((s1.registers.a, s1.flags) == add_spec(a, b, false));
    assert((s2.registers.a, s2.flags) == daa_spec(s1.registers.a, s1.flags));
    assert((s3.registers.a, s3.flags) == sub_spec(s2.registers.a, b, false));
    assert((s4.registers.a, s4.flags) == daa_spec(s3.registers.a, s3.flags));
    crate::alu::lemma_daa_add_sub_inverse(a, b);
}

} // verus!
