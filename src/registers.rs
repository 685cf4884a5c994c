use vstd::prelude::*;

verus! {

/// The operand of an 8-bit instruction: one of the seven registers, or the byte at HL.
#[derive(Clone, Copy, Debug, PartialEq, Eq, Structural)]
pub enum RegisterNames {
    A,
    B,
    C,
    D,
    E,
    H,
    L,
    IndirectHL,
}

/// The 16-bit register pairs of the arithmetic and load instructions.
#[derive(Clone, Copy, Debug, PartialEq, Eq, Structural)]
pub enum RegisterNames16b {
    BC,
    DE,
    HL,
    SP,
}

/// The register file: seven 8-bit registers (F lives in `Flags`), SP and PC.
#[derive(Clone, Copy, Debug, PartialEq, Eq, Structural, Default)]
pub struct Registers {
    pub a: u8,
    pub b: u8,
    pub c: u8,
    pub d: u8,
    pub e: u8,
    pub h: u8,
    pub l: u8,
    pub sp: u16,
    pub pc: u16,
}

/// Two bytes read as one 16-bit word, high byte first.
pub open spec fn pair(hi: u8, lo: u8) -> u16 {
    (hi as int * 256 + lo as int) as u16
}

/// x + 1, wrapping at 16 bits.
pub open spec fn inc16(x: u16) -> u16 {
    ((x as int + 1) % 65536) as u16
}

/// x - 1, wrapping at 16 bits.
pub open spec fn dec16(x: u16) -> u16 {
    ((x as int + 65535) % 65536) as u16
}

impl Registers {
    pub open spec fn bc(self) -> u16 {
        pair(self.b, self.c)
    }

    pub open spec fn de(self) -> u16 {
        pair(self.d, self.e)
    }

    pub open spec fn hl(self) -> u16 {
        pair(self.h, self.l)
    }

    /// The value of an 8-bit register; the byte at HL is not a register and reads as 0 here.
    pub open spec fn reg(self, r: RegisterNames) -> u8 {
        match r {
            RegisterNames::A => self.a,
            RegisterNames::B => self.b,
            RegisterNames::C => self.c,
            RegisterNames::D => self.d,
            RegisterNames::E => self.e,
            RegisterNames::H => self.h,
            RegisterNames::L => self.l,
            RegisterNames::IndirectHL => 0,
        }
    }

    /// The register file with one 8-bit register replaced; the byte at HL changes nothing here.
    pub open spec fn with_reg(self, r: RegisterNames, v: u8) -> Registers {
        match r {
            RegisterNames::A => Registers { a: v, ..self },
            RegisterNames::B => Registers { b: v, ..self },
            RegisterNames::C => Registers { c: v, ..self },
            RegisterNames::D => Registers { d: v, ..self },
            RegisterNames::E => Registers { e: v, ..self },
            RegisterNames::H => Registers { h: v, ..self },
            RegisterNames::L => Registers { l: v, ..self },
            RegisterNames::IndirectHL => self,
        }
    }

    /// The value of a register pair.
    pub open spec fn reg16(self, r: RegisterNames16b) -> u16 {
        match r {
            RegisterNames16b::BC => self.bc(),
            RegisterNames16b::DE => self.de(),
            RegisterNames16b::HL => self.hl(),
            RegisterNames16b::SP => self.sp,
        }
    }

    /// The register file with one register pair replaced.
    pub open spec fn with_reg16(self, r: RegisterNames16b, v: u16) -> Registers {
        match r {
            RegisterNames16b::BC => Registers { b: (v / 256) as u8, c: (v % 256) as u8, ..self },
            RegisterNames16b::DE => Registers { d: (v / 256) as u8, e: (v % 256) as u8, ..self },
            RegisterNames16b::HL => Registers { h: (v / 256) as u8, l: (v % 256) as u8, ..self },
            RegisterNames16b::SP => Registers { sp: v, ..self },
        }
    }

    pub fn get_reg(&self, r: RegisterNames) -> (v: u8)
        ensures
            v == self.reg(r),
    {
        match r {
            RegisterNames::A => self.a,
            RegisterNames::B => self.b,
            RegisterNames::C => self.c,
            RegisterNames::D => self.d,
            RegisterNames::E => self.e,
            RegisterNames::H => self.h,
            RegisterNames::L => self.l,
            RegisterNames::IndirectHL => 0,
        }
    }

    pub fn set_reg(&mut self, r: RegisterNames, v: u8)
        ensures
            *final(self) == old(self).with_reg(r, v),
    {
        match r {
            RegisterNames::A => self.a = v,
            RegisterNames::B => self.b = v,
            RegisterNames::C => self.c = v,
            RegisterNames::D => self.d = v,
            RegisterNames::E => self.e = v,
            RegisterNames::H => self.h = v,
            RegisterNames::L => self.l = v,
            RegisterNames::IndirectHL => {},
        }
    }

    pub fn get_reg16(&self, r: RegisterNames16b) -> (v: u16)
        ensures
            v == self.reg16(r),
    {
        match r {
            RegisterNames16b::BC => self.get_bc(),
            RegisterNames16b::DE => self.get_de(),
            RegisterNames16b::HL => self.get_hl(),
            RegisterNames16b::SP => self.sp,
        }
    }

    pub fn set_reg16(&mut self, r: RegisterNames16b, v: u16)
        ensures
            *final(self) == old(self).with_reg16(r, v),
            final(self).reg16(r) == v,
    {
        match r {
            RegisterNames16b::BC => self.set_bc(v),
            RegisterNames16b::DE => self.set_de(v),
            RegisterNames16b::HL => self.set_hl(v),
            RegisterNames16b::SP => self.sp = v,
        }
    }

    pub fn get_bc(&self) -> (v: u16)
        ensures
            v == self.bc(),
    {
        self.b as u16 * 256 + self.c as u16
    }

    pub fn set_bc(&mut self, value: u16)
        ensures
            *final(self) == (Registers { b: (value / 256) as u8, c: (value % 256) as u8, ..*old(self) }),
            final(self).bc() == value,
    {
        self.b = (value / 256) as u8;
        self.c = (value % 256) as u8;
    }

    pub fn inc_bc(&mut self)
        ensures
            *final(self) == old(self).with_reg16(RegisterNames16b::BC, inc16(old(self).bc())),
    {
        let v = self.get_bc();
        self.set_bc(v.wrapping_add(1));
    }

    pub fn dec_bc(&mut self)
        ensures
            *final(self) == old(self).with_reg16(RegisterNames16b::BC, dec16(old(self).bc())),
    {
        let v = self.get_bc();
        self.set_bc(v.wrapping_sub(1));
    }

    pub fn get_de(&self) -> (v: u16)
        ensures
            v == self.de(),
    {
        self.d as u16 * 256 + self.e as u16
    }

    pub fn set_de(&mut self, value: u16)
        ensures
            *final(self) == (Registers { d: (value / 256) as u8, e: (value % 256) as u8, ..*old(self) }),
            final(self).de() == value,
    {
        self.d = (value / 256) as u8;
        self.e = (value % 256) as u8;
    }

    pub fn inc_de(&mut self)
        ensures
            *final(self) == old(self).with_reg16(RegisterNames16b::DE, inc16(old(self).de())),
    {
        let v = self.get_de();
        self.set_de(v.wrapping_add(1));
    }

    pub fn dec_de(&mut self)
        ensures
            *final(self) == old(self).with_reg16(RegisterNames16b::DE, dec16(old(self).de())),
    {
        let v = self.get_de();
        self.set_de(v.wrapping_sub(1));
    }

    pub fn get_hl(&self) -> (v: u16)
        ensures
            v == self.hl(),
    {
        self.h as u16 * 256 + self.l as u16
    }

    pub fn set_hl(&mut self, value: u16)
        ensures
            *final(self) == (Registers { h: (value / 256) as u8, l: (value % 256) as u8, ..*old(self) }),
            final(self).hl() == value,
    {
        self.h = (value / 256) as u8;
        self.l = (value % 256) as u8;
    }

    pub fn inc_hl(&mut self)
        ensures
            *final(self) == old(self).with_reg16(RegisterNames16b::HL, inc16(old(self).hl())),
    {
        let v = self.get_hl();
        self.set_hl(v.wrapping_add(1));
    }

    pub fn dec_hl(&mut self)
        ensures
            *final(self) == old(self).with_reg16(RegisterNames16b::HL, dec16(old(self).hl())),
    {
        let v = self.get_hl();
        self.set_hl(v.wrapping_sub(1));
    }

    pub fn inc_sp(&mut self)
        ensures
            *final(self) == (Registers { sp: inc16(old(self).sp), ..*old(self) }),
    {
        self.sp = self.sp.wrapping_add(1);
    }

    pub fn dec_sp(&mut self)
        ensures
            *final(self) == (Registers { sp: dec16(old(self).sp), ..*old(self) }),
    {
        self.sp = self.sp.wrapping_sub(1);
    }
}

} // verus!
