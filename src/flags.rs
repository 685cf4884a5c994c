use vstd::prelude::*;

verus! {

/// The four condition flags of the processor, kept in bits 7..4 of F.
#[derive(Clone, Copy, Debug, PartialEq, Eq, Structural, Default)]
pub struct Flags {
    pub zero: bool,
    pub negative: bool,
    pub half_carry: bool,
    pub carry: bool,
}

/// The byte that F reads as for the given flags: the low nibble is always zero.
pub open spec fn flags_byte(f: Flags) -> u8 {
    ((if f.zero { 0x80u8 } else { 0u8 }) | (if f.negative { 0x40u8 } else { 0u8 }) | (if f.half_carry {
        0x20u8
    } else {
        0u8
    }) | (if f.carry { 0x10u8 } else { 0u8 })) as u8
}

/// The flags that a byte written to F stands for: bits 7..4, the low nibble ignored.
pub open spec fn flags_of_byte(b: u8) -> Flags {
    Flags {
        zero: b & 0x80 != 0,
        negative: b & 0x40 != 0,
        half_carry: b & 0x20 != 0,
        carry: b & 0x10 != 0,
    }
}

/// Carry out of bit 3 when adding two bytes.
pub open spec fn half_carry_add8(a: u8, b: u8) -> bool {
    (a & 0xf) as int + (b & 0xf) as int > 0xf
}

/// Carry out of bit 11 when adding two 16-bit words.
pub open spec fn half_carry_add16(a: u16, b: u16) -> bool {
    (a & 0xfff) as int + (b & 0xfff) as int > 0xfff
}

impl Flags {
    pub fn get_flags(&self) -> (r: u8)
        ensures
            r == flags_byte(*self),
            r & 0x0f == 0,
    {
        let z: u8 = if self.zero { 0x80 } else { 0 };
        let n: u8 = if self.negative { 0x40 } else { 0 };
        let h: u8 = if self.half_carry { 0x20 } else { 0 };
        let c: u8 = if self.carry { 0x10 } else { 0 };
        let r = z | n | h | c;
        assert(r & 0x0f == 0) by (bit_vector)
            requires
                r == z | n | h | c,
                z == 0x80 || z == 0,
                n == 0x40 || n == 0,
                h == 0x20 || h == 0,
                c == 0x10 || c == 0,
        ;
        r
    }

    pub fn set_flags(&mut self, flag: u8)
        ensures
            *final(self) == flags_of_byte(flag),
    {
        self.zero = flag & 0x80 != 0;
        self.negative = flag & 0x40 != 0;
        self.half_carry = flag & 0x20 != 0;
        self.carry = flag & 0x10 != 0;
    }

    pub fn clear_flags(&mut self)
        ensures
            *final(self) == (Flags { zero: false, negative: false, half_carry: false, carry: false }),
    {
        self.zero = false;
        self.negative = false;
        self.half_carry = false;
        self.carry = false;
    }

    pub fn set_zero(&mut self, value: u8)
        ensures
            *final(self) == (Flags { zero: value == 0, ..*old(self) }),
    {
        self.zero = value == 0;
    }

    pub fn set_half_carry_8(&mut self, a: u8, b: u8)
        ensures
            *final(self) == (Flags { half_carry: half_carry_add8(a, b), ..*old(self) }),
    {
        self.half_carry = (a & 0xf) as u16 + (b & 0xf) as u16 > 0xf;
    }

    pub fn set_half_carry_16(&mut self, a: u16, b: u16)
        ensures
            *final(self) == (Flags { half_carry: half_carry_add16(a, b), ..*old(self) }),
    {
        self.half_carry = (a & 0xfff) as u32 + (b & 0xfff) as u32 > 0xfff;
    }
}

/// Writing the byte of some flags back to F gives the same flags.
pub proof fn lemma_flags_byte_round_trip(f: Flags)
    ensures
        flags_of_byte(flags_byte(f)) == f,
{
    let z: u8 = if f.zero { 0x80u8 } else { 0u8 };
    let n: u8 = if f.negative { 0x40u8 } else { 0u8 };
    let h: u8 = if f.half_carry { 0x20u8 } else { 0u8 };
    let c: u8 = if f.carry { 0x10u8 } else { 0u8 };
    assert(((z | n | h | c) & 0x80 != 0) == (z == 0x80) && ((z | n | h | c) & 0x40 != 0) == (n
        == 0x40) && ((z | n | h | c) & 0x20 != 0) == (h == 0x20) && ((z | n | h | c) & 0x10 != 0)
        == (c == 0x10)) by (bit_vector)
        requires
            z == 0x80 || z == 0,
            n == 0x40 || n == 0,
            h == 0x20 || h == 0,
            c == 0x10 || c == 0,
    ;
}

} // verus!
