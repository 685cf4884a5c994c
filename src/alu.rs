use vstd::prelude::*;
use crate::flags::Flags;

verus! {

/// 1 when the flag is set, 0 otherwise.
pub open spec fn bit_of(b: bool) -> int {
    if b {
        1
    } else {
        0
    }
}

/// Both nibbles of the byte are decimal digits.
pub open spec fn is_bcd(v: u8) -> bool {
    v % 16 <= 9 && v / 16 <= 9
}

/// The decimal number that a packed BCD byte stands for.
pub open spec fn bcd_value(v: u8) -> int {
    (v / 16) as int * 10 + (v % 16) as int
}

/// ADD (carry_in false) and ADC (carry_in the C flag): A + operand + carry.
pub open spec fn add_spec(a: u8, b: u8, carry_in: bool) -> (u8, Flags) {
    let s = a as int + b as int + bit_of(carry_in);
    (
        (s % 256) as u8,
        Flags {
            zero: s % 256 == 0,
            negative: false,
            half_carry: (a % 16) as int + (b % 16) as int + bit_of(carry_in) > 15,
            carry: s > 255,
        },
    )
}

/// SUB (borrow_in false), SBC (borrow_in the C flag) and CP: A - operand - borrow.
pub open spec fn sub_spec(a: u8, b: u8, borrow_in: bool) -> (u8, Flags) {
    let d = a as int - b as int - bit_of(borrow_in);
    (
        ((d + 256) % 256) as u8,
        Flags {
            zero: (d + 256) % 256 == 0,
            negative: true,
            half_carry: ((a % 16) as int) < (b % 16) as int + bit_of(borrow_in),
            carry: d < 0,
        },
    )
}

/// Flags of AND, OR and XOR on a result.
pub open spec fn logic_flags(r: u8, half_carry: bool) -> Flags {
    Flags { zero: r == 0, negative: false, half_carry, carry: false }
}

/// INC r: C is kept.
pub open spec fn inc_spec(v: u8, f: Flags) -> (u8, Flags) {
    let r = ((v as int + 1) % 256) as u8;
    (r, Flags { zero: r == 0, negative: false, half_carry: v % 16 == 15, carry: f.carry })
}

/// DEC r: C is kept.
pub open spec fn dec_spec(v: u8, f: Flags) -> (u8, Flags) {
    let r = ((v as int + 255) % 256) as u8;
    (r, Flags { zero: r == 0, negative: true, half_carry: v % 16 == 0, carry: f.carry })
}

/// Flags of a rotation or shift: Z from the result (or cleared for the A-only forms), N and H
/// cleared, C the bit that was moved out.
pub open spec fn shift_flags(r: u8, carry: bool, set_zero: bool) -> Flags {
    Flags { zero: set_zero && r == 0, negative: false, half_carry: false, carry }
}

/// RLC: rotate left, bit 7 into bit 0 and into C.
pub open spec fn rlc_spec(v: u8, set_zero: bool) -> (u8, Flags) {
    let r = ((v % 128) * 2 + v / 128) as u8;
    (r, shift_flags(r, v >= 128, set_zero))
}

/// RRC: rotate right, bit 0 into bit 7 and into C.
pub open spec fn rrc_spec(v: u8, set_zero: bool) -> (u8, Flags) {
    let r = (v / 2 + (v % 2) * 128) as u8;
    (r, shift_flags(r, v % 2 == 1, set_zero))
}

/// RL: rotate left through the carry.
pub open spec fn rl_spec(v: u8, f: Flags, set_zero: bool) -> (u8, Flags) {
    let r = ((v % 128) as int * 2 + bit_of(f.carry)) as u8;
    (r, shift_flags(r, v >= 128, set_zero))
}

/// RR: rotate right through the carry.
pub open spec fn rr_spec(v: u8, f: Flags, set_zero: bool) -> (u8, Flags) {
    let r = ((v / 2) as int + bit_of(f.carry) * 128) as u8;
    (r, shift_flags(r, v % 2 == 1, set_zero))
}

/// SLA: shift left, bit 0 cleared.
pub open spec fn sla_spec(v: u8) -> (u8, Flags) {
    let r = ((v % 128) * 2) as u8;
    (r, shift_flags(r, v >= 128, true))
}

/// SRA: shift right, bit 7 kept.
pub open spec fn sra_spec(v: u8) -> (u8, Flags) {
    let r = (v / 2 + (v / 128) * 128) as u8;
    (r, shift_flags(r, v % 2 == 1, true))
}

/// SRL: shift right, bit 7 cleared.
pub open spec fn srl_spec(v: u8) -> (u8, Flags) {
    let r = (v / 2) as u8;
    (r, shift_flags(r, v % 2 == 1, true))
}

/// SWAP: exchange the nibbles.
pub open spec fn swap_spec(v: u8) -> (u8, Flags) {
    let r = ((v % 16) * 16 + v / 16) as u8;
    (r, shift_flags(r, false, true))
}

/// Bit n of v.
pub open spec fn bit_at(v: u8, n: u8) -> bool {
    (v >> n) & 1 == 1
}

/// BIT n: Z is the complement of the bit, N cleared, H set, C kept.
pub open spec fn bit_spec(v: u8, n: u8, f: Flags) -> Flags {
    Flags { zero: !bit_at(v, n), negative: false, half_carry: true, carry: f.carry }
}

/// SET n.
pub open spec fn set_spec(v: u8, n: u8) -> u8 {
    v | (1u8 << n)
}

/// RES n.
pub open spec fn res_spec(v: u8, n: u8) -> u8 {
    v & !(1u8 << n)
}

/// DAA: decimal adjustment of A after a BCD addition (N clear) or subtraction (N set).
pub open spec fn daa_spec(a: u8, f: Flags) -> (u8, Flags) {
    let (r, c) = if !f.negative {
        let high = f.carry || a > 0x99;
        let low = f.half_carry || a % 16 > 9;
        let s = a as int + (if high { 0x60int } else { 0 }) + (if low { 6int } else { 0 });
        (s % 256, high)
    } else {
        let s = a as int - (if f.carry { 0x60int } else { 0 }) - (if f.half_carry { 6int } else { 0 });
        ((s + 256) % 256, f.carry)
    };
    (r as u8, Flags { zero: r == 0, negative: f.negative, half_carry: false, carry: c })
}

/// ADD HL,rr: Z kept, N cleared, H from bit 11, C from bit 15.
pub open spec fn add16_spec(a: u16, b: u16, f: Flags) -> (u16, Flags) {
    let s = a as int + b as int;
    (
        (s % 65536) as u16,
        Flags {
            zero: f.zero,
            negative: false,
            half_carry: (a % 4096) as int + (b % 4096) as int > 4095,
            carry: s > 65535,
        },
    )
}

/// The signed displacement that a byte stands for.
pub open spec fn signed_of(e: u8) -> int {
    if e < 128 {
        e as int
    } else {
        e as int - 256
    }
}

/// SP + e (ADD SP,e and LD HL,SP+e): Z and N cleared, H and C from the unsigned addition of the
/// low byte of SP and e.
pub open spec fn add_sp_spec(sp: u16, e: u8) -> (u16, Flags) {
    (
        ((sp as int + signed_of(e) + 65536) % 65536) as u16,
        Flags {
            zero: false,
            negative: false,
            half_carry: (sp % 16) as int + (e % 16) as int > 15,
            carry: (sp % 256) as int + e as int > 255,
        },
    )
}

pub fn add(a: u8, b: u8, carry_in: bool) -> (r: (u8, Flags))
    ensures
        r == add_spec(a, b, carry_in),
{
    let c: u16 = if carry_in {
        1
    } else {
        0
    };
    let s: u16 = a as u16 + b as u16 + c;
    let v = (s % 256) as u8;
    let h = (a % 16) as u16 + (b % 16) as u16 + c > 15;
    (v, Flags { zero: v == 0, negative: false, half_carry: h, carry: s > 255 })
}

pub fn sub(a: u8, b: u8, borrow_in: bool) -> (r: (u8, Flags))
    ensures
        r == sub_spec(a, b, borrow_in),
{
    let c: u16 = if borrow_in {
        1
    } else {
        0
    };
    let s: u16 = a as u16 + 256 - b as u16 - c;
    let v = (s % 256) as u8;
    let h = ((a % 16) as u16) < (b % 16) as u16 + c;
    (v, Flags { zero: v == 0, negative: true, half_carry: h, carry: s < 256 })
}

pub fn inc(v: u8, f: Flags) -> (r: (u8, Flags))
    ensures
        r == inc_spec(v, f),
{
    let r = if v == 255 {
        0
    } else {
        v + 1
    };
    (r, Flags { zero: r == 0, negative: false, half_carry: v % 16 == 15, carry: f.carry })
}

pub fn dec(v: u8, f: Flags) -> (r: (u8, Flags))
    ensures
        r == dec_spec(v, f),
{
    let r = if v == 0 {
        255
    } else {
        v - 1
    };
    (r, Flags { zero: r == 0, negative: true, half_carry: v % 16 == 0, carry: f.carry })
}

pub fn rlc(v: u8, set_zero: bool) -> (r: (u8, Flags))
    ensures
        r == rlc_spec(v, set_zero),
{
    let r = (v % 128) * 2 + v / 128;
    (r, Flags { zero: set_zero && r == 0, negative: false, half_carry: false, carry: v >= 128 })
}

pub fn rrc(v: u8, set_zero: bool) -> (r: (u8, Flags))
    ensures
        r == rrc_spec(v, set_zero),
{
    let r = v / 2 + (v % 2) * 128;
    (r, Flags { zero: set_zero && r == 0, negative: false, half_carry: false, carry: v % 2 == 1 })
}

pub fn rl(v: u8, f: Flags, set_zero: bool) -> (r: (u8, Flags))
    ensures
        r == rl_spec(v, f, set_zero),
{
    let c: u8 = if f.carry {
        1
    } else {
        0
    };
    let r = (v % 128) * 2 + c;
    (r, Flags { zero: set_zero && r == 0, negative: false, half_carry: false, carry: v >= 128 })
}

pub fn rr(v: u8, f: Flags, set_zero: bool) -> (r: (u8, Flags))
    ensures
        r == rr_spec(v, f, set_zero),
{
    let c: u8 = if f.carry {
        128
    } else {
        0
    };
    let r = v / 2 + c;
    (r, Flags { zero: set_zero && r == 0, negative: false, half_carry: false, carry: v % 2 == 1 })
}

pub fn sla(v: u8) -> (r: (u8, Flags))
    ensures
        r == sla_spec(v),
{
    let r = (v % 128) * 2;
    (r, Flags { zero: r == 0, negative: false, half_carry: false, carry: v >= 128 })
}

pub fn sra(v: u8) -> (r: (u8, Flags))
    ensures
        r == sra_spec(v),
{
    let r = v / 2 + (v / 128) * 128;
    (r, Flags { zero: r == 0, negative: false, half_carry: false, carry: v % 2 == 1 })
}

pub fn srl(v: u8) -> (r: (u8, Flags))
    ensures
        r == srl_spec(v),
{
    let r = v / 2;
    (r, Flags { zero: r == 0, negative: false, half_carry: false, carry: v % 2 == 1 })
}

pub fn swap(v: u8) -> (r: (u8, Flags))
    ensures
        r == swap_spec(v),
{
    let r = (v % 16) * 16 + v / 16;
    (r, Flags { zero: r == 0, negative: false, half_carry: false, carry: false })
}

pub fn bit(v: u8, n: u8, f: Flags) -> (r: Flags)
    requires
        n < 8,
    ensures
        r == bit_spec(v, n, f),
{
    Flags { zero: (v >> n) & 1 != 1, negative: false, half_carry: true, carry: f.carry }
}

pub fn set(v: u8, n: u8) -> (r: u8)
    requires
        n < 8,
    ensures
        r == set_spec(v, n),
{
    v | (1u8 << n)
}

pub fn res(v: u8, n: u8) -> (r: u8)
    requires
        n < 8,
    ensures
        r == res_spec(v, n),
{
    v & !(1u8 << n)
}

pub fn daa(a: u8, f: Flags) -> (r: (u8, Flags))
    ensures
        r == daa_spec(a, f),
{
    let mut s: u16 = a as u16;
    let mut c = f.carry;
    if !f.negative {
        if f.carry || a > 0x99 {
            s = s + 0x60;
            c = true;
        }
        if f.half_carry || a % 16 > 9 {
            s = s + 6;
        }
    } else {
        s = s + 256;
        if f.carry {
            s = s - 0x60;
        }
        if f.half_carry {
            s = s - 6;
        }
    }
    let v = (s % 256) as u8;
    (v, Flags { zero: v == 0, negative: f.negative, half_carry: false, carry: c })
}

pub fn add16(a: u16, b: u16, f: Flags) -> (r: (u16, Flags))
    ensures
        r == add16_spec(a, b, f),
{
    let s: u32 = a as u32 + b as u32;
    let h = (a % 4096) as u32 + (b % 4096) as u32 > 4095;
    ((s % 65536) as u16, Flags { zero: f.zero, negative: false, half_carry: h, carry: s > 65535 })
}

pub fn add_sp(sp: u16, e: u8) -> (r: (u16, Flags))
    ensures
        r == add_sp_spec(sp, e),
{
    let s: u32 = if e < 128 {
        sp as u32 + e as u32
    } else {
        sp as u32 + 65536 - (256 - e as u32)
    };
    let h = (sp % 16) as u16 + (e % 16) as u16 > 15;
    let c = (sp % 256) as u16 + e as u16 > 255;
    ((s % 65536) as u16, Flags { zero: false, negative: false, half_carry: h, carry: c })
}

/// Testing a bit that SET has just set finds it set (Z clear); testing a bit that RES has just
/// reset finds it clear (Z set). The other flags are those BIT always gives.
pub proof fn lemma_bit_after_set_res(v: u8, n: u8, f: Flags)
    requires
        n < 8,
    ensures
        bit_spec(set_spec(v, n), n, f).zero == false,
        bit_spec(res_spec(v, n), n, f).zero == true,
{
    assert(((v | (1u8 << n)) >> n) & 1 == 1 && ((v & !(1u8 << n)) >> n) & 1 == 0) by (bit_vector)
        requires
            n < 8,
    ;
}

/// Eight RLC rotations give the byte back; the carry is then the bit that the last rotation
/// moved out of bit 7, which is bit 0 of the byte.
pub proof fn lemma_rlc_eight_times(v: u8)
    ensures
        ({
            let r1 = rlc_spec(v, true);
            let r2 = rlc_spec(r1.0, true);
            let r3 = rlc_spec(r2.0, true);
            let r4 = rlc_spec(r3.0, true);
            let r5 = rlc_spec(r4.0, true);
            let r6 = rlc_spec(r5.0, true);
            let r7 = rlc_spec(r6.0, true);
            let r8 = rlc_spec(r7.0, true);
            r8.0 == v && r8.1.carry == (v % 2 == 1) && r8.1.zero == (v == 0)
        }),
{
    let r1 = rlc_spec(v, true).0;
    let r2 = rlc_spec(r1, true).0;
    let r3 = rlc_spec(r2, true).0;
    let r4 = rlc_spec(r3, true).0;
    let r5 = rlc_spec(r4, true).0;
    let r6 = rlc_spec(r5, true).0;
    let r7 = rlc_spec(r6, true).0;
    let r8 = rlc_spec(r7, true).0;
    assert(r8 == v && (r7 >= 128) == (v % 2 == 1)) by (bit_vector)
        requires
            r1 == ((v % 128) * 2 + v / 128) as u8,
            r2 == ((r1 % 128) * 2 + r1 / 128) as u8,
            r3 == ((r2 % 128) * 2 + r2 / 128) as u8,
            r4 == ((r3 % 128) * 2 + r3 / 128) as u8,
            r5 == ((r4 % 128) * 2 + r4 / 128) as u8,
            r6 == ((r5 % 128) * 2 + r5 / 128) as u8,
            r7 == ((r6 % 128) * 2 + r6 / 128) as u8,
            r8 == ((r7 % 128) * 2 + r7 / 128) as u8,
    ;
}

/// A BCD addition adjusted by DAA, followed by the subtraction of the same operand adjusted by
/// DAA with the subtraction flags, gives the first operand back.
pub proof fn lemma_daa_add_sub_inverse(a: u8, b: u8)
    requires
        is_bcd(a),
        is_bcd(b),
    ensures
        ({
            let s = add_spec(a, b, false);
            let d = daa_spec(s.0, s.1);
            let t = sub_spec(d.0, b, false);
            daa_spec(t.0, t.1).0 == a
        }),
{
    let s = add_spec(a, b, false);
    let s8 = s.0;
    let h1 = s.1.half_carry;
    let c1 = s.1.carry;
    let d = daa_spec(s8, s.1).0;
    let t = sub_spec(d, b, false);
    let t8 = t.0;
    let h2 = t.1.half_carry;
    let c2 = t.1.carry;
    let e = daa_spec(t8, t.1).0;
    assert(e == a) by (bit_vector)
        requires
            a % 16 <= 9 && a / 16 <= 9 && b % 16 <= 9 && b / 16 <= 9,
            s8 == ((a as u16 + b as u16) % 256) as u8,
            h1 == ((a % 16) as u16 + (b % 16) as u16 > 15),
            c1 == (a as u16 + b as u16 > 255),
            d == ((s8 as u16 + (if c1 || s8 > 0x99 { 0x60u16 } else { 0u16 }) + (if h1 || s8 % 16 > 9 {
                6u16
            } else {
                0u16
            })) % 256) as u8,
            t8 == ((d as u16 + 256 - b as u16) % 256) as u8,
            h2 == ((d % 16) < (b % 16)),
            c2 == (d < b),
            e == ((t8 as u16 + 256 - (if c2 { 0x60u16 } else { 0u16 }) - (if h2 { 6u16 } else { 0u16 }))
                % 256) as u8,
    ;
}

} // verus!
