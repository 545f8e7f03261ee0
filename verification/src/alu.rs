use vstd::arithmetic::div_mod::lemma_fundamental_div_mod;
use vstd::prelude::*;

verus! {

/// The result of one 8-bit ALU step: the byte to store and the four flag
/// bits the operation produces.
#[derive(Clone, Copy, Debug, PartialEq, Eq, Structural)]
pub struct AluOut {
    pub r: u8,
    pub z: bool,
    pub n: bool,
    pub h: bool,
    pub c: bool,
}

/// 1 for true, 0 for false.
pub open spec fn b2i(b: bool) -> int {
    if b {
        1
    } else {
        0
    }
}

/// Accumulator addition with an optional incoming carry, computed in a
/// widened integer and truncated to 8 bits. Z is taken from the truncated
/// result, N is cleared, H holds the carry out of bit 3 and C the carry out
/// of bit 7.
pub open spec fn spec_add8(a: u8, v: u8, cin: bool) -> AluOut {
    let sum = a + v + b2i(cin);
    AluOut {
        r: (sum % 256) as u8,
        z: sum % 256 == 0,
        n: false,
        h: a % 16 + v % 16 + b2i(cin) >= 16,
        c: sum >= 256,
    }
}

/// Accumulator subtraction with an optional incoming borrow, using borrow
/// semantics: H holds the borrow out of bit 4, C the borrow out of bit 8,
/// N is always set and Z is taken from the truncated result.
pub open spec fn spec_sub8(a: u8, v: u8, cin: bool) -> AluOut {
    let d = a - v - b2i(cin) + 256;
    AluOut {
        r: (d % 256) as u8,
        z: d % 256 == 0,
        n: true,
        h: a % 16 < v % 16 + b2i(cin),
        c: a < v + b2i(cin),
    }
}

/// Bitwise AND into the accumulator: Z from the result, N and C cleared,
/// H set.
pub open spec fn spec_and8(a: u8, v: u8) -> AluOut {
    AluOut { r: a & v, z: (a & v) == 0, n: false, h: true, c: false }
}

/// Bitwise OR into the accumulator: Z from the result, N, H and C cleared.
pub open spec fn spec_or8(a: u8, v: u8) -> AluOut {
    AluOut { r: a | v, z: (a | v) == 0, n: false, h: false, c: false }
}

/// Bitwise XOR into the accumulator: Z from the result, N, H and C cleared.
pub open spec fn spec_xor8(a: u8, v: u8) -> AluOut {
    AluOut { r: a ^ v, z: (a ^ v) == 0, n: false, h: false, c: false }
}

/// The 8-bit value one above `x`, wrapping at 256.
pub open spec fn spec_inc8(x: u8) -> u8 {
    ((x + 1) % 256) as u8
}

/// The 8-bit value one below `x`, wrapping at 256.
pub open spec fn spec_dec8(x: u8) -> u8 {
    ((x + 255) % 256) as u8
}

/// Rotate left: the outgoing high bit becomes both the new low bit and the
/// carry flag; Z from the result, N and H cleared.
pub open spec fn spec_rlc(x: u8) -> AluOut {
    let r = (((2 * x) % 256) + x / 128) as u8;
    AluOut { r, z: r == 0, n: false, h: false, c: x >= 128 }
}

/// Rotate left through carry: the previous carry flag is folded into the
/// incoming low bit; the outgoing high bit becomes the new carry.
pub open spec fn spec_rl(x: u8, cin: bool) -> AluOut {
    let r = (((2 * x) % 256) + b2i(cin)) as u8;
    AluOut { r, z: r == 0, n: false, h: false, c: x >= 128 }
}

/// Rotate right: the outgoing low bit becomes both the new high bit and the
/// carry flag; Z from the result, N and H cleared.
pub open spec fn spec_rrc(x: u8) -> AluOut {
    let r = (x / 2 + (x % 2) * 128) as u8;
    AluOut { r, z: r == 0, n: false, h: false, c: x % 2 == 1 }
}

/// Rotate right through carry: the previous carry flag is folded into the
/// incoming high bit; the outgoing low bit becomes the new carry.
pub open spec fn spec_rr(x: u8, cin: bool) -> AluOut {
    let r = (x / 2 + b2i(cin) * 128) as u8;
    AluOut { r, z: r == 0, n: false, h: false, c: x % 2 == 1 }
}

/// Arithmetic shift left: bit 7 moves into the carry, zero shifts in.
pub open spec fn spec_sla(x: u8) -> AluOut {
    let r = ((2 * x) % 256) as u8;
    AluOut { r, z: r == 0, n: false, h: false, c: x >= 128 }
}

/// Arithmetic shift right: the sign bit is preserved, bit 0 moves into the
/// carry.
pub open spec fn spec_sra(x: u8) -> AluOut {
    let r = (x / 2 + (x / 128) * 128) as u8;
    AluOut { r, z: r == 0, n: false, h: false, c: x % 2 == 1 }
}

/// Logical shift right: zero shifts into bit 7, bit 0 moves into the carry.
pub open spec fn spec_srl(x: u8) -> AluOut {
    let r = x / 2;
    AluOut { r, z: r == 0, n: false, h: false, c: x % 2 == 1 }
}

/// Nibble swap: high and low nibbles exchanged, Z from the result, N, H and
/// C cleared.
pub open spec fn spec_swap(x: u8) -> AluOut {
    let r = ((x % 16) * 16 + x / 16) as u8;
    AluOut { r, z: r == 0, n: false, h: false, c: false }
}

/// Decimal adjust after addition or subtraction: corrects the accumulator
/// to packed BCD, conditioned on the N flag (add vs. subtract mode) and on
/// the H/C flags of the prior operation, per nibble. In add mode C is set
/// exactly when the high-nibble correction itself overflowed; in subtract
/// mode C is kept. H is always cleared and Z reflects the corrected byte.
pub open spec fn spec_daa(a: u8, n: bool, h: bool, c: bool) -> AluOut {
    if !n {
        let hi_adjust = c || a > 0x99;
        let a1 = if hi_adjust {
            (a + 0x60) % 256
        } else {
            a as int
        };
        let lo_adjust = h || a % 16 > 9;
        let a2 = (if lo_adjust {
            (a1 + 0x06) % 256
        } else {
            a1
        }) as u8;
        AluOut { r: a2, z: a2 == 0, n: n, h: false, c: hi_adjust }
    } else {
        let a1 = if c {
            (a + 256 - 0x60) % 256
        } else {
            a as int
        };
        let a2 = (if h {
            (a1 + 256 - 0x06) % 256
        } else {
            a1
        }) as u8;
        AluOut { r: a2, z: a2 == 0, n: n, h: false, c: c }
    }
}

/// The weight of bit `b` inside a byte, for bit indices 0 through 7.
pub open spec fn bit_weight(b: u8) -> u8 {
    if b == 0 {
        1
    } else if b == 1 {
        2
    } else if b == 2 {
        4
    } else if b == 3 {
        8
    } else if b == 4 {
        16
    } else if b == 5 {
        32
    } else if b == 6 {
        64
    } else {
        128
    }
}

/// Whether bit `b` of `x` is set, for bit indices 0 through 7.
pub open spec fn spec_bit_set(x: u8, b: u8) -> bool {
    (x / bit_weight(b)) % 2 == 1
}

/// The byte `x` with bit `b` forced to `on`, for bit indices 0 through 7.
pub open spec fn spec_with_bit(x: u8, b: u8, on: bool) -> u8 {
    if spec_bit_set(x, b) == on {
        x
    } else if on {
        (x + bit_weight(b)) as u8
    } else {
        (x - bit_weight(b)) as u8
    }
}

/// The signed two's-complement reading of a byte.
pub open spec fn spec_to_i8(b: u8) -> i8 {
    if b < 128 {
        b as i8
    } else {
        (b - 256) as i8
    }
}

/// The unsigned byte carrying the two's-complement pattern of `d`.
pub open spec fn spec_to_u8(d: i8) -> u8 {
    if d >= 0 {
        d as u8
    } else {
        (d + 256) as u8
    }
}

/// A 16-bit value displaced by an arbitrary integer, wrapping modulo 2^16.
pub open spec fn wrap_add16(a: u16, d: int) -> u16 {
    ((a + d) % 0x10000) as u16
}

/// Increments a 16-bit value, wrapping at 2^16.
pub fn wrapping_inc16(a: u16) -> (r: u16)
    ensures
        r == wrap_add16(a, 1),
{
    if a == 0xFFFF {
        0
    } else {
        a + 1
    }
}

/// Decrements a 16-bit value, wrapping at 2^16.
pub fn wrapping_dec16(a: u16) -> (r: u16)
    ensures
        r == wrap_add16(a, -1),
{
    if a == 0 {
        0xFFFF
    } else {
        a - 1
    }
}

/// Adds two to a 16-bit value, wrapping at 2^16.
pub fn wrapping_add2_16(a: u16) -> (r: u16)
    ensures
        r == wrap_add16(a, 2),
{
    if a <= 0xFFFD {
        a + 2
    } else {
        a - 0xFFFE
    }
}

/// Subtracts two from a 16-bit value, wrapping at 2^16.
pub fn wrapping_sub2_16(a: u16) -> (r: u16)
    ensures
        r == wrap_add16(a, -2),
{
    if a >= 2 {
        a - 2
    } else {
        a + 0xFFFE
    }
}

/// Adds a signed 8-bit displacement to a 16-bit value, wrapping modulo 2^16.
pub fn add_signed16(a: u16, d: i8) -> (r: u16)
    ensures
        r == wrap_add16(a, d as int),
{
    let s: i32 = a as i32 + d as i32;
    let m: i32 = (s + 0x10000) % 0x10000;
    proof {
        lemma_fundamental_div_mod(s + 0x10000, 0x10000);
        lemma_fundamental_div_mod(a + d, 0x10000);
    }
    m as u16
}

/// Reinterprets a byte as a signed two's-complement displacement.
pub fn to_signed8(b: u8) -> (d: i8)
    ensures
        d == spec_to_i8(b),
{
    if b < 128 {
        b as i8
    } else {
        let t: i16 = b as i16 - 256;
        t as i8
    }
}

/// Reinterprets a signed displacement as the byte with the same bit pattern.
pub fn to_unsigned8(d: i8) -> (b: u8)
    ensures
        b == spec_to_u8(d),
{
    if d >= 0 {
        d as u8
    } else {
        let t: i16 = d as i16 + 256;
        t as u8
    }
}

/// The weight of bit `b` as an executable value.
pub fn bit_weight_x(b: u8) -> (w: u8)
    requires
        b < 8,
    ensures
        w == bit_weight(b),
{
    match b {
        0 => 1,
        1 => 2,
        2 => 4,
        3 => 8,
        4 => 16,
        5 => 32,
        6 => 64,
        _ => 128,
    }
}

/// Tests bit `b` of `x`.
pub fn test_bit(x: u8, b: u8) -> (r: bool)
    requires
        b < 8,
    ensures
        r == spec_bit_set(x, b),
{
    let w = bit_weight_x(b);
    (x / w) % 2 == 1
}

/// Forces bit `b` of `x` to `on`.
pub fn with_bit(x: u8, b: u8, on: bool) -> (r: u8)
    requires
        b < 8,
    ensures
        r == spec_with_bit(x, b, on),
{
    let w = bit_weight_x(b);
    let cur = (x / w) % 2 == 1;
    proof {
        lemma_fundamental_div_mod(x as int, w as int);
    }
    if cur == on {
        x
    } else if on {
        assert(x + w < 256) by {
            lemma_fundamental_div_mod(x as int, w as int);
        };
        x + w
    } else {
        x - w
    }
}

} // verus!
