//! Bytes and 16-bit words: how an address is assembled from and split into
//! bytes, how a byte is read as a signed offset, and the facts that tie the
//! bit-level operations of the executable code to plain arithmetic.
use vstd::prelude::*;

verus! {

/// The 16-bit word with low byte `lo` and high byte `hi` (little-endian).
pub open spec fn word(lo: u8, hi: u8) -> u16 {
    (hi as int * 256 + lo as int) as u16
}

/// The low byte of `w`.
pub open spec fn low_byte(w: u16) -> u8 {
    (w as int % 256) as u8
}

/// The high byte of `w`.
pub open spec fn high_byte(w: u16) -> u8 {
    (w as int / 256) as u8
}

/// The value of `b` read as a two's complement number.
pub open spec fn signed(b: u8) -> int {
    if b < 128 {
        b as int
    } else {
        b as int - 256
    }
}

/// `base` moved by `delta`, wrapping within 16 bits.
pub open spec fn advance(base: u16, delta: int) -> u16 {
    ((base as int + delta) % 0x1_0000) as u16
}

/// `b` moved by `delta`, wrapping within a byte.
pub open spec fn wrap_byte(b: u8, delta: int) -> u8 {
    ((b as int + delta) % 256) as u8
}

/// The address of the stack cell that the stack pointer `sp` designates.
pub open spec fn stack_address(sp: u8) -> u16 {
    (0x0100 + sp as int) as u16
}

/// Whether `a` and `b` lie in different pages.
pub open spec fn pages_differ(a: u16, b: u16) -> bool {
    a as int / 256 != b as int / 256
}

/// Assembles a word from its bytes.
pub fn make_word(lo: u8, hi: u8) -> (w: u16)
    ensures
        w == word(lo, hi),
{
    let low = lo as u16;
    let high = hi as u16;
    assert((high << 8) | low == high * 256 + low) by (bit_vector)
        requires
            low < 256,
            high < 256,
    ;
    (high << 8) | low
}

/// Splits a word into its low and its high byte.
pub fn split_word(w: u16) -> (bytes: (u8, u8))
    ensures
        bytes.0 == low_byte(w),
        bytes.1 == high_byte(w),
{
    assert(w >> 8 == w / 256) by (bit_vector);
    (low8(w), (w >> 8) as u8)
}

/// The low eight bits of `x`.
pub fn low8(x: u16) -> (b: u8)
    ensures
        b == x as int % 256,
{
    assert(x & 0x00ff == x % 256) by (bit_vector);
    (x & 0x00ff) as u8
}

/// Reads a byte as a signed branch offset.
pub fn to_signed(b: u8) -> (s: i8)
    ensures
        s as int == signed(b),
{
    let s = #[verifier::truncate] (b as i8);
    assert((b < 128 ==> (b as i8) as int == b as int) && (b >= 128 ==> (b as i8) as int == b as int
        - 256)) by (bit_vector);
    s
}

/// The stack cell of `sp`, as the hardware forms it: page one, offset `sp`.
pub fn stack_cell(sp: u8) -> (address: u16)
    ensures
        address == stack_address(sp),
{
    let offset = sp as u16;
    assert(0x0100u16 | offset == 0x0100 + offset) by (bit_vector)
        requires
            offset < 256,
    ;
    0x0100u16 | offset
}

/// Moving an address in two steps is moving it by their sum.
pub proof fn lemma_advance_twice(base: u16, first: int, second: int)
    ensures
        advance(advance(base, first), second) == advance(base, first + second),
        advance(base, 0) == base,
{
    vstd::arithmetic::div_mod::lemma_add_mod_noop(base as int + first, second, 0x1_0000);
    vstd::arithmetic::div_mod::lemma_mod_twice(base as int + first, 0x1_0000);
    vstd::arithmetic::div_mod::lemma_small_mod(base as nat, 0x1_0000);
}

/// Moving a byte in two steps is moving it by their sum.
pub proof fn lemma_wrap_byte_twice(b: u8, first: int, second: int)
    ensures
        wrap_byte(wrap_byte(b, first), second) == wrap_byte(b, first + second),
        wrap_byte(b, 0) == b,
{
    vstd::arithmetic::div_mod::lemma_add_mod_noop(b as int + first, second, 256);
    vstd::arithmetic::div_mod::lemma_mod_twice(b as int + first, 256);
    vstd::arithmetic::div_mod::lemma_small_mod(b as nat, 256);
}

/// The sign test that an addition's overflow flag is computed with, in terms
/// of the signs of the operands and of the result.
pub proof fn lemma_add_overflow_bits(a: u8, m: u8, r: u8)
    ensures
        (((!(a ^ m)) & (a ^ r)) & 0x80 != 0) == ((a >= 0x80) == (m >= 0x80) && (r >= 0x80) != (a
            >= 0x80)),
{
    assert((((!(a ^ m)) & (a ^ r)) & 0x80 != 0) == ((a >= 0x80) == (m >= 0x80) && (r >= 0x80) != (a
        >= 0x80))) by (bit_vector);
}

/// The sign test that a subtraction's overflow flag is computed with, and the
/// value of a complemented byte.
pub proof fn lemma_sub_overflow_bits(a: u8, m: u8, r: u8)
    ensures
        (((r ^ a) & (a ^ m) & 0x80) != 0) == ((a >= 0x80) != (m >= 0x80) && (r >= 0x80) != (a
            >= 0x80)),
        !m == 255 - m,
{
    assert((((r ^ a) & (a ^ m) & 0x80) != 0) == ((a >= 0x80) != (m >= 0x80) && (r >= 0x80) != (a
        >= 0x80)) && !m == 255 - m) by (bit_vector);
}

/// Shifts by one place, and the tests of the top and bottom bit, as
/// arithmetic.
pub proof fn lemma_shifts(v: u8)
    ensures
        v << 1 == (v * 2) % 256,
        v >> 1 == v / 2,
        (v & 0x80 > 0) == (v >= 0x80),
        (v >> 7 > 0) == (v >= 0x80),
        (v & 1 > 0) == (v % 2 == 1),
{
    assert(v << 1 == (v * 2) % 256 && v >> 1 == v / 2 && (v & 0x80 > 0) == (v >= 0x80) && (v >> 7
        > 0) == (v >= 0x80) && (v & 1 > 0) == (v % 2 == 1)) by (bit_vector);
}

/// A carry bit `c` entering a shifted byte at the bottom or at the top.
pub proof fn lemma_rotate_in(v: u8, c: u8)
    requires
        c <= 1,
    ensures
        (v << 1) | c == (v * 2) % 256 + c,
        (v >> 1) | (c << 7) == v / 2 + c * 128,
{
    assert((v << 1) | c == (v * 2) % 256 + c && (v >> 1) | (c << 7) == v / 2 + c * 128)
        by (bit_vector)
        requires
            c <= 1,
    ;
}

} // verus!
