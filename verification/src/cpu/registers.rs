//! The processor state, its status flags, and what each instruction does to
//! the registers once its operand byte is known.
//!
//! The functions of this file are pure: they take the state before and give
//! the state after. Fetching, the stack and the bus are layered on top of them
//! elsewhere.
use crate::cpu::word::{advance, wrap_byte};
use vstd::prelude::*;

verus! {

/// A flag of the processor status register `P`.
#[derive(Debug, Clone, Copy, PartialEq, Eq, Structural)]
pub enum Status {
    /// Carry
    C,
    /// Zero
    Z,
    /// Interrupt Disable
    I,
    /// Decimal
    D,
    /// Break
    B,
    /// Overflow
    V,
    /// Negative
    N,
}

impl Status {
    /// The bit of `P` that holds the flag.
    pub open spec fn spec_mask(&self) -> u8 {
        match *self {
            Status::C => 0b0000_0001,
            Status::Z => 0b0000_0010,
            Status::I => 0b0000_0100,
            Status::D => 0b0000_1000,
            Status::B => 0b0001_0000,
            Status::V => 0b0100_0000,
            Status::N => 0b1000_0000,
        }
    }

    /// The bit of `P` that holds the flag.
    #[verifier::when_used_as_spec(spec_mask)]
    pub fn mask(&self) -> (m: u8)
        ensures
            m == self.spec_mask(),
    {
        match *self {
            Status::C => 0b0000_0001,
            Status::Z => 0b0000_0010,
            Status::I => 0b0000_0100,
            Status::D => 0b0000_1000,
            Status::B => 0b0001_0000,
            Status::V => 0b0100_0000,
            Status::N => 0b1000_0000,
        }
    }
}

/// Successor to 6502.
///
/// Datasheet: https://www.westerndesigncenter.com/wdc/documentation/w65c02s.pdf
#[derive(Debug, Clone, Copy, PartialEq, Eq, Structural)]
pub struct W65C02S {
    pub program_counter: u16,
    pub a_register: u8,
    pub y_register: u8,
    pub x_register: u8,
    pub stack_pointer: u8,
    pub processor_status_register: u8,
}

impl Default for W65C02S {
    /// A processor with every register zero.
    fn default() -> (cpu: Self)
        ensures
            cpu == (W65C02S {
                program_counter: 0,
                a_register: 0,
                y_register: 0,
                x_register: 0,
                stack_pointer: 0,
                processor_status_register: 0,
            }),
    {
        W65C02S {
            program_counter: 0,
            a_register: 0,
            y_register: 0,
            x_register: 0,
            stack_pointer: 0,
            processor_status_register: 0,
        }
    }
}

impl W65C02S {
    /// At this address should be the lower 8 bits of the address to jump to
    /// when processing an interrupt request. The high byte of every vector
    /// immediately follows the low byte in address space.
    pub const IRQB_LOW: u16 = 0xFFFE;

    /// At this address should be the lower 8 bits of the address to jump to
    /// after resetting (ie. the entry point).
    pub const RESB_LOW: u16 = 0xFFFC;

    /// At this address should be the lower 8 bits of the address to jump to
    /// when processing a nonmaskable interrupt.
    pub const NMIB_LOW: u16 = 0xFFFA;

    /// The base of the stack page, to be combined with the stack pointer.
    pub const STACK_POINTER_BASE: u16 = 0x0100;

    /// The value of `P` after a reset: `I`, `B` and the reserved bit set.
    pub const P_DEFAULT: u8 = 0x34;

    // ---- status flags ----

    /// Whether `flag` is set.
    pub open spec fn flag(self, flag: Status) -> bool {
        self.processor_status_register & flag.mask() != 0
    }

    /// The state with `flag` set to `val` and nothing else changed.
    pub open spec fn with_flag(self, flag: Status, val: bool) -> Self {
        W65C02S {
            processor_status_register: if val {
                self.processor_status_register | flag.mask()
            } else {
                self.processor_status_register & !flag.mask()
            },
            ..self
        }
    }

    /// The state with `Z` and `N` set from the result `val`: `Z` says that it
    /// is zero, `N` is its bit 7.
    pub open spec fn with_zn(self, val: u8) -> Self {
        self.with_flag(Status::Z, val == 0).with_flag(Status::N, val >= 0x80)
    }

    /// The carry flag as a number.
    pub open spec fn carry(self) -> int {
        if self.flag(Status::C) {
            1
        } else {
            0
        }
    }

    /// The state with the program counter at `pc`.
    pub open spec fn with_pc(self, pc: u16) -> Self {
        W65C02S { program_counter: pc, ..self }
    }

    /// The state with the stack pointer at `sp`.
    pub open spec fn with_sp(self, sp: u8) -> Self {
        W65C02S { stack_pointer: sp, ..self }
    }

    /// The state with `P` replaced by `p`.
    pub open spec fn with_p(self, p: u8) -> Self {
        W65C02S { processor_status_register: p, ..self }
    }

    /// The state with `A` replaced by `val`; no flag changes.
    pub open spec fn with_a(self, val: u8) -> Self {
        W65C02S { a_register: val, ..self }
    }

    #[inline]
    pub fn status_set(&mut self, flag: Status, val: bool)
        ensures
            *final(self) == old(self).with_flag(flag, val),
    {
        let mask = flag.mask();
        if val {
            self.processor_status_register = self.processor_status_register | mask;
        } else {
            self.processor_status_register = self.processor_status_register & !mask;
        }
    }

    #[inline]
    pub fn status_check(&self, flag: Status) -> (set: bool)
        ensures
            set == self.flag(flag),
    {
        self.processor_status_register & flag.mask() > 0
    }

    #[inline]
    pub fn status_update_zn(&mut self, val: u8)
        ensures
            *final(self) == old(self).with_zn(val),
    {
        assert((val >> 7) > 0 <==> val >= 0x80) by (bit_vector);
        self.status_set(Status::Z, val == 0);
        self.status_set(Status::N, (val >> 7) > 0);
    }

    pub fn set_p_default(&mut self)
        ensures
            *final(self) == old(self).with_p(Self::P_DEFAULT),
    {
        self.processor_status_register = 0x34;
    }

    /// Setting a flag changes that flag and no other.
    pub proof fn lemma_flag_of_with_flag(self, set: Status, val: bool, get: Status)
        ensures
            self.with_flag(set, val).flag(get) == (if set == get {
                val
            } else {
                self.flag(get)
            }),
    {
        let p = self.processor_status_register;
        let m = set.mask();
        let n = get.mask();
        assert((m == n ==> (p | m) & n != 0 && (p & !m) & n == 0) && (m != n ==> (p | m) & n == p
            & n && (p & !m) & n == p & n)) by (bit_vector)
            requires
                m == 1 || m == 2 || m == 4 || m == 8 || m == 16 || m == 64 || m == 128,
                n == 1 || n == 2 || n == 4 || n == 8 || n == 16 || n == 64 || n == 128,
        ;
    }

    /// Only the last setting of a flag counts, and settings of different
    /// flags commute.
    pub proof fn lemma_with_flag_twice(self, f: Status, a: bool, g: Status, b: bool)
        ensures
            self.with_flag(f, a).with_flag(f, b) == self.with_flag(f, b),
            self.with_flag(f, a).with_flag(g, b) == self.with_flag(g, b).with_flag(f, a) || f == g,
    {
        let p = self.processor_status_register;
        let m = f.mask();
        let n = g.mask();
        assert((p | m) | m == p | m && (p | m) & !m == p & !m && (p & !m) | m == p | m && (p & !m)
            & !m == p & !m && (m != n ==> (p | m) | n == (p | n) | m && (p | m) & !n == (p & !n) | m
            && (p & !m) | n == (p | n) & !m && (p & !m) & !n == (p & !n) & !m)) by (bit_vector)
            requires
                m == 1 || m == 2 || m == 4 || m == 8 || m == 16 || m == 64 || m == 128,
                n == 1 || n == 2 || n == 4 || n == 8 || n == 16 || n == 64 || n == 128,
        ;
    }

    /// `Z` and `N` after a result say what the result is, and the other flags
    /// are as before.
    pub proof fn lemma_with_zn_flags(self, val: u8, get: Status)
        ensures
            self.with_zn(val).flag(get) == (match get {
                Status::Z => val == 0,
                Status::N => val >= 0x80,
                _ => self.flag(get),
            }),
    {
        self.lemma_flag_of_with_flag(Status::Z, val == 0, get);
        self.with_flag(Status::Z, val == 0).lemma_flag_of_with_flag(Status::N, val >= 0x80, get);
    }

    /// Of two results in a row, only the second shows in `Z` and `N`.
    pub proof fn lemma_with_zn_twice(self, first: u8, second: u8)
        ensures
            self.with_zn(first).with_zn(second) == self.with_zn(second),
    {
        let z1 = self.with_flag(Status::Z, first == 0);
        self.lemma_with_flag_twice(Status::Z, first == 0, Status::N, first >= 0x80);
        let swapped = self.with_flag(Status::N, first >= 0x80).with_flag(Status::Z, first == 0);
        assert(self.with_zn(first) == swapped);
        self.with_flag(Status::N, first >= 0x80).lemma_with_flag_twice(
            Status::Z,
            first == 0,
            Status::Z,
            second == 0,
        );
        let a = self.with_flag(Status::N, first >= 0x80).with_flag(Status::Z, second == 0);
        assert(self.with_zn(first).with_flag(Status::Z, second == 0) == a);
        self.lemma_with_flag_twice(Status::N, first >= 0x80, Status::Z, second == 0);
        let b = self.with_flag(Status::Z, second == 0).with_flag(Status::N, first >= 0x80);
        assert(a == b);
        self.with_flag(Status::Z, second == 0).lemma_with_flag_twice(
            Status::N,
            first >= 0x80,
            Status::N,
            second >= 0x80,
        );
    }

    /// Whether the reserved bit 5 of `P` is set.
    pub open spec fn reserved_set(self) -> bool {
        self.processor_status_register & 0x20 != 0
    }

    /// Setting a flag leaves the reserved bit of `P` as it was.
    pub proof fn lemma_with_flag_keeps_reserved(self, flag: Status, val: bool)
        ensures
            self.with_flag(flag, val).reserved_set() == self.reserved_set(),
    {
        let p = self.processor_status_register;
        let m = flag.mask();
        assert((p | m) & 0x20 == p & 0x20 && (p & !m) & 0x20 == p & 0x20) by (bit_vector)
            requires
                m == 1 || m == 2 || m == 4 || m == 8 || m == 16 || m == 64 || m == 128,
        ;
    }

    // ---- loads and transfers ----

    /// `A` loaded with `val`; `Z` and `N` follow `val`.
    pub open spec fn load_a(self, val: u8) -> Self {
        W65C02S { a_register: val, ..self.with_zn(val) }
    }

    /// `X` loaded with `val`; `Z` and `N` follow `val`.
    pub open spec fn load_x(self, val: u8) -> Self {
        W65C02S { x_register: val, ..self.with_zn(val) }
    }

    /// `Y` loaded with `val`; `Z` and `N` follow `val`.
    pub open spec fn load_y(self, val: u8) -> Self {
        W65C02S { y_register: val, ..self.with_zn(val) }
    }

    // ---- arithmetic ----

    /// Whether adding `m` to `a` with the 8-bit result `result` overflowed as
    /// a signed addition: the operands agree in sign and the result does not.
    pub open spec fn signs_overflow(a: u8, m: u8, result: u8) -> bool {
        (a >= 0x80) == (m >= 0x80) && (result >= 0x80) != (a >= 0x80)
    }

    /// Add with carry: `A + m + C`. `C` is the carry out of bit 7, `V` the
    /// signed overflow; `Z` and `N` follow the result. Binary only.
    pub open spec fn adc(self, m: u8) -> Self {
        let sum = self.a_register as int + m as int + self.carry();
        let result = (sum % 256) as u8;
        W65C02S {
            a_register: result,
            ..self.with_flag(Status::C, sum > 0xFF).with_flag(
                Status::V,
                Self::signs_overflow(self.a_register, m, result),
            ).with_zn(result)
        }
    }

    /// Subtract with borrow: add with carry of the complement of `m`.
    pub open spec fn sbc(self, m: u8) -> Self {
        self.adc((255 - m) as u8)
    }

    /// Compares the register value `reg` with `m`: `C` says `reg >= m`; `Z`
    /// and `N` follow `reg - m`.
    pub open spec fn compare(self, reg: u8, m: u8) -> Self {
        self.with_flag(Status::C, reg >= m).with_zn(wrap_byte(reg, -(m as int)))
    }

    /// Tests the bits of `m` against `A`: `Z` says that they share none.
    /// Unless the operand is immediate, `N` and `V` take bits 7 and 6 of `m`.
    pub open spec fn bit_test(self, m: u8, immediate: bool) -> Self {
        let tested = self.with_flag(Status::Z, self.a_register & m == 0);
        if immediate {
            tested
        } else {
            tested.with_flag(Status::N, m >= 0x80).with_flag(Status::V, m & 0x40 != 0)
        }
    }

    // ---- read-modify-write: the state after, and the byte to write back ----

    /// Shift left: bit 7 goes to `C`.
    pub open spec fn asl(self, m: u8) -> (Self, u8) {
        let result = ((m as int * 2) % 256) as u8;
        (self.with_flag(Status::C, m >= 0x80).with_zn(result), result)
    }

    /// Shift right: bit 0 goes to `C`.
    pub open spec fn lsr(self, m: u8) -> (Self, u8) {
        let result = (m as int / 2) as u8;
        (self.with_flag(Status::C, m as int % 2 == 1).with_zn(result), result)
    }

    /// Rotate left through carry: `C` enters at bit 0, bit 7 goes to `C`.
    pub open spec fn rol(self, m: u8) -> (Self, u8) {
        let result = ((m as int * 2) % 256 + self.carry()) as u8;
        (self.with_flag(Status::C, m >= 0x80).with_zn(result), result)
    }

    /// Rotate right through carry: `C` enters at bit 7, bit 0 goes to `C`.
    pub open spec fn ror(self, m: u8) -> (Self, u8) {
        let result = (m as int / 2 + self.carry() * 128) as u8;
        (self.with_flag(Status::C, m as int % 2 == 1).with_zn(result), result)
    }

    /// Increment, wrapping.
    pub open spec fn inc(self, m: u8) -> (Self, u8) {
        let result = wrap_byte(m, 1);
        (self.with_zn(result), result)
    }

    /// Decrement, wrapping.
    pub open spec fn dec(self, m: u8) -> (Self, u8) {
        let result = wrap_byte(m, -1);
        (self.with_zn(result), result)
    }

    /// Test and reset bits: `Z` says that `A` and `m` share no bit; the bits
    /// of `A` are cleared in `m`.
    pub open spec fn trb(self, m: u8) -> (Self, u8) {
        (self.with_flag(Status::Z, m & self.a_register == 0), m & !self.a_register)
    }

    /// Test and set bits: `Z` says that `A` and `m` share no bit; the bits of
    /// `A` are set in `m`.
    pub open spec fn tsb(self, m: u8) -> (Self, u8) {
        (self.with_flag(Status::Z, m & self.a_register == 0), m | self.a_register)
    }

    // ---- control flow ----

    /// A relative branch: taken, the program counter moves by `offset`.
    pub open spec fn branch(self, taken: bool, offset: i8) -> Self {
        if taken {
            self.with_pc(advance(self.program_counter, offset as int))
        } else {
            self
        }
    }
}

} // verus!
