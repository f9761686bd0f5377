//! Decoding: the addressing modes, the mnemonics and their names, and the
//! table that gives each opcode byte its operation.
use vstd::prelude::*;

verus! {

/// The rule by which an instruction finds its operand.
#[derive(Debug, Clone, Copy, PartialEq, Eq, Structural)]
pub enum AddressingMode {
    /// `a`
    Absolute,
    /// `(a,x)`
    AbsoluteIndexedIndirect,
    /// `a,x`
    AbsoluteIndexedX,
    /// `a,y`
    AbsoluteIndexedY,
    /// `(a)`
    AbsoluteIndirect,
    /// `A`
    Accumulator,
    /// `#`
    Immediate,
    /// `i`
    Implied,
    /// `r`
    ProgramCounterRelative,
    /// `s`
    Stack,
    /// `zp`
    ZeroPage,
    /// `(zp,x)`
    ZeroPageIndexedIndirect,
    /// `zp,x`
    ZeroPageIndexedX,
    /// `zp,y`
    ZeroPageIndexedY,
    /// `(zp)`
    ZeroPageIndirect,
    /// `(zp),y`
    ZeroPageIndirectIndexedY,
    /// `zp,r: for BBRN and BBSN`
    ZeroPageRelative,
}

impl AddressingMode {
    /// The number of operand bytes that follow the opcode.
    pub open spec fn operand_bytes(&self) -> u8 {
        match *self {
            AddressingMode::Absolute => 2,
            AddressingMode::AbsoluteIndexedIndirect => 2,
            AddressingMode::AbsoluteIndexedX => 2,
            AddressingMode::AbsoluteIndexedY => 2,
            AddressingMode::AbsoluteIndirect => 2,
            AddressingMode::Accumulator => 0,
            AddressingMode::Immediate => 1,
            AddressingMode::Implied => 0,
            AddressingMode::ProgramCounterRelative => 1,
            AddressingMode::Stack => 0,
            AddressingMode::ZeroPage => 1,
            AddressingMode::ZeroPageIndexedIndirect => 1,
            AddressingMode::ZeroPageIndexedX => 1,
            AddressingMode::ZeroPageIndexedY => 1,
            AddressingMode::ZeroPageIndirect => 1,
            AddressingMode::ZeroPageIndirectIndexedY => 1,
            AddressingMode::ZeroPageRelative => 2,
        }
    }

    /// The number of operand bytes that follow the opcode.
    #[inline]
    #[verifier::when_used_as_spec(operand_bytes)]
    pub fn num_operand_bytes(&self) -> (n: u8)
        ensures
            n == self.operand_bytes(),
    {
        match *self {
            AddressingMode::Absolute => 2,
            AddressingMode::AbsoluteIndexedIndirect => 2,
            AddressingMode::AbsoluteIndexedX => 2,
            AddressingMode::AbsoluteIndexedY => 2,
            AddressingMode::AbsoluteIndirect => 2,
            AddressingMode::Accumulator => 0,
            AddressingMode::Immediate => 1,
            AddressingMode::Implied => 0,
            AddressingMode::ProgramCounterRelative => 1,
            AddressingMode::Stack => 0,
            AddressingMode::ZeroPage => 1,
            AddressingMode::ZeroPageIndexedIndirect => 1,
            AddressingMode::ZeroPageIndexedX => 1,
            AddressingMode::ZeroPageIndexedY => 1,
            AddressingMode::ZeroPageIndirect => 1,
            AddressingMode::ZeroPageIndirectIndexedY => 1,
            AddressingMode::ZeroPageRelative => 2,
        }
    }
}

/// The operation that an instruction performs. The bit-manipulating families
/// carry the index of the bit they work on, `0..=7`.
#[derive(Debug, Clone, Copy, PartialEq, Eq, Structural)]
pub enum Mnemomic {
    /// Add memory to accumulator with carry.
    ADC,
    /// AND memory with accumulator.
    AND,
    /// Arithmetic shift left one bit.
    ASL,
    /// Branch on bit `n` reset.
    BBRN(u8),
    /// Branch on bit `n` set.
    BBSN(u8),
    /// Branch on carry clear.
    BCC,
    /// Branch on carry set.
    BCS,
    /// Branch if equal (`Z` set).
    BEQ,
    /// Test bits of memory against the accumulator.
    BIT,
    /// Branch if minus (`N` set).
    BMI,
    /// Branch if not equal (`Z` clear).
    BNE,
    /// Branch if plus (`N` clear).
    BPL,
    /// Branch always.
    BRA,
    /// Break: a software interrupt.
    BRK,
    /// Branch on overflow clear.
    BVC,
    /// Branch on overflow set.
    BVS,
    /// Clear the carry flag.
    CLC,
    /// Clear the decimal flag.
    CLD,
    /// Clear the interrupt disable flag.
    CLI,
    /// Clear the overflow flag.
    CLV,
    /// Compare memory with the accumulator.
    CMP,
    /// Compare memory with `X`.
    CPX,
    /// Compare memory with `Y`.
    CPY,
    /// Decrement memory or the accumulator by one.
    DEC,
    /// Decrement `X` by one.
    DEX,
    /// Decrement `Y` by one.
    DEY,
    /// Exclusive OR memory with accumulator.
    EOR,
    /// Increment memory or the accumulator by one.
    INC,
    /// Increment `X` by one.
    INX,
    /// Increment `Y` by one.
    INY,
    /// Jump to a new location.
    JMP,
    /// Jump to a subroutine.
    JSR,
    /// Load the accumulator.
    LDA,
    /// Load `X`.
    LDX,
    /// Load `Y`.
    LDY,
    /// Logical shift right one bit.
    LSR,
    /// No operation.
    NOP,
    /// OR memory with accumulator.
    ORA,
    /// Push the accumulator.
    PHA,
    /// Push the processor status.
    PHP,
    /// Push `X`.
    PHX,
    /// Push `Y`.
    PHY,
    /// Pull the accumulator.
    PLA,
    /// Pull the processor status.
    PLP,
    /// Pull `X`.
    PLX,
    /// Pull `Y`.
    PLY,
    /// Reset bit `n` of a zero-page byte.
    RMBN(u8),
    /// Rotate left one bit through carry.
    ROL,
    /// Rotate right one bit through carry.
    ROR,
    /// Return from interrupt.
    RTI,
    /// Return from subroutine.
    RTS,
    /// Subtract memory from accumulator with borrow.
    SBC,
    /// Set the carry flag.
    SEC,
    /// Set the decimal flag.
    SED,
    /// Set the interrupt disable flag.
    SEI,
    /// Set bit `n` of a zero-page byte.
    SMBN(u8),
    /// Store the accumulator.
    STA,
    /// Stop the clock.
    STP,
    /// Store `X`.
    STX,
    /// Store `Y`.
    STY,
    /// Store zero.
    STZ,
    /// Transfer the accumulator to `X`.
    TAX,
    /// Transfer the accumulator to `Y`.
    TAY,
    /// Test and reset bits of memory by the accumulator.
    TRB,
    /// Test and set bits of memory by the accumulator.
    TSB,
    /// Transfer the stack pointer to `X`.
    TSX,
    /// Transfer `X` to the accumulator.
    TXA,
    /// Transfer `X` to the stack pointer.
    TXS,
    /// Transfer `Y` to the accumulator.
    TYA,
    /// Wait for interrupt.
    WAI,
}

/// The digit that stands for a bit index.
pub open spec fn bit_digit(n: u8) -> char {
    if n == 0 {
        '0'
    } else if n == 1 {
        '1'
    } else if n == 2 {
        '2'
    } else if n == 3 {
        '3'
    } else if n == 4 {
        '4'
    } else if n == 5 {
        '5'
    } else if n == 6 {
        '6'
    } else {
        '7'
    }
}

/// The bit index that a digit stands for, if it is one of `0..=7`.
pub open spec fn bit_index(c: char) -> Option<u8> {
    if c == '0' {
        Some(0u8)
    } else if c == '1' {
        Some(1u8)
    } else if c == '2' {
        Some(2u8)
    } else if c == '3' {
        Some(3u8)
    } else if c == '4' {
        Some(4u8)
    } else if c == '5' {
        Some(5u8)
    } else if c == '6' {
        Some(6u8)
    } else if c == '7' {
        Some(7u8)
    } else {
        None
    }
}

/// The bit index that a digit stands for, if it is one of `0..=7`.
fn digit_index(c: char) -> (n: Option<u8>)
    ensures
        n == bit_index(c),
{
    if c == '0' {
        Some(0u8)
    } else if c == '1' {
        Some(1u8)
    } else if c == '2' {
        Some(2u8)
    } else if c == '3' {
        Some(3u8)
    } else if c == '4' {
        Some(4u8)
    } else if c == '5' {
        Some(5u8)
    } else if c == '6' {
        Some(6u8)
    } else if c == '7' {
        Some(7u8)
    } else {
        None
    }
}

/// The mnemonic whose lowercase name is the three letters `c0 c1 c2`.
pub open spec fn named3(c0: char, c1: char, c2: char) -> Option<Mnemomic> {
    if c0 == 'a' && c1 == 'd' && c2 == 'c' {
        Some(Mnemomic::ADC)
    } else if c0 == 'a' && c1 == 'n' && c2 == 'd' {
        Some(Mnemomic::AND)
    } else if c0 == 'a' && c1 == 's' && c2 == 'l' {
        Some(Mnemomic::ASL)
    } else if c0 == 'b' && c1 == 'c' && c2 == 'c' {
        Some(Mnemomic::BCC)
    } else if c0 == 'b' && c1 == 'c' && c2 == 's' {
        Some(Mnemomic::BCS)
    } else if c0 == 'b' && c1 == 'e' && c2 == 'q' {
        Some(Mnemomic::BEQ)
    } else if c0 == 'b' && c1 == 'i' && c2 == 't' {
        Some(Mnemomic::BIT)
    } else if c0 == 'b' && c1 == 'm' && c2 == 'i' {
        Some(Mnemomic::BMI)
    } else if c0 == 'b' && c1 == 'n' && c2 == 'e' {
        Some(Mnemomic::BNE)
    } else if c0 == 'b' && c1 == 'p' && c2 == 'l' {
        Some(Mnemomic::BPL)
    } else if c0 == 'b' && c1 == 'r' && c2 == 'a' {
        Some(Mnemomic::BRA)
    } else if c0 == 'b' && c1 == 'r' && c2 == 'k' {
        Some(Mnemomic::BRK)
    } else if c0 == 'b' && c1 == 'v' && c2 == 'c' {
        Some(Mnemomic::BVC)
    } else if c0 == 'b' && c1 == 'v' && c2 == 's' {
        Some(Mnemomic::BVS)
    } else if c0 == 'c' && c1 == 'l' && c2 == 'c' {
        Some(Mnemomic::CLC)
    } else if c0 == 'c' && c1 == 'l' && c2 == 'd' {
        Some(Mnemomic::CLD)
    } else if c0 == 'c' && c1 == 'l' && c2 == 'i' {
        Some(Mnemomic::CLI)
    } else if c0 == 'c' && c1 == 'l' && c2 == 'v' {
        Some(Mnemomic::CLV)
    } else if c0 == 'c' && c1 == 'm' && c2 == 'p' {
        Some(Mnemomic::CMP)
    } else if c0 == 'c' && c1 == 'p' && c2 == 'x' {
        Some(Mnemomic::CPX)
    } else if c0 == 'c' && c1 == 'p' && c2 == 'y' {
        Some(Mnemomic::CPY)
    } else if c0 == 'd' && c1 == 'e' && c2 == 'c' {
        Some(Mnemomic::DEC)
    } else if c0 == 'd' && c1 == 'e' && c2 == 'x' {
        Some(Mnemomic::DEX)
    } else if c0 == 'd' && c1 == 'e' && c2 == 'y' {
        Some(Mnemomic::DEY)
    } else if c0 == 'e' && c1 == 'o' && c2 == 'r' {
        Some(Mnemomic::EOR)
    } else if c0 == 'i' && c1 == 'n' && c2 == 'c' {
        Some(Mnemomic::INC)
    } else if c0 == 'i' && c1 == 'n' && c2 == 'x' {
        Some(Mnemomic::INX)
    } else if c0 == 'i' && c1 == 'n' && c2 == 'y' {
        Some(Mnemomic::INY)
    } else if c0 == 'j' && c1 == 'm' && c2 == 'p' {
        Some(Mnemomic::JMP)
    } else if c0 == 'j' && c1 == 's' && c2 == 'r' {
        Some(Mnemomic::JSR)
    } else if c0 == 'l' && c1 == 'd' && c2 == 'a' {
        Some(Mnemomic::LDA)
    } else if c0 == 'l' && c1 == 'd' && c2 == 'x' {
        Some(Mnemomic::LDX)
    } else if c0 == 'l' && c1 == 'd' && c2 == 'y' {
        Some(Mnemomic::LDY)
    } else if c0 == 'l' && c1 == 's' && c2 == 'r' {
        Some(Mnemomic::LSR)
    } else if c0 == 'n' && c1 == 'o' && c2 == 'p' {
        Some(Mnemomic::NOP)
    } else if c0 == 'o' && c1 == 'r' && c2 == 'a' {
        Some(Mnemomic::ORA)
    } else if c0 == 'p' && c1 == 'h' && c2 == 'a' {
        Some(Mnemomic::PHA)
    } else if c0 == 'p' && c1 == 'h' && c2 == 'p' {
        Some(Mnemomic::PHP)
    } else if c0 == 'p' && c1 == 'h' && c2 == 'x' {
        Some(Mnemomic::PHX)
    } else if c0 == 'p' && c1 == 'h' && c2 == 'y' {
        Some(Mnemomic::PHY)
    } else if c0 == 'p' && c1 == 'l' && c2 == 'a' {
        Some(Mnemomic::PLA)
    } else if c0 == 'p' && c1 == 'l' && c2 == 'p' {
        Some(Mnemomic::PLP)
    } else if c0 == 'p' && c1 == 'l' && c2 == 'x' {
        Some(Mnemomic::PLX)
    } else if c0 == 'p' && c1 == 'l' && c2 == 'y' {
        Some(Mnemomic::PLY)
    } else if c0 == 'r' && c1 == 'o' && c2 == 'l' {
        Some(Mnemomic::ROL)
    } else if c0 == 'r' && c1 == 'o' && c2 == 'r' {
        Some(Mnemomic::ROR)
    } else if c0 == 'r' && c1 == 't' && c2 == 'i' {
        Some(Mnemomic::RTI)
    } else if c0 == 'r' && c1 == 't' && c2 == 's' {
        Some(Mnemomic::RTS)
    } else if c0 == 's' && c1 == 'b' && c2 == 'c' {
        Some(Mnemomic::SBC)
    } else if c0 == 's' && c1 == 'e' && c2 == 'c' {
        Some(Mnemomic::SEC)
    } else if c0 == 's' && c1 == 'e' && c2 == 'd' {
        Some(Mnemomic::SED)
    } else if c0 == 's' && c1 == 'e' && c2 == 'i' {
        Some(Mnemomic::SEI)
    } else if c0 == 's' && c1 == 't' && c2 == 'a' {
        Some(Mnemomic::STA)
    } else if c0 == 's' && c1 == 't' && c2 == 'p' {
        Some(Mnemomic::STP)
    } else if c0 == 's' && c1 == 't' && c2 == 'x' {
        Some(Mnemomic::STX)
    } else if c0 == 's' && c1 == 't' && c2 == 'y' {
        Some(Mnemomic::STY)
    } else if c0 == 's' && c1 == 't' && c2 == 'z' {
        Some(Mnemomic::STZ)
    } else if c0 == 't' && c1 == 'a' && c2 == 'x' {
        Some(Mnemomic::TAX)
    } else if c0 == 't' && c1 == 'a' && c2 == 'y' {
        Some(Mnemomic::TAY)
    } else if c0 == 't' && c1 == 'r' && c2 == 'b' {
        Some(Mnemomic::TRB)
    } else if c0 == 't' && c1 == 's' && c2 == 'b' {
        Some(Mnemomic::TSB)
    } else if c0 == 't' && c1 == 's' && c2 == 'x' {
        Some(Mnemomic::TSX)
    } else if c0 == 't' && c1 == 'x' && c2 == 'a' {
        Some(Mnemomic::TXA)
    } else if c0 == 't' && c1 == 'x' && c2 == 's' {
        Some(Mnemomic::TXS)
    } else if c0 == 't' && c1 == 'y' && c2 == 'a' {
        Some(Mnemomic::TYA)
    } else if c0 == 'w' && c1 == 'a' && c2 == 'i' {
        Some(Mnemomic::WAI)
    } else {
        None
    }
}

/// The mnemonic whose lowercase name is the three letters `c0 c1 c2` followed
/// by the bit index `n`.
pub open spec fn named4(c0: char, c1: char, c2: char, n: u8) -> Option<Mnemomic> {
    if c0 == 'b' && c1 == 'b' && c2 == 'r' {
        Some(Mnemomic::BBRN(n))
    } else if c0 == 'b' && c1 == 'b' && c2 == 's' {
        Some(Mnemomic::BBSN(n))
    } else if c0 == 'r' && c1 == 'm' && c2 == 'b' {
        Some(Mnemomic::RMBN(n))
    } else if c0 == 's' && c1 == 'm' && c2 == 'b' {
        Some(Mnemomic::SMBN(n))
    } else {
        None
    }
}

/// The lowercase form that `str::to_lowercase` gives to a string.
pub uninterp spec fn lowercase(s: Seq<char>) -> Seq<char>;

/// Calls `str::to_lowercase` of the standard library. The result is a
/// function of the argument alone; the contract names it and says no more.
#[verifier::external_body]
fn to_lowercase(s: &str) -> (lower: String)
    ensures
        lower@ == lowercase(s@),
{
    s.to_lowercase()
}

impl Mnemomic {
    /// Whether the bit index, where the mnemonic has one, is one of `0..=7`.
    pub open spec fn well_formed(self) -> bool {
        match self {
            Mnemomic::BBRN(n) | Mnemomic::BBSN(n) | Mnemomic::RMBN(n) | Mnemomic::SMBN(n) => n < 8,
            _ => true,
        }
    }

    /// The lowercase name of the mnemonic, as an assembler writes it.
    pub open spec fn name(self) -> Seq<char> {
        match self {
            Mnemomic::ADC => seq!['a', 'd', 'c'],
            Mnemomic::AND => seq!['a', 'n', 'd'],
            Mnemomic::ASL => seq!['a', 's', 'l'],
            Mnemomic::BBRN(n) => seq!['b', 'b', 'r', bit_digit(n)],
            Mnemomic::BBSN(n) => seq!['b', 'b', 's', bit_digit(n)],
            Mnemomic::BCC => seq!['b', 'c', 'c'],
            Mnemomic::BCS => seq!['b', 'c', 's'],
            Mnemomic::BEQ => seq!['b', 'e', 'q'],
            Mnemomic::BIT => seq!['b', 'i', 't'],
            Mnemomic::BMI => seq!['b', 'm', 'i'],
            Mnemomic::BNE => seq!['b', 'n', 'e'],
            Mnemomic::BPL => seq!['b', 'p', 'l'],
            Mnemomic::BRA => seq!['b', 'r', 'a'],
            Mnemomic::BRK => seq!['b', 'r', 'k'],
            Mnemomic::BVC => seq!['b', 'v', 'c'],
            Mnemomic::BVS => seq!['b', 'v', 's'],
            Mnemomic::CLC => seq!['c', 'l', 'c'],
            Mnemomic::CLD => seq!['c', 'l', 'd'],
            Mnemomic::CLI => seq!['c', 'l', 'i'],
            Mnemomic::CLV => seq!['c', 'l', 'v'],
            Mnemomic::CMP => seq!['c', 'm', 'p'],
            Mnemomic::CPX => seq!['c', 'p', 'x'],
            Mnemomic::CPY => seq!['c', 'p', 'y'],
            Mnemomic::DEC => seq!['d', 'e', 'c'],
            Mnemomic::DEX => seq!['d', 'e', 'x'],
            Mnemomic::DEY => seq!['d', 'e', 'y'],
            Mnemomic::EOR => seq!['e', 'o', 'r'],
            Mnemomic::INC => seq!['i', 'n', 'c'],
            Mnemomic::INX => seq!['i', 'n', 'x'],
            Mnemomic::INY => seq!['i', 'n', 'y'],
            Mnemomic::JMP => seq!['j', 'm', 'p'],
            Mnemomic::JSR => seq!['j', 's', 'r'],
            Mnemomic::LDA => seq!['l', 'd', 'a'],
            Mnemomic::LDX => seq!['l', 'd', 'x'],
            Mnemomic::LDY => seq!['l', 'd', 'y'],
            Mnemomic::LSR => seq!['l', 's', 'r'],
            Mnemomic::NOP => seq!['n', 'o', 'p'],
            Mnemomic::ORA => seq!['o', 'r', 'a'],
            Mnemomic::PHA => seq!['p', 'h', 'a'],
            Mnemomic::PHP => seq!['p', 'h', 'p'],
            Mnemomic::PHX => seq!['p', 'h', 'x'],
            Mnemomic::PHY => seq!['p', 'h', 'y'],
            Mnemomic::PLA => seq!['p', 'l', 'a'],
            Mnemomic::PLP => seq!['p', 'l', 'p'],
            Mnemomic::PLX => seq!['p', 'l', 'x'],
            Mnemomic::PLY => seq!['p', 'l', 'y'],
            Mnemomic::RMBN(n) => seq!['r', 'm', 'b', bit_digit(n)],
            Mnemomic::ROL => seq!['r', 'o', 'l'],
            Mnemomic::ROR => seq!['r', 'o', 'r'],
            Mnemomic::RTI => seq!['r', 't', 'i'],
            Mnemomic::RTS => seq!['r', 't', 's'],
            Mnemomic::SBC => seq!['s', 'b', 'c'],
            Mnemomic::SEC => seq!['s', 'e', 'c'],
            Mnemomic::SED => seq!['s', 'e', 'd'],
            Mnemomic::SEI => seq!['s', 'e', 'i'],
            Mnemomic::SMBN(n) => seq!['s', 'm', 'b', bit_digit(n)],
            Mnemomic::STA => seq!['s', 't', 'a'],
            Mnemomic::STP => seq!['s', 't', 'p'],
            Mnemomic::STX => seq!['s', 't', 'x'],
            Mnemomic::STY => seq!['s', 't', 'y'],
            Mnemomic::STZ => seq!['s', 't', 'z'],
            Mnemomic::TAX => seq!['t', 'a', 'x'],
            Mnemomic::TAY => seq!['t', 'a', 'y'],
            Mnemomic::TRB => seq!['t', 'r', 'b'],
            Mnemomic::TSB => seq!['t', 's', 'b'],
            Mnemomic::TSX => seq!['t', 's', 'x'],
            Mnemomic::TXA => seq!['t', 'x', 'a'],
            Mnemomic::TXS => seq!['t', 'x', 's'],
            Mnemomic::TYA => seq!['t', 'y', 'a'],
            Mnemomic::WAI => seq!['w', 'a', 'i'],
        }
    }

    /// The mnemonic that the lowercase name `s` stands for.
    pub open spec fn parse(s: Seq<char>) -> Option<Mnemomic> {
        if s.len() == 3 {
            named3(s[0], s[1], s[2])
        } else if s.len() == 4 {
            match bit_index(s[3]) {
                Some(n) => named4(s[0], s[1], s[2], n),
                None => None,
            }
        } else {
            None
        }
    }

    /// Every mnemonic is found again by its name.
    #[verifier::rlimit(50)]
    pub proof fn lemma_parse_of_name(self)
        requires
            self.well_formed(),
        ensures
            Self::parse(self.name()) == Some(self),
    {
    }

    /// A name that stands for a mnemonic is the name of that mnemonic: no two
    /// names stand for the same mnemonic, and no name that `parse` accepts is
    /// anything but a mnemonic's name.
    #[verifier::rlimit(50)]
    pub proof fn lemma_name_of_parsed(s: Seq<char>)
        ensures
            Self::parse(s) matches Some(m) ==> m.well_formed() && m.name() == s,
    {
        match Self::parse(s) {
            Some(m) => {
                assert(m.name() =~= s);
            },
            None => {},
        }
    }

    /// The mnemonic that `mnem` names, in any mix of upper and lower case.
    pub fn from_str(mnem: &str) -> (res: Option<Self>)
        ensures
            res == Self::parse(lowercase(mnem@)),
    {
        let lower = to_lowercase(mnem);
        Self::from_lowercase(lower.as_str())
    }

    /// The mnemonic that the lowercase name `name` stands for.
    pub fn from_lowercase(name: &str) -> (res: Option<Self>)
        ensures
            res == Self::parse(name@),
    {
        let len = name.unicode_len();
        if len == 3 {
            Self::from_letters(name.get_char(0), name.get_char(1), name.get_char(2))
        } else if len == 4 {
            match digit_index(name.get_char(3)) {
                Some(n) => Self::from_letters_and_bit(
                    name.get_char(0),
                    name.get_char(1),
                    name.get_char(2),
                    n,
                ),
                None => None,
            }
        } else {
            None
        }
    }

    fn from_letters(c0: char, c1: char, c2: char) -> (res: Option<Self>)
        ensures
            res == named3(c0, c1, c2),
    {
        if c0 == 'a' && c1 == 'd' && c2 == 'c' {
            Some(Mnemomic::ADC)
        } else if c0 == 'a' && c1 == 'n' && c2 == 'd' {
            Some(Mnemomic::AND)
        } else if c0 == 'a' && c1 == 's' && c2 == 'l' {
            Some(Mnemomic::ASL)
        } else if c0 == 'b' && c1 == 'c' && c2 == 'c' {
            Some(Mnemomic::BCC)
        } else if c0 == 'b' && c1 == 'c' && c2 == 's' {
            Some(Mnemomic::BCS)
        } else if c0 == 'b' && c1 == 'e' && c2 == 'q' {
            Some(Mnemomic::BEQ)
        } else if c0 == 'b' && c1 == 'i' && c2 == 't' {
            Some(Mnemomic::BIT)
        } else if c0 == 'b' && c1 == 'm' && c2 == 'i' {
            Some(Mnemomic::BMI)
        } else if c0 == 'b' && c1 == 'n' && c2 == 'e' {
            Some(Mnemomic::BNE)
        } else if c0 == 'b' && c1 == 'p' && c2 == 'l' {
            Some(Mnemomic::BPL)
        } else if c0 == 'b' && c1 == 'r' && c2 == 'a' {
            Some(Mnemomic::BRA)
        } else if c0 == 'b' && c1 == 'r' && c2 == 'k' {
            Some(Mnemomic::BRK)
        } else if c0 == 'b' && c1 == 'v' && c2 == 'c' {
            Some(Mnemomic::BVC)
        } else if c0 == 'b' && c1 == 'v' && c2 == 's' {
            Some(Mnemomic::BVS)
        } else if c0 == 'c' && c1 == 'l' && c2 == 'c' {
            Some(Mnemomic::CLC)
        } else if c0 == 'c' && c1 == 'l' && c2 == 'd' {
            Some(Mnemomic::CLD)
        } else if c0 == 'c' && c1 == 'l' && c2 == 'i' {
            Some(Mnemomic::CLI)
        } else if c0 == 'c' && c1 == 'l' && c2 == 'v' {
            Some(Mnemomic::CLV)
        } else if c0 == 'c' && c1 == 'm' && c2 == 'p' {
            Some(Mnemomic::CMP)
        } else if c0 == 'c' && c1 == 'p' && c2 == 'x' {
            Some(Mnemomic::CPX)
        } else if c0 == 'c' && c1 == 'p' && c2 == 'y' {
            Some(Mnemomic::CPY)
        } else if c0 == 'd' && c1 == 'e' && c2 == 'c' {
            Some(Mnemomic::DEC)
        } else if c0 == 'd' && c1 == 'e' && c2 == 'x' {
            Some(Mnemomic::DEX)
        } else if c0 == 'd' && c1 == 'e' && c2 == 'y' {
            Some(Mnemomic::DEY)
        } else if c0 == 'e' && c1 == 'o' && c2 == 'r' {
            Some(Mnemomic::EOR)
        } else if c0 == 'i' && c1 == 'n' && c2 == 'c' {
            Some(Mnemomic::INC)
        } else if c0 == 'i' && c1 == 'n' && c2 == 'x' {
            Some(Mnemomic::INX)
        } else if c0 == 'i' && c1 == 'n' && c2 == 'y' {
            Some(Mnemomic::INY)
        } else if c0 == 'j' && c1 == 'm' && c2 == 'p' {
            Some(Mnemomic::JMP)
        } else if c0 == 'j' && c1 == 's' && c2 == 'r' {
            Some(Mnemomic::JSR)
        } else if c0 == 'l' && c1 == 'd' && c2 == 'a' {
            Some(Mnemomic::LDA)
        } else if c0 == 'l' && c1 == 'd' && c2 == 'x' {
            Some(Mnemomic::LDX)
        } else if c0 == 'l' && c1 == 'd' && c2 == 'y' {
            Some(Mnemomic::LDY)
        } else if c0 == 'l' && c1 == 's' && c2 == 'r' {
            Some(Mnemomic::LSR)
        } else if c0 == 'n' && c1 == 'o' && c2 == 'p' {
            Some(Mnemomic::NOP)
        } else if c0 == 'o' && c1 == 'r' && c2 == 'a' {
            Some(Mnemomic::ORA)
        } else if c0 == 'p' && c1 == 'h' && c2 == 'a' {
            Some(Mnemomic::PHA)
        } else if c0 == 'p' && c1 == 'h' && c2 == 'p' {
            Some(Mnemomic::PHP)
        } else if c0 == 'p' && c1 == 'h' && c2 == 'x' {
            Some(Mnemomic::PHX)
        } else if c0 == 'p' && c1 == 'h' && c2 == 'y' {
            Some(Mnemomic::PHY)
        } else if c0 == 'p' && c1 == 'l' && c2 == 'a' {
            Some(Mnemomic::PLA)
        } else if c0 == 'p' && c1 == 'l' && c2 == 'p' {
            Some(Mnemomic::PLP)
        } else if c0 == 'p' && c1 == 'l' && c2 == 'x' {
            Some(Mnemomic::PLX)
        } else if c0 == 'p' && c1 == 'l' && c2 == 'y' {
            Some(Mnemomic::PLY)
        } else if c0 == 'r' && c1 == 'o' && c2 == 'l' {
            Some(Mnemomic::ROL)
        } else if c0 == 'r' && c1 == 'o' && c2 == 'r' {
            Some(Mnemomic::ROR)
        } else if c0 == 'r' && c1 == 't' && c2 == 'i' {
            Some(Mnemomic::RTI)
        } else if c0 == 'r' && c1 == 't' && c2 == 's' {
            Some(Mnemomic::RTS)
        } else if c0 == 's' && c1 == 'b' && c2 == 'c' {
            Some(Mnemomic::SBC)
        } else if c0 == 's' && c1 == 'e' && c2 == 'c' {
            Some(Mnemomic::SEC)
        } else if c0 == 's' && c1 == 'e' && c2 == 'd' {
            Some(Mnemomic::SED)
        } else if c0 == 's' && c1 == 'e' && c2 == 'i' {
            Some(Mnemomic::SEI)
        } else if c0 == 's' && c1 == 't' && c2 == 'a' {
            Some(Mnemomic::STA)
        } else if c0 == 's' && c1 == 't' && c2 == 'p' {
            Some(Mnemomic::STP)
        } else if c0 == 's' && c1 == 't' && c2 == 'x' {
            Some(Mnemomic::STX)
        } else if c0 == 's' && c1 == 't' && c2 == 'y' {
            Some(Mnemomic::STY)
        } else if c0 == 's' && c1 == 't' && c2 == 'z' {
            Some(Mnemomic::STZ)
        } else if c0 == 't' && c1 == 'a' && c2 == 'x' {
            Some(Mnemomic::TAX)
        } else if c0 == 't' && c1 == 'a' && c2 == 'y' {
            Some(Mnemomic::TAY)
        } else if c0 == 't' && c1 == 'r' && c2 == 'b' {
            Some(Mnemomic::TRB)
        } else if c0 == 't' && c1 == 's' && c2 == 'b' {
            Some(Mnemomic::TSB)
        } else if c0 == 't' && c1 == 's' && c2 == 'x' {
            Some(Mnemomic::TSX)
        } else if c0 == 't' && c1 == 'x' && c2 == 'a' {
            Some(Mnemomic::TXA)
        } else if c0 == 't' && c1 == 'x' && c2 == 's' {
            Some(Mnemomic::TXS)
        } else if c0 == 't' && c1 == 'y' && c2 == 'a' {
            Some(Mnemomic::TYA)
        } else if c0 == 'w' && c1 == 'a' && c2 == 'i' {
            Some(Mnemomic::WAI)
        } else {
            None
        }
    }

    fn from_letters_and_bit(c0: char, c1: char, c2: char, n: u8) -> (res: Option<Self>)
        ensures
            res == named4(c0, c1, c2, n),
    {
        if c0 == 'b' && c1 == 'b' && c2 == 'r' {
            Some(Mnemomic::BBRN(n))
        } else if c0 == 'b' && c1 == 'b' && c2 == 's' {
            Some(Mnemomic::BBSN(n))
        } else if c0 == 'r' && c1 == 'm' && c2 == 'b' {
            Some(Mnemomic::RMBN(n))
        } else if c0 == 's' && c1 == 'm' && c2 == 'b' {
            Some(Mnemomic::SMBN(n))
        } else {
            None
        }
    }
}

/// What one opcode byte stands for.
#[derive(Debug, Clone, Copy, PartialEq, Eq, Structural)]
pub struct Operation {
    pub addressing_mode: AddressingMode,
    pub mnemomic: Mnemomic,
}

/// The operations table: what each of the 256 opcode bytes stands for, or
/// `None` where the byte is no instruction of the processor.
pub open spec fn decode(opcode: u8) -> Option<Operation> {
    match opcode {
        0x00 => Some(Operation { addressing_mode: AddressingMode::Stack, mnemomic: Mnemomic::BRK }),
        0x01 => Some(Operation { addressing_mode: AddressingMode::ZeroPageIndexedIndirect, mnemomic: Mnemomic::ORA }),
        0x04 => Some(Operation { addressing_mode: AddressingMode::ZeroPage, mnemomic: Mnemomic::TSB }),
        0x05 => Some(Operation { addressing_mode: AddressingMode::ZeroPage, mnemomic: Mnemomic::ORA }),
        0x06 => Some(Operation { addressing_mode: AddressingMode::ZeroPage, mnemomic: Mnemomic::ASL }),
        0x07 => Some(Operation { addressing_mode: AddressingMode::ZeroPage, mnemomic: Mnemomic::RMBN(0) }),
        0x08 => Some(Operation { addressing_mode: AddressingMode::Stack, mnemomic: Mnemomic::PHP }),
        0x09 => Some(Operation { addressing_mode: AddressingMode::Immediate, mnemomic: Mnemomic::ORA }),
        0x0A => Some(Operation { addressing_mode: AddressingMode::Accumulator, mnemomic: Mnemomic::ASL }),
        0x0C => Some(Operation { addressing_mode: AddressingMode::Absolute, mnemomic: Mnemomic::TSB }),
        0x0D => Some(Operation { addressing_mode: AddressingMode::Absolute, mnemomic: Mnemomic::ORA }),
        0x0E => Some(Operation { addressing_mode: AddressingMode::Absolute, mnemomic: Mnemomic::ASL }),
        0x0F => Some(Operation { addressing_mode: AddressingMode::ZeroPageRelative, mnemomic: Mnemomic::BBRN(0) }),
        0x10 => Some(Operation { addressing_mode: AddressingMode::ProgramCounterRelative, mnemomic: Mnemomic::BPL }),
        0x11 => Some(Operation { addressing_mode: AddressingMode::ZeroPageIndirectIndexedY, mnemomic: Mnemomic::ORA }),
        0x12 => Some(Operation { addressing_mode: AddressingMode::ZeroPageIndirect, mnemomic: Mnemomic::ORA }),
        0x14 => Some(Operation { addressing_mode: AddressingMode::ZeroPage, mnemomic: Mnemomic::TRB }),
        0x15 => Some(Operation { addressing_mode: AddressingMode::ZeroPageIndexedX, mnemomic: Mnemomic::ORA }),
        0x16 => Some(Operation { addressing_mode: AddressingMode::ZeroPageIndexedX, mnemomic: Mnemomic::ASL }),
        0x17 => Some(Operation { addressing_mode: AddressingMode::ZeroPage, mnemomic: Mnemomic::RMBN(1) }),
        0x18 => Some(Operation { addressing_mode: AddressingMode::Implied, mnemomic: Mnemomic::CLC }),
        0x19 => Some(Operation { addressing_mode: AddressingMode::AbsoluteIndexedY, mnemomic: Mnemomic::ORA }),
        0x1A => Some(Operation { addressing_mode: AddressingMode::Accumulator, mnemomic: Mnemomic::INC }),
        0x1C => Some(Operation { addressing_mode: AddressingMode::Absolute, mnemomic: Mnemomic::TRB }),
        0x1D => Some(Operation { addressing_mode: AddressingMode::AbsoluteIndexedX, mnemomic: Mnemomic::ORA }),
        0x1E => Some(Operation { addressing_mode: AddressingMode::AbsoluteIndexedX, mnemomic: Mnemomic::ASL }),
        0x1F => Some(Operation { addressing_mode: AddressingMode::ZeroPageRelative, mnemomic: Mnemomic::BBRN(1) }),
        0x20 => Some(Operation { addressing_mode: AddressingMode::Absolute, mnemomic: Mnemomic::JSR }),
        0x21 => Some(Operation { addressing_mode: AddressingMode::ZeroPageIndexedIndirect, mnemomic: Mnemomic::AND }),
        0x24 => Some(Operation { addressing_mode: AddressingMode::ZeroPage, mnemomic: Mnemomic::BIT }),
        0x25 => Some(Operation { addressing_mode: AddressingMode::ZeroPage, mnemomic: Mnemomic::AND }),
        0x26 => Some(Operation { addressing_mode: AddressingMode::ZeroPage, mnemomic: Mnemomic::ROL }),
        0x27 => Some(Operation { addressing_mode: AddressingMode::ZeroPage, mnemomic: Mnemomic::RMBN(2) }),
        0x28 => Some(Operation { addressing_mode: AddressingMode::Stack, mnemomic: Mnemomic::PLP }),
        0x29 => Some(Operation { addressing_mode: AddressingMode::Immediate, mnemomic: Mnemomic::AND }),
        0x2A => Some(Operation { addressing_mode: AddressingMode::Accumulator, mnemomic: Mnemomic::ROL }),
        0x2C => Some(Operation { addressing_mode: AddressingMode::Absolute, mnemomic: Mnemomic::BIT }),
        0x2D => Some(Operation { addressing_mode: AddressingMode::Absolute, mnemomic: Mnemomic::AND }),
        0x2E => Some(Operation { addressing_mode: AddressingMode::Absolute, mnemomic: Mnemomic::ROL }),
        0x2F => Some(Operation { addressing_mode: AddressingMode::ZeroPageRelative, mnemomic: Mnemomic::BBRN(2) }),
        0x30 => Some(Operation { addressing_mode: AddressingMode::ProgramCounterRelative, mnemomic: Mnemomic::BMI }),
        0x31 => Some(Operation { addressing_mode: AddressingMode::ZeroPageIndirectIndexedY, mnemomic: Mnemomic::AND }),
        0x32 => Some(Operation { addressing_mode: AddressingMode::ZeroPageIndirect, mnemomic: Mnemomic::AND }),
        0x34 => Some(Operation { addressing_mode: AddressingMode::ZeroPageIndexedX, mnemomic: Mnemomic::BIT }),
        0x35 => Some(Operation { addressing_mode: AddressingMode::ZeroPageIndexedX, mnemomic: Mnemomic::AND }),
        0x36 => Some(Operation { addressing_mode: AddressingMode::ZeroPageIndexedX, mnemomic: Mnemomic::ROL }),
        0x37 => Some(Operation { addressing_mode: AddressingMode::ZeroPage, mnemomic: Mnemomic::RMBN(3) }),
        0x38 => Some(Operation { addressing_mode: AddressingMode::Implied, mnemomic: Mnemomic::SEC }),
        0x39 => Some(Operation { addressing_mode: AddressingMode::AbsoluteIndexedY, mnemomic: Mnemomic::AND }),
        0x3A => Some(Operation { addressing_mode: AddressingMode::Accumulator, mnemomic: Mnemomic::DEC }),
        0x3C => Some(Operation { addressing_mode: AddressingMode::AbsoluteIndexedX, mnemomic: Mnemomic::BIT }),
        0x3D => Some(Operation { addressing_mode: AddressingMode::AbsoluteIndexedX, mnemomic: Mnemomic::AND }),
        0x3E => Some(Operation { addressing_mode: AddressingMode::AbsoluteIndexedX, mnemomic: Mnemomic::ROL }),
        0x3F => Some(Operation { addressing_mode: AddressingMode::ZeroPageRelative, mnemomic: Mnemomic::BBRN(3) }),
        0x40 => Some(Operation { addressing_mode: AddressingMode::Stack, mnemomic: Mnemomic::RTI }),
        0x41 => Some(Operation { addressing_mode: AddressingMode::ZeroPageIndexedIndirect, mnemomic: Mnemomic::EOR }),
        0x45 => Some(Operation { addressing_mode: AddressingMode::ZeroPage, mnemomic: Mnemomic::EOR }),
        0x46 => Some(Operation { addressing_mode: AddressingMode::ZeroPage, mnemomic: Mnemomic::LSR }),
        0x47 => Some(Operation { addressing_mode: AddressingMode::ZeroPage, mnemomic: Mnemomic::RMBN(4) }),
        0x48 => Some(Operation { addressing_mode: AddressingMode::Stack, mnemomic: Mnemomic::PHA }),
        0x49 => Some(Operation { addressing_mode: AddressingMode::Immediate, mnemomic: Mnemomic::EOR }),
        0x4A => Some(Operation { addressing_mode: AddressingMode::Accumulator, mnemomic: Mnemomic::LSR }),
        0x4C => Some(Operation { addressing_mode: AddressingMode::Absolute, mnemomic: Mnemomic::JMP }),
        0x4D => Some(Operation { addressing_mode: AddressingMode::Absolute, mnemomic: Mnemomic::EOR }),
        0x4E => Some(Operation { addressing_mode: AddressingMode::Absolute, mnemomic: Mnemomic::LSR }),
        0x4F => Some(Operation { addressing_mode: AddressingMode::ZeroPageRelative, mnemomic: Mnemomic::BBRN(4) }),
        0x50 => Some(Operation { addressing_mode: AddressingMode::ProgramCounterRelative, mnemomic: Mnemomic::BVC }),
        0x51 => Some(Operation { addressing_mode: AddressingMode::ZeroPageIndirectIndexedY, mnemomic: Mnemomic::EOR }),
        0x52 => Some(Operation { addressing_mode: AddressingMode::ZeroPageIndirect, mnemomic: Mnemomic::EOR }),
        0x55 => Some(Operation { addressing_mode: AddressingMode::ZeroPageIndexedX, mnemomic: Mnemomic::EOR }),
        0x56 => Some(Operation { addressing_mode: AddressingMode::ZeroPageIndexedX, mnemomic: Mnemomic::LSR }),
        0x57 => Some(Operation { addressing_mode: AddressingMode::ZeroPage, mnemomic: Mnemomic::RMBN(5) }),
        0x58 => Some(Operation { addressing_mode: AddressingMode::Implied, mnemomic: Mnemomic::CLI }),
        0x59 => Some(Operation { addressing_mode: AddressingMode::AbsoluteIndexedY, mnemomic: Mnemomic::EOR }),
        0x5A => Some(Operation { addressing_mode: AddressingMode::Stack, mnemomic: Mnemomic::PHY }),
        0x5D => Some(Operation { addressing_mode: AddressingMode::AbsoluteIndexedX, mnemomic: Mnemomic::EOR }),
        0x5E => Some(Operation { addressing_mode: AddressingMode::AbsoluteIndexedX, mnemomic: Mnemomic::LSR }),
        0x5F => Some(Operation { addressing_mode: AddressingMode::ZeroPageRelative, mnemomic: Mnemomic::BBRN(5) }),
        0x60 => Some(Operation { addressing_mode: AddressingMode::Stack, mnemomic: Mnemomic::RTS }),
        0x61 => Some(Operation { addressing_mode: AddressingMode::ZeroPageIndexedIndirect, mnemomic: Mnemomic::ADC }),
        0x64 => Some(Operation { addressing_mode: AddressingMode::ZeroPage, mnemomic: Mnemomic::STZ }),
        0x65 => Some(Operation { addressing_mode: AddressingMode::ZeroPage, mnemomic: Mnemomic::ADC }),
        0x66 => Some(Operation { addressing_mode: AddressingMode::ZeroPage, mnemomic: Mnemomic::ROR }),
        0x67 => Some(Operation { addressing_mode: AddressingMode::ZeroPage, mnemomic: Mnemomic::RMBN(6) }),
        0x68 => Some(Operation { addressing_mode: AddressingMode::Stack, mnemomic: Mnemomic::PLA }),
        0x69 => Some(Operation { addressing_mode: AddressingMode::Immediate, mnemomic: Mnemomic::ADC }),
        0x6A => Some(Operation { addressing_mode: AddressingMode::Accumulator, mnemomic: Mnemomic::ROR }),
        0x6C => Some(Operation { addressing_mode: AddressingMode::AbsoluteIndirect, mnemomic: Mnemomic::JMP }),
        0x6D => Some(Operation { addressing_mode: AddressingMode::Absolute, mnemomic: Mnemomic::ADC }),
        0x6E => Some(Operation { addressing_mode: AddressingMode::Absolute, mnemomic: Mnemomic::ROR }),
        0x6F => Some(Operation { addressing_mode: AddressingMode::ZeroPageRelative, mnemomic: Mnemomic::BBRN(6) }),
        0x70 => Some(Operation { addressing_mode: AddressingMode::ProgramCounterRelative, mnemomic: Mnemomic::BVS }),
        0x71 => Some(Operation { addressing_mode: AddressingMode::ZeroPageIndirectIndexedY, mnemomic: Mnemomic::ADC }),
        0x72 => Some(Operation { addressing_mode: AddressingMode::ZeroPageIndirect, mnemomic: Mnemomic::ADC }),
        0x74 => Some(Operation { addressing_mode: AddressingMode::ZeroPageIndexedX, mnemomic: Mnemomic::STZ }),
        0x75 => Some(Operation { addressing_mode: AddressingMode::ZeroPageIndexedX, mnemomic: Mnemomic::ADC }),
        0x76 => Some(Operation { addressing_mode: AddressingMode::ZeroPageIndexedX, mnemomic: Mnemomic::ROR }),
        0x77 => Some(Operation { addressing_mode: AddressingMode::ZeroPage, mnemomic: Mnemomic::RMBN(7) }),
        0x78 => Some(Operation { addressing_mode: AddressingMode::Implied, mnemomic: Mnemomic::SEI }),
        0x79 => Some(Operation { addressing_mode: AddressingMode::AbsoluteIndexedY, mnemomic: Mnemomic::ADC }),
        0x7A => Some(Operation { addressing_mode: AddressingMode::Stack, mnemomic: Mnemomic::PLY }),
        0x7C => Some(Operation { addressing_mode: AddressingMode::AbsoluteIndexedIndirect, mnemomic: Mnemomic::JMP }),
        0x7D => Some(Operation { addressing_mode: AddressingMode::AbsoluteIndexedX, mnemomic: Mnemomic::ADC }),
        0x7E => Some(Operation { addressing_mode: AddressingMode::AbsoluteIndexedX, mnemomic: Mnemomic::ROR }),
        0x7F => Some(Operation { addressing_mode: AddressingMode::ZeroPageRelative, mnemomic: Mnemomic::BBRN(7) }),
        0x80 => Some(Operation { addressing_mode: AddressingMode::ProgramCounterRelative, mnemomic: Mnemomic::BRA }),
        0x81 => Some(Operation { addressing_mode: AddressingMode::ZeroPageIndexedIndirect, mnemomic: Mnemomic::STA }),
        0x84 => Some(Operation { addressing_mode: AddressingMode::ZeroPage, mnemomic: Mnemomic::STY }),
        0x85 => Some(Operation { addressing_mode: AddressingMode::ZeroPage, mnemomic: Mnemomic::STA }),
        0x86 => Some(Operation { addressing_mode: AddressingMode::ZeroPage, mnemomic: Mnemomic::STX }),
        0x87 => Some(Operation { addressing_mode: AddressingMode::ZeroPage, mnemomic: Mnemomic::SMBN(0) }),
        0x88 => Some(Operation { addressing_mode: AddressingMode::Implied, mnemomic: Mnemomic::DEY }),
        0x89 => Some(Operation { addressing_mode: AddressingMode::Immediate, mnemomic: Mnemomic::BIT }),
        0x8A => Some(Operation { addressing_mode: AddressingMode::Implied, mnemomic: Mnemomic::TXA }),
        0x8C => Some(Operation { addressing_mode: AddressingMode::Absolute, mnemomic: Mnemomic::STY }),
        0x8D => Some(Operation { addressing_mode: AddressingMode::Absolute, mnemomic: Mnemomic::STA }),
        0x8E => Some(Operation { addressing_mode: AddressingMode::Absolute, mnemomic: Mnemomic::STX }),
        0x8F => Some(Operation { addressing_mode: AddressingMode::ZeroPageRelative, mnemomic: Mnemomic::BBSN(0) }),
        0x90 => Some(Operation { addressing_mode: AddressingMode::ProgramCounterRelative, mnemomic: Mnemomic::BCC }),
        0x91 => Some(Operation { addressing_mode: AddressingMode::ZeroPageIndirectIndexedY, mnemomic: Mnemomic::STA }),
        0x92 => Some(Operation { addressing_mode: AddressingMode::ZeroPageIndirect, mnemomic: Mnemomic::STA }),
        0x94 => Some(Operation { addressing_mode: AddressingMode::ZeroPageIndexedX, mnemomic: Mnemomic::STY }),
        0x95 => Some(Operation { addressing_mode: AddressingMode::ZeroPageIndexedX, mnemomic: Mnemomic::STA }),
        0x96 => Some(Operation { addressing_mode: AddressingMode::ZeroPageIndexedY, mnemomic: Mnemomic::STX }),
        0x97 => Some(Operation { addressing_mode: AddressingMode::ZeroPage, mnemomic: Mnemomic::SMBN(1) }),
        0x98 => Some(Operation { addressing_mode: AddressingMode::Implied, mnemomic: Mnemomic::TYA }),
        0x99 => Some(Operation { addressing_mode: AddressingMode::AbsoluteIndexedY, mnemomic: Mnemomic::STA }),
        0x9A => Some(Operation { addressing_mode: AddressingMode::Implied, mnemomic: Mnemomic::TXS }),
        0x9C => Some(Operation { addressing_mode: AddressingMode::AbsoluteIndexedX, mnemomic: Mnemomic::STZ }),
        0x9D => Some(Operation { addressing_mode: AddressingMode::AbsoluteIndexedX, mnemomic: Mnemomic::STA }),
        0x9E => Some(Operation { addressing_mode: AddressingMode::AbsoluteIndexedY, mnemomic: Mnemomic::STZ }),
        0x9F => Some(Operation { addressing_mode: AddressingMode::ZeroPageRelative, mnemomic: Mnemomic::BBSN(1) }),
        0xA0 => Some(Operation { addressing_mode: AddressingMode::Immediate, mnemomic: Mnemomic::LDY }),
        0xA1 => Some(Operation { addressing_mode: AddressingMode::ZeroPageIndexedIndirect, mnemomic: Mnemomic::LDA }),
        0xA2 => Some(Operation { addressing_mode: AddressingMode::Immediate, mnemomic: Mnemomic::LDX }),
        0xA4 => Some(Operation { addressing_mode: AddressingMode::ZeroPage, mnemomic: Mnemomic::LDY }),
        0xA5 => Some(Operation { addressing_mode: AddressingMode::ZeroPage, mnemomic: Mnemomic::LDA }),
        0xA6 => Some(Operation { addressing_mode: AddressingMode::ZeroPage, mnemomic: Mnemomic::LDX }),
        0xA7 => Some(Operation { addressing_mode: AddressingMode::ZeroPage, mnemomic: Mnemomic::SMBN(2) }),
        0xA8 => Some(Operation { addressing_mode: AddressingMode::Implied, mnemomic: Mnemomic::TAY }),
        0xA9 => Some(Operation { addressing_mode: AddressingMode::Immediate, mnemomic: Mnemomic::LDA }),
        0xAA => Some(Operation { addressing_mode: AddressingMode::Implied, mnemomic: Mnemomic::TAX }),
        0xAC => Some(Operation { addressing_mode: AddressingMode::Absolute, mnemomic: Mnemomic::LDY }),
        0xAD => Some(Operation { addressing_mode: AddressingMode::Absolute, mnemomic: Mnemomic::LDA }),
        0xAE => Some(Operation { addressing_mode: AddressingMode::Absolute, mnemomic: Mnemomic::LDX }),
        0xAF => Some(Operation { addressing_mode: AddressingMode::ZeroPageRelative, mnemomic: Mnemomic::BBSN(2) }),
        0xB0 => Some(Operation { addressing_mode: AddressingMode::ProgramCounterRelative, mnemomic: Mnemomic::BCS }),
        0xB1 => Some(Operation { addressing_mode: AddressingMode::ZeroPageIndirectIndexedY, mnemomic: Mnemomic::LDA }),
        0xB2 => Some(Operation { addressing_mode: AddressingMode::ZeroPageIndirect, mnemomic: Mnemomic::LDA }),
        0xB4 => Some(Operation { addressing_mode: AddressingMode::ZeroPageIndexedX, mnemomic: Mnemomic::LDY }),
        0xB5 => Some(Operation { addressing_mode: AddressingMode::ZeroPageIndexedX, mnemomic: Mnemomic::LDA }),
        0xB6 => Some(Operation { addressing_mode: AddressingMode::ZeroPageIndexedY, mnemomic: Mnemomic::LDX }),
        0xB7 => Some(Operation { addressing_mode: AddressingMode::ZeroPage, mnemomic: Mnemomic::SMBN(3) }),
        0xB8 => Some(Operation { addressing_mode: AddressingMode::Implied, mnemomic: Mnemomic::CLV }),
        0xB9 => Some(Operation { addressing_mode: AddressingMode::AbsoluteIndexedY, mnemomic: Mnemomic::LDA }),
        0xBA => Some(Operation { addressing_mode: AddressingMode::Implied, mnemomic: Mnemomic::TSX }),
        0xBC => Some(Operation { addressing_mode: AddressingMode::AbsoluteIndexedX, mnemomic: Mnemomic::LDY }),
        0xBD => Some(Operation { addressing_mode: AddressingMode::AbsoluteIndexedX, mnemomic: Mnemomic::LDA }),
        0xBE => Some(Operation { addressing_mode: AddressingMode::AbsoluteIndexedY, mnemomic: Mnemomic::LDX }),
        0xBF => Some(Operation { addressing_mode: AddressingMode::ZeroPageRelative, mnemomic: Mnemomic::BBSN(3) }),
        0xC0 => Some(Operation { addressing_mode: AddressingMode::Immediate, mnemomic: Mnemomic::CPY }),
        0xC1 => Some(Operation { addressing_mode: AddressingMode::ZeroPageIndexedIndirect, mnemomic: Mnemomic::CMP }),
        0xC4 => Some(Operation { addressing_mode: AddressingMode::ZeroPage, mnemomic: Mnemomic::CPY }),
        0xC5 => Some(Operation { addressing_mode: AddressingMode::ZeroPage, mnemomic: Mnemomic::CMP }),
        0xC6 => Some(Operation { addressing_mode: AddressingMode::ZeroPage, mnemomic: Mnemomic::DEC }),
        0xC7 => Some(Operation { addressing_mode: AddressingMode::ZeroPage, mnemomic: Mnemomic::SMBN(4) }),
        0xC8 => Some(Operation { addressing_mode: AddressingMode::Implied, mnemomic: Mnemomic::INY }),
        0xC9 => Some(Operation { addressing_mode: AddressingMode::Immediate, mnemomic: Mnemomic::CMP }),
        0xCA => Some(Operation { addressing_mode: AddressingMode::Implied, mnemomic: Mnemomic::DEX }),
        0xCB => Some(Operation { addressing_mode: AddressingMode::Implied, mnemomic: Mnemomic::WAI }),
        0xCC => Some(Operation { addressing_mode: AddressingMode::Absolute, mnemomic: Mnemomic::CPY }),
        0xCD => Some(Operation { addressing_mode: AddressingMode::Absolute, mnemomic: Mnemomic::CMP }),
        0xCE => Some(Operation { addressing_mode: AddressingMode::Absolute, mnemomic: Mnemomic::DEC }),
        0xCF => Some(Operation { addressing_mode: AddressingMode::ZeroPageRelative, mnemomic: Mnemomic::BBSN(4) }),
        0xD0 => Some(Operation { addressing_mode: AddressingMode::ProgramCounterRelative, mnemomic: Mnemomic::BNE }),
        0xD1 => Some(Operation { addressing_mode: AddressingMode::ZeroPageIndirectIndexedY, mnemomic: Mnemomic::CMP }),
        0xD2 => Some(Operation { addressing_mode: AddressingMode::ZeroPageIndirect, mnemomic: Mnemomic::CMP }),
        0xD5 => Some(Operation { addressing_mode: AddressingMode::ZeroPageIndexedX, mnemomic: Mnemomic::CMP }),
        0xD6 => Some(Operation { addressing_mode: AddressingMode::ZeroPageIndexedX, mnemomic: Mnemomic::DEC }),
        0xD7 => Some(Operation { addressing_mode: AddressingMode::ZeroPage, mnemomic: Mnemomic::SMBN(5) }),
        0xD8 => Some(Operation { addressing_mode: AddressingMode::Implied, mnemomic: Mnemomic::CLD }),
        0xD9 => Some(Operation { addressing_mode: AddressingMode::AbsoluteIndexedY, mnemomic: Mnemomic::CMP }),
        0xDA => Some(Operation { addressing_mode: AddressingMode::Implied, mnemomic: Mnemomic::PHX }),
        0xDB => Some(Operation { addressing_mode: AddressingMode::Implied, mnemomic: Mnemomic::STP }),
        0xDD => Some(Operation { addressing_mode: AddressingMode::AbsoluteIndexedX, mnemomic: Mnemomic::CMP }),
        0xDE => Some(Operation { addressing_mode: AddressingMode::AbsoluteIndexedX, mnemomic: Mnemomic::DEC }),
        0xDF => Some(Operation { addressing_mode: AddressingMode::ZeroPageRelative, mnemomic: Mnemomic::BBSN(5) }),
        0xE0 => Some(Operation { addressing_mode: AddressingMode::Immediate, mnemomic: Mnemomic::CPX }),
        0xE1 => Some(Operation { addressing_mode: AddressingMode::ZeroPageIndexedIndirect, mnemomic: Mnemomic::SBC }),
        0xE4 => Some(Operation { addressing_mode: AddressingMode::ZeroPage, mnemomic: Mnemomic::CPX }),
        0xE5 => Some(Operation { addressing_mode: AddressingMode::ZeroPage, mnemomic: Mnemomic::SBC }),
        0xE6 => Some(Operation { addressing_mode: AddressingMode::ZeroPage, mnemomic: Mnemomic::INC }),
        0xE7 => Some(Operation { addressing_mode: AddressingMode::ZeroPage, mnemomic: Mnemomic::SMBN(6) }),
        0xE8 => Some(Operation { addressing_mode: AddressingMode::Implied, mnemomic: Mnemomic::INX }),
        0xE9 => Some(Operation { addressing_mode: AddressingMode::Immediate, mnemomic: Mnemomic::SBC }),
        0xEA => Some(Operation { addressing_mode: AddressingMode::Implied, mnemomic: Mnemomic::NOP }),
        0xEC => Some(Operation { addressing_mode: AddressingMode::Absolute, mnemomic: Mnemomic::CPX }),
        0xED => Some(Operation { addressing_mode: AddressingMode::Absolute, mnemomic: Mnemomic::SBC }),
        0xEE => Some(Operation { addressing_mode: AddressingMode::Absolute, mnemomic: Mnemomic::INC }),
        0xEF => Some(Operation { addressing_mode: AddressingMode::ZeroPageRelative, mnemomic: Mnemomic::BBSN(6) }),
        0xF0 => Some(Operation { addressing_mode: AddressingMode::ProgramCounterRelative, mnemomic: Mnemomic::BEQ }),
        0xF1 => Some(Operation { addressing_mode: AddressingMode::ZeroPageIndirectIndexedY, mnemomic: Mnemomic::SBC }),
        0xF2 => Some(Operation { addressing_mode: AddressingMode::ZeroPageIndirect, mnemomic: Mnemomic::SBC }),
        0xF5 => Some(Operation { addressing_mode: AddressingMode::ZeroPageIndexedX, mnemomic: Mnemomic::SBC }),
        0xF6 => Some(Operation { addressing_mode: AddressingMode::ZeroPageIndexedX, mnemomic: Mnemomic::INC }),
        0xF7 => Some(Operation { addressing_mode: AddressingMode::ZeroPage, mnemomic: Mnemomic::SMBN(7) }),
        0xF8 => Some(Operation { addressing_mode: AddressingMode::Implied, mnemomic: Mnemomic::SED }),
        0xF9 => Some(Operation { addressing_mode: AddressingMode::AbsoluteIndexedY, mnemomic: Mnemomic::SBC }),
        0xFA => Some(Operation { addressing_mode: AddressingMode::Stack, mnemomic: Mnemomic::PLX }),
        0xFD => Some(Operation { addressing_mode: AddressingMode::AbsoluteIndexedX, mnemomic: Mnemomic::SBC }),
        0xFE => Some(Operation { addressing_mode: AddressingMode::AbsoluteIndexedX, mnemomic: Mnemomic::INC }),
        0xFF => Some(Operation { addressing_mode: AddressingMode::ZeroPageRelative, mnemomic: Mnemomic::BBSN(7) }),
        _ => None,
    }
}

/// The opcode bytes that the processor reserves: no instruction stands behind
/// them, and the table has no entry for them.
pub open spec fn reserved(opcode: u8) -> bool {
    ||| opcode % 16 == 0x03
    ||| opcode % 16 == 0x0B && opcode != 0xCB && opcode != 0xDB
    ||| opcode % 32 == 0x02 && opcode != 0xA2
    ||| opcode == 0x44 || opcode == 0x54 || opcode == 0xD4 || opcode == 0xF4
    ||| opcode == 0x5C || opcode == 0xDC || opcode == 0xFC
}

/// The table has an operation for every opcode byte but the reserved ones.
#[verifier::rlimit(50)]
pub proof fn lemma_reserved_opcodes(opcode: u8)
    ensures
        decode(opcode) is None <==> reserved(opcode),
{
}

/// No two opcode bytes stand for the same operation.
#[verifier::rlimit(100)]
pub proof fn lemma_one_opcode_each(first: u8, second: u8)
    ensures
        decode(first) is Some && decode(first) == decode(second) ==> first == second,
{
}

/// Looks `opcode` up in the operations table.
pub fn operation(opcode: u8) -> (op: Option<Operation>)
    ensures
        op == decode(opcode),
{
    match opcode {
        0x00 => Some(Operation { addressing_mode: AddressingMode::Stack, mnemomic: Mnemomic::BRK }),
        0x01 => Some(Operation { addressing_mode: AddressingMode::ZeroPageIndexedIndirect, mnemomic: Mnemomic::ORA }),
        0x04 => Some(Operation { addressing_mode: AddressingMode::ZeroPage, mnemomic: Mnemomic::TSB }),
        0x05 => Some(Operation { addressing_mode: AddressingMode::ZeroPage, mnemomic: Mnemomic::ORA }),
        0x06 => Some(Operation { addressing_mode: AddressingMode::ZeroPage, mnemomic: Mnemomic::ASL }),
        0x07 => Some(Operation { addressing_mode: AddressingMode::ZeroPage, mnemomic: Mnemomic::RMBN(0) }),
        0x08 => Some(Operation { addressing_mode: AddressingMode::Stack, mnemomic: Mnemomic::PHP }),
        0x09 => Some(Operation { addressing_mode: AddressingMode::Immediate, mnemomic: Mnemomic::ORA }),
        0x0A => Some(Operation { addressing_mode: AddressingMode::Accumulator, mnemomic: Mnemomic::ASL }),
        0x0C => Some(Operation { addressing_mode: AddressingMode::Absolute, mnemomic: Mnemomic::TSB }),
        0x0D => Some(Operation { addressing_mode: AddressingMode::Absolute, mnemomic: Mnemomic::ORA }),
        0x0E => Some(Operation { addressing_mode: AddressingMode::Absolute, mnemomic: Mnemomic::ASL }),
        0x0F => Some(Operation { addressing_mode: AddressingMode::ZeroPageRelative, mnemomic: Mnemomic::BBRN(0) }),
        0x10 => Some(Operation { addressing_mode: AddressingMode::ProgramCounterRelative, mnemomic: Mnemomic::BPL }),
        0x11 => Some(Operation { addressing_mode: AddressingMode::ZeroPageIndirectIndexedY, mnemomic: Mnemomic::ORA }),
        0x12 => Some(Operation { addressing_mode: AddressingMode::ZeroPageIndirect, mnemomic: Mnemomic::ORA }),
        0x14 => Some(Operation { addressing_mode: AddressingMode::ZeroPage, mnemomic: Mnemomic::TRB }),
        0x15 => Some(Operation { addressing_mode: AddressingMode::ZeroPageIndexedX, mnemomic: Mnemomic::ORA }),
        0x16 => Some(Operation { addressing_mode: AddressingMode::ZeroPageIndexedX, mnemomic: Mnemomic::ASL }),
        0x17 => Some(Operation { addressing_mode: AddressingMode::ZeroPage, mnemomic: Mnemomic::RMBN(1) }),
        0x18 => Some(Operation { addressing_mode: AddressingMode::Implied, mnemomic: Mnemomic::CLC }),
        0x19 => Some(Operation { addressing_mode: AddressingMode::AbsoluteIndexedY, mnemomic: Mnemomic::ORA }),
        0x1A => Some(Operation { addressing_mode: AddressingMode::Accumulator, mnemomic: Mnemomic::INC }),
        0x1C => Some(Operation { addressing_mode: AddressingMode::Absolute, mnemomic: Mnemomic::TRB }),
        0x1D => Some(Operation { addressing_mode: AddressingMode::AbsoluteIndexedX, mnemomic: Mnemomic::ORA }),
        0x1E => Some(Operation { addressing_mode: AddressingMode::AbsoluteIndexedX, mnemomic: Mnemomic::ASL }),
        0x1F => Some(Operation { addressing_mode: AddressingMode::ZeroPageRelative, mnemomic: Mnemomic::BBRN(1) }),
        0x20 => Some(Operation { addressing_mode: AddressingMode::Absolute, mnemomic: Mnemomic::JSR }),
        0x21 => Some(Operation { addressing_mode: AddressingMode::ZeroPageIndexedIndirect, mnemomic: Mnemomic::AND }),
        0x24 => Some(Operation { addressing_mode: AddressingMode::ZeroPage, mnemomic: Mnemomic::BIT }),
        0x25 => Some(Operation { addressing_mode: AddressingMode::ZeroPage, mnemomic: Mnemomic::AND }),
        0x26 => Some(Operation { addressing_mode: AddressingMode::ZeroPage, mnemomic: Mnemomic::ROL }),
        0x27 => Some(Operation { addressing_mode: AddressingMode::ZeroPage, mnemomic: Mnemomic::RMBN(2) }),
        0x28 => Some(Operation { addressing_mode: AddressingMode::Stack, mnemomic: Mnemomic::PLP }),
        0x29 => Some(Operation { addressing_mode: AddressingMode::Immediate, mnemomic: Mnemomic::AND }),
        0x2A => Some(Operation { addressing_mode: AddressingMode::Accumulator, mnemomic: Mnemomic::ROL }),
        0x2C => Some(Operation { addressing_mode: AddressingMode::Absolute, mnemomic: Mnemomic::BIT }),
        0x2D => Some(Operation { addressing_mode: AddressingMode::Absolute, mnemomic: Mnemomic::AND }),
        0x2E => Some(Operation { addressing_mode: AddressingMode::Absolute, mnemomic: Mnemomic::ROL }),
        0x2F => Some(Operation { addressing_mode: AddressingMode::ZeroPageRelative, mnemomic: Mnemomic::BBRN(2) }),
        0x30 => Some(Operation { addressing_mode: AddressingMode::ProgramCounterRelative, mnemomic: Mnemomic::BMI }),
        0x31 => Some(Operation { addressing_mode: AddressingMode::ZeroPageIndirectIndexedY, mnemomic: Mnemomic::AND }),
        0x32 => Some(Operation { addressing_mode: AddressingMode::ZeroPageIndirect, mnemomic: Mnemomic::AND }),
        0x34 => Some(Operation { addressing_mode: AddressingMode::ZeroPageIndexedX, mnemomic: Mnemomic::BIT }),
        0x35 => Some(Operation { addressing_mode: AddressingMode::ZeroPageIndexedX, mnemomic: Mnemomic::AND }),
        0x36 => Some(Operation { addressing_mode: AddressingMode::ZeroPageIndexedX, mnemomic: Mnemomic::ROL }),
        0x37 => Some(Operation { addressing_mode: AddressingMode::ZeroPage, mnemomic: Mnemomic::RMBN(3) }),
        0x38 => Some(Operation { addressing_mode: AddressingMode::Implied, mnemomic: Mnemomic::SEC }),
        0x39 => Some(Operation { addressing_mode: AddressingMode::AbsoluteIndexedY, mnemomic: Mnemomic::AND }),
        0x3A => Some(Operation { addressing_mode: AddressingMode::Accumulator, mnemomic: Mnemomic::DEC }),
        0x3C => Some(Operation { addressing_mode: AddressingMode::AbsoluteIndexedX, mnemomic: Mnemomic::BIT }),
        0x3D => Some(Operation { addressing_mode: AddressingMode::AbsoluteIndexedX, mnemomic: Mnemomic::AND }),
        0x3E => Some(Operation { addressing_mode: AddressingMode::AbsoluteIndexedX, mnemomic: Mnemomic::ROL }),
        0x3F => Some(Operation { addressing_mode: AddressingMode::ZeroPageRelative, mnemomic: Mnemomic::BBRN(3) }),
        0x40 => Some(Operation { addressing_mode: AddressingMode::Stack, mnemomic: Mnemomic::RTI }),
        0x41 => Some(Operation { addressing_mode: AddressingMode::ZeroPageIndexedIndirect, mnemomic: Mnemomic::EOR }),
        0x45 => Some(Operation { addressing_mode: AddressingMode::ZeroPage, mnemomic: Mnemomic::EOR }),
        0x46 => Some(Operation { addressing_mode: AddressingMode::ZeroPage, mnemomic: Mnemomic::LSR }),
        0x47 => Some(Operation { addressing_mode: AddressingMode::ZeroPage, mnemomic: Mnemomic::RMBN(4) }),
        0x48 => Some(Operation { addressing_mode: AddressingMode::Stack, mnemomic: Mnemomic::PHA }),
        0x49 => Some(Operation { addressing_mode: AddressingMode::Immediate, mnemomic: Mnemomic::EOR }),
        0x4A => Some(Operation { addressing_mode: AddressingMode::Accumulator, mnemomic: Mnemomic::LSR }),
        0x4C => Some(Operation { addressing_mode: AddressingMode::Absolute, mnemomic: Mnemomic::JMP }),
        0x4D => Some(Operation { addressing_mode: AddressingMode::Absolute, mnemomic: Mnemomic::EOR }),
        0x4E => Some(Operation { addressing_mode: AddressingMode::Absolute, mnemomic: Mnemomic::LSR }),
        0x4F => Some(Operation { addressing_mode: AddressingMode::ZeroPageRelative, mnemomic: Mnemomic::BBRN(4) }),
        0x50 => Some(Operation { addressing_mode: AddressingMode::ProgramCounterRelative, mnemomic: Mnemomic::BVC }),
        0x51 => Some(Operation { addressing_mode: AddressingMode::ZeroPageIndirectIndexedY, mnemomic: Mnemomic::EOR }),
        0x52 => Some(Operation { addressing_mode: AddressingMode::ZeroPageIndirect, mnemomic: Mnemomic::EOR }),
        0x55 => Some(Operation { addressing_mode: AddressingMode::ZeroPageIndexedX, mnemomic: Mnemomic::EOR }),
        0x56 => Some(Operation { addressing_mode: AddressingMode::ZeroPageIndexedX, mnemomic: Mnemomic::LSR }),
        0x57 => Some(Operation { addressing_mode: AddressingMode::ZeroPage, mnemomic: Mnemomic::RMBN(5) }),
        0x58 => Some(Operation { addressing_mode: AddressingMode::Implied, mnemomic: Mnemomic::CLI }),
        0x59 => Some(Operation { addressing_mode: AddressingMode::AbsoluteIndexedY, mnemomic: Mnemomic::EOR }),
        0x5A => Some(Operation { addressing_mode: AddressingMode::Stack, mnemomic: Mnemomic::PHY }),
        0x5D => Some(Operation { addressing_mode: AddressingMode::AbsoluteIndexedX, mnemomic: Mnemomic::EOR }),
        0x5E => Some(Operation { addressing_mode: AddressingMode::AbsoluteIndexedX, mnemomic: Mnemomic::LSR }),
        0x5F => Some(Operation { addressing_mode: AddressingMode::ZeroPageRelative, mnemomic: Mnemomic::BBRN(5) }),
        0x60 => Some(Operation { addressing_mode: AddressingMode::Stack, mnemomic: Mnemomic::RTS }),
        0x61 => Some(Operation { addressing_mode: AddressingMode::ZeroPageIndexedIndirect, mnemomic: Mnemomic::ADC }),
        0x64 => Some(Operation { addressing_mode: AddressingMode::ZeroPage, mnemomic: Mnemomic::STZ }),
        0x65 => Some(Operation { addressing_mode: AddressingMode::ZeroPage, mnemomic: Mnemomic::ADC }),
        0x66 => Some(Operation { addressing_mode: AddressingMode::ZeroPage, mnemomic: Mnemomic::ROR }),
        0x67 => Some(Operation { addressing_mode: AddressingMode::ZeroPage, mnemomic: Mnemomic::RMBN(6) }),
        0x68 => Some(Operation { addressing_mode: AddressingMode::Stack, mnemomic: Mnemomic::PLA }),
        0x69 => Some(Operation { addressing_mode: AddressingMode::Immediate, mnemomic: Mnemomic::ADC }),
        0x6A => Some(Operation { addressing_mode: AddressingMode::Accumulator, mnemomic: Mnemomic::ROR }),
        0x6C => Some(Operation { addressing_mode: AddressingMode::AbsoluteIndirect, mnemomic: Mnemomic::JMP }),
        0x6D => Some(Operation { addressing_mode: AddressingMode::Absolute, mnemomic: Mnemomic::ADC }),
        0x6E => Some(Operation { addressing_mode: AddressingMode::Absolute, mnemomic: Mnemomic::ROR }),
        0x6F => Some(Operation { addressing_mode: AddressingMode::ZeroPageRelative, mnemomic: Mnemomic::BBRN(6) }),
        0x70 => Some(Operation { addressing_mode: AddressingMode::ProgramCounterRelative, mnemomic: Mnemomic::BVS }),
        0x71 => Some(Operation { addressing_mode: AddressingMode::ZeroPageIndirectIndexedY, mnemomic: Mnemomic::ADC }),
        0x72 => Some(Operation { addressing_mode: AddressingMode::ZeroPageIndirect, mnemomic: Mnemomic::ADC }),
        0x74 => Some(Operation { addressing_mode: AddressingMode::ZeroPageIndexedX, mnemomic: Mnemomic::STZ }),
        0x75 => Some(Operation { addressing_mode: AddressingMode::ZeroPageIndexedX, mnemomic: Mnemomic::ADC }),
        0x76 => Some(Operation { addressing_mode: AddressingMode::ZeroPageIndexedX, mnemomic: Mnemomic::ROR }),
        0x77 => Some(Operation { addressing_mode: AddressingMode::ZeroPage, mnemomic: Mnemomic::RMBN(7) }),
        0x78 => Some(Operation { addressing_mode: AddressingMode::Implied, mnemomic: Mnemomic::SEI }),
        0x79 => Some(Operation { addressing_mode: AddressingMode::AbsoluteIndexedY, mnemomic: Mnemomic::ADC }),
        0x7A => Some(Operation { addressing_mode: AddressingMode::Stack, mnemomic: Mnemomic::PLY }),
        0x7C => Some(Operation { addressing_mode: AddressingMode::AbsoluteIndexedIndirect, mnemomic: Mnemomic::JMP }),
        0x7D => Some(Operation { addressing_mode: AddressingMode::AbsoluteIndexedX, mnemomic: Mnemomic::ADC }),
        0x7E => Some(Operation { addressing_mode: AddressingMode::AbsoluteIndexedX, mnemomic: Mnemomic::ROR }),
        0x7F => Some(Operation { addressing_mode: AddressingMode::ZeroPageRelative, mnemomic: Mnemomic::BBRN(7) }),
        0x80 => Some(Operation { addressing_mode: AddressingMode::ProgramCounterRelative, mnemomic: Mnemomic::BRA }),
        0x81 => Some(Operation { addressing_mode: AddressingMode::ZeroPageIndexedIndirect, mnemomic: Mnemomic::STA }),
        0x84 => Some(Operation { addressing_mode: AddressingMode::ZeroPage, mnemomic: Mnemomic::STY }),
        0x85 => Some(Operation { addressing_mode: AddressingMode::ZeroPage, mnemomic: Mnemomic::STA }),
        0x86 => Some(Operation { addressing_mode: AddressingMode::ZeroPage, mnemomic: Mnemomic::STX }),
        0x87 => Some(Operation { addressing_mode: AddressingMode::ZeroPage, mnemomic: Mnemomic::SMBN(0) }),
        0x88 => Some(Operation { addressing_mode: AddressingMode::Implied, mnemomic: Mnemomic::DEY }),
        0x89 => Some(Operation { addressing_mode: AddressingMode::Immediate, mnemomic: Mnemomic::BIT }),
        0x8A => Some(Operation { addressing_mode: AddressingMode::Implied, mnemomic: Mnemomic::TXA }),
        0x8C => Some(Operation { addressing_mode: AddressingMode::Absolute, mnemomic: Mnemomic::STY }),
        0x8D => Some(Operation { addressing_mode: AddressingMode::Absolute, mnemomic: Mnemomic::STA }),
        0x8E => Some(Operation { addressing_mode: AddressingMode::Absolute, mnemomic: Mnemomic::STX }),
        0x8F => Some(Operation { addressing_mode: AddressingMode::ZeroPageRelative, mnemomic: Mnemomic::BBSN(0) }),
        0x90 => Some(Operation { addressing_mode: AddressingMode::ProgramCounterRelative, mnemomic: Mnemomic::BCC }),
        0x91 => Some(Operation { addressing_mode: AddressingMode::ZeroPageIndirectIndexedY, mnemomic: Mnemomic::STA }),
        0x92 => Some(Operation { addressing_mode: AddressingMode::ZeroPageIndirect, mnemomic: Mnemomic::STA }),
        0x94 => Some(Operation { addressing_mode: AddressingMode::ZeroPageIndexedX, mnemomic: Mnemomic::STY }),
        0x95 => Some(Operation { addressing_mode: AddressingMode::ZeroPageIndexedX, mnemomic: Mnemomic::STA }),
        0x96 => Some(Operation { addressing_mode: AddressingMode::ZeroPageIndexedY, mnemomic: Mnemomic::STX }),
        0x97 => Some(Operation { addressing_mode: AddressingMode::ZeroPage, mnemomic: Mnemomic::SMBN(1) }),
        0x98 => Some(Operation { addressing_mode: AddressingMode::Implied, mnemomic: Mnemomic::TYA }),
        0x99 => Some(Operation { addressing_mode: AddressingMode::AbsoluteIndexedY, mnemomic: Mnemomic::STA }),
        0x9A => Some(Operation { addressing_mode: AddressingMode::Implied, mnemomic: Mnemomic::TXS }),
        0x9C => Some(Operation { addressing_mode: AddressingMode::AbsoluteIndexedX, mnemomic: Mnemomic::STZ }),
        0x9D => Some(Operation { addressing_mode: AddressingMode::AbsoluteIndexedX, mnemomic: Mnemomic::STA }),
        0x9E => Some(Operation { addressing_mode: AddressingMode::AbsoluteIndexedY, mnemomic: Mnemomic::STZ }),
        0x9F => Some(Operation { addressing_mode: AddressingMode::ZeroPageRelative, mnemomic: Mnemomic::BBSN(1) }),
        0xA0 => Some(Operation { addressing_mode: AddressingMode::Immediate, mnemomic: Mnemomic::LDY }),
        0xA1 => Some(Operation { addressing_mode: AddressingMode::ZeroPageIndexedIndirect, mnemomic: Mnemomic::LDA }),
        0xA2 => Some(Operation { addressing_mode: AddressingMode::Immediate, mnemomic: Mnemomic::LDX }),
        0xA4 => Some(Operation { addressing_mode: AddressingMode::ZeroPage, mnemomic: Mnemomic::LDY }),
        0xA5 => Some(Operation { addressing_mode: AddressingMode::ZeroPage, mnemomic: Mnemomic::LDA }),
        0xA6 => Some(Operation { addressing_mode: AddressingMode::ZeroPage, mnemomic: Mnemomic::LDX }),
        0xA7 => Some(Operation { addressing_mode: AddressingMode::ZeroPage, mnemomic: Mnemomic::SMBN(2) }),
        0xA8 => Some(Operation { addressing_mode: AddressingMode::Implied, mnemomic: Mnemomic::TAY }),
        0xA9 => Some(Operation { addressing_mode: AddressingMode::Immediate, mnemomic: Mnemomic::LDA }),
        0xAA => Some(Operation { addressing_mode: AddressingMode::Implied, mnemomic: Mnemomic::TAX }),
        0xAC => Some(Operation { addressing_mode: AddressingMode::Absolute, mnemomic: Mnemomic::LDY }),
        0xAD => Some(Operation { addressing_mode: AddressingMode::Absolute, mnemomic: Mnemomic::LDA }),
        0xAE => Some(Operation { addressing_mode: AddressingMode::Absolute, mnemomic: Mnemomic::LDX }),
        0xAF => Some(Operation { addressing_mode: AddressingMode::ZeroPageRelative, mnemomic: Mnemomic::BBSN(2) }),
        0xB0 => Some(Operation { addressing_mode: AddressingMode::ProgramCounterRelative, mnemomic: Mnemomic::BCS }),
        0xB1 => Some(Operation { addressing_mode: AddressingMode::ZeroPageIndirectIndexedY, mnemomic: Mnemomic::LDA }),
        0xB2 => Some(Operation { addressing_mode: AddressingMode::ZeroPageIndirect, mnemomic: Mnemomic::LDA }),
        0xB4 => Some(Operation { addressing_mode: AddressingMode::ZeroPageIndexedX, mnemomic: Mnemomic::LDY }),
        0xB5 => Some(Operation { addressing_mode: AddressingMode::ZeroPageIndexedX, mnemomic: Mnemomic::LDA }),
        0xB6 => Some(Operation { addressing_mode: AddressingMode::ZeroPageIndexedY, mnemomic: Mnemomic::LDX }),
        0xB7 => Some(Operation { addressing_mode: AddressingMode::ZeroPage, mnemomic: Mnemomic::SMBN(3) }),
        0xB8 => Some(Operation { addressing_mode: AddressingMode::Implied, mnemomic: Mnemomic::CLV }),
        0xB9 => Some(Operation { addressing_mode: AddressingMode::AbsoluteIndexedY, mnemomic: Mnemomic::LDA }),
        0xBA => Some(Operation { addressing_mode: AddressingMode::Implied, mnemomic: Mnemomic::TSX }),
        0xBC => Some(Operation { addressing_mode: AddressingMode::AbsoluteIndexedX, mnemomic: Mnemomic::LDY }),
        0xBD => Some(Operation { addressing_mode: AddressingMode::AbsoluteIndexedX, mnemomic: Mnemomic::LDA }),
        0xBE => Some(Operation { addressing_mode: AddressingMode::AbsoluteIndexedY, mnemomic: Mnemomic::LDX }),
        0xBF => Some(Operation { addressing_mode: AddressingMode::ZeroPageRelative, mnemomic: Mnemomic::BBSN(3) }),
        0xC0 => Some(Operation { addressing_mode: AddressingMode::Immediate, mnemomic: Mnemomic::CPY }),
        0xC1 => Some(Operation { addressing_mode: AddressingMode::ZeroPageIndexedIndirect, mnemomic: Mnemomic::CMP }),
        0xC4 => Some(Operation { addressing_mode: AddressingMode::ZeroPage, mnemomic: Mnemomic::CPY }),
        0xC5 => Some(Operation { addressing_mode: AddressingMode::ZeroPage, mnemomic: Mnemomic::CMP }),
        0xC6 => Some(Operation { addressing_mode: AddressingMode::ZeroPage, mnemomic: Mnemomic::DEC }),
        0xC7 => Some(Operation { addressing_mode: AddressingMode::ZeroPage, mnemomic: Mnemomic::SMBN(4) }),
        0xC8 => Some(Operation { addressing_mode: AddressingMode::Implied, mnemomic: Mnemomic::INY }),
        0xC9 => Some(Operation { addressing_mode: AddressingMode::Immediate, mnemomic: Mnemomic::CMP }),
        0xCA => Some(Operation { addressing_mode: AddressingMode::Implied, mnemomic: Mnemomic::DEX }),
        0xCB => Some(Operation { addressing_mode: AddressingMode::Implied, mnemomic: Mnemomic::WAI }),
        0xCC => Some(Operation { addressing_mode: AddressingMode::Absolute, mnemomic: Mnemomic::CPY }),
        0xCD => Some(Operation { addressing_mode: AddressingMode::Absolute, mnemomic: Mnemomic::CMP }),
        0xCE => Some(Operation { addressing_mode: AddressingMode::Absolute, mnemomic: Mnemomic::DEC }),
        0xCF => Some(Operation { addressing_mode: AddressingMode::ZeroPageRelative, mnemomic: Mnemomic::BBSN(4) }),
        0xD0 => Some(Operation { addressing_mode: AddressingMode::ProgramCounterRelative, mnemomic: Mnemomic::BNE }),
        0xD1 => Some(Operation { addressing_mode: AddressingMode::ZeroPageIndirectIndexedY, mnemomic: Mnemomic::CMP }),
        0xD2 => Some(Operation { addressing_mode: AddressingMode::ZeroPageIndirect, mnemomic: Mnemomic::CMP }),
        0xD5 => Some(Operation { addressing_mode: AddressingMode::ZeroPageIndexedX, mnemomic: Mnemomic::CMP }),
        0xD6 => Some(Operation { addressing_mode: AddressingMode::ZeroPageIndexedX, mnemomic: Mnemomic::DEC }),
        0xD7 => Some(Operation { addressing_mode: AddressingMode::ZeroPage, mnemomic: Mnemomic::SMBN(5) }),
        0xD8 => Some(Operation { addressing_mode: AddressingMode::Implied, mnemomic: Mnemomic::CLD }),
        0xD9 => Some(Operation { addressing_mode: AddressingMode::AbsoluteIndexedY, mnemomic: Mnemomic::CMP }),
        0xDA => Some(Operation { addressing_mode: AddressingMode::Implied, mnemomic: Mnemomic::PHX }),
        0xDB => Some(Operation { addressing_mode: AddressingMode::Implied, mnemomic: Mnemomic::STP }),
        0xDD => Some(Operation { addressing_mode: AddressingMode::AbsoluteIndexedX, mnemomic: Mnemomic::CMP }),
        0xDE => Some(Operation { addressing_mode: AddressingMode::AbsoluteIndexedX, mnemomic: Mnemomic::DEC }),
        0xDF => Some(Operation { addressing_mode: AddressingMode::ZeroPageRelative, mnemomic: Mnemomic::BBSN(5) }),
        0xE0 => Some(Operation { addressing_mode: AddressingMode::Immediate, mnemomic: Mnemomic::CPX }),
        0xE1 => Some(Operation { addressing_mode: AddressingMode::ZeroPageIndexedIndirect, mnemomic: Mnemomic::SBC }),
        0xE4 => Some(Operation { addressing_mode: AddressingMode::ZeroPage, mnemomic: Mnemomic::CPX }),
        0xE5 => Some(Operation { addressing_mode: AddressingMode::ZeroPage, mnemomic: Mnemomic::SBC }),
        0xE6 => Some(Operation { addressing_mode: AddressingMode::ZeroPage, mnemomic: Mnemomic::INC }),
        0xE7 => Some(Operation { addressing_mode: AddressingMode::ZeroPage, mnemomic: Mnemomic::SMBN(6) }),
        0xE8 => Some(Operation { addressing_mode: AddressingMode::Implied, mnemomic: Mnemomic::INX }),
        0xE9 => Some(Operation { addressing_mode: AddressingMode::Immediate, mnemomic: Mnemomic::SBC }),
        0xEA => Some(Operation { addressing_mode: AddressingMode::Implied, mnemomic: Mnemomic::NOP }),
        0xEC => Some(Operation { addressing_mode: AddressingMode::Absolute, mnemomic: Mnemomic::CPX }),
        0xED => Some(Operation { addressing_mode: AddressingMode::Absolute, mnemomic: Mnemomic::SBC }),
        0xEE => Some(Operation { addressing_mode: AddressingMode::Absolute, mnemomic: Mnemomic::INC }),
        0xEF => Some(Operation { addressing_mode: AddressingMode::ZeroPageRelative, mnemomic: Mnemomic::BBSN(6) }),
        0xF0 => Some(Operation { addressing_mode: AddressingMode::ProgramCounterRelative, mnemomic: Mnemomic::BEQ }),
        0xF1 => Some(Operation { addressing_mode: AddressingMode::ZeroPageIndirectIndexedY, mnemomic: Mnemomic::SBC }),
        0xF2 => Some(Operation { addressing_mode: AddressingMode::ZeroPageIndirect, mnemomic: Mnemomic::SBC }),
        0xF5 => Some(Operation { addressing_mode: AddressingMode::ZeroPageIndexedX, mnemomic: Mnemomic::SBC }),
        0xF6 => Some(Operation { addressing_mode: AddressingMode::ZeroPageIndexedX, mnemomic: Mnemomic::INC }),
        0xF7 => Some(Operation { addressing_mode: AddressingMode::ZeroPage, mnemomic: Mnemomic::SMBN(7) }),
        0xF8 => Some(Operation { addressing_mode: AddressingMode::Implied, mnemomic: Mnemomic::SED }),
        0xF9 => Some(Operation { addressing_mode: AddressingMode::AbsoluteIndexedY, mnemomic: Mnemomic::SBC }),
        0xFA => Some(Operation { addressing_mode: AddressingMode::Stack, mnemomic: Mnemomic::PLX }),
        0xFD => Some(Operation { addressing_mode: AddressingMode::AbsoluteIndexedX, mnemomic: Mnemomic::SBC }),
        0xFE => Some(Operation { addressing_mode: AddressingMode::AbsoluteIndexedX, mnemomic: Mnemomic::INC }),
        0xFF => Some(Operation { addressing_mode: AddressingMode::ZeroPageRelative, mnemomic: Mnemomic::BBSN(7) }),
        _ => None,
    }
}

} // verus!
