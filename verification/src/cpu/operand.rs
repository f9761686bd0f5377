//! Operands: how the processor reaches the bus, fetches from the instruction
//! stream, works the stack, and resolves each addressing mode to an operand.
//!
//! Every step of the processor is modelled as a function from the state before
//! (registers and bus) to an [`Outcome`]: the state after, and either a value
//! or the error that stopped it. An access that the bus refuses stops the step
//! where it stands; what was done before it stays done.
use crate::bus::{Bus, BusError, BusView};
use crate::cpu::decode::{AddressingMode, Mnemomic};
use crate::cpu::registers::W65C02S;
use crate::cpu::word::{
    advance, make_word, pages_differ, signed, stack_address, stack_cell, to_signed, word, wrap_byte,
};
use vstd::prelude::*;

verus! {

/// What an instruction works on, once its addressing mode is resolved.
#[derive(Debug, Copy, Clone, PartialEq, Eq, Structural)]
pub enum Operand {
    /// No operand.
    Implied,
    /// The `A` register.
    Accumulator,
    /// An immediate byte.
    Value(u8),
    /// An effective memory address.
    Address(u16),
    /// A signed branch offset, relative to the program counter behind the
    /// instruction.
    Relative(i8),
    /// For `BBRn` and `BBSn`: the zero-page address to test and the branch
    /// offset.
    ZpAddrRelative(u8, i8),
}

/// An operand, and whether forming its address crossed a page boundary.
#[derive(Debug, Copy, Clone, PartialEq, Eq, Structural)]
pub struct ResolvedOperand {
    pub operand: Operand,
    pub page_crossed: bool,
}

/// Why the processor stopped.
#[derive(Debug, Copy, Clone, PartialEq, Eq, Structural)]
pub enum CpuError {
    /// The opcode byte is no instruction of the processor.
    InvalidOpcode(u8),
    /// An instruction was handed an operand of a kind that it cannot read or
    /// write.
    InvalidOperand(Operand),
    /// The bus refused an access.
    Bus(BusError),
    /// The instruction is decoded but the core does not model it.
    Unimplemented(Mnemomic),
}

/// The result of a piece of work of the processor: the registers and the bus
/// after it, and the value it produced or the error that stopped it.
pub struct Outcome<T> {
    pub cpu: W65C02S,
    pub bus: BusView,
    pub result: Result<T, CpuError>,
}

/// The outcome made of its three parts.
pub open spec fn outcome<T>(cpu: W65C02S, bus: BusView, result: Result<T, CpuError>) -> Outcome<T> {
    Outcome { cpu, bus, result }
}

/// Work that finished with `val`.
pub open spec fn done<T>(cpu: W65C02S, bus: BusView, val: T) -> Outcome<T> {
    Outcome { cpu, bus, result: Ok(val) }
}

/// Work that stopped on `error`.
pub open spec fn failed<T>(cpu: W65C02S, bus: BusView, error: CpuError) -> Outcome<T> {
    Outcome { cpu, bus, result: Err(error) }
}

/// The answer of the bus as a result of the processor: a refusal of the bus
/// stops the processor.
pub open spec fn answered<T>(answer: Result<T, BusError>) -> Result<T, CpuError> {
    match answer {
        Ok(val) => Ok(val),
        Err(e) => Err(CpuError::Bus(e)),
    }
}

/// Work that only asked the bus for a value: the state is as before.
pub open spec fn asked<T>(cpu: W65C02S, bus: BusView, answer: Result<T, BusError>) -> Outcome<T> {
    outcome(cpu, bus, answered(answer))
}

impl<T> Outcome<T> {
    /// Goes on with `next` from the state reached, unless the work stopped.
    pub open spec fn and_then<U>(
        self,
        next: spec_fn(W65C02S, BusView, T) -> Outcome<U>,
    ) -> Outcome<U> {
        match self.result {
            Ok(val) => next(self.cpu, self.bus, val),
            Err(e) => failed(self.cpu, self.bus, e),
        }
    }
}

impl BusView {
    /// The word whose low byte stands at `low_at` and whose high byte stands
    /// at `high_at`, read in that order.
    pub open spec fn read_pair(self, low_at: u16, high_at: u16) -> Result<u16, BusError> {
        match self.read(low_at) {
            Ok(lo) => match self.read(high_at) {
                Ok(hi) => Ok(word(lo, hi)),
                Err(e) => Err(e),
            },
            Err(e) => Err(e),
        }
    }

    /// The little-endian word at `address` and the address behind it.
    pub open spec fn read_word(self, address: u16) -> Result<u16, BusError> {
        self.read_pair(address, advance(address, 1))
    }

    /// The little-endian word at the zero-page address `zp`; the high byte is
    /// taken from the zero page too.
    pub open spec fn read_zero_page_word(self, zp: u8) -> Result<u16, BusError> {
        self.read_pair(zp as u16, wrap_byte(zp, 1) as u16)
    }
}

/// A store of `val` at `address`.
pub open spec fn stored(cpu: W65C02S, bus: BusView, address: u16, val: u8) -> Outcome<()> {
    match bus.write_result(address) {
        Ok(_) => done(cpu, bus.write(address, val), ()),
        Err(e) => failed(cpu, bus, CpuError::Bus(e)),
    }
}

/// Reads the little-endian word at `address`; the address of the high byte
/// wraps within 16 bits.
#[inline]
pub fn read_u16<B: Bus>(bus: &mut B, address: u16) -> (res: Result<u16, BusError>)
    requires
        old(bus).inv(),
    ensures
        final(bus).inv(),
        final(bus)@ == old(bus)@,
        res == old(bus)@.read_word(address),
{
    read_pair(bus, address, address.wrapping_add(1))
}

/// Reads the low byte of a word at `low_at`, then its high byte at `high_at`.
pub fn read_pair<B: Bus>(bus: &mut B, low_at: u16, high_at: u16) -> (res: Result<u16, BusError>)
    requires
        old(bus).inv(),
    ensures
        final(bus).inv(),
        final(bus)@ == old(bus)@,
        res == old(bus)@.read_pair(low_at, high_at),
{
    let low = bus.read(low_at)?;
    let high = bus.read(high_at)?;
    Ok(make_word(low, high))
}

/// Reads the little-endian word that the zero-page address `zp` points at.
pub fn read_zero_page_u16<B: Bus>(bus: &mut B, zp: u8) -> (res: Result<u16, BusError>)
    requires
        old(bus).inv(),
    ensures
        final(bus).inv(),
        final(bus)@ == old(bus)@,
        res == old(bus)@.read_zero_page_word(zp),
{
    read_pair(bus, zp as u16, zp.wrapping_add(1) as u16)
}

/// Turns the answer of the bus into the processor's own result type.
pub fn bus_result<T>(answer: Result<T, BusError>) -> (res: Result<T, CpuError>)
    ensures
        res == answered(answer),
{
    match answer {
        Ok(val) => Ok(val),
        Err(e) => Err(CpuError::Bus(e)),
    }
}

impl W65C02S {
    /// The byte at the program counter, which then moves on by one.
    pub open spec fn fetch_u8_spec(self, bus: BusView) -> Outcome<u8> {
        asked(self, bus, bus.read(self.program_counter)).and_then(
            |cpu: W65C02S, bus: BusView, val: u8|
                done(cpu.with_pc(advance(cpu.program_counter, 1)), bus, val),
        )
    }

    /// The little-endian word at the program counter, which then moves on by
    /// two.
    pub open spec fn fetch_u16_spec(self, bus: BusView) -> Outcome<u16> {
        self.fetch_u8_spec(bus).and_then(
            |cpu: W65C02S, bus: BusView, lo: u8|
                cpu.fetch_u8_spec(bus).and_then(
                    |cpu: W65C02S, bus: BusView, hi: u8| done(cpu, bus, word(lo, hi)),
                ),
        )
    }

    /// A push: `val` is stored at the stack pointer, which then moves down.
    pub open spec fn push_spec(self, bus: BusView, val: u8) -> Outcome<()> {
        stored(self, bus, stack_address(self.stack_pointer), val).and_then(
            |cpu: W65C02S, bus: BusView, unit: ()|
                done(cpu.with_sp(wrap_byte(cpu.stack_pointer, -1)), bus, ()),
        )
    }

    /// A pull: the stack pointer moves up, then the byte it designates is
    /// read.
    pub open spec fn pull_spec(self, bus: BusView) -> Outcome<u8> {
        let sp = wrap_byte(self.stack_pointer, 1);
        asked(self.with_sp(sp), bus, bus.read(stack_address(sp)))
    }

    #[inline]
    pub fn fetch_u8<B: Bus>(&mut self, bus: &mut B) -> (res: Result<u8, CpuError>)
        requires
            old(bus).inv(),
        ensures
            final(bus).inv(),
            outcome(*final(self), final(bus)@, res) == old(self).fetch_u8_spec(old(bus)@),
    {
        match bus.read(self.program_counter) {
            Ok(val) => {
                self.program_counter = self.program_counter.wrapping_add(1);
                Ok(val)
            },
            Err(e) => Err(CpuError::Bus(e)),
        }
    }

    #[inline]
    pub fn fetch_u16<B: Bus>(&mut self, bus: &mut B) -> (res: Result<u16, CpuError>)
        requires
            old(bus).inv(),
        ensures
            final(bus).inv(),
            outcome(*final(self), final(bus)@, res) == old(self).fetch_u16_spec(old(bus)@),
    {
        let low = self.fetch_u8(bus)?;
        let high = self.fetch_u8(bus)?;
        Ok(make_word(low, high))
    }

    #[inline]
    pub fn stack_push_u8<B: Bus>(&mut self, bus: &mut B, val: u8) -> (res: Result<(), CpuError>)
        requires
            old(bus).inv(),
        ensures
            final(bus).inv(),
            outcome(*final(self), final(bus)@, res) == old(self).push_spec(old(bus)@, val),
    {
        match bus.write(stack_cell(self.stack_pointer), val) {
            Ok(_) => {
                self.stack_pointer = self.stack_pointer.wrapping_sub(1);
                Ok(())
            },
            Err(e) => Err(CpuError::Bus(e)),
        }
    }

    #[inline]
    pub fn stack_pull_u8<B: Bus>(&mut self, bus: &mut B) -> (res: Result<u8, CpuError>)
        requires
            old(bus).inv(),
        ensures
            final(bus).inv(),
            outcome(*final(self), final(bus)@, res) == old(self).pull_spec(old(bus)@),
    {
        self.stack_pointer = self.stack_pointer.wrapping_add(1);
        match bus.read(stack_cell(self.stack_pointer)) {
            Ok(val) => Ok(val),
            Err(e) => Err(CpuError::Bus(e)),
        }
    }
}

impl Operand {
    /// The byte that the operand stands for.
    pub open spec fn load(self, cpu: W65C02S, bus: BusView) -> Outcome<u8> {
        match self {
            Operand::Value(v) => done(cpu, bus, v),
            Operand::Address(a) => asked(cpu, bus, bus.read(a)),
            Operand::Accumulator => done(cpu, bus, cpu.a_register),
            Operand::ZpAddrRelative(a, _) => asked(cpu, bus, bus.read(a as u16)),
            _ => failed(cpu, bus, CpuError::InvalidOperand(self)),
        }
    }

    /// A store of `val` to where the operand designates.
    pub open spec fn store(self, cpu: W65C02S, bus: BusView, val: u8) -> Outcome<()> {
        match self {
            Operand::Address(a) => stored(cpu, bus, a, val),
            Operand::Accumulator => done(cpu.with_a(val), bus, ()),
            _ => failed(cpu, bus, CpuError::InvalidOperand(self)),
        }
    }

    pub fn read<B: Bus>(self, cpu: &W65C02S, bus: &mut B) -> (res: Result<u8, CpuError>)
        requires
            old(bus).inv(),
        ensures
            final(bus).inv(),
            outcome(*cpu, final(bus)@, res) == self.load(*cpu, old(bus)@),
    {
        match self {
            Operand::Value(v) => Ok(v),
            Operand::Address(a) => bus_result(bus.read(a)),
            Operand::Accumulator => Ok(cpu.a_register),
            Operand::ZpAddrRelative(a, _) => bus_result(bus.read(a as u16)),
            _ => Err(CpuError::InvalidOperand(self)),
        }
    }

    pub fn write<B: Bus>(self, cpu: &mut W65C02S, bus: &mut B, val: u8) -> (res: Result<
        (),
        CpuError,
    >)
        requires
            old(bus).inv(),
        ensures
            final(bus).inv(),
            outcome(*final(cpu), final(bus)@, res) == self.store(*old(cpu), old(bus)@, val),
    {
        match self {
            Operand::Address(a) => bus_result(bus.write(a, val)),
            Operand::Accumulator => {
                cpu.a_register = val;
                Ok(())
            },
            _ => Err(CpuError::InvalidOperand(self)),
        }
    }
}

/// An operand that involved no indexing.
pub open spec fn plain(operand: Operand) -> ResolvedOperand {
    ResolvedOperand { operand, page_crossed: false }
}

/// The address `base + index`, wrapping within 16 bits, flagged where the sum
/// lies in another page than `base`.
pub open spec fn indexed(base: u16, index: u8) -> ResolvedOperand {
    let address = advance(base, index as int);
    ResolvedOperand { operand: Operand::Address(address), page_crossed: pages_differ(base, address) }
}

/// Whether two addresses lie in different pages.
#[inline]
pub fn crosses_pages(a: u16, b: u16) -> (crossed: bool)
    ensures
        crossed == pages_differ(a, b),
{
    assert(((a & 0xff00) != (b & 0xff00)) == (a / 256 != b / 256)) by (bit_vector);
    (a & 0xff00) != (b & 0xff00)
}

/// `a`: the address is the word behind the opcode.
pub open spec fn absolute(cpu: W65C02S, bus: BusView) -> Outcome<ResolvedOperand> {
    cpu.fetch_u16_spec(bus).and_then(
        |cpu: W65C02S, bus: BusView, base: u16| done(cpu, bus, plain(Operand::Address(base))),
    )
}

/// `a,x` and `a,y`: the word behind the opcode plus `index`.
pub open spec fn absolute_indexed(cpu: W65C02S, bus: BusView, index: u8) -> Outcome<
    ResolvedOperand,
> {
    cpu.fetch_u16_spec(bus).and_then(
        |cpu: W65C02S, bus: BusView, base: u16| done(cpu, bus, indexed(base, index)),
    )
}

/// `(a)` and `(a,x)`: the address is the word stored at the word behind the
/// opcode plus `index`.
pub open spec fn absolute_indirect(cpu: W65C02S, bus: BusView, index: u8) -> Outcome<
    ResolvedOperand,
> {
    cpu.fetch_u16_spec(bus).and_then(
        |cpu: W65C02S, bus: BusView, base: u16|
            asked(cpu, bus, bus.read_word(advance(base, index as int))).and_then(
                |cpu: W65C02S, bus: BusView, target: u16|
                    done(cpu, bus, plain(Operand::Address(target))),
            ),
    )
}

/// `#`: the operand is the byte behind the opcode.
pub open spec fn immediate(cpu: W65C02S, bus: BusView) -> Outcome<ResolvedOperand> {
    cpu.fetch_u8_spec(bus).and_then(
        |cpu: W65C02S, bus: BusView, val: u8| done(cpu, bus, plain(Operand::Value(val))),
    )
}

/// `r`: the byte behind the opcode is a signed offset.
pub open spec fn relative(cpu: W65C02S, bus: BusView) -> Outcome<ResolvedOperand> {
    cpu.fetch_u8_spec(bus).and_then(
        |cpu: W65C02S, bus: BusView, val: u8|
            done(cpu, bus, plain(Operand::Relative(signed(val) as i8))),
    )
}

/// `zp`, `zp,x` and `zp,y`: the byte behind the opcode plus `index`, wrapping
/// within the zero page.
pub open spec fn zero_page(cpu: W65C02S, bus: BusView, index: u8) -> Outcome<ResolvedOperand> {
    cpu.fetch_u8_spec(bus).and_then(
        |cpu: W65C02S, bus: BusView, zp: u8|
            done(cpu, bus, plain(Operand::Address(wrap_byte(zp, index as int) as u16))),
    )
}

/// `(zp)` and `(zp,x)`: the address is the word stored in the zero page at the
/// byte behind the opcode plus `index`.
pub open spec fn zero_page_indirect(cpu: W65C02S, bus: BusView, index: u8) -> Outcome<
    ResolvedOperand,
> {
    cpu.fetch_u8_spec(bus).and_then(
        |cpu: W65C02S, bus: BusView, zp: u8|
            asked(cpu, bus, bus.read_zero_page_word(wrap_byte(zp, index as int))).and_then(
                |cpu: W65C02S, bus: BusView, target: u16|
                    done(cpu, bus, plain(Operand::Address(target))),
            ),
    )
}

/// `(zp),y`: the word stored in the zero page at the byte behind the opcode,
/// plus `index`.
pub open spec fn zero_page_indirect_indexed(cpu: W65C02S, bus: BusView, index: u8) -> Outcome<
    ResolvedOperand,
> {
    cpu.fetch_u8_spec(bus).and_then(
        |cpu: W65C02S, bus: BusView, zp: u8|
            asked(cpu, bus, bus.read_zero_page_word(zp)).and_then(
                |cpu: W65C02S, bus: BusView, base: u16| done(cpu, bus, indexed(base, index)),
            ),
    )
}

/// `zp,r`: a zero-page address, then a signed offset.
pub open spec fn zero_page_relative(cpu: W65C02S, bus: BusView) -> Outcome<ResolvedOperand> {
    cpu.fetch_u8_spec(bus).and_then(
        |cpu: W65C02S, bus: BusView, zp: u8|
            cpu.fetch_u8_spec(bus).and_then(
                |cpu: W65C02S, bus: BusView, rel: u8|
                    done(cpu, bus, plain(Operand::ZpAddrRelative(zp, signed(rel) as i8))),
            ),
    )
}

/// The operand that `mode` resolves to, fetching the operand bytes at the
/// program counter.
#[verifier::opaque]
pub open spec fn resolve(cpu: W65C02S, bus: BusView, mode: AddressingMode) -> Outcome<
    ResolvedOperand,
> {
    match mode {
        AddressingMode::Absolute => absolute(cpu, bus),
        AddressingMode::AbsoluteIndexedIndirect => absolute_indirect(cpu, bus, cpu.x_register),
        AddressingMode::AbsoluteIndexedX => absolute_indexed(cpu, bus, cpu.x_register),
        AddressingMode::AbsoluteIndexedY => absolute_indexed(cpu, bus, cpu.y_register),
        AddressingMode::AbsoluteIndirect => absolute_indirect(cpu, bus, 0),
        AddressingMode::Accumulator => done(cpu, bus, plain(Operand::Accumulator)),
        AddressingMode::Immediate => immediate(cpu, bus),
        AddressingMode::Implied => done(cpu, bus, plain(Operand::Implied)),
        AddressingMode::ProgramCounterRelative => relative(cpu, bus),
        AddressingMode::Stack => done(cpu, bus, plain(Operand::Implied)),
        AddressingMode::ZeroPage => zero_page(cpu, bus, 0),
        AddressingMode::ZeroPageIndexedIndirect => zero_page_indirect(cpu, bus, cpu.x_register),
        AddressingMode::ZeroPageIndexedX => zero_page(cpu, bus, cpu.x_register),
        AddressingMode::ZeroPageIndexedY => zero_page(cpu, bus, cpu.y_register),
        AddressingMode::ZeroPageIndirect => zero_page_indirect(cpu, bus, 0),
        AddressingMode::ZeroPageIndirectIndexedY => zero_page_indirect_indexed(
            cpu,
            bus,
            cpu.y_register,
        ),
        AddressingMode::ZeroPageRelative => zero_page_relative(cpu, bus),
    }
}

fn resolve_absolute<B: Bus>(cpu: &mut W65C02S, bus: &mut B) -> (res: Result<
    ResolvedOperand,
    CpuError,
>)
    requires
        old(bus).inv(),
    ensures
        final(bus).inv(),
        outcome(*final(cpu), final(bus)@, res) == absolute(*old(cpu), old(bus)@),
{
    let val = cpu.fetch_u16(bus)?;
    Ok(ResolvedOperand { operand: Operand::Address(val), page_crossed: false })
}

fn resolve_absolute_indexed<B: Bus>(cpu: &mut W65C02S, bus: &mut B, index: u8) -> (res: Result<
    ResolvedOperand,
    CpuError,
>)
    requires
        old(bus).inv(),
    ensures
        final(bus).inv(),
        outcome(*final(cpu), final(bus)@, res) == absolute_indexed(*old(cpu), old(bus)@, index),
{
    let base = cpu.fetch_u16(bus)?;
    let addr = base.wrapping_add(index as u16);
    Ok(ResolvedOperand { operand: Operand::Address(addr), page_crossed: crosses_pages(base, addr) })
}

fn resolve_absolute_indirect<B: Bus>(cpu: &mut W65C02S, bus: &mut B, index: u8) -> (res: Result<
    ResolvedOperand,
    CpuError,
>)
    requires
        old(bus).inv(),
    ensures
        final(bus).inv(),
        outcome(*final(cpu), final(bus)@, res) == absolute_indirect(*old(cpu), old(bus)@, index),
{
    let base = cpu.fetch_u16(bus)?;
    let addr = base.wrapping_add(index as u16);
    let target = bus_result(read_u16(bus, addr))?;
    Ok(ResolvedOperand { operand: Operand::Address(target), page_crossed: false })
}

fn resolve_immediate<B: Bus>(cpu: &mut W65C02S, bus: &mut B) -> (res: Result<
    ResolvedOperand,
    CpuError,
>)
    requires
        old(bus).inv(),
    ensures
        final(bus).inv(),
        outcome(*final(cpu), final(bus)@, res) == immediate(*old(cpu), old(bus)@),
{
    let val = cpu.fetch_u8(bus)?;
    Ok(ResolvedOperand { operand: Operand::Value(val), page_crossed: false })
}

fn resolve_relative<B: Bus>(cpu: &mut W65C02S, bus: &mut B) -> (res: Result<
    ResolvedOperand,
    CpuError,
>)
    requires
        old(bus).inv(),
    ensures
        final(bus).inv(),
        outcome(*final(cpu), final(bus)@, res) == relative(*old(cpu), old(bus)@),
{
    let offset = to_signed(cpu.fetch_u8(bus)?);
    Ok(ResolvedOperand { operand: Operand::Relative(offset), page_crossed: false })
}

fn resolve_zero_page<B: Bus>(cpu: &mut W65C02S, bus: &mut B, index: u8) -> (res: Result<
    ResolvedOperand,
    CpuError,
>)
    requires
        old(bus).inv(),
    ensures
        final(bus).inv(),
        outcome(*final(cpu), final(bus)@, res) == zero_page(*old(cpu), old(bus)@, index),
{
    let zp_addr = cpu.fetch_u8(bus)?.wrapping_add(index);
    Ok(ResolvedOperand { operand: Operand::Address(zp_addr as u16), page_crossed: false })
}

fn resolve_zero_page_indirect<B: Bus>(cpu: &mut W65C02S, bus: &mut B, index: u8) -> (res: Result<
    ResolvedOperand,
    CpuError,
>)
    requires
        old(bus).inv(),
    ensures
        final(bus).inv(),
        outcome(*final(cpu), final(bus)@, res) == zero_page_indirect(*old(cpu), old(bus)@, index),
{
    let zp_addr = cpu.fetch_u8(bus)?.wrapping_add(index);
    let target = bus_result(read_zero_page_u16(bus, zp_addr))?;
    Ok(ResolvedOperand { operand: Operand::Address(target), page_crossed: false })
}

fn resolve_zero_page_indirect_indexed<B: Bus>(cpu: &mut W65C02S, bus: &mut B, index: u8) -> (res:
    Result<ResolvedOperand, CpuError>)
    requires
        old(bus).inv(),
    ensures
        final(bus).inv(),
        outcome(*final(cpu), final(bus)@, res) == zero_page_indirect_indexed(
            *old(cpu),
            old(bus)@,
            index,
        ),
{
    let zp_addr = cpu.fetch_u8(bus)?;
    let base = bus_result(read_zero_page_u16(bus, zp_addr))?;
    let target = base.wrapping_add(index as u16);
    Ok(
        ResolvedOperand {
            operand: Operand::Address(target),
            page_crossed: crosses_pages(base, target),
        },
    )
}

fn resolve_zero_page_relative<B: Bus>(cpu: &mut W65C02S, bus: &mut B) -> (res: Result<
    ResolvedOperand,
    CpuError,
>)
    requires
        old(bus).inv(),
    ensures
        final(bus).inv(),
        outcome(*final(cpu), final(bus)@, res) == zero_page_relative(*old(cpu), old(bus)@),
{
    let zp_addr = cpu.fetch_u8(bus)?;
    let rel = to_signed(cpu.fetch_u8(bus)?);
    Ok(ResolvedOperand { operand: Operand::ZpAddrRelative(zp_addr, rel), page_crossed: false })
}

/// Resolves the operand of the instruction whose opcode was just fetched.
pub fn resolve_operand<B: Bus>(cpu: &mut W65C02S, bus: &mut B, mode: &AddressingMode) -> (res:
    Result<ResolvedOperand, CpuError>)
    requires
        old(bus).inv(),
    ensures
        final(bus).inv(),
        outcome(*final(cpu), final(bus)@, res) == resolve(*old(cpu), old(bus)@, *mode),
{
    proof {
        reveal(resolve);
    }
    match mode {
        AddressingMode::Absolute => resolve_absolute(cpu, bus),
        AddressingMode::AbsoluteIndexedIndirect => {
            let x = cpu.x_register;
            resolve_absolute_indirect(cpu, bus, x)
        },
        AddressingMode::AbsoluteIndexedX => {
            let x = cpu.x_register;
            resolve_absolute_indexed(cpu, bus, x)
        },
        AddressingMode::AbsoluteIndexedY => {
            let y = cpu.y_register;
            resolve_absolute_indexed(cpu, bus, y)
        },
        AddressingMode::AbsoluteIndirect => resolve_absolute_indirect(cpu, bus, 0),
        AddressingMode::Accumulator => {
            Ok(ResolvedOperand { operand: Operand::Accumulator, page_crossed: false })
        },
        AddressingMode::Immediate => resolve_immediate(cpu, bus),
        AddressingMode::Implied => {
            Ok(ResolvedOperand { operand: Operand::Implied, page_crossed: false })
        },
        AddressingMode::ProgramCounterRelative => resolve_relative(cpu, bus),
        AddressingMode::Stack => {
            Ok(ResolvedOperand { operand: Operand::Implied, page_crossed: false })
        },
        AddressingMode::ZeroPage => resolve_zero_page(cpu, bus, 0),
        AddressingMode::ZeroPageIndexedIndirect => {
            let x = cpu.x_register;
            resolve_zero_page_indirect(cpu, bus, x)
        },
        AddressingMode::ZeroPageIndexedX => {
            let x = cpu.x_register;
            resolve_zero_page(cpu, bus, x)
        },
        AddressingMode::ZeroPageIndexedY => {
            let y = cpu.y_register;
            resolve_zero_page(cpu, bus, y)
        },
        AddressingMode::ZeroPageIndirect => resolve_zero_page_indirect(cpu, bus, 0),
        AddressingMode::ZeroPageIndirectIndexedY => {
            let y = cpu.y_register;
            resolve_zero_page_indirect_indexed(cpu, bus, y)
        },
        AddressingMode::ZeroPageRelative => resolve_zero_page_relative(cpu, bus),
    }
}

} // verus!
