//! Reset and the fetch-decode-execute step.
use crate::bus::{Bus, BusView};
use crate::cpu::decode::{decode, operation, AddressingMode, Mnemomic};
use crate::cpu::instructions::{execute, instruction};
use crate::cpu::operand::{
    asked, bus_result, done, failed, outcome, read_u16, resolve, resolve_operand, CpuError,
    Operand, Outcome, ResolvedOperand,
};
use crate::cpu::registers::W65C02S;
use crate::cpu::word::{advance, lemma_advance_twice};
use vstd::prelude::*;

verus! {

impl AddressingMode {
    /// Whether `operand` is of the kind that the mode resolves to.
    pub open spec fn yields(self, operand: Operand) -> bool {
        match self {
            AddressingMode::Accumulator => operand is Accumulator,
            AddressingMode::Immediate => operand is Value,
            AddressingMode::Implied | AddressingMode::Stack => operand is Implied,
            AddressingMode::ProgramCounterRelative => operand is Relative,
            AddressingMode::ZeroPageRelative => operand is ZpAddrRelative,
            _ => operand is Address,
        }
    }
}

/// A fetch that succeeds yields the byte at the program counter and moves the
/// program counter on by one; nothing else changes.
pub proof fn lemma_fetch_u8(cpu: W65C02S, bus: BusView)
    ensures
        cpu.fetch_u8_spec(bus).bus == bus,
        cpu.fetch_u8_spec(bus).result is Ok <==> bus.mapped(cpu.program_counter),
        cpu.fetch_u8_spec(bus).result is Err ==> cpu.fetch_u8_spec(bus).cpu == cpu,
        cpu.fetch_u8_spec(bus).result is Ok ==> cpu.fetch_u8_spec(bus) == done(
            cpu.with_pc(advance(cpu.program_counter, 1)),
            bus,
            bus.cells[cpu.program_counter],
        ),
{
}

/// A fetch of a word that succeeds moves the program counter on by two;
/// nothing else changes.
pub proof fn lemma_fetch_u16(cpu: W65C02S, bus: BusView)
    ensures
        cpu.fetch_u16_spec(bus).bus == bus,
        cpu.fetch_u16_spec(bus).cpu == cpu.with_pc(cpu.fetch_u16_spec(bus).cpu.program_counter),
        cpu.fetch_u16_spec(bus).result is Ok ==> cpu.fetch_u16_spec(bus).cpu == cpu.with_pc(
            advance(cpu.program_counter, 2),
        ),
{
    lemma_fetch_u8(cpu, bus);
    lemma_fetch_u8(cpu.with_pc(advance(cpu.program_counter, 1)), bus);
    lemma_advance_twice(cpu.program_counter, 1, 1);
}

/// Every addressing mode resolves to an operand of its own kind. Resolving
/// changes nothing but the program counter, which moves on by the operand
/// bytes of the mode.
pub proof fn lemma_resolve_yields(cpu: W65C02S, bus: BusView, mode: AddressingMode)
    ensures
        resolve(cpu, bus, mode).result matches Ok(r) ==> mode.yields(r.operand),
        resolve(cpu, bus, mode).bus == bus,
        resolve(cpu, bus, mode).cpu == cpu.with_pc(resolve(cpu, bus, mode).cpu.program_counter),
        resolve(cpu, bus, mode).result is Ok ==> resolve(cpu, bus, mode).cpu == cpu.with_pc(
            advance(cpu.program_counter, mode.operand_bytes() as int),
        ),
{
    reveal(resolve);
    lemma_fetch_u8(cpu, bus);
    lemma_fetch_u16(cpu, bus);
    lemma_advance_twice(cpu.program_counter, 0, 0);
    match mode {
        AddressingMode::ZeroPageRelative => {
            lemma_fetch_u8(cpu.with_pc(advance(cpu.program_counter, 1)), bus);
            lemma_advance_twice(cpu.program_counter, 1, 1);
        },
        _ => {},
    }
}

/// A step that succeeds is a fetch of the opcode at the program counter, the
/// lookup of its operation, the resolution of its operand and the
/// instruction itself, each of which succeeded.
pub proof fn lemma_step_executed(cpu: W65C02S, bus: BusView)
    requires
        cpu.step_spec(bus).result is Ok,
    ensures
        ({
            let opcode = bus.cells[cpu.program_counter];
            let op = decode(opcode)->Some_0;
            let resolved = resolve(
                cpu.with_pc(advance(cpu.program_counter, 1)),
                bus,
                op.addressing_mode,
            );
            let operand = resolved.result->Ok_0.operand;
            let performed = instruction(op.mnemomic, resolved.cpu, bus, operand);
            &&& bus.mapped(cpu.program_counter)
            &&& decode(opcode) is Some
            &&& resolved.result is Ok
            &&& resolved.cpu == cpu.with_pc(
                advance(cpu.program_counter, 1 + op.addressing_mode.operand_bytes()),
            )
            &&& op.addressing_mode.yields(operand)
            &&& performed.result is Ok
            &&& cpu.step_spec(bus) == done(performed.cpu, performed.bus, op.mnemomic)
        }),
{
    reveal(W65C02S::step_spec);
    let opcode = bus.cells[cpu.program_counter];
    let op = decode(opcode)->Some_0;
    lemma_fetch_u8(cpu, bus);
    lemma_resolve_yields(cpu.with_pc(advance(cpu.program_counter, 1)), bus, op.addressing_mode);
    lemma_advance_twice(cpu.program_counter, 1, op.addressing_mode.operand_bytes() as int);
}

/// Every bit index in the operations table is one of `0..=7`.
#[verifier::rlimit(50)]
pub proof fn lemma_table_well_formed(opcode: u8)
    ensures
        decode(opcode) matches Some(op) ==> op.mnemomic.well_formed(),
{
}

impl W65C02S {
    /// A reset: the program counter is loaded from the reset vector and `P`
    /// takes its default value. The other registers are left as they are.
    pub open spec fn reset_spec(self, bus: BusView) -> Outcome<()> {
        asked(self, bus, bus.read_word(Self::RESB_LOW)).and_then(
            |cpu: W65C02S, bus: BusView, entry: u16|
                done(cpu.with_p(Self::P_DEFAULT).with_pc(entry), bus, ()),
        )
    }

    /// One instruction: the opcode at the program counter is fetched and
    /// looked up, its operand resolved, and the instruction performed. The
    /// value of the step is the mnemonic that was executed.
    #[verifier::opaque]
    pub open spec fn step_spec(self, bus: BusView) -> Outcome<Mnemomic> {
        self.fetch_u8_spec(bus).and_then(
            |cpu: W65C02S, bus: BusView, opcode: u8|
                match decode(opcode) {
                    None => failed(cpu, bus, CpuError::InvalidOpcode(opcode)),
                    Some(op) => resolve(cpu, bus, op.addressing_mode).and_then(
                        |cpu: W65C02S, bus: BusView, r: ResolvedOperand|
                            instruction(op.mnemomic, cpu, bus, r.operand).and_then(
                                |cpu: W65C02S, bus: BusView, unit: ()| done(cpu, bus, op.mnemomic),
                            ),
                    ),
                },
        )
    }

    /// Resets the processor. Where the bus refuses to give the reset vector,
    /// the processor is left as it was.
    pub fn reset<B: Bus>(&mut self, bus: &mut B) -> (res: Result<(), CpuError>)
        requires
            old(bus).inv(),
        ensures
            final(bus).inv(),
            outcome(*final(self), final(bus)@, res) == old(self).reset_spec(old(bus)@),
    {
        let entry = bus_result(read_u16(bus, Self::RESB_LOW))?;
        self.set_p_default();
        self.program_counter = entry;
        Ok(())
    }

    /// Executes the instruction at the program counter and returns its
    /// mnemonic.
    pub fn step<B: Bus>(&mut self, bus: &mut B) -> (res: Result<Mnemomic, CpuError>)
        requires
            old(bus).inv(),
        ensures
            final(bus).inv(),
            outcome(*final(self), final(bus)@, res) == old(self).step_spec(old(bus)@),
    {
        proof {
            reveal(W65C02S::step_spec);
        }
        let opcode = self.fetch_u8(bus)?;
        let operation = match operation(opcode) {
            Some(op) => op,
            None => {
                return Err(CpuError::InvalidOpcode(opcode));
            },
        };

        let operand = resolve_operand(self, bus, &operation.addressing_mode)?;
        proof {
            lemma_table_well_formed(opcode);
        }
        execute(self, bus, operation.mnemomic, operand)?;

        Ok(operation.mnemomic)
    }
}

} // verus!
