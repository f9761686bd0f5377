//! The instructions: what each mnemonic does to the registers and the bus,
//! and the code that does it.
//!
//! Every instruction has a meaning: a function from the state before and the
//! resolved operand to an [`Outcome`], named after its mnemonic (`adc_spec`,
//! `and_spec`, ...). Each `op_*` function is proved to do exactly what the
//! meaning of its instruction says. [`instruction`] gathers the meanings by
//! mnemonic, and [`execute`] performs the instruction of a mnemonic.
//!
//! The meanings are opaque to the prover: a proof that needs one reveals it.
use crate::bus::{Bus, BusView};
use crate::cpu::decode::Mnemomic;
use crate::cpu::operand::{
    asked, bus_result, done, failed, outcome, read_u16, CpuError, Operand, Outcome,
    ResolvedOperand,
};
use crate::cpu::registers::{Status, W65C02S};
use crate::cpu::word::{
    advance, high_byte, lemma_add_overflow_bits, lemma_rotate_in, lemma_shifts,
    lemma_sub_overflow_bits, low8, low_byte, make_word, split_word, word, wrap_byte,
};
use vstd::prelude::*;

verus! {

// ---- the shapes that instructions come in ----

/// An instruction that reads its operand and changes registers by `effect`.
pub open spec fn reads(
    cpu: W65C02S,
    bus: BusView,
    operand: Operand,
    effect: spec_fn(W65C02S, u8) -> W65C02S,
) -> Outcome<()> {
    operand.load(cpu, bus).and_then(
        |cpu: W65C02S, bus: BusView, m: u8| done(effect(cpu, m), bus, ()),
    )
}

/// An instruction that reads its operand, changes registers and writes a byte
/// back to the operand, both given by `effect`.
pub open spec fn modifies(
    cpu: W65C02S,
    bus: BusView,
    operand: Operand,
    effect: spec_fn(W65C02S, u8) -> (W65C02S, u8),
) -> Outcome<()> {
    operand.load(cpu, bus).and_then(
        |cpu: W65C02S, bus: BusView, m: u8| operand.store(effect(cpu, m).0, bus, effect(cpu, m).1),
    )
}

/// An instruction that pulls a byte from the stack and changes registers by
/// `effect`.
pub open spec fn pulls(cpu: W65C02S, bus: BusView, effect: spec_fn(W65C02S, u8) -> W65C02S) -> Outcome<
    (),
> {
    cpu.pull_spec(bus).and_then(|cpu: W65C02S, bus: BusView, v: u8| done(effect(cpu, v), bus, ()))
}

/// A conditional branch.
pub open spec fn branches(cpu: W65C02S, bus: BusView, operand: Operand, taken: bool) -> Outcome<
    (),
> {
    match operand {
        Operand::Relative(offset) => done(cpu.branch(taken, offset), bus, ()),
        _ => failed(cpu, bus, CpuError::InvalidOperand(operand)),
    }
}

/// A branch on bit `n` of a zero-page byte: taken where the bit is set, if
/// `on_set`, and where it is clear, if not.
pub open spec fn branches_on_bit(
    cpu: W65C02S,
    bus: BusView,
    operand: Operand,
    n: u8,
    on_set: bool,
) -> Outcome<()> {
    match operand {
        Operand::ZpAddrRelative(address, offset) => asked(
            cpu,
            bus,
            bus.read(address as u16),
        ).and_then(
            |cpu: W65C02S, bus: BusView, val: u8|
                done(cpu.branch((val & (1u8 << n) != 0) == on_set, offset), bus, ()),
        ),
        _ => failed(cpu, bus, CpuError::InvalidOperand(operand)),
    }
}

/// The value that `PLP` and `RTI` give to `P` from the byte they pull: the
/// reserved bit 5 is forced to one and the break bit 4 to zero.
pub open spec fn pulled_status(pulled: u8) -> u8 {
    (pulled | 0x20) & !0x10u8
}

// ---- the instructions, one by one ----

/// `ADC`: add memory to accumulator with carry.
#[verifier::opaque]
pub open spec fn adc_spec(cpu: W65C02S, bus: BusView, operand: Operand) -> Outcome<()> {
    reads(cpu, bus, operand, |c: W65C02S, m: u8| c.adc(m))
}

/// `AND`: AND memory with accumulator.
#[verifier::opaque]
pub open spec fn and_spec(cpu: W65C02S, bus: BusView, operand: Operand) -> Outcome<()> {
    reads(cpu, bus, operand, |c: W65C02S, m: u8| c.load_a(c.a_register & m))
}

/// `ASL`: arithmetic shift left one bit.
#[verifier::opaque]
pub open spec fn asl_spec(cpu: W65C02S, bus: BusView, operand: Operand) -> Outcome<()> {
    modifies(cpu, bus, operand, |c: W65C02S, m: u8| c.asl(m))
}

/// `BBRn`: branch on bit `n` reset.
#[verifier::opaque]
pub open spec fn bbrn_spec(cpu: W65C02S, bus: BusView, operand: Operand, n: u8) -> Outcome<()> {
    branches_on_bit(cpu, bus, operand, n, false)
}

/// `BBSn`: branch on bit `n` set.
#[verifier::opaque]
pub open spec fn bbsn_spec(cpu: W65C02S, bus: BusView, operand: Operand, n: u8) -> Outcome<()> {
    branches_on_bit(cpu, bus, operand, n, true)
}

/// `BCC`: branch on carry clear.
#[verifier::opaque]
pub open spec fn bcc_spec(cpu: W65C02S, bus: BusView, operand: Operand) -> Outcome<()> {
    branches(cpu, bus, operand, !cpu.flag(Status::C))
}

/// `BCS`: branch on carry set.
#[verifier::opaque]
pub open spec fn bcs_spec(cpu: W65C02S, bus: BusView, operand: Operand) -> Outcome<()> {
    branches(cpu, bus, operand, cpu.flag(Status::C))
}

/// `BEQ`: branch if equal (`Z` set).
#[verifier::opaque]
pub open spec fn beq_spec(cpu: W65C02S, bus: BusView, operand: Operand) -> Outcome<()> {
    branches(cpu, bus, operand, cpu.flag(Status::Z))
}

/// `BIT`: test bits of memory against the accumulator.
#[verifier::opaque]
pub open spec fn bit_spec(cpu: W65C02S, bus: BusView, operand: Operand) -> Outcome<()> {
    reads(
        cpu,
        bus,
        operand,
        |c: W65C02S, m: u8| c.bit_test(m, operand is Value),
    )
}

/// `BMI`: branch if minus (`N` set).
#[verifier::opaque]
pub open spec fn bmi_spec(cpu: W65C02S, bus: BusView, operand: Operand) -> Outcome<()> {
    branches(cpu, bus, operand, cpu.flag(Status::N))
}

/// `BNE`: branch if not equal (`Z` clear).
#[verifier::opaque]
pub open spec fn bne_spec(cpu: W65C02S, bus: BusView, operand: Operand) -> Outcome<()> {
    branches(cpu, bus, operand, !cpu.flag(Status::Z))
}

/// `BPL`: branch if plus (`N` clear).
#[verifier::opaque]
pub open spec fn bpl_spec(cpu: W65C02S, bus: BusView, operand: Operand) -> Outcome<()> {
    branches(cpu, bus, operand, !cpu.flag(Status::N))
}

/// `BRA`: branch always.
#[verifier::opaque]
pub open spec fn bra_spec(cpu: W65C02S, bus: BusView, operand: Operand) -> Outcome<()> {
    branches(cpu, bus, operand, true)
}

/// `BRK`: the address two bytes behind the opcode is pushed, high byte first,
/// then `P` with the break bit set; `I` is set and execution goes on at the
/// address that the IRQ vector holds.
#[verifier::opaque]
pub open spec fn brk_spec(cpu: W65C02S, bus: BusView, operand: Operand) -> Outcome<()> {
    let back = advance(cpu.program_counter, 1);
    cpu.push_spec(bus, high_byte(back)).and_then(
        |cpu: W65C02S, bus: BusView, unit: ()|
            cpu.push_spec(bus, low_byte(back)).and_then(
                |cpu: W65C02S, bus: BusView, unit: ()|
                    cpu.push_spec(bus, cpu.processor_status_register | 0x10).and_then(
                        |cpu: W65C02S, bus: BusView, unit: ()|
                            asked(
                                cpu.with_flag(Status::I, true),
                                bus,
                                bus.read_word(W65C02S::IRQB_LOW),
                            ).and_then(
                                |cpu: W65C02S, bus: BusView, target: u16|
                                    done(cpu.with_pc(target), bus, ()),
                            ),
                    ),
            ),
    )
}

/// `BVC`: branch on overflow clear.
#[verifier::opaque]
pub open spec fn bvc_spec(cpu: W65C02S, bus: BusView, operand: Operand) -> Outcome<()> {
    branches(cpu, bus, operand, !cpu.flag(Status::V))
}

/// `BVS`: branch on overflow set.
#[verifier::opaque]
pub open spec fn bvs_spec(cpu: W65C02S, bus: BusView, operand: Operand) -> Outcome<()> {
    branches(cpu, bus, operand, cpu.flag(Status::V))
}

/// `CLC`: clear the carry flag.
#[verifier::opaque]
pub open spec fn clc_spec(cpu: W65C02S, bus: BusView, operand: Operand) -> Outcome<()> {
    done(cpu.with_flag(Status::C, false), bus, ())
}

/// `CLD`: clear the decimal flag.
#[verifier::opaque]
pub open spec fn cld_spec(cpu: W65C02S, bus: BusView, operand: Operand) -> Outcome<()> {
    done(cpu.with_flag(Status::D, false), bus, ())
}

/// `CLI`: clear the interrupt disable flag.
#[verifier::opaque]
pub open spec fn cli_spec(cpu: W65C02S, bus: BusView, operand: Operand) -> Outcome<()> {
    done(cpu.with_flag(Status::I, false), bus, ())
}

/// `CLV`: clear the overflow flag.
#[verifier::opaque]
pub open spec fn clv_spec(cpu: W65C02S, bus: BusView, operand: Operand) -> Outcome<()> {
    done(cpu.with_flag(Status::V, false), bus, ())
}

/// `CMP`: compare memory with the accumulator.
#[verifier::opaque]
pub open spec fn cmp_spec(cpu: W65C02S, bus: BusView, operand: Operand) -> Outcome<()> {
    reads(
        cpu,
        bus,
        operand,
        |c: W65C02S, m: u8| c.compare(c.a_register, m),
    )
}

/// `CPX`: compare memory with `X`.
#[verifier::opaque]
pub open spec fn cpx_spec(cpu: W65C02S, bus: BusView, operand: Operand) -> Outcome<()> {
    reads(
        cpu,
        bus,
        operand,
        |c: W65C02S, m: u8| c.compare(c.x_register, m),
    )
}

/// `CPY`: compare memory with `Y`.
#[verifier::opaque]
pub open spec fn cpy_spec(cpu: W65C02S, bus: BusView, operand: Operand) -> Outcome<()> {
    reads(
        cpu,
        bus,
        operand,
        |c: W65C02S, m: u8| c.compare(c.y_register, m),
    )
}

/// `DEC`: decrement memory or the accumulator by one.
#[verifier::opaque]
pub open spec fn dec_spec(cpu: W65C02S, bus: BusView, operand: Operand) -> Outcome<()> {
    modifies(cpu, bus, operand, |c: W65C02S, m: u8| c.dec(m))
}

/// `DEX`: decrement `X` by one.
#[verifier::opaque]
pub open spec fn dex_spec(cpu: W65C02S, bus: BusView, operand: Operand) -> Outcome<()> {
    done(cpu.load_x(wrap_byte(cpu.x_register, -1)), bus, ())
}

/// `DEY`: decrement `Y` by one.
#[verifier::opaque]
pub open spec fn dey_spec(cpu: W65C02S, bus: BusView, operand: Operand) -> Outcome<()> {
    done(cpu.load_y(wrap_byte(cpu.y_register, -1)), bus, ())
}

/// `EOR`: exclusive OR memory with accumulator.
#[verifier::opaque]
pub open spec fn eor_spec(cpu: W65C02S, bus: BusView, operand: Operand) -> Outcome<()> {
    reads(cpu, bus, operand, |c: W65C02S, m: u8| c.load_a(c.a_register ^ m))
}

/// `INC`: increment memory or the accumulator by one.
#[verifier::opaque]
pub open spec fn inc_spec(cpu: W65C02S, bus: BusView, operand: Operand) -> Outcome<()> {
    modifies(cpu, bus, operand, |c: W65C02S, m: u8| c.inc(m))
}

/// `INX`: increment `X` by one.
#[verifier::opaque]
pub open spec fn inx_spec(cpu: W65C02S, bus: BusView, operand: Operand) -> Outcome<()> {
    done(cpu.load_x(wrap_byte(cpu.x_register, 1)), bus, ())
}

/// `INY`: increment `Y` by one.
#[verifier::opaque]
pub open spec fn iny_spec(cpu: W65C02S, bus: BusView, operand: Operand) -> Outcome<()> {
    done(cpu.load_y(wrap_byte(cpu.y_register, 1)), bus, ())
}

/// `JMP`: the program counter is set to the operand's address.
#[verifier::opaque]
pub open spec fn jmp_spec(cpu: W65C02S, bus: BusView, operand: Operand) -> Outcome<()> {
    match operand {
        Operand::Address(target) => done(cpu.with_pc(target), bus, ()),
        _ => failed(cpu, bus, CpuError::InvalidOperand(operand)),
    }
}

/// `JSR`: the address of the last byte of the instruction is pushed, high
/// byte first, then the program counter is set to the operand's address.
#[verifier::opaque]
pub open spec fn jsr_spec(cpu: W65C02S, bus: BusView, operand: Operand) -> Outcome<()> {
    match operand {
        Operand::Address(target) => {
            let back = advance(cpu.program_counter, -1);
            cpu.push_spec(bus, high_byte(back)).and_then(
                |cpu: W65C02S, bus: BusView, unit: ()|
                    cpu.push_spec(bus, low_byte(back)).and_then(
                        |cpu: W65C02S, bus: BusView, unit: ()| done(cpu.with_pc(target), bus, ()),
                    ),
            )
        },
        _ => failed(cpu, bus, CpuError::InvalidOperand(operand)),
    }
}

/// `LDA`: load the accumulator.
#[verifier::opaque]
pub open spec fn lda_spec(cpu: W65C02S, bus: BusView, operand: Operand) -> Outcome<()> {
    reads(cpu, bus, operand, |c: W65C02S, m: u8| c.load_a(m))
}

/// `LDX`: load `X`.
#[verifier::opaque]
pub open spec fn ldx_spec(cpu: W65C02S, bus: BusView, operand: Operand) -> Outcome<()> {
    reads(cpu, bus, operand, |c: W65C02S, m: u8| c.load_x(m))
}

/// `LDY`: load `Y`.
#[verifier::opaque]
pub open spec fn ldy_spec(cpu: W65C02S, bus: BusView, operand: Operand) -> Outcome<()> {
    reads(cpu, bus, operand, |c: W65C02S, m: u8| c.load_y(m))
}

/// `LSR`: logical shift right one bit.
#[verifier::opaque]
pub open spec fn lsr_spec(cpu: W65C02S, bus: BusView, operand: Operand) -> Outcome<()> {
    modifies(cpu, bus, operand, |c: W65C02S, m: u8| c.lsr(m))
}

/// `NOP`: no operation.
#[verifier::opaque]
pub open spec fn nop_spec(cpu: W65C02S, bus: BusView, operand: Operand) -> Outcome<()> {
    done(cpu, bus, ())
}

/// `ORA`: OR memory with accumulator.
#[verifier::opaque]
pub open spec fn ora_spec(cpu: W65C02S, bus: BusView, operand: Operand) -> Outcome<()> {
    reads(cpu, bus, operand, |c: W65C02S, m: u8| c.load_a(c.a_register | m))
}

/// `PHA`: push the accumulator.
#[verifier::opaque]
pub open spec fn pha_spec(cpu: W65C02S, bus: BusView, operand: Operand) -> Outcome<()> {
    cpu.push_spec(bus, cpu.a_register)
}

/// `PHP`: push the processor status.
#[verifier::opaque]
pub open spec fn php_spec(cpu: W65C02S, bus: BusView, operand: Operand) -> Outcome<()> {
    cpu.push_spec(bus, cpu.processor_status_register | 0x30)
}

/// `PHX`: push `X`.
#[verifier::opaque]
pub open spec fn phx_spec(cpu: W65C02S, bus: BusView, operand: Operand) -> Outcome<()> {
    cpu.push_spec(bus, cpu.x_register)
}

/// `PHY`: push `Y`.
#[verifier::opaque]
pub open spec fn phy_spec(cpu: W65C02S, bus: BusView, operand: Operand) -> Outcome<()> {
    cpu.push_spec(bus, cpu.y_register)
}

/// `PLA`: pull the accumulator.
#[verifier::opaque]
pub open spec fn pla_spec(cpu: W65C02S, bus: BusView, operand: Operand) -> Outcome<()> {
    pulls(cpu, bus, |c: W65C02S, v: u8| c.load_a(v))
}

/// `PLP`: pull the processor status.
#[verifier::opaque]
pub open spec fn plp_spec(cpu: W65C02S, bus: BusView, operand: Operand) -> Outcome<()> {
    pulls(cpu, bus, |c: W65C02S, v: u8| c.with_p(pulled_status(v)))
}

/// `PLX`: pull `X`.
#[verifier::opaque]
pub open spec fn plx_spec(cpu: W65C02S, bus: BusView, operand: Operand) -> Outcome<()> {
    pulls(cpu, bus, |c: W65C02S, v: u8| c.load_x(v))
}

/// `PLY`: pull `Y`.
#[verifier::opaque]
pub open spec fn ply_spec(cpu: W65C02S, bus: BusView, operand: Operand) -> Outcome<()> {
    pulls(cpu, bus, |c: W65C02S, v: u8| c.load_y(v))
}

/// `RMBn`: reset bit `n` of a zero-page byte.
#[verifier::opaque]
pub open spec fn rmbn_spec(cpu: W65C02S, bus: BusView, operand: Operand, n: u8) -> Outcome<()> {
    modifies(
        cpu,
        bus,
        operand,
        |c: W65C02S, m: u8| (c, m & !(1u8 << n)),
    )
}

/// `ROL`: rotate left one bit through carry.
#[verifier::opaque]
pub open spec fn rol_spec(cpu: W65C02S, bus: BusView, operand: Operand) -> Outcome<()> {
    modifies(cpu, bus, operand, |c: W65C02S, m: u8| c.rol(m))
}

/// `ROR`: rotate right one bit through carry.
#[verifier::opaque]
pub open spec fn ror_spec(cpu: W65C02S, bus: BusView, operand: Operand) -> Outcome<()> {
    modifies(cpu, bus, operand, |c: W65C02S, m: u8| c.ror(m))
}

/// `RTI`: `P` is pulled, then an address, low byte first; execution goes on
/// at that address.
#[verifier::opaque]
pub open spec fn rti_spec(cpu: W65C02S, bus: BusView, operand: Operand) -> Outcome<()> {
    cpu.pull_spec(bus).and_then(
        |cpu: W65C02S, bus: BusView, p: u8|
            cpu.pull_spec(bus).and_then(
                |cpu: W65C02S, bus: BusView, lo: u8|
                    cpu.pull_spec(bus).and_then(
                        |cpu: W65C02S, bus: BusView, hi: u8|
                            done(cpu.with_p(pulled_status(p)).with_pc(word(lo, hi)), bus, ()),
                    ),
            ),
    )
}

/// `RTS`: an address is pulled, low byte first; execution goes on behind it.
#[verifier::opaque]
pub open spec fn rts_spec(cpu: W65C02S, bus: BusView, operand: Operand) -> Outcome<()> {
    cpu.pull_spec(bus).and_then(
        |cpu: W65C02S, bus: BusView, lo: u8|
            cpu.pull_spec(bus).and_then(
                |cpu: W65C02S, bus: BusView, hi: u8|
                    done(cpu.with_pc(advance(word(lo, hi), 1)), bus, ()),
            ),
    )
}

/// `SBC`: subtract memory from accumulator with borrow.
#[verifier::opaque]
pub open spec fn sbc_spec(cpu: W65C02S, bus: BusView, operand: Operand) -> Outcome<()> {
    reads(cpu, bus, operand, |c: W65C02S, m: u8| c.sbc(m))
}

/// `SEC`: set the carry flag.
#[verifier::opaque]
pub open spec fn sec_spec(cpu: W65C02S, bus: BusView, operand: Operand) -> Outcome<()> {
    done(cpu.with_flag(Status::C, true), bus, ())
}

/// `SED`: set the decimal flag.
#[verifier::opaque]
pub open spec fn sed_spec(cpu: W65C02S, bus: BusView, operand: Operand) -> Outcome<()> {
    done(cpu.with_flag(Status::D, true), bus, ())
}

/// `SEI`: set the interrupt disable flag.
#[verifier::opaque]
pub open spec fn sei_spec(cpu: W65C02S, bus: BusView, operand: Operand) -> Outcome<()> {
    done(cpu.with_flag(Status::I, true), bus, ())
}

/// `SMBn`: set bit `n` of a zero-page byte.
#[verifier::opaque]
pub open spec fn smbn_spec(cpu: W65C02S, bus: BusView, operand: Operand, n: u8) -> Outcome<()> {
    modifies(
        cpu,
        bus,
        operand,
        |c: W65C02S, m: u8| (c, m | (1u8 << n)),
    )
}

/// `STA`: store the accumulator.
#[verifier::opaque]
pub open spec fn sta_spec(cpu: W65C02S, bus: BusView, operand: Operand) -> Outcome<()> {
    operand.store(cpu, bus, cpu.a_register)
}

/// `STP`: stop the clock. The core does not model it: the instruction
/// stops the processor.
#[verifier::opaque]
pub open spec fn stp_spec(cpu: W65C02S, bus: BusView, operand: Operand) -> Outcome<()> {
    failed(cpu, bus, CpuError::Unimplemented(Mnemomic::STP))
}

/// `STX`: store `X`.
#[verifier::opaque]
pub open spec fn stx_spec(cpu: W65C02S, bus: BusView, operand: Operand) -> Outcome<()> {
    operand.store(cpu, bus, cpu.x_register)
}

/// `STY`: store `Y`.
#[verifier::opaque]
pub open spec fn sty_spec(cpu: W65C02S, bus: BusView, operand: Operand) -> Outcome<()> {
    operand.store(cpu, bus, cpu.y_register)
}

/// `STZ`: store zero.
#[verifier::opaque]
pub open spec fn stz_spec(cpu: W65C02S, bus: BusView, operand: Operand) -> Outcome<()> {
    operand.store(cpu, bus, 0)
}

/// `TAX`: transfer the accumulator to `X`.
#[verifier::opaque]
pub open spec fn tax_spec(cpu: W65C02S, bus: BusView, operand: Operand) -> Outcome<()> {
    done(cpu.load_x(cpu.a_register), bus, ())
}

/// `TAY`: transfer the accumulator to `Y`.
#[verifier::opaque]
pub open spec fn tay_spec(cpu: W65C02S, bus: BusView, operand: Operand) -> Outcome<()> {
    done(cpu.load_y(cpu.a_register), bus, ())
}

/// `TRB`: test and reset bits of memory by the accumulator.
#[verifier::opaque]
pub open spec fn trb_spec(cpu: W65C02S, bus: BusView, operand: Operand) -> Outcome<()> {
    modifies(cpu, bus, operand, |c: W65C02S, m: u8| c.trb(m))
}

/// `TSB`: test and set bits of memory by the accumulator.
#[verifier::opaque]
pub open spec fn tsb_spec(cpu: W65C02S, bus: BusView, operand: Operand) -> Outcome<()> {
    modifies(cpu, bus, operand, |c: W65C02S, m: u8| c.tsb(m))
}

/// `TSX`: transfer the stack pointer to `X`.
#[verifier::opaque]
pub open spec fn tsx_spec(cpu: W65C02S, bus: BusView, operand: Operand) -> Outcome<()> {
    done(cpu.load_x(cpu.stack_pointer), bus, ())
}

/// `TXA`: transfer `X` to the accumulator.
#[verifier::opaque]
pub open spec fn txa_spec(cpu: W65C02S, bus: BusView, operand: Operand) -> Outcome<()> {
    done(cpu.load_a(cpu.x_register), bus, ())
}

/// `TXS`: transfer `X` to the stack pointer.
#[verifier::opaque]
pub open spec fn txs_spec(cpu: W65C02S, bus: BusView, operand: Operand) -> Outcome<()> {
    done(cpu.with_sp(cpu.x_register), bus, ())
}

/// `TYA`: transfer `Y` to the accumulator.
#[verifier::opaque]
pub open spec fn tya_spec(cpu: W65C02S, bus: BusView, operand: Operand) -> Outcome<()> {
    done(cpu.load_a(cpu.y_register), bus, ())
}

/// `WAI`: wait for interrupt. The core does not model it: the instruction
/// stops the processor.
#[verifier::opaque]
pub open spec fn wai_spec(cpu: W65C02S, bus: BusView, operand: Operand) -> Outcome<()> {
    failed(cpu, bus, CpuError::Unimplemented(Mnemomic::WAI))
}

/// What the instruction `mnemomic` does, given its resolved operand.
pub open spec fn instruction(mnemomic: Mnemomic, cpu: W65C02S, bus: BusView, operand: Operand) -> Outcome<
    (),
> {
    match mnemomic {
        Mnemomic::ADC => adc_spec(cpu, bus, operand),
        Mnemomic::AND => and_spec(cpu, bus, operand),
        Mnemomic::ASL => asl_spec(cpu, bus, operand),
        Mnemomic::BBRN(n) => bbrn_spec(cpu, bus, operand, n),
        Mnemomic::BBSN(n) => bbsn_spec(cpu, bus, operand, n),
        Mnemomic::BCC => bcc_spec(cpu, bus, operand),
        Mnemomic::BCS => bcs_spec(cpu, bus, operand),
        Mnemomic::BEQ => beq_spec(cpu, bus, operand),
        Mnemomic::BIT => bit_spec(cpu, bus, operand),
        Mnemomic::BMI => bmi_spec(cpu, bus, operand),
        Mnemomic::BNE => bne_spec(cpu, bus, operand),
        Mnemomic::BPL => bpl_spec(cpu, bus, operand),
        Mnemomic::BRA => bra_spec(cpu, bus, operand),
        Mnemomic::BRK => brk_spec(cpu, bus, operand),
        Mnemomic::BVC => bvc_spec(cpu, bus, operand),
        Mnemomic::BVS => bvs_spec(cpu, bus, operand),
        Mnemomic::CLC => clc_spec(cpu, bus, operand),
        Mnemomic::CLD => cld_spec(cpu, bus, operand),
        Mnemomic::CLI => cli_spec(cpu, bus, operand),
        Mnemomic::CLV => clv_spec(cpu, bus, operand),
        Mnemomic::CMP => cmp_spec(cpu, bus, operand),
        Mnemomic::CPX => cpx_spec(cpu, bus, operand),
        Mnemomic::CPY => cpy_spec(cpu, bus, operand),
        Mnemomic::DEC => dec_spec(cpu, bus, operand),
        Mnemomic::DEX => dex_spec(cpu, bus, operand),
        Mnemomic::DEY => dey_spec(cpu, bus, operand),
        Mnemomic::EOR => eor_spec(cpu, bus, operand),
        Mnemomic::INC => inc_spec(cpu, bus, operand),
        Mnemomic::INX => inx_spec(cpu, bus, operand),
        Mnemomic::INY => iny_spec(cpu, bus, operand),
        Mnemomic::JMP => jmp_spec(cpu, bus, operand),
        Mnemomic::JSR => jsr_spec(cpu, bus, operand),
        Mnemomic::LDA => lda_spec(cpu, bus, operand),
        Mnemomic::LDX => ldx_spec(cpu, bus, operand),
        Mnemomic::LDY => ldy_spec(cpu, bus, operand),
        Mnemomic::LSR => lsr_spec(cpu, bus, operand),
        Mnemomic::NOP => nop_spec(cpu, bus, operand),
        Mnemomic::ORA => ora_spec(cpu, bus, operand),
        Mnemomic::PHA => pha_spec(cpu, bus, operand),
        Mnemomic::PHP => php_spec(cpu, bus, operand),
        Mnemomic::PHX => phx_spec(cpu, bus, operand),
        Mnemomic::PHY => phy_spec(cpu, bus, operand),
        Mnemomic::PLA => pla_spec(cpu, bus, operand),
        Mnemomic::PLP => plp_spec(cpu, bus, operand),
        Mnemomic::PLX => plx_spec(cpu, bus, operand),
        Mnemomic::PLY => ply_spec(cpu, bus, operand),
        Mnemomic::RMBN(n) => rmbn_spec(cpu, bus, operand, n),
        Mnemomic::ROL => rol_spec(cpu, bus, operand),
        Mnemomic::ROR => ror_spec(cpu, bus, operand),
        Mnemomic::RTI => rti_spec(cpu, bus, operand),
        Mnemomic::RTS => rts_spec(cpu, bus, operand),
        Mnemomic::SBC => sbc_spec(cpu, bus, operand),
        Mnemomic::SEC => sec_spec(cpu, bus, operand),
        Mnemomic::SED => sed_spec(cpu, bus, operand),
        Mnemomic::SEI => sei_spec(cpu, bus, operand),
        Mnemomic::SMBN(n) => smbn_spec(cpu, bus, operand, n),
        Mnemomic::STA => sta_spec(cpu, bus, operand),
        Mnemomic::STP => stp_spec(cpu, bus, operand),
        Mnemomic::STX => stx_spec(cpu, bus, operand),
        Mnemomic::STY => sty_spec(cpu, bus, operand),
        Mnemomic::STZ => stz_spec(cpu, bus, operand),
        Mnemomic::TAX => tax_spec(cpu, bus, operand),
        Mnemomic::TAY => tay_spec(cpu, bus, operand),
        Mnemomic::TRB => trb_spec(cpu, bus, operand),
        Mnemomic::TSB => tsb_spec(cpu, bus, operand),
        Mnemomic::TSX => tsx_spec(cpu, bus, operand),
        Mnemomic::TXA => txa_spec(cpu, bus, operand),
        Mnemomic::TXS => txs_spec(cpu, bus, operand),
        Mnemomic::TYA => tya_spec(cpu, bus, operand),
        Mnemomic::WAI => wai_spec(cpu, bus, operand),
    }
}

type OpReturn = Result<(), CpuError>;

impl W65C02S {
    /// The carry flag as a number.
    #[inline]
    pub fn carry_in(&self) -> (c: u8)
        ensures
            c == self.carry(),
    {
        if self.status_check(Status::C) {
            1
        } else {
            0
        }
    }
}

/// `ADC`: add memory to accumulator with carry.
pub fn op_adc<B: Bus>(cpu: &mut W65C02S, bus: &mut B, r: ResolvedOperand) -> (res: OpReturn)
    requires
        old(bus).inv(),
    ensures
        final(bus).inv(),
        outcome(*final(cpu), final(bus)@, res) == adc_spec(*old(cpu), old(bus)@, r.operand),
{
    proof {
        reveal(adc_spec);
    }
    let val = r.operand.read(cpu, bus)?;
    let sum = cpu.a_register as u16 + val as u16 + cpu.carry_in() as u16;
    let result = low8(sum);

    cpu.status_set(Status::C, sum > 0xFF);

    proof {
        lemma_add_overflow_bits(cpu.a_register, val, result);
    }
    let overflow = ((!(cpu.a_register ^ val) & (cpu.a_register ^ result)) & 0x80) != 0;

    cpu.status_set(Status::V, overflow);
    cpu.status_update_zn(result);

    cpu.a_register = result;

    Ok(())
}

/// `AND`: AND memory with accumulator.
pub fn op_and<B: Bus>(cpu: &mut W65C02S, bus: &mut B, r: ResolvedOperand) -> (res: OpReturn)
    requires
        old(bus).inv(),
    ensures
        final(bus).inv(),
        outcome(*final(cpu), final(bus)@, res) == and_spec(*old(cpu), old(bus)@, r.operand),
{
    proof {
        reveal(and_spec);
    }
    let val = r.operand.read(cpu, bus)?;
    let result = cpu.a_register & val;

    cpu.status_update_zn(result);

    cpu.a_register = result;

    Ok(())
}

/// `ASL`: arithmetic shift left one bit.
pub fn op_asl<B: Bus>(cpu: &mut W65C02S, bus: &mut B, r: ResolvedOperand) -> (res: OpReturn)
    requires
        old(bus).inv(),
    ensures
        final(bus).inv(),
        outcome(*final(cpu), final(bus)@, res) == asl_spec(*old(cpu), old(bus)@, r.operand),
{
    proof {
        reveal(asl_spec);
    }
    let val = r.operand.read(cpu, bus)?;
    let result = val << 1;
    proof {
        lemma_shifts(val);
    }

    cpu.status_set(Status::C, (val & 0b1000_0000) > 0);
    cpu.status_update_zn(result);

    r.operand.write(cpu, bus, result)?;

    Ok(())
}

/// `BBRn`: branch on bit `n` reset.
pub fn op_bbrn<B: Bus>(cpu: &mut W65C02S, bus: &mut B, r: ResolvedOperand, n: u8) -> (res: OpReturn)
    requires
        old(bus).inv(),
        n < 8,
    ensures
        final(bus).inv(),
        outcome(*final(cpu), final(bus)@, res) == bbrn_spec(*old(cpu), old(bus)@, r.operand, n),
{
    proof {
        reveal(bbrn_spec);
    }
    let mask = 1u8 << n;

    match r.operand {
        Operand::ZpAddrRelative(addr, offset) => {
            let val = bus_result(bus.read(addr as u16))?;

            if (val & mask) == 0 {
                cpu.program_counter = cpu.program_counter.wrapping_add_signed(offset as i16);
            }

            Ok(())
        },
        _ => Err(CpuError::InvalidOperand(r.operand)),
    }
}

/// `BBSn`: branch on bit `n` set.
pub fn op_bbsn<B: Bus>(cpu: &mut W65C02S, bus: &mut B, r: ResolvedOperand, n: u8) -> (res: OpReturn)
    requires
        old(bus).inv(),
        n < 8,
    ensures
        final(bus).inv(),
        outcome(*final(cpu), final(bus)@, res) == bbsn_spec(*old(cpu), old(bus)@, r.operand, n),
{
    proof {
        reveal(bbsn_spec);
    }
    let mask = 1u8 << n;

    match r.operand {
        Operand::ZpAddrRelative(addr, offset) => {
            let val = bus_result(bus.read(addr as u16))?;

            if (val & mask) > 0 {
                cpu.program_counter = cpu.program_counter.wrapping_add_signed(offset as i16);
            }

            Ok(())
        },
        _ => Err(CpuError::InvalidOperand(r.operand)),
    }
}

/// `BCC`: branch on carry clear.
pub fn op_bcc<B: Bus>(cpu: &mut W65C02S, bus: &mut B, r: ResolvedOperand) -> (res: OpReturn)
    requires
        old(bus).inv(),
    ensures
        final(bus).inv(),
        outcome(*final(cpu), final(bus)@, res) == bcc_spec(*old(cpu), old(bus)@, r.operand),
{
    proof {
        reveal(bcc_spec);
    }
    match r.operand {
        Operand::Relative(offset) => {
            if !cpu.status_check(Status::C) {
                cpu.program_counter = cpu.program_counter.wrapping_add_signed(offset as i16);
            }

            Ok(())
        },
        _ => Err(CpuError::InvalidOperand(r.operand)),
    }
}

/// `BCS`: branch on carry set.
pub fn op_bcs<B: Bus>(cpu: &mut W65C02S, bus: &mut B, r: ResolvedOperand) -> (res: OpReturn)
    requires
        old(bus).inv(),
    ensures
        final(bus).inv(),
        outcome(*final(cpu), final(bus)@, res) == bcs_spec(*old(cpu), old(bus)@, r.operand),
{
    proof {
        reveal(bcs_spec);
    }
    match r.operand {
        Operand::Relative(offset) => {
            if cpu.status_check(Status::C) {
                cpu.program_counter = cpu.program_counter.wrapping_add_signed(offset as i16);
            }

            Ok(())
        },
        _ => Err(CpuError::InvalidOperand(r.operand)),
    }
}

/// `BEQ`: branch if equal (`Z` set).
pub fn op_beq<B: Bus>(cpu: &mut W65C02S, bus: &mut B, r: ResolvedOperand) -> (res: OpReturn)
    requires
        old(bus).inv(),
    ensures
        final(bus).inv(),
        outcome(*final(cpu), final(bus)@, res) == beq_spec(*old(cpu), old(bus)@, r.operand),
{
    proof {
        reveal(beq_spec);
    }
    match r.operand {
        Operand::Relative(offset) => {
            if cpu.status_check(Status::Z) {
                cpu.program_counter = cpu.program_counter.wrapping_add_signed(offset as i16);
            }

            Ok(())
        },
        _ => Err(CpuError::InvalidOperand(r.operand)),
    }
}

/// `BIT`: test bits of memory against the accumulator.
pub fn op_bit<B: Bus>(cpu: &mut W65C02S, bus: &mut B, r: ResolvedOperand) -> (res: OpReturn)
    requires
        old(bus).inv(),
    ensures
        final(bus).inv(),
        outcome(*final(cpu), final(bus)@, res) == bit_spec(*old(cpu), old(bus)@, r.operand),
{
    proof {
        reveal(bit_spec);
    }
    let val = r.operand.read(cpu, bus)?;
    cpu.status_set(Status::Z, (cpu.a_register & val) == 0);

    match r.operand {
        Operand::Value(_) => {},
        _ => {
            proof {
                lemma_shifts(val);
            }
            cpu.status_set(Status::N, (val >> 7) > 0);
            cpu.status_set(Status::V, (val & 0b0100_0000) > 0);
        },
    }

    Ok(())
}

/// `BMI`: branch if minus (`N` set).
pub fn op_bmi<B: Bus>(cpu: &mut W65C02S, bus: &mut B, r: ResolvedOperand) -> (res: OpReturn)
    requires
        old(bus).inv(),
    ensures
        final(bus).inv(),
        outcome(*final(cpu), final(bus)@, res) == bmi_spec(*old(cpu), old(bus)@, r.operand),
{
    proof {
        reveal(bmi_spec);
    }
    match r.operand {
        Operand::Relative(offset) => {
            if cpu.status_check(Status::N) {
                cpu.program_counter = cpu.program_counter.wrapping_add_signed(offset as i16);
            }

            Ok(())
        },
        _ => Err(CpuError::InvalidOperand(r.operand)),
    }
}

/// `BNE`: branch if not equal (`Z` clear).
pub fn op_bne<B: Bus>(cpu: &mut W65C02S, bus: &mut B, r: ResolvedOperand) -> (res: OpReturn)
    requires
        old(bus).inv(),
    ensures
        final(bus).inv(),
        outcome(*final(cpu), final(bus)@, res) == bne_spec(*old(cpu), old(bus)@, r.operand),
{
    proof {
        reveal(bne_spec);
    }
    match r.operand {
        Operand::Relative(offset) => {
            if !cpu.status_check(Status::Z) {
                cpu.program_counter = cpu.program_counter.wrapping_add_signed(offset as i16);
            }

            Ok(())
        },
        _ => Err(CpuError::InvalidOperand(r.operand)),
    }
}

/// `BPL`: branch if plus (`N` clear).
pub fn op_bpl<B: Bus>(cpu: &mut W65C02S, bus: &mut B, r: ResolvedOperand) -> (res: OpReturn)
    requires
        old(bus).inv(),
    ensures
        final(bus).inv(),
        outcome(*final(cpu), final(bus)@, res) == bpl_spec(*old(cpu), old(bus)@, r.operand),
{
    proof {
        reveal(bpl_spec);
    }
    match r.operand {
        Operand::Relative(offset) => {
            if !cpu.status_check(Status::N) {
                cpu.program_counter = cpu.program_counter.wrapping_add_signed(offset as i16);
            }

            Ok(())
        },
        _ => Err(CpuError::InvalidOperand(r.operand)),
    }
}

/// `BRA`: branch always.
pub fn op_bra<B: Bus>(cpu: &mut W65C02S, bus: &mut B, r: ResolvedOperand) -> (res: OpReturn)
    requires
        old(bus).inv(),
    ensures
        final(bus).inv(),
        outcome(*final(cpu), final(bus)@, res) == bra_spec(*old(cpu), old(bus)@, r.operand),
{
    proof {
        reveal(bra_spec);
    }
    match r.operand {
        Operand::Relative(offset) => {
            cpu.program_counter = cpu.program_counter.wrapping_add_signed(offset as i16);

            Ok(())
        },
        _ => Err(CpuError::InvalidOperand(r.operand)),
    }
}

/// `BRK`: a software interrupt.
pub fn op_brk<B: Bus>(cpu: &mut W65C02S, bus: &mut B, r: ResolvedOperand) -> (res: OpReturn)
    requires
        old(bus).inv(),
    ensures
        final(bus).inv(),
        outcome(*final(cpu), final(bus)@, res) == brk_spec(*old(cpu), old(bus)@, r.operand),
{
    proof {
        reveal(brk_spec);
    }
    let return_addr = cpu.program_counter.wrapping_add(1);
    let (return_low, return_high) = split_word(return_addr);

    cpu.stack_push_u8(bus, return_high)?;
    cpu.stack_push_u8(bus, return_low)?;
    let status = cpu.processor_status_register | 0x10;
    cpu.stack_push_u8(bus, status)?;

    cpu.status_set(Status::I, true);

    let target = bus_result(read_u16(bus, W65C02S::IRQB_LOW))?;

    cpu.program_counter = target;

    Ok(())
}

/// `BVC`: branch on overflow clear.
pub fn op_bvc<B: Bus>(cpu: &mut W65C02S, bus: &mut B, r: ResolvedOperand) -> (res: OpReturn)
    requires
        old(bus).inv(),
    ensures
        final(bus).inv(),
        outcome(*final(cpu), final(bus)@, res) == bvc_spec(*old(cpu), old(bus)@, r.operand),
{
    proof {
        reveal(bvc_spec);
    }
    match r.operand {
        Operand::Relative(offset) => {
            if !cpu.status_check(Status::V) {
                cpu.program_counter = cpu.program_counter.wrapping_add_signed(offset as i16);
            }

            Ok(())
        },
        _ => Err(CpuError::InvalidOperand(r.operand)),
    }
}

/// `BVS`: branch on overflow set.
pub fn op_bvs<B: Bus>(cpu: &mut W65C02S, bus: &mut B, r: ResolvedOperand) -> (res: OpReturn)
    requires
        old(bus).inv(),
    ensures
        final(bus).inv(),
        outcome(*final(cpu), final(bus)@, res) == bvs_spec(*old(cpu), old(bus)@, r.operand),
{
    proof {
        reveal(bvs_spec);
    }
    match r.operand {
        Operand::Relative(offset) => {
            if cpu.status_check(Status::V) {
                cpu.program_counter = cpu.program_counter.wrapping_add_signed(offset as i16);
            }

            Ok(())
        },
        _ => Err(CpuError::InvalidOperand(r.operand)),
    }
}

/// `CLC`: clear the carry flag.
pub fn op_clc<B: Bus>(cpu: &mut W65C02S, bus: &mut B, r: ResolvedOperand) -> (res: OpReturn)
    requires
        old(bus).inv(),
    ensures
        final(bus).inv(),
        outcome(*final(cpu), final(bus)@, res) == clc_spec(*old(cpu), old(bus)@, r.operand),
{
    proof {
        reveal(clc_spec);
    }
    cpu.status_set(Status::C, false);

    Ok(())
}

/// `CLD`: clear the decimal flag.
pub fn op_cld<B: Bus>(cpu: &mut W65C02S, bus: &mut B, r: ResolvedOperand) -> (res: OpReturn)
    requires
        old(bus).inv(),
    ensures
        final(bus).inv(),
        outcome(*final(cpu), final(bus)@, res) == cld_spec(*old(cpu), old(bus)@, r.operand),
{
    proof {
        reveal(cld_spec);
    }
    cpu.status_set(Status::D, false);

    Ok(())
}

/// `CLI`: clear the interrupt disable flag.
pub fn op_cli<B: Bus>(cpu: &mut W65C02S, bus: &mut B, r: ResolvedOperand) -> (res: OpReturn)
    requires
        old(bus).inv(),
    ensures
        final(bus).inv(),
        outcome(*final(cpu), final(bus)@, res) == cli_spec(*old(cpu), old(bus)@, r.operand),
{
    proof {
        reveal(cli_spec);
    }
    cpu.status_set(Status::I, false);

    Ok(())
}

/// `CLV`: clear the overflow flag.
pub fn op_clv<B: Bus>(cpu: &mut W65C02S, bus: &mut B, r: ResolvedOperand) -> (res: OpReturn)
    requires
        old(bus).inv(),
    ensures
        final(bus).inv(),
        outcome(*final(cpu), final(bus)@, res) == clv_spec(*old(cpu), old(bus)@, r.operand),
{
    proof {
        reveal(clv_spec);
    }
    cpu.status_set(Status::V, false);

    Ok(())
}

/// `CMP`: compare memory with the accumulator.
pub fn op_cmp<B: Bus>(cpu: &mut W65C02S, bus: &mut B, r: ResolvedOperand) -> (res: OpReturn)
    requires
        old(bus).inv(),
    ensures
        final(bus).inv(),
        outcome(*final(cpu), final(bus)@, res) == cmp_spec(*old(cpu), old(bus)@, r.operand),
{
    proof {
        reveal(cmp_spec);
    }
    let val = r.operand.read(cpu, bus)?;
    let result = cpu.a_register.wrapping_sub(val);

    cpu.status_set(Status::C, cpu.a_register >= val);
    cpu.status_update_zn(result);

    Ok(())
}

/// `CPX`: compare memory with `X`.
pub fn op_cpx<B: Bus>(cpu: &mut W65C02S, bus: &mut B, r: ResolvedOperand) -> (res: OpReturn)
    requires
        old(bus).inv(),
    ensures
        final(bus).inv(),
        outcome(*final(cpu), final(bus)@, res) == cpx_spec(*old(cpu), old(bus)@, r.operand),
{
    proof {
        reveal(cpx_spec);
    }
    let val = r.operand.read(cpu, bus)?;
    let result = cpu.x_register.wrapping_sub(val);

    cpu.status_set(Status::C, cpu.x_register >= val);
    cpu.status_update_zn(result);

    Ok(())
}

/// `CPY`: compare memory with `Y`.
pub fn op_cpy<B: Bus>(cpu: &mut W65C02S, bus: &mut B, r: ResolvedOperand) -> (res: OpReturn)
    requires
        old(bus).inv(),
    ensures
        final(bus).inv(),
        outcome(*final(cpu), final(bus)@, res) == cpy_spec(*old(cpu), old(bus)@, r.operand),
{
    proof {
        reveal(cpy_spec);
    }
    let val = r.operand.read(cpu, bus)?;
    let result = cpu.y_register.wrapping_sub(val);

    cpu.status_set(Status::C, cpu.y_register >= val);
    cpu.status_update_zn(result);

    Ok(())
}

/// `DEC`: decrement memory or the accumulator by one.
pub fn op_dec<B: Bus>(cpu: &mut W65C02S, bus: &mut B, r: ResolvedOperand) -> (res: OpReturn)
    requires
        old(bus).inv(),
    ensures
        final(bus).inv(),
        outcome(*final(cpu), final(bus)@, res) == dec_spec(*old(cpu), old(bus)@, r.operand),
{
    proof {
        reveal(dec_spec);
    }
    let val = r.operand.read(cpu, bus)?;
    let result = val.wrapping_sub(1);

    cpu.status_update_zn(result);

    r.operand.write(cpu, bus, result)?;

    Ok(())
}

/// `DEX`: decrement `X` by one.
pub fn op_dex<B: Bus>(cpu: &mut W65C02S, bus: &mut B, r: ResolvedOperand) -> (res: OpReturn)
    requires
        old(bus).inv(),
    ensures
        final(bus).inv(),
        outcome(*final(cpu), final(bus)@, res) == dex_spec(*old(cpu), old(bus)@, r.operand),
{
    proof {
        reveal(dex_spec);
    }
    let result = cpu.x_register.wrapping_sub(1);

    cpu.status_update_zn(result);

    cpu.x_register = result;

    Ok(())
}

/// `DEY`: decrement `Y` by one.
pub fn op_dey<B: Bus>(cpu: &mut W65C02S, bus: &mut B, r: ResolvedOperand) -> (res: OpReturn)
    requires
        old(bus).inv(),
    ensures
        final(bus).inv(),
        outcome(*final(cpu), final(bus)@, res) == dey_spec(*old(cpu), old(bus)@, r.operand),
{
    proof {
        reveal(dey_spec);
    }
    let result = cpu.y_register.wrapping_sub(1);

    cpu.status_update_zn(result);

    cpu.y_register = result;

    Ok(())
}

/// `EOR`: exclusive OR memory with accumulator.
pub fn op_eor<B: Bus>(cpu: &mut W65C02S, bus: &mut B, r: ResolvedOperand) -> (res: OpReturn)
    requires
        old(bus).inv(),
    ensures
        final(bus).inv(),
        outcome(*final(cpu), final(bus)@, res) == eor_spec(*old(cpu), old(bus)@, r.operand),
{
    proof {
        reveal(eor_spec);
    }
    let val = r.operand.read(cpu, bus)?;
    let result = cpu.a_register ^ val;

    cpu.status_update_zn(result);

    cpu.a_register = result;

    Ok(())
}

/// `INC`: increment memory or the accumulator by one.
pub fn op_inc<B: Bus>(cpu: &mut W65C02S, bus: &mut B, r: ResolvedOperand) -> (res: OpReturn)
    requires
        old(bus).inv(),
    ensures
        final(bus).inv(),
        outcome(*final(cpu), final(bus)@, res) == inc_spec(*old(cpu), old(bus)@, r.operand),
{
    proof {
        reveal(inc_spec);
    }
    let val = r.operand.read(cpu, bus)?;
    let result = val.wrapping_add(1);

    cpu.status_update_zn(result);

    r.operand.write(cpu, bus, result)?;

    Ok(())
}

/// `INX`: increment `X` by one.
pub fn op_inx<B: Bus>(cpu: &mut W65C02S, bus: &mut B, r: ResolvedOperand) -> (res: OpReturn)
    requires
        old(bus).inv(),
    ensures
        final(bus).inv(),
        outcome(*final(cpu), final(bus)@, res) == inx_spec(*old(cpu), old(bus)@, r.operand),
{
    proof {
        reveal(inx_spec);
    }
    let result = cpu.x_register.wrapping_add(1);

    cpu.status_update_zn(result);

    cpu.x_register = result;

    Ok(())
}

/// `INY`: increment `Y` by one.
pub fn op_iny<B: Bus>(cpu: &mut W65C02S, bus: &mut B, r: ResolvedOperand) -> (res: OpReturn)
    requires
        old(bus).inv(),
    ensures
        final(bus).inv(),
        outcome(*final(cpu), final(bus)@, res) == iny_spec(*old(cpu), old(bus)@, r.operand),
{
    proof {
        reveal(iny_spec);
    }
    let result = cpu.y_register.wrapping_add(1);

    cpu.status_update_zn(result);

    cpu.y_register = result;

    Ok(())
}

/// `JMP`: jump to a new location.
pub fn op_jmp<B: Bus>(cpu: &mut W65C02S, bus: &mut B, r: ResolvedOperand) -> (res: OpReturn)
    requires
        old(bus).inv(),
    ensures
        final(bus).inv(),
        outcome(*final(cpu), final(bus)@, res) == jmp_spec(*old(cpu), old(bus)@, r.operand),
{
    proof {
        reveal(jmp_spec);
    }
    match r.operand {
        Operand::Address(addr) => {
            cpu.program_counter = addr;
            Ok(())
        },
        _ => Err(CpuError::InvalidOperand(r.operand)),
    }
}

/// `JSR`: jump to a subroutine.
pub fn op_jsr<B: Bus>(cpu: &mut W65C02S, bus: &mut B, r: ResolvedOperand) -> (res: OpReturn)
    requires
        old(bus).inv(),
    ensures
        final(bus).inv(),
        outcome(*final(cpu), final(bus)@, res) == jsr_spec(*old(cpu), old(bus)@, r.operand),
{
    proof {
        reveal(jsr_spec);
    }
    match r.operand {
        Operand::Address(addr) => {
            let return_addr = cpu.program_counter.wrapping_sub(1);
            let (return_low, return_high) = split_word(return_addr);

            cpu.stack_push_u8(bus, return_high)?;
            cpu.stack_push_u8(bus, return_low)?;

            cpu.program_counter = addr;

            Ok(())
        },
        _ => Err(CpuError::InvalidOperand(r.operand)),
    }
}

/// `LDA`: load the accumulator.
pub fn op_lda<B: Bus>(cpu: &mut W65C02S, bus: &mut B, r: ResolvedOperand) -> (res: OpReturn)
    requires
        old(bus).inv(),
    ensures
        final(bus).inv(),
        outcome(*final(cpu), final(bus)@, res) == lda_spec(*old(cpu), old(bus)@, r.operand),
{
    proof {
        reveal(lda_spec);
    }
    cpu.a_register = r.operand.read(cpu, bus)?;

    cpu.status_update_zn(cpu.a_register);

    Ok(())
}

/// `LDX`: load `X`.
pub fn op_ldx<B: Bus>(cpu: &mut W65C02S, bus: &mut B, r: ResolvedOperand) -> (res: OpReturn)
    requires
        old(bus).inv(),
    ensures
        final(bus).inv(),
        outcome(*final(cpu), final(bus)@, res) == ldx_spec(*old(cpu), old(bus)@, r.operand),
{
    proof {
        reveal(ldx_spec);
    }
    cpu.x_register = r.operand.read(cpu, bus)?;

    cpu.status_update_zn(cpu.x_register);

    Ok(())
}

/// `LDY`: load `Y`.
pub fn op_ldy<B: Bus>(cpu: &mut W65C02S, bus: &mut B, r: ResolvedOperand) -> (res: OpReturn)
    requires
        old(bus).inv(),
    ensures
        final(bus).inv(),
        outcome(*final(cpu), final(bus)@, res) == ldy_spec(*old(cpu), old(bus)@, r.operand),
{
    proof {
        reveal(ldy_spec);
    }
    cpu.y_register = r.operand.read(cpu, bus)?;

    cpu.status_update_zn(cpu.y_register);

    Ok(())
}

/// `LSR`: logical shift right one bit.
pub fn op_lsr<B: Bus>(cpu: &mut W65C02S, bus: &mut B, r: ResolvedOperand) -> (res: OpReturn)
    requires
        old(bus).inv(),
    ensures
        final(bus).inv(),
        outcome(*final(cpu), final(bus)@, res) == lsr_spec(*old(cpu), old(bus)@, r.operand),
{
    proof {
        reveal(lsr_spec);
    }
    let val = r.operand.read(cpu, bus)?;
    let result = val >> 1;
    proof {
        lemma_shifts(val);
    }

    cpu.status_set(Status::C, (val & 1) > 0);
    cpu.status_update_zn(result);

    r.operand.write(cpu, bus, result)?;

    Ok(())
}

/// `NOP`: no operation.
pub fn op_nop<B: Bus>(cpu: &mut W65C02S, bus: &mut B, r: ResolvedOperand) -> (res: OpReturn)
    requires
        old(bus).inv(),
    ensures
        final(bus).inv(),
        outcome(*final(cpu), final(bus)@, res) == nop_spec(*old(cpu), old(bus)@, r.operand),
{
    proof {
        reveal(nop_spec);
    }
    Ok(())
}

/// `ORA`: OR memory with accumulator.
pub fn op_ora<B: Bus>(cpu: &mut W65C02S, bus: &mut B, r: ResolvedOperand) -> (res: OpReturn)
    requires
        old(bus).inv(),
    ensures
        final(bus).inv(),
        outcome(*final(cpu), final(bus)@, res) == ora_spec(*old(cpu), old(bus)@, r.operand),
{
    proof {
        reveal(ora_spec);
    }
    let val = r.operand.read(cpu, bus)?;
    let result = cpu.a_register | val;

    cpu.status_update_zn(result);

    cpu.a_register = result;

    Ok(())
}

/// `PHA`: push the accumulator.
pub fn op_pha<B: Bus>(cpu: &mut W65C02S, bus: &mut B, r: ResolvedOperand) -> (res: OpReturn)
    requires
        old(bus).inv(),
    ensures
        final(bus).inv(),
        outcome(*final(cpu), final(bus)@, res) == pha_spec(*old(cpu), old(bus)@, r.operand),
{
    proof {
        reveal(pha_spec);
    }
    let val = cpu.a_register;
    cpu.stack_push_u8(bus, val)?;

    Ok(())
}

/// `PHP`: push the processor status.
pub fn op_php<B: Bus>(cpu: &mut W65C02S, bus: &mut B, r: ResolvedOperand) -> (res: OpReturn)
    requires
        old(bus).inv(),
    ensures
        final(bus).inv(),
        outcome(*final(cpu), final(bus)@, res) == php_spec(*old(cpu), old(bus)@, r.operand),
{
    proof {
        reveal(php_spec);
    }
    let val = cpu.processor_status_register | 0x30;
    cpu.stack_push_u8(bus, val)?;

    Ok(())
}

/// `PHX`: push `X`.
pub fn op_phx<B: Bus>(cpu: &mut W65C02S, bus: &mut B, r: ResolvedOperand) -> (res: OpReturn)
    requires
        old(bus).inv(),
    ensures
        final(bus).inv(),
        outcome(*final(cpu), final(bus)@, res) == phx_spec(*old(cpu), old(bus)@, r.operand),
{
    proof {
        reveal(phx_spec);
    }
    let val = cpu.x_register;
    cpu.stack_push_u8(bus, val)?;

    Ok(())
}

/// `PHY`: push `Y`.
pub fn op_phy<B: Bus>(cpu: &mut W65C02S, bus: &mut B, r: ResolvedOperand) -> (res: OpReturn)
    requires
        old(bus).inv(),
    ensures
        final(bus).inv(),
        outcome(*final(cpu), final(bus)@, res) == phy_spec(*old(cpu), old(bus)@, r.operand),
{
    proof {
        reveal(phy_spec);
    }
    let val = cpu.y_register;
    cpu.stack_push_u8(bus, val)?;

    Ok(())
}

/// `PLA`: pull the accumulator.
pub fn op_pla<B: Bus>(cpu: &mut W65C02S, bus: &mut B, r: ResolvedOperand) -> (res: OpReturn)
    requires
        old(bus).inv(),
    ensures
        final(bus).inv(),
        outcome(*final(cpu), final(bus)@, res) == pla_spec(*old(cpu), old(bus)@, r.operand),
{
    proof {
        reveal(pla_spec);
    }
    cpu.a_register = cpu.stack_pull_u8(bus)?;

    cpu.status_update_zn(cpu.a_register);

    Ok(())
}

/// `PLP`: pull the processor status.
pub fn op_plp<B: Bus>(cpu: &mut W65C02S, bus: &mut B, r: ResolvedOperand) -> (res: OpReturn)
    requires
        old(bus).inv(),
    ensures
        final(bus).inv(),
        outcome(*final(cpu), final(bus)@, res) == plp_spec(*old(cpu), old(bus)@, r.operand),
{
    proof {
        reveal(plp_spec);
    }
    cpu.processor_status_register = (cpu.stack_pull_u8(bus)? | 0x20) & (!0x10);

    Ok(())
}

/// `PLX`: pull `X`.
pub fn op_plx<B: Bus>(cpu: &mut W65C02S, bus: &mut B, r: ResolvedOperand) -> (res: OpReturn)
    requires
        old(bus).inv(),
    ensures
        final(bus).inv(),
        outcome(*final(cpu), final(bus)@, res) == plx_spec(*old(cpu), old(bus)@, r.operand),
{
    proof {
        reveal(plx_spec);
    }
    cpu.x_register = cpu.stack_pull_u8(bus)?;

    cpu.status_update_zn(cpu.x_register);

    Ok(())
}

/// `PLY`: pull `Y`.
pub fn op_ply<B: Bus>(cpu: &mut W65C02S, bus: &mut B, r: ResolvedOperand) -> (res: OpReturn)
    requires
        old(bus).inv(),
    ensures
        final(bus).inv(),
        outcome(*final(cpu), final(bus)@, res) == ply_spec(*old(cpu), old(bus)@, r.operand),
{
    proof {
        reveal(ply_spec);
    }
    cpu.y_register = cpu.stack_pull_u8(bus)?;

    cpu.status_update_zn(cpu.y_register);

    Ok(())
}

/// `RMBn`: reset bit `n` of a zero-page byte.
pub fn op_rmbn<B: Bus>(cpu: &mut W65C02S, bus: &mut B, r: ResolvedOperand, n: u8) -> (res: OpReturn)
    requires
        old(bus).inv(),
        n < 8,
    ensures
        final(bus).inv(),
        outcome(*final(cpu), final(bus)@, res) == rmbn_spec(*old(cpu), old(bus)@, r.operand, n),
{
    proof {
        reveal(rmbn_spec);
    }
    let val = r.operand.read(cpu, bus)?;
    let mask = 1u8 << n;

    r.operand.write(cpu, bus, val & (!mask))?;

    Ok(())
}

/// `ROL`: rotate left one bit through carry.
pub fn op_rol<B: Bus>(cpu: &mut W65C02S, bus: &mut B, r: ResolvedOperand) -> (res: OpReturn)
    requires
        old(bus).inv(),
    ensures
        final(bus).inv(),
        outcome(*final(cpu), final(bus)@, res) == rol_spec(*old(cpu), old(bus)@, r.operand),
{
    proof {
        reveal(rol_spec);
    }
    let val = r.operand.read(cpu, bus)?;
    let c = (val >> 7) > 0;
    let carry = cpu.carry_in();
    let result = (val << 1) | carry;
    proof {
        lemma_shifts(val);
        lemma_rotate_in(val, carry);
    }

    cpu.status_set(Status::C, c);
    cpu.status_update_zn(result);

    r.operand.write(cpu, bus, result)?;

    Ok(())
}

/// `ROR`: rotate right one bit through carry.
pub fn op_ror<B: Bus>(cpu: &mut W65C02S, bus: &mut B, r: ResolvedOperand) -> (res: OpReturn)
    requires
        old(bus).inv(),
    ensures
        final(bus).inv(),
        outcome(*final(cpu), final(bus)@, res) == ror_spec(*old(cpu), old(bus)@, r.operand),
{
    proof {
        reveal(ror_spec);
    }
    let val = r.operand.read(cpu, bus)?;
    let c = (val & 1) > 0;
    let carry = cpu.carry_in();
    let result = (val >> 1) | (carry << 7);
    proof {
        lemma_shifts(val);
        lemma_rotate_in(val, carry);
    }

    cpu.status_set(Status::C, c);
    cpu.status_update_zn(result);

    r.operand.write(cpu, bus, result)?;

    Ok(())
}

/// `RTI`: return from interrupt.
pub fn op_rti<B: Bus>(cpu: &mut W65C02S, bus: &mut B, r: ResolvedOperand) -> (res: OpReturn)
    requires
        old(bus).inv(),
    ensures
        final(bus).inv(),
        outcome(*final(cpu), final(bus)@, res) == rti_spec(*old(cpu), old(bus)@, r.operand),
{
    proof {
        reveal(rti_spec);
    }
    let p = (cpu.stack_pull_u8(bus)? | 0x20) & (!0x10);

    let low = cpu.stack_pull_u8(bus)?;
    let high = cpu.stack_pull_u8(bus)?;
    let addr = make_word(low, high);

    cpu.processor_status_register = p;
    cpu.program_counter = addr;

    Ok(())
}

/// `RTS`: return from subroutine.
pub fn op_rts<B: Bus>(cpu: &mut W65C02S, bus: &mut B, r: ResolvedOperand) -> (res: OpReturn)
    requires
        old(bus).inv(),
    ensures
        final(bus).inv(),
        outcome(*final(cpu), final(bus)@, res) == rts_spec(*old(cpu), old(bus)@, r.operand),
{
    proof {
        reveal(rts_spec);
    }
    let low = cpu.stack_pull_u8(bus)?;
    let high = cpu.stack_pull_u8(bus)?;
    let addr = make_word(low, high);

    cpu.program_counter = addr.wrapping_add(1);

    Ok(())
}

/// `SBC`: subtract memory from accumulator with borrow.
pub fn op_sbc<B: Bus>(cpu: &mut W65C02S, bus: &mut B, r: ResolvedOperand) -> (res: OpReturn)
    requires
        old(bus).inv(),
    ensures
        final(bus).inv(),
        outcome(*final(cpu), final(bus)@, res) == sbc_spec(*old(cpu), old(bus)@, r.operand),
{
    proof {
        reveal(sbc_spec);
    }
    let val = r.operand.read(cpu, bus)?;
    let diff = cpu.a_register as u16 + (!val) as u16 + cpu.carry_in() as u16;
    let result = low8(diff);
    proof {
        lemma_sub_overflow_bits(cpu.a_register, val, result);
    }

    cpu.status_set(Status::C, diff > 0xff);
    cpu.status_set(Status::V, ((result ^ cpu.a_register) & (cpu.a_register ^ val) & 0x80) != 0);
    cpu.status_update_zn(result);

    cpu.a_register = result;

    Ok(())
}

/// `SEC`: set the carry flag.
pub fn op_sec<B: Bus>(cpu: &mut W65C02S, bus: &mut B, r: ResolvedOperand) -> (res: OpReturn)
    requires
        old(bus).inv(),
    ensures
        final(bus).inv(),
        outcome(*final(cpu), final(bus)@, res) == sec_spec(*old(cpu), old(bus)@, r.operand),
{
    proof {
        reveal(sec_spec);
    }
    cpu.status_set(Status::C, true);

    Ok(())
}

/// `SED`: set the decimal flag.
pub fn op_sed<B: Bus>(cpu: &mut W65C02S, bus: &mut B, r: ResolvedOperand) -> (res: OpReturn)
    requires
        old(bus).inv(),
    ensures
        final(bus).inv(),
        outcome(*final(cpu), final(bus)@, res) == sed_spec(*old(cpu), old(bus)@, r.operand),
{
    proof {
        reveal(sed_spec);
    }
    cpu.status_set(Status::D, true);

    Ok(())
}

/// `SEI`: set the interrupt disable flag.
pub fn op_sei<B: Bus>(cpu: &mut W65C02S, bus: &mut B, r: ResolvedOperand) -> (res: OpReturn)
    requires
        old(bus).inv(),
    ensures
        final(bus).inv(),
        outcome(*final(cpu), final(bus)@, res) == sei_spec(*old(cpu), old(bus)@, r.operand),
{
    proof {
        reveal(sei_spec);
    }
    cpu.status_set(Status::I, true);

    Ok(())
}

/// `SMBn`: set bit `n` of a zero-page byte.
pub fn op_smbn<B: Bus>(cpu: &mut W65C02S, bus: &mut B, r: ResolvedOperand, n: u8) -> (res: OpReturn)
    requires
        old(bus).inv(),
        n < 8,
    ensures
        final(bus).inv(),
        outcome(*final(cpu), final(bus)@, res) == smbn_spec(*old(cpu), old(bus)@, r.operand, n),
{
    proof {
        reveal(smbn_spec);
    }
    let val = r.operand.read(cpu, bus)?;
    let mask = 1u8 << n;

    r.operand.write(cpu, bus, val | mask)?;

    Ok(())
}

/// `STA`: store the accumulator.
pub fn op_sta<B: Bus>(cpu: &mut W65C02S, bus: &mut B, r: ResolvedOperand) -> (res: OpReturn)
    requires
        old(bus).inv(),
    ensures
        final(bus).inv(),
        outcome(*final(cpu), final(bus)@, res) == sta_spec(*old(cpu), old(bus)@, r.operand),
{
    proof {
        reveal(sta_spec);
    }
    let val = cpu.a_register;
    r.operand.write(cpu, bus, val)?;

    Ok(())
}

/// `STP`: stop the clock. The core does not model it: the instruction
/// stops the processor.
pub fn op_stp<B: Bus>(cpu: &mut W65C02S, bus: &mut B, r: ResolvedOperand) -> (res: OpReturn)
    requires
        old(bus).inv(),
    ensures
        final(bus).inv(),
        outcome(*final(cpu), final(bus)@, res) == stp_spec(*old(cpu), old(bus)@, r.operand),
{
    proof {
        reveal(stp_spec);
    }
    Err(CpuError::Unimplemented(Mnemomic::STP))
}

/// `STX`: store `X`.
pub fn op_stx<B: Bus>(cpu: &mut W65C02S, bus: &mut B, r: ResolvedOperand) -> (res: OpReturn)
    requires
        old(bus).inv(),
    ensures
        final(bus).inv(),
        outcome(*final(cpu), final(bus)@, res) == stx_spec(*old(cpu), old(bus)@, r.operand),
{
    proof {
        reveal(stx_spec);
    }
    let val = cpu.x_register;
    r.operand.write(cpu, bus, val)?;

    Ok(())
}

/// `STY`: store `Y`.
pub fn op_sty<B: Bus>(cpu: &mut W65C02S, bus: &mut B, r: ResolvedOperand) -> (res: OpReturn)
    requires
        old(bus).inv(),
    ensures
        final(bus).inv(),
        outcome(*final(cpu), final(bus)@, res) == sty_spec(*old(cpu), old(bus)@, r.operand),
{
    proof {
        reveal(sty_spec);
    }
    let val = cpu.y_register;
    r.operand.write(cpu, bus, val)?;

    Ok(())
}

/// `STZ`: store zero.
pub fn op_stz<B: Bus>(cpu: &mut W65C02S, bus: &mut B, r: ResolvedOperand) -> (res: OpReturn)
    requires
        old(bus).inv(),
    ensures
        final(bus).inv(),
        outcome(*final(cpu), final(bus)@, res) == stz_spec(*old(cpu), old(bus)@, r.operand),
{
    proof {
        reveal(stz_spec);
    }
    let val: u8 = 0;
    r.operand.write(cpu, bus, val)?;

    Ok(())
}

/// `TAX`: transfer the accumulator to `X`.
pub fn op_tax<B: Bus>(cpu: &mut W65C02S, bus: &mut B, r: ResolvedOperand) -> (res: OpReturn)
    requires
        old(bus).inv(),
    ensures
        final(bus).inv(),
        outcome(*final(cpu), final(bus)@, res) == tax_spec(*old(cpu), old(bus)@, r.operand),
{
    proof {
        reveal(tax_spec);
    }
    cpu.x_register = cpu.a_register;

    cpu.status_update_zn(cpu.x_register);

    Ok(())
}

/// `TAY`: transfer the accumulator to `Y`.
pub fn op_tay<B: Bus>(cpu: &mut W65C02S, bus: &mut B, r: ResolvedOperand) -> (res: OpReturn)
    requires
        old(bus).inv(),
    ensures
        final(bus).inv(),
        outcome(*final(cpu), final(bus)@, res) == tay_spec(*old(cpu), old(bus)@, r.operand),
{
    proof {
        reveal(tay_spec);
    }
    cpu.y_register = cpu.a_register;

    cpu.status_update_zn(cpu.y_register);

    Ok(())
}

/// `TRB`: test and reset bits of memory by the accumulator.
pub fn op_trb<B: Bus>(cpu: &mut W65C02S, bus: &mut B, r: ResolvedOperand) -> (res: OpReturn)
    requires
        old(bus).inv(),
    ensures
        final(bus).inv(),
        outcome(*final(cpu), final(bus)@, res) == trb_spec(*old(cpu), old(bus)@, r.operand),
{
    proof {
        reveal(trb_spec);
    }
    let val = r.operand.read(cpu, bus)?;
    let result = val & !cpu.a_register;

    cpu.status_set(Status::Z, (val & cpu.a_register) == 0);

    r.operand.write(cpu, bus, result)?;

    Ok(())
}

/// `TSB`: test and set bits of memory by the accumulator.
pub fn op_tsb<B: Bus>(cpu: &mut W65C02S, bus: &mut B, r: ResolvedOperand) -> (res: OpReturn)
    requires
        old(bus).inv(),
    ensures
        final(bus).inv(),
        outcome(*final(cpu), final(bus)@, res) == tsb_spec(*old(cpu), old(bus)@, r.operand),
{
    proof {
        reveal(tsb_spec);
    }
    let val = r.operand.read(cpu, bus)?;
    let result = val | cpu.a_register;

    cpu.status_set(Status::Z, (val & cpu.a_register) == 0);

    r.operand.write(cpu, bus, result)?;

    Ok(())
}

/// `TSX`: transfer the stack pointer to `X`.
pub fn op_tsx<B: Bus>(cpu: &mut W65C02S, bus: &mut B, r: ResolvedOperand) -> (res: OpReturn)
    requires
        old(bus).inv(),
    ensures
        final(bus).inv(),
        outcome(*final(cpu), final(bus)@, res) == tsx_spec(*old(cpu), old(bus)@, r.operand),
{
    proof {
        reveal(tsx_spec);
    }
    cpu.x_register = cpu.stack_pointer;

    cpu.status_update_zn(cpu.x_register);

    Ok(())
}

/// `TXA`: transfer `X` to the accumulator.
pub fn op_txa<B: Bus>(cpu: &mut W65C02S, bus: &mut B, r: ResolvedOperand) -> (res: OpReturn)
    requires
        old(bus).inv(),
    ensures
        final(bus).inv(),
        outcome(*final(cpu), final(bus)@, res) == txa_spec(*old(cpu), old(bus)@, r.operand),
{
    proof {
        reveal(txa_spec);
    }
    cpu.a_register = cpu.x_register;

    cpu.status_update_zn(cpu.a_register);

    Ok(())
}

/// `TXS`: transfer `X` to the stack pointer.
pub fn op_txs<B: Bus>(cpu: &mut W65C02S, bus: &mut B, r: ResolvedOperand) -> (res: OpReturn)
    requires
        old(bus).inv(),
    ensures
        final(bus).inv(),
        outcome(*final(cpu), final(bus)@, res) == txs_spec(*old(cpu), old(bus)@, r.operand),
{
    proof {
        reveal(txs_spec);
    }
    cpu.stack_pointer = cpu.x_register;

    Ok(())
}

/// `TYA`: transfer `Y` to the accumulator.
pub fn op_tya<B: Bus>(cpu: &mut W65C02S, bus: &mut B, r: ResolvedOperand) -> (res: OpReturn)
    requires
        old(bus).inv(),
    ensures
        final(bus).inv(),
        outcome(*final(cpu), final(bus)@, res) == tya_spec(*old(cpu), old(bus)@, r.operand),
{
    proof {
        reveal(tya_spec);
    }
    cpu.a_register = cpu.y_register;

    cpu.status_update_zn(cpu.a_register);

    Ok(())
}

/// `WAI`: wait for interrupt. The core does not model it: the instruction
/// stops the processor.
pub fn op_wai<B: Bus>(cpu: &mut W65C02S, bus: &mut B, r: ResolvedOperand) -> (res: OpReturn)
    requires
        old(bus).inv(),
    ensures
        final(bus).inv(),
        outcome(*final(cpu), final(bus)@, res) == wai_spec(*old(cpu), old(bus)@, r.operand),
{
    proof {
        reveal(wai_spec);
    }
    Err(CpuError::Unimplemented(Mnemomic::WAI))
}

/// Performs the instruction `mnemomic` on its resolved operand.
pub fn execute<B: Bus>(cpu: &mut W65C02S, bus: &mut B, mnemomic: Mnemomic, r: ResolvedOperand) -> (res:
    OpReturn)
    requires
        old(bus).inv(),
        mnemomic.well_formed(),
    ensures
        final(bus).inv(),
        outcome(*final(cpu), final(bus)@, res) == instruction(
            mnemomic,
            *old(cpu),
            old(bus)@,
            r.operand,
        ),
{
    match mnemomic {
        Mnemomic::ADC => op_adc(cpu, bus, r),
        Mnemomic::AND => op_and(cpu, bus, r),
        Mnemomic::ASL => op_asl(cpu, bus, r),
        Mnemomic::BBRN(n) => op_bbrn(cpu, bus, r, n),
        Mnemomic::BBSN(n) => op_bbsn(cpu, bus, r, n),
        Mnemomic::BCC => op_bcc(cpu, bus, r),
        Mnemomic::BCS => op_bcs(cpu, bus, r),
        Mnemomic::BEQ => op_beq(cpu, bus, r),
        Mnemomic::BIT => op_bit(cpu, bus, r),
        Mnemomic::BMI => op_bmi(cpu, bus, r),
        Mnemomic::BNE => op_bne(cpu, bus, r),
        Mnemomic::BPL => op_bpl(cpu, bus, r),
        Mnemomic::BRA => op_bra(cpu, bus, r),
        Mnemomic::BRK => op_brk(cpu, bus, r),
        Mnemomic::BVC => op_bvc(cpu, bus, r),
        Mnemomic::BVS => op_bvs(cpu, bus, r),
        Mnemomic::CLC => op_clc(cpu, bus, r),
        Mnemomic::CLD => op_cld(cpu, bus, r),
        Mnemomic::CLI => op_cli(cpu, bus, r),
        Mnemomic::CLV => op_clv(cpu, bus, r),
        Mnemomic::CMP => op_cmp(cpu, bus, r),
        Mnemomic::CPX => op_cpx(cpu, bus, r),
        Mnemomic::CPY => op_cpy(cpu, bus, r),
        Mnemomic::DEC => op_dec(cpu, bus, r),
        Mnemomic::DEX => op_dex(cpu, bus, r),
        Mnemomic::DEY => op_dey(cpu, bus, r),
        Mnemomic::EOR => op_eor(cpu, bus, r),
        Mnemomic::INC => op_inc(cpu, bus, r),
        Mnemomic::INX => op_inx(cpu, bus, r),
        Mnemomic::INY => op_iny(cpu, bus, r),
        Mnemomic::JMP => op_jmp(cpu, bus, r),
        Mnemomic::JSR => op_jsr(cpu, bus, r),
        Mnemomic::LDA => op_lda(cpu, bus, r),
        Mnemomic::LDX => op_ldx(cpu, bus, r),
        Mnemomic::LDY => op_ldy(cpu, bus, r),
        Mnemomic::LSR => op_lsr(cpu, bus, r),
        Mnemomic::NOP => op_nop(cpu, bus, r),
        Mnemomic::ORA => op_ora(cpu, bus, r),
        Mnemomic::PHA => op_pha(cpu, bus, r),
        Mnemomic::PHP => op_php(cpu, bus, r),
        Mnemomic::PHX => op_phx(cpu, bus, r),
        Mnemomic::PHY => op_phy(cpu, bus, r),
        Mnemomic::PLA => op_pla(cpu, bus, r),
        Mnemomic::PLP => op_plp(cpu, bus, r),
        Mnemomic::PLX => op_plx(cpu, bus, r),
        Mnemomic::PLY => op_ply(cpu, bus, r),
        Mnemomic::RMBN(n) => op_rmbn(cpu, bus, r, n),
        Mnemomic::ROL => op_rol(cpu, bus, r),
        Mnemomic::ROR => op_ror(cpu, bus, r),
        Mnemomic::RTI => op_rti(cpu, bus, r),
        Mnemomic::RTS => op_rts(cpu, bus, r),
        Mnemomic::SBC => op_sbc(cpu, bus, r),
        Mnemomic::SEC => op_sec(cpu, bus, r),
        Mnemomic::SED => op_sed(cpu, bus, r),
        Mnemomic::SEI => op_sei(cpu, bus, r),
        Mnemomic::SMBN(n) => op_smbn(cpu, bus, r, n),
        Mnemomic::STA => op_sta(cpu, bus, r),
        Mnemomic::STP => op_stp(cpu, bus, r),
        Mnemomic::STX => op_stx(cpu, bus, r),
        Mnemomic::STY => op_sty(cpu, bus, r),
        Mnemomic::STZ => op_stz(cpu, bus, r),
        Mnemomic::TAX => op_tax(cpu, bus, r),
        Mnemomic::TAY => op_tay(cpu, bus, r),
        Mnemomic::TRB => op_trb(cpu, bus, r),
        Mnemomic::TSB => op_tsb(cpu, bus, r),
        Mnemomic::TSX => op_tsx(cpu, bus, r),
        Mnemomic::TXA => op_txa(cpu, bus, r),
        Mnemomic::TXS => op_txs(cpu, bus, r),
        Mnemomic::TYA => op_tya(cpu, bus, r),
        Mnemomic::WAI => op_wai(cpu, bus, r),
    }
}

} // verus!
