//! Laws of the processor: what holds of every state, proved from the meaning
//! of the instructions.
use crate::bus::{default_page_map, Bus, BusError, BusView, Machine};
use crate::cpu::decode::{decode, AddressingMode, Mnemomic};
use crate::cpu::instructions::{
    adc_spec, and_spec, asl_spec, bbrn_spec, bbsn_spec, bcc_spec, bcs_spec, beq_spec,
    bit_spec, bmi_spec, bne_spec, bpl_spec, bra_spec, brk_spec, bvc_spec, bvs_spec,
    clc_spec, cld_spec, cli_spec, clv_spec, cmp_spec, cpx_spec, cpy_spec, dec_spec,
    dex_spec, dey_spec, eor_spec, inc_spec, instruction, inx_spec, iny_spec, jmp_spec,
    jsr_spec, lda_spec, ldx_spec, ldy_spec, lsr_spec, nop_spec, ora_spec, pha_spec,
    php_spec, phx_spec, phy_spec, pla_spec, plp_spec, plx_spec, ply_spec, pulled_status,
    rmbn_spec, rol_spec, ror_spec, rti_spec, rts_spec, sbc_spec, sec_spec, sed_spec,
    sei_spec, smbn_spec, sta_spec, stp_spec, stx_spec, sty_spec, stz_spec, tax_spec,
    tay_spec, trb_spec, tsb_spec, tsx_spec, txa_spec, txs_spec, tya_spec, wai_spec,
};
use crate::cpu::operand::{done, resolve, CpuError, Operand, Outcome};
use crate::cpu::step::{lemma_fetch_u8, lemma_resolve_yields, lemma_step_executed};
use crate::cpu::registers::{Status, W65C02S};
use crate::cpu::word::{
    advance, high_byte, lemma_advance_twice, lemma_wrap_byte_twice, low_byte, signed, stack_address,
    word, wrap_byte,
};
use vstd::prelude::*;

verus! {

// ---- the bus ----

/// A read succeeds exactly where a page is mapped, and then yields the byte
/// behind the address.
pub proof fn lemma_read_total_where_mapped(bus: BusView, address: u16)
    ensures
        bus.mapped(address) <==> bus.read(address) is Ok,
        bus.mapped(address) ==> bus.read(address) == Ok::<u8, BusError>(bus.cells[address]),
{
}

/// The default page map covers the whole address space: a machine that has it
/// answers a read of every address.
pub proof fn lemma_default_map_covers_all(machine: Machine, address: u16)
    requires
        machine.page_map() == default_page_map(),
    ensures
        machine@.mapped(address),
        machine@.read(address) is Ok,
        machine@.writable.contains(address) <==> address < 0x8000,
{
}

/// A byte that was written is the byte that is read back, and a write leaves
/// every other address as it was.
pub proof fn lemma_read_after_write(bus: BusView, address: u16, val: u8, other: u16)
    requires
        bus.write_result(address) is Ok,
    ensures
        bus.write(address, val).read(address) == Ok::<u8, BusError>(val),
        other != address ==> bus.write(address, val).read(other) == bus.read(other),
        bus.write(address, val).writable == bus.writable,
{
}

// ---- words ----

/// A word is made of its low and its high byte.
pub proof fn lemma_word_of_bytes(w: u16)
    ensures
        word(low_byte(w), high_byte(w)) == w,
{
}

/// Moving an address back by `delta` undoes moving it on by `delta`.
pub proof fn lemma_advance_back(base: u16, delta: int)
    ensures
        advance(advance(base, delta), -delta) == base,
        advance(base, 0x1_0000) == base,
{
}

/// Moving a byte back by `delta` undoes moving it on by `delta`, and 256
/// steps of one bring it back to where it was.
pub proof fn lemma_wrap_byte_back(b: u8, delta: int)
    ensures
        wrap_byte(wrap_byte(b, delta), -delta) == b,
        wrap_byte(b, 256) == b,
{
}

// ---- the status register ----

/// The byte that `PLP` and `RTI` give to `P` has bit 5 set and bit 4 clear,
/// and is the pulled byte in every other bit.
pub proof fn lemma_pulled_status_bits(pulled: u8)
    ensures
        pulled_status(pulled) & 0x20 == 0x20,
        pulled_status(pulled) & 0x10 == 0,
        pulled_status(pulled) & 0xCF == pulled & 0xCF,
{
    assert(((pulled | 0x20) & !0x10u8) & 0x20 == 0x20 && ((pulled | 0x20) & !0x10u8) & 0x10 == 0
        && ((pulled | 0x20) & !0x10u8) & 0xCF == pulled & 0xCF) by (bit_vector);
}

/// After a `PLP` or an `RTI`, bit 5 of `P` reads as one and bit 4 as zero,
/// whatever was on the stack.
pub proof fn lemma_status_after_plp_and_rti(cpu: W65C02S, bus: BusView, operand: Operand)
    ensures
        ({
            let after = instruction(Mnemomic::PLP, cpu, bus, operand);
            after.result is Ok ==> after.cpu.processor_status_register & 0x20 == 0x20
                && after.cpu.processor_status_register & 0x10 == 0
        }),
        ({
            let after = instruction(Mnemomic::RTI, cpu, bus, operand);
            after.result is Ok ==> after.cpu.processor_status_register & 0x20 == 0x20
                && after.cpu.processor_status_register & 0x10 == 0
        }),
{
    reveal(plp_spec);
    reveal(rti_spec);
    assert forall|pulled: u8|
        (#[trigger] pulled_status(pulled)) & 0x20 == 0x20 && pulled_status(pulled) & 0x10
            == 0 by {
        lemma_pulled_status_bits(pulled);
    }
}

/// `BIT` with an immediate operand changes `Z` and nothing else: `N`, `V` and
/// every other flag, the registers and the bus stay as they were.
pub proof fn lemma_bit_immediate_changes_z_only(cpu: W65C02S, bus: BusView, v: u8)
    ensures
        ({
            let after = instruction(Mnemomic::BIT, cpu, bus, Operand::Value(v));
            &&& after.result is Ok
            &&& after.bus == bus
            &&& after.cpu == cpu.with_flag(Status::Z, cpu.a_register & v == 0)
            &&& after.cpu.flag(Status::Z) == (cpu.a_register & v == 0)
            &&& after.cpu.flag(Status::N) == cpu.flag(Status::N)
            &&& after.cpu.flag(Status::V) == cpu.flag(Status::V)
            &&& forall|f: Status| f != Status::Z ==> after.cpu.flag(f) == cpu.flag(f)
        }),
{
    reveal(bit_spec);
    let after = instruction(Mnemomic::BIT, cpu, bus, Operand::Value(v));
    assert(after == done(cpu.bit_test(v, true), bus, ()));
    assert forall|f: Status| #[trigger]
        after.cpu.flag(f) == (if f == Status::Z {
            cpu.a_register & v == 0
        } else {
            cpu.flag(f)
        }) by {
        cpu.lemma_flag_of_with_flag(Status::Z, cpu.a_register & v == 0, f);
    }
}

/// `CLC` twice is `CLC` once, and `SEC` twice is `SEC` once: the second
/// leaves `C`, and the whole state, as the first left it.
pub proof fn lemma_clc_and_sec_idempotent(cpu: W65C02S, bus: BusView, operand: Operand)
    ensures
        ({
            let first = instruction(Mnemomic::CLC, cpu, bus, operand);
            let second = instruction(Mnemomic::CLC, first.cpu, first.bus, operand);
            second == first && first.result is Ok && !first.cpu.flag(Status::C)
        }),
        ({
            let first = instruction(Mnemomic::SEC, cpu, bus, operand);
            let second = instruction(Mnemomic::SEC, first.cpu, first.bus, operand);
            second == first && first.result is Ok && first.cpu.flag(Status::C)
        }),
{
    reveal(clc_spec);
    reveal(sec_spec);
    cpu.lemma_with_flag_twice(Status::C, false, Status::C, false);
    cpu.lemma_with_flag_twice(Status::C, true, Status::C, true);
    cpu.lemma_flag_of_with_flag(Status::C, false, Status::C);
    cpu.lemma_flag_of_with_flag(Status::C, true, Status::C);
}

// ---- the stack ----

/// A pull undoes a push: it yields the byte that was pushed and leaves the
/// registers as they were before the push.
pub proof fn lemma_pull_after_push(cpu: W65C02S, bus: BusView, val: u8)
    requires
        cpu.push_spec(bus, val).result is Ok,
    ensures
        ({
            let pushed = cpu.push_spec(bus, val);
            let pulled = pushed.cpu.pull_spec(pushed.bus);
            &&& pulled.result == Ok::<u8, CpuError>(val)
            &&& pulled.cpu == cpu
            &&& pulled.bus == bus.write(stack_address(cpu.stack_pointer), val)
        }),
{
}

/// `PHA` then `PLA` restores `A` and the stack pointer, and leaves `Z` and
/// `N` saying what `A` holds. Where the program counter stands when the
/// `PLA` is performed does not matter.
pub proof fn lemma_pha_then_pla(
    cpu: W65C02S,
    bus: BusView,
    push_operand: Operand,
    pc_at_pull: u16,
    pull_operand: Operand,
)
    requires
        instruction(Mnemomic::PHA, cpu, bus, push_operand).result is Ok,
    ensures
        ({
            let pushed = instruction(Mnemomic::PHA, cpu, bus, push_operand);
            let pulled = instruction(
                Mnemomic::PLA,
                pushed.cpu.with_pc(pc_at_pull),
                pushed.bus,
                pull_operand,
            );
            &&& pulled.result is Ok
            &&& pulled.bus == pushed.bus
            &&& pulled.cpu == cpu.with_zn(cpu.a_register).with_pc(pc_at_pull)
            &&& pulled.cpu.a_register == cpu.a_register
            &&& pulled.cpu.stack_pointer == cpu.stack_pointer
            &&& pulled.cpu.flag(Status::Z) == (cpu.a_register == 0)
            &&& pulled.cpu.flag(Status::N) == (cpu.a_register >= 0x80)
        }),
{
    reveal(pha_spec);
    reveal(pla_spec);
    lemma_pull_after_push(cpu, bus, cpu.a_register);
    cpu.lemma_with_zn_flags(cpu.a_register, Status::Z);
    cpu.lemma_with_zn_flags(cpu.a_register, Status::N);
    let pushed = cpu.push_spec(bus, cpu.a_register);
    assert(pushed.cpu.with_pc(pc_at_pull).pull_spec(pushed.bus).cpu == pushed.cpu.pull_spec(
        pushed.bus,
    ).cpu.with_pc(pc_at_pull));
}

/// `PHX` then `PLX` restores `X` and the stack pointer, and leaves `Z` and
/// `N` saying what `X` holds. Where the program counter stands when the
/// `PLX` is performed does not matter.
pub proof fn lemma_phx_then_plx(
    cpu: W65C02S,
    bus: BusView,
    push_operand: Operand,
    pc_at_pull: u16,
    pull_operand: Operand,
)
    requires
        instruction(Mnemomic::PHX, cpu, bus, push_operand).result is Ok,
    ensures
        ({
            let pushed = instruction(Mnemomic::PHX, cpu, bus, push_operand);
            let pulled = instruction(
                Mnemomic::PLX,
                pushed.cpu.with_pc(pc_at_pull),
                pushed.bus,
                pull_operand,
            );
            &&& pulled.result is Ok
            &&& pulled.bus == pushed.bus
            &&& pulled.cpu == cpu.with_zn(cpu.x_register).with_pc(pc_at_pull)
            &&& pulled.cpu.x_register == cpu.x_register
            &&& pulled.cpu.stack_pointer == cpu.stack_pointer
            &&& pulled.cpu.flag(Status::Z) == (cpu.x_register == 0)
            &&& pulled.cpu.flag(Status::N) == (cpu.x_register >= 0x80)
        }),
{
    reveal(phx_spec);
    reveal(plx_spec);
    lemma_pull_after_push(cpu, bus, cpu.x_register);
    cpu.lemma_with_zn_flags(cpu.x_register, Status::Z);
    cpu.lemma_with_zn_flags(cpu.x_register, Status::N);
    let pushed = cpu.push_spec(bus, cpu.x_register);
    assert(pushed.cpu.with_pc(pc_at_pull).pull_spec(pushed.bus).cpu == pushed.cpu.pull_spec(
        pushed.bus,
    ).cpu.with_pc(pc_at_pull));
}

/// `PHY` then `PLY` restores `Y` and the stack pointer, and leaves `Z` and
/// `N` saying what `Y` holds. Where the program counter stands when the
/// `PLY` is performed does not matter.
pub proof fn lemma_phy_then_ply(
    cpu: W65C02S,
    bus: BusView,
    push_operand: Operand,
    pc_at_pull: u16,
    pull_operand: Operand,
)
    requires
        instruction(Mnemomic::PHY, cpu, bus, push_operand).result is Ok,
    ensures
        ({
            let pushed = instruction(Mnemomic::PHY, cpu, bus, push_operand);
            let pulled = instruction(
                Mnemomic::PLY,
                pushed.cpu.with_pc(pc_at_pull),
                pushed.bus,
                pull_operand,
            );
            &&& pulled.result is Ok
            &&& pulled.bus == pushed.bus
            &&& pulled.cpu == cpu.with_zn(cpu.y_register).with_pc(pc_at_pull)
            &&& pulled.cpu.y_register == cpu.y_register
            &&& pulled.cpu.stack_pointer == cpu.stack_pointer
            &&& pulled.cpu.flag(Status::Z) == (cpu.y_register == 0)
            &&& pulled.cpu.flag(Status::N) == (cpu.y_register >= 0x80)
        }),
{
    reveal(phy_spec);
    reveal(ply_spec);
    lemma_pull_after_push(cpu, bus, cpu.y_register);
    cpu.lemma_with_zn_flags(cpu.y_register, Status::Z);
    cpu.lemma_with_zn_flags(cpu.y_register, Status::N);
    let pushed = cpu.push_spec(bus, cpu.y_register);
    assert(pushed.cpu.with_pc(pc_at_pull).pull_spec(pushed.bus).cpu == pushed.cpu.pull_spec(
        pushed.bus,
    ).cpu.with_pc(pc_at_pull));
}

/// Two pulls undo two pushes: they yield the bytes that were pushed, last
/// first, and leave the registers as they were before the pushes.
pub proof fn lemma_pull_two_after_push_two(cpu: W65C02S, bus: BusView, first: u8, second: u8)
    requires
        cpu.push_spec(bus, first).result is Ok,
        cpu.push_spec(bus, first).cpu.push_spec(cpu.push_spec(bus, first).bus, second).result is Ok,
    ensures
        ({
            let one = cpu.push_spec(bus, first);
            let two = one.cpu.push_spec(one.bus, second);
            let back_one = two.cpu.pull_spec(two.bus);
            let back_two = back_one.cpu.pull_spec(back_one.bus);
            &&& two.cpu == cpu.with_sp(wrap_byte(cpu.stack_pointer, -2))
            &&& back_one.result == Ok::<u8, CpuError>(second)
            &&& back_two.result == Ok::<u8, CpuError>(first)
            &&& back_two.cpu == cpu
            &&& back_two.bus == two.bus
        }),
{
    let one = cpu.push_spec(bus, first);
    lemma_pull_after_push(one.cpu, one.bus, second);
    lemma_pull_after_push(cpu, bus, first);
}

/// `JSR` to `target` followed at once by `RTS` brings the processor back to
/// where it stood behind the `JSR`: the program counter is at the instruction
/// after it, and the stack pointer and every other register are as before.
/// Where the program counter stands when the `RTS` is performed does not
/// matter.
pub proof fn lemma_jsr_then_rts(
    cpu: W65C02S,
    bus: BusView,
    target: u16,
    pc_at_rts: u16,
    operand: Operand,
)
    requires
        instruction(Mnemomic::JSR, cpu, bus, Operand::Address(target)).result is Ok,
    ensures
        ({
            let called = instruction(Mnemomic::JSR, cpu, bus, Operand::Address(target));
            let returned = instruction(
                Mnemomic::RTS,
                called.cpu.with_pc(pc_at_rts),
                called.bus,
                operand,
            );
            &&& called.cpu == cpu.with_pc(target).with_sp(wrap_byte(cpu.stack_pointer, -2))
            &&& returned.result is Ok
            &&& returned.cpu == cpu
            &&& returned.bus == called.bus
        }),
{
    let back = advance(cpu.program_counter, -1);
    let called = instruction(Mnemomic::JSR, cpu, bus, Operand::Address(target));
    let resumed = called.cpu.with_pc(pc_at_rts);
    let one = cpu.push_spec(bus, high_byte(back));
    let two = one.cpu.push_spec(one.bus, low_byte(back));
    assert(one.result is Ok && two.result is Ok && called == done(
        two.cpu.with_pc(target),
        two.bus,
        (),
    )) by {
        reveal(jsr_spec);
    }
    lemma_pull_two_after_push_two(cpu, bus, high_byte(back), low_byte(back));
    lemma_word_of_bytes(back);
    lemma_advance_back(cpu.program_counter, -1);
    let back_one = two.cpu.pull_spec(two.bus);
    assert(resumed.pull_spec(called.bus).cpu == back_one.cpu.with_pc(pc_at_rts));
    assert(rts_spec(resumed, called.bus, operand) == done(cpu, called.bus, ())) by {
        reveal(rts_spec);
    }
}

/// `BRK` followed at once by `RTI` brings the processor back behind the
/// break: the program counter stands two bytes behind the opcode of the
/// `BRK`, the stack pointer and the registers are as before, and `P` is as
/// before but for the reserved bit, which is set, and the break bit, which is
/// clear. Where the program counter stands when the `RTI` is performed does
/// not matter.
pub proof fn lemma_brk_then_rti(
    cpu: W65C02S,
    bus: BusView,
    break_operand: Operand,
    pc_at_rti: u16,
    return_operand: Operand,
)
    requires
        instruction(Mnemomic::BRK, cpu, bus, break_operand).result is Ok,
    ensures
        ({
            let broken = instruction(Mnemomic::BRK, cpu, bus, break_operand);
            let returned = instruction(
                Mnemomic::RTI,
                broken.cpu.with_pc(pc_at_rti),
                broken.bus,
                return_operand,
            );
            &&& broken.cpu.flag(Status::I)
            &&& broken.cpu.stack_pointer == wrap_byte(cpu.stack_pointer, -3)
            &&& returned.result is Ok
            &&& returned.bus == broken.bus
            &&& returned.cpu == cpu.with_pc(advance(cpu.program_counter, 1)).with_p(
                (cpu.processor_status_register | 0x20) & !0x10u8,
            )
        }),
{
    let back = advance(cpu.program_counter, 1);
    let p = cpu.processor_status_register;
    let broken = instruction(Mnemomic::BRK, cpu, bus, break_operand);
    let one = cpu.push_spec(bus, high_byte(back));
    let two = one.cpu.push_spec(one.bus, low_byte(back));
    let three = two.cpu.push_spec(two.bus, p | 0x10);
    assert(one.result is Ok && two.result is Ok && three.result is Ok && broken.bus == three.bus
        && broken.cpu == three.cpu.with_flag(Status::I, true).with_pc(
        broken.cpu.program_counter,
    )) by {
        reveal(brk_spec);
    }
    three.cpu.lemma_flag_of_with_flag(Status::I, true, Status::I);
    lemma_pull_after_push(two.cpu, two.bus, p | 0x10);
    lemma_pull_two_after_push_two(cpu, bus, high_byte(back), low_byte(back));
    lemma_wrap_byte_twice(cpu.stack_pointer, -2, -1);
    lemma_word_of_bytes(back);
    assert(pulled_status(p | 0x10) == (p | 0x20) & !0x10u8) by (bit_vector);
    let resumed = broken.cpu.with_pc(pc_at_rti);
    assert(rti_spec(resumed, broken.bus, return_operand) == done(
        cpu.with_pc(back).with_p(pulled_status(p | 0x10)),
        broken.bus,
        (),
    )) by {
        reveal(rti_spec);
    }
}

// ---- arithmetic ----

/// The flags after an addition: `C` is the carry out of bit 7, `V` says that
/// the sum of the operands, read as signed numbers, does not fit in a signed
/// byte, and `Z` and `N` say what the result is.
pub proof fn lemma_adc_flags(cpu: W65C02S, m: u8)
    ensures
        ({
            let sum = cpu.a_register as int + m as int + cpu.carry();
            let signed_sum = signed(cpu.a_register) + signed(m) + cpu.carry();
            let after = cpu.adc(m);
            &&& after.a_register as int == sum % 256
            &&& after.flag(Status::C) == (sum > 0xFF)
            &&& after.flag(Status::V) == (signed_sum < -128 || signed_sum > 127)
            &&& after.flag(Status::Z) == (after.a_register == 0)
            &&& after.flag(Status::N) == (after.a_register >= 0x80)
        }),
{
    let sum = cpu.a_register as int + m as int + cpu.carry();
    let result = (sum % 256) as u8;
    let carried = cpu.with_flag(Status::C, sum > 0xFF);
    let overflowed = carried.with_flag(
        Status::V,
        W65C02S::signs_overflow(cpu.a_register, m, result),
    );
    carried.lemma_flag_of_with_flag(
        Status::V,
        W65C02S::signs_overflow(cpu.a_register, m, result),
        Status::C,
    );
    cpu.lemma_flag_of_with_flag(Status::C, sum > 0xFF, Status::C);
    carried.lemma_flag_of_with_flag(
        Status::V,
        W65C02S::signs_overflow(cpu.a_register, m, result),
        Status::V,
    );
    overflowed.lemma_with_zn_flags(result, Status::C);
    overflowed.lemma_with_zn_flags(result, Status::V);
    overflowed.lemma_with_zn_flags(result, Status::Z);
    overflowed.lemma_with_zn_flags(result, Status::N);
}

/// A subtraction with borrow is the subtraction `A - m - (1 - C)`: `C` says
/// that no borrow was needed, `V` that the difference of the operands, read
/// as signed numbers, does not fit in a signed byte.
pub proof fn lemma_sbc_flags(cpu: W65C02S, m: u8)
    ensures
        ({
            let difference = cpu.a_register as int - m as int - (1 - cpu.carry());
            let signed_difference = signed(cpu.a_register) - signed(m) - (1 - cpu.carry());
            let after = cpu.sbc(m);
            &&& after.a_register == wrap_byte(cpu.a_register, -(m as int) - (1 - cpu.carry()))
            &&& after.flag(Status::C) == (difference >= 0)
            &&& after.flag(Status::V) == (signed_difference < -128 || signed_difference > 127)
            &&& after.flag(Status::Z) == (after.a_register == 0)
            &&& after.flag(Status::N) == (after.a_register >= 0x80)
        }),
{
    lemma_adc_flags(cpu, (255 - m) as u8);
}

/// A comparison leaves `C` saying `reg >= m`, `Z` saying `reg == m`, and `N`
/// holding bit 7 of the wrapped difference.
pub proof fn lemma_compare_flags(cpu: W65C02S, reg: u8, m: u8)
    ensures
        ({
            let after = cpu.compare(reg, m);
            &&& after.flag(Status::C) == (reg >= m)
            &&& after.flag(Status::Z) == (reg == m)
            &&& after.flag(Status::N) == (wrap_byte(reg, -(m as int)) >= 0x80)
            &&& after == cpu.with_p(after.processor_status_register)
        }),
{
    let carried = cpu.with_flag(Status::C, reg >= m);
    cpu.lemma_flag_of_with_flag(Status::C, reg >= m, Status::C);
    carried.lemma_with_zn_flags(wrap_byte(reg, -(m as int)), Status::C);
    carried.lemma_with_zn_flags(wrap_byte(reg, -(m as int)), Status::Z);
    carried.lemma_with_zn_flags(wrap_byte(reg, -(m as int)), Status::N);
}

// ---- repetition ----

/// The instruction `mnemomic` on `operand`, `n` times in a row.
pub open spec fn repeated(
    mnemomic: Mnemomic,
    operand: Operand,
    n: nat,
    cpu: W65C02S,
    bus: BusView,
) -> Outcome<()>
    decreases n,
{
    if n == 0 {
        done(cpu, bus, ())
    } else {
        repeated(mnemomic, operand, (n - 1) as nat, cpu, bus).and_then(
            |c: W65C02S, b: BusView, unit: ()| instruction(mnemomic, c, b, operand),
        )
    }
}

/// One `INC A`: `A` moves on by one, wrapping, and `Z` and `N` say what it
/// holds.
pub proof fn lemma_inc_accumulator(cpu: W65C02S, bus: BusView)
    ensures
        instruction(Mnemomic::INC, cpu, bus, Operand::Accumulator) == done(
            cpu.load_a(wrap_byte(cpu.a_register, 1)),
            bus,
            (),
        ),
{
    reveal(inc_spec);
}

/// One `INC` on a writable byte of memory: the byte moves on by one,
/// wrapping, and `Z` and `N` say what it holds.
pub proof fn lemma_inc_memory(cpu: W65C02S, bus: BusView, address: u16)
    requires
        bus.mapped(address),
        bus.writable.contains(address),
    ensures
        instruction(Mnemomic::INC, cpu, bus, Operand::Address(address)) == done(
            cpu.with_zn(wrap_byte(bus.cells[address], 1)),
            bus.write(address, wrap_byte(bus.cells[address], 1)),
            (),
        ),
{
    reveal(inc_spec);
}

/// `INC A`, `n` times: `A` has moved on by `n`, wrapping, and `Z` and `N`
/// say what it holds.
pub proof fn lemma_inc_accumulator_repeated(cpu: W65C02S, bus: BusView, n: nat)
    requires
        n >= 1,
    ensures
        repeated(Mnemomic::INC, Operand::Accumulator, n, cpu, bus) == done(
            cpu.load_a(wrap_byte(cpu.a_register, n as int)),
            bus,
            (),
        ),
    decreases n,
{
    reveal_with_fuel(repeated, 2);
    if n == 1 {
        lemma_inc_accumulator(cpu, bus);
    } else {
        lemma_inc_accumulator_repeated(cpu, bus, (n - 1) as nat);
        let before = wrap_byte(cpu.a_register, n - 1);
        let now = wrap_byte(cpu.a_register, n as int);
        lemma_wrap_byte_twice(cpu.a_register, n - 1, 1);
        lemma_inc_accumulator(cpu.load_a(before), bus);
        cpu.lemma_with_zn_twice(before, now);
        assert(cpu.load_a(before).load_a(now) == cpu.load_a(now));
    }
}

/// `INC` on a writable byte of memory, `n` times: the byte has moved on by
/// `n`, wrapping, and `Z` and `N` say what it holds.
pub proof fn lemma_inc_memory_repeated(cpu: W65C02S, bus: BusView, address: u16, n: nat)
    requires
        n >= 1,
        bus.mapped(address),
        bus.writable.contains(address),
    ensures
        repeated(Mnemomic::INC, Operand::Address(address), n, cpu, bus) == done(
            cpu.with_zn(wrap_byte(bus.cells[address], n as int)),
            bus.write(address, wrap_byte(bus.cells[address], n as int)),
            (),
        ),
    decreases n,
{
    reveal_with_fuel(repeated, 2);
    if n == 1 {
        lemma_inc_memory(cpu, bus, address);
    } else {
        lemma_inc_memory_repeated(cpu, bus, address, (n - 1) as nat);
        let before = wrap_byte(bus.cells[address], n - 1);
        let now = wrap_byte(bus.cells[address], n as int);
        lemma_wrap_byte_twice(bus.cells[address], n - 1, 1);
        lemma_inc_memory(cpu.with_zn(before), bus.write(address, before), address);
        cpu.lemma_with_zn_twice(before, now);
        assert(bus.write(address, before).write(address, now).cells =~= bus.write(
            address,
            now,
        ).cells);
    }
}

/// `INC` 256 times brings its operand, the accumulator or a writable byte of
/// memory, back to the value `v` it had, and leaves the bus as it was. After
/// the last of them `Z` and `N` say what `v` is: where `v` is zero, `Z` is
/// set and `N` is clear.
pub proof fn lemma_inc_256_times(cpu: W65C02S, bus: BusView, operand: Operand, v: u8)
    requires
        operand.load(cpu, bus).result == Ok::<u8, CpuError>(v),
        operand.store(cpu, bus, v).result is Ok,
    ensures
        ({
            let after = repeated(Mnemomic::INC, operand, 256, cpu, bus);
            &&& after.result is Ok
            &&& after.bus == bus
            &&& operand.load(after.cpu, after.bus).result == Ok::<u8, CpuError>(v)
            &&& after.cpu.flag(Status::Z) == (v == 0)
            &&& after.cpu.flag(Status::N) == (v >= 0x80)
            &&& v == 0 ==> after.cpu.flag(Status::Z) && !after.cpu.flag(Status::N)
        }),
{
    cpu.lemma_with_zn_flags(v, Status::Z);
    cpu.lemma_with_zn_flags(v, Status::N);
    match operand {
        Operand::Accumulator => {
            lemma_inc_accumulator_repeated(cpu, bus, 256);
        },
        Operand::Address(address) => {
            lemma_inc_memory_repeated(cpu, bus, address, 256);
            assert(bus.write(address, v).cells =~= bus.cells);
        },
        _ => {},
    }
}

// ---- what no instruction changes ----

/// What holds between the state before a piece of work and the state after,
/// whatever the work and however it ends: the addresses that accept a write
/// are the same, the addresses that are mapped are the same (on a bus where
/// every writable address is mapped), and the reserved bit of `P`, once set,
/// stays set.
pub open spec fn kept<T>(cpu: W65C02S, bus: BusView, after: Outcome<T>) -> bool {
    &&& after.bus.writable == bus.writable
    &&& bus.sound() ==> after.bus.sound() && forall|address: u16|
        after.bus.mapped(address) == bus.mapped(address)
    &&& cpu.reserved_set() ==> after.cpu.reserved_set()
}

/// A write changes neither which addresses are writable nor, on a bus where
/// every writable address is mapped, which addresses are mapped.
pub proof fn lemma_write_keeps_the_map(bus: BusView, address: u16, val: u8)
    ensures
        bus.write(address, val).writable == bus.writable,
        bus.sound() ==> bus.write(address, val).sound() && forall|a: u16|
            bus.write(address, val).mapped(a) == bus.mapped(a),
{
}

/// No effect of an instruction on the registers touches the reserved bit of
/// `P`, and the byte that `PLP` and `RTI` give to `P` has it set.
pub proof fn lemma_reserved_bit_is_kept()
    ensures
        forall|c: W65C02S, f: Status, val: bool|
            (#[trigger] c.with_flag(f, val)).reserved_set() == c.reserved_set(),
        forall|c: W65C02S, m: u8| (#[trigger] c.with_zn(m)).reserved_set() == c.reserved_set(),
        forall|c: W65C02S, m: u8| (#[trigger] c.load_a(m)).reserved_set() == c.reserved_set(),
        forall|c: W65C02S, m: u8| (#[trigger] c.load_x(m)).reserved_set() == c.reserved_set(),
        forall|c: W65C02S, m: u8| (#[trigger] c.load_y(m)).reserved_set() == c.reserved_set(),
        forall|c: W65C02S, m: u8| (#[trigger] c.adc(m)).reserved_set() == c.reserved_set(),
        forall|c: W65C02S, m: u8| (#[trigger] c.sbc(m)).reserved_set() == c.reserved_set(),
        forall|c: W65C02S, reg: u8, m: u8| (#[trigger] c.compare(reg, m)).reserved_set() == c.reserved_set(),
        forall|c: W65C02S, m: u8, flag: bool| (#[trigger] c.bit_test(m, flag)).reserved_set() == c.reserved_set(),
        forall|c: W65C02S, m: u8| (#[trigger] c.asl(m)).0.reserved_set() == c.reserved_set(),
        forall|c: W65C02S, m: u8| (#[trigger] c.lsr(m)).0.reserved_set() == c.reserved_set(),
        forall|c: W65C02S, m: u8| (#[trigger] c.rol(m)).0.reserved_set() == c.reserved_set(),
        forall|c: W65C02S, m: u8| (#[trigger] c.ror(m)).0.reserved_set() == c.reserved_set(),
        forall|c: W65C02S, m: u8| (#[trigger] c.inc(m)).0.reserved_set() == c.reserved_set(),
        forall|c: W65C02S, m: u8| (#[trigger] c.dec(m)).0.reserved_set() == c.reserved_set(),
        forall|c: W65C02S, m: u8| (#[trigger] c.trb(m)).0.reserved_set() == c.reserved_set(),
        forall|c: W65C02S, m: u8| (#[trigger] c.tsb(m)).0.reserved_set() == c.reserved_set(),
        forall|c: W65C02S, flag: bool, offset: i8| (#[trigger] c.branch(flag, offset)).reserved_set() == c.reserved_set(),
        forall|pulled: u8| (#[trigger] pulled_status(pulled)) & 0x20 != 0,
{
    assert forall|c: W65C02S, f: Status, val: bool|
        (#[trigger] c.with_flag(f, val)).reserved_set() == c.reserved_set() by {
        c.lemma_with_flag_keeps_reserved(f, val);
    }
    assert forall|pulled: u8| (#[trigger] pulled_status(pulled)) & 0x20 != 0 by {
        lemma_pulled_status_bits(pulled);
    }
}

/// The instructions that read their operand into the registers.
proof fn lemma_reading_keeps(mnemomic: Mnemomic, cpu: W65C02S, bus: BusView, operand: Operand)
    requires
        mnemomic is ADC || mnemomic is AND || mnemomic is BIT || mnemomic is CMP ||
            mnemomic is CPX || mnemomic is CPY || mnemomic is EOR || mnemomic is LDA
            || mnemomic is LDX || mnemomic is LDY || mnemomic is ORA || mnemomic is
            SBC,
    ensures
        kept(cpu, bus, instruction(mnemomic, cpu, bus, operand)),
{
    lemma_reserved_bit_is_kept();
    match mnemomic {
        Mnemomic::ADC => {
            reveal(adc_spec);
        },
        Mnemomic::AND => {
            reveal(and_spec);
        },
        Mnemomic::BIT => {
            reveal(bit_spec);
        },
        Mnemomic::CMP => {
            reveal(cmp_spec);
        },
        Mnemomic::CPX => {
            reveal(cpx_spec);
        },
        Mnemomic::CPY => {
            reveal(cpy_spec);
        },
        Mnemomic::EOR => {
            reveal(eor_spec);
        },
        Mnemomic::LDA => {
            reveal(lda_spec);
        },
        Mnemomic::LDX => {
            reveal(ldx_spec);
        },
        Mnemomic::LDY => {
            reveal(ldy_spec);
        },
        Mnemomic::ORA => {
            reveal(ora_spec);
        },
        Mnemomic::SBC => {
            reveal(sbc_spec);
        },
        _ => {},
    }
}

/// The shifts, rotations, increments and decrements of an operand.
proof fn lemma_shifting_keeps(mnemomic: Mnemomic, cpu: W65C02S, bus: BusView, operand: Operand)
    requires
        mnemomic is ASL || mnemomic is LSR || mnemomic is ROL || mnemomic is ROR ||
            mnemomic is INC || mnemomic is DEC,
    ensures
        kept(cpu, bus, instruction(mnemomic, cpu, bus, operand)),
{
    lemma_reserved_bit_is_kept();
    match mnemomic {
        Mnemomic::ASL => {
            reveal(asl_spec);
        },
        Mnemomic::LSR => {
            reveal(lsr_spec);
        },
        Mnemomic::ROL => {
            reveal(rol_spec);
        },
        Mnemomic::ROR => {
            reveal(ror_spec);
        },
        Mnemomic::INC => {
            reveal(inc_spec);
        },
        Mnemomic::DEC => {
            reveal(dec_spec);
        },
        _ => {},
    }
}

/// The instructions that set or reset bits of an operand.
proof fn lemma_bit_setting_keeps(mnemomic: Mnemomic, cpu: W65C02S, bus: BusView, operand: Operand)
    requires
        mnemomic is TRB || mnemomic is TSB || mnemomic is RMBN || mnemomic is SMBN,
    ensures
        kept(cpu, bus, instruction(mnemomic, cpu, bus, operand)),
{
    lemma_reserved_bit_is_kept();
    match mnemomic {
        Mnemomic::TRB => {
            reveal(trb_spec);
        },
        Mnemomic::TSB => {
            reveal(tsb_spec);
        },
        Mnemomic::RMBN(_) => {
            reveal(rmbn_spec);
        },
        Mnemomic::SMBN(_) => {
            reveal(smbn_spec);
        },
        _ => {},
    }
}

/// The stores.
proof fn lemma_storing_keeps(mnemomic: Mnemomic, cpu: W65C02S, bus: BusView, operand: Operand)
    requires
        mnemomic is STA || mnemomic is STX || mnemomic is STY || mnemomic is STZ,
    ensures
        kept(cpu, bus, instruction(mnemomic, cpu, bus, operand)),
{
    lemma_reserved_bit_is_kept();
    match mnemomic {
        Mnemomic::STA => {
            reveal(sta_spec);
        },
        Mnemomic::STX => {
            reveal(stx_spec);
        },
        Mnemomic::STY => {
            reveal(sty_spec);
        },
        Mnemomic::STZ => {
            reveal(stz_spec);
        },
        _ => {},
    }
}

/// The branches.
proof fn lemma_branching_keeps(mnemomic: Mnemomic, cpu: W65C02S, bus: BusView, operand: Operand)
    requires
        mnemomic is BBRN || mnemomic is BBSN || mnemomic is BCC || mnemomic is BCS
            || mnemomic is BEQ || mnemomic is BMI || mnemomic is BNE || mnemomic is
            BPL || mnemomic is BRA || mnemomic is BVC || mnemomic is BVS,
    ensures
        kept(cpu, bus, instruction(mnemomic, cpu, bus, operand)),
{
    lemma_reserved_bit_is_kept();
    match mnemomic {
        Mnemomic::BBRN(_) => {
            reveal(bbrn_spec);
        },
        Mnemomic::BBSN(_) => {
            reveal(bbsn_spec);
        },
        Mnemomic::BCC => {
            reveal(bcc_spec);
        },
        Mnemomic::BCS => {
            reveal(bcs_spec);
        },
        Mnemomic::BEQ => {
            reveal(beq_spec);
        },
        Mnemomic::BMI => {
            reveal(bmi_spec);
        },
        Mnemomic::BNE => {
            reveal(bne_spec);
        },
        Mnemomic::BPL => {
            reveal(bpl_spec);
        },
        Mnemomic::BRA => {
            reveal(bra_spec);
        },
        Mnemomic::BVC => {
            reveal(bvc_spec);
        },
        Mnemomic::BVS => {
            reveal(bvs_spec);
        },
        _ => {},
    }
}

/// The pushes and pulls.
proof fn lemma_stack_keeps(mnemomic: Mnemomic, cpu: W65C02S, bus: BusView, operand: Operand)
    requires
        mnemomic is PHA || mnemomic is PHP || mnemomic is PHX || mnemomic is PHY ||
            mnemomic is PLA || mnemomic is PLP || mnemomic is PLX || mnemomic is PLY,
    ensures
        kept(cpu, bus, instruction(mnemomic, cpu, bus, operand)),
{
    lemma_reserved_bit_is_kept();
    match mnemomic {
        Mnemomic::PHA => {
            reveal(pha_spec);
        },
        Mnemomic::PHP => {
            reveal(php_spec);
        },
        Mnemomic::PHX => {
            reveal(phx_spec);
        },
        Mnemomic::PHY => {
            reveal(phy_spec);
        },
        Mnemomic::PLA => {
            reveal(pla_spec);
        },
        Mnemomic::PLP => {
            reveal(plp_spec);
        },
        Mnemomic::PLX => {
            reveal(plx_spec);
        },
        Mnemomic::PLY => {
            reveal(ply_spec);
        },
        _ => {},
    }
}

/// The jumps, calls, returns and the break.
proof fn lemma_control_keeps(mnemomic: Mnemomic, cpu: W65C02S, bus: BusView, operand: Operand)
    requires
        mnemomic is BRK || mnemomic is JMP || mnemomic is JSR || mnemomic is RTI ||
            mnemomic is RTS,
    ensures
        kept(cpu, bus, instruction(mnemomic, cpu, bus, operand)),
{
    lemma_reserved_bit_is_kept();
    match mnemomic {
        Mnemomic::BRK => {
            reveal(brk_spec);
        },
        Mnemomic::JMP => {
            reveal(jmp_spec);
        },
        Mnemomic::JSR => {
            reveal(jsr_spec);
        },
        Mnemomic::RTI => {
            reveal(rti_spec);
        },
        Mnemomic::RTS => {
            reveal(rts_spec);
        },
        _ => {},
    }
}

/// The instructions that work on registers alone, and those that are not
/// modelled.
proof fn lemma_register_keeps(mnemomic: Mnemomic, cpu: W65C02S, bus: BusView, operand: Operand)
    requires
        mnemomic is CLC || mnemomic is CLD || mnemomic is CLI || mnemomic is CLV ||
            mnemomic is DEX || mnemomic is DEY || mnemomic is INX || mnemomic is INY
            || mnemomic is NOP || mnemomic is SEC || mnemomic is SED || mnemomic is
            SEI || mnemomic is STP || mnemomic is TAX || mnemomic is TAY || mnemomic
            is TSX || mnemomic is TXA || mnemomic is TXS || mnemomic is TYA ||
            mnemomic is WAI,
    ensures
        kept(cpu, bus, instruction(mnemomic, cpu, bus, operand)),
{
    lemma_reserved_bit_is_kept();
    match mnemomic {
        Mnemomic::CLC => {
            reveal(clc_spec);
        },
        Mnemomic::CLD => {
            reveal(cld_spec);
        },
        Mnemomic::CLI => {
            reveal(cli_spec);
        },
        Mnemomic::CLV => {
            reveal(clv_spec);
        },
        Mnemomic::DEX => {
            reveal(dex_spec);
        },
        Mnemomic::DEY => {
            reveal(dey_spec);
        },
        Mnemomic::INX => {
            reveal(inx_spec);
        },
        Mnemomic::INY => {
            reveal(iny_spec);
        },
        Mnemomic::NOP => {
            reveal(nop_spec);
        },
        Mnemomic::SEC => {
            reveal(sec_spec);
        },
        Mnemomic::SED => {
            reveal(sed_spec);
        },
        Mnemomic::SEI => {
            reveal(sei_spec);
        },
        Mnemomic::STP => {
            reveal(stp_spec);
        },
        Mnemomic::TAX => {
            reveal(tax_spec);
        },
        Mnemomic::TAY => {
            reveal(tay_spec);
        },
        Mnemomic::TSX => {
            reveal(tsx_spec);
        },
        Mnemomic::TXA => {
            reveal(txa_spec);
        },
        Mnemomic::TXS => {
            reveal(txs_spec);
        },
        Mnemomic::TYA => {
            reveal(tya_spec);
        },
        Mnemomic::WAI => {
            reveal(wai_spec);
        },
        _ => {},
    }
}

/// The page map is constant and the reserved bit stays set: no instruction,
/// whether it succeeds or stops, changes which addresses are mapped or
/// writable, or clears the reserved bit of `P`.
pub proof fn lemma_instruction_keeps(
    mnemomic: Mnemomic,
    cpu: W65C02S,
    bus: BusView,
    operand: Operand,
)
    ensures
        kept(cpu, bus, instruction(mnemomic, cpu, bus, operand)),
{
    match mnemomic {
        Mnemomic::ADC | Mnemomic::AND | Mnemomic::BIT | Mnemomic::CMP | Mnemomic::CPX
        | Mnemomic::CPY | Mnemomic::EOR | Mnemomic::LDA | Mnemomic::LDX
        | Mnemomic::LDY | Mnemomic::ORA | Mnemomic::SBC => {
            lemma_reading_keeps(mnemomic, cpu, bus, operand);
        },
        Mnemomic::ASL | Mnemomic::LSR | Mnemomic::ROL | Mnemomic::ROR | Mnemomic::INC
        | Mnemomic::DEC => {
            lemma_shifting_keeps(mnemomic, cpu, bus, operand);
        },
        Mnemomic::TRB | Mnemomic::TSB | Mnemomic::RMBN(_) | Mnemomic::SMBN(_) => {
            lemma_bit_setting_keeps(mnemomic, cpu, bus, operand);
        },
        Mnemomic::STA | Mnemomic::STX | Mnemomic::STY | Mnemomic::STZ => {
            lemma_storing_keeps(mnemomic, cpu, bus, operand);
        },
        Mnemomic::BBRN(_) | Mnemomic::BBSN(_) | Mnemomic::BCC | Mnemomic::BCS
        | Mnemomic::BEQ | Mnemomic::BMI | Mnemomic::BNE | Mnemomic::BPL
        | Mnemomic::BRA | Mnemomic::BVC | Mnemomic::BVS => {
            lemma_branching_keeps(mnemomic, cpu, bus, operand);
        },
        Mnemomic::PHA | Mnemomic::PHP | Mnemomic::PHX | Mnemomic::PHY | Mnemomic::PLA
        | Mnemomic::PLP | Mnemomic::PLX | Mnemomic::PLY => {
            lemma_stack_keeps(mnemomic, cpu, bus, operand);
        },
        Mnemomic::BRK | Mnemomic::JMP | Mnemomic::JSR | Mnemomic::RTI | Mnemomic::RTS => {
            lemma_control_keeps(mnemomic, cpu, bus, operand);
        },
        Mnemomic::CLC | Mnemomic::CLD | Mnemomic::CLI | Mnemomic::CLV | Mnemomic::DEX
        | Mnemomic::DEY | Mnemomic::INX | Mnemomic::INY | Mnemomic::NOP
        | Mnemomic::SEC | Mnemomic::SED | Mnemomic::SEI | Mnemomic::STP
        | Mnemomic::TAX | Mnemomic::TAY | Mnemomic::TSX | Mnemomic::TXA
        | Mnemomic::TXS | Mnemomic::TYA | Mnemomic::WAI => {
            lemma_register_keeps(mnemomic, cpu, bus, operand);
        },
    }
}

/// The page map is constant and the reserved bit stays set through every
/// step, whether it succeeds or stops.
pub proof fn lemma_step_keeps(cpu: W65C02S, bus: BusView)
    ensures
        kept(cpu, bus, cpu.step_spec(bus)),
{
    reveal(W65C02S::step_spec);
    lemma_fetch_u8(cpu, bus);
    let fetched = cpu.fetch_u8_spec(bus);
    if fetched.result is Ok {
        let opcode = fetched.result->Ok_0;
        if decode(opcode) is Some {
            let op = decode(opcode)->Some_0;
            let resolved = resolve(fetched.cpu, bus, op.addressing_mode);
            lemma_resolve_yields(fetched.cpu, bus, op.addressing_mode);
            if resolved.result is Ok {
                lemma_instruction_keeps(
                    op.mnemomic,
                    resolved.cpu,
                    bus,
                    resolved.result->Ok_0.operand,
                );
            }
        }
    }
}

/// A reset that succeeds leaves `P` at its default, with the reserved bit
/// set; from then on it stays set.
pub proof fn lemma_reset_sets_reserved(cpu: W65C02S, bus: BusView)
    ensures
        cpu.reset_spec(bus).result is Ok ==> cpu.reset_spec(bus).cpu.processor_status_register
            == 0x34 && cpu.reset_spec(bus).cpu.reserved_set(),
        kept(cpu, bus, cpu.reset_spec(bus)) || cpu.reset_spec(bus).result is Ok,
{
    assert(0x34u8 & 0x20 != 0) by (bit_vector);
}

/// The reserved bit of `P` is observed as one when `P` is pushed: `PHP`
/// forces it in the byte it pushes, and `BRK` pushes it as it stands in `P`.
pub proof fn lemma_pushed_status_has_reserved_set(cpu: W65C02S, bus: BusView, operand: Operand)
    ensures
        ({
            let after = instruction(Mnemomic::PHP, cpu, bus, operand);
            after.result is Ok ==> after.bus.cells[stack_address(cpu.stack_pointer)] & 0x20 != 0
        }),
        ({
            let after = instruction(Mnemomic::BRK, cpu, bus, operand);
            after.result is Ok && cpu.reserved_set() ==> after.bus.cells[stack_address(
                wrap_byte(cpu.stack_pointer, -2),
            )] & 0x20 != 0
        }),
{
    reveal(php_spec);
    reveal(brk_spec);
    let p = cpu.processor_status_register;
    assert((p | 0x30) & 0x20 != 0 && (p | 0x10) & 0x20 == p & 0x20) by (bit_vector);
    lemma_wrap_byte_twice(cpu.stack_pointer, -1, -1);
}

// ---- whole steps ----

impl Mnemomic {
    /// Whether `operand` is of a kind that the instruction can work on: one
    /// that it can read where it reads, write where it writes, and branch or
    /// jump by where it does that.
    pub open spec fn takes(self, operand: Operand) -> bool {
        match self {
            Mnemomic::ADC
            | Mnemomic::AND
            | Mnemomic::BIT
            | Mnemomic::CMP
            | Mnemomic::CPX
            | Mnemomic::CPY
            | Mnemomic::EOR
            | Mnemomic::LDA
            | Mnemomic::LDX
            | Mnemomic::LDY
            | Mnemomic::ORA
            | Mnemomic::SBC => !(operand is Implied) && !(operand is Relative),
            Mnemomic::ASL
            | Mnemomic::DEC
            | Mnemomic::INC
            | Mnemomic::LSR
            | Mnemomic::ROL
            | Mnemomic::ROR
            | Mnemomic::TRB
            | Mnemomic::TSB
            | Mnemomic::RMBN(_)
            | Mnemomic::SMBN(_)
            | Mnemomic::STA
            | Mnemomic::STX
            | Mnemomic::STY
            | Mnemomic::STZ => operand is Address || operand is Accumulator,
            Mnemomic::BCC
            | Mnemomic::BCS
            | Mnemomic::BEQ
            | Mnemomic::BMI
            | Mnemomic::BNE
            | Mnemomic::BPL
            | Mnemomic::BRA
            | Mnemomic::BVC
            | Mnemomic::BVS => operand is Relative,
            Mnemomic::BBRN(_) | Mnemomic::BBSN(_) => operand is ZpAddrRelative,
            Mnemomic::JMP | Mnemomic::JSR => operand is Address,
            _ => true,
        }
    }
}

/// The operations table pairs every mnemonic with addressing modes whose
/// operands it can work on.
#[verifier::rlimit(50)]
pub proof fn lemma_table_takes(opcode: u8, operand: Operand)
    ensures
        decode(opcode) matches Some(op) ==> (op.addressing_mode.yields(operand)
            ==> op.mnemomic.takes(operand)),
{
}

/// An instruction that is handed an operand it can work on does not stop on
/// an invalid operand.
#[verifier::rlimit(50)]
pub proof fn lemma_taken_operand_is_valid(
    mnemomic: Mnemomic,
    cpu: W65C02S,
    bus: BusView,
    operand: Operand,
)
    requires
        mnemomic.takes(operand),
    ensures
        !(instruction(mnemomic, cpu, bus, operand).result matches Err(
            CpuError::InvalidOperand(_),
        )),
{
    match mnemomic {
        Mnemomic::ADC => {
            reveal(adc_spec);
        },
        Mnemomic::AND => {
            reveal(and_spec);
        },
        Mnemomic::ASL => {
            reveal(asl_spec);
        },
        Mnemomic::BBRN(_) => {
            reveal(bbrn_spec);
        },
        Mnemomic::BBSN(_) => {
            reveal(bbsn_spec);
        },
        Mnemomic::BCC => {
            reveal(bcc_spec);
        },
        Mnemomic::BCS => {
            reveal(bcs_spec);
        },
        Mnemomic::BEQ => {
            reveal(beq_spec);
        },
        Mnemomic::BIT => {
            reveal(bit_spec);
        },
        Mnemomic::BMI => {
            reveal(bmi_spec);
        },
        Mnemomic::BNE => {
            reveal(bne_spec);
        },
        Mnemomic::BPL => {
            reveal(bpl_spec);
        },
        Mnemomic::BRA => {
            reveal(bra_spec);
        },
        Mnemomic::BRK => {
            reveal(brk_spec);
        },
        Mnemomic::BVC => {
            reveal(bvc_spec);
        },
        Mnemomic::BVS => {
            reveal(bvs_spec);
        },
        Mnemomic::CLC => {
            reveal(clc_spec);
        },
        Mnemomic::CLD => {
            reveal(cld_spec);
        },
        Mnemomic::CLI => {
            reveal(cli_spec);
        },
        Mnemomic::CLV => {
            reveal(clv_spec);
        },
        Mnemomic::CMP => {
            reveal(cmp_spec);
        },
        Mnemomic::CPX => {
            reveal(cpx_spec);
        },
        Mnemomic::CPY => {
            reveal(cpy_spec);
        },
        Mnemomic::DEC => {
            reveal(dec_spec);
        },
        Mnemomic::DEX => {
            reveal(dex_spec);
        },
        Mnemomic::DEY => {
            reveal(dey_spec);
        },
        Mnemomic::EOR => {
            reveal(eor_spec);
        },
        Mnemomic::INC => {
            reveal(inc_spec);
        },
        Mnemomic::INX => {
            reveal(inx_spec);
        },
        Mnemomic::INY => {
            reveal(iny_spec);
        },
        Mnemomic::JMP => {
            reveal(jmp_spec);
        },
        Mnemomic::JSR => {
            reveal(jsr_spec);
        },
        Mnemomic::LDA => {
            reveal(lda_spec);
        },
        Mnemomic::LDX => {
            reveal(ldx_spec);
        },
        Mnemomic::LDY => {
            reveal(ldy_spec);
        },
        Mnemomic::LSR => {
            reveal(lsr_spec);
        },
        Mnemomic::NOP => {
            reveal(nop_spec);
        },
        Mnemomic::ORA => {
            reveal(ora_spec);
        },
        Mnemomic::PHA => {
            reveal(pha_spec);
        },
        Mnemomic::PHP => {
            reveal(php_spec);
        },
        Mnemomic::PHX => {
            reveal(phx_spec);
        },
        Mnemomic::PHY => {
            reveal(phy_spec);
        },
        Mnemomic::PLA => {
            reveal(pla_spec);
        },
        Mnemomic::PLP => {
            reveal(plp_spec);
        },
        Mnemomic::PLX => {
            reveal(plx_spec);
        },
        Mnemomic::PLY => {
            reveal(ply_spec);
        },
        Mnemomic::RMBN(_) => {
            reveal(rmbn_spec);
        },
        Mnemomic::ROL => {
            reveal(rol_spec);
        },
        Mnemomic::ROR => {
            reveal(ror_spec);
        },
        Mnemomic::RTI => {
            reveal(rti_spec);
        },
        Mnemomic::RTS => {
            reveal(rts_spec);
        },
        Mnemomic::SBC => {
            reveal(sbc_spec);
        },
        Mnemomic::SEC => {
            reveal(sec_spec);
        },
        Mnemomic::SED => {
            reveal(sed_spec);
        },
        Mnemomic::SEI => {
            reveal(sei_spec);
        },
        Mnemomic::SMBN(_) => {
            reveal(smbn_spec);
        },
        Mnemomic::STA => {
            reveal(sta_spec);
        },
        Mnemomic::STP => {
            reveal(stp_spec);
        },
        Mnemomic::STX => {
            reveal(stx_spec);
        },
        Mnemomic::STY => {
            reveal(sty_spec);
        },
        Mnemomic::STZ => {
            reveal(stz_spec);
        },
        Mnemomic::TAX => {
            reveal(tax_spec);
        },
        Mnemomic::TAY => {
            reveal(tay_spec);
        },
        Mnemomic::TRB => {
            reveal(trb_spec);
        },
        Mnemomic::TSB => {
            reveal(tsb_spec);
        },
        Mnemomic::TSX => {
            reveal(tsx_spec);
        },
        Mnemomic::TXA => {
            reveal(txa_spec);
        },
        Mnemomic::TXS => {
            reveal(txs_spec);
        },
        Mnemomic::TYA => {
            reveal(tya_spec);
        },
        Mnemomic::WAI => {
            reveal(wai_spec);
        },
    }
}

/// Resolving an operand stops on nothing but a refusal of the bus.
pub proof fn lemma_resolve_stops_on_bus_only(cpu: W65C02S, bus: BusView, mode: AddressingMode)
    ensures
        resolve(cpu, bus, mode).result matches Err(e) ==> e is Bus,
{
    reveal(resolve);
}

/// A step never stops on an invalid operand: the operations table hands no
/// instruction an operand of a kind that it cannot work on.
pub proof fn lemma_step_never_invalid_operand(cpu: W65C02S, bus: BusView)
    ensures
        !(cpu.step_spec(bus).result matches Err(CpuError::InvalidOperand(_))),
{
    reveal(W65C02S::step_spec);
    let fetched = cpu.fetch_u8_spec(bus);
    if fetched.result is Ok {
        let opcode = fetched.result->Ok_0;
        if decode(opcode) is Some {
            let op = decode(opcode)->Some_0;
            let resolved = resolve(fetched.cpu, fetched.bus, op.addressing_mode);
            lemma_resolve_stops_on_bus_only(fetched.cpu, fetched.bus, op.addressing_mode);
            if resolved.result is Ok {
                let operand = resolved.result->Ok_0.operand;
                lemma_resolve_yields(fetched.cpu, fetched.bus, op.addressing_mode);
                lemma_table_takes(opcode, operand);
                lemma_taken_operand_is_valid(op.mnemomic, resolved.cpu, resolved.bus, operand);
            }
        }
    }
}

/// The opcodes of the stack, subroutine and carry instructions: each of these
/// mnemonics has one opcode, with one addressing mode.
pub proof fn lemma_opcode_of(opcode: u8)
    ensures
        decode(opcode) matches Some(op) ==> {
            &&& op.mnemomic == Mnemomic::JSR ==> opcode == 0x20 && op.addressing_mode
                == AddressingMode::Absolute
            &&& op.mnemomic == Mnemomic::RTS ==> opcode == 0x60 && op.addressing_mode
                == AddressingMode::Stack
            &&& op.mnemomic == Mnemomic::PHA ==> opcode == 0x48 && op.addressing_mode
                == AddressingMode::Stack
            &&& op.mnemomic == Mnemomic::PLA ==> opcode == 0x68 && op.addressing_mode
                == AddressingMode::Stack
            &&& op.mnemomic == Mnemomic::PHX ==> opcode == 0xDA && op.addressing_mode
                == AddressingMode::Implied
            &&& op.mnemomic == Mnemomic::PLX ==> opcode == 0xFA && op.addressing_mode
                == AddressingMode::Stack
            &&& op.mnemomic == Mnemomic::PHY ==> opcode == 0x5A && op.addressing_mode
                == AddressingMode::Stack
            &&& op.mnemomic == Mnemomic::PLY ==> opcode == 0x7A && op.addressing_mode
                == AddressingMode::Stack
            &&& op.mnemomic == Mnemomic::CLC ==> opcode == 0x18 && op.addressing_mode
                == AddressingMode::Implied
            &&& op.mnemomic == Mnemomic::SEC ==> opcode == 0x38 && op.addressing_mode
                == AddressingMode::Implied
        },
{
}

/// Two steps that execute a `JSR` and then, at its target, an `RTS`, leave
/// the processor at the instruction after the `JSR`: the program counter has
/// moved on by the three bytes of the `JSR`, and the stack pointer and every
/// other register are as they were.
pub proof fn lemma_steps_jsr_rts(cpu: W65C02S, bus: BusView)
    requires
        cpu.step_spec(bus).result == Ok::<Mnemomic, CpuError>(Mnemomic::JSR),
        cpu.step_spec(bus).cpu.step_spec(cpu.step_spec(bus).bus).result == Ok::<
            Mnemomic,
            CpuError,
        >(Mnemomic::RTS),
    ensures
        ({
            let called = cpu.step_spec(bus);
            let returned = called.cpu.step_spec(called.bus);
            &&& called.cpu.stack_pointer == wrap_byte(cpu.stack_pointer, -2)
            &&& returned.cpu == cpu.with_pc(advance(cpu.program_counter, 3))
            &&& returned.bus == called.bus
        }),
{
    let called = cpu.step_spec(bus);
    lemma_step_executed(cpu, bus);
    lemma_opcode_of(bus.cells[cpu.program_counter]);
    let behind = cpu.with_pc(advance(cpu.program_counter, 3));
    let resolved = resolve(
        cpu.with_pc(advance(cpu.program_counter, 1)),
        bus,
        AddressingMode::Absolute,
    );
    let target = resolved.result->Ok_0.operand->Address_0;
    assert(resolved.result->Ok_0.operand == Operand::Address(target));
    assert(resolved.cpu == behind);

    lemma_step_executed(called.cpu, called.bus);
    lemma_opcode_of(called.bus.cells[called.cpu.program_counter]);
    let at_rts = called.cpu.with_pc(advance(called.cpu.program_counter, 1));
    let resolved_again = resolve(at_rts, called.bus, AddressingMode::Stack);
    assert(resolved_again.cpu == at_rts);
    lemma_jsr_then_rts(
        behind,
        bus,
        target,
        at_rts.program_counter,
        resolved_again.result->Ok_0.operand,
    );
}

/// Two steps that execute a `PHA` and then a `PLA` restore `A` and the
/// stack pointer, and leave `Z` and `N` saying what `A` holds: nothing has
/// changed but those two flags and the program counter, which has moved on
/// by the two opcodes.
pub proof fn lemma_steps_pha_pla(cpu: W65C02S, bus: BusView)
    requires
        cpu.step_spec(bus).result == Ok::<Mnemomic, CpuError>(Mnemomic::PHA),
        cpu.step_spec(bus).cpu.step_spec(cpu.step_spec(bus).bus).result == Ok::<
            Mnemomic,
            CpuError,
        >(Mnemomic::PLA),
    ensures
        ({
            let pushed = cpu.step_spec(bus);
            let pulled = pushed.cpu.step_spec(pushed.bus);
            &&& pulled.cpu == cpu.with_zn(cpu.a_register).with_pc(advance(cpu.program_counter, 2))
            &&& pulled.cpu.a_register == cpu.a_register
            &&& pulled.cpu.stack_pointer == cpu.stack_pointer
            &&& pulled.cpu.flag(Status::Z) == (cpu.a_register == 0)
            &&& pulled.cpu.flag(Status::N) == (cpu.a_register >= 0x80)
            &&& pulled.bus == pushed.bus
        }),
{
    let pushed = cpu.step_spec(bus);
    lemma_step_executed(cpu, bus);
    let push_mode = decode(bus.cells[cpu.program_counter])->Some_0.addressing_mode;
    lemma_opcode_of(bus.cells[cpu.program_counter]);
    let behind = cpu.with_pc(advance(cpu.program_counter, 1));
    let push_operand = resolve(behind, bus, push_mode).result->Ok_0.operand;

    lemma_step_executed(pushed.cpu, pushed.bus);
    let pull_mode = decode(pushed.bus.cells[pushed.cpu.program_counter])->Some_0.addressing_mode;
    lemma_opcode_of(pushed.bus.cells[pushed.cpu.program_counter]);
    let at_pull = pushed.cpu.with_pc(advance(pushed.cpu.program_counter, 1));
    let pull_operand = resolve(at_pull, pushed.bus, pull_mode).result->Ok_0.operand;
    lemma_pha_then_pla(behind, bus, push_operand, at_pull.program_counter, pull_operand);
    assert(pushed.cpu.program_counter == behind.program_counter) by {
        reveal(pha_spec);
    }
    lemma_advance_twice(cpu.program_counter, 1, 1);
}

/// Two steps that execute a `PHX` and then a `PLX` restore `X` and the
/// stack pointer, and leave `Z` and `N` saying what `X` holds: nothing has
/// changed but those two flags and the program counter, which has moved on
/// by the two opcodes.
pub proof fn lemma_steps_phx_plx(cpu: W65C02S, bus: BusView)
    requires
        cpu.step_spec(bus).result == Ok::<Mnemomic, CpuError>(Mnemomic::PHX),
        cpu.step_spec(bus).cpu.step_spec(cpu.step_spec(bus).bus).result == Ok::<
            Mnemomic,
            CpuError,
        >(Mnemomic::PLX),
    ensures
        ({
            let pushed = cpu.step_spec(bus);
            let pulled = pushed.cpu.step_spec(pushed.bus);
            &&& pulled.cpu == cpu.with_zn(cpu.x_register).with_pc(advance(cpu.program_counter, 2))
            &&& pulled.cpu.x_register == cpu.x_register
            &&& pulled.cpu.stack_pointer == cpu.stack_pointer
            &&& pulled.cpu.flag(Status::Z) == (cpu.x_register == 0)
            &&& pulled.cpu.flag(Status::N) == (cpu.x_register >= 0x80)
            &&& pulled.bus == pushed.bus
        }),
{
    let pushed = cpu.step_spec(bus);
    lemma_step_executed(cpu, bus);
    let push_mode = decode(bus.cells[cpu.program_counter])->Some_0.addressing_mode;
    lemma_opcode_of(bus.cells[cpu.program_counter]);
    let behind = cpu.with_pc(advance(cpu.program_counter, 1));
    let push_operand = resolve(behind, bus, push_mode).result->Ok_0.operand;

    lemma_step_executed(pushed.cpu, pushed.bus);
    let pull_mode = decode(pushed.bus.cells[pushed.cpu.program_counter])->Some_0.addressing_mode;
    lemma_opcode_of(pushed.bus.cells[pushed.cpu.program_counter]);
    let at_pull = pushed.cpu.with_pc(advance(pushed.cpu.program_counter, 1));
    let pull_operand = resolve(at_pull, pushed.bus, pull_mode).result->Ok_0.operand;
    lemma_phx_then_plx(behind, bus, push_operand, at_pull.program_counter, pull_operand);
    assert(pushed.cpu.program_counter == behind.program_counter) by {
        reveal(phx_spec);
    }
    lemma_advance_twice(cpu.program_counter, 1, 1);
}

/// Two steps that execute a `PHY` and then a `PLY` restore `Y` and the
/// stack pointer, and leave `Z` and `N` saying what `Y` holds: nothing has
/// changed but those two flags and the program counter, which has moved on
/// by the two opcodes.
pub proof fn lemma_steps_phy_ply(cpu: W65C02S, bus: BusView)
    requires
        cpu.step_spec(bus).result == Ok::<Mnemomic, CpuError>(Mnemomic::PHY),
        cpu.step_spec(bus).cpu.step_spec(cpu.step_spec(bus).bus).result == Ok::<
            Mnemomic,
            CpuError,
        >(Mnemomic::PLY),
    ensures
        ({
            let pushed = cpu.step_spec(bus);
            let pulled = pushed.cpu.step_spec(pushed.bus);
            &&& pulled.cpu == cpu.with_zn(cpu.y_register).with_pc(advance(cpu.program_counter, 2))
            &&& pulled.cpu.y_register == cpu.y_register
            &&& pulled.cpu.stack_pointer == cpu.stack_pointer
            &&& pulled.cpu.flag(Status::Z) == (cpu.y_register == 0)
            &&& pulled.cpu.flag(Status::N) == (cpu.y_register >= 0x80)
            &&& pulled.bus == pushed.bus
        }),
{
    let pushed = cpu.step_spec(bus);
    lemma_step_executed(cpu, bus);
    let push_mode = decode(bus.cells[cpu.program_counter])->Some_0.addressing_mode;
    lemma_opcode_of(bus.cells[cpu.program_counter]);
    let behind = cpu.with_pc(advance(cpu.program_counter, 1));
    let push_operand = resolve(behind, bus, push_mode).result->Ok_0.operand;

    lemma_step_executed(pushed.cpu, pushed.bus);
    let pull_mode = decode(pushed.bus.cells[pushed.cpu.program_counter])->Some_0.addressing_mode;
    lemma_opcode_of(pushed.bus.cells[pushed.cpu.program_counter]);
    let at_pull = pushed.cpu.with_pc(advance(pushed.cpu.program_counter, 1));
    let pull_operand = resolve(at_pull, pushed.bus, pull_mode).result->Ok_0.operand;
    lemma_phy_then_ply(behind, bus, push_operand, at_pull.program_counter, pull_operand);
    assert(pushed.cpu.program_counter == behind.program_counter) by {
        reveal(phy_spec);
    }
    lemma_advance_twice(cpu.program_counter, 1, 1);
}

/// Two steps that execute `CLC` twice: the second leaves `C` clear, as the
/// first left it, and changes nothing but the program counter.
pub proof fn lemma_steps_clc_clc(cpu: W65C02S, bus: BusView)
    requires
        cpu.step_spec(bus).result == Ok::<Mnemomic, CpuError>(Mnemomic::CLC),
        cpu.step_spec(bus).cpu.step_spec(cpu.step_spec(bus).bus).result == Ok::<
            Mnemomic,
            CpuError,
        >(Mnemomic::CLC),
    ensures
        ({
            let first = cpu.step_spec(bus);
            let second = first.cpu.step_spec(first.bus);
            &&& !first.cpu.flag(Status::C)
            &&& !second.cpu.flag(Status::C)
            &&& second.cpu == first.cpu.with_pc(advance(first.cpu.program_counter, 1))
            &&& second.bus == first.bus
            &&& first.bus == bus
        }),
{
    let first = cpu.step_spec(bus);
    lemma_step_executed(cpu, bus);
    lemma_opcode_of(bus.cells[cpu.program_counter]);
    lemma_step_executed(first.cpu, first.bus);
    lemma_opcode_of(first.bus.cells[first.cpu.program_counter]);
    let behind = cpu.with_pc(advance(cpu.program_counter, 1));
    reveal(clc_spec);
    behind.lemma_with_flag_twice(Status::C, false, Status::C, false);
    behind.lemma_flag_of_with_flag(Status::C, false, Status::C);
}

/// Two steps that execute `SEC` twice: the second leaves `C` set, as the
/// first left it, and changes nothing but the program counter.
pub proof fn lemma_steps_sec_sec(cpu: W65C02S, bus: BusView)
    requires
        cpu.step_spec(bus).result == Ok::<Mnemomic, CpuError>(Mnemomic::SEC),
        cpu.step_spec(bus).cpu.step_spec(cpu.step_spec(bus).bus).result == Ok::<
            Mnemomic,
            CpuError,
        >(Mnemomic::SEC),
    ensures
        ({
            let first = cpu.step_spec(bus);
            let second = first.cpu.step_spec(first.bus);
            &&& first.cpu.flag(Status::C)
            &&& second.cpu.flag(Status::C)
            &&& second.cpu == first.cpu.with_pc(advance(first.cpu.program_counter, 1))
            &&& second.bus == first.bus
            &&& first.bus == bus
        }),
{
    let first = cpu.step_spec(bus);
    lemma_step_executed(cpu, bus);
    lemma_opcode_of(bus.cells[cpu.program_counter]);
    lemma_step_executed(first.cpu, first.bus);
    lemma_opcode_of(first.bus.cells[first.cpu.program_counter]);
    let behind = cpu.with_pc(advance(cpu.program_counter, 1));
    reveal(sec_spec);
    behind.lemma_with_flag_twice(Status::C, true, Status::C, true);
    behind.lemma_flag_of_with_flag(Status::C, true, Status::C);
}

} // verus!
