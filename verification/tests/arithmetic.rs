use w65c02s::bus::{Bus, Machine};
use w65c02s::cpu::instructions::{
    op_adc, op_and, op_asl, op_bit, op_cmp, op_cpx, op_cpy, op_dec, op_dex, op_dey, op_eor,
    op_inc, op_inx, op_iny, op_lsr, op_ora, op_rmbn, op_rol, op_ror, op_sbc, op_smbn, op_trb,
    op_tsb,
};
use w65c02s::cpu::{CpuError, Operand, ResolvedOperand, W65C02S};

const C: u8 = 0x01;
const Z: u8 = 0x02;
const D: u8 = 0x08;
const V: u8 = 0x40;
const N: u8 = 0x80;

fn value(v: u8) -> ResolvedOperand {
    ResolvedOperand { operand: Operand::Value(v), page_crossed: false }
}

fn at(address: u16) -> ResolvedOperand {
    ResolvedOperand { operand: Operand::Address(address), page_crossed: false }
}

fn accumulator() -> ResolvedOperand {
    ResolvedOperand { operand: Operand::Accumulator, page_crossed: false }
}

fn cpu_with(a: u8, p: u8) -> W65C02S {
    let mut cpu = W65C02S::default();
    cpu.a_register = a;
    cpu.processor_status_register = p;
    cpu
}

fn machine() -> Machine {
    Machine::new_32k_ram_32k_rom(&[])
}

/// Performs `op` on `A = a`, `P = p` and the immediate byte `m`; gives `A` and `P` after.
fn immediate(
    op: fn(&mut W65C02S, &mut Machine, ResolvedOperand) -> Result<(), CpuError>,
    a: u8,
    p: u8,
    m: u8,
) -> (u8, u8) {
    let mut cpu = cpu_with(a, p);
    let mut bus = machine();
    assert_eq!(op(&mut cpu, &mut bus, value(m)), Ok(()));
    (cpu.a_register, cpu.processor_status_register)
}

/// Performs `op` on the byte `m` in memory, with `A = a`, `P = p`; gives the byte and `P` after.
fn in_memory(
    op: fn(&mut W65C02S, &mut Machine, ResolvedOperand) -> Result<(), CpuError>,
    a: u8,
    p: u8,
    m: u8,
) -> (u8, u8) {
    let mut cpu = cpu_with(a, p);
    let mut bus = machine();
    bus.write(0x0234, m).unwrap();
    assert_eq!(op(&mut cpu, &mut bus, at(0x0234)), Ok(()));
    assert_eq!(cpu.a_register, a);
    (bus.read(0x0234).unwrap(), cpu.processor_status_register)
}

#[test]
fn adc_adds_with_carry() {
    assert_eq!(immediate(op_adc, 0x50, 0, 0x50), (0xA0, V | N));
    assert_eq!(immediate(op_adc, 0x01, C, 0x01), (0x03, 0));
    assert_eq!(immediate(op_adc, 0xFF, C, 0x00), (0x00, C | Z));
    assert_eq!(immediate(op_adc, 0x80, 0, 0x80), (0x00, C | Z | V));
    assert_eq!(immediate(op_adc, 0x7F, 0, 0x01), (0x80, V | N));
    assert_eq!(immediate(op_adc, 0xFF, 0, 0xFF), (0xFE, C | N));
    assert_eq!(immediate(op_adc, 0xFF, C, 0xFF), (0xFF, C | N));
    assert_eq!(immediate(op_adc, 0x00, 0, 0x00), (0x00, Z));
    assert_eq!(immediate(op_adc, 0x10, V | N | Z, 0x20), (0x30, 0));
}

#[test]
fn adc_ignores_the_decimal_flag() {
    assert_eq!(immediate(op_adc, 0x09, D, 0x01), (0x0A, D));
    assert_eq!(immediate(op_adc, 0x99, D, 0x01), (0x9A, D | N));
}

#[test]
fn sbc_subtracts_with_borrow() {
    assert_eq!(immediate(op_sbc, 0x50, C, 0x30), (0x20, C));
    assert_eq!(immediate(op_sbc, 0x50, C, 0xB0), (0xA0, V | N));
    assert_eq!(immediate(op_sbc, 0x00, C, 0x01), (0xFF, N));
    assert_eq!(immediate(op_sbc, 0x05, 0, 0x03), (0x01, C));
    assert_eq!(immediate(op_sbc, 0x40, C, 0x40), (0x00, C | Z));
    assert_eq!(immediate(op_sbc, 0x80, C, 0x01), (0x7F, C | V));
    assert_eq!(immediate(op_sbc, 0x00, 0, 0x00), (0xFF, N));
    assert_eq!(immediate(op_sbc, 0x09, D | C, 0x01), (0x08, D | C));
}

#[test]
fn the_logic_instructions_combine_into_the_accumulator() {
    assert_eq!(immediate(op_and, 0xF0, C, 0x3C), (0x30, C));
    assert_eq!(immediate(op_and, 0xF0, 0, 0x0F), (0x00, Z));
    assert_eq!(immediate(op_and, 0xF0, Z, 0x80), (0x80, N));
    assert_eq!(immediate(op_ora, 0xF0, 0, 0x0F), (0xFF, N));
    assert_eq!(immediate(op_ora, 0x00, N, 0x00), (0x00, Z));
    assert_eq!(immediate(op_ora, 0x01, V, 0x02), (0x03, V));
    assert_eq!(immediate(op_eor, 0xFF, 0, 0x0F), (0xF0, N));
    assert_eq!(immediate(op_eor, 0x5A, 0, 0x5A), (0x00, Z));
    assert_eq!(immediate(op_eor, 0x01, C, 0x03), (0x02, C));
}

#[test]
fn the_comparisons_set_flags_and_leave_the_registers() {
    assert_eq!(immediate(op_cmp, 0x40, 0, 0x40), (0x40, C | Z));
    assert_eq!(immediate(op_cmp, 0x40, C | Z, 0x41), (0x40, N));
    assert_eq!(immediate(op_cmp, 0x80, 0, 0x01), (0x80, C));
    assert_eq!(immediate(op_cmp, 0x01, V, 0x80), (0x01, V | N));
    assert_eq!(immediate(op_cmp, 0xFF, 0, 0x00), (0xFF, C | N));

    let mut bus = machine();
    let mut cpu = cpu_with(0x11, 0);
    cpu.x_register = 0x20;
    cpu.y_register = 0x30;
    assert_eq!(op_cpx(&mut cpu, &mut bus, value(0x20)), Ok(()));
    assert_eq!(cpu.processor_status_register, C | Z);
    assert_eq!(op_cpx(&mut cpu, &mut bus, value(0x21)), Ok(()));
    assert_eq!(cpu.processor_status_register, N);
    assert_eq!(op_cpy(&mut cpu, &mut bus, value(0x2F)), Ok(()));
    assert_eq!(cpu.processor_status_register, C);
    assert_eq!(op_cpy(&mut cpu, &mut bus, value(0x31)), Ok(()));
    assert_eq!(cpu.processor_status_register, N);
    assert_eq!((cpu.a_register, cpu.x_register, cpu.y_register), (0x11, 0x20, 0x30));
}

#[test]
fn the_shifts_move_a_bit_into_carry() {
    assert_eq!(in_memory(op_asl, 0, 0, 0x81), (0x02, C));
    assert_eq!(in_memory(op_asl, 0, C, 0x80), (0x00, C | Z));
    assert_eq!(in_memory(op_asl, 0, C, 0x40), (0x80, N));
    assert_eq!(in_memory(op_lsr, 0, 0, 0x01), (0x00, C | Z));
    assert_eq!(in_memory(op_lsr, 0, C | N, 0x82), (0x41, 0));
    assert_eq!(in_memory(op_lsr, 0, 0, 0xFF), (0x7F, C));
}

#[test]
fn the_rotations_go_through_carry() {
    assert_eq!(in_memory(op_rol, 0, C, 0x80), (0x01, C));
    assert_eq!(in_memory(op_rol, 0, 0, 0x40), (0x80, N));
    assert_eq!(in_memory(op_rol, 0, 0, 0x80), (0x00, C | Z));
    assert_eq!(in_memory(op_rol, 0, C, 0x7F), (0xFF, N));
    assert_eq!(in_memory(op_ror, 0, C, 0x01), (0x80, C | N));
    assert_eq!(in_memory(op_ror, 0, 0, 0x02), (0x01, 0));
    assert_eq!(in_memory(op_ror, 0, 0, 0x01), (0x00, C | Z));
    assert_eq!(in_memory(op_ror, 0, C, 0xFE), (0xFF, N));
}

#[test]
fn a_shift_of_the_accumulator_writes_the_accumulator() {
    let mut bus = machine();
    let mut cpu = cpu_with(0x81, 0);
    assert_eq!(op_asl(&mut cpu, &mut bus, accumulator()), Ok(()));
    assert_eq!((cpu.a_register, cpu.processor_status_register), (0x02, C));
    assert_eq!(op_ror(&mut cpu, &mut bus, accumulator()), Ok(()));
    assert_eq!((cpu.a_register, cpu.processor_status_register), (0x81, N));
    assert_eq!(op_lsr(&mut cpu, &mut bus, accumulator()), Ok(()));
    assert_eq!((cpu.a_register, cpu.processor_status_register), (0x40, C));
    assert_eq!(op_rol(&mut cpu, &mut bus, accumulator()), Ok(()));
    assert_eq!((cpu.a_register, cpu.processor_status_register), (0x81, N));
    assert_eq!(bus.ram_contents(), vec![0u8; 0x8000]);
}

#[test]
fn increments_and_decrements_wrap() {
    assert_eq!(in_memory(op_inc, 0, 0, 0xFF), (0x00, Z));
    assert_eq!(in_memory(op_inc, 0, Z, 0x7F), (0x80, N));
    assert_eq!(in_memory(op_inc, 0, C | V, 0x00), (0x01, C | V));
    assert_eq!(in_memory(op_dec, 0, 0, 0x00), (0xFF, N));
    assert_eq!(in_memory(op_dec, 0, 0, 0x01), (0x00, Z));
    assert_eq!(in_memory(op_dec, 0, 0, 0x80), (0x7F, 0));

    let mut bus = machine();
    let mut cpu = cpu_with(0xFF, 0);
    assert_eq!(op_inc(&mut cpu, &mut bus, accumulator()), Ok(()));
    assert_eq!((cpu.a_register, cpu.processor_status_register), (0x00, Z));
    assert_eq!(op_dec(&mut cpu, &mut bus, accumulator()), Ok(()));
    assert_eq!((cpu.a_register, cpu.processor_status_register), (0xFF, N));

    cpu.x_register = 0xFF;
    cpu.y_register = 0x00;
    assert_eq!(op_inx(&mut cpu, &mut bus, accumulator()), Ok(()));
    assert_eq!((cpu.x_register, cpu.processor_status_register), (0x00, Z));
    assert_eq!(op_dex(&mut cpu, &mut bus, accumulator()), Ok(()));
    assert_eq!((cpu.x_register, cpu.processor_status_register), (0xFF, N));
    assert_eq!(op_dey(&mut cpu, &mut bus, accumulator()), Ok(()));
    assert_eq!((cpu.y_register, cpu.processor_status_register), (0xFF, N));
    assert_eq!(op_iny(&mut cpu, &mut bus, accumulator()), Ok(()));
    assert_eq!((cpu.y_register, cpu.processor_status_register), (0x00, Z));
    assert_eq!(op_iny(&mut cpu, &mut bus, accumulator()), Ok(()));
    assert_eq!((cpu.y_register, cpu.processor_status_register), (0x01, 0));
    assert_eq!(cpu.a_register, 0xFF);
}

#[test]
fn bit_on_memory_sets_z_n_and_v() {
    assert_eq!(in_memory(op_bit, 0x0F, 0, 0xC0), (0xC0, Z | V | N));
    assert_eq!(in_memory(op_bit, 0x0F, Z | V | N, 0x01), (0x01, 0));
    assert_eq!(in_memory(op_bit, 0xFF, C, 0x40), (0x40, C | V));
    assert_eq!(in_memory(op_bit, 0xFF, 0, 0x80), (0x80, N));
}

#[test]
fn bit_immediate_sets_z_only() {
    assert_eq!(immediate(op_bit, 0x0F, 0, 0xC0), (0x0F, Z));
    assert_eq!(immediate(op_bit, 0x0F, V | N, 0x0F), (0x0F, V | N));
    assert_eq!(immediate(op_bit, 0x0F, V | N | Z | C, 0x01), (0x0F, V | N | C));
    assert_eq!(immediate(op_bit, 0x00, N, 0xFF), (0x00, N | Z));
}

#[test]
fn trb_and_tsb_test_then_reset_or_set() {
    assert_eq!(in_memory(op_trb, 0x0F, 0, 0x3C), (0x30, 0));
    assert_eq!(in_memory(op_trb, 0x0F, 0, 0xF0), (0xF0, Z));
    assert_eq!(in_memory(op_trb, 0x0F, Z | N, 0x01), (0x00, N));
    assert_eq!(in_memory(op_tsb, 0x0F, 0, 0x3C), (0x3F, 0));
    assert_eq!(in_memory(op_tsb, 0x0F, C, 0xF0), (0xFF, C | Z));
    assert_eq!(in_memory(op_tsb, 0x00, 0, 0x00), (0x00, Z));
}

#[test]
fn rmb_and_smb_change_one_bit_and_no_flag() {
    for n in 0..8u8 {
        let mut bus = machine();
        let mut cpu = cpu_with(0x12, 0xC3);
        bus.write(0x0040, 0xFF).unwrap();
        bus.write(0x0041, 0x00).unwrap();
        assert_eq!(op_rmbn(&mut cpu, &mut bus, at(0x0040), n), Ok(()));
        assert_eq!(op_smbn(&mut cpu, &mut bus, at(0x0041), n), Ok(()));
        assert_eq!(bus.read(0x0040), Ok(0xFF ^ (1 << n)));
        assert_eq!(bus.read(0x0041), Ok(1 << n));
        assert_eq!(cpu, cpu_with(0x12, 0xC3));
    }
}
