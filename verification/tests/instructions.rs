use w65c02s::bus::{Bus, BusError, Machine};
use w65c02s::cpu::instructions::{
    execute, op_adc, op_asl, op_bbrn, op_bbsn, op_bcc, op_bcs, op_beq, op_bmi, op_bne, op_bpl,
    op_bra, op_brk, op_bvc, op_bvs, op_clc, op_cld, op_cli, op_clv, op_jmp, op_jsr, op_lda,
    op_ldx, op_ldy, op_nop, op_pha, op_php, op_phx, op_phy, op_pla, op_plp, op_plx, op_ply,
    op_rti, op_rts, op_sec, op_sed, op_sei, op_sta, op_stp, op_stx, op_sty, op_stz, op_tax,
    op_tay, op_tsx, op_txa, op_txs, op_tya, op_wai,
};
use w65c02s::cpu::{CpuError, Mnemomic, Operand, ResolvedOperand, Status, W65C02S};

const C: u8 = 0x01;
const Z: u8 = 0x02;
const I: u8 = 0x04;
const D: u8 = 0x08;
const B: u8 = 0x10;
const R: u8 = 0x20;
const V: u8 = 0x40;
const N: u8 = 0x80;

fn plain(operand: Operand) -> ResolvedOperand {
    ResolvedOperand { operand, page_crossed: false }
}

fn implied() -> ResolvedOperand {
    plain(Operand::Implied)
}

fn machine_with(rom: &[(u16, &[u8])], ram: &[(u16, &[u8])]) -> Machine {
    let mut image = vec![0u8; 0x8000];
    for (address, bytes) in rom {
        let at = (*address - 0x8000) as usize;
        image[at..at + bytes.len()].copy_from_slice(bytes);
    }
    let mut machine = Machine::new_32k_ram_32k_rom(&image);
    for (address, bytes) in ram {
        for (i, byte) in bytes.iter().enumerate() {
            machine.write(*address + i as u16, *byte).unwrap();
        }
    }
    machine
}

fn registers(pc: u16, a: u8, x: u8, y: u8, sp: u8, p: u8) -> W65C02S {
    W65C02S {
        program_counter: pc,
        a_register: a,
        x_register: x,
        y_register: y,
        stack_pointer: sp,
        processor_status_register: p,
    }
}

#[test]
fn the_status_helpers_set_and_test_single_flags() {
    assert_eq!(Status::C.mask(), 0x01);
    assert_eq!(Status::Z.mask(), 0x02);
    assert_eq!(Status::I.mask(), 0x04);
    assert_eq!(Status::D.mask(), 0x08);
    assert_eq!(Status::B.mask(), 0x10);
    assert_eq!(Status::V.mask(), 0x40);
    assert_eq!(Status::N.mask(), 0x80);
    let mut cpu = W65C02S::default();
    cpu.status_set(Status::V, true);
    cpu.status_set(Status::C, true);
    assert_eq!(cpu.processor_status_register, V | C);
    assert!(cpu.status_check(Status::V));
    assert!(!cpu.status_check(Status::N));
    cpu.status_set(Status::V, false);
    cpu.status_set(Status::D, false);
    assert_eq!(cpu.processor_status_register, C);
    assert_eq!(cpu.carry_in(), 1);
    cpu.status_update_zn(0);
    assert_eq!(cpu.processor_status_register, C | Z);
    cpu.status_update_zn(0x80);
    assert_eq!(cpu.processor_status_register, C | N);
    cpu.status_update_zn(0x7F);
    assert_eq!(cpu.processor_status_register, C);
    cpu.set_p_default();
    assert_eq!(cpu.processor_status_register, 0x34);
    assert_eq!(cpu.carry_in(), 0);
}

#[test]
fn a_default_processor_is_all_zero() {
    assert_eq!(W65C02S::default(), registers(0, 0, 0, 0, 0, 0));
    assert_eq!(W65C02S::IRQB_LOW, 0xFFFE);
    assert_eq!(W65C02S::RESB_LOW, 0xFFFC);
    assert_eq!(W65C02S::NMIB_LOW, 0xFFFA);
    assert_eq!(W65C02S::STACK_POINTER_BASE, 0x0100);
}

#[test]
fn loads_set_z_and_n() {
    let mut bus = machine_with(&[(0x9000, &[0x80])], &[(0x0010, &[0x00])]);
    let mut cpu = registers(0, 1, 2, 3, 0xFF, C);
    assert_eq!(op_lda(&mut cpu, &mut bus, plain(Operand::Address(0x9000))), Ok(()));
    assert_eq!(cpu, registers(0, 0x80, 2, 3, 0xFF, C | N));
    assert_eq!(op_ldx(&mut cpu, &mut bus, plain(Operand::Address(0x0010))), Ok(()));
    assert_eq!(cpu, registers(0, 0x80, 0, 3, 0xFF, C | Z));
    assert_eq!(op_ldy(&mut cpu, &mut bus, plain(Operand::Value(0x7F))), Ok(()));
    assert_eq!(cpu, registers(0, 0x80, 0, 0x7F, 0xFF, C));
}

#[test]
fn stores_write_and_change_no_flag() {
    let mut bus = machine_with(&[], &[(0x0203, &[0xEE])]);
    let mut cpu = registers(0, 0x11, 0x22, 0x33, 0xFF, N | Z);
    let before = cpu;
    assert_eq!(op_sta(&mut cpu, &mut bus, plain(Operand::Address(0x0200))), Ok(()));
    assert_eq!(op_stx(&mut cpu, &mut bus, plain(Operand::Address(0x0201))), Ok(()));
    assert_eq!(op_sty(&mut cpu, &mut bus, plain(Operand::Address(0x0202))), Ok(()));
    assert_eq!(op_stz(&mut cpu, &mut bus, plain(Operand::Address(0x0203))), Ok(()));
    assert_eq!(cpu, before);
    assert_eq!(bus.read(0x0200), Ok(0x11));
    assert_eq!(bus.read(0x0201), Ok(0x22));
    assert_eq!(bus.read(0x0202), Ok(0x33));
    assert_eq!(bus.read(0x0203), Ok(0x00));
}

#[test]
fn a_store_to_rom_is_refused() {
    let mut bus = machine_with(&[(0x9000, &[0x44])], &[]);
    let mut cpu = registers(0, 0x11, 0, 0, 0xFF, 0);
    assert_eq!(
        op_sta(&mut cpu, &mut bus, plain(Operand::Address(0x9000))),
        Err(CpuError::Bus(BusError::WriteReadOnly(0x9000)))
    );
    assert_eq!(bus.read(0x9000), Ok(0x44));
    // a read-modify-write has set its flags when the write is refused
    let mut cpu = registers(0, 0, 0, 0, 0xFF, 0);
    let mut bus = machine_with(&[(0x9000, &[0x80])], &[]);
    assert_eq!(
        op_asl(&mut cpu, &mut bus, plain(Operand::Address(0x9000))),
        Err(CpuError::Bus(BusError::WriteReadOnly(0x9000)))
    );
    assert_eq!(cpu.processor_status_register, C | Z);
    assert_eq!(bus.read(0x9000), Ok(0x80));
}

#[test]
fn an_operand_of_the_wrong_kind_is_invalid() {
    let mut bus = machine_with(&[], &[]);
    let mut cpu = registers(0, 0x11, 0, 0, 0xFF, 0);
    assert_eq!(
        op_adc(&mut cpu, &mut bus, implied()),
        Err(CpuError::InvalidOperand(Operand::Implied))
    );
    assert_eq!(
        op_lda(&mut cpu, &mut bus, plain(Operand::Relative(4))),
        Err(CpuError::InvalidOperand(Operand::Relative(4)))
    );
    assert_eq!(
        op_sta(&mut cpu, &mut bus, plain(Operand::Value(4))),
        Err(CpuError::InvalidOperand(Operand::Value(4)))
    );
    assert_eq!(
        op_asl(&mut cpu, &mut bus, plain(Operand::Value(0x81))),
        Err(CpuError::InvalidOperand(Operand::Value(0x81)))
    );
    assert_eq!(
        Operand::Implied.read(&cpu, &mut bus),
        Err(CpuError::InvalidOperand(Operand::Implied))
    );
    assert_eq!(
        Operand::ZpAddrRelative(1, 2).write(&mut cpu, &mut bus, 0),
        Err(CpuError::InvalidOperand(Operand::ZpAddrRelative(1, 2)))
    );
    assert_eq!(cpu.a_register, 0x11);
}

#[test]
fn a_branch_or_jump_without_its_operand_is_invalid() {
    let mut bus = machine_with(&[], &[(0x0012, &[0xFF])]);
    let mut cpu = registers(0x8000, 1, 2, 3, 0xFF, 0);
    let before = cpu;
    let address = plain(Operand::Address(0x9000));
    assert_eq!(op_bcc(&mut cpu, &mut bus, address), Err(CpuError::InvalidOperand(address.operand)));
    assert_eq!(op_bra(&mut cpu, &mut bus, implied()), Err(CpuError::InvalidOperand(Operand::Implied)));
    assert_eq!(
        op_jmp(&mut cpu, &mut bus, plain(Operand::Value(1))),
        Err(CpuError::InvalidOperand(Operand::Value(1)))
    );
    assert_eq!(
        op_jsr(&mut cpu, &mut bus, plain(Operand::Relative(1))),
        Err(CpuError::InvalidOperand(Operand::Relative(1)))
    );
    assert_eq!(
        op_bbrn(&mut cpu, &mut bus, plain(Operand::Address(0x0012)), 0),
        Err(CpuError::InvalidOperand(Operand::Address(0x0012)))
    );
    assert_eq!(
        op_bbsn(&mut cpu, &mut bus, plain(Operand::Relative(4)), 7),
        Err(CpuError::InvalidOperand(Operand::Relative(4)))
    );
    assert_eq!(cpu, before);
    assert_eq!(bus.read(0x01FF), Ok(0));
}

#[test]
fn transfers_copy_a_register() {
    let mut bus = machine_with(&[], &[]);
    let mut cpu = registers(0, 0x80, 0x00, 0x7F, 0xFE, C);
    assert_eq!(op_tax(&mut cpu, &mut bus, implied()), Ok(()));
    assert_eq!(cpu, registers(0, 0x80, 0x80, 0x7F, 0xFE, C | N));
    assert_eq!(op_tya(&mut cpu, &mut bus, implied()), Ok(()));
    assert_eq!(cpu, registers(0, 0x7F, 0x80, 0x7F, 0xFE, C));
    assert_eq!(op_tsx(&mut cpu, &mut bus, implied()), Ok(()));
    assert_eq!(cpu, registers(0, 0x7F, 0xFE, 0x7F, 0xFE, C | N));
    cpu.a_register = 0;
    assert_eq!(op_tay(&mut cpu, &mut bus, implied()), Ok(()));
    assert_eq!(cpu, registers(0, 0x00, 0xFE, 0x00, 0xFE, C | Z));
    cpu.x_register = 0x01;
    assert_eq!(op_txa(&mut cpu, &mut bus, implied()), Ok(()));
    assert_eq!(cpu, registers(0, 0x01, 0x01, 0x00, 0xFE, C));
}

#[test]
fn txs_changes_no_flag() {
    let mut bus = machine_with(&[], &[]);
    let mut cpu = registers(0, 1, 0x00, 3, 0xFE, C | N);
    assert_eq!(op_txs(&mut cpu, &mut bus, implied()), Ok(()));
    assert_eq!(cpu, registers(0, 1, 0x00, 3, 0x00, C | N));
    cpu.x_register = 0x80;
    assert_eq!(op_txs(&mut cpu, &mut bus, implied()), Ok(()));
    assert_eq!(cpu, registers(0, 1, 0x80, 3, 0x80, C | N));
}

#[test]
fn the_flag_instructions_set_and_clear_one_flag() {
    let mut bus = machine_with(&[], &[]);
    let mut cpu = registers(0, 0, 0, 0, 0, 0);
    assert_eq!(op_sec(&mut cpu, &mut bus, implied()), Ok(()));
    assert_eq!(cpu.processor_status_register, C);
    assert_eq!(op_sed(&mut cpu, &mut bus, implied()), Ok(()));
    assert_eq!(cpu.processor_status_register, C | D);
    assert_eq!(op_sei(&mut cpu, &mut bus, implied()), Ok(()));
    assert_eq!(cpu.processor_status_register, C | D | I);
    cpu.processor_status_register = 0xFF;
    assert_eq!(op_clc(&mut cpu, &mut bus, implied()), Ok(()));
    assert_eq!(cpu.processor_status_register, 0xFE);
    assert_eq!(op_cld(&mut cpu, &mut bus, implied()), Ok(()));
    assert_eq!(cpu.processor_status_register, 0xF6);
    assert_eq!(op_cli(&mut cpu, &mut bus, implied()), Ok(()));
    assert_eq!(cpu.processor_status_register, 0xF2);
    assert_eq!(op_clv(&mut cpu, &mut bus, implied()), Ok(()));
    assert_eq!(cpu.processor_status_register, 0xB2);
    assert_eq!(op_nop(&mut cpu, &mut bus, implied()), Ok(()));
    assert_eq!(cpu, registers(0, 0, 0, 0, 0, 0xB2));
}

#[test]
fn pushes_store_a_register_on_the_stack() {
    let mut bus = machine_with(&[], &[]);
    let mut cpu = registers(0, 0x11, 0x22, 0x33, 0xFF, C | N);
    assert_eq!(op_pha(&mut cpu, &mut bus, implied()), Ok(()));
    assert_eq!(op_phx(&mut cpu, &mut bus, implied()), Ok(()));
    assert_eq!(op_phy(&mut cpu, &mut bus, implied()), Ok(()));
    assert_eq!(op_php(&mut cpu, &mut bus, implied()), Ok(()));
    assert_eq!(cpu, registers(0, 0x11, 0x22, 0x33, 0xFB, C | N));
    assert_eq!(bus.read(0x01FF), Ok(0x11));
    assert_eq!(bus.read(0x01FE), Ok(0x22));
    assert_eq!(bus.read(0x01FD), Ok(0x33));
    assert_eq!(bus.read(0x01FC), Ok(C | N | B | R));
}

#[test]
fn pulls_load_a_register_and_set_z_and_n() {
    let mut bus = machine_with(&[], &[(0x01FC, &[0x00, 0x80, 0x7F, 0xFF])]);
    let mut cpu = registers(0, 1, 2, 3, 0xFB, C);
    assert_eq!(op_pla(&mut cpu, &mut bus, implied()), Ok(()));
    assert_eq!(cpu, registers(0, 0x00, 2, 3, 0xFC, C | Z));
    assert_eq!(op_plx(&mut cpu, &mut bus, implied()), Ok(()));
    assert_eq!(cpu, registers(0, 0x00, 0x80, 3, 0xFD, C | N));
    assert_eq!(op_ply(&mut cpu, &mut bus, implied()), Ok(()));
    assert_eq!(cpu, registers(0, 0x00, 0x80, 0x7F, 0xFE, C));
    assert_eq!(op_plp(&mut cpu, &mut bus, implied()), Ok(()));
    assert_eq!(cpu, registers(0, 0x00, 0x80, 0x7F, 0xFF, 0xEF));
}

#[test]
fn plp_forces_the_reserved_bit_and_clears_break() {
    for pulled in [0x00u8, 0x10, 0x20, 0x30, 0xCF, 0xFF, 0x5A] {
        let mut bus = machine_with(&[], &[(0x0180, &[pulled])]);
        let mut cpu = registers(0, 0, 0, 0, 0x7F, 0xFF);
        assert_eq!(op_plp(&mut cpu, &mut bus, implied()), Ok(()));
        assert_eq!(cpu.processor_status_register, (pulled | 0x20) & 0xEF);
        assert_eq!(cpu.processor_status_register & R, R);
        assert_eq!(cpu.processor_status_register & B, 0);
        assert_eq!(cpu.stack_pointer, 0x80);
    }
}

fn branch(
    op: fn(&mut W65C02S, &mut Machine, ResolvedOperand) -> Result<(), CpuError>,
    p: u8,
    offset: i8,
) -> u16 {
    let mut bus = machine_with(&[], &[]);
    let mut cpu = registers(0x8010, 0, 0, 0, 0xFF, p);
    assert_eq!(op(&mut cpu, &mut bus, plain(Operand::Relative(offset))), Ok(()));
    assert_eq!(cpu, registers(cpu.program_counter, 0, 0, 0, 0xFF, p));
    cpu.program_counter
}

#[test]
fn branches_are_taken_on_their_condition() {
    assert_eq!(branch(op_bcc, 0, 5), 0x8015);
    assert_eq!(branch(op_bcc, C, 5), 0x8010);
    assert_eq!(branch(op_bcs, C, -5), 0x800B);
    assert_eq!(branch(op_bcs, 0xFE, -5), 0x8010);
    assert_eq!(branch(op_beq, Z, 127), 0x808F);
    assert_eq!(branch(op_beq, 0xFD, 127), 0x8010);
    assert_eq!(branch(op_bne, 0, -128), 0x7F90);
    assert_eq!(branch(op_bne, Z, -128), 0x8010);
    assert_eq!(branch(op_bmi, N, 1), 0x8011);
    assert_eq!(branch(op_bmi, 0x7F, 1), 0x8010);
    assert_eq!(branch(op_bpl, 0, -1), 0x800F);
    assert_eq!(branch(op_bpl, N, -1), 0x8010);
    assert_eq!(branch(op_bvc, 0, 0x10), 0x8020);
    assert_eq!(branch(op_bvc, V, 0x10), 0x8010);
    assert_eq!(branch(op_bvs, V, -0x10), 0x8000);
    assert_eq!(branch(op_bvs, 0xBF, -0x10), 0x8010);
    assert_eq!(branch(op_bra, 0, 0), 0x8010);
    assert_eq!(branch(op_bra, 0xFF, -2), 0x800E);
}

#[test]
fn a_branch_wraps_within_16_bits() {
    let mut bus = machine_with(&[], &[]);
    let mut cpu = registers(0xFFFE, 0, 0, 0, 0xFF, 0);
    assert_eq!(op_bra(&mut cpu, &mut bus, plain(Operand::Relative(4))), Ok(()));
    assert_eq!(cpu.program_counter, 0x0002);
    assert_eq!(op_bra(&mut cpu, &mut bus, plain(Operand::Relative(-4))), Ok(()));
    assert_eq!(cpu.program_counter, 0xFFFE);
}

#[test]
fn bbr_and_bbs_branch_on_a_bit_of_the_zero_page() {
    for n in 0..8u8 {
        let mut bus = machine_with(&[], &[(0x0012, &[1 << n]), (0x0013, &[!(1 << n)])]);
        let set = plain(Operand::ZpAddrRelative(0x12, 6));
        let clear = plain(Operand::ZpAddrRelative(0x13, -6));
        let mut cpu = registers(0x8010, 0, 0, 0, 0xFF, 0);
        assert_eq!(op_bbsn(&mut cpu, &mut bus, set, n), Ok(()));
        assert_eq!(cpu.program_counter, 0x8016);
        assert_eq!(op_bbsn(&mut cpu, &mut bus, clear, n), Ok(()));
        assert_eq!(cpu.program_counter, 0x8016);
        assert_eq!(op_bbrn(&mut cpu, &mut bus, set, n), Ok(()));
        assert_eq!(cpu.program_counter, 0x8016);
        assert_eq!(op_bbrn(&mut cpu, &mut bus, clear, n), Ok(()));
        assert_eq!(cpu.program_counter, 0x8010);
        assert_eq!(cpu, registers(0x8010, 0, 0, 0, 0xFF, 0));
    }
}

#[test]
fn jmp_sets_the_program_counter() {
    let mut bus = machine_with(&[], &[]);
    let mut cpu = registers(0x8003, 1, 2, 3, 0xFF, C);
    assert_eq!(op_jmp(&mut cpu, &mut bus, plain(Operand::Address(0x1234))), Ok(()));
    assert_eq!(cpu, registers(0x1234, 1, 2, 3, 0xFF, C));
}

#[test]
fn jsr_pushes_the_address_of_its_last_byte() {
    let mut bus = machine_with(&[], &[]);
    let mut cpu = registers(0x8003, 1, 2, 3, 0xFF, C);
    assert_eq!(op_jsr(&mut cpu, &mut bus, plain(Operand::Address(0x9000))), Ok(()));
    assert_eq!(cpu, registers(0x9000, 1, 2, 3, 0xFD, C));
    assert_eq!(bus.read(0x01FF), Ok(0x80));
    assert_eq!(bus.read(0x01FE), Ok(0x02));
    assert_eq!(op_rts(&mut cpu, &mut bus, implied()), Ok(()));
    assert_eq!(cpu, registers(0x8003, 1, 2, 3, 0xFF, C));
}

#[test]
fn jsr_at_the_bottom_of_memory_wraps() {
    let mut bus = machine_with(&[], &[]);
    let mut cpu = registers(0x0000, 0, 0, 0, 0x00, 0);
    assert_eq!(op_jsr(&mut cpu, &mut bus, plain(Operand::Address(0x4000))), Ok(()));
    assert_eq!(cpu, registers(0x4000, 0, 0, 0, 0xFE, 0));
    assert_eq!(bus.read(0x0100), Ok(0xFF));
    assert_eq!(bus.read(0x01FF), Ok(0xFF));
    assert_eq!(op_rts(&mut cpu, &mut bus, implied()), Ok(()));
    assert_eq!(cpu, registers(0x0000, 0, 0, 0, 0x00, 0));
}

#[test]
fn rts_goes_on_behind_the_pulled_address() {
    let mut bus = machine_with(&[], &[(0x01FE, &[0xFF, 0x12])]);
    let mut cpu = registers(0x9000, 0, 0, 0, 0xFD, 0);
    assert_eq!(op_rts(&mut cpu, &mut bus, implied()), Ok(()));
    assert_eq!(cpu, registers(0x1300, 0, 0, 0, 0xFF, 0));
}

#[test]
fn brk_pushes_and_takes_the_irq_vector() {
    let mut bus = machine_with(&[(0xFFFE, &[0x00, 0xC0])], &[]);
    let mut cpu = registers(0x8051, 1, 2, 3, 0xFF, C | N);
    assert_eq!(op_brk(&mut cpu, &mut bus, implied()), Ok(()));
    assert_eq!(cpu, registers(0xC000, 1, 2, 3, 0xFC, C | N | I));
    assert_eq!(bus.read(0x01FF), Ok(0x80));
    assert_eq!(bus.read(0x01FE), Ok(0x52));
    assert_eq!(bus.read(0x01FD), Ok(C | N | B));
}

#[test]
fn rti_pulls_status_and_address() {
    let mut bus = machine_with(&[], &[(0x01FD, &[0xDF, 0x52, 0x80])]);
    let mut cpu = registers(0xC000, 1, 2, 3, 0xFC, I);
    assert_eq!(op_rti(&mut cpu, &mut bus, implied()), Ok(()));
    assert_eq!(cpu, registers(0x8052, 1, 2, 3, 0xFF, 0xEF));
    let mut bus = machine_with(&[], &[(0x01FD, &[0x00, 0xFF, 0xFF])]);
    let mut cpu = registers(0xC000, 1, 2, 3, 0xFC, 0xFF);
    assert_eq!(op_rti(&mut cpu, &mut bus, implied()), Ok(()));
    assert_eq!(cpu, registers(0xFFFF, 1, 2, 3, 0xFF, R));
}

#[test]
fn wai_and_stp_are_not_modelled() {
    let mut bus = machine_with(&[(0x8000, &[0xCB, 0xDB])], &[]);
    let mut cpu = registers(0x8000, 1, 2, 3, 0xFF, C);
    assert_eq!(op_wai(&mut cpu, &mut bus, implied()), Err(CpuError::Unimplemented(Mnemomic::WAI)));
    assert_eq!(op_stp(&mut cpu, &mut bus, implied()), Err(CpuError::Unimplemented(Mnemomic::STP)));
    assert_eq!(cpu, registers(0x8000, 1, 2, 3, 0xFF, C));
    assert_eq!(cpu.step(&mut bus), Err(CpuError::Unimplemented(Mnemomic::WAI)));
    assert_eq!(cpu.program_counter, 0x8001);
    assert_eq!(cpu.step(&mut bus), Err(CpuError::Unimplemented(Mnemomic::STP)));
    assert_eq!(cpu.program_counter, 0x8002);
}

#[test]
fn a_reserved_opcode_stops_the_step() {
    for opcode in [0x02u8, 0x03, 0x44, 0x5C, 0xFB, 0xFC] {
        let mut bus = machine_with(&[(0x8000, &[opcode, 0xEA])], &[]);
        let mut cpu = registers(0x8000, 1, 2, 3, 0xFF, C);
        assert_eq!(cpu.step(&mut bus), Err(CpuError::InvalidOpcode(opcode)));
        assert_eq!(cpu, registers(0x8001, 1, 2, 3, 0xFF, C));
    }
}

#[test]
fn execute_performs_the_instruction_of_the_mnemonic() {
    let mut bus = machine_with(&[], &[(0x0040, &[0xF0])]);
    let mut cpu = registers(0x8000, 0x0F, 0, 0, 0xFF, 0);
    assert_eq!(execute(&mut cpu, &mut bus, Mnemomic::ORA, plain(Operand::Address(0x0040))), Ok(()));
    assert_eq!(cpu.a_register, 0xFF);
    assert_eq!(execute(&mut cpu, &mut bus, Mnemomic::RMBN(7), plain(Operand::Address(0x0040))), Ok(()));
    assert_eq!(bus.read(0x0040), Ok(0x70));
    assert_eq!(
        execute(&mut cpu, &mut bus, Mnemomic::BBSN(6), plain(Operand::ZpAddrRelative(0x40, 0x10))),
        Ok(())
    );
    assert_eq!(cpu.program_counter, 0x8010);
    assert_eq!(execute(&mut cpu, &mut bus, Mnemomic::INX, implied()), Ok(()));
    assert_eq!(cpu.x_register, 1);
    assert_eq!(
        execute(&mut cpu, &mut bus, Mnemomic::STP, implied()),
        Err(CpuError::Unimplemented(Mnemomic::STP))
    );
}
