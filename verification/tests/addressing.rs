use w65c02s::bus::{Bus, Machine};
use w65c02s::cpu::operand::{crosses_pages, read_u16, resolve_operand};
use w65c02s::cpu::{AddressingMode, Operand, ResolvedOperand, W65C02S};

/// A machine with `rom` placed at the given addresses of the ROM and `ram`
/// at the given addresses of the RAM.
fn machine_with(rom: &[(u16, &[u8])], ram: &[(u16, &[u8])]) -> Machine {
    let mut image = vec![0u8; 0x8000];
    for (address, bytes) in rom {
        let at = (*address - 0x8000) as usize;
        image[at..at + bytes.len()].copy_from_slice(bytes);
    }
    let mut machine = Machine::new_32k_ram_32k_rom(&image);
    for (address, bytes) in ram {
        for (i, byte) in bytes.iter().enumerate() {
            machine.write(*address + i as u16, *byte).unwrap();
        }
    }
    machine
}

fn cpu_at(pc: u16) -> W65C02S {
    let mut cpu = W65C02S::default();
    cpu.program_counter = pc;
    cpu.stack_pointer = 0xFF;
    cpu
}

fn plain(operand: Operand) -> Result<ResolvedOperand, w65c02s::cpu::CpuError> {
    Ok(ResolvedOperand { operand, page_crossed: false })
}

fn crossed(operand: Operand) -> Result<ResolvedOperand, w65c02s::cpu::CpuError> {
    Ok(ResolvedOperand { operand, page_crossed: true })
}

#[test]
fn modes_without_operand_bytes_fetch_nothing() {
    let mut machine = machine_with(&[(0x8000, &[0x11, 0x22])], &[]);
    let mut cpu = cpu_at(0x8000);
    let before = cpu;
    assert_eq!(
        resolve_operand(&mut cpu, &mut machine, &AddressingMode::Implied),
        plain(Operand::Implied)
    );
    assert_eq!(
        resolve_operand(&mut cpu, &mut machine, &AddressingMode::Stack),
        plain(Operand::Implied)
    );
    assert_eq!(
        resolve_operand(&mut cpu, &mut machine, &AddressingMode::Accumulator),
        plain(Operand::Accumulator)
    );
    assert_eq!(cpu, before);
}

#[test]
fn immediate_is_the_byte_behind_the_opcode() {
    let mut machine = machine_with(&[(0x8000, &[0x11, 0x22])], &[]);
    let mut cpu = cpu_at(0x8000);
    assert_eq!(
        resolve_operand(&mut cpu, &mut machine, &AddressingMode::Immediate),
        plain(Operand::Value(0x11))
    );
    assert_eq!(cpu.program_counter, 0x8001);
    assert_eq!(
        resolve_operand(&mut cpu, &mut machine, &AddressingMode::Immediate),
        plain(Operand::Value(0x22))
    );
    assert_eq!(cpu.program_counter, 0x8002);
}

#[test]
fn absolute_is_the_word_behind_the_opcode() {
    let mut machine = machine_with(&[(0x8000, &[0x34, 0x12])], &[]);
    let mut cpu = cpu_at(0x8000);
    assert_eq!(
        resolve_operand(&mut cpu, &mut machine, &AddressingMode::Absolute),
        plain(Operand::Address(0x1234))
    );
    assert_eq!(cpu.program_counter, 0x8002);
}

#[test]
fn absolute_indexed_adds_the_index_and_flags_a_page_crossing() {
    let mut machine = machine_with(&[(0x8000, &[0xF0, 0x12, 0xF0, 0x12, 0xF0, 0xFF])], &[]);
    let mut cpu = cpu_at(0x8000);
    cpu.x_register = 0x05;
    cpu.y_register = 0x20;
    assert_eq!(
        resolve_operand(&mut cpu, &mut machine, &AddressingMode::AbsoluteIndexedX),
        plain(Operand::Address(0x12F5))
    );
    assert_eq!(cpu.program_counter, 0x8002);
    assert_eq!(
        resolve_operand(&mut cpu, &mut machine, &AddressingMode::AbsoluteIndexedY),
        crossed(Operand::Address(0x1310))
    );
    assert_eq!(cpu.program_counter, 0x8004);
    // the sum wraps within 16 bits
    assert_eq!(
        resolve_operand(&mut cpu, &mut machine, &AddressingMode::AbsoluteIndexedY),
        crossed(Operand::Address(0x0010))
    );
    assert_eq!(cpu.program_counter, 0x8006);
}

#[test]
fn absolute_indirect_reads_the_address_from_a_pointer() {
    let mut machine =
        machine_with(&[(0x8000, &[0x00, 0x90, 0x00, 0x90]), (0x9000, &[0x78, 0x56, 0xBC, 0x9A])], &[]);
    let mut cpu = cpu_at(0x8000);
    cpu.x_register = 2;
    assert_eq!(
        resolve_operand(&mut cpu, &mut machine, &AddressingMode::AbsoluteIndirect),
        plain(Operand::Address(0x5678))
    );
    assert_eq!(
        resolve_operand(&mut cpu, &mut machine, &AddressingMode::AbsoluteIndexedIndirect),
        plain(Operand::Address(0x9ABC))
    );
    assert_eq!(cpu.program_counter, 0x8004);
}

#[test]
fn relative_is_a_signed_offset() {
    let mut machine = machine_with(&[(0x8000, &[0xFE, 0x7F, 0x80, 0x00])], &[]);
    let mut cpu = cpu_at(0x8000);
    let mode = AddressingMode::ProgramCounterRelative;
    assert_eq!(resolve_operand(&mut cpu, &mut machine, &mode), plain(Operand::Relative(-2)));
    assert_eq!(resolve_operand(&mut cpu, &mut machine, &mode), plain(Operand::Relative(127)));
    assert_eq!(resolve_operand(&mut cpu, &mut machine, &mode), plain(Operand::Relative(-128)));
    assert_eq!(resolve_operand(&mut cpu, &mut machine, &mode), plain(Operand::Relative(0)));
    assert_eq!(cpu.program_counter, 0x8004);
}

#[test]
fn zero_page_indexing_wraps_within_the_zero_page() {
    let mut machine = machine_with(&[(0x8000, &[0x42, 0xF0, 0xF0, 0x10])], &[]);
    let mut cpu = cpu_at(0x8000);
    cpu.x_register = 0x20;
    cpu.y_register = 0x0F;
    assert_eq!(
        resolve_operand(&mut cpu, &mut machine, &AddressingMode::ZeroPage),
        plain(Operand::Address(0x0042))
    );
    assert_eq!(
        resolve_operand(&mut cpu, &mut machine, &AddressingMode::ZeroPageIndexedX),
        plain(Operand::Address(0x0010))
    );
    assert_eq!(
        resolve_operand(&mut cpu, &mut machine, &AddressingMode::ZeroPageIndexedY),
        plain(Operand::Address(0x00FF))
    );
    assert_eq!(
        resolve_operand(&mut cpu, &mut machine, &AddressingMode::ZeroPageIndexedX),
        plain(Operand::Address(0x0030))
    );
    assert_eq!(cpu.program_counter, 0x8004);
}

#[test]
fn zero_page_indirect_reads_its_pointer_from_the_zero_page() {
    let mut machine =
        machine_with(&[(0x8000, &[0x40, 0xFF])], &[(0x0040, &[0x34, 0x12]), (0x00FF, &[0xCD]), (0x0000, &[0xAB])]);
    let mut cpu = cpu_at(0x8000);
    assert_eq!(
        resolve_operand(&mut cpu, &mut machine, &AddressingMode::ZeroPageIndirect),
        plain(Operand::Address(0x1234))
    );
    // the high byte of a pointer at 0xFF is at 0x00
    assert_eq!(
        resolve_operand(&mut cpu, &mut machine, &AddressingMode::ZeroPageIndirect),
        plain(Operand::Address(0xABCD))
    );
}

#[test]
fn zero_page_indexed_indirect_wraps_before_it_reads_the_pointer() {
    let mut machine = machine_with(&[(0x8000, &[0x81])], &[(0x0080, &[0x34, 0x12])]);
    let mut cpu = cpu_at(0x8000);
    cpu.x_register = 0xFF;
    assert_eq!(
        resolve_operand(&mut cpu, &mut machine, &AddressingMode::ZeroPageIndexedIndirect),
        plain(Operand::Address(0x1234))
    );
    assert_eq!(cpu.program_counter, 0x8001);
}

#[test]
fn zero_page_indirect_indexed_adds_y_to_the_pointer() {
    let mut machine = machine_with(&[(0x8000, &[0x40, 0x40])], &[(0x0040, &[0xF0, 0x12])]);
    let mut cpu = cpu_at(0x8000);
    cpu.y_register = 0x0F;
    assert_eq!(
        resolve_operand(&mut cpu, &mut machine, &AddressingMode::ZeroPageIndirectIndexedY),
        plain(Operand::Address(0x12FF))
    );
    cpu.y_register = 0x20;
    assert_eq!(
        resolve_operand(&mut cpu, &mut machine, &AddressingMode::ZeroPageIndirectIndexedY),
        crossed(Operand::Address(0x1310))
    );
}

#[test]
fn zero_page_relative_is_an_address_and_an_offset() {
    let mut machine = machine_with(&[(0x8000, &[0x12, 0xFC])], &[]);
    let mut cpu = cpu_at(0x8000);
    assert_eq!(
        resolve_operand(&mut cpu, &mut machine, &AddressingMode::ZeroPageRelative),
        plain(Operand::ZpAddrRelative(0x12, -4))
    );
    assert_eq!(cpu.program_counter, 0x8002);
}

#[test]
fn pages_are_crossed_where_the_high_bytes_differ() {
    assert!(crosses_pages(0x12FF, 0x1300));
    assert!(crosses_pages(0x1300, 0x12FF));
    assert!(crosses_pages(0xFFFF, 0x0000));
    assert!(!crosses_pages(0x1200, 0x12FF));
    assert!(!crosses_pages(0x0000, 0x0000));
}

#[test]
fn a_word_is_read_low_byte_first_and_wraps_at_the_top() {
    let mut machine = machine_with(&[(0x9000, &[0x78, 0x56]), (0xFFFF, &[0xCD])], &[(0x0000, &[0xAB])]);
    assert_eq!(read_u16(&mut machine, 0x9000), Ok(0x5678));
    assert_eq!(read_u16(&mut machine, 0x9001), Ok(0x0056));
    assert_eq!(read_u16(&mut machine, 0xFFFF), Ok(0xABCD));
}

#[test]
fn fetching_moves_the_program_counter_and_wraps() {
    let mut machine = machine_with(&[(0xFFFE, &[0x11, 0x22])], &[(0x0000, &[0x33, 0x44])]);
    let mut cpu = cpu_at(0xFFFE);
    assert_eq!(cpu.fetch_u8(&mut machine), Ok(0x11));
    assert_eq!(cpu.program_counter, 0xFFFF);
    assert_eq!(cpu.fetch_u16(&mut machine), Ok(0x3322));
    assert_eq!(cpu.program_counter, 0x0001);
    assert_eq!(cpu.fetch_u8(&mut machine), Ok(0x44));
    assert_eq!(cpu.program_counter, 0x0002);
}

#[test]
fn the_stack_lives_in_page_one_and_wraps() {
    let mut machine = machine_with(&[], &[]);
    let mut cpu = cpu_at(0x8000);
    cpu.stack_pointer = 0x01;
    assert_eq!(cpu.stack_push_u8(&mut machine, 0xAA), Ok(()));
    assert_eq!(cpu.stack_pointer, 0x00);
    assert_eq!(cpu.stack_push_u8(&mut machine, 0xBB), Ok(()));
    assert_eq!(cpu.stack_pointer, 0xFF);
    assert_eq!(cpu.stack_push_u8(&mut machine, 0xCC), Ok(()));
    assert_eq!(cpu.stack_pointer, 0xFE);
    assert_eq!(machine.read(0x0101), Ok(0xAA));
    assert_eq!(machine.read(0x0100), Ok(0xBB));
    assert_eq!(machine.read(0x01FF), Ok(0xCC));
    assert_eq!(machine.read(0x0001), Ok(0));
    assert_eq!(cpu.stack_pull_u8(&mut machine), Ok(0xCC));
    assert_eq!(cpu.stack_pointer, 0xFF);
    assert_eq!(cpu.stack_pull_u8(&mut machine), Ok(0xBB));
    assert_eq!(cpu.stack_pointer, 0x00);
    assert_eq!(cpu.stack_pull_u8(&mut machine), Ok(0xAA));
    assert_eq!(cpu.stack_pointer, 0x01);
}

#[test]
fn an_operand_is_read_and_written_by_its_kind() {
    let mut machine = machine_with(&[(0x9000, &[0x5A])], &[(0x0012, &[0x77])]);
    let mut cpu = cpu_at(0x8000);
    cpu.a_register = 0x3C;
    assert_eq!(Operand::Value(9).read(&cpu, &mut machine), Ok(9));
    assert_eq!(Operand::Address(0x9000).read(&cpu, &mut machine), Ok(0x5A));
    assert_eq!(Operand::Accumulator.read(&cpu, &mut machine), Ok(0x3C));
    assert_eq!(Operand::ZpAddrRelative(0x12, 5).read(&cpu, &mut machine), Ok(0x77));
    assert_eq!(Operand::Address(0x0200).write(&mut cpu, &mut machine, 0x99), Ok(()));
    assert_eq!(machine.read(0x0200), Ok(0x99));
    assert_eq!(Operand::Accumulator.write(&mut cpu, &mut machine, 0x42), Ok(()));
    assert_eq!(cpu.a_register, 0x42);
}
