use w65c02s::bus::{Bus, Machine};
use w65c02s::cpu::operand::resolve_operand;
use w65c02s::cpu::{AddressingMode, Mnemomic, Operand, ResolvedOperand, W65C02S};

const C: u8 = 0x01;
const Z: u8 = 0x02;
const I: u8 = 0x04;
const V: u8 = 0x40;
const N: u8 = 0x80;

fn machine_with(rom: &[(u16, &[u8])], ram: &[(u16, &[u8])]) -> Machine {
    let mut image = vec![0u8; 0x8000];
    for (address, bytes) in rom {
        let at = (*address - 0x8000) as usize;
        image[at..at + bytes.len()].copy_from_slice(bytes);
    }
    let mut machine = Machine::new_32k_ram_32k_rom(&image);
    for (address, bytes) in ram {
        for (i, byte) in bytes.iter().enumerate() {
            machine.write(*address + i as u16, *byte).unwrap();
        }
    }
    machine
}

fn registers(pc: u16, a: u8, x: u8, y: u8, sp: u8, p: u8) -> W65C02S {
    W65C02S {
        program_counter: pc,
        a_register: a,
        x_register: x,
        y_register: y,
        stack_pointer: sp,
        processor_status_register: p,
    }
}

#[test]
fn reset_loads_the_reset_vector() {
    let mut image = vec![0u8; 0x8000];
    image[0x7FFC] = 0x34;
    image[0x7FFD] = 0x12;
    let mut machine = Machine::new_32k_ram_32k_rom(&image);
    let mut cpu = W65C02S::default();
    assert_eq!(cpu.reset(&mut machine), Ok(()));
    assert_eq!(cpu.program_counter, 0x1234);
    assert_eq!(cpu.processor_status_register, 0x34);
}

#[test]
fn reset_leaves_the_other_registers() {
    let mut machine = machine_with(&[(0xFFFC, &[0x00, 0x80])], &[]);
    let mut cpu = registers(0x4321, 1, 2, 3, 0x7F, 0xC3);
    assert_eq!(cpu.reset(&mut machine), Ok(()));
    assert_eq!(cpu, registers(0x8000, 1, 2, 3, 0x7F, 0x34));
}

#[test]
fn lda_immediate_sets_zero_and_negative() {
    let mut machine = machine_with(&[(0x8000, &[0xA9, 0x00, 0xA9, 0x80])], &[]);
    let mut cpu = registers(0x8000, 0x55, 0, 0, 0xFF, 0);
    assert_eq!(cpu.step(&mut machine), Ok(Mnemomic::LDA));
    assert_eq!(cpu.a_register, 0x00);
    assert_eq!(cpu.processor_status_register & Z, Z);
    assert_eq!(cpu.processor_status_register & N, 0);
    assert_eq!(cpu, registers(0x8002, 0x00, 0, 0, 0xFF, Z));
    assert_eq!(cpu.step(&mut machine), Ok(Mnemomic::LDA));
    assert_eq!(cpu.a_register, 0x80);
    assert_eq!(cpu.processor_status_register & Z, 0);
    assert_eq!(cpu.processor_status_register & N, N);
    assert_eq!(cpu, registers(0x8004, 0x80, 0, 0, 0xFF, N));
}

#[test]
fn adc_reports_signed_overflow() {
    let mut machine = machine_with(&[(0x8000, &[0x69, 0x50])], &[]);
    let mut cpu = registers(0x8000, 0x50, 0, 0, 0xFF, 0);
    assert_eq!(cpu.step(&mut machine), Ok(Mnemomic::ADC));
    assert_eq!(cpu.a_register, 0xA0);
    assert_eq!(cpu.processor_status_register & C, 0);
    assert_eq!(cpu.processor_status_register & V, V);
    assert_eq!(cpu.processor_status_register & N, N);
    assert_eq!(cpu.processor_status_register & Z, 0);
    assert_eq!(cpu, registers(0x8002, 0xA0, 0, 0, 0xFF, V | N));
}

#[test]
fn zero_page_indexed_indirect_wraps_in_the_zero_page() {
    let mut machine = machine_with(&[(0x8000, &[0x81])], &[(0x0080, &[0x34, 0x12])]);
    let mut cpu = registers(0x8000, 0, 0xFF, 0, 0xFF, 0);
    assert_eq!(
        resolve_operand(&mut cpu, &mut machine, &AddressingMode::ZeroPageIndexedIndirect),
        Ok(ResolvedOperand { operand: Operand::Address(0x1234), page_crossed: false })
    );
    // and through a whole instruction: LDA ($81,X) loads the byte at 0x1234
    let mut machine =
        machine_with(&[(0x8000, &[0xA1, 0x81])], &[(0x0080, &[0x34, 0x12]), (0x1234, &[0x99])]);
    let mut cpu = registers(0x8000, 0, 0xFF, 0, 0xFF, 0);
    assert_eq!(cpu.step(&mut machine), Ok(Mnemomic::LDA));
    assert_eq!(cpu, registers(0x8002, 0x99, 0xFF, 0, 0xFF, N));
}

#[test]
fn jsr_then_rts_comes_back_behind_the_jsr() {
    let mut machine = machine_with(&[(0x8000, &[0x20, 0x00, 0x90]), (0x9000, &[0x60])], &[]);
    let mut cpu = registers(0x8000, 1, 2, 3, 0xFF, C);
    assert_eq!(cpu.step(&mut machine), Ok(Mnemomic::JSR));
    assert_eq!(cpu, registers(0x9000, 1, 2, 3, 0xFD, C));
    assert_eq!(machine.read(0x01FF), Ok(0x80));
    assert_eq!(machine.read(0x01FE), Ok(0x02));
    assert_eq!(cpu.step(&mut machine), Ok(Mnemomic::RTS));
    assert_eq!(cpu, registers(0x8003, 1, 2, 3, 0xFF, C));
}

#[test]
fn brk_takes_the_irq_vector() {
    let mut machine = machine_with(&[(0x8050, &[0x00, 0xEA]), (0xFFFE, &[0x00, 0xC0])], &[]);
    let mut cpu = registers(0x8050, 1, 2, 3, 0xFF, C | N);
    assert_eq!(cpu.step(&mut machine), Ok(Mnemomic::BRK));
    assert_eq!(cpu.stack_pointer, 0xFC);
    assert_eq!(machine.read(0x01FF), Ok(0x80));
    assert_eq!(machine.read(0x01FE), Ok(0x52));
    assert_eq!(machine.read(0x01FD), Ok(C | N | 0x10));
    assert_eq!(cpu.processor_status_register & I, I);
    assert_eq!(cpu.program_counter, 0xC000);
    assert_eq!(cpu, registers(0xC000, 1, 2, 3, 0xFC, C | N | I));
}

#[test]
fn brk_then_rti_comes_back_two_bytes_behind_the_opcode() {
    let mut machine = machine_with(
        &[(0x8050, &[0x00, 0xEA, 0xEA]), (0xC000, &[0x40]), (0xFFFE, &[0x00, 0xC0])],
        &[],
    );
    let mut cpu = registers(0x8050, 1, 2, 3, 0xFF, C | N);
    assert_eq!(cpu.step(&mut machine), Ok(Mnemomic::BRK));
    assert_eq!(cpu.step(&mut machine), Ok(Mnemomic::RTI));
    assert_eq!(cpu, registers(0x8052, 1, 2, 3, 0xFF, C | N | 0x20));
    assert_eq!(cpu.step(&mut machine), Ok(Mnemomic::NOP));
    assert_eq!(cpu.program_counter, 0x8053);
}

#[test]
fn a_program_counts_down_in_a_loop() {
    // LDX #$03 ; loop: DEX ; BNE loop ; STX $10 ; BRK
    let program = [0xA2, 0x03, 0xCA, 0xD0, 0xFD, 0x86, 0x10, 0x00];
    let mut machine = machine_with(&[(0x8000, &program), (0xFFFC, &[0x00, 0x80])], &[(0x0010, &[0xEE])]);
    let mut cpu = W65C02S::default();
    cpu.stack_pointer = 0xFF;
    assert_eq!(cpu.reset(&mut machine), Ok(()));
    let mut executed = Vec::new();
    loop {
        let mnemonic = cpu.step(&mut machine).unwrap();
        executed.push(mnemonic);
        if mnemonic == Mnemomic::BRK {
            break;
        }
    }
    assert_eq!(
        executed,
        vec![
            Mnemomic::LDX,
            Mnemomic::DEX,
            Mnemomic::BNE,
            Mnemomic::DEX,
            Mnemomic::BNE,
            Mnemomic::DEX,
            Mnemomic::BNE,
            Mnemomic::STX,
            Mnemomic::BRK,
        ]
    );
    assert_eq!(cpu.x_register, 0);
    assert_eq!(machine.ram_contents()[0x10], 0x00);
    assert_eq!(machine.ram_contents().len(), 0x8000);
}

#[test]
fn the_65c02_additions_execute() {
    // BRA +1 ; (skipped) ; PHX ; PLY ; STZ $20 ; INC A ; JMP ($9000) ; at 0x9002: TSB $21
    let program = [0x80, 0x01, 0xFF, 0xDA, 0x7A, 0x64, 0x20, 0x1A, 0x6C, 0x00, 0x90];
    let mut machine = machine_with(
        &[(0x8000, &program), (0x9000, &[0x02, 0x90, 0x04, 0x21])],
        &[(0x0020, &[0xAA]), (0x0021, &[0xF0])],
    );
    let mut cpu = registers(0x8000, 0x0F, 0x77, 0, 0xFF, 0);
    assert_eq!(cpu.step(&mut machine), Ok(Mnemomic::BRA));
    assert_eq!(cpu.program_counter, 0x8003);
    assert_eq!(cpu.step(&mut machine), Ok(Mnemomic::PHX));
    assert_eq!(cpu.step(&mut machine), Ok(Mnemomic::PLY));
    assert_eq!(cpu.y_register, 0x77);
    assert_eq!(cpu.step(&mut machine), Ok(Mnemomic::STZ));
    assert_eq!(machine.read(0x0020), Ok(0));
    assert_eq!(cpu.step(&mut machine), Ok(Mnemomic::INC));
    assert_eq!(cpu.a_register, 0x10);
    assert_eq!(cpu.step(&mut machine), Ok(Mnemomic::JMP));
    assert_eq!(cpu.program_counter, 0x9002);
    assert_eq!(cpu.step(&mut machine), Ok(Mnemomic::TSB));
    assert_eq!(machine.read(0x0021), Ok(0xF0));
    assert_eq!(cpu, registers(0x9004, 0x10, 0x77, 0x77, 0xFF, 0));
}
