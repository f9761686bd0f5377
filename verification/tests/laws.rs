use w65c02s::bus::{Bus, Machine};
use w65c02s::cpu::instructions::{op_bit, op_clc, op_inc, op_jsr, op_rti, op_rts, op_sec};
use w65c02s::cpu::{Mnemomic, Operand, ResolvedOperand, W65C02S};

const C: u8 = 0x01;
const Z: u8 = 0x02;
const V: u8 = 0x40;
const N: u8 = 0x80;

fn plain(operand: Operand) -> ResolvedOperand {
    ResolvedOperand { operand, page_crossed: false }
}

fn machine_with(rom: &[(u16, &[u8])], ram: &[(u16, &[u8])]) -> Machine {
    let mut image = vec![0u8; 0x8000];
    for (address, bytes) in rom {
        let at = (*address - 0x8000) as usize;
        image[at..at + bytes.len()].copy_from_slice(bytes);
    }
    let mut machine = Machine::new_32k_ram_32k_rom(&image);
    for (address, bytes) in ram {
        for (i, byte) in bytes.iter().enumerate() {
            machine.write(*address + i as u16, *byte).unwrap();
        }
    }
    machine
}

fn registers(pc: u16, a: u8, x: u8, y: u8, sp: u8, p: u8) -> W65C02S {
    W65C02S {
        program_counter: pc,
        a_register: a,
        x_register: x,
        y_register: y,
        stack_pointer: sp,
        processor_status_register: p,
    }
}

#[test]
fn every_address_of_the_default_machine_can_be_read() {
    let image: Vec<u8> = (0..0x8000u32).map(|i| (i * 7 % 256) as u8).collect();
    let mut machine = Machine::new_32k_ram_32k_rom(&image);
    for address in 0..=0xFFFFu16 {
        let expected = if address < 0x8000 { 0 } else { image[(address - 0x8000) as usize] };
        assert_eq!(machine.read(address), Ok(expected));
    }
}

#[test]
fn after_plp_and_rti_bit_5_is_set_and_bit_4_is_clear() {
    for pulled in 0..=255u8 {
        // PLP at 0x8000, RTI at 0x8001
        let mut machine = machine_with(&[(0x8000, &[0x28, 0x40])], &[(0x0180, &[pulled, pulled, 0, 0])]);
        let mut cpu = registers(0x8000, 0, 0, 0, 0x7F, 0);
        assert_eq!(cpu.step(&mut machine), Ok(Mnemomic::PLP));
        assert_eq!(cpu.processor_status_register & 0x20, 0x20);
        assert_eq!(cpu.processor_status_register & 0x10, 0x00);
        assert_eq!(cpu.processor_status_register & 0xCF, pulled & 0xCF);
        cpu.processor_status_register = !pulled;
        let mut returning = cpu;
        assert_eq!(op_rti(&mut returning, &mut machine, plain(Operand::Implied)), Ok(()));
        assert_eq!(returning.processor_status_register & 0x20, 0x20);
        assert_eq!(returning.processor_status_register & 0x10, 0x00);
        assert_eq!(returning.processor_status_register & 0xCF, pulled & 0xCF);
    }
}

#[test]
fn bit_immediate_changes_z_only() {
    let mut machine = machine_with(&[], &[]);
    for v in 0..=255u8 {
        for p in [0x00u8, 0xFF, N, V, N | V, Z, C | Z] {
            let mut cpu = registers(0x8000, 0x5A, 1, 2, 0xFF, p);
            assert_eq!(op_bit(&mut cpu, &mut machine, plain(Operand::Value(v))), Ok(()));
            let z = if 0x5A & v == 0 { Z } else { 0 };
            assert_eq!(cpu, registers(0x8000, 0x5A, 1, 2, 0xFF, (p & !Z) | z));
            assert_eq!(cpu.processor_status_register & (N | V), p & (N | V));
        }
    }
}

#[test]
fn a_pull_restores_what_was_pushed() {
    // PHA PLA ; PHX PLX ; PHY PLY
    let program = [0x48, 0x68, 0xDA, 0xFA, 0x5A, 0x7A];
    for value in [0x00u8, 0x01, 0x7F, 0x80, 0xFF] {
        for sp in [0x00u8, 0x01, 0x80, 0xFF] {
            let mut machine = machine_with(&[(0x8000, &program)], &[]);
            let zn = if value == 0 {
                Z
            } else if value >= 0x80 {
                N
            } else {
                0
            };
            let mut cpu = registers(0x8000, value, value, value, sp, C | V | Z | N);
            assert_eq!(cpu.step(&mut machine), Ok(Mnemomic::PHA));
            cpu.a_register = !value;
            assert_eq!(cpu.step(&mut machine), Ok(Mnemomic::PLA));
            assert_eq!(cpu, registers(0x8002, value, value, value, sp, C | V | zn));
            cpu.processor_status_register = 0;
            assert_eq!(cpu.step(&mut machine), Ok(Mnemomic::PHX));
            assert_eq!(cpu.step(&mut machine), Ok(Mnemomic::PLX));
            assert_eq!(cpu, registers(0x8004, value, value, value, sp, zn));
            cpu.processor_status_register = Z | N;
            assert_eq!(cpu.step(&mut machine), Ok(Mnemomic::PHY));
            assert_eq!(cpu.step(&mut machine), Ok(Mnemomic::PLY));
            assert_eq!(cpu, registers(0x8006, value, value, value, sp, zn));
        }
    }
}

#[test]
fn clc_and_sec_are_idempotent() {
    let mut machine = machine_with(&[], &[]);
    for p in 0..=255u8 {
        let mut cpu = registers(0x8000, 1, 2, 3, 0xFF, p);
        assert_eq!(op_clc(&mut cpu, &mut machine, plain(Operand::Implied)), Ok(()));
        let once = cpu;
        assert_eq!(once, registers(0x8000, 1, 2, 3, 0xFF, p & !C));
        assert_eq!(op_clc(&mut cpu, &mut machine, plain(Operand::Implied)), Ok(()));
        assert_eq!(cpu, once);

        let mut cpu = registers(0x8000, 1, 2, 3, 0xFF, p);
        assert_eq!(op_sec(&mut cpu, &mut machine, plain(Operand::Implied)), Ok(()));
        let once = cpu;
        assert_eq!(once, registers(0x8000, 1, 2, 3, 0xFF, p | C));
        assert_eq!(op_sec(&mut cpu, &mut machine, plain(Operand::Implied)), Ok(()));
        assert_eq!(cpu, once);
    }
}

#[test]
fn inc_256_times_comes_back_to_where_it_started() {
    for v in 0..=255u8 {
        let mut machine = machine_with(&[], &[(0x0300, &[v])]);
        let mut cpu = registers(0x8000, v, 0, 0, 0xFF, C);
        for _ in 0..256 {
            assert_eq!(op_inc(&mut cpu, &mut machine, plain(Operand::Address(0x0300))), Ok(()));
        }
        let zn = if v == 0 {
            Z
        } else if v >= 0x80 {
            N
        } else {
            0
        };
        assert_eq!(machine.read(0x0300), Ok(v));
        assert_eq!(cpu, registers(0x8000, v, 0, 0, 0xFF, C | zn));
        for _ in 0..256 {
            assert_eq!(op_inc(&mut cpu, &mut machine, plain(Operand::Accumulator)), Ok(()));
        }
        assert_eq!(cpu, registers(0x8000, v, 0, 0, 0xFF, C | zn));
    }
}

#[test]
fn inc_256_times_from_zero_ends_with_z_set_and_n_clear() {
    let mut machine = machine_with(&[], &[]);
    let mut cpu = registers(0x8000, 0, 0, 0, 0xFF, N);
    let mut zero_seen = 0;
    for _ in 0..256 {
        assert_eq!(op_inc(&mut cpu, &mut machine, plain(Operand::Accumulator)), Ok(()));
        if cpu.processor_status_register & Z != 0 {
            zero_seen += 1;
        }
    }
    assert_eq!(cpu.a_register, 0);
    assert_eq!(cpu.processor_status_register & Z, Z);
    assert_eq!(cpu.processor_status_register & N, 0);
    assert_eq!(zero_seen, 1);
}

#[test]
fn jsr_then_rts_restores_the_program_counter_and_the_stack_pointer() {
    for (pc, sp) in [(0x8003u16, 0xFFu8), (0x0000, 0x00), (0xFFFF, 0x01), (0x1234, 0x80)] {
        let mut machine = machine_with(&[], &[]);
        let mut cpu = registers(pc, 1, 2, 3, sp, C | N);
        let before = cpu;
        assert_eq!(op_jsr(&mut cpu, &mut machine, plain(Operand::Address(0x4000))), Ok(()));
        assert_eq!(cpu.program_counter, 0x4000);
        assert_eq!(cpu.stack_pointer, sp.wrapping_sub(2));
        cpu.program_counter = 0x4001;
        assert_eq!(op_rts(&mut cpu, &mut machine, plain(Operand::Implied)), Ok(()));
        assert_eq!(cpu, before);
    }
}

#[test]
fn the_reserved_bit_stays_set_once_reset_has_set_it() {
    // CLC CLD CLI CLV ; LDA #$00 ; PHA ; PLP ; ADC #$FF ; SEC SED SEI ; PHP ; PLA ;
    // LDA #$00 ; PHA ; PLP ; BRK
    let program = [
        0x18, 0xD8, 0x58, 0xB8, 0xA9, 0x00, 0x48, 0x28, 0x69, 0xFF, 0x38, 0xF8, 0x78, 0x08, 0x68,
        0xA9, 0x00, 0x48, 0x28, 0x00,
    ];
    let mut machine =
        machine_with(&[(0x8000, &program), (0xFFFC, &[0x00, 0x80]), (0xFFFE, &[0x00, 0x90])], &[]);
    let mut cpu = W65C02S::default();
    cpu.stack_pointer = 0xFF;
    assert_eq!(cpu.reset(&mut machine), Ok(()));
    assert_eq!(cpu.processor_status_register & 0x20, 0x20);
    let mut pushed_by_php = None;
    loop {
        let mnemonic = cpu.step(&mut machine).unwrap();
        assert_eq!(cpu.processor_status_register & 0x20, 0x20, "{:?}", mnemonic);
        if mnemonic == Mnemomic::PHP {
            pushed_by_php = Some(machine.read(0x0100 | (cpu.stack_pointer as u16 + 1)).unwrap());
        }
        if mnemonic == Mnemomic::BRK {
            break;
        }
    }
    assert_eq!(pushed_by_php.map(|p| p & 0x30), Some(0x30));
    // the status that BRK pushed
    let pushed = machine.read(0x0100 | (cpu.stack_pointer as u16 + 1)).unwrap();
    assert_eq!(pushed & 0x20, 0x20);
    assert_eq!(pushed & 0x10, 0x10);
    assert_eq!(cpu.program_counter, 0x9000);
}

#[test]
fn the_page_map_is_the_same_after_a_program() {
    // LDA #$5A ; STA $0200 ; STA $7FFF ; INC $0200 ; JSR $8010 ; ... at 0x8010: RTS ; BRK
    let program = [0xA9, 0x5A, 0x8D, 0x00, 0x02, 0x8D, 0xFF, 0x7F, 0xEE, 0x00, 0x02, 0x20, 0x10, 0x80, 0x00];
    let mut machine = machine_with(&[(0x8000, &program), (0x8010, &[0x60])], &[]);
    let mut cpu = registers(0x8000, 0, 0, 0, 0xFF, 0x34);
    loop {
        if cpu.step(&mut machine).unwrap() == Mnemomic::BRK {
            break;
        }
    }
    for address in 0..=0xFFFFu16 {
        let byte = machine.read(address).unwrap();
        if address < 0x8000 {
            assert_eq!(machine.write(address, byte), Ok(()));
        } else {
            assert!(machine.write(address, byte).is_err());
        }
    }
    assert_eq!(machine.read(0x0200), Ok(0x5B));
    assert_eq!(machine.read(0x7FFF), Ok(0x5A));
}
