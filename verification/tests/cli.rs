use w65c02s::cli::{
    output_value_position, rom_file_positions, rom_image_range, RomFileError, ROM_SIZE,
};

fn args(list: &[&str]) -> Vec<String> {
    list.iter().map(|arg| arg.to_string()).collect()
}

#[test]
fn the_output_directory_follows_the_first_output_flag() {
    assert_eq!(output_value_position(&args(&["-o", "out", "a.bin"])), Some(1));
    assert_eq!(output_value_position(&args(&["a.bin", "-o", "out", "b.bin"])), Some(2));
    assert_eq!(output_value_position(&args(&["-o", "x", "-o", "y", "a.bin"])), Some(1));
    assert_eq!(output_value_position(&args(&["-x", "-o", "out", "a.bin"])), Some(2));
}

#[test]
fn an_output_flag_needs_a_value_and_one_argument_more() {
    assert_eq!(output_value_position(&args(&[])), None);
    assert_eq!(output_value_position(&args(&["-o"])), None);
    assert_eq!(output_value_position(&args(&["-o", "out"])), None);
    assert_eq!(output_value_position(&args(&["a.bin", "-o", "out"])), None);
    assert_eq!(output_value_position(&args(&["a.bin", "b.bin", "c.bin"])), None);
    assert_eq!(output_value_position(&args(&["-O", "out", "a.bin"])), None);
    assert_eq!(output_value_position(&args(&["-out", "out", "a.bin"])), None);
    assert_eq!(output_value_position(&args(&["o", "out", "a.bin"])), None);
}

#[test]
fn a_flag_and_the_argument_behind_it_name_no_rom_file() {
    assert_eq!(rom_file_positions(&args(&[])), Vec::<usize>::new());
    assert_eq!(rom_file_positions(&args(&["a.bin"])), vec![0]);
    assert_eq!(rom_file_positions(&args(&["a.bin", "b.bin"])), vec![0, 1]);
    assert_eq!(rom_file_positions(&args(&["-o", "out", "a.bin"])), vec![2]);
    assert_eq!(rom_file_positions(&args(&["a.bin", "-o", "out", "b.bin"])), vec![0, 3]);
    assert_eq!(rom_file_positions(&args(&["-o", "out"])), Vec::<usize>::new());
    assert_eq!(rom_file_positions(&args(&["-o"])), Vec::<usize>::new());
    assert_eq!(rom_file_positions(&args(&["-a", "-b", "c", "d"])), vec![2, 3]);
    assert_eq!(rom_file_positions(&args(&["-a", "b", "-c", "d", "e"])), vec![4]);
    assert_eq!(rom_file_positions(&args(&["", "-", "x", "y"])), vec![0, 3]);
}

#[test]
fn the_rom_image_lies_behind_the_first_32_kib_of_the_file() {
    assert_eq!(ROM_SIZE, 32768);
    assert_eq!(rom_image_range(0x10000), Ok((0x8000, 0x10000)));
    assert_eq!(rom_image_range(0x8000), Ok((0x8000, 0x8000)));
    assert_eq!(rom_image_range(0x8001), Ok((0x8000, 0x8001)));
    assert_eq!(rom_image_range(0x7FFF), Err(RomFileError::Malformed));
    assert_eq!(rom_image_range(0), Err(RomFileError::Malformed));
    assert_eq!(rom_image_range(0x10001), Err(RomFileError::TooLong(0x8001)));
}
