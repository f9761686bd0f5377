use w65c02s::bus::{split_address, Bus, BusError, Machine};

#[test]
fn an_address_splits_into_page_and_offset() {
    assert_eq!(split_address(0x0000), (0x00, 0x00));
    assert_eq!(split_address(0x1234), (0x12, 0x34));
    assert_eq!(split_address(0x80FF), (0x80, 0xFF));
    assert_eq!(split_address(0xFFFF), (0xFF, 0xFF));
}

#[test]
fn the_default_map_covers_every_address() {
    let mut machine = Machine::new_32k_ram_32k_rom(&[]);
    for address in 0..=0xFFFFu16 {
        assert_eq!(machine.read(address), Ok(0));
    }
}

#[test]
fn the_rom_image_starts_at_0x8000() {
    let image: Vec<u8> = (0..0x8000u32).map(|i| (i % 253) as u8).collect();
    let mut machine = Machine::new_32k_ram_32k_rom(&image);
    assert_eq!(machine.read(0x8000), Ok(0));
    assert_eq!(machine.read(0x8001), Ok(1));
    assert_eq!(machine.read(0x80FD), Ok(0));
    assert_eq!(machine.read(0xFFFF), Ok((0x7FFF % 253) as u8));
    assert_eq!(machine.read(0x7FFF), Ok(0));
    assert_eq!(machine.read(0x0001), Ok(0));
}

#[test]
fn a_short_rom_image_is_followed_by_zeroes() {
    let mut machine = Machine::new_32k_ram_32k_rom(&[0xAA, 0xBB]);
    assert_eq!(machine.read(0x8000), Ok(0xAA));
    assert_eq!(machine.read(0x8001), Ok(0xBB));
    assert_eq!(machine.read(0x8002), Ok(0));
    assert_eq!(machine.read(0xFFFF), Ok(0));
}

#[test]
fn ram_takes_writes_and_rom_refuses_them() {
    let mut machine = Machine::new_32k_ram_32k_rom(&[0xAA]);
    assert_eq!(machine.write(0x0000, 1), Ok(()));
    assert_eq!(machine.write(0x7FFF, 2), Ok(()));
    assert_eq!(machine.read(0x0000), Ok(1));
    assert_eq!(machine.read(0x7FFF), Ok(2));
    assert_eq!(machine.read(0x0001), Ok(0));
    assert_eq!(machine.write(0x8000, 3), Err(BusError::WriteReadOnly(0x8000)));
    assert_eq!(machine.write(0xFFFF, 3), Err(BusError::WriteReadOnly(0xFFFF)));
    assert_eq!(machine.read(0x8000), Ok(0xAA));
    assert_eq!(machine.read(0xFFFF), Ok(0));
}

#[test]
fn the_ram_can_be_loaded_and_dumped() {
    let mut machine = Machine::new_32k_ram_32k_rom(&[]);
    assert_eq!(machine.ram_contents(), vec![0u8; 0x8000]);
    machine.load_ram(&[7, 8, 9]);
    assert_eq!(machine.read(0x0000), Ok(7));
    assert_eq!(machine.read(0x0002), Ok(9));
    assert_eq!(machine.write(0x1234, 0x56), Ok(()));
    let dump = machine.ram_contents();
    assert_eq!(dump.len(), 0x8000);
    assert_eq!(&dump[..3], &[7, 8, 9]);
    assert_eq!(dump[0x1234], 0x56);
    assert_eq!(dump.iter().filter(|b| **b != 0).count(), 4);
}

#[test]
fn loading_the_ram_drops_what_does_not_fit() {
    let mut machine = Machine::new_32k_ram_32k_rom(&[0xEE]);
    machine.load_ram(&vec![0x5A; 40_000]);
    assert_eq!(machine.ram_contents(), vec![0x5A; 0x8000]);
    assert_eq!(machine.read(0x7FFF), Ok(0x5A));
    assert_eq!(machine.read(0x8000), Ok(0xEE));
    assert_eq!(machine.read(0x8001), Ok(0));
}
