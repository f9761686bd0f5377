use w65c02s::memory::{
    AccessError, Indexed, MemoryPage, RAMSegment, ROMSegment, ReadableBuffer, WritableBuffer,
};

#[test]
fn a_new_page_is_256_zeroes() {
    let page = MemoryPage::new();
    assert_eq!(MemoryPage::SIZE, 256);
    assert_eq!(page.len(), 256);
    assert_eq!(page.contents().len(), 256);
    assert!(page.contents().iter().all(|b| *b == 0));
    assert_eq!(page.peek(0), Ok(0));
    assert_eq!(page.peek(255), Ok(0));
}

#[test]
fn a_page_refuses_an_index_beyond_its_end() {
    let mut page = MemoryPage::new();
    assert_eq!(page.peek(256), Err(AccessError::OutOfRange(256)));
    assert_eq!(page.read(256), Err(AccessError::OutOfRange(256)));
    assert_eq!(page.read(70000), Err(AccessError::OutOfRange(70000)));
    assert_eq!(page.write(256, 1), Err(AccessError::OutOfRange(256)));
    assert!(page.contents().iter().all(|b| *b == 0));
}

#[test]
fn a_page_gives_back_what_was_written() {
    let mut page = MemoryPage::new();
    page.write_unchecked(5, 0xAB);
    assert_eq!(page.peek_unchecked(5), 0xAB);
    assert_eq!(page.read_unchecked(5), 0xAB);
    assert_eq!(page.peek_unchecked(4), 0);
    assert_eq!(page.write(255, 7), Ok(()));
    assert_eq!(page.read(255), Ok(7));
    assert_eq!(page.peek(255), Ok(7));
    assert_eq!(page.contents()[5], 0xAB);
    assert_eq!(page.contents()[255], 7);
    assert_eq!(page.contents().iter().filter(|b| **b != 0).count(), 2);
}

#[test]
fn a_ram_segment_is_its_pages_in_order() {
    let mut ram = RAMSegment::new(2);
    assert_eq!(ram.len(), 512);
    assert_eq!(ram.write(300, 9), Ok(()));
    assert_eq!(ram.peek(300), Ok(9));
    assert_eq!(ram.read(300), Ok(9));
    assert_eq!(ram.peek_page_offset(1, 44), 9);
    assert_eq!(ram.read_page_offset(1, 44), 9);
    ram.write_page_offset(1, 0xFF, 3);
    assert_eq!(ram.read(511), Ok(3));
    ram.write_page_offset(0, 0, 0x11);
    let contents = ram.contents();
    assert_eq!(contents.len(), 512);
    assert_eq!(contents[0], 0x11);
    assert_eq!(contents[300], 9);
    assert_eq!(contents[511], 3);
    assert_eq!(contents.iter().filter(|b| **b != 0).count(), 3);
}

#[test]
fn a_ram_segment_refuses_an_index_beyond_its_end() {
    let mut ram = RAMSegment::new(2);
    assert_eq!(ram.peek(512), Err(AccessError::OutOfRange(512)));
    assert_eq!(ram.read(512), Err(AccessError::OutOfRange(512)));
    assert_eq!(ram.write(512, 1), Err(AccessError::OutOfRange(512)));
    assert_eq!(ram.write(100_000, 1), Err(AccessError::OutOfRange(100_000)));
    assert_eq!(ram.read(511), Ok(0));
    assert!(ram.contents().iter().all(|b| *b == 0));
}

#[test]
fn a_segment_without_pages_is_empty() {
    let ram = RAMSegment::new(0);
    assert_eq!(ram.len(), 0);
    assert_eq!(ram.peek(0), Err(AccessError::OutOfRange(0)));
    assert_eq!(ram.contents().len(), 0);
    let rom = ROMSegment::new(0);
    assert_eq!(rom.len(), 0);
    assert_eq!(rom.peek(0), Err(AccessError::OutOfRange(0)));
}

#[test]
fn loading_ram_copies_over_the_start() {
    let mut ram = RAMSegment::new(2);
    assert_eq!(ram.write(2, 0x77), Ok(()));
    assert_eq!(ram.write(3, 0x88), Ok(()));
    ram.load(&[5, 6, 7]);
    assert_eq!(ram.peek(0), Ok(5));
    assert_eq!(ram.peek(1), Ok(6));
    assert_eq!(ram.peek(2), Ok(7));
    assert_eq!(ram.peek(3), Ok(0x88));
    assert_eq!(ram.peek(4), Ok(0));
}

#[test]
fn loading_ram_drops_what_does_not_fit() {
    let mut ram = RAMSegment::new(1);
    let image: Vec<u8> = (0..300u32).map(|i| (i % 251) as u8 + 1).collect();
    ram.load(&image);
    assert_eq!(ram.len(), 256);
    assert_eq!(ram.contents(), image[..256].to_vec());
    let mut exact = RAMSegment::new(1);
    exact.load(&image[..256]);
    assert_eq!(exact.contents(), image[..256].to_vec());
}

#[test]
fn loading_rom_fills_it_from_the_start() {
    let mut rom = ROMSegment::new(2);
    assert_eq!(rom.len(), 512);
    assert_eq!(rom.load(&[1, 2, 3]), Ok(()));
    assert_eq!(rom.peek(0), Ok(1));
    assert_eq!(rom.read(2), Ok(3));
    assert_eq!(rom.peek(3), Ok(0));
    assert_eq!(rom.peek_page_offset(0, 1), 2);
    assert_eq!(rom.read_page_offset(1, 0), 0);
    let full: Vec<u8> = (0..512u32).map(|i| (i / 2) as u8).collect();
    assert_eq!(rom.load(&full), Ok(()));
    assert_eq!(rom.peek(511), Ok(255));
    assert_eq!(rom.peek_page_offset(1, 0), 128);
}

#[test]
fn rom_refuses_an_image_that_is_too_long() {
    let mut rom = ROMSegment::new(1);
    assert_eq!(rom.load(&[9, 9]), Ok(()));
    assert_eq!(rom.load(&vec![1u8; 257]), Err(AccessError::OutOfRange(256)));
    assert_eq!(rom.peek(0), Ok(9));
    assert_eq!(rom.peek(2), Ok(0));
    assert_eq!(rom.peek(256), Err(AccessError::OutOfRange(256)));
    assert_eq!(rom.read(1000), Err(AccessError::OutOfRange(1000)));
}

/// A buffer of the caller: four bytes that count reads.
struct Counting {
    bytes: [u8; 4],
    reads: usize,
}

impl Indexed for Counting {
    fn len(&self) -> usize {
        4
    }
}

impl ReadableBuffer for Counting {
    fn peek(&self, idx: usize) -> Result<u8, AccessError> {
        self.bytes.get(idx).copied().ok_or(AccessError::OutOfRange(idx))
    }

    fn read(&mut self, idx: usize) -> Result<u8, AccessError> {
        self.reads += 1;
        self.peek(idx)
    }
}

fn sum_of<T: ReadableBuffer>(buffer: &mut T) -> u32 {
    let mut sum = 0;
    for idx in 0..buffer.len() {
        sum += buffer.read(idx).unwrap() as u32;
    }
    sum
}

#[test]
fn the_buffer_traits_are_open_to_other_buffers() {
    let mut counting = Counting { bytes: [1, 2, 3, 4], reads: 0 };
    assert_eq!(sum_of(&mut counting), 10);
    assert_eq!(counting.reads, 4);
    assert_eq!(counting.read(4), Err(AccessError::OutOfRange(4)));
    let mut ram = RAMSegment::new(1);
    assert_eq!(ram.write(3, 5), Ok(()));
    assert_eq!(ram.write(255, 6), Ok(()));
    assert_eq!(sum_of(&mut ram), 11);
    let mut page = MemoryPage::new();
    page.write_unchecked(9, 9);
    assert_eq!(sum_of(&mut page), 9);
}
