//! The address decoder: a 16-bit address space of 256 pages, each routed to a
//! page of RAM, to a page of ROM, or to nothing.
//!
//! A bus is modelled by a [`BusView`]: the byte behind every mapped address,
//! and the set of addresses that take a write. The processor's semantics are
//! stated over that model alone, so they hold for every implementation of
//! [`Bus`].
use crate::memory::{overlay, Indexed, RAMSegment, ROMSegment};
use vstd::prelude::*;

verus! {

/// Why the bus refused an access.
#[derive(Debug, Clone, Copy, PartialEq, Eq, Structural)]
pub enum BusError {
    /// A read of an address that no page is mapped to.
    ReadUnmapped(u16),
    /// A write to an address that is mapped to read-only memory.
    WriteReadOnly(u16),
    /// A write to an address that no page is mapped to.
    WriteUnmapped(u16),
}

/// The mathematical model of a bus.
pub struct BusView {
    /// The byte behind each mapped address. An address outside the domain is
    /// unmapped.
    pub cells: Map<u16, u8>,
    /// The addresses that accept a write.
    pub writable: Set<u16>,
}

impl BusView {
    /// Whether a page is mapped at `address`.
    pub open spec fn mapped(self, address: u16) -> bool {
        self.cells.dom().contains(address)
    }

    /// Whether every address that accepts a write is mapped.
    pub open spec fn sound(self) -> bool {
        forall|address: u16| #[trigger] self.writable.contains(address) ==> self.mapped(address)
    }

    /// What a read of `address` yields.
    pub open spec fn read(self, address: u16) -> Result<u8, BusError> {
        if self.mapped(address) {
            Ok(self.cells[address])
        } else {
            Err(BusError::ReadUnmapped(address))
        }
    }

    /// Whether a write to `address` is accepted, and if not, why.
    pub open spec fn write_result(self, address: u16) -> Result<(), BusError> {
        if self.writable.contains(address) {
            Ok(())
        } else if self.mapped(address) {
            Err(BusError::WriteReadOnly(address))
        } else {
            Err(BusError::WriteUnmapped(address))
        }
    }

    /// The bus after a write of `val` to `address`: a refused write changes
    /// nothing, and no write changes which addresses are mapped or writable.
    pub open spec fn write(self, address: u16, val: u8) -> BusView {
        if self.writable.contains(address) {
            BusView { cells: self.cells.insert(address, val), writable: self.writable }
        } else {
            self
        }
    }
}

/// The byte-level interface between the processor and what it is wired to.
///
/// An implementation that is to be verified states its model and its
/// invariant; one that is not has nothing to write but `read` and `write`.
pub trait Bus {
    /// The model of the bus.
    open spec fn view(&self) -> BusView {
        arbitrary()
    }

    /// The representation invariant of the bus.
    open spec fn inv(&self) -> bool {
        true
    }

    /// Reads the byte at `address`. A read has no effect on the bus.
    fn read(&mut self, address: u16) -> (res: Result<u8, BusError>)
        requires
            old(self).inv(),
        ensures
            final(self).inv(),
            final(self)@ == old(self)@,
            res == old(self)@.read(address),
    ;

    /// Stores `val` at `address`, or refuses and leaves the bus as it was.
    fn write(&mut self, address: u16, val: u8) -> (res: Result<(), BusError>)
        requires
            old(self).inv(),
        ensures
            final(self).inv(),
            final(self)@ == old(self)@.write(address, val),
            res == old(self)@.write_result(address),
    ;
}

/// Where one page of the address space is routed.
#[derive(Copy, Clone, Debug)]
pub enum Page {
    Unmapped,
    RAM { page_relative: usize },
    ROM { page_relative: usize },
}

/// The number of the page that holds `address`.
pub open spec fn page_of(address: u16) -> int {
    address as int / 256
}

/// The offset of `address` in its page.
pub open spec fn offset_of(address: u16) -> int {
    address as int % 256
}

/// Splits an address into the number of its page and the offset in that page.
pub fn split_address(address: u16) -> (split: (usize, u8))
    ensures
        split.0 == page_of(address),
        split.1 == offset_of(address),
{
    assert(address >> 8 == address / 256 && address & 0xff == address % 256) by (bit_vector);
    ((address >> 8) as usize, (address & 0xff) as u8)
}

/// The page map of the default machine: RAM on pages `0x00..=0x7f`, ROM on
/// pages `0x80..=0xff`.
pub open spec fn default_page_map() -> Seq<Page> {
    Seq::new(
        256,
        |p: int|
            if p < 0x80 {
                Page::RAM { page_relative: p as usize }
            } else {
                Page::ROM { page_relative: (p - 0x80) as usize }
            },
    )
}

/// The model of a new default machine that was given `rom_image`: every
/// address is mapped, the lower half of the address space is zeroed RAM, and
/// the upper half is the image, followed by zeroes, and takes no write.
pub open spec fn default_view(rom_image: Seq<u8>) -> BusView {
    BusView {
        cells: Map::new(
            |address: u16| true,
            |address: u16|
                if 0x8000 <= address && address - 0x8000 < rom_image.len() {
                    rom_image[address - 0x8000]
                } else {
                    0u8
                },
        ),
        writable: Set::new(|address: u16| address < 0x8000),
    }
}

/// A machine of one RAM segment and one ROM segment behind a page map.
pub struct Machine {
    rom: ROMSegment,
    ram: RAMSegment,
    page_map: [Page; 256],
}

impl Machine {
    /// The bytes of the RAM segment.
    pub closed spec fn ram_bytes(&self) -> Seq<u8> {
        self.ram@
    }

    /// The bytes of the ROM segment.
    pub closed spec fn rom_bytes(&self) -> Seq<u8> {
        self.rom@
    }

    /// Where each of the 256 pages is routed.
    pub closed spec fn page_map(&self) -> Seq<Page> {
        self.page_map@
    }

    /// Whether `page` routes to a page that its segment has.
    pub open spec fn page_in_range(&self, page: Page) -> bool {
        match page {
            Page::Unmapped => true,
            Page::RAM { page_relative } => page_relative * 256 + 256 <= self.ram_bytes().len(),
            Page::ROM { page_relative } => page_relative * 256 + 256 <= self.rom_bytes().len(),
        }
    }

    /// The byte that the machine holds at `address`, where a page is mapped.
    pub open spec fn byte_at(&self, address: u16) -> u8 {
        match self.page_map()[page_of(address)] {
            Page::Unmapped => 0,
            Page::RAM { page_relative } => self.ram_bytes()[page_relative * 256 + offset_of(
                address,
            )],
            Page::ROM { page_relative } => self.rom_bytes()[page_relative * 256 + offset_of(
                address,
            )],
        }
    }

    /// ram pages: 0x00 -> 0x7f, total address space: 0x0000 -> 0x7fff (32kb)
    /// rom pages: 0x80 -> 0xff, total address space: 0x8000 -> 0xffff (32kb)
    ///
    /// The RAM starts zeroed; the ROM holds `rom_image` from address `0x8000`
    /// on, and zeroes behind it.
    pub fn new_32k_ram_32k_rom(rom_image: &[u8]) -> (machine: Self)
        requires
            rom_image@.len() <= 0x8000,
        ensures
            machine.inv(),
            machine@ == default_view(rom_image@),
            machine.page_map() == default_page_map(),
            machine.ram_bytes() == Seq::new(0x8000, |i: int| 0u8),
            machine.rom_bytes() == overlay(Seq::new(0x8000, |i: int| 0u8), rom_image@),
    {
        let ram = RAMSegment::new(128);
        let mut rom = ROMSegment::new(128);
        let loaded = rom.load(rom_image);
        assert(loaded is Ok);

        let mut map = [Page::Unmapped;256];

        let mut page: usize = 0;
        while page < 0x80
            invariant
                page <= 0x80,
                forall|p: int| 0 <= p < page ==> map@[p] == default_page_map()[p],
            decreases 0x80 - page,
        {
            map[page] = Page::RAM { page_relative: page };
            page += 1;
        }
        while page < 0x100
            invariant
                0x80 <= page <= 0x100,
                forall|p: int| 0 <= p < page ==> map@[p] == default_page_map()[p],
            decreases 0x100 - page,
        {
            map[page] = Page::ROM { page_relative: page - 0x80 };
            page += 1;
        }

        let machine = Self { ram: ram, rom: rom, page_map: map };
        assert(machine.page_map() =~= default_page_map());
        assert(machine@.cells =~= default_view(rom_image@).cells);
        assert(machine@.writable =~= default_view(rom_image@).writable);
        machine
    }

    /// Copies `bytes` over the start of the RAM segment; what lies beyond its
    /// capacity is dropped.
    pub fn load_ram(&mut self, bytes: &[u8])
        requires
            old(self).inv(),
        ensures
            final(self).inv(),
            final(self).page_map() == old(self).page_map(),
            final(self).rom_bytes() == old(self).rom_bytes(),
            final(self).ram_bytes() == overlay(old(self).ram_bytes(), bytes@),
    {
        self.ram.load(bytes);
        proof {
            assert forall|p: int| 0 <= p < 256 implies self.page_in_range(
                #[trigger] self.page_map()[p],
            ) by {
                assert(old(self).page_in_range(old(self).page_map()[p]));
            }
        }
    }

    /// All the bytes of the RAM segment, page after page.
    pub fn ram_contents(&self) -> (bytes: Vec<u8>)
        ensures
            bytes@ == self.ram_bytes(),
    {
        self.ram.contents()
    }
}

impl Bus for Machine {
    open spec fn view(&self) -> BusView {
        BusView {
            cells: Map::new(
                |address: u16| !(self.page_map()[page_of(address)] is Unmapped),
                |address: u16| self.byte_at(address),
            ),
            writable: Set::new(|address: u16| self.page_map()[page_of(address)] is RAM),
        }
    }

    closed spec fn inv(&self) -> bool {
        &&& self.ram.wf()
        &&& self.rom.wf()
        &&& forall|p: int| 0 <= p < 256 ==> self.page_in_range(#[trigger] self.page_map()[p])
        &&& forall|p: int, q: int|
            0 <= p < 256 && 0 <= q < 256 && self.page_map()[p] is RAM && self.page_map()[q] is RAM
                && self.page_map()[p]->RAM_page_relative == self.page_map()[q]->RAM_page_relative
                ==> p == q
    }

    fn read(&mut self, address: u16) -> (res: Result<u8, BusError>) {
        let (page, offset) = split_address(address);
        assert(self.page_in_range(self.page_map()[page as int]));
        let res = match self.page_map[page] {
            Page::ROM { page_relative } => Ok(self.rom.read_page_offset(page_relative, offset)),
            Page::RAM { page_relative } => Ok(self.ram.read_page_offset(page_relative, offset)),
            Page::Unmapped => Err(BusError::ReadUnmapped(address)),
        };
        proof {
            assert(self@.cells =~= old(self)@.cells);
            assert(self@.writable =~= old(self)@.writable);
        }
        res
    }

    fn write(&mut self, address: u16, val: u8) -> (res: Result<(), BusError>) {
        let (page, offset) = split_address(address);
        assert(self.page_in_range(self.page_map()[page as int]));
        match self.page_map[page] {
            Page::RAM { page_relative } => {
                self.ram.write_page_offset(page_relative, offset, val);
                proof {
                    self.lemma_write_view(*old(self), address, val);
                }
                Ok(())
            },
            Page::ROM { page_relative: _ } => Err(BusError::WriteReadOnly(address)),
            Page::Unmapped => Err(BusError::WriteUnmapped(address)),
        }
    }
}

impl Machine {
    /// A store into the RAM segment at the place `address` routes to is a
    /// write of the model at `address`: no other address routes to the same
    /// place.
    proof fn lemma_write_view(&self, before: Machine, address: u16, val: u8)
        requires
            before.inv(),
            self.page_map() == before.page_map(),
            self.rom_bytes() == before.rom_bytes(),
            before.page_map()[page_of(address)] is RAM,
            self.ram_bytes() == before.ram_bytes().update(
                before.page_map()[page_of(address)]->RAM_page_relative * 256 + offset_of(address),
                val,
            ),
        ensures
            self@ == before@.write(address, val),
    {
        let routed = before.page_map()[page_of(address)]->RAM_page_relative;
        let target = routed * 256 + offset_of(address);
        let after = before@.write(address, val);
        assert(before.page_in_range(before.page_map()[page_of(address)]));
        assert(before@.writable.contains(address));
        assert forall|a: u16| self@.cells.dom().contains(a) implies #[trigger] self@.cells[a]
            == after.cells[a] by {
            assert(before.page_in_range(before.page_map()[page_of(a)]));
            if a != address {
                match before.page_map()[page_of(a)] {
                    Page::RAM { page_relative } => {
                        if page_of(a) == page_of(address) {
                            assert(offset_of(a) != offset_of(address));
                        } else {
                            assert(page_relative != routed);
                        }
                        assert(page_relative * 256 + offset_of(a) != target);
                    },
                    _ => {},
                }
            }
        }
        assert(self@.cells =~= after.cells);
        assert(self@.writable =~= after.writable);
    }
}

} // verus!
