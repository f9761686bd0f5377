//! Paged byte storage: a 256-byte page, and the read-write and read-only
//! segments that are built from pages.
//!
//! Every buffer is modelled by the sequence of bytes it holds, in index order
//! (its view). A segment of `n` pages is the concatenation of its pages, so
//! byte `i` of the segment is byte `i % 256` of page `i / 256`.
use vstd::prelude::*;

verus! {

/// Why an indexed access to a buffer was refused.
#[derive(Debug, Clone, Copy, PartialEq, Eq, Structural)]
pub enum AccessError {
    /// The index lies at or beyond the end of the buffer.
    OutOfRange(usize),
}

/// A buffer with a length.
///
/// An implementation that is to be verified states its model and its
/// invariant; one that is not has nothing to write but the methods.
pub trait Indexed {
    /// The bytes of the buffer, in index order.
    open spec fn view(&self) -> Seq<u8> {
        arbitrary()
    }

    /// The representation invariant of the buffer.
    open spec fn wf(&self) -> bool {
        true
    }

    fn len(&self) -> (n: usize)
        requires
            self.wf(),
        ensures
            n == self@.len(),
    ;
}

/// A buffer whose bytes can be read by index.
pub trait ReadableBuffer: Indexed {
    /// Reads the byte at `idx` without touching the buffer.
    fn peek(&self, idx: usize) -> (res: Result<u8, AccessError>)
        requires
            self.wf(),
        ensures
            res == checked_get(self@, idx),
    ;

    /// Reads the byte at `idx`; the buffer keeps its contents.
    fn read(&mut self, idx: usize) -> (res: Result<u8, AccessError>)
        requires
            old(self).wf(),
        ensures
            final(self).wf(),
            final(self)@ == old(self)@,
            res == checked_get(old(self)@, idx),
    ;
}

/// A buffer whose bytes can be replaced by index.
pub trait WritableBuffer: Indexed {
    /// Stores `val` at `idx`, or refuses and leaves the buffer as it was.
    fn write(&mut self, idx: usize, val: u8) -> (res: Result<(), AccessError>)
        requires
            old(self).wf(),
        ensures
            final(self).wf(),
            final(self)@ == checked_set(old(self)@, idx, val),
            res is Ok <==> idx < old(self)@.len(),
            res is Err ==> res == Err::<(), AccessError>(AccessError::OutOfRange(idx)),
    ;
}

/// What a checked read of index `idx` yields on a buffer that holds `bytes`.
pub open spec fn checked_get(bytes: Seq<u8>, idx: usize) -> Result<u8, AccessError> {
    if idx < bytes.len() {
        Ok(bytes[idx as int])
    } else {
        Err(AccessError::OutOfRange(idx))
    }
}

/// What a buffer that held `bytes` holds after a checked write of `val` at
/// `idx`: a write beyond the end changes nothing.
pub open spec fn checked_set(bytes: Seq<u8>, idx: usize, val: u8) -> Seq<u8> {
    if idx < bytes.len() {
        bytes.update(idx as int, val)
    } else {
        bytes
    }
}

/// A buffer that held `before` after `image` was copied over its start; what
/// of `image` does not fit is dropped.
pub open spec fn overlay(before: Seq<u8>, image: Seq<u8>) -> Seq<u8> {
    Seq::new(
        before.len(),
        |i: int|
            if i < image.len() {
                image[i]
            } else {
                before[i]
            },
    )
}

/// The concatenation of `pages`, each taken as 256 bytes.
pub open spec fn flatten(pages: Seq<Seq<u8>>) -> Seq<u8> {
    Seq::new((pages.len() * 256) as nat, |i: int| pages[i / 256][i % 256])
}

/// Splits a byte index into the number of its page and the offset in that page.
fn split_index(global_idx: usize) -> (split: (usize, u8))
    ensures
        split.0 == global_idx / 256,
        split.1 == global_idx % 256,
{
    let page_index: usize = global_idx >> 8;
    let offset: u8 = (global_idx & 0xff) as u8;
    assert(global_idx >> 8 == global_idx / 256 && global_idx & 0xff == global_idx % 256)
        by (bit_vector);
    (page_index, offset)
}

/// A chunk of memory of a fixed size, 256 bytes.
pub struct MemoryPage {
    buffer: [u8; 256],
}

impl Indexed for MemoryPage {
    closed spec fn view(&self) -> Seq<u8> {
        self.buffer@
    }

    open spec fn wf(&self) -> bool {
        true
    }

    fn len(&self) -> (n: usize) {
        Self::SIZE
    }
}

impl MemoryPage {
    pub const SIZE: usize = 256;

    /// A page of zeroes.
    pub fn new() -> (page: Self)
        ensures
            page@ == Seq::new(256, |i: int| 0u8),
    {
        let page = Self { buffer: [0u8; 256] };
        assert(page@ =~= Seq::new(256, |i: int| 0u8));
        page
    }

    /// A page always holds `SIZE` bytes.
    pub broadcast proof fn lemma_page_len(&self)
        ensures
            #[trigger] self@.len() == 256,
    {
    }

    #[inline]
    fn check_idx(idx: usize) -> (res: Result<usize, AccessError>)
        ensures
            res == (if idx < 256 {
                Ok::<usize, AccessError>(idx)
            } else {
                Err::<usize, AccessError>(AccessError::OutOfRange(idx))
            }),
    {
        if idx >= Self::SIZE {
            return Err(AccessError::OutOfRange(idx));
        }
        Ok(idx)
    }

    #[inline]
    pub fn read_unchecked(&mut self, idx: u8) -> (val: u8)
        ensures
            val == old(self)@[idx as int],
            final(self)@ == old(self)@,
    {
        self.buffer[idx as usize]
    }

    #[inline]
    pub fn peek_unchecked(&self, idx: u8) -> (val: u8)
        ensures
            val == self@[idx as int],
    {
        self.buffer[idx as usize]
    }

    #[inline]
    pub fn write_unchecked(&mut self, idx: u8, val: u8)
        ensures
            final(self)@ == old(self)@.update(idx as int, val),
    {
        self.buffer[idx as usize] = val;
    }

    /// The bytes of the page.
    pub fn contents(&self) -> (bytes: &[u8])
        ensures
            bytes@ == self@,
    {
        self.buffer.as_slice()
    }
}

impl ReadableBuffer for MemoryPage {
    #[inline]
    fn peek(&self, idx: usize) -> (res: Result<u8, AccessError>) {
        match Self::check_idx(idx) {
            Ok(i) => Ok(self.buffer[i]),
            Err(e) => Err(e),
        }
    }

    #[inline]
    fn read(&mut self, idx: usize) -> (res: Result<u8, AccessError>) {
        if idx >= Self::SIZE {
            return Err(AccessError::OutOfRange(idx));
        }
        Ok(self.buffer[idx])
    }
}

impl WritableBuffer for MemoryPage {
    fn write(&mut self, idx: usize, val: u8) -> (res: Result<(), AccessError>) {
        if idx >= Self::SIZE {
            return Err(AccessError::OutOfRange(idx));
        }
        self.buffer[idx] = val;
        Ok(())
    }
}

/// The views of the pages in `pages`, in order.
pub open spec fn page_views(pages: Seq<MemoryPage>) -> Seq<Seq<u8>> {
    Seq::new(pages.len(), |i: int| pages[i]@)
}

/// `n` pages of zeroes.
fn zeroed_pages(n: usize) -> (pages: Vec<MemoryPage>)
    ensures
        pages@.len() == n,
        forall|i: int| 0 <= i < n ==> (#[trigger] pages@[i])@ == Seq::new(256, |j: int| 0u8),
{
    let mut pages: Vec<MemoryPage> = Vec::new();
    let mut i: usize = 0;
    while i < n
        invariant
            i <= n,
            pages@.len() == i,
            forall|k: int| 0 <= k < i ==> (#[trigger] pages@[k])@ == Seq::new(256, |j: int| 0u8),
        decreases n - i,
    {
        pages.push(MemoryPage::new());
        i += 1;
    }
    pages
}

/// Copies `bytes[..count]` over the start of `pages`.
fn copy_into_pages(pages: &mut Vec<MemoryPage>, bytes: &[u8], count: usize)
    requires
        count <= bytes@.len(),
        count <= old(pages)@.len() * 256,
    ensures
        final(pages)@.len() == old(pages)@.len(),
        flatten(page_views(final(pages)@)) == overlay(
            flatten(page_views(old(pages)@)),
            bytes@.take(count as int),
        ),
{
    let ghost before = flatten(page_views(pages@));
    let mut i: usize = 0;
    while i < count
        invariant
            i <= count <= bytes@.len(),
            count <= pages@.len() * 256,
            pages@.len() == old(pages)@.len(),
            before == flatten(page_views(old(pages)@)),
            flatten(page_views(pages@)) == overlay(before, bytes@.take(i as int)),
        decreases count - i,
    {
        let (page, offset) = split_index(i);
        let ghost prev = pages@;
        pages[page].write_unchecked(offset, bytes[i]);
        proof {
            broadcast use MemoryPage::lemma_page_len;

            assert(prev[page as int]@.len() == 256);
            assert(flatten(page_views(pages@)) =~= overlay(before, bytes@.take(i + 1))) by {
                assert forall|k: int| 0 <= k < pages@.len() * 256 implies flatten(
                    page_views(pages@),
                )[k] == overlay(before, bytes@.take(i + 1))[k] by {
                    assert(flatten(page_views(prev))[k] == overlay(
                        before,
                        bytes@.take(i as int),
                    )[k]);
                    if k / 256 != page as int {
                        assert(pages@[k / 256] == prev[k / 256]);
                    }
                }
            }
        }
        i += 1;
    }
}

/// All the bytes of `pages`, page after page.
fn gather_pages(pages: &Vec<MemoryPage>) -> (bytes: Vec<u8>)
    ensures
        bytes@ == flatten(page_views(pages@)),
{
    let mut contents: Vec<u8> = Vec::new();
    let mut p: usize = 0;
    while p < pages.len()
        invariant
            p <= pages@.len(),
            contents@.len() == p * 256,
            forall|k: int|
                0 <= k < p * 256 ==> #[trigger] contents@[k] == flatten(page_views(pages@))[k],
        decreases pages@.len() - p,
    {
        let ghost prev = contents@;
        proof {
            broadcast use MemoryPage::lemma_page_len;

            assert(pages@[p as int]@.len() == 256);
        }
        contents.extend_from_slice(pages[p].contents());
        proof {
            assert(contents@ == prev + pages@[p as int]@);
            assert forall|k: int| 0 <= k < (p + 1) * 256 implies #[trigger] contents@[k]
                == flatten(page_views(pages@))[k] by {
                if k >= p * 256 {
                    assert(k / 256 == p as int);
                    assert(k % 256 == k - p * 256);
                }
            }
        }
        p += 1;
    }
    assert(contents@ =~= flatten(page_views(pages@)));
    contents
}

/// Read-write memory: an ordered sequence of pages.
pub struct RAMSegment {
    pages: Vec<MemoryPage>,
    size_bytes: usize,
}

impl Indexed for RAMSegment {
    closed spec fn view(&self) -> Seq<u8> {
        flatten(page_views(self.pages@))
    }

    closed spec fn wf(&self) -> bool {
        self.size_bytes == self.pages@.len() * 256
    }

    fn len(&self) -> (n: usize) {
        self.size_bytes
    }
}

impl RAMSegment {
    /// A segment of `num_pages` zeroed pages.
    pub fn new(num_pages: usize) -> (seg: Self)
        requires
            num_pages * 256 <= usize::MAX,
        ensures
            seg.wf(),
            seg@ == Seq::new((num_pages * 256) as nat, |i: int| 0u8),
    {
        let seg = Self { pages: zeroed_pages(num_pages), size_bytes: MemoryPage::SIZE * num_pages };
        assert(seg@ =~= Seq::new((num_pages * 256) as nat, |i: int| 0u8));
        seg
    }

    fn idx_split(global_idx: usize) -> (split: (usize, u8))
        ensures
            split.0 == global_idx / 256,
            split.1 == global_idx % 256,
    {
        split_index(global_idx)
    }

    fn check_idx(&self, idx: usize) -> (res: Result<(usize, u8), AccessError>)
        ensures
            idx < self@.len() ==> res == Ok::<(usize, u8), AccessError>(
                ((idx / 256) as usize, (idx % 256) as u8),
            ),
            idx >= self@.len() ==> res == Err::<(usize, u8), AccessError>(
                AccessError::OutOfRange(idx),
            ),
    {
        let idx_result = Self::idx_split(idx);
        if idx_result.0 >= self.pages.len() {
            return Err(AccessError::OutOfRange(idx));
        }
        Ok(idx_result)
    }

    /// The byte at `offset` in page `page`.
    pub fn read_page_offset(&mut self, page: usize, offset: u8) -> (val: u8)
        requires
            old(self).wf(),
            page * 256 + offset < old(self)@.len(),
        ensures
            final(self).wf(),
            final(self)@ == old(self)@,
            val == old(self)@[page * 256 + offset],
    {
        self.peek_page_offset(page, offset)
    }

    /// The byte at `offset` in page `page`.
    pub fn peek_page_offset(&self, page: usize, offset: u8) -> (val: u8)
        requires
            page * 256 + offset < self@.len(),
        ensures
            val == self@[page * 256 + offset],
    {
        self.pages[page].peek_unchecked(offset)
    }

    /// Stores `val` at `offset` in page `page`.
    pub fn write_page_offset(&mut self, page: usize, offset: u8, val: u8)
        requires
            old(self).wf(),
            page * 256 + offset < old(self)@.len(),
        ensures
            final(self).wf(),
            final(self)@ == old(self)@.update(page * 256 + offset, val),
    {
        let ghost prev = self.pages@;
        self.pages[page].write_unchecked(offset, val);
        proof {
            broadcast use MemoryPage::lemma_page_len;

            assert(prev[page as int]@.len() == 256);
            assert(self@ =~= old(self)@.update(page * 256 + offset, val)) by {
                assert forall|k: int| 0 <= k < self@.len() implies self@[k] == old(self)@.update(
                    page * 256 + offset,
                    val,
                )[k] by {
                    if k / 256 != page as int {
                        assert(self.pages@[k / 256] == prev[k / 256]);
                    }
                }
            }
        }
    }

    /// Copies `bytes` over the start of the segment; what lies beyond the
    /// segment's capacity is dropped.
    pub fn load(&mut self, bytes: &[u8])
        requires
            old(self).wf(),
        ensures
            final(self).wf(),
            final(self)@ == overlay(old(self)@, bytes@),
    {
        let count = if bytes.len() < self.size_bytes {
            bytes.len()
        } else {
            self.size_bytes
        };
        copy_into_pages(&mut self.pages, bytes, count);
        assert(self@ =~= overlay(old(self)@, bytes@));
    }

    /// All the bytes of the segment, page after page.
    pub fn contents(&self) -> (bytes: Vec<u8>)
        ensures
            bytes@ == self@,
    {
        gather_pages(&self.pages)
    }
}

impl ReadableBuffer for RAMSegment {
    fn peek(&self, idx: usize) -> (res: Result<u8, AccessError>) {
        match self.check_idx(idx) {
            Ok((page, offset)) => Ok(self.pages[page].peek_unchecked(offset)),
            Err(e) => Err(e),
        }
    }

    fn read(&mut self, idx: usize) -> (res: Result<u8, AccessError>) {
        self.peek(idx)
    }
}

impl WritableBuffer for RAMSegment {
    fn write(&mut self, idx: usize, val: u8) -> (res: Result<(), AccessError>) {
        match self.check_idx(idx) {
            Ok((page, offset)) => {
                self.write_page_offset(page, offset, val);
                Ok(())
            },
            Err(e) => Err(e),
        }
    }
}

/// Read-only memory: an ordered sequence of pages that is filled once, by
/// `load`, and offers no byte-level write.
pub struct ROMSegment {
    pages: Vec<MemoryPage>,
    size_bytes: usize,
}

impl Indexed for ROMSegment {
    closed spec fn view(&self) -> Seq<u8> {
        flatten(page_views(self.pages@))
    }

    closed spec fn wf(&self) -> bool {
        self.size_bytes == self.pages@.len() * 256
    }

    fn len(&self) -> (n: usize) {
        self.size_bytes
    }
}

impl ROMSegment {
    /// A segment of `num_pages` zeroed pages.
    pub fn new(num_pages: usize) -> (seg: Self)
        requires
            num_pages * 256 <= usize::MAX,
        ensures
            seg.wf(),
            seg@ == Seq::new((num_pages * 256) as nat, |i: int| 0u8),
    {
        let seg = Self { pages: zeroed_pages(num_pages), size_bytes: MemoryPage::SIZE * num_pages };
        assert(seg@ =~= Seq::new((num_pages * 256) as nat, |i: int| 0u8));
        seg
    }

    fn idx_split(global_idx: usize) -> (split: (usize, u8))
        ensures
            split.0 == global_idx / 256,
            split.1 == global_idx % 256,
    {
        split_index(global_idx)
    }

    fn check_idx(&self, idx: usize) -> (res: Result<(usize, u8), AccessError>)
        ensures
            idx < self@.len() ==> res == Ok::<(usize, u8), AccessError>(
                ((idx / 256) as usize, (idx % 256) as u8),
            ),
            idx >= self@.len() ==> res == Err::<(usize, u8), AccessError>(
                AccessError::OutOfRange(idx),
            ),
    {
        let idx_result = Self::idx_split(idx);
        if idx_result.0 >= self.pages.len() {
            return Err(AccessError::OutOfRange(idx));
        }
        Ok(idx_result)
    }

    /// Copies `bytes` over the start of the segment, or refuses an image that
    /// is longer than the segment and leaves the segment as it was.
    pub fn load(&mut self, bytes: &[u8]) -> (res: Result<(), AccessError>)
        requires
            old(self).wf(),
        ensures
            final(self).wf(),
            bytes@.len() <= old(self)@.len() ==> res is Ok && final(self)@ == overlay(
                old(self)@,
                bytes@,
            ),
            bytes@.len() > old(self)@.len() ==> res == Err::<(), AccessError>(
                AccessError::OutOfRange(old(self)@.len() as usize),
            ) && final(self)@ == old(self)@,
    {
        if bytes.len() > self.size_bytes {
            return Err(AccessError::OutOfRange(self.size_bytes));
        }
        copy_into_pages(&mut self.pages, bytes, bytes.len());
        assert(bytes@.take(bytes@.len() as int) =~= bytes@);
        Ok(())
    }

    /// The byte at `offset` in page `page`.
    pub fn read_page_offset(&mut self, page: usize, offset: u8) -> (val: u8)
        requires
            old(self).wf(),
            page * 256 + offset < old(self)@.len(),
        ensures
            final(self).wf(),
            final(self)@ == old(self)@,
            val == old(self)@[page * 256 + offset],
    {
        self.peek_page_offset(page, offset)
    }

    /// The byte at `offset` in page `page`.
    pub fn peek_page_offset(&self, page: usize, offset: u8) -> (val: u8)
        requires
            page * 256 + offset < self@.len(),
        ensures
            val == self@[page * 256 + offset],
    {
        self.pages[page].peek_unchecked(offset)
    }
}

impl ReadableBuffer for ROMSegment {
    fn peek(&self, idx: usize) -> (res: Result<u8, AccessError>) {
        match self.check_idx(idx) {
            Ok((page, offset)) => Ok(self.pages[page].peek_unchecked(offset)),
            Err(e) => Err(e),
        }
    }

    fn read(&mut self, idx: usize) -> (res: Result<u8, AccessError>) {
        self.peek(idx)
    }
}

} // verus!
