//! The allocator shim: memory for the driver whose size travels inside the
//! block.
//!
//! The driver's allocator hooks have the C shape `alloc(size)`,
//! `realloc(ptr, size)` and `free(ptr)`: nothing tells the host allocator,
//! on `realloc` or `free`, how large the block was, and the host allocator
//! needs exactly that. So every block starts with a header of one 64-bit word
//! that holds the total size of the block, header included, and the driver
//! gets the address just past the header:
//!
//! ```text
//!   +--------+------------------------------+
//!   | total  | the `size` bytes of the caller |
//!   +--------+------------------------------+
//!   ^ block start
//!            ^ address handed to the driver
//! ```
//!
//! [`MemoryBlock`] is a whole block, header and payload, held as bytes; the
//! header is the total size in little-endian order. Its operations are the
//! shim's three hooks.
use vstd::bytes::{
    lemma_auto_spec_u64_to_from_le_bytes, spec_u64_from_le_bytes, spec_u64_to_le_bytes,
    u64_from_le_bytes, u64_to_le_bytes,
};
use vstd::prelude::*;
use vstd::slice::slice_subrange;

verus! {

/// The size of the header: one 64-bit word.
pub const HEADER_SIZE: usize = 8;

/// The alignment of every block. The driver never asks for memory aligned
/// beyond a byte, and an alignment of one keeps the header from shifting
/// the payload.
pub const BLOCK_ALIGNMENT: usize = 1;

/// The largest block the host allocator accepts at that alignment.
pub const MAX_BLOCK_SIZE: usize = usize::MAX / 2;

/// The total size of the block that holds `requested` bytes for the caller,
/// or `None` if no block can be that large.
pub open spec fn block_size_of(requested: nat) -> Option<nat> {
    if requested + HEADER_SIZE <= MAX_BLOCK_SIZE {
        Some((requested + HEADER_SIZE) as nat)
    } else {
        None
    }
}

/// The total size of the block that holds `requested` bytes for the caller.
///
/// Fails when the block would be larger than the host allocator accepts.
pub fn block_size(requested: usize) -> (r: Option<usize>)
    ensures
        r matches Some(t) ==> block_size_of(requested as nat) == Some(t as nat),
        r is None <==> block_size_of(requested as nat) is None,
{
    if requested <= MAX_BLOCK_SIZE - HEADER_SIZE {
        Some(requested + HEADER_SIZE)
    } else {
        None
    }
}

/// The header that records a block of `total` bytes.
pub fn encode_header(total: usize) -> (r: Vec<u8>)
    ensures
        r@ == spec_u64_to_le_bytes(total as u64),
        r@.len() == HEADER_SIZE,
        spec_u64_from_le_bytes(r@) == total as u64,
{
    proof {
        lemma_auto_spec_u64_to_from_le_bytes();
    }
    u64_to_le_bytes(total as u64)
}

/// The total size a header records.
pub fn decode_header(header: &[u8]) -> (r: usize)
    requires
        header@.len() == HEADER_SIZE,
    ensures
        r == spec_u64_from_le_bytes(header@) as usize,
{
    u64_from_le_bytes(header) as usize
}

/// A block handed out by the shim: the header, then the caller's bytes.
pub struct MemoryBlock {
    bytes: Vec<u8>,
}

impl View for MemoryBlock {
    /// The caller's bytes.
    type V = Seq<u8>;

    closed spec fn view(&self) -> Seq<u8> {
        self.bytes@.subrange(HEADER_SIZE as int, self.bytes@.len() as int)
    }
}

impl MemoryBlock {
    /// The header records the block's own total size, which the host
    /// allocator accepts.
    pub closed spec fn wf(&self) -> bool {
        &&& HEADER_SIZE <= self.bytes@.len() <= MAX_BLOCK_SIZE
        &&& spec_u64_from_le_bytes(self.bytes@.subrange(0, HEADER_SIZE as int))
            == self.bytes@.len() as u64
    }

    /// The total size of the block, header included.
    pub closed spec fn total_size(&self) -> nat {
        self.bytes@.len()
    }

    /// What the header records.
    pub closed spec fn recorded_size(&self) -> u64 {
        spec_u64_from_le_bytes(self.bytes@.subrange(0, HEADER_SIZE as int))
    }

    /// Every block's size is its payload plus the header, and the header
    /// records exactly that.
    pub proof fn lemma_header_records_total(&self)
        requires
            self.wf(),
        ensures
            self.total_size() == self@.len() + HEADER_SIZE,
            self.recorded_size() == self.total_size(),
            self.total_size() <= MAX_BLOCK_SIZE,
    {
    }

    fn write_header(bytes: &mut Vec<u8>)
        requires
            HEADER_SIZE <= old(bytes)@.len() <= MAX_BLOCK_SIZE,
        ensures
            final(bytes)@.len() == old(bytes)@.len(),
            final(bytes)@.subrange(HEADER_SIZE as int, final(bytes)@.len() as int)
                == old(bytes)@.subrange(HEADER_SIZE as int, old(bytes)@.len() as int),
            spec_u64_from_le_bytes(final(bytes)@.subrange(0, HEADER_SIZE as int))
                == final(bytes)@.len() as u64,
    {
        let ghost before = bytes@;
        let header = encode_header(bytes.len());
        let mut i: usize = 0;
        while i < HEADER_SIZE
            invariant
                i <= HEADER_SIZE,
                HEADER_SIZE <= before.len(),
                header@.len() == HEADER_SIZE,
                spec_u64_from_le_bytes(header@) == before.len() as u64,
                bytes@.len() == before.len(),
                forall|j: int| 0 <= j < i ==> bytes@[j] == header@[j],
                forall|j: int| HEADER_SIZE <= j < bytes@.len() ==> bytes@[j] == before[j],
            decreases HEADER_SIZE - i,
        {
            bytes.set(i, header[i]);
            i = i + 1;
        }
        assert(bytes@.subrange(0, HEADER_SIZE as int) =~= header@);
        assert(bytes@.subrange(HEADER_SIZE as int, bytes@.len() as int) =~= before.subrange(
            HEADER_SIZE as int,
            before.len() as int,
        ));
    }

    /// The shim's allocation hook: a block for `size` bytes of the caller, or `None`
    /// if no block can be that large.
    pub fn allocate(size: usize) -> (r: Option<MemoryBlock>)
        ensures
            r is None <==> block_size_of(size as nat) is None,
            r matches Some(b) ==> b.wf() && b@.len() == size && b.total_size() == size + HEADER_SIZE,
    {
        match block_size(size) {
            None => None,
            Some(total) => {
                let mut bytes: Vec<u8> = Vec::new();
                bytes.resize(total, 0u8);
                MemoryBlock::write_header(&mut bytes);
                Some(MemoryBlock { bytes })
            },
        }
    }

    /// The shim's reallocation hook: the block resized to hold `new_size` bytes of
    /// the caller, keeping the bytes both sizes share.
    ///
    /// If no block can be that large the block is handed back unchanged, as
    /// the host allocator leaves a block it failed to resize.
    pub fn resize(self, new_size: usize) -> (r: Result<MemoryBlock, MemoryBlock>)
        requires
            self.wf(),
        ensures
            r is Ok <==> block_size_of(new_size as nat) is Some,
            r matches Ok(b) ==> {
                &&& b.wf()
                &&& b@.len() == new_size
                &&& b.total_size() == new_size + HEADER_SIZE
                &&& forall|i: int|
                    0 <= i < new_size && i < self@.len() ==> #[trigger] b@[i] == self@[i]
            },
            r matches Err(b) ==> b == self,
    {
        match block_size(new_size) {
            None => Err(self),
            Some(total) => {
                let ghost old_view = self@;
                let mut bytes = self.bytes;
                bytes.resize(total, 0u8);
                MemoryBlock::write_header(&mut bytes);
                let b = MemoryBlock { bytes };
                assert forall|i: int| 0 <= i < new_size && i < old_view.len() implies #[trigger] b@[i]
                    == old_view[i] by {
                    assert(b@[i] == b.bytes@[i + HEADER_SIZE]);
                }
                Ok(b)
            },
        }
    }

    /// The shim's release hook: releases the block and reports the total size the
    /// header recorded, which is what goes back to the host allocator.
    pub fn release(self) -> (released: usize)
        requires
            self.wf(),
        ensures
            released == self.total_size(),
            released == self@.len() + HEADER_SIZE,
    {
        let header = slice_subrange(self.bytes.as_slice(), 0, HEADER_SIZE);
        decode_header(header)
    }

    /// The whole block from its start, header included.
    pub fn block_start(&self) -> (r: &[u8])
        ensures
            r@.len() == self.total_size(),
            r@.subrange(HEADER_SIZE as int, r@.len() as int) == self@,
    {
        self.bytes.as_slice()
    }

    /// The size the block was allocated with, as its header records it.
    pub fn layout(&self) -> (r: usize)
        requires
            self.wf(),
        ensures
            r == self.total_size(),
    {
        let header = slice_subrange(self.bytes.as_slice(), 0, HEADER_SIZE);
        decode_header(header)
    }

    /// The number of the caller's bytes.
    pub fn len(&self) -> (r: usize)
        requires
            self.wf(),
        ensures
            r == self@.len(),
    {
        self.bytes.len() - HEADER_SIZE
    }

    /// The caller's byte at `index`.
    pub fn read(&self, index: usize) -> (r: u8)
        requires
            self.wf(),
            index < self@.len(),
        ensures
            r == self@[index as int],
    {
        self.bytes[index + HEADER_SIZE]
    }

    /// Writes the caller's byte at `index`; the header and every other byte
    /// stay as they were.
    pub fn write(&mut self, index: usize, value: u8)
        requires
            old(self).wf(),
            index < old(self)@.len(),
        ensures
            final(self).wf(),
            final(self)@ == old(self)@.update(index as int, value),
            final(self).total_size() == old(self).total_size(),
            final(self).recorded_size() == old(self).recorded_size(),
    {
        let ghost before = self.bytes@;
        self.bytes.set(index + HEADER_SIZE, value);
        proof {
            assert(self.bytes@.subrange(0, HEADER_SIZE as int) =~= before.subrange(0, HEADER_SIZE as int));
            assert(self@ =~= before.subrange(HEADER_SIZE as int, before.len() as int).update(index as int, value));
        }
    }
}

/// A block allocated for `size` bytes and released after any writes to its
/// payload gives back to the host allocator exactly the size it took: the
/// writes never reach the header, so nothing leaks and nothing is released
/// twice.
pub proof fn lemma_allocation_round_trip(size: nat, allocated: MemoryBlock, written: MemoryBlock)
    requires
        allocated.wf(),
        allocated@.len() == size,
        allocated.total_size() == size + HEADER_SIZE,
        written.wf(),
        written.total_size() == allocated.total_size(),
        written.recorded_size() == allocated.recorded_size(),
    ensures
        block_size_of(size) == Some(written.total_size()),
        written.recorded_size() == allocated.total_size(),
        written@.len() == size,
{
}

/// The shim's reallocation hook as the driver calls it: with no block it allocates
/// one, as an allocation would; else it resizes the block.
pub fn reallocate(block: Option<MemoryBlock>, size: usize) -> (r: Result<MemoryBlock, Option<MemoryBlock>>)
    requires
        block matches Some(b) ==> b.wf(),
    ensures
        r matches Ok(b) ==> b.wf(),
        block is None ==> (r is Ok <==> block_size_of(size as nat) is Some),
        block is None ==> (r matches Ok(b) ==> b@.len() == size && b.total_size() == size + HEADER_SIZE),
        block is None && r is Err ==> r == Err::<MemoryBlock, Option<MemoryBlock>>(None),
        block matches Some(old_block) ==> {
            &&& r is Ok <==> block_size_of(size as nat) is Some
            &&& r matches Ok(b) ==> b@.len() == size && b.total_size() == size + HEADER_SIZE
                && forall|i: int| 0 <= i < size && i < old_block@.len() ==> #[trigger] b@[i] == old_block@[i]
            &&& r matches Err(back) ==> back == Some(old_block)
        },
{
    match block {
        None => match MemoryBlock::allocate(size) {
            Some(b) => Ok(b),
            None => Err(None),
        },
        Some(b) => match b.resize(size) {
            Ok(b) => Ok(b),
            Err(b) => Err(Some(b)),
        },
    }
}

/// The shim's release hook as the driver calls it: nothing to do without a block;
/// else the total size released.
pub fn free(block: Option<MemoryBlock>) -> (released: usize)
    requires
        block matches Some(b) ==> b.wf(),
    ensures
        block is None ==> released == 0,
        block matches Some(b) ==> released == b.total_size(),
{
    match block {
        None => 0,
        Some(b) => b.release(),
    }
}

} // verus!
