//! The flat address space that every reinterpretation works in, and the
//! byte-region accessors over it.

use vstd::prelude::*;
use vstd::slice::slice_subrange;

verus! {

/// A flat address space: addresses are indices into one sequence of bytes.
///
/// The reinterpretation primitives never allocate outside of it and never
/// inspect what a byte means; regions of it are only copied, borrowed, and
/// relabeled with a new declared type.
pub struct Memory {
    bytes: Vec<u8>,
}

impl View for Memory {
    type V = Seq<u8>;

    closed spec fn view(&self) -> Seq<u8> {
        self.bytes@
    }
}

impl Memory {
    /// The region `[addr, addr + size)` lies inside this address space.
    pub open spec fn valid_region(&self, addr: int, size: int) -> bool {
        0 <= addr && 0 <= size && addr + size <= self@.len()
    }

    /// An empty address space.
    pub fn new() -> (r: Memory)
        ensures
            r@ == Seq::<u8>::empty(),
    {
        Memory { bytes: Vec::new() }
    }

    /// An address space holding exactly the given bytes, starting at address 0.
    pub fn from_bytes(bytes: Vec<u8>) -> (r: Memory)
        ensures
            r@ == bytes@,
    {
        Memory { bytes }
    }

    /// Appends one byte at the end of the address space, leaving every
    /// existing byte in place.
    pub fn push_byte(&mut self, b: u8)
        ensures
            final(self)@ == old(self)@.push(b),
    {
        self.bytes.push(b);
    }

    /// The number of addressable bytes.
    pub fn len(&self) -> (r: usize)
        ensures
            r == self@.len(),
    {
        self.bytes.len()
    }
}

/// Copies `size` bytes from the region at `src` to the region at `dest`.
///
/// Both regions must lie in the address space and must not overlap; every
/// byte outside the destination region is left as it was.
pub fn copy(mem: &mut Memory, dest: usize, src: usize, size: usize)
    requires
        old(mem).valid_region(dest as int, size as int),
        old(mem).valid_region(src as int, size as int),
        dest + size <= src || src + size <= dest,
    ensures
        final(mem)@.len() == old(mem)@.len(),
        final(mem)@.subrange(dest as int, dest + size) == old(mem)@.subrange(
            src as int,
            src + size,
        ),
        forall|i: int|
            0 <= i < old(mem)@.len() && !(dest <= i < dest + size) ==> final(mem)@[i] == old(
                mem,
            )@[i],
{
    // Pins the vector length as a usize, so the address arithmetic below
    // cannot overflow.
    let _total: usize = mem.bytes.len();
    let mut i: usize = 0;
    while i < size
        invariant
            i <= size,
            mem@.len() <= usize::MAX,
            dest + size <= mem@.len(),
            src + size <= mem@.len(),
            dest + size <= src || src + size <= dest,
            mem@.len() == old(mem)@.len(),
            forall|j: int|
                dest <= j < dest + i ==> #[trigger] mem@[j] == old(mem)@[j - dest + src],
            forall|j: int|
                0 <= j < mem@.len() && !(dest <= j < dest + i) ==> #[trigger] mem@[j] == old(
                    mem,
                )@[j],
        decreases size - i,
    {
        let b = mem.bytes[src + i];
        mem.bytes[dest + i] = b;
        i += 1;
    }
    proof {
        assert(mem@.subrange(dest as int, dest + size) =~= old(mem)@.subrange(
            src as int,
            src + size,
        ));
    }
}

/// Law: round trip through the byte-region accessors. Whenever a copy has
/// made the destination region hold the source region's bytes, a borrowed
/// view of the destination yields exactly the byte sequence that sat at the
/// source — for any byte sequence and any length.
pub proof fn lemma_copy_roundtrip(
    before: Seq<u8>,
    after: Seq<u8>,
    borrowed: Seq<u8>,
    dest: int,
    src: int,
    size: int,
)
    requires
        0 <= dest,
        0 <= src,
        0 <= size,
        dest + size <= before.len(),
        src + size <= before.len(),
        after.subrange(dest, dest + size) == before.subrange(src, src + size),
        borrowed == after.subrange(dest, dest + size),
    ensures
        borrowed == before.subrange(src, src + size),
{
}

/// A borrowed, read-only view of `size` bytes starting at `addr`.
///
/// In the model the borrow is tied to the address space itself, so the view
/// is valid for exactly as long as the memory it looks into.
pub fn ptr_to_slice(mem: &Memory, addr: usize, size: usize) -> (r: &[u8])
    requires
        mem.valid_region(addr as int, size as int),
    ensures
        r@ == mem@.subrange(addr as int, addr + size),
{
    // Pins the vector length as a usize, so `addr + size` cannot overflow.
    let _total: usize = mem.bytes.len();
    slice_subrange(mem.bytes.as_slice(), addr, addr + size)
}

} // verus!
