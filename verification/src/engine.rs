//! The raw reinterpretation engine: typed region handles and the in-place
//! type-label switch, plus reservation of possibly-uninitialized storage and
//! the typed read built from them.

use vstd::prelude::*;
use core::marker::PhantomData;
use crate::memory::Memory;
use crate::memory::copy;

verus! {

/// A value of declared type `T`, modeled as the region of the address space
/// that its bytes occupy.
///
/// The declared type is a pure label: no operation on a handle ever reads or
/// writes the bytes it covers because of `T`. A handle carries no validity
/// claim of its own; whether its bytes form a valid `T` is the caller's
/// contract, exactly as with a raw typed pointer.
pub struct Raw<T> {
    /// First address of the region holding the value's bytes.
    pub addr: usize,
    /// Extent of the region in bytes.
    pub size: usize,
    /// The declared type, as a pure label.
    pub ty: PhantomData<T>,
}

/// The type label "possibly-uninitialized storage sized for a `T`".
///
/// A region declared as `Uninit<T>` has been reserved for a `T` but may not
/// yet hold a valid bit pattern for one; promotion relabels it as `T`.
pub struct Uninit<T> {
    /// The declared type, as a pure label.
    pub ty: PhantomData<T>,
}

impl<T> Raw<T> {
    /// The region this handle covers, as (address, extent).
    pub open spec fn region(&self) -> (int, int) {
        (self.addr as int, self.size as int)
    }

    /// Declares the region `[addr, addr + size)` to hold a value of type `T`.
    ///
    /// This is the unchecked entry point of the model: nothing ties the
    /// region to the address space or to a valid `T`, just as nothing ties a
    /// raw pointer to a live allocation.
    pub fn from_region(addr: usize, size: usize) -> (r: Raw<T>)
        ensures
            r.addr == addr,
            r.size == size,
    {
        Raw { addr, size, ty: PhantomData }
    }

    /// Reserves fresh storage of `size` bytes at the end of the address
    /// space, with unspecified contents.
    pub fn reserve(mem: &mut Memory, size: usize) -> (r: Raw<T>)
        requires
            old(mem)@.len() + size <= usize::MAX,
        ensures
            final(mem)@.len() == old(mem)@.len() + size,
            final(mem)@.subrange(0, old(mem)@.len() as int) == old(mem)@,
            r.addr == old(mem)@.len(),
            r.size == size,
    {
        let addr = mem.len();
        reserve_zeroed(mem, size);
        Raw { addr, size, ty: PhantomData }
    }
}

/// Extends the address space by `size` bytes, leaving every existing byte in
/// place. The contract leaves the new bytes unspecified: they model storage
/// that was reserved but never written.
fn reserve_zeroed(mem: &mut Memory, size: usize)
    requires
        old(mem)@.len() + size <= usize::MAX,
    ensures
        final(mem)@.len() == old(mem)@.len() + size,
        final(mem)@.subrange(0, old(mem)@.len() as int) == old(mem)@,
{
    let mut i: usize = 0;
    while i < size
        invariant
            i <= size,
            mem@.len() == old(mem)@.len() + i,
            mem@.subrange(0, old(mem)@.len() as int) == old(mem)@,
        decreases size - i,
    {
        mem.push_byte(0);
        i += 1;
    }
}

/// Switches the declared type of the passed value from `T` to `U`.
///
/// The switch happens in place: the returned handle covers exactly the
/// region of the argument, and no byte of the address space is read or
/// written. Neither `T`'s nor `U`'s teardown logic exists in the model, so
/// none runs. No relation between the extents of `T` and `U` is checked;
/// whether the bytes left behind by the `T` form a valid `U` is the
/// caller's unchecked contract.
pub fn transmute_copy<T, U>(source: Raw<T>) -> (r: Raw<U>)
    ensures
        r.region() == source.region(),
{
    Raw { addr: source.addr, size: source.size, ty: PhantomData }
}

/// Reconstructs a full value of type `T` by byte-copying `size` bytes from
/// `src` into freshly reserved storage and promoting that storage to a `T`.
///
/// Existing memory below `old(mem)@.len()` is unchanged; the returned value
/// sits in fresh storage whose bytes equal the source region's bytes.
pub fn read<T>(mem: &mut Memory, src: usize, size: usize) -> (r: Raw<T>)
    requires
        old(mem).valid_region(src as int, size as int),
        old(mem)@.len() + size <= usize::MAX,
    ensures
        final(mem)@.len() == old(mem)@.len() + size,
        final(mem)@.subrange(0, old(mem)@.len() as int) == old(mem)@,
        r.addr == old(mem)@.len(),
        r.size == size,
        final(mem)@.subrange(r.addr as int, r.addr + size) == old(mem)@.subrange(
            src as int,
            src + size,
        ),
{
    let that: Raw<Uninit<T>> = Raw::reserve(mem, size);
    let ghost reserved = mem@;
    copy(mem, that.addr, src, size);
    proof {
        assert(reserved.subrange(src as int, src + size) =~= old(mem)@.subrange(
            src as int,
            src + size,
        ));
        assert(mem@.subrange(0, old(mem)@.len() as int) =~= old(mem)@);
    }
    transmute_copy::<Uninit<T>, T>(that)
}

/// Law: a typed read preserves content. Whenever a read has placed a value
/// in fresh storage whose bytes equal the source region's bytes, a borrowed
/// view of the value's region yields exactly the byte sequence of the
/// source — the reconstructed value equals the original in content.
pub proof fn lemma_read_preserves_content(
    before: Seq<u8>,
    after: Seq<u8>,
    borrowed: Seq<u8>,
    addr: int,
    src: int,
    size: int,
)
    requires
        0 <= src,
        0 <= size,
        src + size <= before.len(),
        0 <= addr,
        addr + size <= after.len(),
        after.subrange(addr, addr + size) == before.subrange(src, src + size),
        borrowed == after.subrange(addr, addr + size),
    ensures
        borrowed == before.subrange(src, src + size),
{
}

} // verus!
