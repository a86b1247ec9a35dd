//! Owning containers and the payload type change that keeps shape and
//! address.
//!
//! Each shape wraps one heap-allocated payload and exposes the two primitive
//! operations the type change is built from: release-without-destruct and
//! reconstruct-from-raw-region. The reconstruction is the unchecked-contract
//! entry point of a shape — nothing ties the region handed to it to a prior
//! release — and the type change calls it only through the function adapter,
//! as a checked-looking callable.

use vstd::prelude::*;
use core::marker::PhantomData;
use crate::adapter::UncheckedFn2;
use crate::adapter::unsafe_fn_to_safe_fn;
use crate::memory::Memory;
use crate::sealed::ContainerTransmuteSealed;

verus! {

/// An owning container holding a payload of type `T`, with its payload type
/// changeable to `U` while the shape, the payload address and the payload
/// bytes stay fixed.
pub trait ContainerTransmute<T, U>: ContainerTransmuteSealed + Sized {
    /// The same container shape, holding a `U`.
    type Output;

    /// The payload region of the input container, as (address, extent).
    spec fn region_in(&self) -> (int, int);

    /// The payload region of the output container, as (address, extent).
    spec fn region_out(out: &Self::Output) -> (int, int);

    /// Changes the payload type from `T` to `U`.
    ///
    /// The output holds its payload at the identical heap address and
    /// extent; no byte moves and no teardown logic of either type runs.
    /// Whether the payload bytes form a valid `U` is the caller's unchecked
    /// contract.
    fn transmute(self) -> (r: Self::Output)
        ensures
            Self::region_out(&r) == self.region_in(),
    ;
}

/// A unique-ownership box: sole responsibility for one heap payload.
pub struct UniqueBox<T> {
    /// First address of the payload region.
    pub addr: usize,
    /// Extent of the payload region in bytes.
    pub size: usize,
    /// The payload type, as a pure label.
    pub ty: PhantomData<T>,
}

impl<T> UniqueBox<T> {
    /// The payload region, as (address, extent).
    pub open spec fn region(&self) -> (int, int) {
        (self.addr as int, self.size as int)
    }

    /// Allocates a payload at the end of the address space holding exactly
    /// the given bytes, and hands back the owning box.
    pub fn new(mem: &mut Memory, bytes: &Vec<u8>) -> (r: UniqueBox<T>)
        requires
            old(mem)@.len() + bytes@.len() <= usize::MAX,
        ensures
            final(mem)@ == old(mem)@ + bytes@,
            r.addr == old(mem)@.len(),
            r.size == bytes@.len(),
    {
        let (addr, size) = store_bytes(mem, bytes);
        UniqueBox { addr, size, ty: PhantomData }
    }

    /// Releases the payload without destructing it, handing over the raw
    /// payload region while suspending ownership bookkeeping.
    pub fn into_raw(self) -> (r: (usize, usize))
        ensures
            (r.0 as int, r.1 as int) == self.region(),
    {
        (self.addr, self.size)
    }

    /// Reconstructs a live box from a raw payload region.
    ///
    /// This is the unchecked-contract constructor of the shape: that the
    /// region came from a matching prior release is an obligation the type
    /// system does not record.
    pub fn from_raw(addr: usize, size: usize) -> (r: UniqueBox<T>)
        ensures
            r.addr == addr,
            r.size == size,
    {
        UniqueBox { addr, size, ty: PhantomData }
    }
}

impl<T> ContainerTransmuteSealed for UniqueBox<T> {

}

impl<T, U> ContainerTransmute<T, U> for UniqueBox<T> {
    type Output = UniqueBox<U>;

    open spec fn region_in(&self) -> (int, int) {
        self.region()
    }

    open spec fn region_out(out: &UniqueBox<U>) -> (int, int) {
        out.region()
    }

    fn transmute(self) -> (r: UniqueBox<U>) {
        let (addr, size) = self.into_raw();
        let wrapped = UncheckedFn2::<_, usize, usize, UniqueBox<U>>::new(UniqueBox::<U>::from_raw);
        let from_raw = unsafe_fn_to_safe_fn(wrapped);
        let out: UniqueBox<U> = from_raw(addr, size);
        out
    }
}

/// A single-threaded shared-ownership cell: responsibility for one heap
/// payload shared by reference counting, without cross-thread
/// synchronization.
///
/// The reference count is embedded metadata of the allocation, not part of
/// the payload region; a payload type change leaves the whole address space
/// untouched, so the count stays exactly as it was.
pub struct SharedBox<T> {
    /// First address of the payload region.
    pub addr: usize,
    /// Extent of the payload region in bytes.
    pub size: usize,
    /// The payload type, as a pure label.
    pub ty: PhantomData<T>,
}

impl<T> SharedBox<T> {
    /// The payload region, as (address, extent).
    pub open spec fn region(&self) -> (int, int) {
        (self.addr as int, self.size as int)
    }

    /// Allocates a payload at the end of the address space holding exactly
    /// the given bytes, and hands back the owning cell.
    pub fn new(mem: &mut Memory, bytes: &Vec<u8>) -> (r: SharedBox<T>)
        requires
            old(mem)@.len() + bytes@.len() <= usize::MAX,
        ensures
            final(mem)@ == old(mem)@ + bytes@,
            r.addr == old(mem)@.len(),
            r.size == bytes@.len(),
    {
        let (addr, size) = store_bytes(mem, bytes);
        SharedBox { addr, size, ty: PhantomData }
    }

    /// Releases the payload without destructing it, handing over the raw
    /// payload region while suspending ownership bookkeeping.
    pub fn into_raw(self) -> (r: (usize, usize))
        ensures
            (r.0 as int, r.1 as int) == self.region(),
    {
        (self.addr, self.size)
    }

    /// Reconstructs a live cell from a raw payload region.
    ///
    /// This is the unchecked-contract constructor of the shape: that the
    /// region came from a matching prior release is an obligation the type
    /// system does not record.
    pub fn from_raw(addr: usize, size: usize) -> (r: SharedBox<T>)
        ensures
            r.addr == addr,
            r.size == size,
    {
        SharedBox { addr, size, ty: PhantomData }
    }
}

impl<T> ContainerTransmuteSealed for SharedBox<T> {

}

impl<T, U> ContainerTransmute<T, U> for SharedBox<T> {
    type Output = SharedBox<U>;

    open spec fn region_in(&self) -> (int, int) {
        self.region()
    }

    open spec fn region_out(out: &SharedBox<U>) -> (int, int) {
        out.region()
    }

    fn transmute(self) -> (r: SharedBox<U>) {
        let (addr, size) = self.into_raw();
        let wrapped = UncheckedFn2::<_, usize, usize, SharedBox<U>>::new(SharedBox::<U>::from_raw);
        let from_raw = unsafe_fn_to_safe_fn(wrapped);
        let out: SharedBox<U> = from_raw(addr, size);
        out
    }
}

/// A thread-safe shared-ownership cell: responsibility for one heap payload
/// shared by atomic reference counting.
///
/// Its synchronization primitives are embedded metadata of the allocation,
/// not part of the payload region; a payload type change leaves the whole
/// address space untouched, so they stay exactly as they were.
pub struct SyncBox<T> {
    /// First address of the payload region.
    pub addr: usize,
    /// Extent of the payload region in bytes.
    pub size: usize,
    /// The payload type, as a pure label.
    pub ty: PhantomData<T>,
}

impl<T> SyncBox<T> {
    /// The payload region, as (address, extent).
    pub open spec fn region(&self) -> (int, int) {
        (self.addr as int, self.size as int)
    }

    /// Allocates a payload at the end of the address space holding exactly
    /// the given bytes, and hands back the owning cell.
    pub fn new(mem: &mut Memory, bytes: &Vec<u8>) -> (r: SyncBox<T>)
        requires
            old(mem)@.len() + bytes@.len() <= usize::MAX,
        ensures
            final(mem)@ == old(mem)@ + bytes@,
            r.addr == old(mem)@.len(),
            r.size == bytes@.len(),
    {
        let (addr, size) = store_bytes(mem, bytes);
        SyncBox { addr, size, ty: PhantomData }
    }

    /// Releases the payload without destructing it, handing over the raw
    /// payload region while suspending ownership bookkeeping.
    pub fn into_raw(self) -> (r: (usize, usize))
        ensures
            (r.0 as int, r.1 as int) == self.region(),
    {
        (self.addr, self.size)
    }

    /// Reconstructs a live cell from a raw payload region.
    ///
    /// This is the unchecked-contract constructor of the shape: that the
    /// region came from a matching prior release is an obligation the type
    /// system does not record.
    pub fn from_raw(addr: usize, size: usize) -> (r: SyncBox<T>)
        ensures
            r.addr == addr,
            r.size == size,
    {
        SyncBox { addr, size, ty: PhantomData }
    }
}

impl<T> ContainerTransmuteSealed for SyncBox<T> {

}

impl<T, U> ContainerTransmute<T, U> for SyncBox<T> {
    type Output = SyncBox<U>;

    open spec fn region_in(&self) -> (int, int) {
        self.region()
    }

    open spec fn region_out(out: &SyncBox<U>) -> (int, int) {
        out.region()
    }

    fn transmute(self) -> (r: SyncBox<U>) {
        let (addr, size) = self.into_raw();
        let wrapped = UncheckedFn2::<_, usize, usize, SyncBox<U>>::new(SyncBox::<U>::from_raw);
        let from_raw = unsafe_fn_to_safe_fn(wrapped);
        let out: SyncBox<U> = from_raw(addr, size);
        out
    }
}

/// Changes the payload type of an owning container from `T` to `U`,
/// preserving the shape that was passed in.
///
/// The container handed back holds its payload at the identical heap
/// address and extent: nothing is materialized, copied or reallocated, and
/// for shared shapes the reference counts and embedded metadata sit outside
/// the payload region, which this call leaves untouched.
pub fn container_transmute<T, U, C: ContainerTransmute<T, U>>(container: C) -> (r: C::Output)
    ensures
        C::region_out(&r) == container.region_in(),
{
    container.transmute()
}

/// Law: a payload type change applied twice, from `T` to `U` and back to
/// `T`, hands back a unique-ownership box whose payload sits at the
/// original heap address and extent — the address is stable and nothing was
/// copied.
pub proof fn lemma_unique_box_transmute_twice<T, U>(
    c1: UniqueBox<T>,
    c2: UniqueBox<U>,
    c3: UniqueBox<T>,
)
    requires
        c2.region() == c1.region(),
        c3.region() == c2.region(),
    ensures
        c3.region() == c1.region(),
{
}

/// Law: a payload type change applied twice, from `T` to `U` and back to
/// `T`, hands back a single-threaded shared cell whose payload sits at the
/// original heap address and extent — the address is stable and nothing was
/// copied.
pub proof fn lemma_shared_box_transmute_twice<T, U>(
    c1: SharedBox<T>,
    c2: SharedBox<U>,
    c3: SharedBox<T>,
)
    requires
        c2.region() == c1.region(),
        c3.region() == c2.region(),
    ensures
        c3.region() == c1.region(),
{
}

/// Law: a payload type change applied twice, from `T` to `U` and back to
/// `T`, hands back a thread-safe shared cell whose payload sits at the
/// original heap address and extent — the address is stable and nothing was
/// copied.
pub proof fn lemma_sync_box_transmute_twice<T, U>(c1: SyncBox<T>, c2: SyncBox<U>, c3: SyncBox<T>)
    requires
        c2.region() == c1.region(),
        c3.region() == c2.region(),
    ensures
        c3.region() == c1.region(),
{
}

/// Appends the given bytes at the end of the address space and hands back
/// the region they occupy.
fn store_bytes(mem: &mut Memory, bytes: &Vec<u8>) -> (r: (usize, usize))
    requires
        old(mem)@.len() + bytes@.len() <= usize::MAX,
    ensures
        final(mem)@ == old(mem)@ + bytes@,
        r.0 == old(mem)@.len(),
        r.1 == bytes@.len(),
{
    let addr = mem.len();
    let size = bytes.len();
    let mut i: usize = 0;
    while i < size
        invariant
            i <= size,
            size == bytes@.len(),
            mem@ == old(mem)@ + bytes@.subrange(0, i as int),
        decreases size - i,
    {
        mem.push_byte(bytes[i]);
        proof {
            assert(old(mem)@ + bytes@.subrange(0, i as int) + seq![bytes@[i as int]] =~= old(
                mem,
            )@ + bytes@.subrange(0, i + 1));
        }
        i += 1;
    }
    proof {
        assert(old(mem)@ + bytes@.subrange(0, size as int) =~= old(mem)@ + bytes@);
    }
    (addr, size)
}

} // verus!
