//! Promotion of possibly-uninitialized storage to an initialized value, for
//! bare storage and for each owning-container shape wrapping it.

use vstd::prelude::*;
use crate::container::ContainerTransmute;
use crate::container::SharedBox;
use crate::container::SyncBox;
use crate::container::UniqueBox;
use crate::engine::Raw;
use crate::engine::Uninit;
use crate::engine::transmute_copy;
use crate::memory::Memory;
use crate::sealed::AssumeInitSealed;

verus! {

/// Storage declared "possibly uninitialized for a `T`" that can be marked
/// as now holding a valid `T`.
///
/// Promotion is a pure relabeling: the output covers exactly the region of
/// the input and no byte of the address space moves, so whatever a fill
/// wrote into the storage is the value. That the bytes actually form a
/// valid `T` is the caller's unchecked contract.
pub trait AssumeInit<T>: AssumeInitSealed + Sized {
    /// The initialized counterpart of this storage shape.
    type Output;

    /// The storage region of the input, as (address, extent).
    spec fn region_in(&self) -> (int, int);

    /// The storage region of the output, as (address, extent).
    spec fn region_out(out: &Self::Output) -> (int, int);

    /// Marks the storage as holding a valid `T`.
    fn assume_init(self) -> (r: Self::Output)
        ensures
            Self::region_out(&r) == self.region_in(),
    ;
}

impl<T> AssumeInitSealed for Raw<Uninit<T>> {

}

impl<T> AssumeInit<T> for Raw<Uninit<T>> {
    type Output = Raw<T>;

    open spec fn region_in(&self) -> (int, int) {
        self.region()
    }

    open spec fn region_out(out: &Raw<T>) -> (int, int) {
        out.region()
    }

    fn assume_init(self) -> (r: Raw<T>) {
        transmute_copy::<Uninit<T>, T>(self)
    }
}

impl<T> AssumeInitSealed for UniqueBox<Uninit<T>> {

}

impl<T> AssumeInit<T> for UniqueBox<Uninit<T>> {
    type Output = UniqueBox<T>;

    open spec fn region_in(&self) -> (int, int) {
        self.region()
    }

    open spec fn region_out(out: &UniqueBox<T>) -> (int, int) {
        out.region()
    }

    fn assume_init(self) -> (r: UniqueBox<T>) {
        <UniqueBox<Uninit<T>> as ContainerTransmute<Uninit<T>, T>>::transmute(self)
    }
}

impl<T> AssumeInitSealed for SharedBox<Uninit<T>> {

}

impl<T> AssumeInit<T> for SharedBox<Uninit<T>> {
    type Output = SharedBox<T>;

    open spec fn region_in(&self) -> (int, int) {
        self.region()
    }

    open spec fn region_out(out: &SharedBox<T>) -> (int, int) {
        out.region()
    }

    fn assume_init(self) -> (r: SharedBox<T>) {
        <SharedBox<Uninit<T>> as ContainerTransmute<Uninit<T>, T>>::transmute(self)
    }
}

impl<T> AssumeInitSealed for SyncBox<Uninit<T>> {

}

impl<T> AssumeInit<T> for SyncBox<Uninit<T>> {
    type Output = SyncBox<T>;

    open spec fn region_in(&self) -> (int, int) {
        self.region()
    }

    open spec fn region_out(out: &SyncBox<T>) -> (int, int) {
        out.region()
    }

    fn assume_init(self) -> (r: SyncBox<T>) {
        <SyncBox<Uninit<T>> as ContainerTransmute<Uninit<T>, T>>::transmute(self)
    }
}

/// Marks storage previously declared possibly-uninitialized as now holding
/// a valid value, for bare storage and for each owning container wrapping
/// it.
///
/// The value covers exactly the region of the storage; no byte moves and no
/// reallocation happens. That the storage was actually filled with a valid
/// bit pattern is the caller's unchecked contract.
pub fn assume_init<T, AI: AssumeInit<T>>(m: AI) -> (r: AI::Output)
    ensures
        AI::region_out(&r) == m.region_in(),
{
    m.assume_init()
}

/// Law: promotion preserves identity. The promoted value covers exactly the
/// storage's region, so in any address space the value's bytes are exactly
/// the bytes a fill wrote into the storage.
pub proof fn lemma_promotion_preserves_bytes<T>(mem: &Memory, u: Raw<Uninit<T>>, v: Raw<T>)
    requires
        v.region() == u.region(),
    ensures
        mem@.subrange(v.addr as int, v.addr + v.size) == mem@.subrange(
            u.addr as int,
            u.addr + u.size,
        ),
{
}

} // verus!
