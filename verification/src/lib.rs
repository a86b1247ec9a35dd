//! A model of runtime memory reinterpretation: changing the declared type of a
//! region of memory without touching its bytes.
//!
//! Every value lives in a flat, explicit address space ([`memory::Memory`]) and
//! is handled through a typed region handle. The core primitive switches the
//! type label attached to a region in place; byte-region accessors, typed
//! reads, promotion of possibly-uninitialized storage, owning-container type
//! changes and the unchecked-to-checked function adapter are built on top of
//! it. The contracts state that no switch ever inspects or modifies a byte,
//! and that heap addresses survive every container type change.

pub mod adapter;
pub mod codec;
pub mod container;
pub mod engine;
pub mod memory;
pub mod promote;

use vstd::prelude::*;

verus! {

pub use crate::adapter::FromUnsafeFn;
pub use crate::adapter::unsafe_fn_to_safe_fn;
pub use crate::container::ContainerTransmute;
pub use crate::container::container_transmute;
pub use crate::engine::Raw;
pub use crate::engine::Uninit;
pub use crate::engine::read;
pub use crate::engine::transmute_copy;
pub use crate::memory::Memory;
pub use crate::memory::copy;
pub use crate::memory::ptr_to_slice;
pub use crate::promote::AssumeInit;
pub use crate::promote::assume_init;
pub use crate::sealed::AssumeInitSealed;
pub use crate::sealed::ContainerTransmuteSealed;
pub use crate::sealed::FromUnsafeFnSealed;

} // verus!
pub mod sealed;
