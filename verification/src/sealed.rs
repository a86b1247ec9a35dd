//! Marker supertraits for the library's capability sets.
//!
//! Each capability — adapting an unchecked-contract callable, changing a
//! container's payload type, promoting possibly-uninitialized storage — is
//! meant for a closed, compile-time-enumerated set of shapes. The marker
//! supertraits record that enumeration: this crate implements each marker
//! exactly for the shapes its capability supports.

use vstd::prelude::*;

verus! {

/// Marker for the closed set of unchecked-contract callables that the
/// function adapter accepts: the fixed-arity wrappers for one to ten
/// parameters, and nothing else.
pub trait FromUnsafeFnSealed {

}

/// Marker for the closed set of owning-container shapes that support a
/// payload type change: unique ownership, single-threaded shared ownership,
/// and thread-safe shared ownership.
pub trait ContainerTransmuteSealed {

}

/// Marker for the closed set of storage shapes that support promotion from
/// possibly-uninitialized to initialized: bare storage and the three owning
/// containers wrapping it.
pub trait AssumeInitSealed {

}

} // verus!
