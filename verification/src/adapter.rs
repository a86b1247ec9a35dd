//! The unchecked-to-checked function adapter.
//!
//! An unchecked-contract callable — one whose caller must uphold obligations
//! the type system does not record — is distinguished at the type level by a
//! fixed-arity wrapper. The adapter converts such a wrapper into an
//! ordinary callable; its contract states that the callable handed back is
//! the very function that was wrapped, so the adapter changes only the
//! call-site contract, never behavior. The wrappers form a closed,
//! non-extensible set for one to ten parameters.

use vstd::prelude::*;
use core::marker::PhantomData;
use crate::sealed::FromUnsafeFnSealed;

verus! {

/// An unchecked-contract callable convertible to an ordinary one.
///
/// The conversion hands back the wrapped function itself: its possible call
/// results, and the obligations its caller must still uphold, are exactly
/// those of the original.
pub trait FromUnsafeFn: FromUnsafeFnSealed + Sized {
    /// The ordinary-contract counterpart of this callable.
    type SafeFn;

    /// The function value that the adapter hands back.
    spec fn safe_fn(self) -> Self::SafeFn;

    /// Converts this unchecked-contract callable to its ordinary
    /// counterpart.
    fn into_safe_fn(self) -> (r: Self::SafeFn)
        ensures
            r == self.safe_fn(),
    ;
}

/// Converts an unchecked-contract callable to an ordinary one.
///
/// The callable handed back is the wrapped function itself; only the
/// contract visible at the call site changes.
pub fn unsafe_fn_to_safe_fn<F: FromUnsafeFn>(f: F) -> (r: F::SafeFn)
    ensures
        r == f.safe_fn(),
{
    f.into_safe_fn()
}

/// An unchecked-contract function of one parameter.
pub struct UncheckedFn1<F, P1, R> {
    /// The wrapped function.
    pub f: F,
    /// The parameter and result types, as pure labels.
    pub sig: PhantomData<(P1, R)>,
}

impl<F: Fn(P1) -> R, P1, R> UncheckedFn1<F, P1, R> {
    /// Marks a function of one parameter as carrying an unchecked
    /// contract.
    pub fn new(f: F) -> (r: Self)
        ensures
            r.f == f,
    {
        UncheckedFn1 { f, sig: PhantomData }
    }
}

impl<F: Fn(P1) -> R, P1, R> FromUnsafeFnSealed for UncheckedFn1<F, P1, R> {

}

impl<F: Fn(P1) -> R, P1, R> FromUnsafeFn for UncheckedFn1<F, P1, R> {
    type SafeFn = F;

    open spec fn safe_fn(self) -> F {
        self.f
    }

    fn into_safe_fn(self) -> (r: F)
        ensures
            r == self.safe_fn(),
    {
        self.f
    }
}

/// Law: adapting a function of one parameter preserves behavior. The
/// adapted callable admits exactly the calls of the original and can
/// return exactly what the original can, for every argument.
pub proof fn lemma_adapter_preserves_behavior1<F: Fn(P1) -> R, P1, R>(
    u: UncheckedFn1<F, P1, R>,
    s: F,
    a1: P1,
    out: R,
)
    requires
        s == u.safe_fn(),
    ensures
        call_requires(s, (a1,)) <==> call_requires(u.f, (a1,)),
        call_ensures(s, (a1,), out) <==> call_ensures(u.f, (a1,), out),
{
}

/// An unchecked-contract function of two parameters.
pub struct UncheckedFn2<F, P1, P2, R> {
    /// The wrapped function.
    pub f: F,
    /// The parameter and result types, as pure labels.
    pub sig: PhantomData<(P1, P2, R)>,
}

impl<F: Fn(P1, P2) -> R, P1, P2, R> UncheckedFn2<F, P1, P2, R> {
    /// Marks a function of two parameters as carrying an unchecked
    /// contract.
    pub fn new(f: F) -> (r: Self)
        ensures
            r.f == f,
    {
        UncheckedFn2 { f, sig: PhantomData }
    }
}

impl<F: Fn(P1, P2) -> R, P1, P2, R> FromUnsafeFnSealed for UncheckedFn2<F, P1, P2, R> {

}

impl<F: Fn(P1, P2) -> R, P1, P2, R> FromUnsafeFn for UncheckedFn2<F, P1, P2, R> {
    type SafeFn = F;

    open spec fn safe_fn(self) -> F {
        self.f
    }

    fn into_safe_fn(self) -> (r: F)
        ensures
            r == self.safe_fn(),
    {
        self.f
    }
}

/// Law: adapting a function of two parameters preserves behavior. The
/// adapted callable admits exactly the calls of the original and can
/// return exactly what the original can, for every argument.
pub proof fn lemma_adapter_preserves_behavior2<F: Fn(P1, P2) -> R, P1, P2, R>(
    u: UncheckedFn2<F, P1, P2, R>,
    s: F,
    a1: P1, a2: P2,
    out: R,
)
    requires
        s == u.safe_fn(),
    ensures
        call_requires(s, (a1, a2)) <==> call_requires(u.f, (a1, a2)),
        call_ensures(s, (a1, a2), out) <==> call_ensures(u.f, (a1, a2), out),
{
}

/// An unchecked-contract function of three parameters.
pub struct UncheckedFn3<F, P1, P2, P3, R> {
    /// The wrapped function.
    pub f: F,
    /// The parameter and result types, as pure labels.
    pub sig: PhantomData<(P1, P2, P3, R)>,
}

impl<F: Fn(P1, P2, P3) -> R, P1, P2, P3, R> UncheckedFn3<F, P1, P2, P3, R> {
    /// Marks a function of three parameters as carrying an unchecked
    /// contract.
    pub fn new(f: F) -> (r: Self)
        ensures
            r.f == f,
    {
        UncheckedFn3 { f, sig: PhantomData }
    }
}

impl<F: Fn(P1, P2, P3) -> R, P1, P2, P3, R> FromUnsafeFnSealed for UncheckedFn3<F, P1, P2, P3, R> {

}

impl<F: Fn(P1, P2, P3) -> R, P1, P2, P3, R> FromUnsafeFn for UncheckedFn3<F, P1, P2, P3, R> {
    type SafeFn = F;

    open spec fn safe_fn(self) -> F {
        self.f
    }

    fn into_safe_fn(self) -> (r: F)
        ensures
            r == self.safe_fn(),
    {
        self.f
    }
}

/// Law: adapting a function of three parameters preserves behavior. The
/// adapted callable admits exactly the calls of the original and can
/// return exactly what the original can, for every argument.
pub proof fn lemma_adapter_preserves_behavior3<F: Fn(P1, P2, P3) -> R, P1, P2, P3, R>(
    u: UncheckedFn3<F, P1, P2, P3, R>,
    s: F,
    a1: P1, a2: P2, a3: P3,
    out: R,
)
    requires
        s == u.safe_fn(),
    ensures
        call_requires(s, (a1, a2, a3)) <==> call_requires(u.f, (a1, a2, a3)),
        call_ensures(s, (a1, a2, a3), out) <==> call_ensures(u.f, (a1, a2, a3), out),
{
}

/// An unchecked-contract function of four parameters.
pub struct UncheckedFn4<F, P1, P2, P3, P4, R> {
    /// The wrapped function.
    pub f: F,
    /// The parameter and result types, as pure labels.
    pub sig: PhantomData<(P1, P2, P3, P4, R)>,
}

impl<F: Fn(P1, P2, P3, P4) -> R, P1, P2, P3, P4, R> UncheckedFn4<F, P1, P2, P3, P4, R> {
    /// Marks a function of four parameters as carrying an unchecked
    /// contract.
    pub fn new(f: F) -> (r: Self)
        ensures
            r.f == f,
    {
        UncheckedFn4 { f, sig: PhantomData }
    }
}

impl<F: Fn(P1, P2, P3, P4) -> R, P1, P2, P3, P4, R> FromUnsafeFnSealed for UncheckedFn4<F, P1, P2, P3, P4, R> {

}

impl<F: Fn(P1, P2, P3, P4) -> R, P1, P2, P3, P4, R> FromUnsafeFn for UncheckedFn4<F, P1, P2, P3, P4, R> {
    type SafeFn = F;

    open spec fn safe_fn(self) -> F {
        self.f
    }

    fn into_safe_fn(self) -> (r: F)
        ensures
            r == self.safe_fn(),
    {
        self.f
    }
}

/// Law: adapting a function of four parameters preserves behavior. The
/// adapted callable admits exactly the calls of the original and can
/// return exactly what the original can, for every argument.
pub proof fn lemma_adapter_preserves_behavior4<F: Fn(P1, P2, P3, P4) -> R, P1, P2, P3, P4, R>(
    u: UncheckedFn4<F, P1, P2, P3, P4, R>,
    s: F,
    a1: P1, a2: P2, a3: P3, a4: P4,
    out: R,
)
    requires
        s == u.safe_fn(),
    ensures
        call_requires(s, (a1, a2, a3, a4)) <==> call_requires(u.f, (a1, a2, a3, a4)),
        call_ensures(s, (a1, a2, a3, a4), out) <==> call_ensures(u.f, (a1, a2, a3, a4), out),
{
}

/// An unchecked-contract function of five parameters.
pub struct UncheckedFn5<F, P1, P2, P3, P4, P5, R> {
    /// The wrapped function.
    pub f: F,
    /// The parameter and result types, as pure labels.
    pub sig: PhantomData<(P1, P2, P3, P4, P5, R)>,
}

impl<F: Fn(P1, P2, P3, P4, P5) -> R, P1, P2, P3, P4, P5, R> UncheckedFn5<F, P1, P2, P3, P4, P5, R> {
    /// Marks a function of five parameters as carrying an unchecked
    /// contract.
    pub fn new(f: F) -> (r: Self)
        ensures
            r.f == f,
    {
        UncheckedFn5 { f, sig: PhantomData }
    }
}

impl<F: Fn(P1, P2, P3, P4, P5) -> R, P1, P2, P3, P4, P5, R> FromUnsafeFnSealed for UncheckedFn5<F, P1, P2, P3, P4, P5, R> {

}

impl<F: Fn(P1, P2, P3, P4, P5) -> R, P1, P2, P3, P4, P5, R> FromUnsafeFn for UncheckedFn5<F, P1, P2, P3, P4, P5, R> {
    type SafeFn = F;

    open spec fn safe_fn(self) -> F {
        self.f
    }

    fn into_safe_fn(self) -> (r: F)
        ensures
            r == self.safe_fn(),
    {
        self.f
    }
}

/// Law: adapting a function of five parameters preserves behavior. The
/// adapted callable admits exactly the calls of the original and can
/// return exactly what the original can, for every argument.
pub proof fn lemma_adapter_preserves_behavior5<F: Fn(P1, P2, P3, P4, P5) -> R, P1, P2, P3, P4, P5, R>(
    u: UncheckedFn5<F, P1, P2, P3, P4, P5, R>,
    s: F,
    a1: P1, a2: P2, a3: P3, a4: P4, a5: P5,
    out: R,
)
    requires
        s == u.safe_fn(),
    ensures
        call_requires(s, (a1, a2, a3, a4, a5)) <==> call_requires(u.f, (a1, a2, a3, a4, a5)),
        call_ensures(s, (a1, a2, a3, a4, a5), out) <==> call_ensures(u.f, (a1, a2, a3, a4, a5), out),
{
}

/// An unchecked-contract function of six parameters.
pub struct UncheckedFn6<F, P1, P2, P3, P4, P5, P6, R> {
    /// The wrapped function.
    pub f: F,
    /// The parameter and result types, as pure labels.
    pub sig: PhantomData<(P1, P2, P3, P4, P5, P6, R)>,
}

impl<F: Fn(P1, P2, P3, P4, P5, P6) -> R, P1, P2, P3, P4, P5, P6, R> UncheckedFn6<F, P1, P2, P3, P4, P5, P6, R> {
    /// Marks a function of six parameters as carrying an unchecked
    /// contract.
    pub fn new(f: F) -> (r: Self)
        ensures
            r.f == f,
    {
        UncheckedFn6 { f, sig: PhantomData }
    }
}

impl<F: Fn(P1, P2, P3, P4, P5, P6) -> R, P1, P2, P3, P4, P5, P6, R> FromUnsafeFnSealed for UncheckedFn6<F, P1, P2, P3, P4, P5, P6, R> {

}

impl<F: Fn(P1, P2, P3, P4, P5, P6) -> R, P1, P2, P3, P4, P5, P6, R> FromUnsafeFn for UncheckedFn6<F, P1, P2, P3, P4, P5, P6, R> {
    type SafeFn = F;

    open spec fn safe_fn(self) -> F {
        self.f
    }

    fn into_safe_fn(self) -> (r: F)
        ensures
            r == self.safe_fn(),
    {
        self.f
    }
}

/// Law: adapting a function of six parameters preserves behavior. The
/// adapted callable admits exactly the calls of the original and can
/// return exactly what the original can, for every argument.
pub proof fn lemma_adapter_preserves_behavior6<F: Fn(P1, P2, P3, P4, P5, P6) -> R, P1, P2, P3, P4, P5, P6, R>(
    u: UncheckedFn6<F, P1, P2, P3, P4, P5, P6, R>,
    s: F,
    a1: P1, a2: P2, a3: P3, a4: P4, a5: P5, a6: P6,
    out: R,
)
    requires
        s == u.safe_fn(),
    ensures
        call_requires(s, (a1, a2, a3, a4, a5, a6)) <==> call_requires(u.f, (a1, a2, a3, a4, a5, a6)),
        call_ensures(s, (a1, a2, a3, a4, a5, a6), out) <==> call_ensures(u.f, (a1, a2, a3, a4, a5, a6), out),
{
}

/// An unchecked-contract function of seven parameters.
pub struct UncheckedFn7<F, P1, P2, P3, P4, P5, P6, P7, R> {
    /// The wrapped function.
    pub f: F,
    /// The parameter and result types, as pure labels.
    pub sig: PhantomData<(P1, P2, P3, P4, P5, P6, P7, R)>,
}

impl<F: Fn(P1, P2, P3, P4, P5, P6, P7) -> R, P1, P2, P3, P4, P5, P6, P7, R> UncheckedFn7<F, P1, P2, P3, P4, P5, P6, P7, R> {
    /// Marks a function of seven parameters as carrying an unchecked
    /// contract.
    pub fn new(f: F) -> (r: Self)
        ensures
            r.f == f,
    {
        UncheckedFn7 { f, sig: PhantomData }
    }
}

impl<F: Fn(P1, P2, P3, P4, P5, P6, P7) -> R, P1, P2, P3, P4, P5, P6, P7, R> FromUnsafeFnSealed for UncheckedFn7<F, P1, P2, P3, P4, P5, P6, P7, R> {

}

impl<F: Fn(P1, P2, P3, P4, P5, P6, P7) -> R, P1, P2, P3, P4, P5, P6, P7, R> FromUnsafeFn for UncheckedFn7<F, P1, P2, P3, P4, P5, P6, P7, R> {
    type SafeFn = F;

    open spec fn safe_fn(self) -> F {
        self.f
    }

    fn into_safe_fn(self) -> (r: F)
        ensures
            r == self.safe_fn(),
    {
        self.f
    }
}

/// Law: adapting a function of seven parameters preserves behavior. The
/// adapted callable admits exactly the calls of the original and can
/// return exactly what the original can, for every argument.
pub proof fn lemma_adapter_preserves_behavior7<F: Fn(P1, P2, P3, P4, P5, P6, P7) -> R, P1, P2, P3, P4, P5, P6, P7, R>(
    u: UncheckedFn7<F, P1, P2, P3, P4, P5, P6, P7, R>,
    s: F,
    a1: P1, a2: P2, a3: P3, a4: P4, a5: P5, a6: P6, a7: P7,
    out: R,
)
    requires
        s == u.safe_fn(),
    ensures
        call_requires(s, (a1, a2, a3, a4, a5, a6, a7)) <==> call_requires(u.f, (a1, a2, a3, a4, a5, a6, a7)),
        call_ensures(s, (a1, a2, a3, a4, a5, a6, a7), out) <==> call_ensures(u.f, (a1, a2, a3, a4, a5, a6, a7), out),
{
}

/// An unchecked-contract function of eight parameters.
pub struct UncheckedFn8<F, P1, P2, P3, P4, P5, P6, P7, P8, R> {
    /// The wrapped function.
    pub f: F,
    /// The parameter and result types, as pure labels.
    pub sig: PhantomData<(P1, P2, P3, P4, P5, P6, P7, P8, R)>,
}

impl<F: Fn(P1, P2, P3, P4, P5, P6, P7, P8) -> R, P1, P2, P3, P4, P5, P6, P7, P8, R> UncheckedFn8<F, P1, P2, P3, P4, P5, P6, P7, P8, R> {
    /// Marks a function of eight parameters as carrying an unchecked
    /// contract.
    pub fn new(f: F) -> (r: Self)
        ensures
            r.f == f,
    {
        UncheckedFn8 { f, sig: PhantomData }
    }
}

impl<F: Fn(P1, P2, P3, P4, P5, P6, P7, P8) -> R, P1, P2, P3, P4, P5, P6, P7, P8, R> FromUnsafeFnSealed for UncheckedFn8<F, P1, P2, P3, P4, P5, P6, P7, P8, R> {

}

impl<F: Fn(P1, P2, P3, P4, P5, P6, P7, P8) -> R, P1, P2, P3, P4, P5, P6, P7, P8, R> FromUnsafeFn for UncheckedFn8<F, P1, P2, P3, P4, P5, P6, P7, P8, R> {
    type SafeFn = F;

    open spec fn safe_fn(self) -> F {
        self.f
    }

    fn into_safe_fn(self) -> (r: F)
        ensures
            r == self.safe_fn(),
    {
        self.f
    }
}

/// Law: adapting a function of eight parameters preserves behavior. The
/// adapted callable admits exactly the calls of the original and can
/// return exactly what the original can, for every argument.
pub proof fn lemma_adapter_preserves_behavior8<F: Fn(P1, P2, P3, P4, P5, P6, P7, P8) -> R, P1, P2, P3, P4, P5, P6, P7, P8, R>(
    u: UncheckedFn8<F, P1, P2, P3, P4, P5, P6, P7, P8, R>,
    s: F,
    a1: P1, a2: P2, a3: P3, a4: P4, a5: P5, a6: P6, a7: P7, a8: P8,
    out: R,
)
    requires
        s == u.safe_fn(),
    ensures
        call_requires(s, (a1, a2, a3, a4, a5, a6, a7, a8)) <==> call_requires(u.f, (a1, a2, a3, a4, a5, a6, a7, a8)),
        call_ensures(s, (a1, a2, a3, a4, a5, a6, a7, a8), out) <==> call_ensures(u.f, (a1, a2, a3, a4, a5, a6, a7, a8), out),
{
}

/// An unchecked-contract function of nine parameters.
pub struct UncheckedFn9<F, P1, P2, P3, P4, P5, P6, P7, P8, P9, R> {
    /// The wrapped function.
    pub f: F,
    /// The parameter and result types, as pure labels.
    pub sig: PhantomData<(P1, P2, P3, P4, P5, P6, P7, P8, P9, R)>,
}

impl<F: Fn(P1, P2, P3, P4, P5, P6, P7, P8, P9) -> R, P1, P2, P3, P4, P5, P6, P7, P8, P9, R> UncheckedFn9<F, P1, P2, P3, P4, P5, P6, P7, P8, P9, R> {
    /// Marks a function of nine parameters as carrying an unchecked
    /// contract.
    pub fn new(f: F) -> (r: Self)
        ensures
            r.f == f,
    {
        UncheckedFn9 { f, sig: PhantomData }
    }
}

impl<F: Fn(P1, P2, P3, P4, P5, P6, P7, P8, P9) -> R, P1, P2, P3, P4, P5, P6, P7, P8, P9, R> FromUnsafeFnSealed for UncheckedFn9<F, P1, P2, P3, P4, P5, P6, P7, P8, P9, R> {

}

impl<F: Fn(P1, P2, P3, P4, P5, P6, P7, P8, P9) -> R, P1, P2, P3, P4, P5, P6, P7, P8, P9, R> FromUnsafeFn for UncheckedFn9<F, P1, P2, P3, P4, P5, P6, P7, P8, P9, R> {
    type SafeFn = F;

    open spec fn safe_fn(self) -> F {
        self.f
    }

    fn into_safe_fn(self) -> (r: F)
        ensures
            r == self.safe_fn(),
    {
        self.f
    }
}

/// Law: adapting a function of nine parameters preserves behavior. The
/// adapted callable admits exactly the calls of the original and can
/// return exactly what the original can, for every argument.
pub proof fn lemma_adapter_preserves_behavior9<F: Fn(P1, P2, P3, P4, P5, P6, P7, P8, P9) -> R, P1, P2, P3, P4, P5, P6, P7, P8, P9, R>(
    u: UncheckedFn9<F, P1, P2, P3, P4, P5, P6, P7, P8, P9, R>,
    s: F,
    a1: P1, a2: P2, a3: P3, a4: P4, a5: P5, a6: P6, a7: P7, a8: P8, a9: P9,
    out: R,
)
    requires
        s == u.safe_fn(),
    ensures
        call_requires(s, (a1, a2, a3, a4, a5, a6, a7, a8, a9)) <==> call_requires(u.f, (a1, a2, a3, a4, a5, a6, a7, a8, a9)),
        call_ensures(s, (a1, a2, a3, a4, a5, a6, a7, a8, a9), out) <==> call_ensures(u.f, (a1, a2, a3, a4, a5, a6, a7, a8, a9), out),
{
}

/// An unchecked-contract function of ten parameters.
pub struct UncheckedFn10<F, P1, P2, P3, P4, P5, P6, P7, P8, P9, P10, R> {
    /// The wrapped function.
    pub f: F,
    /// The parameter and result types, as pure labels.
    pub sig: PhantomData<(P1, P2, P3, P4, P5, P6, P7, P8, P9, P10, R)>,
}

impl<F: Fn(P1, P2, P3, P4, P5, P6, P7, P8, P9, P10) -> R, P1, P2, P3, P4, P5, P6, P7, P8, P9, P10, R> UncheckedFn10<F, P1, P2, P3, P4, P5, P6, P7, P8, P9, P10, R> {
    /// Marks a function of ten parameters as carrying an unchecked
    /// contract.
    pub fn new(f: F) -> (r: Self)
        ensures
            r.f == f,
    {
        UncheckedFn10 { f, sig: PhantomData }
    }
}

impl<F: Fn(P1, P2, P3, P4, P5, P6, P7, P8, P9, P10) -> R, P1, P2, P3, P4, P5, P6, P7, P8, P9, P10, R> FromUnsafeFnSealed for UncheckedFn10<F, P1, P2, P3, P4, P5, P6, P7, P8, P9, P10, R> {

}

impl<F: Fn(P1, P2, P3, P4, P5, P6, P7, P8, P9, P10) -> R, P1, P2, P3, P4, P5, P6, P7, P8, P9, P10, R> FromUnsafeFn for UncheckedFn10<F, P1, P2, P3, P4, P5, P6, P7, P8, P9, P10, R> {
    type SafeFn = F;

    open spec fn safe_fn(self) -> F {
        self.f
    }

    fn into_safe_fn(self) -> (r: F)
        ensures
            r == self.safe_fn(),
    {
        self.f
    }
}

/// Law: adapting a function of ten parameters preserves behavior. The
/// adapted callable admits exactly the calls of the original and can
/// return exactly what the original can, for every argument.
pub proof fn lemma_adapter_preserves_behavior10<F: Fn(P1, P2, P3, P4, P5, P6, P7, P8, P9, P10) -> R, P1, P2, P3, P4, P5, P6, P7, P8, P9, P10, R>(
    u: UncheckedFn10<F, P1, P2, P3, P4, P5, P6, P7, P8, P9, P10, R>,
    s: F,
    a1: P1, a2: P2, a3: P3, a4: P4, a5: P5, a6: P6, a7: P7, a8: P8, a9: P9, a10: P10,
    out: R,
)
    requires
        s == u.safe_fn(),
    ensures
        call_requires(s, (a1, a2, a3, a4, a5, a6, a7, a8, a9, a10)) <==> call_requires(u.f, (a1, a2, a3, a4, a5, a6, a7, a8, a9, a10)),
        call_ensures(s, (a1, a2, a3, a4, a5, a6, a7, a8, a9, a10), out) <==> call_ensures(u.f, (a1, a2, a3, a4, a5, a6, a7, a8, a9, a10), out),
{
}

} // verus!
