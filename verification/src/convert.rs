use std::convert::Infallible;
use std::marker::PhantomData;

use vstd::prelude::*;
use vstd::std_specs::convert::TryIntoSpec;

verus! {

/// An operand of a cast to `U`, waiting to learn whether a checked
/// conversion to `U` exists.
pub struct MaybeTryInto<T, U>(pub T, PhantomData<U>);

impl<T, U> MaybeTryInto<T, U> {
    /// The operand that the cast converts.
    pub closed spec fn operand(self) -> T {
        self.0
    }

    /// Wraps the operand of a cast to `U`.
    pub fn new(operand: T) -> (res: Self)
        ensures
            res.operand() == operand,
    {
        Self(operand, PhantomData)
    }
}

impl<T, U> MaybeTryInto<T, U> where T: TryInto<U> {
    /// If `expr: MaybeTryInto<T, U>` and `T: TryInto<U>`, then `expr.maybe_try_into()` resolves to
    /// this inherent method: it always answers, with the outcome of the conversion.
    pub fn maybe_try_into(self) -> (res: Option<Result<U, <T as TryInto<U>>::Error>>)
        ensures
            res is Some,
            res matches Some(r) && call_ensures(<T as TryInto<U>>::try_into, (self.operand(),), r),
            <T as TryIntoSpec<U>>::obeys_try_into_spec() ==> res == Some(
                <T as TryIntoSpec<U>>::try_into_spec(self.operand()),
            ),
    {
        Some(<T as TryInto<U>>::try_into(self.0))
    }
}

/// The answer for operands that have no checked conversion to `U`.
pub trait MaybeTryIntoFallback<U>: Sized {
    /// If `expr: MaybeTryInto<T, U>` but not `T: TryInto<U>`, then `expr.maybe_try_into()` resolves
    /// to this trait method: it never answers, so the plain cast is used.
    fn maybe_try_into(self) -> (res: Option<Result<U, Infallible>>)
        ensures
            res is None,
    ;
}

impl<T, U> MaybeTryIntoFallback<U> for T {
    fn maybe_try_into(self) -> (res: Option<Result<U, Infallible>>) {
        None
    }
}

} // verus!
