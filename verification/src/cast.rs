use vstd::prelude::*;

use crate::convert::MaybeTryInto;
use vstd::std_specs::convert::TryIntoSpec;

verus! {

/// Narrows `x` to a `u16`, with the cast checked: a value that does not fit
/// in a `u16` is an invalid cast, and the function is not to be called with one.
pub fn as_u16(x: u64) -> (r: u16)
    requires
        x <= u16::MAX,
    ensures
        r == x,
{
    let checked = MaybeTryInto::<u64, u16>::new(x).maybe_try_into();
    match checked {
        Some(result) => result.expect("invalid cast"),
        None => x as u16,
    }
}

/// Narrows `x` to a `u16` where the cast is valid, and answers `None` for a
/// value that does not fit, on which `as_u16` is not to be called.
pub fn try_as_u16(x: u64) -> (r: Option<u16>)
    ensures
        x <= u16::MAX ==> r == Some(x as u16),
        x > u16::MAX ==> r is None,
{
    if x <= 65535 {
        Some(as_u16(x))
    } else {
        None
    }
}

/// The checked conversion behind `as_u16` rejects exactly the values that do
/// not fit in a `u16`, and keeps every value that does.
pub proof fn lemma_u16_conversion_exact(x: u64)
    ensures
        <u64 as TryIntoSpec<u16>>::obeys_try_into_spec(),
        <u64 as TryIntoSpec<u16>>::try_into_spec(x) is Err <==> x > u16::MAX,
        <u64 as TryIntoSpec<u16>>::try_into_spec(x) matches Ok(v) ==> v == x,
{
}

} // verus!
