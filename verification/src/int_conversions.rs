use vstd::prelude::*;

verus! {

// The conversions between integer types whose specifications vstd leaves out:
// lossless ones (`From`) from unsigned to wider signed types, and checked ones
// (`TryFrom`) from unsigned to signed types of the same or a platform-dependent width.

/// `<i16 as From<u8>>::from`: by its documentation, converts `u8` to `i16`
/// losslessly, so the result is the same number.
pub assume_specification[ <i16 as From<u8>>::from ](a: u8) -> (ret: i16)
    ensures
        ret == a,
;

/// `<i32 as From<u8>>::from`: by its documentation, converts `u8` to `i32`
/// losslessly, so the result is the same number.
pub assume_specification[ <i32 as From<u8>>::from ](a: u8) -> (ret: i32)
    ensures
        ret == a,
;

/// `<i64 as From<u8>>::from`: by its documentation, converts `u8` to `i64`
/// losslessly, so the result is the same number.
pub assume_specification[ <i64 as From<u8>>::from ](a: u8) -> (ret: i64)
    ensures
        ret == a,
;

/// `<i128 as From<u8>>::from`: by its documentation, converts `u8` to `i128`
/// losslessly, so the result is the same number.
pub assume_specification[ <i128 as From<u8>>::from ](a: u8) -> (ret: i128)
    ensures
        ret == a,
;

/// `<isize as From<u8>>::from`: by its documentation, converts `u8` to `isize`
/// losslessly, so the result is the same number.
pub assume_specification[ <isize as From<u8>>::from ](a: u8) -> (ret: isize)
    ensures
        ret == a,
;

/// `<i32 as From<u16>>::from`: by its documentation, converts `u16` to `i32`
/// losslessly, so the result is the same number.
pub assume_specification[ <i32 as From<u16>>::from ](a: u16) -> (ret: i32)
    ensures
        ret == a,
;

/// `<i64 as From<u16>>::from`: by its documentation, converts `u16` to `i64`
/// losslessly, so the result is the same number.
pub assume_specification[ <i64 as From<u16>>::from ](a: u16) -> (ret: i64)
    ensures
        ret == a,
;

/// `<i128 as From<u16>>::from`: by its documentation, converts `u16` to `i128`
/// losslessly, so the result is the same number.
pub assume_specification[ <i128 as From<u16>>::from ](a: u16) -> (ret: i128)
    ensures
        ret == a,
;

/// `<i64 as From<u32>>::from`: by its documentation, converts `u32` to `i64`
/// losslessly, so the result is the same number.
pub assume_specification[ <i64 as From<u32>>::from ](a: u32) -> (ret: i64)
    ensures
        ret == a,
;

/// `<i128 as From<u32>>::from`: by its documentation, converts `u32` to `i128`
/// losslessly, so the result is the same number.
pub assume_specification[ <i128 as From<u32>>::from ](a: u32) -> (ret: i128)
    ensures
        ret == a,
;

/// `<i128 as From<u64>>::from`: by its documentation, converts `u64` to `i128`
/// losslessly, so the result is the same number.
pub assume_specification[ <i128 as From<u64>>::from ](a: u64) -> (ret: i128)
    ensures
        ret == a,
;

/// `<i8 as TryFrom<u8>>::try_from`: by its documentation, fails exactly when the
/// value is outside the range of `i8`, and otherwise gives the same number.
pub assume_specification[ <i8 as TryFrom<u8>>::try_from ](a: u8) -> (ret: Result<
    i8,
    <i8 as TryFrom<u8>>::Error,
>)
    ensures
        ret is Ok <==> i8::MIN <= a <= i8::MAX,
        ret matches Ok(v) ==> v == a,
;

/// `<i16 as TryFrom<u16>>::try_from`: by its documentation, fails exactly when the
/// value is outside the range of `i16`, and otherwise gives the same number.
pub assume_specification[ <i16 as TryFrom<u16>>::try_from ](a: u16) -> (ret: Result<
    i16,
    <i16 as TryFrom<u16>>::Error,
>)
    ensures
        ret is Ok <==> i16::MIN <= a <= i16::MAX,
        ret matches Ok(v) ==> v == a,
;

/// `<isize as TryFrom<u16>>::try_from`: by its documentation, fails exactly when the
/// value is outside the range of `isize`, and otherwise gives the same number.
pub assume_specification[ <isize as TryFrom<u16>>::try_from ](a: u16) -> (ret: Result<
    isize,
    <isize as TryFrom<u16>>::Error,
>)
    ensures
        ret is Ok <==> isize::MIN <= a <= isize::MAX,
        ret matches Ok(v) ==> v == a,
;

/// `<i32 as TryFrom<u32>>::try_from`: by its documentation, fails exactly when the
/// value is outside the range of `i32`, and otherwise gives the same number.
pub assume_specification[ <i32 as TryFrom<u32>>::try_from ](a: u32) -> (ret: Result<
    i32,
    <i32 as TryFrom<u32>>::Error,
>)
    ensures
        ret is Ok <==> i32::MIN <= a <= i32::MAX,
        ret matches Ok(v) ==> v == a,
;

/// `<i64 as TryFrom<u64>>::try_from`: by its documentation, fails exactly when the
/// value is outside the range of `i64`, and otherwise gives the same number.
pub assume_specification[ <i64 as TryFrom<u64>>::try_from ](a: u64) -> (ret: Result<
    i64,
    <i64 as TryFrom<u64>>::Error,
>)
    ensures
        ret is Ok <==> i64::MIN <= a <= i64::MAX,
        ret matches Ok(v) ==> v == a,
;

/// `<i128 as TryFrom<u128>>::try_from`: by its documentation, fails exactly when the
/// value is outside the range of `i128`, and otherwise gives the same number.
pub assume_specification[ <i128 as TryFrom<u128>>::try_from ](a: u128) -> (ret: Result<
    i128,
    <i128 as TryFrom<u128>>::Error,
>)
    ensures
        ret is Ok <==> i128::MIN <= a <= i128::MAX,
        ret matches Ok(v) ==> v == a,
;

/// `<i128 as TryFrom<usize>>::try_from`: by its documentation, fails exactly when the
/// value is outside the range of `i128`, and otherwise gives the same number.
pub assume_specification[ <i128 as TryFrom<usize>>::try_from ](a: usize) -> (ret: Result<
    i128,
    <i128 as TryFrom<usize>>::Error,
>)
    ensures
        ret is Ok <==> i128::MIN <= a <= i128::MAX,
        ret matches Ok(v) ==> v == a,
;

/// `<isize as TryFrom<usize>>::try_from`: by its documentation, fails exactly when the
/// value is outside the range of `isize`, and otherwise gives the same number.
pub assume_specification[ <isize as TryFrom<usize>>::try_from ](a: usize) -> (ret: Result<
    isize,
    <isize as TryFrom<usize>>::Error,
>)
    ensures
        ret is Ok <==> isize::MIN <= a <= isize::MAX,
        ret matches Ok(v) ==> v == a,
;

} // verus!
