//! Checked numeric casts.
//!
//! An expression `expr as T` is checked by converting `expr` with `TryInto<T>`
//! where such a conversion exists, and by falling back to the plain `as` cast
//! where it does not; a conversion that fails is an invalid cast.
//!
//! - `convert`: the conversion that a checked cast performs, and its fallback.
//! - `int_conversions`: the integer conversions of std that vstd leaves unspecified.
//! - `cast`: a narrowing cast written with the checked conversion.
//! - `rewrite`: which casts are checked, by the shape of their target type.
//! - `messages`: the panic messages and log lines of the rewriting.
//! - `artifacts`: finding the test executable in the output of a build.
//! - `setup`: the directives that prepare the build for logging.

pub mod artifacts;
pub mod cast;
pub mod convert;
pub mod int_conversions;
pub mod messages;
pub mod rewrite;
pub mod setup;

pub use cast::{as_u16, try_as_u16};
pub use convert::{MaybeTryInto, MaybeTryIntoFallback};
