//! The calls into `std::fmt` that the library's `Debug` and `Display` impls make.

use std::fmt::{Debug, Formatter};
use vstd::prelude::*;

verus! {

/// `std::fmt::Formatter`, carried through the formatting impls as an opaque value.
#[verifier::external_type_specification]
#[verifier::external_body]
pub struct ExFormatter<'a>(Formatter<'a>);

/// `std::fmt::Error`, the error half of `std::fmt::Result`.
#[verifier::external_type_specification]
#[verifier::external_body]
pub struct ExFmtError(std::fmt::Error);

/// Calls `Formatter::pad`, which writes `text` to the formatter with the padding and
/// truncation that the formatter asks for. Nothing is claimed of what it returns.
#[verifier::external_body]
pub(crate) fn pad(f: &mut Formatter<'_>, text: &str) -> (r: std::fmt::Result) {
    f.pad(text)
}

/// Calls `Debug::fmt` of a value whose `Debug` the compiler derived. Nothing is claimed of
/// what it returns.
#[verifier::external_body]
pub(crate) fn debug_derived<D: Debug>(value: &D, f: &mut Formatter<'_>) -> (r: std::fmt::Result) {
    Debug::fmt(value, f)
}

/// Calls `Formatter::write_fmt`, which here writes the three texts one after the other.
/// Nothing is claimed of what it returns.
#[verifier::external_body]
pub(crate) fn write_three(f: &mut Formatter<'_>, first: &str, second: &str, third: &str) -> (r:
    std::fmt::Result) {
    write!(f, "{}{}{}", first, second, third)
}

/// Calls `format!` with `{:?}`, which gives what the value's `Debug` writes. Nothing is
/// claimed of the text.
#[verifier::external_body]
pub(crate) fn debug_text<D: Debug>(value: &D) -> (text: String) {
    format!("{:?}", value)
}

} // verus!
