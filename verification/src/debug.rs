//! What the formatting of tokens takes from `core::fmt`.
//!
//! What a formatter does with what it is given, and whether that succeeds, is up to what stands
//! behind it. Nothing is claimed of that here; the callers say what they hand over.

use core::fmt::{DebugStruct, Formatter};
use vstd::prelude::*;

verus! {

/// `core::fmt::Formatter`. Nothing inside of it is known.
#[verifier::external_type_specification]
#[verifier::external_body]
pub struct ExFormatter<'a>(core::fmt::Formatter<'a>);

/// `core::fmt::Error`, what a formatter fails with.
#[verifier::external_type_specification]
#[verifier::external_body]
pub struct ExFmtError(core::fmt::Error);

/// `core::fmt::DebugStruct`, a structure that is being formatted. Nothing inside of it is known.
#[verifier::external_type_specification]
#[verifier::external_body]
pub struct ExDebugStruct<'a, 'b: 'a>(core::fmt::DebugStruct<'a, 'b>);

/// Begins a structure named `name`, by `Formatter::debug_struct`. Nothing is claimed of the result.
#[verifier::external_body]
pub(crate) fn debug_struct<'a, 'b>(
    formatter: &'a mut Formatter<'b>,
    name: &str,
) -> (builder: DebugStruct<'a, 'b>) {
    formatter.debug_struct(name)
}

/// Adds a field that holds the pointer to the address `addr`, by `DebugStruct::field`. Nothing is
/// claimed of the result.
#[verifier::external_body]
pub(crate) fn with_pointer<'a, 'b>(
    builder: DebugStruct<'a, 'b>,
    name: &str,
    addr: usize,
) -> (longer: DebugStruct<'a, 'b>) {
    let mut longer = builder;
    longer.field(name, &core::ptr::without_provenance::<()>(addr));
    longer
}

/// Adds a field that holds `number`, by `DebugStruct::field`. Nothing is claimed of the result.
#[verifier::external_body]
pub(crate) fn with_number<'a, 'b>(
    builder: DebugStruct<'a, 'b>,
    name: &str,
    number: usize,
) -> (longer: DebugStruct<'a, 'b>) {
    let mut longer = builder;
    longer.field(name, &number);
    longer
}

/// Ends the structure, by `DebugStruct::finish`, and says whether it could be formatted. Nothing is
/// claimed of the result.
#[verifier::external_body]
pub(crate) fn finish<'a, 'b>(builder: DebugStruct<'a, 'b>) -> (result: core::fmt::Result) {
    let mut last = builder;
    last.finish()
}

} // verus!
