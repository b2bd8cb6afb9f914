//! What can go wrong while a fact is put together.
use vstd::prelude::*;

verus! {

/// The ways in which the text of a fact can fail to be had.
#[derive(Debug, Clone, Copy, PartialEq, Eq, Structural)]
pub enum Error {
    /// A text of the operating system was not valid Unicode, or a path
    /// has no final component.
    OsStr,
    /// A field was looked for and not found.
    Proc,
    /// A text that should write a number writes none.
    ParseInt,
    /// A fact was asked of a provider that is not there.
    IsNone,
}

} // verus!
