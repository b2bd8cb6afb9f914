//! Rendering of host facts as an aligned, optionally coloured report.
//!
//! A report is a collection of named fields. Each field is a single line of
//! text or a group of further fields printed one level deeper; every name of
//! one level is right-aligned to a common column. The text of a report is
//! specified over sequences of characters, and every function that produces
//! text is proved to produce exactly the text its specification describes.
//!
//! - `fetch` holds the flat report, `fetchsection` and `fetcharray` the
//!   report as a tree, and `colourblocks` the swatches printed below it.
//! - `alignment` states and proves what holds of every report: the number
//!   of its lines, the column of its colons, and that a colour changes
//!   nothing but the escape sequences around the names.
//! - `modules` holds the facts about a host and the text of each, and
//!   `machine` the report made of them.
//! - `text`, `chars`, `numbers` and `ansi` hold the pieces of text that the
//!   rest is assembled from.
pub mod alignment;
pub mod ansi;
pub mod chars;
pub mod colourblocks;
pub mod error;
pub mod fetch;
pub mod fetcharray;
pub mod fetchitem;
pub mod fetchline;
pub mod fetchsection;
pub mod machine;
pub mod memunit;
pub mod modules;
pub mod numbers;
pub mod proc;
pub mod text;

use vstd::prelude::*;

verus! {

/// The bytes of a kibibyte.
pub const KIBIBYTE: u64 = 1024;

/// The bytes of a mebibyte.
pub const MEBIBYTE: u64 = 1_048_576;

/// The bytes of a gibibyte.
pub const GIBIBYTE: u64 = 1_073_741_824;

/// The bytes of a tebibyte.
pub const TEBIBYTE: u64 = 1_099_511_627_776;

/// The bytes of a kilobyte.
pub const KILOBYTE: u64 = 1000;

/// The bytes of a megabyte.
pub const MEGABYTE: u64 = 1_000_000;

/// The bytes of a gigabyte.
pub const GIGABYTE: u64 = 1_000_000_000;

/// The bytes of a terabyte.
pub const TERABYTE: u64 = 1_000_000_000_000;

} // verus!
