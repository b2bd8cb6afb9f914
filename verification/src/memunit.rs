//! The units in which an amount of memory can be shown.
use vstd::prelude::*;

verus! {

/// A unit of memory.
#[derive(Copy, Clone, Debug)]
pub enum MemUnits {
    /// Mebibytes (MiB)
    MiB,
    /// Gibibytes (GiB)
    GiB,
}

} // verus!
