use vstd::prelude::*;

verus! {

/// Why a buffer could not be built from the given dimensions or data.
#[derive(Debug, Clone, Copy, PartialEq, Eq, Structural)]
pub enum IncorrectData {
    /// The data handed in does not hold exactly `expected` elements.
    Size { expected: usize, got: usize },
    /// The requested element count, or its size in bytes, exceeds what the
    /// platform can address.
    Overflow,
}

/// Top-level error of the crate.
#[derive(Debug, Clone, Copy, PartialEq, Eq, Structural)]
pub enum Error {
    IncorrectDataError(IncorrectData),
}

} // verus!
