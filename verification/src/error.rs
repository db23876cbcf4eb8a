use vstd::prelude::*;

verus! {

/// Why a hex payload was refused.
#[derive(Clone, Copy, Debug, PartialEq, Eq, Structural)]
pub enum FormatFault {
    /// The number of digits left after stripping is not a multiple of eight.
    Length { digits: usize },
    /// The eight-character word at this position (counted in words) is not a
    /// hexadecimal number.
    Word { index: usize },
}

/// Which bound of a CPU proving request was refused.
#[derive(Clone, Copy, Debug, PartialEq, Eq, Structural)]
pub enum BoundFault {
    /// The cycle bound is zero.
    Cycles,
    /// The RAM bound is smaller than the ROM footprint.
    Ram,
}

/// Everything that can go wrong in the control layer.
#[derive(Clone, Copy, Debug, PartialEq, Eq, Structural)]
pub enum Error {
    InvalidFormat(FormatFault),
    BinaryNotFound,
    TextNotFound,
    SymbolsNotFound,
    UnsupportedCombination,
    InvalidLevelCombination,
    InvalidBound(BoundFault),
    DecodeError,
    VerificationFailed,
    NonUtf8Path,
}

} // verus!
