use vstd::prelude::*;

verus! {

/// Failure of decoding a `0x`-prefixed hexadecimal string.
#[derive(Clone, Copy, Debug, PartialEq, Eq)]
pub enum HexError {
    /// The string does not start with `0x` (and has at least two bytes).
    InvalidPrefix { c0: char, c1: char },
    /// A character after the prefix is not a hexadecimal digit.
    InvalidHexCharacter { c: char, index: usize },
    /// The string has fewer than two characters, so it cannot carry
    /// the prefix.
    InvalidStringLength,
    /// The digits after the prefix do not come in pairs.
    OddLength,
}

/// Failure of reading a decimal string into a 256-bit unsigned integer.
#[derive(Clone, Copy, Debug, PartialEq, Eq)]
pub enum DecStrError {
    /// A character is not in the range `0-9`.
    InvalidCharacter,
    /// The number does not fit in 256 bits.
    InvalidLength,
}

/// The errors that command preparation can report.
#[derive(Clone, Debug, PartialEq, Eq)]
pub enum Error {
    /// A faucet request was made while no address is known.
    NoAddressForFaucet,
    /// A hexadecimal argument could not be decoded.
    Hex(HexError),
    /// A decimal amount could not be read.
    Amount(DecStrError),
    /// A decoded identifier has the wrong number of bytes.
    InvalidIdLength { expected: usize, actual: usize },
}

} // verus!
