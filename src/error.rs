//! Errors reported by the decoders.
use vstd::prelude::*;

verus! {

/// Why a decode step rejected its input.
#[derive(Debug, Clone, Copy, PartialEq, Eq, Structural)]
pub enum DecodeError {
    /// A declared offset or size reaches past the available bytes.
    TooShort,
    /// The first four bytes are not the ELF signature.
    BadMagic,
    /// The class byte does not name the 64-bit format.
    UnsupportedClass,
    /// A declared per-entry size does not match the fixed record size.
    BadEntrySize,
    /// Symbols were requested from a section that is not a symbol table.
    WrongSectionType,
}

} // verus!
