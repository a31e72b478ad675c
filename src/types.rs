//! Fixed-width integer aliases matching the field widths of the ELF64 format.
#![allow(non_camel_case_types)]
use vstd::prelude::*;

verus! {

/// Unsigned program address.
pub type Elf64_Addr = u64;

/// Unsigned file offset.
pub type Elf64_Off = u64;

/// Unsigned half-word.
pub type Elf64_Half = u16;

/// Unsigned word.
pub type Elf64_Word = u32;

/// Signed word.
pub type Elf64_Sword = i32;

/// Unsigned extended word.
pub type Elf64_Xword = u64;

/// Signed extended word.
pub type Elf64_Sxword = i64;

} // verus!
