//! Symbol tables: arrays of fixed-size symbol records held by a section of
//! type `SHT_SYMTAB` or `SHT_DYNSYM`.
#![allow(non_camel_case_types)]
use vstd::prelude::*;
use crate::bytes::{half_at, word_at, xword_at, read_half, read_word, read_xword};
use crate::classify::{SymbolBinding, SymbolType, binding_of, symbol_type_of, section_type_of,
    is_symbol_table, classify_binding, classify_symbol_type, SHT_SYMTAB, SHT_DYNSYM};
use crate::error::DecodeError;
use crate::section::Elf64_Shdr;
use crate::types::{Elf64_Addr, Elf64_Half, Elf64_Word, Elf64_Xword};

verus! {

/// Size in bytes of one ELF64 symbol record.
pub const SYM_SIZE: usize = 24;

/// One decoded symbol record.
#[derive(Debug, Clone, Copy, PartialEq, Eq, Structural)]
pub struct Elf64_Sym {
    /// Symbol name, as an index into the associated string table.
    pub st_name: Elf64_Word,
    /// Binding (top four bits) and type (bottom four bits).
    pub st_info: u8,
    /// Reserved.
    pub st_other: u8,
    /// Index of the section the symbol is defined in.
    pub st_shndx: Elf64_Half,
    /// Value: an address or a constant, depending on context.
    pub st_value: Elf64_Addr,
    /// Size of the object the symbol names.
    pub st_size: Elf64_Xword,
}

/// The symbol record laid out in `b` at `base`.
pub open spec fn sym_at(b: Seq<u8>, base: int, big: bool) -> Elf64_Sym {
    Elf64_Sym {
        st_name: word_at(b, base, big),
        st_info: b[base + 4],
        st_other: b[base + 5],
        st_shndx: half_at(b, base + 6, big),
        st_value: xword_at(b, base + 8, big),
        st_size: xword_at(b, base + 16, big),
    }
}

/// Why the symbols of section `s` cannot be decoded from `len` bytes, if
/// they cannot.
pub open spec fn symbols_error(len: int, s: Elf64_Shdr) -> Option<DecodeError> {
    if !is_symbol_table(section_type_of(s.sh_type)) {
        Some(DecodeError::WrongSectionType)
    } else if s.sh_entsize != SYM_SIZE || s.sh_size % (SYM_SIZE as u64) != 0 {
        Some(DecodeError::BadEntrySize)
    } else if s.sh_offset + s.sh_size > len {
        Some(DecodeError::TooShort)
    } else {
        None
    }
}

/// The `sh_size / sh_entsize` symbol records of section `s`, in order,
/// the one at index `i` laid out at `sh_offset + i * sh_entsize`.
pub open spec fn symbol_table(b: Seq<u8>, s: Elf64_Shdr, big: bool) -> Seq<Elf64_Sym> {
    Seq::new(
        (s.sh_size / s.sh_entsize) as nat,
        |i: int| sym_at(b, s.sh_offset + i * s.sh_entsize, big),
    )
}

/// Decodes the symbol record at `base`.
pub fn decode_sym(bytes: &[u8], base: usize, big: bool) -> (r: Elf64_Sym)
    requires
        base + SYM_SIZE <= bytes.len(),
    ensures
        r == sym_at(bytes@, base as int, big),
{
    Elf64_Sym {
        st_name: read_word(bytes, base, big),
        st_info: bytes[base + 4],
        st_other: bytes[base + 5],
        st_shndx: read_half(bytes, base + 6, big),
        st_value: read_xword(bytes, base + 8, big),
        st_size: read_xword(bytes, base + 16, big),
    }
}

/// Decodes every symbol record of `section`, the null entry at index 0
/// included, reading multi-byte fields big-endian when `big` holds.
///
/// Fails with `WrongSectionType` when the section is not a symbol table,
/// then with `BadEntrySize` when its entry size is not the 24-byte record
/// size or does not divide its size, then with `TooShort` when the section
/// reaches past the end of `bytes`.
pub fn decode_symbols(bytes: &[u8], big: bool, section: &Elf64_Shdr) -> (r: Result<
    Vec<Elf64_Sym>,
    DecodeError,
>)
    ensures
        match r {
            Ok(v) => symbols_error(bytes@.len() as int, *section) is None && v@ == symbol_table(
                bytes@,
                *section,
                big,
            ),
            Err(e) => symbols_error(bytes@.len() as int, *section) == Some(e),
        },
{
    if !(section.sh_type == SHT_SYMTAB || section.sh_type == SHT_DYNSYM) {
        return Err(DecodeError::WrongSectionType);
    }
    if section.sh_entsize != SYM_SIZE as u64 || section.sh_size % (SYM_SIZE as u64) != 0 {
        return Err(DecodeError::BadEntrySize);
    }
    let len = bytes.len() as u64;
    if section.sh_offset > len || section.sh_size > len - section.sh_offset {
        return Err(DecodeError::TooShort);
    }
    let count = section.sh_size / (SYM_SIZE as u64);
    let start = section.sh_offset as usize;
    let mut syms: Vec<Elf64_Sym> = Vec::new();
    let mut i: u64 = 0;
    while i < count
        invariant
            i <= count,
            count == section.sh_size / 24,
            section.sh_entsize == 24,
            section.sh_size % 24 == 0,
            start as int == section.sh_offset as int,
            section.sh_offset as int + section.sh_size as int <= bytes.len(),
            syms@ =~= Seq::new(
                i as nat,
                |k: int| sym_at(bytes@, section.sh_offset + k * section.sh_entsize, big),
            ),
        decreases count - i,
    {
        assert(start as int + i as int * 24 + 24 <= start as int + count as int * 24)
            by (nonlinear_arith)
            requires
                i < count,
        ;
        let base = start + i as usize * SYM_SIZE;
        let s = decode_sym(bytes, base, big);
        syms.push(s);
        i = i + 1;
        assert(syms@ =~= Seq::new(
            i as nat,
            |k: int| sym_at(bytes@, section.sh_offset + k * section.sh_entsize, big),
        ));
    }
    Ok(syms)
}

/// Symbols are only ever decoded from a symbol table: a section of any other
/// classified type is rejected, whatever else it declares.
pub proof fn lemma_non_symbol_section_rejected(len: int, s: Elf64_Shdr)
    requires
        !is_symbol_table(section_type_of(s.sh_type)),
    ensures
        symbols_error(len, s) == Some(DecodeError::WrongSectionType),
{
}

/// Binding value of an info byte: its top four bits.
pub open spec fn info_binding(info: u8) -> u8 {
    info / 16
}

/// Type value of an info byte: its bottom four bits.
pub open spec fn info_type(info: u8) -> u8 {
    info % 16
}

impl Elf64_Sym {
    /// The raw binding value, `0..=15`.
    pub fn binding_value(&self) -> (r: u8)
        ensures
            r == info_binding(self.st_info),
            r < 16,
    {
        self.st_info / 16
    }

    /// The raw type value, `0..=15`.
    pub fn type_value(&self) -> (r: u8)
        ensures
            r == info_type(self.st_info),
            r < 16,
    {
        self.st_info % 16
    }

    /// The classified binding.
    pub fn binding(&self) -> (r: SymbolBinding)
        ensures
            r == binding_of(info_binding(self.st_info)),
    {
        classify_binding(self.binding_value())
    }

    /// The classified type.
    pub fn sym_type(&self) -> (r: SymbolType)
        ensures
            r == symbol_type_of(info_type(self.st_info)),
    {
        classify_symbol_type(self.type_value())
    }
}

} // verus!
