//! Total classification of raw numeric header fields into named categories.
//!
//! Every function here accepts every value of its input type: values that
//! the format reserves for operating-system or processor extensions fall
//! into a range bucket, and everything else into `Unrecognized`. Each
//! category keeps enough to give the raw value back (see the `*_code`
//! spec functions and `lemma_classification_is_lossless`).
use vstd::prelude::*;
use crate::types::{Elf64_Half, Elf64_Word, Elf64_Xword};

verus! {

/// `e_ident[EI_CLASS]`: the file's word size.
#[derive(Debug, Clone, Copy, PartialEq, Eq, Structural)]
pub enum ElfClass {
    Elf32,
    Elf64,
    Unrecognized(u8),
}

/// `e_ident[EI_DATA]`: the byte order of multi-byte fields.
#[derive(Debug, Clone, Copy, PartialEq, Eq, Structural)]
pub enum DataEncoding {
    LittleEndian,
    BigEndian,
    Unrecognized(u8),
}

/// `e_ident[EI_OSABI]`: the operating-system binary interface.
#[derive(Debug, Clone, Copy, PartialEq, Eq, Structural)]
pub enum OsAbi {
    SystemV,
    HpUx,
    Standalone,
    Unrecognized(u8),
}

/// `e_type`: the kind of object file.
#[derive(Debug, Clone, Copy, PartialEq, Eq, Structural)]
pub enum ObjectType {
    NoType,
    Relocatable,
    Executable,
    Shared,
    Core,
    /// `0xFE00..=0xFEFF`
    OsSpecific(u16),
    /// `0xFF00..=0xFFFF`
    ProcessorSpecific(u16),
    Unrecognized(u16),
}

/// `sh_type`: what a section holds.
#[derive(Debug, Clone, Copy, PartialEq, Eq, Structural)]
pub enum SectionType {
    Null,
    ProgBits,
    SymTab,
    StrTab,
    Rela,
    Hash,
    Dynamic,
    Note,
    NoBits,
    Rel,
    ShLib,
    DynSym,
    /// `0x60000000..=0x6FFFFFFF`
    OsSpecific(u32),
    /// `0x70000000..=0x7FFFFFFF`
    ProcessorSpecific(u32),
    Unrecognized(u32),
}

/// `sh_flags` unpacked into its named bits and the masked remainders.
#[derive(Debug, Clone, Copy, PartialEq, Eq, Structural)]
pub struct SectionFlags {
    /// `SHF_WRITE`: the section holds writable data.
    pub write: bool,
    /// `SHF_ALLOC`: the section occupies memory at run time.
    pub alloc: bool,
    /// `SHF_EXECINSTR`: the section holds executable instructions.
    pub exec_instr: bool,
    /// The bits under `SHF_MASKOS` (`0x0F000000`).
    pub os_bits: u64,
    /// The bits under `SHF_MASKPROC` (`0xF0000000`).
    pub proc_bits: u64,
    /// Every other bit that is set.
    pub other_bits: u64,
}

/// The binding half (top four bits) of a symbol's info byte.
#[derive(Debug, Clone, Copy, PartialEq, Eq, Structural)]
pub enum SymbolBinding {
    Local,
    Global,
    Weak,
    /// `10..=12`
    OsSpecific(u8),
    /// `13..=15`
    ProcessorSpecific(u8),
    Unrecognized(u8),
}

/// The type half (bottom four bits) of a symbol's info byte.
#[derive(Debug, Clone, Copy, PartialEq, Eq, Structural)]
pub enum SymbolType {
    NoType,
    Object,
    Func,
    Section,
    File,
    /// `10..=12`
    OsSpecific(u8),
    /// `13..=15`
    ProcessorSpecific(u8),
    Unrecognized(u8),
}

pub const ELFCLASS32: u8 = 1;
pub const ELFCLASS64: u8 = 2;

pub const ELFDATA2LSB: u8 = 1;
pub const ELFDATA2MSB: u8 = 2;

pub const ELFOSABI_SYSV: u8 = 0;
pub const ELFOSABI_HPUX: u8 = 1;
pub const ELFOSABI_STANDALONE: u8 = 255;

pub const ET_NONE: u16 = 0;
pub const ET_REL: u16 = 1;
pub const ET_EXEC: u16 = 2;
pub const ET_DYN: u16 = 3;
pub const ET_CORE: u16 = 4;
pub const ET_LOOS: u16 = 0xFE00;
pub const ET_HIOS: u16 = 0xFEFF;
pub const ET_LOPROC: u16 = 0xFF00;

pub const SHT_NULL: u32 = 0;
pub const SHT_PROGBITS: u32 = 1;
pub const SHT_SYMTAB: u32 = 2;
pub const SHT_STRTAB: u32 = 3;
pub const SHT_RELA: u32 = 4;
pub const SHT_HASH: u32 = 5;
pub const SHT_DYNAMIC: u32 = 6;
pub const SHT_NOTE: u32 = 7;
pub const SHT_NOBITS: u32 = 8;
pub const SHT_REL: u32 = 9;
pub const SHT_SHLIB: u32 = 10;
pub const SHT_DYNSYM: u32 = 11;
pub const SHT_LOOS: u32 = 0x6000_0000;
pub const SHT_HIOS: u32 = 0x6FFF_FFFF;
pub const SHT_LOPROC: u32 = 0x7000_0000;
pub const SHT_HIPROC: u32 = 0x7FFF_FFFF;

pub const SHF_WRITE: u64 = 0x1;
pub const SHF_ALLOC: u64 = 0x2;
pub const SHF_EXECINSTR: u64 = 0x4;
pub const SHF_MASKOS: u64 = 0x0F00_0000;
pub const SHF_MASKPROC: u64 = 0xF000_0000;

pub const STB_LOCAL: u8 = 0;
pub const STB_GLOBAL: u8 = 1;
pub const STB_WEAK: u8 = 2;
pub const STB_LOOS: u8 = 10;
pub const STB_HIOS: u8 = 12;
pub const STB_LOPROC: u8 = 13;
pub const STB_HIPROC: u8 = 15;

pub const STT_NOTYPE: u8 = 0;
pub const STT_OBJECT: u8 = 1;
pub const STT_FUNC: u8 = 2;
pub const STT_SECTION: u8 = 3;
pub const STT_FILE: u8 = 4;
pub const STT_LOOS: u8 = 10;
pub const STT_HIOS: u8 = 12;
pub const STT_LOPROC: u8 = 13;
pub const STT_HIPROC: u8 = 15;

pub open spec fn class_of(v: u8) -> ElfClass {
    if v == ELFCLASS32 {
        ElfClass::Elf32
    } else if v == ELFCLASS64 {
        ElfClass::Elf64
    } else {
        ElfClass::Unrecognized(v)
    }
}

pub open spec fn class_code(c: ElfClass) -> u8 {
    match c {
        ElfClass::Elf32 => ELFCLASS32,
        ElfClass::Elf64 => ELFCLASS64,
        ElfClass::Unrecognized(v) => v,
    }
}

pub open spec fn encoding_of(v: u8) -> DataEncoding {
    if v == ELFDATA2LSB {
        DataEncoding::LittleEndian
    } else if v == ELFDATA2MSB {
        DataEncoding::BigEndian
    } else {
        DataEncoding::Unrecognized(v)
    }
}

pub open spec fn encoding_code(d: DataEncoding) -> u8 {
    match d {
        DataEncoding::LittleEndian => ELFDATA2LSB,
        DataEncoding::BigEndian => ELFDATA2MSB,
        DataEncoding::Unrecognized(v) => v,
    }
}

pub open spec fn os_abi_of(v: u8) -> OsAbi {
    if v == ELFOSABI_SYSV {
        OsAbi::SystemV
    } else if v == ELFOSABI_HPUX {
        OsAbi::HpUx
    } else if v == ELFOSABI_STANDALONE {
        OsAbi::Standalone
    } else {
        OsAbi::Unrecognized(v)
    }
}

pub open spec fn os_abi_code(a: OsAbi) -> u8 {
    match a {
        OsAbi::SystemV => ELFOSABI_SYSV,
        OsAbi::HpUx => ELFOSABI_HPUX,
        OsAbi::Standalone => ELFOSABI_STANDALONE,
        OsAbi::Unrecognized(v) => v,
    }
}

pub open spec fn object_type_of(v: u16) -> ObjectType {
    if v == ET_NONE {
        ObjectType::NoType
    } else if v == ET_REL {
        ObjectType::Relocatable
    } else if v == ET_EXEC {
        ObjectType::Executable
    } else if v == ET_DYN {
        ObjectType::Shared
    } else if v == ET_CORE {
        ObjectType::Core
    } else if ET_LOOS <= v && v <= ET_HIOS {
        ObjectType::OsSpecific(v)
    } else if ET_LOPROC <= v {
        ObjectType::ProcessorSpecific(v)
    } else {
        ObjectType::Unrecognized(v)
    }
}

pub open spec fn object_type_code(t: ObjectType) -> u16 {
    match t {
        ObjectType::NoType => ET_NONE,
        ObjectType::Relocatable => ET_REL,
        ObjectType::Executable => ET_EXEC,
        ObjectType::Shared => ET_DYN,
        ObjectType::Core => ET_CORE,
        ObjectType::OsSpecific(v) => v,
        ObjectType::ProcessorSpecific(v) => v,
        ObjectType::Unrecognized(v) => v,
    }
}

pub open spec fn section_type_of(v: u32) -> SectionType {
    if v == SHT_NULL {
        SectionType::Null
    } else if v == SHT_PROGBITS {
        SectionType::ProgBits
    } else if v == SHT_SYMTAB {
        SectionType::SymTab
    } else if v == SHT_STRTAB {
        SectionType::StrTab
    } else if v == SHT_RELA {
        SectionType::Rela
    } else if v == SHT_HASH {
        SectionType::Hash
    } else if v == SHT_DYNAMIC {
        SectionType::Dynamic
    } else if v == SHT_NOTE {
        SectionType::Note
    } else if v == SHT_NOBITS {
        SectionType::NoBits
    } else if v == SHT_REL {
        SectionType::Rel
    } else if v == SHT_SHLIB {
        SectionType::ShLib
    } else if v == SHT_DYNSYM {
        SectionType::DynSym
    } else if SHT_LOOS <= v && v <= SHT_HIOS {
        SectionType::OsSpecific(v)
    } else if SHT_LOPROC <= v && v <= SHT_HIPROC {
        SectionType::ProcessorSpecific(v)
    } else {
        SectionType::Unrecognized(v)
    }
}

pub open spec fn section_type_code(t: SectionType) -> u32 {
    match t {
        SectionType::Null => SHT_NULL,
        SectionType::ProgBits => SHT_PROGBITS,
        SectionType::SymTab => SHT_SYMTAB,
        SectionType::StrTab => SHT_STRTAB,
        SectionType::Rela => SHT_RELA,
        SectionType::Hash => SHT_HASH,
        SectionType::Dynamic => SHT_DYNAMIC,
        SectionType::Note => SHT_NOTE,
        SectionType::NoBits => SHT_NOBITS,
        SectionType::Rel => SHT_REL,
        SectionType::ShLib => SHT_SHLIB,
        SectionType::DynSym => SHT_DYNSYM,
        SectionType::OsSpecific(v) => v,
        SectionType::ProcessorSpecific(v) => v,
        SectionType::Unrecognized(v) => v,
    }
}

/// Whether a section type names a symbol table (static or dynamic).
pub open spec fn is_symbol_table(t: SectionType) -> bool {
    t == SectionType::SymTab || t == SectionType::DynSym
}

pub open spec fn flags_of(v: u64) -> SectionFlags {
    SectionFlags {
        write: v & SHF_WRITE != 0,
        alloc: v & SHF_ALLOC != 0,
        exec_instr: v & SHF_EXECINSTR != 0,
        os_bits: v & SHF_MASKOS,
        proc_bits: v & SHF_MASKPROC,
        other_bits: v & !(SHF_WRITE | SHF_ALLOC | SHF_EXECINSTR | SHF_MASKOS | SHF_MASKPROC),
    }
}

pub open spec fn flags_code(f: SectionFlags) -> u64 {
    (if f.write { SHF_WRITE } else { 0u64 }) | (if f.alloc { SHF_ALLOC } else { 0u64 }) | (
    if f.exec_instr {
        SHF_EXECINSTR
    } else {
        0u64
    }) | f.os_bits | f.proc_bits | f.other_bits
}

/// Classification of the four-bit binding value `v` (`0..=15`).
pub open spec fn binding_of(v: u8) -> SymbolBinding {
    if v == STB_LOCAL {
        SymbolBinding::Local
    } else if v == STB_GLOBAL {
        SymbolBinding::Global
    } else if v == STB_WEAK {
        SymbolBinding::Weak
    } else if STB_LOOS <= v && v <= STB_HIOS {
        SymbolBinding::OsSpecific(v)
    } else if STB_LOPROC <= v && v <= STB_HIPROC {
        SymbolBinding::ProcessorSpecific(v)
    } else {
        SymbolBinding::Unrecognized(v)
    }
}

pub open spec fn binding_code(b: SymbolBinding) -> u8 {
    match b {
        SymbolBinding::Local => STB_LOCAL,
        SymbolBinding::Global => STB_GLOBAL,
        SymbolBinding::Weak => STB_WEAK,
        SymbolBinding::OsSpecific(v) => v,
        SymbolBinding::ProcessorSpecific(v) => v,
        SymbolBinding::Unrecognized(v) => v,
    }
}

/// Classification of the four-bit type value `v` (`0..=15`).
pub open spec fn symbol_type_of(v: u8) -> SymbolType {
    if v == STT_NOTYPE {
        SymbolType::NoType
    } else if v == STT_OBJECT {
        SymbolType::Object
    } else if v == STT_FUNC {
        SymbolType::Func
    } else if v == STT_SECTION {
        SymbolType::Section
    } else if v == STT_FILE {
        SymbolType::File
    } else if STT_LOOS <= v && v <= STT_HIOS {
        SymbolType::OsSpecific(v)
    } else if STT_LOPROC <= v && v <= STT_HIPROC {
        SymbolType::ProcessorSpecific(v)
    } else {
        SymbolType::Unrecognized(v)
    }
}

pub open spec fn symbol_type_code(t: SymbolType) -> u8 {
    match t {
        SymbolType::NoType => STT_NOTYPE,
        SymbolType::Object => STT_OBJECT,
        SymbolType::Func => STT_FUNC,
        SymbolType::Section => STT_SECTION,
        SymbolType::File => STT_FILE,
        SymbolType::OsSpecific(v) => v,
        SymbolType::ProcessorSpecific(v) => v,
        SymbolType::Unrecognized(v) => v,
    }
}

/// Classifies the class byte.
pub fn classify_class(v: u8) -> (r: ElfClass)
    ensures
        r == class_of(v),
{
    if v == ELFCLASS32 {
        ElfClass::Elf32
    } else if v == ELFCLASS64 {
        ElfClass::Elf64
    } else {
        ElfClass::Unrecognized(v)
    }
}

/// Classifies the data-encoding byte.
pub fn classify_encoding(v: u8) -> (r: DataEncoding)
    ensures
        r == encoding_of(v),
{
    if v == ELFDATA2LSB {
        DataEncoding::LittleEndian
    } else if v == ELFDATA2MSB {
        DataEncoding::BigEndian
    } else {
        DataEncoding::Unrecognized(v)
    }
}

/// Classifies the OS/ABI byte.
pub fn classify_os_abi(v: u8) -> (r: OsAbi)
    ensures
        r == os_abi_of(v),
{
    if v == ELFOSABI_SYSV {
        OsAbi::SystemV
    } else if v == ELFOSABI_HPUX {
        OsAbi::HpUx
    } else if v == ELFOSABI_STANDALONE {
        OsAbi::Standalone
    } else {
        OsAbi::Unrecognized(v)
    }
}

/// Classifies the object-type half-word.
pub fn classify_object_type(v: Elf64_Half) -> (r: ObjectType)
    ensures
        r == object_type_of(v),
{
    if v == ET_NONE {
        ObjectType::NoType
    } else if v == ET_REL {
        ObjectType::Relocatable
    } else if v == ET_EXEC {
        ObjectType::Executable
    } else if v == ET_DYN {
        ObjectType::Shared
    } else if v == ET_CORE {
        ObjectType::Core
    } else if ET_LOOS <= v && v <= ET_HIOS {
        ObjectType::OsSpecific(v)
    } else if ET_LOPROC <= v {
        ObjectType::ProcessorSpecific(v)
    } else {
        ObjectType::Unrecognized(v)
    }
}

/// Classifies the section-type word.
pub fn classify_section_type(v: Elf64_Word) -> (r: SectionType)
    ensures
        r == section_type_of(v),
{
    if v == SHT_NULL {
        SectionType::Null
    } else if v == SHT_PROGBITS {
        SectionType::ProgBits
    } else if v == SHT_SYMTAB {
        SectionType::SymTab
    } else if v == SHT_STRTAB {
        SectionType::StrTab
    } else if v == SHT_RELA {
        SectionType::Rela
    } else if v == SHT_HASH {
        SectionType::Hash
    } else if v == SHT_DYNAMIC {
        SectionType::Dynamic
    } else if v == SHT_NOTE {
        SectionType::Note
    } else if v == SHT_NOBITS {
        SectionType::NoBits
    } else if v == SHT_REL {
        SectionType::Rel
    } else if v == SHT_SHLIB {
        SectionType::ShLib
    } else if v == SHT_DYNSYM {
        SectionType::DynSym
    } else if SHT_LOOS <= v && v <= SHT_HIOS {
        SectionType::OsSpecific(v)
    } else if SHT_LOPROC <= v && v <= SHT_HIPROC {
        SectionType::ProcessorSpecific(v)
    } else {
        SectionType::Unrecognized(v)
    }
}

/// Unpacks the section-flags extended word.
pub fn classify_flags(v: Elf64_Xword) -> (r: SectionFlags)
    ensures
        r == flags_of(v),
{
    SectionFlags {
        write: v & SHF_WRITE != 0,
        alloc: v & SHF_ALLOC != 0,
        exec_instr: v & SHF_EXECINSTR != 0,
        os_bits: v & SHF_MASKOS,
        proc_bits: v & SHF_MASKPROC,
        other_bits: v & !(SHF_WRITE | SHF_ALLOC | SHF_EXECINSTR | SHF_MASKOS | SHF_MASKPROC),
    }
}

/// Classifies a four-bit symbol binding value.
pub fn classify_binding(v: u8) -> (r: SymbolBinding)
    ensures
        r == binding_of(v),
{
    if v == STB_LOCAL {
        SymbolBinding::Local
    } else if v == STB_GLOBAL {
        SymbolBinding::Global
    } else if v == STB_WEAK {
        SymbolBinding::Weak
    } else if STB_LOOS <= v && v <= STB_HIOS {
        SymbolBinding::OsSpecific(v)
    } else if STB_LOPROC <= v && v <= STB_HIPROC {
        SymbolBinding::ProcessorSpecific(v)
    } else {
        SymbolBinding::Unrecognized(v)
    }
}

/// Classifies a four-bit symbol type value.
pub fn classify_symbol_type(v: u8) -> (r: SymbolType)
    ensures
        r == symbol_type_of(v),
{
    if v == STT_NOTYPE {
        SymbolType::NoType
    } else if v == STT_OBJECT {
        SymbolType::Object
    } else if v == STT_FUNC {
        SymbolType::Func
    } else if v == STT_SECTION {
        SymbolType::Section
    } else if v == STT_FILE {
        SymbolType::File
    } else if STT_LOOS <= v && v <= STT_HIOS {
        SymbolType::OsSpecific(v)
    } else if STT_LOPROC <= v && v <= STT_HIPROC {
        SymbolType::ProcessorSpecific(v)
    } else {
        SymbolType::Unrecognized(v)
    }
}

/// Classification loses nothing: for every raw value of every field family,
/// the category that the classifier returns determines the raw value again.
/// In particular no value is rejected and none is mapped into a bucket that
/// would confuse it with another.
pub proof fn lemma_classification_is_lossless(b: u8, h: u16, w: u32, x: u64)
    ensures
        class_code(class_of(b)) == b,
        encoding_code(encoding_of(b)) == b,
        os_abi_code(os_abi_of(b)) == b,
        object_type_code(object_type_of(h)) == h,
        section_type_code(section_type_of(w)) == w,
        flags_code(flags_of(x)) == x,
        binding_code(binding_of(b)) == b,
        symbol_type_code(symbol_type_of(b)) == b,
{
    assert((if x & 0x1u64 != 0 { 0x1u64 } else { 0u64 }) | (if x & 0x2u64 != 0 {
        0x2u64
    } else {
        0u64
    }) | (if x & 0x4u64 != 0 { 0x4u64 } else { 0u64 }) | (x & 0x0F00_0000u64) | (x
        & 0xF000_0000u64) | (x & !(0x1u64 | 0x2u64 | 0x4u64 | 0x0F00_0000u64 | 0xF000_0000u64))
        == x) by (bit_vector);
}

} // verus!
