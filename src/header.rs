//! The ELF64 file header: the first 64 bytes of the file.
#![allow(non_camel_case_types)]
use vstd::prelude::*;
use crate::bytes::{half_at, word_at, xword_at, read_half, read_word, read_xword, half_bytes,
    word_bytes, xword_bytes, lemma_half_bytes, lemma_word_bytes, lemma_xword_bytes};
use crate::classify::{
    ElfClass, DataEncoding, OsAbi, ObjectType, class_of, encoding_of, os_abi_of,
    object_type_of, classify_class, classify_encoding, classify_os_abi, classify_object_type,
    ELFCLASS64, ELFDATA2MSB,
};
use crate::error::DecodeError;
use crate::types::{Elf64_Addr, Elf64_Half, Elf64_Off, Elf64_Word};

verus! {

/// Size in bytes of the ELF64 file header.
pub const EHDR_SIZE: usize = 64;

/// Length of the identification array at the start of the header.
pub const EI_NIDENT: usize = 16;

pub const EI_MAG0: usize = 0;
pub const EI_MAG1: usize = 1;
pub const EI_MAG2: usize = 2;
pub const EI_MAG3: usize = 3;
pub const EI_CLASS: usize = 4;
pub const EI_DATA: usize = 5;
pub const EI_VERSION: usize = 6;
pub const EI_OSABI: usize = 7;
pub const EI_ABIVERSION: usize = 8;

pub const ELFMAG0: u8 = 0x7F;
pub const ELFMAG1: u8 = 0x45;
pub const ELFMAG2: u8 = 0x4C;
pub const ELFMAG3: u8 = 0x46;

/// The decoded ELF64 file header.
pub struct Elf64_Ehdr {
    pub e_ident: [u8; 16],
    pub e_type: Elf64_Half,
    pub e_machine: Elf64_Half,
    pub e_version: Elf64_Word,
    pub e_entry: Elf64_Addr,
    pub e_phoff: Elf64_Off,
    pub e_shoff: Elf64_Off,
    pub e_flags: Elf64_Word,
    pub e_ehsize: Elf64_Half,
    pub e_phentsize: Elf64_Half,
    pub e_phnum: Elf64_Half,
    pub e_shentsize: Elf64_Half,
    pub e_shnum: Elf64_Half,
    pub e_shstrndx: Elf64_Half,
}

/// Whether the four bytes at the start of `b` are the ELF signature.
pub open spec fn has_magic(b: Seq<u8>) -> bool {
    &&& b.len() >= 4
    &&& b[0] == ELFMAG0
    &&& b[1] == ELFMAG1
    &&& b[2] == ELFMAG2
    &&& b[3] == ELFMAG3
}

/// Whether the header at the start of `b` declares big-endian fields; any
/// other encoding byte is read as little-endian.
pub open spec fn declares_big_endian(b: Seq<u8>) -> bool {
    b[EI_DATA as int] == ELFDATA2MSB
}

/// Why the bytes `b` hold no decodable ELF64 header, if they do not.
pub open spec fn header_error(b: Seq<u8>) -> Option<DecodeError> {
    if b.len() < EHDR_SIZE {
        Some(DecodeError::TooShort)
    } else if !has_magic(b) {
        Some(DecodeError::BadMagic)
    } else if b[EI_CLASS as int] != ELFCLASS64 {
        Some(DecodeError::UnsupportedClass)
    } else {
        None
    }
}

/// Whether `h` holds exactly the fields laid out in the first 64 bytes of
/// `b`, each multi-byte field in the byte order that `b` declares.
pub open spec fn header_decodes(b: Seq<u8>, h: Elf64_Ehdr) -> bool {
    let big = declares_big_endian(b);
    &&& h.e_ident@ == b.subrange(0, 16)
    &&& h.e_type == half_at(b, 16, big)
    &&& h.e_machine == half_at(b, 18, big)
    &&& h.e_version == word_at(b, 20, big)
    &&& h.e_entry == xword_at(b, 24, big)
    &&& h.e_phoff == xword_at(b, 32, big)
    &&& h.e_shoff == xword_at(b, 40, big)
    &&& h.e_flags == word_at(b, 48, big)
    &&& h.e_ehsize == half_at(b, 52, big)
    &&& h.e_phentsize == half_at(b, 54, big)
    &&& h.e_phnum == half_at(b, 56, big)
    &&& h.e_shentsize == half_at(b, 58, big)
    &&& h.e_shnum == half_at(b, 60, big)
    &&& h.e_shstrndx == half_at(b, 62, big)
}

/// Decodes the ELF64 file header from the start of `bytes`.
///
/// Fails with `TooShort` when fewer than 64 bytes are given, then with
/// `BadMagic` when the signature is wrong, then with `UnsupportedClass` when
/// the class byte is not the 64-bit class. Otherwise every field is read at
/// its fixed offset in the byte order that the header's encoding byte gives.
pub fn decode_header(bytes: &[u8]) -> (r: Result<Elf64_Ehdr, DecodeError>)
    ensures
        match r {
            Ok(h) => header_error(bytes@) is None && header_decodes(bytes@, h),
            Err(e) => header_error(bytes@) == Some(e),
        },
{
    if bytes.len() < EHDR_SIZE {
        return Err(DecodeError::TooShort);
    }
    if !(bytes[EI_MAG0] == ELFMAG0 && bytes[EI_MAG1] == ELFMAG1 && bytes[EI_MAG2] == ELFMAG2
        && bytes[EI_MAG3] == ELFMAG3) {
        return Err(DecodeError::BadMagic);
    }
    if bytes[EI_CLASS] != ELFCLASS64 {
        return Err(DecodeError::UnsupportedClass);
    }
    let big = bytes[EI_DATA] == ELFDATA2MSB;
    let mut e_ident: [u8; 16] = [0u8; 16];
    let mut i: usize = 0;
    while i < EI_NIDENT
        invariant
            i <= EI_NIDENT,
            bytes@.len() >= EHDR_SIZE,
            forall|k: int| 0 <= k < i ==> e_ident@[k] == bytes@[k],
        decreases EI_NIDENT - i,
    {
        e_ident[i] = bytes[i];
        i = i + 1;
    }
    assert(e_ident@ =~= bytes@.subrange(0, 16));
    Ok(Elf64_Ehdr {
        e_ident,
        e_type: read_half(bytes, 16, big),
        e_machine: read_half(bytes, 18, big),
        e_version: read_word(bytes, 20, big),
        e_entry: read_xword(bytes, 24, big),
        e_phoff: read_xword(bytes, 32, big),
        e_shoff: read_xword(bytes, 40, big),
        e_flags: read_word(bytes, 48, big),
        e_ehsize: read_half(bytes, 52, big),
        e_phentsize: read_half(bytes, 54, big),
        e_phnum: read_half(bytes, 56, big),
        e_shentsize: read_half(bytes, 58, big),
        e_shnum: read_half(bytes, 60, big),
        e_shstrndx: read_half(bytes, 62, big),
    })
}

/// The 64 bytes that lay out `h`, in the byte order its identification
/// bytes declare.
pub open spec fn encode_header(h: Elf64_Ehdr) -> Seq<u8> {
    let big = h.e_ident@[EI_DATA as int] == ELFDATA2MSB;
    h.e_ident@ + half_bytes(h.e_type as int, big) + half_bytes(h.e_machine as int, big)
        + word_bytes(h.e_version as int, big) + xword_bytes(h.e_entry as int, big) + xword_bytes(
        h.e_phoff as int,
        big,
    ) + xword_bytes(h.e_shoff as int, big) + word_bytes(h.e_flags as int, big) + half_bytes(
        h.e_ehsize as int,
        big,
    ) + half_bytes(h.e_phentsize as int, big) + half_bytes(h.e_phnum as int, big) + half_bytes(
        h.e_shentsize as int,
        big,
    ) + half_bytes(h.e_shnum as int, big) + half_bytes(h.e_shstrndx as int, big)
}

/// Decoding the bytes laid out from a header with the ELF signature and the
/// 64-bit class succeeds, and gives back every field exactly, in either byte
/// order.
pub proof fn lemma_header_round_trip(h: Elf64_Ehdr)
    requires
        has_magic(h.e_ident@),
        h.e_ident@[EI_CLASS as int] == ELFCLASS64,
    ensures
        encode_header(h).len() == EHDR_SIZE,
        header_error(encode_header(h)) is None,
        header_decodes(encode_header(h), h),
{
    let b = encode_header(h);
    let big = h.e_ident@[EI_DATA as int] == ELFDATA2MSB;
    assert(b.len() == 64);
    assert(b.subrange(0, 16) =~= h.e_ident@);
    assert(declares_big_endian(b) == big);
    assert(b.subrange(16, 18) =~= half_bytes(h.e_type as int, big));
    assert(b.subrange(18, 20) =~= half_bytes(h.e_machine as int, big));
    assert(b.subrange(20, 24) =~= word_bytes(h.e_version as int, big));
    assert(b.subrange(24, 32) =~= xword_bytes(h.e_entry as int, big));
    assert(b.subrange(32, 40) =~= xword_bytes(h.e_phoff as int, big));
    assert(b.subrange(40, 48) =~= xword_bytes(h.e_shoff as int, big));
    assert(b.subrange(48, 52) =~= word_bytes(h.e_flags as int, big));
    assert(b.subrange(52, 54) =~= half_bytes(h.e_ehsize as int, big));
    assert(b.subrange(54, 56) =~= half_bytes(h.e_phentsize as int, big));
    assert(b.subrange(56, 58) =~= half_bytes(h.e_phnum as int, big));
    assert(b.subrange(58, 60) =~= half_bytes(h.e_shentsize as int, big));
    assert(b.subrange(60, 62) =~= half_bytes(h.e_shnum as int, big));
    assert(b.subrange(62, 64) =~= half_bytes(h.e_shstrndx as int, big));
    lemma_half_bytes(b, 16, h.e_type, big);
    lemma_half_bytes(b, 18, h.e_machine, big);
    lemma_word_bytes(b, 20, h.e_version, big);
    lemma_xword_bytes(b, 24, h.e_entry, big);
    lemma_xword_bytes(b, 32, h.e_phoff, big);
    lemma_xword_bytes(b, 40, h.e_shoff, big);
    lemma_word_bytes(b, 48, h.e_flags, big);
    lemma_half_bytes(b, 52, h.e_ehsize, big);
    lemma_half_bytes(b, 54, h.e_phentsize, big);
    lemma_half_bytes(b, 56, h.e_phnum, big);
    lemma_half_bytes(b, 58, h.e_shentsize, big);
    lemma_half_bytes(b, 60, h.e_shnum, big);
    lemma_half_bytes(b, 62, h.e_shstrndx, big);
}

/// Fewer than 64 bytes are always rejected as too short, whatever they hold.
pub proof fn lemma_short_header_rejected(b: Seq<u8>)
    requires
        b.len() < EHDR_SIZE,
    ensures
        header_error(b) == Some(DecodeError::TooShort),
{
}

/// A full-length buffer without the ELF signature is always rejected for its
/// magic, whatever the other bytes hold.
pub proof fn lemma_bad_magic_rejected(b: Seq<u8>)
    requires
        b.len() >= EHDR_SIZE,
        !has_magic(b),
    ensures
        header_error(b) == Some(DecodeError::BadMagic),
{
}

/// An owned, decoded file header together with the accessors that the rest
/// of the decoding reads from it.
pub struct Elf64_Ehdr_Wrapper {
    pub ehdr: Elf64_Ehdr,
}

impl Elf64_Ehdr_Wrapper {
    /// Decodes the header at the start of `bytes` (see `decode_header`).
    pub fn read_ehdr(bytes: &[u8]) -> (r: Result<Self, DecodeError>)
        ensures
            match r {
                Ok(w) => header_error(bytes@) is None && header_decodes(bytes@, w.ehdr),
                Err(e) => header_error(bytes@) == Some(e),
            },
    {
        match decode_header(bytes) {
            Ok(ehdr) => Ok(Elf64_Ehdr_Wrapper { ehdr }),
            Err(e) => Err(e),
        }
    }

    /// File offset of the section header table.
    pub fn sht_off(&self) -> (r: usize)
        ensures
            r == self.ehdr.e_shoff as usize,
    {
        self.ehdr.e_shoff as usize
    }

    /// Declared size of one section header table entry.
    pub fn sh_ent_size(&self) -> (r: usize)
        ensures
            r == self.ehdr.e_shentsize as usize,
    {
        self.ehdr.e_shentsize as usize
    }

    /// Declared number of section header table entries.
    pub fn sh_num(&self) -> (r: Elf64_Half)
        ensures
            r == self.ehdr.e_shnum,
    {
        self.ehdr.e_shnum
    }

    /// Whether multi-byte fields of this file are big-endian.
    pub fn is_big_endian(&self) -> (r: bool)
        ensures
            r == (self.ehdr.e_ident@[EI_DATA as int] == ELFDATA2MSB),
    {
        self.ehdr.e_ident[EI_DATA] == ELFDATA2MSB
    }

    /// The classified word size.
    pub fn class(&self) -> (r: ElfClass)
        ensures
            r == class_of(self.ehdr.e_ident@[EI_CLASS as int]),
    {
        classify_class(self.ehdr.e_ident[EI_CLASS])
    }

    /// The classified byte order.
    pub fn data(&self) -> (r: DataEncoding)
        ensures
            r == encoding_of(self.ehdr.e_ident@[EI_DATA as int]),
    {
        classify_encoding(self.ehdr.e_ident[EI_DATA])
    }

    /// The classified OS/ABI.
    pub fn os_abi(&self) -> (r: OsAbi)
        ensures
            r == os_abi_of(self.ehdr.e_ident@[EI_OSABI as int]),
    {
        classify_os_abi(self.ehdr.e_ident[EI_OSABI])
    }

    /// The classified object type.
    pub fn object_type(&self) -> (r: ObjectType)
        ensures
            r == object_type_of(self.ehdr.e_type),
    {
        classify_object_type(self.ehdr.e_type)
    }
}

} // verus!
