//! The section header table: a contiguous array of fixed-size records whose
//! location the file header gives.
#![allow(non_camel_case_types)]
use vstd::prelude::*;
use vstd::std_specs::iter::IteratorSpec;
use crate::bytes::{word_at, xword_at, read_word, read_xword};
use crate::classify::{SectionFlags, SectionType, flags_of, section_type_of, classify_flags,
    classify_section_type, is_symbol_table, SHT_NOBITS};
use crate::error::DecodeError;
use crate::types::{Elf64_Addr, Elf64_Off, Elf64_Word, Elf64_Xword};

verus! {

/// Size in bytes of one ELF64 section header.
pub const SHDR_SIZE: usize = 64;

/// One decoded section header.
#[derive(Debug, Clone, Copy, PartialEq, Eq, Structural)]
pub struct Elf64_Shdr {
    /// Section name, as an index into the section name string table.
    pub sh_name: Elf64_Word,
    /// Section type.
    pub sh_type: Elf64_Word,
    /// Section attributes.
    pub sh_flags: Elf64_Xword,
    /// Virtual address in memory.
    pub sh_addr: Elf64_Addr,
    /// Offset in the file.
    pub sh_offset: Elf64_Off,
    /// Size of the section in bytes.
    pub sh_size: Elf64_Xword,
    /// Link to another section.
    pub sh_link: Elf64_Word,
    /// Miscellaneous information.
    pub sh_info: Elf64_Word,
    /// Address alignment boundary.
    pub sh_addralign: Elf64_Xword,
    /// Size of one entry, for sections that hold a table.
    pub sh_entsize: Elf64_Xword,
}

/// The section header laid out in `b` at `base`.
pub open spec fn shdr_at(b: Seq<u8>, base: int, big: bool) -> Elf64_Shdr {
    Elf64_Shdr {
        sh_name: word_at(b, base, big),
        sh_type: word_at(b, base + 4, big),
        sh_flags: xword_at(b, base + 8, big),
        sh_addr: xword_at(b, base + 16, big),
        sh_offset: xword_at(b, base + 24, big),
        sh_size: xword_at(b, base + 32, big),
        sh_link: word_at(b, base + 40, big),
        sh_info: word_at(b, base + 44, big),
        sh_addralign: xword_at(b, base + 48, big),
        sh_entsize: xword_at(b, base + 56, big),
    }
}

/// Whether the contents of section `s` lie within a file of `len` bytes; a
/// `SHT_NOBITS` section occupies no file bytes and always does.
pub open spec fn section_in_file(s: Elf64_Shdr, len: int) -> bool {
    s.sh_type == SHT_NOBITS || s.sh_offset + s.sh_size <= len
}

/// Why the table of `count` entries of `entry_size` bytes at `offset` in `b`
/// cannot be decoded, if it cannot: the table itself reaches past the end of
/// `b`, its entry size is not the record size, or one of its sections reaches
/// past the end of `b`.
pub open spec fn shdr_table_error(b: Seq<u8>, offset: int, entry_size: int, count: int, big: bool)
    -> Option<DecodeError> {
    if offset + entry_size * count > b.len() {
        Some(DecodeError::TooShort)
    } else if count > 0 && entry_size != SHDR_SIZE {
        Some(DecodeError::BadEntrySize)
    } else if exists|i: int|
        0 <= i < count && !#[trigger] section_in_file(
            shdr_at(b, offset + i * SHDR_SIZE, big),
            b.len() as int,
        ) {
        Some(DecodeError::TooShort)
    } else {
        None
    }
}

/// The `count` section headers laid out one after another in `b` from
/// `offset`, in file order.
pub open spec fn shdr_table(b: Seq<u8>, offset: int, count: nat, big: bool) -> Seq<Elf64_Shdr> {
    Seq::new(count, |i: int| shdr_at(b, offset + i * SHDR_SIZE, big))
}

/// Decodes the section header at `base`.
pub fn decode_shdr(bytes: &[u8], base: usize, big: bool) -> (r: Elf64_Shdr)
    requires
        base + SHDR_SIZE <= bytes.len(),
    ensures
        r == shdr_at(bytes@, base as int, big),
{
    Elf64_Shdr {
        sh_name: read_word(bytes, base, big),
        sh_type: read_word(bytes, base + 4, big),
        sh_flags: read_xword(bytes, base + 8, big),
        sh_addr: read_xword(bytes, base + 16, big),
        sh_offset: read_xword(bytes, base + 24, big),
        sh_size: read_xword(bytes, base + 32, big),
        sh_link: read_word(bytes, base + 40, big),
        sh_info: read_word(bytes, base + 44, big),
        sh_addralign: read_xword(bytes, base + 48, big),
        sh_entsize: read_xword(bytes, base + 56, big),
    }
}

/// Decodes `count` section headers of `entry_size` bytes each from `offset`,
/// reading multi-byte fields big-endian when `big` holds.
///
/// Fails with `TooShort` when the table reaches past the end of `bytes`, then
/// with `BadEntrySize` when there is at least one entry and `entry_size` is
/// not 64, then with `TooShort` when any section other than `SHT_NOBITS`
/// reaches past the end of `bytes`: a malformed table is rejected whole.
/// With no entries the result is empty.
pub fn decode_section_headers(bytes: &[u8], big: bool, offset: u64, entry_size: u16, count: u16)
    -> (r: Result<Vec<Elf64_Shdr>, DecodeError>)
    ensures
        match r {
            Ok(v) => shdr_table_error(bytes@, offset as int, entry_size as int, count as int, big) is None
                && v@ == shdr_table(bytes@, offset as int, count as nat, big),
            Err(e) => shdr_table_error(bytes@, offset as int, entry_size as int, count as int, big)
                == Some(e),
        },
{
    let len = bytes.len() as u64;
    assert(entry_size as int * count as int <= 0xFFFF * 0xFFFF) by (nonlinear_arith)
        requires
            entry_size <= 0xFFFF,
            count <= 0xFFFF,
    ;
    let total = entry_size as u64 * count as u64;
    if offset > len || total > len - offset {
        return Err(DecodeError::TooShort);
    }
    if count > 0 && entry_size as usize != SHDR_SIZE {
        return Err(DecodeError::BadEntrySize);
    }
    assert(offset as int + count as int * 64 <= bytes.len()) by {
        if count > 0 {
            assert(entry_size as int == 64);
        }
    }
    let start = offset as usize;
    let mut tab: Vec<Elf64_Shdr> = Vec::new();
    let mut i: u16 = 0;
    while i < count
        invariant
            i <= count,
            count == 0 || entry_size as int == SHDR_SIZE,
            start as int == offset as int,
            offset as int + count as int * 64 <= bytes.len(),
            len as int == bytes@.len(),
            tab@ == shdr_table(bytes@, offset as int, i as nat, big),
            forall|k: int|
                0 <= k < i ==> #[trigger] section_in_file(
                    shdr_at(bytes@, offset + k * SHDR_SIZE, big),
                    bytes@.len() as int,
                ),
        decreases count - i,
    {
        assert(start as int + i as int * 64 + 64 <= start as int + count as int * 64)
            by (nonlinear_arith)
            requires
                i < count,
        ;
        let base = start + i as usize * SHDR_SIZE;
        let h = decode_shdr(bytes, base, big);
        if !h.lies_in_file(len) {
            assert(!section_in_file(shdr_at(bytes@, offset + i * SHDR_SIZE, big), bytes@.len() as int));
            return Err(DecodeError::TooShort);
        }
        tab.push(h);
        i = i + 1;
        assert(tab@ =~= shdr_table(bytes@, offset as int, i as nat, big));
    }
    Ok(tab)
}

/// A table of no entries decodes to the empty sequence without error, at
/// any offset within the bytes and with any declared entry size.
pub proof fn lemma_empty_table(b: Seq<u8>, offset: u64, entry_size: u16, big: bool)
    requires
        offset <= b.len(),
    ensures
        shdr_table_error(b, offset as int, entry_size as int, 0, big) is None,
        shdr_table(b, offset as int, 0, big) == Seq::<Elf64_Shdr>::empty(),
{
    assert(shdr_table(b, offset as int, 0, big) =~= Seq::<Elf64_Shdr>::empty());
}

/// A table decoded from `n` entries has exactly `n` headers, entry `i` being
/// the record at `offset + 64 * i`; decoding fewer entries from the same
/// offset gives a prefix of it.
pub proof fn lemma_table_order(b: Seq<u8>, offset: int, n: nat, m: nat, big: bool)
    requires
        m <= n,
    ensures
        shdr_table(b, offset, n, big).len() == n,
        forall|i: int|
            0 <= i < n ==> #[trigger] shdr_table(b, offset, n, big)[i] == shdr_at(
                b,
                offset + i * SHDR_SIZE,
                big,
            ),
        shdr_table(b, offset, m, big) == shdr_table(b, offset, n, big).subrange(0, m as int),
{
    assert(shdr_table(b, offset, m, big) =~= shdr_table(b, offset, n, big).subrange(0, m as int));
}

/// Whether `a` is a power of two.
pub open spec fn is_power_of_two(a: nat) -> bool
    decreases a,
{
    if a == 1 {
        true
    } else if a == 0 || a % 2 == 1 {
        false
    } else {
        is_power_of_two(a / 2)
    }
}

/// Whether section `s` keeps the layout rules of a file of `len` bytes: its
/// contents lie within the file (a `SHT_NOBITS` section occupies none), and
/// its alignment is zero or a power of two.
pub open spec fn shdr_well_formed(s: Elf64_Shdr, len: int) -> bool {
    &&& section_in_file(s, len)
    &&& (s.sh_addralign == 0 || is_power_of_two(s.sh_addralign as nat))
}

/// Tests whether `a` is a power of two.
fn power_of_two(a: u64) -> (r: bool)
    ensures
        r == is_power_of_two(a as nat),
{
    if a == 0 {
        return false;
    }
    let mut x: u64 = a;
    while x % 2 == 0
        invariant
            x > 0,
            is_power_of_two(x as nat) == is_power_of_two(a as nat),
        decreases x,
    {
        x = x / 2;
    }
    x == 1
}

impl Elf64_Shdr {
    /// Whether this section keeps the layout rules of a file of `len` bytes
    /// (see `shdr_well_formed`).
    pub fn is_well_formed(&self, len: u64) -> (r: bool)
        ensures
            r == shdr_well_formed(*self, len as int),
    {
        self.lies_in_file(len) && (self.sh_addralign == 0 || power_of_two(self.sh_addralign))
    }

    /// Whether this section's contents lie within a file of `len` bytes (see
    /// `section_in_file`).
    pub fn lies_in_file(&self, len: u64) -> (r: bool)
        ensures
            r == section_in_file(*self, len as int),
    {
        self.sh_type == SHT_NOBITS || (self.sh_offset <= len && self.sh_size <= len - self.sh_offset)
    }

    /// The classified section type.
    pub fn section_type(&self) -> (r: SectionType)
        ensures
            r == section_type_of(self.sh_type),
    {
        classify_section_type(self.sh_type)
    }

    /// The unpacked section flags.
    pub fn flags(&self) -> (r: SectionFlags)
        ensures
            r == flags_of(self.sh_flags),
    {
        classify_flags(self.sh_flags)
    }
}

/// The section header table of one file, in section index order.
pub struct ShdrTab {
    pub tab: Vec<Elf64_Shdr>,
}

impl ShdrTab {
    /// Decodes the table of `n` entries of `entry_size` bytes at `off` (see
    /// `decode_section_headers`).
    pub fn read_shdr_table(bytes: &[u8], big: bool, off: u64, entry_size: u16, n: u16) -> (r:
        Result<Self, DecodeError>)
        ensures
            match r {
                Ok(t) => shdr_table_error(bytes@, off as int, entry_size as int, n as int, big) is None
                    && t.tab@ == shdr_table(bytes@, off as int, n as nat, big),
                Err(e) => shdr_table_error(bytes@, off as int, entry_size as int, n as int, big)
                    == Some(e),
            },
    {
        match decode_section_headers(bytes, big, off, entry_size, n) {
            Ok(tab) => Ok(ShdrTab { tab }),
            Err(e) => Err(e),
        }
    }

    /// Number of sections in the table.
    pub fn len(&self) -> (r: usize)
        ensures
            r == self.tab@.len(),
    {
        self.tab.len()
    }

    /// Indices, in increasing order, of every section classified as a symbol
    /// table (static or dynamic).
    pub fn symbol_sections(&self) -> (r: Vec<usize>)
        ensures
            forall|j: int, k: int| 0 <= j < k < r@.len() ==> r@[j] < r@[k],
            forall|j: int|
                0 <= j < r@.len() ==> #[trigger] r@[j] < self.tab@.len() && is_symbol_table(
                    section_type_of(self.tab@[r@[j] as int].sh_type),
                ),
            forall|k: int|
                0 <= k < self.tab@.len() && is_symbol_table(section_type_of(self.tab@[k].sh_type))
                    ==> r@.contains(k as usize),
    {
        let mut r: Vec<usize> = Vec::new();
        let mut i: usize = 0;
        while i < self.tab.len()
            invariant
                i <= self.tab@.len(),
                forall|j: int, k: int| 0 <= j < k < r@.len() ==> r@[j] < r@[k],
                forall|j: int|
                    0 <= j < r@.len() ==> #[trigger] r@[j] < i && is_symbol_table(
                        section_type_of(self.tab@[r@[j] as int].sh_type),
                    ),
                forall|k: int|
                    0 <= k < i && is_symbol_table(section_type_of(self.tab@[k].sh_type))
                        ==> r@.contains(k as usize),
            decreases self.tab@.len() - i,
        {
            let ghost before = r@;
            let t = self.tab[i].section_type();
            if matches!(t, SectionType::SymTab | SectionType::DynSym) {
                r.push(i);
            }
            proof {
                assert forall|k: int|
                    0 <= k < i + 1 && is_symbol_table(section_type_of(self.tab@[k].sh_type))
                        implies r@.contains(k as usize) by {
                    if k == i {
                        assert(r@[r@.len() - 1] == i);
                    } else {
                        let idx = choose|idx: int| 0 <= idx < before.len() && before[idx] == k as usize;
                        assert(r@[idx] == k as usize);
                    }
                }
            }
            i = i + 1;
        }
        r
    }

    /// The section at index `i`, if the table has one.
    pub fn get(&self, i: usize) -> (r: Option<Elf64_Shdr>)
        ensures
            i < self.tab@.len() ==> r == Some(self.tab@[i as int]),
            i >= self.tab@.len() ==> r is None,
    {
        if i < self.tab.len() {
            Some(self.tab[i])
        } else {
            None
        }
    }
}

impl IntoIterator for ShdrTab {
    type Item = Elf64_Shdr;
    type IntoIter = std::vec::IntoIter<Elf64_Shdr>;

    /// Hands out the section headers in section index order.
    fn into_iter(self) -> (r: std::vec::IntoIter<Elf64_Shdr>)
        ensures
            r.remaining() == self.tab@,
    {
        self.tab.into_iter()
    }
}

} // verus!
