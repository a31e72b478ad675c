use elf_inspect::classify::{SectionType, SymbolBinding, SymbolType};
use elf_inspect::error::DecodeError;
use elf_inspect::section::{decode_section_headers, Elf64_Shdr, ShdrTab};
use elf_inspect::symbol_table::decode_symbols;

fn put(buf: &mut [u8], at: usize, v: u64, width: usize, big: bool) {
    for k in 0..width {
        let byte = ((v >> (8 * k)) & 0xFF) as u8;
        if big {
            buf[at + width - 1 - k] = byte;
        } else {
            buf[at + k] = byte;
        }
    }
}

fn shdr_bytes(s: &Elf64_Shdr, big: bool) -> Vec<u8> {
    let mut b = vec![0u8; 64];
    put(&mut b, 0, s.sh_name as u64, 4, big);
    put(&mut b, 4, s.sh_type as u64, 4, big);
    put(&mut b, 8, s.sh_flags, 8, big);
    put(&mut b, 16, s.sh_addr, 8, big);
    put(&mut b, 24, s.sh_offset, 8, big);
    put(&mut b, 32, s.sh_size, 8, big);
    put(&mut b, 40, s.sh_link as u64, 4, big);
    put(&mut b, 44, s.sh_info as u64, 4, big);
    put(&mut b, 48, s.sh_addralign, 8, big);
    put(&mut b, 56, s.sh_entsize, 8, big);
    b
}

fn section(i: u32, sh_type: u32) -> Elf64_Shdr {
    Elf64_Shdr {
        sh_name: 10 * i,
        sh_type,
        sh_flags: 0x6,
        sh_addr: 0x1000 + i as u64,
        sh_offset: 8 * i as u64,
        sh_size: 0x10 + i as u64,
        sh_link: i + 1,
        sh_info: i + 2,
        sh_addralign: 16,
        sh_entsize: 0,
    }
}

fn symtab_section(offset: u64, size: u64, entsize: u64) -> Elf64_Shdr {
    Elf64_Shdr {
        sh_name: 1,
        sh_type: 2,
        sh_flags: 0,
        sh_addr: 0,
        sh_offset: offset,
        sh_size: size,
        sh_link: 3,
        sh_info: 1,
        sh_addralign: 8,
        sh_entsize: entsize,
    }
}

fn sym_bytes(name: u32, info: u8, other: u8, shndx: u16, value: u64, size: u64, big: bool) -> Vec<u8> {
    let mut b = vec![0u8; 24];
    put(&mut b, 0, name as u64, 4, big);
    b[4] = info;
    b[5] = other;
    put(&mut b, 6, shndx as u64, 2, big);
    put(&mut b, 8, value, 8, big);
    put(&mut b, 16, size, 8, big);
    b
}

#[test]
fn sections_decode_in_file_order() {
    for big in [false, true] {
        let mut bytes = vec![0xEEu8; 40];
        let expected: Vec<Elf64_Shdr> = (0..3).map(|i| section(i, i)).collect();
        for s in &expected {
            bytes.extend(shdr_bytes(s, big));
        }
        let got = decode_section_headers(&bytes, big, 40, 64, 3).unwrap();
        assert_eq!(got.len(), 3);
        assert_eq!(got, expected);
        let t = ShdrTab::read_shdr_table(&bytes, big, 40, 64, 3).unwrap();
        assert_eq!(t.len(), 3);
        assert_eq!(t.get(1), Some(expected[1]));
        assert_eq!(t.get(3), None);
        assert_eq!(t.tab[2].section_type(), SectionType::SymTab);
    }
}

#[test]
fn sections_zero_count_is_empty() {
    let bytes = vec![0u8; 100];
    assert_eq!(decode_section_headers(&bytes, false, 0, 64, 0), Ok(vec![]));
    assert_eq!(decode_section_headers(&bytes, false, 100, 64, 0), Ok(vec![]));
    assert_eq!(decode_section_headers(&bytes, true, 50, 0, 0), Ok(vec![]));
}

#[test]
fn sections_past_end_too_short() {
    let bytes = vec![0u8; 100];
    assert_eq!(decode_section_headers(&bytes, false, 64, 64, 3), Err(DecodeError::TooShort));
    assert_eq!(decode_section_headers(&bytes, false, 101, 64, 0), Err(DecodeError::TooShort));
    assert_eq!(
        decode_section_headers(&bytes, false, u64::MAX, 64, 1),
        Err(DecodeError::TooShort)
    );
    assert_eq!(decode_section_headers(&bytes, false, 37, 64, 1), Err(DecodeError::TooShort));
}

#[test]
fn sections_header_declares_more_than_file() {
    // e_shoff = 64, e_shentsize = 64, e_shnum = 3 in a 100-byte file
    let mut bytes = vec![0u8; 100];
    bytes[0] = 0x7F;
    bytes[1] = b'E';
    bytes[2] = b'L';
    bytes[3] = b'F';
    bytes[4] = 2;
    bytes[5] = 1;
    put(&mut bytes, 40, 64, 8, false);
    put(&mut bytes, 58, 64, 2, false);
    put(&mut bytes, 60, 3, 2, false);
    let w = elf_inspect::header::Elf64_Ehdr_Wrapper::read_ehdr(&bytes).unwrap();
    let r = ShdrTab::read_shdr_table(
        &bytes,
        w.is_big_endian(),
        w.ehdr.e_shoff,
        w.ehdr.e_shentsize,
        w.sh_num(),
    );
    assert_eq!(r.err(), Some(DecodeError::TooShort));
}

#[test]
fn sections_bad_entry_size() {
    let bytes = vec![0u8; 1000];
    assert_eq!(decode_section_headers(&bytes, false, 0, 40, 2), Err(DecodeError::BadEntrySize));
    assert_eq!(decode_section_headers(&bytes, false, 0, 0, 2), Err(DecodeError::BadEntrySize));
    assert_eq!(decode_section_headers(&bytes, false, 0, 128, 2), Err(DecodeError::BadEntrySize));
}

#[test]
fn section_flags_unpack() {
    let mut s = section(0, 1);
    s.sh_flags = 0x1 | 0x4 | 0x0300_0000 | 0x8000_0000 | 0x10_0000_0000;
    let f = s.flags();
    assert!(f.write);
    assert!(!f.alloc);
    assert!(f.exec_instr);
    assert_eq!(f.os_bits, 0x0300_0000);
    assert_eq!(f.proc_bits, 0x8000_0000);
    assert_eq!(f.other_bits, 0x10_0000_0000);
}

#[test]
fn symbol_info_0x12_is_global_function() {
    for big in [false, true] {
        let mut bytes = vec![0u8; 16];
        bytes.extend(sym_bytes(7, 0x12, 0, 5, 0x401000, 42, big));
        let sec = symtab_section(16, 24, 24);
        let syms = decode_symbols(&bytes, big, &sec).unwrap();
        assert_eq!(syms.len(), 1);
        let s = syms[0];
        assert_eq!(s.binding_value(), 1);
        assert_eq!(s.type_value(), 2);
        assert_eq!(s.binding(), SymbolBinding::Global);
        assert_eq!(s.sym_type(), SymbolType::Func);
        assert_eq!(s.st_name, 7);
        assert_eq!(s.st_shndx, 5);
        assert_eq!(s.st_value, 0x401000);
        assert_eq!(s.st_size, 42);
    }
}

#[test]
fn symbols_keep_null_entry_and_order() {
    let mut bytes = vec![0u8; 24];
    bytes.extend(sym_bytes(1, 0x01, 0, 1, 0x10, 4, false));
    bytes.extend(sym_bytes(9, 0x22, 2, 2, 0x20, 8, false));
    let mut sec = symtab_section(0, 72, 24);
    sec.sh_type = 11;
    let syms = decode_symbols(&bytes, false, &sec).unwrap();
    assert_eq!(syms.len(), 3);
    assert_eq!(syms[0].st_name, 0);
    assert_eq!(syms[0].binding(), SymbolBinding::Local);
    assert_eq!(syms[0].sym_type(), SymbolType::NoType);
    assert_eq!(syms[1].sym_type(), SymbolType::Object);
    assert_eq!(syms[2].binding(), SymbolBinding::Weak);
    assert_eq!(syms[2].sym_type(), SymbolType::Func);
    assert_eq!(syms[2].st_other, 2);
}

#[test]
fn symbols_empty_section() {
    let sec = symtab_section(0, 0, 24);
    assert_eq!(decode_symbols(&[], false, &sec), Ok(vec![]));
}

#[test]
fn symbols_wrong_section_type() {
    let bytes = vec![0u8; 48];
    for t in [0u32, 1, 3, 8, 12, 0x6000_0000, 0x7000_0000, 0xFFFF_FFFF] {
        let mut sec = symtab_section(0, 48, 24);
        sec.sh_type = t;
        assert_eq!(decode_symbols(&bytes, false, &sec), Err(DecodeError::WrongSectionType));
    }
    let mut sec = symtab_section(1000, 7, 0);
    sec.sh_type = 1;
    assert_eq!(decode_symbols(&bytes, false, &sec), Err(DecodeError::WrongSectionType));
}

#[test]
fn symbols_bad_entry_size() {
    let bytes = vec![0u8; 96];
    assert_eq!(
        decode_symbols(&bytes, false, &symtab_section(0, 48, 0)),
        Err(DecodeError::BadEntrySize)
    );
    assert_eq!(
        decode_symbols(&bytes, false, &symtab_section(0, 50, 24)),
        Err(DecodeError::BadEntrySize)
    );
    assert_eq!(
        decode_symbols(&bytes, false, &symtab_section(0, 96, 32)),
        Err(DecodeError::BadEntrySize)
    );
}

#[test]
fn symbols_section_past_end() {
    let bytes = vec![0u8; 48];
    assert_eq!(
        decode_symbols(&bytes, false, &symtab_section(24, 48, 24)),
        Err(DecodeError::TooShort)
    );
    assert_eq!(
        decode_symbols(&bytes, false, &symtab_section(u64::MAX, 24, 24)),
        Err(DecodeError::TooShort)
    );
}

#[test]
fn section_well_formed() {
    let mut s = section(1, 1);
    s.sh_offset = 100;
    s.sh_size = 50;
    s.sh_addralign = 16;
    assert!(s.is_well_formed(150));
    assert!(!s.is_well_formed(149));
    s.sh_type = 8;
    assert!(s.is_well_formed(0));
    s.sh_addralign = 0;
    assert!(s.is_well_formed(0));
    s.sh_addralign = 1;
    assert!(s.is_well_formed(0));
    s.sh_addralign = 12;
    assert!(!s.is_well_formed(1000));
    s.sh_addralign = 1 << 63;
    assert!(s.is_well_formed(0));
    s.sh_type = 1;
    s.sh_addralign = 8;
    s.sh_offset = u64::MAX;
    s.sh_size = 1;
    assert!(!s.is_well_formed(u64::MAX));
}

#[test]
fn symbol_sections_found_in_order() {
    let tab = ShdrTab {
        tab: vec![section(0, 0), section(1, 2), section(2, 3), section(3, 11), section(4, 2)],
    };
    assert_eq!(tab.symbol_sections(), vec![1, 3, 4]);
    let none = ShdrTab { tab: vec![section(0, 0), section(1, 1)] };
    assert_eq!(none.symbol_sections(), Vec::<usize>::new());
}

#[test]
fn table_into_iter_keeps_order() {
    let expected = vec![section(0, 0), section(1, 1), section(2, 9)];
    let tab = ShdrTab { tab: expected.clone() };
    let got: Vec<Elf64_Shdr> = tab.into_iter().collect();
    assert_eq!(got, expected);
}

#[test]
fn sections_reaching_past_file_rejected() {
    // one PROGBITS section at offset 0 of size 0x1000 in a 128-byte input
    let mut s = section(0, 1);
    s.sh_offset = 0;
    s.sh_size = 0x1000;
    let mut bytes = vec![0u8; 64];
    bytes.extend(shdr_bytes(&s, false));
    assert_eq!(bytes.len(), 128);
    assert_eq!(decode_section_headers(&bytes, false, 64, 64, 1), Err(DecodeError::TooShort));
    assert_eq!(
        ShdrTab::read_shdr_table(&bytes, false, 64, 64, 1).err(),
        Some(DecodeError::TooShort)
    );
    // one bad entry among good ones rejects the whole table
    let mut bytes = vec![0u8; 64];
    bytes.extend(shdr_bytes(&section(0, 0), true));
    bytes.extend(shdr_bytes(&section(1, 1), true));
    let mut last = section(2, 3);
    last.sh_offset = 250;
    last.sh_size = 7;
    bytes.extend(shdr_bytes(&last, true));
    assert_eq!(bytes.len(), 256);
    assert_eq!(decode_section_headers(&bytes, true, 64, 64, 3), Err(DecodeError::TooShort));
    last.sh_size = 6;
    bytes.truncate(192);
    bytes.extend(shdr_bytes(&last, true));
    assert_eq!(decode_section_headers(&bytes, true, 64, 64, 3).map(|v| v.len()), Ok(3));
}

#[test]
fn nobits_section_may_exceed_file() {
    let mut s = section(0, 8);
    s.sh_offset = 0x10_0000;
    s.sh_size = 0x10_0000;
    let bytes = shdr_bytes(&s, false);
    assert_eq!(decode_section_headers(&bytes, false, 0, 64, 1), Ok(vec![s]));
    assert!(s.lies_in_file(64));
    s.sh_type = 1;
    assert!(!s.lies_in_file(64));
}
