use elf_inspect::classify::{DataEncoding, ElfClass, ObjectType, OsAbi};
use elf_inspect::error::DecodeError;
use elf_inspect::header::{decode_header, Elf64_Ehdr_Wrapper};

fn put(buf: &mut Vec<u8>, at: usize, v: u64, width: usize, big: bool) {
    for k in 0..width {
        let byte = ((v >> (8 * k)) & 0xFF) as u8;
        if big {
            buf[at + width - 1 - k] = byte;
        } else {
            buf[at + k] = byte;
        }
    }
}

fn sample_header(big: bool) -> Vec<u8> {
    let mut b = vec![0u8; 64];
    b[0] = 0x7F;
    b[1] = b'E';
    b[2] = b'L';
    b[3] = b'F';
    b[4] = 2;
    b[5] = if big { 2 } else { 1 };
    b[6] = 1;
    b[7] = 255;
    b[8] = 3;
    put(&mut b, 16, 3, 2, big);
    put(&mut b, 18, 0x3E, 2, big);
    put(&mut b, 20, 1, 4, big);
    put(&mut b, 24, 0x0040_1234_5678_9ABC, 8, big);
    put(&mut b, 32, 64, 8, big);
    put(&mut b, 40, 0x1122_3344_5566_7788, 8, big);
    put(&mut b, 48, 0xDEAD_BEEF, 4, big);
    put(&mut b, 52, 64, 2, big);
    put(&mut b, 54, 56, 2, big);
    put(&mut b, 56, 9, 2, big);
    put(&mut b, 58, 64, 2, big);
    put(&mut b, 60, 0x1D, 2, big);
    put(&mut b, 62, 0x1C, 2, big);
    b
}

fn check_sample_fields(b: &[u8]) {
    let h = decode_header(b).unwrap();
    assert_eq!(&h.e_ident[..], &b[0..16]);
    assert_eq!(h.e_type, 3);
    assert_eq!(h.e_machine, 0x3E);
    assert_eq!(h.e_version, 1);
    assert_eq!(h.e_entry, 0x0040_1234_5678_9ABC);
    assert_eq!(h.e_phoff, 64);
    assert_eq!(h.e_shoff, 0x1122_3344_5566_7788);
    assert_eq!(h.e_flags, 0xDEAD_BEEF);
    assert_eq!(h.e_ehsize, 64);
    assert_eq!(h.e_phentsize, 56);
    assert_eq!(h.e_phnum, 9);
    assert_eq!(h.e_shentsize, 64);
    assert_eq!(h.e_shnum, 0x1D);
    assert_eq!(h.e_shstrndx, 0x1C);
}

#[test]
fn header_round_trip_little_endian() {
    check_sample_fields(&sample_header(false));
}

#[test]
fn header_round_trip_big_endian() {
    check_sample_fields(&sample_header(true));
}

#[test]
fn header_byte_order_matters() {
    let mut b = sample_header(false);
    b[5] = 2;
    let h = decode_header(&b).unwrap();
    assert_eq!(h.e_type, 0x0300);
    assert_eq!(h.e_version, 0x0100_0000);
    assert_eq!(h.e_shoff, 0x8877_6655_4433_2211);
}

#[test]
fn header_too_short() {
    let b = sample_header(false);
    for n in 0..64 {
        assert_eq!(decode_header(&b[..n]).err(), Some(DecodeError::TooShort));
    }
    assert_eq!(decode_header(&[]).err(), Some(DecodeError::TooShort));
}

#[test]
fn header_short_and_bad_magic_is_too_short() {
    let b = vec![0u8; 10];
    assert_eq!(decode_header(&b).err(), Some(DecodeError::TooShort));
}

#[test]
fn header_bad_magic() {
    for k in 0..4 {
        let mut b = sample_header(false);
        b[k] ^= 0x20;
        assert_eq!(decode_header(&b).err(), Some(DecodeError::BadMagic));
    }
    let mut b = vec![0xFFu8; 200];
    b[0] = 0x7F;
    assert_eq!(decode_header(&b).err(), Some(DecodeError::BadMagic));
}

#[test]
fn header_unsupported_class() {
    for class in [0u8, 1, 3, 0xFF] {
        let mut b = sample_header(false);
        b[4] = class;
        assert_eq!(decode_header(&b).err(), Some(DecodeError::UnsupportedClass));
    }
}

#[test]
fn header_ignores_trailing_bytes() {
    let mut b = sample_header(false);
    b.extend_from_slice(&[0xAA; 100]);
    check_sample_fields(&b);
}

#[test]
fn wrapper_accessors() {
    let w = Elf64_Ehdr_Wrapper::read_ehdr(&sample_header(true)).unwrap();
    assert_eq!(w.sht_off(), 0x1122_3344_5566_7788usize);
    assert_eq!(w.sh_ent_size(), 64);
    assert_eq!(w.sh_num(), 0x1D);
    assert!(w.is_big_endian());
    assert_eq!(w.class(), ElfClass::Elf64);
    assert_eq!(w.data(), DataEncoding::BigEndian);
    assert_eq!(w.os_abi(), OsAbi::Standalone);
    assert_eq!(w.object_type(), ObjectType::Shared);
    let l = Elf64_Ehdr_Wrapper::read_ehdr(&sample_header(false)).unwrap();
    assert!(!l.is_big_endian());
    assert_eq!(l.data(), DataEncoding::LittleEndian);
}

#[test]
fn wrapper_reports_errors() {
    assert_eq!(
        Elf64_Ehdr_Wrapper::read_ehdr(&[0x7F, b'E', b'L', b'F']).err(),
        Some(DecodeError::TooShort)
    );
}
