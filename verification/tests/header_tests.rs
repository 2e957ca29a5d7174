use elflens::errors::DecodeError;
use elflens::header::ElfHeader;

fn w16(b: &mut Vec<u8>, off: usize, v: u16) {
    b[off..off + 2].copy_from_slice(&v.to_le_bytes());
}

fn w32(b: &mut Vec<u8>, off: usize, v: u32) {
    b[off..off + 4].copy_from_slice(&v.to_le_bytes());
}

fn w64(b: &mut Vec<u8>, off: usize, v: u64) {
    b[off..off + 8].copy_from_slice(&v.to_le_bytes());
}

/// A well-formed little-endian 64-bit ELF header with distinctive fields.
fn sample_header() -> Vec<u8> {
    let mut b = vec![0u8; 64];
    b[0] = 0x7f;
    b[1] = 0x45;
    b[2] = 0x4c;
    b[3] = 0x46;
    b[4] = 2; // 64-bit class
    b[5] = 1; // little-endian
    b[6] = 1; // identification version
    w16(&mut b, 16, 2); // e_type: executable
    w16(&mut b, 18, 0x3e); // e_machine
    w32(&mut b, 20, 1); // e_version
    w64(&mut b, 24, 0x401000); // e_entry
    w64(&mut b, 32, 64); // e_phoff
    w64(&mut b, 40, 0); // e_shoff
    w32(&mut b, 48, 0x12345678); // e_flags
    w16(&mut b, 52, 64); // e_ehsize
    w16(&mut b, 54, 56); // e_phentsize
    w16(&mut b, 56, 3); // e_phnum
    w16(&mut b, 58, 64); // e_shentsize
    w16(&mut b, 60, 0); // e_shnum
    w16(&mut b, 62, 0); // e_shstrndx
    b
}

#[test]
fn too_short_empty() {
    let b: Vec<u8> = Vec::new();
    assert_eq!(
        ElfHeader::parse_elf_header(&b).unwrap_err(),
        DecodeError::TooShort
    );
}

#[test]
fn too_short_one_below_minimum() {
    let b = vec![0x7fu8; 63];
    assert_eq!(
        ElfHeader::parse_elf_header(&b).unwrap_err(),
        DecodeError::TooShort
    );
}

#[test]
fn bad_magic_each_byte() {
    for i in 0..4 {
        let mut b = sample_header();
        b[i] ^= 0xff;
        assert_eq!(
            ElfHeader::parse_elf_header(&b).unwrap_err(),
            DecodeError::BadMagic,
            "mutated magic byte {}",
            i
        );
    }
}

#[test]
fn unsupported_class() {
    let mut b = sample_header();
    b[4] = 1; // 32-bit class is recognized but not handled
    assert_eq!(
        ElfHeader::parse_elf_header(&b).unwrap_err(),
        DecodeError::UnsupportedClass
    );
}

#[test]
fn unsupported_version_byte() {
    let mut b = sample_header();
    b[6] = 0;
    assert_eq!(
        ElfHeader::parse_elf_header(&b).unwrap_err(),
        DecodeError::UnsupportedVersion
    );
}

#[test]
fn unsupported_encoding_byte() {
    let mut b = sample_header();
    b[5] = 3; // neither little- nor big-endian
    assert_eq!(
        ElfHeader::parse_elf_header(&b).unwrap_err(),
        DecodeError::UnsupportedVersion
    );
}

#[test]
fn round_trip_little_endian() {
    let b = sample_header();
    let h = ElfHeader::parse_elf_header(&b).unwrap();
    assert_eq!(&h.e_ident[..], &b[..16]);
    assert_eq!(h.e_type, 2);
    assert_eq!(h.e_machine, 0x3e);
    assert_eq!(h.e_version, 1);
    assert_eq!(h.e_entry, 0x401000);
    assert_eq!(h.e_phoff, 64);
    assert_eq!(h.e_shoff, 0);
    assert_eq!(h.e_flags, 0x12345678);
    assert_eq!(h.e_ehsize, 64);
    assert_eq!(h.e_phentsize, 56);
    assert_eq!(h.e_phnum, 3);
    assert_eq!(h.e_shentsize, 64);
    assert_eq!(h.e_shnum, 0);
    assert_eq!(h.e_shstrndx, 0);
}

#[test]
fn round_trip_big_endian() {
    let mut b = vec![0u8; 64];
    b[0] = 0x7f;
    b[1] = 0x45;
    b[2] = 0x4c;
    b[3] = 0x46;
    b[4] = 2;
    b[5] = 2; // big-endian
    b[6] = 1;
    b[16..18].copy_from_slice(&2u16.to_be_bytes());
    b[18..20].copy_from_slice(&0x3eu16.to_be_bytes());
    b[20..24].copy_from_slice(&1u32.to_be_bytes());
    b[24..32].copy_from_slice(&0xdead_beef_0042u64.to_be_bytes());
    b[60..62].copy_from_slice(&7u16.to_be_bytes());
    let h = ElfHeader::parse_elf_header(&b).unwrap();
    assert_eq!(h.e_type, 2);
    assert_eq!(h.e_machine, 0x3e);
    assert_eq!(h.e_version, 1);
    assert_eq!(h.e_entry, 0xdead_beef_0042);
    assert_eq!(h.e_shnum, 7);
}

#[test]
fn word_values_match_exact_bytes() {
    // 0x0201 little-endian at offset 16: bytes 01 02.
    let mut b = sample_header();
    b[16] = 0x01;
    b[17] = 0x02;
    let h = ElfHeader::parse_elf_header(&b).unwrap();
    assert_eq!(h.e_type, 0x0201);
}
