use elflens::binary::{Binary, BinaryArch, BinaryType};
use elflens::errors::DecodeError;
use elflens::section::SectionType;
use elflens::symbol::SymbolType;

fn w16(b: &mut Vec<u8>, off: usize, v: u16) {
    b[off..off + 2].copy_from_slice(&v.to_le_bytes());
}

fn w32(b: &mut Vec<u8>, off: usize, v: u32) {
    b[off..off + 4].copy_from_slice(&v.to_le_bytes());
}

fn w64(b: &mut Vec<u8>, off: usize, v: u64) {
    b[off..off + 8].copy_from_slice(&v.to_le_bytes());
}

fn write_shdr(b: &mut Vec<u8>, idx: usize, name: u32, flags: u64, addr: u64, off: u64, size: u64) {
    let base = 64 + idx * 64;
    w32(b, base, name);
    w64(b, base + 8, flags);
    w64(b, base + 16, addr);
    w64(b, base + 24, off);
    w64(b, base + 32, size);
}

/// The minimal synthetic header: magic 7f 45 4c 46 02 01 01 00 ...,
/// e_type = 2, e_machine = 0x3e, e_entry = 0x401000, and no sections.
fn minimal_image() -> Vec<u8> {
    let mut b = vec![0u8; 64];
    b[0] = 0x7f;
    b[1] = 0x45;
    b[2] = 0x4c;
    b[3] = 0x46;
    b[4] = 2;
    b[5] = 1;
    b[6] = 1;
    w16(&mut b, 16, 2);
    w16(&mut b, 18, 0x3e);
    w32(&mut b, 20, 1);
    w64(&mut b, 24, 0x401000);
    b
}

/// An image with sections [<null>, .data, .text, .shstrtab]: .data before
/// .text in declared order.
fn two_section_image() -> Vec<u8> {
    let mut b = vec![0u8; 391];
    b[..64].copy_from_slice(&minimal_image());
    w64(&mut b, 40, 64);
    w16(&mut b, 58, 64);
    w16(&mut b, 60, 4);
    w16(&mut b, 62, 3);
    let strtab: &[u8] = b"\0.data\0.text\0.shstrtab\0";
    b[320..343].copy_from_slice(strtab);
    for i in 0..16 {
        b[343 + i] = 0xaa;
    }
    for i in 0..32 {
        b[359 + i] = 0x90;
    }
    write_shdr(&mut b, 0, 0, 0, 0, 0, 0);
    write_shdr(&mut b, 1, 1, 0x2, 0x2000, 343, 16);
    write_shdr(&mut b, 2, 7, 0x6, 0x401000, 359, 32);
    write_shdr(&mut b, 3, 13, 0, 0, 320, 23);
    b
}

/// An image with sections [<null>, .text, .shstrtab, .symtab, .strtab] and
/// two symbol entries: the null entry and the function "main" at 0x401000.
fn symbol_image() -> Vec<u8> {
    let mut b = vec![0u8; 471];
    b[..64].copy_from_slice(&minimal_image());
    w64(&mut b, 40, 64);
    w16(&mut b, 58, 64);
    w16(&mut b, 60, 5);
    w16(&mut b, 62, 2);
    let shstrtab: &[u8] = b"\0.text\0.shstrtab\0.symtab\0.strtab\0";
    assert_eq!(shstrtab.len(), 33);
    b[384..417].copy_from_slice(shstrtab);
    write_shdr(&mut b, 0, 0, 0, 0, 0, 0);
    write_shdr(&mut b, 1, 1, 0x6, 0x401000, 0, 16); // .text
    write_shdr(&mut b, 2, 7, 0, 0, 384, 33); // .shstrtab
    write_shdr(&mut b, 3, 17, 0, 0, 417, 48); // .symtab
    write_shdr(&mut b, 4, 25, 0, 0, 465, 6); // .strtab
    // Symbol entry 1: name "main" (offset 1), function, at the entry point.
    w32(&mut b, 417 + 24, 1);
    b[417 + 24 + 4] = 0x12; // global binding, function kind
    w64(&mut b, 417 + 24 + 8, 0x401000);
    let strtab: &[u8] = b"\0main\0";
    b[465..471].copy_from_slice(strtab);
    b
}

#[test]
fn minimal_binary_end_to_end() {
    let b = minimal_image();
    let bin = Binary::from_bytes("minimal".to_string(), b).unwrap();
    assert_eq!(bin.sections.len(), 0);
    assert_eq!(bin.symbols.len(), 0);
    assert_eq!(bin.entry, 0x401000);
    assert_eq!(bin.kind, BinaryType::BinTypeElf);
    assert_eq!(bin.type_str, "ELF");
    assert_eq!(bin.arch, BinaryArch::ArchX86);
    assert_eq!(bin.arch_str, "x86");
    assert_eq!(bin.bits, 64);
    assert_eq!(bin.filename, "minimal");
}

#[test]
fn construction_is_all_or_nothing() {
    let mut b = minimal_image();
    b[1] = 0;
    assert_eq!(
        Binary::from_bytes("broken".to_string(), b).unwrap_err(),
        DecodeError::BadMagic
    );
    let mut b2 = two_section_image();
    w64(&mut b2, 40, 384); // section-header table leaves the buffer
    assert_eq!(
        Binary::from_bytes("broken".to_string(), b2).unwrap_err(),
        DecodeError::OutOfBounds
    );
}

#[test]
fn unknown_machine_is_lenient() {
    let mut b = minimal_image();
    w16(&mut b, 18, 0x1234);
    let bin = Binary::from_bytes("odd".to_string(), b).unwrap();
    assert_eq!(bin.arch, BinaryArch::ArchNone);
    assert_eq!(bin.arch_str, "unknown");
}

#[test]
fn find_section_scans_past_first_mismatch() {
    // .data stands before .text: the scan must not stop at .data.
    let bin = Binary::from_bytes("two".to_string(), two_section_image()).unwrap();
    let text = bin.find_section_by_name(".text").unwrap();
    assert_eq!(text.name, ".text");
    assert_eq!(text.vma, 0x401000);
    assert_eq!(text.kind, SectionType::SecTypeCode);
    let data = bin.find_section_by_name(".data").unwrap();
    assert_eq!(data.vma, 0x2000);
    assert!(bin.find_section_by_name(".bss").is_none());
}

#[test]
fn get_text_section_finds_text() {
    let bin = Binary::from_bytes("two".to_string(), two_section_image()).unwrap();
    let text = bin.get_text_section().unwrap();
    assert_eq!(text.name, ".text");
    assert_eq!(text.size, 32);
    let stripped = Binary::from_bytes("min".to_string(), minimal_image()).unwrap();
    assert!(stripped.get_text_section().is_none());
}

#[test]
fn section_containing_resolves_addresses() {
    let bin = Binary::from_bytes("two".to_string(), two_section_image()).unwrap();
    let owner = bin.section_containing(0x401010).unwrap();
    assert_eq!(owner.name, ".text");
    let owner = bin.section_containing(0x2000).unwrap();
    assert_eq!(owner.name, ".data");
    // Outside every range: below, between, at a range's end, above.
    assert!(bin.section_containing(0x1fff).is_none());
    assert!(bin.section_containing(0x2010).is_none());
    assert!(bin.section_containing(0x401020).is_none());
    assert!(bin.section_containing(u64::MAX).is_none());
}

#[test]
fn section_bytes_hands_out_the_range() {
    let bin = Binary::from_bytes("two".to_string(), two_section_image()).unwrap();
    let data_bytes = bin.section_bytes(1);
    assert_eq!(data_bytes, &[0xaa; 16][..]);
    let text_bytes = bin.section_bytes(2);
    assert_eq!(text_bytes, &[0x90; 32][..]);
}

#[test]
fn symbols_are_read_in_order() {
    let bin = Binary::from_bytes("sym".to_string(), symbol_image()).unwrap();
    assert_eq!(bin.symbols.len(), 2);
    assert_eq!(bin.symbols[0].name, "");
    assert_eq!(bin.symbols[0].kind, SymbolType::SymTypeUkn);
    assert_eq!(bin.symbols[0].addr, 0);
    assert_eq!(bin.symbols[1].name, "main");
    assert_eq!(bin.symbols[1].kind, SymbolType::SymTypeFunc);
    assert_eq!(bin.symbols[1].addr, 0x401000);
}

#[test]
fn missing_symtab_means_no_symbols() {
    let bin = Binary::from_bytes("two".to_string(), two_section_image()).unwrap();
    assert_eq!(bin.symbols.len(), 0);
}

#[test]
fn symtab_without_strtab_fails() {
    let mut b = symbol_image();
    // Rename the ".strtab" section so the symbol table cannot pair with it.
    b[384 + 26] = b'x';
    assert_eq!(
        Binary::from_bytes("sym".to_string(), b).unwrap_err(),
        DecodeError::BadStringTableIndex
    );
}

#[test]
fn symbol_section_out_of_bounds() {
    let mut b = symbol_image();
    // .symtab claims more bytes than the file holds.
    write_shdr(&mut b, 3, 17, 0, 0, 417, 60);
    assert_eq!(
        Binary::from_bytes("sym".to_string(), b).unwrap_err(),
        DecodeError::OutOfBounds
    );
}

#[test]
fn ragged_symbol_section_ignores_tail() {
    let mut b = symbol_image();
    // 49 declared bytes still hold only two whole 24-byte entries.
    write_shdr(&mut b, 3, 17, 0, 0, 417, 49);
    // Keep the extra byte inside the buffer.
    b.push(0);
    let bin = Binary::from_bytes("sym".to_string(), b).unwrap();
    assert_eq!(bin.symbols.len(), 2);
}

#[test]
fn symbol_name_outside_string_table() {
    let mut b = symbol_image();
    w32(&mut b, 417 + 24, 6); // name offset at the table's end: no NUL follows
    assert_eq!(
        Binary::from_bytes("sym".to_string(), b).unwrap_err(),
        DecodeError::BadStringTableIndex
    );
}
